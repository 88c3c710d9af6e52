//! What a person types on the command line, once parsed.

use vstd::prelude::*;
use vstd::string::*;
use crate::text::{decimal, decimal_string, parse_decimal, parse_usize, lemma_parse_decimal_of_decimal};

verus! {

/// Names a session by its id or by its name.
#[derive(Debug)]
pub enum SessionSelector {
    Id(usize),
    Name(String),
}

/// A selector as a plain value.
pub enum SelectorView {
    Id(usize),
    Name(Seq<char>),
}

impl View for SessionSelector {
    type V = SelectorView;

    open spec fn view(&self) -> SelectorView {
        match self {
            SessionSelector::Id(id) => SelectorView::Id(*id),
            SessionSelector::Name(name) => SelectorView::Name(name@),
        }
    }
}

impl DeepView for SessionSelector {
    type V = SelectorView;

    open spec fn deep_view(&self) -> SelectorView {
        self@
    }
}

impl SelectorView {
    /// The text that selects the same session on the command line.
    pub open spec fn label(self) -> Seq<char> {
        match self {
            SelectorView::Id(id) => decimal(id as nat),
            SelectorView::Name(name) => name,
        }
    }

    /// The selector that a command-line argument stands for: an id where
    /// the text reads as a number that fits, a name otherwise.
    pub open spec fn parse(text: Seq<char>) -> SelectorView {
        match parse_decimal(text, usize::MAX as nat) {
            Some(n) => SelectorView::Id(n as usize),
            None => SelectorView::Name(text),
        }
    }
}

impl Clone for SessionSelector {
    fn clone(&self) -> (r: Self)
        ensures
            r@ == self@,
    {
        match self {
            SessionSelector::Id(id) => SessionSelector::Id(*id),
            SessionSelector::Name(name) => SessionSelector::Name(name.clone()),
        }
    }
}

impl SessionSelector {
    /// The name, where the selector is one.
    pub fn name(self) -> (r: Option<String>)
        ensures
            match self@ {
                SelectorView::Id(_) => r is None,
                SelectorView::Name(name) => r matches Some(s) && s@ == name,
            },
    {
        match self {
            SessionSelector::Id(_) => None,
            SessionSelector::Name(name) => Some(name),
        }
    }

    /// The selector as text: the id in decimal, or the name itself.
    pub fn label(&self) -> (r: String)
        ensures
            r@ == self@.label(),
    {
        match self {
            SessionSelector::Id(id) => decimal_string(*id),
            SessionSelector::Name(name) => name.clone(),
        }
    }

    /// Reads a command-line argument as a selector.
    pub fn parse(text: &str) -> (r: SessionSelector)
        ensures
            r@ == SelectorView::parse(text@),
    {
        match parse_usize(text) {
            Some(id) => SessionSelector::Id(id),
            None => SessionSelector::Name(String::from_str(text)),
        }
    }
}

/// An id selector written as text and read back is the same selector.
pub proof fn lemma_id_label_parses_back(id: usize)
    ensures
        SelectorView::parse(SelectorView::Id(id).label()) == SelectorView::Id(id),
{
    lemma_parse_decimal_of_decimal(id as nat, usize::MAX as nat);
}

/// A name selector written as text and read back is the same selector,
/// unless the name reads as a number.
pub proof fn lemma_name_label_parses_back(name: Seq<char>)
    requires
        parse_decimal(name, usize::MAX as nat) is None,
    ensures
        SelectorView::parse(SelectorView::Name(name).label()) == SelectorView::Name(name),
{
}

/// The arguments given without a subcommand.
#[derive(Debug)]
pub struct CliArgs {
    pub program: Option<String>,
    pub args: Vec<String>,
    pub name: Option<String>,
    pub detached: bool,
}

/// What the client is asked to do.
#[derive(Debug)]
#[allow(inconsistent_fields)]
pub enum Command {
    /// Resume the last used session
    Resume {
        /// Create a new session if one does not exist
        create: bool,
    },
    /// Start a new session, optionally specifying a name
    Start { name: Option<String>, program: Option<String>, args: Vec<String>, detached: bool },
    /// Attach to a session
    Attach {
        /// Id or name of session
        session: SessionSelector,
        /// Create a new session if one does not exist
        create: bool,
    },
    /// Fuzzy select a session to attach to
    Select,
    /// Detach from a session
    Detach {
        /// Id or name of session
        session: Option<SessionSelector>,
    },
    /// Kill a session
    Kill {
        /// Id or name of session
        session: SessionSelector,
    },
    /// List sessions
    List {
        /// Print detailed info about sessions
        info: bool,
        /// Print the sessions as JSON
        json: bool,
    },
    /// Shutdown the server (kill all sessions)
    Shutdown,
}

/// A parsed command line.
#[derive(Debug)]
pub struct Cli {
    pub command: Option<Command>,
    pub args: CliArgs,
}

impl Cli {
    /// The command to run: the one given, or else a start with the
    /// arguments that stand without a subcommand.
    pub fn into_command(self) -> (r: Command)
        ensures
            match self.command {
                Some(command) => r == command,
                None => r == (Command::Start {
                    name: self.args.name,
                    program: self.args.program,
                    args: self.args.args,
                    detached: self.args.detached,
                }),
            },
    {
        match self.command {
            Some(command) => command,
            None => Command::Start {
                name: self.args.name,
                program: self.args.program,
                args: self.args.args,
                detached: self.args.detached,
            },
        }
    }
}

} // verus!
