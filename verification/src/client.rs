//! The decisions of a client: what to send, when to leave, what to say.

use vstd::prelude::*;
use vstd::string::*;
use crate::cli::{Command, SelectorView, SessionSelector};
use crate::error::SeshError;
use crate::naming::{last_segment, lemma_last_slash_found};
use crate::proto::{SeshInfo, SeshInfoView, SeshStartRequest, Var};
use crate::term::{Size, WinSize};

verus! {

/// The first byte of the detach key: escape.
pub const DETACH_KEY_ESC: u8 = 0x1B;

/// The second byte of the detach key: backslash.
pub const DETACH_KEY_CHAR: u8 = 0x5C;

/// The seconds that a client waits for a daemon that it has started.
pub const BOOT_WAIT_SECS: u64 = 5;

/// The value of `errno` that says that no such process exists.
pub const ESRCH: i32 = 3;

/// Why a client stops relaying.
#[derive(Clone, Copy, Debug, PartialEq, Eq, Structural)]
pub enum ExitKind {
    /// The session is over.
    Quit,
    /// The session goes on without this client.
    Detach,
}

/// How `list` shows the sessions.
#[derive(Clone, Copy, Debug, PartialEq, Eq, Structural)]
pub enum ListMode {
    List,
    Table,
    Json,
}

impl ListMode {
    /// JSON where `json` is asked for, else a table where `table` is, else a list.
    pub fn new(table: bool, json: bool) -> (r: Self)
        ensures
            r == if json {
                ListMode::Json
            } else if table {
                ListMode::Table
            } else {
                ListMode::List
            },
    {
        if json {
            ListMode::Json
        } else if table {
            ListMode::Table
        } else {
            ListMode::List
        }
    }
}

/// Whether a chunk of input begins with the detach key.
pub open spec fn spec_is_detach_chunk(chunk: Seq<u8>) -> bool {
    chunk.len() >= 2 && chunk[0] == DETACH_KEY_ESC && chunk[1] == DETACH_KEY_CHAR
}

pub fn is_detach_chunk(chunk: &[u8]) -> (r: bool)
    ensures
        r == spec_is_detach_chunk(chunk@),
{
    chunk.len() >= 2 && chunk[0] == DETACH_KEY_ESC && chunk[1] == DETACH_KEY_CHAR
}

/// What the client does with a chunk read from the terminal.
#[derive(Clone, Copy, Debug, PartialEq, Eq, Structural)]
pub enum InputStep {
    /// The terminal is at its end: stop.
    Stop,
    /// Ask the daemon to detach, and stop.
    Detach,
    /// Write the chunk to the session, flush, go on.
    Forward,
}

pub open spec fn spec_input_step(chunk: Seq<u8>) -> InputStep {
    if chunk.len() == 0 {
        InputStep::Stop
    } else if spec_is_detach_chunk(chunk) {
        InputStep::Detach
    } else {
        InputStep::Forward
    }
}

/// What the client does with `chunk`, the bytes that one read from the terminal gave.
pub fn input_step(chunk: &[u8]) -> (r: InputStep)
    ensures
        r == spec_input_step(chunk@),
{
    if chunk.len() == 0 {
        InputStep::Stop
    } else if is_detach_chunk(chunk) {
        InputStep::Detach
    } else {
        InputStep::Forward
    }
}

/// Whether a probe of the child with signal 0 shows that it is gone:
/// the probe failed and `errno` says that there is no such process.
pub fn child_is_gone(probe: i32, errno: i32) -> (r: bool)
    ensures
        r == (probe == -1 && errno == ESRCH),
{
    probe == -1 && errno == ESRCH
}

/// Whether a client has waited too long for the daemon's socket.
pub fn boot_timed_out(elapsed_secs: u64) -> (r: bool)
    ensures
        r == (elapsed_secs > BOOT_WAIT_SECS),
{
    elapsed_secs > BOOT_WAIT_SECS
}

/// Whether `command` needs a daemon to be started where none runs. The
/// commands that only inspect or end sessions do not: without a daemon
/// there is nothing for them to do.
pub fn needs_daemon(command: &Command) -> (r: bool)
    ensures
        r == !(command is Shutdown || command is List || command is Kill),
{
    match command {
        Command::Shutdown => false,
        Command::List { .. } => false,
        Command::Kill { .. } => false,
        _ => true,
    }
}

/// What a client says when it stops relaying.
pub open spec fn spec_exit_message(kind: ExitKind) -> Seq<char> {
    match kind {
        ExitKind::Quit => "[exited]"@,
        ExitKind::Detach => "[detached]"@,
    }
}

pub fn exit_message(kind: ExitKind) -> (r: String)
    ensures
        r@ == spec_exit_message(kind),
{
    match kind {
        ExitKind::Quit => String::from_str("[exited]"),
        ExitKind::Detach => String::from_str("[detached]"),
    }
}

/// What a client says after a start request: how its relay ended, or,
/// where it did not attach, that the session has started.
pub fn start_message(exit: Option<ExitKind>) -> (r: String)
    ensures
        r@ == match exit {
            Some(kind) => spec_exit_message(kind),
            None => "[started]"@,
        },
{
    match exit {
        Some(kind) => exit_message(kind),
        None => String::from_str("[started]"),
    }
}

/// What a client says after a kill request that removed the session `selector`.
pub open spec fn spec_killed_message(selector: SelectorView) -> Seq<char> {
    "[killed "@ + selector.label() + "]"@
}

/// What a client says after a kill request: the session that was
/// removed, or as an error that none was.
pub fn kill_message(selector: &SessionSelector, success: bool) -> (r: Result<String, String>)
    ensures
        match r {
            Ok(text) => success && text@ == spec_killed_message(selector@),
            Err(text) => !success && text@ == "Could not kill process"@,
        },
{
    if success {
        let mut out = String::from_str("[killed ");
        let label = selector.label();
        out.append(label.as_str());
        out.append("]");
        assert(out@ =~= spec_killed_message(selector@));
        Ok(out)
    } else {
        Err(String::from_str("Could not kill process"))
    }
}

/// What a client says after a shutdown request.
pub fn shutdown_message(success: bool) -> (r: Result<String, String>)
    ensures
        match r {
            Ok(text) => success && text@ == "[shutdown]"@,
            Err(text) => !success && text@ == "Failed to shutdown server"@,
        },
{
    if success {
        Ok(String::from_str("[shutdown]"))
    } else {
        Err(String::from_str("Failed to shutdown server"))
    }
}

/// The program to run: the one given, else the shell of the variable
/// `SHELL`, else `bash`.
pub fn get_program(program: Option<String>, shell_var: Option<String>) -> (r: String)
    ensures
        r@ == match program {
            Some(p) => p@,
            None => match shell_var {
                Some(shell) => shell@,
                None => "bash"@,
            },
        },
{
    match program {
        Some(p) => p,
        None => match shell_var {
            Some(shell) => shell,
            None => String::from_str("bash"),
        },
    }
}

/// The start request of a client. A session for which no name is given
/// asks for the name of its program.
pub fn start_request(
    name: Option<String>,
    program: String,
    args: Vec<String>,
    size: Size,
    pwd: String,
    env: Vec<Var>,
) -> (r: SeshStartRequest)
    ensures
        r.name@ == match name {
            Some(n) => n@,
            None => program@,
        },
        r.program@ == program@,
        r.args == args,
        r.size == Some(WinSize { rows: size.rows as u32, cols: size.cols as u32 }),
        r.pwd == pwd,
        r.env == env,
{
    let name = match name {
        Some(n) => n,
        None => program.clone(),
    };
    SeshStartRequest { name, program, args, size: Some(size.to_request()), pwd, env }
}

/// Whether the session at `i` is the one to resume among `sessions`: no
/// client holds it, and no session without a client was attached or
/// detached later, nor as late and further back in the list.
pub open spec fn is_resume_choice(sessions: Seq<SeshInfoView>, i: int) -> bool {
    &&& 0 <= i < sessions.len()
    &&& !sessions[i].connected
    &&& forall|j: int|
        0 <= j < sessions.len() && !(#[trigger] sessions[j]).connected ==> sessions[j].attach_time
            < sessions[i].attach_time || (sessions[j].attach_time == sessions[i].attach_time && j
            <= i)
}

/// The session to resume: of those that no client holds, the one that
/// was attached or detached last; of several such, the last in the list.
/// `None` where a client holds every session.
pub fn pick_resume(sessions: &Vec<SeshInfo>) -> (r: Option<usize>)
    ensures
        match r {
            Some(i) => is_resume_choice(sessions.deep_view(), i as int),
            None => forall|j: int|
                0 <= j < sessions.len() ==> (#[trigger] sessions.deep_view()[j]).connected,
        },
{
    let mut best: Option<usize> = None;
    let mut i: usize = 0;
    let ghost all = sessions.deep_view();
    while i < sessions.len()
        invariant
            i <= sessions.len(),
            all == sessions.deep_view(),
            all.len() == sessions.len(),
            match best {
                Some(b) => is_resume_choice(all.take(i as int), b as int),
                None => forall|j: int| 0 <= j < i ==> (#[trigger] all[j]).connected,
            },
        decreases sessions.len() - i,
    {
        let ghost seen = all.take(i as int);
        let ghost next = all.take(i + 1);
        assert(all[i as int] == sessions[i as int].deep_view());
        assert(forall|j: int| 0 <= j < i ==> next[j] == seen[j]);
        if !sessions[i].connected {
            let better = match best {
                Some(b) => {
                    assert(seen[b as int] == all[b as int]);
                    assert(all[b as int] == sessions[b as int].deep_view());
                    sessions[b].attach_time <= sessions[i].attach_time
                },
                None => true,
            };
            if better {
                assert forall|j: int|
                    0 <= j < next.len() && !(#[trigger] next[j]).connected implies next[j].attach_time
                    < next[i as int].attach_time || (next[j].attach_time == next[i as int].attach_time
                    && j <= i) by {
                    if j < i {
                        assert(!seen[j].connected);
                    }
                }
                best = Some(i);
            } else {
                assert(is_resume_choice(next, best->0 as int)) by {
                    let b = best->0 as int;
                    assert forall|j: int|
                        0 <= j < next.len() && !(#[trigger] next[j]).connected implies next[j].attach_time
                        < next[b].attach_time || (next[j].attach_time == next[b].attach_time && j
                        <= b) by {
                        if j < i {
                            assert(!seen[j].connected);
                        }
                    }
                }
            }
        } else {
            proof {
                if best is Some {
                    let b = best->0 as int;
                    assert forall|j: int|
                        0 <= j < next.len() && !(#[trigger] next[j]).connected implies next[j].attach_time
                        < next[b].attach_time || (next[j].attach_time == next[b].attach_time && j
                        <= b) by {
                        if j < i {
                            assert(!seen[j].connected);
                        }
                    }
                }
            }
        }
        i = i + 1;
    }
    assert(all.take(i as int) =~= all);
    best
}

/// What `resume` does.
pub enum ResumeStep {
    /// Attach to the session of this name.
    Attach(String),
    /// Start a new session and attach to it.
    Start,
    /// Say that there is nothing to resume.
    Nothing,
}

/// What `resume` does: it attaches to the session picked among
/// `sessions`, or, where there is none, starts one if `create` says so.
pub fn resume_step(sessions: &Vec<SeshInfo>, create: bool) -> (r: ResumeStep)
    ensures
        match r {
            ResumeStep::Attach(name) => exists|i: int|
                is_resume_choice(sessions.deep_view(), i) && name@ == (
                #[trigger] sessions.deep_view()[i]).name,
            ResumeStep::Start => create && forall|j: int|
                0 <= j < sessions.len() ==> (#[trigger] sessions.deep_view()[j]).connected,
            ResumeStep::Nothing => !create && forall|j: int|
                0 <= j < sessions.len() ==> (#[trigger] sessions.deep_view()[j]).connected,
        },
{
    match pick_resume(sessions) {
        Some(i) => {
            assert(sessions.deep_view()[i as int] == sessions[i as int].deep_view());
            ResumeStep::Attach(sessions[i].name.clone())
        },
        None => if create {
            ResumeStep::Start
        } else {
            ResumeStep::Nothing
        },
    }
}

/// The session that a detach command means: the one it names, or else
/// the one in which the command runs, whose name the variable `SESH_NAME`
/// holds. Without either, the command fails with `Env`.
pub fn detach_selector(session: Option<SessionSelector>, current: Option<String>) -> (r: Result<
    SessionSelector,
    SeshError,
>)
    ensures
        match session {
            Some(selector) => r matches Ok(s) && s@ == selector@,
            None => match current {
                Some(name) => r matches Ok(s) && s@ == SelectorView::Name(name@),
                None => r == Err::<SessionSelector, SeshError>(SeshError::Env),
            },
        },
{
    match session {
        Some(selector) => Ok(selector),
        None => match current {
            Some(name) => Ok(SessionSelector::Name(name)),
            None => Err(SeshError::Env),
        },
    }
}

/// What an attach command does once the daemon has refused it for
/// `reason`: where `create` is set, a session is to be started, under the
/// name that the selector gave if it gave one; otherwise the command fails.
pub fn after_refused_attach(session: SessionSelector, create: bool, reason: &str) -> (r: Result<
    Option<String>,
    String,
>)
    ensures
        match r {
            Ok(name) => create && name.deep_view() == match session@ {
                SelectorView::Id(_) => None::<Seq<char>>,
                SelectorView::Name(n) => Some(n),
            },
            Err(text) => !create && text@ == "Session not found: "@ + reason@,
        },
{
    if create {
        Ok(session.name())
    } else {
        let mut out = String::from_str("Session not found: ");
        out.append(reason);
        Err(out)
    }
}

/// What the JSON form of `list` tells of one session.
#[derive(Debug)]
pub struct SeshInfoSer {
    pub index: usize,
    pub name: String,
    pub program: String,
    pub socket: String,
    pub connected: bool,
    pub start_time: i64,
    pub attach_time: i64,
}

impl SeshInfoSer {
    /// The record for `info`. An id that does not fit in `usize` keeps its low bits.
    pub fn of(info: &SeshInfo) -> (r: SeshInfoSer)
        ensures
            r.index == info.id as usize,
            r.name@ == info.name@,
            r.program@ == info.program@,
            r.socket@ == info.socket@,
            r.connected == info.connected,
            r.start_time == info.start_time,
            r.attach_time == info.attach_time,
    {
        SeshInfoSer {
            index: #[verifier::truncate]
            (info.id as usize),
            name: info.name.clone(),
            program: info.program.clone(),
            socket: info.socket.clone(),
            connected: info.connected,
            start_time: info.start_time,
            attach_time: info.attach_time,
        }
    }
}

/// The name of a program without the directories that lead to it.
pub fn program_label(program: &str) -> (r: String)
    ensures
        r@ == last_segment(program@),
{
    let len = program.unicode_len();
    let mut start: usize = len;
    while start > 0 && program.get_char(start - 1) != '/'
        invariant
            start <= len,
            len == program@.len(),
            forall|i: int| start <= i < len ==> program@[i] != '/',
        decreases start,
    {
        start = start - 1;
    }
    proof {
        lemma_last_slash_found(program@, start as int);
        assert(last_segment(program@) =~= program@.subrange(start as int, len as int));
    }
    String::from_str(program.substring_char(start, len))
}

/// Whether a session has ever had a client come or go.
pub fn was_attached(attach_time: i64) -> (r: bool)
    ensures
        r == (attach_time > 0),
{
    attach_time > 0
}

} // verus!
