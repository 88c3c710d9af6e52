//! A child process on a pseudo-terminal, as the session logic sees it.

use vstd::prelude::*;
use vstd::string::*;

verus! {

/// A child that runs with the slave end of a pseudo-terminal as its
/// controlling terminal.
#[derive(Debug)]
pub struct Pty {
    /// Master FD
    fd: i32,
    /// Pid of the child process
    pid: i32,
    kill_on_drop: bool,
}

/// A `Pty` as a plain value.
pub struct PtyView {
    pub fd: i32,
    pub pid: i32,
    pub kill_on_drop: bool,
}

impl View for Pty {
    type V = PtyView;

    closed spec fn view(&self) -> PtyView {
        PtyView { fd: self.fd, pid: self.pid, kill_on_drop: self.kill_on_drop }
    }
}

impl Clone for Pty {
    fn clone(&self) -> (r: Self)
        ensures
            r@ == self@,
    {
        Pty { fd: self.fd, pid: self.pid, kill_on_drop: self.kill_on_drop }
    }
}

/// How to start a child on a pseudo-terminal: the program, its arguments,
/// its environment and its working directory.
#[derive(Debug)]
pub struct PtyBuilder {
    program: String,
    args: Vec<String>,
    inherit_env: bool,
    envs: Vec<(String, String)>,
    dir: Option<String>,
    daemonize: bool,
}

/// A `PtyBuilder` as a plain value.
pub struct PtyBuilderView {
    pub program: Seq<char>,
    pub args: Seq<Seq<char>>,
    /// Whether the child starts from the environment of the process that spawns it.
    pub inherit_env: bool,
    /// The variables set for the child, in the order in which they were
    /// given; a later one with the same key wins.
    pub envs: Seq<(Seq<char>, Seq<char>)>,
    pub dir: Option<Seq<char>>,
    pub daemonize: bool,
}

impl View for PtyBuilder {
    type V = PtyBuilderView;

    closed spec fn view(&self) -> PtyBuilderView {
        PtyBuilderView {
            program: self.program@,
            args: self.args.deep_view(),
            inherit_env: self.inherit_env,
            envs: self.envs.deep_view(),
            dir: self.dir.deep_view(),
            daemonize: self.daemonize,
        }
    }
}

impl PtyBuilderView {
    /// The value of the variable `key` as the child will see it set by
    /// this builder: that of the last entry with this key.
    pub open spec fn env_value(self, key: Seq<char>) -> Option<Seq<char>> {
        last_value(self.envs, key)
    }
}

/// The value of the last entry of `envs` whose key is `key`.
pub open spec fn last_value(envs: Seq<(Seq<char>, Seq<char>)>, key: Seq<char>) -> Option<
    Seq<char>,
>
    decreases envs.len(),
{
    if envs.len() == 0 {
        None
    } else if envs.last().0 == key {
        Some(envs.last().1)
    } else {
        last_value(envs.drop_last(), key)
    }
}

/// Whether a child that was told to terminate must now be killed.
/// `status` is what a non-blocking wait stored for the child after the
/// grace period: a positive value says that it has changed state.
pub open spec fn spec_must_kill(status: i32) -> bool {
    status <= 0
}

impl Pty {
    /// Starts the description of a child that runs `program`.
    pub fn new(program: &str) -> (r: PtyBuilder)
        ensures
            r@ == (PtyBuilderView {
                program: program@,
                args: Seq::empty(),
                inherit_env: true,
                envs: Seq::empty(),
                dir: None,
                daemonize: false,
            }),
    {
        let r = PtyBuilder {
            program: String::from_str(program),
            args: Vec::new(),
            inherit_env: true,
            envs: Vec::new(),
            dir: None,
            daemonize: false,
        };
        assert(r.args.deep_view() =~= Seq::<Seq<char>>::empty());
        assert(r.envs.deep_view() =~= Seq::<(Seq<char>, Seq<char>)>::empty());
        r
    }

    /// The child will outlive this value.
    pub fn daemonize(&mut self)
        ensures
            final(self)@ == (PtyView { kill_on_drop: false, ..old(self)@ }),
    {
        self.kill_on_drop = false;
    }

    pub fn pid(&self) -> (r: i32)
        ensures
            r == self@.pid,
    {
        self.pid
    }

    pub fn fd(&self) -> (r: i32)
        ensures
            r == self@.fd,
    {
        self.fd
    }

    /// Whether the child is to be terminated when this value goes away.
    pub fn kills_on_drop(&self) -> (r: bool)
        ensures
            r == self@.kill_on_drop,
    {
        self.kill_on_drop
    }

    pub fn must_kill(status: i32) -> (r: bool)
        ensures
            r == spec_must_kill(status),
    {
        status <= 0
    }
}

impl PtyBuilder {
    /// Adds one argument.
    pub fn arg(self, arg: &str) -> (r: Self)
        ensures
            r@ == (PtyBuilderView { args: self@.args.push(arg@), ..self@ }),
    {
        let mut b = self;
        b.args.push(String::from_str(arg));
        assert(b.args.deep_view() =~= self.args.deep_view().push(arg@));
        b
    }

    /// Adds arguments, in their order.
    pub fn args(self, args: Vec<String>) -> (r: Self)
        ensures
            r@ == (PtyBuilderView { args: self@.args + args.deep_view(), ..self@ }),
    {
        let mut b = self;
        let mut i: usize = 0;
        assert(self@.args + args.deep_view().take(0) =~= self@.args);
        while i < args.len()
            invariant
                i <= args.len(),
                b@ == (PtyBuilderView {
                    args: self@.args + args.deep_view().take(i as int),
                    ..self@
                }),
            decreases args.len() - i,
        {
            let ghost before = b.args.deep_view();
            b.args.push(args[i].clone());
            assert(b.args.deep_view() =~= before.push(args[i as int]@));
            assert(self@.args + args.deep_view().take(i + 1) =~= (self@.args
                + args.deep_view().take(i as int)).push(args[i as int]@));
            i = i + 1;
        }
        assert(args.deep_view().take(i as int) =~= args.deep_view());
        b
    }

    /// The child starts from an empty environment; variables given so far are dropped.
    pub fn env_clear(self) -> (r: Self)
        ensures
            r@ == (PtyBuilderView { inherit_env: false, envs: Seq::empty(), ..self@ }),
    {
        let mut b = self;
        b.inherit_env = false;
        b.envs = Vec::new();
        assert(b.envs.deep_view() =~= Seq::<(Seq<char>, Seq<char>)>::empty());
        b
    }

    /// Sets one variable for the child.
    pub fn env(self, key: &str, val: &str) -> (r: Self)
        ensures
            r@ == (PtyBuilderView { envs: self@.envs.push((key@, val@)), ..self@ }),
            r@.env_value(key@) == Some(val@),
    {
        let mut b = self;
        b.envs.push((String::from_str(key), String::from_str(val)));
        assert(b.envs.deep_view() =~= self.envs.deep_view().push((key@, val@)));
        b
    }

    /// Sets variables for the child, in their order.
    pub fn envs(self, vars: Vec<(String, String)>) -> (r: Self)
        ensures
            r@ == (PtyBuilderView { envs: self@.envs + vars.deep_view(), ..self@ }),
    {
        let mut b = self;
        let mut i: usize = 0;
        assert(self@.envs + vars.deep_view().take(0) =~= self@.envs);
        while i < vars.len()
            invariant
                i <= vars.len(),
                b@ == (PtyBuilderView {
                    envs: self@.envs + vars.deep_view().take(i as int),
                    ..self@
                }),
            decreases vars.len() - i,
        {
            let ghost before = b.envs.deep_view();
            let key = vars[i].0.clone();
            let val = vars[i].1.clone();
            b.envs.push((key, val));
            assert(b.envs.deep_view() =~= before.push((vars[i as int].0@, vars[i as int].1@)));
            assert(self@.envs + vars.deep_view().take(i + 1) =~= (self@.envs
                + vars.deep_view().take(i as int)).push(vars.deep_view()[i as int]));
            i = i + 1;
        }
        assert(vars.deep_view().take(i as int) =~= vars.deep_view());
        b
    }

    /// The child will outlive the process that spawns it.
    pub fn daemonize(self) -> (r: Self)
        ensures
            r@ == (PtyBuilderView { daemonize: true, ..self@ }),
    {
        let mut b = self;
        b.daemonize = true;
        b
    }

    /// The child will be terminated together with its `Pty`.
    pub fn kill_on_drop(self) -> (r: Self)
        ensures
            r@ == (PtyBuilderView { daemonize: false, ..self@ }),
    {
        let mut b = self;
        b.daemonize = false;
        b
    }

    pub fn set_daemonize(&mut self, daemonize: bool)
        ensures
            final(self)@ == (PtyBuilderView { daemonize: daemonize, ..old(self)@ }),
    {
        self.daemonize = daemonize;
    }

    /// Sets the child's working directory.
    pub fn current_dir(self, dir: &str) -> (r: Self)
        ensures
            r@ == (PtyBuilderView { dir: Some(dir@), ..self@ }),
    {
        let mut b = self;
        b.dir = Some(String::from_str(dir));
        b
    }

    /// The child as it stands once it runs: `fd` is the master end of its
    /// terminal and `pid` its process id. It is terminated with the `Pty`
    /// unless the builder asked for a daemon.
    pub fn spawned(&self, fd: i32, pid: i32) -> (r: Pty)
        ensures
            r@ == (PtyView { fd: fd, pid: pid, kill_on_drop: !self@.daemonize }),
    {
        Pty { fd, pid, kill_on_drop: !self.daemonize }
    }

    pub fn program(&self) -> (r: &String)
        ensures
            r@ == self@.program,
    {
        &self.program
    }

    pub fn arguments(&self) -> (r: &Vec<String>)
        ensures
            r.deep_view() == self@.args,
    {
        &self.args
    }

    pub fn inherits_env(&self) -> (r: bool)
        ensures
            r == self@.inherit_env,
    {
        self.inherit_env
    }

    pub fn variables(&self) -> (r: &Vec<(String, String)>)
        ensures
            r.deep_view() == self@.envs,
    {
        &self.envs
    }

    pub fn working_dir(&self) -> (r: &Option<String>)
        ensures
            r.deep_view() == self@.dir,
    {
        &self.dir
    }

    pub fn is_daemon(&self) -> (r: bool)
        ensures
            r == self@.daemonize,
    {
        self.daemonize
    }
}

} // verus!
