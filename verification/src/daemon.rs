//! The daemon's handlers: what each request does to the registry, what it
//! answers, and what is left for the daemon to do outside the registry.

use vstd::prelude::*;
use vstd::string::*;
use crate::cli::{SelectorView, SessionSelector};
use crate::clock::now_millis;
use crate::commands::Command;
use crate::consistency::{
    lemma_clean_sane, lemma_client_changes_sane, lemma_insert_sane, lemma_remove_sane,
};
use crate::error::SeshError;
use crate::naming::{base_name, session_base_name, session_socket_path, socket_path, unique_name};
use crate::proto::{
    SeshAttachResponse, SeshDetachResponse, SeshInfo, SeshInfoView, SeshKillResponse,
    SeshListResponse, SeshResizeResponse, SeshStartRequest, SeshStartResponse,
    ShutdownServerResponse, Var,
};
use crate::pty::{Pty, PtyBuilder, PtyBuilderView, PtyView};
use crate::registry::{is_listing, RegistryView, SessionList};
use crate::session::{Session, SessionInfoView, SessionView};
use crate::term::{Size, WinSize};

verus! {

/// Whether the daemon leaves once its last session is gone.
pub const EXIT_ON_EMPTY: bool = true;

/// The daemon: its sessions and the directory in which their sockets lie.
pub struct Seshd {
    sessions: SessionList,
    runtime_dir: String,
}

/// A daemon as a plain value.
pub struct SeshdView {
    pub registry: RegistryView,
    pub runtime_dir: Seq<char>,
}

impl View for Seshd {
    type V = SeshdView;

    closed spec fn view(&self) -> SeshdView {
        SeshdView { registry: self.sessions@, runtime_dir: self.runtime_dir@ }
    }
}

/// How the child of a new session is to be started, and what the session
/// will be called.
pub struct StartPlan {
    /// The name of the session.
    pub name: String,
    pub program: String,
    /// The socket to bind for the session.
    pub socket: String,
    /// The child to spawn.
    pub builder: PtyBuilder,
    /// The window size with which to open the pseudo-terminal.
    pub spawn_size: Size,
    /// The window size to give the pseudo-terminal once the child runs.
    pub size: Size,
}

/// A relay to start: it waits for one client on `socket` and then moves
/// bytes between that client and the child of the session `name`.
pub struct Relay {
    pub name: String,
    pub socket: String,
    /// The window size to give the pseudo-terminal when the client connects.
    pub window: Size,
}

/// A session has been started.
pub struct Started {
    pub response: SeshStartResponse,
    pub relay: Relay,
}

/// The variables that tell a child in which session it runs.
pub open spec fn session_vars(socket: Seq<char>, name: Seq<char>) -> Seq<(Seq<char>, Seq<char>)> {
    seq![("SESH_SESSION"@, socket), ("SESH_NAME"@, name)]
}

impl RegistryView {
    /// The name that a new session gets that asks for `requested`.
    pub open spec fn new_name(self, requested: Seq<char>) -> Seq<char> {
        unique_name(base_name(requested), self.names())
    }

    /// The new session that gets the id `id`.
    pub open spec fn new_session(
        id: usize,
        name: Seq<char>,
        program: Seq<char>,
        socket: Seq<char>,
        pty: PtyView,
        start_time: i64,
    ) -> SessionView {
        SessionView { id, name, program, pty, info: SessionInfoView::fresh(socket, start_time) }
    }

    /// The registry with a new session under `name`. Its id is one that
    /// no session of this registry has had. Unchanged where no id is left.
    pub open spec fn inserted(
        self,
        name: Seq<char>,
        program: Seq<char>,
        socket: Seq<char>,
        pty: PtyView,
        start_time: i64,
    ) -> RegistryView {
        match self.new_id() {
            Some(id) => self.insert(
                name,
                RegistryView::new_session(id, name, program, socket, pty, start_time),
            ),
            None => self,
        }
    }

    /// The registry after a kill request: without the session that the
    /// selector stands for.
    pub open spec fn killed(self, selector: Option<SelectorView>) -> RegistryView {
        match selector {
            Some(sel) => match self.key_of(sel) {
                Some(name) => self.remove(name),
                None => self,
            },
            None => self,
        }
    }

    /// The session that a kill request removes.
    pub open spec fn kill_target(self, selector: Option<SelectorView>) -> Option<SessionView> {
        match selector {
            Some(sel) => self.find(sel),
            None => None,
        }
    }

    /// The session that a detach request sends its client away from,
    /// by the name under which it stands.
    pub open spec fn detach_target(self, selector: Option<SelectorView>) -> Option<Seq<char>> {
        match selector {
            Some(sel) => self.key_of(sel),
            None => None,
        }
    }

    /// The registry after the first half of a detach request.
    pub open spec fn detaching(self, selector: Option<SelectorView>) -> RegistryView {
        match self.detach_target(selector) {
            Some(name) => self.disconnected(name),
            None => self,
        }
    }

    /// The registry after both halves of a detach request, the second at `now`.
    pub open spec fn detached(self, selector: Option<SelectorView>, now: i64) -> RegistryView {
        match self.detach_target(selector) {
            Some(name) => self.disconnected(name).stamped(name, now),
            None => self,
        }
    }
}

/// What a kill request did.
pub struct Killed {
    pub response: SeshKillResponse,
    /// The session that left the registry. Its child and its socket are
    /// still to be destroyed.
    pub removed: Option<Session>,
    /// Whether the daemon is to shut down now.
    pub exit: bool,
}

/// A client may attach.
pub struct Attached {
    pub response: SeshAttachResponse,
    /// The window size to give the session's pseudo-terminal now.
    pub resize: Size,
    pub relay: Relay,
}

/// What the first half of a detach request leaves to do.
pub struct Detaching {
    /// The client to tell, if the request selects a session of the registry.
    pub notice: Option<DetachNotice>,
    /// The answer to give once the client, if there is one, has been told.
    pub response: SeshDetachResponse,
}

/// A client that is to be told to detach.
pub struct DetachNotice {
    /// The name under which the session stands.
    pub name: String,
    /// The socket on which the client takes the request.
    pub client_socket: String,
}

/// A pseudo-terminal whose window is to be resized.
pub struct Resizing {
    pub response: SeshResizeResponse,
    pub pty: Pty,
    pub size: Size,
}

/// The daemon shuts down.
pub struct Shutdown {
    pub response: ShutdownServerResponse,
    /// The sessions that left the registry. Their children and their
    /// sockets are still to be destroyed.
    pub removed: Vec<(String, Session)>,
}

/// The registry after an attach request that was answered with `r`: the
/// session is kept for the client that was told to come; a refused
/// request changes nothing.
pub open spec fn attach_effect(before: RegistryView, r: Result<Attached, SeshError>) -> RegistryView {
    match r {
        Ok(attached) => before.claimed(attached.relay.name@),
        Err(_) => before,
    }
}

/// What an attach request answers: `NoSession` without a selector,
/// `NotFound` where the selector finds no session, `AlreadyConnected`
/// where a client holds the session or it is kept for one.
pub open spec fn attach_post(
    reg: RegistryView,
    selector: Option<SelectorView>,
    size: Option<WinSize>,
    term: Size,
    r: Result<Attached, SeshError>,
) -> bool {
    match selector {
        None => r == Err::<Attached, SeshError>(SeshError::NoSession),
        Some(sel) => match reg.find(sel) {
            None => r == Err::<Attached, SeshError>(SeshError::NotFound),
            Some(session) => if !session.info.idle() {
                r == Err::<Attached, SeshError>(SeshError::AlreadyConnected)
            } else {
                &&& r matches Ok(attached)
                &&& attached.response.pid == session.pty.pid
                &&& attached.response.program@ == session.program
                &&& attached.response.name@ == session.name
                &&& attached.response.socket@ == session.info.sock_path
                &&& attached.resize == window_of(size, term).spec_relay()
                &&& Some(attached.relay.name@) == reg.key_of(sel)
                &&& attached.relay.socket@ == session.info.sock_path
                &&& attached.relay.window == window_of(size, term).spec_relay()
            },
        },
    }
}

/// The window size that a request asks for: the one it carries, or else `term`.
pub open spec fn window_of(size: Option<WinSize>, term: Size) -> Size {
    match size {
        Some(s) => Size::spec_of_request(s),
        None => term,
    }
}

/// What a resize request answers.
pub open spec fn resize_post(
    reg: RegistryView,
    selector: Option<SelectorView>,
    size: Option<WinSize>,
    r: Result<Resizing, SeshError>,
) -> bool {
    match size {
        None => r == Err::<Resizing, SeshError>(SeshError::InvalidSize),
        Some(wanted) => match selector {
            None => r == Err::<Resizing, SeshError>(SeshError::NotFound),
            Some(sel) => match reg.find(sel) {
                None => r == Err::<Resizing, SeshError>(SeshError::NotFound),
                Some(session) => {
                    &&& r matches Ok(resizing)
                    &&& resizing.pty@ == session.pty
                    &&& resizing.size == Size::spec_of_request(wanted).spec_relay()
                },
            },
        },
    }
}

/// Whether `infos` tells of each session of `sessions` once, and of nothing else.
pub open spec fn is_info_listing(infos: Seq<SeshInfoView>, sessions: Map<Seq<char>, SessionView>) -> bool {
    exists|listed: Seq<(Seq<char>, SessionView)>|
        #![trigger is_listing(listed, sessions)]
        is_listing(listed, sessions) && infos == info_views(listed)
}

/// What `list` tells of each of the sessions `listed`, in their order.
pub open spec fn info_views(listed: Seq<(Seq<char>, SessionView)>) -> Seq<SeshInfoView> {
    Seq::new(listed.len(), |i: int| SeshInfoView::of(listed[i].0, listed[i].1))
}

/// What the first half of a start request plans.
pub open spec fn plan_post(daemon: SeshdView, request: SeshStartRequest, term: Size, plan: StartPlan) -> bool {
    &&& plan.name@ == daemon.registry.new_name(request.name@)
    &&& !daemon.registry.sessions.contains_key(plan.name@)
    &&& plan.program@ == request.program@
    &&& plan.socket@ == socket_path(daemon.runtime_dir, plan.name@)
    &&& plan.builder@ == (PtyBuilderView {
        program: request.program@,
        args: request.args.deep_view(),
        inherit_env: true,
        envs: request.env.deep_view() + session_vars(plan.socket@, plan.name@),
        dir: Some(request.pwd@),
        daemonize: false,
    })
    &&& plan.spawn_size == term
    &&& plan.size == window_of(request.size, term)
}

/// What a kill request answers, and what it does to the registry.
pub open spec fn kill_post(
    before: RegistryView,
    selector: Option<SelectorView>,
    r: Killed,
    after: RegistryView,
) -> bool {
    &&& after == before.killed(selector)
    &&& r.removed.deep_view() == before.kill_target(selector)
    &&& r.response.success == r.removed is Some
    &&& r.exit == (r.removed is Some && EXIT_ON_EMPTY && after.is_empty())
}

/// What the first half of a detach request gives, and what it does to the registry.
pub open spec fn detach_post(
    before: RegistryView,
    selector: Option<SelectorView>,
    r: Detaching,
    after: RegistryView,
) -> bool {
    &&& after == before.detaching(selector)
    &&& r.response.success
    &&& match before.detach_target(selector) {
        Some(name) => r.notice matches Some(notice) && notice.name@ == name
            && notice.client_socket@ == before.sessions[name].client_socket(),
        None => r.notice is None,
    }
}

/// What a shutdown request answers, and what it does to the registry.
pub open spec fn shutdown_post(before: RegistryView, r: Shutdown, after: RegistryView) -> bool {
    &&& after == before.cleared()
    &&& is_listing(r.removed.deep_view(), before.sessions)
    &&& r.response.success
}

/// What a request leads to.
pub enum Outcome {
    /// A child is to be spawned for a new session; `exec_start` takes it from there.
    Start(StartPlan),
    Kill(Killed),
    List(SeshListResponse),
    Shutdown(Shutdown),
    Attach(Result<Attached, SeshError>),
    /// A client is to be told to detach, if there is one;
    /// `finish_detach` takes it from there.
    Detach(Detaching),
    Resize(Result<Resizing, SeshError>),
}

/// What `exec` leads to for each request, and what it does to the registry.
pub open spec fn exec_post(
    before: SeshdView,
    cmd: Command,
    term: Size,
    r: Outcome,
    after: RegistryView,
) -> bool {
    match cmd {
        Command::StartSession(request) => {
            &&& r matches Outcome::Start(plan)
            &&& plan_post(before, request, term, plan)
            &&& after == before.registry
        },
        Command::KillSession(request) => {
            &&& r matches Outcome::Kill(killed)
            &&& kill_post(before.registry, request.session.deep_view(), killed, after)
        },
        Command::ListSessions => {
            &&& r matches Outcome::List(listed)
            &&& is_info_listing(listed.sessions.deep_view(), before.registry.sessions)
            &&& after == before.registry
        },
        Command::ShutdownServer => {
            &&& r matches Outcome::Shutdown(shutdown)
            &&& shutdown_post(before.registry, shutdown, after)
        },
        Command::AttachSession(request) => {
            &&& r matches Outcome::Attach(answer)
            &&& attach_post(before.registry, request.session.deep_view(), request.size, term, answer)
            &&& after == attach_effect(before.registry, answer)
        },
        Command::DetachSession(request) => {
            &&& r matches Outcome::Detach(notice)
            &&& detach_post(before.registry, request.session.deep_view(), notice, after)
        },
        Command::ResizeSession(request) => {
            &&& r matches Outcome::Resize(answer)
            &&& resize_post(before.registry, request.session.deep_view(), request.size, answer)
            &&& after == before.registry
        },
    }
}

/// The environment given in a request, as pairs.
fn env_pairs(env: Vec<Var>) -> (r: Vec<(String, String)>)
    ensures
        r.deep_view() == env.deep_view(),
{
    let mut out: Vec<(String, String)> = Vec::new();
    let mut i: usize = 0;
    assert(out.deep_view() =~= env.deep_view().take(0));
    while i < env.len()
        invariant
            i <= env.len(),
            out.deep_view() == env.deep_view().take(i as int),
        decreases env.len() - i,
    {
        let ghost before = out.deep_view();
        out.push((env[i].key.clone(), env[i].value.clone()));
        assert(out.deep_view() =~= before.push(env.deep_view()[i as int]));
        assert(env.deep_view().take(i + 1) =~= env.deep_view().take(i as int).push(
            env.deep_view()[i as int],
        ));
        i = i + 1;
    }
    assert(env.deep_view().take(i as int) =~= env.deep_view());
    out
}

impl Seshd {
    /// A daemon without sessions, whose sockets lie in `runtime_dir`.
    pub fn new(runtime_dir: String) -> (r: Self)
        ensures
            r@ == (SeshdView { registry: RegistryView::empty(), runtime_dir: runtime_dir@ }),
            r@.registry.sane(),
    {
        Seshd { sessions: SessionList::new(), runtime_dir }
    }

    /// The first half of a start request: picks the session's name and
    /// says how to spawn its child. `term` is the size of the daemon's own
    /// terminal.
    pub fn plan_start(&self, request: SeshStartRequest, term: Size) -> (plan: StartPlan)
        requires
            self@.registry.sane(),
        ensures
            plan_post(self@, request, term, plan),
    {
        let base = session_base_name(request.name.as_str());
        let name = self.sessions.unique_name(base.as_str());
        let socket = session_socket_path(self.runtime_dir.as_str(), name.as_str());
        let envs = env_pairs(request.env);
        let builder = Pty::new(request.program.as_str()).args(request.args).current_dir(
            request.pwd.as_str(),
        ).envs(envs).env("SESH_SESSION", socket.as_str()).env("SESH_NAME", name.as_str());
        assert(builder@.envs =~= request.env.deep_view() + session_vars(socket@, name@));
        assert(builder@.args =~= request.args.deep_view());
        StartPlan {
            name,
            program: request.program,
            socket,
            builder,
            spawn_size: term,
            size: Size::of_request_or(request.size, term),
        }
    }

    /// The second half of a start request, at the time `now`. `spawned`
    /// is the child that was started as the plan says, with the session's
    /// socket bound, or the reason why that failed.
    ///
    /// A failure leaves the registry as it was. So does a plan whose name
    /// has been taken since it was made, whose socket cannot have been
    /// bound, and a registry that has no id left to give.
    pub fn exec_start_at(&mut self, plan: StartPlan, spawned: Result<Pty, SeshError>, now: i64) -> (r:
        Result<Started, SeshError>)
        requires
            old(self)@.registry.sane(),
        ensures
            final(self)@.registry.sane(),
            final(self)@.runtime_dir == old(self)@.runtime_dir,
            start_post(old(self)@.registry, plan, spawned, now, r, final(self)@.registry),
    {
        match spawned {
            Err(e) => Err(e),
            Ok(pty) => {
                if self.sessions.contains(plan.name.as_str()) {
                    return Err(SeshError::Bind);
                }
                let id = match self.sessions.next_id() {
                    Some(id) => id,
                    None => {
                        return Err(SeshError::NoId);
                    },
                };
                let pid = pty.pid();
                let session = Session::started_at(
                    id,
                    plan.name.clone(),
                    plan.program.clone(),
                    pty,
                    plan.socket.clone(),
                    now,
                );
                proof {
                    lemma_insert_sane(old(self)@.registry, plan.name@, session@);
                }
                self.sessions.insert(plan.name.clone(), session);
                Ok(
                    Started {
                        response: SeshStartResponse {
                            pid,
                            program: plan.program,
                            name: plan.name.clone(),
                            socket: plan.socket.clone(),
                        },
                        relay: Relay {
                            name: plan.name,
                            socket: plan.socket,
                            window: plan.size.relay(),
                        },
                    },
                )
            },
        }
    }

    /// The second half of a start request, at the time that the clock shows.
    pub fn exec_start(&mut self, plan: StartPlan, spawned: Result<Pty, SeshError>) -> (r: Result<
        Started,
        SeshError,
    >)
        requires
            old(self)@.registry.sane(),
        ensures
            final(self)@.registry.sane(),
            final(self)@.runtime_dir == old(self)@.runtime_dir,
            exists|now: i64| #[trigger]
                start_post(old(self)@.registry, plan, spawned, now, r, final(self)@.registry),
    {
        let now = now_millis();
        let r = self.exec_start_at(plan, spawned, now);
        assert(start_post(old(self)@.registry, plan, spawned, now, r, self@.registry));
        r
    }

    /// Removes the session that the request selects. A request that
    /// selects no session of the registry changes nothing and asks for
    /// nothing. The daemon is to shut down where the session removed was the last.
    pub fn exec_kill(&mut self, session: Option<SessionSelector>) -> (r: Killed)
        requires
            old(self)@.registry.sane(),
        ensures
            final(self)@.registry.sane(),
            final(self)@.runtime_dir == old(self)@.runtime_dir,
            kill_post(old(self)@.registry, session.deep_view(), r, final(self)@.registry),
    {
        match session {
            Some(selector) => {
                let removed = match self.sessions.key_of(&selector) {
                    Some(name) => {
                        proof {
                            lemma_remove_sane(old(self)@.registry, name@);
                        }
                        self.sessions.remove(name.as_str())
                    },
                    None => None,
                };
                let success = removed.is_some();
                let exit = success && self.sessions.is_empty() && EXIT_ON_EMPTY;
                Killed { response: SeshKillResponse { success }, removed, exit }
            },
            None => Killed { response: SeshKillResponse { success: false }, removed: None, exit: false },
        }
    }

    /// Lets a client attach to the session that the request selects.
    /// `term` is the size of the daemon's own terminal, used where the
    /// request carries no size. From now on the session is kept for this
    /// client: until `client_gone` or a detach request lets it go, every
    /// other attach request for it is refused.
    pub fn exec_attach(&mut self, session: Option<SessionSelector>, size: Option<WinSize>, term: Size) -> (r:
        Result<Attached, SeshError>)
        requires
            old(self)@.registry.sane(),
        ensures
            final(self)@.registry.sane(),
            final(self)@.runtime_dir == old(self)@.runtime_dir,
            attach_post(old(self)@.registry, session.deep_view(), size, term, r),
            final(self)@.registry == attach_effect(old(self)@.registry, r),
    {
        let selector = match session {
            Some(selector) => selector,
            None => {
                return Err(SeshError::NoSession);
            },
        };
        let found = match self.sessions.find(&selector) {
            Some(found) => found,
            None => {
                return Err(SeshError::NotFound);
            },
        };
        if !found.info.idle() {
            return Err(SeshError::AlreadyConnected);
        }
        let window = Size::of_request_or(size, term).relay();
        let key = match self.sessions.key_of(&selector) {
            Some(key) => key,
            None => {
                return Err(SeshError::NotFound);
            },
        };
        proof {
            lemma_client_changes_sane(old(self)@.registry, key@, 0);
        }
        self.sessions.claim(key.as_str());
        Ok(
            Attached {
                response: SeshAttachResponse {
                    pid: found.pid(),
                    program: found.program.clone(),
                    name: found.name.clone(),
                    socket: found.info.sock_path().clone(),
                },
                resize: window,
                relay: Relay { name: key, socket: found.info.sock_path().clone(), window },
            },
        )
    }

    /// The first half of a detach request: the session that the request
    /// selects lets its client go. Gives the client that is to be told;
    /// there is none where the request selects no session of the
    /// registry, which is no error.
    pub fn exec_detach(&mut self, session: Option<SessionSelector>) -> (r: Detaching)
        requires
            old(self)@.registry.sane(),
        ensures
            final(self)@.registry.sane(),
            final(self)@.runtime_dir == old(self)@.runtime_dir,
            detach_post(old(self)@.registry, session.deep_view(), r, final(self)@.registry),
    {
        let response = SeshDetachResponse { success: true };
        let selector = match session {
            Some(selector) => selector,
            None => {
                return Detaching { notice: None, response };
            },
        };
        let name = match self.sessions.key_of(&selector) {
            Some(name) => name,
            None => {
                return Detaching { notice: None, response };
            },
        };
        match self.sessions.get(name.as_str()) {
            Some(found) => {
                let mut found = found;
                let client_socket = found.detach();
                proof {
                    lemma_client_changes_sane(old(self)@.registry, name@, 0);
                }
                self.sessions.disconnect(name.as_str());
                Detaching { notice: Some(DetachNotice { name, client_socket }), response }
            },
            None => Detaching { notice: None, response },
        }
    }

    /// The second half of a detach request, at the time `now`: the client
    /// of the session under `name` has been told.
    pub fn finish_detach_at(&mut self, name: &str, now: i64) -> (r: SeshDetachResponse)
        requires
            old(self)@.registry.sane(),
        ensures
            final(self)@.registry.sane(),
            final(self)@.runtime_dir == old(self)@.runtime_dir,
            final(self)@.registry == old(self)@.registry.stamped(name@, now),
            r.success,
    {
        proof {
            lemma_client_changes_sane(old(self)@.registry, name@, now);
        }
        self.sessions.stamp(name, now);
        SeshDetachResponse { success: true }
    }

    /// The second half of a detach request, at the time that the clock
    /// shows. Gives the answer and the time that was recorded.
    pub fn finish_detach(&mut self, name: &str) -> (r: (SeshDetachResponse, i64))
        requires
            old(self)@.registry.sane(),
        ensures
            final(self)@.registry.sane(),
            final(self)@.runtime_dir == old(self)@.runtime_dir,
            final(self)@.registry == old(self)@.registry.stamped(name@, r.1),
            r.0.success,
    {
        let now = now_millis();
        (self.finish_detach_at(name, now), now)
    }

    /// Tells of every session.
    pub fn exec_list(&self) -> (r: SeshListResponse)
        ensures
            is_info_listing(r.sessions.deep_view(), self@.registry.sessions),
            r.sessions.len() == self@.registry.count(),
    {
        let listed = self.sessions.iter();
        let mut infos: Vec<SeshInfo> = Vec::new();
        let mut i: usize = 0;
        assert(infos.deep_view() =~= info_views(listed.deep_view()).take(0));
        while i < listed.len()
            invariant
                i <= listed.len(),
                infos.deep_view() == info_views(listed.deep_view()).take(i as int),
            decreases listed.len() - i,
        {
            let ghost before = infos.deep_view();
            let session = &listed[i].1;
            infos.push(
                SeshInfo {
                    id: session.id as u64,
                    name: listed[i].0.clone(),
                    program: session.program.clone(),
                    socket: session.info.sock_path().clone(),
                    connected: session.info.connected(),
                    start_time: session.info.start_time(),
                    attach_time: session.info.attach_time(),
                    pid: session.pid(),
                },
            );
            proof {
                assert(infos.deep_view() =~= before.push(
                    info_views(listed.deep_view())[i as int],
                ));
                assert(info_views(listed.deep_view()).take(i + 1) =~= info_views(
                    listed.deep_view(),
                ).take(i as int).push(info_views(listed.deep_view())[i as int]));
            }
            i = i + 1;
        }
        assert(info_views(listed.deep_view()).take(i as int) =~= info_views(listed.deep_view()));
        assert(is_listing(listed.deep_view(), self@.registry.sessions));
        SeshListResponse { sessions: infos }
    }

    /// Finds the pseudo-terminal whose window the request resizes, and
    /// the size to give it: the one asked for, less the column that a
    /// relay holds back.
    pub fn exec_resize(&self, session: Option<SessionSelector>, size: Option<WinSize>) -> (r: Result<
        Resizing,
        SeshError,
    >)
        ensures
            resize_post(self@.registry, session.deep_view(), size, r),
    {
        let wanted = match size {
            Some(wanted) => wanted,
            None => {
                return Err(SeshError::InvalidSize);
            },
        };
        let selector = match session {
            Some(selector) => selector,
            None => {
                return Err(SeshError::NotFound);
            },
        };
        match self.sessions.find(&selector) {
            Some(found) => Ok(
                Resizing {
                    response: SeshResizeResponse {  },
                    pty: found.pty,
                    size: Size::of_request(&wanted).relay(),
                },
            ),
            None => Err(SeshError::NotFound),
        }
    }

    /// Takes every session out of the registry.
    pub fn exec_shutdown(&mut self) -> (r: Shutdown)
        ensures
            final(self)@.registry.sane(),
            final(self)@.runtime_dir == old(self)@.runtime_dir,
            shutdown_post(old(self)@.registry, r, final(self)@.registry),
    {
        let removed = self.sessions.drain();
        Shutdown { response: ShutdownServerResponse { success: true }, removed }
    }

    /// Removes the sessions whose child has exited. Each entry of `waits`
    /// is the pid of a child and what a non-blocking wait for it
    /// returned. Tells whether the daemon is to shut down now.
    pub fn reap(&mut self, waits: &Vec<(i32, i32)>) -> (exit: bool)
        requires
            old(self)@.registry.sane(),
        ensures
            final(self)@.registry.sane(),
            final(self)@.runtime_dir == old(self)@.runtime_dir,
            final(self)@.registry == old(self)@.registry.clean(waits@),
            exit == (EXIT_ON_EMPTY && final(self)@.registry.is_empty()),
    {
        proof {
            lemma_clean_sane(old(self)@.registry, waits@);
        }
        self.sessions.clean(waits) && EXIT_ON_EMPTY
    }

    /// A client has connected to the relay of the session under `name`,
    /// at the time `now`. Tells whether the client is taken. It is not
    /// where a client holds the session already, or no session stands
    /// under `name`: then nothing changes and the relay must let the
    /// connection go.
    pub fn client_attached_at(&mut self, name: &str, now: i64) -> (taken: bool)
        requires
            old(self)@.registry.sane(),
        ensures
            final(self)@.registry.sane(),
            final(self)@.runtime_dir == old(self)@.runtime_dir,
            final(self)@.registry == old(self)@.registry.attached(name@, now),
            taken == old(self)@.registry.takes_client(name@),
    {
        proof {
            lemma_client_changes_sane(old(self)@.registry, name@, now);
        }
        self.sessions.attach_at(name, now)
    }

    /// A client has connected to the relay of the session under `name`,
    /// at the time that the clock shows. Tells whether the client is
    /// taken, and gives the time that was read.
    pub fn client_attached(&mut self, name: &str) -> (r: (bool, i64))
        requires
            old(self)@.registry.sane(),
        ensures
            final(self)@.registry.sane(),
            final(self)@.runtime_dir == old(self)@.runtime_dir,
            final(self)@.registry == old(self)@.registry.attached(name@, r.1),
            r.0 == old(self)@.registry.takes_client(name@),
    {
        let now = now_millis();
        (self.client_attached_at(name, now), now)
    }

    /// The relay of the session under `name` has ended: the client hung
    /// up, or the child closed its terminal, or the client that the
    /// session was kept for did not come. The session is free again.
    pub fn client_gone(&mut self, name: &str)
        requires
            old(self)@.registry.sane(),
        ensures
            final(self)@.registry.sane(),
            final(self)@.runtime_dir == old(self)@.runtime_dir,
            final(self)@.registry == old(self)@.registry.disconnected(name@),
    {
        proof {
            lemma_client_changes_sane(old(self)@.registry, name@, 0);
        }
        self.sessions.disconnect(name);
    }

    /// Carries a request out as far as the registry goes.
    pub fn exec(&mut self, cmd: Command, term: Size) -> (r: Outcome)
        requires
            old(self)@.registry.sane(),
        ensures
            final(self)@.registry.sane(),
            final(self)@.runtime_dir == old(self)@.runtime_dir,
            exec_post(old(self)@, cmd, term, r, final(self)@.registry),
    {
        match cmd {
            Command::StartSession(request) => Outcome::Start(self.plan_start(request, term)),
            Command::KillSession(request) => Outcome::Kill(self.exec_kill(request.session)),
            Command::ListSessions => Outcome::List(self.exec_list()),
            Command::ShutdownServer => Outcome::Shutdown(self.exec_shutdown()),
            Command::AttachSession(request) => Outcome::Attach(
                self.exec_attach(request.session, request.size, term),
            ),
            Command::DetachSession(request) => Outcome::Detach(self.exec_detach(request.session)),
            Command::ResizeSession(request) => Outcome::Resize(
                self.exec_resize(request.session, request.size),
            ),
        }
    }

    /// Whether a session stands under `name`.
    pub fn holds_session(&self, name: &str) -> (r: bool)
        ensures
            r == self@.registry.sessions.contains_key(name@),
    {
        self.sessions.contains(name)
    }

    /// Whether a client holds the session under `name`. A relay moves
    /// bytes for as long as this is so.
    pub fn holds_client(&self, name: &str) -> (r: bool)
        ensures
            r == match self@.registry.get(name@) {
                Some(session) => session.info.connected,
                None => false,
            },
    {
        match self.sessions.get(name) {
            Some(session) => session.info.connected(),
            None => false,
        }
    }

    pub fn runtime_dir(&self) -> (r: &String)
        ensures
            r@ == self@.runtime_dir,
    {
        &self.runtime_dir
    }
}

/// What the second half of a start request at the time `now` answers,
/// and what it does to the registry.
pub open spec fn start_post(
    before: RegistryView,
    plan: StartPlan,
    spawned: Result<Pty, SeshError>,
    now: i64,
    r: Result<Started, SeshError>,
    after: RegistryView,
) -> bool {
    match spawned {
        Err(e) => r == Err::<Started, SeshError>(e) && after == before,
        Ok(pty) => if before.sessions.contains_key(plan.name@) {
            r == Err::<Started, SeshError>(SeshError::Bind) && after == before
        } else if before.new_id() is None {
            r == Err::<Started, SeshError>(SeshError::NoId) && after == before
        } else {
            &&& after == before.inserted(plan.name@, plan.program@, plan.socket@, pty@, now)
            &&& r matches Ok(started)
            &&& started.response.pid == pty@.pid
            &&& started.response.program@ == plan.program@
            &&& started.response.name@ == plan.name@
            &&& started.response.socket@ == plan.socket@
            &&& started.relay.name@ == plan.name@
            &&& started.relay.socket@ == plan.socket@
            &&& started.relay.window == plan.size.spec_relay()
        },
    }
}

} // verus!
