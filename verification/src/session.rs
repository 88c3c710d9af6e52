//! One session: a child on a pseudo-terminal, its name and its client.

use vstd::prelude::*;
use vstd::string::*;
use crate::clock::now_millis;
use crate::naming::{client_socket, client_socket_path};
use crate::pty::{Pty, PtyView};
use crate::text::{decimal, decimal_string};

verus! {

/// What changes over a session's life: whether a client holds it, and
/// when one last came or went.
#[derive(Debug)]
pub struct SessionInfo {
    pub start_time: i64,
    pub attach_time: i64,
    connected: bool,
    claimed: bool,
    sock_path: String,
}

/// A `SessionInfo` as a plain value.
pub struct SessionInfoView {
    /// When the session was made, in milliseconds since the start of 1970.
    pub start_time: i64,
    /// When a client last attached or detached; 0 before the first time.
    pub attach_time: i64,
    /// Whether a client holds the session.
    pub connected: bool,
    /// Whether the session is kept for a client that was told to come
    /// and has not connected yet.
    pub claimed: bool,
    /// The socket on which the session relays bytes.
    pub sock_path: Seq<char>,
}

impl View for SessionInfo {
    type V = SessionInfoView;

    closed spec fn view(&self) -> SessionInfoView {
        SessionInfoView {
            start_time: self.start_time,
            attach_time: self.attach_time,
            connected: self.connected,
            claimed: self.claimed,
            sock_path: self.sock_path@,
        }
    }
}

impl SessionInfoView {
    /// The state of a session made at `start_time`: no client yet.
    pub open spec fn fresh(sock_path: Seq<char>, start_time: i64) -> SessionInfoView {
        SessionInfoView { start_time, attach_time: 0, connected: false, claimed: false, sock_path }
    }

    /// Whether a client may be told to come: none holds the session and
    /// it is kept for none.
    pub open spec fn idle(self) -> bool {
        !self.connected && !self.claimed
    }
}

#[derive(Debug)]
pub struct Session {
    pub id: usize,
    pub name: String,
    pub program: String,
    pub pty: Pty,
    pub info: SessionInfo,
}

/// A `Session` as a plain value.
pub struct SessionView {
    pub id: usize,
    pub name: Seq<char>,
    pub program: Seq<char>,
    pub pty: PtyView,
    pub info: SessionInfoView,
}

impl View for Session {
    type V = SessionView;

    open spec fn view(&self) -> SessionView {
        SessionView {
            id: self.id,
            name: self.name@,
            program: self.program@,
            pty: self.pty@,
            info: self.info@,
        }
    }
}

impl DeepView for Session {
    type V = SessionView;

    open spec fn deep_view(&self) -> SessionView {
        self@
    }
}

impl SessionView {
    /// The session with its client gone.
    pub open spec fn disconnected(self) -> SessionView {
        SessionView {
            info: SessionInfoView { connected: false, claimed: false, ..self.info },
            ..self
        }
    }

    /// The session kept for a client that was told to come.
    pub open spec fn claimed(self) -> SessionView {
        SessionView { info: SessionInfoView { claimed: true, ..self.info }, ..self }
    }

    /// The session held by a client that came at `now`.
    pub open spec fn attached_at(self, now: i64) -> SessionView {
        SessionView {
            info: SessionInfoView {
                connected: true,
                claimed: false,
                attach_time: now,
                ..self.info
            },
            ..self
        }
    }

    /// The session with `now` as the time at which a client last came or went.
    pub open spec fn stamped(self, now: i64) -> SessionView {
        SessionView { info: SessionInfoView { attach_time: now, ..self.info }, ..self }
    }

    /// The label under which the session appears in the log.
    pub open spec fn log_group(self) -> Seq<char> {
        decimal(self.id as nat) + ": "@ + self.name
    }

    /// The socket on which the client of this session takes requests.
    pub open spec fn client_socket(self) -> Seq<char> {
        client_socket_path(self.info.sock_path, self.pty.pid)
    }
}

impl Clone for SessionInfo {
    fn clone(&self) -> (r: Self)
        ensures
            r@ == self@,
    {
        SessionInfo {
            start_time: self.start_time,
            attach_time: self.attach_time,
            connected: self.connected,
            claimed: self.claimed,
            sock_path: self.sock_path.clone(),
        }
    }
}

impl Clone for Session {
    fn clone(&self) -> (r: Self)
        ensures
            r@ == self@,
    {
        Session {
            id: self.id,
            name: self.name.clone(),
            program: self.program.clone(),
            pty: self.pty.clone(),
            info: self.info.clone(),
        }
    }
}

impl SessionInfo {
    /// The state of a session made now. The start time is what the clock
    /// says when it is read.
    pub fn new(sock_path: String) -> (r: Self)
        ensures
            r@ == SessionInfoView::fresh(sock_path@, r@.start_time),
    {
        SessionInfo::started_at(sock_path, now_millis())
    }

    /// The state of a session made at `start_time`.
    pub fn started_at(sock_path: String, start_time: i64) -> (r: Self)
        ensures
            r@ == SessionInfoView::fresh(sock_path@, start_time),
    {
        SessionInfo { start_time, attach_time: 0, connected: false, claimed: false, sock_path }
    }

    pub fn start_time(&self) -> (r: i64)
        ensures
            r == self@.start_time,
    {
        self.start_time
    }

    pub fn attach_time(&self) -> (r: i64)
        ensures
            r == self@.attach_time,
    {
        self.attach_time
    }

    pub fn connected(&self) -> (r: bool)
        ensures
            r == self@.connected,
    {
        self.connected
    }

    pub fn sock_path(&self) -> (r: &String)
        ensures
            r@ == self@.sock_path,
    {
        &self.sock_path
    }

    pub fn claimed(&self) -> (r: bool)
        ensures
            r == self@.claimed,
    {
        self.claimed
    }

    /// Whether a client may be told to come.
    pub fn idle(&self) -> (r: bool)
        ensures
            r == self@.idle(),
    {
        !self.connected && !self.claimed
    }

    pub fn set_claimed(&mut self, claimed: bool)
        ensures
            final(self)@ == (SessionInfoView { claimed: claimed, ..old(self)@ }),
    {
        self.claimed = claimed;
    }

    pub fn set_connected(&mut self, connected: bool)
        ensures
            final(self)@ == (SessionInfoView { connected: connected, ..old(self)@ }),
    {
        self.connected = connected;
    }

    pub fn set_attach_time(&mut self, now: i64)
        ensures
            final(self)@ == (SessionInfoView { attach_time: now, ..old(self)@ }),
    {
        self.attach_time = now;
    }
}

impl Session {
    /// A session whose socket is bound at `sock_path`, made now.
    pub fn new(id: usize, name: String, program: String, pty: Pty, sock_path: String) -> (r:
        Self)
        ensures
            r@ == (SessionView {
                id: id,
                name: name@,
                program: program@,
                pty: pty@,
                info: SessionInfoView::fresh(sock_path@, r@.info.start_time),
            }),
    {
        Session { id, name, program, pty, info: SessionInfo::new(sock_path) }
    }

    /// A session whose socket is bound at `sock_path`, made at `start_time`.
    pub fn started_at(
        id: usize,
        name: String,
        program: String,
        pty: Pty,
        sock_path: String,
        start_time: i64,
    ) -> (r: Self)
        ensures
            r@ == (SessionView {
                id: id,
                name: name@,
                program: program@,
                pty: pty@,
                info: SessionInfoView::fresh(sock_path@, start_time),
            }),
    {
        Session { id, name, program, pty, info: SessionInfo::started_at(sock_path, start_time) }
    }

    pub fn log_group(&self) -> (r: String)
        ensures
            r@ == self@.log_group(),
    {
        let mut out = decimal_string(self.id);
        out.append(": ");
        out.append(self.name.as_str());
        assert(out@ =~= self@.log_group());
        out
    }

    pub fn pid(&self) -> (r: i32)
        ensures
            r == self@.pty.pid,
    {
        self.pty.pid()
    }

    /// Lets the client go, and is kept for nobody. Gives the socket on
    /// which the client must be told to detach.
    pub fn detach(&mut self) -> (client: String)
        ensures
            final(self)@ == old(self)@.disconnected(),
            client@ == old(self)@.client_socket(),
    {
        self.info.set_connected(false);
        self.info.set_claimed(false);
        client_socket(self.info.sock_path().as_str(), self.pty.pid())
    }

    /// A client has connected at `now`.
    pub fn attach_at(&mut self, now: i64)
        ensures
            final(self)@ == old(self)@.attached_at(now),
    {
        self.info.set_connected(true);
        self.info.set_claimed(false);
        self.info.set_attach_time(now);
    }

    /// Keeps the session for a client that is told to come.
    pub fn claim(&mut self)
        ensures
            final(self)@ == old(self)@.claimed(),
    {
        self.info.set_claimed(true);
    }

    /// The client is gone: it hung up, or the child closed its terminal,
    /// or it never came. The session is kept for nobody.
    pub fn disconnect(&mut self)
        ensures
            final(self)@ == old(self)@.disconnected(),
    {
        self.info.set_connected(false);
        self.info.set_claimed(false);
    }

    /// Records `now` as the time at which a client last came or went.
    pub fn stamp(&mut self, now: i64)
        ensures
            final(self)@ == old(self)@.stamped(now),
    {
        self.info.set_attach_time(now);
    }
}

} // verus!
