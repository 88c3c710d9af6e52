//! The messages that the daemon and its clients exchange.

use vstd::prelude::*;
use crate::cli::SessionSelector;
use crate::session::SessionView;
use crate::term::WinSize;

verus! {

/// One environment variable.
#[derive(Debug)]
pub struct Var {
    pub key: String,
    pub value: String,
}

impl DeepView for Var {
    type V = (Seq<char>, Seq<char>);

    open spec fn deep_view(&self) -> (Seq<char>, Seq<char>) {
        (self.key@, self.value@)
    }
}

#[derive(Debug)]
pub struct SeshStartRequest {
    pub name: String,
    pub program: String,
    pub args: Vec<String>,
    pub size: Option<WinSize>,
    pub pwd: String,
    pub env: Vec<Var>,
}

#[derive(Debug)]
pub struct SeshStartResponse {
    pub pid: i32,
    pub program: String,
    pub name: String,
    pub socket: String,
}

#[derive(Debug)]
pub struct SeshAttachRequest {
    pub session: Option<SessionSelector>,
    pub size: Option<WinSize>,
}

#[derive(Debug)]
pub struct SeshAttachResponse {
    pub pid: i32,
    pub program: String,
    pub name: String,
    pub socket: String,
}

#[derive(Debug)]
pub struct SeshDetachRequest {
    pub session: Option<SessionSelector>,
}

#[derive(Debug)]
pub struct SeshDetachResponse {
    pub success: bool,
}

#[derive(Debug)]
pub struct SeshKillRequest {
    pub session: Option<SessionSelector>,
}

#[derive(Debug)]
pub struct SeshKillResponse {
    pub success: bool,
}

/// What `list` tells of one session.
#[derive(Debug)]
pub struct SeshInfo {
    pub id: u64,
    pub name: String,
    pub program: String,
    pub socket: String,
    pub connected: bool,
    pub start_time: i64,
    pub attach_time: i64,
    pub pid: i32,
}

/// A `SeshInfo` as a plain value.
pub struct SeshInfoView {
    pub id: u64,
    pub name: Seq<char>,
    pub program: Seq<char>,
    pub socket: Seq<char>,
    pub connected: bool,
    pub start_time: i64,
    pub attach_time: i64,
    pub pid: i32,
}

impl DeepView for SeshInfo {
    type V = SeshInfoView;

    open spec fn deep_view(&self) -> SeshInfoView {
        SeshInfoView {
            id: self.id,
            name: self.name@,
            program: self.program@,
            socket: self.socket@,
            connected: self.connected,
            start_time: self.start_time,
            attach_time: self.attach_time,
            pid: self.pid,
        }
    }
}

impl SeshInfoView {
    /// What `list` tells of the session `session` that stands under `name`.
    pub open spec fn of(name: Seq<char>, session: SessionView) -> SeshInfoView {
        SeshInfoView {
            id: session.id as u64,
            name,
            program: session.program,
            socket: session.info.sock_path,
            connected: session.info.connected,
            start_time: session.info.start_time,
            attach_time: session.info.attach_time,
            pid: session.pty.pid,
        }
    }
}

#[derive(Debug)]
pub struct SeshListResponse {
    pub sessions: Vec<SeshInfo>,
}

#[derive(Debug)]
pub struct SeshResizeRequest {
    pub session: Option<SessionSelector>,
    pub size: Option<WinSize>,
}

#[derive(Debug)]
pub struct SeshResizeResponse {}

#[derive(Debug)]
pub struct ShutdownServerResponse {
    pub success: bool,
}

} // verus!
