//! The requests that the daemon takes and the answers that it gives.

use vstd::prelude::*;
use crate::proto::{
    SeshAttachRequest, SeshAttachResponse, SeshDetachRequest, SeshDetachResponse, SeshKillRequest,
    SeshKillResponse, SeshListResponse, SeshResizeRequest, SeshResizeResponse, SeshStartRequest,
    SeshStartResponse, ShutdownServerResponse,
};

verus! {

#[derive(Debug)]
pub enum Command {
    StartSession(SeshStartRequest),
    KillSession(SeshKillRequest),
    ListSessions,
    ShutdownServer,
    AttachSession(SeshAttachRequest),
    DetachSession(SeshDetachRequest),
    ResizeSession(SeshResizeRequest),
}

pub enum CommandResponse {
    StartSession(SeshStartResponse),
    KillSession(SeshKillResponse),
    ListSessions(SeshListResponse),
    ShutdownServer(ShutdownServerResponse),
    AttachSession(SeshAttachResponse),
    DetachSession(SeshDetachResponse),
    ResizeSession(SeshResizeResponse),
}

} // verus!
