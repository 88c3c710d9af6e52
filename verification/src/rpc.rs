//! From a handler's result to what goes back over the wire: the answer of
//! the kind that the request calls for, or the text of an internal error.

use vstd::prelude::*;
use vstd::string::*;
use crate::cli::{SelectorView, SessionSelector};
use crate::commands::CommandResponse;
use crate::error::SeshError;
use crate::proto::{
    SeshAttachResponse, SeshDetachResponse, SeshKillResponse, SeshListResponse,
    SeshResizeResponse, SeshStartResponse, ShutdownServerResponse,
};

verus! {

/// The text sent where a handler gave an answer of another kind than its request.
pub open spec fn unexpected() -> Seq<char> {
    "Unexpected response"@
}

/// The text sent for a handler's result that is not the answer asked for.
pub open spec fn refusal(res: Result<CommandResponse, SeshError>) -> Seq<char> {
    match res {
        Ok(_) => unexpected(),
        Err(e) => e.spec_message(),
    }
}

fn refuse(res: Result<CommandResponse, SeshError>) -> (r: String)
    ensures
        r@ == refusal(res),
{
    match res {
        Ok(_) => String::from_str("Unexpected response"),
        Err(e) => e.message(),
    }
}

pub fn start_session(res: Result<CommandResponse, SeshError>) -> (r: Result<
    SeshStartResponse,
    String,
>)
    ensures
        match res {
            Ok(CommandResponse::StartSession(response)) => r == Ok::<SeshStartResponse, String>(
                response,
            ),
            _ => r matches Err(text) && text@ == refusal(res),
        },
{
    match res {
        Ok(CommandResponse::StartSession(response)) => Ok(response),
        other => Err(refuse(other)),
    }
}

/// The text sent where the selector `label` finds no session.
pub open spec fn not_found_text(label: Seq<char>) -> Seq<char> {
    "Session "@ + label + " not found"@
}

/// The text sent where `selector` finds no session: it names the selector.
pub fn not_found_message(selector: &SessionSelector) -> (r: String)
    ensures
        r@ == not_found_text(selector@.label()),
{
    let mut out = String::from_str("Session ");
    let label = selector.label();
    out.append(label.as_str());
    out.append(" not found");
    assert(out@ =~= not_found_text(selector@.label()));
    out
}

/// The text sent for the result of an attach request for `selector`
/// that is not the answer asked for. Where the selector found no
/// session, the text names it.
pub open spec fn attach_refusal(
    res: Result<CommandResponse, SeshError>,
    selector: Option<SelectorView>,
) -> Seq<char> {
    match (res, selector) {
        (Err(SeshError::NotFound), Some(sel)) => not_found_text(sel.label()),
        _ => refusal(res),
    }
}

pub fn attach_session(res: Result<CommandResponse, SeshError>, session: &Option<SessionSelector>) -> (r:
    Result<SeshAttachResponse, String>)
    ensures
        match res {
            Ok(CommandResponse::AttachSession(response)) => r == Ok::<SeshAttachResponse, String>(
                response,
            ),
            _ => r matches Err(text) && text@ == attach_refusal(res, session.deep_view()),
        },
{
    match res {
        Ok(CommandResponse::AttachSession(response)) => Ok(response),
        Err(SeshError::NotFound) => match session {
            Some(selector) => Err(not_found_message(selector)),
            None => Err(SeshError::NotFound.message()),
        },
        other => Err(refuse(other)),
    }
}

pub fn detach_session(res: Result<CommandResponse, SeshError>) -> (r: Result<
    SeshDetachResponse,
    String,
>)
    ensures
        match res {
            Ok(CommandResponse::DetachSession(response)) => r == Ok::<SeshDetachResponse, String>(
                response,
            ),
            _ => r matches Err(text) && text@ == refusal(res),
        },
{
    match res {
        Ok(CommandResponse::DetachSession(response)) => Ok(response),
        other => Err(refuse(other)),
    }
}

pub fn kill_session(res: Result<CommandResponse, SeshError>) -> (r: Result<
    SeshKillResponse,
    String,
>)
    ensures
        match res {
            Ok(CommandResponse::KillSession(response)) => r == Ok::<SeshKillResponse, String>(
                response,
            ),
            _ => r matches Err(text) && text@ == refusal(res),
        },
{
    match res {
        Ok(CommandResponse::KillSession(response)) => Ok(response),
        other => Err(refuse(other)),
    }
}

pub fn list_sessions(res: Result<CommandResponse, SeshError>) -> (r: Result<
    SeshListResponse,
    String,
>)
    ensures
        match res {
            Ok(CommandResponse::ListSessions(response)) => r == Ok::<SeshListResponse, String>(
                response,
            ),
            _ => r matches Err(text) && text@ == refusal(res),
        },
{
    match res {
        Ok(CommandResponse::ListSessions(response)) => Ok(response),
        other => Err(refuse(other)),
    }
}

pub fn resize_session(res: Result<CommandResponse, SeshError>) -> (r: Result<
    SeshResizeResponse,
    String,
>)
    ensures
        match res {
            Ok(CommandResponse::ResizeSession(response)) => r == Ok::<SeshResizeResponse, String>(
                response,
            ),
            _ => r matches Err(text) && text@ == refusal(res),
        },
{
    match res {
        Ok(CommandResponse::ResizeSession(response)) => Ok(response),
        other => Err(refuse(other)),
    }
}

pub fn shutdown_server(res: Result<CommandResponse, SeshError>) -> (r: Result<
    ShutdownServerResponse,
    String,
>)
    ensures
        match res {
            Ok(CommandResponse::ShutdownServer(response)) => r == Ok::<
                ShutdownServerResponse,
                String,
            >(response),
            _ => r matches Err(text) && text@ == refusal(res),
        },
{
    match res {
        Ok(CommandResponse::ShutdownServer(response)) => Ok(response),
        other => Err(refuse(other)),
    }
}

} // verus!
