//! The ways in which a request can fail.

use vstd::prelude::*;
use vstd::string::*;

verus! {

/// Why an operation on a session failed.
#[derive(Clone, Copy, Debug, PartialEq, Eq, Structural)]
pub enum SeshError {
    /// The kernel refused to allocate a pseudo-terminal.
    PtyOpen,
    /// The child could not be forked or its program executed.
    PtySpawn,
    /// The window size of a pseudo-terminal could not be set.
    PtyResize,
    /// The session's socket could not be bound: its path is taken or out of reach.
    Bind,
    /// No session matches the selector.
    NotFound,
    /// A client already holds the session.
    AlreadyConnected,
    /// The peer of a channel is gone, or sent what could not be read.
    Transport,
    /// A variable that the operation needs is missing from the environment.
    Env,
    /// The request names no session where it must name one.
    NoSession,
    /// The request carries no window size where it must carry one.
    InvalidSize,
    /// A system call reported failure.
    System,
    /// Every session id has been given out.
    NoId,
}

impl SeshError {
    /// The text that a person reads for this error.
    pub open spec fn spec_message(self) -> Seq<char> {
        match self {
            SeshError::PtyOpen => "Failed to open pty"@,
            SeshError::PtySpawn => "Failed to spawn shell"@,
            SeshError::PtyResize => "Failed to resize"@,
            SeshError::Bind => "Failed to bind session socket"@,
            SeshError::NotFound => "Session not found"@,
            SeshError::AlreadyConnected => "Session already connected"@,
            SeshError::Transport => "[failed to connect to server]"@,
            SeshError::Env => "No session name found in environment"@,
            SeshError::NoSession => "No session specified"@,
            SeshError::InvalidSize => "Invalid size"@,
            SeshError::System => "C Error"@,
            SeshError::NoId => "No session id left"@,
        }
    }

    pub fn message(&self) -> (r: String)
        ensures
            r@ == self.spec_message(),
    {
        match self {
            SeshError::PtyOpen => String::from_str("Failed to open pty"),
            SeshError::PtySpawn => String::from_str("Failed to spawn shell"),
            SeshError::PtyResize => String::from_str("Failed to resize"),
            SeshError::Bind => String::from_str("Failed to bind session socket"),
            SeshError::NotFound => String::from_str("Session not found"),
            SeshError::AlreadyConnected => String::from_str("Session already connected"),
            SeshError::Transport => String::from_str("[failed to connect to server]"),
            SeshError::Env => String::from_str("No session name found in environment"),
            SeshError::NoSession => String::from_str("No session specified"),
            SeshError::InvalidSize => String::from_str("Invalid size"),
            SeshError::System => String::from_str("C Error"),
            SeshError::NoId => String::from_str("No session id left"),
        }
    }
}

/// The value with which a system call reports failure.
pub const C_FAILURE: i32 = -1;

/// Turns what a system call returned into a `Result`.
pub trait CResult<T, E>: Sized {
    fn to_result(self) -> Result<T, E>;
}

impl CResult<i32, SeshError> for i32 {
    /// `C_FAILURE` is an error; any other value is the call's result.
    fn to_result(self) -> (r: Result<i32, SeshError>)
        ensures
            r == if self == C_FAILURE {
                Err::<i32, SeshError>(SeshError::System)
            } else {
                Ok::<i32, SeshError>(self)
            },
    {
        if self == C_FAILURE {
            Err(SeshError::System)
        } else {
            Ok(self)
        }
    }
}

} // verus!
