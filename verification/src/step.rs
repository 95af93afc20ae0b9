//! Platform-neutral names for the handshake errors both backends share.
//!
//! Callers that drive a handshake over either backend can match on one
//! error family; each backend's own classification stays exact, and the
//! conversions here are total and stated case by case.
use vstd::prelude::*;

use crate::server::AcceptContextError;

verus! {

/// The recoverable ways a handshake round fails, named alike on both
/// backends.
#[derive(Clone, Copy, Debug, PartialEq, Eq, Structural)]
pub enum StepError {
    InvalidToken,
    LogonDenied,
    NoAuthenticatingAuthority,
    IncompleteMessage,
}

/// The human-readable message for each step error.
pub fn format_error(err: &StepError) -> (r: &'static str)
    ensures
        *err == StepError::InvalidToken ==> r@ == "the peer's token is not a valid Negotiate token"@,
        *err == StepError::LogonDenied ==> r@ == "the logon was denied"@,
        *err == StepError::NoAuthenticatingAuthority ==> r@
            == "no authority could be contacted for authentication"@,
        *err == StepError::IncompleteMessage ==> r@
            == "the peer's message is incomplete; more data is needed"@,
{
    match err {
        StepError::InvalidToken => "the peer's token is not a valid Negotiate token",
        StepError::LogonDenied => "the logon was denied",
        StepError::NoAuthenticatingAuthority => "no authority could be contacted for authentication",
        StepError::IncompleteMessage => "the peer's message is incomplete; more data is needed",
    }
}

/// The shared name of a server-side accept error, where one exists: the
/// internal-error and invalid-handle cases are provider faults with no
/// peer-facing name.
pub fn step_error_of_accept(err: &AcceptContextError) -> (r: Option<StepError>)
    ensures
        *err == AcceptContextError::InvalidToken ==> r == Some(StepError::InvalidToken),
        *err == AcceptContextError::Denied ==> r == Some(StepError::LogonDenied),
        *err == AcceptContextError::NoAuthority ==> r == Some(
            StepError::NoAuthenticatingAuthority,
        ),
        *err == AcceptContextError::Internal || *err == AcceptContextError::InvalidHandle ==> r
            is None,
{
    match err {
        AcceptContextError::InvalidToken => Some(StepError::InvalidToken),
        AcceptContextError::Denied => Some(StepError::LogonDenied),
        AcceptContextError::NoAuthority => Some(StepError::NoAuthenticatingAuthority),
        AcceptContextError::Internal => None,
        AcceptContextError::InvalidHandle => None,
    }
}

} // verus!
