//! Error taxonomy: every failure carries a behavior tag fixed at its origin,
//! and the tag alone decides the wire status and the text the client sees.

use vstd::prelude::*;

verus! {

/// How an error must be surfaced on the wire. Attached to the error where it
/// originates; the response builder only reads it.
#[derive(Debug)]
pub enum ErrorBehavior {
    /// Wrap in a 200 envelope with `ok: false`; the client sees the message.
    ForwardToClient,
    /// As `ForwardToClient`, and the error is logged as a warning.
    LogWarningForwardToClient,
    /// As `ForwardToClient`, and the error is logged as an error.
    LogErrorForwardToClient,
    /// Log as a warning; the client sees the fixed substitute text instead.
    LogWarningSendFixedMsgToClient(String),
    /// Log as an error; the client sees the fixed substitute text instead.
    LogErrorSendFixedMsgToClient(String),
    /// Plain 500 with a generic body; nothing of the error leaks.
    ReturnInternalServerError,
    /// Plain 401 with a generic body; nothing of the error leaks.
    ReturnUnauthorized,
}

/// An error of the dispatch pipeline or of a business handler.
///
/// `message` is text safe to show a client (subject to the behavior tag);
/// `detail` is extra context for logs only and never reaches the wire.
#[derive(Debug)]
pub struct ServerError {
    pub behavior: ErrorBehavior,
    pub message: String,
    pub detail: Option<String>,
}

impl ServerError {
    /// Authorization failure: a plain 401, no detail leaked.
    pub fn unauthorized() -> (e: ServerError)
        ensures
            e.behavior is ReturnUnauthorized,
            e.detail is None,
    {
        ServerError {
            behavior: ErrorBehavior::ReturnUnauthorized,
            message: String::from_str("Unauthorized."),
            detail: None,
        }
    }

    /// A malformed request (bad query parameter, bad id, undeserializable
    /// body): client-facing, forwarded in the envelope.
    pub fn invalid_request(message: &str) -> (e: ServerError)
        ensures
            e.behavior is ForwardToClient,
            e.message@ == message@,
            e.detail is None,
    {
        ServerError {
            behavior: ErrorBehavior::ForwardToClient,
            message: String::from_str(message),
            detail: None,
        }
    }

    /// As `invalid_request`, keeping extra context for logs.
    pub fn invalid_request_with_detail(message: &str, detail: &str) -> (e: ServerError)
        ensures
            e.behavior is ForwardToClient,
            e.message@ == message@,
            e.detail matches Some(d) && d@ == detail@,
    {
        ServerError {
            behavior: ErrorBehavior::ForwardToClient,
            message: String::from_str(message),
            detail: Some(String::from_str(detail)),
        }
    }

    /// An internal fault (unsupported method, encoding failure): a plain 500,
    /// message kept for logs only.
    pub fn critical(message: &str) -> (e: ServerError)
        ensures
            e.behavior is ReturnInternalServerError,
            e.message@ == message@,
            e.detail is None,
    {
        ServerError {
            behavior: ErrorBehavior::ReturnInternalServerError,
            message: String::from_str(message),
            detail: None,
        }
    }

    /// No route registered for the requested path. Client-facing with a
    /// fixed generic text that never echoes the path; the offending path is
    /// kept for logs only.
    pub fn invalid_route(path: &str) -> (e: ServerError)
        ensures
            e.behavior is ForwardToClient,
            e.message@ == "Invalid route."@,
            e.detail matches Some(d) && d@ == path@,
    {
        ServerError {
            behavior: ErrorBehavior::ForwardToClient,
            message: String::from_str("Invalid route."),
            detail: Some(String::from_str(path)),
        }
    }
}

} // verus!
