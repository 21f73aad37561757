//! Connection status notifications and the transport's status codes.
use vstd::prelude::*;

verus! {

/// A status of a websocket connection. Used for status notification.
#[derive(Clone, Copy, Debug, PartialEq, Eq, Structural)]
pub enum WebSocketStatus {
    /// Fired when a websocket connection was opened.
    Opened,
    /// Fired when a websocket connection was closed (gracefully or by an error).
    Closed,
}

/// The code the transport reports when the connection has been opened.
pub const OPENED_CODE: u32 = 1;

/// The code the transport reports when the connection has been closed or failed.
pub const CLOSED_CODE: u32 = 0;

/// The transport promises to report only these two codes.
pub open spec fn is_status_code(code: u32) -> bool {
    code == OPENED_CODE || code == CLOSED_CODE
}

/// The status that a (valid) code stands for.
pub open spec fn status_of(code: u32) -> WebSocketStatus
    recommends
        is_status_code(code),
{
    if code == OPENED_CODE {
        WebSocketStatus::Opened
    } else {
        WebSocketStatus::Closed
    }
}

/// The code the transport uses for a status.
pub open spec fn code_of(status: WebSocketStatus) -> u32 {
    match status {
        WebSocketStatus::Opened => OPENED_CODE,
        WebSocketStatus::Closed => CLOSED_CODE,
    }
}

impl WebSocketStatus {
    /// Classifies a status code of the transport. Any code but the two defined
    /// ones breaks the transport's contract and is not accepted.
    pub fn from_code(code: u32) -> (r: WebSocketStatus)
        requires
            is_status_code(code),
        ensures
            r == status_of(code),
    {
        match code {
            OPENED_CODE => WebSocketStatus::Opened,
            _ => WebSocketStatus::Closed,
        }
    }

    /// Classifies a status code of the transport, or returns `None` for a code
    /// that the transport should never report.
    pub fn try_from_code(code: u32) -> (r: Option<WebSocketStatus>)
        ensures
            r == (if is_status_code(code) { Some(status_of(code)) } else { None }),
    {
        if code == OPENED_CODE || code == CLOSED_CODE {
            Some(WebSocketStatus::from_code(code))
        } else {
            None
        }
    }

    /// The code by which the transport reports this status.
    pub fn code(&self) -> (r: u32)
        ensures
            r == code_of(*self),
            is_status_code(r),
    {
        match self {
            WebSocketStatus::Opened => OPENED_CODE,
            WebSocketStatus::Closed => CLOSED_CODE,
        }
    }
}

/// Every status survives the trip through its transport code, and every
/// valid code survives the trip through its status: the two codes and the two
/// statuses correspond one to one, so no status is ever misclassified.
pub proof fn lemma_code_round_trip(status: WebSocketStatus, code: u32)
    ensures
        is_status_code(code_of(status)),
        status_of(code_of(status)) == status,
        is_status_code(code) ==> code_of(status_of(code)) == code,
{
}

} // verus!
