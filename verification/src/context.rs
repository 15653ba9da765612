//! What a handler's context decides on its own: which request a
//! cancellation names, and how a notification that could not be queued is
//! reported.

use vstd::prelude::*;

use crate::error::Error;
use crate::schema::jsonrpc::RequestId;
use crate::text::owned;

verus! {

/// The request a context cancels: the one it serves; a context that serves
/// no request cannot cancel.
pub fn cancel_target(request_id: Option<RequestId>) -> (r: Result<RequestId, Error>)
    ensures
        match request_id {
            Some(id) => r matches Ok(t) && t@ == id@,
            None => r matches Err(Error::InternalError(m)) && m@
                == "No request ID available to cancel"@,
        },
{
    match request_id {
        Some(id) => Ok(id),
        None => Err(Error::InternalError(owned("No request ID available to cancel"))),
    }
}

/// The error for a notification that could not be queued: a full queue is a
/// transport error, a closed one a disconnection.
pub fn notification_send_error(queue_full: bool) -> (e: Error)
    ensures
        queue_full ==> (e matches Error::Transport(m) && m@ == "Notification queue full"@),
        !queue_full ==> e is TransportDisconnected,
{
    if queue_full {
        Error::Transport(owned("Notification queue full"))
    } else {
        Error::TransportDisconnected
    }
}

} // verus!
