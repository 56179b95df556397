//! The host's table of operations.

use vstd::prelude::*;
use crate::message::{Request, Response, Status, message_value, message_payload};

verus! {

/// The one operation the host knows.
pub open spec fn is_ping(method: Seq<char>) -> bool {
    method == "ping"@
}

/// The status and data the host answers a method with.
pub open spec fn dispatched(method: Seq<char>) -> (Status, serde_json::Value) {
    if is_ping(method) {
        (Status::Success, message_value("pong"@))
    } else {
        (Status::Error, message_value("Unknown method"@))
    }
}

/// Map a request to its response. Total: a method the host does not know
/// gets an error response, never a failure. The params are not read.
pub fn dispatch(request: &Request) -> (r: Response)
    ensures
        (r.status, r.data) == dispatched(request.method@),
        is_ping(request.method@) ==> r.status == Status::Success && r.data == message_value(
            "pong"@,
        ),
        !is_ping(request.method@) ==> r.status == Status::Error && r.data == message_value(
            "Unknown method"@,
        ),
{
    if request.method == "ping".to_owned() {
        Response { status: Status::Success, data: message_payload("pong") }
    } else {
        Response { status: Status::Error, data: message_payload("Unknown method") }
    }
}

} // verus!
