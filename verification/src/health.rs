//! The health-check handler.

use vstd::prelude::*;
use crate::response::{Response, ResponseView, STATUS_OK};

verus! {

/// Body of every successful reply.
pub const HEALTH_BODY: &'static str = "KasVillage L2 Frontend is Running on Flux!";

/// The one reply the handler gives: status 200 and the fixed body.
pub open spec fn health_response() -> ResponseView {
    ResponseView { status: 200, body: HEALTH_BODY@ }
}

/// Answers a health probe. The handler reads nothing from the request and
/// keeps no state, so every call gives the same reply.
pub fn health_check() -> (reply: Response)
    ensures
        reply@ == health_response(),
        reply.wf(),
{
    Response { status: STATUS_OK, body: HEALTH_BODY.to_owned() }
}

} // verus!
