//! The replies the service can give, as plain values.

use vstd::prelude::*;

verus! {

/// Status of a successful reply.
pub const STATUS_OK: u16 = 200;

/// Status of the reply to a request that no route accepts.
pub const STATUS_NOT_FOUND: u16 = 404;

/// Mathematical model of a [`Response`].
pub struct ResponseView {
    pub status: nat,
    pub body: Seq<char>,
}

/// An HTTP reply reduced to what this service decides: status code and body text.
#[derive(Debug, PartialEq, Eq)]
pub struct Response {
    pub status: u16,
    pub body: String,
}

impl View for Response {
    type V = ResponseView;

    open spec fn view(&self) -> ResponseView {
        ResponseView { status: self.status as nat, body: self.body@ }
    }
}

impl Clone for Response {
    fn clone(&self) -> (copy: Response)
        ensures
            copy@ == self@,
    {
        Response { status: self.status, body: self.body.clone() }
    }
}

impl Response {
    /// The status is a three-digit code, so every HTTP stack can carry it.
    pub open spec fn wf(&self) -> bool {
        100 <= self.status <= 999
    }

    /// Whether this reply reports success (status 200).
    pub fn is_ok(&self) -> (ok: bool)
        ensures
            ok == (self@.status == 200),
    {
        self.status == STATUS_OK
    }
}

} // verus!
