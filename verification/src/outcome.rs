//! The HTTP-level outcomes that the pipeline reports, and the liveness
//! probe.

use vstd::prelude::*;

verus! {

/// The outcome that one request is answered with.
#[derive(Clone, Copy, Debug, PartialEq, Eq, Structural)]
pub enum HttpOutcome {
    /// 200: the request was accepted; the body is empty.
    Success,
    /// 400: validation refused the submitted data; storage was not touched.
    BadRequest,
    /// 500: storage failed; no internal detail is leaked to the caller.
    InternalServerError,
}

impl HttpOutcome {
    /// The numeric status code of this outcome.
    pub open spec fn spec_status_code(self) -> u16 {
        match self {
            HttpOutcome::Success => 200,
            HttpOutcome::BadRequest => 400,
            HttpOutcome::InternalServerError => 500,
        }
    }

    /// The numeric status code sent on the wire.
    pub fn status_code(&self) -> (c: u16)
        ensures
            c == self.spec_status_code(),
    {
        match self {
            HttpOutcome::Success => 200,
            HttpOutcome::BadRequest => 400,
            HttpOutcome::InternalServerError => 500,
        }
    }
}

/// The liveness probe: always reports success with an empty body, reading
/// nothing — in particular it does not depend on storage being reachable.
pub fn health_check() -> (r: HttpOutcome)
    ensures
        r == HttpOutcome::Success,
{
    HttpOutcome::Success
}

} // verus!
