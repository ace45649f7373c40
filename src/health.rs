use vstd::prelude::*;
use vstd::string::*;

verus! {

/// What a health check answers while the service runs.
pub const HEALTHY_MESSAGE: &'static str = "Everything is working fine!";

/// The body of a health-check answer.
#[derive(Clone, Debug, PartialEq, Eq)]
pub struct Response {
    pub message: String,
}

/// The answer of the readiness and liveness checks.
pub fn healthcheck() -> (r: Response)
    ensures
        r.message@ == HEALTHY_MESSAGE@,
{
    Response { message: String::from_str(HEALTHY_MESSAGE) }
}

} // verus!
