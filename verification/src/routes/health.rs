//! The liveness probe.

use vstd::prelude::*;

use crate::status::OK;

verus! {

/// The body of the probe's answer.
#[derive(Debug, PartialEq, Eq)]
pub struct HealthResponse {
    pub status: String,
    pub message: String,
}

/// `GET /health`: the service is up.
pub fn health_check() -> (response: (u16, HealthResponse))
    ensures
        response.0 == OK,
        response.1.status@ == "ok"@,
        response.1.message@ == "Taskio API is running"@,
{
    (
        OK,
        HealthResponse {
            status: String::from_str("ok"),
            message: String::from_str("Taskio API is running"),
        },
    )
}

} // verus!
