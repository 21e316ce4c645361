//! Health check endpoint: a liveness probe for load balancers and monitors.

use crate::routes::status::StatusCode;
use vstd::prelude::*;

verus! {

/// GET /health: answers `200 OK` whenever the service runs.
pub fn health() -> (status: StatusCode)
    ensures
        status == StatusCode::OK,
{
    StatusCode::OK
}

} // verus!
