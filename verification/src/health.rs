//! The health report returned by the liveness endpoint.

use vstd::prelude::*;

verus! {

/// The reported condition of the service.
#[derive(Debug, PartialEq, Eq, Clone, Copy)]
pub enum HealthStatus {
    Healthy,
    Degraded,
    Failing,
}

/// The body of a health response: the service version and its status.
#[derive(Debug, PartialEq, Eq)]
pub struct Health {
    pub version: String,
    pub status: HealthStatus,
}

/// The health endpoint's response: status 200 with `Healthy` exactly when the
/// cache backend's health probe succeeded, else 500 with `Failing`.
pub fn health_response(version: String, probe_ok: bool) -> (r: (u16, Health))
    ensures
        r.0 == (if probe_ok {
            200u16
        } else {
            500u16
        }),
        r.1.status == (if probe_ok {
            HealthStatus::Healthy
        } else {
            HealthStatus::Failing
        }),
        r.1.version == version,
{
    if probe_ok {
        (200, Health { version, status: HealthStatus::Healthy })
    } else {
        (500, Health { version, status: HealthStatus::Failing })
    }
}

} // verus!
