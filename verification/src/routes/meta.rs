//! Health and version endpoints.

use vstd::prelude::*;

verus! {

/// The health answer.
#[derive(Debug)]
pub struct HealthResponse {
    pub status: String,
    pub service: String,
}

/// The version answer.
#[derive(Debug)]
pub struct VersionResponse {
    pub service: String,
    pub version: String,
}

/// `GET /health`: always `ok`, with the service name.
pub fn health(service_name: &str) -> (r: HealthResponse)
    ensures
        r.status@ == "ok"@,
        r.service@ == service_name@,
{
    HealthResponse { status: "ok".to_owned(), service: service_name.to_owned() }
}

/// `GET /version`: the service name and the package version.
pub fn version(service_name: &str, package_version: &str) -> (r: VersionResponse)
    ensures
        r.service@ == service_name@,
        r.version@ == package_version@,
{
    VersionResponse { service: service_name.to_owned(), version: package_version.to_owned() }
}

} // verus!
