//! Settings of the gateway, as loaded at start-up.

use vstd::prelude::*;

verus! {

/// All settings.
#[derive(Clone, Debug)]
pub struct Configuration {
    pub http_server: HttpServer,
    pub oci: Oci,
    pub snyk: Snyk,
}

/// Where the gateway listens.
#[derive(Clone, Debug)]
pub struct HttpServer {
    pub host: String,
    pub port: u16,
}

/// The upstream registry.
#[derive(Clone, Debug)]
pub struct Oci {
    pub base_address: String,
}

/// The vulnerability service.
#[derive(Clone, Debug)]
pub struct Snyk {
    pub api_key: String,
    pub base_address: String,
    pub integration_id: String,
    pub organization_id: String,
}

} // verus!
