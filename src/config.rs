//! The service's settings, as read from its environment.
use vstd::prelude::*;

verus! {

/// HTTP server settings: the port, the request body limit in MiB, and the
/// request timeout in seconds.
#[derive(Debug, Clone)]
pub struct Server {
    pub port: u16,
    pub body_limit: u64,
    pub timeout: u64,
}

/// Database settings.
#[derive(Debug, Clone)]
pub struct Database {
    pub url: String,
}

/// All settings of the service.
#[derive(Debug, Clone)]
pub struct DotEnvyConfig {
    pub server: Server,
    pub database: Database,
    pub secret: String,
}

} // verus!
