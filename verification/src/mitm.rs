//! The TLS interception front for the recorder: certificate generation per
//! host and CONNECT handling, which are not implemented and always succeed.

use vstd::prelude::*;
use crate::config::Config;

verus! {

/// Why interception failed.  Neither step fails yet; the one reason is kept
/// for the steps to come.
#[derive(Debug)]
pub enum MitmError {
    Unsupported,
}

pub struct MitmProxy {
    config: std::sync::Arc<Config>,
}

impl MitmProxy {
    /// The configuration the proxy holds.
    pub closed spec fn config(&self) -> Config {
        *self.config
    }

    pub fn new(config: std::sync::Arc<Config>) -> (r: Self)
        ensures
            r.config() == *config,
    {
        MitmProxy { config }
    }

    /// Generates a certificate for `host`; nothing is generated yet, and the
    /// call succeeds.
    pub fn generate_cert_for_host(&self, host: &str) -> (r: Result<(), MitmError>)
        ensures
            r is Ok,
    {
        Ok(())
    }

    /// Handles an HTTP CONNECT to `host:port`; nothing is done yet, and the
    /// call succeeds.
    pub fn handle_connect(&self, host: &str, port: u16) -> (r: Result<(), MitmError>)
        ensures
            r is Ok,
    {
        Ok(())
    }
}

} // verus!
