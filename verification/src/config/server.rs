use vstd::prelude::*;
use crate::utils::decimal::{decimal, decimal_text};

verus! {

/// Where the HTTP server listens, and how long it waits for requests at shutdown.
#[derive(Debug)]
pub struct ServerConfig {
    pub host: String,
    pub port: u16,
    /// Seconds to wait for running requests when shutting down.
    pub shutdown_timeout: u64,
}

impl ServerConfig {
    /// The listening address as "host:port".
    pub fn address_text(&self) -> (r: String)
        ensures
            r@ == self.host@ + ":"@ + decimal(self.port as nat),
    {
        let mut s = self.host.clone();
        s.append(":");
        let p = decimal_text(self.port as u64);
        s.append(p.as_str());
        s
    }
}

} // verus!
