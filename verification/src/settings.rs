//! Process configuration: loaded once at startup, immutable thereafter.
//!
//! The unverified boundary reads the raw values from the environment and
//! hands them here as plain values; this module owns the defaulting rules
//! for the optional fields.

use vstd::prelude::*;

verus! {

/// Default cache TTL, in seconds, applied when none is configured.
pub fn default_ttl() -> (t: usize)
    ensures
        t == 300usize,
{
    300
}

/// Default TCP port applied when none is configured.
pub fn default_port() -> (p: u16)
    ensures
        p == 3000u16,
{
    3000
}

/// Default bind address (loopback) applied when none is configured.
pub fn default_bind() -> (a: [u8; 4])
    ensures
        a@ == seq![127u8, 0u8, 0u8, 1u8],
{
    let a: [u8; 4] = [127, 0, 0, 1];
    proof {
        assert(a@ =~= seq![127u8, 0u8, 0u8, 1u8]);
    }
    a
}

/// Immutable process configuration, shared by reference across requests.
pub struct Settings {
    pub api_key: String,
    pub redis_uri: String,
    pub redis_ttl_seconds: usize,
    pub bind_addr: [u8; 4],
    pub port: u16,
    pub remote_api_url: String,
}

impl Settings {
    /// Build a settings value from the raw configuration inputs, applying
    /// the documented default for each optional field that is absent.
    pub fn from_parts(
        api_key: String,
        redis_uri: String,
        remote_api_url: String,
        redis_ttl_seconds: Option<usize>,
        bind_addr: Option<[u8; 4]>,
        port: Option<u16>,
    ) -> (s: Settings)
        ensures
            s.api_key == api_key,
            s.redis_uri == redis_uri,
            s.remote_api_url == remote_api_url,
            s.redis_ttl_seconds == match redis_ttl_seconds {
                Some(t) => t,
                None => 300usize,
            },
            s.bind_addr@ == match bind_addr {
                Some(a) => a@,
                None => seq![127u8, 0u8, 0u8, 1u8],
            },
            s.port == match port {
                Some(p) => p,
                None => 3000u16,
            },
    {
        let ttl: usize = match redis_ttl_seconds {
            Some(t) => t,
            None => default_ttl(),
        };
        let bind: [u8; 4] = match bind_addr {
            Some(a) => a,
            None => default_bind(),
        };
        let prt: u16 = match port {
            Some(p) => p,
            None => default_port(),
        };
        Settings {
            api_key,
            redis_uri,
            redis_ttl_seconds: ttl,
            bind_addr: bind,
            port: prt,
            remote_api_url,
        }
    }

    /// The configured cache TTL in seconds.
    pub fn redis_ttl(&self) -> (t: usize)
        ensures
            t == self.redis_ttl_seconds,
    {
        self.redis_ttl_seconds
    }
}

} // verus!
