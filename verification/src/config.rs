//! Fixed configuration of the proxy: rate-limit parameters and the upstream
//! endpoint.

use vstd::prelude::*;

verus! {

/// Maximum number of requests per second advertised to clients.
pub const RATELIMIT: u32 = 5;

/// Cooldown period in seconds imposed once the limit is exceeded.
pub const COOLDOWN: u64 = 5;

/// Inactive period in seconds until a rate-limit entry is pruned.
pub const PRUNE_TIME: u64 = 3600;

/// Base URL of the fixed upstream API.
pub fn endpoint() -> (s: &'static str)
    ensures
        s@ == "https://api.binance.com"@,
{
    "https://api.binance.com"
}

/// Authority that plaintext traffic is redirected to in production mode.
pub fn domain() -> (s: &'static str)
    ensures
        s@ == "example.com"@,
{
    "example.com"
}

} // verus!
