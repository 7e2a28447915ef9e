//! The per-IP rate-limiting state machine.
//!
//! Each observed client IP owns one [`Ratelimit`] counter. Its single
//! `timestamp` field does double duty: when it lies in the past it is the
//! start of the current counting window, when it lies in the future it is the
//! deadline of an active cooldown, during which every request is rejected.
//! [`spec_decide`] and [`spec_next`] state the decision and the successor
//! counter for one request; [`decide`] is the verified executable step.

use vstd::prelude::*;

use crate::clock::get_time;
use crate::config::{COOLDOWN, RATELIMIT};

verus! {

/// Width of the counting window in milliseconds: the advertised per-second
/// rate is enforced over 5-second buckets to smooth bursts.
pub const WINDOW_MS: u64 = 5000;

/// Rate-limiter configuration, fixed at startup.
pub struct RatelimitConfig {
    /// Maximum requests per second; one window admits `rate_limit * 5`.
    pub rate_limit: u32,
    /// Penalty duration in milliseconds once a window's bucket is exhausted.
    pub cooldown_ms: u64,
    /// Inactivity horizon in milliseconds after which an entry is discarded.
    pub prune_after_ms: u64,
}

impl RatelimitConfig {
    /// A usable configuration: at least one request per second, and a bucket
    /// size that fits the counter.
    pub open spec fn wf(self) -> bool {
        &&& self.rate_limit >= 1
        &&& self.rate_limit * 5 <= u32::MAX
    }

    /// Number of requests one 5-second bucket admits.
    pub open spec fn limit(self) -> int {
        self.rate_limit * 5
    }

    /// The configuration the proxy ships with.
    pub fn standard() -> (c: RatelimitConfig)
        ensures
            c.rate_limit == RATELIMIT,
            c.cooldown_ms == COOLDOWN * 1000,
            c.prune_after_ms == crate::config::PRUNE_TIME * 1000,
            c.wf(),
    {
        RatelimitConfig {
            rate_limit: RATELIMIT,
            cooldown_ms: COOLDOWN * 1000,
            prune_after_ms: crate::config::PRUNE_TIME * 1000,
        }
    }
}

/// Ratelimit counter for one IP.
#[derive(Clone, Copy, Debug, PartialEq, Eq, Structural)]
pub struct Ratelimit {
    /// Start of the current counting window, or, if in the future, the
    /// deadline of an active cooldown.
    pub timestamp: u64,
    /// Requests observed in the current window.
    pub requests: u32,
}

impl Ratelimit {
    /// Construct a new counter for a first-seen IP at the given time.
    pub fn init_at(now: u64) -> (r: Ratelimit)
        ensures
            r == (Ratelimit { timestamp: now, requests: 1 }),
    {
        Ratelimit { timestamp: now, requests: 1 }
    }

    /// Construct a new counter with the current time.
    pub fn init() -> (r: Ratelimit)
        ensures
            r.requests == 1,
    {
        Ratelimit { timestamp: get_time(), requests: 1 }
    }
}

/// Outcome of one admission check.
#[derive(Clone, Copy, Debug, PartialEq, Eq, Structural)]
pub enum Decision {
    /// The request may be forwarded.
    Admit,
    /// The request is refused; the client should wait `retry_after` ms.
    Reject { retry_after: u64 },
}

/// The admission decision for one request at time `now` against the counter
/// `c` (`None` when the IP has no counter yet).
pub open spec fn spec_decide(c: Option<Ratelimit>, now: u64, cfg: RatelimitConfig) -> Decision {
    match c {
        None => Decision::Admit,
        Some(r) => {
            if r.timestamp + WINDOW_MS < now {
                // The window has expired with no cooldown pending.
                Decision::Admit
            } else if r.timestamp <= now {
                // Inside the counting window.
                if r.requests < cfg.limit() {
                    Decision::Admit
                } else {
                    Decision::Reject { retry_after: cfg.cooldown_ms }
                }
            } else {
                // The timestamp lies in the future: an active cooldown.
                Decision::Reject { retry_after: (r.timestamp - now) as u64 }
            }
        },
    }
}

/// The counter an IP owns after one request at time `now`.
pub open spec fn spec_next(c: Option<Ratelimit>, now: u64, cfg: RatelimitConfig) -> Ratelimit {
    match c {
        None => Ratelimit { timestamp: now, requests: 1 },
        Some(r) => {
            if r.timestamp + WINDOW_MS < now {
                Ratelimit { timestamp: now, requests: 1 }
            } else if r.timestamp <= now {
                if r.requests < cfg.limit() {
                    Ratelimit { timestamp: r.timestamp, requests: (r.requests + 1) as u32 }
                } else {
                    // Arm a cooldown marker in the future and empty the bucket.
                    Ratelimit { timestamp: (now + cfg.cooldown_ms) as u64, requests: 0 }
                }
            } else {
                r
            }
        },
    }
}

/// One verified step of the rate limiter: the decision for a request at time
/// `now`, and the counter the IP owns afterwards.
pub fn decide(c: Option<Ratelimit>, now: u64, cfg: &RatelimitConfig) -> (res: (
    Ratelimit,
    Decision,
))
    requires
        cfg.wf(),
        now + cfg.cooldown_ms <= u64::MAX,
    ensures
        res.0 == spec_next(c, now, *cfg),
        res.1 == spec_decide(c, now, *cfg),
{
    match c {
        None => (Ratelimit { timestamp: now, requests: 1 }, Decision::Admit),
        Some(r) => {
            if r.timestamp < now && now - r.timestamp > WINDOW_MS {
                // New requests not in the old time bucket: fresh window.
                (Ratelimit { timestamp: now, requests: 1 }, Decision::Admit)
            } else if r.timestamp <= now {
                let bucket = (cfg.rate_limit as u64) * 5;
                if (r.requests as u64) < bucket {
                    // Requests within the ratelimit.
                    (
                        Ratelimit { timestamp: r.timestamp, requests: r.requests + 1 },
                        Decision::Admit,
                    )
                } else {
                    // Bucket exhausted: arm the cooldown.
                    (
                        Ratelimit { timestamp: now + cfg.cooldown_ms, requests: 0 },
                        Decision::Reject { retry_after: cfg.cooldown_ms },
                    )
                }
            } else {
                // Active cooldown from a prior exhaustion.
                (r, Decision::Reject { retry_after: r.timestamp - now })
            }
        },
    }
}

/// An entry is kept by the pruning sweep while it has been active within the
/// last `prune_after_ms` milliseconds.
pub open spec fn spec_keep(c: Ratelimit, now: u64, prune_after_ms: u64) -> bool {
    c.timestamp + prune_after_ms >= now
}

/// Verified pruning predicate: whether a counter is still live at `now`.
pub fn keep_entry(v: (u64, u32), now: u64, prune_after_ms: u64) -> (b: bool)
    ensures
        b == spec_keep(Ratelimit { timestamp: v.0, requests: v.1 }, now, prune_after_ms),
{
    v.0 >= now || now - v.0 <= prune_after_ms
}

} // verus!
