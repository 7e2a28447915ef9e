use rateproxy::{
    decide, get_time, Decision, Ratelimit, RatelimitConfig, RatelimitTable, COOLDOWN, PRUNE_TIME,
    RATELIMIT,
};

fn standard() -> RatelimitConfig {
    RatelimitConfig::standard()
}

#[test]
fn standard_config_matches_shipped_constants() {
    let cfg = standard();
    assert_eq!(RATELIMIT, 5);
    assert_eq!(cfg.rate_limit, 5);
    assert_eq!(cfg.cooldown_ms, COOLDOWN * 1000);
    assert_eq!(cfg.cooldown_ms, 5000);
    assert_eq!(cfg.prune_after_ms, PRUNE_TIME * 1000);
    assert_eq!(cfg.prune_after_ms, 3_600_000);
}

#[test]
fn init_counts_one_request() {
    let c = Ratelimit::init();
    assert_eq!(c.requests, 1);
    let c2 = Ratelimit::init_at(42);
    assert_eq!(c2.timestamp, 42);
    assert_eq!(c2.requests, 1);
}

#[test]
fn clock_runs() {
    assert!(get_time() > 0);
}

#[test]
fn first_seen_ip_gets_fresh_window() {
    let cfg = standard();
    let mut t = RatelimitTable::new();
    let d = t.check_ratelimit(Some(7), 10_000, &cfg);
    assert_eq!(d, Decision::Admit);
    assert_eq!(
        t.lookup(7),
        Some(Ratelimit { timestamp: 10_000, requests: 1 })
    );
}

#[test]
fn no_client_address_is_admitted_and_not_counted() {
    let cfg = standard();
    let mut t = RatelimitTable::new();
    for _ in 0..100 {
        assert_eq!(t.check_ratelimit(None, 10_000, &cfg), Decision::Admit);
    }
    assert!(!t.contains(7));
}

#[test]
fn window_admits_up_to_limit_then_rejects() {
    // 25 requests inside one 5-second window are all admitted; the 26th is
    // rejected with retryAfter equal to the cooldown.
    let cfg = standard();
    let limit = cfg.rate_limit * 5;
    let mut t = RatelimitTable::new();
    let t0: u64 = 10_000;
    for i in 0..limit {
        let d = t.check_ratelimit(Some(1), t0 + i as u64, &cfg);
        assert_eq!(d, Decision::Admit);
    }
    assert_eq!(
        t.lookup(1),
        Some(Ratelimit { timestamp: t0, requests: limit })
    );
    let d = t.check_ratelimit(Some(1), t0 + 100, &cfg);
    assert_eq!(d, Decision::Reject { retry_after: cfg.cooldown_ms });
}

#[test]
fn request_at_window_edge_still_counts() {
    let cfg = standard();
    let mut t = RatelimitTable::new();
    let t0: u64 = 10_000;
    assert_eq!(t.check_ratelimit(Some(1), t0, &cfg), Decision::Admit);
    // Exactly 5000 ms later the window has not yet expired: the count grows.
    assert_eq!(t.check_ratelimit(Some(1), t0 + 5000, &cfg), Decision::Admit);
    assert_eq!(
        t.lookup(1),
        Some(Ratelimit { timestamp: t0, requests: 2 })
    );
    // One millisecond past the edge the window resets.
    assert_eq!(t.check_ratelimit(Some(1), t0 + 5001, &cfg), Decision::Admit);
    assert_eq!(
        t.lookup(1),
        Some(Ratelimit { timestamp: t0 + 5001, requests: 1 })
    );
}

#[test]
fn cooldown_rejects_with_decreasing_retry_then_readmits() {
    let cfg = standard();
    let limit = cfg.rate_limit * 5;
    let mut t = RatelimitTable::new();
    let t0: u64 = 10_000;
    for _ in 0..limit {
        assert_eq!(t.check_ratelimit(Some(1), t0, &cfg), Decision::Admit);
    }
    let tr = t0 + 10;
    assert_eq!(
        t.check_ratelimit(Some(1), tr, &cfg),
        Decision::Reject { retry_after: 5000 }
    );
    // Before the cooldown elapses every request is rejected, with a
    // strictly decreasing wait.
    assert_eq!(
        t.check_ratelimit(Some(1), tr + 1000, &cfg),
        Decision::Reject { retry_after: 4000 }
    );
    assert_eq!(
        t.check_ratelimit(Some(1), tr + 2500, &cfg),
        Decision::Reject { retry_after: 2500 }
    );
    assert_eq!(
        t.check_ratelimit(Some(1), tr + 4999, &cfg),
        Decision::Reject { retry_after: 1 }
    );
    // At the deadline the request is admitted into a fresh window.
    assert_eq!(t.check_ratelimit(Some(1), tr + 5000, &cfg), Decision::Admit);
    assert_eq!(t.lookup(1).unwrap().requests, 1);
}

#[test]
fn simultaneous_burst_admits_exactly_the_limit() {
    // 30 requests arriving at the same instant: exactly 25 admitted, the
    // other 5 rejected, however their atomic checks serialize.
    let cfg = standard();
    let limit = cfg.rate_limit * 5;
    let mut t = RatelimitTable::new();
    let now: u64 = 50_000;
    let mut admitted = 0u32;
    let mut rejected = 0u32;
    for _ in 0..30 {
        match t.check_ratelimit(Some(9), now, &cfg) {
            Decision::Admit => admitted += 1,
            Decision::Reject { retry_after } => {
                assert_eq!(retry_after, cfg.cooldown_ms);
                rejected += 1;
            }
        }
    }
    assert_eq!(admitted, limit);
    assert_eq!(rejected, 30 - limit);
}

#[test]
fn prune_removes_idle_entries_only() {
    let cfg = standard();
    let mut t = RatelimitTable::new();
    let t0: u64 = 10_000;
    assert_eq!(t.check_ratelimit(Some(1), t0, &cfg), Decision::Admit);
    let later = t0 + cfg.prune_after_ms / 2;
    assert_eq!(t.check_ratelimit(Some(2), later, &cfg), Decision::Admit);
    // Sweep past the first entry's horizon but not the second's.
    let sweep = t0 + cfg.prune_after_ms + 1;
    t.prune_ratelimits(sweep, cfg.prune_after_ms);
    assert!(!t.contains(1));
    assert!(t.contains(2));
    // A pruned IP is treated as first-seen again.
    assert_eq!(t.check_ratelimit(Some(1), sweep, &cfg), Decision::Admit);
    assert_eq!(
        t.lookup(1),
        Some(Ratelimit { timestamp: sweep, requests: 1 })
    );
}

#[test]
fn prune_keeps_entry_at_the_horizon() {
    let cfg = standard();
    let mut t = RatelimitTable::new();
    let t0: u64 = 10_000;
    assert_eq!(t.check_ratelimit(Some(1), t0, &cfg), Decision::Admit);
    // Idle for exactly prune_after_ms: not yet beyond the horizon.
    t.prune_ratelimits(t0 + cfg.prune_after_ms, cfg.prune_after_ms);
    assert!(t.contains(1));
}

#[test]
fn decide_matches_the_state_machine() {
    let cfg = standard();
    let (next, d) = decide(None, 1000, &cfg);
    assert_eq!(d, Decision::Admit);
    assert_eq!(next, Ratelimit { timestamp: 1000, requests: 1 });
    let (next2, d2) = decide(Some(Ratelimit { timestamp: 1000, requests: 25 }), 2000, &cfg);
    assert_eq!(d2, Decision::Reject { retry_after: 5000 });
    assert_eq!(next2, Ratelimit { timestamp: 7000, requests: 0 });
    let (next3, d3) = decide(Some(next2), 4000, &cfg);
    assert_eq!(d3, Decision::Reject { retry_after: 3000 });
    assert_eq!(next3, next2);
}
