//! Laws of the rate limiter, proved over the state machine of
//! [`spec_decide`] and [`spec_next`].
//!
//! [`run`] folds a sequence of request times into the counter one IP owns
//! afterwards, and [`decision_at`] is the decision its `i`th request
//! received; the admission checks for one IP are atomic, so any set of
//! concurrent requests from that IP is observed as such a sequence.

use vstd::prelude::*;

use crate::limiter::{spec_decide, spec_keep, spec_next, Decision, Ratelimit, RatelimitConfig,
    WINDOW_MS};

verus! {

/// The counter one IP owns after requests at the given times, starting
/// from `c` (`None` for a never-seen IP).
pub open spec fn run(c: Option<Ratelimit>, times: Seq<u64>, cfg: RatelimitConfig) -> Option<
    Ratelimit,
>
    decreases times.len(),
{
    if times.len() == 0 {
        c
    } else {
        Some(spec_next(run(c, times.drop_last(), cfg), times.last(), cfg))
    }
}

/// The decision the `i`th request of the sequence received.
pub open spec fn decision_at(
    c: Option<Ratelimit>,
    times: Seq<u64>,
    i: int,
    cfg: RatelimitConfig,
) -> Decision
    recommends
        0 <= i < times.len(),
{
    spec_decide(run(c, times.take(i), cfg), times[i], cfg)
}

/// After `k` requests from a fresh IP, all inside one window and within the
/// limit, the counter holds the window start and the request count `k`.
proof fn lemma_window_counter(times: Seq<u64>, cfg: RatelimitConfig, k: int)
    requires
        cfg.wf(),
        1 <= k <= times.len(),
        k <= cfg.limit(),
        forall|i: int, j: int| 0 <= i <= j < times.len() ==> #[trigger] times[i] <= #[trigger] times[j],
        forall|i: int| 0 < i < times.len() ==> #[trigger] times[i] <= times[0] + WINDOW_MS,
    ensures
        run(None, times.take(k), cfg) == Some(
            Ratelimit { timestamp: times[0], requests: k as u32 },
        ),
    decreases k,
{
    assert(times.take(k).len() == k);
    assert(run(None, times.take(k), cfg) == Some(
        spec_next(run(None, times.take(k).drop_last(), cfg), times.take(k).last(), cfg),
    ));
    if k == 1 {
        assert(times.take(1).drop_last() =~= Seq::<u64>::empty());
        assert(run(None, Seq::<u64>::empty(), cfg) == None::<Ratelimit>);
        assert(times.take(1).last() == times[0]);
    } else {
        lemma_window_counter(times, cfg, k - 1);
        assert(times.take(k).drop_last() =~= times.take(k - 1));
        assert(times.take(k).last() == times[k - 1]);
        let prev = Ratelimit { timestamp: times[0], requests: (k - 1) as u32 };
        let now = times[k - 1];
        // Still inside the counting window, below the limit.
        assert(times[0] <= now);
        assert(now <= times[0] + WINDOW_MS);
        assert(prev.requests < cfg.limit());
        assert(spec_next(Some(prev), now, cfg) == Ratelimit {
            timestamp: times[0],
            requests: k as u32,
        });
    }
}

/// Every request of a sequence of at most `rate_limit * 5` requests from
/// one fresh IP, all inside one 5-second window, is admitted.
pub proof fn lemma_window_admits_all(times: Seq<u64>, cfg: RatelimitConfig)
    requires
        cfg.wf(),
        0 < times.len() <= cfg.limit(),
        forall|i: int, j: int| 0 <= i <= j < times.len() ==> #[trigger] times[i] <= #[trigger] times[j],
        forall|i: int| 0 < i < times.len() ==> #[trigger] times[i] <= times[0] + WINDOW_MS,
    ensures
        forall|i: int|
            0 <= i < times.len() ==> decision_at(None, times, i, cfg) == Decision::Admit,
{
    assert forall|i: int| 0 <= i < times.len() implies decision_at(None, times, i, cfg)
        == Decision::Admit by {
        if i == 0 {
            assert(times.take(0) =~= Seq::<u64>::empty());
        } else {
            lemma_window_counter(times, cfg, i);
            let prev = Ratelimit { timestamp: times[0], requests: i as u32 };
            assert(times[0] <= times[i]);
            assert(times[i] <= times[0] + WINDOW_MS);
            assert(prev.requests < cfg.limit());
        }
    }
}

/// The next request after `rate_limit * 5` admitted ones, still inside the
/// same window, is rejected with `retry_after` equal to the cooldown.
pub proof fn lemma_over_limit_rejected(times: Seq<u64>, cfg: RatelimitConfig)
    requires
        cfg.wf(),
        times.len() == cfg.limit() + 1,
        forall|i: int, j: int| 0 <= i <= j < times.len() ==> #[trigger] times[i] <= #[trigger] times[j],
        forall|i: int| 0 < i < times.len() ==> #[trigger] times[i] <= times[0] + WINDOW_MS,
    ensures
        decision_at(None, times, times.len() - 1, cfg) == (Decision::Reject {
            retry_after: cfg.cooldown_ms,
        }),
{
    let n = times.len() - 1;
    lemma_window_counter(times, cfg, n);
    let prev = Ratelimit { timestamp: times[0], requests: n as u32 };
    assert(times[0] <= times[n]);
    assert(times[n] <= times[0] + WINDOW_MS);
    assert(!(prev.requests < cfg.limit()));
}

/// During an active cooldown every request is rejected with the time left
/// until the deadline, and the counter is left unmodified.
pub proof fn lemma_cooldown_rejects(c: Ratelimit, now: u64, cfg: RatelimitConfig)
    requires
        cfg.wf(),
        now < c.timestamp,
    ensures
        spec_decide(Some(c), now, cfg) == (Decision::Reject {
            retry_after: (c.timestamp - now) as u64,
        }),
        spec_next(Some(c), now, cfg) == c,
{
}

/// Between two requests during one cooldown, the advertised wait strictly
/// decreases as time advances.
pub proof fn lemma_retry_after_decreases(c: Ratelimit, t1: u64, t2: u64, cfg: RatelimitConfig)
    requires
        cfg.wf(),
        t1 < t2 < c.timestamp,
    ensures
        spec_next(Some(c), t1, cfg) == c,
        spec_decide(Some(c), t1, cfg) == (Decision::Reject {
            retry_after: (c.timestamp - t1) as u64,
        }),
        spec_decide(Some(c), t2, cfg) == (Decision::Reject {
            retry_after: (c.timestamp - t2) as u64,
        }),
        c.timestamp - t2 < c.timestamp - t1,
{
}

/// The first request at or after a cooldown deadline is admitted and starts
/// a fresh window holding exactly that one request.
pub proof fn lemma_cooldown_elapsed_admits(c: Ratelimit, now: u64, cfg: RatelimitConfig)
    requires
        cfg.wf(),
        c.requests == 0,
        c.timestamp <= now,
    ensures
        spec_decide(Some(c), now, cfg) == Decision::Admit,
        spec_next(Some(c), now, cfg).requests == 1,
        spec_next(Some(c), now, cfg).timestamp <= now,
{
}

/// An entry idle for longer than `prune_after_ms` does not survive the
/// sweep, and a later request from its IP is treated as first-seen: it is
/// admitted and gets a fresh window with a count of one.
pub proof fn lemma_idle_pruned_then_fresh(
    c: Ratelimit,
    now: u64,
    prune_after_ms: u64,
    later: u64,
    cfg: RatelimitConfig,
)
    requires
        cfg.wf(),
        c.timestamp + prune_after_ms < now,
    ensures
        !spec_keep(c, now, prune_after_ms),
        spec_decide(None, later, cfg) == Decision::Admit,
        spec_next(None, later, cfg) == (Ratelimit { timestamp: later, requests: 1 }),
{
}

/// After the limit is exhausted at time `t`, the counter holds a cooldown
/// marker at `t + cooldown_ms` with an empty bucket, and every further
/// request at `t` is rejected, the counter unchanged.
proof fn lemma_saturated_counter(times: Seq<u64>, cfg: RatelimitConfig, k: int)
    requires
        cfg.wf(),
        cfg.cooldown_ms >= 1,
        times.len() > cfg.limit(),
        times[0] + cfg.cooldown_ms <= u64::MAX,
        forall|i: int| 0 <= i < times.len() ==> #[trigger] times[i] == times[0],
        cfg.limit() + 1 <= k <= times.len(),
    ensures
        run(None, times.take(k), cfg) == Some(
            Ratelimit { timestamp: (times[0] + cfg.cooldown_ms) as u64, requests: 0 },
        ),
    decreases k,
{
    let cooled = Ratelimit { timestamp: (times[0] + cfg.cooldown_ms) as u64, requests: 0 };
    if k == cfg.limit() + 1 {
        lemma_window_counter(times, cfg, k - 1);
        assert(times.take(k).drop_last() =~= times.take(k - 1));
        let prev = Ratelimit { timestamp: times[0], requests: (k - 1) as u32 };
        assert(!(prev.requests < cfg.limit()));
        assert(spec_next(Some(prev), times[k - 1], cfg) == cooled);
    } else {
        lemma_saturated_counter(times, cfg, k - 1);
        assert(times.take(k).drop_last() =~= times.take(k - 1));
        // The request at `times[0]` falls before the cooldown deadline.
        assert(times[k - 1] < cooled.timestamp);
        assert(spec_next(Some(cooled), times[k - 1], cfg) == cooled);
    }
}

/// No overadmission: of `M > rate_limit * 5` requests from one fresh IP
/// arriving at the same instant — in whatever order their atomic admission
/// checks serialize — exactly the first `rate_limit * 5` are admitted and
/// every later one is rejected.
pub proof fn lemma_no_overadmission(times: Seq<u64>, cfg: RatelimitConfig)
    requires
        cfg.wf(),
        cfg.cooldown_ms >= 1,
        times.len() > cfg.limit(),
        times[0] + cfg.cooldown_ms <= u64::MAX,
        forall|i: int| 0 <= i < times.len() ==> #[trigger] times[i] == times[0],
    ensures
        forall|i: int| 0 <= i < cfg.limit() ==> decision_at(None, times, i, cfg) == Decision::Admit,
        forall|i: int|
            cfg.limit() <= i < times.len() ==> decision_at(None, times, i, cfg) == (
            Decision::Reject { retry_after: cfg.cooldown_ms }),
{
    assert forall|i: int| 0 <= i < cfg.limit() implies decision_at(None, times, i, cfg)
        == Decision::Admit by {
        if i == 0 {
            assert(times.take(0) =~= Seq::<u64>::empty());
        } else {
            lemma_window_counter(times, cfg, i);
        }
    }
    assert forall|i: int| cfg.limit() <= i < times.len() implies decision_at(None, times, i, cfg)
        == (Decision::Reject { retry_after: cfg.cooldown_ms }) by {
        if i == cfg.limit() {
            lemma_window_counter(times, cfg, i);
            let prev = Ratelimit { timestamp: times[0], requests: i as u32 };
            assert(!(prev.requests < cfg.limit()));
        } else {
            lemma_saturated_counter(times, cfg, i);
            let cooled = Ratelimit {
                timestamp: (times[0] + cfg.cooldown_ms) as u64,
                requests: 0,
            };
            // At the shared instant the deadline still lies in the future.
            assert(times[i] < cooled.timestamp);
            assert(cooled.timestamp - times[i] == cfg.cooldown_ms);
        }
    }
}

} // verus!
