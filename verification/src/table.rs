//! The shared IP-to-counter table.
//!
//! The table keeps one [`Ratelimit`] counter per client IP (an IPv6-sized
//! integer; IPv4 addresses map into the low 32 bits). It is backed by
//! dashmap's concurrent hash map, seen here through trusted wrappers whose
//! contracts speak of [`entries`], the map's contents as a mathematical
//! `Map`. Each admission check is one atomic read-modify-write of the
//! counter for one IP, so two overlapping requests from the same IP can
//! never both slip under the limit.

use vstd::prelude::*;

use dashmap::DashMap;

use crate::limiter::{
    keep_entry, spec_decide, spec_keep, spec_next, Decision, Ratelimit, RatelimitConfig,
};

verus! {

#[verifier::external_type_specification]
#[verifier::external_body]
#[verifier::reject_recursive_types(K)]
#[verifier::reject_recursive_types(V)]
#[verifier::reject_recursive_types(S)]
pub struct ExDashMap<K, V, S>(DashMap<K, V, S>);

/// The contents of the backing map: each stored pair of (window timestamp,
/// request count) under its IP key.
pub uninterp spec fn entries(m: DashMap<u128, (u64, u32)>) -> Map<u128, (u64, u32)>;

/// Whether the backing map holds no entry at all.
pub open spec fn no_entries(m: DashMap<u128, (u64, u32)>) -> bool {
    entries(m) == Map::<u128, (u64, u32)>::empty()
}

/// Relies on dashmap::DashMap::new: the new map is empty.
#[verifier::external_body]
fn map_new() -> (m: DashMap<u128, (u64, u32)>)
    ensures
        no_entries(m),
{
    DashMap::new()
}

/// Relies on dashmap::DashMap::get: returns a copy of the value stored under
/// the key, or `None` when the key is absent.
#[verifier::external_body]
fn map_get(m: &DashMap<u128, (u64, u32)>, ip: u128) -> (r: Option<(u64, u32)>)
    ensures
        r == if entries(*m).dom().contains(ip) {
            Some(entries(*m)[ip])
        } else {
            None::<(u64, u32)>
        },
{
    m.get(&ip).map(|v| *v)
}

/// Relies on dashmap::DashMap::insert: stores the value under the key,
/// replacing any previous one.
#[verifier::external_body]
fn map_put(m: &mut DashMap<u128, (u64, u32)>, ip: u128, v: (u64, u32))
    ensures
        entries(*final(m)) == entries(*old(m)).insert(ip, v),
{
    m.insert(ip, v);
}

/// Relies on dashmap::DashMap::retain: keeps exactly the entries the given
/// predicate approves, here the live entries at time `now`.
#[verifier::external_body]
fn map_retain_live(m: &mut DashMap<u128, (u64, u32)>, now: u64, prune_after_ms: u64)
    ensures
        forall|ip: u128|
            #[trigger] entries(*final(m)).dom().contains(ip) <==> (entries(*old(m)).dom().contains(
                ip,
            )
                && spec_keep(
                Ratelimit {
                    timestamp: entries(*old(m))[ip].0,
                    requests: entries(*old(m))[ip].1,
                },
                now,
                prune_after_ms,
            )),
        forall|ip: u128|
            #[trigger] entries(*final(m)).dom().contains(ip) ==> entries(*final(m))[ip] == entries(
                *old(m),
            )[ip],
{
    m.retain(|_ip, v| keep_entry(*v, now, prune_after_ms));
}

/// The shared table mapping each observed client IP to its counter.
pub struct RatelimitTable {
    map: DashMap<u128, (u64, u32)>,
}

impl RatelimitTable {
    /// The table as a mathematical map from IP to counter.
    pub closed spec fn view(&self) -> Map<u128, Ratelimit> {
        Map::new(
            |ip: u128| entries(self.map).dom().contains(ip),
            |ip: u128|
                Ratelimit { timestamp: entries(self.map)[ip].0, requests: entries(self.map)[ip].1 },
        )
    }

    /// An empty table.
    pub fn new() -> (t: RatelimitTable)
        ensures
            t@ == Map::<u128, Ratelimit>::empty(),
    {
        let t = RatelimitTable { map: map_new() };
        proof {
            assert(t@ =~= Map::<u128, Ratelimit>::empty());
        }
        t
    }

    /// The counter currently owned by `ip`, if any.
    pub fn lookup(&self, ip: u128) -> (r: Option<Ratelimit>)
        ensures
            r == if self@.dom().contains(ip) {
                Some(self@[ip])
            } else {
                None::<Ratelimit>
            },
    {
        match map_get(&self.map, ip) {
            Some(v) => Some(Ratelimit { timestamp: v.0, requests: v.1 }),
            None => None,
        }
    }

    /// Whether `ip` currently owns a counter.
    pub fn contains(&self, ip: u128) -> (b: bool)
        ensures
            b == self@.dom().contains(ip),
    {
        self.lookup(ip).is_some()
    }

    /// Check the rate limit for one request.
    ///
    /// A request with no usable client address (`addr == None`) is admitted
    /// unconditionally and leaves the table unchanged: the system has no
    /// reliable identity to count against. Otherwise the decision is the
    /// state machine's [`spec_decide`] on the IP's counter, and the IP's
    /// entry becomes [`spec_next`]; entries of other IPs are untouched.
    pub fn check_ratelimit(&mut self, addr: Option<u128>, now: u64, cfg: &RatelimitConfig) -> (d:
        Decision)
        requires
            cfg.wf(),
            now + cfg.cooldown_ms <= u64::MAX,
        ensures
            match addr {
                None => d == Decision::Admit && final(self)@ == old(self)@,
                Some(ip) => {
                    let prev = if old(self)@.dom().contains(ip) {
                        Some(old(self)@[ip])
                    } else {
                        None::<Ratelimit>
                    };
                    d == spec_decide(prev, now, *cfg) && final(self)@ == old(self)@.insert(
                        ip,
                        spec_next(prev, now, *cfg),
                    )
                },
            },
    {
        let ip = match addr {
            Some(ip) => ip,
            None => {
                return Decision::Admit;
            },
        };
        let prev = match map_get(&self.map, ip) {
            Some(v) => Some(Ratelimit { timestamp: v.0, requests: v.1 }),
            None => None,
        };
        let (next, d) = crate::limiter::decide(prev, now, cfg);
        map_put(&mut self.map, ip, (next.timestamp, next.requests));
        proof {
            assert(self@ =~= old(self)@.insert(ip, spec_next(prev, now, *cfg)));
        }
        d
    }

    /// Remove every entry that has been idle beyond `prune_after_ms`.
    ///
    /// Exactly the live entries remain, unchanged: an entry survives the
    /// sweep if and only if it was active within the last `prune_after_ms`
    /// milliseconds (or carries a cooldown marker still in the future).
    pub fn prune_ratelimits(&mut self, now: u64, prune_after_ms: u64)
        ensures
            forall|ip: u128|
                #[trigger] final(self)@.dom().contains(ip) <==> (old(self)@.dom().contains(ip)
                    && spec_keep(old(self)@[ip], now, prune_after_ms)),
            forall|ip: u128|
                #[trigger] final(self)@.dom().contains(ip) ==> final(self)@[ip] == old(self)@[ip],
    {
        map_retain_live(&mut self.map, now, prune_after_ms);
    }
}

} // verus!
