//! Per-identity request counters over a fixed window. A counter admits a
//! request while it stands below the limit, so each identity gets exactly
//! the limit's number of requests per window, and a periodic reset puts
//! every counter back to zero.

use vstd::prelude::*;
use crate::store::EphemeralStore;

verus! {

/// The number of requests an identity is admitted per window.
pub const API_LIMIT: u64 = 1000;

/// The length of the window after which all counters go back to zero.
pub const RESET_PERIOD_SECS: i64 = 3600;

/// The count of `id`, zero where it is not tracked.
pub open spec fn count_of(m: Map<Seq<char>, u64>, id: Seq<char>) -> u64 {
    if m.contains_key(id) {
        m[id]
    } else {
        0
    }
}

/// Whether a request of `id` is admitted.
pub open spec fn admits(m: Map<Seq<char>, u64>, id: Seq<char>) -> bool {
    count_of(m, id) < API_LIMIT
}

/// The counters after a request of `id`: one more if it is admitted,
/// unchanged otherwise.
pub open spec fn after_request(m: Map<Seq<char>, u64>, id: Seq<char>) -> Map<Seq<char>, u64> {
    if admits(m, id) {
        m.insert(id, (count_of(m, id) + 1) as u64)
    } else {
        m
    }
}

/// The counters after a reset: the same identities, all at zero.
pub open spec fn after_reset(m: Map<Seq<char>, u64>) -> Map<Seq<char>, u64> {
    Map::new(|k: Seq<char>| m.contains_key(k), |k: Seq<char>| 0u64)
}

/// The counters after `n` requests of `id` in a row.
pub open spec fn after_requests(m: Map<Seq<char>, u64>, id: Seq<char>, n: nat) -> Map<
    Seq<char>,
    u64,
>
    decreases n,
{
    if n == 0 {
        m
    } else {
        after_request(after_requests(m, id, (n - 1) as nat), id)
    }
}

/// Request counters keyed by identity. Each entry is stamped with the time of
/// the request that last changed it.
pub struct ApiCounter {
    counts: EphemeralStore<u64>,
}

impl View for ApiCounter {
    type V = Map<Seq<char>, u64>;

    closed spec fn view(&self) -> Map<Seq<char>, u64> {
        Map::new(|k: Seq<char>| self.counts@.contains_key(k), |k: Seq<char>| self.counts@[k].0)
    }
}

impl ApiCounter {
    pub closed spec fn wf(&self) -> bool {
        self.counts.wf()
    }

    /// No identity tracked.
    pub fn new() -> (r: Self)
        ensures
            r.wf(),
            r@ == Map::<Seq<char>, u64>::empty(),
    {
        let r = ApiCounter { counts: EphemeralStore::new() };
        assert(r@ =~= Map::<Seq<char>, u64>::empty());
        r
    }

    /// The current count of `id`.
    pub fn count(&self, id: &String) -> (r: u64)
        requires
            self.wf(),
        ensures
            r == count_of(self@, id@),
    {
        match self.counts.get(id) {
            Some((c, _)) => *c,
            None => 0,
        }
    }

    /// Starts tracking `id` at zero, unless it is tracked already.
    pub fn track(&mut self, id: &String, now: i64)
        requires
            old(self).wf(),
        ensures
            final(self).wf(),
            final(self)@ == if old(self)@.contains_key(id@) {
                old(self)@
            } else {
                old(self)@.insert(id@, 0u64)
            },
    {
        if !self.counts.contains(id) {
            self.counts.put(id.clone(), 0, now);
            assert(self@ =~= old(self)@.insert(id@, 0u64));
        }
    }

    /// Admits a request of `id` at time `now` when its count is below the
    /// limit, and then counts it; otherwise leaves everything unchanged.
    pub fn check_and_increment(&mut self, id: &String, now: i64) -> (r: bool)
        requires
            old(self).wf(),
        ensures
            final(self).wf(),
            r == admits(old(self)@, id@),
            final(self)@ == after_request(old(self)@, id@),
    {
        let c = self.count(id);
        if c >= API_LIMIT {
            false
        } else {
            self.counts.put(id.clone(), c + 1, now);
            assert(self@ =~= old(self)@.insert(id@, (c + 1) as u64));
            true
        }
    }

    /// Puts every counter back to zero; this is the only way a count goes down.
    pub fn reset(&mut self)
        requires
            old(self).wf(),
        ensures
            final(self).wf(),
            final(self)@ == after_reset(old(self)@),
    {
        self.counts.set_all(0);
        assert(self@ =~= after_reset(old(self)@));
    }
}

/// From a count of zero, requests of one identity are admitted until its
/// count reaches the limit: the request that follows `n` earlier ones is
/// admitted exactly when `n` is below the limit, so the first `API_LIMIT`
/// requests pass and every later one fails. The count then stands at `n`,
/// capped at the limit.
pub proof fn lemma_quota_window(m: Map<Seq<char>, u64>, id: Seq<char>, n: nat)
    requires
        count_of(m, id) == 0,
    ensures
        admits(after_requests(m, id, n), id) == (n < API_LIMIT),
        count_of(after_requests(m, id, n), id) == if n <= API_LIMIT {
            n
        } else {
            API_LIMIT as nat
        },
    decreases n,
{
    if n > 0 {
        lemma_quota_window(m, id, (n - 1) as nat);
    }
}

/// A reset puts every identity back to a count of zero, so the window of
/// admitted requests starts again for each of them.
pub proof fn lemma_reset_restarts(m: Map<Seq<char>, u64>, id: Seq<char>, n: nat)
    ensures
        count_of(after_reset(m), id) == 0,
        admits(after_requests(after_reset(m), id, n), id) == (n < API_LIMIT),
{
    lemma_quota_window(after_reset(m), id, n);
}

} // verus!
