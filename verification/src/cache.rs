//! The topology cache: the current snapshot, its age, and the coordination
//! that lets at most one refresh run at a time.

use crate::address::Ipv4Address;
use crate::topology::{
    spec_entry_views, spec_topology, SnapshotView, TopologyEntry, TopologyEntryView,
    TopologySnapshot,
};
use vstd::prelude::*;

verus! {

/// Whether a refresh of the snapshot is under way.
#[derive(Clone, Copy, Debug, PartialEq, Eq, Structural)]
pub enum RefreshState {
    /// No refresh is running; a stale snapshot may start one.
    Fresh,
    /// One refresh is running; nobody else starts another.
    Refreshing,
}

/// What a cache stands for. Instants are milliseconds since the Unix epoch.
pub ghost struct CacheView {
    pub snapshot: SnapshotView,
    pub threshold_minutes: int,
    pub state: RefreshState,
}

/// What a fetch handed back, as the sequence of its entries.
pub open spec fn spec_fetched(fetched: Option<Vec<TopologyEntry>>) -> Option<
    Seq<TopologyEntryView>,
> {
    match fetched {
        Some(entries) => Some(spec_entry_views(entries@)),
        None => None,
    }
}

impl CacheView {
    /// Whether the snapshot is older at `now` than the threshold allows.
    pub open spec fn spec_is_stale(self, now: int) -> bool {
        now - self.snapshot.created_at > self.threshold_minutes * 60_000
    }

    /// Whether a caller that arrives at `now` has to start a refresh: the
    /// snapshot is stale and no refresh is running.
    pub open spec fn spec_must_refresh(self, now: int) -> bool {
        self.state == RefreshState::Fresh && self.spec_is_stale(now)
    }

    /// The cache after a caller arrived at `now`: marked as refreshing where
    /// that caller has to start a refresh, else unchanged.
    pub open spec fn spec_ensure_fresh(self, now: int) -> CacheView {
        if self.spec_must_refresh(now) {
            CacheView { state: RefreshState::Refreshing, ..self }
        } else {
            self
        }
    }

    /// The cache after a refresh ended at `now`. A fetch that succeeded
    /// installs its entries, stamped with `now` or with the old stamp if that
    /// is later; one that failed leaves the snapshot as it was. Either way
    /// the next stale observation may start a refresh again.
    pub open spec fn spec_complete_refresh(
        self,
        fetched: Option<Seq<TopologyEntryView>>,
        now: int,
    ) -> CacheView {
        match fetched {
            Some(entries) => CacheView {
                snapshot: SnapshotView {
                    entries: spec_topology(entries),
                    created_at: if now >= self.snapshot.created_at {
                        now
                    } else {
                        self.snapshot.created_at
                    },
                },
                threshold_minutes: self.threshold_minutes,
                state: RefreshState::Fresh,
            },
            None => CacheView { state: RefreshState::Fresh, ..self },
        }
    }

    /// The instant that a caller arrives at, given what the clock said: the
    /// reading where there is one, else the stamp of the current snapshot,
    /// which then counts as taken just now.
    pub open spec fn spec_instant(self, reading: Option<i64>) -> int {
        match reading {
            Some(now) => now as int,
            None => self.snapshot.created_at,
        }
    }

    /// The address of `name` in the current snapshot.
    pub open spec fn spec_lookup(self, name: Seq<char>) -> Option<Ipv4Address> {
        self.snapshot.spec_lookup(name)
    }
}

/// The topology cache. It holds exactly one snapshot at any time.
#[derive(Clone, Debug)]
pub struct Cache {
    snapshot: TopologySnapshot,
    threshold_minutes: i64,
    state: RefreshState,
}

impl View for Cache {
    type V = CacheView;

    closed spec fn view(&self) -> CacheView {
        CacheView {
            snapshot: self.snapshot@,
            threshold_minutes: self.threshold_minutes as int,
            state: self.state,
        }
    }
}

impl Cache {
    /// A cache that holds `snapshot`, with no refresh running.
    pub fn new(snapshot: TopologySnapshot, threshold_minutes: i64) -> (cache: Cache)
        ensures
            cache@ == (CacheView {
                snapshot: snapshot@,
                threshold_minutes: threshold_minutes as int,
                state: RefreshState::Fresh,
            }),
    {
        Cache { snapshot, threshold_minutes, state: RefreshState::Fresh }
    }

    /// The current snapshot.
    pub fn snapshot(&self) -> (snapshot: &TopologySnapshot)
        ensures
            snapshot@ == self@.snapshot,
    {
        &self.snapshot
    }

    /// The staleness threshold, in minutes.
    pub fn threshold_minutes(&self) -> (minutes: i64)
        ensures
            minutes == self@.threshold_minutes,
    {
        self.threshold_minutes
    }

    /// Whether a refresh is under way.
    pub fn state(&self) -> (state: RefreshState)
        ensures
            state == self@.state,
    {
        self.state
    }

    /// The address of `name` in the current snapshot. Reads the cache and
    /// nothing else.
    pub fn lookup(&self, name: &str) -> (found: Option<Ipv4Address>)
        ensures
            found == self@.spec_lookup(name@),
            self@.snapshot.entries.contains_key(name@) ==> found == Some(
                self@.snapshot.entries[name@],
            ),
            !self@.snapshot.entries.contains_key(name@) ==> found is None,
    {
        self.snapshot.lookup(name)
    }

    /// The instant that a caller arrives at, given what the clock said: the
    /// reading where there is one, else the stamp of the current snapshot.
    /// A clock that cannot be read so neither ages the snapshot nor moves
    /// its stamp.
    pub fn instant(&self, reading: Option<i64>) -> (now: i64)
        ensures
            now == self@.spec_instant(reading),
    {
        match reading {
            Some(now) => now,
            None => self.snapshot.created_at(),
        }
    }

    /// Whether the snapshot is older at `now` than the threshold allows.
    pub fn is_stale(&self, now: i64) -> (stale: bool)
        ensures
            stale == self@.spec_is_stale(now as int),
    {
        let age: i128 = now as i128 - self.snapshot.created_at() as i128;
        let limit: i128 = self.threshold_minutes as i128 * 60_000;
        age > limit
    }

    /// Tests staleness and claims the refresh in one step. Returns `true` to
    /// the one caller that has to fetch the topology and then call
    /// [`Cache::complete_refresh`]; every other caller gets `false` and goes
    /// on with the snapshot as it is.
    pub fn ensure_fresh(&mut self, now: i64) -> (claimed: bool)
        ensures
            claimed == old(self)@.spec_must_refresh(now as int),
            final(self)@ == old(self)@.spec_ensure_fresh(now as int),
            final(self)@.snapshot == old(self)@.snapshot,
    {
        if self.state == RefreshState::Fresh && self.is_stale(now) {
            self.state = RefreshState::Refreshing;
            true
        } else {
            false
        }
    }

    /// Ends a refresh at `now` with what the fetch handed back: `Some` with
    /// the entries of a fetch that succeeded, `None` for one that failed or
    /// timed out. A failure keeps the old snapshot and is not passed on.
    pub fn complete_refresh(&mut self, fetched: Option<Vec<TopologyEntry>>, now: i64)
        ensures
            final(self)@ == old(self)@.spec_complete_refresh(spec_fetched(fetched), now as int),
            final(self)@.state == RefreshState::Fresh,
            final(self)@.snapshot.created_at >= old(self)@.snapshot.created_at,
            fetched is None ==> final(self)@.snapshot == old(self)@.snapshot,
    {
        match fetched {
            Some(entries) => {
                let before: i64 = self.snapshot.created_at();
                let stamp: i64 = if now >= before {
                    now
                } else {
                    before
                };
                self.snapshot = TopologySnapshot::new(entries, stamp);
            },
            None => {},
        }
        self.state = RefreshState::Fresh;
    }
}

/// A snapshot that is stale at one instant is stale at every later instant,
/// as long as it is the current one.
pub proof fn lemma_staleness_is_monotonic(cache: CacheView, earlier: int, later: int)
    requires
        earlier <= later,
        cache.spec_is_stale(earlier),
    ensures
        cache.spec_is_stale(later),
{
}

/// Staleness ends only with a refresh that succeeded: an arrival and a
/// refresh that failed leave the snapshot, and so its staleness at any
/// instant, as they were.
pub proof fn lemma_staleness_outlasts_failure(cache: CacheView, now: int, at: int)
    ensures
        cache.spec_ensure_fresh(now).snapshot == cache.snapshot,
        cache.spec_ensure_fresh(now).spec_is_stale(at) == cache.spec_is_stale(at),
        cache.spec_complete_refresh(None, now).snapshot == cache.snapshot,
        cache.spec_complete_refresh(None, now).spec_is_stale(at) == cache.spec_is_stale(at),
{
}

/// No step of the cache puts an older snapshot in the place of the current
/// one.
pub proof fn lemma_snapshot_never_older(
    cache: CacheView,
    fetched: Option<Seq<TopologyEntryView>>,
    now: int,
)
    ensures
        cache.spec_ensure_fresh(now).snapshot.created_at == cache.snapshot.created_at,
        cache.spec_complete_refresh(fetched, now).snapshot.created_at >= cache.snapshot.created_at,
{
}

/// A caller that arrives before the threshold has passed starts no refresh
/// and leaves the cache as it is.
pub proof fn lemma_fresh_snapshot_is_kept(cache: CacheView, now: int)
    requires
        !cache.spec_is_stale(now),
    ensures
        !cache.spec_must_refresh(now),
        cache.spec_ensure_fresh(now) == cache,
{
}

/// How many of the callers that arrive one after the other at `nows` are
/// told to fetch the topology, while no refresh ends in between.
pub open spec fn spec_claims(cache: CacheView, nows: Seq<int>) -> nat
    decreases nows.len(),
{
    if nows.len() == 0 {
        0
    } else {
        let first: nat = if cache.spec_must_refresh(nows[0]) {
            1
        } else {
            0
        };
        first + spec_claims(cache.spec_ensure_fresh(nows[0]), nows.drop_first())
    }
}

/// While a refresh is running, no caller is told to start another.
pub proof fn lemma_no_claim_while_refreshing(cache: CacheView, nows: Seq<int>)
    requires
        cache.state == RefreshState::Refreshing,
    ensures
        spec_claims(cache, nows) == 0,
    decreases nows.len(),
{
    if nows.len() > 0 {
        lemma_no_claim_while_refreshing(cache.spec_ensure_fresh(nows[0]), nows.drop_first());
    }
}

/// However many callers arrive and whenever, at most one of them is told to
/// fetch the topology before a refresh ends.
pub proof fn lemma_single_flight(cache: CacheView, nows: Seq<int>)
    ensures
        spec_claims(cache, nows) <= 1,
    decreases nows.len(),
{
    if nows.len() > 0 {
        if cache.spec_must_refresh(nows[0]) {
            lemma_no_claim_while_refreshing(cache.spec_ensure_fresh(nows[0]), nows.drop_first());
        } else {
            lemma_single_flight(cache.spec_ensure_fresh(nows[0]), nows.drop_first());
        }
    }
}

/// Where callers arrive at a cache with no refresh running and every one of
/// them finds the snapshot stale, exactly one is told to fetch the topology.
pub proof fn lemma_stale_arrivals_claim_once(cache: CacheView, nows: Seq<int>)
    requires
        cache.state == RefreshState::Fresh,
        nows.len() >= 1,
        forall|i: int| 0 <= i < nows.len() ==> cache.spec_is_stale(#[trigger] nows[i]),
    ensures
        spec_claims(cache, nows) == 1,
{
    lemma_no_claim_while_refreshing(cache.spec_ensure_fresh(nows[0]), nows.drop_first());
}

} // verus!
