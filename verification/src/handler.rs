//! The resolution engine: the steps of one query, from validation to its
//! outcome, over a topology cache that many queries share.
//!
//! The engine never waits. Where a query needs the topology fetched or a
//! resolver asked, the engine says so with a [`Step`]; the caller does that
//! work and hands the result back. Each call is one atomic step on the
//! cache, so the caller holds its lock for the call alone and never while
//! it waits.

use crate::cache::{spec_fetched, Cache, CacheView, RefreshState};
use crate::address::IpAddress;
use crate::client::{
    lemma_primary_asked_once, spec_answered, spec_run, ResolveError, Step, StepView, Tier,
};
use crate::clock::now_millis;
use crate::config::ANSWER_TTL;
use crate::error::Error;
use crate::options::Options;
use crate::request::{MessageType, OpCode, Request};
use crate::response::{
    respond, spec_respond, AnswerRecordView, OutcomeView, ResolutionOutcome, Response,
    ResponseCode, ResponseView,
};
use crate::topology::{
    spec_entry_views, spec_topology, SnapshotView, TopologyEntry, TopologyEntryView,
    TopologySnapshot,
};
use vstd::prelude::*;

verus! {

/// The cache of a handler that starts at `now` with these entries.
pub open spec fn spec_initial(
    threshold_minutes: int,
    entries: Seq<TopologyEntryView>,
    now: int,
) -> CacheView {
    CacheView {
        snapshot: SnapshotView { entries: spec_topology(entries), created_at: now },
        threshold_minutes,
        state: RefreshState::Fresh,
    }
}

/// The stamp of a first snapshot, given what the clock said.
pub open spec fn spec_first_instant(reading: Option<i64>) -> int {
    match reading {
        Some(now) => now as int,
        None => i64::MIN as int,
    }
}

/// The step of a query for `name` once the cache is settled: the snapshot
/// answers where it holds the name, and only where it does not is the
/// primary resolver asked, for that name.
pub open spec fn spec_local_step(cache: CacheView, name: Seq<char>) -> StepView {
    match cache.spec_lookup(name) {
        Some(address) => StepView::Finish(OutcomeView::LocalHit(address)),
        None => StepView::Resolve(Tier::Primary, name),
    }
}

/// The cache and the first step of an accepted query for `name` that
/// arrives at `now`.
pub open spec fn spec_handle_query(cache: CacheView, name: Seq<char>, now: int) -> (
    CacheView,
    StepView,
) {
    if cache.spec_must_refresh(now) {
        (cache.spec_ensure_fresh(now), StepView::FetchTopology)
    } else {
        (cache, spec_local_step(cache, name))
    }
}

/// The cache and the first step of a request that arrives at `now`.
pub open spec fn spec_handle_request(cache: CacheView, request: Request, now: int) -> (
    CacheView,
    StepView,
) {
    match request.spec_verdict() {
        Err(reason) => (cache, StepView::Finish(OutcomeView::Rejected(reason))),
        Ok(_) => spec_handle_query(cache, request.name@, now),
    }
}

/// The cache and the next step of a query for `name` whose fetch of the
/// topology ended at `now`.
pub open spec fn spec_topology_fetched(
    cache: CacheView,
    name: Seq<char>,
    fetched: Option<Seq<TopologyEntryView>>,
    now: int,
) -> (CacheView, StepView) {
    let settled = cache.spec_complete_refresh(fetched, now);
    (settled, spec_local_step(settled, name))
}

/// The request handler. It owns the topology cache.
#[derive(Clone, Debug)]
pub struct Handler {
    cache: Cache,
}

impl View for Handler {
    type V = CacheView;

    closed spec fn view(&self) -> CacheView {
        self.cache@
    }
}

impl Handler {
    /// A handler over `cache`.
    pub fn new(cache: Cache) -> (handler: Handler)
        ensures
            handler@ == cache@,
    {
        Handler { cache }
    }

    /// A handler that starts at `now` with the entries of a first fetch.
    pub fn from_options_at(options: &Options, entries: Vec<TopologyEntry>, now: i64) -> (handler:
        Handler)
        ensures
            handler@ == spec_initial(
                options.state_refresh_minutes as int,
                spec_entry_views(entries@),
                now as int,
            ),
    {
        Handler {
            cache: Cache::new(TopologySnapshot::new(entries, now), options.state_refresh_minutes),
        }
    }

    /// The stamp of a first snapshot, given what the clock said: the reading
    /// where there is one, else the earliest instant, so that the first
    /// caller with a reading finds the snapshot stale.
    pub fn first_instant(reading: Option<i64>) -> (now: i64)
        ensures
            now == spec_first_instant(reading),
    {
        match reading {
            Some(now) => now,
            None => i64::MIN,
        }
    }

    /// A handler that starts now with the entries of a first fetch. Where
    /// the clock cannot be read, the snapshot is stamped with the earliest
    /// instant.
    pub fn from_options(options: &Options, entries: Vec<TopologyEntry>) -> (handler: Handler)
        ensures
            exists|reading: Option<i64>|
                handler@ == spec_initial(
                    options.state_refresh_minutes as int,
                    spec_entry_views(entries@),
                    #[trigger] spec_first_instant(reading),
                ),
    {
        let now: i64 = Handler::first_instant(now_millis());
        Handler::from_options_at(options, entries, now)
    }

    /// The cache.
    pub fn cache(&self) -> (cache: &Cache)
        ensures
            cache@ == self@,
    {
        &self.cache
    }

    /// Answers from the snapshot, or sends the query to the primary
    /// resolver where the snapshot does not hold the name. A name that the
    /// snapshot holds never reaches a resolver, however old the snapshot is.
    pub fn local_step(&self, name: &str) -> (step: Step)
        ensures
            step@ == spec_local_step(self@, name@),
            self@.snapshot.entries.contains_key(name@) ==> step@ == StepView::Finish(
                OutcomeView::LocalHit(self@.snapshot.entries[name@]),
            ),
            !self@.snapshot.entries.contains_key(name@) ==> step@ == StepView::Resolve(
                Tier::Primary,
                name@,
            ),
    {
        match self.cache.lookup(name) {
            Some(address) => Step::Finish(ResolutionOutcome::LocalHit(address)),
            None => Step::Resolve(Tier::Primary, name.to_owned()),
        }
    }

    /// Tests at `now` whether the snapshot is stale and claims the refresh
    /// in the same step. `true` tells the caller to fetch the topology.
    pub fn refresh_state_at(&mut self, now: i64) -> (claimed: bool)
        ensures
            claimed == old(self)@.spec_must_refresh(now as int),
            final(self)@ == old(self)@.spec_ensure_fresh(now as int),
    {
        self.cache.ensure_fresh(now)
    }

    /// Tests whether the snapshot is stale by now and claims the refresh in
    /// the same step. `true` tells the caller to fetch the topology. Where
    /// the clock cannot be read, the stamp of the snapshot stands for now.
    pub fn refresh_state(&mut self) -> (claimed: bool)
        ensures
            exists|reading: Option<i64>|
                claimed == old(self)@.spec_must_refresh(
                    #[trigger] old(self)@.spec_instant(reading),
                ) && final(self)@ == old(self)@.spec_ensure_fresh(
                    old(self)@.spec_instant(reading),
                ),
    {
        let now: i64 = self.cache.instant(now_millis());
        self.refresh_state_at(now)
    }

    /// Ends a refresh at `now`: installs the entries of a fetch that
    /// succeeded, keeps the snapshot after one that failed.
    pub fn refresh_at(&mut self, fetched: Option<Vec<TopologyEntry>>, now: i64)
        ensures
            final(self)@ == old(self)@.spec_complete_refresh(spec_fetched(fetched), now as int),
    {
        self.cache.complete_refresh(fetched, now);
    }

    /// Ends a refresh now: installs the entries of a fetch that succeeded,
    /// keeps the snapshot after one that failed. Where the clock cannot be
    /// read, the refresh ends all the same and the stamp stays as it is.
    pub fn refresh(&mut self, fetched: Option<Vec<TopologyEntry>>)
        ensures
            exists|reading: Option<i64>|
                final(self)@ == old(self)@.spec_complete_refresh(
                    spec_fetched(fetched),
                    #[trigger] old(self)@.spec_instant(reading),
                ),
            final(self)@.state == RefreshState::Fresh,
    {
        let now: i64 = self.cache.instant(now_millis());
        self.refresh_at(fetched, now);
    }

    /// The first step of an accepted query for `name` that arrives at `now`.
    pub fn handle_query_at(&mut self, name: &str, now: i64) -> (step: Step)
        ensures
            (final(self)@, step@) == spec_handle_query(old(self)@, name@, now as int),
            final(self)@.snapshot == old(self)@.snapshot,
            step@ == StepView::FetchTopology <==> old(self)@.spec_must_refresh(now as int),
    {
        if self.refresh_state_at(now) {
            Step::FetchTopology
        } else {
            self.local_step(name)
        }
    }

    /// The first step of an accepted query for `name` that arrives now.
    /// Where the clock cannot be read, the stamp of the snapshot stands for
    /// now.
    pub fn handle_query(&mut self, name: &str) -> (step: Step)
        ensures
            exists|reading: Option<i64>|
                (final(self)@, step@) == spec_handle_query(
                    old(self)@,
                    name@,
                    #[trigger] old(self)@.spec_instant(reading),
                ),
    {
        let now: i64 = self.cache.instant(now_millis());
        self.handle_query_at(name, now)
    }

    /// The first step of a request that arrives at `now`. A request that
    /// the validator turns away ends at once and leaves the cache untouched.
    pub fn handle_request_at(&mut self, request: &Request, now: i64) -> (step: Step)
        ensures
            (final(self)@, step@) == spec_handle_request(old(self)@, *request, now as int),
            final(self)@.snapshot == old(self)@.snapshot,
            request.spec_verdict() is Err ==> final(self)@ == old(self)@,
            step@ == StepView::FetchTopology <==> (request.spec_verdict() is Ok
                && old(self)@.spec_must_refresh(now as int)),
    {
        match request.validate() {
            Err(reason) => Step::Finish(ResolutionOutcome::Rejected(reason)),
            Ok(_) => self.handle_query_at(request.name.as_str(), now),
        }
    }

    /// The first step of a request that arrives now. Where the clock cannot
    /// be read, the stamp of the snapshot stands for now.
    pub fn handle_request(&mut self, request: &Request) -> (step: Step)
        ensures
            exists|reading: Option<i64>|
                (final(self)@, step@) == spec_handle_request(
                    old(self)@,
                    *request,
                    #[trigger] old(self)@.spec_instant(reading),
                ),
            request.spec_verdict() is Err ==> final(self)@ == old(self)@,
    {
        let now: i64 = self.cache.instant(now_millis());
        self.handle_request_at(request, now)
    }

    /// The next step of the query for `name` that fetched the topology,
    /// the fetch having ended at `now`.
    pub fn topology_fetched_at(
        &mut self,
        name: &str,
        fetched: Option<Vec<TopologyEntry>>,
        now: i64,
    ) -> (step: Step)
        ensures
            (final(self)@, step@) == spec_topology_fetched(
                old(self)@,
                name@,
                spec_fetched(fetched),
                now as int,
            ),
    {
        self.refresh_at(fetched, now);
        self.local_step(name)
    }

    /// The next step of the query for `name` that fetched the topology,
    /// the fetch having ended now. Where the clock cannot be read, the
    /// refresh ends all the same and the stamp stays as it is.
    pub fn topology_fetched(&mut self, name: &str, fetched: Option<Vec<TopologyEntry>>) -> (step:
        Step)
        ensures
            exists|reading: Option<i64>|
                (final(self)@, step@) == spec_topology_fetched(
                    old(self)@,
                    name@,
                    spec_fetched(fetched),
                    #[trigger] old(self)@.spec_instant(reading),
                ),
            final(self)@.state == RefreshState::Fresh,
    {
        let now: i64 = self.cache.instant(now_millis());
        self.topology_fetched_at(name, fetched, now)
    }

    /// The response to a request that failed with `error`: a failure of the
    /// server, with no answer. The reason stays in the log.
    pub fn send_error(error: Error) -> (response: Response)
        ensures
            response@ == (ResponseView {
                code: ResponseCode::ServFail,
                answers: Seq::<AnswerRecordView>::empty(),
                authoritative: false,
            }),
    {
        let response = respond("", &ResolutionOutcome::Rejected(error));
        assert(response@.answers =~= Seq::<AnswerRecordView>::empty());
        response
    }
}

/// A name that the snapshot holds is answered with the address that the
/// snapshot gives it, and no resolver is asked, whatever the resolvers
/// would have said.
pub proof fn lemma_known_name_stays_local(
    cache: CacheView,
    name: Seq<char>,
    replies: Seq<Result<Seq<IpAddress>, ResolveError>>,
)
    requires
        cache.snapshot.entries.contains_key(name),
    ensures
        cache.spec_lookup(name) == Some(cache.snapshot.entries[name]),
        spec_local_step(cache, name) == StepView::Finish(
            OutcomeView::LocalHit(cache.snapshot.entries[name]),
        ),
        spec_run(spec_local_step(cache, name), replies).0 == Seq::<(Tier, Seq<char>)>::empty(),
        spec_run(spec_local_step(cache, name), replies).1 == spec_local_step(cache, name),
        spec_respond(name, OutcomeView::LocalHit(cache.snapshot.entries[name])) == (ResponseView {
            code: ResponseCode::NoError,
            answers: seq![
                AnswerRecordView {
                    name,
                    ttl: ANSWER_TTL,
                    address: cache.snapshot.entries[name],
                },
            ],
            authoritative: false,
        }),
{
    assert(spec_respond(name, OutcomeView::LocalHit(cache.snapshot.entries[name])).answers
        =~= seq![
        AnswerRecordView { name, ttl: ANSWER_TTL, address: cache.snapshot.entries[name] },
    ]);
}

/// A name that the snapshot does not hold goes to the primary resolver
/// first, which is asked once; the failover resolver is asked after it,
/// and only where the primary resolver has replied without an answer. Each
/// is asked for the name of the query.
pub proof fn lemma_unknown_name_asks_primary_first(
    cache: CacheView,
    name: Seq<char>,
    replies: Seq<Result<Seq<IpAddress>, ResolveError>>,
)
    requires
        !cache.snapshot.entries.contains_key(name),
    ensures
        cache.spec_lookup(name) is None,
        spec_local_step(cache, name) == StepView::Resolve(Tier::Primary, name),
        ({
            let asked = spec_run(spec_local_step(cache, name), replies).0;
            &&& asked.len() >= 1
            &&& asked[0] == (Tier::Primary, name)
            &&& forall|i: int| 1 <= i < asked.len() ==> asked[i] == (Tier::Failover, name)
            &&& asked.len() <= 2
            &&& asked.len() == 2 <==> (replies.len() >= 1 && !spec_answered(replies[0]))
        }),
{
    lemma_primary_asked_once(name, replies);
}

/// A request that arrives before the threshold has passed causes no fetch
/// of the topology and leaves the cache as it is.
pub proof fn lemma_fresh_snapshot_fetches_nothing(cache: CacheView, request: Request, now: int)
    requires
        !cache.spec_is_stale(now),
    ensures
        spec_handle_request(cache, request, now).0 == cache,
        spec_handle_request(cache, request, now).1 != StepView::FetchTopology,
{
}

/// A request that the validator turns away ends at once: the cache stays as it
/// is, nothing is fetched, no resolver is asked, and the response is a
/// failure of the server with no answer.
pub proof fn lemma_rejected_touches_nothing(
    cache: CacheView,
    request: Request,
    now: int,
    replies: Seq<Result<Seq<IpAddress>, ResolveError>>,
)
    requires
        !(request.op_code == OpCode::Query && request.message_type == MessageType::Query),
    ensures
        request.spec_verdict() is Err,
        spec_handle_request(cache, request, now) == (
            cache,
            StepView::Finish(OutcomeView::Rejected(request.spec_verdict()->Err_0)),
        ),
        spec_run(spec_handle_request(cache, request, now).1, replies).0 == Seq::<
            (Tier, Seq<char>),
        >::empty(),
        spec_respond(request.name@, OutcomeView::Rejected(request.spec_verdict()->Err_0)) == (
            ResponseView {
                code: ResponseCode::ServFail,
                answers: Seq::<AnswerRecordView>::empty(),
                authoritative: false,
            }),
{
    assert(spec_respond(
        request.name@,
        OutcomeView::Rejected(request.spec_verdict()->Err_0),
    ).answers =~= Seq::<AnswerRecordView>::empty());
}

/// The first steps of the requests that arrive one after the other, each
/// at its own instant, while no refresh ends in between.
pub open spec fn spec_arrivals(cache: CacheView, arrivals: Seq<(Request, int)>) -> Seq<StepView>
    decreases arrivals.len(),
{
    if arrivals.len() == 0 {
        Seq::empty()
    } else {
        let (next, step) = spec_handle_request(cache, arrivals[0].0, arrivals[0].1);
        seq![step] + spec_arrivals(next, arrivals.drop_first())
    }
}

/// The cache after those arrivals.
pub open spec fn spec_after_arrivals(cache: CacheView, arrivals: Seq<(Request, int)>) -> CacheView
    decreases arrivals.len(),
{
    if arrivals.len() == 0 {
        cache
    } else {
        spec_after_arrivals(
            spec_handle_request(cache, arrivals[0].0, arrivals[0].1).0,
            arrivals.drop_first(),
        )
    }
}

/// While a refresh is running, every request that arrives goes on at once
/// with the snapshot as it is: none fetches, none changes the cache.
pub proof fn lemma_arrivals_while_refreshing(cache: CacheView, arrivals: Seq<(Request, int)>)
    requires
        cache.state == RefreshState::Refreshing,
    ensures
        spec_arrivals(cache, arrivals).len() == arrivals.len(),
        spec_after_arrivals(cache, arrivals) == cache,
        forall|i: int|
            0 <= i < arrivals.len() ==> #[trigger] spec_arrivals(cache, arrivals)[i] == (
            match arrivals[i].0.spec_verdict() {
                Err(reason) => StepView::Finish(OutcomeView::Rejected(reason)),
                Ok(_) => spec_local_step(cache, arrivals[i].0.name@),
            }),
    decreases arrivals.len(),
{
    if arrivals.len() > 0 {
        let rest = arrivals.drop_first();
        lemma_arrivals_while_refreshing(cache, rest);
        let steps = spec_arrivals(cache, arrivals);
        assert forall|i: int| 0 <= i < arrivals.len() implies #[trigger] steps[i] == (
        match arrivals[i].0.spec_verdict() {
            Err(reason) => StepView::Finish(OutcomeView::Rejected(reason)),
            Ok(_) => spec_local_step(cache, arrivals[i].0.name@),
        }) by {
            if i > 0 {
                assert(steps[i] == spec_arrivals(cache, rest)[i - 1]);
                assert(rest[i - 1] == arrivals[i]);
            }
        }
    }
}

/// Every request gets a first step, and at most one of the requests that
/// arrive before a refresh ends is told to fetch the topology.
pub proof fn lemma_at_most_one_fetch(cache: CacheView, arrivals: Seq<(Request, int)>)
    ensures
        spec_arrivals(cache, arrivals).len() == arrivals.len(),
        forall|i: int, j: int|
            0 <= i < arrivals.len() && 0 <= j < arrivals.len() && spec_arrivals(cache, arrivals)[i]
                == StepView::FetchTopology && spec_arrivals(cache, arrivals)[j]
                == StepView::FetchTopology ==> i == j,
    decreases arrivals.len(),
{
    if arrivals.len() > 0 {
        let rest = arrivals.drop_first();
        let (next, step) = spec_handle_request(cache, arrivals[0].0, arrivals[0].1);
        let steps = spec_arrivals(cache, arrivals);
        let later = spec_arrivals(next, rest);
        lemma_at_most_one_fetch(next, rest);
        assert(steps =~= seq![step] + later);
        if step == StepView::FetchTopology {
            lemma_arrivals_while_refreshing(next, rest);
            assert forall|j: int| 1 <= j < arrivals.len() implies steps[j]
                != StepView::FetchTopology by {
                assert(steps[j] == later[j - 1]);
            }
        }
        assert forall|i: int, j: int|
            0 <= i < arrivals.len() && 0 <= j < arrivals.len() && steps[i]
                == StepView::FetchTopology && steps[j] == StepView::FetchTopology implies i
            == j by {
            if i > 0 && j > 0 {
                assert(steps[i] == later[i - 1]);
                assert(steps[j] == later[j - 1]);
            }
        }
    }
}

/// Where accepted queries arrive at a cache with no refresh running and
/// every one of them finds the snapshot stale, the first is told to fetch
/// the topology and it alone; every other one goes on at once with the
/// snapshot that was current when the first arrived.
pub proof fn lemma_stale_queries_fetch_once(cache: CacheView, arrivals: Seq<(Request, int)>)
    requires
        cache.state == RefreshState::Fresh,
        arrivals.len() >= 1,
        forall|i: int|
            0 <= i < arrivals.len() ==> (#[trigger] arrivals[i]).0.spec_verdict() is Ok
                && cache.spec_is_stale(arrivals[i].1),
    ensures
        spec_arrivals(cache, arrivals).len() == arrivals.len(),
        spec_arrivals(cache, arrivals)[0] == StepView::FetchTopology,
        forall|i: int|
            1 <= i < arrivals.len() ==> #[trigger] spec_arrivals(cache, arrivals)[i]
                == spec_local_step(cache, arrivals[i].0.name@),
        spec_after_arrivals(cache, arrivals).snapshot == cache.snapshot,
        spec_after_arrivals(cache, arrivals).state == RefreshState::Refreshing,
{
    let rest = arrivals.drop_first();
    let (next, step) = spec_handle_request(cache, arrivals[0].0, arrivals[0].1);
    assert(arrivals[0].0.spec_verdict() is Ok && cache.spec_is_stale(arrivals[0].1));
    assert(step == StepView::FetchTopology);
    lemma_arrivals_while_refreshing(next, rest);
    let steps = spec_arrivals(cache, arrivals);
    let later = spec_arrivals(next, rest);
    assert(steps =~= seq![step] + later);
    assert forall|i: int| 1 <= i < arrivals.len() implies #[trigger] steps[i] == spec_local_step(
        cache,
        arrivals[i].0.name@,
    ) by {
        assert(steps[i] == later[i - 1]);
        assert(rest[i - 1] == arrivals[i]);
        assert(arrivals[i].0.spec_verdict() is Ok);
    }
}

/// The query that fetched the topology goes on with a snapshot that is at
/// least as new as the one it found, whether the fetch succeeded or not.
pub proof fn lemma_fetch_never_ages_snapshot(
    cache: CacheView,
    name: Seq<char>,
    fetched: Option<Seq<TopologyEntryView>>,
    now: int,
)
    ensures
        spec_topology_fetched(cache, name, fetched, now).0.snapshot.created_at
            >= cache.snapshot.created_at,
        spec_topology_fetched(cache, name, fetched, now).0.state == RefreshState::Fresh,
        fetched is None ==> spec_topology_fetched(cache, name, fetched, now).0.snapshot
            == cache.snapshot,
        spec_topology_fetched(cache, name, fetched, now).1 != StepView::FetchTopology,
{
}

} // verus!
