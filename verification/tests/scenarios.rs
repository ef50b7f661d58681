use dnsfun::address::{IpAddress, Ipv4Address, Ipv6Address};
use dnsfun::cache::{Cache, RefreshState};
use dnsfun::client::{resolved, ResolveError, Step, Tier};
use dnsfun::handler::Handler;
use dnsfun::request::{MessageType, OpCode, Request};
use dnsfun::response::{respond, AnswerRecord, ResolutionOutcome, Response, ResponseCode};
use dnsfun::topology::{SourceKind, TopologyEntry, TopologySnapshot};

type Reply = Result<Vec<IpAddress>, ResolveError>;

/// What one served query did besides answering.
#[derive(Debug, Default, PartialEq, Eq)]
struct Calls {
    fetches: usize,
    primary: usize,
    failover: usize,
}

/// Serves one request the way a server would: performs each step that the
/// handler asks for and hands the result back, until the query ends.
fn serve(
    handler: &mut Handler,
    request: &Request,
    now: i64,
    fetched: Option<Vec<TopologyEntry>>,
    primary: Reply,
    failover: Reply,
) -> (Response, Calls) {
    let mut calls = Calls::default();
    let mut step = handler.handle_request_at(request, now);
    loop {
        step = match step {
            Step::FetchTopology => {
                calls.fetches += 1;
                assert_eq!(calls.fetches, 1);
                handler.topology_fetched_at(&request.name, fetched.clone(), now)
            }
            Step::Resolve(Tier::Primary, name) => {
                calls.primary += 1;
                assert_eq!(calls.primary, 1);
                assert_eq!(name, request.name);
                resolved(Tier::Primary, &name, primary.clone())
            }
            Step::Resolve(Tier::Failover, name) => {
                calls.failover += 1;
                assert_eq!(calls.failover, 1);
                assert_eq!(name, request.name);
                resolved(Tier::Failover, &name, failover.clone())
            }
            Step::Finish(outcome) => return (respond(&request.name, &outcome), calls),
        };
    }
}

fn handler_with(entries: Vec<TopologyEntry>) -> Handler {
    Handler::new(Cache::new(TopologySnapshot::new(entries, 1_000), 5))
}

fn v4(a: u8, b: u8, c: u8, d: u8) -> IpAddress {
    IpAddress::V4(Ipv4Address::new(a, b, c, d))
}

fn record(name: &str, a: u8, b: u8, c: u8, d: u8) -> AnswerRecord {
    AnswerRecord { name: name.to_string(), ttl: 60, address: Ipv4Address::new(a, b, c, d) }
}

#[test]
fn known_name_is_answered_from_the_snapshot() {
    let mut handler = handler_with(vec![TopologyEntry::new(
        "app.example.com.",
        Ipv4Address::new(10, 0, 0, 5),
        SourceKind::Ingress,
    )]);
    let (response, calls) = serve(
        &mut handler,
        &Request::query("app.example.com."),
        2_000,
        None,
        Ok(vec![v4(9, 9, 9, 9)]),
        Ok(vec![v4(8, 8, 8, 8)]),
    );
    assert_eq!(response.code, ResponseCode::NoError);
    assert_eq!(response.answers, vec![record("app.example.com.", 10, 0, 0, 5)]);
    assert_eq!(response.answers[0].ttl, 60);
    assert!(!response.authoritative);
    assert_eq!(calls, Calls::default());
}

#[test]
fn unknown_name_is_answered_by_the_primary_resolver() {
    let mut handler = handler_with(vec![]);
    let (response, calls) = serve(
        &mut handler,
        &Request::query("ext.example.com."),
        2_000,
        None,
        Ok(vec![v4(93, 184, 216, 34)]),
        Ok(vec![v4(8, 8, 8, 8)]),
    );
    assert_eq!(response.code, ResponseCode::NoError);
    assert_eq!(response.answers, vec![record("ext.example.com.", 93, 184, 216, 34)]);
    assert!(!response.authoritative);
    assert_eq!(calls, Calls { fetches: 0, primary: 1, failover: 0 });
}

#[test]
fn failover_answers_when_the_primary_times_out() {
    let mut handler = handler_with(vec![]);
    let (response, calls) = serve(
        &mut handler,
        &Request::query("flaky.example.com."),
        2_000,
        None,
        Err(ResolveError::TimedOut),
        Ok(vec![v4(1, 2, 3, 4)]),
    );
    assert_eq!(response.code, ResponseCode::NoError);
    assert_eq!(response.answers, vec![record("flaky.example.com.", 1, 2, 3, 4)]);
    assert_eq!(calls, Calls { fetches: 0, primary: 1, failover: 1 });
}

#[test]
fn both_resolvers_failing_is_a_server_failure() {
    let mut handler = handler_with(vec![]);
    let (response, calls) = serve(
        &mut handler,
        &Request::query("gone.example.com."),
        2_000,
        None,
        Err(ResolveError::NotFound),
        Err(ResolveError::Other),
    );
    assert_eq!(response.code, ResponseCode::ServFail);
    assert!(response.answers.is_empty());
    assert!(!response.authoritative);
    assert_eq!(calls, Calls { fetches: 0, primary: 1, failover: 1 });
}

#[test]
fn handler_serves_on_after_a_failed_resolution() {
    let mut handler = handler_with(vec![TopologyEntry::new(
        "app.example.com.",
        Ipv4Address::new(10, 0, 0, 5),
        SourceKind::Service,
    )]);
    let (failed, _) = serve(
        &mut handler,
        &Request::query("gone.example.com."),
        2_000,
        None,
        Err(ResolveError::Other),
        Err(ResolveError::TimedOut),
    );
    assert_eq!(failed.code, ResponseCode::ServFail);
    let (next, calls) = serve(
        &mut handler,
        &Request::query("app.example.com."),
        2_001,
        None,
        Err(ResolveError::Other),
        Err(ResolveError::Other),
    );
    assert_eq!(next.code, ResponseCode::NoError);
    assert_eq!(next.answers, vec![record("app.example.com.", 10, 0, 0, 5)]);
    assert_eq!(calls, Calls::default());
}

#[test]
fn other_operation_is_turned_away_untouched() {
    // The snapshot is long stale, so an accepted query would fetch.
    let mut handler = handler_with(vec![]);
    let now = 1_000 + 6 * 60_000;
    for op_code in [OpCode::Status, OpCode::Notify, OpCode::Update] {
        let request = Request::new(op_code, MessageType::Query, "app.example.com.");
        let (response, calls) =
            serve(&mut handler, &request, now, None, Ok(vec![v4(1, 1, 1, 1)]), Ok(vec![]));
        assert_eq!(response.code, ResponseCode::ServFail);
        assert!(response.answers.is_empty());
        assert!(!response.authoritative);
        assert_eq!(calls, Calls::default());
        assert_eq!(handler.cache().state(), RefreshState::Fresh);
        assert_eq!(handler.cache().snapshot().created_at(), 1_000);
    }
}

#[test]
fn response_message_is_turned_away() {
    let mut handler = handler_with(vec![TopologyEntry::new(
        "app.example.com.",
        Ipv4Address::new(10, 0, 0, 5),
        SourceKind::Ingress,
    )]);
    let request = Request::new(OpCode::Query, MessageType::Response, "app.example.com.");
    let step = handler.handle_request_at(&request, 2_000);
    assert_eq!(
        step,
        Step::Finish(ResolutionOutcome::Rejected(dnsfun::error::Error::InvalidMessageType(
            MessageType::Response
        )))
    );
    let (response, calls) = serve(&mut handler, &request, 2_000, None, Ok(vec![]), Ok(vec![]));
    assert_eq!(response.code, ResponseCode::ServFail);
    assert!(response.answers.is_empty());
    assert_eq!(calls, Calls::default());
}

#[test]
fn stale_snapshot_is_refreshed_before_the_lookup() {
    let mut handler = handler_with(vec![]);
    let now = 1_000 + 5 * 60_000 + 1;
    let fetched = vec![TopologyEntry::new(
        "new.example.com.",
        Ipv4Address::new(10, 1, 1, 1),
        SourceKind::Ingress,
    )];
    let (response, calls) = serve(
        &mut handler,
        &Request::query("new.example.com."),
        now,
        Some(fetched),
        Err(ResolveError::Other),
        Err(ResolveError::Other),
    );
    assert_eq!(response.code, ResponseCode::NoError);
    assert_eq!(response.answers, vec![record("new.example.com.", 10, 1, 1, 1)]);
    assert_eq!(calls, Calls { fetches: 1, primary: 0, failover: 0 });
    assert_eq!(handler.cache().snapshot().created_at(), now);
    assert_eq!(handler.cache().state(), RefreshState::Fresh);
}

#[test]
fn failed_refresh_keeps_the_old_snapshot() {
    let mut handler = handler_with(vec![TopologyEntry::new(
        "app.example.com.",
        Ipv4Address::new(10, 0, 0, 5),
        SourceKind::Ingress,
    )]);
    let now = 1_000 + 5 * 60_000 + 1;
    let (response, calls) = serve(
        &mut handler,
        &Request::query("app.example.com."),
        now,
        None,
        Err(ResolveError::Other),
        Err(ResolveError::Other),
    );
    assert_eq!(response.code, ResponseCode::NoError);
    assert_eq!(response.answers, vec![record("app.example.com.", 10, 0, 0, 5)]);
    assert_eq!(calls, Calls { fetches: 1, primary: 0, failover: 0 });
    assert_eq!(handler.cache().snapshot().created_at(), 1_000);
    assert_eq!(handler.cache().state(), RefreshState::Fresh);
}

#[test]
fn concurrent_stale_queries_fetch_once() {
    let mut handler = handler_with(vec![TopologyEntry::new(
        "app.example.com.",
        Ipv4Address::new(10, 0, 0, 5),
        SourceKind::Ingress,
    )]);
    let now = 1_000 + 5 * 60_000 + 1;
    let mut fetches = 0;
    let mut steps = Vec::new();
    for i in 0..8 {
        let step = handler.handle_request_at(&Request::query("app.example.com."), now + i);
        if step == Step::FetchTopology {
            fetches += 1;
        }
        steps.push(step);
    }
    assert_eq!(fetches, 1);
    assert_eq!(steps[0], Step::FetchTopology);
    for step in &steps[1..] {
        assert_eq!(
            *step,
            Step::Finish(ResolutionOutcome::LocalHit(Ipv4Address::new(10, 0, 0, 5)))
        );
    }
    assert_eq!(handler.cache().state(), RefreshState::Refreshing);
    // The query that fetched goes on once the fetch has ended.
    let fetched = vec![TopologyEntry::new(
        "app.example.com.",
        Ipv4Address::new(10, 0, 0, 6),
        SourceKind::Ingress,
    )];
    let step = handler.topology_fetched_at("app.example.com.", Some(fetched), now + 100);
    assert_eq!(step, Step::Finish(ResolutionOutcome::LocalHit(Ipv4Address::new(10, 0, 0, 6))));
    assert!(handler.cache().snapshot().created_at() >= 1_000);
    assert_eq!(handler.cache().state(), RefreshState::Fresh);
}

#[test]
fn query_before_the_threshold_fetches_nothing() {
    let mut handler = handler_with(vec![]);
    for now in [i64::MIN, 0, 1_000, 1_001, 1_000 + 5 * 60_000] {
        let step = handler.handle_request_at(&Request::query("a.example.com."), now);
        assert_eq!(step, Step::Resolve(Tier::Primary, "a.example.com.".to_string()));
        assert_eq!(handler.cache().state(), RefreshState::Fresh);
    }
    let step = handler.handle_request_at(&Request::query("a.example.com."), 1_000 + 5 * 60_000 + 1);
    assert_eq!(step, Step::FetchTopology);
}

#[test]
fn stale_entry_is_still_answered_locally() {
    let mut handler = handler_with(vec![TopologyEntry::new(
        "app.example.com.",
        Ipv4Address::new(10, 0, 0, 5),
        SourceKind::Ingress,
    )]);
    // Another query holds the refresh: this one goes on with the stale snapshot.
    assert!(handler.refresh_state_at(i64::MAX));
    let (response, calls) = serve(
        &mut handler,
        &Request::query("app.example.com."),
        i64::MAX,
        None,
        Ok(vec![v4(9, 9, 9, 9)]),
        Ok(vec![v4(9, 9, 9, 9)]),
    );
    assert_eq!(response.answers, vec![record("app.example.com.", 10, 0, 0, 5)]);
    assert_eq!(calls, Calls::default());
}

#[test]
fn other_families_are_dropped_from_the_answer() {
    let mut handler = handler_with(vec![]);
    let (response, calls) = serve(
        &mut handler,
        &Request::query("dual.example.com."),
        2_000,
        None,
        Ok(vec![
            IpAddress::V6(Ipv6Address { bits: 1 }),
            v4(1, 2, 3, 4),
            IpAddress::V6(Ipv6Address { bits: 2 }),
            v4(5, 6, 7, 8),
        ]),
        Err(ResolveError::Other),
    );
    assert_eq!(response.code, ResponseCode::NoError);
    assert_eq!(
        response.answers,
        vec![record("dual.example.com.", 1, 2, 3, 4), record("dual.example.com.", 5, 6, 7, 8)]
    );
    assert_eq!(calls, Calls { fetches: 0, primary: 1, failover: 0 });
}

#[test]
fn answer_without_ipv4_is_not_found() {
    let reply: Reply = Ok(vec![IpAddress::V6(Ipv6Address { bits: 7 })]);
    assert_eq!(
        resolved(Tier::Primary, "v6.example.com.", reply.clone()),
        Step::Finish(ResolutionOutcome::NotFound)
    );
    assert_eq!(
        resolved(Tier::Failover, "v6.example.com.", reply),
        Step::Finish(ResolutionOutcome::NotFound)
    );
    let response = respond("v6.example.com.", &ResolutionOutcome::NotFound);
    assert_eq!(response.code, ResponseCode::NoError);
    assert!(response.answers.is_empty());
    assert!(!response.authoritative);
}

#[test]
fn empty_reply_counts_as_a_failure() {
    assert_eq!(
        resolved(Tier::Primary, "e.example.com.", Ok(vec![])),
        Step::Resolve(Tier::Failover, "e.example.com.".to_string())
    );
    assert_eq!(
        resolved(Tier::Failover, "e.example.com.", Ok(vec![])),
        Step::Finish(ResolutionOutcome::ResolutionFailed)
    );
}

#[test]
fn every_resolver_error_moves_the_query_on_alike() {
    for error in [ResolveError::NotFound, ResolveError::TimedOut, ResolveError::Other] {
        assert_eq!(
            resolved(Tier::Primary, "x.example.com.", Err(error)),
            Step::Resolve(Tier::Failover, "x.example.com.".to_string())
        );
        assert_eq!(
            resolved(Tier::Failover, "x.example.com.", Err(error)),
            Step::Finish(ResolutionOutcome::ResolutionFailed)
        );
    }
}

#[test]
fn handler_reads_the_clock() {
    // A snapshot from the epoch is stale by now; one from the far future is not.
    let mut old = Handler::new(Cache::new(TopologySnapshot::empty(0), 5));
    assert_eq!(old.handle_request(&Request::query("a.example.com.")), Step::FetchTopology);
    assert!(!old.refresh_state());
    assert_eq!(
        old.handle_query("a.example.com."),
        Step::Resolve(Tier::Primary, "a.example.com.".to_string())
    );
    let entries = vec![TopologyEntry::new(
        "a.example.com.",
        Ipv4Address::new(10, 0, 0, 1),
        SourceKind::Ingress,
    )];
    let step = old.topology_fetched("a.example.com.", Some(entries));
    assert_eq!(step, Step::Finish(ResolutionOutcome::LocalHit(Ipv4Address::new(10, 0, 0, 1))));
    // 2020-01-01 in milliseconds: the new stamp comes from the clock.
    assert!(old.cache().snapshot().created_at() > 1_577_836_800_000);

    let mut young = Handler::new(Cache::new(TopologySnapshot::empty(i64::MAX), 5));
    assert_eq!(
        young.handle_request(&Request::query("a.example.com.")),
        Step::Resolve(Tier::Primary, "a.example.com.".to_string())
    );
    assert!(!young.refresh_state());
    young.refresh(None);
    assert_eq!(young.cache().snapshot().created_at(), i64::MAX);
}

#[test]
fn handler_from_options_starts_fresh() {
    let options = dnsfun::options::Options::defaults(false);
    let entries = vec![TopologyEntry::new(
        "a.example.com.",
        Ipv4Address::new(10, 0, 0, 1),
        SourceKind::Service,
    )];
    let handler = Handler::from_options(&options, entries.clone());
    assert!(handler.cache().snapshot().created_at() > 1_577_836_800_000);
    assert_eq!(handler.cache().threshold_minutes(), 5);
    assert_eq!(handler.cache().state(), RefreshState::Fresh);
    assert_eq!(handler.cache().lookup("a.example.com."), Some(Ipv4Address::new(10, 0, 0, 1)));

    let handler = Handler::from_options_at(&dnsfun::options::Options::defaults(true), entries, 42);
    assert_eq!(handler.cache().snapshot().created_at(), 42);
    assert_eq!(handler.cache().threshold_minutes(), 1);
}

#[test]
fn send_error_is_a_server_failure_without_answers() {
    let response = Handler::send_error(dnsfun::error::Error::InvalidOpCode(OpCode::Update));
    assert_eq!(response.code, ResponseCode::ServFail);
    assert!(response.answers.is_empty());
    assert!(!response.authoritative);
}

#[test]
fn resolvers_are_asked_for_the_name_of_the_query() {
    let mut handler = handler_with(vec![]);
    let step = handler.handle_request_at(&Request::query("name.example.com."), 2_000);
    assert_eq!(step, Step::Resolve(Tier::Primary, "name.example.com.".to_string()));
    let step = handler.local_step("other.example.com.");
    assert_eq!(step, Step::Resolve(Tier::Primary, "other.example.com.".to_string()));
    let next = resolved(Tier::Primary, "other.example.com.", Err(ResolveError::TimedOut));
    assert_eq!(next, Step::Resolve(Tier::Failover, "other.example.com.".to_string()));
}

#[test]
fn unreadable_clock_stands_still() {
    let cache = Cache::new(TopologySnapshot::empty(1_000), 5);
    assert_eq!(cache.instant(Some(7)), 7);
    assert_eq!(cache.instant(Some(i64::MIN)), i64::MIN);
    assert_eq!(cache.instant(None), 1_000);
    // With the stamp for the instant the snapshot is not stale, and a
    // refresh that ends keeps the stamp.
    let mut handler = Handler::new(cache);
    let now = handler.cache().instant(None);
    assert!(!handler.refresh_state_at(now));
    assert!(handler.refresh_state_at(1_000 + 300_001));
    let now = handler.cache().instant(None);
    handler.refresh_at(Some(vec![]), now);
    assert_eq!(handler.cache().state(), RefreshState::Fresh);
    assert_eq!(handler.cache().snapshot().created_at(), 1_000);
    assert_eq!(Handler::first_instant(Some(5)), 5);
    assert_eq!(Handler::first_instant(None), i64::MIN);
}
