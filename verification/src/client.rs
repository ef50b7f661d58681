//! The chain of upstream resolvers: what they hand back and how an answer
//! moves a query on.

use crate::address::{ipv4_only, spec_ipv4_only, IpAddress, Ipv4Address};
use crate::response::{
    spec_records, spec_respond, AnswerRecordView, OutcomeView, ResolutionOutcome, ResponseCode, ResponseView,
};
use vstd::prelude::*;

verus! {

/// One of the two upstream resolvers. The failover resolver is asked only
/// after the primary one has failed.
#[derive(Clone, Copy, Debug, PartialEq, Eq, Structural)]
pub enum Tier {
    Primary,
    Failover,
}

/// Why an upstream resolver gave no answer. The classes differ in the log
/// only: each of them moves the query on in the same way.
#[derive(Clone, Copy, Debug, PartialEq, Eq, Structural)]
pub enum ResolveError {
    /// The resolver knows no record for the name.
    NotFound,
    /// The call did not end within its time limit.
    TimedOut,
    /// Any other failure.
    Other,
}

/// What a query does next.
#[derive(Clone, Debug, PartialEq, Eq)]
pub enum Step {
    /// Fetch the topology and hand the result back.
    FetchTopology,
    /// Ask this resolver for this name and hand its answer back.
    Resolve(Tier, String),
    /// The query has ended.
    Finish(ResolutionOutcome),
}

/// What a step stands for.
pub ghost enum StepView {
    FetchTopology,
    Resolve(Tier, Seq<char>),
    Finish(OutcomeView),
}

impl View for Step {
    type V = StepView;

    open spec fn view(&self) -> StepView {
        match *self {
            Step::FetchTopology => StepView::FetchTopology,
            Step::Resolve(tier, name) => StepView::Resolve(tier, name@),
            Step::Finish(outcome) => StepView::Finish(outcome@),
        }
    }
}

/// What a resolver handed back, with the addresses as a sequence.
pub open spec fn spec_reply(reply: Result<Vec<IpAddress>, ResolveError>) -> Result<
    Seq<IpAddress>,
    ResolveError,
> {
    match reply {
        Ok(addresses) => Ok(addresses@),
        Err(error) => Err(error),
    }
}

/// Whether a reply counts as an answer: the resolver succeeded and gave at
/// least one address, of whatever family.
pub open spec fn spec_answered(reply: Result<Seq<IpAddress>, ResolveError>) -> bool {
    reply is Ok && reply->Ok_0.len() >= 1
}

/// How an answer ends a query: with its IPv4 addresses, or as not found
/// where it holds none.
pub open spec fn spec_outcome_of(addresses: Seq<IpAddress>) -> OutcomeView {
    let kept = spec_ipv4_only(addresses);
    if kept.len() >= 1 {
        OutcomeView::ExternalHit(kept)
    } else {
        OutcomeView::NotFound
    }
}

/// The step after resolver `tier`, asked for `name`, handed back `reply`.
/// An answer ends the query. Anything else sends the query from the primary
/// resolver to the failover resolver, which is asked for the same name, and
/// after the failover resolver ends it as failed.
pub open spec fn spec_resolved(
    tier: Tier,
    name: Seq<char>,
    reply: Result<Seq<IpAddress>, ResolveError>,
) -> StepView {
    if spec_answered(reply) {
        StepView::Finish(spec_outcome_of(reply->Ok_0))
    } else {
        match tier {
            Tier::Primary => StepView::Resolve(Tier::Failover, name),
            Tier::Failover => StepView::Finish(OutcomeView::ResolutionFailed),
        }
    }
}

/// Moves a query on after resolver `tier`, asked for `name`, handed back
/// `reply`.
///
/// A failure ends at most this one query: nothing here can stop the process.
pub fn resolved(tier: Tier, name: &str, reply: Result<Vec<IpAddress>, ResolveError>) -> (step:
    Step)
    ensures
        step@ == spec_resolved(tier, name@, spec_reply(reply)),
{
    match reply {
        Ok(addresses) => {
            if addresses.len() >= 1 {
                let kept: Vec<Ipv4Address> = ipv4_only(&addresses);
                if kept.len() >= 1 {
                    return Step::Finish(ResolutionOutcome::ExternalHit(kept));
                } else {
                    return Step::Finish(ResolutionOutcome::NotFound);
                }
            }
        },
        Err(_) => {},
    }
    match tier {
        Tier::Primary => Step::Resolve(Tier::Failover, name.to_owned()),
        Tier::Failover => Step::Finish(ResolutionOutcome::ResolutionFailed),
    }
}

/// The resolvers that a query asks and the name that it asks each for, in
/// order, and the step at which it stands in the end, where it stands at
/// `step` and the resolvers that it asks hand back `replies`, one after the
/// other.
pub open spec fn spec_run(step: StepView, replies: Seq<Result<Seq<IpAddress>, ResolveError>>) -> (
    Seq<(Tier, Seq<char>)>,
    StepView,
)
    decreases replies.len(),
{
    match step {
        StepView::Resolve(tier, name) => if replies.len() == 0 {
            (seq![(tier, name)], step)
        } else {
            let (asked, end) = spec_run(
                spec_resolved(tier, name, replies[0]),
                replies.drop_first(),
            );
            (seq![(tier, name)] + asked, end)
        },
        _ => (Seq::empty(), step),
    }
}

/// A query that has ended asks no resolver, whatever the resolvers would
/// have said.
pub proof fn lemma_finished_asks_nobody(
    outcome: OutcomeView,
    replies: Seq<Result<Seq<IpAddress>, ResolveError>>,
)
    ensures
        spec_run(StepView::Finish(outcome), replies) == (
            Seq::<(Tier, Seq<char>)>::empty(),
            StepView::Finish(outcome),
        ),
{
}

/// A query that is sent to the resolvers asks the primary resolver first
/// and once only, for the name of the query. It asks the failover resolver
/// next, for the same name, and then nobody else, exactly where the primary
/// resolver has replied without an answer.
pub proof fn lemma_primary_asked_once(
    name: Seq<char>,
    replies: Seq<Result<Seq<IpAddress>, ResolveError>>,
)
    ensures
        ({
            let asked = spec_run(StepView::Resolve(Tier::Primary, name), replies).0;
            &&& asked.len() >= 1
            &&& asked[0] == (Tier::Primary, name)
            &&& forall|i: int| 1 <= i < asked.len() ==> asked[i] == (Tier::Failover, name)
            &&& asked.len() <= 2
            &&& asked.len() == 2 <==> (replies.len() >= 1 && !spec_answered(replies[0]))
        }),
{
    reveal_with_fuel(spec_run, 3);
    if replies.len() >= 1 {
        let rest = replies.drop_first();
        if !spec_answered(replies[0]) {
            if rest.len() >= 1 {
                let after = spec_resolved(Tier::Failover, name, rest[0]);
                assert(spec_run(after, rest.drop_first()).0 =~= Seq::<(Tier, Seq<char>)>::empty());
            }
            let asked = spec_run(StepView::Resolve(Tier::Primary, name), replies).0;
            assert(asked =~= seq![(Tier::Primary, name), (Tier::Failover, name)]);
        } else {
            let asked = spec_run(StepView::Resolve(Tier::Primary, name), replies).0;
            assert(asked =~= seq![(Tier::Primary, name)]);
        }
    }
}

/// Where the primary resolver answers, its IPv4 addresses are the outcome
/// and the failover resolver is not asked; the response carries one record
/// for each of them and reports success.
pub proof fn lemma_primary_answer_stands(
    primary: Result<Seq<IpAddress>, ResolveError>,
    later: Seq<Result<Seq<IpAddress>, ResolveError>>,
    name: Seq<char>,
)
    requires
        spec_answered(primary),
    ensures
        spec_run(StepView::Resolve(Tier::Primary, name), seq![primary] + later) == (
            seq![(Tier::Primary, name)],
            StepView::Finish(spec_outcome_of(primary->Ok_0)),
        ),
        spec_outcome_of(primary->Ok_0).spec_addresses() == spec_ipv4_only(primary->Ok_0),
        spec_respond(name, spec_outcome_of(primary->Ok_0)) == (ResponseView {
            code: ResponseCode::NoError,
            answers: spec_records(name, spec_ipv4_only(primary->Ok_0)),
            authoritative: false,
        }),
{
    reveal_with_fuel(spec_run, 3);
    let replies = seq![primary] + later;
    assert(replies[0] == primary);
    let run = spec_run(StepView::Resolve(Tier::Primary, name), replies);
    assert(run.0 =~= seq![(Tier::Primary, name)]);
    assert(spec_outcome_of(primary->Ok_0).spec_addresses() =~= spec_ipv4_only(primary->Ok_0));
}

/// Where the primary resolver fails or times out and the failover resolver
/// answers, the outcome holds the IPv4 addresses of the failover resolver's
/// answer, in their order, and nothing else; the response carries one
/// record for each of them and reports success.
pub proof fn lemma_failover_answer_stands(
    primary: Result<Seq<IpAddress>, ResolveError>,
    failover: Result<Seq<IpAddress>, ResolveError>,
    name: Seq<char>,
)
    requires
        !spec_answered(primary),
        spec_answered(failover),
    ensures
        spec_run(StepView::Resolve(Tier::Primary, name), seq![primary, failover]) == (
            seq![(Tier::Primary, name), (Tier::Failover, name)],
            StepView::Finish(spec_outcome_of(failover->Ok_0)),
        ),
        spec_outcome_of(failover->Ok_0).spec_addresses() == spec_ipv4_only(failover->Ok_0),
        spec_respond(name, spec_outcome_of(failover->Ok_0)) == (ResponseView {
            code: ResponseCode::NoError,
            answers: spec_records(name, spec_ipv4_only(failover->Ok_0)),
            authoritative: false,
        }),
{
    reveal_with_fuel(spec_run, 3);
    let replies = seq![primary, failover];
    let rest = replies.drop_first();
    assert(rest[0] == failover);
    assert(rest.drop_first() =~= Seq::empty());
    let run = spec_run(StepView::Resolve(Tier::Primary, name), replies);
    assert(run.0 =~= seq![(Tier::Primary, name), (Tier::Failover, name)]);
    assert(spec_outcome_of(failover->Ok_0).spec_addresses() =~= spec_ipv4_only(failover->Ok_0));
}

/// Where both resolvers fail or time out, the query ends as failed, and
/// its response is a failure of the server with no answer.
pub proof fn lemma_both_fail(
    primary: Result<Seq<IpAddress>, ResolveError>,
    failover: Result<Seq<IpAddress>, ResolveError>,
    name: Seq<char>,
)
    requires
        !spec_answered(primary),
        !spec_answered(failover),
    ensures
        spec_run(StepView::Resolve(Tier::Primary, name), seq![primary, failover]) == (
            seq![(Tier::Primary, name), (Tier::Failover, name)],
            StepView::Finish(OutcomeView::ResolutionFailed),
        ),
        spec_respond(name, OutcomeView::ResolutionFailed) == (ResponseView {
            code: ResponseCode::ServFail,
            answers: Seq::<AnswerRecordView>::empty(),
            authoritative: false,
        }),
{
    reveal_with_fuel(spec_run, 3);
    let replies = seq![primary, failover];
    let rest = replies.drop_first();
    assert(rest[0] == failover);
    assert(rest.drop_first() =~= Seq::empty());
    let run = spec_run(StepView::Resolve(Tier::Primary, name), replies);
    assert(run.0 =~= seq![(Tier::Primary, name), (Tier::Failover, name)]);
    assert(spec_respond(name, OutcomeView::ResolutionFailed).answers =~= Seq::<
        AnswerRecordView,
    >::empty());
}

} // verus!
