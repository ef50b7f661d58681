//! Outcomes of a resolution and the answers that are assembled from them.

use crate::address::Ipv4Address;
use crate::config::ANSWER_TTL;
use crate::error::Error;
use vstd::prelude::*;

verus! {

/// How the resolution of one query ended.
#[derive(Clone, Debug, PartialEq, Eq)]
pub enum ResolutionOutcome {
    /// The snapshot holds the name.
    LocalHit(Ipv4Address),
    /// An upstream resolver answered with at least one IPv4 address.
    ExternalHit(Vec<Ipv4Address>),
    /// An upstream resolver answered, with no IPv4 address.
    NotFound,
    /// Both upstream resolvers failed or timed out.
    ResolutionFailed,
    /// The request was turned away before any lookup.
    Rejected(Error),
}

/// What an outcome stands for.
pub ghost enum OutcomeView {
    LocalHit(Ipv4Address),
    ExternalHit(Seq<Ipv4Address>),
    NotFound,
    ResolutionFailed,
    Rejected(Error),
}

impl View for ResolutionOutcome {
    type V = OutcomeView;

    open spec fn view(&self) -> OutcomeView {
        match *self {
            ResolutionOutcome::LocalHit(address) => OutcomeView::LocalHit(address),
            ResolutionOutcome::ExternalHit(addresses) => OutcomeView::ExternalHit(addresses@),
            ResolutionOutcome::NotFound => OutcomeView::NotFound,
            ResolutionOutcome::ResolutionFailed => OutcomeView::ResolutionFailed,
            ResolutionOutcome::Rejected(reason) => OutcomeView::Rejected(reason),
        }
    }
}

/// The code that a response carries.
#[derive(Clone, Copy, Debug, PartialEq, Eq, Structural)]
pub enum ResponseCode {
    NoError,
    ServFail,
}

/// One address record of an answer.
#[derive(Clone, Debug, PartialEq, Eq)]
pub struct AnswerRecord {
    pub name: String,
    pub ttl: u32,
    pub address: Ipv4Address,
}

/// What an address record stands for.
pub ghost struct AnswerRecordView {
    pub name: Seq<char>,
    pub ttl: u32,
    pub address: Ipv4Address,
}

impl View for AnswerRecord {
    type V = AnswerRecordView;

    open spec fn view(&self) -> AnswerRecordView {
        AnswerRecordView { name: self.name@, ttl: self.ttl, address: self.address }
    }
}

/// What is handed to the outbound protocol layer for one request.
#[derive(Clone, Debug, PartialEq, Eq)]
pub struct Response {
    pub code: ResponseCode,
    pub answers: Vec<AnswerRecord>,
    pub authoritative: bool,
}

/// What a response stands for.
pub ghost struct ResponseView {
    pub code: ResponseCode,
    pub answers: Seq<AnswerRecordView>,
    pub authoritative: bool,
}

impl View for Response {
    type V = ResponseView;

    open spec fn view(&self) -> ResponseView {
        ResponseView {
            code: self.code,
            answers: self.answers@.map_values(|record: AnswerRecord| record@),
            authoritative: self.authoritative,
        }
    }
}

impl OutcomeView {
    /// The addresses that an outcome answers with, in order.
    pub open spec fn spec_addresses(self) -> Seq<Ipv4Address> {
        match self {
            OutcomeView::LocalHit(address) => seq![address],
            OutcomeView::ExternalHit(addresses) => addresses,
            _ => Seq::empty(),
        }
    }

    /// The code that an outcome is answered with: a failure of the server
    /// where resolution failed or the request was turned away, success
    /// otherwise, also where there is no address to give.
    pub open spec fn spec_code(self) -> ResponseCode {
        match self {
            OutcomeView::ResolutionFailed => ResponseCode::ServFail,
            OutcomeView::Rejected(_) => ResponseCode::ServFail,
            _ => ResponseCode::NoError,
        }
    }
}

impl OutcomeView {
    /// The failure that an outcome is logged as, if it is one.
    pub open spec fn spec_failure(self) -> Option<Error> {
        match self {
            OutcomeView::ResolutionFailed => Some(Error::ExternalResolutionFailed),
            OutcomeView::Rejected(reason) => Some(reason),
            _ => None,
        }
    }
}

impl ResolutionOutcome {
    /// The failure that this outcome is logged as: the reason of a request
    /// that was turned away, or that both resolvers failed. Neither reaches
    /// the client as more than the response code.
    pub fn failure(&self) -> (failure: Option<Error>)
        ensures
            failure == self@.spec_failure(),
            failure is Some <==> self@.spec_code() == ResponseCode::ServFail,
    {
        match self {
            ResolutionOutcome::ResolutionFailed => Some(Error::ExternalResolutionFailed),
            ResolutionOutcome::Rejected(reason) => Some(*reason),
            _ => None,
        }
    }
}

/// One record per address, each for `name` and with the fixed lifetime.
pub open spec fn spec_records(name: Seq<char>, addresses: Seq<Ipv4Address>) -> Seq<
    AnswerRecordView,
> {
    Seq::new(
        addresses.len(),
        |i: int| AnswerRecordView { name, ttl: ANSWER_TTL, address: addresses[i] },
    )
}

/// The response to a query for `name` that ended in `outcome`. It never
/// claims authority.
pub open spec fn spec_respond(name: Seq<char>, outcome: OutcomeView) -> ResponseView {
    ResponseView {
        code: outcome.spec_code(),
        answers: spec_records(name, outcome.spec_addresses()),
        authoritative: false,
    }
}

/// The record that answers a query for `name` with `address`.
pub fn record_from_ip(name: &str, address: Ipv4Address) -> (record: AnswerRecord)
    ensures
        record@ == (AnswerRecordView { name: name@, ttl: ANSWER_TTL, address }),
{
    AnswerRecord { name: name.to_owned(), ttl: ANSWER_TTL, address }
}

/// One record per address, in the order of the addresses.
fn records_for(name: &str, addresses: &Vec<Ipv4Address>) -> (records: Vec<AnswerRecord>)
    ensures
        records@.map_values(|record: AnswerRecord| record@) == spec_records(name@, addresses@),
{
    let mut records: Vec<AnswerRecord> = Vec::new();
    let mut i: usize = 0;
    while i < addresses.len()
        invariant
            i <= addresses.len(),
            records.len() == i,
            forall|j: int|
                0 <= j < i ==> (#[trigger] records[j])@ == (AnswerRecordView {
                    name: name@,
                    ttl: ANSWER_TTL,
                    address: addresses[j],
                }),
        decreases addresses.len() - i,
    {
        records.push(record_from_ip(name, addresses[i]));
        i += 1;
    }
    assert(records@.map_values(|record: AnswerRecord| record@) =~= spec_records(
        name@,
        addresses@,
    ));
    records
}

/// Assembles the response to a query for `name` that ended in `outcome`.
pub fn respond(name: &str, outcome: &ResolutionOutcome) -> (response: Response)
    ensures
        response@ == spec_respond(name@, outcome@),
{
    let answers: Vec<AnswerRecord> = match outcome {
        ResolutionOutcome::LocalHit(address) => {
            let mut single: Vec<Ipv4Address> = Vec::new();
            single.push(*address);
            assert(single@ =~= seq![*address]);
            records_for(name, &single)
        },
        ResolutionOutcome::ExternalHit(addresses) => records_for(name, addresses),
        _ => {
            let none: Vec<Ipv4Address> = Vec::new();
            records_for(name, &none)
        },
    };
    let code: ResponseCode = match outcome {
        ResolutionOutcome::ResolutionFailed => ResponseCode::ServFail,
        ResolutionOutcome::Rejected(_) => ResponseCode::ServFail,
        _ => ResponseCode::NoError,
    };
    Response { code, answers, authoritative: false }
}

} // verus!
