//! The prober's decisions: whether a response's body is wanted, and what
//! outcome a reply amounts to. The caller sends the one GET and reports back.

use vstd::prelude::*;
use crate::outcome::{class_of, classify, is_server_error, OutcomeView, ProbeOutcome, StatusClass};
use crate::reply::{Reply, ReplyView};

verus! {

/// The body text an outcome captures: the text that was read, and the empty
/// text where none was.
pub open spec fn captured(body: Option<Seq<char>>) -> Seq<char> {
    match body {
        Some(text) => text,
        None => Seq::empty(),
    }
}

/// The outcome of a probe that ended in `reply`. A missing response is a
/// transport failure whatever else holds; a response is judged by its status
/// alone, and its body is kept only for a server failure.
pub open spec fn outcome_of(reply: ReplyView) -> OutcomeView {
    match reply {
        ReplyView::NoResponse { cause } => OutcomeView::TransportFailure { cause },
        ReplyView::Response { status, body } => match class_of(status) {
            StatusClass::Healthy => OutcomeView::Healthy,
            StatusClass::ServerFailure => OutcomeView::ServerFailure {
                status,
                body: captured(body),
            },
            StatusClass::Unclassified => OutcomeView::Unclassified { status },
        },
    }
}

/// Tells whether the body of a response with this status is to be read: only
/// a server failure carries its body into the outcome.
pub fn wants_body(status: u16) -> (wanted: bool)
    ensures
        wanted == is_server_error(status),
{
    match classify(status) {
        StatusClass::ServerFailure => true,
        _ => false,
    }
}

/// Turns the end of the probe request into the probe's outcome. Every reply
/// has an outcome: an unreachable target is a result, not an error.
pub fn conclude(reply: Reply) -> (outcome: ProbeOutcome)
    ensures
        outcome@ == outcome_of(reply@),
        outcome@.wf(),
{
    match reply {
        Reply::NoResponse { cause } => ProbeOutcome::TransportFailure { cause },
        Reply::Response { status, body } => match classify(status) {
            StatusClass::Healthy => ProbeOutcome::Healthy,
            StatusClass::ServerFailure => {
                let text = match body {
                    Some(text) => text,
                    None => String::new(),
                };
                ProbeOutcome::ServerFailure { status, body: text }
            },
            StatusClass::Unclassified => ProbeOutcome::Unclassified { status },
        },
    }
}

} // verus!
