//! What a probe can find, and the rule that sorts HTTP status codes.

use vstd::prelude::*;

verus! {

/// The three classes a received status code falls into.
#[derive(Clone, Copy, Debug, PartialEq, Eq)]
pub enum StatusClass {
    /// The status lies in the success range.
    Healthy,
    /// The status lies in the server-error range.
    ServerFailure,
    /// The status lies in neither range (redirects, client errors, anything else).
    Unclassified,
}

/// The success range of HTTP status codes.
pub open spec fn is_success(status: u16) -> bool {
    200 <= status <= 299
}

/// The server-error range of HTTP status codes.
pub open spec fn is_server_error(status: u16) -> bool {
    500 <= status <= 599
}

/// The class of a status code: the two ranges are tried in this order, and
/// whatever is in neither is unclassified.
pub open spec fn class_of(status: u16) -> StatusClass {
    if is_success(status) {
        StatusClass::Healthy
    } else if is_server_error(status) {
        StatusClass::ServerFailure
    } else {
        StatusClass::Unclassified
    }
}

/// Sorts a status code into its class.
pub fn classify(status: u16) -> (class: StatusClass)
    ensures
        class == class_of(status),
        class is Healthy <==> 200 <= status <= 299,
        class is ServerFailure <==> 500 <= status <= 599,
        class is Unclassified <==> !(200 <= status <= 299) && !(500 <= status <= 599),
{
    if 200 <= status && status <= 299 {
        StatusClass::Healthy
    } else if 500 <= status && status <= 599 {
        StatusClass::ServerFailure
    } else {
        StatusClass::Unclassified
    }
}

/// The result of one probe.
#[derive(Clone, Debug, PartialEq, Eq)]
pub enum ProbeOutcome {
    /// A response came and its status is in the success range.
    Healthy,
    /// A response came and its status is in the server-error range; `body`
    /// is the response body as text, empty where it could not be read.
    ServerFailure { status: u16, body: String },
    /// A response came and its status is in neither range.
    Unclassified { status: u16 },
    /// No response came: the request could not complete.
    TransportFailure { cause: String },
}

/// The mathematical value of a [`ProbeOutcome`]: texts are character sequences.
pub ghost enum OutcomeView {
    Healthy,
    ServerFailure { status: u16, body: Seq<char> },
    Unclassified { status: u16 },
    TransportFailure { cause: Seq<char> },
}

impl View for ProbeOutcome {
    type V = OutcomeView;

    open spec fn view(&self) -> OutcomeView {
        match self {
            ProbeOutcome::Healthy => OutcomeView::Healthy,
            ProbeOutcome::ServerFailure { status, body } => OutcomeView::ServerFailure {
                status: *status,
                body: body@,
            },
            ProbeOutcome::Unclassified { status } => OutcomeView::Unclassified { status: *status },
            ProbeOutcome::TransportFailure { cause } => OutcomeView::TransportFailure {
                cause: cause@,
            },
        }
    }
}

impl OutcomeView {
    /// The statuses an outcome carries agree with its variant.
    pub open spec fn wf(self) -> bool {
        match self {
            OutcomeView::ServerFailure { status, .. } => is_server_error(status),
            OutcomeView::Unclassified { status } => class_of(status) is Unclassified,
            _ => true,
        }
    }

    /// The outcomes that call for an alert: server failures, and nothing else.
    /// An unreachable target is recorded but not alerted on.
    pub open spec fn alertable(self) -> bool {
        self is ServerFailure
    }
}

impl ProbeOutcome {
    /// Tells whether this outcome calls for an alert.
    pub fn is_alertable(&self) -> (alert: bool)
        ensures
            alert == self@.alertable(),
    {
        match self {
            ProbeOutcome::ServerFailure { .. } => true,
            _ => false,
        }
    }
}

} // verus!
