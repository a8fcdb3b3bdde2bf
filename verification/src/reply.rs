//! How an outbound HTTP request ended, as the caller reports it.

use vstd::prelude::*;

verus! {

/// The end of one outbound request.
#[derive(Clone, Debug, PartialEq, Eq)]
pub enum Reply {
    /// No HTTP response was obtained (name lookup, connect, TLS, timeout);
    /// `cause` says why.
    NoResponse { cause: String },
    /// A response arrived. `body` is its body as text where the caller read
    /// it and the read succeeded, and `None` otherwise.
    Response { status: u16, body: Option<String> },
}

/// The mathematical value of a [`Reply`].
pub ghost enum ReplyView {
    NoResponse { cause: Seq<char> },
    Response { status: u16, body: Option<Seq<char>> },
}

impl View for Reply {
    type V = ReplyView;

    open spec fn view(&self) -> ReplyView {
        match self {
            Reply::NoResponse { cause } => ReplyView::NoResponse { cause: cause@ },
            Reply::Response { status, body } => ReplyView::Response {
                status: *status,
                body: body.deep_view(),
            },
        }
    }
}

} // verus!
