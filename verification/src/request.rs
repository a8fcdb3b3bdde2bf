//! The trigger of an invocation, and the request that is read from it.

use vstd::prelude::*;

verus! {

/// The `detail` mapping of a trigger, reduced to the one entry that is read.
#[derive(Clone, Debug, PartialEq, Eq)]
pub struct TriggerDetail {
    /// The text under the key `url`; `None` where the key is absent or holds
    /// no text.
    pub url: Option<String>,
}

/// The event that starts an invocation, reduced to what is read of it.
#[derive(Clone, Debug, PartialEq, Eq)]
pub struct TriggerEvent {
    /// The `detail` mapping; `None` where the event has none.
    pub detail: Option<TriggerDetail>,
}

/// The mathematical value of a [`TriggerDetail`].
pub ghost struct TriggerDetailView {
    pub url: Option<Seq<char>>,
}

/// The mathematical value of a [`TriggerEvent`].
pub ghost struct TriggerEventView {
    pub detail: Option<TriggerDetailView>,
}

impl View for TriggerDetail {
    type V = TriggerDetailView;

    open spec fn view(&self) -> TriggerDetailView {
        TriggerDetailView { url: self.url.deep_view() }
    }
}

impl View for TriggerEvent {
    type V = TriggerEventView;

    open spec fn view(&self) -> TriggerEventView {
        TriggerEventView {
            detail: match self.detail {
                Some(detail) => Some(detail@),
                None => None,
            },
        }
    }
}

/// Why a trigger gives no request. Each of these is fatal to the invocation.
#[derive(Clone, Copy, Debug, PartialEq, Eq)]
pub enum MalformedRequest {
    /// The event has no `detail` mapping.
    MissingDetail,
    /// The `detail` mapping has no `url` text.
    MissingUrl,
    /// The `url` text is empty or is no absolute URL.
    InvalidUrl,
}

/// Whether `reqwest::Url::parse` makes a URL of `text`. The parser takes no
/// base, so it accepts absolute URLs only.
pub uninterp spec fn parses_as_url(text: Seq<char>) -> bool;

/// The texts a request may carry: non-empty, and an absolute URL.
pub open spec fn usable_url(text: Seq<char>) -> bool {
    text.len() > 0 && parses_as_url(text)
}

/// What a trigger yields: its URL text where it has a usable one, and else the
/// first thing that is wrong with it.
pub open spec fn read_trigger(trigger: TriggerEventView) -> Result<Seq<char>, MalformedRequest> {
    match trigger.detail {
        None => Err(MalformedRequest::MissingDetail),
        Some(detail) => match detail.url {
            None => Err(MalformedRequest::MissingUrl),
            Some(url) => if usable_url(url) {
                Ok(url)
            } else {
                Err(MalformedRequest::InvalidUrl)
            },
        },
    }
}

/// Runs `reqwest::Url::parse` on `text` and reports whether it returned a URL.
/// Nothing is proved of the parser: the contract only names its verdict, which
/// depends on the text alone.
#[verifier::external_body]
fn url_parses(text: &str) -> (ok: bool)
    ensures
        ok == parses_as_url(text@),
{
    reqwest::Url::parse(text).is_ok()
}

/// A request to check one target. Its URL is usable: non-empty and absolute.
/// A request cannot be made otherwise, and it does not change once made.
#[derive(Debug, PartialEq, Eq)]
pub struct HealthCheckRequest {
    url: String,
}

impl View for HealthCheckRequest {
    type V = Seq<char>;

    closed spec fn view(&self) -> Seq<char> {
        self.url@
    }
}

impl Clone for HealthCheckRequest {
    fn clone(&self) -> (copy: Self)
        ensures
            copy@ == self@,
    {
        proof {
            use_type_invariant(self);
        }
        HealthCheckRequest { url: self.url.clone() }
    }
}

/// What an attempt to make a request gave, with the request taken by its URL.
pub open spec fn url_of(made: Result<HealthCheckRequest, MalformedRequest>) -> Result<
    Seq<char>,
    MalformedRequest,
> {
    match made {
        Ok(request) => Ok(request@),
        Err(error) => Err(error),
    }
}

impl HealthCheckRequest {
    #[verifier::type_invariant]
    spec fn url_is_usable(self) -> bool {
        usable_url(self.url@)
    }

    /// Makes a request of a URL text and the parser's verdict on that text.
    /// A verdict in favour has to be the parser's own; the empty text is
    /// refused without a look at the verdict.
    pub fn validated(url: String, parses: bool) -> (made: Result<
        HealthCheckRequest,
        MalformedRequest,
    >)
        requires
            url@.len() > 0 && parses ==> parses_as_url(url@),
        ensures
            url_of(made) == if url@.len() > 0 && parses {
                Ok::<Seq<char>, MalformedRequest>(url@)
            } else {
                Err(MalformedRequest::InvalidUrl)
            },
    {
        if url.as_str().is_empty() || !parses {
            Err(MalformedRequest::InvalidUrl)
        } else {
            Ok(HealthCheckRequest { url })
        }
    }

    /// Makes a request of a URL text, or says that the text is unusable.
    pub fn new(url: String) -> (made: Result<HealthCheckRequest, MalformedRequest>)
        ensures
            url_of(made) == if usable_url(url@) {
                Ok::<Seq<char>, MalformedRequest>(url@)
            } else {
                Err(MalformedRequest::InvalidUrl)
            },
    {
        let parses = url_parses(url.as_str());
        HealthCheckRequest::validated(url, parses)
    }

    /// Reads the request out of a trigger. A trigger without `detail`, without
    /// `url` or with an unusable `url` gives the matching error and no request.
    pub fn parse(trigger: TriggerEvent) -> (made: Result<HealthCheckRequest, MalformedRequest>)
        ensures
            url_of(made) == read_trigger(trigger@),
    {
        match trigger.detail {
            None => Err(MalformedRequest::MissingDetail),
            Some(detail) => match detail.url {
                None => Err(MalformedRequest::MissingUrl),
                Some(url) => HealthCheckRequest::new(url),
            },
        }
    }

    /// The URL to fetch.
    pub fn url(&self) -> (url: &str)
        ensures
            url@ == self@,
            usable_url(url@),
    {
        proof {
            use_type_invariant(self);
        }
        self.url.as_str()
    }
}

} // verus!
