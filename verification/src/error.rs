//! What can go wrong between a request and its reading.

use vstd::prelude::*;
use vstd::std_specs::cmp::PartialEqSpecImpl;

verus! {

/// The upstream call did not yield a payload.
#[derive(Debug)]
pub enum FetchError {
    /// The request did not get through, or no answer came back in time.
    Transport(String),
    /// The upstream answered with a status outside 200..=299.
    Upstream(u16),
    /// The body was not a payload of the expected form.
    Decode(String),
}

/// What a [`FetchError`] is to the contracts.
pub enum FetchErrorView {
    Transport(Seq<char>),
    Upstream(u16),
    Decode(Seq<char>),
}

impl View for FetchError {
    type V = FetchErrorView;

    open spec fn view(&self) -> FetchErrorView {
        match self {
            FetchError::Transport(detail) => FetchErrorView::Transport(detail@),
            FetchError::Upstream(status) => FetchErrorView::Upstream(*status),
            FetchError::Decode(detail) => FetchErrorView::Decode(detail@),
        }
    }
}

impl Clone for FetchError {
    fn clone(&self) -> (r: Self)
        ensures
            r == *self,
    {
        match self {
            FetchError::Transport(detail) => FetchError::Transport(detail.clone()),
            FetchError::Upstream(status) => FetchError::Upstream(*status),
            FetchError::Decode(detail) => FetchError::Decode(detail.clone()),
        }
    }
}

impl PartialEq for FetchError {
    fn eq(&self, other: &Self) -> (r: bool) {
        match (self, other) {
            (FetchError::Transport(a), FetchError::Transport(b)) => *a == *b,
            (FetchError::Upstream(a), FetchError::Upstream(b)) => *a == *b,
            (FetchError::Decode(a), FetchError::Decode(b)) => *a == *b,
            _ => false,
        }
    }
}

impl PartialEqSpecImpl for FetchError {
    open spec fn obeys_eq_spec() -> bool {
        true
    }

    open spec fn eq_spec(&self, other: &Self) -> bool {
        self@ == other@
    }
}

/// The payload could not be turned into a reading.
#[derive(Clone, Copy, Debug, PartialEq, Eq, Structural)]
pub enum NormalizeError {
    /// The payload names a most recent bucket that it does not hold.
    MissingLatestBucket,
}

/// Why a refresh failed.
#[derive(Debug)]
pub enum ProxyError {
    Fetch(FetchError),
    Normalize(NormalizeError),
}

/// What a [`ProxyError`] is to the contracts.
pub enum ProxyErrorView {
    Fetch(FetchErrorView),
    Normalize(NormalizeError),
}

impl View for ProxyError {
    type V = ProxyErrorView;

    open spec fn view(&self) -> ProxyErrorView {
        match self {
            ProxyError::Fetch(e) => ProxyErrorView::Fetch(e@),
            ProxyError::Normalize(e) => ProxyErrorView::Normalize(*e),
        }
    }
}

impl Clone for ProxyError {
    fn clone(&self) -> (r: Self)
        ensures
            r == *self,
    {
        match self {
            ProxyError::Fetch(e) => ProxyError::Fetch(e.clone()),
            ProxyError::Normalize(e) => ProxyError::Normalize(*e),
        }
    }
}

impl PartialEq for ProxyError {
    fn eq(&self, other: &Self) -> (r: bool) {
        match (self, other) {
            (ProxyError::Fetch(a), ProxyError::Fetch(b)) => *a == *b,
            (ProxyError::Normalize(a), ProxyError::Normalize(b)) => *a == *b,
            _ => false,
        }
    }
}

impl PartialEqSpecImpl for ProxyError {
    open spec fn obeys_eq_spec() -> bool {
        true
    }

    open spec fn eq_spec(&self, other: &Self) -> bool {
        self@ == other@
    }
}

/// The status with which the listener answers a request whose refresh failed.
pub const BAD_GATEWAY: u16 = 502;

impl ProxyError {
    /// The status with which the listener answers: always [`BAD_GATEWAY`].
    pub fn status_code(&self) -> (code: u16)
        ensures
            code == BAD_GATEWAY,
    {
        BAD_GATEWAY
    }
}

} // verus!
