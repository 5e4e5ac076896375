//! The upstream call, as far as it is computed: what is asked, and what the
//! answer means. Sending the request is left to the caller.

use vstd::prelude::*;
use vstd::string::StringExecFns;
use crate::error::{FetchError, FetchErrorView};
use crate::reading::{SensorDataResponse, SensorDataResponseView};

verus! {

/// The seconds after which a call that has not been answered is given up.
pub const REQUEST_TIMEOUT_SECS: u64 = 5;

/// The address of the readings of `site_id`.
pub open spec fn readings_url(site_id: Seq<char>) -> Seq<char> {
    "https://well.arbnco.com/api/v1/sites/"@ + site_id + "/readings"@
}

/// One call to the upstream: a GET of `url` with the header `Authorization`
/// set to `authorization`, given up after `timeout_secs` seconds.
#[derive(Debug)]
pub struct UpstreamRequest {
    pub url: String,
    pub authorization: String,
    pub timeout_secs: u64,
}

impl UpstreamRequest {
    /// The call that asks for the readings of `site_id` with `auth_token`.
    pub fn new(site_id: &str, auth_token: &str) -> (request: Self)
        requires
            site_id@.len() > 0,
            auth_token@.len() > 0,
        ensures
            request.url@ == readings_url(site_id@),
            request.authorization@ == auth_token@,
            request.timeout_secs == REQUEST_TIMEOUT_SECS,
    {
        let mut url = String::from_str("https://well.arbnco.com/api/v1/sites/");
        url.append(site_id);
        url.append("/readings");
        UpstreamRequest {
            url,
            authorization: String::from_str(auth_token),
            timeout_secs: REQUEST_TIMEOUT_SECS,
        }
    }
}

/// What came of one call: no answer at all, or an answer with its status and
/// its body, the body either decoded or with the reason why it could not be.
pub enum Reply {
    Failed(String),
    Answered { status: u16, body: Result<SensorDataResponse, String> },
}

/// What a [`Reply`] is to the contracts.
pub enum ReplyView {
    Failed(Seq<char>),
    Answered { status: u16, body: Result<SensorDataResponseView, Seq<char>> },
}

impl View for Reply {
    type V = ReplyView;

    open spec fn view(&self) -> ReplyView {
        match self {
            Reply::Failed(detail) => ReplyView::Failed(detail@),
            Reply::Answered { status, body } => ReplyView::Answered {
                status: *status,
                body: match body {
                    Ok(payload) => Ok(payload@),
                    Err(detail) => Err(detail@),
                },
            },
        }
    }
}

/// Whether `status` reports success: 200 to 299.
pub open spec fn is_success(status: u16) -> bool {
    200 <= status < 300
}

/// The payload that a reply carries, or the error that it amounts to.
///
/// A call that did not get through is a transport error, with the detail
/// behind the words "Response error: ". An answer with a status outside
/// 200..=299 is an upstream error, whatever its body. A body that could not be
/// decoded is a decode error.
pub open spec fn fetch_result(reply: ReplyView) -> Result<SensorDataResponseView, FetchErrorView> {
    match reply {
        ReplyView::Failed(detail) => Err(FetchErrorView::Transport("Response error: "@ + detail)),
        ReplyView::Answered { status, body } => if !is_success(status) {
            Err(FetchErrorView::Upstream(status))
        } else {
            match body {
                Ok(payload) => Ok(payload),
                Err(detail) => Err(FetchErrorView::Decode(detail)),
            }
        },
    }
}

/// What a fetch result is to the contracts.
pub open spec fn fetched_view(r: Result<SensorDataResponse, FetchError>) -> Result<
    SensorDataResponseView,
    FetchErrorView,
> {
    match r {
        Ok(payload) => Ok(payload@),
        Err(e) => Err(e@),
    }
}

/// Computes [`fetch_result`].
pub fn fetched(reply: Reply) -> (r: Result<SensorDataResponse, FetchError>)
    ensures
        fetched_view(r) == fetch_result(reply@),
{
    match reply {
        Reply::Failed(detail) => {
            let mut text = String::from_str("Response error: ");
            text.append(detail.as_str());
            Err(FetchError::Transport(text))
        },
        Reply::Answered { status, body } => {
            if status < 200 || status >= 300 {
                Err(FetchError::Upstream(status))
            } else {
                match body {
                    Ok(payload) => Ok(payload),
                    Err(detail) => Err(FetchError::Decode(detail)),
                }
            }
        },
    }
}

} // verus!
