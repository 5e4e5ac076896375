use arbnco_proxy::error::{FetchError, ProxyError};
use arbnco_proxy::reading::{DataRange, SensorDataResponse};
use arbnco_proxy::upstream::{fetched, Reply, UpstreamRequest, REQUEST_TIMEOUT_SECS};

fn empty_payload() -> SensorDataResponse {
    SensorDataResponse::new(
        0,
        0,
        0,
        0,
        DataRange { minimum_date: String::new(), maximum_date: String::new() },
    )
}

#[test]
fn request_names_the_site_and_carries_the_key() {
    let request = UpstreamRequest::new("abc123", "secret-key");
    assert_eq!(request.url, "https://well.arbnco.com/api/v1/sites/abc123/readings");
    assert_eq!(request.authorization, "secret-key");
    assert_eq!(request.timeout_secs, 5);
    assert_eq!(REQUEST_TIMEOUT_SECS, 5);
}

#[test]
fn a_call_that_did_not_get_through_is_a_transport_error() {
    let r = fetched(Reply::Failed("operation timed out".to_string()));
    assert_eq!(
        r.err(),
        Some(FetchError::Transport("Response error: operation timed out".to_string()))
    );
}

#[test]
fn a_status_outside_the_two_hundreds_is_an_upstream_error() {
    for status in [0u16, 100, 199, 300, 301, 401, 404, 429, 500, 503, u16::MAX] {
        let r = fetched(Reply::Answered { status, body: Ok(empty_payload()) });
        assert_eq!(r.err(), Some(FetchError::Upstream(status)));
    }
}

#[test]
fn a_bad_status_wins_over_a_bad_body() {
    let r = fetched(Reply::Answered { status: 429, body: Err("expected value".to_string()) });
    assert_eq!(r.err(), Some(FetchError::Upstream(429)));
}

#[test]
fn a_body_that_does_not_decode_is_a_decode_error() {
    let r = fetched(Reply::Answered {
        status: 200,
        body: Err("missing field `data_range` at line 1 column 2".to_string()),
    });
    assert_eq!(
        r.err(),
        Some(FetchError::Decode("missing field `data_range` at line 1 column 2".to_string()))
    );
}

#[test]
fn a_decoded_body_with_a_good_status_is_the_payload() {
    for status in [200u16, 204, 299] {
        let r = fetched(Reply::Answered { status, body: Ok(empty_payload()) });
        assert!(r.is_ok());
        assert_eq!(r.unwrap().len(), 0);
    }
}

#[test]
fn errors_compare_by_what_they_hold() {
    let a = FetchError::Transport("x".to_string());
    assert_eq!(a.clone(), a);
    assert_ne!(a, FetchError::Decode("x".to_string()));
    assert_ne!(FetchError::Upstream(500), FetchError::Upstream(501));
    assert_eq!(ProxyError::Fetch(a.clone()).clone(), ProxyError::Fetch(a));
    assert_eq!(ProxyError::Fetch(FetchError::Upstream(500)).status_code(), 502);
}
