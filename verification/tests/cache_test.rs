use arbnco_proxy::cache::{outcome_of, Freshness, FreshnessCache, Lookup, TTL_MILLIS};
use arbnco_proxy::error::{FetchError, NormalizeError, ProxyError};
use arbnco_proxy::reading::{DataRange, Datum, SensorDataResponse, SensorDataResult, Stats};
use arbnco_proxy::upstream::Reply;

fn only_median(x: f64) -> Stats {
    Stats { min: None, med: Some(x.to_bits()), max: None }
}

fn datum(base: f64) -> Datum {
    Datum {
        count: 1,
        temperature: only_median(base),
        humidity: only_median(base + 1.0),
        co2: only_median(base + 2.0),
        als: only_median(base + 3.0),
        tvoc: only_median(base + 4.0),
        pm: only_median(base + 5.0),
        pm25: only_median(base + 6.0),
        pm10: only_median(base + 7.0),
    }
}

fn reading(base: f64) -> SensorDataResult {
    datum(base).to_reading()
}

fn good_reply(base: f64) -> Reply {
    let mut raw = SensorDataResponse::new(
        1,
        1,
        1,
        1,
        DataRange { minimum_date: "t".to_string(), maximum_date: "t".to_string() },
    );
    raw.insert("t".to_string(), datum(base));
    Reply::Answered { status: 200, body: Ok(raw) }
}

fn reply_without_latest_bucket() -> Reply {
    let mut raw = SensorDataResponse::new(
        1,
        1,
        1,
        1,
        DataRange { minimum_date: "t0".to_string(), maximum_date: "t1".to_string() },
    );
    raw.insert("t0".to_string(), datum(1.0));
    Reply::Answered { status: 200, body: Ok(raw) }
}

fn fresh_cache(at: u64, base: f64) -> FreshnessCache {
    let mut cache = FreshnessCache::new();
    assert_eq!(cache.get(at), Lookup::Refresh);
    assert_eq!(cache.complete(at, good_reply(base)), Ok(reading(base)));
    cache
}

#[test]
fn ttl_is_twenty_five_seconds() {
    assert_eq!(TTL_MILLIS, 25_000);
}

#[test]
fn a_new_cache_is_empty_and_idle() {
    let cache = FreshnessCache::new();
    assert_eq!(cache.state(0), Freshness::Empty);
    assert_eq!(cache.state(u64::MAX), Freshness::Empty);
    assert!(!cache.is_in_flight());
    assert_eq!(cache.last_known(), None);
    assert_eq!(cache.joined(), None);
}

#[test]
fn the_first_caller_is_told_to_refresh() {
    let mut cache = FreshnessCache::new();
    assert_eq!(cache.get(10), Lookup::Refresh);
    assert!(cache.is_in_flight());
    assert_eq!(cache.state(10), Freshness::Empty);
}

#[test]
fn callers_during_a_refresh_are_told_to_wait() {
    let mut cache = FreshnessCache::new();
    let mut refreshes = 0;
    let mut joins = 0;
    for now in 0..50u64 {
        match cache.get(now) {
            Lookup::Refresh => refreshes += 1,
            Lookup::Join => joins += 1,
            Lookup::Hit(_) => panic!("nothing is stored yet"),
        }
    }
    assert_eq!(refreshes, 1);
    assert_eq!(joins, 49);
}

#[test]
fn callers_during_a_refresh_of_a_stale_reading_are_told_to_wait() {
    let mut cache = fresh_cache(0, 20.0);
    let mut refreshes = 0;
    for k in 0..10u64 {
        match cache.get(TTL_MILLIS + k) {
            Lookup::Refresh => refreshes += 1,
            Lookup::Join => {},
            Lookup::Hit(_) => panic!("a stale reading was handed out"),
        }
    }
    assert_eq!(refreshes, 1);
    assert_eq!(cache.last_known(), Some(reading(20.0)));
}

#[test]
fn a_successful_refresh_stores_the_reading() {
    let mut cache = FreshnessCache::new();
    assert_eq!(cache.get(1_000), Lookup::Refresh);
    let r = cache.complete(1_200, good_reply(21.5));
    assert_eq!(r, Ok(reading(21.5)));
    assert_eq!(f64::from_bits(r.unwrap().temperature), 21.5);
    assert!(!cache.is_in_flight());
    assert_eq!(cache.state(1_200), Freshness::Fresh);
    assert_eq!(cache.last_known(), Some(reading(21.5)));
}

#[test]
fn a_caller_within_the_ttl_is_handed_the_stored_reading() {
    let mut cache = fresh_cache(1_000, 21.5);
    let mut refreshes = 0;
    for now in [1_000u64, 1_001, 13_000, 25_999] {
        match cache.get(now) {
            Lookup::Hit(r) => assert_eq!(r, reading(21.5)),
            Lookup::Refresh => refreshes += 1,
            Lookup::Join => panic!("no refresh is in flight"),
        }
        assert!(!cache.is_in_flight());
    }
    assert_eq!(refreshes, 0);
}

#[test]
fn the_reading_is_stale_exactly_at_the_ttl() {
    let cache = fresh_cache(1_000, 21.5);
    assert_eq!(cache.state(1_000 + TTL_MILLIS - 1), Freshness::Fresh);
    assert_eq!(cache.state(1_000 + TTL_MILLIS), Freshness::Stale);
    assert_eq!(cache.state(u64::MAX), Freshness::Stale);
    let mut cache = cache;
    assert_eq!(cache.get(1_000 + TTL_MILLIS), Lookup::Refresh);
}

#[test]
fn the_age_is_counted_from_the_report_of_the_refresh() {
    let mut cache = FreshnessCache::new();
    assert_eq!(cache.get(0), Lookup::Refresh);
    assert!(cache.complete(4_000, good_reply(1.0)).is_ok());
    assert_eq!(cache.get(TTL_MILLIS), Lookup::Hit(reading(1.0)));
    assert_eq!(cache.get(TTL_MILLIS + 3_999), Lookup::Hit(reading(1.0)));
    assert_eq!(cache.get(TTL_MILLIS + 4_000), Lookup::Refresh);
}

#[test]
fn a_time_before_the_stored_one_counts_as_age_zero() {
    let mut cache = fresh_cache(50_000, 3.0);
    assert_eq!(cache.state(10), Freshness::Fresh);
    assert_eq!(cache.get(10), Lookup::Hit(reading(3.0)));
}

#[test]
fn a_refresh_replaces_the_stored_reading() {
    let mut cache = fresh_cache(0, 1.0);
    assert_eq!(cache.get(30_000), Lookup::Refresh);
    assert_eq!(cache.complete(30_500, good_reply(2.0)), Ok(reading(2.0)));
    assert_eq!(cache.get(30_600), Lookup::Hit(reading(2.0)));
}

#[test]
fn a_missing_bucket_fails_the_refresh_and_keeps_the_reading() {
    let mut cache = fresh_cache(0, 20.0);
    assert_eq!(cache.get(40_000), Lookup::Refresh);
    let r = cache.complete(40_100, reply_without_latest_bucket());
    assert_eq!(r, Err(ProxyError::Normalize(NormalizeError::MissingLatestBucket)));
    assert_eq!(cache.last_known(), Some(reading(20.0)));
    assert_eq!(cache.state(40_100), Freshness::Stale);
    assert!(!cache.is_in_flight());
}

#[test]
fn a_missing_bucket_on_the_first_refresh_leaves_the_cache_empty() {
    let mut cache = FreshnessCache::new();
    assert_eq!(cache.get(0), Lookup::Refresh);
    let r = cache.complete(5, reply_without_latest_bucket());
    assert_eq!(r, Err(ProxyError::Normalize(NormalizeError::MissingLatestBucket)));
    assert_eq!(cache.last_known(), None);
    assert_eq!(cache.state(5), Freshness::Empty);
}

#[test]
fn a_failed_fetch_keeps_the_reading_and_the_next_caller_retries() {
    let mut cache = fresh_cache(0, 20.0);
    assert_eq!(cache.get(26_000), Lookup::Refresh);
    let r = cache.complete(31_000, Reply::Failed("operation timed out".to_string()));
    assert_eq!(
        r,
        Err(ProxyError::Fetch(FetchError::Transport(
            "Response error: operation timed out".to_string()
        )))
    );
    assert_eq!(cache.last_known(), Some(reading(20.0)));
    assert_eq!(cache.get(31_001), Lookup::Refresh);
    let r = cache.complete(31_200, Reply::Answered { status: 503, body: Err(String::new()) });
    assert_eq!(r, Err(ProxyError::Fetch(FetchError::Upstream(503))));
    assert_eq!(cache.get(31_300), Lookup::Refresh);
    let r = cache.complete(
        31_400,
        Reply::Answered { status: 200, body: Err("EOF while parsing".to_string()) },
    );
    assert_eq!(r, Err(ProxyError::Fetch(FetchError::Decode("EOF while parsing".to_string()))));
    assert_eq!(cache.last_known(), Some(reading(20.0)));
    assert_eq!(cache.get(31_500), Lookup::Refresh);
    assert_eq!(cache.complete(31_600, good_reply(22.0)), Ok(reading(22.0)));
    assert_eq!(cache.get(31_700), Lookup::Hit(reading(22.0)));
}

#[test]
fn a_waiting_caller_receives_the_reading_of_the_refresh() {
    let mut cache = FreshnessCache::new();
    assert_eq!(cache.get(0), Lookup::Refresh);
    assert_eq!(cache.get(1), Lookup::Join);
    assert_eq!(cache.joined(), None);
    assert_eq!(cache.complete(300, good_reply(9.0)), Ok(reading(9.0)));
    assert_eq!(cache.joined(), Some(Ok(reading(9.0))));
}

#[test]
fn a_waiting_caller_receives_the_error_of_the_refresh() {
    let mut cache = fresh_cache(0, 20.0);
    assert_eq!(cache.get(25_000), Lookup::Refresh);
    assert_eq!(cache.get(25_001), Lookup::Join);
    assert_eq!(cache.joined(), None);
    let r = cache.complete(25_900, Reply::Answered { status: 500, body: Err(String::new()) });
    assert_eq!(cache.joined(), Some(r));
    assert_eq!(cache.joined(), Some(Err(ProxyError::Fetch(FetchError::Upstream(500)))));
}

#[test]
fn successful_refreshes_are_at_least_the_ttl_apart() {
    let mut cache = FreshnessCache::new();
    let mut successes: Vec<u64> = Vec::new();
    let mut attempts = 0u64;
    let mut now = 0u64;
    while now <= 200_000 {
        if let Lookup::Refresh = cache.get(now) {
            attempts += 1;
            let done = now + 700;
            let reply = if attempts % 3 == 0 {
                Reply::Failed("connection reset".to_string())
            } else {
                good_reply(attempts as f64)
            };
            if cache.complete(done, reply).is_ok() {
                successes.push(done);
            }
        }
        now += 1_300;
    }
    assert!(successes.len() >= 2);
    for pair in successes.windows(2) {
        assert!(pair[1] - pair[0] >= TTL_MILLIS);
    }
}

#[test]
fn outcome_of_a_reply_is_its_reading_or_its_error() {
    assert_eq!(outcome_of(good_reply(4.0)), Ok(reading(4.0)));
    assert_eq!(
        outcome_of(reply_without_latest_bucket()),
        Err(ProxyError::Normalize(NormalizeError::MissingLatestBucket))
    );
    assert_eq!(
        outcome_of(Reply::Answered { status: 404, body: Err("x".to_string()) }),
        Err(ProxyError::Fetch(FetchError::Upstream(404)))
    );
}
