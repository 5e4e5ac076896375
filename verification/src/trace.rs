//! Histories of one cache, and what holds of all of them.
//!
//! A history is the sequence of calls made on a cache since it was created:
//! each [`Event::Get`] is a call of `get`, each [`Event::Done`] a call of
//! `complete`.

use vstd::prelude::*;
use crate::cache::{refresh_outcome, CacheModel, Freshness, Lookup, TTL_MILLIS};
use crate::error::{NormalizeError, ProxyErrorView};
use crate::reading::SensorDataResult;
use crate::upstream::{is_success, ReplyView};

verus! {

/// One call on the cache.
pub enum Event {
    /// A caller asked for the reading at `now`.
    Get { now: u64 },
    /// The refresh in flight was reported at `now` with `outcome`.
    Done { now: u64, outcome: Result<SensorDataResult, ProxyErrorView> },
}

impl Event {
    /// The time of the call.
    pub open spec fn time(self) -> u64 {
        match self {
            Event::Get { now } => now,
            Event::Done { now, .. } => now,
        }
    }

    /// Whether the call reports a refresh that succeeded.
    pub open spec fn is_success(self) -> bool {
        self matches Event::Done { outcome, .. } && outcome is Ok
    }
}

/// The cache after one more call.
pub open spec fn step(cache: CacheModel, event: Event) -> CacheModel {
    match event {
        Event::Get { now } => cache.after_get(now),
        Event::Done { now, outcome } => cache.after_done(now, outcome),
    }
}

/// The cache after the calls of `history`, made on an empty cache.
pub open spec fn run(history: Seq<Event>) -> CacheModel
    decreases history.len(),
{
    if history.len() == 0 {
        CacheModel::empty()
    } else {
        step(run(history.drop_last()), history.last())
    }
}

/// Whether `history` can come about: time does not run backwards, and a
/// refresh is reported only while one is in flight.
pub open spec fn admissible(history: Seq<Event>) -> bool {
    &&& forall|i: int, j: int|
        0 <= i <= j < history.len() ==> (#[trigger] history[i]).time() <= (
        #[trigger] history[j]).time()
    &&& forall|i: int|
        0 <= i < history.len() && (#[trigger] history[i]) is Done ==> run(
            history.take(i),
        ).in_flight
}

/// What holds of the cache after the first `n` calls of an admissible
/// history: no successful refresh so far is later than the stored time, and a
/// refresh in flight was begun no sooner than the time-to-live after it.
spec fn spaced(history: Seq<Event>, n: int) -> bool {
    let cache = run(history.take(n));
    &&& forall|i: int|
        0 <= i < n && (#[trigger] history[i]).is_success() ==> cache.stored is Some
            && history[i].time() <= cache.stored->Some_0.fetched_at
    &&& cache.stored is Some ==> n > 0 && cache.stored->Some_0.fetched_at <= history[n - 1].time()
    &&& cache.in_flight && cache.stored is Some ==> cache.stored->Some_0.fetched_at + TTL_MILLIS
        <= history[n - 1].time()
}

proof fn lemma_spaced(history: Seq<Event>, n: int)
    requires
        admissible(history),
        0 <= n <= history.len(),
    ensures
        spaced(history, n),
    decreases n,
{
    if n == 0 {
        assert(history.take(0).len() == 0);
    } else {
        lemma_spaced(history, n - 1);
        assert(history.take(n).drop_last() =~= history.take(n - 1));
        if n >= 2 {
            assert(history[n - 2].time() <= history[n - 1].time());
        }
    }
}

/// Two refreshes that succeeded lie at least the time-to-live apart: where a
/// history reports a successful refresh at `earlier` and another at `later`,
/// the second was reported no sooner than [`TTL_MILLIS`] after the first.
pub proof fn lemma_successful_refreshes_are_spaced(history: Seq<Event>, earlier: int, later: int)
    requires
        admissible(history),
        0 <= earlier < later < history.len(),
        history[earlier].is_success(),
        history[later].is_success(),
    ensures
        history[later].time() - history[earlier].time() >= TTL_MILLIS,
{
    lemma_spaced(history, later);
}

/// The upstream call is made only once a stored reading is stale: where a
/// history reports a successful refresh at `earlier` and a later caller is
/// told to make the call, that caller asked no sooner than [`TTL_MILLIS`]
/// after the refresh.
pub proof fn lemma_refresh_begins_after_ttl(history: Seq<Event>, earlier: int, later: int)
    requires
        admissible(history),
        0 <= earlier < later < history.len(),
        history[earlier].is_success(),
        history[later] is Get,
        run(history.take(later)).lookup(history[later].time()) == Lookup::Refresh,
    ensures
        history[later].time() - history[earlier].time() >= TTL_MILLIS,
{
    lemma_spaced(history, later);
}

/// How many of the callers that ask at `times`, one after the other with no
/// refresh reported in between, are told to make the upstream call.
pub open spec fn refreshes_begun(cache: CacheModel, times: Seq<u64>) -> nat
    decreases times.len(),
{
    if times.len() == 0 {
        0
    } else {
        let first: nat = if cache.lookup(times[0]) == Lookup::Refresh {
            1
        } else {
            0
        };
        first + refreshes_begun(cache.after_get(times[0]), times.drop_first())
    }
}

/// Single flight: of any number of callers that ask while the reading is
/// missing or stale and before a refresh is reported, exactly one is told to
/// make the upstream call, and none if the call is being made already.
pub proof fn lemma_single_flight(cache: CacheModel, times: Seq<u64>)
    requires
        times.len() >= 1,
        forall|i: int| 0 <= i < times.len() ==> cache.freshness(#[trigger] times[i]) != Freshness::Fresh,
    ensures
        !cache.in_flight ==> refreshes_begun(cache, times) == 1,
        cache.in_flight ==> refreshes_begun(cache, times) == 0,
    decreases times.len(),
{
    let next = cache.after_get(times[0]);
    let rest = times.drop_first();
    if rest.len() >= 1 {
        assert forall|i: int| 0 <= i < rest.len() implies next.freshness(#[trigger] rest[i])
            != Freshness::Fresh by {
            assert(rest[i] == times[i + 1]);
        }
        lemma_single_flight(next, rest);
    } else {
        assert(refreshes_begun(next, rest) == 0);
    }
}

/// While a refresh is in flight no caller is told to begin another.
pub proof fn lemma_no_second_refresh(cache: CacheModel, now: u64)
    requires
        cache.in_flight,
    ensures
        cache.lookup(now) != Lookup::Refresh,
        cache.after_get(now) == cache,
{
}

/// A caller that asks less than the time-to-live after a successful refresh
/// is handed the reading that the refresh stored; it is not told to make a
/// call, and the cache stays as it is.
pub proof fn lemma_hit_within_ttl(
    cache: CacheModel,
    stored_at: u64,
    reading: SensorDataResult,
    now: u64,
)
    requires
        now - stored_at < TTL_MILLIS,
    ensures
        cache.after_done(stored_at, Ok(reading)).lookup(now) == Lookup::Hit(reading),
        cache.after_done(stored_at, Ok(reading)).after_get(now) == cache.after_done(
            stored_at,
            Ok(reading),
        ),
{
}

/// A payload that lacks its most recent bucket makes the refresh fail with
/// [`NormalizeError::MissingLatestBucket`] and leaves the stored reading as it
/// was.
pub proof fn lemma_missing_bucket_keeps_entry(cache: CacheModel, now: u64, reply: ReplyView)
    requires
        reply matches ReplyView::Answered { status, body } && is_success(status) && body is Ok
            && body->Ok_0.latest() is None,
    ensures
        refresh_outcome(reply) == Err::<SensorDataResult, ProxyErrorView>(
            ProxyErrorView::Normalize(NormalizeError::MissingLatestBucket),
        ),
        cache.after_done(now, refresh_outcome(reply)).stored == cache.stored,
{
}

/// Whatever the error of a refresh, the stored reading stays as it was, and
/// the next caller is told to try again.
pub proof fn lemma_failure_keeps_entry(
    cache: CacheModel,
    now: u64,
    error: ProxyErrorView,
    next: u64,
)
    requires
        cache.freshness(next) != Freshness::Fresh,
    ensures
        cache.after_done(now, Err(error)).stored == cache.stored,
        cache.after_done(now, Err(error)).lookup(next) == Lookup::Refresh,
{
}

} // verus!
