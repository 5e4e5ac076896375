//! The freshness cache: one reading, kept for [`TTL_MILLIS`], refreshed by at
//! most one caller at a time.
//!
//! The cache makes no call itself. [`FreshnessCache::get`] tells the caller
//! what to do: hand on the stored reading, make the upstream call, or wait for
//! the caller that is making it. [`FreshnessCache::complete`] takes what came
//! of the call. A caller that was told to wait receives the outcome of the
//! refresh it waited for from [`FreshnessCache::joined`]; it is never served a
//! stale reading.
//!
//! Time is a count of milliseconds from any fixed start that never runs
//! backwards.

use vstd::prelude::*;
use crate::error::{ProxyError, ProxyErrorView};
use crate::normalize::{normalize, normalized};
use crate::reading::SensorDataResult;
use crate::upstream::{fetch_result, fetched, Reply, ReplyView};

verus! {

/// How long a stored reading is served before it is fetched again.
pub const TTL_MILLIS: u64 = 25_000;

/// The age class of what the cache holds.
#[derive(Clone, Copy, Debug, PartialEq, Eq, Structural)]
pub enum Freshness {
    /// No refresh has succeeded yet.
    Empty,
    /// The last successful refresh is less than [`TTL_MILLIS`] old.
    Fresh,
    /// The last successful refresh is [`TTL_MILLIS`] old or older.
    Stale,
}

/// What a caller of [`FreshnessCache::get`] is to do.
#[derive(Clone, Copy, Debug, PartialEq, Eq, Structural)]
pub enum Lookup {
    /// Hand on this reading; no call is needed.
    Hit(SensorDataResult),
    /// Make the upstream call, then report it with
    /// [`FreshnessCache::complete`].
    Refresh,
    /// Another caller is making the call: wait until it has reported, then
    /// take the outcome from [`FreshnessCache::joined`].
    Join,
}

/// A reading and the time at which it was stored.
pub struct Stored {
    pub reading: SensorDataResult,
    pub fetched_at: u64,
}

/// The cache as the contracts see it.
pub struct CacheModel {
    /// The reading of the last refresh that succeeded.
    pub stored: Option<Stored>,
    /// Whether a caller is making the upstream call.
    pub in_flight: bool,
    /// The outcome of the last refresh that was reported.
    pub settled: Option<Result<SensorDataResult, ProxyErrorView>>,
}

impl CacheModel {
    /// The cache before any call.
    pub open spec fn empty() -> CacheModel {
        CacheModel { stored: None, in_flight: false, settled: None }
    }

    /// The age class of the stored reading at `now`. A `now` before the time
    /// of storing counts as age zero.
    pub open spec fn freshness(self, now: u64) -> Freshness {
        match self.stored {
            None => Freshness::Empty,
            Some(entry) => if now - entry.fetched_at < TTL_MILLIS {
                Freshness::Fresh
            } else {
                Freshness::Stale
            },
        }
    }

    /// What a caller that asks at `now` is told.
    pub open spec fn lookup(self, now: u64) -> Lookup {
        if self.freshness(now) == Freshness::Fresh {
            Lookup::Hit(self.stored->Some_0.reading)
        } else if self.in_flight {
            Lookup::Join
        } else {
            Lookup::Refresh
        }
    }

    /// The cache after a caller has asked at `now`: a refresh is in flight if
    /// the caller was told to make it, and nothing else has changed.
    pub open spec fn after_get(self, now: u64) -> CacheModel {
        if self.lookup(now) == Lookup::Refresh {
            CacheModel { in_flight: true, ..self }
        } else {
            self
        }
    }

    /// The cache after the refresh in flight was reported at `now` with
    /// `outcome`: a reading is stored with that time, an error leaves what was
    /// stored as it was.
    pub open spec fn after_done(
        self,
        now: u64,
        outcome: Result<SensorDataResult, ProxyErrorView>,
    ) -> CacheModel {
        CacheModel {
            stored: match outcome {
                Ok(reading) => Some(Stored { reading, fetched_at: now }),
                Err(_) => self.stored,
            },
            in_flight: false,
            settled: Some(outcome),
        }
    }

    /// What a caller that was told to wait receives: nothing while the
    /// refresh is in flight, then its outcome.
    pub open spec fn joined(self) -> Option<Result<SensorDataResult, ProxyErrorView>> {
        if self.in_flight {
            None
        } else {
            self.settled
        }
    }
}

/// What a reply amounts to: the reading of its payload, or the error of the
/// call or of the payload.
pub open spec fn refresh_outcome(reply: ReplyView) -> Result<SensorDataResult, ProxyErrorView> {
    match fetch_result(reply) {
        Err(e) => Err(ProxyErrorView::Fetch(e)),
        Ok(raw) => match normalized(raw) {
            Ok(reading) => Ok(reading),
            Err(e) => Err(ProxyErrorView::Normalize(e)),
        },
    }
}

/// What the outcome of a refresh is to the contracts.
pub open spec fn outcome_view(r: Result<SensorDataResult, ProxyError>) -> Result<
    SensorDataResult,
    ProxyErrorView,
> {
    match r {
        Ok(reading) => Ok(reading),
        Err(e) => Err(e@),
    }
}

/// Computes [`refresh_outcome`].
pub fn outcome_of(reply: Reply) -> (r: Result<SensorDataResult, ProxyError>)
    ensures
        outcome_view(r) == refresh_outcome(reply@),
{
    match fetched(reply) {
        Err(e) => Err(ProxyError::Fetch(e)),
        Ok(raw) => match normalize(&raw) {
            Ok(reading) => Ok(reading),
            Err(e) => Err(ProxyError::Normalize(e)),
        },
    }
}

struct CacheEntry {
    reading: SensorDataResult,
    fetched_at: u64,
}

/// The cache of one site's reading.
pub struct FreshnessCache {
    entry: Option<CacheEntry>,
    in_flight: bool,
    settled: Option<Result<SensorDataResult, ProxyError>>,
}

impl View for FreshnessCache {
    type V = CacheModel;

    closed spec fn view(&self) -> CacheModel {
        CacheModel {
            stored: match self.entry {
                Some(e) => Some(Stored { reading: e.reading, fetched_at: e.fetched_at }),
                None => None,
            },
            in_flight: self.in_flight,
            settled: match self.settled {
                Some(outcome) => Some(outcome_view(outcome)),
                None => None,
            },
        }
    }
}

impl FreshnessCache {
    /// A cache that holds nothing, with no refresh in flight.
    pub fn new() -> (cache: Self)
        ensures
            cache@ == CacheModel::empty(),
    {
        FreshnessCache { entry: None, in_flight: false, settled: None }
    }

    /// The age class of the stored reading at `now`.
    pub fn state(&self, now: u64) -> (f: Freshness)
        ensures
            f == self@.freshness(now),
    {
        match &self.entry {
            None => Freshness::Empty,
            Some(e) => if now < e.fetched_at || now - e.fetched_at < TTL_MILLIS {
                Freshness::Fresh
            } else {
                Freshness::Stale
            },
        }
    }

    /// The reading of the last refresh that succeeded, whatever its age.
    pub fn last_known(&self) -> (r: Option<SensorDataResult>)
        ensures
            r == match self@.stored {
                Some(entry) => Some(entry.reading),
                None => None::<SensorDataResult>,
            },
    {
        match &self.entry {
            Some(e) => Some(e.reading),
            None => None,
        }
    }

    /// Whether a caller is making the upstream call.
    pub fn is_in_flight(&self) -> (b: bool)
        ensures
            b == self@.in_flight,
    {
        self.in_flight
    }

    /// Asks for the reading at `now`.
    ///
    /// A fresh reading is handed out and the cache stays as it is. Otherwise
    /// the caller is told to make the upstream call, unless another caller is
    /// making it already: then it is told to wait.
    pub fn get(&mut self, now: u64) -> (told: Lookup)
        ensures
            told == old(self)@.lookup(now),
            final(self)@ == old(self)@.after_get(now),
    {
        match &self.entry {
            Some(e) => {
                if now < e.fetched_at || now - e.fetched_at < TTL_MILLIS {
                    return Lookup::Hit(e.reading);
                }
            },
            None => {},
        }
        if self.in_flight {
            Lookup::Join
        } else {
            self.in_flight = true;
            Lookup::Refresh
        }
    }

    /// Reports at `now` what came of the upstream call that
    /// [`FreshnessCache::get`] asked for.
    ///
    /// The reading of the reply is stored with the time `now`; a reply that
    /// amounts to an error leaves what was stored untouched. Either way the
    /// refresh is over, its outcome is kept for the callers that waited, and
    /// it is returned.
    pub fn complete(&mut self, now: u64, reply: Reply) -> (r: Result<SensorDataResult, ProxyError>)
        requires
            old(self)@.in_flight,
        ensures
            outcome_view(r) == refresh_outcome(reply@),
            final(self)@ == old(self)@.after_done(now, refresh_outcome(reply@)),
    {
        let outcome = outcome_of(reply);
        let kept = match &outcome {
            Ok(reading) => Ok(*reading),
            Err(e) => Err(e.clone()),
        };
        match &outcome {
            Ok(reading) => {
                self.entry = Some(CacheEntry { reading: *reading, fetched_at: now });
            },
            Err(_) => {},
        }
        self.in_flight = false;
        self.settled = Some(kept);
        outcome
    }

    /// What a caller that was told to wait receives: `None` while the refresh
    /// is in flight, then its outcome.
    pub fn joined(&self) -> (r: Option<Result<SensorDataResult, ProxyError>>)
        ensures
            match r {
                Some(outcome) => self@.joined() == Some(outcome_view(outcome)),
                None => self@.joined() is None,
            },
    {
        if self.in_flight {
            None
        } else {
            match &self.settled {
                Some(Ok(reading)) => Some(Ok(*reading)),
                Some(Err(e)) => Some(Err(e.clone())),
                None => None,
            }
        }
    }
}

} // verus!
