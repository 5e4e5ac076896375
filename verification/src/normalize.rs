//! From the upstream payload to one reading: the most recent bucket, and of
//! each channel its median.

use vstd::prelude::*;
use crate::error::NormalizeError;
use crate::reading::{Channel, SensorDataResponse, SensorDataResponseView, SensorDataResult, MISSING};

verus! {

/// The reading of a payload: that of its most recent bucket, or the error
/// that the payload does not hold that bucket.
pub open spec fn normalized(raw: SensorDataResponseView) -> Result<
    SensorDataResult,
    NormalizeError,
> {
    match raw.latest() {
        Some(datum) => Ok(datum.reading()),
        None => Err(NormalizeError::MissingLatestBucket),
    }
}

/// Turns a payload into a reading.
///
/// Fails exactly when the bucket named by `data_range.maximum_date` is not
/// among the payload's buckets. A channel without a median never makes it
/// fail: that channel reads [`MISSING`].
pub fn normalize(raw: &SensorDataResponse) -> (r: Result<SensorDataResult, NormalizeError>)
    ensures
        r == normalized(raw@),
{
    match raw.latest() {
        Some(datum) => Ok(datum.to_reading()),
        None => Err(NormalizeError::MissingLatestBucket),
    }
}

/// Whenever the payload holds its most recent bucket, normalizing succeeds,
/// and every channel of the reading is that bucket's median for the channel,
/// or [`MISSING`] where the bucket has no median for it.
pub proof fn lemma_channel_is_median_or_missing(raw: SensorDataResponseView, channel: Channel)
    requires
        raw.latest() is Some,
    ensures
        normalized(raw) is Ok,
        normalized(raw)->Ok_0.value(channel) == match raw.latest()->Some_0.stats(channel).med {
            Some(median) => median,
            None => MISSING,
        },
{
}

/// A payload that lacks its most recent bucket is refused, whatever else it
/// holds; one that has it is never refused.
pub proof fn lemma_refused_iff_latest_missing(raw: SensorDataResponseView)
    ensures
        normalized(raw) is Err <==> !raw.data.contains_key(raw.data_range.maximum_date),
        normalized(raw) is Err ==> normalized(raw) == Err::<SensorDataResult, NormalizeError>(
            NormalizeError::MissingLatestBucket,
        ),
{
}

} // verus!
