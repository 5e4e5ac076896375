//! The data that travels through the gateway: the upstream payload and the
//! reading that is handed on.
//!
//! Sensor values are carried as the 64 bits of an IEEE 754 double precision
//! number. The gateway never computes with them; it only moves them and, where
//! the upstream has none, puts [`MISSING`] in their place.

use vstd::prelude::*;
use vstd::hash_map::StringHashMap;

verus! {

/// The value that stands for "no data": the bits of the number -99.
pub const MISSING: u64 = 0xC058_C000_0000_0000;

/// The statistics the upstream reports for one channel in one time bucket.
/// Each may be absent.
#[derive(Clone, Copy, Debug, PartialEq, Eq, Structural)]
pub struct Stats {
    pub min: Option<u64>,
    pub med: Option<u64>,
    pub max: Option<u64>,
}

impl Stats {
    /// The value that represents the channel: its median, or [`MISSING`].
    pub open spec fn representative(self) -> u64 {
        match self.med {
            Some(v) => v,
            None => MISSING,
        }
    }

    /// Computes [`Stats::representative`].
    pub fn median_or_missing(&self) -> (v: u64)
        ensures
            v == self.representative(),
    {
        match self.med {
            Some(v) => v,
            None => MISSING,
        }
    }
}

/// One sensor channel of a reading.
#[derive(Clone, Copy, Debug, PartialEq, Eq, Structural)]
pub enum Channel {
    Temperature,
    Humidity,
    Co2,
    AmbientLight,
    Tvoc,
    ParticulateMatter,
    ParticulateMatter25,
    ParticulateMatter10,
}

/// One time bucket of the upstream payload: how many samples it holds, and
/// the statistics of each channel.
#[derive(Clone, Copy, Debug, PartialEq, Eq, Structural)]
pub struct Datum {
    pub count: i64,
    pub temperature: Stats,
    pub humidity: Stats,
    pub co2: Stats,
    pub als: Stats,
    pub tvoc: Stats,
    pub pm: Stats,
    pub pm25: Stats,
    pub pm10: Stats,
}

impl Datum {
    /// The statistics this bucket holds for `channel`.
    pub open spec fn stats(self, channel: Channel) -> Stats {
        match channel {
            Channel::Temperature => self.temperature,
            Channel::Humidity => self.humidity,
            Channel::Co2 => self.co2,
            Channel::AmbientLight => self.als,
            Channel::Tvoc => self.tvoc,
            Channel::ParticulateMatter => self.pm,
            Channel::ParticulateMatter25 => self.pm25,
            Channel::ParticulateMatter10 => self.pm10,
        }
    }

    /// The reading this bucket stands for: for every channel its
    /// representative value.
    pub open spec fn reading(self) -> SensorDataResult {
        SensorDataResult {
            temperature: self.temperature.representative(),
            humidity: self.humidity.representative(),
            co2: self.co2.representative(),
            ambient_light_sensor: self.als.representative(),
            total_volatile_organic_compounds: self.tvoc.representative(),
            particulate_matter: self.pm.representative(),
            particulate_matter_25: self.pm25.representative(),
            particulate_matter_10: self.pm10.representative(),
        }
    }

    /// Computes [`Datum::reading`].
    pub fn to_reading(&self) -> (r: SensorDataResult)
        ensures
            r == self.reading(),
    {
        SensorDataResult {
            temperature: self.temperature.median_or_missing(),
            humidity: self.humidity.median_or_missing(),
            co2: self.co2.median_or_missing(),
            ambient_light_sensor: self.als.median_or_missing(),
            total_volatile_organic_compounds: self.tvoc.median_or_missing(),
            particulate_matter: self.pm.median_or_missing(),
            particulate_matter_25: self.pm25.median_or_missing(),
            particulate_matter_10: self.pm10.median_or_missing(),
        }
    }
}

/// The reading that the gateway hands on. Every field always holds a value:
/// the channel's median, or [`MISSING`] where the upstream had none.
#[derive(Clone, Copy, Debug, PartialEq, Eq, Structural)]
pub struct SensorDataResult {
    pub temperature: u64,
    pub humidity: u64,
    pub co2: u64,
    pub ambient_light_sensor: u64,
    pub total_volatile_organic_compounds: u64,
    pub particulate_matter: u64,
    pub particulate_matter_25: u64,
    pub particulate_matter_10: u64,
}

impl SensorDataResult {
    /// The value this reading holds for `channel`.
    pub open spec fn value(self, channel: Channel) -> u64 {
        match channel {
            Channel::Temperature => self.temperature,
            Channel::Humidity => self.humidity,
            Channel::Co2 => self.co2,
            Channel::AmbientLight => self.ambient_light_sensor,
            Channel::Tvoc => self.total_volatile_organic_compounds,
            Channel::ParticulateMatter => self.particulate_matter,
            Channel::ParticulateMatter25 => self.particulate_matter_25,
            Channel::ParticulateMatter10 => self.particulate_matter_10,
        }
    }

    /// Computes [`SensorDataResult::value`].
    pub fn get(&self, channel: Channel) -> (v: u64)
        ensures
            v == self.value(channel),
    {
        match channel {
            Channel::Temperature => self.temperature,
            Channel::Humidity => self.humidity,
            Channel::Co2 => self.co2,
            Channel::AmbientLight => self.ambient_light_sensor,
            Channel::Tvoc => self.total_volatile_organic_compounds,
            Channel::ParticulateMatter => self.particulate_matter,
            Channel::ParticulateMatter25 => self.particulate_matter_25,
            Channel::ParticulateMatter10 => self.particulate_matter_10,
        }
    }
}

/// The first and the last time bucket that the payload covers, as the upstream
/// writes them.
pub struct DataRange {
    pub minimum_date: String,
    pub maximum_date: String,
}

/// What a [`DataRange`] is to the contracts.
pub struct DataRangeView {
    pub minimum_date: Seq<char>,
    pub maximum_date: Seq<char>,
}

impl View for DataRange {
    type V = DataRangeView;

    open spec fn view(&self) -> DataRangeView {
        DataRangeView { minimum_date: self.minimum_date@, maximum_date: self.maximum_date@ }
    }
}

/// The upstream payload: paging figures, the range of time buckets, and the
/// buckets themselves by their timestamp.
pub struct SensorDataResponse {
    total_records: i64,
    page_size: i64,
    page: i64,
    total_pages: i64,
    data_range: DataRange,
    data: StringHashMap<Datum>,
}

/// What a [`SensorDataResponse`] is to the contracts.
pub struct SensorDataResponseView {
    pub total_records: i64,
    pub page_size: i64,
    pub page: i64,
    pub total_pages: i64,
    pub data_range: DataRangeView,
    pub data: Map<Seq<char>, Datum>,
}

impl SensorDataResponseView {
    /// The bucket that `data_range.maximum_date` names, if the payload holds it.
    pub open spec fn latest(self) -> Option<Datum> {
        if self.data.contains_key(self.data_range.maximum_date) {
            Some(self.data[self.data_range.maximum_date])
        } else {
            None
        }
    }
}

impl View for SensorDataResponse {
    type V = SensorDataResponseView;

    closed spec fn view(&self) -> SensorDataResponseView {
        SensorDataResponseView {
            total_records: self.total_records,
            page_size: self.page_size,
            page: self.page,
            total_pages: self.total_pages,
            data_range: self.data_range@,
            data: self.data@,
        }
    }
}

impl SensorDataResponse {
    /// A payload with the given paging figures and range, and no bucket yet.
    pub fn new(
        total_records: i64,
        page_size: i64,
        page: i64,
        total_pages: i64,
        data_range: DataRange,
    ) -> (r: Self)
        ensures
            r@ == (SensorDataResponseView {
                total_records,
                page_size,
                page,
                total_pages,
                data_range: data_range@,
                data: Map::empty(),
            }),
    {
        SensorDataResponse {
            total_records,
            page_size,
            page,
            total_pages,
            data_range,
            data: StringHashMap::new(),
        }
    }

    /// Puts `datum` under `timestamp`, in place of what was there.
    pub fn insert(&mut self, timestamp: String, datum: Datum)
        ensures
            final(self)@ == (SensorDataResponseView {
                data: old(self)@.data.insert(timestamp@, datum),
                ..old(self)@
            }),
    {
        self.data.insert(timestamp, datum);
    }

    /// The bucket stored under `timestamp`.
    pub fn bucket(&self, timestamp: &str) -> (r: Option<Datum>)
        ensures
            r == if self@.data.contains_key(timestamp@) {
                Some(self@.data[timestamp@])
            } else {
                None::<Datum>
            },
    {
        match self.data.get(timestamp) {
            Some(d) => Some(*d),
            None => None,
        }
    }

    /// The number of buckets.
    pub fn len(&self) -> (n: usize)
        ensures
            n == self@.data.len(),
    {
        self.data.len()
    }

    /// The bucket that the range names as the most recent one.
    pub fn latest(&self) -> (r: Option<Datum>)
        ensures
            r == self@.latest(),
    {
        self.bucket(self.data_range.maximum_date.as_str())
    }
}

} // verus!
