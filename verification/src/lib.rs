//! Gateway core for an environmental-sensor cloud API: the readings it
//! relays, how a raw upstream answer becomes one reading, and the
//! time-bounded, single-flight cache that keeps the upstream call rate low.

pub mod auth;
pub mod cache;
pub mod config;
pub mod error;
pub mod normalize;
pub mod reading;
pub mod text;
pub mod trace;
pub mod upstream;

pub use crate::reading::{DataRange, Datum, SensorDataResponse, SensorDataResult, Stats};
