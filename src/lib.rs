//! Value types used as parameters of search-service requests: a time span
//! with its unit, and a geographic location.

pub mod units;
pub mod structured;
pub mod location;
