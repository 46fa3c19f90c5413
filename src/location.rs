//! The location value: a coordinate pair or a geohash.

use crate::structured::{Doc, StructuredValue};
use vstd::prelude::*;
use vstd::std_specs::convert::FromSpec;

verus! {

/// A geographic location.
///
/// A coordinate is held as the IEEE-754 bit pattern of its `f64` value: the
/// library never computes with it, it only hands it on unchanged.
#[derive(Debug, PartialEq)]
pub enum Location {
    /// Latitude and longitude, as bit patterns.
    LatLon(u64, u64),
    /// An encoded location, used verbatim.
    GeoHash(String),
}

/// The key of the latitude entry.
pub open spec fn lat_key() -> Seq<char> {
    seq!['l', 'a', 't']
}

/// The key of the longitude entry.
pub open spec fn lon_key() -> Seq<char> {
    seq!['l', 'o', 'n']
}

/// The structured form of a location: an object with a `lat` and a `lon`
/// number, in that order, for a coordinate pair; the string itself for a
/// geohash.
pub open spec fn location_doc(l: Location) -> Doc {
    match l {
        Location::LatLon(lat, lon) => Doc::Object(
            seq![(lat_key(), Doc::Float(lat)), (lon_key(), Doc::Float(lon))],
        ),
        Location::GeoHash(code) => Doc::Text(code@),
    }
}

/// Rendering a location changes nothing: equal locations, and so one
/// location rendered twice, give the same structured value.
pub proof fn lemma_location_rendering_repeats(l1: Location, l2: Location)
    requires
        l1 == l2,
    ensures
        location_doc(l1) == location_doc(l2),
{
}

/// The two kinds of location never share a shape: one made from a string
/// renders as a string and never as an object, one made from a coordinate
/// pair renders as an object and never as a string.
pub proof fn lemma_location_shapes_exclusive(code: String, lat: u64, lon: u64)
    ensures
        location_doc(Location::from_spec(code)) is Text,
        !(location_doc(Location::from_spec(code)) is Object),
        location_doc(Location::LatLon(lat, lon)) is Object,
        !(location_doc(Location::LatLon(lat, lon)) is Text),
{
}

impl Location {
    /// The location at the coordinates whose `f64` bit patterns are given.
    pub fn from_coordinate_bits(lat: u64, lon: u64) -> (r: Location)
        ensures
            r == Location::LatLon(lat, lon),
    {
        Location::LatLon(lat, lon)
    }

    /// The location as a JSON-compatible value.
    pub fn to_structured_value(&self) -> (r: StructuredValue)
        ensures
            r@ == location_doc(*self),
    {
        match self {
            Location::LatLon(lat, lon) => {
                let mut entries: Vec<(String, StructuredValue)> = Vec::new();
                entries.push(("lat".to_owned(), StructuredValue::Float(*lat)));
                entries.push(("lon".to_owned(), StructuredValue::Float(*lon)));
                proof {
                    reveal_strlit("lat");
                    reveal_strlit("lon");
                }
                assert(entries@.len() == 2);
                assert(entries@[0].0@ =~= lat_key());
                assert(entries@[1].0@ =~= lon_key());
                assert(entries@[0].1@ == Doc::Float(*lat));
                assert(entries@[1].1@ == Doc::Float(*lon));
                let r = StructuredValue::Object(entries);
                assert(r@ == location_doc(*self)) by {
                    if let Doc::Object(es) = r@ {
                        assert(es =~= seq![
                            (lat_key(), Doc::Float(*lat)),
                            (lon_key(), Doc::Float(*lon)),
                        ]);
                    }
                }
                r
            },
            Location::GeoHash(code) => StructuredValue::Text(code.clone()),
        }
    }
}

impl From<String> for Location {
    /// The geohash location that holds `code`.
    fn from(code: String) -> (r: Location) {
        Location::GeoHash(code)
    }
}

impl vstd::std_specs::convert::FromSpecImpl<String> for Location {
    open spec fn obeys_from_spec() -> bool {
        true
    }

    open spec fn from_spec(code: String) -> Location {
        Location::GeoHash(code)
    }
}

} // verus!
