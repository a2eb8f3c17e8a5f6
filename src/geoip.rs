//! Geographic location of a client address, read from a city record of the
//! location database.
use vstd::prelude::*;
use crate::params::ParamMap;
use crate::transformer::{lookup, opt_view};

verus! {

/// A coordinate in degrees, held as the IEEE-754 binary64 encoding that the
/// location database reports; the library carries it and never computes on it.
#[derive(Clone, Copy, Debug, PartialEq, Eq, Structural)]
pub struct Coordinate {
    pub bits: u64,
}

/// Failures of the location database.
#[derive(Debug)]
pub enum GeoIpError {
    /// The database file is missing or cannot be read.
    DatabaseError(String),
    /// An address could not be looked up.
    LookupError(String),
}

impl GeoIpError {
    /// The error as a human-readable line.
    pub fn to_string(&self) -> (r: String)
        ensures
            r@ == match self {
                GeoIpError::DatabaseError(m) => "Database error: "@ + m@,
                GeoIpError::LookupError(m) => "Lookup error: "@ + m@,
            },
    {
        match self {
            GeoIpError::DatabaseError(m) => {
                let mut s = "Database error: ".to_string();
                s.append(m.as_str());
                s
            },
            GeoIpError::LookupError(m) => {
                let mut s = "Lookup error: ".to_string();
                s.append(m.as_str());
                s
            },
        }
    }
}

/// Location of a client; every field may be unknown.
#[derive(Clone, Debug, PartialEq)]
pub struct GeoLocation {
    pub country: Option<String>,
    pub region: Option<String>,
    pub city: Option<String>,
    pub latitude: Option<Coordinate>,
    pub longitude: Option<Coordinate>,
}

impl Default for GeoLocation {
    fn default() -> (r: GeoLocation)
        ensures
            r.country is None && r.region is None && r.city is None,
            r.latitude is None && r.longitude is None,
    {
        GeoLocation { country: None, region: None, city: None, latitude: None, longitude: None }
    }
}

/// The parts of a database city record that locations are made from: the
/// localized names of the country, of each subdivision (largest first) and of
/// the city, keyed by language code, and the coordinates.
pub struct CityRecord {
    pub country_names: Option<ParamMap>,
    pub subdivision_names: Option<Vec<Option<ParamMap>>>,
    pub city_names: Option<ParamMap>,
    pub latitude: Option<Coordinate>,
    pub longitude: Option<Coordinate>,
}

impl CityRecord {
    /// Every name table is well formed.
    pub open spec fn wf(&self) -> bool {
        &&& (self.country_names matches Some(m) ==> m.wf())
        &&& (self.city_names matches Some(m) ==> m.wf())
        &&& (self.subdivision_names matches Some(v) ==> forall|i: int|
            0 <= i < v@.len() ==> (#[trigger] v@[i] matches Some(m) ==> m.wf()))
    }
}

/// The English name in a name table.
pub open spec fn english_name(names: Option<ParamMap>) -> Option<Seq<char>> {
    match names {
        Some(m) => lookup(m@, "en"@),
        None => None,
    }
}

/// The English name of the first (largest) subdivision.
pub open spec fn region_name(subdivisions: Option<Vec<Option<ParamMap>>>) -> Option<Seq<char>> {
    match subdivisions {
        Some(v) => if v@.len() > 0 {
            english_name(v@[0])
        } else {
            None
        },
        None => None,
    }
}

fn english(names: &Option<ParamMap>) -> (r: Option<String>)
    requires
        names matches Some(m) ==> m.wf(),
    ensures
        opt_view(r) == english_name(*names),
{
    match names {
        Some(m) => match m.get("en") {
            Some(s) => Some(s.clone()),
            None => None,
        },
        None => None,
    }
}

/// The location that a city record gives: English names of the country, of
/// the first subdivision and of the city, and the coordinates.
pub fn location_from_record(record: &CityRecord) -> (r: GeoLocation)
    requires
        record.wf(),
    ensures
        opt_view(r.country) == english_name(record.country_names),
        opt_view(r.region) == region_name(record.subdivision_names),
        opt_view(r.city) == english_name(record.city_names),
        r.latitude == record.latitude,
        r.longitude == record.longitude,
{
    let region = match &record.subdivision_names {
        Some(v) => if v.len() > 0 {
            english(&v[0])
        } else {
            None
        },
        None => None,
    };
    GeoLocation {
        country: english(&record.country_names),
        region,
        city: english(&record.city_names),
        latitude: record.latitude,
        longitude: record.longitude,
    }
}

/// The location for an address: that of its city record, or all unknown where
/// the lookup found none or failed.
pub fn location_or_unknown(record: Option<&CityRecord>) -> (r: GeoLocation)
    requires
        record matches Some(c) ==> c.wf(),
    ensures
        record is None ==> r.country is None && r.region is None && r.city is None
            && r.latitude is None && r.longitude is None,
        record matches Some(c) ==> opt_view(r.country) == english_name(c.country_names) && opt_view(
            r.region,
        ) == region_name(c.subdivision_names) && opt_view(r.city) == english_name(c.city_names)
            && r.latitude == c.latitude && r.longitude == c.longitude,
{
    match record {
        Some(c) => location_from_record(c),
        None => GeoLocation::default(),
    }
}

} // verus!
