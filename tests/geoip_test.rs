use analytics_api::geoip::{
    location_from_record, location_or_unknown, CityRecord, Coordinate, GeoIpError, GeoLocation,
};
use analytics_api::params::ParamMap;

#[test]
fn test_geolocation_default() {
    let geo = GeoLocation::default();
    assert_eq!(geo.country, None);
    assert_eq!(geo.region, None);
    assert_eq!(geo.city, None);
    assert_eq!(geo.latitude, None);
    assert_eq!(geo.longitude, None);
}

#[test]
fn test_geolocation_with_values() {
    let geo = GeoLocation {
        country: Some("United States".to_string()),
        region: Some("California".to_string()),
        city: Some("San Francisco".to_string()),
        latitude: Some(Coordinate { bits: (37.7749f64).to_bits() }),
        longitude: Some(Coordinate { bits: (-122.4194f64).to_bits() }),
    };

    assert_eq!(geo.country, Some("United States".to_string()));
    assert_eq!(geo.region, Some("California".to_string()));
    assert_eq!(geo.city, Some("San Francisco".to_string()));
    assert_eq!(geo.latitude, Some(Coordinate { bits: (37.7749f64).to_bits() }));
    assert_eq!(geo.longitude, Some(Coordinate { bits: (-122.4194f64).to_bits() }));
}

#[test]
fn test_geolocation_partial_data() {
    // Test GeoLocation with only some fields populated
    let geo = GeoLocation {
        country: Some("United States".to_string()),
        region: None,
        city: None,
        latitude: Some(Coordinate { bits: (37.0f64).to_bits() }),
        longitude: Some(Coordinate { bits: (-122.0f64).to_bits() }),
    };

    assert!(geo.country.is_some());
    assert!(geo.region.is_none());
    assert!(geo.city.is_none());
    assert!(geo.latitude.is_some());
    assert!(geo.longitude.is_some());
}


fn names(pairs: &[(&str, &str)]) -> ParamMap {
    let mut m = ParamMap::new();
    for (k, v) in pairs {
        m.insert(k.to_string(), v.to_string());
    }
    m
}

#[test]
fn record_gives_english_names_and_first_subdivision() {
    let record = CityRecord {
        country_names: Some(names(&[("de", "Vereinigte Staaten"), ("en", "United States")])),
        subdivision_names: Some(vec![
            Some(names(&[("en", "California")])),
            Some(names(&[("en", "Somewhere Else")])),
        ]),
        city_names: Some(names(&[("en", "San Francisco"), ("fr", "San Francisco")])),
        latitude: Some(Coordinate { bits: 37.7749f64.to_bits() }),
        longitude: Some(Coordinate { bits: (-122.4194f64).to_bits() }),
    };
    let loc = location_from_record(&record);
    assert_eq!(loc.country, Some("United States".to_string()));
    assert_eq!(loc.region, Some("California".to_string()));
    assert_eq!(loc.city, Some("San Francisco".to_string()));
    assert_eq!(loc.latitude.map(|c| f64::from_bits(c.bits)), Some(37.7749));
    assert_eq!(loc.longitude.map(|c| f64::from_bits(c.bits)), Some(-122.4194));
}

#[test]
fn record_without_english_names_gives_absent_fields() {
    let record = CityRecord {
        country_names: Some(names(&[("de", "Deutschland")])),
        subdivision_names: Some(vec![]),
        city_names: None,
        latitude: None,
        longitude: None,
    };
    let loc = location_from_record(&record);
    assert_eq!(loc, GeoLocation::default());
}

#[test]
fn failed_lookup_gives_unknown_location() {
    assert_eq!(location_or_unknown(None), GeoLocation::default());
}

#[test]
fn geoip_error_lines() {
    assert_eq!(
        GeoIpError::DatabaseError("no file".to_string()).to_string(),
        "Database error: no file"
    );
    assert_eq!(GeoIpError::LookupError("bad".to_string()).to_string(), "Lookup error: bad");
}
