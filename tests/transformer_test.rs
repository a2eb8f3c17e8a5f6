use analytics_api::params::ParamMap;
use analytics_api::number::{parse_i32, parse_i64};
use analytics_api::transformer::{transform_params, transform_params_at};

#[test]
fn test_transform_params_standard_fields() {
    let mut params = ParamMap::new();
    params.insert("project".to_string(), "my-project".to_string());
    params.insert("event".to_string(), "pageview".to_string());
    params.insert("id".to_string(), "evt_123".to_string());
    params.insert("timestamp".to_string(), "1704067200000".to_string());

    let event = transform_params(params);

    assert_eq!(event.project, Some("my-project".to_string()));
    assert_eq!(event.event, "pageview");
    assert_eq!(event.id, Some("evt_123".to_string()));
    assert_eq!(event.timestamp, 1704067200000);
}

#[test]
fn test_transform_params_visit_fields() {
    let mut params = ParamMap::new();
    params.insert("event".to_string(), "pageview".to_string());
    params.insert("cookie".to_string(), "user_xyz".to_string());
    params.insert("url".to_string(), "https://example.com".to_string());
    params.insert("title".to_string(), "Example Page".to_string());
    params.insert("domain".to_string(), "example.com".to_string());
    params.insert("uri".to_string(), "/page".to_string());
    params.insert("duration".to_string(), "5000".to_string());
    params.insert("scroll_depth".to_string(), "75".to_string());
    params.insert("screen".to_string(), "1920x1080".to_string());
    params.insert("language".to_string(), "en-US".to_string());
    params.insert("referer".to_string(), "https://google.com".to_string());
    params.insert("app".to_string(), "web".to_string());

    let event = transform_params(params);

    assert_eq!(event.visit.cookie, Some("user_xyz".to_string()));
    assert_eq!(event.visit.url, Some("https://example.com".to_string()));
    assert_eq!(event.visit.title, Some("Example Page".to_string()));
    assert_eq!(event.visit.domain, Some("example.com".to_string()));
    assert_eq!(event.visit.uri, Some("/page".to_string()));
    assert_eq!(event.visit.duration, Some(5000));
    assert_eq!(event.visit.scroll_depth, Some(75));
    assert_eq!(event.visit.screen, Some("1920x1080".to_string()));
    assert_eq!(event.visit.language, Some("en-US".to_string()));
    assert_eq!(event.visit.referer, Some("https://google.com".to_string()));
    assert_eq!(event.visit.app, Some("web".to_string()));
}

#[test]
fn test_transform_params_event_params() {
    let mut params = ParamMap::new();
    params.insert("event".to_string(), "click".to_string());
    params.insert("e_button_text".to_string(), "Click Me".to_string());
    params.insert("e_product_id".to_string(), "prod_123".to_string());
    params.insert("e_category".to_string(), "electronics".to_string());

    let event = transform_params(params);

    assert!(event.event_param.is_some());
    let event_params = event.event_param.unwrap();
    assert_eq!(event_params.params.get("button_text"), Some(&"Click Me".to_string()));
    assert_eq!(event_params.params.get("product_id"), Some(&"prod_123".to_string()));
    assert_eq!(event_params.params.get("category"), Some(&"electronics".to_string()));
}

#[test]
fn test_transform_params_profile_properties() {
    let mut params = ParamMap::new();
    params.insert("event".to_string(), "identify".to_string());
    params.insert("u_email".to_string(), "user@example.com".to_string());
    params.insert("u_name".to_string(), "John Doe".to_string());
    params.insert("u_id".to_string(), "user_123".to_string());

    let event = transform_params(params);

    assert!(event.profile.is_some());
    let profile = event.profile.unwrap();
    assert_eq!(profile.properties.get("email"), Some(&"user@example.com".to_string()));
    assert_eq!(profile.properties.get("name"), Some(&"John Doe".to_string()));
    assert_eq!(profile.properties.get("id"), Some(&"user_123".to_string()));
}

#[test]
fn test_transform_params_session_properties() {
    let mut params = ParamMap::new();
    params.insert("event".to_string(), "pageview".to_string());
    params.insert("s_session_id".to_string(), "sess_abc123".to_string());
    params.insert("s_session_start".to_string(), "1704067200000".to_string());

    let event = transform_params(params);

    assert_eq!(event.session_properties.get("session_id"), Some(&"sess_abc123".to_string()));
    assert_eq!(event.session_properties.get("session_start"), Some(&"1704067200000".to_string()));
}

#[test]
fn test_transform_params_project_properties() {
    let mut params = ParamMap::new();
    params.insert("event".to_string(), "pageview".to_string());
    params.insert("p_version".to_string(), "1.0.0".to_string());
    params.insert("p_environment".to_string(), "production".to_string());

    let event = transform_params(params);

    assert_eq!(event.project_properties.get("version"), Some(&"1.0.0".to_string()));
    assert_eq!(event.project_properties.get("environment"), Some(&"production".to_string()));
}

#[test]
fn test_transform_params_all_prefixes() {
    let mut params = ParamMap::new();
    params.insert("project".to_string(), "my-project".to_string());
    params.insert("event".to_string(), "click".to_string());
    params.insert("id".to_string(), "evt_123".to_string());
    params.insert("timestamp".to_string(), "1704067200000".to_string());
    params.insert("cookie".to_string(), "user_xyz".to_string());
    params.insert("url".to_string(), "https://example.com".to_string());
    params.insert("e_button_text".to_string(), "Click Me".to_string());
    params.insert("u_email".to_string(), "user@example.com".to_string());
    params.insert("s_session_id".to_string(), "sess_abc".to_string());
    params.insert("p_version".to_string(), "1.0.0".to_string());

    let event = transform_params(params);

    // Verify standard fields
    assert_eq!(event.project, Some("my-project".to_string()));
    assert_eq!(event.event, "click");
    assert_eq!(event.id, Some("evt_123".to_string()));
    assert_eq!(event.timestamp, 1704067200000);

    // Verify visit fields
    assert_eq!(event.visit.cookie, Some("user_xyz".to_string()));
    assert_eq!(event.visit.url, Some("https://example.com".to_string()));

    // Verify event params
    assert!(event.event_param.is_some());
    assert_eq!(event.event_param.unwrap().params.get("button_text"), Some(&"Click Me".to_string()));

    // Verify profile
    assert!(event.profile.is_some());
    assert_eq!(event.profile.unwrap().properties.get("email"), Some(&"user@example.com".to_string()));

    // Verify session properties
    assert_eq!(event.session_properties.get("session_id"), Some(&"sess_abc".to_string()));

    // Verify project properties
    assert_eq!(event.project_properties.get("version"), Some(&"1.0.0".to_string()));
}

#[test]
fn test_transform_params_empty_event_params() {
    let mut params = ParamMap::new();
    params.insert("event".to_string(), "pageview".to_string());
    params.insert("url".to_string(), "https://example.com".to_string());

    let event = transform_params(params);

    assert!(event.event_param.is_none());
}

#[test]
fn test_transform_params_empty_profile() {
    let mut params = ParamMap::new();
    params.insert("event".to_string(), "pageview".to_string());
    params.insert("url".to_string(), "https://example.com".to_string());

    let event = transform_params(params);

    assert!(event.profile.is_none());
}

#[test]
fn test_transform_params_default_event() {
    let params = ParamMap::new();

    let event = transform_params(params);

    assert_eq!(event.event, "unknown");
}

#[test]
fn test_transform_params_invalid_numeric_fields() {
    let mut params = ParamMap::new();
    params.insert("event".to_string(), "pageview".to_string());
    params.insert("timestamp".to_string(), "invalid".to_string());
    params.insert("duration".to_string(), "not_a_number".to_string());
    params.insert("scroll_depth".to_string(), "abc".to_string());

    let event = transform_params(params);

    // timestamp should use current time (we can't test exact value)
    assert!(event.timestamp > 0);

    // Invalid numeric fields should be None
    assert_eq!(event.visit.duration, None);
    assert_eq!(event.visit.scroll_depth, None);
}

#[test]
fn test_transform_params_enriched_fields_initially_none() {
    let mut params = ParamMap::new();
    params.insert("event".to_string(), "pageview".to_string());

    let event = transform_params(params);

    // All enriched fields should be None initially
    assert_eq!(event.browser, None);
    assert_eq!(event.browser_version, None);
    assert_eq!(event.os, None);
    assert_eq!(event.os_version, None);
    assert_eq!(event.device, None);
    assert_eq!(event.country, None);
    assert_eq!(event.region, None);
    assert_eq!(event.city, None);
    assert_eq!(event.latitude, None);
    assert_eq!(event.longitude, None);
}

#[test]
fn test_e2e_transformation_pipeline() {
    // Test the transformation pipeline without HTTP layer
    // This verifies: parameter extraction → transformation → structure

    let mut params = ParamMap::new();
    params.insert("project".to_string(), "test-project".to_string());
    params.insert("event".to_string(), "pageview".to_string());
    params.insert("timestamp".to_string(), "1704067200000".to_string());
    params.insert("cookie".to_string(), "user_xyz".to_string());
    params.insert("url".to_string(), "https://example.com/page".to_string());
    params.insert("title".to_string(), "Test Page".to_string());
    params.insert("e_button".to_string(), "click".to_string());
    params.insert("u_email".to_string(), "test@example.com".to_string());
    params.insert("s_session_id".to_string(), "sess_123".to_string());
    params.insert("p_version".to_string(), "1.0.0".to_string());

    // Transform parameters
    let event = analytics_api::transformer::transform_params(params);

    // Verify root fields
    assert_eq!(event.project, Some("test-project".to_string()));
    assert_eq!(event.event, "pageview");
    assert_eq!(event.timestamp, 1704067200000);

    // Verify visit object
    assert_eq!(event.visit.cookie, Some("user_xyz".to_string()));
    assert_eq!(event.visit.url, Some("https://example.com/page".to_string()));
    assert_eq!(event.visit.title, Some("Test Page".to_string()));

    // Verify event_param object (e_* prefix removed)
    assert!(event.event_param.is_some());
    let event_params = event.event_param.as_ref().unwrap();
    assert_eq!(event_params.params.get("button"), Some(&"click".to_string()));

    // Verify profile object (u_* prefix removed)
    assert!(event.profile.is_some());
    let profile = event.profile.as_ref().unwrap();
    assert_eq!(profile.properties.get("email"), Some(&"test@example.com".to_string()));

    // Verify session properties (s_* prefix removed)
    assert_eq!(event.session_properties.get("session_id"), Some(&"sess_123".to_string()));

    // Verify project properties (p_* prefix removed)
    assert_eq!(event.project_properties.get("version"), Some(&"1.0.0".to_string()));
}

#[test]
fn test_e2e_all_prefix_types() {
    // Test that all prefix types (e_*, u_*, s_*, p_*) are handled correctly

    let mut params = ParamMap::new();
    params.insert("project".to_string(), "test-project".to_string());
    params.insert("event".to_string(), "test".to_string());
    params.insert("timestamp".to_string(), "1704067200000".to_string());
    params.insert("e_event_prop".to_string(), "event_val".to_string());
    params.insert("u_user_prop".to_string(), "user_val".to_string());
    params.insert("s_session_prop".to_string(), "session_val".to_string());
    params.insert("p_project_prop".to_string(), "project_val".to_string());

    let event = analytics_api::transformer::transform_params(params);

    // Verify e_* in event_param
    assert_eq!(event.event_param.as_ref().unwrap().params.get("event_prop"), Some(&"event_val".to_string()));

    // Verify u_* in profile
    assert_eq!(event.profile.as_ref().unwrap().properties.get("user_prop"), Some(&"user_val".to_string()));

    // Verify s_* at root level
    assert_eq!(event.session_properties.get("session_prop"), Some(&"session_val".to_string()));

    // Verify p_* at root level
    assert_eq!(event.project_properties.get("project_prop"), Some(&"project_val".to_string()));
}


fn map_of(pairs: &[(&str, &str)]) -> ParamMap {
    let mut m = ParamMap::new();
    for (k, v) in pairs {
        m.insert(k.to_string(), v.to_string());
    }
    m
}

#[test]
fn end_to_end_scenario() {
    let params = map_of(&[
        ("project", "p"),
        ("event", "click"),
        ("timestamp", "1704067200000"),
        ("e_btn", "go"),
        ("u_email", "a@b.com"),
        ("s_sid", "s1"),
        ("p_ver", "1.0"),
    ]);
    let event = transform_params(params);
    assert_eq!(event.project, Some("p".to_string()));
    assert_eq!(event.event, "click");
    assert_eq!(event.timestamp, 1704067200000);
    let ep = event.event_param.unwrap().params;
    assert_eq!(ep.len(), 1);
    assert_eq!(ep.get("btn"), Some(&"go".to_string()));
    let profile = event.profile.unwrap().properties;
    assert_eq!(profile.len(), 1);
    assert_eq!(profile.get("email"), Some(&"a@b.com".to_string()));
    assert_eq!(event.session_properties.len(), 1);
    assert_eq!(event.session_properties.get("sid"), Some(&"s1".to_string()));
    assert_eq!(event.project_properties.len(), 1);
    assert_eq!(event.project_properties.get("ver"), Some(&"1.0".to_string()));
}

#[test]
fn transform_twice_gives_equal_events() {
    let params = map_of(&[("event", "click"), ("timestamp", "42"), ("e_a", "1"), ("url", "u")]);
    let a = transform_params(params.clone());
    let b = transform_params(params);
    assert_eq!(a.event, b.event);
    assert_eq!(a.timestamp, b.timestamp);
    assert_eq!(a.visit.url, b.visit.url);
    assert_eq!(a.event_param.unwrap().params.to_pairs(), b.event_param.unwrap().params.to_pairs());
}

#[test]
fn event_prefixed_key_goes_only_to_event_params() {
    let params = map_of(&[("e_x", "v")]);
    let event = transform_params_at(&params, 7);
    assert_eq!(event.event_param.unwrap().params.get("x"), Some(&"v".to_string()));
    assert!(event.profile.is_none());
    assert_eq!(event.session_properties.len(), 0);
    assert_eq!(event.project_properties.len(), 0);
}

#[test]
fn missing_timestamp_uses_given_clock_reading() {
    let event = transform_params_at(&map_of(&[("timestamp", "soon")]), 1234);
    assert_eq!(event.timestamp, 1234);
    assert_eq!(event.visit.timestamp, None);
    assert_eq!(event.event, "unknown");
}

#[test]
fn visit_timestamp_follows_the_parameter() {
    let event = transform_params_at(&map_of(&[("timestamp", "-5")]), 1234);
    assert_eq!(event.timestamp, -5);
    assert_eq!(event.visit.timestamp, Some(-5));
}

#[test]
fn unprefixed_unknown_keys_are_dropped() {
    let event = transform_params_at(&map_of(&[("x_y", "1"), ("e", "2"), ("u", "3")]), 0);
    assert!(event.event_param.is_none());
    assert!(event.profile.is_none());
    assert_eq!(event.session_properties.len(), 0);
    assert_eq!(event.project_properties.len(), 0);
}

#[test]
fn scroll_depth_beyond_i32_is_absent() {
    let event = transform_params_at(&map_of(&[("scroll_depth", "2147483648"), ("duration", "2147483648")]), 0);
    assert_eq!(event.visit.scroll_depth, None);
    assert_eq!(event.visit.duration, Some(2147483648));
}

#[test]
fn decimal_parsing_follows_signed_integer_grammar() {
    assert_eq!(parse_i64("1704067200000"), Some(1704067200000));
    assert_eq!(parse_i64("+17"), Some(17));
    assert_eq!(parse_i64("-17"), Some(-17));
    assert_eq!(parse_i64("9223372036854775807"), Some(i64::MAX));
    assert_eq!(parse_i64("-9223372036854775808"), Some(i64::MIN));
    assert_eq!(parse_i64("9223372036854775808"), None);
    assert_eq!(parse_i64(""), None);
    assert_eq!(parse_i64("-"), None);
    assert_eq!(parse_i64("+"), None);
    assert_eq!(parse_i64(" 1"), None);
    assert_eq!(parse_i64("1.5"), None);
    assert_eq!(parse_i64("12a"), None);
    assert_eq!(parse_i32("-2147483648"), Some(i32::MIN));
    assert_eq!(parse_i32("2147483648"), None);
    assert_eq!(parse_i32("75"), Some(75));
}

#[test]
fn pairs_list_every_key_once() {
    let params = map_of(&[("a", "1"), ("b", "2"), ("a", "3")]);
    let mut pairs = params.to_pairs();
    pairs.sort();
    assert_eq!(pairs, vec![("a".to_string(), "3".to_string()), ("b".to_string(), "2".to_string())]);
}
