//! Per-request flow: merging the request's parameters, validating them per
//! endpoint, building and enriching the event, and the error responses.
use vstd::prelude::*;
use crate::geoip::{GeoIpError, GeoLocation};
use crate::params::ParamMap;
use crate::streaming::{streaming_error_text, StreamingError};
use crate::text::is_prefix_of;
use crate::transformer::{given_timestamp, opt_view, transform_model, transform_params, AnalyticsEvent, EventModel};
use crate::user_agent::{UserAgentInfo, UserAgentModel};

verus! {

/// HTTP method of a request.
#[derive(Clone, Copy, Debug, PartialEq, Eq, Structural)]
pub enum RequestMethod {
    Get,
    Post,
    Put,
    Delete,
    Patch,
    Head,
    Options,
    Other,
}

/// The parameters of a request: for `POST` the query parameters overridden by
/// the form parameters, for any other method the query parameters alone.
pub open spec fn merged_model(
    method: RequestMethod,
    query: Map<Seq<char>, Seq<char>>,
    form: Map<Seq<char>, Seq<char>>,
) -> Map<Seq<char>, Seq<char>> {
    if method == RequestMethod::Post {
        query.union_prefer_right(form)
    } else {
        query
    }
}

/// Merges query and form parameters by the method's rule.
pub fn merge_params(method: RequestMethod, query_params: ParamMap, form_params: ParamMap) -> (r:
    ParamMap)
    requires
        query_params.wf(),
        form_params.wf(),
    ensures
        r.wf(),
        r@ == merged_model(method, query_params@, form_params@),
{
    match method {
        RequestMethod::Post => {
            let mut merged = query_params;
            merged.extend_from(&form_params);
            merged
        },
        _ => query_params,
    }
}

/// Form values win over query values in a `POST`; any other method keeps the
/// query values and ignores the form.
pub proof fn lemma_merge_precedence(
    method: RequestMethod,
    query: Map<Seq<char>, Seq<char>>,
    form: Map<Seq<char>, Seq<char>>,
    k: Seq<char>,
)
    ensures
        method == RequestMethod::Post && form.contains_key(k) ==> merged_model(
            method,
            query,
            form,
        ).contains_key(k) && merged_model(method, query, form)[k] == form[k],
        method == RequestMethod::Post && !form.contains_key(k) ==> (merged_model(
            method,
            query,
            form,
        ).contains_key(k) <==> query.contains_key(k)) && (query.contains_key(k) ==> merged_model(
            method,
            query,
            form,
        )[k] == query[k]),
        method != RequestMethod::Post ==> merged_model(method, query, form) == query,
{
}

/// The message for a missing required key.
pub open spec fn missing_message(key: Seq<char>) -> Seq<char> {
    "Missing required field: "@ + key
}

/// The message for an identify request without user properties.
pub const NO_USER_PROPERTY_MESSAGE: &'static str =
    "At least one user property (u_*) is required for identify events";

/// Some key of `p` starts with `u_`.
pub open spec fn has_user_property(p: Map<Seq<char>, Seq<char>>) -> bool {
    exists|k: Seq<char>| p.contains_key(k) && is_prefix_of("u_"@, k)
}

/// First violated rule of the track endpoint: `project`, `event`, `timestamp`.
pub open spec fn track_problem(p: Map<Seq<char>, Seq<char>>) -> Option<Seq<char>> {
    if !p.contains_key("project"@) {
        Some(missing_message("project"@))
    } else if !p.contains_key("event"@) {
        Some(missing_message("event"@))
    } else if !p.contains_key("timestamp"@) {
        Some(missing_message("timestamp"@))
    } else {
        None
    }
}

/// First violated rule of the identify endpoint: `project`, `timestamp`, then
/// at least one `u_` key.
pub open spec fn identify_problem(p: Map<Seq<char>, Seq<char>>) -> Option<Seq<char>> {
    if !p.contains_key("project"@) {
        Some(missing_message("project"@))
    } else if !p.contains_key("timestamp"@) {
        Some(missing_message("timestamp"@))
    } else if !has_user_property(p) {
        Some(NO_USER_PROPERTY_MESSAGE@)
    } else {
        None
    }
}

/// The rule of the update endpoint: `id`.
pub open spec fn update_problem(p: Map<Seq<char>, Seq<char>>) -> Option<Seq<char>> {
    if !p.contains_key("id"@) {
        Some(missing_message("id"@))
    } else {
        None
    }
}

fn missing(key: &str) -> (r: String)
    ensures
        r@ == missing_message(key@),
{
    let mut s = "Missing required field: ".to_string();
    s.append(key);
    s
}

/// Checks the keys that a track request needs.
pub fn validate_track_params(params: &ParamMap) -> (r: Result<(), String>)
    requires
        params.wf(),
    ensures
        r is Ok <==> track_problem(params@) is None,
        r matches Err(m) ==> track_problem(params@) == Some(m@),
{
    if !params.contains_key("project") {
        return Err(missing("project"));
    }
    if !params.contains_key("event") {
        return Err(missing("event"));
    }
    if !params.contains_key("timestamp") {
        return Err(missing("timestamp"));
    }
    Ok(())
}

/// Checks the keys that an identify request needs.
pub fn validate_identify_params(params: &ParamMap) -> (r: Result<(), String>)
    requires
        params.wf(),
    ensures
        r is Ok <==> identify_problem(params@) is None,
        r matches Err(m) ==> identify_problem(params@) == Some(m@),
{
    if !params.contains_key("project") {
        return Err(missing("project"));
    }
    if !params.contains_key("timestamp") {
        return Err(missing("timestamp"));
    }
    if !params.has_key_with_prefix("u_") {
        return Err(NO_USER_PROPERTY_MESSAGE.to_string());
    }
    Ok(())
}

/// Checks the key that an update request needs.
pub fn validate_update_params(params: &ParamMap) -> (r: Result<(), String>)
    requires
        params.wf(),
    ensures
        r is Ok <==> update_problem(params@) is None,
        r matches Err(m) ==> update_problem(params@) == Some(m@),
{
    if !params.contains_key("id") {
        return Err(missing("id"));
    }
    Ok(())
}

/// `p` with `event` set to `default` where `event` is absent; a present value,
/// even an empty one, is kept.
pub open spec fn with_default_event_model(p: Map<Seq<char>, Seq<char>>, default: Seq<char>) -> Map<
    Seq<char>,
    Seq<char>,
> {
    if p.contains_key("event"@) {
        p
    } else {
        p.insert("event"@, default)
    }
}

/// Sets `event` to `default_event` where the parameters carry none.
pub fn with_default_event(params: ParamMap, default_event: &str) -> (r: ParamMap)
    requires
        params.wf(),
    ensures
        r.wf(),
        r@ == with_default_event_model(params@, default_event@),
{
    let mut params = params;
    if !params.contains_key("event") {
        params.insert("event".to_string(), default_event.to_owned());
    }
    params
}

/// The event with the fields that the User-Agent gives.
pub open spec fn with_agent(m: EventModel, a: UserAgentModel) -> EventModel {
    EventModel {
        browser: a.browser,
        browser_version: a.browser_version,
        os: a.os,
        os_version: a.os_version,
        device: a.device,
        ..m
    }
}

/// The event with the fields that a location gives; unchanged without one.
pub open spec fn with_location(m: EventModel, loc: Option<GeoLocation>) -> EventModel {
    match loc {
        Some(g) => EventModel {
            country: opt_view(g.country),
            region: opt_view(g.region),
            city: opt_view(g.city),
            latitude: g.latitude,
            longitude: g.longitude,
            ..m
        },
        None => m,
    }
}

/// Copies browser, OS and device information into the event.
pub fn apply_user_agent(event: &mut AnalyticsEvent, info: UserAgentInfo)
    ensures
        final(event)@ == with_agent(old(event)@, info@),
        final(event).wf() == old(event).wf(),
{
    event.browser = info.browser;
    event.browser_version = info.browser_version;
    event.os = info.os;
    event.os_version = info.os_version;
    event.device = info.device;
}

/// Copies a location into the event; without one the event is unchanged.
pub fn apply_location(event: &mut AnalyticsEvent, location: Option<GeoLocation>)
    ensures
        final(event)@ == with_location(old(event)@, location),
        final(event).wf() == old(event).wf(),
{
    match location {
        Some(g) => {
            event.country = g.country;
            event.region = g.region;
            event.city = g.city;
            event.latitude = g.latitude;
            event.longitude = g.longitude;
        },
        None => {},
    }
}

/// The endpoints that accept events.
#[derive(Clone, Copy, Debug, PartialEq, Eq, Structural)]
pub enum Endpoint {
    Track,
    Identify,
    Update,
}

/// First violated rule of an endpoint, if any.
pub open spec fn endpoint_problem(endpoint: Endpoint, p: Map<Seq<char>, Seq<char>>) -> Option<
    Seq<char>,
> {
    match endpoint {
        Endpoint::Track => track_problem(p),
        Endpoint::Identify => identify_problem(p),
        Endpoint::Update => update_problem(p),
    }
}

/// The parameters that are transformed: identify and update requests get a
/// default `event` named after the endpoint.
pub open spec fn prepared_model(endpoint: Endpoint, p: Map<Seq<char>, Seq<char>>) -> Map<
    Seq<char>,
    Seq<char>,
> {
    match endpoint {
        Endpoint::Track => p,
        Endpoint::Identify => with_default_event_model(p, "identify"@),
        Endpoint::Update => with_default_event_model(p, "update"@),
    }
}

/// Checks the rules of `endpoint`; the error names the first rule broken.
pub fn validate_for(endpoint: Endpoint, params: &ParamMap) -> (r: Result<(), String>)
    requires
        params.wf(),
    ensures
        r is Ok <==> endpoint_problem(endpoint, params@) is None,
        r matches Err(m) ==> endpoint_problem(endpoint, params@) == Some(m@),
{
    match endpoint {
        Endpoint::Track => validate_track_params(params),
        Endpoint::Identify => validate_identify_params(params),
        Endpoint::Update => validate_update_params(params),
    }
}

/// Errors of a request, each with its response status.
#[derive(Debug)]
pub enum ApiError {
    /// The parameters break a rule of the endpoint (400).
    ValidationError(String),
    /// The backend did not take the event (500).
    StreamingError(StreamingError),
    /// The location database failed (500).
    GeoIpError(GeoIpError),
    /// Any other failure (500).
    InternalError(String),
}

impl ApiError {
    /// The HTTP status of the response.
    pub fn status_code(&self) -> (r: u16)
        ensures
            r == if self is ValidationError {
                400u16
            } else {
                500u16
            },
    {
        match self {
            ApiError::ValidationError(_) => 400,
            _ => 500,
        }
    }

    /// The text of the response's `error` field.
    pub fn message(&self) -> (r: String)
        ensures
            r@ == match self {
                ApiError::ValidationError(m) => m@,
                ApiError::StreamingError(e) => "Failed to send event to streaming service: "@
                    + streaming_error_text(*e),
                ApiError::GeoIpError(e) => "GeoIP lookup failed: "@ + match e {
                    GeoIpError::DatabaseError(m) => "Database error: "@ + m@,
                    GeoIpError::LookupError(m) => "Lookup error: "@ + m@,
                },
                ApiError::InternalError(m) => m@,
            },
    {
        match self {
            ApiError::ValidationError(m) => m.clone(),
            ApiError::StreamingError(e) => {
                let mut s = "Failed to send event to streaming service: ".to_string();
                let t = e.to_string();
                s.append(t.as_str());
                s
            },
            ApiError::GeoIpError(e) => {
                let mut s = "GeoIP lookup failed: ".to_string();
                let t = e.to_string();
                s.append(t.as_str());
                s
            },
            ApiError::InternalError(m) => m.clone(),
        }
    }
}

/// The event that a request to `endpoint` produces: validated, given its
/// default event name, transformed, then enriched with the User-Agent
/// information and, where the lookup is configured, the location.
pub fn build_event(
    endpoint: Endpoint,
    params: ParamMap,
    agent: UserAgentInfo,
    location: Option<GeoLocation>,
) -> (r: Result<AnalyticsEvent, ApiError>)
    requires
        params.wf(),
    ensures
        r is Err <==> endpoint_problem(endpoint, params@) is Some,
        r matches Err(e) ==> e matches ApiError::ValidationError(m) && endpoint_problem(
            endpoint,
            params@,
        ) == Some(m@),
        r matches Ok(ev) ==> ev.wf() && ev@ == with_location(
            with_agent(transform_model(prepared_model(endpoint, params@), ev.timestamp), agent@),
            location,
        ),
        r matches Ok(ev) ==> (given_timestamp(prepared_model(endpoint, params@)) matches Some(t)
            ==> ev.timestamp == t),
{
    match validate_for(endpoint, &params) {
        Err(m) => {
            return Err(ApiError::ValidationError(m));
        },
        Ok(()) => {},
    }
    let prepared = match endpoint {
        Endpoint::Track => params,
        Endpoint::Identify => with_default_event(params, "identify"),
        Endpoint::Update => with_default_event(params, "update"),
    };
    let mut event = transform_params(prepared);
    apply_user_agent(&mut event, agent);
    apply_location(&mut event, location);
    Ok(event)
}

} // verus!
