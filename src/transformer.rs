//! Transformation of flat request parameters into a structured event.
use vstd::prelude::*;
use crate::geoip::Coordinate;
use crate::number::{decimal_in_range, parse_i32, parse_i64};
use crate::params::{under_prefix, ParamMap};

verus! {

/// The view of an optional string.
pub open spec fn opt_view(o: Option<String>) -> Option<Seq<char>> {
    match o {
        Some(s) => Some(s@),
        None => None,
    }
}

/// The value under `k`, if any.
pub open spec fn lookup(p: Map<Seq<char>, Seq<char>>, k: Seq<char>) -> Option<Seq<char>> {
    if p.contains_key(k) {
        Some(p[k])
    } else {
        None
    }
}

/// The value under `k` read as a decimal within `[lo, hi]`; absent when the
/// key is missing or its value is not such a decimal.
pub open spec fn lookup_number(p: Map<Seq<char>, Seq<char>>, k: Seq<char>, lo: int, hi: int) -> Option<
    int,
> {
    if p.contains_key(k) {
        decimal_in_range(p[k], lo, hi)
    } else {
        None
    }
}

/// The timestamp that the parameters carry, when it is a decimal that fits `i64`.
pub open spec fn given_timestamp(p: Map<Seq<char>, Seq<char>>) -> Option<int> {
    lookup_number(p, "timestamp"@, i64::MIN as int, i64::MAX as int)
}

/// `m`, or nothing when it is empty.
pub open spec fn unless_empty(m: Map<Seq<char>, Seq<char>>) -> Option<Map<Seq<char>, Seq<char>>> {
    if m == Map::<Seq<char>, Seq<char>>::empty() {
        None
    } else {
        Some(m)
    }
}

pub open spec fn opt_i64(o: Option<int>) -> Option<i64> {
    match o {
        Some(v) => Some(v as i64),
        None => None,
    }
}

pub open spec fn opt_i32(o: Option<int>) -> Option<i32> {
    match o {
        Some(v) => Some(v as i32),
        None => None,
    }
}

/// Page and session data of a visit.
#[derive(Clone, Debug)]
pub struct VisitObject {
    pub cookie: Option<String>,
    pub timestamp: Option<i64>,
    pub url: Option<String>,
    pub title: Option<String>,
    pub domain: Option<String>,
    pub uri: Option<String>,
    pub duration: Option<i64>,
    pub scroll_depth: Option<i32>,
    pub screen: Option<String>,
    pub language: Option<String>,
    pub referer: Option<String>,
    pub app: Option<String>,
}

/// Mathematical content of a [`VisitObject`].
pub struct VisitModel {
    pub cookie: Option<Seq<char>>,
    pub timestamp: Option<i64>,
    pub url: Option<Seq<char>>,
    pub title: Option<Seq<char>>,
    pub domain: Option<Seq<char>>,
    pub uri: Option<Seq<char>>,
    pub duration: Option<i64>,
    pub scroll_depth: Option<i32>,
    pub screen: Option<Seq<char>>,
    pub language: Option<Seq<char>>,
    pub referer: Option<Seq<char>>,
    pub app: Option<Seq<char>>,
}

impl View for VisitObject {
    type V = VisitModel;

    open spec fn view(&self) -> VisitModel {
        VisitModel {
            cookie: opt_view(self.cookie),
            timestamp: self.timestamp,
            url: opt_view(self.url),
            title: opt_view(self.title),
            domain: opt_view(self.domain),
            uri: opt_view(self.uri),
            duration: self.duration,
            scroll_depth: self.scroll_depth,
            screen: opt_view(self.screen),
            language: opt_view(self.language),
            referer: opt_view(self.referer),
            app: opt_view(self.app),
        }
    }
}

/// Event-specific parameters (`e_` keys without their prefix).
pub struct EventParamObject {
    pub params: ParamMap,
}

/// User profile properties (`u_` keys without their prefix).
pub struct ProfileObject {
    pub properties: ParamMap,
}

/// The structured event built from one request.
pub struct AnalyticsEvent {
    pub project: Option<String>,
    pub event: String,
    pub id: Option<String>,
    pub timestamp: i64,
    /// `s_` keys without their prefix; placed at the root when serialized.
    pub session_properties: ParamMap,
    /// `p_` keys without their prefix; placed at the root when serialized.
    pub project_properties: ParamMap,
    pub visit: VisitObject,
    pub event_param: Option<EventParamObject>,
    pub profile: Option<ProfileObject>,
    pub browser: Option<String>,
    pub browser_version: Option<String>,
    pub os: Option<String>,
    pub os_version: Option<String>,
    pub device: Option<String>,
    pub country: Option<String>,
    pub region: Option<String>,
    pub city: Option<String>,
    pub latitude: Option<Coordinate>,
    pub longitude: Option<Coordinate>,
}

/// Mathematical content of an [`AnalyticsEvent`].
pub struct EventModel {
    pub project: Option<Seq<char>>,
    pub event: Seq<char>,
    pub id: Option<Seq<char>>,
    pub timestamp: i64,
    pub session_properties: Map<Seq<char>, Seq<char>>,
    pub project_properties: Map<Seq<char>, Seq<char>>,
    pub visit: VisitModel,
    pub event_param: Option<Map<Seq<char>, Seq<char>>>,
    pub profile: Option<Map<Seq<char>, Seq<char>>>,
    pub browser: Option<Seq<char>>,
    pub browser_version: Option<Seq<char>>,
    pub os: Option<Seq<char>>,
    pub os_version: Option<Seq<char>>,
    pub device: Option<Seq<char>>,
    pub country: Option<Seq<char>>,
    pub region: Option<Seq<char>>,
    pub city: Option<Seq<char>>,
    pub latitude: Option<Coordinate>,
    pub longitude: Option<Coordinate>,
}

impl View for AnalyticsEvent {
    type V = EventModel;

    open spec fn view(&self) -> EventModel {
        EventModel {
            project: opt_view(self.project),
            event: self.event@,
            id: opt_view(self.id),
            timestamp: self.timestamp,
            session_properties: self.session_properties@,
            project_properties: self.project_properties@,
            visit: self.visit@,
            event_param: match self.event_param {
                Some(o) => Some(o.params@),
                None => None,
            },
            profile: match self.profile {
                Some(o) => Some(o.properties@),
                None => None,
            },
            browser: opt_view(self.browser),
            browser_version: opt_view(self.browser_version),
            os: opt_view(self.os),
            os_version: opt_view(self.os_version),
            device: opt_view(self.device),
            country: opt_view(self.country),
            region: opt_view(self.region),
            city: opt_view(self.city),
            latitude: self.latitude,
            longitude: self.longitude,
        }
    }
}

impl AnalyticsEvent {
    /// Every property map of the event is well formed.
    pub open spec fn wf(&self) -> bool {
        &&& self.session_properties.wf()
        &&& self.project_properties.wf()
        &&& (self.event_param matches Some(o) ==> o.params.wf())
        &&& (self.profile matches Some(o) ==> o.properties.wf())
    }
}

/// The visit object that the parameters describe.
pub open spec fn visit_model(p: Map<Seq<char>, Seq<char>>) -> VisitModel {
    VisitModel {
        cookie: lookup(p, "cookie"@),
        timestamp: opt_i64(given_timestamp(p)),
        url: lookup(p, "url"@),
        title: lookup(p, "title"@),
        domain: lookup(p, "domain"@),
        uri: lookup(p, "uri"@),
        duration: opt_i64(lookup_number(p, "duration"@, i64::MIN as int, i64::MAX as int)),
        scroll_depth: opt_i32(lookup_number(p, "scroll_depth"@, i32::MIN as int, i32::MAX as int)),
        screen: lookup(p, "screen"@),
        language: lookup(p, "language"@),
        referer: lookup(p, "referer"@),
        app: lookup(p, "app"@),
    }
}

/// The event that the parameters describe, with `now` standing for the
/// current time where the parameters carry no usable timestamp.
pub open spec fn transform_model(p: Map<Seq<char>, Seq<char>>, now: i64) -> EventModel {
    EventModel {
        project: lookup(p, "project"@),
        event: match lookup(p, "event"@) {
            Some(e) => e,
            None => "unknown"@,
        },
        id: lookup(p, "id"@),
        timestamp: match given_timestamp(p) {
            Some(t) => t as i64,
            None => now,
        },
        session_properties: under_prefix(p, "s_"@),
        project_properties: under_prefix(p, "p_"@),
        visit: visit_model(p),
        event_param: unless_empty(under_prefix(p, "e_"@)),
        profile: unless_empty(under_prefix(p, "u_"@)),
        browser: None,
        browser_version: None,
        os: None,
        os_version: None,
        device: None,
        country: None,
        region: None,
        city: None,
        latitude: None,
        longitude: None,
    }
}

fn text_param(params: &ParamMap, k: &str) -> (r: Option<String>)
    requires
        params.wf(),
    ensures
        opt_view(r) == lookup(params@, k@),
{
    match params.get(k) {
        Some(v) => Some(v.clone()),
        None => None,
    }
}

fn i64_param(params: &ParamMap, k: &str) -> (r: Option<i64>)
    requires
        params.wf(),
    ensures
        r == opt_i64(lookup_number(params@, k@, i64::MIN as int, i64::MAX as int)),
{
    match params.get(k) {
        Some(v) => parse_i64(v.as_str()),
        None => None,
    }
}

fn i32_param(params: &ParamMap, k: &str) -> (r: Option<i32>)
    requires
        params.wf(),
    ensures
        r == opt_i32(lookup_number(params@, k@, i32::MIN as int, i32::MAX as int)),
{
    match params.get(k) {
        Some(v) => parse_i32(v.as_str()),
        None => None,
    }
}

/// `m`, or nothing when it is empty.
fn unless_empty_map(m: ParamMap) -> (r: Option<ParamMap>)
    requires
        m.wf(),
    ensures
        r matches Some(x) ==> x.wf() && unless_empty(m@) == Some(x@),
        r is None ==> unless_empty(m@) is None,
{
    if m.len() == 0 {
        proof {
            m@.dom().lemma_len0_is_empty();
            assert(m@ =~= Map::<Seq<char>, Seq<char>>::empty());
        }
        None
    } else {
        proof {
            if m@ == Map::<Seq<char>, Seq<char>>::empty() {
                assert(m@.dom() =~= Set::<Seq<char>>::empty());
            }
        }
        Some(m)
    }
}

/// Builds the event that `params` describe; `now_millis` is the timestamp
/// used when `params` carry none that parses.
pub fn transform_params_at(params: &ParamMap, now_millis: i64) -> (r: AnalyticsEvent)
    requires
        params.wf(),
    ensures
        r.wf(),
        r@ == transform_model(params@, now_millis),
{
    let project = text_param(params, "project");
    let event = match params.get("event") {
        Some(e) => e.clone(),
        None => "unknown".to_string(),
    };
    let id = text_param(params, "id");
    let given = i64_param(params, "timestamp");
    let timestamp = match given {
        Some(t) => t,
        None => now_millis,
    };
    let visit = VisitObject {
        cookie: text_param(params, "cookie"),
        timestamp: given,
        url: text_param(params, "url"),
        title: text_param(params, "title"),
        domain: text_param(params, "domain"),
        uri: text_param(params, "uri"),
        duration: i64_param(params, "duration"),
        scroll_depth: i32_param(params, "scroll_depth"),
        screen: text_param(params, "screen"),
        language: text_param(params, "language"),
        referer: text_param(params, "referer"),
        app: text_param(params, "app"),
    };
    let event_param = match unless_empty_map(params.strip_prefixed("e_")) {
        Some(m) => Some(EventParamObject { params: m }),
        None => None,
    };
    let profile = match unless_empty_map(params.strip_prefixed("u_")) {
        Some(m) => Some(ProfileObject { properties: m }),
        None => None,
    };
    let session_properties = params.strip_prefixed("s_");
    let project_properties = params.strip_prefixed("p_");
    let r = AnalyticsEvent {
        project,
        event,
        id,
        timestamp,
        session_properties,
        project_properties,
        visit,
        event_param,
        profile,
        browser: None,
        browser_version: None,
        os: None,
        os_version: None,
        device: None,
        country: None,
        region: None,
        city: None,
        latitude: None,
        longitude: None,
    };
    r
}

/// Relies on `chrono::Utc::now` and `DateTime::timestamp_millis`: the current
/// wall-clock time in milliseconds since the Unix epoch. Nothing is promised of
/// the value.
#[verifier::external_body]
fn current_time_millis() -> (r: i64) {
    chrono::Utc::now().timestamp_millis()
}

/// Builds the event that `params` describe, reading the clock only when the
/// parameters carry no timestamp that parses.
pub fn transform_params(params: ParamMap) -> (r: AnalyticsEvent)
    requires
        params.wf(),
    ensures
        r.wf(),
        r@ == transform_model(params@, r.timestamp),
        given_timestamp(params@) matches Some(t) ==> r.timestamp == t,
{
    let now = match i64_param(&params, "timestamp") {
        Some(t) => t,
        None => current_time_millis(),
    };
    transform_params_at(&params, now)
}

/// Transformation is a pure function of the parameters and the clock reading:
/// two results for the same parameters differ at most in the timestamp, and
/// not even there when the parameters carry a timestamp that parses.
pub proof fn lemma_transform_pure(p: Map<Seq<char>, Seq<char>>, now1: i64, now2: i64)
    ensures
        transform_model(p, now1) == (EventModel {
            timestamp: transform_model(p, now1).timestamp,
            ..transform_model(p, now2)
        }),
        given_timestamp(p) is Some ==> transform_model(p, now1) == transform_model(p, now2),
{
}

/// A key `e_x` feeds the event parameters, under `x`, and nothing else among
/// the prefixed maps: removing it leaves the profile, the session properties
/// and the project properties as they are.
pub proof fn lemma_event_prefix_exclusive(p: Map<Seq<char>, Seq<char>>, now: i64, x: Seq<char>)
    requires
        p.contains_key("e_"@ + x),
    ensures
        transform_model(p, now).event_param matches Some(m) && m.contains_key(x) && m[x] == p["e_"@
            + x],
        transform_model(p.remove("e_"@ + x), now).profile == transform_model(p, now).profile,
        transform_model(p.remove("e_"@ + x), now).session_properties == transform_model(
            p,
            now,
        ).session_properties,
        transform_model(p.remove("e_"@ + x), now).project_properties == transform_model(
            p,
            now,
        ).project_properties,
{
    reveal_strlit("e_");
    reveal_strlit("u_");
    reveal_strlit("s_");
    reveal_strlit("p_");
    let k = "e_"@ + x;
    let q = p.remove(k);
    assert(k[0] == 'e');
    assert(under_prefix(p, "e_"@).contains_key(x));
    assert(under_prefix(p, "e_"@) != Map::<Seq<char>, Seq<char>>::empty());
    assert forall|pre: Seq<char>, j: Seq<char>| pre.len() == 2 && pre[0] != 'e' implies pre + j
        != k by {
        assert((pre + j)[0] == pre[0]);
    }
    assert(under_prefix(q, "u_"@) =~= under_prefix(p, "u_"@));
    assert(under_prefix(q, "s_"@) =~= under_prefix(p, "s_"@));
    assert(under_prefix(q, "p_"@) =~= under_prefix(p, "p_"@));
}

} // verus!
