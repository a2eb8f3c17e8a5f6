//! Browser, operating system and device classification of a User-Agent header.
use vstd::prelude::*;
use crate::text::{is_blank, text_eq, text_is_blank};
use crate::transformer::opt_view;

verus! {

/// What the woothee parser reports for an agent string: browser name and
/// version, operating system and its version, and category, in that order.
pub uninterp spec fn woothee_report_of(agent: Seq<char>) -> Option<
    (Seq<char>, Seq<char>, Seq<char>, Seq<char>, Seq<char>),
>;

/// The fields of a woothee report, as owned strings.
pub struct AgentReport {
    pub name: String,
    pub version: String,
    pub os: String,
    pub os_version: String,
    pub category: String,
}

impl AgentReport {
    pub open spec fn model(&self) -> (Seq<char>, Seq<char>, Seq<char>, Seq<char>, Seq<char>) {
        (self.name@, self.version@, self.os@, self.os_version@, self.category@)
    }
}

/// Relies on `woothee::parser::Parser::parse`: the report for `agent`, which
/// depends on the agent string alone; `None` where woothee recognises nothing.
#[verifier::external_body]
fn woothee_report(agent: &str) -> (r: Option<AgentReport>)
    ensures
        r matches Some(f) ==> woothee_report_of(agent@) == Some(f.model()),
        r is None ==> woothee_report_of(agent@) is None,
{
    woothee::parser::Parser::new().parse(agent).map(
        |w| AgentReport {
            name: w.name.to_string(),
            version: w.version.to_string(),
            os: w.os.to_string(),
            os_version: w.os_version.to_string(),
            category: w.category.to_string(),
        },
    )
}

/// Information extracted from a User-Agent header.
#[derive(Clone, Debug, PartialEq)]
pub struct UserAgentInfo {
    pub browser: Option<String>,
    pub browser_version: Option<String>,
    pub os: Option<String>,
    pub os_version: Option<String>,
    /// "Desktop", "Mobile", "Tablet", or nothing when unknown.
    pub device: Option<String>,
}

/// Mathematical content of a [`UserAgentInfo`].
pub struct UserAgentModel {
    pub browser: Option<Seq<char>>,
    pub browser_version: Option<Seq<char>>,
    pub os: Option<Seq<char>>,
    pub os_version: Option<Seq<char>>,
    pub device: Option<Seq<char>>,
}

impl View for UserAgentInfo {
    type V = UserAgentModel;

    open spec fn view(&self) -> UserAgentModel {
        UserAgentModel {
            browser: opt_view(self.browser),
            browser_version: opt_view(self.browser_version),
            os: opt_view(self.os),
            os_version: opt_view(self.os_version),
            device: opt_view(self.device),
        }
    }
}

pub open spec fn no_agent_info() -> UserAgentModel {
    UserAgentModel { browser: None, browser_version: None, os: None, os_version: None, device: None }
}

/// A report field, or nothing when it is empty.
pub open spec fn unless_blank_field(s: Seq<char>) -> Option<Seq<char>> {
    if s.len() == 0 {
        None
    } else {
        Some(s)
    }
}

/// The device class of a woothee category.
pub open spec fn device_class(category: Seq<char>) -> Option<Seq<char>> {
    if category == "pc"@ {
        Some("Desktop"@)
    } else if category == "smartphone"@ || category == "mobilephone"@ || category
        == "appliance"@ {
        Some("Mobile"@)
    } else if category == "tablet"@ {
        Some("Tablet"@)
    } else {
        None
    }
}

/// The information that a woothee report gives.
pub open spec fn info_model(
    report: Option<(Seq<char>, Seq<char>, Seq<char>, Seq<char>, Seq<char>)>,
) -> UserAgentModel {
    match report {
        Some((name, version, os, os_version, category)) => UserAgentModel {
            browser: unless_blank_field(name),
            browser_version: unless_blank_field(version),
            os: unless_blank_field(os),
            os_version: unless_blank_field(os_version),
            device: device_class(category),
        },
        None => no_agent_info(),
    }
}

/// The information for an agent string: nothing for a blank one, else what
/// the woothee report gives.
pub open spec fn agent_info_model(agent: Seq<char>) -> UserAgentModel {
    if is_blank(agent) {
        no_agent_info()
    } else {
        info_model(woothee_report_of(agent))
    }
}

fn field_unless_empty(s: &String) -> (r: Option<String>)
    ensures
        opt_view(r) == unless_blank_field(s@),
{
    if s.as_str().is_empty() {
        None
    } else {
        Some(s.clone())
    }
}

/// The device class of a woothee category.
pub fn classify_device(category: &str) -> (r: Option<String>)
    ensures
        opt_view(r) == device_class(category@),
{
    if text_eq(category, "pc") {
        Some("Desktop".to_string())
    } else if text_eq(category, "smartphone") || text_eq(category, "mobilephone") || text_eq(
        category,
        "appliance",
    ) {
        Some("Mobile".to_string())
    } else if text_eq(category, "tablet") {
        Some("Tablet".to_string())
    } else {
        None
    }
}

/// The information that a woothee report gives; all absent without one.
pub fn info_from_report(report: Option<&AgentReport>) -> (r: UserAgentInfo)
    ensures
        r@ == info_model(
            match report {
                Some(f) => Some(f.model()),
                None => None,
            },
        ),
{
    match report {
        Some(f) => UserAgentInfo {
            browser: field_unless_empty(&f.name),
            browser_version: field_unless_empty(&f.version),
            os: field_unless_empty(&f.os),
            os_version: field_unless_empty(&f.os_version),
            device: classify_device(f.category.as_str()),
        },
        None => UserAgentInfo {
            browser: None,
            browser_version: None,
            os: None,
            os_version: None,
            device: None,
        },
    }
}

/// Parses a User-Agent header: all fields absent for an empty or blank one
/// or one that woothee does not recognise.
pub fn parse_user_agent(agent: &str) -> (r: UserAgentInfo)
    ensures
        r@ == agent_info_model(agent@),
{
    if text_is_blank(agent) {
        return UserAgentInfo {
            browser: None,
            browser_version: None,
            os: None,
            os_version: None,
            device: None,
        };
    }
    let report = woothee_report(agent);
    match report {
        Some(f) => info_from_report(Some(&f)),
        None => info_from_report(None),
    }
}

/// The shape of the information for any agent string: the device is one of
/// the three classes or absent, every present field is non-empty, and a blank
/// or unrecognised agent gives all fields absent.
pub proof fn lemma_agent_info_shape(agent: Seq<char>)
    ensures
        ({
            let m = agent_info_model(agent);
            &&& (m.device is None || m.device == Some("Desktop"@) || m.device == Some("Mobile"@)
                || m.device == Some("Tablet"@))
            &&& (m.browser matches Some(b) ==> b.len() > 0)
            &&& (m.browser_version matches Some(v) ==> v.len() > 0)
            &&& (m.os matches Some(o) ==> o.len() > 0)
            &&& (m.os_version matches Some(v) ==> v.len() > 0)
            &&& (m.device matches Some(d) ==> d.len() > 0)
            &&& (is_blank(agent) || woothee_report_of(agent) is None ==> m == no_agent_info())
        }),
{
    reveal_strlit("Desktop");
    reveal_strlit("Mobile");
    reveal_strlit("Tablet");
}

/// The device class that a woothee category gives: `pc` is a desktop,
/// `smartphone`, `mobilephone` and `appliance` are mobile, `tablet` is a tablet.
pub proof fn lemma_device_classes()
    ensures
        device_class("pc"@) == Some("Desktop"@),
        device_class("smartphone"@) == Some("Mobile"@),
        device_class("mobilephone"@) == Some("Mobile"@),
        device_class("appliance"@) == Some("Mobile"@),
        device_class("tablet"@) == Some("Tablet"@),
        device_class("crawler"@) is None,
{
    reveal_strlit("pc");
    reveal_strlit("smartphone");
    reveal_strlit("mobilephone");
    reveal_strlit("appliance");
    reveal_strlit("tablet");
    reveal_strlit("crawler");
    assert("pc"@.len() == 2 && "tablet"@.len() == 6 && "crawler"@.len() == 7);
    assert("appliance"@.len() == 9 && "smartphone"@.len() == 10 && "mobilephone"@.len() == 11);
}

/// A User-Agent parsing capability.
pub trait UserAgentParser {
    /// Browser, OS and device information of `user_agent`; fields are absent
    /// where the header does not tell them.
    fn parse(&self, user_agent: &str) -> UserAgentInfo;
}

/// User-Agent parser backed by woothee.
#[derive(Clone, Copy, Debug)]
pub struct WootheeParser;

impl WootheeParser {
    pub fn new() -> (r: WootheeParser) {
        WootheeParser
    }
}

impl Default for WootheeParser {
    fn default() -> (r: WootheeParser) {
        WootheeParser
    }
}

impl UserAgentParser for WootheeParser {
    fn parse(&self, user_agent: &str) -> (r: UserAgentInfo)
        ensures
            r@ == agent_info_model(user_agent@),
    {
        parse_user_agent(user_agent)
    }
}

} // verus!
