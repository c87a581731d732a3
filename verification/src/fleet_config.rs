//! The typed Fleet GitOps configuration that rules inspect.
//!
//! These are plain records; filling them from YAML text is the job of the
//! program around the library.
use vstd::prelude::*;

use crate::yaml::YamlValue;

verus! {

/// A Fleet GitOps configuration file.
#[derive(Debug)]
pub struct FleetConfig {
    pub name: Option<String>,
    pub policies: Option<Vec<PolicyOrPath>>,
    pub queries: Option<Vec<QueryOrPath>>,
    pub labels: Option<Vec<LabelOrPath>>,
    pub agent_options: Option<YamlValue>,
    pub webhook_settings: Option<WebhookSettings>,
    pub integrations: Option<YamlValue>,
    pub macos_settings: Option<YamlValue>,
    pub windows_settings: Option<YamlValue>,
    pub controls: Option<YamlValue>,
    pub software: Option<YamlValue>,
    /// Every other top-level entry.
    pub other: YamlValue,
}

impl Default for FleetConfig {
    fn default() -> (r: FleetConfig)
        ensures
            r.name is None,
            r.policies is None,
            r.queries is None,
            r.labels is None,
            r.agent_options is None,
            r.webhook_settings is None,
            r.integrations is None,
            r.macos_settings is None,
            r.windows_settings is None,
            r.controls is None,
            r.software is None,
            r.other is Null,
    {
        FleetConfig {
            name: None,
            policies: None,
            queries: None,
            labels: None,
            agent_options: None,
            webhook_settings: None,
            integrations: None,
            macos_settings: None,
            windows_settings: None,
            controls: None,
            software: None,
            other: YamlValue::Null,
        }
    }
}

/// A policy entry: a reference to another file, a glob of files, or inline.
#[derive(Debug)]
pub enum PolicyOrPath {
    Path { path: String },
    Paths { paths: String },
    Policy(Policy),
}

/// A query entry: a reference to another file, a glob of files, or inline.
#[derive(Debug)]
pub enum QueryOrPath {
    Path { path: String },
    Paths { paths: String },
    Query(Query),
}

/// A label entry: a reference to another file, a glob of files, or inline.
#[derive(Debug)]
pub enum LabelOrPath {
    Path { path: String },
    Paths { paths: String },
    Label(Label),
}

/// An inline policy.
#[derive(Debug)]
pub struct Policy {
    pub name: Option<String>,
    pub description: Option<String>,
    pub query: Option<String>,
    pub platform: Option<String>,
    pub critical: Option<bool>,
    pub resolution: Option<String>,
    pub team: Option<String>,
    pub calendar_events_enabled: Option<bool>,
    /// The `type` key.
    pub policy_type: Option<String>,
    pub fleet_maintained_app_slug: Option<String>,
    pub version: Option<String>,
    /// `true` for patch policies, or a mapping naming the package.
    pub install_software: Option<YamlValue>,
    pub run_script: Option<RunScript>,
}

/// The script run when a policy fails.
#[derive(Debug)]
pub struct RunScript {
    pub path: String,
}

/// An inline query (report).
#[derive(Debug)]
pub struct Query {
    pub name: Option<String>,
    pub description: Option<String>,
    pub query: Option<String>,
    pub interval: Option<i64>,
    pub platform: Option<String>,
    pub logging: Option<String>,
    pub min_osquery_version: Option<String>,
    pub observer_can_run: Option<bool>,
    pub automations_enabled: Option<bool>,
}

/// An inline label.
#[derive(Debug)]
pub struct Label {
    pub name: Option<String>,
    pub description: Option<String>,
    pub query: Option<String>,
    pub platform: Option<String>,
    pub label_membership_type: Option<String>,
    pub hosts: Option<Vec<String>>,
}

/// Organization webhook settings.
#[derive(Debug)]
pub struct WebhookSettings {
    pub url: Option<String>,
    pub enable_host_status_webhook: Option<bool>,
    pub enable_vulnerabilities_webhook: Option<bool>,
}

/// A software installer definition (a standalone library file).
#[derive(Debug)]
pub struct SoftwarePackage {
    pub url: Option<String>,
    pub self_service: Option<bool>,
    pub icon: Option<SoftwareAsset>,
    pub pre_install_query: Option<SoftwareAsset>,
    pub install_script: Option<SoftwareAsset>,
    pub post_install_script: Option<SoftwareAsset>,
    pub uninstall_script: Option<SoftwareAsset>,
    pub hash_sha256: Option<String>,
    pub other: Option<YamlValue>,
}

/// A reference to an asset file.
#[derive(Debug)]
pub struct SoftwareAsset {
    pub path: String,
}

/// An agent options library file.
#[derive(Debug)]
pub struct AgentOptionsLib {
    pub config: Option<YamlValue>,
    pub update_channels: Option<YamlValue>,
    pub other: Option<YamlValue>,
}

/// The empty configuration (every section absent).
pub open spec fn empty_config() -> FleetConfig {
    FleetConfig {
        name: None,
        policies: None,
        queries: None,
        labels: None,
        agent_options: None,
        webhook_settings: None,
        integrations: None,
        macos_settings: None,
        windows_settings: None,
        controls: None,
        software: None,
        other: YamlValue::Null,
    }
}

impl FleetConfig {
    /// A configuration made of a standalone list of labels.
    pub fn from_labels(labels: Vec<Label>) -> (r: FleetConfig)
        ensures
            r.labels matches Some(v) && v@.len() == labels@.len() && forall|i: int|
                0 <= i < labels@.len() ==> #[trigger] v@[i] == LabelOrPath::Label(labels@[i]),
            r == (FleetConfig { labels: r.labels, ..empty_config() }),
    {
        let ghost src = labels@;
        let mut rest = labels;
        let mut out: Vec<LabelOrPath> = Vec::new();
        while rest.len() > 0
            invariant
                out@.len() + rest@.len() == src.len(),
                forall|i: int| 0 <= i < out@.len() ==> #[trigger] out@[i] == LabelOrPath::Label(src[i]),
                forall|i: int| 0 <= i < rest@.len() ==> #[trigger] rest@[i] == src[out@.len() + i],
            decreases rest.len(),
        {
            let x = rest.remove(0);
            out.push(LabelOrPath::Label(x));
        }
        FleetConfig { labels: Some(out), ..FleetConfig::default() }
    }

    /// A configuration made of a standalone list of policies.
    pub fn from_policies(policies: Vec<Policy>) -> (r: FleetConfig)
        ensures
            r.policies matches Some(v) && v@.len() == policies@.len() && forall|i: int|
                0 <= i < policies@.len() ==> #[trigger] v@[i] == PolicyOrPath::Policy(policies@[i]),
            r == (FleetConfig { policies: r.policies, ..empty_config() }),
    {
        let ghost src = policies@;
        let mut rest = policies;
        let mut out: Vec<PolicyOrPath> = Vec::new();
        while rest.len() > 0
            invariant
                out@.len() + rest@.len() == src.len(),
                forall|i: int| 0 <= i < out@.len() ==> #[trigger] out@[i] == PolicyOrPath::Policy(src[i]),
                forall|i: int| 0 <= i < rest@.len() ==> #[trigger] rest@[i] == src[out@.len() + i],
            decreases rest.len(),
        {
            let x = rest.remove(0);
            out.push(PolicyOrPath::Policy(x));
        }
        FleetConfig { policies: Some(out), ..FleetConfig::default() }
    }

    /// A configuration made of a standalone list of queries.
    pub fn from_queries(queries: Vec<Query>) -> (r: FleetConfig)
        ensures
            r.queries matches Some(v) && v@.len() == queries@.len() && forall|i: int|
                0 <= i < queries@.len() ==> #[trigger] v@[i] == QueryOrPath::Query(queries@[i]),
            r == (FleetConfig { queries: r.queries, ..empty_config() }),
    {
        let ghost src = queries@;
        let mut rest = queries;
        let mut out: Vec<QueryOrPath> = Vec::new();
        while rest.len() > 0
            invariant
                out@.len() + rest@.len() == src.len(),
                forall|i: int| 0 <= i < out@.len() ==> #[trigger] out@[i] == QueryOrPath::Query(src[i]),
                forall|i: int| 0 <= i < rest@.len() ==> #[trigger] rest@[i] == src[out@.len() + i],
            decreases rest.len(),
        {
            let x = rest.remove(0);
            out.push(QueryOrPath::Query(x));
        }
        FleetConfig { queries: Some(out), ..FleetConfig::default() }
    }
}

} // verus!
