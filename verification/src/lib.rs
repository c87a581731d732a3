//! Verified core of a linter for Fleet GitOps YAML files.
use vstd::prelude::*;

pub mod text;
pub mod diag;
pub mod yaml;
pub mod fleet_config;
pub mod rules;
pub mod yaml_lint;
pub mod structure;
pub mod engine;
pub mod osquery;
pub mod structural;
pub mod semantic;
pub mod schema;
pub mod hover;
pub mod paths;
pub mod completion;
pub mod json;
pub mod help_agents;
pub mod report;
pub mod hooks;
pub mod tree;

verus! {
} // verus!
