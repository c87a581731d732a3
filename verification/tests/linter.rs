use flint::diag::{FixSafety, LintError, LintReport, Severity};
use flint::engine::apply_fixes;
use flint::engine::{FleetLintConfig, Linter};
use flint::fleet_config::{FleetConfig, Label, Policy, PolicyOrPath};
use flint::json::to_string_pretty;
use flint::report::{check_json, lint_report_to_json, rules_json};
use flint::rules::{BuiltinRule, RuleSet};

fn policy(name: &str, query: Option<&str>, platform: &str) -> Policy {
    Policy {
        name: Some(name.to_string()),
        description: None,
        query: query.map(|q| q.to_string()),
        platform: Some(platform.to_string()),
        critical: None,
        resolution: None,
        team: None,
        calendar_events_enabled: None,
        policy_type: None,
        fleet_maintained_app_slug: None,
        version: None,
        install_software: None,
        run_script: None,
    }
}

fn config_with(policies: Vec<Policy>) -> FleetConfig {
    FleetConfig {
        policies: Some(policies.into_iter().map(PolicyOrPath::Policy).collect()),
        ..FleetConfig::default()
    }
}

fn label(name: &str, description: &str, membership: &str) -> Label {
    Label {
        name: Some(name.to_string()),
        description: Some(description.to_string()),
        query: None,
        platform: None,
        label_membership_type: Some(membership.to_string()),
        hosts: None,
    }
}

#[test]
fn test_lint_valid_config() {
    let yaml = r#"
policies:
  - name: "Test Policy"
    query: "SELECT 1 FROM users;"
    platform: darwin
"#;
    let cfg = config_with(vec![policy("Test Policy", Some("SELECT 1 FROM users;"), "darwin")]);
    let linter = Linter::new();
    let report = linter.lint_content(yaml, "config.yml", Some(cfg));

    assert!(!report.has_errors());
}

#[test]
fn test_lint_missing_required_field() {
    let yaml = r#"
policies:
  - name: "Test Policy"
    # Missing query field
    platform: darwin
"#;
    let cfg = config_with(vec![policy("Test Policy", None, "darwin")]);
    let linter = Linter::new();
    let report = linter.lint_content(yaml, "config.yml", Some(cfg));

    assert!(report.has_errors());
    assert!(report
        .errors
        .iter()
        .any(|e| e.message.contains("missing required field 'query'")));
}

#[test]
fn test_lint_invalid_platform() {
    let yaml = r#"
policies:
  - name: "Test Policy"
    query: "SELECT 1;"
    platform: macos  # Should be 'darwin'
"#;
    let cfg = config_with(vec![policy("Test Policy", Some("SELECT 1;"), "macos")]);
    let linter = Linter::new();
    let report = linter.lint_content(yaml, "config.yml", Some(cfg));

    assert!(report.has_errors());
    assert!(report
        .errors
        .iter()
        .any(|e| e.message.contains("invalid platform")));
}

#[test]
fn test_platform_compatibility() {
    let yaml = r#"
policies:
  - name: "Windows Firewall"
    query: "SELECT * FROM alf;"  # alf is macOS-only
    platform: windows
"#;
    let cfg = config_with(vec![policy("Windows Firewall", Some("SELECT * FROM alf;"), "windows")]);
    let linter = Linter::new();
    let report = linter.lint_content(yaml, "config.yml", Some(cfg));

    assert!(report.has_errors());
    assert!(report
        .errors
        .iter()
        .any(|e| e.message.contains("not available on platform")));
}

#[test]
fn test_label_dynamic_with_query_no_error() {
    let yaml = r#"
- name: macOS Hosts
  description: All macOS hosts
  platform: darwin
  label_membership_type: dynamic
  query: "SELECT 1 FROM os_version WHERE name = 'macOS';"
"#;
    let mut l = label("macOS Hosts", "All macOS hosts", "dynamic");
    l.platform = Some("darwin".to_string());
    l.query = Some("SELECT 1 FROM os_version WHERE name = 'macOS';".to_string());
    let linter = Linter::new();
    let report = linter.lint_content(yaml, "tmp/labels/macos.yml", Some(FleetConfig::from_labels(vec![l])));
    assert!(
        !report.has_errors(),
        "Dynamic label with query should have no errors: {:?}",
        report.errors
    );
}

#[test]
fn test_label_manual_no_error() {
    let yaml = r#"
- name: VIP Hosts
  description: Manually managed VIP hosts
  label_membership_type: manual
  hosts:
    - host1.example.com
    - host2.example.com
"#;
    let mut l = label("VIP Hosts", "Manually managed VIP hosts", "manual");
    l.hosts = Some(vec!["host1.example.com".to_string(), "host2.example.com".to_string()]);
    let linter = Linter::new();
    let report = linter.lint_content(yaml, "tmp/labels/vip.yml", Some(FleetConfig::from_labels(vec![l])));
    assert!(
        !report.has_errors(),
        "Manual label should have no errors: {:?}",
        report.errors
    );
}

#[test]
fn test_label_host_vitals_no_error() {
    let yaml = r#"
- name: Engineering
  description: Hosts assigned to the Engineering IdP group
  label_membership_type: host_vitals
  criteria:
    vital: end_user_idp_department
    value: Engineering
"#;
    let l = label("Engineering", "Hosts assigned to the Engineering IdP group", "host_vitals");
    let linter = Linter::new();
    let report = linter.lint_content(yaml, "tmp/labels/sequoia.yml", Some(FleetConfig::from_labels(vec![l])));
    assert!(
        !report.has_errors(),
        "host_vitals label should have no errors: {:?}",
        report.errors
    );
}

#[test]
fn test_label_criteria_no_error() {
    let yaml = r#"
- name: Engineering IdP group
  description: Hosts whose end user is in the Engineering IdP group
  label_membership_type: host_vitals
  criteria:
    vital: end_user_idp_group
    value: Engineering
"#;
    let l = label(
        "Engineering IdP group",
        "Hosts whose end user is in the Engineering IdP group",
        "host_vitals",
    );
    let linter = Linter::new();
    let report = linter.lint_content(yaml, "tmp/labels/macos15.yml", Some(FleetConfig::from_labels(vec![l])));
    assert!(
        !report.has_errors(),
        "criteria label should have no errors: {:?}",
        report.errors
    );
}

#[test]
fn test_software_file_skips_rules() {
    let yaml = r#"
hash_sha256: abc123def456
"#;
    let linter = Linter::new();
    let report = linter.lint_content(yaml, "tmp/software/slack.yml", None);
    // Software files skip structural rules — only hygiene checks
    assert!(
        !report.has_errors(),
        "Software file should skip structural validation: {:?}",
        report.errors
    );
}

#[test]
fn test_agent_options_file_skips_rules() {
    let yaml = r#"
config:
  decorators:
    load:
      - SELECT uuid AS host_uuid FROM system_info;
"#;
    let linter = Linter::new();
    let report = linter.lint_content(yaml, "tmp/agent-options.yml", None);
    assert!(
        !report.has_errors(),
        "Agent options file should skip structural validation: {:?}",
        report.errors
    );
}

// ---------------------------------------------------------------------------
// Engine behaviour beyond the original tests
// ---------------------------------------------------------------------------

#[test]
fn yaml_syntax_error_is_reported_once() {
    let yaml = "policies:\n  - name: [unclosed\n";
    let report = Linter::new().lint_content(yaml, "default.yml", None);
    assert_eq!(report.errors.len(), 1);
    let e: &LintError = &report.errors[0];
    assert!(e.message.starts_with("YAML parse error: "));
    assert_eq!(e.rule_code.as_deref(), Some("yaml-syntax"));
    assert!(e.line.is_some());
}

#[test]
fn standalone_policy_file_without_typed_parse_runs_rules_on_empty_config() {
    // A policies file whose typed parse failed is checked against an empty
    // configuration: no parse error is raised.
    let yaml = "- name: [unclosed\n";
    let report = Linter::new().lint_content(yaml, "lib/policies/x.yml", None);
    assert!(report.errors.iter().all(|e| e.rule_code.as_deref() != Some("yaml-syntax")));
}

#[test]
fn duplicate_entry_is_not_a_parse_error() {
    let yaml = "name: a\nname: b\n";
    let report = Linter::new().lint_content(yaml, "default.yml", None);
    assert!(report.errors.iter().all(|e| e.rule_code.as_deref() != Some("yaml-syntax")));
    // the hygiene check still flags the repeated key
    assert!(report.errors.iter().any(|e| e.rule_code.as_deref() == Some("yaml-duplicate-key")));
}

#[test]
fn rule_codes_are_filled_in() {
    let cfg = config_with(vec![policy("P", None, "darwin")]);
    let yaml = "policies:\n  - name: P\n    platform: darwin\n";
    let report = Linter::new().lint_content(yaml, "default.yml", Some(cfg));
    let e = report
        .errors
        .iter()
        .find(|e| e.message.contains("missing required field 'query'"))
        .unwrap();
    assert_eq!(e.rule_code.as_deref(), Some("required-fields"));
}

#[test]
fn disabled_rule_is_skipped() {
    let settings = FleetLintConfig {
        disabled_rules: vec!["required-fields".to_string()],
        warning_rules: vec![],
        allow_unknown_fields: false,
    };
    let cfg = config_with(vec![policy("P", None, "darwin")]);
    let yaml = "policies:\n  - name: P\n    platform: darwin\n";
    let report = Linter::with_config(settings).lint_content(yaml, "default.yml", Some(cfg));
    assert!(!report
        .errors
        .iter()
        .chain(report.warnings.iter())
        .any(|e| e.message.contains("missing required field")));
}

#[test]
fn warning_rule_downgrades_errors() {
    let settings = FleetLintConfig {
        disabled_rules: vec![],
        warning_rules: vec!["required-fields".to_string()],
        allow_unknown_fields: false,
    };
    let cfg = config_with(vec![policy("P", None, "darwin")]);
    let yaml = "policies:\n  - name: P\n    platform: darwin\n";
    let report = Linter::with_config(settings).lint_content(yaml, "default.yml", Some(cfg));
    assert!(!report.errors.iter().any(|e| e.message.contains("missing required field")));
    let w = report
        .warnings
        .iter()
        .find(|e| e.message.contains("missing required field 'query'"))
        .unwrap();
    assert_eq!(w.severity, Severity::Warning);
}

#[test]
fn allow_unknown_fields_turns_off_structural_validation() {
    let yaml = "polices:\n  - name: P\n";
    let flagged = Linter::new().lint_content(yaml, "default.yml", Some(FleetConfig::default()));
    assert!(flagged
        .errors
        .iter()
        .chain(flagged.warnings.iter())
        .any(|e| e.rule_code.as_deref() == Some("structural-validation")));
    let settings = FleetLintConfig {
        disabled_rules: vec![],
        warning_rules: vec![],
        allow_unknown_fields: true,
    };
    let quiet = Linter::with_config(settings).lint_content(yaml, "default.yml", Some(FleetConfig::default()));
    assert!(!quiet
        .errors
        .iter()
        .chain(quiet.warnings.iter())
        .any(|e| e.rule_code.as_deref() == Some("structural-validation")));
}

#[test]
fn inline_suppression_removes_finding() {
    let cfg = config_with(vec![policy("Test Policy", Some("SELECT 1;"), "macos")]);
    let yaml = "policies:\n  - name: \"Test Policy\"\n    query: \"SELECT 1;\"\n    platform: macos  # fleet-lint: ignore type-validation\n";
    let report = Linter::new().lint_content(yaml, "default.yml", Some(cfg));
    assert!(!report.errors.iter().any(|e| e.message.contains("invalid platform")));
}

#[test]
fn custom_rule_set_runs_only_its_rules() {
    let mut rules = RuleSet::new();
    rules.add_rule(BuiltinRule::RequiredFields);
    assert_eq!(rules.rules().len(), 1);
    let cfg = config_with(vec![policy("Test Policy", None, "macos")]);
    let yaml = "policies:\n  - name: Test Policy\n    platform: macos\n";
    let report = Linter::with_rules(rules).lint_content(yaml, "default.yml", Some(cfg));
    assert!(report.errors.iter().all(|e| e.rule_code.as_deref() == Some("required-fields")));
    assert_eq!(report.errors.len(), 1);
}

#[test]
fn report_counts_issues() {
    let yaml = "name: a\t\nname: b\n";
    let report = Linter::new().lint_content(yaml, "default.yml", None);
    assert_eq!(
        report.total_issues(),
        report.errors.len() + report.warnings.len() + report.infos.len()
    );
    assert!(report.total_issues() >= 2);
}

#[test]
fn safe_fixes_are_applied_in_place() {
    let source = "a: macos\nb: keep\nc: macos\n";
    let mut report = LintReport::new();
    let fix = |line: usize, safety: FixSafety| {
        LintError::error("bad", "f.yml")
            .with_location(line, 1)
            .with_context("macos")
            .with_suggestion("darwin")
            .with_fix_safety(safety)
    };
    report.add(fix(1, FixSafety::Safe));
    report.add(fix(3, FixSafety::Unsafe));
    report.add(fix(9, FixSafety::Safe));
    let (out, n) = apply_fixes(source, &report, false);
    assert_eq!(n, 1);
    assert_eq!(out, "a: darwin\nb: keep\nc: macos\n");
    let (out, n) = apply_fixes(source, &report, true);
    assert_eq!(n, 2);
    assert_eq!(out, "a: darwin\nb: keep\nc: darwin\n");
    let (out, n) = apply_fixes(source, &LintReport::new(), true);
    assert_eq!(n, 0);
    assert_eq!(out, source);
}

#[test]
fn settings_can_be_set_and_changed_in_place() {
    let mut linter = Linter::new();
    assert!(linter.config().is_none());
    assert!(linter.config_mut().is_none());
    linter.set_config(FleetLintConfig {
        disabled_rules: vec![],
        warning_rules: vec![],
        allow_unknown_fields: false,
    });
    assert!(linter.config().is_some());
    if let Some(c) = linter.config_mut() {
        c.disabled_rules.push("required-fields".to_string());
    }
    assert_eq!(linter.config().unwrap().disabled_rules, vec!["required-fields".to_string()]);
    let cfg = config_with(vec![policy("P", None, "darwin")]);
    let yaml = "policies:\n  - name: P\n    platform: darwin\n";
    let report = linter.lint_content(yaml, "default.yml", Some(cfg));
    assert!(!report.errors.iter().any(|e| e.message.contains("missing required field")));
}

#[test]
fn lint_is_defined_where_the_empty_value_rule_does_not_run() {
    // A flagged key whose 30th byte falls inside a character.
    let key = format!("{}é", "a".repeat(29));
    let yaml = format!("{}:\nname: x\n", key);
    let linter = Linter::new();
    assert!(!linter.can_lint(&yaml, "default.yml", &Some(FleetConfig::default())));
    // Software files run no rules.
    assert!(linter.can_lint(&yaml, "lib/software/app.yml", &None));
    // With the rule turned off, the file can be linted.
    let settings = FleetLintConfig {
        disabled_rules: vec!["yaml-empty-values".to_string()],
        warning_rules: vec![],
        allow_unknown_fields: false,
    };
    let quiet = Linter::with_config(settings);
    assert!(quiet.can_lint(&yaml, "default.yml", &Some(FleetConfig::default())));
    let report = quiet.lint_content(&yaml, "default.yml", Some(FleetConfig::default()));
    assert!(report.infos.iter().all(|e| e.rule_code.as_deref() != Some("yaml-empty-values")));
}

#[test]
fn report_json_lists_diagnostics_and_counts() {
    let mut report = LintReport::new();
    report.add(LintError::error("bad", "f.yml").with_location(3, 5).with_rule_code("r1"));
    report.add(LintError::warning("meh", "f.yml").with_help("do this"));
    let j = lint_report_to_json("f.yml", &report);
    let v: serde_json::Value = serde_json::from_str(&to_string_pretty(&j)).unwrap();
    assert_eq!(v["path"], "f.yml");
    assert_eq!(v["diagnostics"][0]["message"], "bad");
    assert_eq!(v["diagnostics"][0]["severity"], "error");
    assert_eq!(v["diagnostics"][0]["line"], 3);
    assert_eq!(v["diagnostics"][0]["column"], 5);
    assert_eq!(v["diagnostics"][0]["rule"], "r1");
    assert!(v["diagnostics"][0].get("help").is_none());
    assert_eq!(v["diagnostics"][1]["severity"], "warning");
    assert_eq!(v["diagnostics"][1]["help"], "do this");
    assert_eq!(v["counts"]["errors"], 1);
    assert_eq!(v["counts"]["warnings"], 1);
    assert_eq!(v["counts"]["infos"], 0);
    let out = check_json("0.1.0", vec![j], 1, 1, 1, 0);
    let w: serde_json::Value = serde_json::from_str(&to_string_pretty(&out)).unwrap();
    assert_eq!(w["version"], "0.1.0");
    assert_eq!(w["summary"]["files_linted"], 1);
    assert_eq!(w["files"][0]["path"], "f.yml");
}

#[test]
fn rules_json_lists_every_rule() {
    let set = RuleSet::default_rules();
    let v: serde_json::Value = serde_json::from_str(&to_string_pretty(&rules_json(set.rules()))).unwrap();
    assert_eq!(v["total"], set.rules().len());
    assert_eq!(v["rules"][0]["name"], "required-fields");
    assert_eq!(v["rules"][0]["severity"], "Error");
    assert_eq!(v["rules"][0]["fixable"], true);
    assert_eq!(v["rules"][0]["preview"], false);
}
