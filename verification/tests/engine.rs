use flint::diag::{LintError, Severity};
use flint::engine::{
    check_yaml_hygiene, detect_file_type, is_lint_target, is_suppressed, matches_suppression,
    parse_suppressions, skip_lint_dir, FileType,
};
use std::collections::HashMap;

#[test]
fn test_parse_suppression_ignore_all() {
    let source = "platform: macos  # fleet-lint: ignore\n";
    let s = parse_suppressions(source);
    assert_eq!(s.len(), 1);
    assert!(s.get(&1).unwrap().is_empty());
}

#[test]
fn test_parse_suppression_specific_rule() {
    let source = "platform: macos  # fleet-lint: ignore type-validation\n";
    let s = parse_suppressions(source);
    assert_eq!(s.get(&1).unwrap(), &vec!["type-validation".to_string()]);
}

#[test]
fn test_parse_suppression_multiple_rules() {
    let source = "query: bad  # fleet-lint: ignore query-syntax, type-validation\n";
    let s = parse_suppressions(source);
    let codes = s.get(&1).unwrap();
    assert_eq!(codes.len(), 2);
    assert!(codes.contains(&"query-syntax".to_string()));
    assert!(codes.contains(&"type-validation".to_string()));
}

#[test]
fn test_parse_suppression_standalone_line() {
    let source = "# fleet-lint: ignore type-validation\nplatform: macos\n";
    let s = parse_suppressions(source);
    assert!(s.contains_key(&1));
    assert!(!s.contains_key(&2));
}

#[test]
fn test_is_suppressed_same_line() {
    let mut suppressions = HashMap::new();
    suppressions.insert(5, vec!["type-validation".to_string()]);

    let error = LintError::error("test", "test.yml")
        .with_location(5, 1)
        .with_rule_code("type-validation");
    assert!(is_suppressed(&error, &suppressions));

    let error2 = LintError::error("test", "test.yml")
        .with_location(5, 1)
        .with_rule_code("other-rule");
    assert!(!is_suppressed(&error2, &suppressions));
}

#[test]
fn test_is_suppressed_previous_line() {
    let mut suppressions = HashMap::new();
    suppressions.insert(4, vec!["type-validation".to_string()]);

    let error = LintError::error("test", "test.yml")
        .with_location(5, 1)
        .with_rule_code("type-validation");
    assert!(is_suppressed(&error, &suppressions));
}

#[test]
fn test_is_suppressed_all_rules() {
    let mut suppressions = HashMap::new();
    suppressions.insert(5, Vec::new());

    let error = LintError::error("test", "test.yml")
        .with_location(5, 1)
        .with_rule_code("any-rule");
    assert!(is_suppressed(&error, &suppressions));
}

#[test]
fn test_no_suppression_without_line() {
    let mut suppressions = HashMap::new();
    suppressions.insert(5, Vec::new());

    let error = LintError::error("test", "test.yml");
    assert!(!is_suppressed(&error, &suppressions));
}

#[test]
fn test_detect_file_type_fleet_config() {
    assert_eq!(detect_file_type("default.yml"), FileType::FleetConfig);
    assert_eq!(detect_file_type("fleets/engineering.yml"), FileType::FleetConfig);
    assert_eq!(detect_file_type("teams/ops.yml"), FileType::FleetConfig);
}

#[test]
fn test_detect_file_type_labels() {
    assert_eq!(detect_file_type("labels/macos.yml"), FileType::Labels);
    assert_eq!(detect_file_type("lib/all/labels/hosts.yml"), FileType::Labels);
    assert_eq!(detect_file_type("my.labels.yml"), FileType::Labels);
}

#[test]
fn test_detect_file_type_software() {
    assert_eq!(detect_file_type("lib/macos/software/slack.yml"), FileType::Software);
    assert_eq!(detect_file_type("platforms/macos/software/chrome.yml"), FileType::Software);
}

#[test]
fn test_detect_file_type_policies() {
    assert_eq!(detect_file_type("lib/macos/policies/filevault.yml"), FileType::Policies);
    assert_eq!(detect_file_type("platforms/macos/policies/security.yml"), FileType::Policies);
}

#[test]
fn test_detect_file_type_queries() {
    assert_eq!(detect_file_type("lib/macos/queries/uptime.yml"), FileType::Queries);
    assert_eq!(detect_file_type("platforms/all/reports/compliance.yml"), FileType::Queries);
}

#[test]
fn test_detect_file_type_agent_options() {
    assert_eq!(detect_file_type("lib/agent-options.yml"), FileType::AgentOptions);
    assert_eq!(detect_file_type("platforms/all/agent-options.yml"), FileType::AgentOptions);
}

#[test]
fn test_detect_file_type_non_yaml() {
    assert_eq!(
        detect_file_type("platforms/macos/configuration-profiles/wifi.mobileconfig"),
        FileType::NonYaml
    );
    assert_eq!(
        detect_file_type("platforms/macos/declaration-profiles/activation.json"),
        FileType::NonYaml
    );
    assert_eq!(detect_file_type("platforms/macos/scripts/setup.sh"), FileType::NonYaml);
    assert_eq!(detect_file_type("platforms/macos/commands/restart.plist"), FileType::NonYaml);
    assert_eq!(detect_file_type("platforms/all/icons/slack.png"), FileType::NonYaml);
}

#[test]
fn detect_file_type_path_edges() {
    assert_eq!(detect_file_type("./labels//a.yml"), FileType::Labels);
    assert_eq!(detect_file_type("labels/.."), FileType::Labels);
    assert_eq!(detect_file_type("labels/../x.yml"), FileType::FleetConfig);
    assert_eq!(detect_file_type(""), FileType::FleetConfig);
    assert_eq!(detect_file_type("/abs/queries/x.yml"), FileType::Queries);
}

#[test]
fn suppression_parsing_edges() {
    let s = parse_suppressions("a: 1\nb: 2 # fleet-lint: ignore , ,x ,\n# just a comment\n");
    assert_eq!(s.len(), 1);
    assert_eq!(s.get(&2).unwrap(), &vec!["x".to_string()]);
    let s = parse_suppressions("# fleet-lint: check\n");
    assert!(s.is_empty());
}

#[test]
fn matches_suppression_without_code() {
    let e = LintError::error("m", "f.yml").with_location(1, 1);
    assert!(!matches_suppression(&e, &["x".to_string()]));
    assert!(matches_suppression(&e, &[]));
}

#[test]
fn hygiene_reports_tabs_trailing_and_duplicates() {
    let mut report = Vec::new();
    let src = "a: 1\n\tb: 2\nc: 3  \na: 4\n # x\n";
    check_yaml_hygiene(src, "f.yml", &mut report);
    assert_eq!(report.len(), 3);
    assert_eq!(report[0].rule_code.as_deref(), Some("yaml-tabs"));
    assert_eq!(report[0].line, Some(2));
    assert_eq!(report[0].column, Some(1));
    assert_eq!(report[0].severity, Severity::Warning);
    assert_eq!(report[1].rule_code.as_deref(), Some("yaml-trailing-whitespace"));
    assert_eq!(report[1].column, Some(5));
    assert_eq!(report[1].severity, Severity::Info);
    assert_eq!(report[2].rule_code.as_deref(), Some("yaml-duplicate-key"));
    assert_eq!(
        report[2].message,
        "Duplicate top-level key 'a' (first seen at line 1)"
    );
    assert_eq!(report[2].line, Some(4));
}

#[test]
fn hygiene_tab_column_counts_bytes() {
    let mut report = Vec::new();
    check_yaml_hygiene(" é\tx: 1\n", "f.yml", &mut report);
    assert_eq!(report.len(), 1);
    assert_eq!(report[0].column, Some(4));
}

#[test]
fn test_directory_walk_rules() {
    assert!(skip_lint_dir(".git"));
    assert!(skip_lint_dir("node_modules"));
    assert!(skip_lint_dir("target"));
    assert!(skip_lint_dir("dist"));
    assert!(!skip_lint_dir("fleets"));
    assert!(is_lint_target("default.yml"));
    assert!(is_lint_target("team.yaml"));
    assert!(!is_lint_target(".yml"));
    assert!(!is_lint_target(".hidden.yml"));
    assert!(!is_lint_target("docker-compose.yml"));
    assert!(!is_lint_target("action.yaml"));
    assert!(!is_lint_target("script.sh"));
    assert!(!is_lint_target("UPPER.YML"));
}
