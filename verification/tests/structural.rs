use flint::diag::LintError;
use flint::fleet_config::FleetConfig;
use flint::rules::Rule;
use flint::structural::{classify_unknown_key, find_closest_key, levenshtein_distance, StructuralValidationRule};
use flint::structure::key_registry;

fn check(yaml: &str, file_name: &str) -> Vec<LintError> {
    let config = FleetConfig::default();
    StructuralValidationRule.check(&config, file_name, yaml)
}

#[test]
fn test_valid_default_config() {
    let yaml = r#"
policies:
  - name: "Test"
    query: "SELECT 1;"
queries:
  - name: "Test"
    query: "SELECT 1;"
agent_options:
  config: {}
controls:
  scripts:
    - path: foo.sh
  macos_settings:
    custom_settings:
      - path: foo.mobileconfig
software: {}
org_settings:
  server_settings:
    server_url: https://example.com
"#;
    let errors = check(yaml, "default.yml");
    assert!(
        errors.is_empty(),
        "Expected no errors but got: {:?}",
        errors
    );
}

#[test]
fn test_unknown_top_level_key() {
    let yaml = r#"
policis:
  - name: "Test"
    query: "SELECT 1;"
"#;
    let errors = check(yaml, "default.yml");
    assert!(!errors.is_empty(), "Expected errors for typo 'policis'");
    let err = &errors[0];
    assert!(
        err.message.contains("Unknown key 'policis'") || err.message.contains("policis"),
        "Error should mention 'policis': {}",
        err.message
    );
    assert!(
        err.help.as_ref().map_or(false, |h| h.contains("policies")),
        "Should suggest 'policies': {:?}",
        err.help
    );
}

#[test]
fn test_misplaced_key_scripts_under_macos_settings() {
    let yaml = r#"
controls:
  macos_settings:
    custom_settings:
      - path: foo.mobileconfig
    scripts:
      - path: bar.sh
"#;
    let errors = check(yaml, "default.yml");
    assert!(!errors.is_empty(), "Expected error for misplaced 'scripts'");
    let err = &errors[0];
    assert!(
        err.message.contains("scripts") && err.message.contains("controls"),
        "Error should mention scripts belongs under controls: {}",
        err.message
    );
}

#[test]
fn test_missing_wrapper_custom_settings() {
    // User puts path directly under macos_settings instead of under custom_settings
    let yaml = r#"
controls:
  macos_settings:
    path: foo.mobileconfig
"#;
    let errors = check(yaml, "default.yml");
    assert!(!errors.is_empty(), "Expected error for missing wrapper");
}

#[test]
fn test_valid_team_config() {
    let yaml = r#"
name: Engineering
policies:
  - name: "Test"
    query: "SELECT 1;"
controls:
  scripts:
    - path: foo.sh
"#;
    let errors = check(yaml, "teams/engineering.yml");
    assert!(
        errors.is_empty(),
        "Expected no errors for valid team config but got: {:?}",
        errors
    );
}

#[test]
fn test_valid_policy_lib_file() {
    let yaml = r#"
- name: "Test Policy"
  query: "SELECT 1;"
  platform: darwin
"#;
    let errors = check(yaml, "lib/policies/security.yml");
    assert!(
        errors.is_empty(),
        "Expected no errors for valid policy lib but got: {:?}",
        errors
    );
}

#[test]
fn test_unknown_key_in_nested_context() {
    let yaml = r#"
org_settings:
  server_settings:
    server_url: https://example.com
    unknown_setting: true
"#;
    let errors = check(yaml, "default.yml");
    assert!(
        !errors.is_empty(),
        "Expected error for unknown key in server_settings"
    );
    assert!(
        errors[0].message.contains("unknown_setting")
            || errors[0].message.contains("Unknown key")
    );
}

#[test]
fn test_levenshtein_distance() {
    assert_eq!(levenshtein_distance("kitten", "sitting"), 3);
    assert_eq!(levenshtein_distance("", "abc"), 3);
    assert_eq!(levenshtein_distance("abc", ""), 3);
    assert_eq!(levenshtein_distance("abc", "abc"), 0);
    assert_eq!(levenshtein_distance("policis", "policies"), 1);
}

#[test]
fn test_find_closest_key() {
    let candidates = &["policies", "queries", "labels", "controls"];
    assert_eq!(find_closest_key("policis", candidates), Some("policies"));
    assert_eq!(find_closest_key("queri", candidates), Some("queries"));
    assert_eq!(find_closest_key("zzzzzzzzzzz", candidates), None);
}

#[test]
fn test_software_valid_keys() {
    let yaml = r#"
software:
  packages:
    - path: ../lib/software/firefox.yml
      self_service: true
  app_store_apps:
    - app_store_id: "12345"
  fleet_maintained_apps:
    - slug: slack/darwin
      self_service: true
"#;
    let errors = check(yaml, "default.yml");
    let software_errors: Vec<_> = errors
        .iter()
        .filter(|e| {
            e.message.contains("software")
                || e.message.contains("self_service")
                || e.message.contains("slug")
        })
        .collect();
    assert!(
        software_errors.is_empty(),
        "Valid software keys should not produce errors: {:?}",
        software_errors
    );
}

#[test]
fn test_software_typo_detected() {
    let yaml = r#"
software:
  packages:
    - path: ../lib/software/firefox.yml
      self_servicae: true
      setupaaa_experience: true
"#;
    let errors = check(yaml, "default.yml");
    assert!(
        errors.iter().any(|e| e.message.contains("self_servicae")),
        "Should flag typo 'self_servicae': {:?}",
        errors
    );
    assert!(
        errors
            .iter()
            .any(|e| e.message.contains("setupaaa_experience")),
        "Should flag typo 'setupaaa_experience': {:?}",
        errors
    );
}

#[test]
fn test_boolean_value_validation() {
    // Valid booleans should pass
    let yaml = r#"
software:
  packages:
    - path: ../lib/software/firefox.yml
      self_service: true
      setup_experience: false
"#;
    let errors = check(yaml, "default.yml");
    let bool_errors: Vec<_> = errors
        .iter()
        .filter(|e| e.message.contains("expects a boolean"))
        .collect();
    assert!(
        bool_errors.is_empty(),
        "Valid booleans should not produce errors: {:?}",
        bool_errors
    );

    // YAML 1.1 booleans (yes/no) should also pass
    let yaml_yn = r#"
software:
  packages:
    - path: ../lib/software/firefox.yml
      self_service: yes
      setup_experience: no
"#;
    let errors_yn = check(yaml_yn, "default.yml");
    let bool_errors_yn: Vec<_> = errors_yn
        .iter()
        .filter(|e| e.message.contains("expects a boolean"))
        .collect();
    assert!(
        bool_errors_yn.is_empty(),
        "YAML 1.1 yes/no should be valid booleans: {:?}",
        bool_errors_yn
    );

    // Invalid value should be flagged
    let yaml_bad = r#"
software:
  packages:
    - path: ../lib/software/firefox.yml
      self_service: banana
"#;
    let errors_bad = check(yaml_bad, "default.yml");
    assert!(
        errors_bad
            .iter()
            .any(|e| e.message.contains("self_service")
                && e.message.contains("expects a boolean")),
        "String 'banana' should be flagged as non-boolean: {:?}",
        errors_bad
    );
}

#[test]
fn test_wrong_indentation_org_settings() {
    // org_info and org_name are siblings of server_url (wrong indent)
    // They should be flagged as misplaced
    let yaml = r#"
org_settings:
  server_settings:
    server_url: https://example.com
    org_info:
    org_name: CNG Fleet
"#;
    let errors = check(yaml, "default.yml");
    println!("Errors: {:#?}", errors);
    assert!(
        errors.iter().any(|e| e.message.contains("org_info")),
        "Should flag 'org_info' as misplaced under server_settings: {:?}",
        errors
    );
    assert!(
        errors.iter().any(|e| e.message.contains("org_name")),
        "Should flag 'org_name' as misplaced under server_settings: {:?}",
        errors
    );
}

#[test]
fn test_different_file_types_get_correct_schemas() {
    // Policy lib file should accept array items
    let policy_yaml = r#"
- name: "Test"
  query: "SELECT 1;"
"#;
    assert!(check(policy_yaml, "lib/policies/test.yml").is_empty());

    // Query lib file should accept array items
    let query_yaml = r#"
- name: "Test"
  query: "SELECT 1;"
  interval: 300
"#;
    assert!(check(query_yaml, "lib/queries/test.yml").is_empty());

    // Label lib file should accept array items
    let label_yaml = r#"
- name: "Test Label"
  query: "SELECT 1;"
  label_membership_type: dynamic
"#;
    assert!(check(label_yaml, "lib/labels/test.yml").is_empty());
}

// ---- Webhook settings per-fleet vs org-level ----

#[test]
fn test_per_fleet_failing_policies_webhook_accepted() {
    // Per Fleet docs (yaml-files.md:1102), failing_policies_webhook can be
    // configured per-fleet under `settings.webhook_settings`.
    let yaml = r#"
name: Workstations
settings:
  webhook_settings:
    failing_policies_webhook:
      enable_failing_policies_webhook: true
      destination_url: https://example.org/hook
      host_batch_size: 0
"#;
    let errors = check(yaml, "fleets/workstations.yml");
    assert!(
        errors.is_empty(),
        "Per-fleet failing_policies_webhook should be accepted: {:?}",
        errors
    );
}

#[test]
fn test_per_fleet_activities_and_host_status_webhook_accepted() {
    let yaml = r#"
name: Workstations
settings:
  webhook_settings:
    activities_webhook:
      enable_activities_webhook: true
      destination_url: https://example.org/a
    host_status_webhook:
      enable_host_status_webhook: true
      destination_url: https://example.org/h
      days_count: 7
      host_percentage: 25
"#;
    let errors = check(yaml, "fleets/workstations.yml");
    assert!(
        errors.is_empty(),
        "Per-fleet activities_webhook and host_status_webhook should be accepted: {:?}",
        errors
    );
}

#[test]
fn test_per_fleet_vulnerabilities_webhook_rejected() {
    // Per Fleet docs (yaml-files.md:1151): vulnerabilities_webhook is org-only.
    let yaml = r#"
name: Workstations
settings:
  webhook_settings:
    vulnerabilities_webhook:
      enable_vulnerabilities_webhook: true
      destination_url: https://example.org/v
"#;
    let errors = check(yaml, "fleets/workstations.yml");
    assert!(
        errors.iter().any(|e| e.message.contains("vulnerabilities_webhook")),
        "Expected vulnerabilities_webhook to be flagged as unknown under per-fleet settings, got: {:?}",
        errors
    );
}

#[test]
fn test_policy_webhooks_and_tickets_enabled_accepted() {
    // Per Fleet CHANGELOG: "Implemented `webhooks_and_tickets_enabled`
    // flag for policies in GitOps." Cross-validated against
    // testdata/generateGitops/expectedTeamPolicies.yaml:13.
    let yaml = r#"
- name: macOS - All available software updates installed
  query: SELECT 1
  platform: darwin
  webhooks_and_tickets_enabled: true
"#;
    let errors = check(yaml, "platforms/macos/policies/all-software-updates-installed.yml");
    assert!(
        errors.is_empty(),
        "webhooks_and_tickets_enabled is a valid policy field: {:?}",
        errors
    );
}

#[test]
fn test_policy_install_software_app_store_id_accepted() {
    // Per gitops.go:231-236, install_software supports app_store_id.
    // Cross-validated against expectedTeamPolicies.yaml:30-31.
    let yaml = r#"
- name: VPP install
  query: SELECT 1
  install_software:
    app_store_id: "1234567890"
"#;
    let errors = check(yaml, "policies/test.yml");
    assert!(
        errors.is_empty(),
        "install_software.app_store_id is valid: {:?}",
        errors
    );
}

#[test]
fn test_policy_team_field_accepted() {
    let yaml = "policies:\n  - name: Test\n    query: SELECT 1\n    team: Engineering\n";
    let errors = check(yaml, "default.yml");
    assert!(errors.is_empty(), "team is a valid policy field: {:?}", errors);
}

#[test]
fn test_org_vulnerabilities_webhook_accepted() {
    let yaml = r#"
org_settings:
  webhook_settings:
    vulnerabilities_webhook:
      enable_vulnerabilities_webhook: true
      destination_url: https://example.org/v
      host_batch_size: 0
"#;
    let errors = check(yaml, "default.yml");
    assert!(
        errors.is_empty(),
        "Org-level vulnerabilities_webhook should be accepted: {:?}",
        errors
    );
}

// -- Issue #3: agent_options.script_execution_timeout + extensions --

#[test]
fn test_agent_options_script_execution_timeout_accepted() {
    // Regression for issue #3. Source: server/fleet/agent_options.go
    let yaml = r#"
agent_options:
  script_execution_timeout: 18000
  config:
    options:
      logger_plugin: filesystem
"#;
    let errors = check(yaml, "default.yml");
    assert!(
        errors.is_empty(),
        "script_execution_timeout is a valid agent_options key: {:?}",
        errors
    );
}

#[test]
fn test_agent_options_extensions_accepted() {
    let yaml = "agent_options:\n  extensions:\n    plat: example\n";
    let errors = check(yaml, "default.yml");
    assert!(
        errors.is_empty(),
        "extensions is a valid agent_options key: {:?}",
        errors
    );
}

#[test]
fn test_webhooks_and_tickets_enabled_misplaced_under_integrations() {
    let yaml = r#"
org_settings:
  integrations:
    webhooks_and_tickets_enabled: true
"#;
    let errors = check(yaml, "default.yml");
    assert!(
        errors.iter().any(|e| e.message.contains("webhooks_and_tickets_enabled")),
        "webhooks_and_tickets_enabled under integrations should be flagged: {:?}",
        errors
    );
}

#[test]
fn test_levenshtein_counts_characters() {
    assert_eq!(levenshtein_distance("café", "cafe"), 1);
    assert_eq!(levenshtein_distance("éé", "éé"), 0);
    assert_eq!(levenshtein_distance("é", ""), 1);
    assert_eq!(levenshtein_distance("", "日本"), 2);
    assert_eq!(levenshtein_distance("日本語", "日本"), 1);
}

#[test]
fn test_deprecated_key_left_to_deprecation_checks() {
    let reg = key_registry();
    let siblings: Vec<&'static str> = vec!["name", "policies"];
    let none: Vec<(String, String)> = vec![];
    assert!(classify_unknown_key("queries_old", "", &siblings, "default.yml", Some(1), Some(1), &reg, &none).is_some());
    let dep = vec![("queries_old".to_string(), "".to_string())];
    assert!(classify_unknown_key("queries_old", "", &siblings, "default.yml", Some(1), Some(1), &reg, &dep).is_none());
    // The same key at another path is still reported.
    assert!(classify_unknown_key("queries_old", "org_settings", &siblings, "default.yml", None, None, &reg, &dep)
        .is_some());
}
