use flint::diag::LintError;
use flint::fleet_config::FleetConfig;
use flint::rules::Rule;
use flint::semantic::{
    is_valid_date, CategoriesRule, DateFormatRule, FileExtensionRule, HashFormatRule,
    LabelMembershipRule, LabelTargetingRule, PatchPolicyRule, PathReferenceRule,
    PolicyAutomationLocationRule, SecretHygieneRule,
};

fn lint<R: Rule>(rule: &R, source: &str) -> Vec<LintError> {
    let config = FleetConfig::default();
    rule.check(&config, "test.yml", source)
}

/// Lint with a path that makes `detect_file_type` return the right FileType.
fn lint_at<R: Rule>(rule: &R, source: &str, path: &str) -> Vec<LintError> {
    let config = FleetConfig::default();
    rule.check(&config, path, source)
}

// -- LabelTargetingRule --

#[test]
fn test_label_targeting_valid() {
    let errors = lint(
        &LabelTargetingRule,
        "policies:\n  - name: test\n    labels_include_any:\n      - Engineering\n",
    );
    assert!(errors.is_empty());
}

#[test]
fn test_label_targeting_exclude_with_include_any_valid() {
    let errors = lint(
        &LabelTargetingRule,
        "policies:\n  - name: test\n    labels_include_any:\n      - Eng\n    labels_exclude_any:\n      - QA\n",
    );
    // labels_exclude_any can coexist with labels_include_any
    assert!(errors.is_empty());
}

#[test]
fn test_label_targeting_mutual_exclusion() {
    let errors = lint(
        &LabelTargetingRule,
        "policies:\n  - name: test\n    labels_include_any:\n      - Eng\n    labels_include_all:\n      - QA\n",
    );
    assert_eq!(errors.len(), 1);
    assert!(errors[0]
        .message
        .contains("labels_include_any and labels_include_all"));
}

// -- LabelMembershipRule --

#[test]
fn test_label_membership_dynamic_valid() {
    let errors = lint(
        &LabelMembershipRule,
        "labels:\n  - name: test\n    label_membership_type: dynamic\n    query: \"SELECT 1\"\n",
    );
    assert!(errors.is_empty());
}

#[test]
fn test_label_membership_manual_with_query() {
    let errors = lint(
        &LabelMembershipRule,
        "labels:\n  - name: test\n    label_membership_type: manual\n    query: \"SELECT 1\"\n",
    );
    assert_eq!(errors.len(), 1);
    assert!(errors[0].message.contains("manual but has 'query'"));
}

#[test]
fn test_label_membership_dynamic_missing_query() {
    let errors = lint(
        &LabelMembershipRule,
        "labels:\n  - name: test\n    label_membership_type: dynamic\n",
    );
    assert_eq!(errors.len(), 1);
    assert!(errors[0].message.contains("missing 'query'"));
}

#[test]
fn test_label_membership_dynamic_with_criteria() {
    let errors = lint(
        &LabelMembershipRule,
        "labels:\n  - name: test\n    label_membership_type: dynamic\n    query: \"SELECT 1\"\n    criteria:\n      vital: os_version\n      value: \"15.0\"\n",
    );
    assert_eq!(errors.len(), 1);
    assert!(errors[0].message.contains("dynamic but has 'criteria'"));
}

#[test]
fn test_label_membership_manual_with_criteria() {
    let errors = lint(
        &LabelMembershipRule,
        "labels:\n  - name: test\n    label_membership_type: manual\n    hosts:\n      - host1\n    criteria:\n      vital: os_version\n      value: \"15.0\"\n",
    );
    assert_eq!(errors.len(), 1);
    assert!(errors[0].message.contains("manual but has 'criteria'"));
}

#[test]
fn test_label_membership_host_vitals_valid() {
    let errors = lint(
        &LabelMembershipRule,
        "labels:\n  - name: test\n    label_membership_type: host_vitals\n    criteria:\n      vital: end_user_idp_department\n      value: Engineering\n",
    );
    assert!(errors.is_empty(), "expected no errors, got: {:?}", errors);
}

#[test]
fn test_label_membership_host_vitals_missing_criteria() {
    let errors = lint(
        &LabelMembershipRule,
        "labels:\n  - name: test\n    label_membership_type: host_vitals\n",
    );
    assert_eq!(errors.len(), 1);
    assert!(errors[0].message.contains("missing 'criteria'"));
}

#[test]
fn test_label_membership_host_vitals_with_hosts() {
    let errors = lint(
        &LabelMembershipRule,
        "labels:\n  - name: test\n    label_membership_type: host_vitals\n    criteria:\n      vital: end_user_idp_group\n      value: Eng\n    hosts:\n      - host1\n",
    );
    assert_eq!(errors.len(), 1);
    assert!(errors[0].message.contains("host_vitals but has 'hosts'"));
}

#[test]
fn test_criteria_and_rejected() {
    // Fleet's parseHostVitalCriteria rejects And/Or outright.
    let yaml = "labels:\n  - name: t\n    label_membership_type: host_vitals\n    criteria:\n      and:\n        - vital: end_user_idp_group\n          value: A\n        - vital: end_user_idp_group\n          value: B\n";
    let errors = lint(&LabelMembershipRule, yaml);
    assert!(
        errors.iter().any(|e| e.message.contains("And/Or criteria not supported")),
        "expected And/Or rejection, got: {:?}",
        errors
    );
}

#[test]
fn test_criteria_or_rejected() {
    let yaml = "labels:\n  - name: t\n    label_membership_type: host_vitals\n    criteria:\n      or:\n        - vital: end_user_idp_group\n          value: A\n        - vital: end_user_idp_group\n          value: B\n";
    let errors = lint(&LabelMembershipRule, yaml);
    assert!(
        errors.iter().any(|e| e.message.contains("And/Or criteria not supported")),
        "expected And/Or rejection, got: {:?}",
        errors
    );
}

#[test]
fn test_criteria_unknown_vital_rejected() {
    // os_version is not in the hostVitals registry — Fleet rejects it.
    let yaml = "labels:\n  - name: t\n    label_membership_type: host_vitals\n    criteria:\n      vital: os_version\n      value: \"15.0\"\n";
    let errors = lint(&LabelMembershipRule, yaml);
    assert!(
        errors.iter().any(|e| e.message.contains("unknown vital 'os_version'")),
        "expected unknown-vital error, got: {:?}",
        errors
    );
}

#[test]
fn test_criteria_leaf_missing_value() {
    let yaml = "labels:\n  - name: t\n    label_membership_type: host_vitals\n    criteria:\n      vital: end_user_idp_group\n";
    let errors = lint(&LabelMembershipRule, yaml);
    assert!(errors.iter().any(|e| e.message.contains("missing 'value'")));
}

#[test]
fn test_standalone_label_file_dynamic_missing_query() {
    let yaml = "- name: standalone test\n  label_membership_type: dynamic\n";
    let errors = lint_at(&LabelMembershipRule, yaml, "labels/test.yml");
    assert!(
        errors.iter().any(|e| e.message.contains("missing 'query'")),
        "standalone label file should be scanned: {:?}",
        errors
    );
}

#[test]
fn test_standalone_label_file_host_vitals_valid() {
    let yaml = "- name: Engineering\n  label_membership_type: host_vitals\n  criteria:\n    vital: end_user_idp_department\n    value: Engineering\n";
    let errors = lint_at(&LabelMembershipRule, yaml, "labels/test.yml");
    assert!(errors.is_empty(), "expected no errors, got: {:?}", errors);
}

#[test]
fn test_null_membership_type_suggests_host_vitals() {
    let yaml = "- name: Engineering\n  description: Eng label\n  label_membership_type:\n  criteria:\n    vital: end_user_idp_department\n    value: Engineering\n";
    let errors = lint_at(&LabelMembershipRule, yaml, "labels/test.yml");
    let err = errors
        .iter()
        .find(|e| e.message.contains("empty 'label_membership_type'"))
        .expect("expected empty-membership error");
    assert_eq!(err.suggestion.as_deref(), Some("label_membership_type: host_vitals"));
}

#[test]
fn test_null_membership_type_suggests_manual() {
    let yaml = "- name: VIPs\n  label_membership_type:\n  hosts:\n    - host1\n";
    let errors = lint_at(&LabelMembershipRule, yaml, "labels/test.yml");
    let err = errors
        .iter()
        .find(|e| e.message.contains("empty 'label_membership_type'"))
        .expect("expected empty-membership error");
    assert_eq!(err.suggestion.as_deref(), Some("label_membership_type: manual"));
}

#[test]
fn test_null_membership_type_defaults_to_dynamic_suggestion() {
    let yaml = "- name: L\n  label_membership_type:\n  query: SELECT 1\n";
    let errors = lint_at(&LabelMembershipRule, yaml, "labels/test.yml");
    let err = errors
        .iter()
        .find(|e| e.message.contains("empty 'label_membership_type'"))
        .expect("expected empty-membership error");
    assert_eq!(err.suggestion.as_deref(), Some("label_membership_type: dynamic"));
}

#[test]
fn test_label_rule_skips_policy_file() {
    // Regression: a top-level sequence in a policies/*.yml file must NOT
    // be iterated as labels (that was the original bug in standalone-file
    // support).
    let yaml = "- name: some policy\n  type: patch\n  fleet_maintained_app_slug: firefox\n";
    let errors = lint_at(&LabelMembershipRule, yaml, "policies/test.yml");
    assert!(
        errors.is_empty(),
        "LabelMembershipRule should skip policy files: {:?}",
        errors
    );
}

// -- PatchPolicyRule --

#[test]
fn test_patch_policy_valid() {
    let errors = lint(
        &PatchPolicyRule,
        "policies:\n  - name: Firefox patch\n    type: patch\n    fleet_maintained_app_slug: firefox\n    install_software: true\n",
    );
    assert!(errors.is_empty(), "expected no errors, got: {:?}", errors);
}

#[test]
fn test_patch_policy_missing_slug() {
    let errors = lint(
        &PatchPolicyRule,
        "policies:\n  - name: Firefox patch\n    type: patch\n    install_software: true\n",
    );
    assert!(
        errors.iter().any(|e| e.message.contains("missing 'fleet_maintained_app_slug'")),
        "expected missing-slug error, got: {:?}",
        errors
    );
}

#[test]
fn test_install_software_true_without_patch_type() {
    let errors = lint(
        &PatchPolicyRule,
        "policies:\n  - name: Random\n    query: SELECT 1\n    install_software: true\n",
    );
    assert!(
        errors
            .iter()
            .any(|e| e.message.contains("'install_software: true' but is not a patch policy")),
        "expected install_software/patch-type error, got: {:?}",
        errors
    );
}

#[test]
fn test_install_software_mapping_ok_on_regular_policy() {
    // Regular policy with install_software mapping (no patch type required).
    let errors = lint(
        &PatchPolicyRule,
        "policies:\n  - name: Install Firefox\n    query: SELECT 1\n    install_software:\n      package_path: ./firefox.package.yml\n",
    );
    assert!(errors.is_empty(), "expected no errors, got: {:?}", errors);
}

#[test]
fn test_patch_policy_standalone_file() {
    // Standalone lib/policies/*.yml file (top-level sequence).
    let errors = lint_at(
        &PatchPolicyRule,
        "- name: Firefox patch\n  type: patch\n",
        "policies/test.yml",
    );
    assert!(
        errors.iter().any(|e| e.message.contains("missing 'fleet_maintained_app_slug'")),
        "standalone patch policy should be scanned: {:?}",
        errors
    );
}

#[test]
fn test_slug_without_patch_type_flagged() {
    let errors = lint(
        &PatchPolicyRule,
        "policies:\n  - name: stray slug\n    query: SELECT 1\n    fleet_maintained_app_slug: zoom/darwin\n",
    );
    assert!(
        errors
            .iter()
            .any(|e| e.message.contains("has 'fleet_maintained_app_slug' but is not a patch policy")),
        "expected stray-slug error, got: {:?}",
        errors
    );
}

#[test]
fn test_explicit_type_dynamic_treated_as_default() {
    // `type: dynamic` is a valid explicit form of the default — should
    // behave the same as no type: no patch-policy errors.
    let errors = lint(
        &PatchPolicyRule,
        "policies:\n  - name: classic\n    type: dynamic\n    query: SELECT 1\n",
    );
    assert!(errors.is_empty(), "expected no errors, got: {:?}", errors);
}

// -- PolicyAutomationLocationRule --

#[test]
fn test_install_software_in_default_yml_flagged() {
    let yaml = "policies:\n  - name: Install Zoom\n    query: SELECT 1\n    install_software:\n      package_path: ./zoom.package.yml\n";
    let errors = lint_at(
        &PolicyAutomationLocationRule,
        yaml,
        "default.yml",
    );
    assert!(
        errors.iter().any(|e| e.message.contains("install_software")
            && e.message.contains("fleet-only")),
        "expected install_software location error, got: {:?}",
        errors
    );
}

#[test]
fn test_run_script_in_default_yml_flagged() {
    let yaml = "policies:\n  - name: Test\n    query: SELECT 1\n    run_script:\n      path: ./fix.sh\n";
    let errors = lint_at(&PolicyAutomationLocationRule, yaml, "default.yml");
    assert!(errors.iter().any(|e| e.message.contains("run_script")));
}

#[test]
fn test_calendar_events_enabled_in_default_yml_flagged() {
    let yaml = "policies:\n  - name: Test\n    query: SELECT 1\n    calendar_events_enabled: true\n";
    let errors = lint_at(&PolicyAutomationLocationRule, yaml, "default.yml");
    assert!(errors.iter().any(|e| e.message.contains("calendar_events_enabled")));
}

#[test]
fn test_automations_in_fleet_file_not_flagged() {
    // Same content, but in a fleet file — these automations are allowed.
    let yaml = "policies:\n  - name: Install Zoom\n    query: SELECT 1\n    install_software:\n      package_path: ./zoom.package.yml\n    run_script:\n      path: ./fix.sh\n    calendar_events_enabled: true\n";
    let errors = lint_at(
        &PolicyAutomationLocationRule,
        yaml,
        "fleets/workstations.yml",
    );
    assert!(
        errors.is_empty(),
        "fleet file automations should not be flagged: {:?}",
        errors
    );
}

#[test]
fn test_automations_in_unassigned_not_flagged() {
    let yaml = "policies:\n  - name: Test\n    query: SELECT 1\n    install_software:\n      package_path: ./x.yml\n";
    let errors = lint_at(
        &PolicyAutomationLocationRule,
        yaml,
        "fleets/unassigned.yml",
    );
    assert!(
        errors.is_empty(),
        "unassigned.yml automations should not be flagged: {:?}",
        errors
    );
}

#[test]
fn test_default_yml_path_references_skipped() {
    // A path reference in default.yml is fine — the referenced lib file
    // might be imported by a fleet file too. Only inline policies are flagged.
    let yaml = "policies:\n  - path: ../lib/pol.policies.yml\n";
    let errors = lint_at(&PolicyAutomationLocationRule, yaml, "default.yml");
    assert!(errors.is_empty(), "path refs should not be flagged: {:?}", errors);
}

#[test]
fn test_default_yml_without_automations_clean() {
    let yaml = "policies:\n  - name: FileVault\n    query: SELECT 1\n    platform: darwin\n";
    let errors = lint_at(&PolicyAutomationLocationRule, yaml, "default.yml");
    assert!(errors.is_empty(), "clean default.yml should pass: {:?}", errors);
}

#[test]
fn test_patch_rule_skips_label_file() {
    // Regression: PatchPolicyRule must not iterate a standalone label
    // file's top-level sequence as policies.
    let yaml = "- name: Engineering\n  label_membership_type: host_vitals\n  criteria:\n    vital: end_user_idp_department\n    value: Engineering\n";
    let errors = lint_at(&PatchPolicyRule, yaml, "labels/test.yml");
    assert!(
        errors.is_empty(),
        "PatchPolicyRule should skip label files: {:?}",
        errors
    );
}

// -- DateFormatRule --

#[test]
fn test_date_format_valid() {
    let errors = lint(
        &DateFormatRule,
        "controls:\n  macos_updates:\n    deadline: \"2025-06-15\"\n    minimum_version: \"15.1\"\n",
    );
    assert!(errors.is_empty());
}

#[test]
fn test_date_format_invalid() {
    let errors = lint(
        &DateFormatRule,
        "controls:\n  macos_updates:\n    deadline: \"15-06-2025\"\n",
    );
    assert_eq!(errors.len(), 1);
    assert!(errors[0].message.contains("not a valid YYYY-MM-DD"));
}

#[test]
fn test_date_format_invalid_month() {
    let errors = lint(
        &DateFormatRule,
        "controls:\n  macos_updates:\n    deadline: \"2025-13-01\"\n",
    );
    assert_eq!(errors.len(), 1);
}

// -- HashFormatRule --

#[test]
fn test_hash_format_valid() {
    let errors = lint(
        &HashFormatRule,
        "software:\n  packages:\n    - path: foo.yml\n      hash_sha256: fd22528a87f3cfdb81aca981953aa5c8d7084581b9209bb69abf69c09a0afaaf\n",
    );
    assert!(errors.is_empty());
}

#[test]
fn test_hash_format_uppercase() {
    let errors = lint(
        &HashFormatRule,
        "software:\n  packages:\n    - path: foo.yml\n      hash_sha256: FD22528A87F3CFDB81ACA981953AA5C8D7084581B9209BB69ABF69C09A0AFAAF\n",
    );
    assert_eq!(errors.len(), 1);
    assert!(errors[0].message.contains("lowercase"));
    assert!(errors[0].suggestion.is_some());
}

#[test]
fn test_hash_format_wrong_length() {
    let errors = lint(
        &HashFormatRule,
        "software:\n  packages:\n    - path: foo.yml\n      hash_sha256: abc123\n",
    );
    assert_eq!(errors.len(), 1);
    assert!(errors[0].message.contains("64 characters"));
}

// -- CategoriesRule --

#[test]
fn test_categories_valid() {
    let errors = lint(
        &CategoriesRule,
        "software:\n  packages:\n    - path: foo.yml\n      categories:\n        - Browsers\n        - Security\n",
    );
    assert!(errors.is_empty());
}

#[test]
fn test_categories_invalid() {
    let errors = lint(
        &CategoriesRule,
        "software:\n  packages:\n    - path: foo.yml\n      categories:\n        - Gaming\n",
    );
    assert_eq!(errors.len(), 1);
    assert!(errors[0].message.contains("unknown category 'Gaming'"));
}

#[test]
fn test_categories_case_suggestion() {
    let errors = lint(
        &CategoriesRule,
        "software:\n  packages:\n    - path: foo.yml\n      categories:\n        - browsers\n",
    );
    assert_eq!(errors.len(), 1);
    assert_eq!(errors[0].suggestion.as_deref(), Some("Browsers"));
}

// -- FileExtensionRule --

#[test]
fn test_file_extension_valid() {
    let errors = lint(
        &FileExtensionRule,
        "controls:\n  macos_settings:\n    custom_settings:\n      - path: ../lib/profile.mobileconfig\n",
    );
    assert!(errors.is_empty());
}

#[test]
fn test_file_extension_invalid_macos() {
    let errors = lint(
        &FileExtensionRule,
        "controls:\n  macos_settings:\n    custom_settings:\n      - path: ../lib/profile.xml\n",
    );
    assert_eq!(errors.len(), 1);
    assert!(errors[0].message.contains("unexpected extension"));
}

#[test]
fn test_file_extension_scripts() {
    let errors = lint(
        &FileExtensionRule,
        "controls:\n  scripts:\n    - path: ../lib/setup.sh\n",
    );
    assert!(errors.is_empty());
}

// -- SecretHygieneRule --

#[test]
fn test_secret_hygiene_env_var() {
    let errors = lint(
        &SecretHygieneRule,
        "integrations:\n  jira:\n    - url: https://jira.example.com\n      api_token: $JIRA_TOKEN\n",
    );
    assert!(errors.is_empty());
}

#[test]
fn test_secret_hygiene_plaintext() {
    let errors = lint(
        &SecretHygieneRule,
        "integrations:\n  jira:\n    - url: https://jira.example.com\n      api_token: my-secret-token-123\n",
    );
    assert_eq!(errors.len(), 1);
    assert!(errors[0].message.contains("plain-text"));
}

#[test]
fn test_secret_hygiene_op_ref() {
    let errors = lint(
        &SecretHygieneRule,
        "integrations:\n  jira:\n    - url: https://jira.example.com\n      api_token: \"op://Vault/Jira/token\"\n",
    );
    assert!(errors.is_empty());
}

// -- PathReferenceRule --

#[test]
fn test_path_ref_valid_path() {
    let errors = lint(
        &PathReferenceRule,
        "policies:\n  - path: ../lib/policy.yml\n",
    );
    assert!(errors.is_empty());
}

#[test]
fn test_path_ref_valid_paths_glob() {
    let errors = lint(
        &PathReferenceRule,
        "policies:\n  - paths: ../lib/policies/*.yml\n",
    );
    assert!(errors.is_empty());
}

#[test]
fn test_path_ref_glob_in_path_field() {
    let errors = lint(
        &PathReferenceRule,
        "policies:\n  - path: ../lib/policies/*.yml\n",
    );
    assert_eq!(errors.len(), 1);
    assert!(errors[0].message.contains("glob characters"));
    assert!(errors[0].message.contains("use 'paths'"));
}

#[test]
fn test_path_ref_no_glob_in_paths_field() {
    let errors = lint(
        &PathReferenceRule,
        "policies:\n  - paths: ../lib/policies/specific.yml\n",
    );
    assert_eq!(errors.len(), 1);
    assert!(errors[0].message.contains("does not contain glob"));
    assert!(errors[0].message.contains("use 'path'"));
}

#[test]
fn test_path_ref_both_path_and_paths() {
    let errors = lint(
        &PathReferenceRule,
        "policies:\n  - path: foo.yml\n    paths: bar/*.yml\n",
    );
    assert_eq!(errors.len(), 1);
    assert!(errors[0].message.contains("both 'path' and 'paths'"));
}

#[test]
fn test_path_ref_inline_policy_ok() {
    // Inline policies (no path/paths) are fine
    let errors = lint(
        &PathReferenceRule,
        "policies:\n  - name: test\n    query: SELECT 1\n",
    );
    assert!(errors.is_empty());
}

#[test]
fn test_path_ref_script_requires_path() {
    let errors = lint(
        &PathReferenceRule,
        "controls:\n  scripts:\n    - name: inline-script\n",
    );
    assert_eq!(errors.len(), 1);
    assert!(errors[0].message.contains("must reference a file"));
}

#[test]
fn test_path_ref_script_with_path_ok() {
    let errors = lint(
        &PathReferenceRule,
        "controls:\n  scripts:\n    - path: ./scripts/setup.sh\n",
    );
    assert!(errors.is_empty());
}

#[test]
fn test_path_ref_script_with_glob_ok() {
    let errors = lint(
        &PathReferenceRule,
        "controls:\n  scripts:\n    - paths: ./scripts/*.sh\n",
    );
    assert!(errors.is_empty());
}

// -- is_valid_date --

#[test]
fn test_valid_dates() {
    assert!(is_valid_date("2025-06-15"));
    assert!(is_valid_date("2024-02-29")); // leap year
    assert!(is_valid_date("2025-12-31"));
}

#[test]
fn test_invalid_dates() {
    assert!(!is_valid_date("2025-13-01")); // month > 12
    assert!(!is_valid_date("2025-02-29")); // not a leap year
    assert!(!is_valid_date("15-06-2025")); // wrong format
    assert!(!is_valid_date("2025/06/15")); // wrong separator
    assert!(!is_valid_date("not-a-date"));
}

#[test]
fn test_dates_need_padded_digits() {
    assert!(!is_valid_date("2025-6-5"));
    assert!(!is_valid_date("2025-06-5"));
    assert!(!is_valid_date("+025-06-05"));
    assert!(!is_valid_date("2025-+6-05"));
    assert!(!is_valid_date("02025-06-05"));
    assert!(is_valid_date("2100-02-28"));
    assert!(!is_valid_date("1999-12-31"));
}
