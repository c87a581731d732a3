use flint::diag::{FixSafety, Severity};
use flint::fleet_config::{
    FleetConfig, Label, LabelOrPath, Policy, PolicyOrPath, Query, QueryOrPath, WebhookSettings,
};
use flint::rules::{
    check_query_platform_compat, check_query_syntax, find_key_line, find_similar_logging, find_similar_platform,
    platform_compat_diags, query_syntax_diags, strip_sql_comments, strip_sql_string_literals,
    DuplicateNamesRule, IntervalValidationRule, PlatformCompatibilityRule, QuerySyntaxRule,
    BuiltinRule, RequiredFieldsRule, Rule, SecurityRule, TypeValidationRule,
};

#[test]
fn strip_comments_block() {
    let sql = "SELECT 1 /* comment */ FROM t";
    assert_eq!(strip_sql_comments(sql), "SELECT 1   FROM t");
}

#[test]
fn strip_comments_line() {
    let sql = "SELECT 1 -- comment\nFROM t";
    assert_eq!(strip_sql_comments(sql), "SELECT 1 \nFROM t");
}

#[test]
fn strip_comments_unterminated_block() {
    let sql = "SELECT 1 /* no closing";
    let result = strip_sql_comments(sql);
    assert_eq!(result, "SELECT 1  ");
    assert!(!result.contains("no closing"));
}

#[test]
fn strip_comments_apostrophe_in_comment() {
    let sql = "SELECT 1 /*organization's decision*/";
    let result = strip_sql_comments(sql);
    assert!(
        !result.contains('\''),
        "Apostrophe should be stripped: {}",
        result
    );
}

#[test]
fn strip_string_literals_preserves_keywords() {
    let sql = "SELECT 1 WHERE name = 'DROP TABLE'";
    let result = strip_sql_string_literals(sql);
    assert!(
        !result.contains("DROP TABLE"),
        "Keywords inside strings should be blanked"
    );
    assert!(result.contains("SELECT"));
}

#[test]
fn strip_string_literals_drop_box() {
    let sql = "SELECT 1 WHERE path NOT LIKE '%Drop Box%'";
    let result = strip_sql_string_literals(sql);
    assert!(
        !result.contains("Drop"),
        "Drop inside string literal should be blanked"
    );
}

fn policy(name: Option<&str>, query: Option<&str>, platform: Option<&str>) -> Policy {
    Policy {
        name: name.map(|s| s.to_string()),
        description: None,
        query: query.map(|s| s.to_string()),
        platform: platform.map(|s| s.to_string()),
        critical: None,
        resolution: None,
        team: None,
        calendar_events_enabled: None,
        policy_type: None,
        fleet_maintained_app_slug: None,
        version: None,
        install_software: None,
        run_script: None,
    }
}

fn query(name: Option<&str>, sql: Option<&str>, interval: Option<i64>, logging: Option<&str>) -> Query {
    Query {
        name: name.map(|s| s.to_string()),
        description: None,
        query: sql.map(|s| s.to_string()),
        interval,
        platform: None,
        logging: logging.map(|s| s.to_string()),
        min_osquery_version: None,
        observer_can_run: None,
        automations_enabled: None,
    }
}

fn label(name: Option<&str>, sql: Option<&str>) -> Label {
    Label {
        name: name.map(|s| s.to_string()),
        description: None,
        query: sql.map(|s| s.to_string()),
        platform: None,
        label_membership_type: None,
        hosts: None,
    }
}

#[test]
fn strip_comments_non_ascii_bytes() {
    // Kept bytes become the characters with those codes.
    assert_eq!(strip_sql_comments("é"), "\u{c3}\u{a9}");
    assert_eq!(strip_sql_comments("a--x"), "a");
    assert_eq!(strip_sql_comments("/**/b"), " b");
}

#[test]
fn required_fields_reports_missing_name_and_query() {
    let mut config = FleetConfig::default();
    config.policies = Some(vec![
        PolicyOrPath::Path { path: "a.yml".to_string() },
        PolicyOrPath::Policy(policy(None, None, None)),
    ]);
    config.queries = Some(vec![QueryOrPath::Query(query(Some("q"), Some(""), None, None))]);
    config.labels = Some(vec![LabelOrPath::Label(label(Some(""), None))]);
    let errors = RequiredFieldsRule.check(&config, "f.yml", "");
    assert_eq!(errors.len(), 4);
    assert_eq!(errors[0].message, "Policy #2 is missing required field 'name'");
    assert_eq!(errors[1].message, "Policy 'unnamed' is missing required field 'query'");
    assert_eq!(errors[1].suggestion.as_deref(), Some("query: \"SELECT 1 FROM ...;\""));
    assert_eq!(errors[2].message, "Query 'q' is missing required field 'query'");
    assert_eq!(errors[3].message, "Label #1 is missing required field 'name'");
}

#[test]
fn required_fields_patch_policy_needs_no_query() {
    let mut p = policy(Some("p"), None, None);
    p.policy_type = Some("patch".to_string());
    let mut config = FleetConfig::default();
    config.policies = Some(vec![PolicyOrPath::Policy(p)]);
    assert!(RequiredFieldsRule.check(&config, "f.yml", "").is_empty());
}

#[test]
fn type_validation_platform_and_logging() {
    let mut config = FleetConfig::default();
    config.policies = Some(vec![PolicyOrPath::Policy(policy(Some("p"), Some("SELECT 1;"), Some("macos")))]);
    config.queries = Some(vec![QueryOrPath::Query(query(Some("q"), Some("SELECT 1;"), Some(0), Some("diff")))]);
    let source = "policies:\n  - name: p\n    platform: macos\n";
    let errors = TypeValidationRule.check(&config, "f.yml", source);
    assert_eq!(errors.len(), 3);
    assert_eq!(errors[0].message, "Policy 'p' has invalid platform 'macos'");
    assert_eq!(errors[0].suggestion.as_deref(), Some("darwin"));
    assert_eq!(errors[0].context.as_deref(), Some("macos"));
    assert_eq!(errors[0].fix_safety, Some(FixSafety::Safe));
    assert_eq!(errors[0].line, Some(3));
    assert_eq!(errors[1].message, "Query 'q' has invalid interval 0");
    assert_eq!(errors[2].message, "Query 'q' has invalid logging type 'diff'");
    assert_eq!(errors[2].suggestion.as_deref(), Some("differential"));
}

#[test]
fn similar_names() {
    assert_eq!(find_similar_platform("Win"), "windows");
    assert_eq!(find_similar_platform("ubuntu"), "linux");
    assert_eq!(find_similar_platform("ipad"), "ipados");
    assert_eq!(find_similar_platform("zzz"), "darwin");
    assert_eq!(find_similar_platform(""), "darwin");
    assert_eq!(find_similar_logging("DIFF_ignore"), "differential_ignore_removals");
    assert_eq!(find_similar_logging("snap"), "snapshot");
    assert_eq!(find_similar_logging("other"), "snapshot");
}

#[test]
fn key_line_search() {
    let src = "a: 1\n- - platform: x\n  platform: y\n";
    assert_eq!(find_key_line(src, "platform", 0), Some(2));
    assert_eq!(find_key_line(src, "platform", 2), Some(3));
    assert_eq!(find_key_line(src, "missing", 0), None);
}

#[test]
fn security_flags_tokens_in_webhook_urls() {
    let mut config = FleetConfig::default();
    config.webhook_settings = Some(WebhookSettings {
        url: Some("https://x/?api_key=1".to_string()),
        enable_host_status_webhook: None,
        enable_vulnerabilities_webhook: None,
    });
    let errors = SecurityRule.check(&config, "f.yml", "");
    assert_eq!(errors.len(), 1);
    assert_eq!(errors[0].severity, Severity::Warning);
    config.webhook_settings.as_mut().unwrap().url = Some("$WEBHOOK_URL".to_string());
    assert!(SecurityRule.check(&config, "f.yml", "").is_empty());
}

#[test]
fn interval_bounds() {
    let mut config = FleetConfig::default();
    config.queries = Some(vec![
        QueryOrPath::Query(query(Some("fast"), None, Some(59), None)),
        QueryOrPath::Query(query(Some("ok"), None, Some(60), None)),
        QueryOrPath::Query(query(None, None, Some(86401), None)),
    ]);
    let errors = IntervalValidationRule.check(&config, "f.yml", "");
    assert_eq!(errors.len(), 2);
    assert_eq!(
        errors[0].message,
        "Query 'fast' has very short interval (59 seconds). This may cause high resource usage."
    );
    assert_eq!(errors[1].severity, Severity::Info);
    assert_eq!(
        errors[1].message,
        "Query 'unnamed' has interval > 24 hours (86401 seconds). Events may be missed."
    );
}

#[test]
fn duplicate_names_per_section() {
    let mut config = FleetConfig::default();
    config.policies = Some(vec![
        PolicyOrPath::Policy(policy(Some("a"), None, None)),
        PolicyOrPath::Policy(policy(Some("a"), None, None)),
        PolicyOrPath::Policy(policy(Some("a"), None, None)),
    ]);
    config.labels = Some(vec![LabelOrPath::Label(label(Some("a"), None))]);
    let errors = DuplicateNamesRule.check(&config, "f.yml", "");
    assert_eq!(errors.len(), 2);
    assert_eq!(errors[0].message, "Duplicate policy name: 'a'");
    assert_eq!(
        errors[0].help.as_deref(),
        Some("Policy names must be unique within the organization")
    );
}

#[test]
fn query_syntax_findings() {
    let errors = check_query_syntax("select * from t where (a = 'x", &['Q'], "f.yml");
    let msgs: Vec<&str> = errors.iter().map(|e| e.message.as_str()).collect();
    assert_eq!(
        msgs,
        vec![
            "Q uses SELECT * which may return unnecessary data",
            "Q has unbalanced parentheses (1 open, 0 close)",
            "Q has unbalanced single quotes",
        ]
    );
    let errors = check_query_syntax("DELETE FROM t", &['Q'], "f.yml");
    assert_eq!(errors.len(), 2);
    assert_eq!(errors[0].message, "Q query does not contain SELECT statement");
    assert_eq!(errors[1].message, "Q contains non-SELECT SQL statement");
    assert!(check_query_syntax("SELECT software_update FROM t;", &['Q'], "f.yml").is_empty());
    let direct = query_syntax_diags("x", "x", "X", true, &['Q'], "f.yml");
    assert_eq!(direct.len(), 2);
}

#[test]
fn query_syntax_rule_names_items() {
    let mut config = FleetConfig::default();
    config.labels = Some(vec![LabelOrPath::Label(label(Some("L"), Some("SELECT (1")))]);
    let errors = QuerySyntaxRule.check(&config, "f.yml", "");
    assert_eq!(errors.len(), 1);
    assert_eq!(errors[0].message, "Label 'L' has unbalanced parentheses (1 open, 0 close)");
}

#[test]
fn platform_compatibility_uses_table_matrix() {
    let mut p = policy(Some("fv"), Some("SELECT 1 FROM FileVault_Status;"), Some("windows"));
    p.platform = Some("windows".to_string());
    let mut config = FleetConfig::default();
    config.policies = Some(vec![PolicyOrPath::Policy(p)]);
    let errors = PlatformCompatibilityRule.check(&config, "f.yml", "");
    assert_eq!(errors.len(), 1);
    assert_eq!(
        errors[0].message,
        "Policy 'fv' uses table 'filevault_status' which is not available on platform 'windows'"
    );
    assert_eq!(
        errors[0].help.as_deref(),
        Some("Table 'filevault_status' is only available on: darwin")
    );
    let direct = platform_compat_diags(
        &["disk_encryption".to_string(), "unknown_table".to_string()],
        "chrome",
        &['X'],
        "f.yml",
    );
    assert_eq!(direct.len(), 1);
    assert_eq!(
        direct[0].help.as_deref(),
        Some("Table 'disk_encryption' is only available on: darwin, linux, windows")
    );
}

#[test]
fn test_builtin_rule_metadata() {
    let r = BuiltinRule::RequiredFields;
    assert_eq!(r.name(), "required-fields");
    assert_eq!(r.description(), "Ensures all required fields are present");
    assert_eq!(r.category(), "structural");
    assert!(r.is_fixable());
    assert!(!r.is_preview());
    assert_eq!(r.default_severity(), Severity::Error);
    assert_eq!(r.docs_url(), Some("https://fleetdm.com/docs/configuration/yaml-files#gitops"));
    let e = BuiltinRule::YamlEmptyValues;
    assert_eq!(e.category(), "yaml");
    assert_eq!(e.default_severity(), Severity::Info);
    assert!(!e.is_fixable());
    assert_eq!(e.docs_url(), None);
    assert_eq!(BuiltinRule::IntervalValidation.default_severity(), Severity::Warning);
}

#[test]
fn test_platform_list_is_split() {
    let item: Vec<char> = "Policy 'p'".chars().collect();
    let ok = check_query_platform_compat("SELECT 1 FROM disk_encryption", "darwin,linux", &item, "t.yml");
    assert!(ok.is_empty());
    let ok2 = check_query_platform_compat("SELECT 1 FROM alf", "windows, darwin", &item, "t.yml");
    assert!(ok2.is_empty());
    let bad = check_query_platform_compat("SELECT 1 FROM alf", "linux,windows", &item, "t.yml");
    assert_eq!(bad.len(), 1);
    assert_eq!(
        bad[0].message,
        "Policy 'p' uses table 'alf' which is not available on platform 'linux,windows'"
    );
}

#[test]
fn strip_comments_twice_changes_nothing() {
    let sql = "SELECT a -- note\n/* x */ FROM t /*/ y */ WHERE b = '-' - 1";
    let once = strip_sql_comments(sql);
    let twice = strip_sql_comments(&once);
    assert_eq!(once, "SELECT a \n  FROM t   WHERE b = '-' - 1");
    assert_eq!(twice, once);
}
