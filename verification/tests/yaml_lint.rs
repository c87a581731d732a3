use flint::diag::{FixSafety, LintError, Severity};
use flint::fleet_config::FleetConfig;
use flint::rules::Rule;
use flint::yaml_lint::{YamlColonsRule, YamlEmptyValuesRule, YamlIndentationRule};

fn check_rule(rule: &dyn Rule, source: &str) -> Vec<LintError> {
    let config = FleetConfig::default();
    rule.check(&config, "test.yml", source)
}

// ── yaml-indentation ───────────────────────────────────────

#[test]
fn indentation_clean_2_space() {
    let source = "policies:\n  - name: test\n    query: \"SELECT 1;\"\n";
    let errors = check_rule(&YamlIndentationRule, source);
    assert!(
        errors.is_empty(),
        "Clean 2-space file should have no errors: {:?}",
        errors
    );
}

#[test]
fn indentation_odd_spaces() {
    let source = "policies:\n   - name: test\n";
    let errors = check_rule(&YamlIndentationRule, source);
    assert_eq!(errors.len(), 1);
    assert!(errors[0].message.contains("3 spaces"));
    assert_eq!(errors[0].line, Some(2));
}

#[test]
fn indentation_mixed_2_and_6() {
    // 2-space indent established, then a 6-space line (not a multiple of 2 unit
    // from the first indent perspective, but 6 is a multiple of 2, so it's fine).
    // This should NOT flag because 6 % 2 == 0.
    let source = "a:\n  b: 1\n      c: 2\n";
    let errors = check_rule(&YamlIndentationRule, source);
    assert!(
        errors.is_empty(),
        "6 is a multiple of 2, should be fine: {:?}",
        errors
    );
}

#[test]
fn indentation_skips_blank_and_comments() {
    let source = "a:\n\n  # comment\n  b: 1\n";
    let errors = check_rule(&YamlIndentationRule, source);
    assert!(errors.is_empty());
}

#[test]
fn indentation_skips_block_scalar_body() {
    let source = "query: |\n  SELECT 1\n   FROM users\n    WHERE id = 1;\nname: test\n";
    let errors = check_rule(&YamlIndentationRule, source);
    // The block scalar body (lines 2-4) should be skipped — odd indent is OK there
    assert!(
        errors.is_empty(),
        "Block scalar body should be skipped: {:?}",
        errors
    );
}

#[test]
fn indentation_1_space() {
    let source = "a:\n b: 1\n";
    let errors = check_rule(&YamlIndentationRule, source);
    assert_eq!(errors.len(), 1);
    assert!(errors[0].message.contains("1 spaces"));
}

// ── yaml-colons ────────────────────────────────────────────

#[test]
fn colons_normal_key_value() {
    let source = "name: test\nplatform: darwin\n";
    let errors = check_rule(&YamlColonsRule, source);
    assert!(errors.is_empty());
}

#[test]
fn colons_missing_colon() {
    let source = "name: test\nplatform\nquery: \"SELECT 1;\"\n";
    let errors = check_rule(&YamlColonsRule, source);
    assert_eq!(errors.len(), 1);
    assert!(errors[0].message.contains("platform"));
}

#[test]
fn colons_skips_comments() {
    let source = "# This is a comment\nname: test\n";
    let errors = check_rule(&YamlColonsRule, source);
    assert!(errors.is_empty());
}

#[test]
fn colons_skips_list_items() {
    let source = "policies:\n  - name: test\n";
    let errors = check_rule(&YamlColonsRule, source);
    assert!(errors.is_empty());
}

#[test]
fn colons_skips_boolean_values() {
    // `true` as a standalone value in a list shouldn't flag
    let source = "name: test\n";
    let errors = check_rule(&YamlColonsRule, source);
    assert!(errors.is_empty());
}

#[test]
fn colons_skips_quoted_strings() {
    let source = "\"some string value\"\n";
    let errors = check_rule(&YamlColonsRule, source);
    assert!(errors.is_empty());
}

#[test]
fn colons_skips_block_scalar_body() {
    let source = "query: |\n  SELECT 1\n  FROM users\nname: test\n";
    let errors = check_rule(&YamlColonsRule, source);
    assert!(
        errors.is_empty(),
        "Block scalar body should be skipped: {:?}",
        errors
    );
}

#[test]
fn colons_skips_document_markers() {
    let source = "---\nname: test\n...\n";
    let errors = check_rule(&YamlColonsRule, source);
    assert!(errors.is_empty());
}

// ── yaml-empty-values ──────────────────────────────────────

#[test]
fn empty_values_parent_key_ok() {
    // `policies:` with children is normal — not flagged
    let source = "policies:\n  - name: test\n";
    let errors = check_rule(&YamlEmptyValuesRule, source);
    assert!(
        errors.is_empty(),
        "Parent keys should not be flagged: {:?}",
        errors
    );
}

#[test]
fn empty_values_leaf_key_flagged() {
    let source = "name: test\nplatform:\ndescription: hello\n";
    let errors = check_rule(&YamlEmptyValuesRule, source);
    assert_eq!(errors.len(), 1);
    assert!(errors[0].message.contains("platform"));
    assert_eq!(errors[0].severity, Severity::Info);
}

#[test]
fn empty_values_with_comment_after_colon() {
    let source = "name: test\nplatform: # TODO fill this in\ndescription: hello\n";
    let errors = check_rule(&YamlEmptyValuesRule, source);
    assert_eq!(errors.len(), 1);
    assert!(errors[0].message.contains("platform"));
}

#[test]
fn empty_values_block_scalar_not_flagged() {
    let source = "query: |\n  SELECT 1;\nname: test\n";
    let errors = check_rule(&YamlEmptyValuesRule, source);
    assert!(
        errors.is_empty(),
        "Block scalar keys should not be flagged: {:?}",
        errors
    );
}

#[test]
fn empty_values_last_line_leaf() {
    let source = "name: test\nplatform:\n";
    let errors = check_rule(&YamlEmptyValuesRule, source);
    assert_eq!(errors.len(), 1);
}

#[test]
fn empty_values_list_item_mapping_with_siblings() {
    // `- name:` in a list-item mapping — `query:` at deeper indent looks
    // like a child to our text-based heuristic, so it's NOT flagged.
    // This is a known trade-off of pure text analysis vs. YAML parsing.
    let source = "policies:\n  - name:\n    query: \"SELECT 1;\"\n";
    let errors = check_rule(&YamlEmptyValuesRule, source);
    assert!(
        errors.is_empty(),
        "List-item siblings at deeper indent should not be flagged: {:?}",
        errors
    );
}

#[test]
fn empty_values_standalone_leaf() {
    // A leaf key at the end of a list item with no deeper content
    let source = "policies:\n  - name: test\n    platform:\n";
    let errors = check_rule(&YamlEmptyValuesRule, source);
    assert_eq!(errors.len(), 1);
    assert!(errors[0].message.contains("platform"));
}

#[test]
fn empty_values_fleet_collection_keys_not_flagged() {
    // Fleet-idiomatic: empty collection keys mean "no items" — don't flag.
    let source = "android_settings:\n  configuration_profiles:\n  certificates:\n\n  scripts:\n";
    let errors = check_rule(&YamlEmptyValuesRule, source);
    assert!(
        errors.is_empty(),
        "Fleet collection keys should not trigger empty-values: {:?}",
        errors
    );
}

#[test]
fn empty_values_top_level_collections_not_flagged() {
    // `software:`, `policies:`, `labels:`, `queries:` at top level with no
    // children are valid ("no items") — don't flag.
    let source = "software:\n\npolicies:\n\nlabels:\n\nqueries:\n";
    let errors = check_rule(&YamlEmptyValuesRule, source);
    assert!(
        errors.is_empty(),
        "Top-level empty collections should not trigger empty-values: {:?}",
        errors
    );
}

#[test]
fn empty_values_help_does_not_suggest_null() {
    // The help text should not push users toward `null` — empty keys in
    // Fleet GitOps are fixed by providing a value or removing the key.
    let source = "query:\n";
    let errors = check_rule(&YamlEmptyValuesRule, source);
    assert_eq!(errors.len(), 1);
    let help = errors[0].help.as_deref().unwrap_or("");
    assert!(
        !help.to_lowercase().contains("null"),
        "help should not mention null, got: {help}"
    );
}

// ── Auto-fix tests ──────────────────────────────────────────

#[test]
fn indentation_fix_rounds_down_to_2() {
    let source = "policies:\n   - name: test\n";
    let errors = check_rule(&YamlIndentationRule, source);
    assert_eq!(errors.len(), 1);
    // 3 spaces → 2 spaces (round down)
    assert_eq!(errors[0].context.as_deref(), Some("   "));
    assert_eq!(errors[0].suggestion.as_deref(), Some("  "));
    assert_eq!(errors[0].fix_safety, Some(FixSafety::Unsafe));
}

#[test]
fn indentation_fix_5_rounds_to_4() {
    let source = "a:\n     b: 1\n";
    let errors = check_rule(&YamlIndentationRule, source);
    assert_eq!(errors.len(), 1);
    // 5 spaces → 4 spaces
    assert_eq!(errors[0].context.as_deref(), Some("     "));
    assert_eq!(errors[0].suggestion.as_deref(), Some("    "));
}

#[test]
fn indentation_fix_1_rounds_to_0() {
    let source = "a:\n b: 1\n";
    let errors = check_rule(&YamlIndentationRule, source);
    assert_eq!(errors.len(), 1);
    // 1 space → 0 spaces
    assert_eq!(errors[0].context.as_deref(), Some(" "));
    assert_eq!(errors[0].suggestion.as_deref(), Some(""));
}

#[test]
fn colons_fix_appends_colon() {
    let source = "name: test\nplatform\nquery: \"SELECT 1;\"\n";
    let errors = check_rule(&YamlColonsRule, source);
    assert_eq!(errors.len(), 1);
    assert_eq!(errors[0].context.as_deref(), Some("platform"));
    assert_eq!(errors[0].suggestion.as_deref(), Some("platform: "));
    assert_eq!(errors[0].fix_safety, Some(FixSafety::Safe));
}

#[test]
fn colons_is_fixable() {
    assert!(YamlColonsRule.is_fixable());
}

#[test]
fn indentation_is_fixable() {
    assert!(YamlIndentationRule.is_fixable());
}

#[test]
fn empty_values_not_fixable() {
    assert!(!YamlEmptyValuesRule.is_fixable());
}

// ── Integration: rules appear in list-rules ────────────────

#[test]
fn rules_have_correct_metadata() {
    let indent = YamlIndentationRule;
    assert_eq!(indent.name(), "yaml-indentation");
    assert_eq!(indent.category(), "yaml");
    assert_eq!(indent.default_severity(), Severity::Warning);
    assert!(indent.is_fixable());

    let colons = YamlColonsRule;
    assert_eq!(colons.name(), "yaml-colons");
    assert_eq!(colons.default_severity(), Severity::Warning);
    assert!(colons.is_fixable());

    let empty = YamlEmptyValuesRule;
    assert_eq!(empty.name(), "yaml-empty-values");
    assert_eq!(empty.default_severity(), Severity::Info);
    assert!(!empty.is_fixable());
}
