use flint::hover::{
    determine_yaml_context, extract_key_from_line, find_word_at, hover_at,
    infer_context_from_structure, is_sql_context, Position,
};

#[test]
fn test_find_word_at() {
    let line = "  platform: darwin";
    let (word, start, end) = find_word_at(line, 4).unwrap();
    assert_eq!(word, "platform");
    assert_eq!(start, 2);
    assert_eq!(end, 10);

    let (word, _, _) = find_word_at(line, 14).unwrap();
    assert_eq!(word, "darwin");
}

#[test]
fn test_find_word_on_colon() {
    let line = "  platform:";
    let (word, _, _) = find_word_at(line, 10).unwrap(); // on the colon
    assert_eq!(word, "platform");
}

#[test]
fn test_determine_yaml_context() {
    let source = "policies:\n  - name: test\n    platform: darwin";
    assert_eq!(determine_yaml_context(source, 1), "policies");
    assert_eq!(determine_yaml_context(source, 2), "policies");
}

#[test]
fn test_is_sql_context() {
    let source = "policies:\n  - name: test\n    query: |\n      SELECT * FROM processes";
    assert!(is_sql_context(source, 3, "      SELECT * FROM processes"));
}

#[test]
fn test_hover_platform_field() {
    let source = "policies:\n  - name: test\n    platform: darwin";
    let hover = hover_at(
        source,
        Position {
            line: 2,
            character: 6,
        },
    );
    assert!(hover.is_some());
    let content = hover.unwrap().value;
    assert!(content.contains("platform"));
}

#[test]
fn test_hover_platform_value() {
    let source = "policies:\n  - name: test\n    platform: darwin";
    let hover = hover_at(
        source,
        Position {
            line: 2,
            character: 16,
        },
    );
    assert!(hover.is_some());
    let content = hover.unwrap().value;
    assert!(content.contains("darwin") || content.contains("macOS"));
}

#[test]
fn test_hover_osquery_table() {
    let source = "policies:\n  - name: test\n    query: SELECT * FROM processes";
    let hover = hover_at(
        source,
        Position {
            line: 2,
            character: 30,
        },
    );
    assert!(hover.is_some());
    let content = hover.unwrap().value;
    assert!(content.contains("processes") || content.contains("osquery"));
}

#[test]
fn test_extract_key_from_line() {
    assert_eq!(
        extract_key_from_line("  platform: darwin"),
        Some("platform".to_string())
    );
    assert_eq!(
        extract_key_from_line("- name: test"),
        Some("name".to_string())
    );
    assert_eq!(
        extract_key_from_line("  - query: SELECT 1"),
        Some("query".to_string())
    );
}

// Tests for lib/ file detection (standalone policy/query definitions)
#[test]
fn test_infer_context_from_structure_policy() {
    // lib/linux/policies/linux-device-health.policies.yml format
    let source = r#"- name: Linux - Enable disk encryption
  platform: linux
  description: This policy checks if disk encryption is enabled.
  resolution: As an IT admin, deploy an image that includes disk encryption.
  query: SELECT 1 FROM disk_encryption WHERE encrypted=1;"#;

    assert_eq!(infer_context_from_structure(source), Some("policies"));
}

#[test]
fn test_infer_context_from_structure_query() {
    // lib/queries format with interval (characteristic of queries, not policies)
    let source = r#"- name: Get running processes
  query: SELECT * FROM processes
  interval: 3600
  logging: differential"#;

    assert_eq!(infer_context_from_structure(source), Some("queries"));
}

#[test]
fn test_hover_in_lib_policy_file() {
    // Simulate a lib/ policy file with no "policies:" wrapper
    let source = r#"- name: Linux - Enable disk encryption
  platform: linux
  description: This policy checks if disk encryption is enabled.
  resolution: As an IT admin, deploy an image that includes disk encryption.
  query: SELECT 1 FROM disk_encryption WHERE encrypted=1;"#;

    // Hovering over "platform" should show policy.platform documentation
    let hover = hover_at(
        source,
        Position {
            line: 1,
            character: 3,
        },
    );
    assert!(hover.is_some());
    let content = hover.unwrap().value;
    assert!(
        content.contains("platform"),
        "Should show platform documentation"
    );
}

#[test]
fn test_hover_in_lib_policy_file_resolution() {
    // Simulate a lib/ policy file with no "policies:" wrapper
    let source = r#"- name: Linux - Enable disk encryption
  platform: linux
  description: This policy checks if disk encryption is enabled.
  resolution: As an IT admin, deploy an image that includes disk encryption.
  query: SELECT 1 FROM disk_encryption WHERE encrypted=1;"#;

    // Hovering over "resolution" should show policy.resolution documentation
    let hover = hover_at(
        source,
        Position {
            line: 3,
            character: 3,
        },
    );
    assert!(hover.is_some());
    let content = hover.unwrap().value;
    assert!(
        content.contains("resolution"),
        "Should show resolution documentation"
    );
}

#[test]
fn test_hover_queries_without_future_names() {
    let source = "queries:\n  - name: test\n    query: SELECT 1";
    let hover = hover_at(
        source,
        Position {
            line: 0,
            character: 2,
        },
    );
    assert!(hover.is_some());
    let content = hover.unwrap().value;
    assert!(
        !content.contains("Deprecated"),
        "Hover should NOT show deprecation notice without future_names"
    );
}

#[test]
fn test_hover_paths_in_controls() {
    let source = r#"controls:
  apple_settings:
configuration_profiles:
  - paths: ../platforms/macos/declaration-profiles/*.json
  - path: ../platforms/macos/configuration-profiles/wifi.mobileconfig
  scripts:
- paths: ../platforms/macos/scripts/*.sh"#;

    // Hover on "paths" (line 3, col 8)
    let hover = hover_at(
        source,
        Position {
            line: 3,
            character: 8,
        },
    );
    assert!(
        hover.is_some(),
        "Should show hover for 'paths' in controls.apple_settings"
    );

    // Hover on "path" (line 4, col 8)
    let hover = hover_at(
        source,
        Position {
            line: 4,
            character: 8,
        },
    );
    assert!(
        hover.is_some(),
        "Should show hover for 'path' in controls.apple_settings"
    );
}

#[test]
fn test_determine_yaml_context_lib_file() {
    // lib/ file with no top-level key, just a list of policies
    let source = r#"- name: Test Policy
  platform: darwin
  resolution: Fix it
  query: SELECT 1"#;

    // Should detect as "policies" context
    assert_eq!(determine_yaml_context(source, 1), "policies");
}

#[test]
fn hover_range_covers_the_word() {
    let source = "policies:\n  - name: test\n    platform: darwin";
    let h = hover_at(source, Position { line: 2, character: 16 }).unwrap();
    assert_eq!(h.start, Position { line: 2, character: 14 });
    assert_eq!(h.end, Position { line: 2, character: 20 });
    assert_eq!(h.value, "**darwin**\n\nmacOS - Apple desktop and laptop computers");
}

#[test]
fn hover_past_the_last_line_is_empty() {
    assert!(hover_at("policies:\n", Position { line: 5, character: 0 }).is_none());
}

#[test]
fn hover_on_osquery_table_lists_platforms() {
    let source = "policies:\n  - name: test\n    query: SELECT * FROM alf";
    let h = hover_at(source, Position { line: 2, character: 27 }).unwrap();
    assert_eq!(h.value, "**alf** (osquery table)\n\nmacOS application layer firewall\n\n**Platforms:** darwin");
}

#[test]
fn word_search_looks_around_the_cursor() {
    assert_eq!(find_word_at("a: b", 1), Some(("a".to_string(), 0, 1)));
    assert_eq!(find_word_at("  - x", 3), Some(("x".to_string(), 4, 5)));
    assert_eq!(find_word_at("   ", 1), None);
    assert_eq!(find_word_at("", 0), None);
    // a column past the end means the last character
    assert_eq!(find_word_at("key", 40), Some(("key".to_string(), 0, 3)));
}

#[test]
fn keys_with_spaces_or_without_colon() {
    assert_eq!(extract_key_from_line("no colon here"), None);
    assert_eq!(extract_key_from_line("  : value"), None);
    assert_eq!(extract_key_from_line("--- - key: v"), Some("- key".to_string()));
}

#[test]
fn context_defaults_to_root() {
    assert_eq!(determine_yaml_context("name: x\n", 0), "root");
    assert_eq!(determine_yaml_context("url: https://x\n", 0), "software_lib");
    assert_eq!(infer_context_from_structure("config:\n  options: {}\n"), Some("agent_options"));
}
