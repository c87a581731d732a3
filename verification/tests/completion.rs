use flint::completion::{
    complete_agent_options_section, complete_at, complete_at_with_context,
    complete_controls_section, complete_org_settings_section, complete_software_section,
    complete_team_settings_section, complete_top_level_fields, determine_completion_context, extract_partial_path,
    find_platform_in_context, get_key_at_cursor, matches_context_type, complete_file_paths,
    create_path_completion, skip_scan_dir, CompletionContext, CompletionItemKind, PathContextType,
};
use flint::paths::{calculate_relative_path, path_scan_base};
use flint::hover::Position;

#[test]
fn test_complete_top_level() {
    let source = "";
    let completions = complete_at(
        source,
        Position {
            line: 0,
            character: 0,
        },
    );
    assert!(!completions.is_empty());

    let labels: Vec<_> = completions.iter().map(|c| c.label.as_str()).collect();
    assert!(labels.contains(&"policies"));
    assert!(labels.contains(&"queries"));
    assert!(labels.contains(&"labels"));
    // future_names=false should NOT suggest new names
    assert!(!labels.contains(&"reports"));
    assert!(!labels.contains(&"settings"));
}

#[test]
fn test_complete_top_level_future_names() {
    let source = "";
    let completions = complete_at_with_context(
        source,
        Position {
            line: 0,
            character: 0,
        },
        None,
        None,
        &[],
        true,
    );
    assert!(!completions.is_empty());

    let labels: Vec<_> = completions.iter().map(|c| c.label.as_str()).collect();
    // future_names=true should suggest new names
    assert!(labels.contains(&"reports"));
    assert!(labels.contains(&"settings"));
    // Should NOT suggest old names that have been replaced
    assert!(!labels.contains(&"queries"));
    // policies is unchanged
    assert!(labels.contains(&"policies"));
}

#[test]
fn test_complete_policy_fields() {
    let source = "policies:\n  - ";
    let completions = complete_at(
        source,
        Position {
            line: 1,
            character: 4,
        },
    );
    assert!(!completions.is_empty());

    let labels: Vec<_> = completions.iter().map(|c| c.label.as_str()).collect();
    assert!(labels.contains(&"name"));
    assert!(labels.contains(&"query"));
    assert!(labels.contains(&"platform"));
}

#[test]
fn test_complete_platform_values() {
    let source = "policies:\n  - name: test\n    platform: ";
    let completions = complete_at(
        source,
        Position {
            line: 2,
            character: 15,
        },
    );

    let labels: Vec<_> = completions.iter().map(|c| c.label.as_str()).collect();
    assert!(labels.contains(&"darwin"));
    assert!(labels.contains(&"windows"));
    assert!(labels.contains(&"linux"));
}

#[test]
fn test_complete_osquery_tables() {
    let source = "policies:\n  - name: test\n    query: |\n      SELECT * FROM ";
    let completions = complete_at(
        source,
        Position {
            line: 3,
            character: 20,
        },
    );

    // Should have osquery tables
    assert!(!completions.is_empty());
    let labels: Vec<_> = completions.iter().map(|c| c.label.as_str()).collect();
    assert!(labels.contains(&"processes"));
}

#[test]
fn test_get_key_at_cursor() {
    assert_eq!(
        get_key_at_cursor("    platform: darwin", 15),
        Some("platform".to_string())
    );
    assert_eq!(
        get_key_at_cursor("  - name: test", 10),
        Some("name".to_string())
    );
    assert_eq!(get_key_at_cursor("    platform: ", 5), None); // cursor before colon
}

#[test]
fn test_find_platform_in_context() {
    let source = "policies:\n  - name: test\n    platform: darwin\n    query: |";
    assert_eq!(
        find_platform_in_context(source, 3),
        Some("darwin".to_string())
    );
}

#[test]
fn test_extract_partial_path() {
    // Empty partial
    assert_eq!(extract_partial_path("    path: ", 10), "");

    // Partial typed
    assert_eq!(extract_partial_path("    path: ../lib/m", 18), "../lib/m");

    // With quotes
    assert_eq!(extract_partial_path("    path: \"../lib/m", 19), "../lib/m");

    // Array item format
    assert_eq!(extract_partial_path("  - path: ../lib/", 17), "../lib/");
}

#[test]
fn test_matches_context_type() {
    // SoftwarePackage should match .yml and .yaml
    assert!(matches_context_type(
        "test.yml",
        &PathContextType::SoftwarePackage
    ));
    assert!(matches_context_type(
        "test.yaml",
        &PathContextType::SoftwarePackage
    ));
    assert!(!matches_context_type(
        "test.sh",
        &PathContextType::SoftwarePackage
    ));

    // Script should match .sh, .ps1, .bat
    assert!(matches_context_type(
        "test.sh",
        &PathContextType::Script
    ));
    assert!(matches_context_type(
        "test.ps1",
        &PathContextType::Script
    ));
    assert!(matches_context_type(
        "test.bat",
        &PathContextType::Script
    ));
    assert!(!matches_context_type(
        "test.yml",
        &PathContextType::Script
    ));

    // MacOSProfile should match .mobileconfig and .plist
    assert!(matches_context_type(
        "test.mobileconfig",
        &PathContextType::MacOSProfile
    ));
    assert!(matches_context_type(
        "test.plist",
        &PathContextType::MacOSProfile
    ));
    assert!(!matches_context_type(
        "test.xml",
        &PathContextType::MacOSProfile
    ));

    // WindowsProfile should match .xml
    assert!(matches_context_type(
        "test.xml",
        &PathContextType::WindowsProfile
    ));
    assert!(!matches_context_type(
        "test.yml",
        &PathContextType::WindowsProfile
    ));

    // Generic should match anything
    assert!(matches_context_type(
        "test.yml",
        &PathContextType::Generic
    ));
    assert!(matches_context_type(
        "test.sh",
        &PathContextType::Generic
    ));
    assert!(matches_context_type(
        "test.txt",
        &PathContextType::Generic
    ));
}

#[test]
fn test_complete_inside_reports_context() {
    let source = "reports:\n  - ";
    let completions = complete_at(
        source,
        Position {
            line: 1,
            character: 4,
        },
    );
    assert!(!completions.is_empty());

    let labels: Vec<_> = completions.iter().map(|c| c.label.as_str()).collect();
    // reports maps to QueryField, so should get query fields
    assert!(labels.contains(&"name"));
    assert!(labels.contains(&"query"));
}

#[test]
fn test_complete_inside_settings_context() {
    let source = "settings:\n  ";
    let completions = complete_at(
        source,
        Position {
            line: 1,
            character: 2,
        },
    );
    assert!(!completions.is_empty());

    let labels: Vec<_> = completions.iter().map(|c| c.label.as_str()).collect();
    // settings maps to TeamSettingsSection
    assert!(labels.contains(&"features"));
}

#[test]
fn test_path_context_detection() {
    // In software.packages, path: should give SoftwarePackage context
    let source = "software:\n  packages:\n    - path: ";
    let context = determine_completion_context(source, 2, "    - path: ", 12);
    assert_eq!(
        context,
        CompletionContext::PathValue {
            context_type: PathContextType::SoftwarePackage
        }
    );

    // In controls.scripts, path: should give Script context
    let source2 = "controls:\n  scripts:\n    - path: ";
    let context2 = determine_completion_context(source2, 2, "    - path: ", 12);
    assert_eq!(
        context2,
        CompletionContext::PathValue {
            context_type: PathContextType::Script
        }
    );

    // In macos_settings.custom_settings, path: should give MacOSProfile context
    let source3 = "controls:\n  macos_settings:\n    custom_settings:\n      - path: ";
    let context3 = determine_completion_context(source3, 3, "      - path: ", 14);
    assert_eq!(
        context3,
        CompletionContext::PathValue {
            context_type: PathContextType::MacOSProfile
        }
    );
}

#[test]
fn test_controls_block_snippets() {
    let completions = complete_controls_section();
    assert!(!completions.is_empty());

    // Should have both field completions and block snippets
    let block_items: Vec<_> = completions
        .iter()
        .filter(|c| c.snippet)
        .collect();
    assert!(
        !block_items.is_empty(),
        "should have block snippet completions"
    );

    let block_labels: Vec<_> = block_items.iter().map(|c| c.label.as_str()).collect();
    assert!(block_labels.contains(&"macos_updates (block)"));
    assert!(block_labels.contains(&"ios_updates (block)"));
    assert!(block_labels.contains(&"ipados_updates (block)"));
    assert!(block_labels.contains(&"windows_updates (block)"));
    assert!(block_labels.contains(&"macos_settings (block)"));
    assert!(block_labels.contains(&"windows_settings (block)"));
    assert!(block_labels.contains(&"macos_migration (block)"));
    assert!(block_labels.contains(&"macos_setup (block)"));
    assert!(block_labels.contains(&"android_settings (block)"));
    assert!(block_labels.contains(&"scripts (block)"));
    assert!(block_labels.contains(&"enable_disk_encryption (block)"));
    assert!(block_labels.contains(&"windows_enabled_and_configured (block)"));
    assert!(block_labels.contains(&"windows_migration_enabled (block)"));
    assert!(block_labels.contains(&"windows_require_bitlocker_pin (block)"));
    assert!(block_labels.contains(&"enable_turn_on_windows_mdm_manually (block)"));

    // Field completions should still be present
    let field_labels: Vec<_> = completions
        .iter()
        .filter(|c| !c.snippet)
        .map(|c| c.label.as_str())
        .collect();
    assert!(field_labels.contains(&"macos_updates"));
    assert!(field_labels.contains(&"enable_disk_encryption"));
    assert!(field_labels.contains(&"scripts"));
    assert!(field_labels.contains(&"android_settings"));
    assert!(field_labels.contains(&"windows_enabled_and_configured"));
}

#[test]
fn test_block_snippet_content() {
    let completions = complete_controls_section();

    // Check macos_updates block snippet content
    let macos_updates_block = completions
        .iter()
        .find(|c| c.label == "macos_updates (block)")
        .expect("macos_updates block snippet should exist");
    let snippet = macos_updates_block.insert_text.as_deref().unwrap();
    assert!(
        snippet.contains("deadline:"),
        "snippet should contain deadline"
    );
    assert!(
        snippet.contains("minimum_version:"),
        "snippet should contain minimum_version"
    );
    assert!(
        snippet.contains("update_new_hosts:"),
        "snippet should contain update_new_hosts"
    );
    assert!(snippet.contains("${1:"), "snippet should have tab stop $1");
    assert!(snippet.contains("${2:"), "snippet should have tab stop $2");
    assert!(snippet.contains("${3:"), "snippet should have tab stop $3");

    // Check windows_updates block snippet has different fields
    let windows_block = completions
        .iter()
        .find(|c| c.label == "windows_updates (block)")
        .expect("windows_updates block snippet should exist");
    let win_snippet = windows_block.insert_text.as_deref().unwrap();
    assert!(win_snippet.contains("deadline_days:"));
    assert!(win_snippet.contains("grace_period_days:"));

    // Check macos_setup has multiple tab stops
    let setup_block = completions
        .iter()
        .find(|c| c.label == "macos_setup (block)")
        .expect("macos_setup block snippet should exist");
    let setup_snippet = setup_block.insert_text.as_deref().unwrap();
    assert!(setup_snippet.contains("enable_end_user_authentication:"));
    assert!(setup_snippet.contains("macos_setup_assistant:"));
    assert!(setup_snippet.contains("script:"));
    assert!(
        setup_snippet.contains("${3:"),
        "macos_setup should have 3 tab stops"
    );
}

#[test]
fn test_block_snippets_sort_before_fields() {
    let completions = complete_controls_section();

    // Block snippets should have sort_text starting with "0_"
    // Field completions should have sort_text starting with "1_"
    for item in &completions {
        if item.snippet {
            assert!(
                item.sort_text.as_ref().unwrap().starts_with("0_"),
                "block snippet {} should sort first",
                item.label
            );
        } else if item.sort_text.is_some() {
            assert!(
                item.sort_text.as_ref().unwrap().starts_with("1_"),
                "field {} should sort after snippets",
                item.label
            );
        }
    }
}

#[test]
fn test_top_level_block_snippets() {
    let completions = complete_top_level_fields(false);
    let block_labels: Vec<_> = completions
        .iter()
        .filter(|c| c.snippet)
        .map(|c| c.label.as_str())
        .collect();
    assert!(block_labels.contains(&"policies (block)"));
    assert!(block_labels.contains(&"queries (block)"));
    assert!(block_labels.contains(&"labels (block)"));
    assert!(block_labels.contains(&"controls (block)"));
    assert!(block_labels.contains(&"software (block)"));
    assert!(block_labels.contains(&"agent_options (block)"));
    assert!(block_labels.contains(&"org_settings (block)"));
    assert!(block_labels.contains(&"team_settings (block)"));

    // future_names=true should have reports instead of queries
    let future = complete_top_level_fields(true);
    let future_blocks: Vec<_> = future
        .iter()
        .filter(|c| c.snippet)
        .map(|c| c.label.as_str())
        .collect();
    assert!(future_blocks.contains(&"reports (block)"));
    assert!(future_blocks.contains(&"settings (block)"));
    assert!(!future_blocks.contains(&"queries (block)"));
}

#[test]
fn test_software_section_block_snippets() {
    let completions = complete_software_section();
    let block_labels: Vec<_> = completions
        .iter()
        .filter(|c| c.snippet)
        .map(|c| c.label.as_str())
        .collect();
    assert!(block_labels.contains(&"packages (block)"));
    assert!(block_labels.contains(&"app_store_apps (block)"));
    assert!(block_labels.contains(&"fleet_maintained_apps (block)"));
}

#[test]
fn test_org_settings_block_snippets() {
    let completions = complete_org_settings_section();
    let block_labels: Vec<_> = completions
        .iter()
        .filter(|c| c.snippet)
        .map(|c| c.label.as_str())
        .collect();
    assert!(block_labels.contains(&"features (block)"));
    assert!(block_labels.contains(&"fleet_desktop (block)"));
    assert!(block_labels.contains(&"host_expiry_settings (block)"));
    assert!(block_labels.contains(&"org_info (block)"));
    assert!(block_labels.contains(&"secrets (block)"));
    assert!(block_labels.contains(&"server_settings (block)"));
    assert!(block_labels.contains(&"sso_settings (block)"));
    assert!(block_labels.contains(&"integrations (block)"));
    assert!(block_labels.contains(&"gitops (block)"));
    assert!(block_labels.contains(&"mdm (block)"));

    // Verify sso_settings snippet has expected content
    let sso_block = completions
        .iter()
        .find(|c| c.label == "sso_settings (block)")
        .unwrap();
    let snippet = sso_block.insert_text.as_deref().unwrap();
    assert!(snippet.contains("enable_sso:"));
    assert!(snippet.contains("idp_name:"));
    assert!(snippet.contains("entity_id:"));
}

#[test]
fn test_team_settings_block_snippets() {
    let completions = complete_team_settings_section();
    let block_labels: Vec<_> = completions
        .iter()
        .filter(|c| c.snippet)
        .map(|c| c.label.as_str())
        .collect();
    assert!(block_labels.contains(&"features (block)"));
    assert!(block_labels.contains(&"host_expiry_settings (block)"));
    assert!(block_labels.contains(&"secrets (block)"));
    assert!(block_labels.contains(&"integrations (block)"));
}

#[test]
fn test_agent_options_block_snippets() {
    let completions = complete_agent_options_section();
    let block_labels: Vec<_> = completions
        .iter()
        .filter(|c| c.snippet)
        .map(|c| c.label.as_str())
        .collect();
    assert!(block_labels.contains(&"config (block)"));

    // Field completions should include path
    let field_labels: Vec<_> = completions
        .iter()
        .filter(|c| !c.snippet)
        .map(|c| c.label.as_str())
        .collect();
    assert!(field_labels.contains(&"path"));
    assert!(field_labels.contains(&"config"));
}

#[test]
fn field_items_carry_detail_and_sort_order() {
    let source = "policies:\n  - ";
    let completions = complete_at(source, Position { line: 1, character: 4 });
    let name = completions.iter().find(|c| c.label == "name").unwrap();
    assert_eq!(name.detail.as_deref(), Some("Policy display name (for inline definitions) (required)"));
    assert_eq!(name.sort_text.as_deref(), Some("0_name"));
    let platform = completions.iter().find(|c| c.label == "platform").unwrap();
    assert_eq!(platform.sort_text.as_deref(), Some("1_platform"));
    assert!(platform.documentation.is_some());
}

#[test]
fn sql_context_filters_tables_by_platform() {
    let source = "policies:\n  - name: test\n    platform: windows\n    query: |\n      SELECT * FROM ";
    let completions = complete_at(source, Position { line: 4, character: 20 });
    let labels: Vec<_> = completions.iter().map(|c| c.label.as_str()).collect();
    assert!(!labels.contains(&"alf"));
    assert!(labels.contains(&"processes"));
}

#[test]
fn policy_type_values() {
    let source = "policies:\n  - name: test\n    type: ";
    let completions = complete_at(source, Position { line: 2, character: 10 });
    let labels: Vec<_> = completions.iter().map(|c| c.label.as_str()).collect();
    assert_eq!(labels, vec!["dynamic", "patch"]);
}

#[test]
fn context_of_label_list_items() {
    let source = "policies:\n  - name: p\n    labels_include_any:\n      - ";
    assert_eq!(
        determine_completion_context(source, 3, "      - ", 8),
        CompletionContext::LabelValue
    );
    let source = "software:\n  packages:\n    - path: x\n      categories:\n        - ";
    assert_eq!(
        determine_completion_context(source, 4, "        - ", 10),
        CompletionContext::CategoryValue
    );
}

#[test]
fn context_of_globs_and_unknown() {
    let source = "controls:\n  scripts:\n    - paths: ";
    assert_eq!(
        determine_completion_context(source, 2, "    - paths: ", 13),
        CompletionContext::GlobValue { parent_context: "controls.scripts".to_string() }
    );
    assert!(complete_at(source, Position { line: 2, character: 13 }).is_empty());
}

#[test]
fn file_extension_is_case_insensitive() {
    assert!(matches_context_type("dir/Profile.MOBILECONFIG", &PathContextType::MacOSProfile));
    assert!(!matches_context_type(".yml", &PathContextType::Policy));
    assert!(matches_context_type("a/b.c/run.cmd", &PathContextType::Script));
}

fn workspace_files() -> Vec<String> {
    vec![
        "/ws/lib/macos/software/firefox.yml".to_string(),
        "/ws/lib/macos/software/chrome.yml".to_string(),
        "/ws/lib/macos/scripts/setup.sh".to_string(),
        "/ws/teams/workstations.yml".to_string(),
    ]
}

#[test]
fn test_complete_file_paths_with_workspace() {
    let files = workspace_files();
    let completions = complete_file_paths(
        "    - path: ",
        0,
        12,
        Some("/ws/teams/workstations.yml"),
        Some("/ws"),
        PathContextType::SoftwarePackage,
        &files,
    );
    assert!(!completions.is_empty());
    for item in &completions {
        assert!(item.label.ends_with(".yml") || item.label.ends_with(".yaml"));
    }
}

#[test]
fn test_file_paths_sorted_relative_and_edited() {
    let files = workspace_files();
    let completions = complete_file_paths(
        "    - path: ",
        3,
        12,
        Some("/ws/teams/workstations.yml"),
        Some("/ws"),
        PathContextType::SoftwarePackage,
        &files,
    );
    let labels: Vec<_> = completions.iter().map(|c| c.label.as_str()).collect();
    assert_eq!(
        labels,
        vec![
            "../lib/macos/software/chrome.yml",
            "../lib/macos/software/firefox.yml",
            "workstations.yml",
        ]
    );
    let first = &completions[0];
    assert_eq!(first.kind, Some(CompletionItemKind::File));
    assert_eq!(first.detail.as_deref(), Some("Software package: chrome.yml"));
    assert_eq!(
        first.documentation.as_deref(),
        Some("**chrome.yml**\n\nPath: `/ws/lib/macos/software/chrome.yml`")
    );
    assert_eq!(first.filter_text.as_deref(), Some("../lib/macos/software/chrome.yml"));
    let edit = first.text_edit.as_ref().unwrap();
    assert_eq!(edit.start, Position { line: 3, character: 12 });
    assert_eq!(edit.end, Position { line: 3, character: 12 });
    assert_eq!(edit.new_text, "../lib/macos/software/chrome.yml");
}

#[test]
fn test_file_paths_filtered_by_partial_ignoring_case() {
    let files = workspace_files();
    let completions = complete_file_paths(
        "    - path: FIRE",
        0,
        16,
        Some("/ws/teams/workstations.yml"),
        Some("/ws"),
        PathContextType::SoftwarePackage,
        &files,
    );
    assert_eq!(completions.len(), 1);
    assert_eq!(completions[0].label, "../lib/macos/software/firefox.yml");
    let edit = completions[0].text_edit.as_ref().unwrap();
    assert_eq!(edit.start.character, 12);
    assert_eq!(edit.end.character, 16);
}

#[test]
fn test_file_paths_scripts_relative_to_root_without_current_file() {
    let files = workspace_files();
    let completions = complete_file_paths(
        "  - path: ",
        0,
        10,
        None,
        Some("/ws"),
        PathContextType::Script,
        &files,
    );
    assert_eq!(completions.len(), 1);
    assert_eq!(completions[0].label, "lib/macos/scripts/setup.sh");
    assert_eq!(completions[0].detail.as_deref(), Some("Script: setup.sh"));
}

#[test]
fn test_file_paths_without_workspace_or_file() {
    let files = workspace_files();
    let completions =
        complete_file_paths("  - path: ", 0, 10, None, None, PathContextType::Generic, &files);
    assert!(completions.is_empty());
}

#[test]
fn test_file_paths_line_without_colon_has_no_edit() {
    let files = workspace_files();
    let completions =
        complete_file_paths("chrome", 0, 6, None, Some("/ws"), PathContextType::Generic, &files);
    assert_eq!(completions.len(), 4);
    assert!(completions.iter().all(|c| c.text_edit.is_none() && c.filter_text.is_none()));
    assert_eq!(completions[0].label, "lib/macos/scripts/setup.sh");
}

#[test]
fn test_calculate_relative_path() {
    assert_eq!(
        calculate_relative_path(
            "/ws/lib/macos/software/firefox.yml",
            Some("/ws/teams/workstations.yml"),
            "/ws"
        ),
        "../lib/macos/software/firefox.yml"
    );
    assert_eq!(calculate_relative_path("/ws/lib/a.yml", None, "/ws"), "lib/a.yml");
    assert_eq!(calculate_relative_path("/other/a.yml", None, "/ws"), "/other/a.yml");
    // A relative current file against an absolute target keeps the target.
    assert_eq!(calculate_relative_path("/ws/lib/a.yml", Some("teams/t.yml"), "/ws"), "/ws/lib/a.yml");
}

#[test]
fn test_path_scan_base() {
    assert_eq!(path_scan_base(Some("/ws/teams/t.yml"), Some("/root")), Some("/root".to_string()));
    assert_eq!(path_scan_base(Some("/ws/teams/t.yml"), None), Some("/ws/teams".to_string()));
    assert_eq!(path_scan_base(None, None), None);
}

#[test]
fn test_skip_scan_dir() {
    assert!(skip_scan_dir(".git"));
    assert!(skip_scan_dir("target"));
    assert!(skip_scan_dir("node_modules"));
    assert!(skip_scan_dir("dist"));
    assert!(!skip_scan_dir("lib"));
}

#[test]
fn test_create_path_completion() {
    let item = create_path_completion("x/y.xml", "/ws/x/y.xml", &PathContextType::WindowsProfile);
    assert_eq!(item.label, "x/y.xml");
    assert_eq!(item.detail.as_deref(), Some("Windows profile: y.xml"));
}

#[test]
fn test_complete_at_with_context_path_value() {
    let source = "software:\n  packages:\n    - path: ";
    let files = workspace_files();
    let completions = complete_at_with_context(
        source,
        Position { line: 2, character: 12 },
        Some("/ws/teams/workstations.yml"),
        Some("/ws"),
        &files,
        false,
    );
    assert!(completions.iter().any(|c| c.label == "../lib/macos/software/firefox.yml"));
}
