use flint::schema::{
    field_doc, field_docs, get_field_doc, get_logging_doc, get_platform_doc, valid_logging_types,
    valid_platforms,
};

#[test]
fn test_get_field_doc_exact() {
    let doc = get_field_doc("policies.platform");
    assert!(doc.is_some());
    assert_eq!(doc.unwrap().name, "platform");
}

#[test]
fn test_get_field_doc_simple() {
    let doc = get_field_doc("platform");
    assert!(doc.is_some());
}

#[test]
fn test_field_doc_to_markdown() {
    let doc = field_doc("policies.platform").unwrap();
    let md = doc.to_markdown();
    assert!(md.contains("**platform**"));
    assert!(md.contains("darwin"));
}

#[test]
fn test_platform_docs() {
    assert!(get_platform_doc("darwin").is_some());
    assert!(get_platform_doc("invalid").is_none());
}

#[test]
fn test_logging_docs() {
    assert!(get_logging_doc("snapshot").is_some());
    assert!(get_logging_doc("differential").is_some());
}

/// Test that schema covers all critical Fleet GitOps fields from workstations.yml
/// Reference: https://github.com/fleetdm/fleet/blob/main/it-and-security/teams/workstations.yml
#[test]
fn test_schema_coverage_for_fleet_gitops() {
    // Top-level sections
    let top_level = [
        "name",
        "team_settings",
        "agent_options",
        "controls",
        "policies",
        "queries",
        "software",
    ];
    for field in top_level {
        assert!(
            get_field_doc(field).is_some(),
            "Missing doc for top-level field: {}",
            field
        );
    }

    // Software section - IMPORTANT: packages use `path`, not `name`
    let software_fields = [
        "software.packages",
        "software.packages.path",
        "software.packages.self_service",
        "software.packages.setup_experience",
        "software.app_store_apps",
        "software.app_store_apps.app_store_id",
        "software.fleet_maintained_apps",
        "software.fleet_maintained_apps.slug",
    ];
    for field in software_fields {
        assert!(
            get_field_doc(field).is_some(),
            "Missing doc for software field: {}",
            field
        );
    }

    // Verify software.packages does NOT have a `name` field (it uses path references)
    // Use field_doc() directly to check exact key, since get_field_doc() has fallbacks
    assert!(
        field_doc("software.packages.name").is_none(),
        "software.packages should not have a 'name' field - it uses 'path' to reference package files"
    );

    // Controls section
    let controls_fields = [
        "controls.enable_disk_encryption",
        "controls.macos_settings",
        "controls.macos_settings.custom_settings",
        "controls.windows_settings",
        "controls.scripts",
    ];
    for field in controls_fields {
        assert!(
            get_field_doc(field).is_some(),
            "Missing doc for controls field: {}",
            field
        );
    }

    // Team settings section
    let team_settings_fields = [
        "team_settings",
        "team_settings.secrets",
        "team_settings.features",
    ];
    for field in team_settings_fields {
        assert!(
            get_field_doc(field).is_some(),
            "Missing doc for team_settings field: {}",
            field
        );
    }

    // Agent options section
    let agent_options_fields = ["agent_options.config", "agent_options.config.options"];
    for field in agent_options_fields {
        assert!(
            get_field_doc(field).is_some(),
            "Missing doc for agent_options field: {}",
            field
        );
    }
}

#[test]
fn test_cli_hints_on_top_level_fields() {
    let fields_with_hints = [
        "policies",
        "queries",
        "labels",
        "controls",
        "software",
        "agent_options",
        "team_settings",
        "name",
        "org_settings",
    ];
    for field in fields_with_hints {
        let doc = field_doc(field)
            .unwrap_or_else(|| panic!("Missing FieldDoc for top-level key: {}", field));
        assert!(
            doc.cli_hint.is_some(),
            "Expected cli_hint on top-level field '{}', but it was None",
            field,
        );
    }
}

#[test]
fn test_cli_hint_rendered_in_markdown() {
    let doc = field_doc("policies").unwrap();
    let md = doc.to_markdown();
    assert!(
        md.contains("**CLI:**"),
        "Markdown should contain CLI section header"
    );
    assert!(
        md.contains("fleetctl"),
        "CLI hint should reference fleetctl"
    );
}

#[test]
fn test_cli_hint_absent_for_leaf_fields() {
    // Leaf fields like policies.name shouldn't have CLI hints
    let doc = field_doc("policies.name").unwrap();
    assert!(
        doc.cli_hint.is_none(),
        "Leaf field 'policies.name' should not have a cli_hint"
    );
    let md = doc.to_markdown();
    assert!(
        !md.contains("**CLI:**"),
        "Leaf field markdown should not contain CLI section"
    );
}

#[test]
fn test_gitops_workflow_doc() {
    let doc = field_doc("gitops").unwrap();
    assert!(doc.cli_hint.is_some());
    let cli = doc.cli_hint.unwrap();
    assert!(
        cli.contains("fleetctl gitops"),
        "gitops doc should reference fleetctl gitops"
    );
    assert!(
        cli.contains("--force"),
        "gitops doc should mention --force for apply"
    );
}

/// Test that examples don't contain incorrect field structures
#[test]
fn test_examples_are_valid() {
    for (path, doc) in field_docs().iter() {
        if let Some(example) = doc.example {
            // software.packages examples should use `path:`, not `name:`
            if path.starts_with("software.packages") || *path == "software" {
                assert!(
                    !example.contains("- name:") || !example.contains("packages"),
                    "Example for {} incorrectly shows 'name:' under packages. Should use 'path:'. Example: {}",
                    path, example
                );
            }
        }
    }
}

#[test]
fn markdown_of_a_leaf_field_is_exact() {
    let doc = field_doc("policies.name").unwrap();
    assert_eq!(
        doc.to_markdown(),
        "**name**\n\nThe display name of the policy. Must be unique within the organization.\n\n*Required*\n\n**Type:** `string`\n**Example:**\n```yaml\nname: Ensure FileVault is enabled\n```"
    );
}

#[test]
fn markdown_lists_valid_values_in_order() {
    let doc = field_doc("policies.platform").unwrap();
    let md = doc.to_markdown();
    let d = md.find("- `darwin`").unwrap();
    let w = md.find("- `windows`").unwrap();
    assert!(d < w);
    assert!(md.contains("**Valid values:**\n"));
}

#[test]
fn field_doc_falls_back_to_prefixed_paths() {
    // `critical` is only documented under `policies`
    let doc = get_field_doc("critical").unwrap();
    assert_eq!(doc.name, "critical");
}

#[test]
fn field_doc_falls_back_to_last_segment() {
    let doc = get_field_doc("something.unknown.self_service").unwrap();
    assert_eq!(doc.name, "self_service");
    assert!(get_field_doc("no_such_field_anywhere").is_none());
}

#[test]
fn valid_value_lists() {
    assert_eq!(
        valid_platforms(),
        vec!["darwin", "windows", "linux", "chrome", "ios", "ipados", "android"]
    );
    assert_eq!(
        valid_logging_types(),
        vec!["snapshot", "differential", "differential_ignore_removals"]
    );
    assert_eq!(get_platform_doc("all"), Some("All supported platforms"));
    assert!(get_logging_doc("raw").is_none());
}
