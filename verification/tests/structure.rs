use flint::structure::{default_schema, key_registry, schema_for_path, SchemaNode};

#[test]
fn test_schema_for_default() {
    let schema = schema_for_path("default.yml");
    assert!(matches!(schema, SchemaNode::Mapping(_)));
    assert!(schema.get_child("policies").is_some());
    assert!(schema.get_child("controls").is_some());
    assert!(schema.get_child("org_settings").is_some());
}

#[test]
fn test_schema_for_fleet() {
    let schema = schema_for_path("fleets/engineering.yml");
    assert!(matches!(schema, SchemaNode::Mapping(_)));
    assert!(schema.get_child("name").is_some());
    assert!(schema.get_child("policies").is_some());
}

#[test]
fn test_schema_for_legacy_teams() {
    let schema = schema_for_path("teams/engineering.yml");
    assert!(matches!(schema, SchemaNode::Mapping(_)));
    assert!(schema.get_child("name").is_some());
    assert!(schema.get_child("policies").is_some());
}

#[test]
fn test_schema_for_policies() {
    let schema = schema_for_path("lib/policies/security.yml");
    assert!(matches!(schema, SchemaNode::ArrayOneOf(_)));
}

#[test]
fn test_schema_for_queries() {
    let schema = schema_for_path("lib/queries/compliance.yml");
    assert!(matches!(schema, SchemaNode::ArrayOneOf(_)));
}

#[test]
fn test_schema_for_labels() {
    let schema = schema_for_path("lib/labels/hosts.yml");
    assert!(matches!(schema, SchemaNode::ArrayOneOf(_)));
}

#[test]
fn test_schema_for_reports() {
    let schema = schema_for_path("lib/reports/compliance.yml");
    assert!(matches!(schema, SchemaNode::ArrayOneOf(_)));
}

#[test]
fn test_key_registry_lookup() {
    let reg = key_registry();
    let paths = reg.lookup("scripts").unwrap();
    assert!(paths.contains(&"controls"));

    let paths = reg.lookup("custom_settings").unwrap();
    assert!(paths.contains(&"controls.macos_settings"));
}

#[test]
fn test_key_registry_paths_field() {
    let reg = key_registry();
    let paths = reg.lookup("paths").unwrap();
    assert!(paths.contains(&"reports[]"));
    assert!(paths.contains(&"policies[]"));
    assert!(paths.contains(&"queries[]"));
    assert!(paths.contains(&"labels[]"));
    assert!(paths.contains(&"controls.scripts[]"));
}

#[test]
fn test_schema_key_count_does_not_regress() {
    let reg = key_registry();
    let total_keys = reg.all_keys().len();
    assert!(
        total_keys >= 160,
        "KEY_REGISTRY has {total_keys} keys, expected >= 160. Did keys get removed?"
    );
}

#[test]
fn test_fleet_gitops_keys_present() {
    let reg = key_registry();
    let required_keys = [
        "policies",
        "reports",
        "queries",
        "labels",
        "controls",
        "software",
        "agent_options",
        "org_settings",
        "settings",
        "team_settings",
        "name",
        "query",
        "description",
        "resolution",
        "platform",
        "critical",
        "calendar_events_enabled",
        "software_title_id",
        "script_id",
        "interval",
        "logging",
        "observer_can_run",
        "automations_enabled",
        "discard_data",
        "min_osquery_version",
        "label_membership_type",
        "hosts",
        "enable_disk_encryption",
        "macos_updates",
        "ios_updates",
        "ipados_updates",
        "windows_updates",
        "scripts",
        "macos_settings",
        "apple_settings",
        "windows_settings",
        "android_settings",
        "custom_settings",
        "configuration_profiles",
        "packages",
        "fleet_maintained_apps",
        "app_store_apps",
        "features",
        "fleet_desktop",
        "host_expiry_settings",
        "server_settings",
        "sso_settings",
        "smtp_settings",
        "webhook_settings",
        "vulnerability_settings",
        "activity_expiry_settings",
        "path",
        "paths",
    ];

    for key in &required_keys {
        assert!(
            reg.lookup(key).is_some(),
            "Required Fleet GitOps key '{key}' missing from KEY_REGISTRY"
        );
    }
}

#[test]
fn test_controls_schema_structure() {
    let schema = default_schema();
    let controls = schema.get_child("controls").unwrap();
    assert!(controls.get_child("scripts").is_some());
    assert!(controls.get_child("macos_settings").is_some());

    let macos = controls.get_child("macos_settings").unwrap();
    assert!(macos.get_child("custom_settings").is_some());
    assert!(macos.get_child("scripts").is_none());
}

#[test]
fn valid_keys_of_mapping_and_leaf() {
    let schema = schema_for_path("lib/policies/a.yml");
    assert!(schema.valid_keys().is_none());
    assert!(!schema.allows_unknown());
    let fleet = schema_for_path("fleets/a.yml");
    let keys = fleet.valid_keys().unwrap();
    assert_eq!(keys.len(), 10);
    assert!(keys.contains(&"name"));
    let controls = fleet.get_child("controls").unwrap();
    let vpp = controls.get_child("volume_purchasing_program").unwrap();
    assert!(vpp.allows_unknown());
    assert!(vpp.valid_keys().is_none());
}

#[test]
fn registry_lookup_keeps_registration_order() {
    let reg = key_registry();
    let paths = reg.lookup("deadline").unwrap();
    assert_eq!(
        paths,
        &["controls.macos_updates", "controls.ios_updates", "controls.ipados_updates"]
    );
    assert!(reg.lookup("no_such_key").is_none());
    let all = reg.all_keys();
    assert_eq!(all[0], "labels");
    let mut sorted = all.clone();
    sorted.sort();
    sorted.dedup();
    assert_eq!(sorted.len(), all.len());
}
