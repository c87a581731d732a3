use flint::help_agents::{
    claude_md_update, generate_command, generate_full, generate_index, generate_json, generate_sop, ArgInfo, CommandInfo,
};

fn arg(id: &str) -> ArgInfo {
    ArgInfo {
        id: id.to_string(),
        long: None,
        short: None,
        help: None,
        positional: true,
        required: false,
        hidden: false,
        global: false,
        defaults: vec![],
        takes_values: true,
        possible_values: vec![],
    }
}

fn sample_cmd() -> CommandInfo {
    let mut path = arg("path");
    path.required = true;
    let mut fix = arg("fix");
    fix.positional = false;
    fix.long = Some("fix".to_string());
    fix.help = Some("Auto-fix".to_string());
    fix.takes_values = false;
    let mut path2 = arg("path");
    path2.required = true;
    CommandInfo {
        name: "flint".to_string(),
        about: Some("Test tool".to_string()),
        long_about: None,
        version: Some("0.1.0".to_string()),
        hidden: false,
        args: vec![],
        subcommands: vec![
            CommandInfo {
                name: "check".to_string(),
                about: Some("Lint YAML files".to_string()),
                long_about: None,
        version: None,
                hidden: false,
                args: vec![path, fix],
                subcommands: vec![],
            },
            CommandInfo {
                name: "migrate".to_string(),
                about: Some("Generate migration report".to_string()),
                long_about: None,
        version: None,
                hidden: false,
                args: vec![path2],
                subcommands: vec![],
            },
        ],
    }
}

#[test]
fn test_generate_index() {
    let cmd = sample_cmd();
    let mut out = Vec::new();
    generate_index(&cmd, &mut out);
    let output = String::from_utf8(out).unwrap();
    assert!(output.contains("# flint"));
    assert!(output.contains("## Command index"));
    assert!(output.contains("check"));
    assert!(output.contains("migrate"));
}

#[test]
fn test_generate_command() {
    let cmd = sample_cmd();
    let mut out = Vec::new();
    generate_command(&cmd, "check", &mut out).unwrap();
    let output = String::from_utf8(out).unwrap();
    assert!(output.contains("# flint check"));
    assert!(output.contains("--fix"));
}

#[test]
fn test_generate_command_not_found() {
    let cmd = sample_cmd();
    let mut out = Vec::new();
    let result = generate_command(&cmd, "nonexistent", &mut out);
    assert!(result.is_err());
}

#[test]
fn test_generate_sop_lint() {
    let mut out = Vec::new();
    generate_sop("lint", &mut out).unwrap();
    let output = String::from_utf8(out).unwrap();
    assert!(output.contains("SOP: Linting"));
    // Procedural format: every SOP must read as a PROCEDURE.
    assert!(
        output.contains("PROCEDURE "),
        "lint SOP should be in procedural format"
    );
}

#[test]
fn test_all_sops_use_procedural_format() {
    for tool in ["lint", "migrate", "lsp", "hooks", "author", "add-field"] {
        let mut out = Vec::new();
        generate_sop(tool, &mut out)
            .unwrap_or_else(|e| panic!("SOP '{tool}' missing: {e}"));
        let output = String::from_utf8(out).unwrap();
        assert!(
            output.contains("PROCEDURE "),
            "SOP '{tool}' should be in procedural format (must contain PROCEDURE)"
        );
    }
}

#[test]
fn test_generate_sop_aliases_resolve() {
    // Each SOP should be reachable by at least one ergonomic alias.
    for alias in [
        "check",       // lint
        "migration",   // migrate
        "editor",      // lsp
        "pre-commit",  // hooks
        "yaml",        // author
        "addfield",    // add-field
    ] {
        let mut out = Vec::new();
        generate_sop(alias, &mut out)
            .unwrap_or_else(|e| panic!("alias '{alias}' should resolve: {e}"));
        assert!(!out.is_empty(), "alias '{alias}' returned empty output");
    }
}

#[test]
fn test_generate_sop_unknown() {
    let mut out = Vec::new();
    let result = generate_sop("nonexistent", &mut out);
    assert!(result.is_err());
}

#[test]
fn sop_names_are_case_insensitive_and_errors_list_choices() {
    let mut out = Vec::new();
    generate_sop("LSP", &mut out).unwrap();
    assert!(String::from_utf8(out).unwrap().starts_with("# SOP: Editor Setup (LSP)"));
    let mut out = Vec::new();
    let e = generate_sop("zzz", &mut out).unwrap_err();
    assert_eq!(e, "Unknown SOP: 'zzz'. Available: lint, migrate, lsp, hooks, author, add-field");
    assert!(out.is_empty());
}

#[test]
fn index_lists_arguments() {
    let mut out = Vec::new();
    generate_index(&sample_cmd(), &mut out);
    let output = String::from_utf8(out).unwrap();
    assert!(output.contains("### flint check\nLint YAML files\n  <path> (required) — \n  --fix — Auto-fix\n\n"));
}

#[test]
fn command_detail_and_unknown_path() {
    let mut out = Vec::new();
    generate_command(&sample_cmd(), "check", &mut out).unwrap();
    let output = String::from_utf8(out).unwrap();
    assert_eq!(
        output,
        "# flint check\n\nLint YAML files\n\n## Arguments\n\n- `<path>` **(required)** — \n- `--fix` — Auto-fix\n"
    );
    let mut out = Vec::new();
    let e = generate_command(&sample_cmd(), "check.deep", &mut out).unwrap_err();
    assert_eq!(e, "Unknown command 'deep'. Available: ");
    let e = generate_command(&sample_cmd(), "nope", &mut out).unwrap_err();
    assert_eq!(e, "Unknown command 'nope'. Available: check, migrate");
}

#[test]
fn full_reference_covers_subcommands() {
    let mut out = Vec::new();
    generate_full(&sample_cmd(), &mut out);
    let output = String::from_utf8(out).unwrap();
    assert!(output.starts_with("# flint — complete CLI reference\n\n## flint check\nLint YAML files\n\n"));
    assert!(output.contains("## flint migrate\nGenerate migration report\n\n- `<path>` **(required)** — \n\n"));
}

#[test]
fn test_generate_json() {
    let cmd = sample_cmd();
    let output = generate_json(&cmd, None).unwrap();
    let json: serde_json::Value = serde_json::from_str(&output).unwrap();
    assert_eq!(json["name"], "flint");
    assert!(json["subcommands"].is_array());
}

#[test]
fn test_generate_json_scoped() {
    let cmd = sample_cmd();
    let output = generate_json(&cmd, Some("check")).unwrap();
    let json: serde_json::Value = serde_json::from_str(&output).unwrap();
    assert_eq!(json["name"], "check");
}

#[test]
fn test_generate_json_contents() {
    let mut cmd = sample_cmd();
    let mut global = arg("verbose");
    global.positional = false;
    global.long = Some("verbose".to_string());
    global.short = Some('v');
    global.global = true;
    global.takes_values = false;
    cmd.subcommands[0].args.push(global);
    let full: serde_json::Value = serde_json::from_str(&generate_json(&cmd, None).unwrap()).unwrap();
    assert_eq!(full["version"], "0.1.0");
    assert_eq!(full["about"], "Test tool");
    let check = &full["subcommands"][0];
    assert_eq!(check["args"][0]["name"], "path");
    assert_eq!(check["args"][0]["required"], true);
    assert_eq!(check["args"][0]["positional"], true);
    assert_eq!(check["args"][1]["long"], "--fix");
    assert_eq!(check["args"][1]["help"], "Auto-fix");
    assert_eq!(check["args"][2]["short"], "-v");
    assert_eq!(check["args"][2]["global"], true);
    // Scoped output drops global arguments and the version.
    let scoped: serde_json::Value = serde_json::from_str(&generate_json(&cmd, Some("check")).unwrap()).unwrap();
    assert_eq!(scoped["args"].as_array().unwrap().len(), 2);
    assert!(scoped.get("version").is_none());
}

#[test]
fn test_generate_json_unknown_command() {
    let cmd = sample_cmd();
    let err = generate_json(&cmd, Some("nope")).unwrap_err();
    assert_eq!(err, "Unknown command 'nope'. Available: check, migrate");
}

#[test]
fn test_claude_md_update() {
    let hint = "## flint\n\n`flint` (Fleet GitOps linter) is available. Run `flint setup-agent` to install the AI agent skill, or `flint help-ai` for the command reference.\n";
    assert_eq!(claude_md_update(None), Some(format!("# Project Instructions\n\n{hint}")));
    assert_eq!(claude_md_update(Some("# Notes")), Some(format!("# Notes\n\n{hint}")));
    assert_eq!(claude_md_update(Some("# Notes\n")), Some(format!("# Notes\n\n{hint}")));
    assert_eq!(claude_md_update(Some("run flint help-ai first")), None);
    assert_eq!(claude_md_update(Some("see flint setup-agent")), None);
}
