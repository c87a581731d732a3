//! Reference text for AI agents: standard operating procedures for the
//! linter's workflows, and an index and reference of the command-line
//! interface built from a description of its commands.
use vstd::prelude::*;

use crate::text;
use crate::text::{chars_of, concat, string_of, vviews};
use crate::json::{json_view, items_view, lemma_array_view, lemma_object_view, members_view, push_item, push_member, to_string_pretty, pretty_text, JsonValue, JsonView};

verus! {

broadcast use vstd::string::group_string_axioms;

/// The `lint` procedure.
pub const SOP_LINT: &'static str = r#"# SOP: Linting Fleet GitOps YAML

PROCEDURE lint_repo(path):
  ASSERT path is a directory or a YAML file (*.yml / *.yaml)

  # Phase 1 — Configuration discovery
  flint walks from <path> upward looking for `.fleetlint.toml`.
  IF NOT FOUND:
    RUN with defaults (no-op, all rules at default severity)
  IF you want repo-wide config:
    RUN: `flint init --no-interactive`        # auto-detects layout
    EDIT .fleetlint.toml (see Config block below)

  # Phase 2 — Run the linter
  RUN: `flint check <path>`
  CAPTURE: stdout + exit code

  # Phase 3 — Classify exit
  IF exit == 0:
    RETURN: clean — proceed
  IF exit == 1:
    PARSE diagnostics from stdout
    FOR EACH diagnostic d:
      IF d.severity == "error":
        IF d.fix_safety == "Safe":     SUGGEST: re-run with `--fix`
        IF d.fix_safety == "Unsafe":   SUGGEST: `--fix --unsafe-fixes` + manual diff
        IF d.help is set:              the help text describes the fix
        IF d.suggestion is set:        the suggestion is the literal replacement text
      IF d is a known false positive:
        SUPPRESS_OPTIONS:
          (a) inline:    append `# flint: ignore [<rule_code>]` on the offending line
          (b) repo-wide: add to .fleetlint.toml [rules] disabled = ["<rule_code>"]
    HALT until errors == 0
  IF exit == 2:
    flint crashed — file an issue with stderr

  # Phase 4 — Machine-readable mode (CI / agents)
  RUN: `flint check <path> --format json`
  PARSE: { version, files: [{ counts, diagnostics: [{...}] }], summary }
  EXIT_CODE_CONTRACT: 0 = clean, 1 = errors, 2 = flint crash

  # Phase 5 — Inspect what flint enforces
  RUN: `flint list-rules`              # table view
  RUN: `flint list-rules --format json` # for programmatic use

# Configuration (.fleetlint.toml)
```toml
[rules]
disabled = ["secret-hygiene"]        # silence specific rules entirely
warn = ["interval-validation"]       # downgrade errors to warnings

[thresholds]
min_interval = 60                    # query interval bounds (seconds)
max_interval = 86400

[files]
include = ["**/*.yml", "**/*.yaml"]
exclude = ["node_modules", "target"]

[deprecations]
fleet_version = "4.85.0"             # target version for deprecation checks
future_names = true                  # opt in to new naming (reports, settings, fleets)
```

# Key flags
- `--format json`        — structured output (CI, scripts, agents)
- `--fix`                — auto-apply Safe fixes (renames, typo corrections)
- `--unsafe-fixes`       — also apply Unsafe fixes (requires `--fix`)
- `--hook-mode`          — always exit 0 (used by `flint hooks install`)
"#;

/// The `migrate` procedure.
pub const SOP_MIGRATE: &'static str = r#"# SOP: Fleet GitOps Migration

PROCEDURE migrate_repo(path, target_version):
  ASSERT path is a Fleet GitOps repo root
  ASSERT target_version is a Fleet release (e.g. "4.85.0" or "latest")

  # Phase 1 — Generate the migration report (read-only)
  RUN: `flint migrate <path> --target-version <version>` -> JSON
  PARSE: {
    summary: { files_scanned, directory_renames, file_renames, key_renames, safe_fixes },
    directory_renames: [{ old, new, files_affected }],
    file_renames:      [{ old, new }],
    file_changes:      [{ path, move_to?, key_renames: [{ line, old_key, new_key, safety }] }],
  }
  ASSERT summary.files_scanned > 0

  # Phase 2 — Directory renames FIRST (other phases reference the new paths)
  FOR EACH dr IN directory_renames:
    RUN: `mv <path>/<dr.old> <path>/<dr.new>`
    ASSERT <path>/<dr.old> no longer exists

  # Phase 3 — File renames
  FOR EACH fr IN file_renames:
    RUN: `mv <path>/<fr.old> <path>/<fr.new>`
    NOTE: a file inside a renamed directory uses the new directory name

  # Phase 4 — In-file key renames (apply bottom-up to preserve line offsets)
  FOR EACH fc IN file_changes:
    target := fc.move_to OR fc.path
    SORT fc.key_renames BY line DESC
    FOR EACH kr IN fc.key_renames:
      REPLACE first occurrence of "<kr.old_key>:" at line <kr.line> in <target>
              with "<kr.new_key>:"
      IF kr.safety == "warning":
        REVIEW: rename has semantic implications — human eyeball recommended

  # Phase 5 — Cross-file path references
  GREP for old names that may appear inside YAML `path:` / `paths:` values:
    `grep -rn "<old_dir>/" <path>/**/*.yml`
    `grep -rn "<old_file>" <path>/**/*.yml`
  REWRITE matches manually, or via sed for the obvious cases

  # Phase 6 — Verify
  RUN: `flint check <path>`
  ASSERT no deprecation warnings remain
  RETURN: clean diff ready for PR

# Current renames (warnings since v4.80.1)
- Directory: `teams/`          -> `fleets/`
- File:      `no-team.yml`     -> `unassigned.yml`
- Key:       `team_settings:`  -> `settings:`
- Key:       `queries:`        -> `reports:`  (top-level only)
"#;

/// The `lsp` procedure.
pub const SOP_LSP: &'static str = r#"# SOP: Editor Setup (LSP)

PROCEDURE setup_editor(editor):
  ASSERT editor IN {vscode, zed, sublime}
  ASSERT `flint --version` succeeds (binary on PATH)

  CASE editor:
    vscode:
      INSTALL: VSIX from the GitHub release (`flint-<v>.vsix`) or the
               marketplace listing (when published).
      LOAD a Fleet GitOps YAML and verify diagnostics + hover appear.

    zed:
      EDIT  ~/.config/zed/settings.json:
        ADD `"language_servers": ["flint-lsp"]` for the YAML language entry
        DISABLE the default yaml-language-server for Fleet YAML files
      INSTALL the extension via the Zed extension registry, OR sideload
              `flint-zed-<v>.zip` from the GitHub release.

    sublime:
      INSTALL Package Control
      INSTALL the `LSP` package
      INSTALL the `LSP-flint` package — its plugin auto-pulls
              `flint-<v>-darwin-arm64.tar.gz` from the latest GitHub release
              on first activation.

  # Verification (same for every editor)
  OPEN any Fleet GitOps YAML
  ASSERT hover on a documented field shows description + valid values
  ASSERT a typo in a known key surfaces a diagnostic in real time
  ASSERT `path:` value completion offers files in the workspace

# Capabilities (what the LSP provides)
- diagnostics       — real-time, every keystroke
- hover             — field/table docs, valid values, examples
- completion        — keys, platform values, osquery tables, common labels, paths/globs
- code actions      — quick fixes for deprecated keys + typos
- go-to-definition  — `path:` references, label name references
- document symbols  — outline of the YAML
- semantic tokens   — SQL syntax inside `query:` values

# Configuration
The LSP reads `.fleetlint.toml` (same format as `flint check`):
- [rules]        — disabled / warn lists
- [thresholds]   — query interval bounds
- [deprecations] — target Fleet version, future_names opt-in
"#;

/// The `hooks` procedure.
pub const SOP_HOOKS: &'static str = r#"# SOP: Pre-commit git hooks

PROCEDURE install_hook(repo_root, mode):
  ASSERT repo_root contains `.git/`
  ASSERT mode IN {non-blocking, strict, json, strict+json}

  CD repo_root

  CASE mode:
    non-blocking:   `flint hooks install`                  # default
    strict:         `flint hooks install --strict`         # errors block commits
    json:           `flint hooks install --json`           # structured output
    strict+json:    `flint hooks install --strict --json`  # block + JSON

  IF an existing pre-commit hook is present and not authored by flint:
    flint refuses to overwrite — re-run with `--force` to overwrite, or
    move the existing hook aside first.

  ASSERT `.git/hooks/pre-commit` is now executable (chmod 755).

PROCEDURE remove_hook(repo_root):
  CD repo_root
  RUN: `flint hooks uninstall`
  ASSERT it refuses if the existing hook was not authored by flint.

# Behavior contract (what the generated hook does)
- Runs `flint check` only on staged YAML files (or the whole repo if none staged).
- Non-blocking (default): always exits 0 — diagnostics print but commits proceed.
- Strict: flint's native exit code propagates. Bypass with `git commit --no-verify`.
- JSON: emits structured diagnostics suitable for CI piping or `jq` parsing.
- Auto-skips if `flint` is not on PATH (logs a single warning to stderr).

# How to switch modes later
  RUN: `flint hooks install --force <new flags>`     # overwrite in place
  e.g. switch from non-blocking to strict:
       `flint hooks install --force --strict`

# How to debug
  cat .git/hooks/pre-commit | head -10
  → the comment header records `Strict mode: <bool>. JSON output: <bool>.`
"#;

/// The `author` procedure.
pub const SOP_AUTHOR: &'static str = r#"# SOP: Authoring Fleet GitOps YAML against flint's schema

PROCEDURE author_fleet_yaml(target_file, intent):
  # Audience: any agent (or human) writing Fleet GitOps YAML in any repo.

  # Phase 1 — Identify the file kind from its path (flint auto-detects)
  CASE target_file:
    *default.yml              -> top-level FleetConfig (org_settings, controls, …)
    fleets/**/*.yml           -> per-fleet config (settings.webhook_settings allowed)
    fleets/unassigned.yml     -> "Unassigned" fleet (alias of a per-fleet file)
    labels/**/*.yml           -> standalone label array (top-level sequence)
    */policies/**/*.yml       -> standalone policy array (top-level sequence)
    */queries/**/*.yml        -> standalone query/report array
    */software/**/*.yml       -> standalone software-package config
    agent-options*.yml        -> standalone agent_options config

  # Phase 2 — Consult the schema BEFORE writing
  REFERENCE: editors/vscode/schemas/<kind>.schema.json
             (mirrors the rules `flint check` will apply)
  REFERENCE for canonical Fleet keys:
    /Users/henry/Code/GitHub/fleet/docs/Configuration/yaml-files.md
    /Users/henry/Code/GitHub/fleet/docs/REST API/rest-api.md
    /Users/henry/Code/GitHub/fleet/cmd/fleetctl/fleetctl/testdata/generateGitops/

  # Phase 3 — Draft
  WRITE the YAML following the schema for <kind>
  AVOID keys not in the schema (`flint check` will flag them)
  PREFER canonical names over the deprecated forms:
    `fleets/`          NOT `teams/`
    `settings:`        NOT `team_settings:`
    `reports:`         NOT `queries:`           (top-level only)
    `unassigned.yml`   NOT `no-team.yml`

  # Phase 4 — Validate
  RUN: `flint check <target_file>`
  IF errors > 0:
    READ each diagnostic — `help` describes the issue, `suggestion` gives the fix
    LOOP back to Phase 3
  IF warnings > 0:
    EVALUATE each — they are typically not blocking but worth fixing

  # Phase 5 — Cross-file gate
  IF target_file references other files via `path:` or `paths:`:
    ASSERT each referenced file exists relative to the current file
    RUN: `flint check <repo_root>` to validate the whole graph

  # Phase 6 — Commit gate
  IF the repo has a flint pre-commit hook installed:
    `git commit` will run `flint check --hook-mode` automatically.
  ELSE:
    OPTIONAL: install one — see `flint help-agents --sop hooks`.

# What flint catches that a plain YAML linter does not
- misplaced keys (e.g. `webhooks_and_tickets_enabled` under `integrations:`)
- multi-platform false positives (`platform: darwin,linux` is split correctly)
- patch-policy coupling (`type: patch` requires `fleet_maintained_app_slug`)
- per-fleet vs org-only constraints (`vulnerabilities_webhook` is org-only)
- deprecated keys with a fix suggestion (`teams:` → `fleets:`)
- osquery table availability per platform (e.g. `usb_devices` is darwin+linux only)
"#;

/// The `add-field` procedure.
pub const SOP_ADD_FIELD: &'static str = r#"# SOP: Add a new Fleet YAML field to flint
# Audience: agents working ON this repo (extending the schema/linter).

PROCEDURE add_fleet_field(field_name, parent_path, field_type, valid_values?):
  # parent_path uses dot notation:
  #   "controls"             "policies[]"           "labels[].criteria"
  #   "agent_options"        "software.packages[]"  "team_settings.webhook_settings"

  # Phase 1 — Source of truth
  REFERENCE one or more of:
    /Users/henry/Code/GitHub/fleet/docs/Configuration/yaml-files.md
    /Users/henry/Code/GitHub/fleet/docs/REST API/rest-api.md
    /Users/henry/Code/GitHub/fleet/pkg/spec/gitops.go
    /Users/henry/Code/GitHub/fleet/server/fleet/*.go
    /Users/henry/Code/GitHub/fleet/cmd/fleetctl/fleetctl/testdata/generateGitops/
  ASSERT field_name + parent_path are confirmed by at least one source.

  # Phase 2 — Structural schema
  EDIT crates/flint-lint/src/structure.rs
  LOCATE the helper that builds <parent_path>'s children
         (e.g. policy_inline_strict, controls_schema, agent_options_inline)
  ADD: ("<field_name>", <node>)
       where <node> is one of:
         leaf()                       — opaque scalar
         boolean_leaf()               — strict bool
         array(item_node)             — sequence
         mapping(vec![...])           — fixed-key object
         open_mapping()               — additionalProperties: true

  # Phase 3 — Key registry (typo + misplaced-key detection)
  EDIT same file (KEY_REGISTRY block)
  ADD: reg.register("<field_name>", "<parent_path>");
  IF the key is also valid under additional parents:
    REGISTER under each — KeyRegistry stores a Vec<&str> per key.

  # Phase 4 — Hover docs (LSP)
  EDIT crates/flint-lsp/src/schema.rs (FIELD_DOCS HashMap)
  INSERT m.insert(
    "<parent_path>.<field_name>",
    FieldDoc {
      name: "<field_name>",
      description: "...",
      valid_values: <Option<&[&str]>>,
      example: Some("<field_name>: <value>"),
      required: <bool>,
      field_type: "<rendered type>",
      cli_hint: None,
    },
  );

  # Phase 5 — Completion (LSP)
  EDIT crates/flint-lsp/src/completion.rs
  LOCATE the matching `complete_*_fields` function
  ADD a tuple: ("<field_name>", "<short description>", <required: bool>)
  IF field has an enum:
    ADD a value-position branch in the same function that returns the enum.

  # Phase 6 — JSON Schemas (used by VS Code's yaml-language-server)
  IF a per-kind schema exists for this parent:
    EDIT editors/vscode/schemas/<kind>.schema.json
    EDIT .vscode/fleet-gitops-schema/<kind>.schema.json   (mirror)

  # Phase 7 — Tests (regression guard)
  EDIT one of:
    crates/flint-lint/src/structural.rs   (structural acceptance/rejection)
    crates/flint-lint/src/semantic.rs     (semantic coupling rules)
    crates/flint-lint/src/engine.rs       (end-to-end via Linter)
  ADD a test using the new field in a realistic snippet.
  ASSERT no errors (positive case) AND a clear error for misuse (negative case).

  # Phase 8 — Validate
  RUN: `cargo test --workspace`
  RUN: `cargo clippy -p flint-lint --lib --no-deps -- -D warnings`
  RUN: `cargo clippy -p flint-lsp --lib --no-deps -- -D warnings`
  RUN: `cargo build --release -p flint`
  RUN: `target/release/flint check <fixture-with-the-new-field>` -> expect clean

  # Phase 9 — End-to-end on a real repo
  RUN: `target/release/flint check /Users/henry/Code/GitHub/LGW-gitops`
  ASSERT no NEW errors vs the pre-change baseline.

  # Phase 10 — Bump (only if shipping)
  See `flint help-agents --sop release` (separate procedure):
    bump version in 6 spots, regenerate Cargo.lock, run release script.

# Anti-patterns
- Adding a field only to FIELD_DOCS or only to structure.rs → users get
  inconsistent UX (hover but no completion, or completion but no validation).
- Forgetting KEY_REGISTRY → typo suggestions become useless for the new key.
- Skipping a regression test → the next refactor will silently break it.
"#;

/// The procedure that a (lowercased) tool name or alias selects.
pub open spec fn sop_for(tool: Seq<char>) -> Option<Seq<char>> {
    if tool == "lint"@ || tool == "check"@ {
        Some(SOP_LINT@)
    } else if tool == "migrate"@ || tool == "migration"@ {
        Some(SOP_MIGRATE@)
    } else if tool == "lsp"@ || tool == "editor"@ || tool == "editors"@ {
        Some(SOP_LSP@)
    } else if tool == "hooks"@ || tool == "hook"@ || tool == "pre-commit"@ {
        Some(SOP_HOOKS@)
    } else if tool == "author"@ || tool == "yaml"@ || tool == "write"@ {
        Some(SOP_AUTHOR@)
    } else if tool == "add-field"@ || tool == "addfield"@ || tool == "extend"@ || tool == "schema"@ {
        Some(SOP_ADD_FIELD@)
    } else {
        None
    }
}

/// The name a tool is looked up by: its lowercase form (for ASCII names,
/// `A`–`Z` mapped to `a`–`z`).
pub open spec fn sop_key(tool: Seq<char>) -> Seq<char> {
    if text::all_ascii(tool) {
        text::ascii_lower(tool)
    } else {
        text::unicode_lower(tool)
    }
}

/// ASCII tool names that differ only in case select the same procedure,
/// so `generate_sop` writes the same bytes for them.
pub proof fn law_sop_case_insensitive(t1: Seq<char>, t2: Seq<char>)
    requires
        text::all_ascii(t1),
        text::all_ascii(t2),
        text::ascii_lower(t1) == text::ascii_lower(t2),
    ensures
        sop_for(sop_key(t1)) == sop_for(sop_key(t2)),
{
}

/// The message for a tool name that selects no procedure.
pub open spec fn unknown_sop_message(tool: Seq<char>) -> Seq<char> {
    "Unknown SOP: '"@ + tool + "'. Available: lint, migrate, lsp, hooks, author, add-field"@
}

/// Appends the UTF-8 bytes of a text.
fn write_str(out: &mut Vec<u8>, s: &str)
    ensures
        final(out)@ == old(out)@ + vstd::utf8::encode_utf8(s@),
{
    let bytes = s.as_bytes();
    let mut i: usize = 0;
    while i < bytes.len()
        invariant
            i <= bytes@.len(),
            bytes@ == vstd::utf8::encode_utf8(s@),
            out@ == old(out)@ + bytes@.take(i as int),
        decreases bytes.len() - i,
    {
        out.push(bytes[i]);
        assert(bytes@.take(i + 1) =~= bytes@.take(i as int).push(bytes@[i as int]));
        i += 1;
    }
    assert(bytes@.take(bytes@.len() as int) =~= bytes@);
}

fn sop_text(tool: &[char]) -> (r: Option<&'static str>)
    ensures
        match r {
            Some(s) => sop_for(tool@) == Some(s@),
            None => sop_for(tool@) is None,
        },
{
    if text::eq_str(tool, "lint") || text::eq_str(tool, "check") {
        Some(SOP_LINT)
    } else if text::eq_str(tool, "migrate") || text::eq_str(tool, "migration") {
        Some(SOP_MIGRATE)
    } else if text::eq_str(tool, "lsp") || text::eq_str(tool, "editor") || text::eq_str(tool, "editors") {
        Some(SOP_LSP)
    } else if text::eq_str(tool, "hooks") || text::eq_str(tool, "hook") || text::eq_str(tool, "pre-commit") {
        Some(SOP_HOOKS)
    } else if text::eq_str(tool, "author") || text::eq_str(tool, "yaml") || text::eq_str(tool, "write") {
        Some(SOP_AUTHOR)
    } else if text::eq_str(tool, "add-field") || text::eq_str(tool, "addfield") || text::eq_str(tool, "extend")
        || text::eq_str(tool, "schema") {
        Some(SOP_ADD_FIELD)
    } else {
        None
    }
}

/// Writes the procedure for a tool (matched case-insensitively, aliases
/// included) to `out`; an unknown tool is an error naming the available
/// ones, and nothing is written.
pub fn generate_sop(tool: &str, out: &mut Vec<u8>) -> (r: Result<(), String>)
    ensures
        match sop_for(sop_key(tool@)) {
            Some(s) => r is Ok && final(out)@ == old(out)@ + vstd::utf8::encode_utf8(s),
            None => r matches Err(m) && m@ == unknown_sop_message(tool@) && final(out)@ == old(out)@,
        },
{
    let lower = text::to_lowercase(tool);
    match sop_text(&chars_of(lower.as_str())) {
        Some(s) => {
            write_str(out, s);
            Ok(())
        },
        None => {
            let m = concat(
                &concat(&chars_of("Unknown SOP: '"), &chars_of(tool)),
                &chars_of("'. Available: lint, migrate, lsp, hooks, author, add-field"),
            );
            Err(string_of(&m))
        },
    }
}


// ============================================================================
// Command-line reference
// ============================================================================

/// An argument of a command, as the reference describes it.
#[derive(Debug)]
pub struct ArgInfo {
    pub id: String,
    pub long: Option<String>,
    pub short: Option<char>,
    pub help: Option<String>,
    pub positional: bool,
    pub required: bool,
    pub hidden: bool,
    pub global: bool,
    pub defaults: Vec<String>,
    pub takes_values: bool,
    pub possible_values: Vec<String>,
}

/// A command and its subcommands, as the reference describes them.
#[derive(Debug)]
pub struct CommandInfo {
    pub name: String,
    pub about: Option<String>,
    pub long_about: Option<String>,
    pub version: Option<String>,
    pub hidden: bool,
    pub args: Vec<ArgInfo>,
    pub subcommands: Vec<CommandInfo>,
}

/// The text of an optional string, empty when absent.
pub open spec fn or_empty(o: Option<String>) -> Seq<char> {
    match o {
        Some(s) => s@,
        None => Seq::empty(),
    }
}

fn or_empty_exec(o: &Option<String>) -> (r: Vec<char>)
    ensures
        r@ == or_empty(*o),
{
    match o {
        Some(s) => chars_of(s.as_str()),
        None => Vec::new(),
    }
}

/// The guide at the top of the index, for a program called `name`.
pub open spec fn index_header(name: Seq<char>) -> Seq<char> {
    "# "@ + name + " — Fleet GitOps YAML linter and language server\n\n## Agent guide\n\n"@ + name + " is a CLI tool for linting, validating, and migrating Fleet GitOps YAML configurations.\n\n**Discovery workflow:**\n1. Read the command index below to find relevant commands\n2. Run `"@ + name + " help-ai --command <name>` for full flags and usage of a specific command\n3. Run `"@ + name + " help-ai --sop <tool>` for step-by-step workflows (lint, migrate, lsp)\n4. Run `"@ + name + " help-ai --full` for the complete reference (large output)\n\n**JSON schema (for structured parsing):**\n- `"@ + name + " help-json` — full CLI schema as JSON\n- `"@ + name + " help-json <name>` — scoped subtree, globals stripped\n\n**Common patterns:**\n- `--format json` on check and list-rules for structured output\n- `--fix` auto-applies safe fixes, `--unsafe-fixes` for risky ones\n- `"@ + name + " migrate` outputs JSON report — does NOT apply changes\n- `.fleetlint.toml` configures rules, thresholds, and Fleet connection\n\n**When to use which SOP (match user intent to the right SOP):**\n- lint, validate, check, fix YAML files → `--sop lint`\n- migrate, upgrade, rename teams/queries/team_settings → `--sop migrate`\n- editor setup (VS Code, Zed, Sublime) → `--sop lsp`\n- install/remove a non-blocking pre-commit hook → `--sop hooks`\n- author Fleet GitOps YAML correctly the first time → `--sop author`\n- extend flint with a new Fleet YAML field (working ON this repo) → `--sop add-field`\n\nAll SOPs are written in **procedural format** — read top-to-bottom as PROCEDUREs\nwith numbered phases, ASSERTs, and explicit RETURN points. Run `"@ + name + " help-ai`\n`--sop <tool>` to print one:\n- `--sop lint`        — lint workflow (config discovery → check → classify exit → CI)\n- `--sop migrate`     — version migration (report → renames bottom-up → verify)\n- `--sop lsp`         — editor setup for VS Code / Zed / Sublime\n- `--sop hooks`       — `.git/hooks/pre-commit` install + uninstall + mode switching\n- `--sop author`      — schema-as-contract loop for authoring Fleet YAML\n- `--sop add-field`   — repo-extension procedure (schema → registry → docs → tests)\n\n"@
}

fn index_header_exec(name: &Vec<char>) -> (r: Vec<char>)
    ensures
        r@ == index_header(name@),
{
    let mut v: Vec<char> = Vec::new();
    v = concat(&v, &chars_of("# "));
    v = concat(&v, name);
    v = concat(&v, &chars_of(" — Fleet GitOps YAML linter and language server\n\n## Agent guide\n\n"));
    v = concat(&v, name);
    v = concat(&v, &chars_of(" is a CLI tool for linting, validating, and migrating Fleet GitOps YAML configurations.\n\n**Discovery workflow:**\n1. Read the command index below to find relevant commands\n2. Run `"));
    v = concat(&v, name);
    v = concat(&v, &chars_of(" help-ai --command <name>` for full flags and usage of a specific command\n3. Run `"));
    v = concat(&v, name);
    v = concat(&v, &chars_of(" help-ai --sop <tool>` for step-by-step workflows (lint, migrate, lsp)\n4. Run `"));
    v = concat(&v, name);
    v = concat(&v, &chars_of(" help-ai --full` for the complete reference (large output)\n\n**JSON schema (for structured parsing):**\n- `"));
    v = concat(&v, name);
    v = concat(&v, &chars_of(" help-json` — full CLI schema as JSON\n- `"));
    v = concat(&v, name);
    v = concat(&v, &chars_of(" help-json <name>` — scoped subtree, globals stripped\n\n**Common patterns:**\n- `--format json` on check and list-rules for structured output\n- `--fix` auto-applies safe fixes, `--unsafe-fixes` for risky ones\n- `"));
    v = concat(&v, name);
    v = concat(&v, &chars_of(" migrate` outputs JSON report — does NOT apply changes\n- `.fleetlint.toml` configures rules, thresholds, and Fleet connection\n\n**When to use which SOP (match user intent to the right SOP):**\n- lint, validate, check, fix YAML files → `--sop lint`\n- migrate, upgrade, rename teams/queries/team_settings → `--sop migrate`\n- editor setup (VS Code, Zed, Sublime) → `--sop lsp`\n- install/remove a non-blocking pre-commit hook → `--sop hooks`\n- author Fleet GitOps YAML correctly the first time → `--sop author`\n- extend flint with a new Fleet YAML field (working ON this repo) → `--sop add-field`\n\nAll SOPs are written in **procedural format** — read top-to-bottom as PROCEDUREs\nwith numbered phases, ASSERTs, and explicit RETURN points. Run `"));
    v = concat(&v, name);
    v = concat(&v, &chars_of(" help-ai`\n`--sop <tool>` to print one:\n- `--sop lint`        — lint workflow (config discovery → check → classify exit → CI)\n- `--sop migrate`     — version migration (report → renames bottom-up → verify)\n- `--sop lsp`         — editor setup for VS Code / Zed / Sublime\n- `--sop hooks`       — `.git/hooks/pre-commit` install + uninstall + mode switching\n- `--sop author`      — schema-as-contract loop for authoring Fleet YAML\n- `--sop add-field`   — repo-extension procedure (schema → registry → docs → tests)\n\n"));
    assert(v@ =~= index_header(name@));
    v
}

/// A command is listed: it is not hidden and not `help`.
pub open spec fn listed(c: CommandInfo) -> bool {
    !c.hidden && c.name@ != "help"@
}

/// An argument is shown: it is not hidden and is not `help` or `version`.
pub open spec fn arg_shown(a: ArgInfo) -> bool {
    !a.hidden && a.id@ != "help"@ && a.id@ != "version"@
}

/// The index line of an argument: its long flag or positional name,
/// whether it is required, and its help; arguments with neither a long
/// flag nor a position are left out.
pub open spec fn arg_index_line(a: ArgInfo) -> Seq<char> {
    if !arg_shown(a) {
        Seq::empty()
    } else {
        let flag = match a.long {
            Some(l) => Some("--"@ + l@),
            None => if a.positional {
                Some("<"@ + a.id@ + ">"@)
            } else {
                None
            },
        };
        match flag {
            Some(f) => "  "@ + f + (if a.required {
                " (required)"@
            } else {
                Seq::empty()
            }) + " — "@ + or_empty(a.help) + "\n"@,
            None => Seq::empty(),
        }
    }
}

/// The index lines of a list of arguments.
pub open spec fn arg_index_lines(args: Seq<ArgInfo>) -> Seq<char>
    decreases args.len(),
{
    if args.len() == 0 {
        Seq::empty()
    } else {
        arg_index_lines(args.drop_last()) + arg_index_line(args.last())
    }
}

/// The index entry of a subcommand of the program `name`.
pub open spec fn sub_index_entry(name: Seq<char>, sub: CommandInfo) -> Seq<char> {
    if !listed(sub) {
        Seq::empty()
    } else {
        "### "@ + name + " "@ + sub.name@ + "\n"@ + or_empty(sub.about) + "\n"@ + arg_index_lines(sub.args@) + "\n"@
    }
}

/// The index entries of a list of subcommands.
pub open spec fn sub_index_entries(name: Seq<char>, subs: Seq<CommandInfo>) -> Seq<char>
    decreases subs.len(),
{
    if subs.len() == 0 {
        Seq::empty()
    } else {
        sub_index_entries(name, subs.drop_last()) + sub_index_entry(name, subs.last())
    }
}

/// The agent guide and command index of a program.
pub open spec fn index_text(cmd: CommandInfo) -> Seq<char> {
    index_header(cmd.name@) + "## Command index\n\n"@ + sub_index_entries(cmd.name@, cmd.subcommands@)
}

fn arg_shown_exec(a: &ArgInfo) -> (r: bool)
    ensures
        r == arg_shown(*a),
{
    !a.hidden && !text::str_eq(a.id.as_str(), "help") && !text::str_eq(a.id.as_str(), "version")
}

fn listed_exec(c: &CommandInfo) -> (r: bool)
    ensures
        r == listed(*c),
{
    !c.hidden && !text::str_eq(c.name.as_str(), "help")
}

fn arg_index_line_exec(a: &ArgInfo) -> (r: Vec<char>)
    ensures
        r@ == arg_index_line(*a),
{
    if !arg_shown_exec(a) {
        return Vec::new();
    }
    let flag = match &a.long {
        Some(l) => concat(&chars_of("--"), &chars_of(l.as_str())),
        None => {
            if a.positional {
                concat(&concat(&chars_of("<"), &chars_of(a.id.as_str())), &chars_of(">"))
            } else {
                return Vec::new();
            }
        },
    };
    let mut v = concat(&chars_of("  "), &flag);
    if a.required {
        v = concat(&v, &chars_of(" (required)"));
    }
    v = concat(&v, &chars_of(" — "));
    v = concat(&v, &or_empty_exec(&a.help));
    v = concat(&v, &chars_of("\n"));
    assert(v@ =~= arg_index_line(*a));
    v
}

fn sub_index_entry_exec(name: &Vec<char>, sub: &CommandInfo) -> (r: Vec<char>)
    ensures
        r@ == sub_index_entry(name@, *sub),
{
    if !listed_exec(sub) {
        return Vec::new();
    }
    let mut v = concat(&chars_of("### "), name);
    v = concat(&v, &chars_of(" "));
    v = concat(&v, &chars_of(sub.name.as_str()));
    v = concat(&v, &chars_of("\n"));
    v = concat(&v, &or_empty_exec(&sub.about));
    v = concat(&v, &chars_of("\n"));
    let ghost head = v@;
    let mut i: usize = 0;
    while i < sub.args.len()
        invariant
            i <= sub.args@.len(),
            v@ == head + arg_index_lines(sub.args@.take(i as int)),
        decreases sub.args.len() - i,
    {
        assert(sub.args@.take(i + 1).drop_last() =~= sub.args@.take(i as int));
        v = concat(&v, &arg_index_line_exec(&sub.args[i]));
        i += 1;
    }
    assert(sub.args@.take(sub.args.len() as int) =~= sub.args@);
    v = concat(&v, &chars_of("\n"));
    assert(v@ =~= sub_index_entry(name@, *sub));
    v
}

/// Writes the agent guide and the index of the program's listed
/// subcommands with their shown arguments.
pub fn generate_index(cmd: &CommandInfo, out: &mut Vec<u8>)
    ensures
        final(out)@ == old(out)@ + vstd::utf8::encode_utf8(index_text(*cmd)),
{
    let name = chars_of(cmd.name.as_str());
    let mut v = index_header_exec(&name);
    v = concat(&v, &chars_of("## Command index\n\n"));
    let ghost head = v@;
    let mut i: usize = 0;
    while i < cmd.subcommands.len()
        invariant
            i <= cmd.subcommands@.len(),
            name@ == cmd.name@,
            v@ == head + sub_index_entries(name@, cmd.subcommands@.take(i as int)),
        decreases cmd.subcommands.len() - i,
    {
        assert(cmd.subcommands@.take(i + 1).drop_last() =~= cmd.subcommands@.take(i as int));
        v = concat(&v, &sub_index_entry_exec(&name, &cmd.subcommands[i]));
        i += 1;
    }
    assert(cmd.subcommands@.take(cmd.subcommands.len() as int) =~= cmd.subcommands@);
    assert(v@ =~= index_text(*cmd));
    let s = string_of(&v);
    write_str(out, s.as_str());
}

/// Joins texts with `sep`.
pub open spec fn joined(parts: Seq<Seq<char>>, sep: Seq<char>) -> Seq<char>
    decreases parts.len(),
{
    if parts.len() == 0 {
        Seq::empty()
    } else if parts.len() == 1 {
        parts[0]
    } else {
        joined(parts.drop_last(), sep) + sep + parts.last()
    }
}

fn join_strings(parts: &Vec<String>, sep: &str) -> (r: Vec<char>)
    ensures
        r@ == joined(text::string_views(parts@), sep@),
{
    let ghost ps = text::string_views(parts@);
    let mut r: Vec<char> = Vec::new();
    let mut i: usize = 0;
    while i < parts.len()
        invariant
            i <= parts.len(),
            ps == text::string_views(parts@),
            r@ == joined(ps.take(i as int), sep@),
        decreases parts.len() - i,
    {
        assert(ps.take(i + 1).drop_last() =~= ps.take(i as int));
        assert(ps.take(i + 1).last() == parts@[i as int]@);
        if i == 0 {
            r = chars_of(parts[0].as_str());
            assert(r@ =~= joined(ps.take(1), sep@));
        } else {
            r = concat(&r, &chars_of(sep));
            r = concat(&r, &chars_of(parts[i].as_str()));
            assert(r@ =~= joined(ps.take(i + 1), sep@));
        }
        i += 1;
    }
    assert(ps.take(parts.len() as int) =~= ps);
    r
}

/// An argument is described in a command's detail: shown and not global.
pub open spec fn arg_detailed(a: ArgInfo) -> bool {
    arg_shown(a) && !a.global
}

/// The flag an argument is shown by in its detail: its positional name,
/// its long flag with its short form, or its short flag.
pub open spec fn arg_head(a: ArgInfo) -> Option<Seq<char>> {
    if a.positional {
        Some("- `<"@ + a.id@ + ">`"@)
    } else {
        match a.long {
            Some(l) => Some("- `--"@ + l@ + "`"@ + match a.short {
                Some(c) => " / `-"@ + seq![c] + "`"@,
                None => Seq::empty(),
            }),
            None => match a.short {
                Some(c) => Some("- `-"@ + seq![c] + "`"@),
                None => None,
            },
        }
    }
}

/// The rest of an argument's detail: whether it is required and its help,
/// then its defaults and possible values when it has them.
pub open spec fn arg_tail(a: ArgInfo) -> Seq<char> {
    (if a.required {
        " **(required)**"@
    } else {
        Seq::empty()
    }) + " — "@ + or_empty(a.help) + "\n"@ + (if a.defaults@.len() > 0 {
        "  Default: `"@ + joined(text::string_views(a.defaults@), ", "@) + "`\n"@
    } else {
        Seq::empty()
    }) + (if a.takes_values && a.possible_values@.len() > 0 {
        "  Values: "@ + joined(text::string_views(a.possible_values@), ", "@) + "\n"@
    } else {
        Seq::empty()
    })
}

/// The detail lines of an argument; arguments with no positional name and
/// no flag are left out.
pub open spec fn arg_detail(a: ArgInfo) -> Seq<char> {
    match arg_head(a) {
        None => Seq::empty(),
        Some(h) => h + arg_tail(a),
    }
}

fn char_vec(c: char) -> (r: Vec<char>)
    ensures
        r@ == seq![c],
{
    let mut v: Vec<char> = Vec::new();
    v.push(c);
    assert(v@ =~= seq![c]);
    v
}

fn arg_head_exec(a: &ArgInfo) -> (r: Option<Vec<char>>)
    ensures
        match r {
            Some(h) => arg_head(*a) == Some(h@),
            None => arg_head(*a) is None,
        },
{
    if a.positional {
        Some(concat(&concat(&chars_of("- `<"), &chars_of(a.id.as_str())), &chars_of(">`")))
    } else {
        match &a.long {
            Some(l) => {
                let h = concat(&concat(&chars_of("- `--"), &chars_of(l.as_str())), &chars_of("`"));
                match a.short {
                    Some(c) => {
                        let t = concat(&concat(&chars_of(" / `-"), &char_vec(c)), &chars_of("`"));
                        Some(concat(&h, &t))
                    },
                    None => {
                        let e: Vec<char> = Vec::new();
                        assert(h@ + e@ =~= h@);
                        Some(h)
                    },
                }
            },
            None => match a.short {
                Some(c) => Some(concat(&concat(&chars_of("- `-"), &char_vec(c)), &chars_of("`"))),
                None => None,
            },
        }
    }
}

fn arg_tail_exec(a: &ArgInfo) -> (r: Vec<char>)
    ensures
        r@ == arg_tail(*a),
{
    let mut v: Vec<char> = Vec::new();
    if a.required {
        v = chars_of(" **(required)**");
    }
    v = concat(&v, &chars_of(" — "));
    v = concat(&v, &or_empty_exec(&a.help));
    v = concat(&v, &chars_of("\n"));
    let ghost mid = v@;
    let mut d: Vec<char> = Vec::new();
    if a.defaults.len() > 0 {
        d = concat(&concat(&chars_of("  Default: `"), &join_strings(&a.defaults, ", ")), &chars_of("`\n"));
    }
    let mut p: Vec<char> = Vec::new();
    if a.takes_values && a.possible_values.len() > 0 {
        p = concat(&concat(&chars_of("  Values: "), &join_strings(&a.possible_values, ", ")), &chars_of("\n"));
    }
    v = concat(&concat(&v, &d), &p);
    assert(v@ =~= arg_tail(*a));
    v
}

fn write_arg_detail(a: &ArgInfo) -> (r: Vec<char>)
    ensures
        r@ == arg_detail(*a),
{
    match arg_head_exec(a) {
        Some(h) => concat(&h, &arg_tail_exec(a)),
        None => Vec::new(),
    }
}

/// The details of the described arguments of a list.
pub open spec fn arg_details(args: Seq<ArgInfo>) -> Seq<char>
    decreases args.len(),
{
    if args.len() == 0 {
        Seq::empty()
    } else {
        arg_details(args.drop_last()) + (if arg_detailed(args.last()) {
            arg_detail(args.last())
        } else {
            Seq::empty()
        })
    }
}

/// Some argument of the list is described.
pub open spec fn some_detailed(args: Seq<ArgInfo>) -> bool {
    exists|i: int| 0 <= i < args.len() && arg_detailed(#[trigger] args[i])
}

fn arg_details_exec(args: &Vec<ArgInfo>) -> (r: (Vec<char>, bool))
    ensures
        r.0@ == arg_details(args@),
        r.1 == some_detailed(args@),
{
    let mut v: Vec<char> = Vec::new();
    let mut any = false;
    let mut i: usize = 0;
    while i < args.len()
        invariant
            i <= args@.len(),
            v@ == arg_details(args@.take(i as int)),
            any == (exists|k: int| 0 <= k < i && arg_detailed(#[trigger] args@[k])),
        decreases args.len() - i,
    {
        assert(args@.take(i + 1).drop_last() =~= args@.take(i as int));
        if arg_shown_exec(&args[i]) && !args[i].global {
            v = concat(&v, &write_arg_detail(&args[i]));
            any = true;
        }
        i += 1;
    }
    assert(args@.take(args.len() as int) =~= args@);
    (v, any)
}

/// The first subcommand named `name`.
pub open spec fn find_sub(subs: Seq<CommandInfo>, name: Seq<char>) -> Option<CommandInfo>
    decreases subs.len(),
{
    if subs.len() == 0 {
        None
    } else if subs[0].name@ == name {
        Some(subs[0])
    } else {
        find_sub(subs.drop_first(), name)
    }
}

/// The names of the listed subcommands, in order.
pub open spec fn listed_names(subs: Seq<CommandInfo>) -> Seq<Seq<char>>
    decreases subs.len(),
{
    if subs.len() == 0 {
        Seq::empty()
    } else if listed(subs.last()) {
        listed_names(subs.drop_last()).push(subs.last().name@)
    } else {
        listed_names(subs.drop_last())
    }
}

/// Follows a path of subcommand names from `cmd`: the command reached, or
/// the error for the first name that is not a subcommand.
pub open spec fn resolve(cmd: CommandInfo, parts: Seq<Seq<char>>) -> Result<CommandInfo, Seq<char>>
    decreases parts.len(),
{
    if parts.len() == 0 {
        Ok(cmd)
    } else {
        match resolve(cmd, parts.drop_last()) {
            Err(e) => Err(e),
            Ok(c) => match find_sub(c.subcommands@, parts.last()) {
                Some(s) => Ok(s),
                None => Err(
                    "Unknown command '"@ + parts.last() + "'. Available: "@ + joined(listed_names(c.subcommands@), ", "@),
                ),
            },
        }
    }
}

/// The subcommand lines of a command's detail.
pub open spec fn sub_lines(full: Seq<char>, subs: Seq<CommandInfo>) -> Seq<char>
    decreases subs.len(),
{
    if subs.len() == 0 {
        Seq::empty()
    } else {
        sub_lines(full, subs.drop_last()) + (if listed(subs.last()) {
            "- `"@ + full + " "@ + subs.last().name@ + "` — "@ + or_empty(subs.last().about) + "\n"@
        } else {
            Seq::empty()
        })
    }
}

/// The detail of a command reached by the path `full`: its about text,
/// long about, described arguments and listed subcommands.
pub open spec fn command_text(c: CommandInfo, full: Seq<char>) -> Seq<char> {
    "# "@ + full + "\n\n"@ + or_empty(c.about) + "\n\n"@ + match c.long_about {
        Some(l) => l@ + "\n\n"@,
        None => Seq::empty(),
    } + (if some_detailed(c.args@) {
        "## Arguments\n\n"@ + arg_details(c.args@)
    } else {
        Seq::empty()
    }) + (if listed_names(c.subcommands@).len() > 0 {
        "## Subcommands\n\n"@ + sub_lines(full, c.subcommands@) + "\n"@
    } else {
        Seq::empty()
    })
}

fn find_sub_exec<'a>(subs: &'a Vec<CommandInfo>, name: &[char]) -> (r: Option<&'a CommandInfo>)
    ensures
        match r {
            Some(c) => find_sub(subs@, name@) == Some(*c),
            None => find_sub(subs@, name@) is None,
        },
{
    let ghost sv = subs@;
    assert(sv.skip(0) =~= sv);
    let mut j: usize = 0;
    while j < subs.len()
        invariant
            j <= subs@.len(),
            sv == subs@,
            find_sub(sv, name@) == find_sub(sv.skip(j as int), name@),
        decreases subs.len() - j,
    {
        assert(sv.skip(j as int)[0] == subs@[j as int]);
        if text::eq_str(name, subs[j].name.as_str()) {
            return Some(&subs[j]);
        }
        assert(sv.skip(j as int).drop_first() =~= sv.skip(j + 1));
        j += 1;
    }
    assert(sv.skip(j as int) =~= Seq::<CommandInfo>::empty());
    None
}

fn listed_names_exec(subs: &Vec<CommandInfo>) -> (r: Vec<String>)
    ensures
        text::string_views(r@) == listed_names(subs@),
{
    let mut r: Vec<String> = Vec::new();
    let mut i: usize = 0;
    while i < subs.len()
        invariant
            i <= subs@.len(),
            text::string_views(r@) == listed_names(subs@.take(i as int)),
        decreases subs.len() - i,
    {
        assert(subs@.take(i + 1).drop_last() =~= subs@.take(i as int));
        if listed_exec(&subs[i]) {
            let ghost before = text::string_views(r@);
            let n = string_of(&chars_of(subs[i].name.as_str()));
            r.push(n);
            assert(text::string_views(r@) =~= before.push(subs@[i as int].name@));
        }
        i += 1;
    }
    assert(subs@.take(subs.len() as int) =~= subs@);
    r
}

/// Writes the detail of the command that a dotted path of subcommand
/// names reaches; a name that is not a subcommand is an error listing the
/// available ones, and nothing is written.
#[verifier::spinoff_prover]
#[verifier::rlimit(40)]
pub fn generate_command(cmd: &CommandInfo, dotted_path: &str, out: &mut Vec<u8>) -> (r: Result<(), String>)
    ensures
        ({
            let parts = text::split(dotted_path@, '.');
            match resolve(*cmd, parts) {
                Ok(c) => r is Ok && final(out)@ == old(out)@ + vstd::utf8::encode_utf8(
                    command_text(c, joined(seq![cmd.name@] + parts, " "@)),
                ),
                Err(e) => r matches Err(m) && m@ == e && final(out)@ == old(out)@,
            }
        }),
{
    let parts = text::split_char(&chars_of(dotted_path), '.');
    let ghost pv = vviews(parts@);
    let mut current: &CommandInfo = cmd;
    let mut path = chars_of(cmd.name.as_str());
    let mut i: usize = 0;
    assert(joined(seq![cmd.name@] + pv.take(0), " "@) =~= cmd.name@) by {
        assert(seq![cmd.name@] + pv.take(0) =~= seq![cmd.name@]);
    }
    while i < parts.len()
        invariant
            i <= parts@.len(),
            pv == vviews(parts@),
            pv == text::split(dotted_path@, '.'),
            resolve(*cmd, pv.take(i as int)) == Ok::<CommandInfo, Seq<char>>(*current),
            path@ == joined(seq![cmd.name@] + pv.take(i as int), " "@),
        decreases parts.len() - i,
    {
        assert(pv.take(i + 1).drop_last() =~= pv.take(i as int));
        assert(pv.take(i + 1).last() == parts@[i as int]@);
        match find_sub_exec(&current.subcommands, &parts[i]) {
            Some(s) => {
                current = s;
                path = concat(&concat(&path, &chars_of(" ")), &parts[i]);
                let ghost q = seq![cmd.name@] + pv.take(i + 1);
                assert(q.drop_last() =~= seq![cmd.name@] + pv.take(i as int));
                assert(q.last() == parts@[i as int]@);
                assert(path@ =~= joined(q.drop_last(), " "@) + " "@ + q.last());
            },
            None => {
                let names = listed_names_exec(&current.subcommands);
                let m = concat(
                    &concat(&concat(&chars_of("Unknown command '"), &parts[i]), &chars_of("'. Available: ")),
                    &join_strings(&names, ", "),
                );
                proof {
                    lemma_resolve_err(*cmd, pv, i as int, *current);
                }
                return Err(string_of(&m));
            },
        }
        i += 1;
    }
    assert(pv.take(parts.len() as int) =~= pv);
    let c = current;
    let mut v = concat(&chars_of("# "), &path);
    v = concat(&v, &chars_of("\n\n"));
    v = concat(&v, &or_empty_exec(&c.about));
    v = concat(&v, &chars_of("\n\n"));
    match &c.long_about {
        Some(l) => {
            v = concat(&v, &chars_of(l.as_str()));
            v = concat(&v, &chars_of("\n\n"));
        },
        None => {},
    }
    let (details, any) = arg_details_exec(&c.args);
    if any {
        v = concat(&v, &chars_of("## Arguments\n\n"));
        v = concat(&v, &details);
    }
    let names = listed_names_exec(&c.subcommands);
    if names.len() > 0 {
        v = concat(&v, &chars_of("## Subcommands\n\n"));
        let ghost head = v@;
        let mut j: usize = 0;
        while j < c.subcommands.len()
            invariant
                j <= c.subcommands@.len(),
                v@ == head + sub_lines(path@, c.subcommands@.take(j as int)),
            decreases c.subcommands.len() - j,
        {
            assert(c.subcommands@.take(j + 1).drop_last() =~= c.subcommands@.take(j as int));
            let s = &c.subcommands[j];
            if listed_exec(s) {
                v = concat(&v, &chars_of("- `"));
                v = concat(&v, &path);
                v = concat(&v, &chars_of(" "));
                v = concat(&v, &chars_of(s.name.as_str()));
                v = concat(&v, &chars_of("` — "));
                v = concat(&v, &or_empty_exec(&s.about));
                v = concat(&v, &chars_of("\n"));
            }
            j += 1;
        }
        assert(c.subcommands@.take(c.subcommands.len() as int) =~= c.subcommands@);
        v = concat(&v, &chars_of("\n"));
    }
    assert(v@ =~= command_text(*c, path@));
    let s = string_of(&v);
    write_str(out, s.as_str());
    Ok(())
}

proof fn lemma_resolve_err(cmd: CommandInfo, pv: Seq<Seq<char>>, i: int, c: CommandInfo)
    requires
        0 <= i < pv.len(),
        resolve(cmd, pv.take(i)) == Ok::<CommandInfo, Seq<char>>(c),
        find_sub(c.subcommands@, pv[i]) is None,
    ensures
        resolve(cmd, pv) == Err::<CommandInfo, Seq<char>>(
            "Unknown command '"@ + pv[i] + "'. Available: "@ + joined(listed_names(c.subcommands@), ", "@),
        ),
    decreases pv.len() - i,
{
    assert(pv.take(i + 1).drop_last() =~= pv.take(i));
    assert(pv.take(i + 1).last() == pv[i]);
    lemma_resolve_err_prefix(cmd, pv, i + 1);
}

/// Once a path fails, every longer path fails with the same error.
proof fn lemma_resolve_err_prefix(cmd: CommandInfo, pv: Seq<Seq<char>>, k: int)
    requires
        0 <= k <= pv.len(),
        resolve(cmd, pv.take(k)) is Err,
    ensures
        resolve(cmd, pv) == resolve(cmd, pv.take(k)),
    decreases pv.len() - k,
{
    if k < pv.len() {
        assert(pv.take(k + 1).drop_last() =~= pv.take(k));
        lemma_resolve_err_prefix(cmd, pv, k + 1);
    } else {
        assert(pv.take(k) =~= pv);
    }
}

/// The reference section of a command (and, after it, of its listed
/// subcommands), named by its parent's full name and its own.
pub open spec fn full_section(c: CommandInfo, parent: Seq<char>) -> Seq<char>
    decreases c, 1int, 0int,
{
    let full = parent + " "@ + c.name@;
    "## "@ + full + "\n"@ + or_empty(c.about) + "\n\n"@ + (if some_detailed(c.args@) {
        arg_details(c.args@) + "\n"@
    } else {
        Seq::empty()
    }) + full_sections(c, c.subcommands@.len() as int, full)
}

/// The reference sections of the first `n` subcommands of `c` that are
/// listed.
pub open spec fn full_sections(c: CommandInfo, n: int, parent: Seq<char>) -> Seq<char>
    decreases c, 0int, n,
{
    if n <= 0 || n > c.subcommands@.len() {
        Seq::empty()
    } else {
        let s = c.subcommands@[n - 1];
        full_sections(c, n - 1, parent) + if listed(s) {
            proof {
                assert(decreases_to!(c => c.subcommands));
                assert(decreases_to!(c.subcommands => c.subcommands@));
            }
            full_section(s, parent)
        } else {
            Seq::empty()
        }
    }
}

/// The complete reference: every listed subcommand, recursively.
pub open spec fn full_text(cmd: CommandInfo) -> Seq<char> {
    "# "@ + cmd.name@ + " — complete CLI reference\n\n"@ + full_sections(cmd, cmd.subcommands@.len() as int, cmd.name@)
}

fn write_command_full(c: &CommandInfo, parent: &Vec<char>) -> (r: Vec<char>)
    ensures
        r@ == full_section(*c, parent@),
    decreases c,
{
    let full = concat(&concat(parent, &chars_of(" ")), &chars_of(c.name.as_str()));
    let mut v = concat(&chars_of("## "), &full);
    v = concat(&v, &chars_of("\n"));
    v = concat(&v, &or_empty_exec(&c.about));
    v = concat(&v, &chars_of("\n\n"));
    let (details, any) = arg_details_exec(&c.args);
    if any {
        v = concat(&v, &details);
        v = concat(&v, &chars_of("\n"));
    }
    let ghost head = v@;
    let mut j: usize = 0;
    while j < c.subcommands.len()
        invariant
            j <= c.subcommands@.len(),
            full@ == parent@ + " "@ + c.name@,
            v@ == head + full_sections(*c, j as int, full@),
        decreases c.subcommands.len() - j,
    {
        let s = &c.subcommands[j];
        if listed_exec(s) {
            assert(decreases_to!(*c => c.subcommands));
            assert(decreases_to!(c.subcommands => c.subcommands@));
            v = concat(&v, &write_command_full(s, &full));
        }
        j += 1;
    }
    assert(v@ =~= full_section(*c, parent@));
    v
}

/// Writes the complete reference of the program.
pub fn generate_full(cmd: &CommandInfo, out: &mut Vec<u8>)
    ensures
        final(out)@ == old(out)@ + vstd::utf8::encode_utf8(full_text(*cmd)),
{
    let name = chars_of(cmd.name.as_str());
    let mut v = concat(&concat(&chars_of("# "), &name), &chars_of(" — complete CLI reference\n\n"));
    let ghost head = v@;
    let mut j: usize = 0;
    while j < cmd.subcommands.len()
        invariant
            j <= cmd.subcommands@.len(),
            name@ == cmd.name@,
            v@ == head + full_sections(*cmd, j as int, name@),
        decreases cmd.subcommands.len() - j,
    {
        let s = &cmd.subcommands[j];
        if listed_exec(s) {
            v = concat(&v, &write_command_full(s, &name));
        }
        j += 1;
    }
    assert(v@ =~= full_text(*cmd));
    let s = string_of(&v);
    write_str(out, s.as_str());
}


// ============================================================================
// JSON schema of the command line
// ============================================================================

/// An argument the JSON schema shows: shown in the reference, and, in
/// scoped output (`keep_globals` false), not global.
pub open spec fn json_arg_shown(a: ArgInfo, keep_globals: bool) -> bool {
    arg_shown(a) && (keep_globals || !a.global)
}

/// Strings as JSON string values.
pub open spec fn str_items(v: Seq<String>) -> Seq<JsonView> {
    Seq::new(v.len(), |i: int| JsonView::Str(v[i]@))
}

/// The members of an argument's JSON object: name, whether it is required
/// and positional, then its long and short flags, help, defaults (joined
/// with `", "`), possible values (for arguments that take values) and a
/// global mark, each only when present.
pub open spec fn arg_members(a: ArgInfo) -> Seq<(Seq<char>, JsonView)> {
    let m0 = seq![
        ("name"@, JsonView::Str(a.id@)),
        ("required"@, JsonView::Bool(a.required)),
        ("positional"@, JsonView::Bool(a.positional)),
    ];
    let m1 = match a.long {
        Some(l) => m0.push(("long"@, JsonView::Str("--"@ + l@))),
        None => m0,
    };
    let m2 = match a.short {
        Some(c) => m1.push(("short"@, JsonView::Str("-"@ + seq![c]))),
        None => m1,
    };
    let m3 = match a.help {
        Some(h) => m2.push(("help"@, JsonView::Str(h@))),
        None => m2,
    };
    let m4 = if a.defaults@.len() > 0 {
        m3.push(("default"@, JsonView::Str(joined(text::string_views(a.defaults@), ", "@))))
    } else {
        m3
    };
    let m5 = if a.takes_values && a.possible_values@.len() > 0 {
        m4.push(("possible_values"@, JsonView::Array(str_items(a.possible_values@))))
    } else {
        m4
    };
    if a.global {
        m5.push(("global"@, JsonView::Bool(true)))
    } else {
        m5
    }
}

/// The JSON objects of the arguments the schema shows, in order.
pub open spec fn args_json(args: Seq<ArgInfo>, keep_globals: bool) -> Seq<JsonView>
    decreases args.len(),
{
    if args.len() == 0 {
        Seq::empty()
    } else if json_arg_shown(args.last(), keep_globals) {
        args_json(args.drop_last(), keep_globals).push(JsonView::Object(arg_members(args.last())))
    } else {
        args_json(args.drop_last(), keep_globals)
    }
}

/// The members of a command's JSON object: name, about (null when absent),
/// version (unscoped output only, when present), and the given argument
/// and subcommand objects when there are any.
pub open spec fn cmd_members(
    c: CommandInfo,
    keep_globals: bool,
    args: Seq<JsonView>,
    subs: Seq<JsonView>,
) -> Seq<(Seq<char>, JsonView)> {
    let m0 = seq![
        ("name"@, JsonView::Str(c.name@)),
        ("about"@, if c.about is Some {
            JsonView::Str(c.about->0@)
        } else {
            JsonView::Null
        }),
    ];
    let m1 = if c.version is Some && keep_globals {
        m0.push(("version"@, JsonView::Str(c.version->0@)))
    } else {
        m0
    };
    let m2 = if args.len() > 0 {
        m1.push(("args"@, JsonView::Array(args)))
    } else {
        m1
    };
    if subs.len() > 0 {
        m2.push(("subcommands"@, JsonView::Array(subs)))
    } else {
        m2
    }
}

/// The JSON object of a command: its members, with the arguments the
/// schema shows and its listed subcommands.
pub open spec fn cmd_json(c: CommandInfo, keep_globals: bool) -> JsonView
    decreases c, 1int, 0int,
{
    JsonView::Object(
        cmd_members(c, keep_globals, args_json(c.args@, keep_globals), subs_json(c, c.subcommands@.len() as int, keep_globals)),
    )
}

/// The JSON objects of the listed ones among the first `n` subcommands of
/// `c`.
pub open spec fn subs_json(c: CommandInfo, n: int, keep_globals: bool) -> Seq<JsonView>
    decreases c, 0int, n,
{
    if n <= 0 || n > c.subcommands@.len() {
        Seq::empty()
    } else {
        let s = c.subcommands@[n - 1];
        if listed(s) {
            proof {
                assert(decreases_to!(c => c.subcommands));
                assert(decreases_to!(c.subcommands => c.subcommands@));
            }
            subs_json(c, n - 1, keep_globals).push(cmd_json(s, keep_globals))
        } else {
            subs_json(c, n - 1, keep_globals)
        }
    }
}

fn str_items_exec(v: &Vec<String>) -> (r: JsonValue)
    ensures
        json_view(r) == JsonView::Array(str_items(v@)),
{
    let mut items: Vec<JsonValue> = Vec::new();
    let mut i: usize = 0;
    while i < v.len()
        invariant
            i <= v.len(),
            items_view(items@) == str_items(v@.take(i as int)),
        decreases v.len() - i,
    {
        push_item(&mut items, JsonValue::Str(v[i].clone()));
        assert(str_items(v@.take(i + 1)) =~= str_items(v@.take(i as int)).push(JsonView::Str(v@[i as int]@)));
        i += 1;
    }
    assert(v@.take(v.len() as int) =~= v@);
    proof {
        lemma_array_view(items);
    }
    JsonValue::Array(items)
}

#[verifier::spinoff_prover]
#[verifier::rlimit(40)]
fn arg_json_exec(a: &ArgInfo) -> (r: JsonValue)
    ensures
        json_view(r) == JsonView::Object(arg_members(*a)),
{
    let mut es: Vec<(String, JsonValue)> = Vec::new();
    push_member(&mut es, "name", JsonValue::Str(a.id.clone()));
    push_member(&mut es, "required", JsonValue::Bool(a.required));
    push_member(&mut es, "positional", JsonValue::Bool(a.positional));
    let ghost m0 = seq![
        ("name"@, JsonView::Str(a.id@)),
        ("required"@, JsonView::Bool(a.required)),
        ("positional"@, JsonView::Bool(a.positional)),
    ];
    assert(members_view(es@) =~= m0);
    match &a.long {
        Some(l) => {
            let t = string_of(&concat(&chars_of("--"), &chars_of(l.as_str())));
            push_member(&mut es, "long", JsonValue::Str(t));
        },
        None => {},
    }
    let ghost m1 = if a.long is Some {
        m0.push(("long"@, JsonView::Str("--"@ + a.long->0@)))
    } else {
        m0
    };
    assert(members_view(es@) =~= m1);
    match a.short {
        Some(c) => {
            let mut v = chars_of("-");
            v.push(c);
            assert(v@ =~= "-"@ + seq![c]);
            push_member(&mut es, "short", JsonValue::Str(string_of(&v)));
        },
        None => {},
    }
    let ghost m2 = match a.short {
        Some(c) => m1.push(("short"@, JsonView::Str("-"@ + seq![c]))),
        None => m1,
    };
    assert(members_view(es@) =~= m2);
    match &a.help {
        Some(h) => push_member(&mut es, "help", JsonValue::Str(h.clone())),
        None => {},
    }
    let ghost m3 = if a.help is Some {
        m2.push(("help"@, JsonView::Str(a.help->0@)))
    } else {
        m2
    };
    assert(members_view(es@) =~= m3);
    if a.defaults.len() > 0 {
        push_member(&mut es, "default", JsonValue::Str(string_of(&join_strings(&a.defaults, ", "))));
    }
    let ghost m4 = if a.defaults@.len() > 0 {
        m3.push(("default"@, JsonView::Str(joined(text::string_views(a.defaults@), ", "@))))
    } else {
        m3
    };
    assert(members_view(es@) =~= m4);
    if a.takes_values && a.possible_values.len() > 0 {
        push_member(&mut es, "possible_values", str_items_exec(&a.possible_values));
    }
    let ghost m5 = if a.takes_values && a.possible_values@.len() > 0 {
        m4.push(("possible_values"@, JsonView::Array(str_items(a.possible_values@))))
    } else {
        m4
    };
    assert(members_view(es@) =~= m5);
    if a.global {
        push_member(&mut es, "global", JsonValue::Bool(true));
    }
    assert(members_view(es@) =~= arg_members(*a));
    proof {
        lemma_object_view(es);
    }
    JsonValue::Object(es)
}

#[verifier::spinoff_prover]
#[verifier::rlimit(40)]
fn cmd_json_exec(c: &CommandInfo, keep_globals: bool) -> (r: JsonValue)
    ensures
        json_view(r) == cmd_json(*c, keep_globals),
    decreases c,
{
    let mut args: Vec<JsonValue> = Vec::new();
    let mut i: usize = 0;
    while i < c.args.len()
        invariant
            i <= c.args@.len(),
            items_view(args@) == args_json(c.args@.take(i as int), keep_globals),
        decreases c.args.len() - i,
    {
        assert(c.args@.take(i + 1).drop_last() =~= c.args@.take(i as int));
        assert(c.args@.take(i + 1).last() == c.args@[i as int]);
        let a = &c.args[i];
        if arg_shown_exec(a) && (keep_globals || !a.global) {
            push_item(&mut args, arg_json_exec(a));
        }
        i += 1;
    }
    assert(c.args@.take(c.args.len() as int) =~= c.args@);
    let mut subs: Vec<JsonValue> = Vec::new();
    let mut j: usize = 0;
    while j < c.subcommands.len()
        invariant
            j <= c.subcommands@.len(),
            items_view(subs@) == subs_json(*c, j as int, keep_globals),
        decreases c.subcommands.len() - j,
    {
        let s = &c.subcommands[j];
        if listed_exec(s) {
            assert(decreases_to!(*c => c.subcommands));
            assert(decreases_to!(c.subcommands => c.subcommands@));
            push_item(&mut subs, cmd_json_exec(s, keep_globals));
        }
        j += 1;
    }
    assert(items_view(args@) == args_json(c.args@, keep_globals));
    assert(items_view(subs@) == subs_json(*c, c.subcommands@.len() as int, keep_globals));
    let ghost av = items_view(args@);
    let ghost sv = items_view(subs@);
    let mut es: Vec<(String, JsonValue)> = Vec::new();
    push_member(&mut es, "name", JsonValue::Str(c.name.clone()));
    let about = match &c.about {
        Some(a) => JsonValue::Str(a.clone()),
        None => JsonValue::Null,
    };
    push_member(&mut es, "about", about);
    let ghost m0 = seq![
        ("name"@, JsonView::Str(c.name@)),
        ("about"@, if c.about is Some {
            JsonView::Str(c.about->0@)
        } else {
            JsonView::Null
        }),
    ];
    assert(members_view(es@) =~= m0);
    match &c.version {
        Some(v) => if keep_globals {
            push_member(&mut es, "version", JsonValue::Str(v.clone()));
        },
        None => {},
    }
    let ghost m1 = if c.version is Some && keep_globals {
        m0.push(("version"@, JsonView::Str(c.version->0@)))
    } else {
        m0
    };
    assert(members_view(es@) =~= m1);
    if args.len() > 0 {
        proof {
            lemma_array_view(args);
        }
        push_member(&mut es, "args", JsonValue::Array(args));
    }
    let ghost m2 = if av.len() > 0 {
        m1.push(("args"@, JsonView::Array(av)))
    } else {
        m1
    };
    assert(members_view(es@) =~= m2);
    if subs.len() > 0 {
        proof {
            lemma_array_view(subs);
        }
        push_member(&mut es, "subcommands", JsonValue::Array(subs));
    }
    let ghost m3 = if sv.len() > 0 {
        m2.push(("subcommands"@, JsonView::Array(sv)))
    } else {
        m2
    };
    assert(members_view(es@) =~= m3);
    assert(m3 == cmd_members(*c, keep_globals, av, sv));
    proof {
        lemma_object_view(es);
    }
    JsonValue::Object(es)
}

/// The JSON schema of the command line, pretty-printed: of the whole
/// program, or, for a dotted path of subcommand names, of the command it
/// reaches with global arguments left out. A name that is not a subcommand
/// is an error listing the available ones.
pub fn generate_json(cmd: &CommandInfo, path: Option<&str>) -> (r: Result<String, String>)
    ensures
        match path {
            None => r matches Ok(s) && s@ == pretty_text(cmd_json(*cmd, true)),
            Some(p) => match resolve(*cmd, text::split(p@, '.')) {
                Ok(c) => r matches Ok(s) && s@ == pretty_text(cmd_json(c, false)),
                Err(e) => r matches Err(m) && m@ == e,
            },
        },
{
    match path {
        None => {
            let tree = cmd_json_exec(cmd, true);
            Ok(to_string_pretty(&tree))
        },
        Some(p) => scoped_json(cmd, p),
    }
}

/// The JSON schema of the command a dotted path reaches, or the error for
/// the first name that is not a subcommand.
#[verifier::spinoff_prover]
#[verifier::rlimit(40)]
fn scoped_json(cmd: &CommandInfo, p: &str) -> (r: Result<String, String>)
    ensures
        match resolve(*cmd, text::split(p@, '.')) {
            Ok(c) => r matches Ok(s) && s@ == pretty_text(cmd_json(c, false)),
            Err(e) => r matches Err(m) && m@ == e,
        },
{
    let parts = text::split_char(&chars_of(p), '.');
    let ghost pv = vviews(parts@);
    let mut current: &CommandInfo = cmd;
    let mut i: usize = 0;
    while i < parts.len()
        invariant
            i <= parts@.len(),
            pv == vviews(parts@),
            pv == text::split(p@, '.'),
            resolve(*cmd, pv.take(i as int)) == Ok::<CommandInfo, Seq<char>>(*current),
        decreases parts.len() - i,
    {
        assert(pv.take(i + 1).drop_last() =~= pv.take(i as int));
        assert(pv.take(i + 1).last() == parts@[i as int]@);
        match find_sub_exec(&current.subcommands, &parts[i]) {
            Some(s) => {
                current = s;
            },
            None => {
                let names = listed_names_exec(&current.subcommands);
                let m = concat(
                    &concat(&concat(&chars_of("Unknown command '"), &parts[i]), &chars_of("'. Available: ")),
                    &join_strings(&names, ", "),
                );
                proof {
                    lemma_resolve_err(*cmd, pv, i as int, *current);
                }
                return Err(string_of(&m));
            },
        }
        i += 1;
    }
    assert(pv.take(parts.len() as int) =~= pv);
    let tree = cmd_json_exec(current, false);
    Ok(to_string_pretty(&tree))
}


// ============================================================================
// Project instructions file
// ============================================================================

/// The section that points agents at flint, added to a project's
/// instructions file.
pub const BOOTSTRAP_HINT: &'static str = "## flint\n\n`flint` (Fleet GitOps linter) is available. Run `flint setup-agent` to install the AI agent skill, or `flint help-ai` for the command reference.\n";

/// The new content of a project's instructions file, given its current
/// content (`None` when there is no file): a new file holds a title and the
/// hint; an existing file that mentions neither `flint setup-agent` nor
/// `flint help-ai` gets the hint after a blank line; otherwise nothing
/// changes (`None`).
pub open spec fn instructions_update(existing: Option<Seq<char>>) -> Option<Seq<char>> {
    match existing {
        None => Some("# Project Instructions\n\n"@ + BOOTSTRAP_HINT@),
        Some(e) => if !text::contains(e, "flint setup-agent"@) && !text::contains(e, "flint help-ai"@) {
            let ended = if text::ends_with(e, "\n"@) {
                e
            } else {
                e.push('\n')
            };
            Some(ended.push('\n') + BOOTSTRAP_HINT@)
        } else {
            None
        },
    }
}

/// The new content of a project's instructions file, or `None` when it
/// already points at flint.
pub fn claude_md_update(existing: Option<&str>) -> (r: Option<String>)
    ensures
        crate::paths::opt_text(r) == instructions_update(crate::paths::opt_str(existing)),
{
    match existing {
        None => Some(string_of(&concat(&chars_of("# Project Instructions\n\n"), &chars_of(BOOTSTRAP_HINT)))),
        Some(e) => {
            let ec = chars_of(e);
            if !text::contains_str(&ec, "flint setup-agent") && !text::contains_str(&ec, "flint help-ai") {
                let mut v = ec;
                if !text::ends_with_str(&v, "\n") {
                    v.push('\n');
                }
                v.push('\n');
                Some(string_of(&concat(&v, &chars_of(BOOTSTRAP_HINT))))
            } else {
                None
            }
        },
    }
}

} // verus!
