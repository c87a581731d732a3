//! The git pre-commit hook script that runs the linter.
use vstd::prelude::*;

use crate::text::{chars_of, concat, string_of};

verus! {

broadcast use vstd::string::group_string_axioms;

/// The first comment line of the hook, which marks it as the linter's.
pub const HOOK_HEADER: &'static str = "# flint pre-commit hook (generated by `flint hooks install`)";

/// What the hook does when the linter fails in strict mode.
pub const STRICT_ON_FAIL: &'static str = r#"echo ""  >&2
        echo "flint: errors found — commit blocked." >&2
        echo "  • Bypass once: git commit --no-verify" >&2
        echo "  • Switch to non-blocking: flint hooks install --force" >&2
        exit 1"#;

/// `true` or `false`, as `Display` prints a `bool`.
pub open spec fn bool_text(b: bool) -> Seq<char> {
    if b {
        "true"@
    } else {
        "false"@
    }
}

/// The hook script for the given modes: non-strict runs never block a
/// commit (`--hook-mode`, and failures are ignored); strict runs block on
/// errors with a hint; `json` adds `--format=json`.
pub open spec fn pre_commit_script(strict: bool, json: bool) -> Seq<char> {
    let header = HOOK_HEADER@;
    let format_flag = if json { " --format=json"@ } else { Seq::empty() };
    let hook_mode_flag = if strict { Seq::empty() } else { " --hook-mode"@ };
    let banner = if strict {
        "flint: running pre-commit validation (strict — errors will block commits)"@
    } else {
        "flint: running pre-commit validation (warnings only, never blocks)"@
    };
    let on_fail = if strict { STRICT_ON_FAIL@ } else { ":  # informational only — never block"@ };
    let strict_s = bool_text(strict);
    let json_s = bool_text(json);
    r#"#!/bin/sh
"#@ + header + r#"
#
# Runs `flint check"#@ + format_flag + hook_mode_flag + r#"` against staged YAML files
# (or the whole repo if none are staged) when you `git commit`.
# Strict mode: "#@ + strict_s + r#". JSON output: "#@ + json_s + r#".
#
# Remove with: flint hooks uninstall

set -e

if ! command -v flint >/dev/null 2>&1; then
    echo "flint: pre-commit hook installed but 'flint' not found on PATH — skipping" >&2
    exit 0
fi

staged_yaml="$(git diff --cached --name-only --diff-filter=ACMRT \
    -- '*.yml' '*.yaml' 2>/dev/null || true)"

echo ""#@ + banner + r#""

if [ -n "$staged_yaml" ]; then
    if ! echo "$staged_yaml" | xargs flint check"#@ + format_flag + hook_mode_flag + r#"; then
        "#@ + on_fail + r#"
    fi
else
    if ! flint check"#@ + format_flag + hook_mode_flag + r#" . ; then
        "#@ + on_fail + r#"
    fi
fi

exit 0
"#@
}

/// Generates the pre-commit hook script for the given modes.
pub fn build_pre_commit_script(strict: bool, json: bool) -> (r: String)
    ensures
        r@ == pre_commit_script(strict, json),
{
    let header = HOOK_HEADER;
    let format_flag = if json { " --format=json" } else { "" };
    let hook_mode_flag = if strict { "" } else { " --hook-mode" };
    let banner = if strict {
        "flint: running pre-commit validation (strict — errors will block commits)"
    } else {
        "flint: running pre-commit validation (warnings only, never blocks)"
    };
    let on_fail = if strict { STRICT_ON_FAIL } else { ":  # informational only — never block" };
    let strict_s = if strict { "true" } else { "false" };
    let json_s = if json { "true" } else { "false" };
    proof {
        reveal_strlit("");
    }
    let mut v: Vec<char> = Vec::new();
    v = concat(&v, &chars_of(r#"#!/bin/sh
"#));
    v = concat(&v, &chars_of(header));
    v = concat(&v, &chars_of(r#"
#
# Runs `flint check"#));
    v = concat(&v, &chars_of(format_flag));
    v = concat(&v, &chars_of(hook_mode_flag));
    v = concat(&v, &chars_of(r#"` against staged YAML files
# (or the whole repo if none are staged) when you `git commit`.
# Strict mode: "#));
    v = concat(&v, &chars_of(strict_s));
    v = concat(&v, &chars_of(r#". JSON output: "#));
    v = concat(&v, &chars_of(json_s));
    v = concat(&v, &chars_of(r#".
#
# Remove with: flint hooks uninstall

set -e

if ! command -v flint >/dev/null 2>&1; then
    echo "flint: pre-commit hook installed but 'flint' not found on PATH — skipping" >&2
    exit 0
fi

staged_yaml="$(git diff --cached --name-only --diff-filter=ACMRT \
    -- '*.yml' '*.yaml' 2>/dev/null || true)"

echo ""#));
    v = concat(&v, &chars_of(banner));
    v = concat(&v, &chars_of(r#""

if [ -n "$staged_yaml" ]; then
    if ! echo "$staged_yaml" | xargs flint check"#));
    v = concat(&v, &chars_of(format_flag));
    v = concat(&v, &chars_of(hook_mode_flag));
    v = concat(&v, &chars_of(r#"; then
        "#));
    v = concat(&v, &chars_of(on_fail));
    v = concat(&v, &chars_of(r#"
    fi
else
    if ! flint check"#));
    v = concat(&v, &chars_of(format_flag));
    v = concat(&v, &chars_of(hook_mode_flag));
    v = concat(&v, &chars_of(r#" . ; then
        "#));
    v = concat(&v, &chars_of(on_fail));
    v = concat(&v, &chars_of(r#"
    fi
fi

exit 0
"#));
    assert(v@ =~= pre_commit_script(strict, json));
    string_of(&v)
}

} // verus!
