use flint::hooks::build_pre_commit_script;

#[test]
fn default_hook_never_blocks() {
    let s = build_pre_commit_script(false, false);
    assert!(s.starts_with("#!/bin/sh\n# flint pre-commit hook (generated by `flint hooks install`)\n"));
    assert!(s.contains("xargs flint check --hook-mode; then"));
    assert!(s.contains("Strict mode: false. JSON output: false."));
    assert!(s.contains(":  # informational only — never block"));
    assert!(s.ends_with("exit 0\n"));
}

#[test]
fn strict_json_hook_blocks_and_formats() {
    let s = build_pre_commit_script(true, true);
    assert!(s.contains("flint check --format=json . ; then"));
    assert!(!s.contains("--hook-mode"));
    assert!(s.contains("Strict mode: true. JSON output: true."));
    assert!(s.contains("commit blocked"));
    assert!(s.contains("exit 1"));
}
