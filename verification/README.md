# flint

A linter for Fleet GitOps YAML files, with the editor helpers (hover
documentation and completion) that its language server offers.

- `src/` is the library, verified with Verus: file classification, YAML
  hygiene and indentation checks, the schema of known keys with typo
  suggestions, the structural and semantic rules, osquery table
  compatibility, inline suppressions, automatic fixes, hover and completion,
  the agent reference generator and the pre-commit hook script. Each public
  function states in its contract what it returns; the `law_*` proof
  functions state properties that span several functions.
- `app/` is the command-line program around it: argument parsing, reading
  and writing files, walking directories, YAML deserialization into the
  library's records, and printing.
- `tests/` exercises the library on concrete inputs.

YAML parsing is done by `serde_yaml`, SQL table extraction by `regex`, and
relative paths by `pathdiff`; the library calls them through a few trusted
wrappers whose contracts name their results.

Not included: the migration report (`flint migrate`), `flint init`, the
language server (`flint lsp`), discovery and loading of `.fleetlint.toml`,
installation of the agent skill files (`setup-agent`, `help-ai
--install-skill`), the deprecation and self-reference rules, and the
version-gated rule set. Those commands stop with an error saying they are
not part of this build; the linter runs the default rules without project
settings, and the structural check has no deprecated-key list.
