//! Parts of the linting engine that decide from text alone: how a file is
//! classified by its path, the YAML hygiene checks that run before parsing,
//! and inline `# fleet-lint: ignore` suppressions.
use vstd::prelude::*;

use std::collections::HashMap;

use crate::diag::{add_all, diag, diags, push_diag, s_of, Diag, LintError, LintReport, Severity};
use crate::fleet_config::{empty_config, FleetConfig};
use crate::rules::{builtin_defined, builtin_diags, builtin_name, default_rule_seq, BuiltinRule, Rule, RuleSet};
use crate::text;
use crate::text::{chars_of, concat, lines, string_of, string_views, trim, vviews};
use crate::yaml::{parse_yaml_outcome, yaml_outcome};

verus! {

broadcast use {vstd::string::group_string_axioms, vstd::std_specs::hash::group_hash_axioms};

// ============================================================================
// File type detection
// ============================================================================

/// How a file is parsed, decided by its path.
#[derive(Debug, Clone, Copy, PartialEq, Eq, Structural)]
pub enum FileType {
    /// `default.yml`, `fleets/*.yml`, `teams/*.yml` and anything else.
    FleetConfig,
    /// `*/policies/*.yml`
    Policies,
    /// `*/queries/*.yml`, `*/reports/*.yml`
    Queries,
    /// `*/labels/*.yml`, `*.labels.yml`
    Labels,
    /// `*/software/*.yml`
    Software,
    /// `agent-options*.yml`
    AgentOptions,
    /// Profiles, scripts, icons, declarations and commands: not YAML to lint.
    NonYaml,
}

/// The non-empty, non-`.` components of a `/`-separated path, in order.
pub open spec fn components(parts: Seq<Seq<char>>) -> Seq<Seq<char>>
    decreases parts.len(),
{
    if parts.len() == 0 {
        Seq::empty()
    } else {
        let r = components(parts.drop_last());
        let c = parts.last();
        if c.len() > 0 && c != "."@ {
            r.push(c)
        } else {
            r
        }
    }
}

/// The components of a path.
pub open spec fn path_components(path: Seq<char>) -> Seq<Seq<char>> {
    components(text::split(path, '/'))
}

/// The final component of a path, or empty when there is none or it is `..`.
pub open spec fn file_name(path: Seq<char>) -> Seq<char> {
    let cs = path_components(path);
    if cs.len() >= 1 && cs.last() != ".."@ {
        cs.last()
    } else {
        Seq::empty()
    }
}

/// The name of the directory holding the file, or empty when there is none.
pub open spec fn parent_name(path: Seq<char>) -> Seq<char> {
    let cs = path_components(path);
    if cs.len() >= 2 && cs[cs.len() - 2] != ".."@ {
        cs[cs.len() - 2]
    } else {
        Seq::empty()
    }
}

/// Directories whose files are not YAML to lint.
pub open spec fn is_non_yaml_dir(d: Seq<char>) -> bool {
    d == "configuration-profiles"@ || d == "declaration-profiles"@ || d == "enrollment-profiles"@
        || d == "commands"@ || d == "scripts"@ || d == "icons"@ || d == "managed-app-configurations"@
}

/// The file type of a path: agent options by file name first, then by the
/// directory holding the file, then `*.labels.*` files, else a fleet config.
pub open spec fn file_type_of(path: Seq<char>) -> FileType {
    let name = file_name(path);
    let parent = parent_name(path);
    if text::starts_with(name, "agent-options"@) || text::starts_with(name, "agent_options"@) {
        FileType::AgentOptions
    } else if parent == "labels"@ {
        FileType::Labels
    } else if parent == "software"@ {
        FileType::Software
    } else if parent == "policies"@ {
        FileType::Policies
    } else if parent == "queries"@ || parent == "reports"@ {
        FileType::Queries
    } else if is_non_yaml_dir(parent) {
        FileType::NonYaml
    } else if text::contains(name, ".labels."@) {
        FileType::Labels
    } else {
        FileType::FleetConfig
    }
}

/// The components of a path, as character vectors.
fn path_components_exec(path: &[char]) -> (r: Vec<Vec<char>>)
    ensures
        vviews(r@) == path_components(path@),
{
    let parts = text::split_char(path, '/');
    let ghost pv = vviews(parts@);
    let mut out: Vec<Vec<char>> = Vec::new();
    let mut i: usize = 0;
    while i < parts.len()
        invariant
            i <= parts.len(),
            pv == vviews(parts@),
            pv == text::split(path@, '/'),
            vviews(out@) == components(pv.take(i as int)),
        decreases parts.len() - i,
    {
        proof {
            assert(pv.take(i + 1).drop_last() =~= pv.take(i as int));
            assert(pv.take(i + 1).last() == parts@[i as int]@);
        }
        let c = &parts[i];
        if c.len() > 0 && !text::eq_str(c, ".") {
            let ghost before = vviews(out@);
            out.push(c.clone());
            assert(vviews(out@) =~= before.push(c@));
        }
        i += 1;
    }
    assert(pv.take(parts.len() as int) =~= pv);
    out
}

/// The final component of a path.
pub fn file_name_exec(path: &[char]) -> (r: Vec<char>)
    ensures
        r@ == file_name(path@),
{
    let cs = path_components_exec(path);
    let n = cs.len();
    let ghost cv = vviews(cs@);
    if n >= 1 && !text::eq_str(&cs[n - 1], "..") {
        assert(cv.last() == cs@[n - 1]@);
        text::slice_range(&cs[n - 1], 0, cs[n - 1].len())
    } else {
        let e: Vec<char> = Vec::new();
        assert(e@ =~= Seq::<char>::empty());
        e
    }
}

/// Whether the final component of a path is `name`.
pub fn file_name_is(path: &str, name: &str) -> (r: bool)
    ensures
        r == (file_name(path@) == name@),
{
    let p = chars_of(path);
    let cs = path_components_exec(&p);
    let n = cs.len();
    let ghost cv = vviews(cs@);
    if n >= 1 && !text::eq_str(&cs[n - 1], "..") {
        assert(cv.last() == cs@[n - 1]@);
        text::eq_str(&cs[n - 1], name)
    } else {
        let e: Vec<char> = Vec::new();
        assert(e@ =~= Seq::<char>::empty());
        text::eq_str(&e, name)
    }
}

/// Classifies a file by its path.
pub fn detect_file_type(path: &str) -> (r: FileType)
    ensures
        r == file_type_of(path@),
{
    let p = chars_of(path);
    let cs = path_components_exec(&p);
    let ghost cv = vviews(cs@);
    let n = cs.len();
    let empty: Vec<char> = Vec::new();
    let name: &Vec<char> = if n >= 1 && !text::eq_str(&cs[n - 1], "..") {
        &cs[n - 1]
    } else {
        &empty
    };
    let parent: &Vec<char> = if n >= 2 && !text::eq_str(&cs[n - 2], "..") {
        &cs[n - 2]
    } else {
        &empty
    };
    proof {
        if n >= 1 {
            assert(cv.last() == cs@[n - 1]@);
        }
        if n >= 2 {
            assert(cv[n - 2] == cs@[n - 2]@);
        }
        assert(name@ == file_name(path@));
        assert(parent@ == parent_name(path@));
    }
    if text::starts_with_str(name, "agent-options") || text::starts_with_str(name, "agent_options") {
        return FileType::AgentOptions;
    }
    if text::eq_str(parent, "labels") {
        return FileType::Labels;
    }
    if text::eq_str(parent, "software") {
        return FileType::Software;
    }
    if text::eq_str(parent, "policies") {
        return FileType::Policies;
    }
    if text::eq_str(parent, "queries") || text::eq_str(parent, "reports") {
        return FileType::Queries;
    }
    if text::eq_str(parent, "configuration-profiles") || text::eq_str(parent, "declaration-profiles")
        || text::eq_str(parent, "enrollment-profiles") || text::eq_str(parent, "commands")
        || text::eq_str(parent, "scripts") || text::eq_str(parent, "icons") || text::eq_str(
        parent,
        "managed-app-configurations",
    ) {
        return FileType::NonYaml;
    }
    if text::contains_str(name, ".labels.") {
        return FileType::Labels;
    }
    FileType::FleetConfig
}

// ============================================================================
// Inline suppressions
// ============================================================================

/// The trimmed, non-empty pieces, in order.
pub open spec fn nonempty_trimmed(parts: Seq<Seq<char>>) -> Seq<Seq<char>>
    decreases parts.len(),
{
    if parts.len() == 0 {
        Seq::empty()
    } else {
        let r = nonempty_trimmed(parts.drop_last());
        let t = trim(parts.last());
        if t.len() > 0 {
            r.push(t)
        } else {
            r
        }
    }
}

/// The rule codes a line's `# fleet-lint: ignore [codes]` comment
/// suppresses; empty means every rule, `None` means no suppression.
pub open spec fn suppression_codes(line: Seq<char>) -> Option<Seq<Seq<char>>> {
    match text::find_char(line, '#') {
        None => None,
        Some(h) => {
            let comment = trim(line.skip(h + 1));
            if text::starts_with(comment, "fleet-lint:"@) {
                let rest = trim(comment.skip("fleet-lint:"@.len() as int));
                if text::starts_with(rest, "ignore"@) {
                    let codes = trim(rest.skip("ignore"@.len() as int));
                    if codes.len() == 0 {
                        Some(Seq::empty())
                    } else {
                        Some(nonempty_trimmed(text::split(codes, ',')))
                    }
                } else {
                    None
                }
            } else {
                None
            }
        },
    }
}

/// Suppressions by 1-based line number, for the lines in `ls`.
pub open spec fn suppressions_of(ls: Seq<Seq<char>>) -> Map<usize, Seq<Seq<char>>>
    decreases ls.len(),
{
    if ls.len() == 0 {
        Map::empty()
    } else {
        let m = suppressions_of(ls.drop_last());
        match suppression_codes(ls.last()) {
            Some(c) => m.insert(ls.len() as usize, c),
            None => m,
        }
    }
}

/// The abstract content of a suppression map.
pub open spec fn sup_view(m: Map<usize, Vec<String>>) -> Map<usize, Seq<Seq<char>>> {
    Map::new(|k: usize| m.contains_key(k), |k: usize| string_views(m[k]@))
}

/// A suppression map with string values has the given abstract content.
pub open spec fn sup_matches(m: Map<usize, Vec<String>>, a: Map<usize, Seq<Seq<char>>>) -> bool {
    &&& m.dom() == a.dom()
    &&& forall|k: usize| #[trigger] a.contains_key(k) ==> string_views(m[k]@) == a[k]
}

/// The suppressed codes of one line.
fn suppression_codes_exec(line: &[char]) -> (r: Option<Vec<String>>)
    ensures
        match r {
            Some(v) => suppression_codes(line@) == Some(string_views(v@)),
            None => suppression_codes(line@).is_none(),
        },
{
    let h = match text::find_char_exec(line, '#') {
        Some(h) => h,
        None => return None,
    };
    let after = text::slice_range(line, h + 1, line.len());
    assert(after@ =~= line@.skip(h + 1));
    let comment = text::trim_vec(&after);
    let tag = chars_of("fleet-lint:");
    if !text::starts_with_exec(&comment, &tag) {
        return None;
    }
    let rest0 = text::slice_range(&comment, tag.len(), comment.len());
    assert(rest0@ =~= comment@.skip("fleet-lint:"@.len() as int));
    let rest = text::trim_vec(&rest0);
    let word = chars_of("ignore");
    if !text::starts_with_exec(&rest, &word) {
        return None;
    }
    let codes0 = text::slice_range(&rest, word.len(), rest.len());
    assert(codes0@ =~= rest@.skip("ignore"@.len() as int));
    let codes = text::trim_vec(&codes0);
    let mut out: Vec<String> = Vec::new();
    if codes.len() == 0 {
        assert(string_views(out@) =~= Seq::<Seq<char>>::empty());
        return Some(out);
    }
    let parts = text::split_char(&codes, ',');
    let ghost pv = vviews(parts@);
    let mut i: usize = 0;
    while i < parts.len()
        invariant
            i <= parts.len(),
            pv == vviews(parts@),
            pv == text::split(codes@, ','),
            string_views(out@) == nonempty_trimmed(pv.take(i as int)),
        decreases parts.len() - i,
    {
        proof {
            assert(pv.take(i + 1).drop_last() =~= pv.take(i as int));
            assert(pv.take(i + 1).last() == parts@[i as int]@);
        }
        let t = text::trim_vec(&parts[i]);
        if t.len() > 0 {
            let ghost before = string_views(out@);
            out.push(s_of(&t));
            assert(string_views(out@) =~= before.push(t@));
        }
        i += 1;
    }
    assert(pv.take(parts.len() as int) =~= pv);
    Some(out)
}

/// Inline suppressions of a source, by 1-based line number: an empty list
/// suppresses every rule on that line.
pub fn parse_suppressions(source: &str) -> (r: HashMap<usize, Vec<String>>)
    ensures
        sup_view(r@) == suppressions_of(lines(source@)),
{
    let src = chars_of(source);
    let ls = text::split_lines(&src);
    let ghost lv = vviews(ls@);
    let mut m: HashMap<usize, Vec<String>> = HashMap::new();
    let mut i: usize = 0;
    while i < ls.len()
        invariant
            i <= ls.len(),
            lv == vviews(ls@),
            lv == lines(source@),
            sup_matches(m@, suppressions_of(lv.take(i as int))),
        decreases ls.len() - i,
    {
        proof {
            assert(lv.take(i + 1).drop_last() =~= lv.take(i as int));
            assert(lv.take(i + 1).last() == ls@[i as int]@);
        }
        match suppression_codes_exec(&ls[i]) {
            Some(codes) => {
                m.insert(i + 1, codes);
            },
            None => {},
        }
        proof {
            let a = suppressions_of(lv.take(i + 1));
            assert(m@.dom() =~= a.dom());
        }
        i += 1;
    }
    assert(lv.take(ls.len() as int) =~= lv);
    assert(sup_view(m@) =~= suppressions_of(lv));
    m
}

/// Whether the codes of a suppression cover a diagnostic: an empty list
/// covers everything, otherwise the diagnostic's rule code must be listed.
pub open spec fn covers(codes: Seq<Seq<char>>, e: Diag) -> bool {
    codes.len() == 0 || match e.rule_code {
        Some(rc) => codes.contains(rc),
        None => false,
    }
}

/// Whether a suppression on the diagnostic's line, or on the line before
/// it, covers the diagnostic.
pub open spec fn suppressed(e: Diag, sups: Map<usize, Seq<Seq<char>>>) -> bool {
    match e.line {
        None => false,
        Some(l) => (sups.contains_key(l) && covers(sups[l], e)) || (l > 1 && sups.contains_key(
            (l - 1) as usize,
        ) && covers(sups[(l - 1) as usize], e)),
    }
}

/// Whether a suppression list covers a diagnostic.
pub fn matches_suppression(error: &LintError, codes: &[String]) -> (r: bool)
    ensures
        r == covers(string_views(codes@), error@),
{
    if codes.len() == 0 {
        return true;
    }
    match &error.rule_code {
        Some(rc) => {
            let mut i: usize = 0;
            while i < codes.len()
                invariant
                    i <= codes.len(),
                    codes.len() > 0,
                    error@.rule_code == Some(rc@),
                    forall|j: int| 0 <= j < i ==> codes@[j]@ != rc@,
                decreases codes.len() - i,
            {
                if text::str_eq(codes[i].as_str(), rc.as_str()) {
                    assert(string_views(codes@)[i as int] == rc@);
                    assert(string_views(codes@).contains(rc@));
                    return true;
                }
                i += 1;
            }
            proof {
                if string_views(codes@).contains(rc@) {
                    let j = choose|j: int| 0 <= j < codes@.len() && string_views(codes@)[j] == rc@;
                    assert(codes@[j]@ == rc@);
                }
            }
            false
        },
        None => false,
    }
}

/// Whether an inline suppression covers a diagnostic.
pub fn is_suppressed(error: &LintError, suppressions: &HashMap<usize, Vec<String>>) -> (r: bool)
    ensures
        r == suppressed(error@, sup_view(suppressions@)),
{
    let line = match error.line {
        Some(l) => l,
        None => return false,
    };
    match suppressions.get(&line) {
        Some(codes) => {
            if matches_suppression(error, codes.as_slice()) {
                return true;
            }
        },
        None => {},
    }
    if line > 1 {
        match suppressions.get(&(line - 1)) {
            Some(codes) => {
                if matches_suppression(error, codes.as_slice()) {
                    return true;
                }
            },
            None => {},
        }
    }
    false
}

// ============================================================================
// YAML hygiene checks
// ============================================================================

/// The warning for tab indentation on line `n`, if the line has it.
pub open spec fn tab_diag(line: Seq<char>, n: nat, file: Seq<char>) -> Option<Diag> {
    if text::starts_with(line, "\t"@) || (text::starts_with(line, " "@) && text::has_char(line, '\t')) {
        let col = match text::find_char(line, '\t') {
            Some(i) => text::byte_len(line.take(i)),
            None => 0,
        } + 1;
        Some(
            diag(Severity::Warning, "Tab character found — use spaces for YAML indentation"@, file).at(
                n as usize,
                col as usize,
            ).code("yaml-tabs"@).helped("YAML indentation must use spaces, not tabs"@),
        )
    } else {
        None
    }
}

/// The note for trailing whitespace on line `n`, if the line has it.
pub open spec fn trailing_diag(line: Seq<char>, n: nat, file: Seq<char>) -> Option<Diag> {
    if text::byte_len(line) > 1 && line != text::trim_end(line) && trim(line).len() > 0 {
        Some(
            diag(Severity::Info, "Trailing whitespace"@, file).at(
                n as usize,
                (text::byte_len(text::trim_end(line)) + 1) as usize,
            ).code("yaml-trailing-whitespace"@),
        )
    } else {
        None
    }
}

/// The diagnostic, if any, as a sequence.
pub open spec fn opt_seq(d: Option<Diag>) -> Seq<Diag> {
    match d {
        Some(x) => seq![x],
        None => Seq::empty(),
    }
}

/// Tab and trailing-whitespace diagnostics for the lines `ls`, in order.
pub open spec fn whitespace_diags(ls: Seq<Seq<char>>, file: Seq<char>) -> Seq<Diag>
    decreases ls.len(),
{
    if ls.len() == 0 {
        Seq::empty()
    } else {
        let n = ls.len();
        whitespace_diags(ls.drop_last(), file) + opt_seq(tab_diag(ls.last(), n, file)) + opt_seq(
            trailing_diag(ls.last(), n, file),
        )
    }
}

/// The text before the first colon.
pub open spec fn before_colon(t: Seq<char>) -> Seq<char> {
    match text::find_char(t, ':') {
        Some(p) => t.take(p),
        None => t,
    }
}

/// The key of a top-level key line: no indentation, not a comment or a
/// list item, and a non-empty name before the colon.
pub open spec fn top_level_key(line: Seq<char>) -> Option<Seq<char>> {
    let t = trim(line);
    if !text::starts_with(line, " "@) && !text::starts_with(line, "\t"@) && !text::starts_with(
        t,
        "#"@,
    ) && !text::starts_with(t, "-"@) && t.len() > 0 {
        let k = trim(before_colon(t));
        if k.len() > 0 {
            Some(k)
        } else {
            None
        }
    } else {
        None
    }
}

/// The line first recorded for a key.
pub open spec fn first_seen(seen: Seq<(Seq<char>, nat)>, k: Seq<char>) -> Option<nat>
    decreases seen.len(),
{
    if seen.len() == 0 {
        None
    } else if seen[0].0 == k {
        Some(seen[0].1)
    } else {
        first_seen(seen.drop_first(), k)
    }
}

/// The error for a top-level key repeated on line `n`.
pub open spec fn duplicate_key_diag(k: Seq<char>, prev: nat, n: nat, file: Seq<char>) -> Diag {
    diag(
        Severity::Error,
        "Duplicate top-level key '"@ + k + "' (first seen at line "@ + text::decimal(prev) + ")"@,
        file,
    ).at(n as usize, 1).code("yaml-duplicate-key"@).helped(
        "YAML uses the last occurrence of duplicate keys — the first one is silently ignored"@,
    )
}

/// The keys seen so far with their first line, and the duplicate-key
/// errors, for the lines `ls`.
pub open spec fn duplicate_fold(ls: Seq<Seq<char>>, file: Seq<char>) -> (Seq<(Seq<char>, nat)>, Seq<Diag>)
    decreases ls.len(),
{
    if ls.len() == 0 {
        (Seq::empty(), Seq::empty())
    } else {
        let (seen, ds) = duplicate_fold(ls.drop_last(), file);
        let n = ls.len();
        match top_level_key(ls.last()) {
            Some(k) => match first_seen(seen, k) {
                Some(prev) => (seen, ds.push(duplicate_key_diag(k, prev, n, file))),
                None => (seen.push((k, n)), ds),
            },
            None => (seen, ds),
        }
    }
}

/// Every hygiene diagnostic of a source: tabs and trailing whitespace line
/// by line, then repeated top-level keys.
pub open spec fn hygiene_diags(source: Seq<char>, file: Seq<char>) -> Seq<Diag> {
    whitespace_diags(lines(source), file) + duplicate_fold(lines(source), file).1
}

/// The tab warning for one line.
fn tab_check(line: &[char], n: usize, file: &str) -> (r: Option<LintError>)
    requires
        text::byte_len(line@) < usize::MAX,
    ensures
        match r {
            Some(e) => tab_diag(line@, n as nat, file@) == Some(e@),
            None => tab_diag(line@, n as nat, file@).is_none(),
        },
{
    if text::starts_with_str(line, "\t") || (text::starts_with_str(line, " ") && text::has_char_exec(
        line,
        '\t',
    )) {
        let col = match text::find_char_exec(line, '\t') {
            Some(i) => {
                let pre = text::slice_range(line, 0, i);
                assert(pre@ =~= line@.take(i as int));
                proof {
                    text::lemma_byte_len_take(line@, i as int);
                }
                text::byte_len_exec(&pre)
            },
            None => 0,
        } + 1;
        Some(
            LintError::warning("Tab character found — use spaces for YAML indentation", file).with_location(
                n,
                col,
            ).with_rule_code("yaml-tabs").with_help("YAML indentation must use spaces, not tabs"),
        )
    } else {
        None
    }
}

/// The trailing-whitespace note for one line.
fn trailing_check(line: &[char], n: usize, file: &str) -> (r: Option<LintError>)
    requires
        text::byte_len(line@) < usize::MAX,
    ensures
        match r {
            Some(e) => trailing_diag(line@, n as nat, file@) == Some(e@),
            None => trailing_diag(line@, n as nat, file@).is_none(),
        },
{
    let len = text::byte_len_exec(line);
    let te = text::trim_end_vec(line);
    let t = text::trim_vec(line);
    if len > 1 && !text::eq(line, &te) && t.len() > 0 {
        proof {
            text::lemma_trim_bytes(line@);
        }
        let tl = text::byte_len_exec(&te);
        Some(
            LintError::info("Trailing whitespace", file).with_location(n, tl + 1).with_rule_code(
                "yaml-trailing-whitespace",
            ),
        )
    } else {
        None
    }
}

/// The key of a top-level key line.
fn top_level_key_exec(line: &[char]) -> (r: Option<Vec<char>>)
    ensures
        match r {
            Some(k) => top_level_key(line@) == Some(k@),
            None => top_level_key(line@).is_none(),
        },
{
    let t = text::trim_vec(line);
    if !text::starts_with_str(line, " ") && !text::starts_with_str(line, "\t")
        && !text::starts_with_str(&t, "#") && !text::starts_with_str(&t, "-") && t.len() > 0 {
        let head = match text::find_char_exec(&t, ':') {
            Some(p) => text::slice_range(&t, 0, p),
            None => t.clone(),
        };
        assert(head@ == before_colon(t@)) by {
            if text::find_char(t@, ':').is_some() {
                assert(head@ =~= t@.take(text::find_char(t@, ':').unwrap()));
            }
        }
        let k = text::trim_vec(&head);
        if k.len() > 0 {
            Some(k)
        } else {
            None
        }
    } else {
        None
    }
}

/// The line first recorded for a key, searching the records in order.
fn first_seen_exec(seen: &Vec<(Vec<char>, usize)>, k: &[char]) -> (r: Option<usize>)
    ensures
        match r {
            Some(p) => first_seen(seen_view(seen@), k@) == Some(p as nat),
            None => first_seen(seen_view(seen@), k@).is_none(),
        },
{
    let ghost sv = seen_view(seen@);
    assert(sv.skip(0) =~= sv);
    let mut j: usize = 0;
    while j < seen.len()
        invariant
            j <= seen.len(),
            sv == seen_view(seen@),
            first_seen(sv, k@) == first_seen(sv.skip(j as int), k@),
        decreases seen.len() - j,
    {
        assert(sv.skip(j as int)[0] == (seen@[j as int].0@, seen@[j as int].1 as nat));
        if text::eq(&seen[j].0, k) {
            return Some(seen[j].1);
        }
        assert(sv.skip(j as int).drop_first() =~= sv.skip(j + 1));
        j += 1;
    }
    assert(sv.skip(j as int) =~= Seq::<(Seq<char>, nat)>::empty());
    None
}

/// The abstract records of seen keys.
pub open spec fn seen_view(v: Seq<(Vec<char>, usize)>) -> Seq<(Seq<char>, nat)> {
    Seq::new(v.len(), |i: int| (v[i].0@, v[i].1 as nat))
}

/// Runs the hygiene checks on a source, appending their diagnostics to
/// `report`.
pub fn check_yaml_hygiene(content: &str, file: &str, report: &mut Vec<LintError>)
    requires
        text::source_fits(content@),
    ensures
        diags(final(report)@) == diags(old(report)@) + hygiene_diags(content@, file@),
{
    let src = chars_of(content);
    let ls = text::split_lines(&src);
    let ghost lv = vviews(ls@);
    proof {
        text::lemma_lines_bytes(content@);
    }
    let ghost start = diags(report@);
    let mut i: usize = 0;
    while i < ls.len()
        invariant
            i <= ls.len(),
            lv == vviews(ls@),
            lv == lines(content@),
            forall|j: int| 0 <= j < lv.len() ==> text::byte_len(#[trigger] lv[j]) <= text::byte_len(content@),
            text::source_fits(content@),
            diags(report@) == start + whitespace_diags(lv.take(i as int), file@),
        decreases ls.len() - i,
    {
        proof {
            assert(lv.take(i + 1).drop_last() =~= lv.take(i as int));
            assert(lv.take(i + 1).last() == ls@[i as int]@);
            assert(text::byte_len(lv[i as int]) <= text::byte_len(content@));
        }
        let ghost before = diags(report@);
        match tab_check(&ls[i], i + 1, file) {
            Some(e) => push_diag(report, e),
            None => {},
        }
        let ghost mid = diags(report@);
        match trailing_check(&ls[i], i + 1, file) {
            Some(e) => push_diag(report, e),
            None => {},
        }
        proof {
            let n = (i + 1) as nat;
            assert(mid == before + opt_seq(tab_diag(lv[i as int], n, file@)));
            assert(diags(report@) == mid + opt_seq(trailing_diag(lv[i as int], n, file@)));
            assert(start + whitespace_diags(lv.take(i + 1), file@) =~= before + opt_seq(
                tab_diag(lv[i as int], n, file@),
            ) + opt_seq(trailing_diag(lv[i as int], n, file@)));
        }
        i += 1;
    }
    assert(lv.take(ls.len() as int) =~= lv);
    let ghost mid = diags(report@);
    let mut seen: Vec<(Vec<char>, usize)> = Vec::new();
    let mut i: usize = 0;
    while i < ls.len()
        invariant
            i <= ls.len(),
            lv == vviews(ls@),
            lv == lines(content@),
            ({
                let (sv, ds) = duplicate_fold(lv.take(i as int), file@);
                &&& sv == seen_view(seen@)
                &&& diags(report@) == mid + ds
            }),
        decreases ls.len() - i,
    {
        proof {
            assert(lv.take(i + 1).drop_last() =~= lv.take(i as int));
            assert(lv.take(i + 1).last() == ls@[i as int]@);
        }
        match top_level_key_exec(&ls[i]) {
            Some(k) => {
                match first_seen_exec(&seen, &k) {
                    Some(prev) => {
                        let mut msg = chars_of("Duplicate top-level key '");
                        msg = text::concat(&msg, &k);
                        msg = text::concat(&msg, &chars_of("' (first seen at line "));
                        msg = text::concat(&msg, &text::decimal_chars(prev));
                        msg = text::concat(&msg, &chars_of(")"));
                        let m = s_of(&msg);
                        let e = LintError::error(m.as_str(), file).with_location(i + 1, 1).with_rule_code(
                            "yaml-duplicate-key",
                        ).with_help(
                            "YAML uses the last occurrence of duplicate keys — the first one is silently ignored",
                        );
                        push_diag(report, e);
                    },
                    None => {
                        let ghost before = seen_view(seen@);
                        seen.push((k, i + 1));
                        assert(seen_view(seen@) =~= before.push((k@, (i + 1) as nat)));
                    },
                }
            },
            None => {},
        }
        i += 1;
    }
    assert(lv.take(ls.len() as int) =~= lv);
}

// ============================================================================
// Directory walks
// ============================================================================

/// A directory that a lint of a directory tree does not enter: hidden
/// directories, installed packages and build output.
pub open spec fn skipped_lint_dir(name: Seq<char>) -> bool {
    ||| (name.len() > 0 && name[0] == '.')
    ||| name == "node_modules"@
    ||| name == "target"@
    ||| name == "dist"@
}

/// Whether a directory walk skips a directory of this name.
pub fn skip_lint_dir(name: &str) -> (r: bool)
    ensures
        r == skipped_lint_dir(name@),
{
    let n = chars_of(name);
    (n.len() > 0 && n[0] == '.') || text::eq_str(&n, "node_modules") || text::eq_str(&n, "target")
        || text::eq_str(&n, "dist")
}

/// A file name whose extension is `yml` or `yaml` (a name that is only the
/// extension, such as `.yml`, has none).
pub open spec fn has_yaml_extension(name: Seq<char>) -> bool {
    ||| (text::ends_with(name, ".yml"@) && name.len() > 4)
    ||| (text::ends_with(name, ".yaml"@) && name.len() > 5)
}

/// A file that a lint of a directory tree takes: a YAML file that is not
/// hidden and is not a Docker Compose or GitHub Action definition.
pub open spec fn lint_target(name: Seq<char>) -> bool {
    &&& has_yaml_extension(name)
    &&& !(name.len() > 0 && name[0] == '.')
    &&& name != "docker-compose.yml"@
    &&& name != "docker-compose.yaml"@
    &&& name != "action.yml"@
    &&& name != "action.yaml"@
}

/// Whether a directory walk lints a file of this name.
pub fn is_lint_target(file_name: &str) -> (r: bool)
    ensures
        r == lint_target(file_name@),
{
    let n = chars_of(file_name);
    let yaml = (text::ends_with_str(&n, ".yml") && n.len() > 4) || (text::ends_with_str(&n, ".yaml") && n.len() > 5);
    yaml && !(n.len() > 0 && n[0] == '.') && !text::eq_str(&n, "docker-compose.yml") && !text::eq_str(
        &n,
        "docker-compose.yaml",
    ) && !text::eq_str(&n, "action.yml") && !text::eq_str(&n, "action.yaml")
}

// ============================================================================
// The linter
// ============================================================================

/// The project settings that the engine reads: rules turned off, rules
/// whose errors are reported as warnings, and whether unknown fields are
/// allowed (which turns structural validation off).
#[derive(Debug)]
pub struct FleetLintConfig {
    pub disabled_rules: Vec<String>,
    pub warning_rules: Vec<String>,
    pub allow_unknown_fields: bool,
}

/// A rule is turned off by the settings.
pub open spec fn rule_disabled(c: Option<FleetLintConfig>, name: Seq<char>) -> bool {
    match c {
        Some(c) => string_views(c.disabled_rules@).contains(name) || (c.allow_unknown_fields && name
            == "structural-validation"@),
        None => false,
    }
}

/// A rule's errors are reported as warnings.
pub open spec fn rule_warns(c: Option<FleetLintConfig>, name: Seq<char>) -> bool {
    match c {
        Some(c) => string_views(c.warning_rules@).contains(name),
        None => false,
    }
}

/// A diagnostic of rule `name` as the engine reports it: an error becomes a
/// warning when `warn` holds, and a missing rule code becomes `name`.
pub open spec fn tagged(d: Diag, warn: bool, name: Seq<char>) -> Diag {
    Diag {
        severity: if warn && d.severity == Severity::Error {
            Severity::Warning
        } else {
            d.severity
        },
        rule_code: if d.rule_code is None {
            Some(name)
        } else {
            d.rule_code
        },
        ..d
    }
}

/// `tagged` with a fixed rule.
pub open spec fn tagger(warn: bool, name: Seq<char>) -> spec_fn(Diag) -> Diag {
    |d: Diag| tagged(d, warn, name)
}

/// What one rule contributes to a report.
pub open spec fn rule_output(
    r: BuiltinRule,
    settings: Option<FleetLintConfig>,
    config: FleetConfig,
    file: Seq<char>,
    source: Seq<char>,
) -> Seq<Diag> {
    let name = builtin_name(r);
    if rule_disabled(settings, name) {
        Seq::empty()
    } else {
        builtin_diags(r, config, file, source).map_values(tagger(rule_warns(settings, name), name))
    }
}

/// What a sequence of rules contributes, rule after rule.
pub open spec fn rules_output(
    rules: Seq<BuiltinRule>,
    settings: Option<FleetLintConfig>,
    config: FleetConfig,
    file: Seq<char>,
    source: Seq<char>,
) -> Seq<Diag>
    decreases rules.len(),
{
    if rules.len() == 0 {
        Seq::empty()
    } else {
        rules_output(rules.drop_last(), settings, config, file, source) + rule_output(
            rules.last(),
            settings,
            config,
            file,
            source,
        )
    }
}

/// The diagnostics that no inline suppression covers, in order.
pub open spec fn unsuppressed(s: Seq<Diag>, sups: Map<usize, Seq<Seq<char>>>) -> Seq<Diag>
    decreases s.len(),
{
    if s.len() == 0 {
        Seq::empty()
    } else if suppressed(s.last(), sups) {
        unsuppressed(s.drop_last(), sups)
    } else {
        unsuppressed(s.drop_last(), sups).push(s.last())
    }
}

/// The error for a file that is not YAML at all.
pub open spec fn parse_error_diag(message: Seq<char>, location: Option<(usize, usize)>, file: Seq<char>) -> Diag {
    let d = diag(Severity::Error, "YAML parse error: "@ + message, file).code("yaml-syntax"@);
    match location {
        Some((l, c)) => d.at(l, c),
        None => d,
    }
}

/// The configuration the rules see: the typed parse when it succeeded;
/// otherwise an empty configuration, except that a Fleet configuration file
/// that is not YAML at all (a duplicate key aside) yields its parse error.
pub open spec fn config_for(ft: FileType, parsed: Option<FleetConfig>, file: Seq<char>, content: Seq<char>) -> Result<
    FleetConfig,
    Diag,
> {
    match parsed {
        Some(c) => Ok(c),
        None => if ft == FileType::FleetConfig {
            match yaml_outcome(content) {
                Ok(_) => Ok(empty_config()),
                Err((m, loc)) => if text::contains(m, "duplicate entry"@) {
                    Ok(empty_config())
                } else {
                    Err(parse_error_diag(m, loc, file))
                },
            }
        } else {
            Ok(empty_config())
        },
    }
}

/// Every diagnostic of a file, in the order the engine adds them: hygiene
/// findings; then, for files that are linted further, either the parse
/// error or every enabled rule's findings that no suppression covers.
pub open spec fn lint_diags(
    rules: Seq<BuiltinRule>,
    settings: Option<FleetLintConfig>,
    file: Seq<char>,
    content: Seq<char>,
    parsed: Option<FleetConfig>,
) -> Seq<Diag> {
    let h = hygiene_diags(content, file);
    let ft = file_type_of(file);
    if ft == FileType::Software || ft == FileType::AgentOptions || ft == FileType::NonYaml {
        h
    } else {
        match config_for(ft, parsed, file, content) {
            Err(d) => h.push(d),
            Ok(cfg) => h + unsuppressed(
                rules_output(rules, settings, cfg, file, content),
                suppressions_of(lines(content)),
            ),
        }
    }
}

/// The engine runs the rules on a file: its type gets more than the
/// hygiene checks, and its typed parse is given or its YAML parses (a
/// duplicate-key error counts as parsing).
pub open spec fn runs_rules(file: Seq<char>, content: Seq<char>, parsed: Option<FleetConfig>) -> bool {
    let ft = file_type_of(file);
    &&& !(ft == FileType::Software || ft == FileType::AgentOptions || ft == FileType::NonYaml)
    &&& config_for(ft, parsed, file, content) is Ok
}

/// Every rule that runs on the file is defined on its content: when the
/// engine runs the rules, each rule the settings do not turn off.
pub open spec fn lint_defined(
    rules: Seq<BuiltinRule>,
    settings: Option<FleetLintConfig>,
    file: Seq<char>,
    content: Seq<char>,
    parsed: Option<FleetConfig>,
) -> bool {
    runs_rules(file, content, parsed) ==> forall|i: int|
        0 <= i < rules.len() && !rule_disabled(settings, builtin_name(#[trigger] rules[i])) ==> builtin_defined(
            rules[i],
            content,
        )
}

/// Whether `names` lists `name`.
fn lists(names: &Vec<String>, name: &str) -> (r: bool)
    ensures
        r == string_views(names@).contains(name@),
{
    let mut i: usize = 0;
    while i < names.len()
        invariant
            i <= names.len(),
            forall|j: int| 0 <= j < i ==> names@[j]@ != name@,
        decreases names.len() - i,
    {
        if text::str_eq(names[i].as_str(), name) {
            assert(string_views(names@)[i as int] == name@);
            return true;
        }
        i += 1;
    }
    proof {
        if string_views(names@).contains(name@) {
            let j = choose|j: int| 0 <= j < names@.len() && string_views(names@)[j] == name@;
            assert(names@[j]@ == name@);
        }
    }
    false
}

/// Runs the linter: the main entry point of the library.
pub struct Linter {
    rules: RuleSet,
    config: Option<FleetLintConfig>,
}

impl Linter {
    /// The rules the linter runs, in order.
    pub closed spec fn rule_seq(&self) -> Seq<BuiltinRule> {
        self.rules@
    }

    /// The settings the linter applies.
    pub closed spec fn settings(&self) -> Option<FleetLintConfig> {
        self.config
    }

    /// A linter with the default rules and no settings.
    pub fn new() -> (r: Linter)
        ensures
            r.rule_seq() == default_rule_seq(),
            r.settings() is None,
    {
        Linter { rules: RuleSet::default_rules(), config: None }
    }

    /// A linter with the given rules and no settings.
    pub fn with_rules(rules: RuleSet) -> (r: Linter)
        ensures
            r.rule_seq() == rules@,
            r.settings() is None,
    {
        Linter { rules, config: None }
    }

    /// A linter with the default rules and the given settings.
    pub fn with_config(config: FleetLintConfig) -> (r: Linter)
        ensures
            r.rule_seq() == default_rule_seq(),
            r.settings() == Some(config),
    {
        Linter { rules: RuleSet::default_rules(), config: Some(config) }
    }

    /// The settings, if any.
    pub fn config(&self) -> (r: Option<&FleetLintConfig>)
        ensures
            match r {
                Some(c) => self.settings() == Some(*c),
                None => self.settings() is None,
            },
    {
        self.config.as_ref()
    }

    /// The settings, mutably, if any.
    pub fn config_mut(&mut self) -> (r: Option<&mut FleetLintConfig>)
        ensures
            match r {
                Some(c) => old(self).settings() == Some(*c) && final(self).settings() == Some(*final(c)),
                None => old(self).settings() is None && final(self).settings() is None,
            },
            final(self).rule_seq() == old(self).rule_seq(),
    {
        self.config.as_mut()
    }

    /// Replaces the settings.
    pub fn set_config(&mut self, config: FleetLintConfig)
        ensures
            final(self).settings() == Some(config),
            final(self).rule_seq() == old(self).rule_seq(),
    {
        self.config = Some(config);
    }

    /// Whether the settings turn the rule off.
    fn disabled(&self, name: &str) -> (r: bool)
        ensures
            r == rule_disabled(self.settings(), name@),
    {
        match &self.config {
            Some(c) => lists(&c.disabled_rules, name) || (c.allow_unknown_fields && text::str_eq(
                name,
                "structural-validation",
            )),
            None => false,
        }
    }

    /// Whether the settings report the rule's errors as warnings.
    fn warns(&self, name: &str) -> (r: bool)
        ensures
            r == rule_warns(self.settings(), name@),
    {
        match &self.config {
            Some(c) => lists(&c.warning_rules, name),
            None => false,
        }
    }

    /// Lints a file's content. `parsed` is the file's typed parse (the
    /// configuration, or the list that a standalone labels, policies or
    /// queries file holds, wrapped by `FleetConfig::from_labels` and the
    /// like), or `None` when that parse failed.
    pub fn lint_content(&self, content: &str, file: &str, parsed: Option<FleetConfig>) -> (r: LintReport)
        requires
            text::source_fits(content@),
            lint_defined(self.rule_seq(), self.settings(), file@, content@, parsed),
        ensures
            r.holds(lint_diags(self.rule_seq(), self.settings(), file@, content@, parsed)),
    {
        let mut report = LintReport::new();
        let mut hygiene: Vec<LintError> = Vec::new();
        check_yaml_hygiene(content, file, &mut hygiene);
        assert(diags(hygiene@) =~= hygiene_diags(content@, file@));
        let ghost h = hygiene_diags(content@, file@);
        add_all(&mut report, hygiene);
        assert(Seq::<Diag>::empty() + h =~= h);
        let ft = detect_file_type(file);
        if ft == FileType::Software || ft == FileType::AgentOptions || ft == FileType::NonYaml {
            return report;
        }
        let config: FleetConfig = match parsed {
            Some(c) => c,
            None => {
                if ft == FileType::FleetConfig {
                    match parse_yaml_outcome(content) {
                        Ok(_) => FleetConfig::default(),
                        Err(e) => {
                            if text::contains_str(&chars_of(e.message.as_str()), "duplicate entry") {
                                FleetConfig::default()
                            } else {
                                let m = text::concat(&chars_of("YAML parse error: "), &chars_of(e.message.as_str()));
                                let mut err = crate::diag::mk(Severity::Error, &m, file).with_rule_code("yaml-syntax");
                                match e.location {
                                    Some((l, c)) => {
                                        err = err.with_location(l, c);
                                    },
                                    None => {},
                                }
                                let ghost pre = report;
                                let ghost ev = err@;
                                report.add(err);
                                assert(pre.holds(h));
                                return report;
                            }
                        },
                    }
                } else {
                    FleetConfig::default()
                }
            },
        };
        assert(config_for(ft, parsed, file@, content@) == Ok::<FleetConfig, Diag>(config));
        let suppressions = parse_suppressions(content);
        let ghost sups = suppressions_of(lines(content@));
        let ghost rs = self.rule_seq();
        let rules = self.rules.rules();
        let mut kept: Vec<LintError> = Vec::new();
        let mut i: usize = 0;
        while i < rules.len()
            invariant
                i <= rules@.len(),
                rules@ == rs,
                rs == self.rule_seq(),
                sup_view(suppressions@) == sups,
                forall|k: int|
                    0 <= k < rs.len() && !rule_disabled(self.settings(), builtin_name(#[trigger] rs[k])) ==> builtin_defined(
                        rs[k],
                        content@,
                    ),
                diags(kept@) == unsuppressed(rules_output(rs.take(i as int), self.settings(), config, file@, content@), sups),
            decreases rules.len() - i,
        {
            let rule = rules[i];
            assert(rs.take(i + 1).drop_last() =~= rs.take(i as int));
            assert(rs.take(i + 1).last() == rule);
            let name = rule.name();
            if !self.disabled(name) {
                let should_warn = self.warns(name);
                let errors = rule.check(&config, file, content);
                let ghost out = diags(errors@);
                let ghost base = rules_output(rs.take(i as int), self.settings(), config, file@, content@);
                let ghost tag = tagger(should_warn, name@);
                let mut errors = errors;
                let ghost mut done: Seq<Diag> = Seq::empty();
                while errors.len() > 0
                    invariant
                        done + diags(errors@) == out,
                        sup_view(suppressions@) == sups,
                        should_warn == rule_warns(self.settings(), name@),
                        tag == tagger(should_warn, name@),
                        name@ == builtin_name(rule),
                        diags(kept@) == unsuppressed(base + done.map_values(tag), sups),
                    decreases errors.len(),
                {
                    let ghost before_e = errors@;
                    let mut error = errors.remove(0);
                    let ghost orig = error@;
                    assert(diags(before_e) =~= seq![orig] + diags(errors@));
                    if should_warn && error.severity == Severity::Error {
                        error.severity = Severity::Warning;
                    }
                    if error.rule_code.is_none() {
                        error.rule_code = Some(name.to_owned());
                    }
                    assert(error@ == tagged(orig, should_warn, name@));
                    assert(error@ == tag(orig));
                    let ghost prev = base + done.map_values(tag);
                    assert(base + done.push(orig).map_values(tag) =~= prev.push(error@));
                    assert(prev.push(error@).drop_last() =~= prev);
                    assert(prev.push(error@).last() == error@);
                    if !is_suppressed(&error, &suppressions) {
                        push_diag(&mut kept, error);
                    }
                    proof {
                        assert(done.push(orig) + diags(errors@) =~= done + (seq![orig] + diags(errors@)));
                        done = done.push(orig);
                    }
                }
                assert(done =~= out);
                assert(rule_output(rule, self.settings(), config, file@, content@) == out.map_values(tag));
                assert(rules_output(rs.take(i + 1), self.settings(), config, file@, content@) == base + out.map_values(tag));
            } else {
                assert(rules_output(rs.take(i + 1), self.settings(), config, file@, content@) =~= rules_output(rs.take(i as int), self.settings(), config, file@, content@));
            }
            i += 1;
        }
        assert(rs.take(rules.len() as int) =~= rs);
        let ghost pre = report;
        add_all(&mut report, kept);
        report
    }

    /// Whether `lint_content` is defined on these inputs: it is, unless the
    /// empty-value rule runs and flags a key that cannot be cut to 30 bytes
    /// for display without splitting a character.
    pub fn can_lint(&self, content: &str, file: &str, parsed: &Option<FleetConfig>) -> (r: bool)
        requires
            text::source_fits(content@),
        ensures
            r == lint_defined(self.rule_seq(), self.settings(), file@, content@, *parsed),
    {
        let ft = detect_file_type(file);
        if ft == FileType::Software || ft == FileType::AgentOptions || ft == FileType::NonYaml {
            return true;
        }
        let parses = match parsed {
            Some(_) => true,
            None => if ft == FileType::FleetConfig {
                match parse_yaml_outcome(content) {
                    Ok(_) => true,
                    Err(e) => text::contains_str(&chars_of(e.message.as_str()), "duplicate entry"),
                }
            } else {
                true
            },
        };
        if !parses {
            assert(config_for(ft, *parsed, file@, content@) is Err);
            return true;
        }
        assert(runs_rules(file@, content@, *parsed));
        let displayable = crate::yaml_lint::empty_values_displayable_exec(content);
        let ghost rs = self.rule_seq();
        let rules = self.rules.rules();
        let mut i: usize = 0;
        while i < rules.len()
            invariant
                i <= rules@.len(),
                rules@ == rs,
                rs == self.rule_seq(),
                text::source_fits(content@),
                runs_rules(file@, content@, *parsed),
                displayable == crate::yaml_lint::empty_values_displayable(content@),
                forall|k: int|
                    0 <= k < i && !rule_disabled(self.settings(), builtin_name(#[trigger] rs[k])) ==> builtin_defined(
                        rs[k],
                        content@,
                    ),
            decreases rules.len() - i,
        {
            let rule = rules[i];
            let name = rule.name();
            if !self.disabled(name) {
                let defined = match rule {
                    BuiltinRule::YamlEmptyValues => displayable,
                    _ => true,
                };
                if !defined {
                    assert(rs[i as int] == rule);
                    assert(!rule_disabled(self.settings(), builtin_name(rs[i as int])));
                    assert(!builtin_defined(rs[i as int], content@));
                    return false;
                }
            }
            i += 1;
        }
        true
    }
}

impl Default for Linter {
    fn default() -> (r: Linter)
        ensures
            r.rule_seq() == default_rule_seq(),
            r.settings() is None,
    {
        Linter::new()
    }
}

// ============================================================================
// Applying fixes
// ============================================================================

/// A diagnostic whose suggestion can be applied: it has a suggestion, a
/// fix safety that is safe (or any, with `include_unsafe`), a line and the
/// text it replaces.
pub open spec fn fixable(d: Diag, include_unsafe: bool) -> bool {
    &&& d.suggestion is Some
    &&& d.line is Some
    &&& d.context is Some
    &&& (d.fix_safety == Some(crate::diag::FixSafety::Safe) || (include_unsafe && d.fix_safety
        == Some(crate::diag::FixSafety::Unsafe)))
}

/// The fixable diagnostics of a sequence, in order.
pub open spec fn fixable_of(s: Seq<Diag>, include_unsafe: bool) -> Seq<Diag>
    decreases s.len(),
{
    if s.len() == 0 {
        Seq::empty()
    } else if fixable(s.last(), include_unsafe) {
        fixable_of(s.drop_last(), include_unsafe).push(s.last())
    } else {
        fixable_of(s.drop_last(), include_unsafe)
    }
}

/// The lines after applying fixes in order, and how many applied: a fix
/// replaces the first occurrence of its context on its (1-based) line with
/// its suggestion; a fix whose line is out of range or does not hold the
/// context is skipped. Fixes on different lines do not interact, so the
/// order among lines does not matter.
pub open spec fn apply_all(ls: Seq<Seq<char>>, fixes: Seq<Diag>) -> (Seq<Seq<char>>, nat)
    decreases fixes.len(),
{
    if fixes.len() == 0 {
        (ls, 0)
    } else {
        let (cur, n) = apply_all(ls, fixes.drop_last());
        let f = fixes.last();
        let l = f.line.unwrap() as int;
        let ctx = f.context.unwrap();
        if 1 <= l <= cur.len() && text::find(cur[l - 1], ctx) is Some {
            let line = cur[l - 1];
            let p = text::find(line, ctx).unwrap();
            (cur.update(l - 1, line.take(p) + f.suggestion.unwrap() + line.skip(p + ctx.len())), n + 1)
        } else {
            (cur, n)
        }
    }
}

/// The fixable diagnostics of a report: errors, then warnings, then infos.
pub open spec fn report_fixes(r: LintReport, include_unsafe: bool) -> Seq<Diag> {
    fixable_of(diags(r.errors@) + diags(r.warnings@) + diags(r.infos@), include_unsafe)
}

/// The text after applying fixes: unchanged when none applied; otherwise
/// the fixed lines joined with newlines, ending with a newline when the
/// source did.
pub open spec fn fixed_text(source: Seq<char>, r: LintReport, include_unsafe: bool) -> (Seq<char>, nat) {
    let (ls, n) = apply_all(lines(source), report_fixes(r, include_unsafe));
    if n == 0 {
        (source, 0)
    } else {
        (
            crate::rules::join_with(ls, "\n"@) + if text::ends_with(source, "\n"@) {
                "\n"@
            } else {
                Seq::empty()
            },
            n,
        )
    }
}

/// Collects the fixable diagnostics of one list.
fn collect_fixes<'a>(v: &'a Vec<LintError>, include_unsafe: bool, out: &mut Vec<&'a LintError>)
    ensures
        ref_diags(final(out)@) == ref_diags(old(out)@) + fixable_of(diags(v@), include_unsafe),
{
    let ghost dv = diags(v@);
    let ghost start = ref_diags(out@);
    let mut i: usize = 0;
    while i < v.len()
        invariant
            i <= v@.len(),
            dv == diags(v@),
            ref_diags(out@) == start + fixable_of(dv.take(i as int), include_unsafe),
        decreases v.len() - i,
    {
        assert(dv.take(i + 1).drop_last() =~= dv.take(i as int));
        assert(dv.take(i + 1).last() == v@[i as int]@);
        let e = &v[i];
        let ok = e.suggestion.is_some() && e.line.is_some() && e.context.is_some() && match e.fix_safety {
            Some(crate::diag::FixSafety::Safe) => true,
            Some(crate::diag::FixSafety::Unsafe) => include_unsafe,
            None => false,
        };
        if ok {
            let ghost before = ref_diags(out@);
            out.push(e);
            assert(ref_diags(out@) =~= before.push(e@));
        }
        i += 1;
    }
    assert(dv.take(v.len() as int) =~= dv);
}

/// The views of a sequence of borrowed diagnostics.
pub open spec fn ref_diags(v: Seq<&LintError>) -> Seq<Diag> {
    Seq::new(v.len(), |i: int| v[i]@)
}

/// Applies the fixable suggestions of a report to a source text (safe ones,
/// and unsafe ones too with `include_unsafe`). Returns the new text and the
/// number of fixes applied.
pub fn apply_fixes(source: &str, report: &LintReport, include_unsafe: bool) -> (r: (String, usize))
    ensures
        (r.0@, r.1 as nat) == fixed_text(source@, *report, include_unsafe),
{
    let mut fixes: Vec<&LintError> = Vec::new();
    collect_fixes(&report.errors, include_unsafe, &mut fixes);
    collect_fixes(&report.warnings, include_unsafe, &mut fixes);
    collect_fixes(&report.infos, include_unsafe, &mut fixes);
    let ghost fv = ref_diags(fixes@);
    assert(fv =~= report_fixes(*report, include_unsafe)) by {
        crate::diag::lemma_diags_concat(report.errors@, report.warnings@);
        lemma_fixable_concat(diags(report.errors@), diags(report.warnings@), include_unsafe);
        lemma_fixable_concat(diags(report.errors@) + diags(report.warnings@), diags(report.infos@), include_unsafe);
    }
    proof {
        lemma_fixable_all(diags(report.errors@) + diags(report.warnings@) + diags(report.infos@), include_unsafe);
    }
    let mut ls = text::split_lines(&chars_of(source));
    let ghost lv0 = vviews(ls@);
    let mut applied: usize = 0;
    let mut i: usize = 0;
    while i < fixes.len()
        invariant
            i <= fixes@.len(),
            fv == ref_diags(fixes@),
            lv0 == lines(source@),
            (vviews(ls@), applied as nat) == apply_all(lv0, fv.take(i as int)),
            applied <= i,
            forall|j: int| 0 <= j < fv.len() ==> fixable(#[trigger] fv[j], include_unsafe),
        decreases fixes.len() - i,
    {
        assert(fv.take(i + 1).drop_last() =~= fv.take(i as int));
        assert(fv.take(i + 1).last() == fixes@[i as int]@);
        let e = fixes[i];
        assert(fixable(e@, include_unsafe));
        let line_no = match e.line {
            Some(l) => l,
            None => 0,
        };
        let ctx = match &e.context {
            Some(c) => chars_of(c.as_str()),
            None => Vec::new(),
        };
        let sug = match &e.suggestion {
            Some(s) => chars_of(s.as_str()),
            None => Vec::new(),
        };
        if 1 <= line_no && line_no <= ls.len() {
            let idx = line_no - 1;
            match text::find_exec(&ls[idx], &ctx) {
                Some(p) => {
                    assert(text::is_first_match(ls@[idx as int]@, ctx@, p as int));
                    assert(p + ctx@.len() <= ls@[idx as int]@.len());
                    let cl = ctx.len();
                    assert(cl == ctx@.len());
                    let ll = ls[idx].len();
                    assert(p + cl <= ll);
                    let end: usize = p + cl;
                    let line = &ls[idx];
                    let head = text::slice_range(line, 0, p);
                    let tail = text::slice_range(line, end, line.len());
                    let new_line = concat(&concat(&head, &sug), &tail);
                    assert(head@ =~= line@.take(p as int));
                    assert(tail@ =~= line@.skip(p + ctx@.len()));
                    let ghost before = vviews(ls@);
                    ls.set(idx, new_line);
                    assert(vviews(ls@) =~= before.update(idx as int, new_line@));
                    applied += 1;
                },
                None => {},
            }
        }
        i += 1;
    }
    assert(fv.take(fixes.len() as int) =~= fv);
    if applied == 0 {
        return (string_of(&chars_of(source)), 0);
    }
    let mut out: Vec<char> = Vec::new();
    let ghost lv = vviews(ls@);
    let mut k: usize = 0;
    while k < ls.len()
        invariant
            k <= ls@.len(),
            lv == vviews(ls@),
            out@ == crate::rules::join_with(lv.take(k as int), "\n"@),
        decreases ls.len() - k,
    {
        assert(lv.take(k + 1).drop_last() =~= lv.take(k as int));
        assert(lv.take(k + 1).last() == ls@[k as int]@);
        if k == 0 {
            out = text::slice_range(&ls[0], 0, ls[0].len());
            assert(out@ =~= crate::rules::join_with(lv.take(1), "\n"@));
        } else {
            out = concat(&concat(&out, &chars_of("\n")), &ls[k]);
            assert(out@ =~= crate::rules::join_with(lv.take(k + 1), "\n"@));
        }
        k += 1;
    }
    assert(lv.take(ls.len() as int) =~= lv);
    if text::ends_with_str(&chars_of(source), "\n") {
        out = concat(&out, &chars_of("\n"));
    } else {
        assert(out@ + Seq::<char>::empty() =~= out@);
    }
    (string_of(&out), applied)
}

/// Every diagnostic that the filter keeps is fixable.
proof fn lemma_fixable_all(s: Seq<Diag>, include_unsafe: bool)
    ensures
        forall|j: int|
            0 <= j < fixable_of(s, include_unsafe).len() ==> fixable(#[trigger] fixable_of(s, include_unsafe)[j], include_unsafe),
    decreases s.len(),
{
    if s.len() > 0 {
        lemma_fixable_all(s.drop_last(), include_unsafe);
        let prev = fixable_of(s.drop_last(), include_unsafe);
        if fixable(s.last(), include_unsafe) {
            assert forall|j: int| 0 <= j < prev.len() + 1 implies fixable(#[trigger] prev.push(s.last())[j], include_unsafe) by {
                if j < prev.len() {
                    assert(prev.push(s.last())[j] == prev[j]);
                }
            }
        }
    }
}

/// Filtering distributes over concatenation.
proof fn lemma_fixable_concat(a: Seq<Diag>, b: Seq<Diag>, include_unsafe: bool)
    ensures
        fixable_of(a + b, include_unsafe) == fixable_of(a, include_unsafe) + fixable_of(b, include_unsafe),
    decreases b.len(),
{
    if b.len() == 0 {
        assert(a + b =~= a);
        assert(fixable_of(b, include_unsafe) =~= Seq::<Diag>::empty());
        assert(fixable_of(a, include_unsafe) + Seq::<Diag>::empty() =~= fixable_of(a, include_unsafe));
    } else {
        assert((a + b).drop_last() =~= a + b.drop_last());
        assert((a + b).last() == b.last());
        lemma_fixable_concat(a, b.drop_last(), include_unsafe);
        if fixable(b.last(), include_unsafe) {
            assert(fixable_of(a, include_unsafe) + fixable_of(b.drop_last(), include_unsafe).push(b.last())
                =~= (fixable_of(a, include_unsafe) + fixable_of(b.drop_last(), include_unsafe)).push(b.last()));
        }
    }
}

// ============================================================================
// Laws
// ============================================================================

/// `# fleet-lint: ignore` with no rule list silences every diagnostic on
/// its line and on the line after it.
pub proof fn law_ignore_all_covers_everything(e: Diag, sups: Map<usize, Seq<Seq<char>>>, l: usize)
    requires
        l >= 1,
        sups.contains_key(l),
        sups[l].len() == 0,
        e.line == Some(l) || (l < usize::MAX && e.line == Some((l + 1) as usize)),
    ensures
        suppressed(e, sups),
{
    if e.line != Some(l) {
        let n = (l + 1) as usize;
        assert(n > 1);
        assert((n - 1) as usize == l);
        assert(covers(sups[l], e));
    }
}

/// A suppression that lists rules silences only diagnostics of those
/// rules: a diagnostic whose rule is not listed on its line or the line
/// before is kept.
pub proof fn law_listed_rules_only(e: Diag, sups: Map<usize, Seq<Seq<char>>>, l: usize)
    requires
        e.line == Some(l),
        sups.contains_key(l) ==> sups[l].len() > 0 && !(e.rule_code matches Some(rc) && sups[l].contains(rc)),
        l > 1 && sups.contains_key((l - 1) as usize) ==> sups[(l - 1) as usize].len() > 0 && !(e.rule_code matches Some(rc)
            && sups[(l - 1) as usize].contains(rc)),
    ensures
        !suppressed(e, sups),
{
}

/// Filtering by suppressions keeps exactly the diagnostics that no
/// suppression covers, in order.
pub proof fn law_unsuppressed_exact(s: Seq<Diag>, sups: Map<usize, Seq<Seq<char>>>)
    ensures
        forall|i: int| 0 <= i < unsuppressed(s, sups).len() ==> !suppressed(#[trigger] unsuppressed(s, sups)[i], sups)
            && s.contains(unsuppressed(s, sups)[i]),
        forall|i: int| 0 <= i < s.len() && !suppressed(#[trigger] s[i], sups) ==> unsuppressed(s, sups).contains(s[i]),
    decreases s.len(),
{
    if s.len() > 0 {
        let p = s.drop_last();
        law_unsuppressed_exact(p, sups);
        let u = unsuppressed(p, sups);
        assert forall|i: int| 0 <= i < unsuppressed(s, sups).len() implies !suppressed(
            #[trigger] unsuppressed(s, sups)[i],
            sups,
        ) && s.contains(unsuppressed(s, sups)[i]) by {
            if i < u.len() {
                assert(unsuppressed(s, sups)[i] == u[i]);
                let j = choose|j: int| 0 <= j < p.len() && p[j] == u[i];
                assert(s[j] == p[j]);
            } else {
                assert(s[s.len() - 1] == s.last());
            }
        }
        assert forall|i: int| 0 <= i < s.len() && !suppressed(#[trigger] s[i], sups) implies unsuppressed(
            s,
            sups,
        ).contains(s[i]) by {
            if i < p.len() {
                assert(p[i] == s[i]);
                let j = choose|j: int| 0 <= j < u.len() && u[j] == p[i];
                if !suppressed(s.last(), sups) {
                    assert(u.push(s.last())[j] == u[j]);
                }
            } else {
                assert(s[i] == s.last());
                assert(u.push(s.last())[u.len() as int] == s.last());
            }
        }
    }
}

/// Every diagnostic that the rules contribute to a report names its rule,
/// and a rule whose errors the settings demote never contributes an error.
pub proof fn law_rule_output_tagged(
    rules: Seq<BuiltinRule>,
    settings: Option<FleetLintConfig>,
    config: FleetConfig,
    file: Seq<char>,
    source: Seq<char>,
)
    ensures
        forall|i: int|
            0 <= i < rules_output(rules, settings, config, file, source).len() ==> (#[trigger] rules_output(
                rules,
                settings,
                config,
                file,
                source,
            )[i]).rule_code is Some,
    decreases rules.len(),
{
    if rules.len() > 0 {
        law_rule_output_tagged(rules.drop_last(), settings, config, file, source);
        let a = rules_output(rules.drop_last(), settings, config, file, source);
        let b = rule_output(rules.last(), settings, config, file, source);
        assert forall|i: int| 0 <= i < (a + b).len() implies (#[trigger] (a + b)[i]).rule_code is Some by {
            if i >= a.len() {
                assert((a + b)[i] == b[i - a.len()]);
            }
        }
    }
}

/// A rule whose errors the settings demote contributes no errors, and a
/// rule the settings turn off contributes nothing.
pub proof fn law_rule_settings(
    r: BuiltinRule,
    settings: Option<FleetLintConfig>,
    config: FleetConfig,
    file: Seq<char>,
    source: Seq<char>,
)
    ensures
        rule_disabled(settings, builtin_name(r)) ==> rule_output(r, settings, config, file, source).len() == 0,
        rule_warns(settings, builtin_name(r)) ==> forall|i: int|
            0 <= i < rule_output(r, settings, config, file, source).len() ==> (#[trigger] rule_output(
                r,
                settings,
                config,
                file,
                source,
            )[i]).severity != Severity::Error,
{
}

/// Software, agent-options and non-YAML files get the hygiene checks only.
pub proof fn law_skipped_files_hygiene_only(
    rules: Seq<BuiltinRule>,
    settings: Option<FleetLintConfig>,
    file: Seq<char>,
    content: Seq<char>,
    parsed: Option<FleetConfig>,
)
    requires
        file_type_of(file) == FileType::Software || file_type_of(file) == FileType::AgentOptions || file_type_of(file)
            == FileType::NonYaml,
    ensures
        lint_diags(rules, settings, file, content, parsed) == hygiene_diags(content, file),
{
}

/// Applying fixes keeps the number of lines and applies each fix at most
/// once.
pub proof fn law_fixes_bounded(ls: Seq<Seq<char>>, fixes: Seq<Diag>)
    ensures
        apply_all(ls, fixes).0.len() == ls.len(),
        apply_all(ls, fixes).1 <= fixes.len(),
    decreases fixes.len(),
{
    if fixes.len() > 0 {
        law_fixes_bounded(ls, fixes.drop_last());
    }
}

} // verus!
