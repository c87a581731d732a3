//! Completion for Fleet GitOps YAML: where the cursor is in the document,
//! and which keys, values, snippets or osquery tables to suggest there.
use vstd::prelude::*;

use crate::engine::{file_name, file_name_exec};
use crate::hover::{
    Position, doc_found, doc_markdown, doc_markdown_exec, in_query_above, indent_exec, indent_of, line_at,
    line_at_exec,
};
use crate::osquery;
use crate::rules::{join_comma, join_with};
use crate::schema::{logging_doc_table, platform_doc_table};
use crate::text;
use crate::text::{byte_len, chars_of, concat, lines, string_of, string_views, strs, trim, vviews};

verus! {

broadcast use vstd::string::group_string_axioms;

// ============================================================================
// Contexts
// ============================================================================

/// The kind of file a `path:` value should name.
#[derive(Debug, Clone, Copy, PartialEq, Eq, Structural)]
pub enum PathContextType {
    /// Software package definitions (`*.yml`)
    SoftwarePackage,
    /// Scripts (`*.sh`, `*.ps1`, ...)
    Script,
    /// macOS profiles (`*.mobileconfig`, `*.plist`)
    MacOSProfile,
    /// Windows profiles (`*.xml`)
    WindowsProfile,
    /// Policy definitions (`*.yml`)
    Policy,
    /// Query definitions (`*.yml`)
    Query,
    /// Label definitions (`*.yml`)
    Label,
    /// Any file
    Generic,
}

/// Where the cursor is, as far as completion is concerned.
#[derive(Debug, Clone, PartialEq, Eq)]
pub enum CompletionContext {
    TopLevel,
    PolicyField,
    QueryField,
    LabelField,
    CriteriaField,
    SoftwareSection,
    SoftwarePackageField,
    AppStoreAppField,
    FleetMaintainedAppField,
    ControlsSection,
    MacOSCustomSettingField,
    WindowsCustomSettingField,
    DeviceSettingsSection,
    ConfigurationProfileField,
    SetupExperienceField,
    ScriptField,
    TeamSettingsSection,
    OrgSettingsSection,
    OrgFleetDesktopSection,
    OrgServerSettingsSection,
    OrgSsoSettingsSection,
    OrgInfoSection,
    AgentOptionsSection,
    PlatformValue,
    LoggingValue,
    BooleanValue,
    PathValue { context_type: PathContextType },
    SlugValue,
    GlobValue { parent_context: String },
    LabelValue,
    CategoryValue,
    SqlContext { platform: Option<String> },
    Unknown,
}

/// The content of a `CompletionContext`.
pub enum ContextView {
    TopLevel,
    PolicyField,
    QueryField,
    LabelField,
    CriteriaField,
    SoftwareSection,
    SoftwarePackageField,
    AppStoreAppField,
    FleetMaintainedAppField,
    ControlsSection,
    MacOSCustomSettingField,
    WindowsCustomSettingField,
    DeviceSettingsSection,
    ConfigurationProfileField,
    SetupExperienceField,
    ScriptField,
    TeamSettingsSection,
    OrgSettingsSection,
    OrgFleetDesktopSection,
    OrgServerSettingsSection,
    OrgSsoSettingsSection,
    OrgInfoSection,
    AgentOptionsSection,
    PlatformValue,
    LoggingValue,
    BooleanValue,
    PathValue { context_type: PathContextType },
    SlugValue,
    GlobValue { parent_context: Seq<char> },
    LabelValue,
    CategoryValue,
    SqlContext { platform: Option<Seq<char>> },
    Unknown,
}

impl View for CompletionContext {
    type V = ContextView;

    open spec fn view(&self) -> ContextView {
        match self {
            CompletionContext::TopLevel => ContextView::TopLevel,
            CompletionContext::PolicyField => ContextView::PolicyField,
            CompletionContext::QueryField => ContextView::QueryField,
            CompletionContext::LabelField => ContextView::LabelField,
            CompletionContext::CriteriaField => ContextView::CriteriaField,
            CompletionContext::SoftwareSection => ContextView::SoftwareSection,
            CompletionContext::SoftwarePackageField => ContextView::SoftwarePackageField,
            CompletionContext::AppStoreAppField => ContextView::AppStoreAppField,
            CompletionContext::FleetMaintainedAppField => ContextView::FleetMaintainedAppField,
            CompletionContext::ControlsSection => ContextView::ControlsSection,
            CompletionContext::MacOSCustomSettingField => ContextView::MacOSCustomSettingField,
            CompletionContext::WindowsCustomSettingField => ContextView::WindowsCustomSettingField,
            CompletionContext::DeviceSettingsSection => ContextView::DeviceSettingsSection,
            CompletionContext::ConfigurationProfileField => ContextView::ConfigurationProfileField,
            CompletionContext::SetupExperienceField => ContextView::SetupExperienceField,
            CompletionContext::ScriptField => ContextView::ScriptField,
            CompletionContext::TeamSettingsSection => ContextView::TeamSettingsSection,
            CompletionContext::OrgSettingsSection => ContextView::OrgSettingsSection,
            CompletionContext::OrgFleetDesktopSection => ContextView::OrgFleetDesktopSection,
            CompletionContext::OrgServerSettingsSection => ContextView::OrgServerSettingsSection,
            CompletionContext::OrgSsoSettingsSection => ContextView::OrgSsoSettingsSection,
            CompletionContext::OrgInfoSection => ContextView::OrgInfoSection,
            CompletionContext::AgentOptionsSection => ContextView::AgentOptionsSection,
            CompletionContext::PlatformValue => ContextView::PlatformValue,
            CompletionContext::LoggingValue => ContextView::LoggingValue,
            CompletionContext::BooleanValue => ContextView::BooleanValue,
            CompletionContext::PathValue { context_type } => ContextView::PathValue { context_type: *context_type },
            CompletionContext::SlugValue => ContextView::SlugValue,
            CompletionContext::GlobValue { parent_context } => ContextView::GlobValue {
                parent_context: parent_context@,
            },
            CompletionContext::LabelValue => ContextView::LabelValue,
            CompletionContext::CategoryValue => ContextView::CategoryValue,
            CompletionContext::SqlContext { platform } => ContextView::SqlContext {
                platform: match platform {
                    Some(p) => Some(p@),
                    None => None,
                },
            },
            CompletionContext::Unknown => ContextView::Unknown,
        }
    }
}

// ============================================================================
// Reading the line and the lines above
// ============================================================================

/// The text before the first colon (all of it when there is none).
pub open spec fn before_colon(t: Seq<char>) -> Seq<char> {
    match text::find_char(t, ':') {
        Some(q) => t.take(q),
        None => t,
    }
}

fn before_colon_exec(t: &[char]) -> (r: Vec<char>)
    ensures
        r@ == before_colon(t@),
{
    match text::find_char_exec(t, ':') {
        Some(q) => {
            let r = text::slice_range(t, 0, q);
            assert(r@ =~= t@.take(q as int));
            r
        },
        None => text::slice_range(t, 0, t.len()),
    }
}

/// The key whose value the cursor is in: when the cursor (a byte column)
/// is past the line's first colon, the text before the colon with list
/// dashes and whitespace removed.
pub open spec fn key_at_cursor(line: Seq<char>, col: int) -> Option<Seq<char>> {
    match text::find_char(line, ':') {
        Some(p) => if col > byte_len(line.take(p)) {
            Some(trim(before_colon(trim(text::trim_start_char(trim(line), '-')))))
        } else {
            None
        },
        None => None,
    }
}

/// The key whose value the cursor is in, if it is after a colon.
pub fn get_key_at_cursor(line: &str, col_idx: usize) -> (r: Option<String>)
    requires
        text::source_fits(line@),
    ensures
        match r {
            Some(k) => key_at_cursor(line@, col_idx as int) == Some(k@),
            None => key_at_cursor(line@, col_idx as int) is None,
        },
{
    let lc = chars_of(line);
    match text::find_char_exec(&lc, ':') {
        Some(p) => {
            let head = text::slice_range(&lc, 0, p);
            assert(head@ =~= line@.take(p as int));
            proof {
                text::lemma_byte_len_take(line@, p as int);
            }
            if col_idx > text::byte_len_exec(&head) {
                let t = text::trim_vec(&text::trim_start_char_vec(&text::trim_vec(&lc), '-'));
                let k = text::trim_vec(&before_colon_exec(&t));
                Some(string_of(&k))
            } else {
                None
            }
        },
        None => None,
    }
}

/// The trimmed current line starts an SQL clause.
pub open spec fn sql_line(t: Seq<char>) -> bool {
    text::starts_with(t, "SELECT"@) || text::starts_with(t, "FROM"@) || text::starts_with(t, "WHERE"@)
        || text::starts_with(t, "JOIN"@)
}

/// The cursor is in SQL: the line starts a clause, or it lies below a
/// multi-line `query:` that no other key closes.
pub open spec fn completion_sql_context(source: Seq<char>, line_idx: int, line: Seq<char>) -> bool {
    sql_line(trim(line)) || in_query_above(lines(source), line_idx - 1, indent_of(line))
}

/// Whether the cursor is inside an SQL query.
pub fn is_in_sql_context(source: &str, line_idx: usize, current_line: &str) -> (r: bool)
    requires
        text::source_fits(source@),
        text::source_fits(current_line@),
    ensures
        r == completion_sql_context(source@, line_idx as int, current_line@),
{
    let cur = chars_of(current_line);
    let t = text::trim_vec(&cur);
    if text::starts_with_str(&t, "SELECT") || text::starts_with_str(&t, "FROM") || text::starts_with_str(&t, "WHERE")
        || text::starts_with_str(&t, "JOIN") {
        return true;
    }
    let ls = text::split_lines(&chars_of(source));
    let ghost lv = vviews(ls@);
    proof {
        text::lemma_lines_bytes(source@);
    }
    let ci = indent_exec(&cur);
    let mut i: usize = line_idx;
    while i > 0
        invariant
            i <= line_idx,
            lv == vviews(ls@),
            lv == lines(source@),
            forall|j: int| 0 <= j < lv.len() ==> byte_len(#[trigger] lv[j]) <= byte_len(source@),
            text::source_fits(source@),
            ci as nat == indent_of(current_line@),
            !sql_line(trim(current_line@)),
            in_query_above(lv, line_idx - 1, ci as nat) == in_query_above(lv, i - 1, ci as nat),
        decreases i,
    {
        let line = line_at_exec(&ls, i - 1);
        assert(byte_len(line@) <= usize::MAX) by {
            if 0 <= i - 1 < lv.len() {
                assert(byte_len(lv[i - 1]) <= byte_len(source@));
            }
        }
        let tt = text::trim_vec(&line);
        if text::starts_with_str(&tt, "query:") && text::has_char_exec(&tt, '|') {
            return true;
        }
        if text::ends_with_str(&tt, ":") && !text::starts_with_str(&tt, "-") && !text::starts_with_str(&tt, "query:") {
            if indent_exec(&line) <= ci {
                return false;
            }
        }
        i -= 1;
    }
    false
}

/// The `platform:` value that applies at line `i` (walking up from it): the
/// first `platform:` at most as indented as the cursor line, unless a less
/// indented `- name:` item start comes first.
pub open spec fn platform_above(ls: Seq<Seq<char>>, i: int, cur: nat) -> Option<Seq<char>>
    decreases i + 1,
{
    if i < 0 {
        None
    } else {
        let line = line_at(ls, i);
        let t = trim(text::trim_start_char(trim(line), '-'));
        if text::starts_with(t, "platform:"@) && indent_of(line) <= cur {
            Some(trim(t.skip(9)))
        } else if text::starts_with(trim(line), "- name:"@) && indent_of(line) < cur {
            None
        } else {
            platform_above(ls, i - 1, cur)
        }
    }
}

/// The platform that osquery table suggestions are filtered by.
pub fn find_platform_in_context(source: &str, line_idx: usize) -> (r: Option<String>)
    requires
        text::source_fits(source@),
    ensures
        ({
            let ls = lines(source@);
            let got = platform_above(ls, line_idx as int, indent_of(line_at(ls, line_idx as int)));
            match r {
                Some(p) => got == Some(p@),
                None => got is None,
            }
        }),
{
    let ls = text::split_lines(&chars_of(source));
    let ghost lv = vviews(ls@);
    proof {
        text::lemma_lines_bytes(source@);
    }
    let cur_line = line_at_exec(&ls, line_idx);
    assert(byte_len(cur_line@) <= usize::MAX) by {
        if 0 <= line_idx < lv.len() {
            assert(byte_len(lv[line_idx as int]) <= byte_len(source@));
        }
    }
    let cur = indent_exec(&cur_line);
    let mut i: usize = line_idx;
    loop
        invariant_except_break
            i <= line_idx,
            lv == vviews(ls@),
            lv == lines(source@),
            forall|j: int| 0 <= j < lv.len() ==> byte_len(#[trigger] lv[j]) <= byte_len(source@),
            text::source_fits(source@),
            platform_above(lv, line_idx as int, cur as nat) == platform_above(lv, i as int, cur as nat),
            cur as nat == indent_of(line_at(lv, line_idx as int)),
        ensures
            cur as nat == indent_of(line_at(lv, line_idx as int)),
            lv == lines(source@),
            platform_above(lv, line_idx as int, cur as nat) is None,
        decreases i,
    {
        let line = line_at_exec(&ls, i);
        assert(byte_len(line@) <= usize::MAX) by {
            if 0 <= i < lv.len() {
                assert(byte_len(lv[i as int]) <= byte_len(source@));
            }
        }
        let t = text::trim_vec(&text::trim_start_char_vec(&text::trim_vec(&line), '-'));
        let ind = indent_exec(&line);
        if text::starts_with_str(&t, "platform:") && ind <= cur {
            proof {
                reveal_strlit("platform:");
            }
            let rest = text::slice_range(&t, 9, t.len());
            assert(rest@ =~= t@.skip(9));
            let v = text::trim_vec(&rest);
            return Some(string_of(&v));
        }
        if text::starts_with_str(&text::trim_vec(&line), "- name:") && ind < cur {
            break;
        }
        if i == 0 {
            assert(platform_above(lv, -1, cur as nat) is None);
            break;
        }
        i -= 1;
    }
    None
}

/// The key of a line that encloses the cursor line, as a candidate parent:
/// `key:` lines give `key`, and `key: value` lines (not list items) give
/// `key` when it is not empty.
pub open spec fn parent_key_of(t: Seq<char>) -> Option<Seq<char>> {
    if text::ends_with(t, ":"@) {
        Some(t.drop_last())
    } else if text::has_char(t, ':') && !text::starts_with(t, "-"@) && trim(before_colon(t)).len() > 0 {
        Some(trim(before_colon(t)))
    } else {
        None
    }
}

/// The candidate parents of a line of indentation `cur`, from line `i`
/// upwards (nearest first), stopping after the first unindented line.
pub open spec fn parent_candidates(ls: Seq<Seq<char>>, i: int, cur: nat) -> Seq<(nat, Seq<char>)>
    decreases i + 1,
{
    if i < 0 {
        Seq::empty()
    } else {
        let line = line_at(ls, i);
        let t = trim(line);
        let n = indent_of(line);
        if t.len() == 0 || text::starts_with(t, "#"@) {
            parent_candidates(ls, i - 1, cur)
        } else {
            let here = if n < cur && parent_key_of(t) is Some {
                seq![(n, parent_key_of(t).unwrap())]
            } else {
                Seq::empty()
            };
            if n == 0 {
                here
            } else {
                here + parent_candidates(ls, i - 1, cur)
            }
        }
    }
}

/// The keys of candidates taken root first, keeping each one only when it
/// is more indented than the last one kept.
pub open spec fn nested_keys(cands: Seq<(nat, Seq<char>)>, last: int) -> Seq<Seq<char>>
    decreases cands.len(),
{
    if cands.len() == 0 {
        Seq::empty()
    } else if cands[0].0 > last {
        seq![cands[0].1] + nested_keys(cands.drop_first(), cands[0].0 as int)
    } else {
        nested_keys(cands.drop_first(), last)
    }
}

/// The dotted path of the sections enclosing line `line_idx`, if any.
pub open spec fn parent_context(source: Seq<char>, line_idx: int) -> Option<Seq<char>> {
    let ls = lines(source);
    let cands = parent_candidates(ls, line_idx - 1, indent_of(line_at(ls, line_idx)));
    let keys = nested_keys(cands.reverse(), -1);
    if keys.len() == 0 {
        None
    } else {
        Some(join_with(keys, "."@))
    }
}

fn parent_key_of_exec(t: &[char]) -> (r: Option<Vec<char>>)
    ensures
        match r {
            Some(k) => parent_key_of(t@) == Some(k@),
            None => parent_key_of(t@) is None,
        },
{
    if text::ends_with_str(t, ":") {
        proof {
            reveal_strlit(":");
        }
        let k = text::slice_range(t, 0, t.len() - 1);
        assert(k@ =~= t@.drop_last());
        return Some(k);
    }
    if text::has_char_exec(t, ':') && !text::starts_with_str(t, "-") {
        let k = text::trim_vec(&before_colon_exec(t));
        if k.len() > 0 {
            return Some(k);
        }
    }
    None
}

/// Joins character sequences with `.`.
fn join_dot(parts: &Vec<Vec<char>>) -> (r: Vec<char>)
    ensures
        r@ == join_with(vviews(parts@), "."@),
{
    let ghost ps = vviews(parts@);
    let mut r: Vec<char> = Vec::new();
    let mut i: usize = 0;
    while i < parts.len()
        invariant
            i <= parts.len(),
            ps == vviews(parts@),
            r@ == join_with(ps.take(i as int), "."@),
        decreases parts.len() - i,
    {
        assert(ps.take(i + 1).drop_last() =~= ps.take(i as int));
        assert(ps.take(i + 1).last() == parts@[i as int]@);
        if i == 0 {
            r = text::slice_range(&parts[0], 0, parts[0].len());
            assert(r@ =~= join_with(ps.take(1), "."@));
        } else {
            r = concat(&r, &chars_of("."));
            r = concat(&r, &parts[i]);
            assert(r@ =~= join_with(ps.take(i + 1), "."@));
        }
        i += 1;
    }
    assert(ps.take(parts.len() as int) =~= ps);
    r
}

/// The views of candidate pairs.
pub open spec fn cand_views(v: Seq<(usize, Vec<char>)>) -> Seq<(nat, Seq<char>)> {
    Seq::new(v.len(), |i: int| (v[i].0 as nat, v[i].1@))
}

/// The dotted path of the sections enclosing a line (`software.packages`).
pub fn find_parent_context(source: &str, line_idx: usize) -> (r: Option<String>)
    requires
        text::source_fits(source@),
    ensures
        match r {
            Some(p) => parent_context(source@, line_idx as int) == Some(p@),
            None => parent_context(source@, line_idx as int) is None,
        },
{
    let ls = text::split_lines(&chars_of(source));
    let ghost lv = vviews(ls@);
    proof {
        text::lemma_lines_bytes(source@);
    }
    let cur_line = line_at_exec(&ls, line_idx);
    assert(byte_len(cur_line@) <= usize::MAX) by {
        if 0 <= line_idx < lv.len() {
            assert(byte_len(lv[line_idx as int]) <= byte_len(source@));
        }
    }
    let cur = indent_exec(&cur_line);
    let ghost all = parent_candidates(lv, line_idx - 1, cur as nat);
    let mut found: Vec<(usize, Vec<char>)> = Vec::new();
    let mut i: usize = line_idx;
    let mut stop = false;
    while i > 0 && !stop
        invariant
            i <= line_idx,
            lv == vviews(ls@),
            lv == lines(source@),
            forall|j: int| 0 <= j < lv.len() ==> byte_len(#[trigger] lv[j]) <= byte_len(source@),
            text::source_fits(source@),
            stop ==> all == cand_views(found@),
            !stop ==> all == cand_views(found@) + parent_candidates(lv, i - 1, cur as nat),
        decreases i,
    {
        let line = line_at_exec(&ls, i - 1);
        assert(byte_len(line@) <= usize::MAX) by {
            if 0 <= i - 1 < lv.len() {
                assert(byte_len(lv[i - 1]) <= byte_len(source@));
            }
        }
        let t = text::trim_vec(&line);
        let n = indent_exec(&line);
        let ghost before = cand_views(found@);
        if !(t.len() == 0 || text::starts_with_str(&t, "#")) {
            if n < cur {
                match parent_key_of_exec(&t) {
                    Some(k) => {
                        found.push((n, k));
                        assert(cand_views(found@) =~= before + seq![(n as nat, parent_key_of(t@).unwrap())]);
                    },
                    None => {},
                }
            }
            assert(cand_views(found@) =~= before + (if n < cur && parent_key_of(t@) is Some {
                seq![(n as nat, parent_key_of(t@).unwrap())]
            } else {
                Seq::empty()
            }));
            if n == 0 {
                stop = true;
            }
        }
        i -= 1;
    }
    proof {
        if !stop {
            assert(parent_candidates(lv, -1, cur as nat) =~= Seq::<(nat, Seq<char>)>::empty());
            assert(all =~= cand_views(found@));
        }
    }
    // Root first, each kept only when more indented than the last kept.
    let ghost rev = all.reverse();
    let mut parts: Vec<Vec<char>> = Vec::new();
    let mut last: Option<usize> = None;
    let mut j: usize = found.len();
    assert(rev.skip(0) =~= rev);
    assert(vviews(parts@) + nested_keys(rev, -1) =~= nested_keys(rev, -1));
    while j > 0
        invariant
            j <= found.len(),
            all == cand_views(found@),
            rev == all.reverse(),
            nested_keys(rev, -1) == vviews(parts@) + nested_keys(rev.skip((found.len() - j) as int), match last { Some(l) => l as int, None => -1 }),
        decreases j,
    {
        let ghost k0 = (found.len() - j) as int;
        assert(rev.skip(k0)[0] == (found@[j - 1].0 as nat, found@[j - 1].1@));
        assert(rev.skip(k0).drop_first() =~= rev.skip(k0 + 1));
        let n = found[j - 1].0;
        let keep = match last {
            None => true,
            Some(l) => n > l,
        };
        if keep {
            let ghost before = vviews(parts@);
            let item = text::slice_range(&found[j - 1].1, 0, found[j - 1].1.len());
            assert(item@ =~= found@[j - 1].1@);
            parts.push(item);
            assert(vviews(parts@) =~= before + seq![item@]);
            last = Some(n);
        }
        j -= 1;
    }
    assert(rev.skip(found.len() as int) =~= Seq::<(nat, Seq<char>)>::empty());
    if parts.len() == 0 {
        None
    } else {
        Some(string_of(&join_dot(&parts)))
    }
}

/// The key of the nearest less indented line above, the list the cursor
/// is in (the search stops at that line whatever it holds).
pub open spec fn immediate_parent(ls: Seq<Seq<char>>, i: int, cur: nat) -> Option<Seq<char>>
    decreases i + 1,
{
    if i < 0 {
        None
    } else {
        let line = line_at(ls, i);
        let t = trim(line);
        if t.len() == 0 || text::starts_with(t, "#"@) || indent_of(line) >= cur {
            immediate_parent(ls, i - 1, cur)
        } else {
            match text::find_char(t, ':') {
                Some(p) => {
                    let k = trim(text::trim_start_char(trim(t.take(p)), '-'));
                    if k.len() > 0 {
                        Some(k)
                    } else {
                        None
                    }
                },
                None => None,
            }
        }
    }
}

/// The key of the list the cursor line is an item of.
pub fn find_immediate_parent_key(source: &str, line_idx: usize, current_line: &str) -> (r: Option<String>)
    requires
        text::source_fits(source@),
        text::source_fits(current_line@),
    ensures
        ({
            let got = immediate_parent(lines(source@), line_idx - 1, indent_of(current_line@));
            match r {
                Some(k) => got == Some(k@),
                None => got is None,
            }
        }),
{
    let cur_line = chars_of(current_line);
    let cur = indent_exec(&cur_line);
    let ls = text::split_lines(&chars_of(source));
    let ghost lv = vviews(ls@);
    proof {
        text::lemma_lines_bytes(source@);
    }
    let mut i: usize = line_idx;
    while i > 0
        invariant
            i <= line_idx,
            lv == vviews(ls@),
            lv == lines(source@),
            forall|j: int| 0 <= j < lv.len() ==> byte_len(#[trigger] lv[j]) <= byte_len(source@),
            text::source_fits(source@),
            cur as nat == indent_of(current_line@),
            immediate_parent(lv, line_idx - 1, cur as nat) == immediate_parent(lv, i - 1, cur as nat),
        decreases i,
    {
        let line = line_at_exec(&ls, i - 1);
        assert(byte_len(line@) <= usize::MAX) by {
            if 0 <= i - 1 < lv.len() {
                assert(byte_len(lv[i - 1]) <= byte_len(source@));
            }
        }
        let t = text::trim_vec(&line);
        if !(t.len() == 0 || text::starts_with_str(&t, "#")) && indent_exec(&line) < cur {
            match text::find_char_exec(&t, ':') {
                Some(p) => {
                    let head = text::slice_range(&t, 0, p);
                    assert(head@ =~= t@.take(p as int));
                    let k = text::trim_vec(&text::trim_start_char_vec(&text::trim_vec(&head), '-'));
                    if k.len() > 0 {
                        return Some(string_of(&k));
                    }
                    return None;
                },
                None => {
                    return None;
                },
            }
        }
        i -= 1;
    }
    None
}

/// The completion context that a section path stands for.
pub open spec fn path_context(path: Option<Seq<char>>) -> ContextView {
    match path {
        None => ContextView::Unknown,
        Some(p) => if p == "policies"@ || text::ends_with(p, ".policies"@) {
            ContextView::PolicyField
        } else if p == "queries"@ || text::ends_with(p, ".queries"@) {
            ContextView::QueryField
        } else if p == "labels.criteria"@ || text::ends_with(p, ".criteria"@) {
            ContextView::CriteriaField
        } else if p == "labels"@ || text::ends_with(p, ".labels"@) {
            ContextView::LabelField
        } else if p == "software"@ {
            ContextView::SoftwareSection
        } else if p == "software.packages"@ || text::ends_with(p, ".packages"@) {
            ContextView::SoftwarePackageField
        } else if text::contains(p, "app_store_apps"@) {
            ContextView::AppStoreAppField
        } else if text::contains(p, "fleet_maintained_apps"@) {
            ContextView::FleetMaintainedAppField
        } else if p == "controls"@ {
            ContextView::ControlsSection
        } else if text::contains(p, "macos_settings.custom_settings"@) {
            ContextView::MacOSCustomSettingField
        } else if text::contains(p, "windows_settings.custom_settings"@) {
            ContextView::WindowsCustomSettingField
        } else if text::contains(p, "configuration_profiles"@) {
            ContextView::ConfigurationProfileField
        } else if text::contains(p, "apple_settings"@) || text::contains(p, "windows_settings"@) || text::contains(
            p,
            "android_settings"@,
        ) || text::contains(p, "macos_settings"@) {
            if !text::contains(p, "custom_settings"@) && !text::contains(p, "configuration_profiles"@) {
                ContextView::DeviceSettingsSection
            } else {
                ContextView::Unknown
            }
        } else if text::contains(p, "setup_experience"@) || text::contains(p, "macos_setup"@) {
            ContextView::SetupExperienceField
        } else if text::contains(p, "controls.scripts"@) {
            ContextView::ScriptField
        } else if text::starts_with(p, "team_settings"@) || text::starts_with(p, "settings"@) {
            ContextView::TeamSettingsSection
        } else if p == "reports"@ || text::ends_with(p, ".reports"@) {
            ContextView::QueryField
        } else if p == "org_settings"@ {
            ContextView::OrgSettingsSection
        } else if p == "org_settings.fleet_desktop"@ {
            ContextView::OrgFleetDesktopSection
        } else if p == "org_settings.server_settings"@ {
            ContextView::OrgServerSettingsSection
        } else if p == "org_settings.sso_settings"@ {
            ContextView::OrgSsoSettingsSection
        } else if p == "org_settings.org_info"@ {
            ContextView::OrgInfoSection
        } else if text::starts_with(p, "org_settings"@) {
            ContextView::OrgSettingsSection
        } else if text::starts_with(p, "agent_options"@) {
            ContextView::AgentOptionsSection
        } else {
            ContextView::Unknown
        },
    }
}

/// `p` is `name` or ends with `.name`.
fn is_or_ends(p: &[char], name: &str, dotted: &str) -> (r: bool)
    ensures
        r == (p@ == name@ || text::ends_with(p@, dotted@)),
{
    text::eq_str(p, name) || text::ends_with_str(p, dotted)
}

/// The completion context that a section path stands for.
pub fn context_path_to_completion_context(path: Option<&str>) -> (r: CompletionContext)
    ensures
        r@ == path_context(
            match path {
                Some(p) => Some(p@),
                None => None,
            },
        ),
{
    let p = match path {
        None => {
            return CompletionContext::Unknown;
        },
        Some(p) => chars_of(p),
    };
    if is_or_ends(&p, "policies", ".policies") {
        CompletionContext::PolicyField
    } else if is_or_ends(&p, "queries", ".queries") {
        CompletionContext::QueryField
    } else if is_or_ends(&p, "labels.criteria", ".criteria") {
        CompletionContext::CriteriaField
    } else if is_or_ends(&p, "labels", ".labels") {
        CompletionContext::LabelField
    } else if text::eq_str(&p, "software") {
        CompletionContext::SoftwareSection
    } else if is_or_ends(&p, "software.packages", ".packages") {
        CompletionContext::SoftwarePackageField
    } else if text::contains_str(&p, "app_store_apps") {
        CompletionContext::AppStoreAppField
    } else if text::contains_str(&p, "fleet_maintained_apps") {
        CompletionContext::FleetMaintainedAppField
    } else if text::eq_str(&p, "controls") {
        CompletionContext::ControlsSection
    } else if text::contains_str(&p, "macos_settings.custom_settings") {
        CompletionContext::MacOSCustomSettingField
    } else if text::contains_str(&p, "windows_settings.custom_settings") {
        CompletionContext::WindowsCustomSettingField
    } else if text::contains_str(&p, "configuration_profiles") {
        CompletionContext::ConfigurationProfileField
    } else if text::contains_str(&p, "apple_settings") || text::contains_str(&p, "windows_settings")
        || text::contains_str(&p, "android_settings") || text::contains_str(&p, "macos_settings") {
        if !text::contains_str(&p, "custom_settings") && !text::contains_str(&p, "configuration_profiles") {
            CompletionContext::DeviceSettingsSection
        } else {
            CompletionContext::Unknown
        }
    } else if text::contains_str(&p, "setup_experience") || text::contains_str(&p, "macos_setup") {
        CompletionContext::SetupExperienceField
    } else if text::contains_str(&p, "controls.scripts") {
        CompletionContext::ScriptField
    } else if text::starts_with_str(&p, "team_settings") || text::starts_with_str(&p, "settings") {
        CompletionContext::TeamSettingsSection
    } else if is_or_ends(&p, "reports", ".reports") {
        CompletionContext::QueryField
    } else if text::eq_str(&p, "org_settings") {
        CompletionContext::OrgSettingsSection
    } else if text::eq_str(&p, "org_settings.fleet_desktop") {
        CompletionContext::OrgFleetDesktopSection
    } else if text::eq_str(&p, "org_settings.server_settings") {
        CompletionContext::OrgServerSettingsSection
    } else if text::eq_str(&p, "org_settings.sso_settings") {
        CompletionContext::OrgSsoSettingsSection
    } else if text::eq_str(&p, "org_settings.org_info") {
        CompletionContext::OrgInfoSection
    } else if text::starts_with_str(&p, "org_settings") {
        CompletionContext::OrgSettingsSection
    } else if text::starts_with_str(&p, "agent_options") {
        CompletionContext::AgentOptionsSection
    } else {
        CompletionContext::Unknown
    }
}

/// The kind of file a `path:` under the given sections should name.
pub open spec fn path_type_for(parent: Option<Seq<char>>) -> PathContextType {
    match parent {
        None => PathContextType::Generic,
        Some(p) => if text::contains(p, "software.packages"@) || text::contains(p, "fleet_maintained_apps"@) {
            PathContextType::SoftwarePackage
        } else if text::contains(p, "scripts"@) {
            PathContextType::Script
        } else if text::contains(p, "macos_settings"@) || text::contains(p, "apple_settings"@) {
            PathContextType::MacOSProfile
        } else if text::contains(p, "windows_settings"@) {
            PathContextType::WindowsProfile
        } else if text::contains(p, "android_settings"@) {
            PathContextType::Generic
        } else if p == "policies"@ || text::ends_with(p, ".policies"@) {
            PathContextType::Policy
        } else if p == "queries"@ || text::ends_with(p, ".queries"@) || p == "reports"@ || text::ends_with(
            p,
            ".reports"@,
        ) {
            PathContextType::Query
        } else if p == "labels"@ || text::ends_with(p, ".labels"@) {
            PathContextType::Label
        } else {
            PathContextType::Generic
        },
    }
}

fn path_type_exec(parent: &Option<String>) -> (r: PathContextType)
    ensures
        r == path_type_for(
            match parent {
                Some(p) => Some(p@),
                None => None,
            },
        ),
{
    match parent {
        None => PathContextType::Generic,
        Some(ps) => {
            let p = chars_of(ps.as_str());
            if text::contains_str(&p, "software.packages") || text::contains_str(&p, "fleet_maintained_apps") {
                PathContextType::SoftwarePackage
            } else if text::contains_str(&p, "scripts") {
                PathContextType::Script
            } else if text::contains_str(&p, "macos_settings") || text::contains_str(&p, "apple_settings") {
                PathContextType::MacOSProfile
            } else if text::contains_str(&p, "windows_settings") {
                PathContextType::WindowsProfile
            } else if text::contains_str(&p, "android_settings") {
                PathContextType::Generic
            } else if is_or_ends(&p, "policies", ".policies") {
                PathContextType::Policy
            } else if is_or_ends(&p, "queries", ".queries") || is_or_ends(&p, "reports", ".reports") {
                PathContextType::Query
            } else if is_or_ends(&p, "labels", ".labels") {
                PathContextType::Label
            } else {
                PathContextType::Generic
            }
        },
    }
}

/// The completion context at a cursor: top level in an empty document;
/// the value of `platform:`, `logging:`, `slug:`, `path:` or `paths:`;
/// an item of a label or category list; SQL; top level at column 0; else
/// the section the enclosing keys name.
pub open spec fn completion_context(source: Seq<char>, line_idx: int, line: Seq<char>, col: int) -> ContextView {
    let t = trim(line);
    let ls = lines(source);
    if trim(source).len() == 0 || (line_idx == 0 && t.len() == 0) {
        ContextView::TopLevel
    } else if key_at_cursor(line, col) == Some("platform"@) {
        ContextView::PlatformValue
    } else if key_at_cursor(line, col) == Some("logging"@) {
        ContextView::LoggingValue
    } else if key_at_cursor(line, col) == Some("slug"@) {
        ContextView::SlugValue
    } else if key_at_cursor(line, col) == Some("path"@) {
        ContextView::PathValue { context_type: path_type_for(parent_context(source, line_idx)) }
    } else if key_at_cursor(line, col) == Some("paths"@) {
        ContextView::GlobValue {
            parent_context: match parent_context(source, line_idx) {
                Some(p) => p,
                None => Seq::empty(),
            },
        }
    } else if (text::starts_with(t, "-"@) || t.len() == 0) && (immediate_parent(ls, line_idx - 1, indent_of(line))
        == Some("labels_include_any"@) || immediate_parent(ls, line_idx - 1, indent_of(line)) == Some(
        "labels_exclude_any"@,
    )) {
        ContextView::LabelValue
    } else if (text::starts_with(t, "-"@) || t.len() == 0) && immediate_parent(ls, line_idx - 1, indent_of(line))
        == Some("categories"@) {
        ContextView::CategoryValue
    } else if completion_sql_context(source, line_idx, line) {
        ContextView::SqlContext {
            platform: platform_above(ls, line_idx, indent_of(line_at(ls, line_idx))),
        }
    } else if indent_of(line) == 0 && (t.len() == 0 || !text::has_char(t, ':')) {
        ContextView::TopLevel
    } else {
        path_context(parent_context(source, line_idx))
    }
}

/// Where the cursor is in a document, for completion.
pub fn determine_completion_context(source: &str, line_idx: usize, line: &str, col_idx: usize) -> (r: CompletionContext)
    requires
        text::source_fits(source@),
        text::source_fits(line@),
    ensures
        r@ == completion_context(source@, line_idx as int, line@, col_idx as int),
{
    let lc = chars_of(line);
    let t = text::trim_vec(&lc);
    if text::trim_vec(&chars_of(source)).len() == 0 || (line_idx == 0 && t.len() == 0) {
        return CompletionContext::TopLevel;
    }
    proof {
        reveal_strlit("platform");
        reveal_strlit("logging");
        reveal_strlit("slug");
        reveal_strlit("path");
        reveal_strlit("paths");
        reveal_strlit("labels_include_any");
        reveal_strlit("labels_exclude_any");
        reveal_strlit("categories");
    }
    match get_key_at_cursor(line, col_idx) {
        Some(key) => {
            let kc = chars_of(key.as_str());
            if text::eq_str(&kc, "platform") {
                return CompletionContext::PlatformValue;
            } else if text::eq_str(&kc, "logging") {
                return CompletionContext::LoggingValue;
            } else if text::eq_str(&kc, "slug") {
                return CompletionContext::SlugValue;
            } else if text::eq_str(&kc, "path") {
                let parent = find_parent_context(source, line_idx);
                return CompletionContext::PathValue { context_type: path_type_exec(&parent) };
            } else if text::eq_str(&kc, "paths") {
                let parent = find_parent_context(source, line_idx);
                let pc = match parent {
                    Some(p) => p,
                    None => String::new(),
                };
                return CompletionContext::GlobValue { parent_context: pc };
            }
        },
        None => {},
    }
    if text::starts_with_str(&t, "-") || t.len() == 0 {
        match find_immediate_parent_key(source, line_idx, line) {
            Some(pk) => {
                let pc = chars_of(pk.as_str());
                if text::eq_str(&pc, "labels_include_any") || text::eq_str(&pc, "labels_exclude_any") {
                    return CompletionContext::LabelValue;
                }
                if text::eq_str(&pc, "categories") {
                    return CompletionContext::CategoryValue;
                }
            },
            None => {},
        }
    }
    if is_in_sql_context(source, line_idx, line) {
        let platform = find_platform_in_context(source, line_idx);
        return CompletionContext::SqlContext { platform };
    }
    let indent = indent_exec(&lc);
    if indent == 0 && (t.len() == 0 || !text::has_char_exec(&t, ':')) {
        return CompletionContext::TopLevel;
    }
    let parent = find_parent_context(source, line_idx);
    match parent {
        Some(p) => context_path_to_completion_context(Some(p.as_str())),
        None => context_path_to_completion_context(None),
    }
}

/// Strips a character from both ends (`str::trim_matches`).
pub open spec fn trim_matches(s: Seq<char>, c: char) -> Seq<char> {
    text::trim_start_char(trim_end_char(s, c), c)
}

/// Strips a character from the end.
pub open spec fn trim_end_char(s: Seq<char>, c: char) -> Seq<char>
    decreases s.len(),
{
    if s.len() > 0 && s.last() == c {
        trim_end_char(s.drop_last(), c)
    } else {
        s
    }
}

fn trim_matches_exec(s: &[char], c: char) -> (r: Vec<char>)
    ensures
        r@ == trim_matches(s@, c),
{
    let mut e = s.len();
    assert(s@.take(s.len() as int) =~= s@);
    while e > 0 && s[e - 1] == c
        invariant
            e <= s.len(),
            trim_end_char(s@, c) == trim_end_char(s@.take(e as int), c),
        decreases e,
    {
        assert(s@.take(e as int).drop_last() =~= s@.take(e - 1));
        e -= 1;
    }
    assert(s@.take(s.len() as int) =~= s@);
    let head = text::slice_range(s, 0, e);
    assert(head@ =~= s@.take(e as int));
    text::trim_start_char_vec(&head, c)
}

/// The path typed so far after `path:`: the text between the first colon
/// and the cursor (a byte column, at most the line's end), trimmed of
/// whitespace and quotes.
pub open spec fn partial_path(line: Seq<char>, col: int) -> Seq<char> {
    let t = trim(text::trim_start_char(trim(line), '-'));
    match text::find_char(t, ':') {
        None => Seq::empty(),
        Some(_) => match text::find_char(line, ':') {
            None => Seq::empty(),
            Some(p) => {
                let vs = byte_len(line.take(p)) + 1;
                let end = if col < byte_len(line) {
                    col
                } else {
                    byte_len(line) as int
                };
                if col > vs {
                    trim_matches(
                        trim_matches(trim(line.subrange(p + 1, text::chars_for_bytes(line, end as nat).unwrap())), '"'),
                        '\'',
                    )
                } else {
                    Seq::empty()
                }
            },
        },
    }
}

/// The path typed so far after `path:`. The cursor column must not fall
/// inside a multi-byte character.
pub fn extract_partial_path(line: &str, col_idx: usize) -> (r: String)
    requires
        text::source_fits(line@),
        text::chars_for_bytes(line@, if col_idx < byte_len(line@) { col_idx as nat } else { byte_len(line@) }) is Some,
    ensures
        r@ == partial_path(line@, col_idx as int),
{
    let lc = chars_of(line);
    let t = text::trim_vec(&text::trim_start_char_vec(&text::trim_vec(&lc), '-'));
    if text::find_char_exec(&t, ':').is_none() {
        return String::new();
    }
    let p = match text::find_char_exec(&lc, ':') {
        Some(p) => p,
        None => {
            return String::new();
        },
    };
    let head = text::slice_range(&lc, 0, p);
    assert(head@ =~= line@.take(p as int));
    proof {
        text::lemma_byte_len_take(line@, p as int);
    }
    let blen = text::byte_len_exec(&lc);
    let vs = text::byte_len_exec(&head) + 1;
    if col_idx <= vs {
        return String::new();
    }
    let end = if col_idx < blen {
        col_idx
    } else {
        blen
    };
    // the character index whose prefix takes `end` bytes
    let mut k: usize = 0;
    let mut b: usize = 0;
    assert(line@.take(0) =~= Seq::<char>::empty());
    while k < lc.len() && b < end
        invariant
            k <= lc.len(),
            lc@ == line@,
            b == byte_len(line@.take(k as int)),
            b <= end,
            text::chars_for_bytes(line@, end as nat) is Some,
            end <= blen,
            blen == byte_len(line@),
        decreases lc.len() - k,
    {
        assert(line@.take(k + 1).drop_last() =~= line@.take(k as int));
        let w = text::utf8_len_exec(lc[k]);
        proof {
            if w > end - b {
                let j = choose|j: int| 0 <= j <= line@.len() && byte_len(#[trigger] line@.take(j)) == end;
                if j <= k {
                    if j < k {
                        text::lemma_byte_len_prefix_strict(line@, j, k as int);
                    }
                } else if j > k + 1 {
                    text::lemma_byte_len_prefix_strict(line@, k + 1, j);
                }
                assert(false);
            }
        }
        b = b + w;
        k += 1;
    }
    proof {
        assert(line@.take(line@.len() as int) =~= line@);
        let j = choose|j: int| 0 <= j <= line@.len() && byte_len(#[trigger] line@.take(j)) == end;
        if b < end {
            assert(k == lc.len());
            if j < k {
                text::lemma_byte_len_prefix_strict(line@, j, k as int);
            }
            text::lemma_byte_len_take(line@, j);
            assert(false);
        }
        if j < k {
            text::lemma_byte_len_prefix_strict(line@, j, k as int);
        } else if j > k {
            text::lemma_byte_len_prefix_strict(line@, k as int, j);
        }
        assert(text::chars_for_bytes(line@, end as nat) == Some(k as int));
        // the prefix through the colon is no longer than the cut
        assert(line@.take(p + 1).drop_last() =~= line@.take(p as int));
        assert(line@.take(p + 1).last() == ':');
        assert(byte_len(line@.take(p + 1)) == vs);
        text::lemma_byte_len_take(line@, p + 1);
        assert(b == end);
        assert(end >= vs);
        if k < p + 1 {
            text::lemma_byte_len_prefix_strict(line@, k as int, p + 1);
        }
    }
    assert(p + 1 <= k);
    let portion = text::trim_vec(&text::slice_range(&lc, p + 1, k));
    let r = trim_matches_exec(&trim_matches_exec(&portion, '"'), '\'');
    string_of(&r)
}

/// The lowercased extension of a path's file name (empty when it has none).
pub open spec fn extension_of(path: Seq<char>) -> Seq<char> {
    let n = file_name(path);
    match last_dot(n) {
        Some(i) => if i > 0 {
            text::unicode_lower(n.skip(i + 1))
        } else {
            text::unicode_lower(Seq::empty())
        },
        None => text::unicode_lower(Seq::empty()),
    }
}

/// The index of the last `.`.
pub open spec fn last_dot(s: Seq<char>) -> Option<int>
    decreases s.len(),
{
    if s.len() == 0 {
        None
    } else if s.last() == '.' {
        Some(s.len() - 1)
    } else {
        last_dot(s.drop_last())
    }
}

/// Whether a file's extension suits the kind of path being completed.
pub open spec fn matches_context(path: Seq<char>, ctx: PathContextType) -> bool {
    let ext = extension_of(path);
    match ctx {
        PathContextType::SoftwarePackage | PathContextType::Policy | PathContextType::Query
        | PathContextType::Label => ext == "yml"@ || ext == "yaml"@,
        PathContextType::Script => ext == "sh"@ || ext == "ps1"@ || ext == "bat"@ || ext == "cmd"@,
        PathContextType::MacOSProfile => ext == "mobileconfig"@ || ext == "plist"@,
        PathContextType::WindowsProfile => ext == "xml"@,
        PathContextType::Generic => true,
    }
}

/// Whether a file suits the kind of path being completed, by extension.
pub fn matches_context_type(path: &str, context_type: &PathContextType) -> (r: bool)
    ensures
        r == matches_context(path@, *context_type),
{
    let n = file_name_exec(&chars_of(path));
    let mut i = n.len();
    assert(n@.take(n.len() as int) =~= n@);
    while i > 0 && n[i - 1] != '.'
        invariant
            i <= n.len(),
            last_dot(n@) == last_dot(n@.take(i as int)),
        decreases i,
    {
        assert(n@.take(i as int).drop_last() =~= n@.take(i - 1));
        i -= 1;
    }
    proof {
        assert(n@.take(n.len() as int) =~= n@);
        if i > 0 {
            assert(last_dot(n@.take(i as int)) == Some(i - 1));
        }
    }
    let raw = if i > 1 {
        let e = text::slice_range(&n, i, n.len());
        assert(e@ =~= n@.skip(i as int));
        e
    } else {
        Vec::new()
    };
    assert(i <= 1 ==> raw@ =~= Seq::<char>::empty());
    let lower = text::to_lowercase(string_of(&raw).as_str());
    let ext = chars_of(lower.as_str());
    match context_type {
        PathContextType::SoftwarePackage | PathContextType::Policy | PathContextType::Query
        | PathContextType::Label => text::eq_str(&ext, "yml") || text::eq_str(&ext, "yaml"),
        PathContextType::Script => text::eq_str(&ext, "sh") || text::eq_str(&ext, "ps1") || text::eq_str(&ext, "bat")
            || text::eq_str(&ext, "cmd"),
        PathContextType::MacOSProfile => text::eq_str(&ext, "mobileconfig") || text::eq_str(&ext, "plist"),
        PathContextType::WindowsProfile => text::eq_str(&ext, "xml"),
        PathContextType::Generic => true,
    }
}

// ============================================================================
// Completion items
// ============================================================================

/// What a suggestion is.
#[derive(Debug, Clone, Copy, PartialEq, Eq, Structural)]
pub enum CompletionItemKind {
    Field,
    Snippet,
    EnumMember,
    Class,
    Value,
    File,
}

/// One suggestion.
#[derive(Debug)]
pub struct CompletionItem {
    pub label: String,
    pub kind: Option<CompletionItemKind>,
    pub detail: Option<String>,
    /// Markdown documentation.
    pub documentation: Option<String>,
    pub insert_text: Option<String>,
    /// `insert_text` is a snippet with tab stops.
    pub snippet: bool,
    /// The editor re-indents continuation lines of the inserted text.
    pub adjust_indentation: bool,
    pub filter_text: Option<String>,
    pub sort_text: Option<String>,
    /// Replaces a range of the line with the new text instead of inserting
    /// at the cursor.
    pub text_edit: Option<TextEdit>,
}

/// A replacement of the text between two positions.
#[derive(Debug)]
pub struct TextEdit {
    pub start: Position,
    pub end: Position,
    pub new_text: String,
}

/// The content of an optional text edit.
pub open spec fn edit_view(e: Option<TextEdit>) -> Option<(Position, Position, Seq<char>)> {
    match e {
        Some(t) => Some((t.start, t.end, t.new_text@)),
        None => None,
    }
}

/// The content of a `CompletionItem`.
pub struct ItemView {
    pub label: Seq<char>,
    pub kind: Option<CompletionItemKind>,
    pub detail: Option<Seq<char>>,
    pub documentation: Option<Seq<char>>,
    pub insert_text: Option<Seq<char>>,
    pub snippet: bool,
    pub adjust_indentation: bool,
    pub filter_text: Option<Seq<char>>,
    pub sort_text: Option<Seq<char>>,
    pub text_edit: Option<(Position, Position, Seq<char>)>,
}

/// The text of an optional string.
pub open spec fn opt_s(o: Option<String>) -> Option<Seq<char>> {
    match o {
        Some(s) => Some(s@),
        None => None,
    }
}

impl View for CompletionItem {
    type V = ItemView;

    open spec fn view(&self) -> ItemView {
        ItemView {
            label: self.label@,
            kind: self.kind,
            detail: opt_s(self.detail),
            documentation: opt_s(self.documentation),
            insert_text: opt_s(self.insert_text),
            snippet: self.snippet,
            adjust_indentation: self.adjust_indentation,
            filter_text: opt_s(self.filter_text),
            sort_text: opt_s(self.sort_text),
            text_edit: edit_view(self.text_edit),
        }
    }
}

/// The views of a list of items.
pub open spec fn item_views(v: Seq<CompletionItem>) -> Seq<ItemView> {
    Seq::new(v.len(), |i: int| v[i]@)
}

/// The texts of a list of key suggestions.
pub open spec fn field_views(v: Seq<(&'static str, &'static str, bool)>) -> Seq<(Seq<char>, Seq<char>, bool)> {
    Seq::new(v.len(), |i: int| (v[i].0@, v[i].1@, v[i].2))
}

/// The texts of a list of snippet suggestions.
pub open spec fn block_views(v: Seq<(&'static str, &'static str, &'static str)>) -> Seq<(Seq<char>, Seq<char>, Seq<char>)> {
    Seq::new(v.len(), |i: int| (v[i].0@, v[i].1@, v[i].2@))
}

/// The documentation of a suggestion: the Markdown of an entry that a
/// lookup by its name may return, present exactly when the lookup finds one.
pub open spec fn doc_of_ok(name: Seq<char>, d: Option<Seq<char>>) -> bool {
    match d {
        Some(m) => doc_found(name) && doc_markdown(name, Some(m)),
        None => !doc_found(name),
    }
}

/// A key suggestion: label and filter text are the key, the detail marks a
/// required key, and sorting puts required keys first (or every key after
/// the snippets, when `after_snippets` holds).
pub open spec fn field_item_ok(it: ItemView, f: (Seq<char>, Seq<char>, bool), after_snippets: bool) -> bool {
    &&& it.label == f.0
    &&& it.kind == Some(CompletionItemKind::Field)
    &&& it.detail == Some(
        if f.2 {
            f.1 + " (required)"@
        } else {
            f.1
        },
    )
    &&& doc_of_ok(f.0, it.documentation)
    &&& it.insert_text is None
    &&& !it.snippet
    &&& !it.adjust_indentation
    &&& it.filter_text == Some(f.0)
    &&& it.text_edit is None
    &&& it.sort_text == Some(
        (if after_snippets || !f.2 {
            "1_"@
        } else {
            "0_"@
        }) + f.0,
    )
}

/// A snippet suggestion that expands into a YAML block, sorted first.
pub open spec fn block_item_ok(it: ItemView, b: (Seq<char>, Seq<char>, Seq<char>)) -> bool {
    &&& it.label == b.0 + " (block)"@
    &&& it.kind == Some(CompletionItemKind::Snippet)
    &&& it.detail == Some(b.1)
    &&& doc_of_ok(b.0, it.documentation)
    &&& it.insert_text == Some(b.2)
    &&& it.snippet
    &&& it.adjust_indentation
    &&& it.filter_text == Some(b.0)
    &&& it.sort_text == Some("0_"@ + b.0)
    &&& it.text_edit is None
}

/// The key suggestions in order, then the snippet suggestions in order.
pub open spec fn items_ok(
    items: Seq<ItemView>,
    fields: Seq<(Seq<char>, Seq<char>, bool)>,
    blocks: Seq<(Seq<char>, Seq<char>, Seq<char>)>,
    after_snippets: bool,
) -> bool {
    &&& items.len() == fields.len() + blocks.len()
    &&& forall|i: int| 0 <= i < fields.len() ==> field_item_ok(#[trigger] items[i], fields[i], after_snippets)
    &&& forall|j: int| 0 <= j < blocks.len() ==> block_item_ok(#[trigger] items[fields.len() + j], blocks[j])
}

/// A value suggestion.
pub open spec fn value_item(v: (Seq<char>, Seq<char>)) -> ItemView {
    ItemView {
        label: v.0,
        kind: Some(CompletionItemKind::EnumMember),
        detail: Some(v.1),
        documentation: None,
        insert_text: None,
        snippet: false,
        adjust_indentation: false,
        filter_text: None,
        sort_text: None,
        text_edit: None,
    }
}

/// Value suggestions, in order.
pub open spec fn value_items(vs: Seq<(Seq<char>, Seq<char>)>) -> Seq<ItemView> {
    Seq::new(vs.len(), |i: int| value_item(vs[i]))
}

fn opt_string(s: &str) -> (r: Option<String>)
    ensures
        opt_s(r) == Some(s@),
{
    Some(s.to_owned())
}

fn create_field_completion(name: &str, desc: &str, required: bool, after_snippets: bool) -> (r: CompletionItem)
    ensures
        field_item_ok(r@, (name@, desc@, required), after_snippets),
{
    let detail = if required {
        string_of(&concat(&chars_of(desc), &chars_of(" (required)")))
    } else {
        desc.to_owned()
    };
    let prefix = if after_snippets || !required {
        "1_"
    } else {
        "0_"
    };
    let sort = string_of(&concat(&chars_of(prefix), &chars_of(name)));
    CompletionItem {
        label: name.to_owned(),
        kind: Some(CompletionItemKind::Field),
        detail: Some(detail),
        documentation: doc_markdown_exec(name),
        insert_text: None,
        snippet: false,
        adjust_indentation: false,
        filter_text: opt_string(name),
        sort_text: Some(sort),
        text_edit: None,
    }
}

fn create_block_completion(name: &str, desc: &str, snippet: &str) -> (r: CompletionItem)
    ensures
        block_item_ok(r@, (name@, desc@, snippet@)),
{
    CompletionItem {
        label: string_of(&concat(&chars_of(name), &chars_of(" (block)"))),
        kind: Some(CompletionItemKind::Snippet),
        detail: opt_string(desc),
        documentation: doc_markdown_exec(name),
        insert_text: opt_string(snippet),
        snippet: true,
        adjust_indentation: true,
        filter_text: opt_string(name),
        sort_text: Some(string_of(&concat(&chars_of("0_"), &chars_of(name)))),
        text_edit: None,
    }
}

fn create_value_completion(value: &str, desc: &str) -> (r: CompletionItem)
    ensures
        r@ == value_item((value@, desc@)),
{
    CompletionItem {
        label: value.to_owned(),
        kind: Some(CompletionItemKind::EnumMember),
        detail: opt_string(desc),
        documentation: None,
        insert_text: None,
        snippet: false,
        adjust_indentation: false,
        filter_text: None,
        sort_text: None,
        text_edit: None,
    }
}

/// Key suggestions followed by snippet suggestions.
fn build_items(
    fields: &Vec<(&'static str, &'static str, bool)>,
    blocks: &Vec<(&'static str, &'static str, &'static str)>,
    after_snippets: bool,
) -> (r: Vec<CompletionItem>)
    ensures
        items_ok(item_views(r@), field_views(fields@), block_views(blocks@), after_snippets),
{
    let ghost fv = field_views(fields@);
    let ghost bv = block_views(blocks@);
    let mut items: Vec<CompletionItem> = Vec::new();
    let mut i: usize = 0;
    while i < fields.len()
        invariant
            i <= fields.len(),
            fv == field_views(fields@),
            items@.len() == i,
            forall|k: int| 0 <= k < i ==> field_item_ok(#[trigger] item_views(items@)[k], fv[k], after_snippets),
        decreases fields.len() - i,
    {
        let (n, d, req) = fields[i];
        assert(fv[i as int] == (n@, d@, req));
        let it = create_field_completion(n, d, req, after_snippets);
        let ghost iv = it@;
        let ghost before = items@;
        items.push(it);
        assert forall|k: int| 0 <= k < i + 1 implies field_item_ok(#[trigger] item_views(items@)[k], fv[k], after_snippets) by {
            if k < i {
                assert(item_views(items@)[k] == item_views(before)[k]);
            } else {
                assert(item_views(items@)[k] == iv);
            }
        }
        i += 1;
    }
    let mut j: usize = 0;
    while j < blocks.len()
        invariant
            j <= blocks.len(),
            fv == field_views(fields@),
            bv == block_views(blocks@),
            items@.len() == fields.len() + j,
            forall|k: int| 0 <= k < fields.len() ==> field_item_ok(#[trigger] item_views(items@)[k], fv[k], after_snippets),
            forall|k: int| 0 <= k < j ==> block_item_ok(#[trigger] item_views(items@)[fields.len() + k], bv[k]),
        decreases blocks.len() - j,
    {
        let (n, d, s) = blocks[j];
        assert(bv[j as int] == (n@, d@, s@));
        let it = create_block_completion(n, d, s);
        let ghost iv = it@;
        let ghost before = items@;
        items.push(it);
        assert forall|k: int| 0 <= k < fields.len() implies field_item_ok(#[trigger] item_views(items@)[k], fv[k], after_snippets) by {
            assert(item_views(items@)[k] == item_views(before)[k]);
        }
        assert forall|k: int| 0 <= k < j + 1 implies block_item_ok(#[trigger] item_views(items@)[fields.len() + k], bv[k]) by {
            if k < j {
                assert(item_views(items@)[fields.len() + k] == item_views(before)[fields.len() + k]);
            } else {
                assert(item_views(items@)[fields.len() + k] == iv);
            }
        }
        j += 1;
    }
    items
}

/// Value suggestions.
fn build_values(values: &Vec<(&'static str, &'static str)>) -> (r: Vec<CompletionItem>)
    ensures
        item_views(r@) == value_items(pair_views(values@)),
{
    let ghost pv = pair_views(values@);
    let mut items: Vec<CompletionItem> = Vec::new();
    let mut i: usize = 0;
    while i < values.len()
        invariant
            i <= values.len(),
            pv == pair_views(values@),
            item_views(items@) == value_items(pv.take(i as int)),
        decreases values.len() - i,
    {
        let (v, d) = values[i];
        assert(pv[i as int] == (v@, d@));
        let ghost before = item_views(items@);
        let it = create_value_completion(v, d);
        items.push(it);
        assert(item_views(items@) =~= before.push(value_item((v@, d@))));
        assert(item_views(items@) =~= value_items(pv.take(i + 1)));
        i += 1;
    }
    assert(pv.take(values.len() as int) =~= pv);
    items
}

/// The texts of a list of pairs.
pub open spec fn pair_views(v: Seq<(&'static str, &'static str)>) -> Seq<(Seq<char>, Seq<char>)> {
    Seq::new(v.len(), |i: int| (v[i].0@, v[i].1@))
}

/// The platform values with their descriptions.
fn platform_pairs() -> (r: Vec<(&'static str, &'static str)>)
    ensures
        pair_views(r@) == platform_doc_table(),
{
    let mut v: Vec<(&'static str, &'static str)> = Vec::new();
    v.push(("darwin", "macOS - Apple desktop and laptop computers"));
    v.push(("windows", "Microsoft Windows operating systems"));
    v.push(("linux", "Linux distributions (Ubuntu, CentOS, Debian, etc.)"));
    v.push(("chrome", "ChromeOS - Chromebook devices"));
    v.push(("ios", "iOS - Apple iPhone devices"));
    v.push(("ipados", "iPadOS - Apple iPad devices"));
    v.push(("android", "Android - Android mobile devices"));
    v.push(("all", "All supported platforms"));
    assert(pair_views(v@) =~= platform_doc_table());
    v
}

/// The logging types with their descriptions.
fn logging_pairs() -> (r: Vec<(&'static str, &'static str)>)
    ensures
        pair_views(r@) == logging_doc_table(),
{
    let mut v: Vec<(&'static str, &'static str)> = Vec::new();
    v.push(("snapshot", "Logs all results from each query execution. Best for point-in-time data."));
    v.push(("differential", "Only logs changes (additions and removals) between query executions. Reduces log volume."));
    v.push(("differential_ignore_removals", "Like differential, but only logs additions. Useful when removals are expected."));
    assert(pair_views(v@) =~= logging_doc_table());
    v
}

/// Suggestions for a platform value: every documented platform value.
pub fn complete_platform_values() -> (r: Vec<CompletionItem>)
    ensures
        item_views(r@) == value_items(platform_doc_table()),
{
    build_values(&platform_pairs())
}

/// Suggestions for a logging value: every logging type.
pub fn complete_logging_values() -> (r: Vec<CompletionItem>)
    ensures
        item_views(r@) == value_items(logging_doc_table()),
{
    build_values(&logging_pairs())
}

/// The boolean values.
pub open spec fn boolean_pairs() -> Seq<(Seq<char>, Seq<char>)> {
    seq![("true"@, "Enable this option"@), ("false"@, "Disable this option"@)]
}

/// Suggestions for a boolean value.
pub fn complete_boolean_values() -> (r: Vec<CompletionItem>)
    ensures
        item_views(r@) == value_items(boolean_pairs()),
{
    let mut v: Vec<(&'static str, &'static str)> = Vec::new();
    v.push(("true", "Enable this option"));
    v.push(("false", "Disable this option"));
    assert(pair_views(v@) =~= boolean_pairs());
    build_values(&v)
}

/// An osquery table suggestion.
pub open spec fn table_item(e: (Seq<char>, Seq<Seq<char>>, Seq<char>)) -> ItemView {
    ItemView {
        label: e.0,
        kind: Some(CompletionItemKind::Class),
        detail: Some("osquery table ("@ + join_with(e.1, ", "@) + ")"@),
        documentation: Some("**"@ + e.0 + "**\n\n"@ + e.2 + "\n\n**Platforms:** "@ + join_with(e.1, ", "@)),
        insert_text: None,
        snippet: false,
        adjust_indentation: false,
        filter_text: None,
        sort_text: None,
        text_edit: None,
    }
}

/// The table is offered for the platform filter (`all`, or none, offers
/// every table).
pub open spec fn table_offered(e: (Seq<char>, Seq<Seq<char>>, Seq<char>), platform: Option<Seq<char>>) -> bool {
    match platform {
        None => true,
        Some(p) => p == "all"@ || e.1.contains(p),
    }
}

/// The suggestions for the tables offered, in table order.
pub open spec fn table_items(es: Seq<(Seq<char>, Seq<Seq<char>>, Seq<char>)>, platform: Option<Seq<char>>) -> Seq<ItemView>
    decreases es.len(),
{
    if es.len() == 0 {
        Seq::empty()
    } else if table_offered(es.last(), platform) {
        table_items(es.drop_last(), platform).push(table_item(es.last()))
    } else {
        table_items(es.drop_last(), platform)
    }
}

/// Whether `v` lists `p`.
fn lists_str(v: &Vec<&'static str>, p: &str) -> (r: bool)
    ensures
        r == strs(v@).contains(p@),
{
    let mut i: usize = 0;
    while i < v.len()
        invariant
            i <= v.len(),
            forall|j: int| 0 <= j < i ==> v@[j]@ != p@,
        decreases v.len() - i,
    {
        if text::str_eq(v[i], p) {
            assert(strs(v@)[i as int] == p@);
            return true;
        }
        i += 1;
    }
    proof {
        if strs(v@).contains(p@) {
            let j = choose|j: int| 0 <= j < v@.len() && strs(v@)[j] == p@;
            assert(v@[j]@ == p@);
        }
    }
    false
}

/// Suggestions for osquery tables, optionally only those available on a
/// platform.
pub fn complete_osquery_tables(platform: Option<&str>) -> (r: Vec<CompletionItem>)
    ensures
        item_views(r@) == table_items(
            osquery::osquery_entries(),
            match platform {
                Some(p) => Some(p@),
                None => None,
            },
        ),
{
    let ghost pf = match platform {
        Some(p) => Some(p@),
        None => None,
    };
    let tables = osquery::osquery_tables();
    let ghost tv = osquery::table_views(tables@);
    let mut items: Vec<CompletionItem> = Vec::new();
    let mut i: usize = 0;
    while i < tables.len()
        invariant
            i <= tables.len(),
            tv == osquery::table_views(tables@),
            tv == osquery::osquery_entries(),
            pf == (match platform {
                Some(p) => Some(p@),
                None => None,
            }),
            item_views(items@) == table_items(tv.take(i as int), pf),
        decreases tables.len() - i,
    {
        let t = &tables[i];
        assert(tv.take(i + 1).drop_last() =~= tv.take(i as int));
        assert(tv.take(i + 1).last() == t@);
        let offered = match platform {
            None => true,
            Some(p) => text::str_eq(p, "all") || lists_str(&t.platforms, p),
        };
        if offered {
            let plats = join_comma(&t.platforms);
            let detail = concat(&concat(&chars_of("osquery table ("), &plats), &chars_of(")"));
            let mut doc = concat(&concat(&chars_of("**"), &chars_of(t.name)), &chars_of("**\n\n"));
            doc = concat(&doc, &chars_of(t.description));
            doc = concat(&doc, &chars_of("\n\n**Platforms:** "));
            doc = concat(&doc, &plats);
            let it = CompletionItem {
                label: t.name.to_owned(),
                kind: Some(CompletionItemKind::Class),
                detail: Some(string_of(&detail)),
                documentation: Some(string_of(&doc)),
                insert_text: None,
                snippet: false,
                adjust_indentation: false,
                filter_text: None,
                sort_text: None,
                text_edit: None,
            };
            assert(it@ == table_item(t@));
            let ghost before = item_views(items@);
            items.push(it);
            assert(item_views(items@) =~= before.push(table_item(t@)));
        }
        i += 1;
    }
    assert(tv.take(tables.len() as int) =~= tv);
    items
}

/// The keys suggested by `complete_software_section`.
pub open spec fn software_section_fields() -> Seq<(Seq<char>, Seq<char>, bool)> {
    seq![
        ("packages"@, "Custom software packages to install"@, false),
        ("app_store_apps"@, "macOS App Store apps"@, false),
        ("fleet_maintained_apps"@, "Fleet-managed apps with auto-updates"@, false),
    ]
}

/// The snippets suggested by `complete_software_section`.
pub open spec fn software_section_blocks() -> Seq<(Seq<char>, Seq<char>, Seq<char>)> {
    seq![
        ("packages"@, "Software packages (block)"@, "packages:\n\
  - path: ${1:../platforms/macos/software/app.yml}\n\
    self_service: ${2:true}\n\
    setup_experience: ${3:false}"@),
        ("app_store_apps"@, "App Store apps (block)"@, "app_store_apps:\n  - app_store_id: \"${1:id}\"\n    self_service: ${2:true}"@),
        ("fleet_maintained_apps"@, "Fleet-maintained apps (block)"@, "fleet_maintained_apps:\n\
  - slug: ${1:slack/darwin}\n\
    self_service: ${2:true}\n\
    setup_experience: ${3:false}\n\
    categories:\n\
      - ${4:Productivity}"@),
    ]
}

fn software_section_data() -> (r: (Vec<(&'static str, &'static str, bool)>, Vec<(&'static str, &'static str, &'static str)>))
    ensures
        field_views(r.0@) == software_section_fields(),
        block_views(r.1@) == software_section_blocks(),
{
    let mut f: Vec<(&'static str, &'static str, bool)> = Vec::new();
    f.push(("packages", "Custom software packages to install", false));
    f.push(("app_store_apps", "macOS App Store apps", false));
    f.push(("fleet_maintained_apps", "Fleet-managed apps with auto-updates", false));
    let mut b: Vec<(&'static str, &'static str, &'static str)> = Vec::new();
    b.push(("packages", "Software packages (block)", "packages:\n\
  - path: ${1:../platforms/macos/software/app.yml}\n\
    self_service: ${2:true}\n\
    setup_experience: ${3:false}"));
    b.push(("app_store_apps", "App Store apps (block)", "app_store_apps:\n  - app_store_id: \"${1:id}\"\n    self_service: ${2:true}"));
    b.push(("fleet_maintained_apps", "Fleet-maintained apps (block)", "fleet_maintained_apps:\n\
  - slug: ${1:slack/darwin}\n\
    self_service: ${2:true}\n\
    setup_experience: ${3:false}\n\
    categories:\n\
      - ${4:Productivity}"));
    assert(field_views(f@) =~= software_section_fields());
    assert(block_views(b@) =~= software_section_blocks());
    (f, b)
}

/// Suggestions for `software section`: its keys, then its snippets.
pub fn complete_software_section() -> (r: Vec<CompletionItem>)
    ensures
        items_ok(item_views(r@), software_section_fields(), software_section_blocks(), true),
{
    let (f, b) = software_section_data();
    build_items(&f, &b, true)
}

/// The keys suggested by `complete_controls_section`.
pub open spec fn controls_section_fields() -> Seq<(Seq<char>, Seq<char>, bool)> {
    seq![
        ("enable_disk_encryption"@, "Require disk encryption on hosts"@, false),
        ("apple_settings"@, "Apple MDM configuration profiles (replaces macos_settings)"@, false),
        ("macos_settings"@, "macOS MDM configuration profiles (deprecated, use apple_settings)"@, false),
        ("setup_experience"@, "Setup experience settings (replaces macos_setup)"@, false),
        ("macos_setup"@, "macOS setup (deprecated, use setup_experience)"@, false),
        ("macos_updates"@, "macOS software update requirements"@, false),
        ("ios_updates"@, "iOS software update requirements"@, false),
        ("ipados_updates"@, "iPadOS software update requirements"@, false),
        ("macos_migration"@, "macOS migration settings"@, false),
        ("windows_settings"@, "Windows MDM configuration profiles"@, false),
        ("windows_updates"@, "Windows update requirements"@, false),
        ("android_settings"@, "Android MDM configuration profiles"@, false),
        ("scripts"@, "Management scripts to deploy"@, false),
        ("windows_enabled_and_configured"@, "Enable Windows MDM"@, false),
        ("enable_turn_on_windows_mdm_manually"@, "Require manual Windows MDM enrollment"@, false),
        ("windows_migration_enabled"@, "Enable Windows migration"@, false),
        ("windows_require_bitlocker_pin"@, "Require BitLocker PIN"@, false),
    ]
}

/// The snippets suggested by `complete_controls_section`.
pub open spec fn controls_section_blocks() -> Seq<(Seq<char>, Seq<char>, Seq<char>)> {
    seq![
        ("macos_updates"@, "macOS update requirements (block)"@, "macos_updates:\n  deadline: ${1:2024-12-31}\n  minimum_version: ${2:15.1}\n  update_new_hosts: ${3:true}"@),
        ("ios_updates"@, "iOS update requirements (block)"@, "ios_updates:\n  deadline: ${1:2024-12-31}\n  minimum_version: ${2:18.1}"@),
        ("ipados_updates"@, "iPadOS update requirements (block)"@, "ipados_updates:\n  deadline: ${1:2024-12-31}\n  minimum_version: ${2:18.1}"@),
        ("windows_updates"@, "Windows update requirements (block)"@, "windows_updates:\n  deadline_days: ${1:5}\n  grace_period_days: ${2:2}"@),
        ("macos_settings"@, "macOS configuration profiles (block)"@, "macos_settings:\n  custom_settings:\n    - path: ${1:../lib/profile.mobileconfig}"@),
        ("windows_settings"@, "Windows configuration profiles (block)"@, "windows_settings:\n  custom_settings:\n    - path: ${1:../lib/profile.xml}"@),
        ("macos_migration"@, "macOS migration settings (block)"@, "macos_migration:\n  enable: ${1:true}\n  mode: ${2:voluntary}\n  webhook_url: ${3:https://}"@),
        ("macos_setup"@, "macOS automatic enrollment (block)"@, "macos_setup:\n  enable_end_user_authentication: ${1:true}\n  macos_setup_assistant: ${2:../lib/dep-profile.json}\n  script: ${3:../lib/macos-setup-script.sh}"@),
        ("android_settings"@, "Android configuration profiles (block)"@, "android_settings:\n  custom_settings:\n    - path: ${1:../lib/profile.json}"@),
        ("scripts"@, "Management scripts (block)"@, "scripts:\n  - path: ${1:../lib/script.sh}"@),
        ("enable_disk_encryption"@, "Require disk encryption (block)"@, "enable_disk_encryption: ${1:true}"@),
        ("windows_enabled_and_configured"@, "Enable Windows MDM (block)"@, "windows_enabled_and_configured: ${1:true}"@),
        ("windows_migration_enabled"@, "Enable Windows migration (block)"@, "windows_migration_enabled: ${1:true}"@),
        ("windows_require_bitlocker_pin"@, "Require BitLocker PIN (block)"@, "windows_require_bitlocker_pin: ${1:true}"@),
        ("enable_turn_on_windows_mdm_manually"@, "Manual Windows MDM enrollment (block)"@, "enable_turn_on_windows_mdm_manually: ${1:false}"@),
    ]
}

fn controls_section_data() -> (r: (Vec<(&'static str, &'static str, bool)>, Vec<(&'static str, &'static str, &'static str)>))
    ensures
        field_views(r.0@) == controls_section_fields(),
        block_views(r.1@) == controls_section_blocks(),
{
    let mut f: Vec<(&'static str, &'static str, bool)> = Vec::new();
    f.push(("enable_disk_encryption", "Require disk encryption on hosts", false));
    f.push(("apple_settings", "Apple MDM configuration profiles (replaces macos_settings)", false));
    f.push(("macos_settings", "macOS MDM configuration profiles (deprecated, use apple_settings)", false));
    f.push(("setup_experience", "Setup experience settings (replaces macos_setup)", false));
    f.push(("macos_setup", "macOS setup (deprecated, use setup_experience)", false));
    f.push(("macos_updates", "macOS software update requirements", false));
    f.push(("ios_updates", "iOS software update requirements", false));
    f.push(("ipados_updates", "iPadOS software update requirements", false));
    f.push(("macos_migration", "macOS migration settings", false));
    f.push(("windows_settings", "Windows MDM configuration profiles", false));
    f.push(("windows_updates", "Windows update requirements", false));
    f.push(("android_settings", "Android MDM configuration profiles", false));
    f.push(("scripts", "Management scripts to deploy", false));
    f.push(("windows_enabled_and_configured", "Enable Windows MDM", false));
    f.push(("enable_turn_on_windows_mdm_manually", "Require manual Windows MDM enrollment", false));
    f.push(("windows_migration_enabled", "Enable Windows migration", false));
    f.push(("windows_require_bitlocker_pin", "Require BitLocker PIN", false));
    let mut b: Vec<(&'static str, &'static str, &'static str)> = Vec::new();
    b.push(("macos_updates", "macOS update requirements (block)", "macos_updates:\n  deadline: ${1:2024-12-31}\n  minimum_version: ${2:15.1}\n  update_new_hosts: ${3:true}"));
    b.push(("ios_updates", "iOS update requirements (block)", "ios_updates:\n  deadline: ${1:2024-12-31}\n  minimum_version: ${2:18.1}"));
    b.push(("ipados_updates", "iPadOS update requirements (block)", "ipados_updates:\n  deadline: ${1:2024-12-31}\n  minimum_version: ${2:18.1}"));
    b.push(("windows_updates", "Windows update requirements (block)", "windows_updates:\n  deadline_days: ${1:5}\n  grace_period_days: ${2:2}"));
    b.push(("macos_settings", "macOS configuration profiles (block)", "macos_settings:\n  custom_settings:\n    - path: ${1:../lib/profile.mobileconfig}"));
    b.push(("windows_settings", "Windows configuration profiles (block)", "windows_settings:\n  custom_settings:\n    - path: ${1:../lib/profile.xml}"));
    b.push(("macos_migration", "macOS migration settings (block)", "macos_migration:\n  enable: ${1:true}\n  mode: ${2:voluntary}\n  webhook_url: ${3:https://}"));
    b.push(("macos_setup", "macOS automatic enrollment (block)", "macos_setup:\n  enable_end_user_authentication: ${1:true}\n  macos_setup_assistant: ${2:../lib/dep-profile.json}\n  script: ${3:../lib/macos-setup-script.sh}"));
    b.push(("android_settings", "Android configuration profiles (block)", "android_settings:\n  custom_settings:\n    - path: ${1:../lib/profile.json}"));
    b.push(("scripts", "Management scripts (block)", "scripts:\n  - path: ${1:../lib/script.sh}"));
    b.push(("enable_disk_encryption", "Require disk encryption (block)", "enable_disk_encryption: ${1:true}"));
    b.push(("windows_enabled_and_configured", "Enable Windows MDM (block)", "windows_enabled_and_configured: ${1:true}"));
    b.push(("windows_migration_enabled", "Enable Windows migration (block)", "windows_migration_enabled: ${1:true}"));
    b.push(("windows_require_bitlocker_pin", "Require BitLocker PIN (block)", "windows_require_bitlocker_pin: ${1:true}"));
    b.push(("enable_turn_on_windows_mdm_manually", "Manual Windows MDM enrollment (block)", "enable_turn_on_windows_mdm_manually: ${1:false}"));
    assert(field_views(f@) =~= controls_section_fields());
    assert(block_views(b@) =~= controls_section_blocks());
    (f, b)
}

/// Suggestions for `controls section`: its keys, then its snippets.
pub fn complete_controls_section() -> (r: Vec<CompletionItem>)
    ensures
        items_ok(item_views(r@), controls_section_fields(), controls_section_blocks(), true),
{
    let (f, b) = controls_section_data();
    build_items(&f, &b, true)
}

/// The keys suggested by `complete_device_settings_section`.
pub open spec fn device_settings_section_fields() -> Seq<(Seq<char>, Seq<char>, bool)> {
    seq![
        ("configuration_profiles"@, "MDM configuration/declaration profiles to install"@, false),
        ("custom_settings"@, "Custom MDM profiles (legacy)"@, false),
    ]
}

/// The snippets suggested by `complete_device_settings_section`.
pub open spec fn device_settings_section_blocks() -> Seq<(Seq<char>, Seq<char>, Seq<char>)> {
    seq![

    ]
}

fn device_settings_section_data() -> (r: (Vec<(&'static str, &'static str, bool)>, Vec<(&'static str, &'static str, &'static str)>))
    ensures
        field_views(r.0@) == device_settings_section_fields(),
        block_views(r.1@) == device_settings_section_blocks(),
{
    let mut f: Vec<(&'static str, &'static str, bool)> = Vec::new();
    f.push(("configuration_profiles", "MDM configuration/declaration profiles to install", false));
    f.push(("custom_settings", "Custom MDM profiles (legacy)", false));
    let mut b: Vec<(&'static str, &'static str, &'static str)> = Vec::new();

    assert(field_views(f@) =~= device_settings_section_fields());
    assert(block_views(b@) =~= device_settings_section_blocks());
    (f, b)
}

/// Suggestions for `device settings section`: its keys, then its snippets.
pub fn complete_device_settings_section() -> (r: Vec<CompletionItem>)
    ensures
        items_ok(item_views(r@), device_settings_section_fields(), device_settings_section_blocks(), false),
{
    let (f, b) = device_settings_section_data();
    build_items(&f, &b, false)
}

/// The keys suggested by `complete_team_settings_section`.
pub open spec fn team_settings_section_fields() -> Seq<(Seq<char>, Seq<char>, bool)> {
    seq![
        ("webhook_settings"@, "Webhook configuration for team events"@, false),
        ("features"@, "Feature flags for this team"@, false),
        ("host_expiry_settings"@, "Auto-remove inactive hosts"@, false),
        ("secrets"@, "Enrollment secrets for this team"@, false),
        ("integrations"@, "Third-party integrations (calendar, ticketing)"@, false),
    ]
}

/// The snippets suggested by `complete_team_settings_section`.
pub open spec fn team_settings_section_blocks() -> Seq<(Seq<char>, Seq<char>, Seq<char>)> {
    seq![
        ("features"@, "Feature flags (block)"@, "features:\n  enable_host_users: ${1:true}\n  enable_software_inventory: ${2:true}"@),
        ("host_expiry_settings"@, "Host expiry settings (block)"@, "host_expiry_settings:\n  host_expiry_enabled: ${1:true}\n  host_expiry_window: ${2:10}"@),
        ("secrets"@, "Enrollment secrets (block)"@, "secrets:\n  - secret: ${1:\\$ENROLL_SECRET}"@),
        ("integrations"@, "Integrations (block)"@, "integrations:\n  google_calendar:\n    - api_key_json: ${1:\\$GOOGLE_CALENDAR_API_KEY_JSON}\n      domain: ${2:example.com}"@),
    ]
}

fn team_settings_section_data() -> (r: (Vec<(&'static str, &'static str, bool)>, Vec<(&'static str, &'static str, &'static str)>))
    ensures
        field_views(r.0@) == team_settings_section_fields(),
        block_views(r.1@) == team_settings_section_blocks(),
{
    let mut f: Vec<(&'static str, &'static str, bool)> = Vec::new();
    f.push(("webhook_settings", "Webhook configuration for team events", false));
    f.push(("features", "Feature flags for this team", false));
    f.push(("host_expiry_settings", "Auto-remove inactive hosts", false));
    f.push(("secrets", "Enrollment secrets for this team", false));
    f.push(("integrations", "Third-party integrations (calendar, ticketing)", false));
    let mut b: Vec<(&'static str, &'static str, &'static str)> = Vec::new();
    b.push(("features", "Feature flags (block)", "features:\n  enable_host_users: ${1:true}\n  enable_software_inventory: ${2:true}"));
    b.push(("host_expiry_settings", "Host expiry settings (block)", "host_expiry_settings:\n  host_expiry_enabled: ${1:true}\n  host_expiry_window: ${2:10}"));
    b.push(("secrets", "Enrollment secrets (block)", "secrets:\n  - secret: ${1:\\$ENROLL_SECRET}"));
    b.push(("integrations", "Integrations (block)", "integrations:\n  google_calendar:\n    - api_key_json: ${1:\\$GOOGLE_CALENDAR_API_KEY_JSON}\n      domain: ${2:example.com}"));
    assert(field_views(f@) =~= team_settings_section_fields());
    assert(block_views(b@) =~= team_settings_section_blocks());
    (f, b)
}

/// Suggestions for `team settings section`: its keys, then its snippets.
pub fn complete_team_settings_section() -> (r: Vec<CompletionItem>)
    ensures
        items_ok(item_views(r@), team_settings_section_fields(), team_settings_section_blocks(), true),
{
    let (f, b) = team_settings_section_data();
    build_items(&f, &b, true)
}

/// The keys suggested by `complete_org_settings_section`.
pub open spec fn org_settings_section_fields() -> Seq<(Seq<char>, Seq<char>, bool)> {
    seq![
        ("features"@, "Feature flags for the organization"@, false),
        ("fleet_desktop"@, "Fleet Desktop configuration"@, false),
        ("host_expiry_settings"@, "Auto-remove inactive hosts"@, false),
        ("org_info"@, "Organization name, logo, and contact info"@, false),
        ("secrets"@, "Enrollment secrets"@, false),
        ("server_settings"@, "Server URL and global toggles"@, false),
        ("sso_settings"@, "Single sign-on configuration"@, false),
        ("integrations"@, "Third-party integrations (Jira, Zendesk, calendar)"@, false),
        ("certificate_authorities"@, "Custom CA certificates"@, false),
        ("gitops"@, "GitOps mode settings"@, false),
        ("mdm"@, "Apple Business Manager and VPP settings"@, false),
    ]
}

/// The snippets suggested by `complete_org_settings_section`.
pub open spec fn org_settings_section_blocks() -> Seq<(Seq<char>, Seq<char>, Seq<char>)> {
    seq![
        ("features"@, "Feature flags (block)"@, "features:\n  enable_host_users: ${1:true}\n  enable_software_inventory: ${2:true}"@),
        ("fleet_desktop"@, "Fleet Desktop (block)"@, "fleet_desktop:\n  transparency_url: ${1:https://fleetdm.com/transparency}"@),
        ("host_expiry_settings"@, "Host expiry settings (block)"@, "host_expiry_settings:\n  host_expiry_enabled: ${1:true}\n  host_expiry_window: ${2:10}"@),
        ("org_info"@, "Organization info (block)"@, "org_info:\n  org_name: ${1:Organization}\n  org_logo_url: ${2:https://}\n  contact_url: ${3:https://}"@),
        ("secrets"@, "Enrollment secrets (block)"@, "secrets:\n  - secret: ${1:\\$ENROLL_SECRET}"@),
        ("server_settings"@, "Server settings (block)"@, "server_settings:\n  server_url: ${1:https://}\n  enable_analytics: ${2:true}"@),
        ("sso_settings"@, "SSO settings (block)"@, "sso_settings:\n  enable_sso: ${1:true}\n  idp_name: ${2:Okta}\n  entity_id: ${3:https://}\n  metadata: ${4:\\$SSO_METADATA}"@),
        ("integrations"@, "Integrations (block)"@, "integrations:\n  jira:\n    - url: ${1:https://example.atlassian.net}\n      username: ${2:user}\n      api_token: ${3:\\$JIRA_API_TOKEN}\n      project_key: ${4:PRJ}"@),
        ("gitops"@, "GitOps settings (block)"@, "gitops:\n  gitops_mode_enabled: ${1:true}\n  repository_url: ${2:https://}"@),
        ("mdm"@, "MDM settings (block)"@, "mdm:\n  apple_business_manager:\n    - organization_name: ${1:Organization}\n      macos_team: ${2:Workstations}\n      ios_team: ${3:iPhones}\n      ipados_team: ${4:iPads}"@),
    ]
}

fn org_settings_section_data() -> (r: (Vec<(&'static str, &'static str, bool)>, Vec<(&'static str, &'static str, &'static str)>))
    ensures
        field_views(r.0@) == org_settings_section_fields(),
        block_views(r.1@) == org_settings_section_blocks(),
{
    let mut f: Vec<(&'static str, &'static str, bool)> = Vec::new();
    f.push(("features", "Feature flags for the organization", false));
    f.push(("fleet_desktop", "Fleet Desktop configuration", false));
    f.push(("host_expiry_settings", "Auto-remove inactive hosts", false));
    f.push(("org_info", "Organization name, logo, and contact info", false));
    f.push(("secrets", "Enrollment secrets", false));
    f.push(("server_settings", "Server URL and global toggles", false));
    f.push(("sso_settings", "Single sign-on configuration", false));
    f.push(("integrations", "Third-party integrations (Jira, Zendesk, calendar)", false));
    f.push(("certificate_authorities", "Custom CA certificates", false));
    f.push(("gitops", "GitOps mode settings", false));
    f.push(("mdm", "Apple Business Manager and VPP settings", false));
    let mut b: Vec<(&'static str, &'static str, &'static str)> = Vec::new();
    b.push(("features", "Feature flags (block)", "features:\n  enable_host_users: ${1:true}\n  enable_software_inventory: ${2:true}"));
    b.push(("fleet_desktop", "Fleet Desktop (block)", "fleet_desktop:\n  transparency_url: ${1:https://fleetdm.com/transparency}"));
    b.push(("host_expiry_settings", "Host expiry settings (block)", "host_expiry_settings:\n  host_expiry_enabled: ${1:true}\n  host_expiry_window: ${2:10}"));
    b.push(("org_info", "Organization info (block)", "org_info:\n  org_name: ${1:Organization}\n  org_logo_url: ${2:https://}\n  contact_url: ${3:https://}"));
    b.push(("secrets", "Enrollment secrets (block)", "secrets:\n  - secret: ${1:\\$ENROLL_SECRET}"));
    b.push(("server_settings", "Server settings (block)", "server_settings:\n  server_url: ${1:https://}\n  enable_analytics: ${2:true}"));
    b.push(("sso_settings", "SSO settings (block)", "sso_settings:\n  enable_sso: ${1:true}\n  idp_name: ${2:Okta}\n  entity_id: ${3:https://}\n  metadata: ${4:\\$SSO_METADATA}"));
    b.push(("integrations", "Integrations (block)", "integrations:\n  jira:\n    - url: ${1:https://example.atlassian.net}\n      username: ${2:user}\n      api_token: ${3:\\$JIRA_API_TOKEN}\n      project_key: ${4:PRJ}"));
    b.push(("gitops", "GitOps settings (block)", "gitops:\n  gitops_mode_enabled: ${1:true}\n  repository_url: ${2:https://}"));
    b.push(("mdm", "MDM settings (block)", "mdm:\n  apple_business_manager:\n    - organization_name: ${1:Organization}\n      macos_team: ${2:Workstations}\n      ios_team: ${3:iPhones}\n      ipados_team: ${4:iPads}"));
    assert(field_views(f@) =~= org_settings_section_fields());
    assert(block_views(b@) =~= org_settings_section_blocks());
    (f, b)
}

/// Suggestions for `org settings section`: its keys, then its snippets.
pub fn complete_org_settings_section() -> (r: Vec<CompletionItem>)
    ensures
        items_ok(item_views(r@), org_settings_section_fields(), org_settings_section_blocks(), true),
{
    let (f, b) = org_settings_section_data();
    build_items(&f, &b, true)
}

/// The keys suggested by `complete_org_fleet_desktop_fields`.
pub open spec fn org_fleet_desktop_fields_fields() -> Seq<(Seq<char>, Seq<char>, bool)> {
    seq![
        ("transparency_url"@, "URL shown in Fleet Desktop transparency page"@, false),
    ]
}

/// The snippets suggested by `complete_org_fleet_desktop_fields`.
pub open spec fn org_fleet_desktop_fields_blocks() -> Seq<(Seq<char>, Seq<char>, Seq<char>)> {
    seq![

    ]
}

fn org_fleet_desktop_fields_data() -> (r: (Vec<(&'static str, &'static str, bool)>, Vec<(&'static str, &'static str, &'static str)>))
    ensures
        field_views(r.0@) == org_fleet_desktop_fields_fields(),
        block_views(r.1@) == org_fleet_desktop_fields_blocks(),
{
    let mut f: Vec<(&'static str, &'static str, bool)> = Vec::new();
    f.push(("transparency_url", "URL shown in Fleet Desktop transparency page", false));
    let mut b: Vec<(&'static str, &'static str, &'static str)> = Vec::new();

    assert(field_views(f@) =~= org_fleet_desktop_fields_fields());
    assert(block_views(b@) =~= org_fleet_desktop_fields_blocks());
    (f, b)
}

/// Suggestions for `org fleet desktop fields`: its keys, then its snippets.
pub fn complete_org_fleet_desktop_fields() -> (r: Vec<CompletionItem>)
    ensures
        items_ok(item_views(r@), org_fleet_desktop_fields_fields(), org_fleet_desktop_fields_blocks(), false),
{
    let (f, b) = org_fleet_desktop_fields_data();
    build_items(&f, &b, false)
}

/// The keys suggested by `complete_org_server_settings_fields`.
pub open spec fn org_server_settings_fields_fields() -> Seq<(Seq<char>, Seq<char>, bool)> {
    seq![
        ("server_url"@, "Fleet server URL"@, false),
        ("enable_analytics"@, "Enable usage analytics"@, false),
        ("live_query_disabled"@, "Disable live queries"@, false),
        ("ai_features_disabled"@, "Disable AI features"@, false),
        ("query_reports_disabled"@, "Disable query reports"@, false),
        ("query_report_cap"@, "Maximum number of query report rows"@, false),
        ("scripts_disabled"@, "Disable script execution"@, false),
    ]
}

/// The snippets suggested by `complete_org_server_settings_fields`.
pub open spec fn org_server_settings_fields_blocks() -> Seq<(Seq<char>, Seq<char>, Seq<char>)> {
    seq![

    ]
}

fn org_server_settings_fields_data() -> (r: (Vec<(&'static str, &'static str, bool)>, Vec<(&'static str, &'static str, &'static str)>))
    ensures
        field_views(r.0@) == org_server_settings_fields_fields(),
        block_views(r.1@) == org_server_settings_fields_blocks(),
{
    let mut f: Vec<(&'static str, &'static str, bool)> = Vec::new();
    f.push(("server_url", "Fleet server URL", false));
    f.push(("enable_analytics", "Enable usage analytics", false));
    f.push(("live_query_disabled", "Disable live queries", false));
    f.push(("ai_features_disabled", "Disable AI features", false));
    f.push(("query_reports_disabled", "Disable query reports", false));
    f.push(("query_report_cap", "Maximum number of query report rows", false));
    f.push(("scripts_disabled", "Disable script execution", false));
    let mut b: Vec<(&'static str, &'static str, &'static str)> = Vec::new();

    assert(field_views(f@) =~= org_server_settings_fields_fields());
    assert(block_views(b@) =~= org_server_settings_fields_blocks());
    (f, b)
}

/// Suggestions for `org server settings fields`: its keys, then its snippets.
pub fn complete_org_server_settings_fields() -> (r: Vec<CompletionItem>)
    ensures
        items_ok(item_views(r@), org_server_settings_fields_fields(), org_server_settings_fields_blocks(), false),
{
    let (f, b) = org_server_settings_fields_data();
    build_items(&f, &b, false)
}

/// The keys suggested by `complete_org_sso_settings_fields`.
pub open spec fn org_sso_settings_fields_fields() -> Seq<(Seq<char>, Seq<char>, bool)> {
    seq![
        ("enable_sso"@, "Enable single sign-on"@, false),
        ("idp_name"@, "Identity provider name"@, false),
        ("idp_image_url"@, "Identity provider logo URL"@, false),
        ("entity_id"@, "SAML entity ID"@, false),
        ("metadata"@, "SAML metadata XML"@, false),
        ("metadata_url"@, "SAML metadata URL"@, false),
        ("enable_jit_provisioning"@, "Enable just-in-time user provisioning"@, false),
        ("enable_sso_idp_login"@, "Enable IdP-initiated login"@, false),
        ("sso_server_url"@, "SSO server URL override"@, false),
    ]
}

/// The snippets suggested by `complete_org_sso_settings_fields`.
pub open spec fn org_sso_settings_fields_blocks() -> Seq<(Seq<char>, Seq<char>, Seq<char>)> {
    seq![

    ]
}

fn org_sso_settings_fields_data() -> (r: (Vec<(&'static str, &'static str, bool)>, Vec<(&'static str, &'static str, &'static str)>))
    ensures
        field_views(r.0@) == org_sso_settings_fields_fields(),
        block_views(r.1@) == org_sso_settings_fields_blocks(),
{
    let mut f: Vec<(&'static str, &'static str, bool)> = Vec::new();
    f.push(("enable_sso", "Enable single sign-on", false));
    f.push(("idp_name", "Identity provider name", false));
    f.push(("idp_image_url", "Identity provider logo URL", false));
    f.push(("entity_id", "SAML entity ID", false));
    f.push(("metadata", "SAML metadata XML", false));
    f.push(("metadata_url", "SAML metadata URL", false));
    f.push(("enable_jit_provisioning", "Enable just-in-time user provisioning", false));
    f.push(("enable_sso_idp_login", "Enable IdP-initiated login", false));
    f.push(("sso_server_url", "SSO server URL override", false));
    let mut b: Vec<(&'static str, &'static str, &'static str)> = Vec::new();

    assert(field_views(f@) =~= org_sso_settings_fields_fields());
    assert(block_views(b@) =~= org_sso_settings_fields_blocks());
    (f, b)
}

/// Suggestions for `org sso settings fields`: its keys, then its snippets.
pub fn complete_org_sso_settings_fields() -> (r: Vec<CompletionItem>)
    ensures
        items_ok(item_views(r@), org_sso_settings_fields_fields(), org_sso_settings_fields_blocks(), false),
{
    let (f, b) = org_sso_settings_fields_data();
    build_items(&f, &b, false)
}

/// The keys suggested by `complete_org_info_fields`.
pub open spec fn org_info_fields_fields() -> Seq<(Seq<char>, Seq<char>, bool)> {
    seq![
        ("org_name"@, "Organization display name"@, false),
        ("org_logo_url"@, "Organization logo URL"@, false),
        ("org_logo_url_light_background"@, "Logo URL for light backgrounds"@, false),
        ("contact_url"@, "Support contact URL"@, false),
    ]
}

/// The snippets suggested by `complete_org_info_fields`.
pub open spec fn org_info_fields_blocks() -> Seq<(Seq<char>, Seq<char>, Seq<char>)> {
    seq![

    ]
}

fn org_info_fields_data() -> (r: (Vec<(&'static str, &'static str, bool)>, Vec<(&'static str, &'static str, &'static str)>))
    ensures
        field_views(r.0@) == org_info_fields_fields(),
        block_views(r.1@) == org_info_fields_blocks(),
{
    let mut f: Vec<(&'static str, &'static str, bool)> = Vec::new();
    f.push(("org_name", "Organization display name", false));
    f.push(("org_logo_url", "Organization logo URL", false));
    f.push(("org_logo_url_light_background", "Logo URL for light backgrounds", false));
    f.push(("contact_url", "Support contact URL", false));
    let mut b: Vec<(&'static str, &'static str, &'static str)> = Vec::new();

    assert(field_views(f@) =~= org_info_fields_fields());
    assert(block_views(b@) =~= org_info_fields_blocks());
    (f, b)
}

/// Suggestions for `org info fields`: its keys, then its snippets.
pub fn complete_org_info_fields() -> (r: Vec<CompletionItem>)
    ensures
        items_ok(item_views(r@), org_info_fields_fields(), org_info_fields_blocks(), false),
{
    let (f, b) = org_info_fields_data();
    build_items(&f, &b, false)
}

/// The keys suggested by `complete_agent_options_section`.
pub open spec fn agent_options_section_fields() -> Seq<(Seq<char>, Seq<char>, bool)> {
    seq![
        ("path"@, "Reference to external agent options YAML file"@, false),
        ("config"@, "osquery configuration options"@, false),
        ("update_channels"@, "Fleet component update channels"@, false),
        ("command_line_flags"@, "osquery command-line flags"@, false),
        ("extensions"@, "osquery extensions to load"@, false),
    ]
}

/// The snippets suggested by `complete_agent_options_section`.
pub open spec fn agent_options_section_blocks() -> Seq<(Seq<char>, Seq<char>, Seq<char>)> {
    seq![
        ("config"@, "osquery config (block)"@, "config:\n  options:\n    distributed_interval: ${1:10}\n    logger_tls_period: ${2:10}"@),
    ]
}

fn agent_options_section_data() -> (r: (Vec<(&'static str, &'static str, bool)>, Vec<(&'static str, &'static str, &'static str)>))
    ensures
        field_views(r.0@) == agent_options_section_fields(),
        block_views(r.1@) == agent_options_section_blocks(),
{
    let mut f: Vec<(&'static str, &'static str, bool)> = Vec::new();
    f.push(("path", "Reference to external agent options YAML file", false));
    f.push(("config", "osquery configuration options", false));
    f.push(("update_channels", "Fleet component update channels", false));
    f.push(("command_line_flags", "osquery command-line flags", false));
    f.push(("extensions", "osquery extensions to load", false));
    let mut b: Vec<(&'static str, &'static str, &'static str)> = Vec::new();
    b.push(("config", "osquery config (block)", "config:\n  options:\n    distributed_interval: ${1:10}\n    logger_tls_period: ${2:10}"));
    assert(field_views(f@) =~= agent_options_section_fields());
    assert(block_views(b@) =~= agent_options_section_blocks());
    (f, b)
}

/// Suggestions for `agent options section`: its keys, then its snippets.
pub fn complete_agent_options_section() -> (r: Vec<CompletionItem>)
    ensures
        items_ok(item_views(r@), agent_options_section_fields(), agent_options_section_blocks(), true),
{
    let (f, b) = agent_options_section_data();
    build_items(&f, &b, true)
}

/// The keys suggested by `complete_policy_fields`.
pub open spec fn policy_fields_fields() -> Seq<(Seq<char>, Seq<char>, bool)> {
    seq![
        ("path"@, "Reference to external policy YAML file"@, false),
        ("paths"@, "Glob pattern for external policy YAML files"@, false),
        ("name"@, "Policy display name (for inline definitions)"@, true),
        ("description"@, "What this policy checks"@, false),
        ("query"@, "osquery SQL query (auto-generated when type: patch)"@, true),
        ("platform"@, "Target operating system"@, false),
        ("critical"@, "Whether policy is critical (Fleet Premium)"@, false),
        ("resolution"@, "How to fix policy failures"@, false),
        ("team"@, "Team this policy belongs to"@, false),
        ("type"@, "Policy type: dynamic (default) or patch"@, false),
        ("fleet_maintained_app_slug"@, "FMA slug for patch policies (e.g. zoom/darwin)"@, false),
        ("software_title_id"@, "ID of software to install on failure"@, false),
        ("script_id"@, "ID of script to run on failure"@, false),
        ("install_software"@, "Install a custom package or FMA on policy failure (fleet-only)"@, false),
        ("run_script"@, "Run a script on policy failure (fleet-only)"@, false),
        ("calendar_events_enabled"@, "Create calendar reminders (fleet-only)"@, false),
        ("conditional_access_enabled"@, "Gate resource access on policy pass (Fleet Premium)"@, false),
        ("conditional_access_bypass_enabled"@, "Allow conditional-access bypass (Fleet Premium)"@, false),
        ("labels_include_any"@, "Target hosts with any of these labels"@, false),
        ("labels_include_all"@, "Target hosts with all of these labels"@, false),
        ("labels_exclude_any"@, "Exclude hosts with any of these labels"@, false),
    ]
}

/// The snippets suggested by `complete_policy_fields`.
pub open spec fn policy_fields_blocks() -> Seq<(Seq<char>, Seq<char>, Seq<char>)> {
    seq![

    ]
}

fn policy_fields_data() -> (r: (Vec<(&'static str, &'static str, bool)>, Vec<(&'static str, &'static str, &'static str)>))
    ensures
        field_views(r.0@) == policy_fields_fields(),
        block_views(r.1@) == policy_fields_blocks(),
{
    let mut f: Vec<(&'static str, &'static str, bool)> = Vec::new();
    f.push(("path", "Reference to external policy YAML file", false));
    f.push(("paths", "Glob pattern for external policy YAML files", false));
    f.push(("name", "Policy display name (for inline definitions)", true));
    f.push(("description", "What this policy checks", false));
    f.push(("query", "osquery SQL query (auto-generated when type: patch)", true));
    f.push(("platform", "Target operating system", false));
    f.push(("critical", "Whether policy is critical (Fleet Premium)", false));
    f.push(("resolution", "How to fix policy failures", false));
    f.push(("team", "Team this policy belongs to", false));
    f.push(("type", "Policy type: dynamic (default) or patch", false));
    f.push(("fleet_maintained_app_slug", "FMA slug for patch policies (e.g. zoom/darwin)", false));
    f.push(("software_title_id", "ID of software to install on failure", false));
    f.push(("script_id", "ID of script to run on failure", false));
    f.push(("install_software", "Install a custom package or FMA on policy failure (fleet-only)", false));
    f.push(("run_script", "Run a script on policy failure (fleet-only)", false));
    f.push(("calendar_events_enabled", "Create calendar reminders (fleet-only)", false));
    f.push(("conditional_access_enabled", "Gate resource access on policy pass (Fleet Premium)", false));
    f.push(("conditional_access_bypass_enabled", "Allow conditional-access bypass (Fleet Premium)", false));
    f.push(("labels_include_any", "Target hosts with any of these labels", false));
    f.push(("labels_include_all", "Target hosts with all of these labels", false));
    f.push(("labels_exclude_any", "Exclude hosts with any of these labels", false));
    let mut b: Vec<(&'static str, &'static str, &'static str)> = Vec::new();

    assert(field_views(f@) =~= policy_fields_fields());
    assert(block_views(b@) =~= policy_fields_blocks());
    (f, b)
}

/// The keys suggested by `complete_query_fields`.
pub open spec fn query_fields_fields() -> Seq<(Seq<char>, Seq<char>, bool)> {
    seq![
        ("path"@, "Reference to external query YAML file"@, false),
        ("paths"@, "Glob pattern for external query YAML files"@, false),
        ("name"@, "Query display name (for inline definitions)"@, true),
        ("description"@, "What this query collects"@, false),
        ("query"@, "osquery SQL query"@, true),
        ("interval"@, "How often to run (seconds)"@, false),
        ("platform"@, "Target operating system"@, false),
        ("logging"@, "How results are logged"@, false),
        ("min_osquery_version"@, "Minimum osquery version"@, false),
        ("observer_can_run"@, "Allow observers to run"@, false),
        ("automations_enabled"@, "Enable automations"@, false),
    ]
}

/// The snippets suggested by `complete_query_fields`.
pub open spec fn query_fields_blocks() -> Seq<(Seq<char>, Seq<char>, Seq<char>)> {
    seq![

    ]
}

fn query_fields_data() -> (r: (Vec<(&'static str, &'static str, bool)>, Vec<(&'static str, &'static str, &'static str)>))
    ensures
        field_views(r.0@) == query_fields_fields(),
        block_views(r.1@) == query_fields_blocks(),
{
    let mut f: Vec<(&'static str, &'static str, bool)> = Vec::new();
    f.push(("path", "Reference to external query YAML file", false));
    f.push(("paths", "Glob pattern for external query YAML files", false));
    f.push(("name", "Query display name (for inline definitions)", true));
    f.push(("description", "What this query collects", false));
    f.push(("query", "osquery SQL query", true));
    f.push(("interval", "How often to run (seconds)", false));
    f.push(("platform", "Target operating system", false));
    f.push(("logging", "How results are logged", false));
    f.push(("min_osquery_version", "Minimum osquery version", false));
    f.push(("observer_can_run", "Allow observers to run", false));
    f.push(("automations_enabled", "Enable automations", false));
    let mut b: Vec<(&'static str, &'static str, &'static str)> = Vec::new();

    assert(field_views(f@) =~= query_fields_fields());
    assert(block_views(b@) =~= query_fields_blocks());
    (f, b)
}

/// The keys suggested by `complete_label_fields`.
pub open spec fn label_fields_fields() -> Seq<(Seq<char>, Seq<char>, bool)> {
    seq![
        ("path"@, "Reference to external label YAML file"@, false),
        ("paths"@, "Glob pattern for external label YAML files"@, false),
        ("name"@, "Label display name (for inline definitions)"@, true),
        ("description"@, "What hosts this label identifies"@, false),
        ("query"@, "osquery query for dynamic labels"@, false),
        ("platform"@, "Target operating system"@, false),
        ("label_membership_type"@, "dynamic, manual, or host_vitals"@, false),
        ("hosts"@, "List of hosts (manual labels)"@, false),
        ("criteria"@, "Host vital criteria (host_vitals labels)"@, false),
    ]
}

/// The snippets suggested by `complete_label_fields`.
pub open spec fn label_fields_blocks() -> Seq<(Seq<char>, Seq<char>, Seq<char>)> {
    seq![

    ]
}

fn label_fields_data() -> (r: (Vec<(&'static str, &'static str, bool)>, Vec<(&'static str, &'static str, &'static str)>))
    ensures
        field_views(r.0@) == label_fields_fields(),
        block_views(r.1@) == label_fields_blocks(),
{
    let mut f: Vec<(&'static str, &'static str, bool)> = Vec::new();
    f.push(("path", "Reference to external label YAML file", false));
    f.push(("paths", "Glob pattern for external label YAML files", false));
    f.push(("name", "Label display name (for inline definitions)", true));
    f.push(("description", "What hosts this label identifies", false));
    f.push(("query", "osquery query for dynamic labels", false));
    f.push(("platform", "Target operating system", false));
    f.push(("label_membership_type", "dynamic, manual, or host_vitals", false));
    f.push(("hosts", "List of hosts (manual labels)", false));
    f.push(("criteria", "Host vital criteria (host_vitals labels)", false));
    let mut b: Vec<(&'static str, &'static str, &'static str)> = Vec::new();

    assert(field_views(f@) =~= label_fields_fields());
    assert(block_views(b@) =~= label_fields_blocks());
    (f, b)
}

/// The keys suggested by `complete_criteria_fields`.
pub open spec fn criteria_fields_fields() -> Seq<(Seq<char>, Seq<char>, bool)> {
    seq![
        ("vital"@, "Host vital identifier (end_user_idp_group or end_user_idp_department)"@, true),
        ("value"@, "Hosts whose vital matches this value join the label"@, true),
    ]
}

/// The snippets suggested by `complete_criteria_fields`.
pub open spec fn criteria_fields_blocks() -> Seq<(Seq<char>, Seq<char>, Seq<char>)> {
    seq![

    ]
}

fn criteria_fields_data() -> (r: (Vec<(&'static str, &'static str, bool)>, Vec<(&'static str, &'static str, &'static str)>))
    ensures
        field_views(r.0@) == criteria_fields_fields(),
        block_views(r.1@) == criteria_fields_blocks(),
{
    let mut f: Vec<(&'static str, &'static str, bool)> = Vec::new();
    f.push(("vital", "Host vital identifier (end_user_idp_group or end_user_idp_department)", true));
    f.push(("value", "Hosts whose vital matches this value join the label", true));
    let mut b: Vec<(&'static str, &'static str, &'static str)> = Vec::new();

    assert(field_views(f@) =~= criteria_fields_fields());
    assert(block_views(b@) =~= criteria_fields_blocks());
    (f, b)
}

/// The keys suggested by `complete_custom_setting_fields`.
pub open spec fn custom_setting_fields_fields() -> Seq<(Seq<char>, Seq<char>, bool)> {
    seq![
        ("path"@, "Path to configuration profile file"@, true),
        ("paths"@, "Glob pattern for configuration profile files"@, false),
        ("labels_include_any"@, "Only apply to hosts with these labels"@, false),
        ("labels_exclude_any"@, "Don't apply to hosts with these labels"@, false),
    ]
}

/// The snippets suggested by `complete_custom_setting_fields`.
pub open spec fn custom_setting_fields_blocks() -> Seq<(Seq<char>, Seq<char>, Seq<char>)> {
    seq![

    ]
}

fn custom_setting_fields_data() -> (r: (Vec<(&'static str, &'static str, bool)>, Vec<(&'static str, &'static str, &'static str)>))
    ensures
        field_views(r.0@) == custom_setting_fields_fields(),
        block_views(r.1@) == custom_setting_fields_blocks(),
{
    let mut f: Vec<(&'static str, &'static str, bool)> = Vec::new();
    f.push(("path", "Path to configuration profile file", true));
    f.push(("paths", "Glob pattern for configuration profile files", false));
    f.push(("labels_include_any", "Only apply to hosts with these labels", false));
    f.push(("labels_exclude_any", "Don't apply to hosts with these labels", false));
    let mut b: Vec<(&'static str, &'static str, &'static str)> = Vec::new();

    assert(field_views(f@) =~= custom_setting_fields_fields());
    assert(block_views(b@) =~= custom_setting_fields_blocks());
    (f, b)
}

// ============================================================================
// Suggestions by context
// ============================================================================

/// The top-level keys; with `future_names`, `reports` replaces `queries`
/// and `settings` is added.
pub open spec fn top_fields(future_names: bool) -> Seq<(Seq<char>, Seq<char>, bool)> {
    seq![
        ("name"@, "Team or configuration name"@, true),
        ("policies"@, "List of compliance policies"@, true),
        if future_names {
            ("reports"@, "List of osquery queries (future name for queries)"@, true)
        } else {
            ("queries"@, "List of osquery queries"@, true)
        },
        ("labels"@, "List of host labels"@, true),
        ("agent_options"@, "osquery agent configuration"@, true),
        ("controls"@, "MDM controls and settings"@, true),
        ("software"@, "Software packages to install"@, true),
        ("org_settings"@, "Organization-wide settings (global config only)"@, true),
        ("team_settings"@, "Team-specific settings"@, true),
        ("webhook_settings"@, "Webhook notification configuration"@, true),
    ] + if future_names {
        seq![("settings"@, "Team settings (future name for team_settings)"@, true)]
    } else {
        Seq::empty()
    }
}

/// The top-level snippets; with `future_names`, `reports` replaces
/// `queries` and `settings` is added.
pub open spec fn top_blocks(future_names: bool) -> Seq<(Seq<char>, Seq<char>, Seq<char>)> {
    seq![
        ("policies"@, "Policy list (block)"@, "policies:\n  - name: ${1:Policy name}\n    query: ${2:SELECT 1}\n    platform: ${3:darwin}\n    critical: ${4:false}"@),
        if future_names {
            ("reports"@, "Query/report list (block)"@, "reports:\n  - name: ${1:Query name}\n    query: ${2:SELECT 1}\n    interval: ${3:300}\n    platform: ${4:darwin}"@)
        } else {
            ("queries"@, "Query list (block)"@, "queries:\n  - name: ${1:Query name}\n    query: ${2:SELECT 1}\n    interval: ${3:300}\n    platform: ${4:darwin}"@)
        },
        ("labels"@, "Label list (block)"@, "labels:\n  - name: ${1:Label name}\n    query: ${2:SELECT 1}\n    label_membership_type: ${3:dynamic}"@),
        ("controls"@, "MDM controls (block)"@, "controls:\n  enable_disk_encryption: ${1:true}"@),
        ("software"@, "Software section (block)"@, "software:\n  packages:\n    - path: ${1:../lib/package.yml}"@),
        ("agent_options"@, "Agent options (block)"@, "agent_options:\n  config:\n    options:\n      distributed_interval: ${1:10}"@),
        ("org_settings"@, "Organization settings (block)"@, "org_settings:\n  server_settings:\n    server_url: ${1:https://}\n  org_info:\n    org_name: ${2:Organization}"@),
        ("team_settings"@, "Team settings (block)"@, "team_settings:\n  features:\n    enable_host_users: ${1:true}\n    enable_software_inventory: ${2:true}"@),
    ] + if future_names {
        seq![("settings"@, "Team settings (block)"@, "settings:\n  features:\n    enable_host_users: ${1:true}\n    enable_software_inventory: ${2:true}"@)]
    } else {
        Seq::empty()
    }
}

/// Suggestions at the top level of a document: the top-level keys, then
/// their snippets.
pub fn complete_top_level_fields(future_names: bool) -> (r: Vec<CompletionItem>)
    ensures
        items_ok(item_views(r@), top_fields(future_names), top_blocks(future_names), true),
{
    let mut f: Vec<(&'static str, &'static str, bool)> = Vec::new();
    f.push(("name", "Team or configuration name", true));
    f.push(("policies", "List of compliance policies", true));
    if future_names {
        f.push(("reports", "List of osquery queries (future name for queries)", true));
    } else {
        f.push(("queries", "List of osquery queries", true));
    }
    f.push(("labels", "List of host labels", true));
    f.push(("agent_options", "osquery agent configuration", true));
    f.push(("controls", "MDM controls and settings", true));
    f.push(("software", "Software packages to install", true));
    f.push(("org_settings", "Organization-wide settings (global config only)", true));
    f.push(("team_settings", "Team-specific settings", true));
    f.push(("webhook_settings", "Webhook notification configuration", true));
    if future_names {
        f.push(("settings", "Team settings (future name for team_settings)", true));
    }
    assert(field_views(f@) =~= top_fields(future_names));
    let mut b: Vec<(&'static str, &'static str, &'static str)> = Vec::new();
    b.push(("policies", "Policy list (block)", "policies:\n  - name: ${1:Policy name}\n    query: ${2:SELECT 1}\n    platform: ${3:darwin}\n    critical: ${4:false}"));
    if future_names {
        b.push(("reports", "Query/report list (block)", "reports:\n  - name: ${1:Query name}\n    query: ${2:SELECT 1}\n    interval: ${3:300}\n    platform: ${4:darwin}"));
    } else {
        b.push(("queries", "Query list (block)", "queries:\n  - name: ${1:Query name}\n    query: ${2:SELECT 1}\n    interval: ${3:300}\n    platform: ${4:darwin}"));
    }
    b.push(("labels", "Label list (block)", "labels:\n  - name: ${1:Label name}\n    query: ${2:SELECT 1}\n    label_membership_type: ${3:dynamic}"));
    b.push(("controls", "MDM controls (block)", "controls:\n  enable_disk_encryption: ${1:true}"));
    b.push(("software", "Software section (block)", "software:\n  packages:\n    - path: ${1:../lib/package.yml}"));
    b.push(("agent_options", "Agent options (block)", "agent_options:\n  config:\n    options:\n      distributed_interval: ${1:10}"));
    b.push(("org_settings", "Organization settings (block)", "org_settings:\n  server_settings:\n    server_url: ${1:https://}\n  org_info:\n    org_name: ${2:Organization}"));
    b.push(("team_settings", "Team settings (block)", "team_settings:\n  features:\n    enable_host_users: ${1:true}\n    enable_software_inventory: ${2:true}"));
    if future_names {
        b.push(("settings", "Team settings (block)", "settings:\n  features:\n    enable_host_users: ${1:true}\n    enable_software_inventory: ${2:true}"));
    }
    assert(block_views(b@) =~= top_blocks(future_names));
    build_items(&f, &b, true)
}

/// The values of a policy's `type`.
pub open spec fn policy_type_pairs() -> Seq<(Seq<char>, Seq<char>)> {
    seq![
        ("dynamic"@, "Classic policy with an editable query"@),
        ("patch"@, "Patch policy tied to a Fleet-Maintained App (requires fleet_maintained_app_slug)"@),
    ]
}

/// The values of a label's `label_membership_type`.
pub open spec fn membership_pairs() -> Seq<(Seq<char>, Seq<char>)> {
    seq![
        ("dynamic"@, "Membership via query"@),
        ("manual"@, "Explicit host assignment"@),
        ("host_vitals"@, "Membership via host vital criteria"@),
    ]
}

/// The values of a criteria's `vital`.
pub open spec fn vital_pairs() -> Seq<(Seq<char>, Seq<char>)> {
    seq![
        ("end_user_idp_group"@, "Host's IdP group (from end-user SSO)"@),
        ("end_user_idp_department"@, "Host's IdP department (from end-user SSO)"@),
    ]
}

/// Whether the cursor is in the value of `key`.
fn key_is(line: &str, col_idx: usize, key: &str) -> (r: bool)
    requires
        text::source_fits(line@),
    ensures
        r == (key_at_cursor(line@, col_idx as int) == Some(key@)),
{
    match get_key_at_cursor(line, col_idx) {
        Some(k) => text::str_eq(k.as_str(), key),
        None => false,
    }
}

/// Suggestions inside a policy: platform or type values after those keys,
/// else the policy keys.
pub open spec fn policy_items_ok(line: Seq<char>, col: int, items: Seq<ItemView>) -> bool {
    if key_at_cursor(line, col) == Some("platform"@) {
        items == value_items(platform_doc_table())
    } else if key_at_cursor(line, col) == Some("type"@) {
        items == value_items(policy_type_pairs())
    } else {
        items_ok(items, policy_fields_fields(), Seq::empty(), false)
    }
}

/// Suggestions inside a policy.
pub fn complete_policy_fields(line: &str, col_idx: usize) -> (r: Vec<CompletionItem>)
    requires
        text::source_fits(line@),
    ensures
        policy_items_ok(line@, col_idx as int, item_views(r@)),
{
    if key_is(line, col_idx, "platform") {
        return complete_platform_values();
    }
    if key_is(line, col_idx, "type") {
        let mut v: Vec<(&'static str, &'static str)> = Vec::new();
        v.push(("dynamic", "Classic policy with an editable query"));
        v.push(("patch", "Patch policy tied to a Fleet-Maintained App (requires fleet_maintained_app_slug)"));
        assert(pair_views(v@) =~= policy_type_pairs());
        return build_values(&v);
    }
    let (f, b) = policy_fields_data();
    assert(block_views(b@) =~= Seq::<(Seq<char>, Seq<char>, Seq<char>)>::empty());
    build_items(&f, &b, false)
}

/// Suggestions inside a query: platform or logging values after those
/// keys, else the query keys.
pub open spec fn query_items_ok(line: Seq<char>, col: int, items: Seq<ItemView>) -> bool {
    if key_at_cursor(line, col) == Some("platform"@) {
        items == value_items(platform_doc_table())
    } else if key_at_cursor(line, col) == Some("logging"@) {
        items == value_items(logging_doc_table())
    } else {
        items_ok(items, query_fields_fields(), Seq::empty(), false)
    }
}

/// Suggestions inside a query.
pub fn complete_query_fields(line: &str, col_idx: usize) -> (r: Vec<CompletionItem>)
    requires
        text::source_fits(line@),
    ensures
        query_items_ok(line@, col_idx as int, item_views(r@)),
{
    if key_is(line, col_idx, "platform") {
        return complete_platform_values();
    }
    if key_is(line, col_idx, "logging") {
        return complete_logging_values();
    }
    let (f, b) = query_fields_data();
    assert(block_views(b@) =~= Seq::<(Seq<char>, Seq<char>, Seq<char>)>::empty());
    build_items(&f, &b, false)
}

/// Suggestions inside a label: platform or membership-type values after
/// those keys, else the label keys.
pub open spec fn label_items_ok(line: Seq<char>, col: int, items: Seq<ItemView>) -> bool {
    if key_at_cursor(line, col) == Some("platform"@) {
        items == value_items(platform_doc_table())
    } else if key_at_cursor(line, col) == Some("label_membership_type"@) {
        items == value_items(membership_pairs())
    } else {
        items_ok(items, label_fields_fields(), Seq::empty(), false)
    }
}

/// Suggestions inside a label.
pub fn complete_label_fields(line: &str, col_idx: usize) -> (r: Vec<CompletionItem>)
    requires
        text::source_fits(line@),
    ensures
        label_items_ok(line@, col_idx as int, item_views(r@)),
{
    if key_is(line, col_idx, "platform") {
        return complete_platform_values();
    }
    if key_is(line, col_idx, "label_membership_type") {
        let mut v: Vec<(&'static str, &'static str)> = Vec::new();
        v.push(("dynamic", "Membership via query"));
        v.push(("manual", "Explicit host assignment"));
        v.push(("host_vitals", "Membership via host vital criteria"));
        assert(pair_views(v@) =~= membership_pairs());
        return build_values(&v);
    }
    let (f, b) = label_fields_data();
    assert(block_views(b@) =~= Seq::<(Seq<char>, Seq<char>, Seq<char>)>::empty());
    build_items(&f, &b, false)
}

/// Suggestions inside a label's criteria: vital values after `vital:`, else
/// the criteria keys.
pub open spec fn criteria_items_ok(line: Seq<char>, col: int, items: Seq<ItemView>) -> bool {
    if key_at_cursor(line, col) == Some("vital"@) {
        items == value_items(vital_pairs())
    } else {
        items_ok(items, criteria_fields_fields(), Seq::empty(), false)
    }
}

/// Suggestions inside a label's criteria.
pub fn complete_criteria_fields(line: &str, col_idx: usize) -> (r: Vec<CompletionItem>)
    requires
        text::source_fits(line@),
    ensures
        criteria_items_ok(line@, col_idx as int, item_views(r@)),
{
    if key_is(line, col_idx, "vital") {
        let mut v: Vec<(&'static str, &'static str)> = Vec::new();
        v.push(("end_user_idp_group", "Host's IdP group (from end-user SSO)"));
        v.push(("end_user_idp_department", "Host's IdP department (from end-user SSO)"));
        assert(pair_views(v@) =~= vital_pairs());
        return build_values(&v);
    }
    let (f, b) = criteria_fields_data();
    assert(block_views(b@) =~= Seq::<(Seq<char>, Seq<char>, Seq<char>)>::empty());
    build_items(&f, &b, false)
}

/// Suggestions inside a custom setting: nothing in a label list's value,
/// else the custom-setting keys.
pub open spec fn custom_setting_items_ok(line: Seq<char>, col: int, items: Seq<ItemView>) -> bool {
    if key_at_cursor(line, col) == Some("labels_include_any"@) || key_at_cursor(line, col) == Some(
        "labels_exclude_any"@,
    ) {
        items.len() == 0
    } else {
        items_ok(items, custom_setting_fields_fields(), Seq::empty(), false)
    }
}

/// Suggestions inside a custom setting.
pub fn complete_custom_setting_fields(line: &str, col_idx: usize) -> (r: Vec<CompletionItem>)
    requires
        text::source_fits(line@),
    ensures
        custom_setting_items_ok(line@, col_idx as int, item_views(r@)),
{
    if key_is(line, col_idx, "labels_include_any") || key_is(line, col_idx, "labels_exclude_any") {
        let r: Vec<CompletionItem> = Vec::new();
        assert(item_views(r@).len() == 0);
        return r;
    }
    let (f, b) = custom_setting_fields_data();
    assert(block_views(b@) =~= Seq::<(Seq<char>, Seq<char>, Seq<char>)>::empty());
    build_items(&f, &b, false)
}

// ============================================================================
// File path suggestions
// ============================================================================

/// How deep below a listed top-level directory a path scan descends.
pub const MAX_SCAN_DEPTH: usize = 5;

/// A top-level directory that a path scan leaves out: hidden directories,
/// build output and installed packages.
pub open spec fn skipped_scan_dir(name: Seq<char>) -> bool {
    ||| (name.len() > 0 && name[0] == '.')
    ||| name == "target"@
    ||| name == "node_modules"@
    ||| name == "dist"@
}

/// Whether a top-level directory is left out of a path scan.
pub fn skip_scan_dir(name: &str) -> (r: bool)
    ensures
        r == skipped_scan_dir(name@),
{
    let n = chars_of(name);
    (n.len() > 0 && n[0] == '.') || text::eq_str(&n, "target") || text::eq_str(&n, "node_modules")
        || text::eq_str(&n, "dist")
}

/// How a path suggestion describes its kind of file.
pub open spec fn kind_desc(ctx: PathContextType) -> Seq<char> {
    match ctx {
        PathContextType::SoftwarePackage => "Software package"@,
        PathContextType::Script => "Script"@,
        PathContextType::MacOSProfile => "macOS profile"@,
        PathContextType::WindowsProfile => "Windows profile"@,
        PathContextType::Policy => "Policy definition"@,
        PathContextType::Query => "Query definition"@,
        PathContextType::Label => "Label definition"@,
        PathContextType::Generic => "File"@,
    }
}

fn kind_desc_exec(ctx: &PathContextType) -> (r: &'static str)
    ensures
        r@ == kind_desc(*ctx),
{
    match ctx {
        PathContextType::SoftwarePackage => "Software package",
        PathContextType::Script => "Script",
        PathContextType::MacOSProfile => "macOS profile",
        PathContextType::WindowsProfile => "Windows profile",
        PathContextType::Policy => "Policy definition",
        PathContextType::Query => "Query definition",
        PathContextType::Label => "Label definition",
        PathContextType::Generic => "File",
    }
}

/// A file suggestion: the label is the relative path, the detail names the
/// kind of file and its name, the documentation shows the full path.
pub open spec fn path_item(rel: Seq<char>, abs: Seq<char>, ctx: PathContextType) -> ItemView {
    let name = file_name(abs);
    ItemView {
        label: rel,
        kind: Some(CompletionItemKind::File),
        detail: Some(kind_desc(ctx) + ": "@ + name),
        documentation: Some("**"@ + name + "**\n\nPath: `"@ + abs + "`"@),
        insert_text: None,
        snippet: false,
        adjust_indentation: false,
        filter_text: None,
        sort_text: None,
        text_edit: None,
    }
}

/// A suggestion for a file, shown by its relative path.
pub fn create_path_completion(relative_path: &str, absolute_path: &str, context_type: &PathContextType) -> (r:
    CompletionItem)
    ensures
        r@ == path_item(relative_path@, absolute_path@, *context_type),
{
    let name = file_name_exec(&chars_of(absolute_path));
    let detail = concat(&concat(&chars_of(kind_desc_exec(context_type)), &chars_of(": ")), &name);
    let mut doc = concat(&concat(&chars_of("**"), &name), &chars_of("**\n\nPath: `"));
    doc = concat(&concat(&doc, &chars_of(absolute_path)), &chars_of("`"));
    CompletionItem {
        label: relative_path.to_owned(),
        kind: Some(CompletionItemKind::File),
        detail: Some(string_of(&detail)),
        documentation: Some(string_of(&doc)),
        insert_text: None,
        snippet: false,
        adjust_indentation: false,
        filter_text: None,
        sort_text: None,
        text_edit: None,
    }
}

/// The same suggestion, set to replace the line from byte column `start` to
/// the cursor with its label.
pub open spec fn edited(it: ItemView, line_idx: nat, start: nat, col: nat) -> ItemView {
    ItemView {
        label: it.label,
        kind: it.kind,
        detail: it.detail,
        documentation: it.documentation,
        insert_text: it.insert_text,
        snippet: it.snippet,
        adjust_indentation: it.adjust_indentation,
        filter_text: Some(it.label),
        sort_text: it.sort_text,
        text_edit: Some(
            (
                Position { line: line_idx as u32, character: start as u32 },
                Position { line: line_idx as u32, character: col as u32 },
                it.label,
            ),
        ),
    }
}

/// The byte column where the value after the line's first colon starts,
/// past the whitespace that follows the colon.
pub open spec fn value_start(line: Seq<char>) -> Option<nat> {
    match text::find_char(line, ':') {
        Some(k) => Some((byte_len(line) - byte_len(text::trim_start(line.skip(k + 1)))) as nat),
        None => None,
    }
}

/// A file is offered: its extension suits the context, and the path typed
/// so far is empty or occurs in its relative path, ignoring case.
pub open spec fn path_offered(file: Seq<char>, rel: Seq<char>, ctx: PathContextType, partial: Seq<char>) -> bool {
    &&& matches_context(file, ctx)
    &&& (partial.len() == 0 || text::contains(text::unicode_lower(rel), text::unicode_lower(partial)))
}

/// The suggestions for the listed files, in listing order: one for each
/// offered file, carrying the replacing edit when the line has a value
/// column.
pub open spec fn path_candidates(
    files: Seq<Seq<char>>,
    current: Option<Seq<char>>,
    base: Seq<char>,
    ctx: PathContextType,
    partial: Seq<char>,
    edit: Option<(nat, nat, nat)>,
) -> Seq<ItemView>
    decreases files.len(),
{
    if files.len() == 0 {
        Seq::empty()
    } else {
        let prev = path_candidates(files.drop_last(), current, base, ctx, partial, edit);
        let f = files.last();
        let rel = crate::paths::relative_path(f, current, base);
        if path_offered(f, rel, ctx, partial) {
            let it = path_item(rel, f, ctx);
            prev.push(
                match edit {
                    Some((l, s, c)) => edited(it, l, s, c),
                    None => it,
                },
            )
        } else {
            prev
        }
    }
}

/// `a` sorts no later than `b` in code-point order, which is the byte order
/// of their UTF-8 text.
pub open spec fn label_le(a: Seq<char>, b: Seq<char>) -> bool
    decreases a.len(),
{
    if a.len() == 0 {
        true
    } else if b.len() == 0 {
        false
    } else if a[0] < b[0] {
        true
    } else if a[0] == b[0] {
        label_le(a.skip(1), b.skip(1))
    } else {
        false
    }
}

/// `x` placed into a list sorted by label, after every item whose label
/// sorts no later than its own.
pub open spec fn insert_sorted(s: Seq<ItemView>, x: ItemView) -> Seq<ItemView>
    decreases s.len(),
{
    if s.len() == 0 {
        seq![x]
    } else if label_le(s.last().label, x.label) {
        s.push(x)
    } else {
        insert_sorted(s.drop_last(), x).push(s.last())
    }
}

/// The items stably sorted by label.
pub open spec fn sort_by_label(s: Seq<ItemView>) -> Seq<ItemView>
    decreases s.len(),
{
    if s.len() == 0 {
        s
    } else {
        insert_sorted(sort_by_label(s.drop_last()), s.last())
    }
}

/// Every item sorts no later than each item after it.
pub open spec fn sorted_by_label(s: Seq<ItemView>) -> bool {
    forall|i: int, j: int| 0 <= i < j < s.len() ==> label_le(#[trigger] s[i].label, #[trigger] s[j].label)
}

proof fn lemma_label_le_total(a: Seq<char>, b: Seq<char>)
    ensures
        label_le(a, b) || label_le(b, a),
    decreases a.len(),
{
    if a.len() > 0 && b.len() > 0 && a[0] == b[0] {
        lemma_label_le_total(a.skip(1), b.skip(1));
    }
}

proof fn lemma_label_le_trans(a: Seq<char>, b: Seq<char>, c: Seq<char>)
    requires
        label_le(a, b),
        label_le(b, c),
    ensures
        label_le(a, c),
    decreases a.len(),
{
    if a.len() > 0 && b.len() > 0 && c.len() > 0 && a[0] == b[0] && b[0] == c[0] {
        lemma_label_le_trans(a.skip(1), b.skip(1), c.skip(1));
    }
}

proof fn lemma_insert_sorted(s: Seq<ItemView>, x: ItemView)
    requires
        sorted_by_label(s),
    ensures
        sorted_by_label(insert_sorted(s, x)),
        insert_sorted(s, x).to_multiset() =~= s.to_multiset().insert(x),
    decreases s.len(),
{
    broadcast use vstd::seq_lib::group_to_multiset_ensures;

    if s.len() == 0 {
        assert(seq![x] =~= Seq::<ItemView>::empty().push(x));
    } else if label_le(s.last().label, x.label) {
        let r = s.push(x);
        assert forall|i: int, j: int| 0 <= i < j < r.len() implies label_le(#[trigger] r[i].label, #[trigger] r[j].label) by {
            if j == s.len() {
                if i < s.len() - 1 {
                    lemma_label_le_trans(s[i].label, s.last().label, x.label);
                }
            } else {
                assert(r[i] == s[i] && r[j] == s[j]);
            }
        }
    } else {
        let p = s.drop_last();
        let l = s.last();
        assert(sorted_by_label(p));
        lemma_insert_sorted(p, x);
        lemma_label_le_total(l.label, x.label);
        let q = insert_sorted(p, x);
        let r = q.push(l);
        assert(s =~= p.push(l));
        assert forall|k: int| 0 <= k < q.len() implies label_le(#[trigger] q[k].label, l.label) by {
            assert(q.to_multiset().count(q[k]) > 0);
            if q[k] != x {
                assert(p.to_multiset().count(q[k]) > 0);
                assert(p.contains(q[k]));
                let m = choose|m: int| 0 <= m < p.len() && p[m] == q[k];
                assert(s[m] == p[m]);
            }
        }
        assert forall|i: int, j: int| 0 <= i < j < r.len() implies label_le(#[trigger] r[i].label, #[trigger] r[j].label) by {
            if j == q.len() {
                assert(r[i] == q[i]);
            } else {
                assert(r[i] == q[i] && r[j] == q[j]);
            }
        }
    }
}

proof fn lemma_sort_by_label(s: Seq<ItemView>)
    ensures
        sorted_by_label(sort_by_label(s)),
        sort_by_label(s).to_multiset() =~= s.to_multiset(),
    decreases s.len(),
{
    broadcast use vstd::seq_lib::group_to_multiset_ensures;

    if s.len() > 0 {
        lemma_sort_by_label(s.drop_last());
        lemma_insert_sorted(sort_by_label(s.drop_last()), s.last());
        assert(s =~= s.drop_last().push(s.last()));
    }
}

/// Path suggestions come out in alphabetical order of their labels, and are
/// exactly the offered files' suggestions, rearranged.
pub proof fn law_path_items_sorted(
    line: Seq<char>,
    line_idx: nat,
    col: nat,
    current: Option<Seq<char>>,
    root: Option<Seq<char>>,
    ctx: PathContextType,
    files: Seq<Seq<char>>,
)
    ensures
        sorted_by_label(file_path_items(line, line_idx, col, current, root, ctx, files)),
        crate::paths::scan_base(current, root) matches Some(base) ==> file_path_items(
            line,
            line_idx,
            col,
            current,
            root,
            ctx,
            files,
        ).to_multiset() == path_candidates(
            files,
            current,
            base,
            ctx,
            partial_path(line, col as int),
            match value_start(line) {
                Some(s) => Some((line_idx, s, col)),
                None => None,
            },
        ).to_multiset(),
{
    match crate::paths::scan_base(current, root) {
        None => {},
        Some(base) => {
            lemma_sort_by_label(
                path_candidates(
                    files,
                    current,
                    base,
                    ctx,
                    partial_path(line, col as int),
                    match value_start(line) {
                        Some(s) => Some((line_idx, s, col)),
                        None => None,
                    },
                ),
            );
        },
    }
}

/// Whether `a` sorts no later than `b` in code-point order.
pub fn label_le_exec(a: &[char], b: &[char]) -> (r: bool)
    ensures
        r == label_le(a@, b@),
{
    let mut i: usize = 0;
    assert(a@.skip(0) =~= a@);
    assert(b@.skip(0) =~= b@);
    while i < a.len() && i < b.len() && a[i] == b[i]
        invariant
            i <= a.len(),
            i <= b.len(),
            label_le(a@, b@) == label_le(a@.skip(i as int), b@.skip(i as int)),
        decreases a.len() - i,
    {
        assert(a@.skip(i as int).skip(1) =~= a@.skip(i + 1));
        assert(b@.skip(i as int).skip(1) =~= b@.skip(i + 1));
        i += 1;
    }
    if i == a.len() {
        true
    } else if i == b.len() {
        false
    } else {
        a[i] < b[i]
    }
}

/// Inserts an item into a list sorted by label, after the items whose
/// label sorts no later than its own.
fn insert_by_label(out: &mut Vec<CompletionItem>, x: CompletionItem)
    ensures
        item_views(final(out)@) == insert_sorted(item_views(old(out)@), x@),
{
    let ghost s = item_views(out@);
    let xl = chars_of(x.label.as_str());
    let mut j = out.len();
    assert(s.take(j as int) =~= s);
    assert(s.skip(j as int) =~= Seq::<ItemView>::empty());
    loop
        invariant
            j <= out.len(),
            item_views(out@) == s,
            xl@ == x@.label,
            insert_sorted(s, x@) == insert_sorted(s.take(j as int), x@) + s.skip(j as int),
        ensures
            j <= out.len(),
            item_views(out@) == s,
            insert_sorted(s, x@) == s.take(j as int).push(x@) + s.skip(j as int),
        decreases j,
    {
        if j == 0 {
            assert(s.take(0) =~= Seq::<ItemView>::empty());
            assert(insert_sorted(s.take(0), x@) =~= seq![x@]);
            break;
        }
        let le = label_le_exec(&chars_of(out[j - 1].label.as_str()), &xl);
        assert(s[j - 1] == out@[j - 1]@);
        assert(s.take(j as int).last() == s[j - 1]);
        assert(s.take(j as int).drop_last() =~= s.take(j - 1));
        if le {
            break;
        }
        assert(s.skip(j - 1) =~= seq![s[j - 1]] + s.skip(j as int));
        assert(insert_sorted(s.take(j as int), x@) + s.skip(j as int) =~= insert_sorted(s.take(j - 1), x@)
            + s.skip(j - 1));
        j -= 1;
    }
    out.insert(j, x);
    assert(item_views(out@) =~= s.take(j as int).push(x@) + s.skip(j as int));
}

/// The file suggestions for a `path:` value: the listed files (those found
/// under the subdirectories of the scan base) that are offered, each
/// carrying the replacing edit when the line has a value column, sorted by
/// label; none without a scan base.
pub open spec fn file_path_items(
    line: Seq<char>,
    line_idx: nat,
    col: nat,
    current: Option<Seq<char>>,
    root: Option<Seq<char>>,
    ctx: PathContextType,
    files: Seq<Seq<char>>,
) -> Seq<ItemView> {
    match crate::paths::scan_base(current, root) {
        None => Seq::empty(),
        Some(base) => sort_by_label(
            path_candidates(
                files,
                current,
                base,
                ctx,
                partial_path(line, col as int),
                match value_start(line) {
                    Some(s) => Some((line_idx, s, col)),
                    None => None,
                },
            ),
        ),
    }
}

/// The cursor column does not fall inside a multi-byte character of the
/// line (past the end counts as the end).
pub open spec fn col_on_boundary(line: Seq<char>, col: int) -> bool {
    text::chars_for_bytes(
        line,
        if col < byte_len(line) {
            col as nat
        } else {
            byte_len(line)
        },
    ) is Some
}

/// The byte column where the value after the first colon starts.
fn value_start_exec(lc: &Vec<char>) -> (r: Option<usize>)
    requires
        text::source_fits(lc@),
    ensures
        opt_nat(r) == value_start(lc@),
{
    match text::find_char_exec(lc, ':') {
        Some(k) => {
            let after = text::slice_range(lc, k + 1, lc.len());
            let t = text::trim_start_vec(&after);
            proof {
                assert(after@ =~= lc@.skip(k + 1));
                text::lemma_byte_len_concat(lc@.take(k + 1), after@);
                assert(lc@.take(k + 1) + after@ =~= lc@);
                let w = text::lead_ws(after@);
                text::lemma_lead_ws_bound(after@);
                text::lemma_byte_len_concat(after@.take(w as int), after@.skip(w as int));
                assert(after@.take(w as int) + after@.skip(w as int) =~= after@);
            }
            let total = text::byte_len_exec(lc);
            let rest = text::byte_len_exec(&t);
            Some(total - rest)
        },
        None => None,
    }
}

/// The view of an optional column.
pub open spec fn opt_nat(o: Option<usize>) -> Option<nat> {
    match o {
        Some(n) => Some(n as nat),
        None => None,
    }
}

/// Suggests files for a `path:` value. `files` is the listing of the files
/// under the subdirectories of the scan base (see `paths::path_scan_base`),
/// as the caller found them on disk.
pub fn complete_file_paths(
    line: &str,
    line_idx: usize,
    col_idx: usize,
    current_file: Option<&str>,
    workspace_root: Option<&str>,
    context_type: PathContextType,
    files: &[String],
) -> (r: Vec<CompletionItem>)
    requires
        text::source_fits(line@),
        col_on_boundary(line@, col_idx as int),
    ensures
        item_views(r@) == file_path_items(
            line@,
            line_idx as nat,
            col_idx as nat,
            crate::paths::opt_str(current_file),
            crate::paths::opt_str(workspace_root),
            context_type,
            string_views(files@),
        ),
{
    let partial = extract_partial_path(line, col_idx);
    let lc = chars_of(line);
    let start = value_start_exec(&lc);
    let ghost edit = match value_start(line@) {
        Some(s) => Some((line_idx as nat, s, col_idx as nat)),
        None => None,
    };
    let mut out: Vec<CompletionItem> = Vec::new();
    let base = match crate::paths::path_scan_base(current_file, workspace_root) {
        Some(b) => b,
        None => {
            assert(item_views(out@) =~= Seq::<ItemView>::empty());
            return out;
        },
    };
    let lower_partial = text::to_lowercase(partial.as_str());
    let pc = chars_of(lower_partial.as_str());
    let partial_empty = chars_of(partial.as_str()).len() == 0;
    let ghost fv = string_views(files@);
    let ghost cur = crate::paths::opt_str(current_file);
    let mut i: usize = 0;
    assert(item_views(out@) =~= sort_by_label(path_candidates(fv.take(0), cur, base@, context_type, partial@, edit)));
    while i < files.len()
        invariant
            i <= files.len(),
            fv == string_views(files@),
            cur == crate::paths::opt_str(current_file),
            pc@ == text::unicode_lower(partial@),
            partial_empty == (partial@.len() == 0),
            edit == match value_start(line@) {
                Some(s) => Some((line_idx as nat, s, col_idx as nat)),
                None => None,
            },
            opt_nat(start) == value_start(line@),
            item_views(out@) == sort_by_label(path_candidates(fv.take(i as int), cur, base@, context_type, partial@, edit)),
        decreases files.len() - i,
    {
        let f = files[i].as_str();
        let ghost prev = path_candidates(fv.take(i as int), cur, base@, context_type, partial@, edit);
        assert(fv.take(i + 1).drop_last() =~= fv.take(i as int));
        assert(fv.take(i + 1).last() == f@);
        if matches_context_type(f, &context_type) {
            let rel = crate::paths::calculate_relative_path(f, current_file, base.as_str());
            let ok = partial_empty || text::contains_exec(&chars_of(text::to_lowercase(rel.as_str()).as_str()), &pc);
            if ok {
                let mut it = create_path_completion(rel.as_str(), f, &context_type);
                if let Some(s) = start {
                    let lbl = rel.clone();
                    it.filter_text = Some(rel);
                    it.text_edit = Some(TextEdit {
                        start: Position { line: line_idx as u32, character: s as u32 },
                        end: Position { line: line_idx as u32, character: col_idx as u32 },
                        new_text: lbl,
                    });
                }
                let ghost iv = it@;
                insert_by_label(&mut out, it);
                assert(path_candidates(fv.take(i + 1), cur, base@, context_type, partial@, edit) == prev.push(iv));
                assert(prev.push(iv).drop_last() =~= prev);
            }
        }
        i += 1;
    }
    assert(fv.take(files.len() as int) =~= fv);
    out
}

/// What a path completion knows of the workspace: the current file, the
/// workspace root, and the files listed under the scan base.
pub struct ScanView {
    pub current: Option<Seq<char>>,
    pub root: Option<Seq<char>>,
    pub files: Seq<Seq<char>>,
}

/// The suggestions for a context. Globs, slugs, label names, categories
/// and the keys of packages, apps, profiles, scripts and setup experience
/// come from external suggestion data; those contexts yield no items here.
pub open spec fn context_items_ok(
    ctx: ContextView,
    line: Seq<char>,
    line_idx: nat,
    col: int,
    future_names: bool,
    scan: ScanView,
    items: Seq<ItemView>,
) -> bool {
    match ctx {
        ContextView::TopLevel => items_ok(items, top_fields(future_names), top_blocks(future_names), true),
        ContextView::PolicyField => policy_items_ok(line, col, items),
        ContextView::QueryField => query_items_ok(line, col, items),
        ContextView::LabelField => label_items_ok(line, col, items),
        ContextView::CriteriaField => criteria_items_ok(line, col, items),
        ContextView::SoftwareSection => items_ok(items, software_section_fields(), software_section_blocks(), true),
        ContextView::ControlsSection => items_ok(items, controls_section_fields(), controls_section_blocks(), true),
        ContextView::MacOSCustomSettingField | ContextView::WindowsCustomSettingField => custom_setting_items_ok(
            line,
            col,
            items,
        ),
        ContextView::DeviceSettingsSection => items_ok(
            items,
            device_settings_section_fields(),
            device_settings_section_blocks(),
            false,
        ),
        ContextView::TeamSettingsSection => items_ok(
            items,
            team_settings_section_fields(),
            team_settings_section_blocks(),
            true,
        ),
        ContextView::OrgSettingsSection => items_ok(items, org_settings_section_fields(), org_settings_section_blocks(), true),
        ContextView::OrgFleetDesktopSection => items_ok(
            items,
            org_fleet_desktop_fields_fields(),
            org_fleet_desktop_fields_blocks(),
            false,
        ),
        ContextView::OrgServerSettingsSection => items_ok(
            items,
            org_server_settings_fields_fields(),
            org_server_settings_fields_blocks(),
            false,
        ),
        ContextView::OrgSsoSettingsSection => items_ok(
            items,
            org_sso_settings_fields_fields(),
            org_sso_settings_fields_blocks(),
            false,
        ),
        ContextView::OrgInfoSection => items_ok(items, org_info_fields_fields(), org_info_fields_blocks(), false),
        ContextView::AgentOptionsSection => items_ok(
            items,
            agent_options_section_fields(),
            agent_options_section_blocks(),
            true,
        ),
        ContextView::PlatformValue => items == value_items(platform_doc_table()),
        ContextView::LoggingValue => items == value_items(logging_doc_table()),
        ContextView::BooleanValue => items == value_items(boolean_pairs()),
        ContextView::SqlContext { platform } => items == table_items(osquery::osquery_entries(), platform),
        ContextView::PathValue { context_type } => items == file_path_items(
            line,
            line_idx,
            col as nat,
            scan.current,
            scan.root,
            context_type,
            scan.files,
        ),
        _ => items.len() == 0,
    }
}

/// The suggestions at a position of a document.
pub open spec fn completion_ok(
    source: Seq<char>,
    position: Position,
    future_names: bool,
    scan: ScanView,
    items: Seq<ItemView>,
) -> bool {
    let line = line_at(lines(source), position.line as int);
    context_items_ok(
        completion_context(source, position.line as int, line, position.character as int),
        line,
        position.line as nat,
        position.character as int,
        future_names,
        scan,
        items,
    )
}

/// Where a `path:` value is completed, the cursor column does not fall
/// inside a multi-byte character of its line.
pub open spec fn path_column_ok(source: Seq<char>, position: Position) -> bool {
    let line = line_at(lines(source), position.line as int);
    completion_context(source, position.line as int, line, position.character as int) is PathValue
        ==> col_on_boundary(line, position.character as int)
}

/// Suggestions at a position of a Fleet YAML document, with no workspace.
pub fn complete_at(source: &str, position: Position) -> (r: Vec<CompletionItem>)
    requires
        text::source_fits(source@),
        path_column_ok(source@, position),
    ensures
        completion_ok(source@, position, false, ScanView { current: None, root: None, files: Seq::empty() }, item_views(r@)),
{
    let none: Vec<String> = Vec::new();
    proof {
        assert(string_views(none@) =~= Seq::<Seq<char>>::empty());
    }
    complete_at_with_context(source, position, None, None, none.as_slice(), false)
}

/// Suggestions at a position. For `path:` values, `workspace_files` lists the
/// files under the subdirectories of the scan base (see
/// `paths::path_scan_base`). With `future_names`, top-level suggestions use
/// the new key names (`reports`, `settings`).
pub fn complete_at_with_context(
    source: &str,
    position: Position,
    current_file: Option<&str>,
    workspace_root: Option<&str>,
    workspace_files: &[String],
    future_names: bool,
) -> (r: Vec<CompletionItem>)
    requires
        text::source_fits(source@),
        path_column_ok(source@, position),
    ensures
        completion_ok(
            source@,
            position,
            future_names,
            ScanView {
                current: crate::paths::opt_str(current_file),
                root: crate::paths::opt_str(workspace_root),
                files: string_views(workspace_files@),
            },
            item_views(r@),
        ),
{
    let ls = text::split_lines(&chars_of(source));
    let ghost lv = vviews(ls@);
    proof {
        text::lemma_lines_bytes(source@);
    }
    let line_idx = position.line as usize;
    let col_idx = position.character as usize;
    let lc = line_at_exec(&ls, line_idx);
    assert(byte_len(lc@) <= byte_len(source@)) by {
        if 0 <= line_idx < lv.len() {
            assert(byte_len(lv[line_idx as int]) <= byte_len(source@));
        }
    }
    let line = string_of(&lc);
    let context = determine_completion_context(source, line_idx, line.as_str(), col_idx);
    let empty: Vec<CompletionItem> = Vec::new();
    assert(item_views(empty@).len() == 0);
    match context {
        CompletionContext::TopLevel => complete_top_level_fields(future_names),
        CompletionContext::PolicyField => complete_policy_fields(line.as_str(), col_idx),
        CompletionContext::QueryField => complete_query_fields(line.as_str(), col_idx),
        CompletionContext::LabelField => complete_label_fields(line.as_str(), col_idx),
        CompletionContext::CriteriaField => complete_criteria_fields(line.as_str(), col_idx),
        CompletionContext::SoftwareSection => complete_software_section(),
        CompletionContext::ControlsSection => complete_controls_section(),
        CompletionContext::MacOSCustomSettingField => complete_custom_setting_fields(line.as_str(), col_idx),
        CompletionContext::WindowsCustomSettingField => complete_custom_setting_fields(line.as_str(), col_idx),
        CompletionContext::DeviceSettingsSection => complete_device_settings_section(),
        CompletionContext::TeamSettingsSection => complete_team_settings_section(),
        CompletionContext::OrgSettingsSection => complete_org_settings_section(),
        CompletionContext::OrgFleetDesktopSection => complete_org_fleet_desktop_fields(),
        CompletionContext::OrgServerSettingsSection => complete_org_server_settings_fields(),
        CompletionContext::OrgSsoSettingsSection => complete_org_sso_settings_fields(),
        CompletionContext::OrgInfoSection => complete_org_info_fields(),
        CompletionContext::AgentOptionsSection => complete_agent_options_section(),
        CompletionContext::PlatformValue => complete_platform_values(),
        CompletionContext::LoggingValue => complete_logging_values(),
        CompletionContext::BooleanValue => complete_boolean_values(),
        CompletionContext::SqlContext { platform } => match platform {
            Some(p) => complete_osquery_tables(Some(p.as_str())),
            None => complete_osquery_tables(None),
        },
        CompletionContext::PathValue { context_type } => complete_file_paths(
            line.as_str(),
            line_idx,
            col_idx,
            current_file,
            workspace_root,
            context_type,
            workspace_files,
        ),
        _ => empty,
    }
}

} // verus!
