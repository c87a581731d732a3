//! Hover documentation for Fleet GitOps YAML: which word the cursor is on,
//! in which section of the document, and what to show for it.
use vstd::prelude::*;

use crate::osquery;
use crate::rules::{join_comma, join_with};
use crate::schema::{
    direct_doc, doc_entries, field_doc_table, field_docs, get_field_doc, get_logging_doc,
    get_platform_doc, last_segment, logging_doc_table, markdown, names_field, opt_str,
    pair_lookup, platform_doc_table, FieldDocView,
};
use crate::text;
use crate::text::{byte_len, chars_of, concat, lines, string_of, trim, unicode_alnum, vviews};

verus! {

broadcast use vstd::string::group_string_axioms;

// ============================================================================
// Lines and keys
// ============================================================================

/// Line `i` of a document, or the empty line past its end.
pub open spec fn line_at(ls: Seq<Seq<char>>, i: int) -> Seq<char> {
    if 0 <= i < ls.len() {
        ls[i]
    } else {
        Seq::empty()
    }
}

/// Line `i` of split lines, or an empty line past the end.
pub(crate) fn line_at_exec(ls: &Vec<Vec<char>>, i: usize) -> (r: Vec<char>)
    ensures
        r@ == line_at(vviews(ls@), i as int),
{
    if i < ls.len() {
        text::slice_range(&ls[i], 0, ls[i].len())
    } else {
        Vec::new()
    }
}

/// The width in bytes of a line's leading whitespace.
pub open spec fn indent_of(line: Seq<char>) -> nat {
    byte_len(line.take(text::lead_ws(line) as int))
}

/// The width in bytes of a line's leading whitespace.
pub(crate) fn indent_exec(line: &[char]) -> (r: usize)
    requires
        byte_len(line@) <= usize::MAX,
    ensures
        r == indent_of(line@),
{
    let n = text::lead_ws_len(line);
    proof {
        text::lemma_byte_len_take(line@, n as int);
    }
    let head = text::slice_range(line, 0, n);
    assert(head@ =~= line@.take(n as int));
    text::byte_len_exec(&head)
}

/// The key of a line: the text before its first colon, with list dashes
/// and whitespace removed, when that is not empty.
pub open spec fn key_of_line(line: Seq<char>) -> Option<Seq<char>> {
    let t = trim(text::trim_start_char(trim(line), '-'));
    match text::find_char(t, ':') {
        Some(p) => if trim(t.take(p)).len() > 0 {
            Some(trim(t.take(p)))
        } else {
            None
        },
        None => None,
    }
}

/// The key of a line (the part before the colon), if it has one.
pub fn extract_key_from_line(line: &str) -> (r: Option<String>)
    ensures
        match r {
            Some(k) => key_of_line(line@) == Some(k@),
            None => key_of_line(line@) is None,
        },
{
    match key_of_line_exec(&chars_of(line)) {
        Some(k) => Some(string_of(&k)),
        None => None,
    }
}

/// The key of a line, as characters.
fn key_of_line_exec(line: &[char]) -> (r: Option<Vec<char>>)
    ensures
        match r {
            Some(k) => key_of_line(line@) == Some(k@),
            None => key_of_line(line@) is None,
        },
{
    let t = text::trim_vec(&text::trim_start_char_vec(&text::trim_vec(line), '-'));
    match text::find_char_exec(&t, ':') {
        Some(p) => {
            let head = text::slice_range(&t, 0, p);
            assert(head@ =~= t@.take(p as int));
            let k = text::trim_vec(&head);
            if k.len() > 0 {
                Some(k)
            } else {
                None
            }
        },
        None => None,
    }
}

/// The key of an already trimmed line, when it has no space in it.
pub open spec fn yaml_key(t: Seq<char>) -> Option<Seq<char>> {
    match key_of_line(t) {
        Some(k) => if k.contains(' ') {
            None
        } else {
            Some(k)
        },
        None => None,
    }
}

fn extract_key_from_yaml_line(t: &[char]) -> (r: Option<Vec<char>>)
    ensures
        match r {
            Some(k) => yaml_key(t@) == Some(k@),
            None => yaml_key(t@) is None,
        },
{
    match key_of_line_exec(t) {
        Some(k) => {
            if text::has_char_exec(&k, ' ') {
                None
            } else {
                Some(k)
            }
        },
        None => None,
    }
}

// ============================================================================
// Document context
// ============================================================================

/// The section that a trimmed line opens, if it opens one.
pub open spec fn section_of(t: Seq<char>) -> Option<&'static str> {
    if text::starts_with(t, "policies:"@) {
        Some("policies")
    } else if text::starts_with(t, "queries:"@) {
        Some("queries")
    } else if text::starts_with(t, "labels:"@) {
        Some("labels")
    } else if text::starts_with(t, "controls:"@) {
        Some("controls")
    } else if text::starts_with(t, "software:"@) {
        Some("software")
    } else if text::starts_with(t, "agent_options:"@) {
        Some("agent_options")
    } else {
        None
    }
}

fn section_of_exec(t: &[char]) -> (r: Option<&'static str>)
    ensures
        r == section_of(t@),
{
    if text::starts_with_str(t, "policies:") {
        Some("policies")
    } else if text::starts_with_str(t, "queries:") {
        Some("queries")
    } else if text::starts_with_str(t, "labels:") {
        Some("labels")
    } else if text::starts_with_str(t, "controls:") {
        Some("controls")
    } else if text::starts_with_str(t, "software:") {
        Some("software")
    } else if text::starts_with_str(t, "agent_options:") {
        Some("agent_options")
    } else {
        None
    }
}

/// The nearest section opened at line `i` or above.
pub open spec fn section_above(ls: Seq<Seq<char>>, i: int) -> Option<&'static str>
    decreases i + 1,
{
    if i < 0 {
        None
    } else {
        match section_of(trim(line_at(ls, i))) {
            Some(s) => Some(s),
            None => section_above(ls, i - 1),
        }
    }
}

/// A trimmed line marks a list of policies, of queries or of labels.
pub open spec fn structure_marker(t: Seq<char>) -> Option<&'static str> {
    if text::starts_with(t, "resolution:"@) || text::starts_with(t, "critical:"@) || text::starts_with(
        t,
        "calendar_events_enabled:"@,
    ) {
        Some("policies")
    } else if text::starts_with(t, "interval:"@) || text::starts_with(t, "logging:"@) || text::starts_with(
        t,
        "observer_can_run:"@,
    ) || text::starts_with(t, "automations_enabled:"@) || text::starts_with(t, "discard_data:"@) {
        Some("queries")
    } else if text::starts_with(t, "label_membership_type:"@) || (text::starts_with(t, "hosts:"@)
        && !text::contains(t, "http"@)) {
        Some("labels")
    } else {
        None
    }
}

/// The first marker among lines `i` onwards.
pub open spec fn first_marker(ls: Seq<Seq<char>>, i: int) -> Option<&'static str>
    decreases ls.len() - i,
{
    if i < 0 || i >= ls.len() {
        None
    } else {
        match structure_marker(trim(ls[i])) {
            Some(m) => Some(m),
            None => first_marker(ls, i + 1),
        }
    }
}

/// Some line, trimmed, starts with `p`.
pub open spec fn some_line_starts(ls: Seq<Seq<char>>, p: Seq<char>) -> bool {
    exists|i: int| 0 <= i < ls.len() && text::starts_with(trim(#[trigger] ls[i]), p)
}

/// The first line that is neither blank nor a comment, trimmed.
pub open spec fn first_content(ls: Seq<Seq<char>>, i: int) -> Option<Seq<char>>
    decreases ls.len() - i,
{
    if i < 0 || i >= ls.len() {
        None
    } else if trim(ls[i]).len() == 0 || text::starts_with(trim(ls[i]), "#"@) {
        first_content(ls, i + 1)
    } else {
        Some(trim(ls[i]))
    }
}

/// The kind of a file without a top-level section key, guessed from its
/// first content line: a list of policies, queries or labels, a software
/// package or agent options.
pub open spec fn inferred_context(ls: Seq<Seq<char>>) -> Option<&'static str> {
    match first_content(ls, 0) {
        None => None,
        Some(t) => if text::starts_with(t, "- name:"@) {
            match first_marker(ls, 0) {
                Some(m) => Some(m),
                None => if some_line_starts(ls, "query:"@) && some_line_starts(ls, "platform:"@) {
                    Some("policies")
                } else if some_line_starts(ls, "query:"@) {
                    Some("queries")
                } else {
                    None
                },
            }
        } else if text::starts_with(t, "url:"@) || text::starts_with(t, "icon:"@) || text::starts_with(
            t,
            "install_script:"@,
        ) {
            Some("software_lib")
        } else if text::starts_with(t, "config:"@) || text::starts_with(t, "update_channels:"@) {
            Some("agent_options")
        } else {
            None
        },
    }
}

fn structure_marker_exec(t: &[char]) -> (r: Option<&'static str>)
    ensures
        r == structure_marker(t@),
{
    if text::starts_with_str(t, "resolution:") || text::starts_with_str(t, "critical:") || text::starts_with_str(
        t,
        "calendar_events_enabled:",
    ) {
        Some("policies")
    } else if text::starts_with_str(t, "interval:") || text::starts_with_str(t, "logging:")
        || text::starts_with_str(t, "observer_can_run:") || text::starts_with_str(t, "automations_enabled:")
        || text::starts_with_str(t, "discard_data:") {
        Some("queries")
    } else if text::starts_with_str(t, "label_membership_type:") || (text::starts_with_str(t, "hosts:")
        && !text::contains_str(t, "http")) {
        Some("labels")
    } else {
        None
    }
}

/// Whether some line, trimmed, starts with `p`.
fn some_line_starts_exec(ls: &Vec<Vec<char>>, p: &str) -> (r: bool)
    ensures
        r == some_line_starts(vviews(ls@), p@),
{
    let ghost lv = vviews(ls@);
    let mut i: usize = 0;
    while i < ls.len()
        invariant
            i <= ls.len(),
            lv == vviews(ls@),
            forall|j: int| 0 <= j < i ==> !text::starts_with(trim(#[trigger] lv[j]), p@),
        decreases ls.len() - i,
    {
        assert(lv[i as int] == ls@[i as int]@);
        if text::starts_with_str(&text::trim_vec(&ls[i]), p) {
            return true;
        }
        i += 1;
    }
    false
}

/// The kind of a file that has no top-level section key, if its structure
/// shows one.
pub fn infer_context_from_structure(source: &str) -> (r: Option<&'static str>)
    ensures
        r == inferred_context(lines(source@)),
{
    let ls = text::split_lines(&chars_of(source));
    let ghost lv = vviews(ls@);
    let mut i: usize = 0;
    while i < ls.len()
        invariant
            i <= ls.len(),
            lv == vviews(ls@),
            lv == lines(source@),
            first_content(lv, 0) == first_content(lv, i as int),
        decreases ls.len() - i,
    {
        assert(lv[i as int] == ls@[i as int]@);
        let t = text::trim_vec(&ls[i]);
        if t.len() == 0 || text::starts_with_str(&t, "#") {
            i += 1;
        } else {
            assert(first_content(lv, 0) == Some(t@));
            if text::starts_with_str(&t, "- name:") {
                let mut j: usize = 0;
                while j < ls.len()
                    invariant
                        j <= ls.len(),
                        lv == vviews(ls@),
                        lv == lines(source@),
                        first_content(lv, 0) == Some(t@),
                        text::starts_with(t@, "- name:"@),
                        first_marker(lv, 0) == first_marker(lv, j as int),
                    decreases ls.len() - j,
                {
                    assert(lv[j as int] == ls@[j as int]@);
                    match structure_marker_exec(&text::trim_vec(&ls[j])) {
                        Some(m) => {
                            return Some(m);
                        },
                        None => {},
                    }
                    j += 1;
                }
                let has_query = some_line_starts_exec(&ls, "query:");
                let has_platform = some_line_starts_exec(&ls, "platform:");
                if has_query && has_platform {
                    return Some("policies");
                }
                if has_query {
                    return Some("queries");
                }
                return None;
            }
            if text::starts_with_str(&t, "url:") || text::starts_with_str(&t, "icon:") || text::starts_with_str(
                &t,
                "install_script:",
            ) {
                return Some("software_lib");
            }
            if text::starts_with_str(&t, "config:") || text::starts_with_str(&t, "update_channels:") {
                return Some("agent_options");
            }
            return None;
        }
    }
    None
}

/// The section of the document at line `line_idx`: the nearest section key
/// at or above it, else the kind inferred from the file's structure, else
/// `root`.
pub open spec fn yaml_context(source: Seq<char>, line_idx: int) -> Seq<char> {
    match section_above(lines(source), line_idx) {
        Some(s) => s@,
        None => match inferred_context(lines(source)) {
            Some(c) => c@,
            None => "root"@,
        },
    }
}

/// The section of the document at a line.
pub fn determine_yaml_context(source: &str, line_idx: usize) -> (r: &'static str)
    ensures
        r@ == yaml_context(source@, line_idx as int),
{
    let ls = text::split_lines(&chars_of(source));
    let ghost lv = vviews(ls@);
    let mut i: usize = line_idx;
    loop
        invariant_except_break
            i <= line_idx,
            lv == vviews(ls@),
            lv == lines(source@),
            section_above(lv, line_idx as int) == section_above(lv, i as int),
        ensures
            lv == lines(source@),
            section_above(lv, line_idx as int) is None,
        decreases i,
    {
        let line = line_at_exec(&ls, i);
        match section_of_exec(&text::trim_vec(&line)) {
            Some(s) => {
                return s;
            },
            None => {},
        }
        if i == 0 {
            assert(section_above(lv, -1) is None);
            break;
        }
        i -= 1;
    }
    match infer_context_from_structure(source) {
        Some(c) => c,
        None => "root",
    }
}

/// The keys of the lines that enclose a line of indentation `cur`, from
/// line `i` upwards: each is less indented than the one found before it
/// (`last`, or any when none was found yet), and the walk stops at an
/// unindented key. Root first.
pub open spec fn enclosing_keys(ls: Seq<Seq<char>>, i: int, cur: nat, last: Option<nat>) -> Seq<Seq<char>>
    decreases i + 1,
{
    if i < 0 {
        Seq::empty()
    } else {
        let t = trim(line_at(ls, i));
        let n = indent_of(line_at(ls, i));
        if t.len() == 0 || text::starts_with(t, "#"@) {
            enclosing_keys(ls, i - 1, cur, last)
        } else if n < cur && (last is None || n < last.unwrap()) && yaml_key(t) is Some {
            if n == 0 {
                seq![yaml_key(t).unwrap()]
            } else {
                enclosing_keys(ls, i - 1, cur, Some(n)).push(yaml_key(t).unwrap())
            }
        } else {
            enclosing_keys(ls, i - 1, cur, last)
        }
    }
}

/// The dotted path of the keys enclosing line `line_idx` (such as
/// `software.packages`); for a file with no enclosing key, the kind
/// inferred from its structure, if any.
pub open spec fn full_yaml_context(source: Seq<char>, line_idx: int) -> Seq<char> {
    let ls = lines(source);
    let parts = enclosing_keys(ls, line_idx - 1, indent_of(line_at(ls, line_idx)), None);
    if parts.len() == 0 && inferred_context(ls) is Some {
        inferred_context(ls).unwrap()@
    } else {
        join_with(parts, "."@)
    }
}

/// Joins character sequences with `.`.
fn join_dot(parts: &Vec<Vec<char>>) -> (r: Vec<char>)
    ensures
        r@ == join_with(vviews(parts@), "."@),
{
    let ghost ps = vviews(parts@);
    let mut r: Vec<char> = Vec::new();
    let mut i: usize = 0;
    while i < parts.len()
        invariant
            i <= parts.len(),
            ps == vviews(parts@),
            r@ == join_with(ps.take(i as int), "."@),
        decreases parts.len() - i,
    {
        assert(ps.take(i + 1).drop_last() =~= ps.take(i as int));
        assert(ps.take(i + 1).last() == parts@[i as int]@);
        if i == 0 {
            r = text::slice_range(&parts[0], 0, parts[0].len());
            assert(r@ =~= join_with(ps.take(1), "."@));
        } else {
            r = concat(&r, &chars_of("."));
            r = concat(&r, &parts[i]);
            assert(r@ =~= join_with(ps.take(i + 1), "."@));
        }
        i += 1;
    }
    assert(ps.take(parts.len() as int) =~= ps);
    r
}

/// The dotted path of the keys enclosing a line.
pub fn determine_full_yaml_context(source: &str, line_idx: usize) -> (r: String)
    requires
        text::source_fits(source@),
    ensures
        r@ == full_yaml_context(source@, line_idx as int),
{
    let ls = text::split_lines(&chars_of(source));
    let ghost lv = vviews(ls@);
    proof {
        text::lemma_lines_bytes(source@);
    }
    let cur_line = line_at_exec(&ls, line_idx);
    assert(byte_len(cur_line@) <= usize::MAX) by {
        if 0 <= line_idx < lv.len() {
            assert(byte_len(lv[line_idx as int]) <= byte_len(source@));
        }
    }
    let cur = indent_exec(&cur_line);
    let ghost full = enclosing_keys(lv, line_idx - 1, cur as nat, None);
    // keys found so far, leaf first
    let mut found: Vec<Vec<char>> = Vec::new();
    let mut last: Option<usize> = None;
    let mut i: usize = line_idx;
    while i > 0
        invariant
            i <= line_idx,
            lv == vviews(ls@),
            lv == lines(source@),
            forall|j: int| 0 <= j < lv.len() ==> byte_len(#[trigger] lv[j]) <= byte_len(source@),
            text::source_fits(source@),
            full == enclosing_keys(lv, i - 1, cur as nat, match last { Some(n) => Some(n as nat), None => None }) + vviews(found@).reverse(),
        decreases i,
    {
        let line = line_at_exec(&ls, i - 1);
        assert(byte_len(line@) <= usize::MAX) by {
            if 0 <= i - 1 < lv.len() {
                assert(byte_len(lv[i - 1]) <= byte_len(source@));
            }
        }
        let t = text::trim_vec(&line);
        if t.len() == 0 || text::starts_with_str(&t, "#") {
            i -= 1;
        } else {
            let n = indent_exec(&line);
            let fits = n < cur && match last {
                None => true,
                Some(l) => n < l,
            };
            if fits {
                match extract_key_from_yaml_line(&t) {
                    Some(k) => {
                        let ghost before = vviews(found@);
                        found.push(k);
                        assert(vviews(found@) =~= before.push(k@));
                        assert(vviews(found@).reverse() =~= seq![k@] + before.reverse());
                        if n == 0 {
                            i = 0;
                            assert(enclosing_keys(lv, -1, cur as nat, match last { Some(n) => Some(n as nat), None => None }) =~= Seq::<Seq<char>>::empty());
                            assert(full =~= vviews(found@).reverse());
                        } else {
                        last = Some(n);
                        i -= 1;
                        }
                    },
                    None => {
                        i -= 1;
                    },
                }
            } else {
                i -= 1;
            }
        }
    }
    proof {
        if i == 0 {
            assert(enclosing_keys(lv, -1, cur as nat, match last { Some(n) => Some(n as nat), None => None }) =~= Seq::<Seq<char>>::empty());
        }
    }
    assert(full =~= vviews(found@).reverse());
    let mut parts: Vec<Vec<char>> = Vec::new();
    let mut j: usize = found.len();
    while j > 0
        invariant
            j <= found.len(),
            vviews(parts@) =~= vviews(found@).reverse().take((found.len() - j) as int),
        decreases j,
    {
        let ghost before = vviews(parts@);
        let item = text::slice_range(&found[j - 1], 0, found[j - 1].len());
        assert(item@ =~= found@[j - 1]@);
        parts.push(item);
        assert(vviews(parts@) =~= before.push(found@[j - 1]@));
        assert(vviews(found@).reverse().take((found.len() - j + 1) as int) =~= vviews(found@).reverse().take((found.len() - j) as int).push(found@[j - 1]@));
        j -= 1;
    }
    assert(vviews(parts@) =~= full);
    if parts.len() == 0 {
        match infer_context_from_structure(source) {
            Some(c) => {
                return c.to_owned();
            },
            None => {},
        }
    }
    string_of(&join_dot(&parts))
}

/// Whether line `i` (or one above it) opens a multi-line `query:` whose
/// body can reach a line of indentation `cur`.
pub open spec fn in_query_above(ls: Seq<Seq<char>>, i: int, cur: nat) -> bool
    decreases i + 1,
{
    if i < 0 {
        false
    } else {
        let t = trim(line_at(ls, i));
        if text::starts_with(t, "query:"@) && t.contains('|') {
            true
        } else if text::ends_with(t, ":"@) && !text::starts_with(t, "-"@) && indent_of(line_at(ls, i)) <= cur
            && !text::starts_with(t, "query:"@) {
            false
        } else {
            in_query_above(ls, i - 1, cur)
        }
    }
}

/// The cursor is inside SQL: on a `query:` line, or below a multi-line
/// `query:` with no other key closing it.
pub open spec fn sql_context(source: Seq<char>, line_idx: int, line: Seq<char>) -> bool {
    text::contains(line, "query:"@) || in_query_above(lines(source), line_idx - 1, indent_of(line))
}

/// Whether the cursor is inside an SQL query.
pub fn is_sql_context(source: &str, line_idx: usize, current_line: &str) -> (r: bool)
    requires
        text::source_fits(source@),
        text::source_fits(current_line@),
    ensures
        r == sql_context(source@, line_idx as int, current_line@),
{
    let cur_line = chars_of(current_line);
    if text::contains_str(&cur_line, "query:") {
        return true;
    }
    let ls = text::split_lines(&chars_of(source));
    let ghost lv = vviews(ls@);
    proof {
        text::lemma_lines_bytes(source@);
    }
    let cur = indent_exec(&cur_line);
    let mut i: usize = line_idx;
    while i > 0
        invariant
            i <= line_idx,
            lv == vviews(ls@),
            lv == lines(source@),
            forall|j: int| 0 <= j < lv.len() ==> byte_len(#[trigger] lv[j]) <= byte_len(source@),
            text::source_fits(source@),
            cur as nat == indent_of(current_line@),
            !text::contains(current_line@, "query:"@),
            in_query_above(lv, line_idx - 1, cur as nat) == in_query_above(lv, i - 1, cur as nat),
        decreases i,
    {
        let line = line_at_exec(&ls, i - 1);
        assert(byte_len(line@) <= usize::MAX) by {
            if 0 <= i - 1 < lv.len() {
                assert(byte_len(lv[i - 1]) <= byte_len(source@));
            }
        }
        let t = text::trim_vec(&line);
        if text::starts_with_str(&t, "query:") && text::has_char_exec(&t, '|') {
            return true;
        }
        if text::ends_with_str(&t, ":") && !text::starts_with_str(&t, "-") {
            let check = indent_exec(&line);
            if check <= cur && !text::starts_with_str(&t, "query:") {
                return false;
            }
        }
        i -= 1;
    }
    false
}

// ============================================================================
// The word under the cursor
// ============================================================================

/// Characters that make up words: Unicode letters and digits, and `_`.
pub open spec fn is_word_char(c: char) -> bool {
    unicode_alnum(c) || c == '_'
}

fn is_word_char_exec(c: char) -> (r: bool)
    ensures
        r == is_word_char(c),
{
    text::is_alphanumeric(c) || c == '_'
}

/// The first index of the run of word characters that ends just before `i`.
pub open spec fn run_start(cs: Seq<char>, i: int) -> int
    decreases i,
{
    if i > 0 && is_word_char(cs[i - 1]) {
        run_start(cs, i - 1)
    } else {
        i
    }
}

/// The index just after the run of word characters that starts at `i`.
pub open spec fn run_end(cs: Seq<char>, i: int) -> int
    decreases cs.len() - i,
{
    if 0 <= i < cs.len() && is_word_char(cs[i]) {
        run_end(cs, i + 1)
    } else {
        i
    }
}

/// The word around position `i`, with its start and end (character indices).
pub open spec fn run_at(cs: Seq<char>, i: int) -> (Seq<char>, int, int) {
    (cs.subrange(run_start(cs, i), run_end(cs, i)), run_start(cs, i), run_end(cs, i))
}

/// The word at or next to position `i`: the word under it; for a colon,
/// the word before it; else a word starting just after it, or one ending
/// just before it.
pub open spec fn word_near(cs: Seq<char>, i: int) -> Option<(Seq<char>, int, int)>
    decreases i,
{
    if !(0 <= i < cs.len()) {
        None
    } else if is_word_char(cs[i]) {
        Some(run_at(cs, i))
    } else if cs[i] == ':' && i > 0 {
        word_near(cs, i - 1)
    } else if i + 1 < cs.len() && is_word_char(cs[i + 1]) {
        Some(run_at(cs, i + 1))
    } else if i > 0 && is_word_char(cs[i - 1]) {
        Some(run_at(cs, i - 1))
    } else {
        None
    }
}

/// The word at column `col` of a line (a column past the end, counted in
/// bytes, means the last character; a column past the last character is
/// clamped to it).
pub open spec fn word_at(line: Seq<char>, col: int) -> Option<(Seq<char>, int, int)> {
    if line.len() == 0 {
        None
    } else {
        let c0 = if col >= byte_len(line) {
            byte_len(line) - 1
        } else {
            col
        };
        let c1 = if c0 > line.len() - 1 {
            line.len() - 1
        } else {
            c0
        };
        word_near(line, c1)
    }
}

/// The word around position `i`.
fn run_at_exec(cs: &[char], i: usize) -> (r: (Vec<char>, usize, usize))
    requires
        i < cs.len(),
    ensures
        (r.0@, r.1 as int, r.2 as int) == run_at(cs@, i as int),
{
    let mut start = i;
    while start > 0 && is_word_char_exec(cs[start - 1])
        invariant
            start <= i,
            i < cs.len(),
            run_start(cs@, i as int) == run_start(cs@, start as int),
        decreases start,
    {
        start -= 1;
    }
    let mut end = i;
    while end < cs.len() && is_word_char_exec(cs[end])
        invariant
            i <= end <= cs.len(),
            run_end(cs@, i as int) == run_end(cs@, end as int),
        decreases cs.len() - end,
    {
        end += 1;
    }
    let w = text::slice_range(cs, start, end);
    (w, start, end)
}

/// The word at or next to position `i`.
fn word_near_exec(cs: &[char], i: usize) -> (r: Option<(Vec<char>, usize, usize)>)
    ensures
        match r {
            Some((w, s, e)) => word_near(cs@, i as int) == Some((w@, s as int, e as int)),
            None => word_near(cs@, i as int) is None,
        },
    decreases i,
{
    if i >= cs.len() {
        return None;
    }
    if is_word_char_exec(cs[i]) {
        return Some(run_at_exec(cs, i));
    }
    if cs[i] == ':' && i > 0 {
        return word_near_exec(cs, i - 1);
    }
    if i + 1 < cs.len() && is_word_char_exec(cs[i + 1]) {
        return Some(run_at_exec(cs, i + 1));
    }
    if i > 0 && is_word_char_exec(cs[i - 1]) {
        return Some(run_at_exec(cs, i - 1));
    }
    None
}

/// The word at a column of a line, with its start and end character
/// positions.
pub fn find_word_at(line: &str, col: usize) -> (r: Option<(String, usize, usize)>)
    requires
        text::source_fits(line@),
    ensures
        match r {
            Some((w, s, e)) => word_at(line@, col as int) == Some((w@, s as int, e as int)),
            None => word_at(line@, col as int) is None,
        },
{
    let cs = chars_of(line);
    if cs.len() == 0 {
        return None;
    }
    proof {
        text::lemma_byte_len_ge_len(line@);
    }
    let blen = text::byte_len_exec(&cs);
    let c0 = if col >= blen {
        blen - 1
    } else {
        col
    };
    let c1 = if c0 > cs.len() - 1 {
        cs.len() - 1
    } else {
        c0
    };
    match word_near_exec(&cs, c1) {
        Some((w, s, e)) => Some((string_of(&w), s, e)),
        None => None,
    }
}

/// The word comes after the first colon of the line.
pub open spec fn value_context(line: Seq<char>, word: Seq<char>) -> bool {
    match text::find_char(line, ':') {
        Some(p) => text::contains(line.skip(p + 1), word),
        None => false,
    }
}

fn is_value_context(line: &[char], word: &[char]) -> (r: bool)
    ensures
        r == value_context(line@, word@),
{
    match text::find_char_exec(line, ':') {
        Some(p) => {
            let after = text::slice_range(line, p + 1, line.len());
            assert(after@ =~= line@.skip(p + 1));
            text::contains_exec(&after, word)
        },
        None => false,
    }
}

// ============================================================================
// Hover content
// ============================================================================

/// Some entry of the documentation table names the field `seg`.
pub open spec fn some_entry_names(seg: Seq<char>) -> bool {
    exists|i: int| 0 <= i < field_doc_table().len() && names_field(#[trigger] field_doc_table()[i].0, seg)
}

/// A documentation lookup by `path` finds something.
pub open spec fn doc_found(path: Seq<char>) -> bool {
    direct_doc(path) is Some || some_entry_names(last_segment(path))
}

/// `d` is a documentation entry that a lookup by `path` may return.
pub open spec fn doc_result(path: Seq<char>, d: FieldDocView) -> bool {
    match direct_doc(path) {
        Some(x) => d == x,
        None => exists|i: int|
            0 <= i < field_doc_table().len() && names_field(#[trigger] field_doc_table()[i].0, last_segment(path))
                && field_doc_table()[i].1 == d,
    }
}

/// `r` is the Markdown of some entry that a lookup by `path` may return.
pub open spec fn doc_markdown(path: Seq<char>, r: Option<Seq<char>>) -> bool {
    r matches Some(m) && exists|d: FieldDocView| doc_result(path, d) && m == markdown(d)
}

/// The Markdown for a known value of a documented key.
pub open spec fn value_markdown(word: Seq<char>, desc: Seq<char>) -> Seq<char> {
    "**"@ + word + "**\n\n"@ + desc
}

/// The Markdown for an osquery table.
pub open spec fn table_markdown(word: Seq<char>, desc: Seq<char>, platforms: Seq<Seq<char>>) -> Seq<char> {
    "**"@ + word + "** (osquery table)\n\n"@ + desc + "\n\n**Platforms:** "@ + join_with(platforms, ", "@)
}

/// What may be shown for a word that is not a documented key: the
/// description of a platform or logging value, an osquery table inside
/// SQL, or the documentation of any field named like the word.
pub open spec fn value_hover_ok(source: Seq<char>, line_idx: int, line: Seq<char>, word: Seq<char>, r: Option<Seq<char>>) -> bool {
    let key = key_of_line(line);
    let v = value_context(line, word);
    if v && key == Some("platform"@) && pair_lookup(platform_doc_table(), word) is Some {
        r == Some(value_markdown(word, pair_lookup(platform_doc_table(), word).unwrap()))
    } else if v && key == Some("logging"@) && pair_lookup(logging_doc_table(), word) is Some {
        r == Some(value_markdown(word, pair_lookup(logging_doc_table(), word).unwrap()))
    } else if sql_context(source, line_idx, line) && osquery::table_entry(osquery::osquery_entries(), word) is Some {
        let e = osquery::table_entry(osquery::osquery_entries(), word).unwrap();
        r == Some(table_markdown(word, e.2, e.1))
    } else if some_entry_names(word) {
        r matches Some(m) && exists|i: int|
            0 <= i < field_doc_table().len() && names_field(#[trigger] field_doc_table()[i].0, word) && m
                == markdown(field_doc_table()[i].1)
    } else {
        r is None
    }
}

/// What may be shown for a word on a line: for a key, the documentation of
/// the key under its full path, under its section, or alone; otherwise what
/// `value_hover_ok` allows.
pub open spec fn hover_content_ok(source: Seq<char>, line_idx: int, line: Seq<char>, word: Seq<char>, r: Option<Seq<char>>) -> bool {
    let is_key = text::contains(line, word + ":"@);
    let p1 = full_yaml_context(source, line_idx) + "."@ + word;
    let p2 = yaml_context(source, line_idx) + "."@ + word;
    if is_key && doc_found(p1) {
        doc_markdown(p1, r)
    } else if is_key && doc_found(p2) {
        doc_markdown(p2, r)
    } else if is_key && doc_found(word) {
        doc_markdown(word, r)
    } else {
        value_hover_ok(source, line_idx, line, word, r)
    }
}

/// Looks a path up and renders what was found.
pub(crate) fn doc_markdown_exec(path: &str) -> (r: Option<String>)
    ensures
        match r {
            Some(m) => doc_found(path@) && doc_markdown(path@, Some(m@)),
            None => !doc_found(path@),
        },
{
    match get_field_doc(path) {
        Some(d) => {
            let m = d.to_markdown();
            assert(doc_result(path@, d@));
            Some(m)
        },
        None => {
            proof {
                if some_entry_names(last_segment(path@)) {
                    let i = choose|i: int| 0 <= i < field_doc_table().len() && names_field(#[trigger] field_doc_table()[i].0, last_segment(path@));
                    assert(names_field(field_doc_table()[i].0, last_segment(path@)));
                }
            }
            None
        },
    }
}

/// The documentation of a key: under its full path, under its section, or
/// alone, the first lookup that finds something.
fn key_hover(source: &str, line_idx: usize, word: &str) -> (r: Option<String>)
    requires
        text::source_fits(source@),
    ensures
        ({
            let p1 = full_yaml_context(source@, line_idx as int) + "."@ + word@;
            let p2 = yaml_context(source@, line_idx as int) + "."@ + word@;
            match r {
                Some(m) => if doc_found(p1) {
                    doc_markdown(p1, Some(m@))
                } else if doc_found(p2) {
                    doc_markdown(p2, Some(m@))
                } else {
                    doc_found(word@) && doc_markdown(word@, Some(m@))
                },
                None => !doc_found(p1) && !doc_found(p2) && !doc_found(word@),
            }
        }),
{
    let wc = chars_of(word);
    let context = determine_full_yaml_context(source, line_idx);
    let fp = string_of(&concat(&concat(&chars_of(context.as_str()), &chars_of(".")), &wc));
    assert(fp@ =~= full_yaml_context(source@, line_idx as int) + "."@ + word@);
    match doc_markdown_exec(fp.as_str()) {
        Some(m) => {
            return Some(m);
        },
        None => {},
    }
    let simple = determine_yaml_context(source, line_idx);
    let sp = string_of(&concat(&concat(&chars_of(simple), &chars_of(".")), &wc));
    assert(sp@ =~= yaml_context(source@, line_idx as int) + "."@ + word@);
    match doc_markdown_exec(sp.as_str()) {
        Some(m) => {
            return Some(m);
        },
        None => {},
    }
    doc_markdown_exec(word)
}

/// The description of a platform or logging value, if the word is one
/// after a `platform:` or `logging:` key.
fn known_value_hover(line: &[char], word: &str) -> (r: Option<Vec<char>>)
    ensures
        ({
            let key = key_of_line(line@);
            let v = value_context(line@, word@);
            if v && key == Some("platform"@) && pair_lookup(platform_doc_table(), word@) is Some {
                r matches Some(m) && m@ == value_markdown(word@, pair_lookup(platform_doc_table(), word@).unwrap())
            } else if v && key == Some("logging"@) && pair_lookup(logging_doc_table(), word@) is Some {
                r matches Some(m) && m@ == value_markdown(word@, pair_lookup(logging_doc_table(), word@).unwrap())
            } else {
                r is None
            }
        }),
{
    let wc = chars_of(word);
    if !is_value_context(line, &wc) {
        return None;
    }
    proof {
        reveal_strlit("platform");
        reveal_strlit("logging");
    }
    match key_of_line_exec(line) {
        Some(key) => {
            if text::eq_str(&key, "platform") {
                match get_platform_doc(word) {
                    Some(desc) => {
                        let m = concat(&concat(&concat(&chars_of("**"), &wc), &chars_of("**\n\n")), &chars_of(desc));
                        assert(m@ =~= value_markdown(word@, desc@));
                        Some(m)
                    },
                    None => None,
                }
            } else if text::eq_str(&key, "logging") {
                match get_logging_doc(word) {
                    Some(desc) => {
                        let m = concat(&concat(&concat(&chars_of("**"), &wc), &chars_of("**\n\n")), &chars_of(desc));
                        assert(m@ =~= value_markdown(word@, desc@));
                        Some(m)
                    },
                    None => None,
                }
            } else {
                None
            }
        },
        None => None,
    }
}

/// The description of an osquery table named like the word.
fn table_hover(word: &str) -> (r: Option<Vec<char>>)
    ensures
        match osquery::table_entry(osquery::osquery_entries(), word@) {
            Some(e) => r matches Some(m) && m@ == table_markdown(word@, e.2, e.1),
            None => r is None,
        },
{
    let tables = osquery::osquery_tables();
    match osquery::find_table(&tables, word) {
        Some(info) => {
            let mut m = concat(&concat(&chars_of("**"), &chars_of(word)), &chars_of("** (osquery table)\n\n"));
            m = concat(&m, &chars_of(info.description));
            m = concat(&m, &chars_of("\n\n**Platforms:** "));
            m = concat(&m, &join_comma(&info.platforms));
            assert(m@ =~= table_markdown(word@, info@.2, info@.1));
            Some(m)
        },
        None => None,
    }
}

/// The documentation of any field named like the word.
fn any_field_hover(word: &str) -> (r: Option<String>)
    ensures
        match r {
            Some(m) => exists|i: int|
                0 <= i < field_doc_table().len() && names_field(#[trigger] field_doc_table()[i].0, word@) && m@
                    == markdown(field_doc_table()[i].1),
            None => !some_entry_names(word@),
        },
{
    let wc = chars_of(word);
    let docs = field_docs();
    let ghost t = doc_entries(docs@);
    let suffix = concat(&chars_of("."), &wc);
    let mut j: usize = 0;
    while j < docs.len()
        invariant
            j <= docs@.len(),
            t == doc_entries(docs@),
            t == field_doc_table(),
            suffix@ == "."@ + word@,
            wc@ == word@,
            forall|i: int| 0 <= i < j ==> !names_field(#[trigger] t[i].0, word@),
        decreases docs.len() - j,
    {
        let kc = chars_of(docs[j].0);
        if text::ends_with_exec(&kc, &suffix) || text::eq(&kc, &wc) {
            assert(names_field(t[j as int].0, word@));
            let m = docs[j].1.to_markdown();
            return Some(m);
        }
        j += 1;
    }
    None
}

/// What to show for a word that is not a documented key.
fn value_hover(source: &str, line_idx: usize, line: &str, word: &str) -> (r: Option<String>)
    requires
        text::source_fits(source@),
        text::source_fits(line@),
    ensures
        value_hover_ok(
            source@,
            line_idx as int,
            line@,
            word@,
            match r {
                Some(m) => Some(m@),
                None => None,
            },
        ),
{
    let lc = chars_of(line);
    match known_value_hover(&lc, word) {
        Some(m) => {
            return Some(string_of(&m));
        },
        None => {},
    }
    if is_sql_context(source, line_idx, line) {
        match table_hover(word) {
            Some(m) => {
                return Some(string_of(&m));
            },
            None => {},
        }
    }
    any_field_hover(word)
}

/// The documentation to show for a word on a line of a document.
pub fn determine_hover_content(source: &str, line_idx: usize, line: &str, word: &str) -> (r: Option<String>)
    requires
        text::source_fits(source@),
        text::source_fits(line@),
    ensures
        hover_content_ok(
            source@,
            line_idx as int,
            line@,
            word@,
            match r {
                Some(m) => Some(m@),
                None => None,
            },
        ),
{
    let lc = chars_of(line);
    let is_key = text::contains_exec(&lc, &concat(&chars_of(word), &chars_of(":")));
    if is_key {
        match key_hover(source, line_idx, word) {
            Some(m) => {
                return Some(m);
            },
            None => {},
        }
    }
    value_hover(source, line_idx, line, word)
}

/// A position in a document: 0-based line and character.
#[derive(Debug, Clone, Copy, PartialEq, Eq, Structural)]
pub struct Position {
    pub line: u32,
    pub character: u32,
}

/// Hover documentation and the range of the word it is for.
#[derive(Debug)]
pub struct HoverInfo {
    /// Markdown text.
    pub value: String,
    pub start: Position,
    pub end: Position,
}

/// What may be shown when hovering at a position: nothing past the last
/// line or away from any word; otherwise the word's range and content
/// that `hover_content_ok` allows (nothing when it allows none).
pub open spec fn hover_ok(source: Seq<char>, position: Position, r: Option<HoverInfo>) -> bool {
    let ls = lines(source);
    let idx = position.line as int;
    if idx >= ls.len() {
        r is None
    } else {
        match word_at(ls[idx], position.character as int) {
            None => r is None,
            Some((w, s, e)) => match r {
                Some(h) => hover_content_ok(source, idx, ls[idx], w, Some(h.value@)) && h.start == (Position {
                    line: position.line,
                    character: s as u32,
                }) && h.end == (Position { line: position.line, character: e as u32 }),
                None => hover_content_ok(source, idx, ls[idx], w, None),
            },
        }
    }
}

/// Hover documentation at a position of a Fleet YAML document.
pub fn hover_at(source: &str, position: Position) -> (r: Option<HoverInfo>)
    requires
        text::source_fits(source@),
    ensures
        hover_ok(source@, position, r),
{
    let ls = text::split_lines(&chars_of(source));
    let ghost lv = vviews(ls@);
    let line_idx = position.line as usize;
    let col_idx = position.character as usize;
    if line_idx >= ls.len() {
        return None;
    }
    proof {
        text::lemma_lines_bytes(source@);
        assert(byte_len(lv[line_idx as int]) <= byte_len(source@));
    }
    assert(lv[line_idx as int] == ls@[line_idx as int]@);
    let line = string_of(&ls[line_idx]);
    let (word, start, end) = match find_word_at(line.as_str(), col_idx) {
        Some(x) => x,
        None => {
            return None;
        },
    };
    match determine_hover_content(source, line_idx, line.as_str(), word.as_str()) {
        Some(value) => Some(
            HoverInfo {
                value,
                start: Position { line: position.line, character: start as u32 },
                end: Position { line: position.line, character: end as u32 },
            },
        ),
        None => None,
    }
}

// ============================================================================
// Laws
// ============================================================================

proof fn lemma_run_start_words(cs: Seq<char>, i: int)
    requires
        0 <= i <= cs.len(),
    ensures
        0 <= run_start(cs, i) <= i,
        forall|k: int| run_start(cs, i) <= k < i ==> is_word_char(#[trigger] cs[k]),
    decreases i,
{
    if i > 0 && is_word_char(cs[i - 1]) {
        lemma_run_start_words(cs, i - 1);
    }
}

proof fn lemma_run_end_words(cs: Seq<char>, i: int)
    requires
        0 <= i <= cs.len(),
    ensures
        i <= run_end(cs, i) <= cs.len(),
        forall|k: int| i <= k < run_end(cs, i) ==> is_word_char(#[trigger] cs[k]),
    decreases cs.len() - i,
{
    if i < cs.len() && is_word_char(cs[i]) {
        lemma_run_end_words(cs, i + 1);
    }
}

/// The word found near a position is a non-empty run of word characters
/// of the line, at the positions reported.
pub proof fn law_word_near_is_word(cs: Seq<char>, i: int)
    ensures
        word_near(cs, i) matches Some((w, s, e)) ==> 0 <= s < e <= cs.len() && w == cs.subrange(s, e)
            && forall|k: int| s <= k < e ==> is_word_char(#[trigger] cs[k]),
    decreases i,
{
    if 0 <= i < cs.len() {
        if is_word_char(cs[i]) {
            lemma_run_start_words(cs, i);
            lemma_run_end_words(cs, i);
            assert(run_end(cs, i) == run_end(cs, i + 1));
            lemma_run_end_words(cs, i + 1);
        } else if cs[i] == ':' && i > 0 {
            law_word_near_is_word(cs, i - 1);
        } else if i + 1 < cs.len() && is_word_char(cs[i + 1]) {
            lemma_run_start_words(cs, i + 1);
            lemma_run_end_words(cs, i + 2);
            assert(run_end(cs, i + 1) == run_end(cs, i + 2));
        } else if i > 0 && is_word_char(cs[i - 1]) {
            lemma_run_start_words(cs, i - 1);
            lemma_run_end_words(cs, i);
            assert(run_end(cs, i - 1) == run_end(cs, i));
        }
    }
}

} // verus!
