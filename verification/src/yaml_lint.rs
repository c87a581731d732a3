//! YAML hygiene rules that work on the text alone:
//!
//! - `yaml-indentation`: indentation that is not a multiple of 2, or mixed widths
//! - `yaml-colons`: key-like lines without a colon
//! - `yaml-empty-values`: keys with no value (parsed as null)
use vstd::prelude::*;

use crate::diag::{diag, diags, push_diag, s_of, Diag, FixSafety, LintError, Severity};
use crate::fleet_config::FleetConfig;
use crate::rules::Rule;
use crate::text;
use crate::text::{chars_of, concat, lines, trim, vviews};

verus! {

broadcast use vstd::string::group_string_axioms;

// ============================================================================
// Shared helpers
// ============================================================================

/// Number of leading spaces of a line.
pub open spec fn leading_spaces(line: Seq<char>) -> nat {
    text::lead_count(line, ' ')
}

/// A block scalar modifier character: a digit, `+` or `-`.
pub open spec fn modifier_char(c: char) -> bool {
    text::is_ascii_digit(c) || c == '+' || c == '-'
}

/// The text after the first colon, trimmed, with a ` #` comment removed.
pub open spec fn after_colon_value(t: Seq<char>, p: int) -> Seq<char> {
    let a = trim(t.skip(p + 1));
    match text::find(a, " #"@) {
        Some(h) => trim(a.take(h)),
        None => a,
    }
}

/// A trimmed line that starts a block scalar: `key: |` or `key: >`,
/// optionally followed by digits, `+` or `-`.
pub open spec fn is_block_scalar_start(t: Seq<char>) -> bool {
    match text::find_char(t, ':') {
        None => false,
        Some(p) => {
            let a = after_colon_value(t, p);
            a.len() > 0 && (a[0] == '|' || a[0] == '>') && forall|i: int|
                1 <= i < a.len() ==> modifier_char(#[trigger] a[i])
        },
    }
}

/// YAML words for booleans and null that are not keys.
pub open spec fn is_scalar_word(w: Seq<char>) -> bool {
    w == "true"@ || w == "false"@ || w == "yes"@ || w == "no"@ || w == "null"@ || w == "~"@ || w
        == "on"@ || w == "off"@
}

/// The identifier-shaped words that `str::parse::<f64>` accepts
/// (`inf`, `infinity` and `nan`, in any case); a token made only of ASCII
/// letters, digits, `-`, `_` and `.` that starts with a letter or `_`
/// parses as a float exactly when it is one of these.
pub open spec fn is_float_word(lower: Seq<char>) -> bool {
    lower == "inf"@ || lower == "infinity"@ || lower == "nan"@
}

/// A character that may appear in a key-like token.
pub open spec fn key_char(c: char) -> bool {
    text::is_ascii_alnum(c) || c == '-' || c == '_' || c == '.'
}

/// A trimmed line that looks like a key whose colon was forgotten: a single
/// identifier-like token that is not quoted, not a boolean/null word and
/// not a number.
pub open spec fn looks_like_missing_key(t: Seq<char>) -> bool {
    &&& !(text::starts_with(t, "\""@) || text::starts_with(t, "'"@) || text::starts_with(t, "["@)
        || text::starts_with(t, "{"@))
    &&& !is_scalar_word(text::ascii_lower(t))
    &&& !is_float_word(text::ascii_lower(t))
    &&& t.len() > 0
    &&& (text::is_ascii_alpha(t[0]) || t[0] == '_')
    &&& forall|i: int| 0 <= i < t.len() ==> key_char(#[trigger] t[i])
}

/// A line continues an open block scalar whose key line had indentation `base`.
pub open spec fn continues_block(line: Seq<char>, base: nat) -> bool {
    trim(line).len() == 0 || leading_spaces(line) > base
}

/// Number of leading spaces.
pub fn leading_spaces_exec(line: &[char]) -> (n: usize)
    ensures
        n == leading_spaces(line@),
        n <= line.len(),
{
    text::lead_count_len(line, ' ')
}

/// See [`is_block_scalar_start`].
pub fn is_block_scalar_start_exec(t: &[char]) -> (r: bool)
    ensures
        r == is_block_scalar_start(t@),
{
    match text::find_char_exec(t, ':') {
        None => false,
        Some(p) => {
            let rest = text::slice_range(t, p + 1, t.len());
            assert(rest@ =~= t@.skip(p + 1));
            let a = text::trim_vec(&rest);
            let hash = chars_of(" #");
            let a2 = match text::find_exec(&a, &hash) {
                Some(h) => {
                    let cut = text::slice_range(&a, 0, h);
                    assert(cut@ =~= a@.take(h as int));
                    text::trim_vec(&cut)
                },
                None => a,
            };
            assert(a2@ == after_colon_value(t@, p as int));
            if a2.len() == 0 {
                return false;
            }
            if !(a2[0] == '|' || a2[0] == '>') {
                return false;
            }
            let mut i: usize = 1;
            while i < a2.len()
                invariant
                    1 <= i <= a2.len(),
                    a2@ == after_colon_value(t@, p as int),
                    text::find_char(t@, ':') == Some(p as int),
                    a2@[0] == '|' || a2@[0] == '>',
                    forall|j: int| 1 <= j < i ==> modifier_char(#[trigger] a2@[j]),
                decreases a2.len() - i,
            {
                let c = a2[i];
                if !(('0' <= c && c <= '9') || c == '+' || c == '-') {
                    return false;
                }
                i += 1;
            }
            true
        },
    }
}

/// See [`is_scalar_word`].
fn is_scalar_word_exec(w: &[char]) -> (r: bool)
    ensures
        r == is_scalar_word(w@),
{
    text::eq_str(w, "true") || text::eq_str(w, "false") || text::eq_str(w, "yes")
        || text::eq_str(w, "no") || text::eq_str(w, "null") || text::eq_str(w, "~")
        || text::eq_str(w, "on") || text::eq_str(w, "off")
}

/// See [`looks_like_missing_key`].
pub fn looks_like_missing_key_exec(t: &[char]) -> (r: bool)
    ensures
        r == looks_like_missing_key(t@),
{
    if text::starts_with_str(t, "\"") || text::starts_with_str(t, "'") || text::starts_with_str(
        t,
        "[",
    ) || text::starts_with_str(t, "{") {
        return false;
    }
    let lower = text::ascii_lower_vec(t);
    if is_scalar_word_exec(&lower) {
        return false;
    }
    if text::eq_str(&lower, "inf") || text::eq_str(&lower, "infinity") || text::eq_str(
        &lower,
        "nan",
    ) {
        return false;
    }
    if t.len() == 0 {
        return false;
    }
    let first = t[0];
    if !(('a' <= first && first <= 'z') || ('A' <= first && first <= 'Z') || first == '_') {
        return false;
    }
    let mut i: usize = 0;
    while i < t.len()
        invariant
            i <= t.len(),
            forall|j: int| 0 <= j < i ==> key_char(#[trigger] t@[j]),
        decreases t.len() - i,
    {
        let c = t[i];
        if !(('a' <= c && c <= 'z') || ('A' <= c && c <= 'Z') || ('0' <= c && c <= '9') || c == '-'
            || c == '_' || c == '.') {
            return false;
        }
        i += 1;
    }
    true
}

// ============================================================================
// Rule: yaml-indentation
// ============================================================================

/// Flags indentation that is not a multiple of 2 and indentation widths that
/// do not fit the width used so far. Blank lines, comments and block scalar
/// bodies are skipped.
pub struct YamlIndentationRule;

/// State carried from line to line by the indentation rule.
pub struct IndentState {
    /// The smallest indentation unit seen so far.
    pub unit: Option<nat>,
    /// Inside a block scalar body.
    pub in_block: bool,
    /// Indentation of the block scalar's key line.
    pub base: nat,
}

/// The warning for an odd indentation width.
pub open spec fn odd_indent_diag(indent: nat, n: nat, file: Seq<char>) -> Diag {
    diag(
        Severity::Warning,
        "Indentation is "@ + text::decimal(indent) + " spaces (not a multiple of 2)"@,
        file,
    ).at(n as usize, 1).code("yaml-indentation"@).helped(
        "Use 2-space indentation for consistent YAML formatting"@,
    ).in_context(text::spaces(indent)).suggesting(text::spaces((indent / 2 * 2) as nat)).safety(
        FixSafety::Unsafe,
    )
}

/// The warning for a width that does not fit the file's unit.
pub open spec fn mixed_indent_diag(indent: nat, unit: nat, n: nat, file: Seq<char>) -> Diag {
    diag(
        Severity::Warning,
        "Mixed indentation: this line uses "@ + text::decimal(indent) + " spaces, but file uses "@
            + text::decimal(unit) + "-space indent"@,
        file,
    ).at(n as usize, 1).code("yaml-indentation"@).helped(
        "Use a consistent indent width throughout the file"@,
    )
}

/// One line of the indentation rule: the next state and the diagnostic, if any.
pub open spec fn indent_step(st: IndentState, line: Seq<char>, n: nat, file: Seq<char>) -> (
    IndentState,
    Option<Diag>,
) {
    if st.in_block && continues_block(line, st.base) {
        (st, None)
    } else {
        let t = trim(line);
        if t.len() == 0 || text::starts_with(t, "#"@) {
            (IndentState { in_block: false, ..st }, None)
        } else {
            let st2 = if is_block_scalar_start(t) {
                IndentState { unit: st.unit, in_block: true, base: leading_spaces(line) }
            } else {
                IndentState { in_block: false, ..st }
            };
            let indent = leading_spaces(line);
            if indent == 0 {
                (st2, None)
            } else if indent % 2 != 0 {
                (st2, Some(odd_indent_diag(indent, n, file)))
            } else {
                match st2.unit {
                    None => (IndentState { unit: Some(indent), ..st2 }, None),
                    Some(u) => {
                        let e = if indent % u != 0 && u % indent != 0 {
                            Some(mixed_indent_diag(indent, u, n, file))
                        } else {
                            None
                        };
                        let u2 = if indent < u && u % indent == 0 {
                            indent
                        } else {
                            u
                        };
                        (IndentState { unit: Some(u2), ..st2 }, e)
                    },
                }
            }
        }
    }
}

/// Once a unit width is known, a line outside a block scalar whose
/// indentation is a non-zero even width gets a mixed-indentation warning
/// exactly when neither width is a multiple of the other, whichever of the
/// two is larger; the warning names both widths and the line.
pub proof fn law_mixed_indentation(st: IndentState, line: Seq<char>, n: nat, file: Seq<char>)
    requires
        st.unit is Some,
        st.unit->0 > 0,
        !(st.in_block && continues_block(line, st.base)),
        trim(line).len() > 0,
        !text::starts_with(trim(line), "#"@),
        leading_spaces(line) > 0,
        leading_spaces(line) % 2 == 0,
    ensures
        ({
            let u = st.unit->0;
            let w = leading_spaces(line);
            &&& (w % u != 0 && u % w != 0) ==> indent_step(st, line, n, file).1 == Some(
                mixed_indent_diag(w, u, n, file),
            )
            &&& (w % u == 0 || u % w == 0) ==> indent_step(st, line, n, file).1 is None
        }),
{
}

/// For a line outside a block scalar with non-zero indentation `w`: an odd
/// `w` gets the odd-width warning and leaves the unit as it was; the first
/// even `w` becomes the unit without a warning; a later even `w` replaces
/// the unit only when it is smaller and divides it.
pub proof fn law_indent_unit(st: IndentState, line: Seq<char>, n: nat, file: Seq<char>)
    requires
        !(st.in_block && continues_block(line, st.base)),
        trim(line).len() > 0,
        !text::starts_with(trim(line), "#"@),
        leading_spaces(line) > 0,
    ensures
        ({
            let w = leading_spaces(line);
            let (st2, e) = indent_step(st, line, n, file);
            &&& w % 2 != 0 ==> st2.unit == st.unit && e == Some(odd_indent_diag(w, n, file))
            &&& (w % 2 == 0 && st.unit is None) ==> st2.unit == Some(w) && e is None
            &&& (w % 2 == 0 && st.unit is Some) ==> st2.unit == Some(
                if w < st.unit->0 && st.unit->0 % w == 0 {
                    w
                } else {
                    st.unit->0
                },
            )
        }),
{
}

/// The indentation rule over the first lines of a file.
pub open spec fn indent_fold(ls: Seq<Seq<char>>, file: Seq<char>) -> (IndentState, Seq<Diag>)
    decreases ls.len(),
{
    if ls.len() == 0 {
        (IndentState { unit: None, in_block: false, base: 0 }, Seq::empty())
    } else {
        let (st, errs) = indent_fold(ls.drop_last(), file);
        let (st2, e) = indent_step(st, ls.last(), ls.len(), file);
        (
            st2,
            match e {
                Some(d) => errs.push(d),
                None => errs,
            },
        )
    }
}

/// The diagnostics of the indentation rule for a whole file.
pub open spec fn indentation_diags(source: Seq<char>, file: Seq<char>) -> Seq<Diag> {
    indent_fold(lines(source), file).1
}

/// The unit is never zero.
proof fn lemma_indent_unit_positive(ls: Seq<Seq<char>>, file: Seq<char>)
    ensures
        indent_fold(ls, file).0.unit matches Some(u) ==> u > 0,
    decreases ls.len(),
{
    if ls.len() > 0 {
        lemma_indent_unit_positive(ls.drop_last(), file);
    }
}

impl YamlIndentationRule {
    /// Checks one line; `unit` is 0 while no unit is known.
    fn step(
        &self,
        unit: usize,
        in_block: bool,
        base: usize,
        line: &[char],
        n: usize,
        file: &str,
    ) -> (r: (usize, bool, usize, Option<LintError>))
        requires
            n > 0,
        ensures
            ({
                let st = IndentState {
                    unit: if unit == 0 {
                        None
                    } else {
                        Some(unit as nat)
                    },
                    in_block,
                    base: base as nat,
                };
                let (st2, e) = indent_step(st, line@, n as nat, file@);
                &&& st2.unit == (if r.0 == 0 {
                    None
                } else {
                    Some(r.0 as nat)
                })
                &&& st2.in_block == r.1
                &&& st2.base == r.2
                &&& e == (match r.3 {
                    Some(x) => Some(x@),
                    None => None,
                })
            }),
    {
        let ind0 = leading_spaces_exec(line);
        if in_block {
            let t = text::trim_vec(line);
            if t.len() == 0 || ind0 > base {
                return (unit, in_block, base, None);
            }
        }
        let t = text::trim_vec(line);
        if t.len() == 0 || text::starts_with_str(&t, "#") {
            return (unit, false, base, None);
        }
        let (in2, base2) = if is_block_scalar_start_exec(&t) {
            (true, ind0)
        } else {
            (false, base)
        };
        let indent = ind0;
        if indent == 0 {
            return (unit, in2, base2, None);
        }
        if indent % 2 != 0 {
            let fixed = (indent / 2) * 2;
            let mut msg = chars_of("Indentation is ");
            msg = concat(&msg, &text::decimal_chars(indent));
            msg = concat(&msg, &chars_of(" spaces (not a multiple of 2)"));
            let old_spaces = s_of(&text::spaces_exec(indent));
            let new_spaces = s_of(&text::spaces_exec(fixed));
            let e = LintError::warning(s_of(&msg).as_str(), file).with_location(n, 1).with_rule_code(
                "yaml-indentation",
            ).with_help("Use 2-space indentation for consistent YAML formatting").with_context(
                old_spaces.as_str(),
            ).with_suggestion(new_spaces.as_str()).with_fix_safety(FixSafety::Unsafe);
            return (unit, in2, base2, Some(e));
        }
        if unit == 0 {
            return (indent, in2, base2, None);
        }
        let e = if indent % unit != 0 && unit % indent != 0 {
            let mut msg = chars_of("Mixed indentation: this line uses ");
            msg = concat(&msg, &text::decimal_chars(indent));
            msg = concat(&msg, &chars_of(" spaces, but file uses "));
            msg = concat(&msg, &text::decimal_chars(unit));
            msg = concat(&msg, &chars_of("-space indent"));
            Some(
                LintError::warning(s_of(&msg).as_str(), file).with_location(n, 1).with_rule_code(
                    "yaml-indentation",
                ).with_help("Use a consistent indent width throughout the file"),
            )
        } else {
            None
        };
        let u2 = if indent < unit && unit % indent == 0 {
            indent
        } else {
            unit
        };
        (u2, in2, base2, e)
    }
}

impl Rule for YamlIndentationRule {
    fn name(&self) -> (r: &'static str)
        ensures
            r@ == "yaml-indentation"@,
    {
        "yaml-indentation"
    }

    fn description(&self) -> (r: &'static str)
        ensures
            r@ == "Flags non-standard indentation (not a multiple of 2 spaces) and mixed indent widths"@,
    {
        "Flags non-standard indentation (not a multiple of 2 spaces) and mixed indent widths"
    }

    fn category(&self) -> (r: &'static str)
        ensures
            r@ == "yaml"@,
    {
        "yaml"
    }

    fn default_severity(&self) -> (r: Severity)
        ensures
            r == Severity::Warning,
    {
        Severity::Warning
    }

    fn is_fixable(&self) -> (r: bool)
        ensures
            r,
    {
        true
    }

    open spec fn check_defined(&self, file: Seq<char>, source: Seq<char>) -> bool {
        true
    }

    fn check(&self, config: &FleetConfig, file: &str, source: &str) -> (r: Vec<LintError>)
        ensures
            diags(r@) == indentation_diags(source@, file@),
    {
        let src = chars_of(source);
        let ls = text::split_lines(&src);
        let ghost lv = vviews(ls@);
        let mut errors: Vec<LintError> = Vec::new();
        let mut unit: usize = 0;
        let mut in_block = false;
        let mut base: usize = 0;
        let mut i: usize = 0;
        while i < ls.len()
            invariant
                i <= ls.len(),
                lv == vviews(ls@),
                lv == lines(source@),
                ({
                    let (st, errs) = indent_fold(lv.take(i as int), file@);
                    &&& st.unit == (if unit == 0 {
                        None
                    } else {
                        Some(unit as nat)
                    })
                    &&& st.in_block == in_block
                    &&& st.base == base
                    &&& errs == diags(errors@)
                }),
            decreases ls.len() - i,
        {
            proof {
                assert(lv.take(i + 1).drop_last() =~= lv.take(i as int));
                assert(lv.take(i + 1).last() == ls@[i as int]@);
                lemma_indent_unit_positive(lv.take(i as int), file@);
            }
            let (u2, b2, base2, e) = self.step(unit, in_block, base, &ls[i], i + 1, file);
            unit = u2;
            in_block = b2;
            base = base2;
            match e {
                Some(x) => push_diag(&mut errors, x),
                None => {},
            }
            i += 1;
        }
        assert(lv.take(ls.len() as int) =~= lv);
        errors
    }
}

// ============================================================================
// Rule: yaml-colons
// ============================================================================

/// Flags lines that look like a YAML key but have no colon.
pub struct YamlColonsRule;

/// The warning for a key-like line without a colon.
pub open spec fn missing_colon_diag(t: Seq<char>, n: nat, file: Seq<char>) -> Diag {
    diag(
        Severity::Warning,
        "Line looks like a YAML key but has no colon: `"@ + text::truncate(t, 40) + "`"@,
        file,
    ).at(n as usize, 1).code("yaml-colons"@).helped(
        "Add a colon after the key name, e.g., `key: value`"@,
    ).in_context(t).suggesting(t + ": "@).safety(FixSafety::Safe)
}

/// One line of the colon rule: whether a block scalar is open afterwards,
/// its base indentation, and the diagnostic, if any.
pub open spec fn colons_step(in_block: bool, base: nat, line: Seq<char>, n: nat, file: Seq<char>) -> (
    bool,
    nat,
    Option<Diag>,
) {
    if in_block && continues_block(line, base) {
        (true, base, None)
    } else {
        let t = trim(line);
        if t.len() == 0 || text::starts_with(t, "#"@) || text::starts_with(t, "---"@)
            || text::starts_with(t, "..."@) || text::starts_with(t, "-"@) {
            (false, base, None)
        } else if is_block_scalar_start(t) {
            (true, leading_spaces(line), None)
        } else if t.contains(':') {
            (false, base, None)
        } else if looks_like_missing_key(t) {
            (false, base, Some(missing_colon_diag(t, n, file)))
        } else {
            (false, base, None)
        }
    }
}

/// The colon rule over the first lines of a file.
pub open spec fn colons_fold(ls: Seq<Seq<char>>, file: Seq<char>) -> (bool, nat, Seq<Diag>)
    decreases ls.len(),
{
    if ls.len() == 0 {
        (false, 0, Seq::empty())
    } else {
        let (b, base, errs) = colons_fold(ls.drop_last(), file);
        let (b2, base2, e) = colons_step(b, base, ls.last(), ls.len(), file);
        (
            b2,
            base2,
            match e {
                Some(d) => errs.push(d),
                None => errs,
            },
        )
    }
}

/// The diagnostics of the colon rule for a whole file.
pub open spec fn colons_diags(source: Seq<char>, file: Seq<char>) -> Seq<Diag> {
    colons_fold(lines(source), file).2
}

/// A key-like token is ASCII, so its byte length is its length.
proof fn lemma_key_like_ascii(t: Seq<char>)
    requires
        forall|i: int| 0 <= i < t.len() ==> key_char(#[trigger] t[i]),
    ensures
        text::byte_len(t) == t.len(),
    decreases t.len(),
{
    if t.len() > 0 {
        assert(forall|i: int| 0 <= i < t.drop_last().len() ==> key_char(#[trigger] t.drop_last()[i])) by {
            assert forall|i: int| 0 <= i < t.drop_last().len() implies key_char(#[trigger] t.drop_last()[i]) by {
                assert(t.drop_last()[i] == t[i]);
            }
        }
        lemma_key_like_ascii(t.drop_last());
        assert(key_char(t[t.len() - 1]));
    }
}

/// An ASCII text can be cut at any byte count.
proof fn lemma_ascii_truncate_ok(t: Seq<char>, max: nat)
    requires
        text::byte_len(t) == t.len(),
        forall|i: int| 0 <= i < t.len() ==> key_char(#[trigger] t[i]),
    ensures
        text::truncate_ok(t, max),
{
    if t.len() > max {
        lemma_prefix_ascii(t, max as int);
        assert(0 <= max <= t.len() && text::byte_len(t.take(max as int)) == max);
    }
}

proof fn lemma_prefix_ascii(t: Seq<char>, k: int)
    requires
        0 <= k <= t.len(),
        forall|i: int| 0 <= i < t.len() ==> key_char(#[trigger] t[i]),
    ensures
        text::byte_len(t.take(k)) == k,
{
    let p = t.take(k);
    assert forall|i: int| 0 <= i < p.len() implies key_char(#[trigger] p[i]) by {
        assert(p[i] == t[i]);
    }
    lemma_key_like_ascii(p);
}

impl YamlColonsRule {
    fn step(&self, in_block: bool, base: usize, line: &[char], n: usize, file: &str) -> (r: (
        bool,
        usize,
        Option<LintError>,
    ))
        requires
            n > 0,
        ensures
            ({
                let (b2, base2, e) = colons_step(in_block, base as nat, line@, n as nat, file@);
                &&& b2 == r.0
                &&& base2 == r.1
                &&& e == (match r.2 {
                    Some(x) => Some(x@),
                    None => None,
                })
            }),
    {
        let ind0 = leading_spaces_exec(line);
        let t = text::trim_vec(line);
        if in_block {
            if t.len() == 0 || ind0 > base {
                return (true, base, None);
            }
        }
        if t.len() == 0 || text::starts_with_str(&t, "#") || text::starts_with_str(&t, "---")
            || text::starts_with_str(&t, "...") || text::starts_with_str(&t, "-") {
            return (false, base, None);
        }
        if is_block_scalar_start_exec(&t) {
            return (true, ind0, None);
        }
        if text::has_char_exec(&t, ':') {
            return (false, base, None);
        }
        if looks_like_missing_key_exec(&t) {
            proof {
                lemma_key_like_ascii(t@);
                lemma_ascii_truncate_ok(t@, 40);
            }
            let mut msg = chars_of("Line looks like a YAML key but has no colon: `");
            msg = concat(&msg, &text::truncate_exec(&t, 40));
            msg = concat(&msg, &chars_of("`"));
            let ctx = s_of(&t);
            let sugg = s_of(&concat(&t, &chars_of(": ")));
            let e = LintError::warning(s_of(&msg).as_str(), file).with_location(n, 1).with_rule_code(
                "yaml-colons",
            ).with_help("Add a colon after the key name, e.g., `key: value`").with_context(
                ctx.as_str(),
            ).with_suggestion(sugg.as_str()).with_fix_safety(FixSafety::Safe);
            return (false, base, Some(e));
        }
        (false, base, None)
    }
}

impl Rule for YamlColonsRule {
    fn name(&self) -> (r: &'static str)
        ensures
            r@ == "yaml-colons"@,
    {
        "yaml-colons"
    }

    fn description(&self) -> (r: &'static str)
        ensures
            r@ == "Detects lines that look like YAML keys but are missing a colon separator"@,
    {
        "Detects lines that look like YAML keys but are missing a colon separator"
    }

    fn category(&self) -> (r: &'static str)
        ensures
            r@ == "yaml"@,
    {
        "yaml"
    }

    fn default_severity(&self) -> (r: Severity)
        ensures
            r == Severity::Warning,
    {
        Severity::Warning
    }

    fn is_fixable(&self) -> (r: bool)
        ensures
            r,
    {
        true
    }

    open spec fn check_defined(&self, file: Seq<char>, source: Seq<char>) -> bool {
        true
    }

    fn check(&self, config: &FleetConfig, file: &str, source: &str) -> (r: Vec<LintError>)
        ensures
            diags(r@) == colons_diags(source@, file@),
    {
        let src = chars_of(source);
        let ls = text::split_lines(&src);
        let ghost lv = vviews(ls@);
        let mut errors: Vec<LintError> = Vec::new();
        let mut in_block = false;
        let mut base: usize = 0;
        let mut i: usize = 0;
        while i < ls.len()
            invariant
                i <= ls.len(),
                lv == vviews(ls@),
                lv == lines(source@),
                ({
                    let (b, bs, errs) = colons_fold(lv.take(i as int), file@);
                    &&& b == in_block
                    &&& bs == base
                    &&& errs == diags(errors@)
                }),
            decreases ls.len() - i,
        {
            proof {
                assert(lv.take(i + 1).drop_last() =~= lv.take(i as int));
                assert(lv.take(i + 1).last() == ls@[i as int]@);
            }
            let (b2, base2, e) = self.step(in_block, base, &ls[i], i + 1, file);
            in_block = b2;
            base = base2;
            match e {
                Some(x) => push_diag(&mut errors, x),
                None => {},
            }
            i += 1;
        }
        assert(lv.take(ls.len() as int) =~= lv);
        errors
    }
}

// ============================================================================
// Rule: yaml-empty-values
// ============================================================================

/// Flags keys without a value (they parse as null), except Fleet collection
/// keys, for which an empty value means "no items", and parent keys.
pub struct YamlEmptyValuesRule;

/// Keys whose empty value is idiomatic in Fleet GitOps files.
pub open spec fn is_empty_ok_key(k: Seq<char>) -> bool {
    ||| k == "policies"@ || k == "queries"@ || k == "reports"@ || k == "labels"@ || k == "software"@
    ||| k == "packages"@ || k == "app_store_apps"@ || k == "fleet_maintained_apps"@
    ||| k == "configuration_profiles"@ || k == "custom_settings"@ || k == "certificates"@ || k
        == "scripts"@
    ||| k == "labels_include_any"@ || k == "labels_include_all"@ || k == "labels_exclude_any"@
    ||| k == "hosts"@ || k == "host_ids"@ || k == "categories"@
    ||| k == "apple_business_manager"@ || k == "volume_purchasing_program"@ || k
        == "integrations"@ || k == "google_calendar"@ || k == "jira"@ || k == "zendesk"@ || k
        == "webhook_settings"@
}

fn is_empty_ok_key_exec(k: &[char]) -> (r: bool)
    ensures
        r == is_empty_ok_key(k@),
{
    text::eq_str(k, "policies") || text::eq_str(k, "queries") || text::eq_str(k, "reports")
        || text::eq_str(k, "labels") || text::eq_str(k, "software") || text::eq_str(k, "packages")
        || text::eq_str(k, "app_store_apps") || text::eq_str(k, "fleet_maintained_apps")
        || text::eq_str(k, "configuration_profiles") || text::eq_str(k, "custom_settings")
        || text::eq_str(k, "certificates") || text::eq_str(k, "scripts") || text::eq_str(
        k,
        "labels_include_any",
    ) || text::eq_str(k, "labels_include_all") || text::eq_str(k, "labels_exclude_any")
        || text::eq_str(k, "hosts") || text::eq_str(k, "host_ids") || text::eq_str(k, "categories")
        || text::eq_str(k, "apple_business_manager") || text::eq_str(
        k,
        "volume_purchasing_program",
    ) || text::eq_str(k, "integrations") || text::eq_str(k, "google_calendar") || text::eq_str(
        k,
        "jira",
    ) || text::eq_str(k, "zendesk") || text::eq_str(k, "webhook_settings")
}

/// The first non-blank line after line `idx`, if any.
pub open spec fn next_nonblank(ls: Seq<Seq<char>>, idx: int) -> Option<int> {
    if exists|j: int|
        idx < j < ls.len() && trim(ls[j]).len() > 0 && forall|k: int|
            idx < k < j ==> trim(#[trigger] ls[k]).len() == 0 {
        Some(
            choose|j: int|
                idx < j < ls.len() && trim(ls[j]).len() > 0 && forall|k: int|
                    idx < k < j ==> trim(#[trigger] ls[k]).len() == 0,
        )
    } else {
        None
    }
}

/// The next non-blank line is indented deeper than `indent`.
pub open spec fn has_children(ls: Seq<Seq<char>>, idx: int, indent: nat) -> bool {
    match next_nonblank(ls, idx) {
        Some(j) => leading_spaces(ls[j]) > indent,
        None => false,
    }
}

/// The key of a `key:` line: the text before the colon with list dashes and
/// whitespace removed.
pub open spec fn clean_key(t: Seq<char>, cp: int) -> Seq<char> {
    trim(text::trim_start_char(t.take(cp), '-'))
}

/// The key of line `idx` that has no value and is not a parent, if that
/// line is flagged (ignoring block scalar state).
pub open spec fn empty_key_candidate(ls: Seq<Seq<char>>, idx: int) -> Option<(Seq<char>, int)> {
    let line = ls[idx];
    let t = trim(line);
    match text::find_char(t, ':') {
        None => None,
        Some(cp) => {
            let key_part = t.take(cp);
            let value_part = trim(t.skip(cp + 1));
            let kc = clean_key(t, cp);
            if key_part.len() == 0 || text::starts_with(key_part, "\""@) || text::starts_with(
                key_part,
                "'"@,
            ) {
                None
            } else if kc.len() == 0 || is_empty_ok_key(kc) {
                None
            } else if !(value_part.len() == 0 || text::starts_with(value_part, "#"@)) {
                None
            } else if has_children(ls, idx, leading_spaces(line)) {
                None
            } else {
                Some((kc, cp))
            }
        },
    }
}

/// The info diagnostic for a key without a value.
pub open spec fn empty_value_diag(t: Seq<char>, kc: Seq<char>, cp: int, n: nat, file: Seq<char>) -> Diag {
    diag(
        Severity::Info,
        "Key `"@ + text::truncate(kc, 30) + "` has no value (will be parsed as null)"@,
        file,
    ).at(n as usize, (text::byte_len(t.take(cp)) + 2) as usize).code("yaml-empty-values"@).helped(
        "Provide a value, or remove the key if not needed."@,
    )
}

/// One line of the empty-value rule: block scalar state afterwards and the
/// flagged key (with its colon position), if any.
pub open spec fn empty_step(in_block: bool, base: nat, ls: Seq<Seq<char>>, idx: int) -> (
    bool,
    nat,
    Option<(Seq<char>, int)>,
) {
    let line = ls[idx];
    if in_block && continues_block(line, base) {
        (true, base, None)
    } else {
        let t = trim(line);
        if t.len() == 0 || text::starts_with(t, "#"@) {
            (false, base, None)
        } else if is_block_scalar_start(t) {
            (true, leading_spaces(line), None)
        } else {
            (false, base, empty_key_candidate(ls, idx))
        }
    }
}

/// The empty-value rule over the first `n` lines: block scalar state and the
/// flagged lines as (line index, key, colon position).
pub open spec fn empty_fold(ls: Seq<Seq<char>>, n: nat) -> (bool, nat, Seq<(int, Seq<char>, int)>)
    decreases n,
{
    if n == 0 {
        (false, 0, Seq::empty())
    } else {
        let (b, base, found) = empty_fold(ls, (n - 1) as nat);
        let (b2, base2, e) = empty_step(b, base, ls, n - 1);
        (
            b2,
            base2,
            match e {
                Some((kc, cp)) => found.push((n - 1, kc, cp)),
                None => found,
            },
        )
    }
}

/// The flagged lines of a whole file.
pub open spec fn empty_value_findings(source: Seq<char>) -> Seq<(int, Seq<char>, int)> {
    empty_fold(lines(source), lines(source).len()).2
}

/// Every flagged key can be shown cut to 30 bytes without splitting a character.
pub open spec fn empty_values_displayable(source: Seq<char>) -> bool {
    forall|i: int|
        0 <= i < empty_value_findings(source).len() ==> text::truncate_ok(
            (#[trigger] empty_value_findings(source)[i]).1,
            30,
        )
}

/// The diagnostics of the empty-value rule for a whole file.
pub open spec fn empty_values_diags(source: Seq<char>, file: Seq<char>) -> Seq<Diag> {
    let ls = lines(source);
    let f = empty_value_findings(source);
    Seq::new(
        f.len(),
        |i: int| empty_value_diag(trim(ls[f[i].0]), f[i].1, f[i].2, (f[i].0 + 1) as nat, file),
    )
}

/// The index of the first non-blank line after `idx`.
fn next_nonblank_exec(ls: &Vec<Vec<char>>, idx: usize) -> (r: Option<usize>)
    requires
        idx < ls.len(),
    ensures
        r matches Some(j) ==> next_nonblank(vviews(ls@), idx as int) == Some(j as int) && j
            < ls.len(),
        r is None ==> next_nonblank(vviews(ls@), idx as int) is None,
{
    let ghost lv = vviews(ls@);
    let mut j = idx + 1;
    while j < ls.len()
        invariant
            idx < j <= ls.len(),
            lv == vviews(ls@),
            forall|k: int| idx < k < j ==> trim(#[trigger] lv[k]).len() == 0,
        decreases ls.len() - j,
    {
        let t = text::trim_vec(&ls[j]);
        if t.len() > 0 {
            proof {
                let k = choose|k: int|
                    idx < k < lv.len() && trim(lv[k]).len() > 0 && forall|m: int|
                        idx < m < k ==> trim(#[trigger] lv[m]).len() == 0;
                assert(idx < j < lv.len() && trim(lv[j as int]).len() > 0 && forall|m: int|
                    idx < m < j ==> trim(#[trigger] lv[m]).len() == 0);
                if k < j {
                } else if k > j {
                    assert(trim(lv[j as int]).len() == 0);
                }
            }
            return Some(j);
        }
        j += 1;
    }
    None
}

impl YamlEmptyValuesRule {
    /// The flagged key of line `idx`, with its colon position, if any.
    fn candidate(&self, ls: &Vec<Vec<char>>, idx: usize) -> (r: Option<(Vec<char>, usize)>)
        requires
            idx < ls.len(),
        ensures
            r matches Some((k, cp)) ==> empty_key_candidate(vviews(ls@), idx as int) == Some(
                (k@, cp as int),
            ) && cp <= trim(ls@[idx as int]@).len(),
            r is None ==> empty_key_candidate(vviews(ls@), idx as int) is None,
    {
        let ghost lv = vviews(ls@);
        assert(lv[idx as int] == ls@[idx as int]@);
        let line = &ls[idx];
        let t = text::trim_vec(line);
        match text::find_char_exec(&t, ':') {
            None => None,
            Some(cp) => {
                let key_part = text::slice_range(&t, 0, cp);
                assert(key_part@ =~= t@.take(cp as int));
                let rest = text::slice_range(&t, cp + 1, t.len());
                assert(rest@ =~= t@.skip(cp + 1));
                let value_part = text::trim_vec(&rest);
                if key_part.len() == 0 || text::starts_with_str(&key_part, "\"")
                    || text::starts_with_str(&key_part, "'") {
                    return None;
                }
                let dashless = text::trim_start_char_vec(&key_part, '-');
                let kc = text::trim_vec(&dashless);
                if kc.len() == 0 || is_empty_ok_key_exec(&kc) {
                    return None;
                }
                if !(value_part.len() == 0 || text::starts_with_str(&value_part, "#")) {
                    return None;
                }
                let indent = leading_spaces_exec(line);
                let children = match next_nonblank_exec(ls, idx) {
                    Some(j) => leading_spaces_exec(&ls[j]) > indent,
                    None => false,
                };
                if children {
                    return None;
                }
                Some((kc, cp))
            },
        }
    }
}

impl Rule for YamlEmptyValuesRule {
    fn name(&self) -> (r: &'static str)
        ensures
            r@ == "yaml-empty-values"@,
    {
        "yaml-empty-values"
    }

    fn description(&self) -> (r: &'static str)
        ensures
            r@ == "Flags keys with no value (serde parses as null) that may indicate missing data"@,
    {
        "Flags keys with no value (serde parses as null) that may indicate missing data"
    }

    fn category(&self) -> (r: &'static str)
        ensures
            r@ == "yaml"@,
    {
        "yaml"
    }

    fn default_severity(&self) -> (r: Severity)
        ensures
            r == Severity::Info,
    {
        Severity::Info
    }

    /// Every flagged key can be shown cut to 30 bytes, and the text fits
    /// in memory.
    open spec fn check_defined(&self, file: Seq<char>, source: Seq<char>) -> bool {
        empty_values_displayable(source) && text::source_fits(source)
    }

    fn check(&self, config: &FleetConfig, file: &str, source: &str) -> (r: Vec<LintError>)
        ensures
            diags(r@) == empty_values_diags(source@, file@),
    {
        let src = chars_of(source);
        let ls = text::split_lines(&src);
        let ghost lv = vviews(ls@);
        proof {
            text::lemma_lines_bytes(source@);
        }
        let mut errors: Vec<LintError> = Vec::new();
        let mut in_block = false;
        let mut base: usize = 0;
        let mut i: usize = 0;
        while i < ls.len()
            invariant
                i <= ls.len(),
                lv == vviews(ls@),
                lv == lines(source@),
                empty_values_displayable(source@),
                text::source_fits(source@),
                forall|k: int| 0 <= k < lv.len() ==> text::byte_len(#[trigger] lv[k]) <= text::byte_len(source@),
                ({
                    let (b, bs, found) = empty_fold(lv, i as nat);
                    &&& b == in_block
                    &&& bs == base
                    &&& found.len() == diags(errors@).len()
                    &&& forall|k: int|
                        0 <= k < found.len() ==> 0 <= (#[trigger] found[k]).0 < i && diags(errors@)[k]
                            == empty_value_diag(trim(lv[found[k].0]), found[k].1, found[k].2, (found[k].0 + 1) as nat, file@)
                    &&& found.is_prefix_of(empty_value_findings(source@))
                }),
            decreases ls.len() - i,
        {
            proof {
                lemma_empty_fold_prefix(lv, (i + 1) as nat, lv.len());
            }
            assert(lv[i as int] == ls@[i as int]@);
            let line = &ls[i];
            let ind0 = leading_spaces_exec(line);
            let t = text::trim_vec(line);
            let ghost found0 = empty_fold(lv, i as nat).2;
            let ghost errs0 = diags(errors@);
            let ghost st0 = (in_block, base as nat);
            assert(empty_fold(lv, (i + 1) as nat) == ({
                let (b2, base2, e) = empty_step(st0.0, st0.1, lv, i as int);
                (b2, base2, match e { Some((kc, cp)) => found0.push((i as int, kc, cp)), None => found0 })
            }));
            if in_block && (t.len() == 0 || ind0 > base) {
                // block scalar body
            } else if t.len() == 0 || text::starts_with_str(&t, "#") {
                in_block = false;
            } else if is_block_scalar_start_exec(&t) {
                in_block = true;
                base = ind0;
            } else {
                in_block = false;
                match self.candidate(&ls, i) {
                    None => {},
                    Some((kc, cp)) => {
                        proof {
                            let found1 = empty_fold(lv, (i + 1) as nat).2;
                            assert(found1 == found0.push((i as int, kc@, cp as int)));
                            assert(found1.is_prefix_of(empty_value_findings(source@)));
                            assert(found1[found0.len() as int] == empty_value_findings(source@)[found0.len() as int]);
                            assert(text::truncate_ok(kc@, 30));
                            text::lemma_trim_bytes(lv[i as int]);
                            text::lemma_byte_len_take(t@, cp as int);
                        }
                        let col_bytes = text::byte_len_exec(&text::slice_range(&t, 0, cp));
                        let mut msg = chars_of("Key `");
                        msg = concat(&msg, &text::truncate_exec(&kc, 30));
                        msg = concat(&msg, &chars_of("` has no value (will be parsed as null)"));
                        let e = LintError::info(s_of(&msg).as_str(), file).with_location(
                            i + 1,
                            col_bytes + 2,
                        ).with_rule_code("yaml-empty-values").with_help(
                            "Provide a value, or remove the key if not needed.",
                        );
                        push_diag(&mut errors, e);
                        assert(diags(errors@) == errs0.push(e@));
                        assert(empty_fold(lv, (i + 1) as nat).2 == found0.push((i as int, kc@, cp as int)));
                    },
                }
            }
            i += 1;
        }
        proof {
            let f = empty_value_findings(source@);
            let found = empty_fold(lv, lv.len()).2;
            assert(found == f);
            assert(diags(errors@) =~= empty_values_diags(source@, file@));
        }
        errors
    }
}

/// Whether every key flagged by the empty-value rule can be cut to 30
/// bytes for display (the rule's requirement on the source).
pub fn empty_values_displayable_exec(source: &str) -> (r: bool)
    requires
        text::source_fits(source@),
    ensures
        r == empty_values_displayable(source@),
{
    let rule = YamlEmptyValuesRule;
    let src = chars_of(source);
    let ls = text::split_lines(&src);
    let ghost lv = vviews(ls@);
    let mut in_block = false;
    let mut base: usize = 0;
    let mut i: usize = 0;
    while i < ls.len()
        invariant
            i <= ls.len(),
            lv == vviews(ls@),
            lv == lines(source@),
            ({
                let (b, bs, found) = empty_fold(lv, i as nat);
                &&& b == in_block
                &&& bs == base
                &&& forall|k: int| 0 <= k < found.len() ==> text::truncate_ok((#[trigger] found[k]).1, 30)
                &&& found.is_prefix_of(empty_value_findings(source@))
            }),
        decreases ls.len() - i,
    {
        proof {
            lemma_empty_fold_prefix(lv, (i + 1) as nat, lv.len());
        }
        assert(lv[i as int] == ls@[i as int]@);
        let line = &ls[i];
        let ind0 = leading_spaces_exec(line);
        let t = text::trim_vec(line);
        let ghost found0 = empty_fold(lv, i as nat).2;
        let ghost st0 = (in_block, base as nat);
        assert(empty_fold(lv, (i + 1) as nat) == ({
            let (b2, base2, e) = empty_step(st0.0, st0.1, lv, i as int);
            (b2, base2, match e { Some((kc, cp)) => found0.push((i as int, kc, cp)), None => found0 })
        }));
        if in_block && (t.len() == 0 || ind0 > base) {
        } else if t.len() == 0 || text::starts_with_str(&t, "#") {
            in_block = false;
        } else if is_block_scalar_start_exec(&t) {
            in_block = true;
            base = ind0;
        } else {
            in_block = false;
            match rule.candidate(&ls, i) {
                None => {},
                Some((kc, cp)) => {
                    let ghost found1 = empty_fold(lv, (i + 1) as nat).2;
                    assert(found1 == found0.push((i as int, kc@, cp as int)));
                    if !text::truncate_ok_exec(&kc, 30) {
                        proof {
                            let f = empty_value_findings(source@);
                            assert(found1[found0.len() as int] == f[found0.len() as int]);
                            assert(!text::truncate_ok(f[found0.len() as int].1, 30));
                        }
                        return false;
                    }
                    assert(forall|k: int| 0 <= k < found1.len() ==> text::truncate_ok((#[trigger] found1[k]).1, 30));
                },
            }
        }
        i += 1;
    }
    proof {
        let f = empty_value_findings(source@);
        assert(empty_fold(lv, lv.len()).2 == f);
    }
    true
}

/// The findings after `n` lines are a prefix of the findings after `m >= n` lines.
proof fn lemma_empty_fold_prefix(ls: Seq<Seq<char>>, n: nat, m: nat)
    requires
        n <= m,
    ensures
        empty_fold(ls, n).2.is_prefix_of(empty_fold(ls, m).2),
    decreases m - n,
{
    if n < m {
        lemma_empty_fold_prefix(ls, n, (m - 1) as nat);
    }
}

} // verus!
