//! Semantic rules on the YAML document: constraints beyond the schema such
//! as mutually exclusive fields, label membership types, date and hash
//! formats, categories, file extensions, secrets and path references.
use vstd::prelude::*;

use crate::diag::{diag, diags, extend_diags, mk, push_diag, s_of, Diag, FixSafety, LintError, Severity};
use crate::engine::{detect_file_type, file_name, file_type_of, path_components, FileType};
use crate::fleet_config::FleetConfig;
use crate::rules::{find_key_line, join3, join5, key_line_from, opt_seq, push_opt, Rule};
use crate::text;
use crate::text::{chars_of, concat, lines, strs};
use crate::yaml::{
    as_bool, as_bool_exec, display_name, display_name_exec, get, get_exec, get_str, get_str_exec,
    get_string_array, get_string_array_exec, get_untagged, has_key, has_key_exec, items_at,
    items_at_exec, parse_yaml, untag, untag_exec, yaml_parse, YamlValue,
};

verus! {

broadcast use vstd::string::group_string_axioms;

// ============================================================================
// Shared helpers
// ============================================================================

/// A path of one key.
fn path1(a: &'static str) -> (r: Vec<&'static str>)
    ensures
        strs(r@) == seq![a@],
{
    let mut v: Vec<&'static str> = Vec::new();
    v.push(a);
    assert(strs(v@) =~= seq![a@]);
    v
}

/// A path of two keys.
fn path2(a: &'static str, b: &'static str) -> (r: Vec<&'static str>)
    ensures
        strs(r@) == seq![a@, b@],
{
    let mut v: Vec<&'static str> = Vec::new();
    v.push(a);
    v.push(b);
    assert(strs(v@) =~= seq![a@, b@]);
    v
}

/// A path of three keys.
fn path3(a: &'static str, b: &'static str, c: &'static str) -> (r: Vec<&'static str>)
    ensures
        strs(r@) == seq![a@, b@, c@],
{
    let mut v: Vec<&'static str> = Vec::new();
    v.push(a);
    v.push(b);
    v.push(c);
    assert(strs(v@) =~= seq![a@, b@, c@]);
    v
}

/// The findings of a list of items, one list per item, joined in order.
pub open spec fn each_item(items: Seq<YamlValue>, f: spec_fn(YamlValue) -> Seq<Diag>) -> Seq<Diag>
    decreases items.len(),
{
    if items.len() == 0 {
        Seq::empty()
    } else {
        each_item(items.drop_last(), f) + f(items.last())
    }
}

/// An entry that only refers to another file: it has `path` or `paths`
/// and no `name`.
pub open spec fn is_file_ref(item: YamlValue) -> bool {
    (has_key(item, "path"@) || has_key(item, "paths"@)) && !has_key(item, "name"@)
}

/// Whether an entry only refers to another file.
fn is_file_ref_exec(item: &YamlValue) -> (r: bool)
    ensures
        r == is_file_ref(*item),
{
    (has_key_exec(item, "path") || has_key_exec(item, "paths")) && !has_key_exec(item, "name")
}

/// The findings of `targeting_diags` on the parsed document; none when the
/// source does not parse.
pub open spec fn targeting_all(file: Seq<char>, source: Seq<char>) -> Seq<Diag> {
    on_parsed(source, |v: YamlValue| targeting_diags(v, file))
}

/// The findings of `date_diags` on the parsed document; none when the
/// source does not parse.
pub open spec fn date_all(file: Seq<char>, source: Seq<char>) -> Seq<Diag> {
    on_parsed(source, |v: YamlValue| date_diags(v, file))
}

/// The findings of `hash_diags` on the parsed document; none when the
/// source does not parse.
pub open spec fn hash_all(file: Seq<char>, source: Seq<char>) -> Seq<Diag> {
    on_parsed(source, |v: YamlValue| hash_diags(v, file))
}

/// The findings of `categories_diags` on the parsed document; none when the
/// source does not parse.
pub open spec fn categories_all(file: Seq<char>, source: Seq<char>) -> Seq<Diag> {
    on_parsed(source, |v: YamlValue| categories_diags(v, file))
}

/// The findings of `extension_diags` on the parsed document; none when the
/// source does not parse.
pub open spec fn extension_all(file: Seq<char>, source: Seq<char>) -> Seq<Diag> {
    on_parsed(source, |v: YamlValue| extension_diags(v, file))
}

/// The findings of `secret_diags` on the parsed document; none when the
/// source does not parse.
pub open spec fn secret_all(file: Seq<char>, source: Seq<char>) -> Seq<Diag> {
    on_parsed(source, |v: YamlValue| secret_diags(v, file))
}

/// The findings of `patch_diags` on the parsed document; none when the
/// source does not parse.
pub open spec fn patch_all(file: Seq<char>, source: Seq<char>) -> Seq<Diag> {
    on_parsed(source, |v: YamlValue| patch_diags(v, file))
}

/// The findings of `membership_diags` on the parsed document; none when the
/// source does not parse.
pub open spec fn membership_all(file: Seq<char>, source: Seq<char>) -> Seq<Diag> {
    on_parsed(source, |v: YamlValue| membership_diags(v, file))
}

/// The findings of `path_diags` on the parsed document; none when the
/// source does not parse.
pub open spec fn path_all(file: Seq<char>, source: Seq<char>) -> Seq<Diag> {
    on_parsed(source, |v: YamlValue| path_diags(v, file, source))
}

// ============================================================================
// label-targeting
// ============================================================================

/// Flags items that set both `labels_include_any` and `labels_include_all`.
pub struct LabelTargetingRule;

/// The targeting finding for one item.
pub open spec fn targeting_item(file: Seq<char>) -> spec_fn(YamlValue) -> Seq<Diag> {
    |item: YamlValue|
        if has_key(item, "labels_include_any"@) && has_key(item, "labels_include_all"@) {
            seq![
                diag(
                    Severity::Error,
                    "'"@ + display_name(item)
                        + "' has both labels_include_any and labels_include_all — only one is allowed"@,
                    file,
                ).helped(
                    "Use labels_include_any to match hosts with ANY label, or labels_include_all to match hosts with ALL labels"@,
                ),
            ]
        } else {
            Seq::empty()
        }
}

/// The targeting findings of a document: policies, queries, reports,
/// software packages, App Store apps, Fleet-maintained apps and scripts.
pub open spec fn targeting_diags(v: YamlValue, file: Seq<char>) -> Seq<Diag> {
    let f = targeting_item(file);
    each_item(items_at(v, seq!["policies"@]), f) + each_item(items_at(v, seq!["queries"@]), f) + each_item(
        items_at(v, seq!["reports"@]),
        f,
    ) + each_item(items_at(v, seq!["software"@, "packages"@]), f) + each_item(
        items_at(v, seq!["software"@, "app_store_apps"@]),
        f,
    ) + each_item(items_at(v, seq!["software"@, "fleet_maintained_apps"@]), f) + each_item(
        items_at(v, seq!["controls"@, "scripts"@]),
        f,
    )
}

impl LabelTargetingRule {
    fn check_items(items: &[YamlValue], file: &str, errors: &mut Vec<LintError>)
        ensures
            diags(final(errors)@) == diags(old(errors)@) + each_item(items@, targeting_item(file@)),
    {
        let ghost start = diags(errors@);
        let mut i: usize = 0;
        while i < items.len()
            invariant
                i <= items@.len(),
                diags(errors@) == start + each_item(items@.take(i as int), targeting_item(file@)),
            decreases items.len() - i,
        {
            assert(items@.take(i + 1).drop_last() =~= items@.take(i as int));
            let ghost before = diags(errors@);
            let item = &items[i];
            if has_key_exec(item, "labels_include_any") && has_key_exec(item, "labels_include_all") {
                let m = join3("'", &display_name_exec(item), "' has both labels_include_any and labels_include_all — only one is allowed");
                push_diag(
                    errors,
                    mk(Severity::Error, &m, file).with_help(
                        "Use labels_include_any to match hosts with ANY label, or labels_include_all to match hosts with ALL labels",
                    ),
                );
            }
            assert(diags(errors@) =~= before + targeting_item(file@)(items@[i as int]));
            i += 1;
        }
        assert(items@.take(items.len() as int) =~= items@);
    }
}

/// The findings of a rule that parses the source: none when it does not
/// parse.
pub open spec fn on_parsed(source: Seq<char>, f: spec_fn(YamlValue) -> Seq<Diag>) -> Seq<Diag> {
    match yaml_parse(source) {
        Some(v) => f(v),
        None => Seq::empty(),
    }
}

impl Rule for LabelTargetingRule {
    fn name(&self) -> (r: &'static str)
        ensures
            r@ == "label-targeting"@,
    {
        "label-targeting"
    }

    fn description(&self) -> (r: &'static str)
        ensures
            r@ == "Checks that labels_include_any and labels_include_all are not both specified"@,
    {
        "Checks that labels_include_any and labels_include_all are not both specified"
    }

    fn category(&self) -> (r: &'static str)
        ensures
            r@ == "semantic"@,
    {
        "semantic"
    }

    fn docs_url(&self) -> (r: Option<&'static str>)
        ensures
            r matches Some(u) && u@ == "https://fleetdm.com/docs/configuration/yaml-files#policies"@,
    {
        Some("https://fleetdm.com/docs/configuration/yaml-files#policies")
    }

    open spec fn check_defined(&self, file: Seq<char>, source: Seq<char>) -> bool {
        true
    }

    fn check(&self, config: &FleetConfig, file: &str, source: &str) -> (r: Vec<LintError>)
        ensures
            diags(r@) == targeting_all(file@, source@),
    {
        let mut errors: Vec<LintError> = Vec::new();
        match parse_yaml(source) {
            None => {},
            Some(yaml) => {
                LabelTargetingRule::check_items(items_at_exec(&yaml, &path1("policies")), file, &mut errors);
                LabelTargetingRule::check_items(items_at_exec(&yaml, &path1("queries")), file, &mut errors);
                LabelTargetingRule::check_items(items_at_exec(&yaml, &path1("reports")), file, &mut errors);
                LabelTargetingRule::check_items(items_at_exec(&yaml, &path2("software", "packages")), file, &mut errors);
                LabelTargetingRule::check_items(items_at_exec(&yaml, &path2("software", "app_store_apps")), file, &mut errors);
                LabelTargetingRule::check_items(
                    items_at_exec(&yaml, &path2("software", "fleet_maintained_apps")),
                    file,
                    &mut errors,
                );
                LabelTargetingRule::check_items(items_at_exec(&yaml, &path2("controls", "scripts")), file, &mut errors);
                assert(diags(errors@) =~= targeting_diags(yaml, file@));
            },
        }
        errors
    }
}

// ============================================================================
// date-format
// ============================================================================

/// Checks that update deadlines are real `YYYY-MM-DD` dates.
pub struct DateFormatRule;

/// The number written by decimal digits.
pub open spec fn digits_value(d: Seq<char>) -> nat
    decreases d.len(),
{
    if d.len() == 0 {
        0
    } else {
        (digits_value(d.drop_last()) * 10 + (d.last() as int - '0' as int)) as nat
    }
}

/// Every character is an ASCII digit.
pub open spec fn all_digits(d: Seq<char>) -> bool {
    forall|i: int| 0 <= i < d.len() ==> text::is_ascii_digit(#[trigger] d[i])
}

/// What `str::parse::<u32>` accepts: an optional `+` and then at least one
/// digit, with a value that fits in `u32`.
pub open spec fn parse_u32(s: Seq<char>) -> Option<nat> {
    let d = if s.len() > 0 && s[0] == '+' {
        s.skip(1)
    } else {
        s
    };
    if d.len() > 0 && all_digits(d) && digits_value(d) <= u32::MAX {
        Some(digits_value(d))
    } else {
        None
    }
}

/// The number of days in a month of a year (0 for a month out of range).
pub open spec fn days_in_month(y: nat, m: nat) -> nat {
    if m == 1 || m == 3 || m == 5 || m == 7 || m == 8 || m == 10 || m == 12 {
        31
    } else if m == 4 || m == 6 || m == 9 || m == 11 {
        30
    } else if m == 2 {
        if y % 4 == 0 && (y % 100 != 0 || y % 400 == 0) {
            29
        } else {
            28
        }
    } else {
        0
    }
}

/// Text in the `YYYY-MM-DD` form: three `-`-separated runs of ASCII
/// digits, of 4, 2 and 2 characters.
pub open spec fn date_form(parts: Seq<Seq<char>>) -> bool {
    &&& parts.len() == 3
    &&& parts[0].len() == 4 && all_digits(parts[0])
    &&& parts[1].len() == 2 && all_digits(parts[1])
    &&& parts[2].len() == 2 && all_digits(parts[2])
}

/// A `YYYY-MM-DD` date with a year from 2000 to 2100 that exists.
pub open spec fn valid_date(s: Seq<char>) -> bool {
    let parts = text::split(s, '-');
    date_form(parts) && match (parse_u32(parts[0]), parse_u32(parts[1]), parse_u32(parts[2])) {
        (Some(y), Some(m), Some(d)) => 2000 <= y <= 2100 && 1 <= m <= 12 && d >= 1 && d
            <= days_in_month(y, m),
        _ => false,
    }
}

/// A Gregorian leap year: divisible by 4, and not by 100 unless by 400.
pub open spec fn leap_year(y: nat) -> bool {
    y % 4 == 0 && (y % 100 != 0 || y % 400 == 0)
}

/// Month lengths follow the Gregorian calendar: January, March, May, July,
/// August, October and December have 31 days; April, June, September and
/// November 30; February 29 in a leap year and 28 otherwise; so a year has
/// 366 days when it is a leap year and 365 otherwise.
pub proof fn law_month_lengths(y: nat)
    ensures
        days_in_month(y, 1) == 31,
        days_in_month(y, 2) == (if leap_year(y) {
            29nat
        } else {
            28nat
        }),
        days_in_month(y, 3) == 31,
        days_in_month(y, 4) == 30,
        days_in_month(y, 5) == 31,
        days_in_month(y, 6) == 30,
        days_in_month(y, 7) == 31,
        days_in_month(y, 8) == 31,
        days_in_month(y, 9) == 30,
        days_in_month(y, 10) == 31,
        days_in_month(y, 11) == 30,
        days_in_month(y, 12) == 31,
        days_in_month(y, 1) + days_in_month(y, 2) + days_in_month(y, 3) + days_in_month(y, 4) + days_in_month(y, 5)
            + days_in_month(y, 6) + days_in_month(y, 7) + days_in_month(y, 8) + days_in_month(y, 9)
            + days_in_month(y, 10) + days_in_month(y, 11) + days_in_month(y, 12) == (if leap_year(y) {
            366nat
        } else {
            365nat
        }),
{
}

/// `split_fold` over text with no separator in its tail extends the
/// current part by that tail.
proof fn lemma_split_fold_no_sep(p: Seq<char>, q: Seq<char>, sep: char)
    requires
        forall|i: int| 0 <= i < q.len() ==> q[i] != sep,
    ensures
        text::split_fold(p + q, sep) == (text::split_fold(p, sep).0, text::split_fold(p, sep).1 + q),
    decreases q.len(),
{
    if q.len() == 0 {
        assert(p + q =~= p);
        assert(text::split_fold(p, sep).1 + q =~= text::split_fold(p, sep).1);
    } else {
        let q2 = q.drop_last();
        lemma_split_fold_no_sep(p, q2, sep);
        assert((p + q).drop_last() =~= p + q2);
        assert((p + q).last() == q.last());
        assert(text::split_fold(p, sep).1 + q2 + seq![q.last()] =~= text::split_fold(p, sep).1 + q);
    }
}

/// No ASCII digit is a `-` or a `+`.
proof fn lemma_digit_not_sign(d: Seq<char>)
    requires
        all_digits(d),
    ensures
        forall|i: int| 0 <= i < d.len() ==> #[trigger] d[i] != '-' && d[i] != '+',
{
    assert forall|i: int| 0 <= i < d.len() implies #[trigger] d[i] != '-' && d[i] != '+' by {
        assert(text::is_ascii_digit(d[i]));
        assert('0' as u32 == 48u32);
        assert('-' as u32 == 45u32);
        assert('+' as u32 == 43u32);
    }
}

/// A date written `YYYY-MM-DD` with ASCII digits is accepted exactly when
/// its year is from 2000 to 2100, its month from 1 to 12, and its day from
/// 1 to the length of that month.
pub proof fn law_real_dates_accepted(yy: Seq<char>, mm: Seq<char>, dd: Seq<char>)
    requires
        yy.len() == 4,
        mm.len() == 2,
        dd.len() == 2,
        all_digits(yy),
        all_digits(mm),
        all_digits(dd),
    ensures
        valid_date(yy + seq!['-'] + mm + seq!['-'] + dd) <==> {
            let y = digits_value(yy);
            let m = digits_value(mm);
            let d = digits_value(dd);
            2000 <= y <= 2100 && 1 <= m <= 12 && 1 <= d <= days_in_month(y, m)
        },
{
    let s = yy + seq!['-'] + mm + seq!['-'] + dd;
    lemma_digit_not_sign(yy);
    lemma_digit_not_sign(mm);
    lemma_digit_not_sign(dd);
    let e = Seq::<char>::empty();
    lemma_split_fold_no_sep(e, yy, '-');
    assert(e + yy =~= yy);
    assert(text::split_fold(e, '-') == (Seq::<Seq<char>>::empty(), e));
    assert(e + yy =~= yy);
    let s1 = yy.push('-');
    assert(s1.drop_last() =~= yy);
    assert(text::split_fold(s1, '-') == (seq![yy], e));
    lemma_split_fold_no_sep(s1, mm, '-');
    let s2 = s1 + mm;
    assert(e + mm =~= mm);
    let s3 = s2.push('-');
    assert(s3.drop_last() =~= s2);
    assert(seq![yy].push(mm) =~= seq![yy, mm]);
    assert(text::split_fold(s3, '-') == (seq![yy, mm], e));
    lemma_split_fold_no_sep(s3, dd, '-');
    assert(s3 + dd =~= s);
    let parts = text::split(s, '-');
    assert(parts =~= seq![yy, mm, dd]);
    assert(yy[0] != '+' && mm[0] != '+' && dd[0] != '+');
    assert(parse_u32(yy) == (if digits_value(yy) <= u32::MAX {
        Some(digits_value(yy))
    } else {
        None::<nat>
    }));
    assert(parse_u32(mm) == (if digits_value(mm) <= u32::MAX {
        Some(digits_value(mm))
    } else {
        None::<nat>
    }));
    assert(parse_u32(dd) == (if digits_value(dd) <= u32::MAX {
        Some(digits_value(dd))
    } else {
        None::<nat>
    }));
}

/// A longer run of digits has at least the value of its prefix.
proof fn lemma_digits_prefix(d: Seq<char>, i: int)
    requires
        0 <= i <= d.len(),
        all_digits(d),
    ensures
        digits_value(d.take(i)) <= digits_value(d),
    decreases d.len(),
{
    if i < d.len() {
        assert(d.drop_last().take(i) =~= d.take(i));
        assert(all_digits(d.drop_last()));
        lemma_digits_prefix(d.drop_last(), i);
    } else {
        assert(d.take(i) =~= d);
    }
}

/// Whether every character is an ASCII digit.
fn all_digits_exec(d: &Vec<char>) -> (r: bool)
    ensures
        r == all_digits(d@),
{
    let mut i: usize = 0;
    while i < d.len()
        invariant
            i <= d.len(),
            forall|j: int| 0 <= j < i ==> text::is_ascii_digit(#[trigger] d@[j]),
        decreases d.len() - i,
    {
        if !(d[i] >= '0' && d[i] <= '9') {
            return false;
        }
        i += 1;
    }
    true
}

/// `str::parse::<u32>`.
pub fn parse_u32_exec(s: &[char]) -> (r: Option<u32>)
    ensures
        match r {
            Some(n) => parse_u32(s@) == Some(n as nat),
            None => parse_u32(s@).is_none(),
        },
{
    let start: usize = if s.len() > 0 && s[0] == '+' {
        1
    } else {
        0
    };
    let ghost d = if s@.len() > 0 && s@[0] == '+' {
        s@.skip(1)
    } else {
        s@
    };
    assert(d =~= s@.skip(start as int));
    if start >= s.len() {
        return None;
    }
    let mut val: u64 = 0;
    let mut i: usize = start;
    while i < s.len()
        invariant
            start <= i <= s.len(),
            start < s.len(),
            d == s@.skip(start as int),
            d == (if s@.len() > 0 && s@[0] == '+' {
                s@.skip(1)
            } else {
                s@
            }),
            val as nat == digits_value(d.take(i - start)),
            val <= u32::MAX,
            all_digits(d.take(i - start)),
        decreases s.len() - i,
    {
        let c = s[i];
        assert(d.take(i + 1 - start).drop_last() =~= d.take(i - start));
        assert(d.take(i + 1 - start).last() == c);
        if !(c >= '0' && c <= '9') {
            assert(!text::is_ascii_digit(d[i - start]));
            assert(!all_digits(d));
            return None;
        }
        assert(all_digits(d.take(i + 1 - start)));
        let digit = (c as u64) - ('0' as u64);
        assert(digits_value(d.take(i + 1 - start)) == digits_value(d.take(i - start)) * 10 + digit);
        val = val * 10 + digit;
        if val > 4294967295u64 {
            proof {
                lemma_all_digits_or_not(d);
                if all_digits(d) {
                    lemma_digits_prefix(d, i + 1 - start);
                }
            }
            return None;
        }
        i += 1;
    }
    assert(d.take(i - start) =~= d);
    Some(val as u32)
}

/// Either all characters are digits, or some one is not.
proof fn lemma_all_digits_or_not(d: Seq<char>)
    ensures
        all_digits(d) || exists|i: int| 0 <= i < d.len() && !text::is_ascii_digit(#[trigger] d[i]),
{
}

/// Whether a string is a real `YYYY-MM-DD` date from 2000 to 2100.
pub fn is_valid_date(s: &str) -> (r: bool)
    ensures
        r == valid_date(s@),
{
    let cs = chars_of(s);
    let parts = text::split_char(&cs, '-');
    proof {
        assert(text::vviews(parts@) == text::split(s@, '-'));
    }
    if parts.len() != 3 {
        return false;
    }
    assert(text::vviews(parts@)[0] == parts@[0]@);
    assert(text::vviews(parts@)[1] == parts@[1]@);
    assert(text::vviews(parts@)[2] == parts@[2]@);
    if !(parts[0].len() == 4 && all_digits_exec(&parts[0]) && parts[1].len() == 2 && all_digits_exec(&parts[1])
        && parts[2].len() == 2 && all_digits_exec(&parts[2])) {
        return false;
    }
    let year = match parse_u32_exec(&parts[0]) {
        Some(y) if y >= 2000 && y <= 2100 => y,
        _ => return false,
    };
    let month = match parse_u32_exec(&parts[1]) {
        Some(m) if m >= 1 && m <= 12 => m,
        _ => return false,
    };
    let day = match parse_u32_exec(&parts[2]) {
        Some(d) if d >= 1 => d,
        _ => return false,
    };
    let max_day: u32 = if month == 1 || month == 3 || month == 5 || month == 7 || month == 8 || month == 10
        || month == 12 {
        31
    } else if month == 4 || month == 6 || month == 9 || month == 11 {
        30
    } else if month == 2 {
        if year % 4 == 0 && (year % 100 != 0 || year % 400 == 0) {
            29
        } else {
            28
        }
    } else {
        return false;
    };
    day <= max_day
}

/// The deadline finding for the update settings at `path`.
pub open spec fn deadline_diags(v: YamlValue, path: Seq<Seq<char>>, section: Seq<char>, file: Seq<char>) -> Seq<
    Diag,
> {
    match crate::yaml::at_path(v, path) {
        Some(node) => match get_str(node, "deadline"@) {
            Some(d) => if !valid_date(d) {
                seq![
                    diag(
                        Severity::Error,
                        section + ": deadline '"@ + d + "' is not a valid YYYY-MM-DD date"@,
                        file,
                    ).helped("Deadline must be in YYYY-MM-DD format (e.g., 2025-06-15)"@).suggesting(
                        "deadline: \"2025-06-15\""@,
                    ),
                ]
            } else {
                Seq::empty()
            },
            None => Seq::empty(),
        },
        None => Seq::empty(),
    }
}

/// The deadline findings of a document: macOS, iOS and iPadOS updates.
pub open spec fn date_diags(v: YamlValue, file: Seq<char>) -> Seq<Diag> {
    deadline_diags(v, seq!["controls"@, "macos_updates"@], "macos_updates"@, file) + deadline_diags(
        v,
        seq!["controls"@, "ios_updates"@],
        "ios_updates"@,
        file,
    ) + deadline_diags(v, seq!["controls"@, "ipados_updates"@], "ipados_updates"@, file)
}

impl DateFormatRule {
    fn check_section(v: &YamlValue, section: &'static str, file: &str, errors: &mut Vec<LintError>)
        ensures
            diags(final(errors)@) == diags(old(errors)@) + deadline_diags(
                *v,
                seq!["controls"@, section@],
                section@,
                file@,
            ),
    {
        let ghost start = diags(errors@);
        let p = path2("controls", section);
        match crate::yaml::at_path_exec(v, &p) {
            Some(node) => match get_str_exec(node, "deadline") {
                Some(d) => {
                    if !is_valid_date(s_of(&d).as_str()) {
                        let m = join5("", &chars_of(section), ": deadline '", &d, "' is not a valid YYYY-MM-DD date");
                        proof {
                            reveal_strlit("");
                        }
                        push_diag(
                            errors,
                            mk(Severity::Error, &m, file).with_help("Deadline must be in YYYY-MM-DD format (e.g., 2025-06-15)").with_suggestion(
                                "deadline: \"2025-06-15\"",
                            ),
                        );
                    }
                },
                None => {},
            },
            None => {},
        }
        assert(diags(errors@) =~= start + deadline_diags(*v, seq!["controls"@, section@], section@, file@));
    }
}

impl Rule for DateFormatRule {
    fn name(&self) -> (r: &'static str)
        ensures
            r@ == "date-format"@,
    {
        "date-format"
    }

    fn description(&self) -> (r: &'static str)
        ensures
            r@ == "Checks that deadline fields use YYYY-MM-DD format"@,
    {
        "Checks that deadline fields use YYYY-MM-DD format"
    }

    fn category(&self) -> (r: &'static str)
        ensures
            r@ == "semantic"@,
    {
        "semantic"
    }

    fn is_fixable(&self) -> (r: bool)
        ensures
            r,
    {
        true
    }

    fn docs_url(&self) -> (r: Option<&'static str>)
        ensures
            r matches Some(u) && u@ == "https://fleetdm.com/docs/configuration/yaml-files#macos_updates"@,
    {
        Some("https://fleetdm.com/docs/configuration/yaml-files#macos_updates")
    }

    open spec fn check_defined(&self, file: Seq<char>, source: Seq<char>) -> bool {
        true
    }

    fn check(&self, config: &FleetConfig, file: &str, source: &str) -> (r: Vec<LintError>)
        ensures
            diags(r@) == date_all(file@, source@),
    {
        let mut errors: Vec<LintError> = Vec::new();
        match parse_yaml(source) {
            None => {},
            Some(yaml) => {
                DateFormatRule::check_section(&yaml, "macos_updates", file, &mut errors);
                DateFormatRule::check_section(&yaml, "ios_updates", file, &mut errors);
                DateFormatRule::check_section(&yaml, "ipados_updates", file, &mut errors);
                assert(diags(errors@) =~= date_diags(yaml, file@));
            },
        }
        errors
    }
}

// ============================================================================
// hash-format
// ============================================================================

/// Checks that `hash_sha256` values are 64 lowercase hexadecimal characters.
pub struct HashFormatRule;

/// A lowercase hexadecimal digit.
pub open spec fn is_lower_hex(c: char) -> bool {
    text::is_ascii_hex(c) && !text::is_ascii_upper(c)
}

/// The finding for one hash value of the item named `name`.
pub open spec fn check_hash_diags(hash: Seq<char>, name: Seq<char>, file: Seq<char>) -> Seq<Diag> {
    let n = text::byte_len(hash);
    if n != 64 {
        seq![
            diag(
                Severity::Error,
                "'"@ + name + "': hash_sha256 must be exactly 64 characters (got "@ + text::decimal(n) + ")"@,
                file,
            ).helped("SHA256 hashes are 64 lowercase hexadecimal characters"@),
        ]
    } else if !(forall|i: int| 0 <= i < hash.len() ==> is_lower_hex(#[trigger] hash[i])) {
        if forall|i: int| 0 <= i < hash.len() ==> text::is_ascii_hex(#[trigger] hash[i]) {
            seq![
                diag(Severity::Error, "'"@ + name + "': hash_sha256 must be lowercase hex"@, file).suggesting(
                    text::unicode_lower(hash),
                ).safety(FixSafety::Safe),
            ]
        } else {
            seq![
                diag(Severity::Error, "'"@ + name + "': hash_sha256 contains invalid characters"@, file).helped(
                    "SHA256 hashes must contain only characters 0-9 and a-f"@,
                ),
            ]
        }
    } else {
        Seq::empty()
    }
}

/// The findings for one hash value of an item.
pub fn check_hash(hash: &str, item_name: &[char], file: &str, errors: &mut Vec<LintError>)
    requires
        text::source_fits(hash@),
    ensures
        diags(final(errors)@) == diags(old(errors)@) + check_hash_diags(hash@, item_name@, file@),
{
    let ghost start = diags(errors@);
    let hc = chars_of(hash);
    let n = text::byte_len_exec(&hc);
    if n != 64 {
        let m = join3("'", item_name, "': hash_sha256 must be exactly 64 characters (got ");
        let m = concat(&m, &text::decimal_chars(n));
        let m = concat(&m, &chars_of(")"));
        push_diag(errors, mk(Severity::Error, &m, file).with_help("SHA256 hashes are 64 lowercase hexadecimal characters"));
        assert(diags(errors@) =~= start + check_hash_diags(hash@, item_name@, file@));
        return;
    }
    let mut all_lower = true;
    let mut all_hex = true;
    let mut i: usize = 0;
    while i < hc.len()
        invariant
            i <= hc@.len(),
            hc@ == hash@,
            all_lower == (forall|j: int| 0 <= j < i ==> is_lower_hex(#[trigger] hash@[j])),
            all_hex == (forall|j: int| 0 <= j < i ==> text::is_ascii_hex(#[trigger] hash@[j])),
        decreases hc.len() - i,
    {
        let c = hc[i];
        let hex = (c >= '0' && c <= '9') || (c >= 'a' && c <= 'f') || (c >= 'A' && c <= 'F');
        let upper = c >= 'A' && c <= 'Z';
        if !(hex && !upper) {
            all_lower = false;
        }
        if !hex {
            all_hex = false;
        }
        i += 1;
    }
    if !all_lower {
        if all_hex {
            let m = join3("'", item_name, "': hash_sha256 must be lowercase hex");
            let low = text::to_lowercase(hash);
            push_diag(
                errors,
                mk(Severity::Error, &m, file).with_suggestion(low.as_str()).with_fix_safety(FixSafety::Safe),
            );
        } else {
            let m = join3("'", item_name, "': hash_sha256 contains invalid characters");
            push_diag(
                errors,
                mk(Severity::Error, &m, file).with_help("SHA256 hashes must contain only characters 0-9 and a-f"),
            );
        }
    }
    assert(diags(errors@) =~= start + check_hash_diags(hash@, item_name@, file@));
}

/// The hash finding of a software package.
pub open spec fn package_hash(file: Seq<char>) -> spec_fn(YamlValue) -> Seq<Diag> {
    |item: YamlValue|
        match get_str(item, "hash_sha256"@) {
            Some(h) => if text::source_fits(h) {
                check_hash_diags(h, display_name(item), file)
            } else {
                Seq::empty()
            },
            None => Seq::empty(),
        }
}

/// The hash finding of a policy's `install_software` settings.
pub open spec fn install_hash(file: Seq<char>) -> spec_fn(YamlValue) -> Seq<Diag> {
    |item: YamlValue|
        match get_untagged(item, "install_software"@) {
            Some(inst) => match get_str(inst, "hash_sha256"@) {
                Some(h) => if text::source_fits(h) {
                    check_hash_diags(h, display_name(item), file)
                } else {
                    Seq::empty()
                },
                None => Seq::empty(),
            },
            None => Seq::empty(),
        }
}

/// The hash findings of a document. (A hash whose text does not fit in
/// memory cannot occur.)
pub open spec fn hash_diags(v: YamlValue, file: Seq<char>) -> Seq<Diag> {
    each_item(items_at(v, seq!["software"@, "packages"@]), package_hash(file)) + each_item(
        items_at(v, seq!["policies"@]),
        install_hash(file),
    )
}

impl HashFormatRule {
    fn check_items(items: &[YamlValue], policies: bool, file: &str, errors: &mut Vec<LintError>)
        ensures
            diags(final(errors)@) == diags(old(errors)@) + each_item(
                items@,
                if policies {
                    install_hash(file@)
                } else {
                    package_hash(file@)
                },
            ),
    {
        let ghost f = if policies {
            install_hash(file@)
        } else {
            package_hash(file@)
        };
        let ghost start = diags(errors@);
        let mut i: usize = 0;
        while i < items.len()
            invariant
                i <= items@.len(),
                f == (if policies {
                    install_hash(file@)
                } else {
                    package_hash(file@)
                }),
                diags(errors@) == start + each_item(items@.take(i as int), f),
            decreases items.len() - i,
        {
            assert(items@.take(i + 1).drop_last() =~= items@.take(i as int));
            let ghost before = diags(errors@);
            let item = &items[i];
            let target: Option<&YamlValue> = if policies {
                let k = chars_of("install_software");
                get_exec(untag_exec(item), &k)
            } else {
                Some(item)
            };
            match target {
                Some(t) => match get_str_exec(t, "hash_sha256") {
                    Some(h) => {
                        if text::fits_exec(&h) {
                            let hs = s_of(&h);
                            check_hash(hs.as_str(), &display_name_exec(item), file, errors);
                        }
                    },
                    None => {},
                },
                None => {},
            }
            assert(diags(errors@) =~= before + f(items@[i as int]));
            i += 1;
        }
        assert(items@.take(items.len() as int) =~= items@);
    }
}

impl Rule for HashFormatRule {
    fn name(&self) -> (r: &'static str)
        ensures
            r@ == "hash-format"@,
    {
        "hash-format"
    }

    fn description(&self) -> (r: &'static str)
        ensures
            r@ == "Checks that hash_sha256 values are valid 64-character lowercase hex strings"@,
    {
        "Checks that hash_sha256 values are valid 64-character lowercase hex strings"
    }

    fn category(&self) -> (r: &'static str)
        ensures
            r@ == "semantic"@,
    {
        "semantic"
    }

    fn is_fixable(&self) -> (r: bool)
        ensures
            r,
    {
        true
    }

    fn docs_url(&self) -> (r: Option<&'static str>)
        ensures
            r matches Some(u) && u@ == "https://fleetdm.com/docs/configuration/yaml-files#packages"@,
    {
        Some("https://fleetdm.com/docs/configuration/yaml-files#packages")
    }

    open spec fn check_defined(&self, file: Seq<char>, source: Seq<char>) -> bool {
        true
    }

    fn check(&self, config: &FleetConfig, file: &str, source: &str) -> (r: Vec<LintError>)
        ensures
            diags(r@) == hash_all(file@, source@),
    {
        let mut errors: Vec<LintError> = Vec::new();
        match parse_yaml(source) {
            None => {},
            Some(yaml) => {
                HashFormatRule::check_items(items_at_exec(&yaml, &path2("software", "packages")), false, file, &mut errors);
                HashFormatRule::check_items(items_at_exec(&yaml, &path1("policies")), true, file, &mut errors);
                assert(diags(errors@) =~= hash_diags(yaml, file@));
            },
        }
        errors
    }
}

// ============================================================================
// categories
// ============================================================================

/// Checks that software categories come from the supported set.
pub struct CategoriesRule;

/// The supported categories.
pub open spec fn valid_categories() -> Seq<Seq<char>> {
    seq!["Browsers"@, "Communication"@, "Developer tools"@, "Productivity"@, "Security"@, "Utilities"@]
}

/// One supported category, by index.
fn category_at(i: usize) -> (r: &'static str)
    requires
        i < 6,
    ensures
        r@ == valid_categories()[i as int],
{
    if i == 0 {
        "Browsers"
    } else if i == 1 {
        "Communication"
    } else if i == 2 {
        "Developer tools"
    } else if i == 3 {
        "Productivity"
    } else if i == 4 {
        "Security"
    } else {
        "Utilities"
    }
}

/// The first category, from index `i` on, whose lowercase form equals,
/// contains or is contained in the lowercased input.
pub open spec fn category_match_from(lower: Seq<char>, i: int) -> Option<Seq<char>>
    decreases 6 - i,
{
    if i < 0 || i >= 6 {
        None
    } else {
        let cl = text::unicode_lower(valid_categories()[i]);
        if cl == lower || text::contains(cl, lower) || text::contains(lower, cl) {
            Some(valid_categories()[i])
        } else {
            category_match_from(lower, i + 1)
        }
    }
}

/// The category suggested for a lowercased unknown category: a close
/// match, then common aliases.
pub open spec fn similar_category(lower: Seq<char>) -> Option<Seq<char>> {
    match category_match_from(lower, 0) {
        Some(c) => Some(c),
        None => if lower == "browser"@ || lower == "web"@ {
            Some("Browsers"@)
        } else if lower == "chat"@ || lower == "messaging"@ || lower == "comms"@ {
            Some("Communication"@)
        } else if lower == "dev"@ || lower == "developer"@ || lower == "development"@ || lower
            == "tools"@ || lower == "devtools"@ {
            Some("Developer tools"@)
        } else if lower == "office"@ || lower == "work"@ {
            Some("Productivity"@)
        } else if lower == "privacy"@ || lower == "antivirus"@ || lower == "firewall"@ {
            Some("Security"@)
        } else if lower == "utility"@ || lower == "utils"@ {
            Some("Utilities"@)
        } else {
            None
        },
    }
}

/// The supported category most like `input`.
pub fn find_similar_category(input: &str) -> (r: Option<&'static str>)
    ensures
        match r {
            Some(c) => similar_category(text::unicode_lower(input@)) == Some(c@),
            None => similar_category(text::unicode_lower(input@)).is_none(),
        },
{
    let lower = text::to_lowercase(input);
    let l = chars_of(lower.as_str());
    let mut i: usize = 0;
    while i < 6
        invariant
            i <= 6,
            l@ == text::unicode_lower(input@),
            category_match_from(l@, 0) == category_match_from(l@, i as int),
        decreases 6 - i,
    {
        let cat = category_at(i);
        let cl = text::to_lowercase(cat);
        let clc = chars_of(cl.as_str());
        if text::eq(&clc, &l) || text::contains_exec(&clc, &l) || text::contains_exec(&l, &clc) {
            return Some(cat);
        }
        i += 1;
    }
    if text::eq_str(&l, "browser") || text::eq_str(&l, "web") {
        Some("Browsers")
    } else if text::eq_str(&l, "chat") || text::eq_str(&l, "messaging") || text::eq_str(&l, "comms") {
        Some("Communication")
    } else if text::eq_str(&l, "dev") || text::eq_str(&l, "developer") || text::eq_str(&l, "development")
        || text::eq_str(&l, "tools") || text::eq_str(&l, "devtools") {
        Some("Developer tools")
    } else if text::eq_str(&l, "office") || text::eq_str(&l, "work") {
        Some("Productivity")
    } else if text::eq_str(&l, "privacy") || text::eq_str(&l, "antivirus") || text::eq_str(&l, "firewall") {
        Some("Security")
    } else if text::eq_str(&l, "utility") || text::eq_str(&l, "utils") {
        Some("Utilities")
    } else {
        None
    }
}

/// The findings for the categories of the item named `name`.
pub open spec fn category_diags(cats: Seq<Seq<char>>, name: Seq<char>, file: Seq<char>) -> Seq<Diag>
    decreases cats.len(),
{
    if cats.len() == 0 {
        Seq::empty()
    } else {
        let cat = cats.last();
        category_diags(cats.drop_last(), name, file) + if !valid_categories().contains(cat) {
            let d = diag(Severity::Warning, "'"@ + name + "': unknown category '"@ + cat + "'"@, file).helped(
                "Valid categories: Browsers, Communication, Developer tools, Productivity, Security, Utilities"@,
            );
            seq![
                match similar_category(text::unicode_lower(cat)) {
                    Some(s) => d.suggesting(s),
                    None => d,
                },
            ]
        } else {
            Seq::empty()
        }
    }
}

/// The category findings of one software item.
pub open spec fn categories_item(file: Seq<char>) -> spec_fn(YamlValue) -> Seq<Diag> {
    |item: YamlValue| category_diags(get_string_array(item, "categories"@), display_name(item), file)
}

/// The category findings of a document: packages, App Store apps and
/// Fleet-maintained apps.
pub open spec fn categories_diags(v: YamlValue, file: Seq<char>) -> Seq<Diag> {
    let f = categories_item(file);
    each_item(items_at(v, seq!["software"@, "packages"@]), f) + each_item(
        items_at(v, seq!["software"@, "app_store_apps"@]),
        f,
    ) + each_item(items_at(v, seq!["software"@, "fleet_maintained_apps"@]), f)
}

/// Whether a category is supported.
fn is_valid_category(c: &[char]) -> (r: bool)
    ensures
        r == valid_categories().contains(c@),
{
    let mut i: usize = 0;
    while i < 6
        invariant
            i <= 6,
            forall|j: int| 0 <= j < i ==> valid_categories()[j] != c@,
        decreases 6 - i,
    {
        if text::eq_str(c, category_at(i)) {
            assert(valid_categories()[i as int] == c@);
            return true;
        }
        i += 1;
    }
    false
}

impl CategoriesRule {
    fn check_items(items: &[YamlValue], file: &str, errors: &mut Vec<LintError>)
        ensures
            diags(final(errors)@) == diags(old(errors)@) + each_item(items@, categories_item(file@)),
    {
        let ghost start = diags(errors@);
        let mut i: usize = 0;
        while i < items.len()
            invariant
                i <= items@.len(),
                diags(errors@) == start + each_item(items@.take(i as int), categories_item(file@)),
            decreases items.len() - i,
        {
            assert(items@.take(i + 1).drop_last() =~= items@.take(i as int));
            let ghost before = diags(errors@);
            let item = &items[i];
            let name = display_name_exec(item);
            let cats = get_string_array_exec(item, "categories");
            let ghost cv = text::vviews(cats@);
            let mut j: usize = 0;
            while j < cats.len()
                invariant
                    j <= cats@.len(),
                    cv == text::vviews(cats@),
                    diags(errors@) == before + category_diags(cv.take(j as int), name@, file@),
                decreases cats.len() - j,
            {
                assert(cv.take(j + 1).drop_last() =~= cv.take(j as int));
                assert(cv.take(j + 1).last() == cats@[j as int]@);
                let ghost mid = diags(errors@);
                let cat = &cats[j];
                if !is_valid_category(cat) {
                    let m = join5("'", &name, "': unknown category '", cat, "'");
                    let mut e = mk(Severity::Warning, &m, file).with_help(
                        "Valid categories: Browsers, Communication, Developer tools, Productivity, Security, Utilities",
                    );
                    match find_similar_category(s_of(cat).as_str()) {
                        Some(sug) => {
                            e = e.with_suggestion(sug);
                        },
                        None => {},
                    }
                    push_diag(errors, e);
                }
                assert(diags(errors@) =~= before + category_diags(cv.take(j + 1), name@, file@));
                j += 1;
            }
            assert(cv.take(cats.len() as int) =~= cv);
            assert(diags(errors@) =~= before + categories_item(file@)(items@[i as int]));
            i += 1;
        }
        assert(items@.take(items.len() as int) =~= items@);
    }
}

impl Rule for CategoriesRule {
    fn name(&self) -> (r: &'static str)
        ensures
            r@ == "categories"@,
    {
        "categories"
    }

    fn description(&self) -> (r: &'static str)
        ensures
            r@ == "Checks that software category values are from the supported set"@,
    {
        "Checks that software category values are from the supported set"
    }

    fn category(&self) -> (r: &'static str)
        ensures
            r@ == "semantic"@,
    {
        "semantic"
    }

    fn is_fixable(&self) -> (r: bool)
        ensures
            r,
    {
        true
    }

    fn default_severity(&self) -> (r: Severity)
        ensures
            r == Severity::Warning,
    {
        Severity::Warning
    }

    open spec fn check_defined(&self, file: Seq<char>, source: Seq<char>) -> bool {
        true
    }

    fn check(&self, config: &FleetConfig, file: &str, source: &str) -> (r: Vec<LintError>)
        ensures
            diags(r@) == categories_all(file@, source@),
    {
        let mut errors: Vec<LintError> = Vec::new();
        match parse_yaml(source) {
            None => {},
            Some(yaml) => {
                CategoriesRule::check_items(items_at_exec(&yaml, &path2("software", "packages")), file, &mut errors);
                CategoriesRule::check_items(items_at_exec(&yaml, &path2("software", "app_store_apps")), file, &mut errors);
                CategoriesRule::check_items(
                    items_at_exec(&yaml, &path2("software", "fleet_maintained_apps")),
                    file,
                    &mut errors,
                );
                assert(diags(errors@) =~= categories_diags(yaml, file@));
            },
        }
        errors
    }
}

// ============================================================================
// file-extension
// ============================================================================

/// Checks the file extensions of profile and script paths.
pub struct FileExtensionRule;

/// The extension finding of one item whose `path` should end with one of
/// `exts`.
pub open spec fn extension_item(exts: Seq<Seq<char>>, context: Seq<char>, file: Seq<char>) -> spec_fn(YamlValue) -> Seq<Diag> {
    |item: YamlValue|
        match get_str(item, "path"@) {
            Some(p) => if !(exists|k: int| 0 <= k < exts.len() && text::ends_with(p, #[trigger] exts[k])) {
                seq![
                    diag(Severity::Warning, context + ": '"@ + p + "' has unexpected extension"@, file).helped(
                        "Expected extensions for "@ + context + ": "@ + crate::rules::join_with(exts, ", "@),
                    ),
                ]
            } else {
                Seq::empty()
            },
            None => Seq::empty(),
        }
}

/// The extension findings of a document: macOS, Windows and Android
/// profiles, and scripts.
pub open spec fn extension_diags(v: YamlValue, file: Seq<char>) -> Seq<Diag> {
    each_item(
        items_at(v, seq!["controls"@, "macos_settings"@, "custom_settings"@]),
        extension_item(seq![".mobileconfig"@, ".json"@], "macOS profiles"@, file),
    ) + each_item(
        items_at(v, seq!["controls"@, "windows_settings"@, "custom_settings"@]),
        extension_item(seq![".xml"@], "Windows profiles"@, file),
    ) + each_item(
        items_at(v, seq!["controls"@, "android_settings"@, "custom_settings"@]),
        extension_item(seq![".json"@], "Android profiles"@, file),
    ) + each_item(
        items_at(v, seq!["controls"@, "scripts"@]),
        extension_item(seq![".sh"@, ".ps1"@, ".zsh"@], "scripts"@, file),
    )
}

impl FileExtensionRule {
    fn check_items(items: &[YamlValue], exts: &Vec<&'static str>, context: &str, file: &str, errors: &mut Vec<LintError>)
        ensures
            diags(final(errors)@) == diags(old(errors)@) + each_item(items@, extension_item(strs(exts@), context@, file@)),
    {
        let ghost start = diags(errors@);
        let ghost es = strs(exts@);
        let mut i: usize = 0;
        while i < items.len()
            invariant
                i <= items@.len(),
                es == strs(exts@),
                diags(errors@) == start + each_item(items@.take(i as int), extension_item(es, context@, file@)),
            decreases items.len() - i,
        {
            assert(items@.take(i + 1).drop_last() =~= items@.take(i as int));
            let ghost before = diags(errors@);
            let item = &items[i];
            match get_str_exec(item, "path") {
                Some(p) => {
                    let mut ok = false;
                    let mut k: usize = 0;
                    while k < exts.len()
                        invariant
                            k <= exts@.len(),
                            es == strs(exts@),
                            ok == exists|m: int| 0 <= m < k && text::ends_with(p@, #[trigger] es[m]),
                        decreases exts.len() - k,
                    {
                        assert(es[k as int] == exts@[k as int]@);
                        if text::ends_with_str(&p, exts[k]) {
                            ok = true;
                        }
                        k += 1;
                    }
                    if !ok {
                        let m = join5("", &chars_of(context), ": '", &p, "' has unexpected extension");
                        let h = join5("Expected extensions for ", &chars_of(context), ": ", &crate::rules::join_comma(exts), "");
                        proof {
                            reveal_strlit("");
                        }
                        let hs = s_of(&h);
                        push_diag(errors, mk(Severity::Warning, &m, file).with_help(hs.as_str()));
                    }
                },
                None => {},
            }
            assert(diags(errors@) =~= before + extension_item(es, context@, file@)(items@[i as int]));
            i += 1;
        }
        assert(items@.take(items.len() as int) =~= items@);
    }
}

/// A list of two extensions.
fn exts2(a: &'static str, b: &'static str) -> (r: Vec<&'static str>)
    ensures
        strs(r@) == seq![a@, b@],
{
    path2(a, b)
}

impl Rule for FileExtensionRule {
    fn name(&self) -> (r: &'static str)
        ensures
            r@ == "file-extension"@,
    {
        "file-extension"
    }

    fn description(&self) -> (r: &'static str)
        ensures
            r@ == "Checks that MDM profile and script paths have valid file extensions"@,
    {
        "Checks that MDM profile and script paths have valid file extensions"
    }

    fn category(&self) -> (r: &'static str)
        ensures
            r@ == "semantic"@,
    {
        "semantic"
    }

    fn default_severity(&self) -> (r: Severity)
        ensures
            r == Severity::Warning,
    {
        Severity::Warning
    }

    fn docs_url(&self) -> (r: Option<&'static str>)
        ensures
            r matches Some(u) && u@ == "https://fleetdm.com/docs/configuration/yaml-files#controls"@,
    {
        Some("https://fleetdm.com/docs/configuration/yaml-files#controls")
    }

    open spec fn check_defined(&self, file: Seq<char>, source: Seq<char>) -> bool {
        true
    }

    fn check(&self, config: &FleetConfig, file: &str, source: &str) -> (r: Vec<LintError>)
        ensures
            diags(r@) == extension_all(file@, source@),
    {
        let mut errors: Vec<LintError> = Vec::new();
        match parse_yaml(source) {
            None => {},
            Some(yaml) => {
                FileExtensionRule::check_items(
                    items_at_exec(&yaml, &path3("controls", "macos_settings", "custom_settings")),
                    &exts2(".mobileconfig", ".json"),
                    "macOS profiles",
                    file,
                    &mut errors,
                );
                FileExtensionRule::check_items(
                    items_at_exec(&yaml, &path3("controls", "windows_settings", "custom_settings")),
                    &path1(".xml"),
                    "Windows profiles",
                    file,
                    &mut errors,
                );
                FileExtensionRule::check_items(
                    items_at_exec(&yaml, &path3("controls", "android_settings", "custom_settings")),
                    &path1(".json"),
                    "Android profiles",
                    file,
                    &mut errors,
                );
                FileExtensionRule::check_items(
                    items_at_exec(&yaml, &path2("controls", "scripts")),
                    &path3(".sh", ".ps1", ".zsh"),
                    "scripts",
                    file,
                    &mut errors,
                );
                assert(diags(errors@) =~= extension_diags(yaml, file@));
            },
        }
        errors
    }
}

// ============================================================================
// secret-hygiene
// ============================================================================

/// Checks that integration credentials use environment variables or
/// 1Password references.
pub struct SecretHygieneRule;

/// The finding for the credential `field` of one integration item.
pub open spec fn secret_item(field: Seq<char>, file: Seq<char>) -> spec_fn(YamlValue) -> Seq<Diag> {
    |item: YamlValue|
        match get_str(item, field) {
            Some(val) => if val.len() == 0 || text::starts_with(val, "$"@) || text::starts_with(val, "op://"@) {
                Seq::empty()
            } else {
                seq![
                    diag(
                        Severity::Warning,
                        "Integration '"@ + field + "' field contains a plain-text value"@,
                        file,
                    ).helped(
                        "Use an environment variable ($VAR) or 1Password reference (op://...) for secrets"@,
                    ).suggesting("$"@ + text::unicode_upper(field)),
                ]
            },
            None => Seq::empty(),
        }
}

/// The secret findings of a document: Jira and Zendesk API tokens and the
/// Google Calendar key, both at the top level and under `org_settings`.
pub open spec fn secret_diags(v: YamlValue, file: Seq<char>) -> Seq<Diag> {
    each_item(items_at(v, seq!["integrations"@, "jira"@]), secret_item("api_token"@, file)) + each_item(
        items_at(v, seq!["org_settings"@, "integrations"@, "jira"@]),
        secret_item("api_token"@, file),
    ) + each_item(items_at(v, seq!["integrations"@, "zendesk"@]), secret_item("api_token"@, file))
        + each_item(
        items_at(v, seq!["org_settings"@, "integrations"@, "zendesk"@]),
        secret_item("api_token"@, file),
    ) + each_item(items_at(v, seq!["integrations"@, "google_calendar"@]), secret_item("api_key_json"@, file))
        + each_item(
        items_at(v, seq!["org_settings"@, "integrations"@, "google_calendar"@]),
        secret_item("api_key_json"@, file),
    )
}

/// The credential findings for the items at one path.
pub fn check_secret_field(yaml: &YamlValue, path: &Vec<&'static str>, field: &str, file: &str, errors: &mut Vec<LintError>)
    ensures
        diags(final(errors)@) == diags(old(errors)@) + each_item(
            items_at(*yaml, strs(path@)),
            secret_item(field@, file@),
        ),
{
    let items = items_at_exec(yaml, path);
    let ghost start = diags(errors@);
    let mut i: usize = 0;
    while i < items.len()
        invariant
            i <= items@.len(),
            diags(errors@) == start + each_item(items@.take(i as int), secret_item(field@, file@)),
        decreases items.len() - i,
    {
        assert(items@.take(i + 1).drop_last() =~= items@.take(i as int));
        let ghost before = diags(errors@);
        match get_str_exec(&items[i], field) {
            Some(val) => {
                if !(val.len() == 0 || text::starts_with_str(&val, "$") || text::starts_with_str(&val, "op://")) {
                    let m = join3("Integration '", &chars_of(field), "' field contains a plain-text value");
                    let up = text::to_uppercase(field);
                    let sug = concat(&chars_of("$"), &chars_of(up.as_str()));
                    let ss = s_of(&sug);
                    push_diag(
                        errors,
                        mk(Severity::Warning, &m, file).with_help(
                            "Use an environment variable ($VAR) or 1Password reference (op://...) for secrets",
                        ).with_suggestion(ss.as_str()),
                    );
                }
            },
            None => {},
        }
        assert(diags(errors@) =~= before + secret_item(field@, file@)(items@[i as int]));
        i += 1;
    }
    assert(items@.take(items.len() as int) =~= items@);
}

impl Rule for SecretHygieneRule {
    fn name(&self) -> (r: &'static str)
        ensures
            r@ == "secret-hygiene"@,
    {
        "secret-hygiene"
    }

    fn description(&self) -> (r: &'static str)
        ensures
            r@ == "Checks that API tokens and secrets use environment variable references ($VAR)"@,
    {
        "Checks that API tokens and secrets use environment variable references ($VAR)"
    }

    fn category(&self) -> (r: &'static str)
        ensures
            r@ == "security"@,
    {
        "security"
    }

    fn is_fixable(&self) -> (r: bool)
        ensures
            r,
    {
        true
    }

    fn default_severity(&self) -> (r: Severity)
        ensures
            r == Severity::Warning,
    {
        Severity::Warning
    }

    open spec fn check_defined(&self, file: Seq<char>, source: Seq<char>) -> bool {
        true
    }

    fn check(&self, config: &FleetConfig, file: &str, source: &str) -> (r: Vec<LintError>)
        ensures
            diags(r@) == secret_all(file@, source@),
    {
        let mut errors: Vec<LintError> = Vec::new();
        match parse_yaml(source) {
            None => {},
            Some(yaml) => {
                check_secret_field(&yaml, &path2("integrations", "jira"), "api_token", file, &mut errors);
                check_secret_field(&yaml, &path3("org_settings", "integrations", "jira"), "api_token", file, &mut errors);
                check_secret_field(&yaml, &path2("integrations", "zendesk"), "api_token", file, &mut errors);
                check_secret_field(&yaml, &path3("org_settings", "integrations", "zendesk"), "api_token", file, &mut errors);
                check_secret_field(&yaml, &path2("integrations", "google_calendar"), "api_key_json", file, &mut errors);
                check_secret_field(
                    &yaml,
                    &path3("org_settings", "integrations", "google_calendar"),
                    "api_key_json",
                    file,
                    &mut errors,
                );
                assert(diags(errors@) =~= secret_diags(yaml, file@));
            },
        }
        errors
    }
}

// ============================================================================
// policy-automation-location
// ============================================================================

/// Flags policy automations in `default.yml`, where Fleet ignores them.
pub struct PolicyAutomationLocationRule;

/// The finding for one automation field of a policy.
pub open spec fn automation_field(item: YamlValue, field: Seq<char>, file: Seq<char>) -> Seq<Diag> {
    if has_key(item, field) {
        seq![
            diag(
                Severity::Error,
                "Policy '"@ + display_name(item) + "' sets '"@ + field
                    + "' in default.yml, but this automation is fleet-only"@,
                file,
            ).helped(
                "Move the policy to a fleet file (fleets/<name>.yml or fleets/unassigned.yml), or remove '"@
                    + field + "'. See https://fleetdm.com/docs/configuration/yaml-files#policies"@,
            ),
        ]
    } else {
        Seq::empty()
    }
}

/// The automation findings of one policy (file references are skipped).
pub open spec fn automation_item(file: Seq<char>) -> spec_fn(YamlValue) -> Seq<Diag> {
    |item: YamlValue|
        if is_file_ref(item) {
            Seq::empty()
        } else {
            automation_field(item, "run_script"@, file) + automation_field(item, "install_software"@, file)
                + automation_field(item, "calendar_events_enabled"@, file)
        }
}

/// The automation findings of a file: only `default.yml` is checked.
pub open spec fn automation_diags(file: Seq<char>, source: Seq<char>) -> Seq<Diag> {
    if file_name(file) == "default.yml"@ {
        on_parsed(source, |v: YamlValue| each_item(items_at(v, seq!["policies"@]), automation_item(file)))
    } else {
        Seq::empty()
    }
}

impl PolicyAutomationLocationRule {
    fn field_finding(item: &YamlValue, field: &str, file: &str, errors: &mut Vec<LintError>)
        ensures
            diags(final(errors)@) == diags(old(errors)@) + automation_field(*item, field@, file@),
    {
        let ghost start = diags(errors@);
        if has_key_exec(item, field) {
            let m = join5("Policy '", &display_name_exec(item), "' sets '", &chars_of(field), "' in default.yml, but this automation is fleet-only");
            let h = join3(
                "Move the policy to a fleet file (fleets/<name>.yml or fleets/unassigned.yml), or remove '",
                &chars_of(field),
                "'. See https://fleetdm.com/docs/configuration/yaml-files#policies",
            );
            let hs = s_of(&h);
            push_diag(errors, mk(Severity::Error, &m, file).with_help(hs.as_str()));
        }
        assert(diags(errors@) =~= start + automation_field(*item, field@, file@));
    }
}

impl Rule for PolicyAutomationLocationRule {
    fn name(&self) -> (r: &'static str)
        ensures
            r@ == "policy-automation-location"@,
    {
        "policy-automation-location"
    }

    fn description(&self) -> (r: &'static str)
        ensures
            r@ == "Flags run_script / install_software / calendar_events_enabled on policies in default.yml (fleet-only per Fleet docs)"@,
    {
        "Flags run_script / install_software / calendar_events_enabled on policies in default.yml (fleet-only per Fleet docs)"
    }

    fn category(&self) -> (r: &'static str)
        ensures
            r@ == "semantic"@,
    {
        "semantic"
    }

    fn docs_url(&self) -> (r: Option<&'static str>)
        ensures
            r matches Some(u) && u@ == "https://fleetdm.com/docs/configuration/yaml-files#policies"@,
    {
        Some("https://fleetdm.com/docs/configuration/yaml-files#policies")
    }

    open spec fn check_defined(&self, file: Seq<char>, source: Seq<char>) -> bool {
        true
    }

    fn check(&self, config: &FleetConfig, file: &str, source: &str) -> (r: Vec<LintError>)
        ensures
            diags(r@) == automation_diags(file@, source@),
    {
        let mut errors: Vec<LintError> = Vec::new();
        if !crate::engine::file_name_is(file, "default.yml") {
            return errors;
        }
        match parse_yaml(source) {
            None => {},
            Some(yaml) => {
                let items = items_at_exec(&yaml, &path1("policies"));
                let mut i: usize = 0;
                while i < items.len()
                    invariant
                        i <= items@.len(),
                        diags(errors@) == each_item(items@.take(i as int), automation_item(file@)),
                    decreases items.len() - i,
                {
                    assert(items@.take(i + 1).drop_last() =~= items@.take(i as int));
                    let ghost before = diags(errors@);
                    let item = &items[i];
                    if !is_file_ref_exec(item) {
                        PolicyAutomationLocationRule::field_finding(item, "run_script", file, &mut errors);
                        PolicyAutomationLocationRule::field_finding(item, "install_software", file, &mut errors);
                        PolicyAutomationLocationRule::field_finding(item, "calendar_events_enabled", file, &mut errors);
                    }
                    assert(diags(errors@) =~= before + automation_item(file@)(items@[i as int]));
                    i += 1;
                }
                assert(items@.take(items.len() as int) =~= items@);
            },
        }
        errors
    }
}

// ============================================================================
// patch-policy
// ============================================================================

/// Checks that patch-policy fields are used together.
pub struct PatchPolicyRule;

/// The policies of a document: a standalone policy file is itself a list
/// of policies; other files list them under `policies`.
pub open spec fn policy_items(v: YamlValue, file: Seq<char>) -> Seq<YamlValue> {
    match v {
        YamlValue::Sequence(items) => if file_type_of(file) == FileType::Policies {
            items@
        } else {
            items_at(v, seq!["policies"@])
        },
        _ => items_at(v, seq!["policies"@]),
    }
}

/// The patch-policy findings of one policy.
pub open spec fn patch_item(file: Seq<char>) -> spec_fn(YamlValue) -> Seq<Diag> {
    |item: YamlValue|
        if is_file_ref(item) {
            Seq::empty()
        } else {
            let name = display_name(item);
            let is_patch = get_str(item, "type"@) == Some("patch"@);
            let has_slug = has_key(item, "fleet_maintained_app_slug"@);
            let install_true = match get_untagged(item, "install_software"@) {
                Some(x) => as_bool(x) == Some(true),
                None => false,
            };
            (if is_patch && !has_slug {
                seq![
                    diag(
                        Severity::Error,
                        "Patch policy '"@ + name + "' is missing 'fleet_maintained_app_slug'"@,
                        file,
                    ).helped("Patch policies track a Fleet-Maintained App — specify which one"@).suggesting(
                        "fleet_maintained_app_slug: <slug>"@,
                    ),
                ]
            } else {
                Seq::empty()
            }) + (if has_slug && !is_patch {
                seq![
                    diag(
                        Severity::Error,
                        "Policy '"@ + name + "' has 'fleet_maintained_app_slug' but is not a patch policy"@,
                        file,
                    ).helped(
                        "`fleet_maintained_app_slug` is only used on patch policies — add `type: patch`, or remove the slug"@,
                    ).suggesting("type: patch"@),
                ]
            } else {
                Seq::empty()
            }) + (if install_true && !is_patch {
                seq![
                    diag(
                        Severity::Error,
                        "Policy '"@ + name + "' uses 'install_software: true' but is not a patch policy"@,
                        file,
                    ).helped(
                        "`install_software: true` installs the Fleet-Maintained App on failure — only valid with `type: patch`. For regular install-on-fail, use an install_software mapping with 'package_path' or 'hash_sha256'."@,
                    ).suggesting("type: patch"@),
                ]
            } else {
                Seq::empty()
            })
        }
}

/// The patch-policy findings of a document.
pub open spec fn patch_diags(v: YamlValue, file: Seq<char>) -> Seq<Diag> {
    each_item(policy_items(v, file), patch_item(file))
}

impl PatchPolicyRule {
    fn check_item(item: &YamlValue, file: &str, errors: &mut Vec<LintError>)
        ensures
            diags(final(errors)@) == diags(old(errors)@) + patch_item(file@)(*item),
    {
        let ghost start = diags(errors@);
        if !is_file_ref_exec(item) {
            let name = display_name_exec(item);
            let is_patch = match get_str_exec(item, "type") {
                Some(t) => text::eq_str(&t, "patch"),
                None => false,
            };
            let has_slug = has_key_exec(item, "fleet_maintained_app_slug");
            let install_true = match get_exec(untag_exec(item), &chars_of("install_software")) {
                Some(x) => as_bool_exec(x) == Some(true),
                None => false,
            };
            if is_patch && !has_slug {
                let m = join3("Patch policy '", &name, "' is missing 'fleet_maintained_app_slug'");
                push_diag(
                    errors,
                    mk(Severity::Error, &m, file).with_help("Patch policies track a Fleet-Maintained App — specify which one").with_suggestion(
                        "fleet_maintained_app_slug: <slug>",
                    ),
                );
            }
            if has_slug && !is_patch {
                let m = join3("Policy '", &name, "' has 'fleet_maintained_app_slug' but is not a patch policy");
                push_diag(
                    errors,
                    mk(Severity::Error, &m, file).with_help(
                        "`fleet_maintained_app_slug` is only used on patch policies — add `type: patch`, or remove the slug",
                    ).with_suggestion("type: patch"),
                );
            }
            if install_true && !is_patch {
                let m = join3("Policy '", &name, "' uses 'install_software: true' but is not a patch policy");
                push_diag(
                    errors,
                    mk(Severity::Error, &m, file).with_help(
                        "`install_software: true` installs the Fleet-Maintained App on failure — only valid with `type: patch`. For regular install-on-fail, use an install_software mapping with 'package_path' or 'hash_sha256'.",
                    ).with_suggestion("type: patch"),
                );
            }
        }
        assert(diags(errors@) =~= start + patch_item(file@)(*item));
    }
}

impl Rule for PatchPolicyRule {
    fn name(&self) -> (r: &'static str)
        ensures
            r@ == "patch-policy"@,
    {
        "patch-policy"
    }

    fn description(&self) -> (r: &'static str)
        ensures
            r@ == "Checks patch policy fields: type:patch requires fleet_maintained_app_slug; install_software:true requires type:patch"@,
    {
        "Checks patch policy fields: type:patch requires fleet_maintained_app_slug; install_software:true requires type:patch"
    }

    fn category(&self) -> (r: &'static str)
        ensures
            r@ == "semantic"@,
    {
        "semantic"
    }

    fn docs_url(&self) -> (r: Option<&'static str>)
        ensures
            r matches Some(u) && u@ == "https://fleetdm.com/docs/configuration/yaml-files#patch-policy"@,
    {
        Some("https://fleetdm.com/docs/configuration/yaml-files#patch-policy")
    }

    open spec fn check_defined(&self, file: Seq<char>, source: Seq<char>) -> bool {
        true
    }

    fn check(&self, config: &FleetConfig, file: &str, source: &str) -> (r: Vec<LintError>)
        ensures
            diags(r@) == patch_all(file@, source@),
    {
        let mut errors: Vec<LintError> = Vec::new();
        match parse_yaml(source) {
            None => {},
            Some(yaml) => {
                let is_policy_file = detect_file_type(file) == FileType::Policies;
                let items: &[YamlValue] = match &yaml {
                    YamlValue::Sequence(seq) => {
                        if is_policy_file {
                            seq.as_slice()
                        } else {
                            items_at_exec(&yaml, &path1("policies"))
                        }
                    },
                    _ => items_at_exec(&yaml, &path1("policies")),
                };
                assert(items@ == policy_items(yaml, file@));
                let mut i: usize = 0;
                while i < items.len()
                    invariant
                        i <= items@.len(),
                        diags(errors@) == each_item(items@.take(i as int), patch_item(file@)),
                    decreases items.len() - i,
                {
                    assert(items@.take(i + 1).drop_last() =~= items@.take(i as int));
                    PatchPolicyRule::check_item(&items[i], file, &mut errors);
                    i += 1;
                }
                assert(items@.take(items.len() as int) =~= items@);
            },
        }
        errors
    }
}

// ============================================================================
// label-membership
// ============================================================================

/// Checks that each label's membership type matches the fields it sets,
/// and that host-vital criteria are ones Fleet accepts.
pub struct LabelMembershipRule;

/// An error about the label named `name`.
pub open spec fn label_diag(name: Seq<char>, suffix: Seq<char>, help: Seq<char>, file: Seq<char>) -> Diag {
    diag(Severity::Error, "Label '"@ + name + suffix, file).helped(help)
}

/// An error about a label.
fn label_error(name: &[char], suffix: &str, help: &str, file: &str) -> (r: LintError)
    ensures
        r@ == label_diag(name@, suffix@, help@, file@),
{
    let m = join3("Label '", name, suffix);
    mk(Severity::Error, &m, file).with_help(help)
}

/// The vitals Fleet registers.
pub open spec fn is_known_vital(v: Seq<char>) -> bool {
    v == "end_user_idp_group"@ || v == "end_user_idp_department"@
}

/// The one diagnostic, when `cond` holds.
pub open spec fn when(cond: bool, d: Diag) -> Seq<Diag> {
    if cond {
        seq![d]
    } else {
        Seq::empty()
    }
}

/// The findings for a host-vital criteria node of the label named `name`:
/// it must be a mapping, `and`/`or` are not supported, and a leaf needs a
/// known `vital` and a `value`.
pub open spec fn criteria_diags(node: YamlValue, name: Seq<char>, file: Seq<char>) -> Seq<Diag> {
    match node {
        YamlValue::Mapping(_) => {
            let has_and = has_key(node, "and"@);
            let has_or = has_key(node, "or"@);
            let composite_help =
                "Fleet's parseHostVitalCriteria currently accepts only a single {vital, value} leaf. Remove 'and'/'or' until support lands."@;
            if has_and || has_or {
                when(
                    has_and,
                    label_diag(name, "' uses 'and' criteria — And/Or criteria not supported in host vitals labels yet"@, composite_help, file),
                ) + when(
                    has_or,
                    label_diag(name, "' uses 'or' criteria — And/Or criteria not supported in host vitals labels yet"@, composite_help, file),
                )
            } else {
                let hv = has_key(node, "vital"@);
                let hval = has_key(node, "value"@);
                if !hv && !hval {
                    seq![label_diag(name, "' has an empty criteria node"@, "Provide {vital, value}"@, file)]
                } else {
                    when(
                        !hv,
                        label_diag(name, "' criteria missing 'vital' field"@, "Leaf criteria require both 'vital' and 'value'"@, file),
                    ) + when(
                        !hval,
                        label_diag(name, "' criteria missing 'value' field"@, "Leaf criteria require both 'vital' and 'value'"@, file),
                    ) + match get(node, "vital"@) {
                        Some(YamlValue::String(vn)) => when(
                            !is_known_vital(vn@),
                            label_diag(
                                name,
                                "' uses unknown vital '"@ + vn@ + "'"@,
                                "Fleet's parseHostVitalCriteria currently registers: end_user_idp_group, end_user_idp_department. Anything else fails with 'unknown vital'."@,
                                file,
                            ),
                        ),
                        _ => Seq::empty(),
                    }
                }
            }
        },
        _ => seq![label_diag(name, "' criteria must be a mapping"@, "Use {vital, value} with an optional operator"@, file)],
    }
}

/// Pushes the diagnostic when the condition holds.
fn push_when(errors: &mut Vec<LintError>, cond: bool, e: LintError)
    ensures
        diags(final(errors)@) == diags(old(errors)@) + when(cond, e@),
{
    if cond {
        push_diag(errors, e);
    } else {
        assert(diags(errors@) =~= diags(errors@) + Seq::<Diag>::empty());
    }
}

/// The findings for a host-vital criteria node.
pub fn validate_criteria(node: &YamlValue, file: &str, label_name: &[char], errors: &mut Vec<LintError>)
    ensures
        diags(final(errors)@) == diags(old(errors)@) + criteria_diags(*node, label_name@, file@),
{
    let ghost start = diags(errors@);
    match node {
        YamlValue::Mapping(_) => {
            let has_and = has_key_exec(node, "and");
            let has_or = has_key_exec(node, "or");
            let help = "Fleet's parseHostVitalCriteria currently accepts only a single {vital, value} leaf. Remove 'and'/'or' until support lands.";
            if has_and || has_or {
                push_when(
                    errors,
                    has_and,
                    label_error(label_name, "' uses 'and' criteria — And/Or criteria not supported in host vitals labels yet", help, file),
                );
                push_when(
                    errors,
                    has_or,
                    label_error(label_name, "' uses 'or' criteria — And/Or criteria not supported in host vitals labels yet", help, file),
                );
            } else {
                let hv = has_key_exec(node, "vital");
                let hval = has_key_exec(node, "value");
                if !hv && !hval {
                    push_diag(errors, label_error(label_name, "' has an empty criteria node", "Provide {vital, value}", file));
                } else {
                    push_when(
                        errors,
                        !hv,
                        label_error(label_name, "' criteria missing 'vital' field", "Leaf criteria require both 'vital' and 'value'", file),
                    );
                    push_when(
                        errors,
                        !hval,
                        label_error(label_name, "' criteria missing 'value' field", "Leaf criteria require both 'vital' and 'value'", file),
                    );
                    let ghost mid = diags(errors@);
                    match get_exec(node, &chars_of("vital")) {
                        Some(YamlValue::String(vn)) => {
                            let vc = chars_of(vn.as_str());
                            let known = text::eq_str(&vc, "end_user_idp_group") || text::eq_str(&vc, "end_user_idp_department");
                            let suffix = join3("' uses unknown vital '", &vc, "'");
                            let m = join3("Label '", label_name, "");
                            let m = concat(&m, &suffix);
                            proof {
                                reveal_strlit("");
                            }
                            let e = mk(Severity::Error, &m, file).with_help(
                                "Fleet's parseHostVitalCriteria currently registers: end_user_idp_group, end_user_idp_department. Anything else fails with 'unknown vital'.",
                            );
                            push_when(errors, !known, e);
                        },
                        _ => {},
                    }
                }
            }
        },
        _ => {
            push_diag(
                errors,
                label_error(label_name, "' criteria must be a mapping", "Use {vital, value} with an optional operator", file),
            );
        },
    }
    assert(diags(errors@) =~= start + criteria_diags(*node, label_name@, file@));
}

/// The labels of a document: a standalone label file is itself a list of
/// labels; other files list them under `labels`.
pub open spec fn label_items(v: YamlValue, file: Seq<char>) -> Seq<YamlValue> {
    match v {
        YamlValue::Sequence(items) => if file_type_of(file) == FileType::Labels {
            items@
        } else {
            items_at(v, seq!["labels"@])
        },
        _ => items_at(v, seq!["labels"@]),
    }
}

/// The membership findings of one label (file references are skipped): an
/// empty membership type is flagged with a type suggested by the fields
/// set; otherwise the type (dynamic when absent) must match its fields.
pub open spec fn membership_item(file: Seq<char>) -> spec_fn(YamlValue) -> Seq<Diag> {
    |item: YamlValue|
        if is_file_ref(item) {
            Seq::empty()
        } else {
            let name = display_name(item);
            let raw = get_str(item, "label_membership_type"@);
            let has_mt = has_key(item, "label_membership_type"@);
            let hq = has_key(item, "query"@);
            let hh = has_key(item, "hosts"@);
            let hc = has_key(item, "criteria"@);
            if has_mt && raw.is_none() {
                let suggestion = if hc {
                    "host_vitals"@
                } else if hh {
                    "manual"@
                } else {
                    "dynamic"@
                };
                seq![
                    label_diag(
                        name,
                        "' has empty 'label_membership_type'"@,
                        "Provide a value: 'dynamic' (query), 'manual' (hosts), or 'host_vitals' (criteria)"@,
                        file,
                    ).suggesting("label_membership_type: "@ + suggestion),
                ]
            } else {
                let mt = match raw {
                    Some(t) => t,
                    None => "dynamic"@,
                };
                if mt == "dynamic"@ {
                    when(
                        !hq,
                        label_diag(name, "' is dynamic but missing 'query' field"@, "Dynamic labels require a SQL query to determine membership"@, file).suggesting(
                            "query: \"SELECT 1 FROM ...;\""@,
                        ),
                    ) + when(
                        hh,
                        label_diag(
                            name,
                            "' is dynamic but has 'hosts' field"@,
                            "Dynamic labels use 'query' for membership, not 'hosts'. Use label_membership_type: manual for host lists"@,
                            file,
                        ),
                    ) + when(
                        hc,
                        label_diag(
                            name,
                            "' is dynamic but has 'criteria' field"@,
                            "Dynamic labels use 'query' for membership, not 'criteria'. Use label_membership_type: host_vitals for vital-based criteria"@,
                            file,
                        ),
                    )
                } else if mt == "manual"@ {
                    when(
                        hq,
                        label_diag(
                            name,
                            "' is manual but has 'query' field"@,
                            "Manual labels use 'hosts' for membership, not 'query'. Use label_membership_type: dynamic for SQL queries"@,
                            file,
                        ),
                    ) + when(
                        hc,
                        label_diag(
                            name,
                            "' is manual but has 'criteria' field"@,
                            "Manual labels use 'hosts' for membership, not 'criteria'. Use label_membership_type: host_vitals for vital-based criteria"@,
                            file,
                        ),
                    )
                } else if mt == "host_vitals"@ {
                    when(
                        !hc,
                        label_diag(
                            name,
                            "' is host_vitals but missing 'criteria' field"@,
                            "host_vitals labels require 'criteria' with 'vital' and 'value' fields"@,
                            file,
                        ),
                    ) + when(
                        hq,
                        label_diag(name, "' is host_vitals but has 'query' field"@, "host_vitals labels use 'criteria', not 'query'"@, file),
                    ) + when(
                        hh,
                        label_diag(
                            name,
                            "' is host_vitals but has 'hosts' field"@,
                            "host_vitals labels use 'criteria', not 'hosts'. Use label_membership_type: manual for explicit host lists"@,
                            file,
                        ),
                    ) + match get(item, "criteria"@) {
                        Some(c) => if hc {
                            criteria_diags(c, name, file)
                        } else {
                            Seq::empty()
                        },
                        None => Seq::empty(),
                    }
                } else {
                    Seq::empty()
                }
            }
        }
}

/// The membership findings of a document.
pub open spec fn membership_diags(v: YamlValue, file: Seq<char>) -> Seq<Diag> {
    each_item(label_items(v, file), membership_item(file))
}

impl LabelMembershipRule {
    fn check_item(item: &YamlValue, file: &str, errors: &mut Vec<LintError>)
        ensures
            diags(final(errors)@) == diags(old(errors)@) + membership_item(file@)(*item),
    {
        let ghost start = diags(errors@);
        if !is_file_ref_exec(item) {
            let name = display_name_exec(item);
            let raw = get_str_exec(item, "label_membership_type");
            let has_mt = has_key_exec(item, "label_membership_type");
            let hq = has_key_exec(item, "query");
            let hh = has_key_exec(item, "hosts");
            let hc = has_key_exec(item, "criteria");
            if has_mt && raw.is_none() {
                let suggestion = if hc {
                    "host_vitals"
                } else if hh {
                    "manual"
                } else {
                    "dynamic"
                };
                let sug = concat(&chars_of("label_membership_type: "), &chars_of(suggestion));
                let ss = s_of(&sug);
                push_diag(
                    errors,
                    label_error(
                        &name,
                        "' has empty 'label_membership_type'",
                        "Provide a value: 'dynamic' (query), 'manual' (hosts), or 'host_vitals' (criteria)",
                        file,
                    ).with_suggestion(ss.as_str()),
                );
            } else {
                let mt = match raw {
                    Some(t) => t,
                    None => chars_of("dynamic"),
                };
                if text::eq_str(&mt, "dynamic") {
                    push_when(
                        errors,
                        !hq,
                        label_error(&name, "' is dynamic but missing 'query' field", "Dynamic labels require a SQL query to determine membership", file).with_suggestion(
                            "query: \"SELECT 1 FROM ...;\"",
                        ),
                    );
                    push_when(
                        errors,
                        hh,
                        label_error(
                            &name,
                            "' is dynamic but has 'hosts' field",
                            "Dynamic labels use 'query' for membership, not 'hosts'. Use label_membership_type: manual for host lists",
                            file,
                        ),
                    );
                    push_when(
                        errors,
                        hc,
                        label_error(
                            &name,
                            "' is dynamic but has 'criteria' field",
                            "Dynamic labels use 'query' for membership, not 'criteria'. Use label_membership_type: host_vitals for vital-based criteria",
                            file,
                        ),
                    );
                } else if text::eq_str(&mt, "manual") {
                    push_when(
                        errors,
                        hq,
                        label_error(
                            &name,
                            "' is manual but has 'query' field",
                            "Manual labels use 'hosts' for membership, not 'query'. Use label_membership_type: dynamic for SQL queries",
                            file,
                        ),
                    );
                    push_when(
                        errors,
                        hc,
                        label_error(
                            &name,
                            "' is manual but has 'criteria' field",
                            "Manual labels use 'hosts' for membership, not 'criteria'. Use label_membership_type: host_vitals for vital-based criteria",
                            file,
                        ),
                    );
                } else if text::eq_str(&mt, "host_vitals") {
                    push_when(
                        errors,
                        !hc,
                        label_error(
                            &name,
                            "' is host_vitals but missing 'criteria' field",
                            "host_vitals labels require 'criteria' with 'vital' and 'value' fields",
                            file,
                        ),
                    );
                    push_when(
                        errors,
                        hq,
                        label_error(&name, "' is host_vitals but has 'query' field", "host_vitals labels use 'criteria', not 'query'", file),
                    );
                    push_when(
                        errors,
                        hh,
                        label_error(
                            &name,
                            "' is host_vitals but has 'hosts' field",
                            "host_vitals labels use 'criteria', not 'hosts'. Use label_membership_type: manual for explicit host lists",
                            file,
                        ),
                    );
                    if hc {
                        match get_exec(item, &chars_of("criteria")) {
                            Some(c) => validate_criteria(c, file, &name, errors),
                            None => {},
                        }
                    }
                }
            }
        }
        assert(diags(errors@) =~= start + membership_item(file@)(*item));
    }
}

impl Rule for LabelMembershipRule {
    fn name(&self) -> (r: &'static str)
        ensures
            r@ == "label-membership"@,
    {
        "label-membership"
    }

    fn description(&self) -> (r: &'static str)
        ensures
            r@ == "Checks label membership type consistency (dynamic→query, manual→hosts, host_vitals→criteria)"@,
    {
        "Checks label membership type consistency (dynamic→query, manual→hosts, host_vitals→criteria)"
    }

    fn category(&self) -> (r: &'static str)
        ensures
            r@ == "semantic"@,
    {
        "semantic"
    }

    fn docs_url(&self) -> (r: Option<&'static str>)
        ensures
            r matches Some(u) && u@ == "https://fleetdm.com/docs/configuration/yaml-files#labels"@,
    {
        Some("https://fleetdm.com/docs/configuration/yaml-files#labels")
    }

    open spec fn check_defined(&self, file: Seq<char>, source: Seq<char>) -> bool {
        true
    }

    fn check(&self, config: &FleetConfig, file: &str, source: &str) -> (r: Vec<LintError>)
        ensures
            diags(r@) == membership_all(file@, source@),
    {
        let mut errors: Vec<LintError> = Vec::new();
        match parse_yaml(source) {
            None => {},
            Some(yaml) => {
                let is_label_file = detect_file_type(file) == FileType::Labels;
                let items: &[YamlValue] = match &yaml {
                    YamlValue::Sequence(seq) => {
                        if is_label_file {
                            seq.as_slice()
                        } else {
                            items_at_exec(&yaml, &path1("labels"))
                        }
                    },
                    _ => items_at_exec(&yaml, &path1("labels")),
                };
                assert(items@ == label_items(yaml, file@));
                let mut i: usize = 0;
                while i < items.len()
                    invariant
                        i <= items@.len(),
                        diags(errors@) == each_item(items@.take(i as int), membership_item(file@)),
                    decreases items.len() - i,
                {
                    assert(items@.take(i + 1).drop_last() =~= items@.take(i as int));
                    LabelMembershipRule::check_item(&items[i], file, &mut errors);
                    i += 1;
                }
                assert(items@.take(items.len() as int) =~= items@);
            },
        }
        errors
    }
}

// ============================================================================
// path-reference
// ============================================================================

/// Checks `path` / `paths` references: a `path` names one file and holds no
/// glob characters, `paths` is a glob, an entry has at most one of them, and
/// scripts must have one.
pub struct PathReferenceRule;

/// `s` holds a glob metacharacter: `*`, `?`, `[` or `{`.
pub open spec fn has_glob_meta(s: Seq<char>) -> bool {
    s.contains('*') || s.contains('?') || s.contains('[') || s.contains('{')
}

/// Whether `s` holds a glob metacharacter.
pub fn contains_glob_meta(s: &[char]) -> (r: bool)
    ensures
        r == has_glob_meta(s@),
{
    text::has_char_exec(s, '*') || text::has_char_exec(s, '?') || text::has_char_exec(s, '[')
        || text::has_char_exec(s, '{')
}

/// `d` placed at column 0 of the first `key:` line of the source, when
/// there is one.
pub open spec fn at_key_line(d: Diag, source: Seq<char>, key: Seq<char>) -> Diag {
    match key_line_from(lines(source), key, 0) {
        Some(n) => d.at(n as usize, 0),
        None => d,
    }
}

/// The path findings of one entry of kind `entity`; `require` says that the
/// entry must reference a file.
pub open spec fn path_item(entity: Seq<char>, require: bool, file: Seq<char>, source: Seq<char>) -> spec_fn(
    YamlValue,
) -> Seq<Diag> {
    |item: YamlValue|
        {
            let name = display_name(item);
            match (get_str(item, "path"@), get_str(item, "paths"@)) {
                (Some(_), Some(_)) => seq![
                    at_key_line(
                        diag(
                            Severity::Error,
                            entity + " '"@ + name + "' has both 'path' and 'paths' — use one or the other"@,
                            file,
                        ).helped("'path' is for a single file, 'paths' is for glob patterns"@),
                        source,
                        "paths"@,
                    ),
                ],
                (Some(p), None) => if has_glob_meta(p) {
                    seq![
                        at_key_line(
                            diag(
                                Severity::Error,
                                entity + " '"@ + name
                                    + "' 'path' contains glob characters — use 'paths' for glob patterns"@,
                                file,
                            ).helped("Change 'path: "@ + p + "' to 'paths: "@ + p + "'"@).in_context(
                                p,
                            ).suggesting("paths: "@ + p),
                            source,
                            "path"@,
                        ),
                    ]
                } else {
                    Seq::empty()
                },
                (None, Some(ps)) => if !has_glob_meta(ps) {
                    seq![
                        at_key_line(
                            diag(
                                Severity::Error,
                                entity + " '"@ + name
                                    + "' 'paths' does not contain glob characters — use 'path' for a specific file"@,
                                file,
                            ).helped("Change 'paths: "@ + ps + "' to 'path: "@ + ps + "'"@).in_context(
                                ps,
                            ).suggesting("path: "@ + ps),
                            source,
                            "paths"@,
                        ),
                    ]
                } else {
                    Seq::empty()
                },
                (None, None) => if require {
                    let d = diag(
                        Severity::Error,
                        entity + " '"@ + name + "' has no 'path' or 'paths' field — scripts must reference a file"@,
                        file,
                    ).helped("Add 'path: ./path/to/script.sh' or 'paths: ./scripts/*.sh'"@);
                    seq![
                        match get_str(item, "name"@) {
                            Some(n) => at_key_line(d, source, n),
                            None => d,
                        },
                    ]
                } else {
                    Seq::empty()
                },
            }
        }
}

/// The path findings of a document: the entries of `policies`, `reports`,
/// `queries` and `labels`, the scripts (which must reference a file), then
/// the custom settings of each platform.
pub open spec fn path_diags(v: YamlValue, file: Seq<char>, source: Seq<char>) -> Seq<Diag> {
    each_item(items_at(v, seq!["policies"@]), path_item("policies"@, false, file, source)) + each_item(
        items_at(v, seq!["reports"@]),
        path_item("reports"@, false, file, source),
    ) + each_item(items_at(v, seq!["queries"@]), path_item("queries"@, false, file, source)) + each_item(
        items_at(v, seq!["labels"@]),
        path_item("labels"@, false, file, source),
    ) + each_item(items_at(v, seq!["controls"@, "scripts"@]), path_item("script"@, true, file, source))
        + each_item(
        items_at(v, seq!["controls"@, "macos_settings"@, "custom_settings"@]),
        path_item("profile"@, false, file, source),
    ) + each_item(
        items_at(v, seq!["controls"@, "windows_settings"@, "custom_settings"@]),
        path_item("profile"@, false, file, source),
    ) + each_item(
        items_at(v, seq!["controls"@, "android_settings"@, "custom_settings"@]),
        path_item("profile"@, false, file, source),
    )
}

/// Places a diagnostic at the first `key:` line of the source.
fn locate(d: LintError, source: &str, key: &str) -> (r: LintError)
    ensures
        r@ == at_key_line(d@, source@, key@),
{
    match find_key_line(source, key, 0) {
        Some(n) => d.with_location(n, 0),
        None => d,
    }
}

/// The path findings of one entry.
pub fn check_path_fields(
    item: &YamlValue,
    entity: &str,
    require: bool,
    file: &str,
    source: &str,
    errors: &mut Vec<LintError>,
)
    ensures
        diags(final(errors)@) == diags(old(errors)@) + path_item(entity@, require, file@, source@)(*item),
{
    let ghost start = diags(errors@);
    let path = get_str_exec(item, "path");
    let paths = get_str_exec(item, "paths");
    let ent = chars_of(entity);
    match (path, paths) {
        (Some(_), Some(_)) => {
            let name = display_name_exec(item);
            let m = concat(&ent, &join3(" '", &name, "' has both 'path' and 'paths' — use one or the other"));
            assert(m@ =~= entity@ + " '"@ + name@ + "' has both 'path' and 'paths' — use one or the other"@);
            let e = mk(Severity::Error, &m, file).with_help("'path' is for a single file, 'paths' is for glob patterns");
            push_diag(errors, locate(e, source, "paths"));
        },
        (Some(p), None) => {
            if contains_glob_meta(&p) {
                let name = display_name_exec(item);
                let m = concat(
                    &ent,
                    &join3(" '", &name, "' 'path' contains glob characters — use 'paths' for glob patterns"),
                );
                assert(m@ =~= entity@ + " '"@ + name@ + "' 'path' contains glob characters — use 'paths' for glob patterns"@);
                let h = join5("Change 'path: ", &p, "' to 'paths: ", &p, "'");
                let hs = s_of(&h);
                let ps = s_of(&p);
                let sug = s_of(&concat(&chars_of("paths: "), &p));
                let e = mk(Severity::Error, &m, file).with_help(hs.as_str()).with_context(ps.as_str()).with_suggestion(
                    sug.as_str(),
                );
                push_diag(errors, locate(e, source, "path"));
            }
        },
        (None, Some(p)) => {
            if !contains_glob_meta(&p) {
                let name = display_name_exec(item);
                let m = concat(
                    &ent,
                    &join3(
                        " '",
                        &name,
                        "' 'paths' does not contain glob characters — use 'path' for a specific file",
                    ),
                );
                assert(m@ =~= entity@ + " '"@ + name@ + "' 'paths' does not contain glob characters — use 'path' for a specific file"@);
                let h = join5("Change 'paths: ", &p, "' to 'path: ", &p, "'");
                let hs = s_of(&h);
                let ps = s_of(&p);
                let sug = s_of(&concat(&chars_of("path: "), &p));
                let e = mk(Severity::Error, &m, file).with_help(hs.as_str()).with_context(ps.as_str()).with_suggestion(
                    sug.as_str(),
                );
                push_diag(errors, locate(e, source, "paths"));
            }
        },
        (None, None) => {
            if require {
                let name = display_name_exec(item);
                let m = concat(
                    &ent,
                    &join3(" '", &name, "' has no 'path' or 'paths' field — scripts must reference a file"),
                );
                assert(m@ =~= entity@ + " '"@ + name@ + "' has no 'path' or 'paths' field — scripts must reference a file"@);
                let e = mk(Severity::Error, &m, file).with_help(
                    "Add 'path: ./path/to/script.sh' or 'paths: ./scripts/*.sh'",
                );
                let e = match get_str_exec(item, "name") {
                    Some(n) => {
                        let ns = s_of(&n);
                        locate(e, source, ns.as_str())
                    },
                    None => e,
                };
                push_diag(errors, e);
            }
        },
    }
    assert(diags(errors@) =~= start + path_item(entity@, require, file@, source@)(*item));
}

impl PathReferenceRule {
    fn check_section(
        yaml: &YamlValue,
        path: &Vec<&'static str>,
        entity: &str,
        require: bool,
        file: &str,
        source: &str,
        errors: &mut Vec<LintError>,
    )
        ensures
            diags(final(errors)@) == diags(old(errors)@) + each_item(
                items_at(*yaml, strs(path@)),
                path_item(entity@, require, file@, source@),
            ),
    {
        let items = items_at_exec(yaml, path);
        let ghost start = diags(errors@);
        let mut i: usize = 0;
        while i < items.len()
            invariant
                i <= items@.len(),
                diags(errors@) == start + each_item(items@.take(i as int), path_item(entity@, require, file@, source@)),
            decreases items.len() - i,
        {
            assert(items@.take(i + 1).drop_last() =~= items@.take(i as int));
            check_path_fields(&items[i], entity, require, file, source, errors);
            i += 1;
        }
        assert(items@.take(items.len() as int) =~= items@);
    }
}

impl Rule for PathReferenceRule {
    fn name(&self) -> (r: &'static str)
        ensures
            r@ == "path-reference"@,
    {
        "path-reference"
    }

    fn description(&self) -> (r: &'static str)
        ensures
            r@ == "Validates path/paths fields: glob usage, mutual exclusivity, and script requirements"@,
    {
        "Validates path/paths fields: glob usage, mutual exclusivity, and script requirements"
    }

    fn category(&self) -> (r: &'static str)
        ensures
            r@ == "semantic"@,
    {
        "semantic"
    }

    open spec fn check_defined(&self, file: Seq<char>, source: Seq<char>) -> bool {
        true
    }

    fn check(&self, config: &FleetConfig, file: &str, source: &str) -> (r: Vec<LintError>)
        ensures
            diags(r@) == path_all(file@, source@),
    {
        let mut errors: Vec<LintError> = Vec::new();
        match parse_yaml(source) {
            None => {},
            Some(yaml) => {
                PathReferenceRule::check_section(&yaml, &path1("policies"), "policies", false, file, source, &mut errors);
                PathReferenceRule::check_section(&yaml, &path1("reports"), "reports", false, file, source, &mut errors);
                PathReferenceRule::check_section(&yaml, &path1("queries"), "queries", false, file, source, &mut errors);
                PathReferenceRule::check_section(&yaml, &path1("labels"), "labels", false, file, source, &mut errors);
                PathReferenceRule::check_section(
                    &yaml,
                    &path2("controls", "scripts"),
                    "script",
                    true,
                    file,
                    source,
                    &mut errors,
                );
                PathReferenceRule::check_section(
                    &yaml,
                    &path3("controls", "macos_settings", "custom_settings"),
                    "profile",
                    false,
                    file,
                    source,
                    &mut errors,
                );
                PathReferenceRule::check_section(
                    &yaml,
                    &path3("controls", "windows_settings", "custom_settings"),
                    "profile",
                    false,
                    file,
                    source,
                    &mut errors,
                );
                PathReferenceRule::check_section(
                    &yaml,
                    &path3("controls", "android_settings", "custom_settings"),
                    "profile",
                    false,
                    file,
                    source,
                    &mut errors,
                );
                assert(diags(errors@) =~= path_diags(yaml, file@, source@));
            },
        }
        errors
    }
}

} // verus!
