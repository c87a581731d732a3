//! The `Rule` interface and the built-in rules over the typed configuration.
use vstd::prelude::*;

use crate::diag::{diag, diags, extend_diags, mk, push_diag, s_of, Diag, FixSafety, LintError, Severity};
use crate::fleet_config::{FleetConfig, Label, LabelOrPath, Policy, PolicyOrPath, Query, QueryOrPath};
use crate::text;
use crate::osquery;
use crate::semantic;
use crate::structural;
use crate::structural::structural_diags;
use crate::yaml_lint;
use crate::text::{chars_of, concat, lines, string_views, strs, vviews};

verus! {

broadcast use vstd::string::group_string_axioms;

/// A lint rule: it receives the typed configuration, the file path and the
/// source text, and returns diagnostics.
pub trait Rule {
    /// Name of the rule (its rule code).
    fn name(&self) -> &'static str;

    /// What the rule checks.
    fn description(&self) -> &'static str;

    /// The inputs on which `check` does not panic.
    spec fn check_defined(&self, file: Seq<char>, source: Seq<char>) -> bool;

    /// Checks one file.
    fn check(&self, config: &FleetConfig, file: &str, source: &str) -> Vec<LintError>
        requires
            self.check_defined(file@, source@),
    ;

    /// Category for grouping.
    fn category(&self) -> (r: &'static str)
        default_ensures
            r@ == "general"@,
    {
        "general"
    }

    /// Documentation link.
    fn docs_url(&self) -> (r: Option<&'static str>)
        default_ensures
            r is None,
    {
        None
    }

    /// Whether the rule's diagnostics can carry automatic fixes.
    fn is_fixable(&self) -> (r: bool)
        default_ensures
            !r,
    {
        false
    }

    /// Whether the rule is experimental.
    fn is_preview(&self) -> (r: bool)
        default_ensures
            !r,
    {
        false
    }

    /// Default severity of the rule's diagnostics.
    fn default_severity(&self) -> (r: Severity)
        default_ensures
            r == Severity::Error,
    {
        Severity::Error
    }
}

// ============================================================================
// Helpers shared by the rules
// ============================================================================

/// The name of an item, or `unnamed` when it has none.
pub open spec fn or_unnamed(o: Option<String>) -> Seq<char> {
    match o {
        Some(s) => s@,
        None => "unnamed"@,
    }
}

/// A field that is absent or empty.
pub open spec fn is_blank(o: Option<String>) -> bool {
    match o {
        Some(s) => s@.len() == 0,
        None => true,
    }
}

/// The name of an item, or `unnamed`.
pub fn or_unnamed_exec(o: &Option<String>) -> (r: Vec<char>)
    ensures
        r@ == or_unnamed(*o),
{
    match o {
        Some(s) => chars_of(s.as_str()),
        None => chars_of("unnamed"),
    }
}

/// Whether a field is absent or empty.
pub fn is_blank_exec(o: &Option<String>) -> (r: bool)
    ensures
        r == is_blank(*o),
{
    match o {
        Some(s) => chars_of(s.as_str()).len() == 0,
        None => true,
    }
}

/// `a`, `b` and `c` joined.
pub fn join3(a: &str, b: &[char], c: &str) -> (r: Vec<char>)
    ensures
        r@ == a@ + b@ + c@,
{
    let x = concat(&chars_of(a), b);
    concat(&x, &chars_of(c))
}

/// `a`, `b`, `c`, `d` and `e` joined.
pub fn join5(a: &str, b: &[char], c: &str, d: &[char], e: &str) -> (r: Vec<char>)
    ensures
        r@ == a@ + b@ + c@ + d@ + e@,
{
    let x = join3(a, b, c);
    let y = concat(&x, d);
    concat(&y, &chars_of(e))
}

/// The diagnostics of the optional diagnostic, as a sequence.
pub open spec fn opt_seq(d: Option<Diag>) -> Seq<Diag> {
    match d {
        Some(x) => seq![x],
        None => Seq::empty(),
    }
}

/// Pushes an optional diagnostic.
pub fn push_opt(v: &mut Vec<LintError>, e: Option<LintError>)
    ensures
        diags(final(v)@) == diags(old(v)@) + opt_seq(
            match e {
                Some(x) => Some(x@),
                None => None,
            },
        ),
{
    match e {
        Some(x) => {
            push_diag(v, x);
        },
        None => {
            assert(diags(v@) =~= diags(v@) + Seq::<Diag>::empty());
        },
    }
}

// ============================================================================
// required-fields
// ============================================================================

/// Checks that policies, queries and labels have their required fields.
pub struct RequiredFieldsRule;

/// Whether a policy is a patch policy (`type: patch`).
pub open spec fn is_patch(p: Policy) -> bool {
    match p.policy_type {
        Some(t) => t@ == "patch"@,
        None => false,
    }
}

/// Required-field errors of the inline policy at 1-based position `n`.
pub open spec fn policy_required(p: Policy, n: nat, file: Seq<char>) -> Seq<Diag> {
    (if is_blank(p.name) {
        seq![
            diag(
                Severity::Error,
                "Policy #"@ + text::decimal(n) + " is missing required field 'name'"@,
                file,
            ).helped("Policies must have a name field"@),
        ]
    } else {
        Seq::empty()
    }) + (if !is_patch(p) && is_blank(p.query) {
        seq![
            diag(
                Severity::Error,
                "Policy '"@ + or_unnamed(p.name) + "' is missing required field 'query'"@,
                file,
            ).helped(
                "Policies must have a query field with osquery SQL (or set type: patch for Fleet Maintained App patch policies)"@,
            ).suggesting("query: \"SELECT 1 FROM ...;\""@),
        ]
    } else {
        Seq::empty()
    })
}

/// Required-field errors of the inline query at 1-based position `n`.
pub open spec fn query_required(q: Query, n: nat, file: Seq<char>) -> Seq<Diag> {
    (if is_blank(q.name) {
        seq![
            diag(
                Severity::Error,
                "Query #"@ + text::decimal(n) + " is missing required field 'name'"@,
                file,
            ).helped("Queries must have a name field"@),
        ]
    } else {
        Seq::empty()
    }) + (if is_blank(q.query) {
        seq![
            diag(
                Severity::Error,
                "Query '"@ + or_unnamed(q.name) + "' is missing required field 'query'"@,
                file,
            ).helped("Queries must have a query field with osquery SQL"@),
        ]
    } else {
        Seq::empty()
    })
}

/// Required-field errors of the inline label at 1-based position `n`.
pub open spec fn label_required(l: Label, n: nat, file: Seq<char>) -> Seq<Diag> {
    if is_blank(l.name) {
        seq![
            diag(
                Severity::Error,
                "Label #"@ + text::decimal(n) + " is missing required field 'name'"@,
                file,
            ),
        ]
    } else {
        Seq::empty()
    }
}

/// Required-field errors of a list of policy entries; file references are skipped.
pub open spec fn policies_required(ps: Seq<PolicyOrPath>, file: Seq<char>) -> Seq<Diag>
    decreases ps.len(),
{
    if ps.len() == 0 {
        Seq::empty()
    } else {
        policies_required(ps.drop_last(), file) + match ps.last() {
            PolicyOrPath::Policy(p) => policy_required(p, ps.len(), file),
            _ => Seq::empty(),
        }
    }
}

/// Required-field errors of a list of query entries.
pub open spec fn queries_required(qs: Seq<QueryOrPath>, file: Seq<char>) -> Seq<Diag>
    decreases qs.len(),
{
    if qs.len() == 0 {
        Seq::empty()
    } else {
        queries_required(qs.drop_last(), file) + match qs.last() {
            QueryOrPath::Query(q) => query_required(q, qs.len(), file),
            _ => Seq::empty(),
        }
    }
}

/// Required-field errors of a list of label entries.
pub open spec fn labels_required(ls: Seq<LabelOrPath>, file: Seq<char>) -> Seq<Diag>
    decreases ls.len(),
{
    if ls.len() == 0 {
        Seq::empty()
    } else {
        labels_required(ls.drop_last(), file) + match ls.last() {
            LabelOrPath::Label(l) => label_required(l, ls.len(), file),
            _ => Seq::empty(),
        }
    }
}

/// Every required-field error of a configuration: policies, then queries,
/// then labels.
pub open spec fn required_fields_diags(c: FleetConfig, file: Seq<char>) -> Seq<Diag> {
    (match c.policies {
        Some(v) => policies_required(v@, file),
        None => Seq::empty(),
    }) + (match c.queries {
        Some(v) => queries_required(v@, file),
        None => Seq::empty(),
    }) + (match c.labels {
        Some(v) => labels_required(v@, file),
        None => Seq::empty(),
    })
}

impl RequiredFieldsRule {
    fn policy_errors(p: &Policy, n: usize, file: &str, errors: &mut Vec<LintError>)
        ensures
            diags(final(errors)@) == diags(old(errors)@) + policy_required(*p, n as nat, file@),
    {
        let ghost start = diags(errors@);
        if is_blank_exec(&p.name) {
            let m = join3("Policy #", &text::decimal_chars(n), " is missing required field 'name'");
            let e = mk(Severity::Error, &m, file).with_help("Policies must have a name field");
            push_diag(errors, e);
        }
        let ghost mid = diags(errors@);
        let patch = match &p.policy_type {
            Some(t) => text::str_eq(t.as_str(), "patch"),
            None => false,
        };
        if !patch && is_blank_exec(&p.query) {
            let m = join3("Policy '", &or_unnamed_exec(&p.name), "' is missing required field 'query'");
            let e = mk(Severity::Error, &m, file).with_help(
                "Policies must have a query field with osquery SQL (or set type: patch for Fleet Maintained App patch policies)",
            ).with_suggestion("query: \"SELECT 1 FROM ...;\"");
            push_diag(errors, e);
        }
        assert(diags(errors@) =~= start + policy_required(*p, n as nat, file@));
    }

    fn query_errors(q: &Query, n: usize, file: &str, errors: &mut Vec<LintError>)
        ensures
            diags(final(errors)@) == diags(old(errors)@) + query_required(*q, n as nat, file@),
    {
        let ghost start = diags(errors@);
        if is_blank_exec(&q.name) {
            let m = join3("Query #", &text::decimal_chars(n), " is missing required field 'name'");
            let e = mk(Severity::Error, &m, file).with_help("Queries must have a name field");
            push_diag(errors, e);
        }
        if is_blank_exec(&q.query) {
            let m = join3("Query '", &or_unnamed_exec(&q.name), "' is missing required field 'query'");
            let e = mk(Severity::Error, &m, file).with_help(
                "Queries must have a query field with osquery SQL",
            );
            push_diag(errors, e);
        }
        assert(diags(errors@) =~= start + query_required(*q, n as nat, file@));
    }
}

impl Rule for RequiredFieldsRule {
    fn name(&self) -> (r: &'static str)
        ensures
            r@ == "required-fields"@,
    {
        "required-fields"
    }

    fn description(&self) -> (r: &'static str)
        ensures
            r@ == "Ensures all required fields are present"@,
    {
        "Ensures all required fields are present"
    }

    fn category(&self) -> (r: &'static str)
        ensures
            r@ == "structural"@,
    {
        "structural"
    }

    fn is_fixable(&self) -> (r: bool)
        ensures
            r,
    {
        true
    }

    fn docs_url(&self) -> (r: Option<&'static str>)
        ensures
            r matches Some(u) && u@ == "https://fleetdm.com/docs/configuration/yaml-files#gitops"@,
    {
        Some("https://fleetdm.com/docs/configuration/yaml-files#gitops")
    }

    open spec fn check_defined(&self, file: Seq<char>, source: Seq<char>) -> bool {
        true
    }

    fn check(&self, config: &FleetConfig, file: &str, source: &str) -> (r: Vec<LintError>)
        ensures
            diags(r@) == required_fields_diags(*config, file@),
    {
        let mut errors: Vec<LintError> = Vec::new();
        let ghost s0 = diags(errors@);
        match &config.policies {
            Some(ps) => {
                let mut i: usize = 0;
                while i < ps.len()
                    invariant
                        i <= ps.len(),
                        diags(errors@) == s0 + policies_required(ps@.take(i as int), file@),
                    decreases ps.len() - i,
                {
                    assert(ps@.take(i + 1).drop_last() =~= ps@.take(i as int));
                    match &ps[i] {
                        PolicyOrPath::Policy(p) => RequiredFieldsRule::policy_errors(p, i + 1, file, &mut errors),
                        _ => {},
                    }
                    assert(s0 + policies_required(ps@.take(i + 1), file@) =~= s0 + policies_required(ps@.take(i as int), file@) + match ps@[i as int] {
                        PolicyOrPath::Policy(p) => policy_required(p, (i + 1) as nat, file@),
                        _ => Seq::empty(),
                    });
                    i += 1;
                }
                assert(ps@.take(ps.len() as int) =~= ps@);
            },
            None => {},
        }
        let ghost s1 = diags(errors@);
        match &config.queries {
            Some(qs) => {
                let mut i: usize = 0;
                while i < qs.len()
                    invariant
                        i <= qs.len(),
                        diags(errors@) == s1 + queries_required(qs@.take(i as int), file@),
                    decreases qs.len() - i,
                {
                    assert(qs@.take(i + 1).drop_last() =~= qs@.take(i as int));
                    match &qs[i] {
                        QueryOrPath::Query(q) => RequiredFieldsRule::query_errors(q, i + 1, file, &mut errors),
                        _ => {},
                    }
                    assert(s1 + queries_required(qs@.take(i + 1), file@) =~= s1 + queries_required(qs@.take(i as int), file@) + match qs@[i as int] {
                        QueryOrPath::Query(q) => query_required(q, (i + 1) as nat, file@),
                        _ => Seq::empty(),
                    });
                    i += 1;
                }
                assert(qs@.take(qs.len() as int) =~= qs@);
            },
            None => {},
        }
        let ghost s2 = diags(errors@);
        match &config.labels {
            Some(ls) => {
                let mut i: usize = 0;
                while i < ls.len()
                    invariant
                        i <= ls.len(),
                        diags(errors@) == s2 + labels_required(ls@.take(i as int), file@),
                    decreases ls.len() - i,
                {
                    assert(ls@.take(i + 1).drop_last() =~= ls@.take(i as int));
                    let ghost before = diags(errors@);
                    match &ls[i] {
                        LabelOrPath::Label(l) => {
                            if is_blank_exec(&l.name) {
                                let m = join3("Label #", &text::decimal_chars(i + 1), " is missing required field 'name'");
                                push_diag(&mut errors, mk(Severity::Error, &m, file));
                            }
                        },
                        _ => {},
                    }
                    assert(diags(errors@) =~= before + match ls@[i as int] {
                        LabelOrPath::Label(l) => label_required(l, (i + 1) as nat, file@),
                        _ => Seq::empty(),
                    });
                    i += 1;
                }
                assert(ls@.take(ls.len() as int) =~= ls@);
            },
            None => {},
        }
        assert(diags(errors@) =~= required_fields_diags(*config, file@));
        errors
    }
}

// ============================================================================
// SQL text helpers
// ============================================================================

/// The index just past the `*/` that closes a block comment whose body
/// starts at `k`, or the end of the input when it is never closed.
pub open spec fn block_end(b: Seq<u8>, k: int) -> int
    decreases b.len() - k,
{
    if k + 1 >= b.len() {
        b.len() as int
    } else if b[k] == 0x2a && b[k + 1] == 0x2f {
        k + 2
    } else {
        block_end(b, k + 1)
    }
}

/// The index of the newline that ends a line comment whose body starts at
/// `k`, or the end of the input.
pub open spec fn line_end(b: Seq<u8>, k: int) -> int
    decreases b.len() - k,
{
    if k >= b.len() {
        b.len() as int
    } else if b[k] == 0x0a {
        k
    } else {
        line_end(b, k + 1)
    }
}

/// The bytes from `i` on with `/* ... */` comments replaced by one space
/// and `-- ...` comments (up to the newline) removed.
pub open spec fn strip_comments_from(b: Seq<u8>, i: int) -> Seq<u8>
    decreases b.len() - i,
{
    if i >= b.len() || i < 0 {
        Seq::empty()
    } else if i + 1 < b.len() && b[i] == 0x2f && b[i + 1] == 0x2a {
        proof {
            lemma_block_end_bounds(b, i + 2);
        }
        seq![0x20u8] + strip_comments_from(b, block_end(b, i + 2))
    } else if i + 1 < b.len() && b[i] == 0x2d && b[i + 1] == 0x2d {
        proof {
            lemma_line_end_bounds(b, i + 2);
        }
        strip_comments_from(b, line_end(b, i + 2))
    } else {
        seq![b[i]] + strip_comments_from(b, i + 1)
    }
}

/// `block_end` moves forward and stays within the input.
pub proof fn lemma_block_end_bounds(b: Seq<u8>, k: int)
    requires
        k >= 0,
    ensures
        k <= block_end(b, k) <= b.len() || (k > b.len() && block_end(b, k) == b.len()),
    decreases b.len() - k,
{
    if k + 1 < b.len() && !(b[k] == 0x2a && b[k + 1] == 0x2f) {
        lemma_block_end_bounds(b, k + 1);
    }
}

/// `line_end` moves forward and stays within the input.
pub proof fn lemma_line_end_bounds(b: Seq<u8>, k: int)
    requires
        k >= 0,
    ensures
        k <= line_end(b, k) <= b.len() || (k > b.len() && line_end(b, k) == b.len()),
    decreases b.len() - k,
{
    if k < b.len() && b[k] != 0x0a {
        lemma_line_end_bounds(b, k + 1);
    }
}

/// No `/*` and no `--` occurs in the bytes.
pub open spec fn comment_free(b: Seq<u8>) -> bool {
    forall|i: int|
        0 <= i < b.len() - 1 ==> !(#[trigger] b[i] == 0x2f && b[i + 1] == 0x2a) && !(b[i] == 0x2d && b[i + 1] == 0x2d)
}

/// A line comment ends at a newline or at the end of the input.
proof fn lemma_line_end_newline(b: Seq<u8>, k: int)
    requires
        k >= 0,
    ensures
        line_end(b, k) < b.len() ==> b[line_end(b, k)] == 0x0a,
    decreases b.len() - k,
{
    if k < b.len() && b[k] != 0x0a {
        lemma_line_end_newline(b, k + 1);
    }
}

/// The stripped text from `k` starts with a space, a newline, or the byte
/// at `k`.
proof fn lemma_strip_head(b: Seq<u8>, k: int)
    requires
        k >= 0,
    ensures
        strip_comments_from(b, k).len() > 0 ==> {
            let h = strip_comments_from(b, k)[0];
            h == 0x20 || h == 0x0a || (k < b.len() && h == b[k])
        },
{
    if k < b.len() {
        if k + 1 < b.len() && b[k] == 0x2f && b[k + 1] == 0x2a {
            lemma_block_end_bounds(b, k + 2);
            assert(strip_comments_from(b, k) == seq![0x20u8] + strip_comments_from(b, block_end(b, k + 2)));
        } else if k + 1 < b.len() && b[k] == 0x2d && b[k + 1] == 0x2d {
            lemma_line_end_bounds(b, k + 2);
            lemma_line_end_newline(b, k + 2);
            let m = line_end(b, k + 2);
            assert(strip_comments_from(b, k) == strip_comments_from(b, m));
            if m < b.len() {
                assert(!(b[m] == 0x2f) && !(b[m] == 0x2d));
                assert(strip_comments_from(b, m) == seq![b[m]] + strip_comments_from(b, m + 1));
            } else {
                assert(strip_comments_from(b, m).len() == 0);
            }
        } else {
            assert(strip_comments_from(b, k) == seq![b[k]] + strip_comments_from(b, k + 1));
        }
    }
}

/// The stripped text from `i` holds no comment marker.
proof fn lemma_strip_clean(b: Seq<u8>, i: int)
    requires
        i >= 0,
    ensures
        comment_free(strip_comments_from(b, i)),
    decreases b.len() - i,
{
    if i < b.len() {
        if i + 1 < b.len() && b[i] == 0x2f && b[i + 1] == 0x2a {
            lemma_block_end_bounds(b, i + 2);
            let rest = strip_comments_from(b, block_end(b, i + 2));
            lemma_strip_clean(b, block_end(b, i + 2));
            let r = seq![0x20u8] + rest;
            assert forall|j: int| 0 <= j < r.len() - 1 implies !(#[trigger] r[j] == 0x2f && r[j + 1] == 0x2a) && !(r[j]
                == 0x2d && r[j + 1] == 0x2d) by {
                if j > 0 {
                    assert(r[j] == rest[j - 1] && r[j + 1] == rest[j]);
                }
            }
        } else if i + 1 < b.len() && b[i] == 0x2d && b[i + 1] == 0x2d {
            lemma_line_end_bounds(b, i + 2);
            lemma_strip_clean(b, line_end(b, i + 2));
        } else {
            let rest = strip_comments_from(b, i + 1);
            lemma_strip_clean(b, i + 1);
            lemma_strip_head(b, i + 1);
            let r = seq![b[i]] + rest;
            assert forall|j: int| 0 <= j < r.len() - 1 implies !(#[trigger] r[j] == 0x2f && r[j + 1] == 0x2a) && !(r[j]
                == 0x2d && r[j + 1] == 0x2d) by {
                if j > 0 {
                    assert(r[j] == rest[j - 1] && r[j + 1] == rest[j]);
                } else {
                    assert(r[1] == rest[0]);
                }
            }
        }
    }
}

/// Bytes without comment markers come through unchanged.
proof fn lemma_strip_identity(b: Seq<u8>, i: int)
    requires
        0 <= i <= b.len(),
        comment_free(b),
    ensures
        strip_comments_from(b, i) == b.skip(i),
    decreases b.len() - i,
{
    if i < b.len() {
        if i + 1 < b.len() {
            assert(!(b[i] == 0x2f && b[i + 1] == 0x2a) && !(b[i] == 0x2d && b[i + 1] == 0x2d));
        }
        lemma_strip_identity(b, i + 1);
        assert(b.skip(i) =~= seq![b[i]] + b.skip(i + 1));
    } else {
        assert(b.skip(i) =~= Seq::<u8>::empty());
    }
}

/// Stripping comments leaves no `/*` and no `--` in the bytes, so stripping
/// again changes nothing.
pub proof fn law_strip_comments_clean(b: Seq<u8>)
    ensures
        comment_free(strip_comments_from(b, 0)),
        strip_comments_from(strip_comments_from(b, 0), 0) == strip_comments_from(b, 0),
{
    lemma_strip_clean(b, 0);
    let s = strip_comments_from(b, 0);
    lemma_strip_identity(s, 0);
    assert(s.skip(0) =~= s);
}

/// Each byte read as the character with that code.
pub open spec fn bytes_as_chars(b: Seq<u8>) -> Seq<char> {
    Seq::new(b.len(), |i: int| b[i] as char)
}

/// The query with SQL comments removed, read byte by byte from its UTF-8
/// encoding, each kept byte becoming the character with that code.
pub open spec fn strip_comments(query: Seq<char>) -> Seq<char> {
    bytes_as_chars(strip_comments_from(vstd::utf8::encode_utf8(query), 0))
}

/// The text that comment stripping returns holds no `/*` and no `--`.
pub proof fn law_stripped_sql_has_no_comments(query: Seq<char>)
    ensures
        forall|i: int|
            0 <= i < strip_comments(query).len() - 1 ==> !(#[trigger] strip_comments(query)[i] == '/'
                && strip_comments(query)[i + 1] == '*') && !(strip_comments(query)[i] == '-' && strip_comments(
                query,
            )[i + 1] == '-'),
{
    let b = strip_comments_from(vstd::utf8::encode_utf8(query), 0);
    law_strip_comments_clean(vstd::utf8::encode_utf8(query));
    let r = strip_comments(query);
    assert forall|i: int| 0 <= i < r.len() - 1 implies !(#[trigger] r[i] == '/' && r[i + 1] == '*') && !(r[i] == '-'
        && r[i + 1] == '-') by {
        assert(r[i] == b[i] as char && r[i + 1] == b[i + 1] as char);
        assert(!(b[i] == 0x2f && b[i + 1] == 0x2a) && !(b[i] == 0x2d && b[i + 1] == 0x2d));
    }
}

/// No character is below NUL.
proof fn lemma_char_at_least_nul(c: char)
    ensures
        '\0' <= c,
{
    assert((c as u32) >= 0);
    assert('\0' as u32 == 0u32);
}

/// Stripping keeps every byte below 0x80 when the input has only such bytes.
proof fn lemma_strip_ascii(b: Seq<u8>, i: int)
    requires
        i >= 0,
        forall|j: int| 0 <= j < b.len() ==> #[trigger] b[j] < 0x80,
    ensures
        forall|j: int|
            0 <= j < strip_comments_from(b, i).len() ==> #[trigger] strip_comments_from(b, i)[j] < 0x80,
    decreases b.len() - i,
{
    if i < b.len() {
        if i + 1 < b.len() && b[i] == 0x2f && b[i + 1] == 0x2a {
            lemma_block_end_bounds(b, i + 2);
            lemma_strip_ascii(b, block_end(b, i + 2));
            let rest = strip_comments_from(b, block_end(b, i + 2));
            let r = seq![0x20u8] + rest;
            assert(strip_comments_from(b, i) == r);
            assert forall|j: int| 0 <= j < r.len() implies #[trigger] r[j] < 0x80 by {
                if j > 0 {
                    assert(r[j] == rest[j - 1]);
                }
            }
        } else if i + 1 < b.len() && b[i] == 0x2d && b[i + 1] == 0x2d {
            lemma_line_end_bounds(b, i + 2);
            lemma_strip_ascii(b, line_end(b, i + 2));
            assert(strip_comments_from(b, i) == strip_comments_from(b, line_end(b, i + 2)));
        } else {
            lemma_strip_ascii(b, i + 1);
            let rest = strip_comments_from(b, i + 1);
            let r = seq![b[i]] + rest;
            assert(strip_comments_from(b, i) == r);
            assert forall|j: int| 0 <= j < r.len() implies #[trigger] r[j] < 0x80 by {
                if j > 0 {
                    assert(r[j] == rest[j - 1]);
                }
            }
        }
    }
}

/// Stripping the comments of an ASCII query twice gives what stripping them
/// once gives.
pub proof fn law_strip_sql_comments_idempotent(query: Seq<char>)
    requires
        text::all_ascii(query),
    ensures
        strip_comments(strip_comments(query)) == strip_comments(query),
{
    let e = vstd::utf8::encode_utf8(query);
    assert(vstd::utf8::is_ascii_chars(query)) by {
        assert forall|j: int| 0 <= j < query.len() implies '\0' <= #[trigger] query[j] <= '\u{7f}' by {
            assert(text::is_ascii_char(query[j]));
            lemma_char_at_least_nul(query[j]);
        }
    }
    vstd::utf8::is_ascii_chars_encode_utf8(query);
    assert forall|j: int| 0 <= j < e.len() implies #[trigger] e[j] < 0x80 by {
        assert(text::is_ascii_char(query[j]));
        assert(query[j] as u8 == e[j]);
    }
    let b = strip_comments_from(e, 0);
    lemma_strip_ascii(e, 0);
    let r = bytes_as_chars(b);
    assert(vstd::utf8::is_ascii_chars(r)) by {
        assert forall|j: int| 0 <= j < r.len() implies '\0' <= #[trigger] r[j] <= '\u{7f}' by {
            assert(b[j] < 0x80);
            assert(r[j] == b[j] as char);
            lemma_char_at_least_nul(r[j]);
        }
    }
    vstd::utf8::is_ascii_chars_encode_utf8(r);
    let e2 = vstd::utf8::encode_utf8(r);
    assert forall|j: int| 0 <= j < e2.len() implies #[trigger] e2[j] == b[j] by {
        assert(r[j] as u8 == e2[j]);
        assert(r[j] == b[j] as char);
    }
    assert(e2 =~= b);
    law_strip_comments_clean(e);
}

/// Removes `/* ... */` (replaced by a space) and `-- ...` comments from SQL.
pub fn strip_sql_comments(query: &str) -> (r: String)
    ensures
        r@ == strip_comments(query@),
{
    let bytes = query.as_bytes();
    let ghost b = bytes@;
    let len = bytes.len();
    let mut out: Vec<u8> = Vec::new();
    let mut i: usize = 0;
    while i < len
        invariant
            b == bytes@,
            len == b.len(),
            i <= len,
            out@ + strip_comments_from(b, i as int) == strip_comments_from(b, 0),
        decreases len - i,
    {
        if len - i > 1 && bytes[i] == 0x2f && bytes[i + 1] == 0x2a {
            let ghost start = i + 2;
            i += 2;
            while len - i > 1 && !(bytes[i] == 0x2a && bytes[i + 1] == 0x2f)
                invariant
                    b == bytes@,
                    len == b.len(),
                    start <= i <= len,
                    block_end(b, start as int) == block_end(b, i as int),
                decreases len - i,
            {
                i += 1;
            }
            if len - i > 1 {
                i += 2;
            } else {
                i = len;
            }
            let ghost before = out@;
            out.push(0x20u8);
            assert(out@ + strip_comments_from(b, i as int) =~= before + (seq![0x20u8]
                + strip_comments_from(b, i as int)));
        } else if len - i > 1 && bytes[i] == 0x2d && bytes[i + 1] == 0x2d {
            let ghost start = i + 2;
            i += 2;
            while i < len && bytes[i] != 0x0a
                invariant
                    b == bytes@,
                    len == b.len(),
                    start <= i <= len,
                    line_end(b, start as int) == line_end(b, i as int),
                decreases len - i,
            {
                i += 1;
            }
        } else {
            let ghost before = out@;
            out.push(bytes[i]);
            assert(out@ + strip_comments_from(b, i + 1) =~= before + (seq![b[i as int]]
                + strip_comments_from(b, i + 1)));
            i += 1;
        }
    }
    assert(out@ =~= strip_comments_from(b, 0));
    let mut r = String::new();
    let mut j: usize = 0;
    while j < out.len()
        invariant
            j <= out.len(),
            r@ == bytes_as_chars(out@.take(j as int)),
        decreases out.len() - j,
    {
        text::push_char(&mut r, out[j] as char);
        assert(bytes_as_chars(out@.take(j + 1)) =~= bytes_as_chars(out@.take(j as int)).push(
            out@[j as int] as char,
        ));
        j += 1;
    }
    assert(out@.take(out.len() as int) =~= out@);
    r
}

/// The text with the contents of single-quoted literals replaced by
/// spaces, and whether a literal is still open at its end.
pub open spec fn strip_literals_fold(s: Seq<char>) -> (Seq<char>, bool)
    decreases s.len(),
{
    if s.len() == 0 {
        (Seq::empty(), false)
    } else {
        let (r, in_string) = strip_literals_fold(s.drop_last());
        let c = s.last();
        if c == '\'' {
            (r.push(c), !in_string)
        } else if in_string {
            (r.push(' '), in_string)
        } else {
            (r.push(c), in_string)
        }
    }
}

/// The text with the contents of single-quoted literals blanked.
pub open spec fn strip_literals(s: Seq<char>) -> Seq<char> {
    strip_literals_fold(s).0
}

/// Replaces the contents of single-quoted SQL literals by spaces.
pub fn strip_sql_string_literals(sql: &str) -> (r: String)
    ensures
        r@ == strip_literals(sql@),
{
    let cs = chars_of(sql);
    let mut r = String::new();
    let mut in_string = false;
    let mut i: usize = 0;
    while i < cs.len()
        invariant
            i <= cs.len(),
            cs@ == sql@,
            strip_literals_fold(cs@.take(i as int)) == (r@, in_string),
        decreases cs.len() - i,
    {
        assert(cs@.take(i + 1).drop_last() =~= cs@.take(i as int));
        let c = cs[i];
        if c == '\'' {
            in_string = !in_string;
            text::push_char(&mut r, c);
        } else if in_string {
            text::push_char(&mut r, ' ');
        } else {
            text::push_char(&mut r, c);
        }
        i += 1;
    }
    assert(cs@.take(cs.len() as int) =~= cs@);
    r
}

/// The logging type suggested for a lowercased invalid value.
pub open spec fn similar_logging(lower: Seq<char>) -> Seq<char> {
    if text::contains(lower, "diff"@) {
        if text::contains(lower, "ignore"@) {
            "differential_ignore_removals"@
        } else {
            "differential"@
        }
    } else {
        "snapshot"@
    }
}

/// The logging type suggested for an already lowercased value.
pub fn similar_logging_lower(lower: &str) -> (r: String)
    ensures
        r@ == similar_logging(lower@),
{
    let l = chars_of(lower);
    if text::contains_str(&l, "diff") {
        if text::contains_str(&l, "ignore") {
            return "differential_ignore_removals".to_string();
        }
        return "differential".to_string();
    }
    "snapshot".to_string()
}

/// The valid logging type most like `input`.
pub fn find_similar_logging(input: &str) -> (r: String)
    ensures
        r@ == similar_logging(text::unicode_lower(input@)),
{
    let lower = text::to_lowercase(input);
    similar_logging_lower(lower.as_str())
}

/// The valid platforms, in order.
pub open spec fn platform_names() -> Seq<Seq<char>> {
    seq!["darwin"@, "windows"@, "linux"@, "chrome"@, "ios"@, "ipados"@, "android"@]
}

/// The first valid platform that is a prefix of the input or that the
/// input is a prefix of, from index `i` on.
pub open spec fn platform_prefix_match(lower: Seq<char>, i: int) -> Option<Seq<char>>
    decreases 7 - i,
{
    if i >= 7 || i < 0 {
        None
    } else {
        let p = platform_names()[i];
        if text::starts_with(p, lower) || text::starts_with(lower, p) {
            Some(p)
        } else {
            platform_prefix_match(lower, i + 1)
        }
    }
}

/// The platform suggested for a lowercased invalid platform: a prefix
/// match, then common aliases, else `darwin`.
pub open spec fn similar_platform(lower: Seq<char>) -> Seq<char> {
    match platform_prefix_match(lower, 0) {
        Some(p) => p,
        None => if lower == "macos"@ || lower == "mac"@ || lower == "osx"@ || lower == "apple"@ {
            "darwin"@
        } else if lower == "win"@ || lower == "win32"@ || lower == "win64"@ {
            "windows"@
        } else if lower == "ubuntu"@ || lower == "debian"@ || lower == "centos"@ || lower
            == "redhat"@ || lower == "fedora"@ {
            "linux"@
        } else if lower == "chromeos"@ || lower == "chromebook"@ {
            "chrome"@
        } else if lower == "iphone"@ {
            "ios"@
        } else if lower == "ipad"@ {
            "ipados"@
        } else {
            "darwin"@
        },
    }
}

/// One of the valid platforms, by index.
fn platform_at(i: usize) -> (r: &'static str)
    requires
        i < 7,
    ensures
        r@ == platform_names()[i as int],
{
    if i == 0 {
        "darwin"
    } else if i == 1 {
        "windows"
    } else if i == 2 {
        "linux"
    } else if i == 3 {
        "chrome"
    } else if i == 4 {
        "ios"
    } else if i == 5 {
        "ipados"
    } else {
        "android"
    }
}

/// The platform suggested for an already lowercased value.
pub fn similar_platform_lower(lower: &str) -> (r: String)
    ensures
        r@ == similar_platform(lower@),
{
    let l = chars_of(lower);
    let mut i: usize = 0;
    while i < 7
        invariant
            i <= 7,
            l@ == lower@,
            platform_prefix_match(lower@, 0) == platform_prefix_match(lower@, i as int),
        decreases 7 - i,
    {
        let p = platform_at(i);
        let pc = chars_of(p);
        if text::starts_with_exec(&pc, &l) || text::starts_with_exec(&l, &pc) {
            return p.to_string();
        }
        i += 1;
    }
    let r = if text::eq_str(&l, "macos") || text::eq_str(&l, "mac") || text::eq_str(&l, "osx")
        || text::eq_str(&l, "apple") {
        "darwin"
    } else if text::eq_str(&l, "win") || text::eq_str(&l, "win32") || text::eq_str(&l, "win64") {
        "windows"
    } else if text::eq_str(&l, "ubuntu") || text::eq_str(&l, "debian") || text::eq_str(&l, "centos")
        || text::eq_str(&l, "redhat") || text::eq_str(&l, "fedora") {
        "linux"
    } else if text::eq_str(&l, "chromeos") || text::eq_str(&l, "chromebook") {
        "chrome"
    } else if text::eq_str(&l, "iphone") {
        "ios"
    } else if text::eq_str(&l, "ipad") {
        "ipados"
    } else {
        "darwin"
    };
    r.to_string()
}

/// The valid platform most like `input`.
pub fn find_similar_platform(input: &str) -> (r: String)
    ensures
        r@ == similar_platform(text::unicode_lower(input@)),
{
    let lower = text::to_lowercase(input);
    similar_platform_lower(lower.as_str())
}

// ============================================================================
// Query syntax checks
// ============================================================================

/// Whether the query matches `(?i)SELECT\s+\*\s+FROM` in the `regex` crate.
pub uninterp spec fn select_star_match(query: Seq<char>) -> bool;

/// The first capture of every match of `\bfrom\s+(\w+)` in the `regex`
/// crate, in order.
pub uninterp spec fn from_clause_tables(query: Seq<char>) -> Seq<Seq<char>>;

/// `regex::Regex::is_match` for `(?i)SELECT\s+\*\s+FROM`; the result is
/// that of the named pattern on this text.
#[verifier::external_body]
fn has_select_star(query: &str) -> (r: bool)
    ensures
        r == select_star_match(query@),
{
    let re = regex::Regex::new(r"(?i)SELECT\s+\*\s+FROM").unwrap();
    re.is_match(query)
}

/// `regex::Regex::captures_iter` for `\bfrom\s+(\w+)`, keeping the first
/// group of each match; the result is the named list of this text.
#[verifier::external_body]
fn from_tables(query: &str) -> (r: Vec<String>)
    ensures
        text::string_views(r@) == from_clause_tables(query@),
{
    let re = regex::Regex::new(r"\bfrom\s+(\w+)").unwrap();
    re.captures_iter(query).map(|c| c[1].to_string()).collect()
}

/// A character that continues an identifier before a keyword.
pub open spec fn is_word_char(c: char) -> bool {
    text::is_ascii_alnum(c) || c == '_'
}

/// Whether `kw` occurs in `q` at the start or after a non-word character.
pub open spec fn has_statement(q: Seq<char>, kw: Seq<char>) -> bool {
    exists|i: int|
        0 <= i && #[trigger] text::matches_at(q, kw, i) && (i == 0 || !is_word_char(q[i - 1]))
}

/// Whether a keyword occurs as a statement.
fn has_statement_exec(q: &[char], kw: &str) -> (r: bool)
    requires
        kw@.len() > 0,
    ensures
        r == has_statement(q@, kw@),
{
    let k = chars_of(kw);
    let mut i: usize = 0;
    while i < q.len()
        invariant
            i <= q.len(),
            k@ == kw@,
            forall|j: int|
                0 <= j < i ==> !(#[trigger] text::matches_at(q@, kw@, j) && (j == 0 || !is_word_char(
                    q@[j - 1],
                ))),
        decreases q.len() - i,
    {
        if text::matches_at_exec(q, &k, i) {
            if i == 0 {
                return true;
            }
            let c = q[i - 1];
            if !((c >= 'a' && c <= 'z') || (c >= 'A' && c <= 'Z') || (c >= '0' && c <= '9') || c
                == '_') {
                return true;
            }
        }
        i += 1;
    }
    proof {
        if has_statement(q@, kw@) {
            let j = choose|j: int|
                0 <= j && #[trigger] text::matches_at(q@, kw@, j) && (j == 0 || !is_word_char(q@[j - 1]));
            if j >= q.len() {
                assert(text::matches_at(q@, kw@, j));
                assert(k@.len() == 0);
            }
        }
    }
    false
}

/// The syntax findings for one query: no `SELECT`, `SELECT *`, unbalanced
/// parentheses, unbalanced quotes (outside comments) and statements other
/// than `SELECT` (outside literals). `stripped` is the query without
/// comments and `upper` its uppercase form.
pub open spec fn syntax_diags(
    query: Seq<char>,
    stripped: Seq<char>,
    upper: Seq<char>,
    select_star: bool,
    item: Seq<char>,
    file: Seq<char>,
) -> Seq<Diag> {
    let opens = text::count_char(query, '(');
    let closes = text::count_char(query, ')');
    let ns = strip_literals(upper);
    (if !text::contains(upper, "SELECT"@) {
        seq![
            diag(Severity::Error, item + " query does not contain SELECT statement"@, file).helped(
                "osquery queries must be SELECT statements"@,
            ),
        ]
    } else {
        Seq::empty()
    }) + (if select_star {
        seq![
            diag(Severity::Info, item + " uses SELECT * which may return unnecessary data"@, file).helped(
                "Consider selecting only the columns you need for better performance"@,
            ),
        ]
    } else {
        Seq::empty()
    }) + (if opens != closes {
        seq![
            diag(
                Severity::Error,
                item + " has unbalanced parentheses ("@ + text::decimal(opens) + " open, "@
                    + text::decimal(closes) + " close)"@,
                file,
            ).helped("Check that all parentheses are properly matched"@),
        ]
    } else {
        Seq::empty()
    }) + (if text::count_char(stripped, '\'') % 2 != 0 {
        seq![
            diag(Severity::Error, item + " has unbalanced single quotes"@, file).helped(
                "Check that all string literals are properly quoted"@,
            ),
        ]
    } else {
        Seq::empty()
    }) + (if has_statement(ns, "DROP "@) || has_statement(ns, "DELETE "@) || has_statement(
        ns,
        "INSERT "@,
    ) || has_statement(ns, "UPDATE "@) {
        seq![
            diag(Severity::Error, item + " contains non-SELECT SQL statement"@, file).helped(
                "osquery only supports SELECT queries"@,
            ),
        ]
    } else {
        Seq::empty()
    })
}

/// The syntax findings for one query, given its comment-free form, that
/// form's uppercase, and whether it matched the `SELECT *` pattern.
pub fn query_syntax_diags(
    query: &str,
    stripped: &str,
    upper: &str,
    select_star: bool,
    item: &[char],
    file: &str,
) -> (r: Vec<LintError>)
    ensures
        diags(r@) == syntax_diags(query@, stripped@, upper@, select_star, item@, file@),
{
    let q = chars_of(query);
    let st = chars_of(stripped);
    let up = chars_of(upper);
    let mut errors: Vec<LintError> = Vec::new();
    let ghost s0 = diags(errors@);
    if !text::contains_str(&up, "SELECT") {
        let m = concat(item, &chars_of(" query does not contain SELECT statement"));
        push_diag(&mut errors, mk(Severity::Error, &m, file).with_help("osquery queries must be SELECT statements"));
    }
    if select_star {
        let m = concat(item, &chars_of(" uses SELECT * which may return unnecessary data"));
        push_diag(
            &mut errors,
            mk(Severity::Info, &m, file).with_help("Consider selecting only the columns you need for better performance"),
        );
    }
    let opens = text::count_char_exec(&q, '(');
    let closes = text::count_char_exec(&q, ')');
    if opens != closes {
        let m = concat(item, &chars_of(" has unbalanced parentheses ("));
        let m = concat(&m, &text::decimal_chars(opens));
        let m = concat(&m, &chars_of(" open, "));
        let m = concat(&m, &text::decimal_chars(closes));
        let m = concat(&m, &chars_of(" close)"));
        push_diag(&mut errors, mk(Severity::Error, &m, file).with_help("Check that all parentheses are properly matched"));
    }
    let quotes = text::count_char_exec(&st, '\'');
    if quotes % 2 != 0 {
        let m = concat(item, &chars_of(" has unbalanced single quotes"));
        push_diag(&mut errors, mk(Severity::Error, &m, file).with_help("Check that all string literals are properly quoted"));
    }
    proof {
        reveal_strlit("DROP ");
        reveal_strlit("DELETE ");
        reveal_strlit("INSERT ");
        reveal_strlit("UPDATE ");
    }
    let ns_s = strip_sql_string_literals(upper);
    let ns = chars_of(ns_s.as_str());
    if has_statement_exec(&ns, "DROP ") || has_statement_exec(&ns, "DELETE ") || has_statement_exec(&ns, "INSERT ")
        || has_statement_exec(&ns, "UPDATE ") {
        let m = concat(item, &chars_of(" contains non-SELECT SQL statement"));
        push_diag(&mut errors, mk(Severity::Error, &m, file).with_help("osquery only supports SELECT queries"));
    }
    assert(diags(errors@) =~= s0 + syntax_diags(query@, stripped@, upper@, select_star, item@, file@));
    errors
}

/// The syntax findings for one query.
pub fn check_query_syntax(query: &str, item: &[char], file: &str) -> (r: Vec<LintError>)
    ensures
        diags(r@) == syntax_diags(
            query@,
            strip_comments(query@),
            text::unicode_upper(strip_comments(query@)),
            select_star_match(query@),
            item@,
            file@,
        ),
{
    let stripped = strip_sql_comments(query);
    let upper = text::to_uppercase(stripped.as_str());
    let star = has_select_star(query);
    query_syntax_diags(query, stripped.as_str(), upper.as_str(), star, item, file)
}

// ============================================================================
// platform-compatibility
// ============================================================================

/// Checks that the osquery tables a query reads exist on its platform.
pub struct PlatformCompatibilityRule;

/// The parts joined with `sep` between them.
pub open spec fn join_with(parts: Seq<Seq<char>>, sep: Seq<char>) -> Seq<char>
    decreases parts.len(),
{
    if parts.len() == 0 {
        Seq::empty()
    } else if parts.len() == 1 {
        parts[0]
    } else {
        join_with(parts.drop_last(), sep) + sep + parts.last()
    }
}

/// The platforms a `platform:` value names: its `,`-separated parts,
/// each trimmed of whitespace.
pub open spec fn listed_platforms(platform: Seq<char>) -> Seq<Seq<char>> {
    let parts = text::split(platform, ',');
    Seq::new(parts.len(), |i: int| text::trim(parts[i]))
}

/// Some platform that the value names is one of the table's platforms.
pub open spec fn some_listed_supported(table_platforms: Seq<Seq<char>>, platform: Seq<char>) -> bool {
    exists|k: int|
        0 <= k < listed_platforms(platform).len() && table_platforms.contains(
            #[trigger] listed_platforms(platform)[k],
        )
}

/// The error for a table that is known but available on none of the
/// platforms that `platform` names.
pub open spec fn table_compat_diag(t: Seq<char>, platform: Seq<char>, item: Seq<char>, file: Seq<char>) -> Seq<Diag> {
    match osquery::table_entry(osquery::osquery_entries(), t) {
        Some(e) => if !some_listed_supported(e.1, platform) {
            seq![
                diag(
                    Severity::Error,
                    item + " uses table '"@ + t + "' which is not available on platform '"@ + platform
                        + "'"@,
                    file,
                ).helped("Table '"@ + t + "' is only available on: "@ + join_with(e.1, ", "@)),
            ]
        } else {
            Seq::empty()
        },
        None => Seq::empty(),
    }
}

/// The platform errors for the tables a query reads, in order.
pub open spec fn compat_diags(tables: Seq<Seq<char>>, platform: Seq<char>, item: Seq<char>, file: Seq<char>) -> Seq<
    Diag,
>
    decreases tables.len(),
{
    if tables.len() == 0 {
        Seq::empty()
    } else {
        compat_diags(tables.drop_last(), platform, item, file) + table_compat_diag(
            tables.last(),
            platform,
            item,
            file,
        )
    }
}

/// A query that reads only cross-platform tables (`users`, `processes`,
/// `system_info`, `os_version`, `disk_encryption`) gets no platform error
/// when its `platform:` value names darwin, linux or windows.
pub proof fn law_cross_platform_queries_compatible(
    tables: Seq<Seq<char>>,
    platform: Seq<char>,
    item: Seq<char>,
    file: Seq<char>,
)
    requires
        forall|i: int|
            0 <= i < tables.len() ==> (#[trigger] tables[i] == "users"@ || tables[i] == "processes"@ || tables[i]
                == "system_info"@ || tables[i] == "os_version"@ || tables[i] == "disk_encryption"@),
        exists|k: int|
            0 <= k < listed_platforms(platform).len() && osquery::all_desktop_platforms().contains(
                #[trigger] listed_platforms(platform)[k],
            ),
    ensures
        compat_diags(tables, platform, item, file) == Seq::<Diag>::empty(),
    decreases tables.len(),
{
    if tables.len() > 0 {
        let rest = tables.drop_last();
        assert forall|i: int| 0 <= i < rest.len() implies (#[trigger] rest[i] == "users"@ || rest[i]
            == "processes"@ || rest[i] == "system_info"@ || rest[i] == "os_version"@ || rest[i]
            == "disk_encryption"@) by {
            assert(rest[i] == tables[i]);
        }
        law_cross_platform_queries_compatible(rest, platform, item, file);
        let t = tables.last();
        assert(t == tables[tables.len() - 1]);
        osquery::law_cross_platform_tables(t);
        let e = osquery::table_entry(osquery::osquery_entries(), t)->0;
        let k = choose|k: int|
            0 <= k < listed_platforms(platform).len() && osquery::all_desktop_platforms().contains(
                #[trigger] listed_platforms(platform)[k],
            );
        assert(e.1 == osquery::all_desktop_platforms());
        assert(e.1.contains(listed_platforms(platform)[k]));
        assert(some_listed_supported(e.1, platform));
        assert(table_compat_diag(t, platform, item, file) == Seq::<Diag>::empty());
        assert(compat_diags(tables, platform, item, file) =~= Seq::<Diag>::empty());
    }
}

/// A query on a macOS-only table (`alf`, `filevault_status`, `gatekeeper`)
/// whose `platform:` value does not name darwin gets exactly one error,
/// naming the item, the table and the platform.
pub proof fn law_macos_only_table_flagged(t: Seq<char>, platform: Seq<char>, item: Seq<char>, file: Seq<char>)
    requires
        t == "alf"@ || t == "filevault_status"@ || t == "gatekeeper"@,
        forall|k: int| 0 <= k < listed_platforms(platform).len() ==> #[trigger] listed_platforms(platform)[k] != "darwin"@,
    ensures
        compat_diags(seq![t], platform, item, file).len() == 1,
        compat_diags(seq![t], platform, item, file)[0].message == item + " uses table '"@ + t
            + "' which is not available on platform '"@ + platform + "'"@,
        compat_diags(seq![t], platform, item, file)[0].severity == Severity::Error,
{
    osquery::law_macos_only_tables(t);
    let e = osquery::table_entry(osquery::osquery_entries(), t)->0;
    assert(e.1 == seq!["darwin"@]);
    if some_listed_supported(e.1, platform) {
        let k = choose|k: int|
            0 <= k < listed_platforms(platform).len() && e.1.contains(#[trigger] listed_platforms(platform)[k]);
        let m = choose|m: int| 0 <= m < e.1.len() && e.1[m] == listed_platforms(platform)[k];
        assert(e.1[m] == "darwin"@);
    }
    let ts = seq![t];
    assert(ts.drop_last() =~= Seq::<Seq<char>>::empty());
    assert(ts.last() == t);
    assert(compat_diags(Seq::<Seq<char>>::empty(), platform, item, file) == Seq::<Diag>::empty());
    assert(compat_diags(ts, platform, item, file) == compat_diags(ts.drop_last(), platform, item, file)
        + table_compat_diag(t, platform, item, file));
    assert(compat_diags(ts, platform, item, file) =~= table_compat_diag(t, platform, item, file));
}

/// The parts joined with `", "`.
pub fn join_comma(parts: &Vec<&'static str>) -> (r: Vec<char>)
    ensures
        r@ == join_with(strs(parts@), ", "@),
{
    let ghost ps = strs(parts@);
    let mut r: Vec<char> = Vec::new();
    let mut i: usize = 0;
    while i < parts.len()
        invariant
            i <= parts.len(),
            ps == strs(parts@),
            r@ == join_with(ps.take(i as int), ", "@),
        decreases parts.len() - i,
    {
        assert(ps.take(i + 1).drop_last() =~= ps.take(i as int));
        if i == 0 {
            r = chars_of(parts[i]);
            assert(ps.take(1)[0] == ps[0]);
        } else {
            r = concat(&r, &chars_of(", "));
            r = concat(&r, &chars_of(parts[i]));
        }
        i += 1;
    }
    assert(ps.take(parts.len() as int) =~= ps);
    r
}

/// Whether the text is one of the names.
fn lists_chars(v: &Vec<&'static str>, p: &Vec<char>) -> (r: bool)
    ensures
        r == strs(v@).contains(p@),
{
    let mut j: usize = 0;
    while j < v.len()
        invariant
            j <= v.len(),
            forall|k: int| 0 <= k < j ==> strs(v@)[k] != p@,
        decreases v.len() - j,
    {
        if text::eq_str(p, v[j]) {
            assert(strs(v@)[j as int] == p@);
            return true;
        }
        j += 1;
    }
    false
}

/// Whether a table with these platforms is available on some platform
/// that `platform` names.
fn table_supports(platforms: &Vec<&'static str>, platform: &str) -> (r: bool)
    ensures
        r == some_listed_supported(strs(platforms@), platform@),
{
    let parts = text::split_char(&chars_of(platform), ',');
    let ghost lp = listed_platforms(platform@);
    let mut k: usize = 0;
    while k < parts.len()
        invariant
            k <= parts.len(),
            text::vviews(parts@) == text::split(platform@, ','),
            lp == listed_platforms(platform@),
            lp.len() == parts.len(),
            forall|i: int| 0 <= i < k ==> !strs(platforms@).contains(#[trigger] lp[i]),
        decreases parts.len() - k,
    {
        let t = text::trim_vec(&parts[k]);
        assert(text::vviews(parts@)[k as int] == parts@[k as int]@);
        assert(lp[k as int] == t@);
        if lists_chars(platforms, &t) {
            return true;
        }
        k += 1;
    }
    false
}

/// The platform errors for the tables a query reads, given those tables.
pub fn platform_compat_diags(tables: &[String], platform: &str, item: &[char], file: &str) -> (r: Vec<
    LintError,
>)
    ensures
        diags(r@) == compat_diags(string_views(tables@), platform@, item@, file@),
{
    let matrix = osquery::osquery_tables();
    let ghost tv = string_views(tables@);
    let mut errors: Vec<LintError> = Vec::new();
    let mut i: usize = 0;
    while i < tables.len()
        invariant
            i <= tables.len(),
            tv == string_views(tables@),
            osquery::table_views(matrix@) == osquery::osquery_entries(),
            diags(errors@) == compat_diags(tv.take(i as int), platform@, item@, file@),
        decreases tables.len() - i,
    {
        assert(tv.take(i + 1).drop_last() =~= tv.take(i as int));
        assert(tv.take(i + 1).last() == tables@[i as int]@);
        let t = tables[i].as_str();
        let ghost before = diags(errors@);
        match osquery::find_table(&matrix, t) {
            Some(info) => {
                let found = table_supports(&info.platforms, platform);
                if !found {
                    let m = join5("", &concat(item, &chars_of(" uses table '")), "", &chars_of(t), "");
                    let m = concat(&m, &chars_of("' which is not available on platform '"));
                    let m = concat(&m, &chars_of(platform));
                    let m = concat(&m, &chars_of("'"));
                    let h = join3("Table '", &chars_of(t), "' is only available on: ");
                    let h = concat(&h, &join_comma(&info.platforms));
                    let hs = s_of(&h);
                    push_diag(&mut errors, mk(Severity::Error, &m, file).with_help(hs.as_str()));
                }
            },
            None => {},
        }
        proof {
            reveal_strlit("");
        }
        assert(diags(errors@) =~= before + table_compat_diag(tv[i as int], platform@, item@, file@));
        i += 1;
    }
    assert(tv.take(tables.len() as int) =~= tv);
    errors
}

/// The platform errors for a query on `platform`.
pub fn check_query_platform_compat(query: &str, platform: &str, item: &[char], file: &str) -> (r: Vec<
    LintError,
>)
    ensures
        diags(r@) == compat_diags(from_clause_tables(text::unicode_lower(query@)), platform@, item@, file@),
{
    let lower = text::to_lowercase(query);
    let tables = from_tables(lower.as_str());
    platform_compat_diags(&tables, platform, item, file)
}

/// Platform errors of the inline policies that name a platform and a query.
pub open spec fn policies_compat(ps: Seq<PolicyOrPath>, file: Seq<char>) -> Seq<Diag>
    decreases ps.len(),
{
    if ps.len() == 0 {
        Seq::empty()
    } else {
        policies_compat(ps.drop_last(), file) + match ps.last() {
            PolicyOrPath::Policy(p) => match (p.platform, p.query) {
                (Some(pl), Some(q)) => compat_diags(
                    from_clause_tables(text::unicode_lower(q@)),
                    pl@,
                    "Policy '"@ + or_unnamed(p.name) + "'"@,
                    file,
                ),
                _ => Seq::empty(),
            },
            _ => Seq::empty(),
        }
    }
}

/// Platform errors of the inline queries that name a platform and SQL.
pub open spec fn queries_compat(qs: Seq<QueryOrPath>, file: Seq<char>) -> Seq<Diag>
    decreases qs.len(),
{
    if qs.len() == 0 {
        Seq::empty()
    } else {
        queries_compat(qs.drop_last(), file) + match qs.last() {
            QueryOrPath::Query(q) => match (q.platform, q.query) {
                (Some(pl), Some(sql)) => compat_diags(
                    from_clause_tables(text::unicode_lower(sql@)),
                    pl@,
                    "Query '"@ + or_unnamed(q.name) + "'"@,
                    file,
                ),
                _ => Seq::empty(),
            },
            _ => Seq::empty(),
        }
    }
}

/// Every platform-compatibility error of a configuration.
pub open spec fn platform_compat_all(c: FleetConfig, file: Seq<char>) -> Seq<Diag> {
    (match c.policies {
        Some(v) => policies_compat(v@, file),
        None => Seq::empty(),
    }) + (match c.queries {
        Some(v) => queries_compat(v@, file),
        None => Seq::empty(),
    })
}

impl Rule for PlatformCompatibilityRule {
    fn name(&self) -> (r: &'static str)
        ensures
            r@ == "platform-compatibility"@,
    {
        "platform-compatibility"
    }

    fn description(&self) -> (r: &'static str)
        ensures
            r@ == "Validates osquery tables are compatible with specified platforms"@,
    {
        "Validates osquery tables are compatible with specified platforms"
    }

    fn category(&self) -> (r: &'static str)
        ensures
            r@ == "semantic"@,
    {
        "semantic"
    }

    fn docs_url(&self) -> (r: Option<&'static str>)
        ensures
            r matches Some(u) && u@ == "https://fleetdm.com/docs/configuration/yaml-files#policies"@,
    {
        Some("https://fleetdm.com/docs/configuration/yaml-files#policies")
    }

    open spec fn check_defined(&self, file: Seq<char>, source: Seq<char>) -> bool {
        true
    }

    fn check(&self, config: &FleetConfig, file: &str, source: &str) -> (r: Vec<LintError>)
        ensures
            diags(r@) == platform_compat_all(*config, file@),
    {
        let mut errors: Vec<LintError> = Vec::new();
        let ghost s0 = diags(errors@);
        match &config.policies {
            Some(ps) => {
                let mut i: usize = 0;
                while i < ps.len()
                    invariant
                        i <= ps.len(),
                        diags(errors@) == s0 + policies_compat(ps@.take(i as int), file@),
                    decreases ps.len() - i,
                {
                    assert(ps@.take(i + 1).drop_last() =~= ps@.take(i as int));
                    let ghost before = diags(errors@);
                    match &ps[i] {
                        PolicyOrPath::Policy(p) => match (&p.platform, &p.query) {
                            (Some(pl), Some(q)) => {
                                let item = join3("Policy '", &or_unnamed_exec(&p.name), "'");
                                let more = check_query_platform_compat(q.as_str(), pl.as_str(), &item, file);
                                extend_diags(&mut errors, more);
                            },
                            _ => {},
                        },
                        _ => {},
                    }
                    assert(diags(errors@) =~= s0 + policies_compat(ps@.take(i + 1), file@));
                    i += 1;
                }
                assert(ps@.take(ps.len() as int) =~= ps@);
            },
            None => {},
        }
        let ghost s1 = diags(errors@);
        match &config.queries {
            Some(qs) => {
                let mut i: usize = 0;
                while i < qs.len()
                    invariant
                        i <= qs.len(),
                        diags(errors@) == s1 + queries_compat(qs@.take(i as int), file@),
                    decreases qs.len() - i,
                {
                    assert(qs@.take(i + 1).drop_last() =~= qs@.take(i as int));
                    match &qs[i] {
                        QueryOrPath::Query(q) => match (&q.platform, &q.query) {
                            (Some(pl), Some(sql)) => {
                                let item = join3("Query '", &or_unnamed_exec(&q.name), "'");
                                let more = check_query_platform_compat(sql.as_str(), pl.as_str(), &item, file);
                                extend_diags(&mut errors, more);
                            },
                            _ => {},
                        },
                        _ => {},
                    }
                    assert(diags(errors@) =~= s1 + queries_compat(qs@.take(i + 1), file@));
                    i += 1;
                }
                assert(qs@.take(qs.len() as int) =~= qs@);
            },
            None => {},
        }
        assert(diags(errors@) =~= platform_compat_all(*config, file@));
        errors
    }
}

// ============================================================================
// type-validation
// ============================================================================

/// Checks platform and logging values and query intervals.
pub struct TypeValidationRule;

/// The text with every leading `- ` list marker removed.
pub open spec fn strip_list_markers(s: Seq<char>) -> Seq<char>
    decreases s.len(),
{
    if s.len() >= 2 && s[0] == '-' && s[1] == ' ' {
        strip_list_markers(s.skip(2))
    } else {
        s
    }
}

/// The 1-based number of the first line at index `i` or later whose
/// content, after indentation and list markers, starts with `key:`.
pub open spec fn key_line_from(ls: Seq<Seq<char>>, key: Seq<char>, i: int) -> Option<nat>
    decreases ls.len() - i,
{
    if i < 0 || i >= ls.len() {
        None
    } else if text::starts_with(strip_list_markers(text::trim_start(ls[i])), key + ":"@) {
        Some((i + 1) as nat)
    } else {
        key_line_from(ls, key, i + 1)
    }
}

/// The line of the first `key:` entry at line index `from` or later.
pub fn find_key_line(source: &str, key: &str, from: usize) -> (r: Option<usize>)
    ensures
        match r {
            Some(n) => key_line_from(lines(source@), key@, from as int) == Some(n as nat),
            None => key_line_from(lines(source@), key@, from as int).is_none(),
        },
{
    let src = chars_of(source);
    let ls = text::split_lines(&src);
    let ghost lv = vviews(ls@);
    let pat = concat(&chars_of(key), &chars_of(":"));
    let mut i: usize = from;
    while i < ls.len()
        invariant
            from <= i,
            lv == vviews(ls@),
            lv == lines(source@),
            pat@ == key@ + ":"@,
            key_line_from(lv, key@, from as int) == key_line_from(lv, key@, i as int),
        decreases ls.len() - i,
    {
        let mut t = text::trim_start_vec(&ls[i]);
        assert(t@ == text::trim_start(lv[i as int]));
        while t.len() >= 2 && t[0] == '-' && t[1] == ' '
            invariant
                strip_list_markers(t@) == strip_list_markers(text::trim_start(lv[i as int])),
            decreases t.len(),
        {
            let ghost old_t = t@;
            t = text::slice_range(&t, 2, t.len());
            assert(t@ =~= old_t.skip(2));
        }
        if text::starts_with_exec(&t, &pat) {
            return Some(i + 1);
        }
        i += 1;
    }
    None
}

/// The valid platform names.
pub open spec fn is_valid_platform(p: Seq<char>) -> bool {
    platform_names().contains(p)
}

/// The valid logging types.
pub open spec fn is_valid_logging(l: Seq<char>) -> bool {
    l == "snapshot"@ || l == "differential"@ || l == "differential_ignore_removals"@
}

/// The error for an invalid policy platform, located at the first
/// `platform:` line of the source when there is one.
pub open spec fn invalid_platform_diag(p: Policy, pl: Seq<char>, source: Seq<char>, file: Seq<char>) -> Diag {
    let d = diag(
        Severity::Error,
        "Policy '"@ + or_unnamed(p.name) + "' has invalid platform '"@ + pl + "'"@,
        file,
    ).helped("Valid platforms: darwin, windows, linux, chrome, ios, ipados, android"@).suggesting(
        similar_platform(text::unicode_lower(pl)),
    ).safety(FixSafety::Safe).in_context(pl);
    match key_line_from(lines(source), "platform"@, 0) {
        Some(n) => d.at(n as usize, 1),
        None => d,
    }
}

/// Type errors of the inline policies.
pub open spec fn policies_types(ps: Seq<PolicyOrPath>, source: Seq<char>, file: Seq<char>) -> Seq<Diag>
    decreases ps.len(),
{
    if ps.len() == 0 {
        Seq::empty()
    } else {
        policies_types(ps.drop_last(), source, file) + match ps.last() {
            PolicyOrPath::Policy(p) => match p.platform {
                Some(pl) => if !is_valid_platform(pl@) {
                    seq![invalid_platform_diag(p, pl@, source, file)]
                } else {
                    Seq::empty()
                },
                None => Seq::empty(),
            },
            _ => Seq::empty(),
        }
    }
}

/// Type errors of one inline query: a non-positive interval, then an
/// invalid logging type.
pub open spec fn query_types(q: Query, file: Seq<char>) -> Seq<Diag> {
    (match q.interval {
        Some(iv) => if iv <= 0 {
            seq![
                diag(
                    Severity::Error,
                    "Query '"@ + or_unnamed(q.name) + "' has invalid interval "@ + text::decimal_int(
                        iv as int,
                    ),
                    file,
                ).helped("Interval must be a positive integer (seconds)"@),
            ]
        } else {
            Seq::empty()
        },
        None => Seq::empty(),
    }) + (match q.logging {
        Some(l) => if !is_valid_logging(l@) {
            seq![
                diag(
                    Severity::Error,
                    "Query '"@ + or_unnamed(q.name) + "' has invalid logging type '"@ + l@ + "'"@,
                    file,
                ).helped(
                    "Valid logging types: snapshot, differential, differential_ignore_removals"@,
                ).suggesting(similar_logging(text::unicode_lower(l@))).safety(FixSafety::Safe),
            ]
        } else {
            Seq::empty()
        },
        None => Seq::empty(),
    })
}

/// A query with no interval error gets a type error for its logging value
/// exactly when that value is not one of the three logging types osquery
/// documents: `snapshot`, `differential` and `differential_ignore_removals`.
pub proof fn law_documented_logging_types(q: Query, file: Seq<char>)
    requires
        q.logging is Some,
        q.interval matches Some(iv) ==> iv > 0,
    ensures
        ({
            let l = q.logging->0@;
            &&& query_types(q, file).len() == 0 <==> (l == "snapshot"@ || l == "differential"@ || l
                == "differential_ignore_removals"@)
            &&& query_types(q, file).len() <= 1
        }),
{
}

/// Type errors of the inline queries.
pub open spec fn queries_types(qs: Seq<QueryOrPath>, file: Seq<char>) -> Seq<Diag>
    decreases qs.len(),
{
    if qs.len() == 0 {
        Seq::empty()
    } else {
        queries_types(qs.drop_last(), file) + match qs.last() {
            QueryOrPath::Query(q) => query_types(q, file),
            _ => Seq::empty(),
        }
    }
}

/// Every type error of a configuration.
pub open spec fn type_validation_diags(c: FleetConfig, source: Seq<char>, file: Seq<char>) -> Seq<Diag> {
    (match c.policies {
        Some(v) => policies_types(v@, source, file),
        None => Seq::empty(),
    }) + (match c.queries {
        Some(v) => queries_types(v@, file),
        None => Seq::empty(),
    })
}

/// Whether a platform is valid.
fn is_valid_platform_exec(p: &str) -> (r: bool)
    ensures
        r == is_valid_platform(p@),
{
    let mut i: usize = 0;
    while i < 7
        invariant
            i <= 7,
            forall|j: int| 0 <= j < i ==> platform_names()[j] != p@,
        decreases 7 - i,
    {
        if text::str_eq(platform_at(i), p) {
            assert(platform_names()[i as int] == p@);
            return true;
        }
        i += 1;
    }
    false
}

impl TypeValidationRule {
    fn policy_errors(p: &Policy, source: &str, file: &str, errors: &mut Vec<LintError>)
        ensures
            diags(final(errors)@) == diags(old(errors)@) + match p.platform {
                Some(pl) => if !is_valid_platform(pl@) {
                    seq![invalid_platform_diag(*p, pl@, source@, file@)]
                } else {
                    Seq::<Diag>::empty()
                },
                None => Seq::<Diag>::empty(),
            },
    {
        let ghost start = diags(errors@);
        match &p.platform {
            Some(pl) => {
                if !is_valid_platform_exec(pl.as_str()) {
                    let m = join5("Policy '", &or_unnamed_exec(&p.name), "' has invalid platform '", &chars_of(pl.as_str()), "'");
                    let sugg = find_similar_platform(pl.as_str());
                    let mut e = mk(Severity::Error, &m, file).with_help(
                        "Valid platforms: darwin, windows, linux, chrome, ios, ipados, android",
                    ).with_suggestion(sugg.as_str()).with_fix_safety(FixSafety::Safe).with_context(pl.as_str());
                    match find_key_line(source, "platform", 0) {
                        Some(line) => {
                            e = e.with_location(line, 1);
                        },
                        None => {},
                    }
                    push_diag(errors, e);
                }
            },
            None => {},
        }
        assert(diags(errors@) =~= start + match p.platform {
            Some(pl) => if !is_valid_platform(pl@) {
                seq![invalid_platform_diag(*p, pl@, source@, file@)]
            } else {
                Seq::<Diag>::empty()
            },
            None => Seq::<Diag>::empty(),
        });
    }

    fn query_errors(q: &Query, file: &str, errors: &mut Vec<LintError>)
        ensures
            diags(final(errors)@) == diags(old(errors)@) + query_types(*q, file@),
    {
        let ghost start = diags(errors@);
        match q.interval {
            Some(iv) => {
                if iv <= 0 {
                    let m = join3("Query '", &or_unnamed_exec(&q.name), "' has invalid interval ");
                    let m = concat(&m, &text::decimal_chars_i64(iv));
                    push_diag(errors, mk(Severity::Error, &m, file).with_help("Interval must be a positive integer (seconds)"));
                }
            },
            None => {},
        }
        match &q.logging {
            Some(l) => {
                let lc = chars_of(l.as_str());
                if !(text::eq_str(&lc, "snapshot") || text::eq_str(&lc, "differential") || text::eq_str(
                    &lc,
                    "differential_ignore_removals",
                )) {
                    let m = join5("Query '", &or_unnamed_exec(&q.name), "' has invalid logging type '", &lc, "'");
                    let sugg = find_similar_logging(l.as_str());
                    push_diag(
                        errors,
                        mk(Severity::Error, &m, file).with_help(
                            "Valid logging types: snapshot, differential, differential_ignore_removals",
                        ).with_suggestion(sugg.as_str()).with_fix_safety(FixSafety::Safe),
                    );
                }
            },
            None => {},
        }
        assert(diags(errors@) =~= start + query_types(*q, file@));
    }
}

impl Rule for TypeValidationRule {
    fn name(&self) -> (r: &'static str)
        ensures
            r@ == "type-validation"@,
    {
        "type-validation"
    }

    fn description(&self) -> (r: &'static str)
        ensures
            r@ == "Validates field types match expected values"@,
    {
        "Validates field types match expected values"
    }

    fn category(&self) -> (r: &'static str)
        ensures
            r@ == "structural"@,
    {
        "structural"
    }

    fn is_fixable(&self) -> (r: bool)
        ensures
            r,
    {
        true
    }

    fn docs_url(&self) -> (r: Option<&'static str>)
        ensures
            r matches Some(u) && u@ == "https://fleetdm.com/docs/configuration/yaml-files#policies"@,
    {
        Some("https://fleetdm.com/docs/configuration/yaml-files#policies")
    }

    open spec fn check_defined(&self, file: Seq<char>, source: Seq<char>) -> bool {
        true
    }

    fn check(&self, config: &FleetConfig, file: &str, source: &str) -> (r: Vec<LintError>)
        ensures
            diags(r@) == type_validation_diags(*config, source@, file@),
    {
        let mut errors: Vec<LintError> = Vec::new();
        let ghost s0 = diags(errors@);
        match &config.policies {
            Some(ps) => {
                let mut i: usize = 0;
                while i < ps.len()
                    invariant
                        i <= ps.len(),
                        diags(errors@) == s0 + policies_types(ps@.take(i as int), source@, file@),
                    decreases ps.len() - i,
                {
                    assert(ps@.take(i + 1).drop_last() =~= ps@.take(i as int));
                    let ghost before = diags(errors@);
                    match &ps[i] {
                        PolicyOrPath::Policy(p) => TypeValidationRule::policy_errors(p, source, file, &mut errors),
                        _ => {},
                    }
                    assert(diags(errors@) =~= s0 + policies_types(ps@.take(i + 1), source@, file@));
                    i += 1;
                }
                assert(ps@.take(ps.len() as int) =~= ps@);
            },
            None => {},
        }
        let ghost s1 = diags(errors@);
        match &config.queries {
            Some(qs) => {
                let mut i: usize = 0;
                while i < qs.len()
                    invariant
                        i <= qs.len(),
                        diags(errors@) == s1 + queries_types(qs@.take(i as int), file@),
                    decreases qs.len() - i,
                {
                    assert(qs@.take(i + 1).drop_last() =~= qs@.take(i as int));
                    match &qs[i] {
                        QueryOrPath::Query(q) => TypeValidationRule::query_errors(q, file, &mut errors),
                        _ => {},
                    }
                    assert(diags(errors@) =~= s1 + queries_types(qs@.take(i + 1), file@));
                    i += 1;
                }
                assert(qs@.take(qs.len() as int) =~= qs@);
            },
            None => {},
        }
        assert(diags(errors@) =~= type_validation_diags(*config, source@, file@));
        errors
    }
}

// ============================================================================
// security
// ============================================================================

/// Flags secrets written into webhook URLs.
pub struct SecurityRule;

/// The security findings of a configuration.
pub open spec fn security_diags(c: FleetConfig, file: Seq<char>) -> Seq<Diag> {
    match c.webhook_settings {
        Some(w) => match w.url {
            Some(u) => if text::contains(u@, "token="@) || text::contains(u@, "api_key="@)
                || text::contains(u@, "secret="@) {
                seq![
                    diag(Severity::Warning, "Webhook URL appears to contain a token or API key"@, file).helped(
                        "Use environment variables for secrets: $WEBHOOK_URL"@,
                    ).suggesting("webhook_settings:\n  url: $WEBHOOK_URL"@),
                ]
            } else {
                Seq::empty()
            },
            None => Seq::empty(),
        },
        None => Seq::empty(),
    }
}

impl Rule for SecurityRule {
    fn name(&self) -> (r: &'static str)
        ensures
            r@ == "security"@,
    {
        "security"
    }

    fn description(&self) -> (r: &'static str)
        ensures
            r@ == "Detects potential security issues like hardcoded secrets"@,
    {
        "Detects potential security issues like hardcoded secrets"
    }

    fn category(&self) -> (r: &'static str)
        ensures
            r@ == "security"@,
    {
        "security"
    }

    fn is_fixable(&self) -> (r: bool)
        ensures
            r,
    {
        true
    }

    fn default_severity(&self) -> (r: Severity)
        ensures
            r == Severity::Warning,
    {
        Severity::Warning
    }

    open spec fn check_defined(&self, file: Seq<char>, source: Seq<char>) -> bool {
        true
    }

    fn check(&self, config: &FleetConfig, file: &str, source: &str) -> (r: Vec<LintError>)
        ensures
            diags(r@) == security_diags(*config, file@),
    {
        let mut errors: Vec<LintError> = Vec::new();
        match &config.webhook_settings {
            Some(w) => match &w.url {
                Some(u) => {
                    let uc = chars_of(u.as_str());
                    if text::contains_str(&uc, "token=") || text::contains_str(&uc, "api_key=")
                        || text::contains_str(&uc, "secret=") {
                        push_diag(
                            &mut errors,
                            LintError::warning("Webhook URL appears to contain a token or API key", file).with_help(
                                "Use environment variables for secrets: $WEBHOOK_URL",
                            ).with_suggestion("webhook_settings:\n  url: $WEBHOOK_URL"),
                        );
                    }
                },
                None => {},
            },
            None => {},
        }
        assert(diags(errors@) =~= security_diags(*config, file@));
        errors
    }
}

// ============================================================================
// interval-validation
// ============================================================================

/// Flags query intervals that are very short or longer than a day.
pub struct IntervalValidationRule;

/// The interval finding of one inline query.
pub open spec fn interval_diag(q: Query, file: Seq<char>) -> Seq<Diag> {
    match q.interval {
        Some(iv) => if iv < 60 {
            seq![
                diag(
                    Severity::Warning,
                    "Query '"@ + or_unnamed(q.name) + "' has very short interval ("@ + text::decimal_int(
                        iv as int,
                    ) + " seconds). This may cause high resource usage."@,
                    file,
                ).helped("Consider using an interval of at least 60 seconds"@).suggesting(
                    "interval: 60"@,
                ),
            ]
        } else if iv > 86400 {
            seq![
                diag(
                    Severity::Info,
                    "Query '"@ + or_unnamed(q.name) + "' has interval > 24 hours ("@ + text::decimal_int(
                        iv as int,
                    ) + " seconds). Events may be missed."@,
                    file,
                ).helped("Consider using a shorter interval for time-sensitive data"@),
            ]
        } else {
            Seq::empty()
        },
        None => Seq::empty(),
    }
}

/// Interval findings of the inline queries.
pub open spec fn queries_intervals(qs: Seq<QueryOrPath>, file: Seq<char>) -> Seq<Diag>
    decreases qs.len(),
{
    if qs.len() == 0 {
        Seq::empty()
    } else {
        queries_intervals(qs.drop_last(), file) + match qs.last() {
            QueryOrPath::Query(q) => interval_diag(q, file),
            _ => Seq::empty(),
        }
    }
}

/// Every interval finding of a configuration.
pub open spec fn interval_diags(c: FleetConfig, file: Seq<char>) -> Seq<Diag> {
    match c.queries {
        Some(v) => queries_intervals(v@, file),
        None => Seq::empty(),
    }
}

impl IntervalValidationRule {
    fn query_finding(q: &Query, file: &str, errors: &mut Vec<LintError>)
        ensures
            diags(final(errors)@) == diags(old(errors)@) + interval_diag(*q, file@),
    {
        let ghost start = diags(errors@);
        match q.interval {
            Some(iv) => {
                let name = or_unnamed_exec(&q.name);
                let num = text::decimal_chars_i64(iv);
                if iv < 60 {
                    let m = join5("Query '", &name, "' has very short interval (", &num, " seconds). This may cause high resource usage.");
                    push_diag(
                        errors,
                        mk(Severity::Warning, &m, file).with_help("Consider using an interval of at least 60 seconds").with_suggestion(
                            "interval: 60",
                        ),
                    );
                } else if iv > 86400 {
                    let m = join5("Query '", &name, "' has interval > 24 hours (", &num, " seconds). Events may be missed.");
                    push_diag(
                        errors,
                        mk(Severity::Info, &m, file).with_help("Consider using a shorter interval for time-sensitive data"),
                    );
                }
            },
            None => {},
        }
        assert(diags(errors@) =~= start + interval_diag(*q, file@));
    }
}

impl Rule for IntervalValidationRule {
    fn name(&self) -> (r: &'static str)
        ensures
            r@ == "interval-validation"@,
    {
        "interval-validation"
    }

    fn description(&self) -> (r: &'static str)
        ensures
            r@ == "Validates query intervals are within sensible ranges"@,
    {
        "Validates query intervals are within sensible ranges"
    }

    fn category(&self) -> (r: &'static str)
        ensures
            r@ == "style"@,
    {
        "style"
    }

    fn is_fixable(&self) -> (r: bool)
        ensures
            r,
    {
        true
    }

    fn default_severity(&self) -> (r: Severity)
        ensures
            r == Severity::Warning,
    {
        Severity::Warning
    }

    fn docs_url(&self) -> (r: Option<&'static str>)
        ensures
            r matches Some(u) && u@ == "https://fleetdm.com/docs/configuration/yaml-files#reports"@,
    {
        Some("https://fleetdm.com/docs/configuration/yaml-files#reports")
    }

    open spec fn check_defined(&self, file: Seq<char>, source: Seq<char>) -> bool {
        true
    }

    fn check(&self, config: &FleetConfig, file: &str, source: &str) -> (r: Vec<LintError>)
        ensures
            diags(r@) == interval_diags(*config, file@),
    {
        let mut errors: Vec<LintError> = Vec::new();
        let ghost s0 = diags(errors@);
        match &config.queries {
            Some(qs) => {
                let mut i: usize = 0;
                while i < qs.len()
                    invariant
                        i <= qs.len(),
                        diags(errors@) == s0 + queries_intervals(qs@.take(i as int), file@),
                    decreases qs.len() - i,
                {
                    assert(qs@.take(i + 1).drop_last() =~= qs@.take(i as int));
                    match &qs[i] {
                        QueryOrPath::Query(q) => IntervalValidationRule::query_finding(q, file, &mut errors),
                        _ => {},
                    }
                    assert(diags(errors@) =~= s0 + queries_intervals(qs@.take(i + 1), file@));
                    i += 1;
                }
                assert(qs@.take(qs.len() as int) =~= qs@);
            },
            None => {},
        }
        assert(diags(errors@) =~= interval_diags(*config, file@));
        errors
    }
}

// ============================================================================
// duplicate-names
// ============================================================================

/// Flags names used twice among policies, queries or labels.
pub struct DuplicateNamesRule;

/// The optional name of each policy entry (none for file references).
pub open spec fn policy_names(ps: Seq<PolicyOrPath>) -> Seq<Option<Seq<char>>> {
    Seq::new(
        ps.len(),
        |i: int|
            match ps[i] {
                PolicyOrPath::Policy(p) => opt_str(p.name),
                _ => None,
            },
    )
}

/// The optional name of each query entry.
pub open spec fn query_names(qs: Seq<QueryOrPath>) -> Seq<Option<Seq<char>>> {
    Seq::new(
        qs.len(),
        |i: int|
            match qs[i] {
                QueryOrPath::Query(q) => opt_str(q.name),
                _ => None,
            },
    )
}

/// The optional name of each label entry.
pub open spec fn label_names(ls: Seq<LabelOrPath>) -> Seq<Option<Seq<char>>> {
    Seq::new(
        ls.len(),
        |i: int|
            match ls[i] {
                LabelOrPath::Label(l) => opt_str(l.name),
                _ => None,
            },
    )
}

/// The view of an optional string.
pub open spec fn opt_str(o: Option<String>) -> Option<Seq<char>> {
    match o {
        Some(s) => Some(s@),
        None => None,
    }
}

/// An error for each name that an earlier entry already used.
pub open spec fn duplicate_name_diags(
    names: Seq<Option<Seq<char>>>,
    kind: Seq<char>,
    noun: Seq<char>,
    file: Seq<char>,
) -> Seq<Diag>
    decreases names.len(),
{
    if names.len() == 0 {
        Seq::empty()
    } else {
        let rest = duplicate_name_diags(names.drop_last(), kind, noun, file);
        match names.last() {
            Some(n) => if names.drop_last().contains(Some(n)) {
                rest.push(
                    diag(Severity::Error, "Duplicate "@ + kind + " name: '"@ + n + "'"@, file).helped(
                        noun + " names must be unique within the organization"@,
                    ),
                )
            } else {
                rest
            },
            None => rest,
        }
    }
}

/// Every duplicate-name error of a configuration.
pub open spec fn duplicate_names_all(c: FleetConfig, file: Seq<char>) -> Seq<Diag> {
    (match c.policies {
        Some(v) => duplicate_name_diags(policy_names(v@), "policy"@, "Policy"@, file),
        None => Seq::empty(),
    }) + (match c.queries {
        Some(v) => duplicate_name_diags(query_names(v@), "query"@, "Query"@, file),
        None => Seq::empty(),
    }) + (match c.labels {
        Some(v) => duplicate_name_diags(label_names(v@), "label"@, "Label"@, file),
        None => Seq::empty(),
    })
}

/// The view of optional character vectors.
pub open spec fn opt_vecs(v: Seq<Option<Vec<char>>>) -> Seq<Option<Seq<char>>> {
    Seq::new(
        v.len(),
        |i: int|
            match v[i] {
                Some(x) => Some(x@),
                None => None,
            },
    )
}

/// The duplicate-name errors for a list of optional names.
fn duplicate_names_exec(names: &Vec<Option<Vec<char>>>, kind: &str, noun: &str, file: &str) -> (r: Vec<
    LintError,
>)
    ensures
        diags(r@) == duplicate_name_diags(opt_vecs(names@), kind@, noun@, file@),
{
    let ghost nv = opt_vecs(names@);
    let mut errors: Vec<LintError> = Vec::new();
    let mut i: usize = 0;
    while i < names.len()
        invariant
            i <= names.len(),
            nv == opt_vecs(names@),
            diags(errors@) == duplicate_name_diags(nv.take(i as int), kind@, noun@, file@),
        decreases names.len() - i,
    {
        assert(nv.take(i + 1).drop_last() =~= nv.take(i as int));
        assert(nv.take(i + 1).last() == nv[i as int]);
        match &names[i] {
            Some(n) => {
                let mut seen = false;
                let mut j: usize = 0;
                while j < i
                    invariant
                        j <= i < names.len(),
                        nv == opt_vecs(names@),
                        names@[i as int] == Some(*n),
                        seen == exists|k: int| 0 <= k < j && nv[k] == Some(n@),
                    decreases i - j,
                {
                    match &names[j] {
                        Some(m) => {
                            if text::eq(m, n) {
                                seen = true;
                            }
                        },
                        None => {},
                    }
                    assert(nv[j as int] == match names@[j as int] {
                        Some(x) => Some(x@),
                        None => None::<Seq<char>>,
                    });
                    j += 1;
                }
                proof {
                    let pre = nv.take(i as int);
                    if seen {
                        let k = choose|k: int| 0 <= k < i && nv[k] == Some(n@);
                        assert(pre[k] == Some(n@));
                    }
                    if pre.contains(Some(n@)) {
                        let k = choose|k: int| 0 <= k < pre.len() && pre[k] == Some(n@);
                        assert(nv[k] == Some(n@));
                    }
                }
                if seen {
                    let m = join5("Duplicate ", &chars_of(kind), " name: '", n, "'");
                    let h = concat(&chars_of(noun), &chars_of(" names must be unique within the organization"));
                    let hs = s_of(&h);
                    push_diag(&mut errors, mk(Severity::Error, &m, file).with_help(hs.as_str()));
                }
            },
            None => {},
        }
        i += 1;
    }
    assert(nv.take(names.len() as int) =~= nv);
    errors
}

/// The optional name as characters.
fn opt_chars(o: &Option<String>) -> (r: Option<Vec<char>>)
    ensures
        match r {
            Some(x) => opt_str(*o) == Some(x@),
            None => opt_str(*o).is_none(),
        },
{
    match o {
        Some(s) => Some(chars_of(s.as_str())),
        None => None,
    }
}

impl Rule for DuplicateNamesRule {
    fn name(&self) -> (r: &'static str)
        ensures
            r@ == "duplicate-names"@,
    {
        "duplicate-names"
    }

    fn description(&self) -> (r: &'static str)
        ensures
            r@ == "Detects duplicate names within policies, queries, or labels"@,
    {
        "Detects duplicate names within policies, queries, or labels"
    }

    fn category(&self) -> (r: &'static str)
        ensures
            r@ == "structural"@,
    {
        "structural"
    }

    open spec fn check_defined(&self, file: Seq<char>, source: Seq<char>) -> bool {
        true
    }

    fn check(&self, config: &FleetConfig, file: &str, source: &str) -> (r: Vec<LintError>)
        ensures
            diags(r@) == duplicate_names_all(*config, file@),
    {
        let mut errors: Vec<LintError> = Vec::new();
        let ghost s0 = diags(errors@);
        match &config.policies {
            Some(ps) => {
                let mut names: Vec<Option<Vec<char>>> = Vec::new();
                let mut i: usize = 0;
                while i < ps.len()
                    invariant
                        i <= ps.len(),
                        names@.len() == i,
                        opt_vecs(names@) == policy_names(ps@).take(i as int),
                    decreases ps.len() - i,
                {
                    let x = match &ps[i] {
                        PolicyOrPath::Policy(p) => opt_chars(&p.name),
                        _ => None,
                    };
                    let ghost before = opt_vecs(names@);
                    let ghost prev = names@;
                    names.push(x);
                    assert forall|j: int| 0 <= j < i implies #[trigger] opt_vecs(names@)[j] == opt_vecs(prev)[j] by {
                        assert(names@[j] == prev[j]);
                    }
                    assert(opt_vecs(names@) =~= policy_names(ps@).take(i + 1));
                    i += 1;
                }
                assert(policy_names(ps@).take(ps.len() as int) =~= policy_names(ps@));
                extend_diags(&mut errors, duplicate_names_exec(&names, "policy", "Policy", file));
            },
            None => {},
        }
        let ghost s1 = diags(errors@);
        match &config.queries {
            Some(qs) => {
                let mut names: Vec<Option<Vec<char>>> = Vec::new();
                let mut i: usize = 0;
                while i < qs.len()
                    invariant
                        i <= qs.len(),
                        names@.len() == i,
                        opt_vecs(names@) == query_names(qs@).take(i as int),
                    decreases qs.len() - i,
                {
                    let x = match &qs[i] {
                        QueryOrPath::Query(q) => opt_chars(&q.name),
                        _ => None,
                    };
                    let ghost prev = names@;
                    names.push(x);
                    assert forall|j: int| 0 <= j < i implies #[trigger] opt_vecs(names@)[j] == opt_vecs(prev)[j] by {
                        assert(names@[j] == prev[j]);
                    }
                    assert(opt_vecs(names@) =~= query_names(qs@).take(i + 1));
                    i += 1;
                }
                assert(query_names(qs@).take(qs.len() as int) =~= query_names(qs@));
                extend_diags(&mut errors, duplicate_names_exec(&names, "query", "Query", file));
            },
            None => {},
        }
        let ghost s2 = diags(errors@);
        match &config.labels {
            Some(ls) => {
                let mut names: Vec<Option<Vec<char>>> = Vec::new();
                let mut i: usize = 0;
                while i < ls.len()
                    invariant
                        i <= ls.len(),
                        names@.len() == i,
                        opt_vecs(names@) == label_names(ls@).take(i as int),
                    decreases ls.len() - i,
                {
                    let x = match &ls[i] {
                        LabelOrPath::Label(l) => opt_chars(&l.name),
                        _ => None,
                    };
                    let ghost prev = names@;
                    names.push(x);
                    assert forall|j: int| 0 <= j < i implies #[trigger] opt_vecs(names@)[j] == opt_vecs(prev)[j] by {
                        assert(names@[j] == prev[j]);
                    }
                    assert(opt_vecs(names@) =~= label_names(ls@).take(i + 1));
                    i += 1;
                }
                assert(label_names(ls@).take(ls.len() as int) =~= label_names(ls@));
                extend_diags(&mut errors, duplicate_names_exec(&names, "label", "Label", file));
            },
            None => {},
        }
        assert(diags(errors@) =~= duplicate_names_all(*config, file@));
        errors
    }
}

// ============================================================================
// query-syntax
// ============================================================================

/// Checks the SQL of policies, queries and labels for common mistakes.
pub struct QuerySyntaxRule;

/// The syntax findings for query text `q` of the item named `item`.
pub open spec fn query_findings(q: Seq<char>, item: Seq<char>, file: Seq<char>) -> Seq<Diag> {
    syntax_diags(
        q,
        strip_comments(q),
        text::unicode_upper(strip_comments(q)),
        select_star_match(q),
        item,
        file,
    )
}

/// Syntax findings of the inline policies with a query.
pub open spec fn policies_syntax(ps: Seq<PolicyOrPath>, file: Seq<char>) -> Seq<Diag>
    decreases ps.len(),
{
    if ps.len() == 0 {
        Seq::empty()
    } else {
        policies_syntax(ps.drop_last(), file) + match ps.last() {
            PolicyOrPath::Policy(p) => match p.query {
                Some(q) => query_findings(q@, "Policy '"@ + or_unnamed(p.name) + "'"@, file),
                None => Seq::empty(),
            },
            _ => Seq::empty(),
        }
    }
}

/// Syntax findings of the inline queries with SQL.
pub open spec fn queries_syntax(qs: Seq<QueryOrPath>, file: Seq<char>) -> Seq<Diag>
    decreases qs.len(),
{
    if qs.len() == 0 {
        Seq::empty()
    } else {
        queries_syntax(qs.drop_last(), file) + match qs.last() {
            QueryOrPath::Query(q) => match q.query {
                Some(sql) => query_findings(sql@, "Query '"@ + or_unnamed(q.name) + "'"@, file),
                None => Seq::empty(),
            },
            _ => Seq::empty(),
        }
    }
}

/// Syntax findings of the inline labels with a query.
pub open spec fn labels_syntax(ls: Seq<LabelOrPath>, file: Seq<char>) -> Seq<Diag>
    decreases ls.len(),
{
    if ls.len() == 0 {
        Seq::empty()
    } else {
        labels_syntax(ls.drop_last(), file) + match ls.last() {
            LabelOrPath::Label(l) => match l.query {
                Some(q) => query_findings(q@, "Label '"@ + or_unnamed(l.name) + "'"@, file),
                None => Seq::empty(),
            },
            _ => Seq::empty(),
        }
    }
}

/// Every syntax finding of a configuration.
pub open spec fn query_syntax_all(c: FleetConfig, file: Seq<char>) -> Seq<Diag> {
    (match c.policies {
        Some(v) => policies_syntax(v@, file),
        None => Seq::empty(),
    }) + (match c.queries {
        Some(v) => queries_syntax(v@, file),
        None => Seq::empty(),
    }) + (match c.labels {
        Some(v) => labels_syntax(v@, file),
        None => Seq::empty(),
    })
}

impl Rule for QuerySyntaxRule {
    fn name(&self) -> (r: &'static str)
        ensures
            r@ == "query-syntax"@,
    {
        "query-syntax"
    }

    fn description(&self) -> (r: &'static str)
        ensures
            r@ == "Validates basic SQL query syntax"@,
    {
        "Validates basic SQL query syntax"
    }

    fn category(&self) -> (r: &'static str)
        ensures
            r@ == "semantic"@,
    {
        "semantic"
    }

    fn docs_url(&self) -> (r: Option<&'static str>)
        ensures
            r matches Some(u) && u@ == "https://fleetdm.com/docs/configuration/yaml-files#reports"@,
    {
        Some("https://fleetdm.com/docs/configuration/yaml-files#reports")
    }

    open spec fn check_defined(&self, file: Seq<char>, source: Seq<char>) -> bool {
        true
    }

    fn check(&self, config: &FleetConfig, file: &str, source: &str) -> (r: Vec<LintError>)
        ensures
            diags(r@) == query_syntax_all(*config, file@),
    {
        let mut errors: Vec<LintError> = Vec::new();
        let ghost s0 = diags(errors@);
        match &config.policies {
            Some(ps) => {
                let mut i: usize = 0;
                while i < ps.len()
                    invariant
                        i <= ps.len(),
                        diags(errors@) == s0 + policies_syntax(ps@.take(i as int), file@),
                    decreases ps.len() - i,
                {
                    assert(ps@.take(i + 1).drop_last() =~= ps@.take(i as int));
                    match &ps[i] {
                        PolicyOrPath::Policy(p) => match &p.query {
                            Some(q) => {
                                let item = join3("Policy '", &or_unnamed_exec(&p.name), "'");
                                extend_diags(&mut errors, check_query_syntax(q.as_str(), &item, file));
                            },
                            None => {},
                        },
                        _ => {},
                    }
                    assert(diags(errors@) =~= s0 + policies_syntax(ps@.take(i + 1), file@));
                    i += 1;
                }
                assert(ps@.take(ps.len() as int) =~= ps@);
            },
            None => {},
        }
        let ghost s1 = diags(errors@);
        match &config.queries {
            Some(qs) => {
                let mut i: usize = 0;
                while i < qs.len()
                    invariant
                        i <= qs.len(),
                        diags(errors@) == s1 + queries_syntax(qs@.take(i as int), file@),
                    decreases qs.len() - i,
                {
                    assert(qs@.take(i + 1).drop_last() =~= qs@.take(i as int));
                    match &qs[i] {
                        QueryOrPath::Query(q) => match &q.query {
                            Some(sql) => {
                                let item = join3("Query '", &or_unnamed_exec(&q.name), "'");
                                extend_diags(&mut errors, check_query_syntax(sql.as_str(), &item, file));
                            },
                            None => {},
                        },
                        _ => {},
                    }
                    assert(diags(errors@) =~= s1 + queries_syntax(qs@.take(i + 1), file@));
                    i += 1;
                }
                assert(qs@.take(qs.len() as int) =~= qs@);
            },
            None => {},
        }
        let ghost s2 = diags(errors@);
        match &config.labels {
            Some(ls) => {
                let mut i: usize = 0;
                while i < ls.len()
                    invariant
                        i <= ls.len(),
                        diags(errors@) == s2 + labels_syntax(ls@.take(i as int), file@),
                    decreases ls.len() - i,
                {
                    assert(ls@.take(i + 1).drop_last() =~= ls@.take(i as int));
                    match &ls[i] {
                        LabelOrPath::Label(l) => match &l.query {
                            Some(q) => {
                                let item = join3("Label '", &or_unnamed_exec(&l.name), "'");
                                extend_diags(&mut errors, check_query_syntax(q.as_str(), &item, file));
                            },
                            None => {},
                        },
                        _ => {},
                    }
                    assert(diags(errors@) =~= s2 + labels_syntax(ls@.take(i + 1), file@));
                    i += 1;
                }
                assert(ls@.take(ls.len() as int) =~= ls@);
            },
            None => {},
        }
        assert(diags(errors@) =~= query_syntax_all(*config, file@));
        errors
    }
}

// ============================================================================
// Built-in rules and rule sets
// ============================================================================

/// The built-in rules, one variant per rule.
#[derive(Debug, Clone, Copy, PartialEq, Eq, Structural)]
pub enum BuiltinRule {
    RequiredFields,
    PlatformCompatibility,
    TypeValidation,
    Security,
    IntervalValidation,
    DuplicateNames,
    QuerySyntax,
    StructuralValidation,
    LabelTargeting,
    LabelMembership,
    DateFormat,
    HashFormat,
    Categories,
    FileExtension,
    SecretHygiene,
    PathReference,
    PolicyAutomationLocation,
    PatchPolicy,
    YamlIndentation,
    YamlColons,
    YamlEmptyValues,
}

/// The rule code of a built-in rule.
pub open spec fn builtin_name(r: BuiltinRule) -> Seq<char> {
    match r {
        BuiltinRule::RequiredFields => "required-fields"@,
        BuiltinRule::PlatformCompatibility => "platform-compatibility"@,
        BuiltinRule::TypeValidation => "type-validation"@,
        BuiltinRule::Security => "security"@,
        BuiltinRule::IntervalValidation => "interval-validation"@,
        BuiltinRule::DuplicateNames => "duplicate-names"@,
        BuiltinRule::QuerySyntax => "query-syntax"@,
        BuiltinRule::StructuralValidation => "structural-validation"@,
        BuiltinRule::LabelTargeting => "label-targeting"@,
        BuiltinRule::LabelMembership => "label-membership"@,
        BuiltinRule::DateFormat => "date-format"@,
        BuiltinRule::HashFormat => "hash-format"@,
        BuiltinRule::Categories => "categories"@,
        BuiltinRule::FileExtension => "file-extension"@,
        BuiltinRule::SecretHygiene => "secret-hygiene"@,
        BuiltinRule::PathReference => "path-reference"@,
        BuiltinRule::PolicyAutomationLocation => "policy-automation-location"@,
        BuiltinRule::PatchPolicy => "patch-policy"@,
        BuiltinRule::YamlIndentation => "yaml-indentation"@,
        BuiltinRule::YamlColons => "yaml-colons"@,
        BuiltinRule::YamlEmptyValues => "yaml-empty-values"@,
    }
}

/// The inputs on which a built-in rule runs without panicking.
pub open spec fn builtin_defined(r: BuiltinRule, source: Seq<char>) -> bool {
    match r {
        BuiltinRule::StructuralValidation => text::source_fits(source),
        BuiltinRule::YamlEmptyValues => yaml_lint::empty_values_displayable(source) && text::source_fits(source),
        _ => true,
    }
}

/// The diagnostics that a built-in rule reports for a file.
pub open spec fn builtin_diags(r: BuiltinRule, config: FleetConfig, file: Seq<char>, source: Seq<char>) -> Seq<Diag> {
    match r {
        BuiltinRule::RequiredFields => required_fields_diags(config, file),
        BuiltinRule::PlatformCompatibility => platform_compat_all(config, file),
        BuiltinRule::TypeValidation => type_validation_diags(config, source, file),
        BuiltinRule::Security => security_diags(config, file),
        BuiltinRule::IntervalValidation => interval_diags(config, file),
        BuiltinRule::DuplicateNames => duplicate_names_all(config, file),
        BuiltinRule::QuerySyntax => query_syntax_all(config, file),
        BuiltinRule::StructuralValidation => structural_diags(file, source),
        BuiltinRule::LabelTargeting => semantic::targeting_all(file, source),
        BuiltinRule::LabelMembership => semantic::membership_all(file, source),
        BuiltinRule::DateFormat => semantic::date_all(file, source),
        BuiltinRule::HashFormat => semantic::hash_all(file, source),
        BuiltinRule::Categories => semantic::categories_all(file, source),
        BuiltinRule::FileExtension => semantic::extension_all(file, source),
        BuiltinRule::SecretHygiene => semantic::secret_all(file, source),
        BuiltinRule::PathReference => semantic::path_all(file, source),
        BuiltinRule::PolicyAutomationLocation => semantic::automation_diags(file, source),
        BuiltinRule::PatchPolicy => semantic::patch_all(file, source),
        BuiltinRule::YamlIndentation => yaml_lint::indentation_diags(source, file),
        BuiltinRule::YamlColons => yaml_lint::colons_diags(source, file),
        BuiltinRule::YamlEmptyValues => yaml_lint::empty_values_diags(source, file),
    }
}

/// What a built-in rule checks.
pub open spec fn builtin_description(r: BuiltinRule) -> Seq<char> {
    match r {
        BuiltinRule::RequiredFields => "Ensures all required fields are present"@,
        BuiltinRule::PlatformCompatibility => "Validates osquery tables are compatible with specified platforms"@,
        BuiltinRule::TypeValidation => "Validates field types match expected values"@,
        BuiltinRule::Security => "Detects potential security issues like hardcoded secrets"@,
        BuiltinRule::IntervalValidation => "Validates query intervals are within sensible ranges"@,
        BuiltinRule::DuplicateNames => "Detects duplicate names within policies, queries, or labels"@,
        BuiltinRule::QuerySyntax => "Validates basic SQL query syntax"@,
        BuiltinRule::StructuralValidation => "Validates YAML structure: catches unknown keys, misplaced keys, and missing wrappers"@,
        BuiltinRule::LabelTargeting => "Checks that labels_include_any and labels_include_all are not both specified"@,
        BuiltinRule::LabelMembership => "Checks label membership type consistency (dynamic→query, manual→hosts, host_vitals→criteria)"@,
        BuiltinRule::DateFormat => "Checks that deadline fields use YYYY-MM-DD format"@,
        BuiltinRule::HashFormat => "Checks that hash_sha256 values are valid 64-character lowercase hex strings"@,
        BuiltinRule::Categories => "Checks that software category values are from the supported set"@,
        BuiltinRule::FileExtension => "Checks that MDM profile and script paths have valid file extensions"@,
        BuiltinRule::SecretHygiene => "Checks that API tokens and secrets use environment variable references ($VAR)"@,
        BuiltinRule::PathReference => "Validates path/paths fields: glob usage, mutual exclusivity, and script requirements"@,
        BuiltinRule::PolicyAutomationLocation => "Flags run_script / install_software / calendar_events_enabled on policies in default.yml (fleet-only per Fleet docs)"@,
        BuiltinRule::PatchPolicy => "Checks patch policy fields: type:patch requires fleet_maintained_app_slug; install_software:true requires type:patch"@,
        BuiltinRule::YamlIndentation => "Flags non-standard indentation (not a multiple of 2 spaces) and mixed indent widths"@,
        BuiltinRule::YamlColons => "Detects lines that look like YAML keys but are missing a colon separator"@,
        BuiltinRule::YamlEmptyValues => "Flags keys with no value (serde parses as null) that may indicate missing data"@,
    }
}

/// The category a built-in rule is grouped under.
pub open spec fn builtin_category(r: BuiltinRule) -> Seq<char> {
    match r {
        BuiltinRule::RequiredFields => "structural"@,
        BuiltinRule::PlatformCompatibility => "semantic"@,
        BuiltinRule::TypeValidation => "structural"@,
        BuiltinRule::Security => "security"@,
        BuiltinRule::IntervalValidation => "style"@,
        BuiltinRule::DuplicateNames => "structural"@,
        BuiltinRule::QuerySyntax => "semantic"@,
        BuiltinRule::StructuralValidation => "structural"@,
        BuiltinRule::LabelTargeting => "semantic"@,
        BuiltinRule::LabelMembership => "semantic"@,
        BuiltinRule::DateFormat => "semantic"@,
        BuiltinRule::HashFormat => "semantic"@,
        BuiltinRule::Categories => "semantic"@,
        BuiltinRule::FileExtension => "semantic"@,
        BuiltinRule::SecretHygiene => "security"@,
        BuiltinRule::PathReference => "semantic"@,
        BuiltinRule::PolicyAutomationLocation => "semantic"@,
        BuiltinRule::PatchPolicy => "semantic"@,
        BuiltinRule::YamlIndentation => "yaml"@,
        BuiltinRule::YamlColons => "yaml"@,
        BuiltinRule::YamlEmptyValues => "yaml"@,
    }
}

/// The documentation link of a built-in rule, if it has one.
pub open spec fn builtin_docs_url(r: BuiltinRule) -> Option<Seq<char>> {
    match r {
        BuiltinRule::RequiredFields => Some("https://fleetdm.com/docs/configuration/yaml-files#gitops"@),
        BuiltinRule::PlatformCompatibility => Some("https://fleetdm.com/docs/configuration/yaml-files#policies"@),
        BuiltinRule::TypeValidation => Some("https://fleetdm.com/docs/configuration/yaml-files#policies"@),
        BuiltinRule::Security => None,
        BuiltinRule::IntervalValidation => Some("https://fleetdm.com/docs/configuration/yaml-files#reports"@),
        BuiltinRule::DuplicateNames => None,
        BuiltinRule::QuerySyntax => Some("https://fleetdm.com/docs/configuration/yaml-files#reports"@),
        BuiltinRule::StructuralValidation => Some("https://fleetdm.com/docs/configuration/yaml-files"@),
        BuiltinRule::LabelTargeting => Some("https://fleetdm.com/docs/configuration/yaml-files#policies"@),
        BuiltinRule::LabelMembership => Some("https://fleetdm.com/docs/configuration/yaml-files#labels"@),
        BuiltinRule::DateFormat => Some("https://fleetdm.com/docs/configuration/yaml-files#macos_updates"@),
        BuiltinRule::HashFormat => Some("https://fleetdm.com/docs/configuration/yaml-files#packages"@),
        BuiltinRule::Categories => None,
        BuiltinRule::FileExtension => Some("https://fleetdm.com/docs/configuration/yaml-files#controls"@),
        BuiltinRule::SecretHygiene => None,
        BuiltinRule::PathReference => None,
        BuiltinRule::PolicyAutomationLocation => Some("https://fleetdm.com/docs/configuration/yaml-files#policies"@),
        BuiltinRule::PatchPolicy => Some("https://fleetdm.com/docs/configuration/yaml-files#patch-policy"@),
        BuiltinRule::YamlIndentation => None,
        BuiltinRule::YamlColons => None,
        BuiltinRule::YamlEmptyValues => None,
    }
}

/// Whether a built-in rule's diagnostics can carry automatic fixes.
pub open spec fn builtin_fixable(r: BuiltinRule) -> bool {
    match r {
        BuiltinRule::RequiredFields => true,
        BuiltinRule::PlatformCompatibility => false,
        BuiltinRule::TypeValidation => true,
        BuiltinRule::Security => true,
        BuiltinRule::IntervalValidation => true,
        BuiltinRule::DuplicateNames => false,
        BuiltinRule::QuerySyntax => false,
        BuiltinRule::StructuralValidation => true,
        BuiltinRule::LabelTargeting => false,
        BuiltinRule::LabelMembership => false,
        BuiltinRule::DateFormat => true,
        BuiltinRule::HashFormat => true,
        BuiltinRule::Categories => true,
        BuiltinRule::FileExtension => false,
        BuiltinRule::SecretHygiene => true,
        BuiltinRule::PathReference => false,
        BuiltinRule::PolicyAutomationLocation => false,
        BuiltinRule::PatchPolicy => false,
        BuiltinRule::YamlIndentation => true,
        BuiltinRule::YamlColons => true,
        BuiltinRule::YamlEmptyValues => false,
    }
}

/// Whether a built-in rule is experimental.
pub open spec fn builtin_preview(r: BuiltinRule) -> bool {
    match r {
        BuiltinRule::RequiredFields => false,
        BuiltinRule::PlatformCompatibility => false,
        BuiltinRule::TypeValidation => false,
        BuiltinRule::Security => false,
        BuiltinRule::IntervalValidation => false,
        BuiltinRule::DuplicateNames => false,
        BuiltinRule::QuerySyntax => false,
        BuiltinRule::StructuralValidation => false,
        BuiltinRule::LabelTargeting => false,
        BuiltinRule::LabelMembership => false,
        BuiltinRule::DateFormat => false,
        BuiltinRule::HashFormat => false,
        BuiltinRule::Categories => false,
        BuiltinRule::FileExtension => false,
        BuiltinRule::SecretHygiene => false,
        BuiltinRule::PathReference => false,
        BuiltinRule::PolicyAutomationLocation => false,
        BuiltinRule::PatchPolicy => false,
        BuiltinRule::YamlIndentation => false,
        BuiltinRule::YamlColons => false,
        BuiltinRule::YamlEmptyValues => false,
    }
}

/// The default severity of a built-in rule's diagnostics.
pub open spec fn builtin_severity(r: BuiltinRule) -> Severity {
    match r {
        BuiltinRule::RequiredFields => Severity::Error,
        BuiltinRule::PlatformCompatibility => Severity::Error,
        BuiltinRule::TypeValidation => Severity::Error,
        BuiltinRule::Security => Severity::Warning,
        BuiltinRule::IntervalValidation => Severity::Warning,
        BuiltinRule::DuplicateNames => Severity::Error,
        BuiltinRule::QuerySyntax => Severity::Error,
        BuiltinRule::StructuralValidation => Severity::Error,
        BuiltinRule::LabelTargeting => Severity::Error,
        BuiltinRule::LabelMembership => Severity::Error,
        BuiltinRule::DateFormat => Severity::Error,
        BuiltinRule::HashFormat => Severity::Error,
        BuiltinRule::Categories => Severity::Warning,
        BuiltinRule::FileExtension => Severity::Warning,
        BuiltinRule::SecretHygiene => Severity::Warning,
        BuiltinRule::PathReference => Severity::Error,
        BuiltinRule::PolicyAutomationLocation => Severity::Error,
        BuiltinRule::PatchPolicy => Severity::Error,
        BuiltinRule::YamlIndentation => Severity::Warning,
        BuiltinRule::YamlColons => Severity::Warning,
        BuiltinRule::YamlEmptyValues => Severity::Info,
    }
}

impl Rule for BuiltinRule {
    fn name(&self) -> (r: &'static str)
        ensures
            r@ == builtin_name(*self),
    {
        match self {
            BuiltinRule::RequiredFields => "required-fields",
            BuiltinRule::PlatformCompatibility => "platform-compatibility",
            BuiltinRule::TypeValidation => "type-validation",
            BuiltinRule::Security => "security",
            BuiltinRule::IntervalValidation => "interval-validation",
            BuiltinRule::DuplicateNames => "duplicate-names",
            BuiltinRule::QuerySyntax => "query-syntax",
            BuiltinRule::StructuralValidation => "structural-validation",
            BuiltinRule::LabelTargeting => "label-targeting",
            BuiltinRule::LabelMembership => "label-membership",
            BuiltinRule::DateFormat => "date-format",
            BuiltinRule::HashFormat => "hash-format",
            BuiltinRule::Categories => "categories",
            BuiltinRule::FileExtension => "file-extension",
            BuiltinRule::SecretHygiene => "secret-hygiene",
            BuiltinRule::PathReference => "path-reference",
            BuiltinRule::PolicyAutomationLocation => "policy-automation-location",
            BuiltinRule::PatchPolicy => "patch-policy",
            BuiltinRule::YamlIndentation => "yaml-indentation",
            BuiltinRule::YamlColons => "yaml-colons",
            BuiltinRule::YamlEmptyValues => "yaml-empty-values",
        }
    }

    fn description(&self) -> (r: &'static str)
        ensures
            r@ == builtin_description(*self),
    {
        match self {
            BuiltinRule::RequiredFields => RequiredFieldsRule.description(),
            BuiltinRule::PlatformCompatibility => PlatformCompatibilityRule.description(),
            BuiltinRule::TypeValidation => TypeValidationRule.description(),
            BuiltinRule::Security => SecurityRule.description(),
            BuiltinRule::IntervalValidation => IntervalValidationRule.description(),
            BuiltinRule::DuplicateNames => DuplicateNamesRule.description(),
            BuiltinRule::QuerySyntax => QuerySyntaxRule.description(),
            BuiltinRule::StructuralValidation => structural::StructuralValidationRule.description(),
            BuiltinRule::LabelTargeting => semantic::LabelTargetingRule.description(),
            BuiltinRule::LabelMembership => semantic::LabelMembershipRule.description(),
            BuiltinRule::DateFormat => semantic::DateFormatRule.description(),
            BuiltinRule::HashFormat => semantic::HashFormatRule.description(),
            BuiltinRule::Categories => semantic::CategoriesRule.description(),
            BuiltinRule::FileExtension => semantic::FileExtensionRule.description(),
            BuiltinRule::SecretHygiene => semantic::SecretHygieneRule.description(),
            BuiltinRule::PathReference => semantic::PathReferenceRule.description(),
            BuiltinRule::PolicyAutomationLocation => semantic::PolicyAutomationLocationRule.description(),
            BuiltinRule::PatchPolicy => semantic::PatchPolicyRule.description(),
            BuiltinRule::YamlIndentation => yaml_lint::YamlIndentationRule.description(),
            BuiltinRule::YamlColons => yaml_lint::YamlColonsRule.description(),
            BuiltinRule::YamlEmptyValues => yaml_lint::YamlEmptyValuesRule.description(),
        }
    }

    fn category(&self) -> (r: &'static str)
        ensures
            r@ == builtin_category(*self),
    {
        match self {
            BuiltinRule::RequiredFields => RequiredFieldsRule.category(),
            BuiltinRule::PlatformCompatibility => PlatformCompatibilityRule.category(),
            BuiltinRule::TypeValidation => TypeValidationRule.category(),
            BuiltinRule::Security => SecurityRule.category(),
            BuiltinRule::IntervalValidation => IntervalValidationRule.category(),
            BuiltinRule::DuplicateNames => DuplicateNamesRule.category(),
            BuiltinRule::QuerySyntax => QuerySyntaxRule.category(),
            BuiltinRule::StructuralValidation => structural::StructuralValidationRule.category(),
            BuiltinRule::LabelTargeting => semantic::LabelTargetingRule.category(),
            BuiltinRule::LabelMembership => semantic::LabelMembershipRule.category(),
            BuiltinRule::DateFormat => semantic::DateFormatRule.category(),
            BuiltinRule::HashFormat => semantic::HashFormatRule.category(),
            BuiltinRule::Categories => semantic::CategoriesRule.category(),
            BuiltinRule::FileExtension => semantic::FileExtensionRule.category(),
            BuiltinRule::SecretHygiene => semantic::SecretHygieneRule.category(),
            BuiltinRule::PathReference => semantic::PathReferenceRule.category(),
            BuiltinRule::PolicyAutomationLocation => semantic::PolicyAutomationLocationRule.category(),
            BuiltinRule::PatchPolicy => semantic::PatchPolicyRule.category(),
            BuiltinRule::YamlIndentation => yaml_lint::YamlIndentationRule.category(),
            BuiltinRule::YamlColons => yaml_lint::YamlColonsRule.category(),
            BuiltinRule::YamlEmptyValues => yaml_lint::YamlEmptyValuesRule.category(),
        }
    }

    fn docs_url(&self) -> (r: Option<&'static str>)
        ensures
            match r {
                Some(u) => builtin_docs_url(*self) == Some(u@),
                None => builtin_docs_url(*self) is None,
            },
    {
        match self {
            BuiltinRule::RequiredFields => RequiredFieldsRule.docs_url(),
            BuiltinRule::PlatformCompatibility => PlatformCompatibilityRule.docs_url(),
            BuiltinRule::TypeValidation => TypeValidationRule.docs_url(),
            BuiltinRule::Security => SecurityRule.docs_url(),
            BuiltinRule::IntervalValidation => IntervalValidationRule.docs_url(),
            BuiltinRule::DuplicateNames => DuplicateNamesRule.docs_url(),
            BuiltinRule::QuerySyntax => QuerySyntaxRule.docs_url(),
            BuiltinRule::StructuralValidation => structural::StructuralValidationRule.docs_url(),
            BuiltinRule::LabelTargeting => semantic::LabelTargetingRule.docs_url(),
            BuiltinRule::LabelMembership => semantic::LabelMembershipRule.docs_url(),
            BuiltinRule::DateFormat => semantic::DateFormatRule.docs_url(),
            BuiltinRule::HashFormat => semantic::HashFormatRule.docs_url(),
            BuiltinRule::Categories => semantic::CategoriesRule.docs_url(),
            BuiltinRule::FileExtension => semantic::FileExtensionRule.docs_url(),
            BuiltinRule::SecretHygiene => semantic::SecretHygieneRule.docs_url(),
            BuiltinRule::PathReference => semantic::PathReferenceRule.docs_url(),
            BuiltinRule::PolicyAutomationLocation => semantic::PolicyAutomationLocationRule.docs_url(),
            BuiltinRule::PatchPolicy => semantic::PatchPolicyRule.docs_url(),
            BuiltinRule::YamlIndentation => yaml_lint::YamlIndentationRule.docs_url(),
            BuiltinRule::YamlColons => yaml_lint::YamlColonsRule.docs_url(),
            BuiltinRule::YamlEmptyValues => yaml_lint::YamlEmptyValuesRule.docs_url(),
        }
    }

    fn is_fixable(&self) -> (r: bool)
        ensures
            r == builtin_fixable(*self),
    {
        match self {
            BuiltinRule::RequiredFields => RequiredFieldsRule.is_fixable(),
            BuiltinRule::PlatformCompatibility => PlatformCompatibilityRule.is_fixable(),
            BuiltinRule::TypeValidation => TypeValidationRule.is_fixable(),
            BuiltinRule::Security => SecurityRule.is_fixable(),
            BuiltinRule::IntervalValidation => IntervalValidationRule.is_fixable(),
            BuiltinRule::DuplicateNames => DuplicateNamesRule.is_fixable(),
            BuiltinRule::QuerySyntax => QuerySyntaxRule.is_fixable(),
            BuiltinRule::StructuralValidation => structural::StructuralValidationRule.is_fixable(),
            BuiltinRule::LabelTargeting => semantic::LabelTargetingRule.is_fixable(),
            BuiltinRule::LabelMembership => semantic::LabelMembershipRule.is_fixable(),
            BuiltinRule::DateFormat => semantic::DateFormatRule.is_fixable(),
            BuiltinRule::HashFormat => semantic::HashFormatRule.is_fixable(),
            BuiltinRule::Categories => semantic::CategoriesRule.is_fixable(),
            BuiltinRule::FileExtension => semantic::FileExtensionRule.is_fixable(),
            BuiltinRule::SecretHygiene => semantic::SecretHygieneRule.is_fixable(),
            BuiltinRule::PathReference => semantic::PathReferenceRule.is_fixable(),
            BuiltinRule::PolicyAutomationLocation => semantic::PolicyAutomationLocationRule.is_fixable(),
            BuiltinRule::PatchPolicy => semantic::PatchPolicyRule.is_fixable(),
            BuiltinRule::YamlIndentation => yaml_lint::YamlIndentationRule.is_fixable(),
            BuiltinRule::YamlColons => yaml_lint::YamlColonsRule.is_fixable(),
            BuiltinRule::YamlEmptyValues => yaml_lint::YamlEmptyValuesRule.is_fixable(),
        }
    }

    fn is_preview(&self) -> (r: bool)
        ensures
            r == builtin_preview(*self),
    {
        match self {
            BuiltinRule::RequiredFields => RequiredFieldsRule.is_preview(),
            BuiltinRule::PlatformCompatibility => PlatformCompatibilityRule.is_preview(),
            BuiltinRule::TypeValidation => TypeValidationRule.is_preview(),
            BuiltinRule::Security => SecurityRule.is_preview(),
            BuiltinRule::IntervalValidation => IntervalValidationRule.is_preview(),
            BuiltinRule::DuplicateNames => DuplicateNamesRule.is_preview(),
            BuiltinRule::QuerySyntax => QuerySyntaxRule.is_preview(),
            BuiltinRule::StructuralValidation => structural::StructuralValidationRule.is_preview(),
            BuiltinRule::LabelTargeting => semantic::LabelTargetingRule.is_preview(),
            BuiltinRule::LabelMembership => semantic::LabelMembershipRule.is_preview(),
            BuiltinRule::DateFormat => semantic::DateFormatRule.is_preview(),
            BuiltinRule::HashFormat => semantic::HashFormatRule.is_preview(),
            BuiltinRule::Categories => semantic::CategoriesRule.is_preview(),
            BuiltinRule::FileExtension => semantic::FileExtensionRule.is_preview(),
            BuiltinRule::SecretHygiene => semantic::SecretHygieneRule.is_preview(),
            BuiltinRule::PathReference => semantic::PathReferenceRule.is_preview(),
            BuiltinRule::PolicyAutomationLocation => semantic::PolicyAutomationLocationRule.is_preview(),
            BuiltinRule::PatchPolicy => semantic::PatchPolicyRule.is_preview(),
            BuiltinRule::YamlIndentation => yaml_lint::YamlIndentationRule.is_preview(),
            BuiltinRule::YamlColons => yaml_lint::YamlColonsRule.is_preview(),
            BuiltinRule::YamlEmptyValues => yaml_lint::YamlEmptyValuesRule.is_preview(),
        }
    }

    fn default_severity(&self) -> (r: Severity)
        ensures
            r == builtin_severity(*self),
    {
        match self {
            BuiltinRule::RequiredFields => RequiredFieldsRule.default_severity(),
            BuiltinRule::PlatformCompatibility => PlatformCompatibilityRule.default_severity(),
            BuiltinRule::TypeValidation => TypeValidationRule.default_severity(),
            BuiltinRule::Security => SecurityRule.default_severity(),
            BuiltinRule::IntervalValidation => IntervalValidationRule.default_severity(),
            BuiltinRule::DuplicateNames => DuplicateNamesRule.default_severity(),
            BuiltinRule::QuerySyntax => QuerySyntaxRule.default_severity(),
            BuiltinRule::StructuralValidation => structural::StructuralValidationRule.default_severity(),
            BuiltinRule::LabelTargeting => semantic::LabelTargetingRule.default_severity(),
            BuiltinRule::LabelMembership => semantic::LabelMembershipRule.default_severity(),
            BuiltinRule::DateFormat => semantic::DateFormatRule.default_severity(),
            BuiltinRule::HashFormat => semantic::HashFormatRule.default_severity(),
            BuiltinRule::Categories => semantic::CategoriesRule.default_severity(),
            BuiltinRule::FileExtension => semantic::FileExtensionRule.default_severity(),
            BuiltinRule::SecretHygiene => semantic::SecretHygieneRule.default_severity(),
            BuiltinRule::PathReference => semantic::PathReferenceRule.default_severity(),
            BuiltinRule::PolicyAutomationLocation => semantic::PolicyAutomationLocationRule.default_severity(),
            BuiltinRule::PatchPolicy => semantic::PatchPolicyRule.default_severity(),
            BuiltinRule::YamlIndentation => yaml_lint::YamlIndentationRule.default_severity(),
            BuiltinRule::YamlColons => yaml_lint::YamlColonsRule.default_severity(),
            BuiltinRule::YamlEmptyValues => yaml_lint::YamlEmptyValuesRule.default_severity(),
        }
    }

    open spec fn check_defined(&self, file: Seq<char>, source: Seq<char>) -> bool {
        builtin_defined(*self, source)
    }

    fn check(&self, config: &FleetConfig, file: &str, source: &str) -> (r: Vec<LintError>)
        ensures
            diags(r@) == builtin_diags(*self, *config, file@, source@),
    {
        match self {
            BuiltinRule::RequiredFields => RequiredFieldsRule.check(config, file, source),
            BuiltinRule::PlatformCompatibility => PlatformCompatibilityRule.check(config, file, source),
            BuiltinRule::TypeValidation => TypeValidationRule.check(config, file, source),
            BuiltinRule::Security => SecurityRule.check(config, file, source),
            BuiltinRule::IntervalValidation => IntervalValidationRule.check(config, file, source),
            BuiltinRule::DuplicateNames => DuplicateNamesRule.check(config, file, source),
            BuiltinRule::QuerySyntax => QuerySyntaxRule.check(config, file, source),
            BuiltinRule::StructuralValidation => structural::StructuralValidationRule.check(config, file, source),
            BuiltinRule::LabelTargeting => semantic::LabelTargetingRule.check(config, file, source),
            BuiltinRule::LabelMembership => semantic::LabelMembershipRule.check(config, file, source),
            BuiltinRule::DateFormat => semantic::DateFormatRule.check(config, file, source),
            BuiltinRule::HashFormat => semantic::HashFormatRule.check(config, file, source),
            BuiltinRule::Categories => semantic::CategoriesRule.check(config, file, source),
            BuiltinRule::FileExtension => semantic::FileExtensionRule.check(config, file, source),
            BuiltinRule::SecretHygiene => semantic::SecretHygieneRule.check(config, file, source),
            BuiltinRule::PathReference => semantic::PathReferenceRule.check(config, file, source),
            BuiltinRule::PolicyAutomationLocation => semantic::PolicyAutomationLocationRule.check(config, file, source),
            BuiltinRule::PatchPolicy => semantic::PatchPolicyRule.check(config, file, source),
            BuiltinRule::YamlIndentation => yaml_lint::YamlIndentationRule.check(config, file, source),
            BuiltinRule::YamlColons => yaml_lint::YamlColonsRule.check(config, file, source),
            BuiltinRule::YamlEmptyValues => yaml_lint::YamlEmptyValuesRule.check(config, file, source),
        }
    }
}

/// An ordered collection of rules.
pub struct RuleSet {
    rules: Vec<BuiltinRule>,
}

impl View for RuleSet {
    type V = Seq<BuiltinRule>;

    closed spec fn view(&self) -> Seq<BuiltinRule> {
        self.rules@
    }
}

/// The rules of the default rule set, in the order they run.
pub open spec fn default_rule_seq() -> Seq<BuiltinRule> {
    seq![
        BuiltinRule::RequiredFields,
        BuiltinRule::PlatformCompatibility,
        BuiltinRule::TypeValidation,
        BuiltinRule::Security,
        BuiltinRule::IntervalValidation,
        BuiltinRule::DuplicateNames,
        BuiltinRule::QuerySyntax,
        BuiltinRule::StructuralValidation,
        BuiltinRule::LabelTargeting,
        BuiltinRule::LabelMembership,
        BuiltinRule::DateFormat,
        BuiltinRule::HashFormat,
        BuiltinRule::Categories,
        BuiltinRule::FileExtension,
        BuiltinRule::SecretHygiene,
        BuiltinRule::PathReference,
        BuiltinRule::YamlIndentation,
        BuiltinRule::YamlColons,
        BuiltinRule::YamlEmptyValues,
    ]
}

impl RuleSet {
    /// An empty rule set.
    pub fn new() -> (r: RuleSet)
        ensures
            r@ == Seq::<BuiltinRule>::empty(),
    {
        RuleSet { rules: Vec::new() }
    }

    /// Appends a rule.
    pub fn add_rule(&mut self, rule: BuiltinRule)
        ensures
            final(self)@ == old(self)@.push(rule),
    {
        self.rules.push(rule);
    }

    /// The rules, in order.
    pub fn rules(&self) -> (r: &[BuiltinRule])
        ensures
            r@ == self@,
    {
        self.rules.as_slice()
    }

    /// Every built-in rule that runs by default.
    pub fn default_rules() -> (r: RuleSet)
        ensures
            r@ == default_rule_seq(),
    {
        let mut set = RuleSet::new();
        set.add_rule(BuiltinRule::RequiredFields);
        set.add_rule(BuiltinRule::PlatformCompatibility);
        set.add_rule(BuiltinRule::TypeValidation);
        set.add_rule(BuiltinRule::Security);
        set.add_rule(BuiltinRule::IntervalValidation);
        set.add_rule(BuiltinRule::DuplicateNames);
        set.add_rule(BuiltinRule::QuerySyntax);
        set.add_rule(BuiltinRule::StructuralValidation);
        set.add_rule(BuiltinRule::LabelTargeting);
        set.add_rule(BuiltinRule::LabelMembership);
        set.add_rule(BuiltinRule::DateFormat);
        set.add_rule(BuiltinRule::HashFormat);
        set.add_rule(BuiltinRule::Categories);
        set.add_rule(BuiltinRule::FileExtension);
        set.add_rule(BuiltinRule::SecretHygiene);
        set.add_rule(BuiltinRule::PathReference);
        set.add_rule(BuiltinRule::YamlIndentation);
        set.add_rule(BuiltinRule::YamlColons);
        set.add_rule(BuiltinRule::YamlEmptyValues);
        assert(set@ =~= default_rule_seq());
        set
    }
}

impl Default for RuleSet {
    fn default() -> (r: RuleSet)
        ensures
            r@ == default_rule_seq(),
    {
        RuleSet::default_rules()
    }
}

} // verus!
