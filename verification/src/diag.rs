//! Lint diagnostics: severity, fix safety and the `LintError` record with
//! its builder methods, each specified over an abstract view.
use vstd::prelude::*;

use crate::text::string_of;

verus! {

/// How serious a diagnostic is.
#[derive(Debug, Clone, Copy, PartialEq, Eq, Structural)]
pub enum Severity {
    Error,
    Warning,
    Info,
}

/// Whether an automatic fix preserves meaning.
#[derive(Debug, Clone, Copy, PartialEq, Eq, Structural)]
pub enum FixSafety {
    Safe,
    Unsafe,
}

/// One lint diagnostic.
#[derive(Debug, Clone)]
pub struct LintError {
    pub severity: Severity,
    pub message: String,
    pub file: String,
    pub line: Option<usize>,
    pub column: Option<usize>,
    pub rule_code: Option<String>,
    pub help: Option<String>,
    pub suggestion: Option<String>,
    pub context: Option<String>,
    pub fix_safety: Option<FixSafety>,
}

/// The abstract content of a diagnostic.
pub struct Diag {
    pub severity: Severity,
    pub message: Seq<char>,
    pub file: Seq<char>,
    pub line: Option<usize>,
    pub column: Option<usize>,
    pub rule_code: Option<Seq<char>>,
    pub help: Option<Seq<char>>,
    pub suggestion: Option<Seq<char>>,
    pub context: Option<Seq<char>>,
    pub fix_safety: Option<FixSafety>,
}

/// The view of an optional string.
pub open spec fn opt_view(o: Option<String>) -> Option<Seq<char>> {
    match o {
        Some(s) => Some(s@),
        None => None,
    }
}

impl View for LintError {
    type V = Diag;

    open spec fn view(&self) -> Diag {
        Diag {
            severity: self.severity,
            message: self.message@,
            file: self.file@,
            line: self.line,
            column: self.column,
            rule_code: opt_view(self.rule_code),
            help: opt_view(self.help),
            suggestion: opt_view(self.suggestion),
            context: opt_view(self.context),
            fix_safety: self.fix_safety,
        }
    }
}

/// A bare diagnostic with only severity, message and file set.
pub open spec fn diag(severity: Severity, message: Seq<char>, file: Seq<char>) -> Diag {
    Diag {
        severity,
        message,
        file,
        line: None,
        column: None,
        rule_code: None,
        help: None,
        suggestion: None,
        context: None,
        fix_safety: None,
    }
}

impl Diag {
    pub open spec fn at(self, line: usize, column: usize) -> Diag {
        Diag { line: Some(line), column: Some(column), ..self }
    }

    pub open spec fn code(self, c: Seq<char>) -> Diag {
        Diag { rule_code: Some(c), ..self }
    }

    pub open spec fn helped(self, h: Seq<char>) -> Diag {
        Diag { help: Some(h), ..self }
    }

    pub open spec fn suggesting(self, s: Seq<char>) -> Diag {
        Diag { suggestion: Some(s), ..self }
    }

    pub open spec fn in_context(self, c: Seq<char>) -> Diag {
        Diag { context: Some(c), ..self }
    }

    pub open spec fn safety(self, f: FixSafety) -> Diag {
        Diag { fix_safety: Some(f), ..self }
    }
}

/// The views of a sequence of diagnostics.
pub open spec fn diags(v: Seq<LintError>) -> Seq<Diag> {
    Seq::new(v.len(), |i: int| v[i]@)
}

/// Extending a diagnostic vector by one extends its views by one.
pub proof fn lemma_diags_push(v: Seq<LintError>, e: LintError)
    ensures
        diags(v.push(e)) == diags(v).push(e@),
{
    assert(diags(v.push(e)) =~= diags(v).push(e@));
}

/// Appending diagnostic vectors appends their views.
pub proof fn lemma_diags_concat(a: Seq<LintError>, b: Seq<LintError>)
    ensures
        diags(a + b) == diags(a) + diags(b),
{
    assert(diags(a + b) =~= diags(a) + diags(b));
}

/// Pushes a diagnostic and keeps the views in step.
pub fn push_diag(v: &mut Vec<LintError>, e: LintError)
    ensures
        diags(final(v)@) == diags(old(v)@).push(e@),
{
    let ghost pre = v@;
    v.push(e);
    proof {
        lemma_diags_push(pre, e);
    }
}

/// Appends all diagnostics of `more` to `v`.
pub fn extend_diags(v: &mut Vec<LintError>, more: Vec<LintError>)
    ensures
        diags(final(v)@) == diags(old(v)@) + diags(more@),
{
    let ghost pre = v@;
    let ghost m = more@;
    let mut more = more;
    v.append(&mut more);
    proof {
        lemma_diags_concat(pre, m);
    }
}

impl LintError {
    /// A diagnostic with the given severity.
    pub fn new(severity: Severity, message: &str, file: &str) -> (r: LintError)
        ensures
            r@ == diag(severity, message@, file@),
    {
        LintError {
            severity,
            message: message.to_owned(),
            file: file.to_owned(),
            line: None,
            column: None,
            rule_code: None,
            help: None,
            suggestion: None,
            context: None,
            fix_safety: None,
        }
    }

    /// An error-severity diagnostic.
    pub fn error(message: &str, file: &str) -> (r: LintError)
        ensures
            r@ == diag(Severity::Error, message@, file@),
    {
        LintError::new(Severity::Error, message, file)
    }

    /// A warning-severity diagnostic.
    pub fn warning(message: &str, file: &str) -> (r: LintError)
        ensures
            r@ == diag(Severity::Warning, message@, file@),
    {
        LintError::new(Severity::Warning, message, file)
    }

    /// An info-severity diagnostic.
    pub fn info(message: &str, file: &str) -> (r: LintError)
        ensures
            r@ == diag(Severity::Info, message@, file@),
    {
        LintError::new(Severity::Info, message, file)
    }

    /// Sets the 1-based line and column.
    pub fn with_location(self, line: usize, column: usize) -> (r: LintError)
        ensures
            r@ == self@.at(line, column),
    {
        LintError { line: Some(line), column: Some(column), ..self }
    }

    /// Sets the rule code.
    pub fn with_rule_code(self, code: &str) -> (r: LintError)
        ensures
            r@ == self@.code(code@),
    {
        LintError { rule_code: Some(code.to_owned()), ..self }
    }

    /// Sets the help text.
    pub fn with_help(self, help: &str) -> (r: LintError)
        ensures
            r@ == self@.helped(help@),
    {
        LintError { help: Some(help.to_owned()), ..self }
    }

    /// Sets the suggested replacement.
    pub fn with_suggestion(self, suggestion: &str) -> (r: LintError)
        ensures
            r@ == self@.suggesting(suggestion@),
    {
        LintError { suggestion: Some(suggestion.to_owned()), ..self }
    }

    /// Sets the text that the suggestion replaces.
    pub fn with_context(self, context: &str) -> (r: LintError)
        ensures
            r@ == self@.in_context(context@),
    {
        LintError { context: Some(context.to_owned()), ..self }
    }

    /// Sets the fix safety.
    pub fn with_fix_safety(self, safety: FixSafety) -> (r: LintError)
        ensures
            r@ == self@.safety(safety),
    {
        LintError { fix_safety: Some(safety), ..self }
    }
}

/// Builds a diagnostic from character vectors.
pub fn mk(severity: Severity, message: &[char], file: &str) -> (r: LintError)
    ensures
        r@ == diag(severity, message@, file@),
{
    let m = string_of(message);
    LintError::new(severity, m.as_str(), file)
}

/// A `String` from characters, as `&str` for the builders.
pub fn s_of(v: &[char]) -> (r: String)
    ensures
        r@ == v@,
{
    string_of(v)
}

// ============================================================================
// Reports
// ============================================================================

/// The diagnostics of one file, split by severity, each list in the order
/// the diagnostics were added.
#[derive(Debug)]
pub struct LintReport {
    pub errors: Vec<LintError>,
    pub warnings: Vec<LintError>,
    pub infos: Vec<LintError>,
}

/// The diagnostics of `s` that have severity `sev`, in order.
pub open spec fn of_severity(s: Seq<Diag>, sev: Severity) -> Seq<Diag>
    decreases s.len(),
{
    if s.len() == 0 {
        Seq::empty()
    } else if s.last().severity == sev {
        of_severity(s.drop_last(), sev).push(s.last())
    } else {
        of_severity(s.drop_last(), sev)
    }
}

impl LintReport {
    /// The report holds exactly the diagnostics `s`, added in order.
    pub open spec fn holds(&self, s: Seq<Diag>) -> bool {
        &&& diags(self.errors@) == of_severity(s, Severity::Error)
        &&& diags(self.warnings@) == of_severity(s, Severity::Warning)
        &&& diags(self.infos@) == of_severity(s, Severity::Info)
    }

    /// An empty report.
    pub fn new() -> (r: LintReport)
        ensures
            r.holds(Seq::empty()),
    {
        let r = LintReport { errors: Vec::new(), warnings: Vec::new(), infos: Vec::new() };
        assert(diags(r.errors@) =~= Seq::<Diag>::empty());
        assert(diags(r.warnings@) =~= Seq::<Diag>::empty());
        assert(diags(r.infos@) =~= Seq::<Diag>::empty());
        r
    }

    /// Adds a diagnostic to the list of its severity.
    pub fn add(&mut self, error: LintError)
        ensures
            forall|s: Seq<Diag>| old(self).holds(s) ==> final(self).holds(s.push(error@)),
    {
        let ghost e = error@;
        assert forall|s: Seq<Diag>| #[trigger] s.push(e).drop_last() == s by {
            assert(s.push(e).drop_last() =~= s);
        }
        match error.severity {
            Severity::Error => push_diag(&mut self.errors, error),
            Severity::Warning => push_diag(&mut self.warnings, error),
            Severity::Info => push_diag(&mut self.infos, error),
        }
    }

    /// Whether any error-severity diagnostic was reported.
    pub fn has_errors(&self) -> (r: bool)
        ensures
            r == (self.errors@.len() > 0),
    {
        self.errors.len() > 0
    }

    /// The number of diagnostics of every severity.
    pub fn total_issues(&self) -> (r: usize)
        requires
            self.errors@.len() + self.warnings@.len() + self.infos@.len() <= usize::MAX,
        ensures
            r == self.errors@.len() + self.warnings@.len() + self.infos@.len(),
    {
        self.errors.len() + self.warnings.len() + self.infos.len()
    }
}

/// Adds every diagnostic of `v` to the report, in order.
pub fn add_all(report: &mut LintReport, v: Vec<LintError>)
    ensures
        forall|s: Seq<Diag>| old(report).holds(s) ==> final(report).holds(s + diags(v@)),
{
    let ghost r0 = *report;
    let ghost all = diags(v@);
    let mut v = v;
    let ghost mut done: Seq<Diag> = Seq::empty();
    while v.len() > 0
        invariant
            done + diags(v@) == all,
            forall|s: Seq<Diag>| r0.holds(s) ==> report.holds(s + done),
        decreases v.len(),
    {
        let ghost before_v = v@;
        let e = v.remove(0);
        let ghost ev = e@;
        assert(diags(before_v) =~= seq![ev] + diags(v@));
        let ghost pre = *report;
        report.add(e);
        proof {
            assert forall|s: Seq<Diag>| r0.holds(s) implies report.holds(s + done.push(ev)) by {
                assert(pre.holds(s + done));
                assert(s + done.push(ev) =~= (s + done).push(ev));
            }
            assert(done.push(ev) + diags(v@) =~= done + (seq![ev] + diags(v@)));
            done = done.push(ev);
        }
    }
    assert(done =~= all);
}

/// A report holds every diagnostic exactly once: the error, warning and
/// info lists together are as long as what was added.
pub proof fn law_report_partitions(s: Seq<Diag>)
    ensures
        of_severity(s, Severity::Error).len() + of_severity(s, Severity::Warning).len() + of_severity(
            s,
            Severity::Info,
        ).len() == s.len(),
    decreases s.len(),
{
    if s.len() > 0 {
        law_report_partitions(s.drop_last());
    }
}

} // verus!
