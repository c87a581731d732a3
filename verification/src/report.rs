//! The JSON forms of lint reports and of the rule list, as the command line
//! prints them.
use vstd::prelude::*;

use crate::diag::{diags, Diag, LintError, LintReport, Severity};
use crate::json::{
    items_view, json_view, lemma_array_view, lemma_object_view, members_view, push_item, push_member, JsonValue,
    JsonView,
};
use crate::rules::{
    builtin_category, builtin_description, builtin_docs_url, builtin_fixable, builtin_name, builtin_preview,
    builtin_severity, BuiltinRule, Rule,
};

verus! {

broadcast use vstd::string::group_string_axioms;

/// How a report names a severity.
pub open spec fn severity_label(s: Severity) -> Seq<char> {
    match s {
        Severity::Error => "error"@,
        Severity::Warning => "warning"@,
        Severity::Info => "info"@,
    }
}

fn severity_label_exec(s: Severity) -> (r: &'static str)
    ensures
        r@ == severity_label(s),
{
    match s {
        Severity::Error => "error",
        Severity::Warning => "warning",
        Severity::Info => "info",
    }
}

/// The members of a diagnostic's JSON object: message and severity, then
/// line, column, rule, help, suggestion and context, each when present.
pub open spec fn diag_members(d: Diag) -> Seq<(Seq<char>, JsonView)> {
    let m0 = seq![("message"@, JsonView::Str(d.message)), ("severity"@, JsonView::Str(severity_label(d.severity)))];
    let m1 = if d.line is Some {
        m0.push(("line"@, JsonView::Number(d.line->0 as u64)))
    } else {
        m0
    };
    let m2 = if d.column is Some {
        m1.push(("column"@, JsonView::Number(d.column->0 as u64)))
    } else {
        m1
    };
    let m3 = if d.rule_code is Some {
        m2.push(("rule"@, JsonView::Str(d.rule_code->0)))
    } else {
        m2
    };
    let m4 = if d.help is Some {
        m3.push(("help"@, JsonView::Str(d.help->0)))
    } else {
        m3
    };
    let m5 = if d.suggestion is Some {
        m4.push(("suggestion"@, JsonView::Str(d.suggestion->0)))
    } else {
        m4
    };
    if d.context is Some {
        m5.push(("context"@, JsonView::Str(d.context->0)))
    } else {
        m5
    }
}

/// The JSON objects of diagnostics, in order.
pub open spec fn diag_items(s: Seq<Diag>) -> Seq<JsonView> {
    Seq::new(s.len(), |i: int| JsonView::Object(diag_members(s[i])))
}

/// The JSON object of one file's report: its path, every diagnostic
/// (errors, then warnings, then infos), and the count of each severity.
pub open spec fn report_json(path: Seq<char>, r: LintReport) -> JsonView {
    JsonView::Object(
        seq![
            ("path"@, JsonView::Str(path)),
            ("diagnostics"@, JsonView::Array(diag_items(diags(r.errors@) + diags(r.warnings@) + diags(r.infos@)))),
            ("counts"@, JsonView::Object(
                seq![
                    ("errors"@, JsonView::Number(r.errors@.len() as u64)),
                    ("warnings"@, JsonView::Number(r.warnings@.len() as u64)),
                    ("infos"@, JsonView::Number(r.infos@.len() as u64)),
                ],
            )),
        ],
    )
}

fn opt_string_member(es: &mut Vec<(String, JsonValue)>, key: &str, v: &Option<String>)
    ensures
        members_view(final(es)@) == if v is Some {
            members_view(old(es)@).push((key@, JsonView::Str(v->0@)))
        } else {
            members_view(old(es)@)
        },
{
    match v {
        Some(s) => push_member(es, key, JsonValue::Str(s.clone())),
        None => {},
    }
}

fn opt_number_member(es: &mut Vec<(String, JsonValue)>, key: &str, v: Option<usize>)
    ensures
        members_view(final(es)@) == if v is Some {
            members_view(old(es)@).push((key@, JsonView::Number(v->0 as u64)))
        } else {
            members_view(old(es)@)
        },
{
    match v {
        Some(n) => push_member(es, key, JsonValue::Number(n as u64)),
        None => {},
    }
}

/// The JSON object of a diagnostic.
fn diag_json(e: &LintError) -> (r: JsonValue)
    ensures
        json_view(r) == JsonView::Object(diag_members(e@)),
{
    let mut es: Vec<(String, JsonValue)> = Vec::new();
    push_member(&mut es, "message", JsonValue::Str(e.message.clone()));
    push_member(&mut es, "severity", JsonValue::Str(severity_label_exec(e.severity).to_owned()));
    opt_number_member(&mut es, "line", e.line);
    opt_number_member(&mut es, "column", e.column);
    opt_string_member(&mut es, "rule", &e.rule_code);
    opt_string_member(&mut es, "help", &e.help);
    opt_string_member(&mut es, "suggestion", &e.suggestion);
    opt_string_member(&mut es, "context", &e.context);
    assert(members_view(es@) =~= diag_members(e@));
    proof {
        lemma_object_view(es);
    }
    JsonValue::Object(es)
}

fn push_diag_items(items: &mut Vec<JsonValue>, v: &Vec<LintError>)
    ensures
        items_view(final(items)@) == items_view(old(items)@) + diag_items(diags(v@)),
{
    let ghost start = items_view(items@);
    let mut i: usize = 0;
    while i < v.len()
        invariant
            i <= v.len(),
            items_view(items@) == start + diag_items(diags(v@.take(i as int))),
        decreases v.len() - i,
    {
        push_item(items, diag_json(&v[i]));
        assert(diag_items(diags(v@.take(i + 1))) =~= diag_items(diags(v@.take(i as int))).push(
            JsonView::Object(diag_members(v@[i as int]@)),
        ));
        i += 1;
    }
    assert(v@.take(v.len() as int) =~= v@);
}

/// The JSON object of one file's report.
pub fn lint_report_to_json(file_path: &str, report: &LintReport) -> (r: JsonValue)
    ensures
        json_view(r) == report_json(file_path@, *report),
{
    let mut items: Vec<JsonValue> = Vec::new();
    assert(items_view(items@) =~= Seq::<JsonView>::empty());
    push_diag_items(&mut items, &report.errors);
    push_diag_items(&mut items, &report.warnings);
    push_diag_items(&mut items, &report.infos);
    proof {
        crate::diag::lemma_diags_concat(report.errors@, report.warnings@);
        crate::diag::lemma_diags_concat(report.errors@ + report.warnings@, report.infos@);
        assert(diag_items(diags(report.errors@) + diags(report.warnings@) + diags(report.infos@)) =~= Seq::<
            JsonView,
        >::empty() + diag_items(diags(report.errors@)) + diag_items(diags(report.warnings@)) + diag_items(
            diags(report.infos@),
        ));
        lemma_array_view(items);
    }
    let ghost iv = items_view(items@);
    let mut counts: Vec<(String, JsonValue)> = Vec::new();
    push_member(&mut counts, "errors", JsonValue::Number(report.errors.len() as u64));
    push_member(&mut counts, "warnings", JsonValue::Number(report.warnings.len() as u64));
    push_member(&mut counts, "infos", JsonValue::Number(report.infos.len() as u64));
    proof {
        lemma_object_view(counts);
    }
    let ghost cv = members_view(counts@);
    let mut es: Vec<(String, JsonValue)> = Vec::new();
    push_member(&mut es, "path", JsonValue::Str(file_path.to_owned()));
    push_member(&mut es, "diagnostics", JsonValue::Array(items));
    push_member(&mut es, "counts", JsonValue::Object(counts));
    proof {
        lemma_object_view(es);
    }
    let r = JsonValue::Object(es);
    assert(members_view(es@) =~= seq![
        ("path"@, JsonView::Str(file_path@)),
        ("diagnostics"@, JsonView::Array(iv)),
        ("counts"@, JsonView::Object(cv)),
    ]);
    assert(cv =~= seq![
        ("errors"@, JsonView::Number(report.errors@.len() as u64)),
        ("warnings"@, JsonView::Number(report.warnings@.len() as u64)),
        ("infos"@, JsonView::Number(report.infos@.len() as u64)),
    ]);
    assert(iv == diag_items(diags(report.errors@) + diags(report.warnings@) + diags(report.infos@)));
    assert(json_view(r) == report_json(file_path@, *report));
    r
}

/// The JSON output of a check: the program version, each file's report
/// object, and the summary counts.
pub open spec fn check_json_view(
    version: Seq<char>,
    files: Seq<JsonView>,
    files_linted: usize,
    errors: usize,
    warnings: usize,
    infos: usize,
) -> JsonView {
    JsonView::Object(
        seq![
            ("version"@, JsonView::Str(version)),
            ("files"@, JsonView::Array(files)),
            ("summary"@, JsonView::Object(
                seq![
                    ("files_linted"@, JsonView::Number(files_linted as u64)),
                    ("errors"@, JsonView::Number(errors as u64)),
                    ("warnings"@, JsonView::Number(warnings as u64)),
                    ("infos"@, JsonView::Number(infos as u64)),
                ],
            )),
        ],
    )
}

/// The JSON output of a check, from the file reports and the totals.
pub fn check_json(
    version: &str,
    files: Vec<JsonValue>,
    files_linted: usize,
    errors: usize,
    warnings: usize,
    infos: usize,
) -> (r: JsonValue)
    ensures
        json_view(r) == check_json_view(version@, items_view(files@), files_linted, errors, warnings, infos),
{
    let ghost fv = items_view(files@);
    proof {
        lemma_array_view(files);
    }
    let mut summary: Vec<(String, JsonValue)> = Vec::new();
    push_member(&mut summary, "files_linted", JsonValue::Number(files_linted as u64));
    push_member(&mut summary, "errors", JsonValue::Number(errors as u64));
    push_member(&mut summary, "warnings", JsonValue::Number(warnings as u64));
    push_member(&mut summary, "infos", JsonValue::Number(infos as u64));
    proof {
        lemma_object_view(summary);
    }
    let ghost sv = members_view(summary@);
    let mut es: Vec<(String, JsonValue)> = Vec::new();
    push_member(&mut es, "version", JsonValue::Str(version.to_owned()));
    push_member(&mut es, "files", JsonValue::Array(files));
    push_member(&mut es, "summary", JsonValue::Object(summary));
    proof {
        lemma_object_view(es);
    }
    let r = JsonValue::Object(es);
    assert(members_view(es@) =~= seq![
        ("version"@, JsonView::Str(version@)),
        ("files"@, JsonView::Array(fv)),
        ("summary"@, JsonView::Object(sv)),
    ]);
    assert(sv =~= seq![
        ("files_linted"@, JsonView::Number(files_linted as u64)),
        ("errors"@, JsonView::Number(errors as u64)),
        ("warnings"@, JsonView::Number(warnings as u64)),
        ("infos"@, JsonView::Number(infos as u64)),
    ]);
    assert(json_view(r) == check_json_view(version@, fv, files_linted, errors, warnings, infos));
    r
}

/// How the rule list names a default severity (its `Debug` form).
pub open spec fn severity_name(s: Severity) -> Seq<char> {
    match s {
        Severity::Error => "Error"@,
        Severity::Warning => "Warning"@,
        Severity::Info => "Info"@,
    }
}

fn severity_name_exec(s: Severity) -> (r: &'static str)
    ensures
        r@ == severity_name(s),
{
    match s {
        Severity::Error => "Error",
        Severity::Warning => "Warning",
        Severity::Info => "Info",
    }
}

/// The JSON object of a rule: name, description, category, whether it is
/// fixable and experimental, default severity and documentation link (null
/// when it has none).
pub open spec fn rule_json(r: BuiltinRule) -> JsonView {
    JsonView::Object(
        seq![
            ("name"@, JsonView::Str(builtin_name(r))),
            ("description"@, JsonView::Str(builtin_description(r))),
            ("category"@, JsonView::Str(builtin_category(r))),
            ("fixable"@, JsonView::Bool(builtin_fixable(r))),
            ("preview"@, JsonView::Bool(builtin_preview(r))),
            ("severity"@, JsonView::Str(severity_name(builtin_severity(r)))),
            ("docs_url"@, match builtin_docs_url(r) {
                Some(u) => JsonView::Str(u),
                None => JsonView::Null,
            }),
        ],
    )
}

/// The JSON listing of rules: each rule's object, and their number.
pub open spec fn rules_json_view(rules: Seq<BuiltinRule>) -> JsonView {
    JsonView::Object(
        seq![
            ("rules"@, JsonView::Array(Seq::new(rules.len(), |i: int| rule_json(rules[i])))),
            ("total"@, JsonView::Number(rules.len() as u64)),
        ],
    )
}

fn rule_json_exec(r: &BuiltinRule) -> (j: JsonValue)
    ensures
        json_view(j) == rule_json(*r),
{
    let mut es: Vec<(String, JsonValue)> = Vec::new();
    push_member(&mut es, "name", JsonValue::Str(r.name().to_owned()));
    push_member(&mut es, "description", JsonValue::Str(r.description().to_owned()));
    push_member(&mut es, "category", JsonValue::Str(r.category().to_owned()));
    push_member(&mut es, "fixable", JsonValue::Bool(r.is_fixable()));
    push_member(&mut es, "preview", JsonValue::Bool(r.is_preview()));
    push_member(&mut es, "severity", JsonValue::Str(severity_name_exec(r.default_severity()).to_owned()));
    let url = match r.docs_url() {
        Some(u) => JsonValue::Str(u.to_owned()),
        None => JsonValue::Null,
    };
    push_member(&mut es, "docs_url", url);
    proof {
        lemma_object_view(es);
    }
    let j = JsonValue::Object(es);
    assert(members_view(es@) =~= match rule_json(*r) {
        JsonView::Object(m) => m,
        _ => Seq::empty(),
    });
    j
}

/// The JSON listing of the given rules.
pub fn rules_json(rules: &[BuiltinRule]) -> (r: JsonValue)
    ensures
        json_view(r) == rules_json_view(rules@),
{
    let mut items: Vec<JsonValue> = Vec::new();
    let mut i: usize = 0;
    while i < rules.len()
        invariant
            i <= rules@.len(),
            items_view(items@) == Seq::new(i as nat, |k: int| rule_json(rules@[k])),
        decreases rules.len() - i,
    {
        push_item(&mut items, rule_json_exec(&rules[i]));
        assert(Seq::new((i + 1) as nat, |k: int| rule_json(rules@[k])) =~= Seq::new(
            i as nat,
            |k: int| rule_json(rules@[k]),
        ).push(rule_json(rules@[i as int])));
        i += 1;
    }
    proof {
        lemma_array_view(items);
    }
    let ghost iv = items_view(items@);
    let mut es: Vec<(String, JsonValue)> = Vec::new();
    push_member(&mut es, "rules", JsonValue::Array(items));
    push_member(&mut es, "total", JsonValue::Number(rules.len() as u64));
    proof {
        lemma_object_view(es);
    }
    let r = JsonValue::Object(es);
    assert(iv =~= Seq::new(rules@.len(), |k: int| rule_json(rules@[k])));
    assert(members_view(es@) =~= seq![
        ("rules"@, JsonView::Array(iv)),
        ("total"@, JsonView::Number(rules@.len() as u64)),
    ]);
    r
}

} // verus!
