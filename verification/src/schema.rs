//! Documentation of the Fleet GitOps fields, platforms and logging types,
//! rendered for editor hovers and completions.
use vstd::prelude::*;

use crate::text;
use crate::text::{chars_of, concat, string_of, strs};

verus! {

broadcast use vstd::string::group_string_axioms;

/// Documentation for one configuration field.
#[derive(Debug, Clone)]
pub struct FieldDoc {
    /// The field name (e.g. `platform`).
    pub name: &'static str,
    /// What the field is for.
    pub description: &'static str,
    /// The values an enumerated field accepts.
    pub valid_values: Option<Vec<&'static str>>,
    /// An example in YAML.
    pub example: Option<&'static str>,
    /// Whether the field is required.
    pub required: bool,
    /// The field's data type.
    pub field_type: &'static str,
    /// A `fleetctl` command for working with the field.
    pub cli_hint: Option<&'static str>,
}

/// The content of a `FieldDoc`.
pub struct FieldDocView {
    pub name: Seq<char>,
    pub description: Seq<char>,
    pub valid_values: Option<Seq<Seq<char>>>,
    pub example: Option<Seq<char>>,
    pub required: bool,
    pub field_type: Seq<char>,
    pub cli_hint: Option<Seq<char>>,
}

/// The text of an optional string.
pub open spec fn opt_str(o: Option<&'static str>) -> Option<Seq<char>> {
    match o {
        Some(s) => Some(s@),
        None => None,
    }
}

impl View for FieldDoc {
    type V = FieldDocView;

    open spec fn view(&self) -> FieldDocView {
        FieldDocView {
            name: self.name@,
            description: self.description@,
            valid_values: match self.valid_values {
                Some(v) => Some(strs(v@)),
                None => None,
            },
            example: opt_str(self.example),
            required: self.required,
            field_type: self.field_type@,
            cli_hint: opt_str(self.cli_hint),
        }
    }
}

/// The keys and contents of a documentation table.
pub open spec fn doc_entries(v: Seq<(&'static str, FieldDoc)>) -> Seq<(Seq<char>, FieldDocView)> {
    Seq::new(v.len(), |i: int| (v[i].0@, v[i].1@))
}

/// The bullet list of valid values, one `` - `v` `` line each.
pub open spec fn values_md(vs: Seq<Seq<char>>) -> Seq<char>
    decreases vs.len(),
{
    if vs.len() == 0 {
        Seq::empty()
    } else {
        values_md(vs.drop_last()) + "- `"@ + vs.last() + "`\n"@
    }
}

/// The Markdown of a field's documentation: name and description, then
/// whether it is required, its type, valid values, example and CLI hint.
pub open spec fn markdown(d: FieldDocView) -> Seq<char> {
    "**"@ + d.name + "**\n\n"@ + d.description + (if d.required {
        "\n\n*Required*"@
    } else {
        Seq::empty()
    }) + "\n\n**Type:** `"@ + d.field_type + "`"@ + (match d.valid_values {
        Some(vs) => "\n\n**Valid values:**\n"@ + values_md(vs),
        None => Seq::empty(),
    }) + (match d.example {
        Some(e) => "\n**Example:**\n```yaml\n"@ + e + "\n```"@,
        None => Seq::empty(),
    }) + (match d.cli_hint {
        Some(c) => "\n\n**CLI:**\n```\n"@ + c + "\n```"@,
        None => Seq::empty(),
    })
}

/// Appends a literal to a character vector.
fn push_lit(v: Vec<char>, s: &str) -> (r: Vec<char>)
    ensures
        r@ == v@ + s@,
{
    concat(&v, &chars_of(s))
}

/// Appends the bullet list of valid values.
fn push_values(md: Vec<char>, values: &Vec<&'static str>) -> (r: Vec<char>)
    ensures
        r@ == md@ + values_md(strs(values@)),
{
    let ghost vs = strs(values@);
    let ghost base = md@;
    let mut md = md;
    let mut i: usize = 0;
    assert(md@ =~= base + values_md(vs.take(0)));
    while i < values.len()
        invariant
            i <= values@.len(),
            vs == strs(values@),
            md@ == base + values_md(vs.take(i as int)),
        decreases values.len() - i,
    {
        assert(vs.take(i + 1).drop_last() =~= vs.take(i as int));
        md = push_lit(md, "- `");
        md = push_lit(md, values[i]);
        md = push_lit(md, "`\n");
        assert(md@ =~= base + values_md(vs.take(i + 1)));
        i += 1;
    }
    assert(vs.take(values.len() as int) =~= vs);
    md
}

impl FieldDoc {
    /// The documentation as Markdown, for hover display.
    #[verifier::spinoff_prover]
    pub fn to_markdown(&self) -> (r: String)
        ensures
            r@ == markdown(self@),
    {
        let ghost d = self@;
        let mut md = push_lit(chars_of("**"), self.name);
        md = push_lit(md, "**\n\n");
        md = push_lit(md, self.description);
        let ghost head = "**"@ + d.name + "**\n\n"@ + d.description;
        assert(md@ =~= head);
        if self.required {
            md = push_lit(md, "\n\n*Required*");
        }
        let ghost a = head + (if d.required { "\n\n*Required*"@ } else { Seq::empty() });
        assert(md@ =~= a);
        md = push_lit(md, "\n\n**Type:** `");
        md = push_lit(md, self.field_type);
        md = push_lit(md, "`");
        let ghost b = a + "\n\n**Type:** `"@ + d.field_type + "`"@;
        assert(md@ =~= b);
        match &self.valid_values {
            Some(values) => {
                md = push_lit(md, "\n\n**Valid values:**\n");
                md = push_values(md, values);
            },
            None => {},
        }
        let ghost c = b + (match d.valid_values {
            Some(vs) => "\n\n**Valid values:**\n"@ + values_md(vs),
            None => Seq::empty(),
        });
        assert(md@ =~= c);
        match self.example {
            Some(e) => {
                md = push_lit(md, "\n**Example:**\n```yaml\n");
                md = push_lit(md, e);
                md = push_lit(md, "\n```");
            },
            None => {},
        }
        let ghost e = c + (match d.example {
            Some(e) => "\n**Example:**\n```yaml\n"@ + e + "\n```"@,
            None => Seq::empty(),
        });
        assert(md@ =~= e);
        match self.cli_hint {
            Some(cli) => {
                md = push_lit(md, "\n\n**CLI:**\n```\n");
                md = push_lit(md, cli);
                md = push_lit(md, "\n```");
            },
            None => {},
        }
        assert(md@ =~= markdown(d));
        string_of(&md)
    }
}

/// The first entry of a table with key `key`.
pub open spec fn doc_lookup(t: Seq<(Seq<char>, FieldDocView)>, key: Seq<char>) -> Option<FieldDocView>
    decreases t.len(),
{
    if t.len() == 0 {
        None
    } else if t[0].0 == key {
        Some(t[0].1)
    } else {
        doc_lookup(t.drop_first(), key)
    }
}

/// The text after the last `.` of a path (all of it when it has none).
pub open spec fn last_segment(p: Seq<char>) -> Seq<char>
    decreases p.len(),
{
    if p.len() == 0 {
        p
    } else if p.last() == '.' {
        Seq::empty()
    } else {
        last_segment(p.drop_last()).push(p.last())
    }
}

/// A key names the field `seg`: it is `seg` or ends with `.seg`.
pub open spec fn names_field(key: Seq<char>, seg: Seq<char>) -> bool {
    text::ends_with(key, "."@ + seg) || key == seg
}

/// The documentation found for a path by exact key, or by the path under
/// `policies`, `queries` or `labels`, in that order.
pub open spec fn direct_doc(path: Seq<char>) -> Option<FieldDocView> {
    let t = field_doc_table();
    match doc_lookup(t, path) {
        Some(d) => Some(d),
        None => match doc_lookup(t, "policies."@ + path) {
            Some(d) => Some(d),
            None => match doc_lookup(t, "queries."@ + path) {
                Some(d) => Some(d),
                None => doc_lookup(t, "labels."@ + path),
            },
        },
    }
}

/// The index of the first entry of `v` whose key is `key`.
fn find_key(v: &Vec<(&'static str, FieldDoc)>, key: &[char]) -> (r: Option<usize>)
    ensures
        match r {
            Some(i) => i < v@.len() && doc_lookup(doc_entries(v@), key@) == Some(v@[i as int].1@),
            None => doc_lookup(doc_entries(v@), key@) is None,
        },
{
    let ghost t = doc_entries(v@);
    assert(t.skip(0) =~= t);
    let mut j: usize = 0;
    while j < v.len()
        invariant
            j <= v@.len(),
            t == doc_entries(v@),
            doc_lookup(t, key@) == doc_lookup(t.skip(j as int), key@),
        decreases v.len() - j,
    {
        assert(t.skip(j as int)[0] == (v@[j as int].0@, v@[j as int].1@));
        if text::eq_str(key, v[j].0) {
            return Some(j);
        }
        assert(t.skip(j as int).drop_first() =~= t.skip(j + 1));
        j += 1;
    }
    assert(t.skip(j as int) =~= Seq::<(Seq<char>, FieldDocView)>::empty());
    None
}

/// The last `.`-separated segment of a path.
fn last_segment_exec(p: &[char]) -> (r: Vec<char>)
    ensures
        r@ == last_segment(p@),
{
    let mut i: usize = p.len();
    assert(p@.take(p.len() as int) =~= p@);
    assert(p@.skip(p.len() as int) =~= Seq::<char>::empty());
    while i > 0 && p[i - 1] != '.'
        invariant
            i <= p.len(),
            last_segment(p@) == last_segment(p@.take(i as int)) + p@.skip(i as int),
        decreases i,
    {
        assert(p@.take(i as int).drop_last() =~= p@.take(i - 1));
        assert(p@.take(i as int).last() == p@[i - 1]);
        assert(p@.skip(i - 1) =~= seq![p@[i - 1]] + p@.skip(i as int));
        assert(last_segment(p@.take(i as int)) == last_segment(p@.take(i - 1)).push(p@[i - 1]));
        assert(last_segment(p@.take(i - 1)).push(p@[i - 1]) + p@.skip(i as int) =~= last_segment(p@.take(i - 1)) + p@.skip(i - 1));
        i -= 1;
    }
    if i > 0 {
        assert(p@.take(i as int).last() == '.');
        assert(last_segment(p@.take(i as int)) == Seq::<char>::empty());
    } else {
        assert(p@.take(0) =~= Seq::<char>::empty());
    }
    let r = text::slice_range(p, i, p.len());
    assert(r@ =~= last_segment(p@));
    r
}

/// Documentation of a field by path (`policies.platform`, or just
/// `platform`): the exact key; else the path under `policies`, `queries`
/// or `labels`; else an entry whose last segment is the path's last
/// segment. Several entries can qualify in that last step; which of them
/// is returned is left open.
pub fn get_field_doc(path: &str) -> (r: Option<FieldDoc>)
    ensures
        match direct_doc(path@) {
            Some(d) => r matches Some(x) && x@ == d,
            None => {
                let t = field_doc_table();
                let seg = last_segment(path@);
                &&& r matches Some(x) ==> exists|i: int|
                    0 <= i < t.len() && names_field(#[trigger] t[i].0, seg) && t[i].1 == x@
                &&& r is None ==> forall|i: int| 0 <= i < t.len() ==> !names_field(#[trigger] t[i].0, seg)
            },
        },
{
    let mut docs = field_docs();
    let ghost t0 = field_doc_table();
    assert(doc_entries(docs@) == t0);
    let p = chars_of(path);
    match find_key(&docs, &p) {
        Some(i) => {
            let ghost want = docs@[i as int].1@;
            let e = docs.remove(i);
            assert(e.1@ == want);
            return Some(e.1);
        },
        None => {},
    }
    let k1 = concat(&chars_of("policies."), &p);
    match find_key(&docs, &k1) {
        Some(i) => {
            let ghost want = docs@[i as int].1@;
            let e = docs.remove(i);
            assert(e.1@ == want);
            return Some(e.1);
        },
        None => {},
    }
    let k2 = concat(&chars_of("queries."), &p);
    match find_key(&docs, &k2) {
        Some(i) => {
            let ghost want = docs@[i as int].1@;
            let e = docs.remove(i);
            assert(e.1@ == want);
            return Some(e.1);
        },
        None => {},
    }
    let k3 = concat(&chars_of("labels."), &p);
    match find_key(&docs, &k3) {
        Some(i) => {
            let ghost want = docs@[i as int].1@;
            let e = docs.remove(i);
            assert(e.1@ == want);
            return Some(e.1);
        },
        None => {},
    }
    assert(direct_doc(path@) is None);
    let seg = last_segment_exec(&p);
    let suffix = concat(&chars_of("."), &seg);
    let ghost t = doc_entries(docs@);
    let mut j: usize = 0;
    while j < docs.len()
        invariant
            j <= docs@.len(),
            t == doc_entries(docs@),
            t == field_doc_table(),
            seg@ == last_segment(path@),
            direct_doc(path@) is None,
            suffix@ == "."@ + seg@,
            forall|i: int| 0 <= i < j ==> !names_field(#[trigger] t[i].0, seg@),
        decreases docs.len() - j,
    {
        let kc = chars_of(docs[j].0);
        if text::ends_with_exec(&kc, &suffix) || text::eq(&kc, &seg) {
            assert(names_field(t[j as int].0, seg@));
            let ghost want = docs@[j as int].1@;
            let e = docs.remove(j);
            assert(e.1@ == want);
            return Some(e.1);
        }
        j += 1;
    }
    None
}

/// The documentation table as a lookup by exact key.
pub fn field_doc(key: &str) -> (r: Option<FieldDoc>)
    ensures
        match doc_lookup(field_doc_table(), key@) {
            Some(d) => r matches Some(x) && x@ == d,
            None => r is None,
        },
{
    let mut docs = field_docs();
    match find_key(&docs, &chars_of(key)) {
        Some(i) => Some(docs.remove(i).1),
        None => None,
    }
}

/// The descriptions of the platform values.
pub open spec fn platform_doc_table() -> Seq<(Seq<char>, Seq<char>)> {
    seq![
        ("darwin"@, "macOS - Apple desktop and laptop computers"@),
        ("windows"@, "Microsoft Windows operating systems"@),
        ("linux"@, "Linux distributions (Ubuntu, CentOS, Debian, etc.)"@),
        ("chrome"@, "ChromeOS - Chromebook devices"@),
        ("ios"@, "iOS - Apple iPhone devices"@),
        ("ipados"@, "iPadOS - Apple iPad devices"@),
        ("android"@, "Android - Android mobile devices"@),
        ("all"@, "All supported platforms"@),
    ]
}

/// The descriptions of the logging types.
pub open spec fn logging_doc_table() -> Seq<(Seq<char>, Seq<char>)> {
    seq![
        ("snapshot"@, "Logs all results from each query execution. Best for point-in-time data."@),
        ("differential"@, "Only logs changes (additions and removals) between query executions. Reduces log volume."@),
        ("differential_ignore_removals"@, "Like differential, but only logs additions. Useful when removals are expected."@),
    ]
}

/// The value paired with `key` in a table of pairs.
pub open spec fn pair_lookup(t: Seq<(Seq<char>, Seq<char>)>, key: Seq<char>) -> Option<Seq<char>>
    decreases t.len(),
{
    if t.len() == 0 {
        None
    } else if t[0].0 == key {
        Some(t[0].1)
    } else {
        pair_lookup(t.drop_first(), key)
    }
}

/// The description of a platform value.
pub fn get_platform_doc(platform: &str) -> (r: Option<&'static str>)
    ensures
        opt_str(r) == pair_lookup(platform_doc_table(), platform@),
{
    reveal_with_fuel(pair_lookup, 9);
    if text::str_eq(platform, "darwin") {
        Some("macOS - Apple desktop and laptop computers")
    } else if text::str_eq(platform, "windows") {
        Some("Microsoft Windows operating systems")
    } else if text::str_eq(platform, "linux") {
        Some("Linux distributions (Ubuntu, CentOS, Debian, etc.)")
    } else if text::str_eq(platform, "chrome") {
        Some("ChromeOS - Chromebook devices")
    } else if text::str_eq(platform, "ios") {
        Some("iOS - Apple iPhone devices")
    } else if text::str_eq(platform, "ipados") {
        Some("iPadOS - Apple iPad devices")
    } else if text::str_eq(platform, "android") {
        Some("Android - Android mobile devices")
    } else if text::str_eq(platform, "all") {
        Some("All supported platforms")
    } else {
        None
    }
}

/// The description of a logging type.
pub fn get_logging_doc(logging: &str) -> (r: Option<&'static str>)
    ensures
        opt_str(r) == pair_lookup(logging_doc_table(), logging@),
{
    reveal_with_fuel(pair_lookup, 4);
    if text::str_eq(logging, "snapshot") {
        Some("Logs all results from each query execution. Best for point-in-time data.")
    } else if text::str_eq(logging, "differential") {
        Some("Only logs changes (additions and removals) between query executions. Reduces log volume.")
    } else if text::str_eq(logging, "differential_ignore_removals") {
        Some("Like differential, but only logs additions. Useful when removals are expected.")
    } else {
        None
    }
}

/// Every valid platform value.
pub fn valid_platforms() -> (r: Vec<&'static str>)
    ensures
        strs(r@) == seq!["darwin"@, "windows"@, "linux"@, "chrome"@, "ios"@, "ipados"@, "android"@],
{
    let mut v: Vec<&'static str> = Vec::new();
    v.push("darwin");
    v.push("windows");
    v.push("linux");
    v.push("chrome");
    v.push("ios");
    v.push("ipados");
    v.push("android");
    assert(strs(v@) =~= seq!["darwin"@, "windows"@, "linux"@, "chrome"@, "ios"@, "ipados"@, "android"@]);
    v
}

/// Every valid logging type.
pub fn valid_logging_types() -> (r: Vec<&'static str>)
    ensures
        strs(r@) == seq!["snapshot"@, "differential"@, "differential_ignore_removals"@],
{
    let mut v: Vec<&'static str> = Vec::new();
    v.push("snapshot");
    v.push("differential");
    v.push("differential_ignore_removals");
    assert(strs(v@) =~= seq!["snapshot"@, "differential"@, "differential_ignore_removals"@]);
    v
}

/// Entries 1 to 12 of the field documentation.
pub closed spec fn field_docs_part1() -> Seq<(Seq<char>, FieldDocView)> {
    seq![
        ("policies.name"@, FieldDocView { name: "name"@, description: "The display name of the policy. Must be unique within the organization."@, valid_values: None, example: Some("name: Ensure FileVault is enabled"@), required: true, field_type: "string"@, cli_hint: None }),
        ("policies.description"@, FieldDocView { name: "description"@, description: "A detailed description of what this policy checks and why it matters."@, valid_values: None, example: Some("description: Verifies that disk encryption is enabled to protect data at rest"@), required: false, field_type: "string"@, cli_hint: None }),
        ("policies.query"@, FieldDocView { name: "query"@, description: "The osquery SQL query that determines policy compliance. Required for standard policies; automatically generated (not needed) when type: patch."@, valid_values: None, example: Some("query: SELECT 1 FROM disk_encryption WHERE encrypted = 0"@), required: false, field_type: "string (osquery SQL)"@, cli_hint: None }),
        ("policies.type"@, FieldDocView { name: "type"@, description: "Set to 'patch' to create a Fleet Maintained App patch policy. The SQL query is auto-generated — no query field needed."@, valid_values: Some(seq!["patch"@]), example: Some("type: patch"@), required: false, field_type: "string"@, cli_hint: None }),
        ("policies.fleet_maintained_app_slug"@, FieldDocView { name: "fleet_maintained_app_slug"@, description: "The Fleet Maintained App slug to target with a patch policy (e.g. zoom/darwin, firefox/windows)."@, valid_values: None, example: Some("fleet_maintained_app_slug: zoom/darwin"@), required: false, field_type: "string"@, cli_hint: None }),
        ("policies.version"@, FieldDocView { name: "version"@, description: "Pin a specific app version for a patch policy."@, valid_values: None, example: Some("version: \"5.17.0\""@), required: false, field_type: "string"@, cli_hint: None }),
        ("policies.install_software"@, FieldDocView { name: "install_software"@, description: "Automatically install software when this policy fails (Premium feature, team-level only). For patch policies, set to `true` to auto-install the Fleet Maintained App. For standard policies, provide an object with one of: `package_path`, `fleet_maintained_app_slug`, or `hash_sha256`."@, valid_values: Some(seq!["true"@, "package_path: <path>"@, "fleet_maintained_app_slug: <slug>"@, "hash_sha256: <hash>"@]), example: Some("install_software: true\n# or:\ninstall_software:\n  fleet_maintained_app_slug: zoom/darwin\n# or:\ninstall_software:\n  package_path: ../lib/firefox.package.yml"@), required: false, field_type: "boolean or object"@, cli_hint: None }),
        ("policies.run_script"@, FieldDocView { name: "run_script"@, description: "Run a script when this policy fails (Premium feature, team-level only)."@, valid_values: None, example: Some("run_script:\n  path: ../lib/fix-compliance.sh"@), required: false, field_type: "object"@, cli_hint: None }),
        ("policies.platform"@, FieldDocView { name: "platform"@, description: "The operating system(s) this policy applies to. The query must use tables available on this platform."@, valid_values: Some(seq!["darwin"@, "windows"@, "linux"@, "chrome"@, "ios"@, "ipados"@, "android"@]), example: Some("platform: darwin"@), required: false, field_type: "string"@, cli_hint: None }),
        ("policies.critical"@, FieldDocView { name: "critical"@, description: "Whether this policy is critical. Critical policy failures are highlighted and may trigger alerts."@, valid_values: Some(seq!["true"@, "false"@]), example: Some("critical: true"@), required: false, field_type: "boolean"@, cli_hint: None }),
        ("policies.resolution"@, FieldDocView { name: "resolution"@, description: "Instructions for end users on how to resolve a policy failure. Shown in Fleet Desktop."@, valid_values: None, example: Some("resolution: Enable FileVault in System Preferences > Security & Privacy"@), required: false, field_type: "string"@, cli_hint: None }),
        ("policies.team"@, FieldDocView { name: "team"@, description: "The fleet this policy belongs to. If not specified, applies globally."@, valid_values: None, example: Some("team: Engineering"@), required: false, field_type: "string"@, cli_hint: None }),
    ]
}

/// Appends entries 1 to 12 of the field documentation.
fn push_field_docs_part1(v: &mut Vec<(&'static str, FieldDoc)>)
    ensures
        doc_entries(final(v)@) == doc_entries(old(v)@) + field_docs_part1(),
{
    v.push(("policies.name", FieldDoc { name: "name", description: "The display name of the policy. Must be unique within the organization.", valid_values: None, example: Some("name: Ensure FileVault is enabled"), required: true, field_type: "string", cli_hint: None }));
    v.push(("policies.description", FieldDoc { name: "description", description: "A detailed description of what this policy checks and why it matters.", valid_values: None, example: Some("description: Verifies that disk encryption is enabled to protect data at rest"), required: false, field_type: "string", cli_hint: None }));
    v.push(("policies.query", FieldDoc { name: "query", description: "The osquery SQL query that determines policy compliance. Required for standard policies; automatically generated (not needed) when type: patch.", valid_values: None, example: Some("query: SELECT 1 FROM disk_encryption WHERE encrypted = 0"), required: false, field_type: "string (osquery SQL)", cli_hint: None }));
    let mut vals: Vec<&'static str> = Vec::new();
    vals.push("patch");
    assert(strs(vals@) =~= seq!["patch"@]);
    v.push(("policies.type", FieldDoc { name: "type", description: "Set to 'patch' to create a Fleet Maintained App patch policy. The SQL query is auto-generated — no query field needed.", valid_values: Some(vals), example: Some("type: patch"), required: false, field_type: "string", cli_hint: None }));
    v.push(("policies.fleet_maintained_app_slug", FieldDoc { name: "fleet_maintained_app_slug", description: "The Fleet Maintained App slug to target with a patch policy (e.g. zoom/darwin, firefox/windows).", valid_values: None, example: Some("fleet_maintained_app_slug: zoom/darwin"), required: false, field_type: "string", cli_hint: None }));
    v.push(("policies.version", FieldDoc { name: "version", description: "Pin a specific app version for a patch policy.", valid_values: None, example: Some("version: \"5.17.0\""), required: false, field_type: "string", cli_hint: None }));
    let mut vals: Vec<&'static str> = Vec::new();
    vals.push("true");
    vals.push("package_path: <path>");
    vals.push("fleet_maintained_app_slug: <slug>");
    vals.push("hash_sha256: <hash>");
    assert(strs(vals@) =~= seq!["true"@, "package_path: <path>"@, "fleet_maintained_app_slug: <slug>"@, "hash_sha256: <hash>"@]);
    v.push(("policies.install_software", FieldDoc { name: "install_software", description: "Automatically install software when this policy fails (Premium feature, team-level only). For patch policies, set to `true` to auto-install the Fleet Maintained App. For standard policies, provide an object with one of: `package_path`, `fleet_maintained_app_slug`, or `hash_sha256`.", valid_values: Some(vals), example: Some("install_software: true\n# or:\ninstall_software:\n  fleet_maintained_app_slug: zoom/darwin\n# or:\ninstall_software:\n  package_path: ../lib/firefox.package.yml"), required: false, field_type: "boolean or object", cli_hint: None }));
    v.push(("policies.run_script", FieldDoc { name: "run_script", description: "Run a script when this policy fails (Premium feature, team-level only).", valid_values: None, example: Some("run_script:\n  path: ../lib/fix-compliance.sh"), required: false, field_type: "object", cli_hint: None }));
    let mut vals: Vec<&'static str> = Vec::new();
    vals.push("darwin");
    vals.push("windows");
    vals.push("linux");
    vals.push("chrome");
    vals.push("ios");
    vals.push("ipados");
    vals.push("android");
    assert(strs(vals@) =~= seq!["darwin"@, "windows"@, "linux"@, "chrome"@, "ios"@, "ipados"@, "android"@]);
    v.push(("policies.platform", FieldDoc { name: "platform", description: "The operating system(s) this policy applies to. The query must use tables available on this platform.", valid_values: Some(vals), example: Some("platform: darwin"), required: false, field_type: "string", cli_hint: None }));
    let mut vals: Vec<&'static str> = Vec::new();
    vals.push("true");
    vals.push("false");
    assert(strs(vals@) =~= seq!["true"@, "false"@]);
    v.push(("policies.critical", FieldDoc { name: "critical", description: "Whether this policy is critical. Critical policy failures are highlighted and may trigger alerts.", valid_values: Some(vals), example: Some("critical: true"), required: false, field_type: "boolean", cli_hint: None }));
    v.push(("policies.resolution", FieldDoc { name: "resolution", description: "Instructions for end users on how to resolve a policy failure. Shown in Fleet Desktop.", valid_values: None, example: Some("resolution: Enable FileVault in System Preferences > Security & Privacy"), required: false, field_type: "string", cli_hint: None }));
    v.push(("policies.team", FieldDoc { name: "team", description: "The fleet this policy belongs to. If not specified, applies globally.", valid_values: None, example: Some("team: Engineering"), required: false, field_type: "string", cli_hint: None }));
    assert(doc_entries(v@) =~= doc_entries(old(v)@) + field_docs_part1());
}

/// Entries 13 to 24 of the field documentation.
pub closed spec fn field_docs_part2() -> Seq<(Seq<char>, FieldDocView)> {
    seq![
        ("policies.calendar_events_enabled"@, FieldDocView { name: "calendar_events_enabled"@, description: "Whether to create calendar events for policy failures to remind users to fix issues."@, valid_values: Some(seq!["true"@, "false"@]), example: Some("calendar_events_enabled: true"@), required: false, field_type: "boolean"@, cli_hint: None }),
        ("queries.name"@, FieldDocView { name: "name"@, description: "The display name of the query. Must be unique within the organization."@, valid_values: None, example: Some("name: Get running processes"@), required: true, field_type: "string"@, cli_hint: None }),
        ("queries.description"@, FieldDocView { name: "description"@, description: "A description of what this query collects and its purpose."@, valid_values: None, example: Some("description: Collects all running processes for security analysis"@), required: false, field_type: "string"@, cli_hint: None }),
        ("queries.query"@, FieldDocView { name: "query"@, description: "The osquery SQL query to execute on hosts."@, valid_values: None, example: Some("query: SELECT name, path, pid FROM processes"@), required: true, field_type: "string (osquery SQL)"@, cli_hint: None }),
        ("queries.interval"@, FieldDocView { name: "interval"@, description: "How often to run this query, in seconds. Lower values increase resource usage."@, valid_values: None, example: Some("interval: 3600  # Run every hour"@), required: false, field_type: "integer (seconds)"@, cli_hint: None }),
        ("queries.platform"@, FieldDocView { name: "platform"@, description: "The operating system(s) this query runs on. The query must use tables available on this platform."@, valid_values: Some(seq!["darwin"@, "windows"@, "linux"@, "chrome"@, "ios"@, "ipados"@, "android"@, "all"@]), example: Some("platform: darwin"@), required: false, field_type: "string"@, cli_hint: None }),
        ("queries.logging"@, FieldDocView { name: "logging"@, description: "How query results are logged. Affects log volume and what data is captured."@, valid_values: Some(seq!["snapshot"@, "differential"@, "differential_ignore_removals"@]), example: Some("logging: differential"@), required: false, field_type: "string"@, cli_hint: None }),
        ("queries.min_osquery_version"@, FieldDocView { name: "min_osquery_version"@, description: "Minimum osquery version required to run this query. Hosts with older versions will skip it."@, valid_values: None, example: Some("min_osquery_version: 5.0.0"@), required: false, field_type: "string (semver)"@, cli_hint: None }),
        ("queries.observer_can_run"@, FieldDocView { name: "observer_can_run"@, description: "Whether users with Observer role can run this query on-demand."@, valid_values: Some(seq!["true"@, "false"@]), example: Some("observer_can_run: true"@), required: false, field_type: "boolean"@, cli_hint: None }),
        ("queries.automations_enabled"@, FieldDocView { name: "automations_enabled"@, description: "Whether this query can trigger automations (webhooks, integrations)."@, valid_values: Some(seq!["true"@, "false"@]), example: Some("automations_enabled: true"@), required: false, field_type: "boolean"@, cli_hint: None }),
        ("queries.discard_data"@, FieldDocView { name: "discard_data"@, description: "Whether to discard query results after processing. Useful for queries that only trigger automations."@, valid_values: Some(seq!["true"@, "false"@]), example: Some("discard_data: false"@), required: false, field_type: "boolean"@, cli_hint: None }),
        ("labels.name"@, FieldDocView { name: "name"@, description: "The display name of the label. Must be unique within the organization."@, valid_values: None, example: Some("name: macOS Tahoe"@), required: true, field_type: "string"@, cli_hint: None }),
    ]
}

/// Appends entries 13 to 24 of the field documentation.
fn push_field_docs_part2(v: &mut Vec<(&'static str, FieldDoc)>)
    ensures
        doc_entries(final(v)@) == doc_entries(old(v)@) + field_docs_part2(),
{
    let mut vals: Vec<&'static str> = Vec::new();
    vals.push("true");
    vals.push("false");
    assert(strs(vals@) =~= seq!["true"@, "false"@]);
    v.push(("policies.calendar_events_enabled", FieldDoc { name: "calendar_events_enabled", description: "Whether to create calendar events for policy failures to remind users to fix issues.", valid_values: Some(vals), example: Some("calendar_events_enabled: true"), required: false, field_type: "boolean", cli_hint: None }));
    v.push(("queries.name", FieldDoc { name: "name", description: "The display name of the query. Must be unique within the organization.", valid_values: None, example: Some("name: Get running processes"), required: true, field_type: "string", cli_hint: None }));
    v.push(("queries.description", FieldDoc { name: "description", description: "A description of what this query collects and its purpose.", valid_values: None, example: Some("description: Collects all running processes for security analysis"), required: false, field_type: "string", cli_hint: None }));
    v.push(("queries.query", FieldDoc { name: "query", description: "The osquery SQL query to execute on hosts.", valid_values: None, example: Some("query: SELECT name, path, pid FROM processes"), required: true, field_type: "string (osquery SQL)", cli_hint: None }));
    v.push(("queries.interval", FieldDoc { name: "interval", description: "How often to run this query, in seconds. Lower values increase resource usage.", valid_values: None, example: Some("interval: 3600  # Run every hour"), required: false, field_type: "integer (seconds)", cli_hint: None }));
    let mut vals: Vec<&'static str> = Vec::new();
    vals.push("darwin");
    vals.push("windows");
    vals.push("linux");
    vals.push("chrome");
    vals.push("ios");
    vals.push("ipados");
    vals.push("android");
    vals.push("all");
    assert(strs(vals@) =~= seq!["darwin"@, "windows"@, "linux"@, "chrome"@, "ios"@, "ipados"@, "android"@, "all"@]);
    v.push(("queries.platform", FieldDoc { name: "platform", description: "The operating system(s) this query runs on. The query must use tables available on this platform.", valid_values: Some(vals), example: Some("platform: darwin"), required: false, field_type: "string", cli_hint: None }));
    let mut vals: Vec<&'static str> = Vec::new();
    vals.push("snapshot");
    vals.push("differential");
    vals.push("differential_ignore_removals");
    assert(strs(vals@) =~= seq!["snapshot"@, "differential"@, "differential_ignore_removals"@]);
    v.push(("queries.logging", FieldDoc { name: "logging", description: "How query results are logged. Affects log volume and what data is captured.", valid_values: Some(vals), example: Some("logging: differential"), required: false, field_type: "string", cli_hint: None }));
    v.push(("queries.min_osquery_version", FieldDoc { name: "min_osquery_version", description: "Minimum osquery version required to run this query. Hosts with older versions will skip it.", valid_values: None, example: Some("min_osquery_version: 5.0.0"), required: false, field_type: "string (semver)", cli_hint: None }));
    let mut vals: Vec<&'static str> = Vec::new();
    vals.push("true");
    vals.push("false");
    assert(strs(vals@) =~= seq!["true"@, "false"@]);
    v.push(("queries.observer_can_run", FieldDoc { name: "observer_can_run", description: "Whether users with Observer role can run this query on-demand.", valid_values: Some(vals), example: Some("observer_can_run: true"), required: false, field_type: "boolean", cli_hint: None }));
    let mut vals: Vec<&'static str> = Vec::new();
    vals.push("true");
    vals.push("false");
    assert(strs(vals@) =~= seq!["true"@, "false"@]);
    v.push(("queries.automations_enabled", FieldDoc { name: "automations_enabled", description: "Whether this query can trigger automations (webhooks, integrations).", valid_values: Some(vals), example: Some("automations_enabled: true"), required: false, field_type: "boolean", cli_hint: None }));
    let mut vals: Vec<&'static str> = Vec::new();
    vals.push("true");
    vals.push("false");
    assert(strs(vals@) =~= seq!["true"@, "false"@]);
    v.push(("queries.discard_data", FieldDoc { name: "discard_data", description: "Whether to discard query results after processing. Useful for queries that only trigger automations.", valid_values: Some(vals), example: Some("discard_data: false"), required: false, field_type: "boolean", cli_hint: None }));
    v.push(("labels.name", FieldDoc { name: "name", description: "The display name of the label. Must be unique within the organization.", valid_values: None, example: Some("name: macOS Tahoe"), required: true, field_type: "string", cli_hint: None }));
    assert(doc_entries(v@) =~= doc_entries(old(v)@) + field_docs_part2());
}

/// Entries 25 to 36 of the field documentation.
pub closed spec fn field_docs_part3() -> Seq<(Seq<char>, FieldDocView)> {
    seq![
        ("labels.description"@, FieldDocView { name: "description"@, description: "A description of what hosts this label identifies."@, valid_values: None, example: Some("description: Hosts running macOS 26.x"@), required: false, field_type: "string"@, cli_hint: None }),
        ("labels.query"@, FieldDocView { name: "query"@, description: "For dynamic labels, the osquery query that determines label membership. Returns results for matching hosts."@, valid_values: None, example: Some("query: SELECT 1 FROM os_version WHERE major = 26"@), required: false, field_type: "string (osquery SQL)"@, cli_hint: None }),
        ("labels.platform"@, FieldDocView { name: "platform"@, description: "The operating system(s) this label applies to."@, valid_values: Some(seq!["darwin"@, "windows"@, "linux"@, "chrome"@, "ios"@, "ipados"@, "android"@, "all"@]), example: Some("platform: darwin"@), required: false, field_type: "string"@, cli_hint: None }),
        ("labels.label_membership_type"@, FieldDocView { name: "label_membership_type"@, description: "How hosts are assigned to this label. 'dynamic' uses the query, 'manual' requires explicit assignment."@, valid_values: Some(seq!["dynamic"@, "manual"@]), example: Some("label_membership_type: dynamic"@), required: false, field_type: "string"@, cli_hint: None }),
        ("labels.hosts"@, FieldDocView { name: "hosts"@, description: "List of host identifiers for manual label membership. Only used when label_membership_type is 'manual'."@, valid_values: None, example: Some("hosts:\n  - host1.example.com\n  - host2.example.com"@), required: false, field_type: "array of strings"@, cli_hint: None }),
        ("name"@, FieldDocView { name: "name"@, description: "The name of this configuration file or fleet."@, valid_values: None, example: Some("name: Engineering Team"@), required: false, field_type: "string"@, cli_hint: Some("fleetctl get teams --yaml               # list all fleets\nfleetctl get teams --name \"Name\" --yaml  # export fleet config"@) }),
        ("policies"@, FieldDocView { name: "policies"@, description: "List of compliance policies to enforce on hosts. Policies return results when violated."@, valid_values: None, example: Some("policies:\n  - name: Disk Encryption\n    query: SELECT 1 FROM disk_encryption WHERE encrypted = 0"@), required: false, field_type: "array"@, cli_hint: Some("fleetctl get policies --yaml          # export policies\nfleetctl apply -f policies.yml        # apply changes\nfleetctl get policies --team \"Name\"   # fleet-specific"@) }),
        ("queries"@, FieldDocView { name: "queries"@, description: "List of osquery queries to run on hosts for data collection."@, valid_values: None, example: Some("queries:\n  - name: Running Processes\n    query: SELECT * FROM processes"@), required: false, field_type: "array"@, cli_hint: Some("fleetctl get queries --yaml          # export reports\nfleetctl apply -f reports.yml        # apply changes\nfleetctl get queries --team \"Name\"   # fleet-specific"@) }),
        ("labels"@, FieldDocView { name: "labels"@, description: "List of labels to categorize hosts for targeting policies and queries."@, valid_values: None, example: Some("labels:\n  - name: Production Servers\n    query: SELECT 1 FROM system_info WHERE hostname LIKE 'prod-%'"@), required: false, field_type: "array"@, cli_hint: Some("fleetctl get labels --yaml            # export labels\nfleetctl apply -f labels.yml          # apply changes"@) }),
        ("agent_options"@, FieldDocView { name: "agent_options"@, description: "osquery agent configuration options applied to hosts."@, valid_values: None, example: Some("agent_options:\n  config:\n    options:\n      logger_plugin: tls"@), required: false, field_type: "object"@, cli_hint: Some("fleetctl get config --yaml            # export (includes agent_options)\nfleetctl apply -f agent-options.yml   # apply changes"@) }),
        ("controls"@, FieldDocView { name: "controls"@, description: "MDM controls and settings for managed devices."@, valid_values: None, example: Some("controls:\n  macos_settings:\n    custom_settings:\n      - path: profiles/filevault.mobileconfig"@), required: false, field_type: "object"@, cli_hint: Some("fleetctl apply -f controls.yml        # apply MDM profiles"@) }),
        ("software"@, FieldDocView { name: "software"@, description: "Software packages to install or manage on hosts."@, valid_values: None, example: Some("software:\n  packages:\n    - path: ../platforms/macos/software/firefox.yml"@), required: false, field_type: "object"@, cli_hint: Some("fleetctl get software --yaml          # export software\nfleetctl apply -f software.yml        # apply changes"@) }),
    ]
}

/// Appends entries 25 to 36 of the field documentation.
fn push_field_docs_part3(v: &mut Vec<(&'static str, FieldDoc)>)
    ensures
        doc_entries(final(v)@) == doc_entries(old(v)@) + field_docs_part3(),
{
    v.push(("labels.description", FieldDoc { name: "description", description: "A description of what hosts this label identifies.", valid_values: None, example: Some("description: Hosts running macOS 26.x"), required: false, field_type: "string", cli_hint: None }));
    v.push(("labels.query", FieldDoc { name: "query", description: "For dynamic labels, the osquery query that determines label membership. Returns results for matching hosts.", valid_values: None, example: Some("query: SELECT 1 FROM os_version WHERE major = 26"), required: false, field_type: "string (osquery SQL)", cli_hint: None }));
    let mut vals: Vec<&'static str> = Vec::new();
    vals.push("darwin");
    vals.push("windows");
    vals.push("linux");
    vals.push("chrome");
    vals.push("ios");
    vals.push("ipados");
    vals.push("android");
    vals.push("all");
    assert(strs(vals@) =~= seq!["darwin"@, "windows"@, "linux"@, "chrome"@, "ios"@, "ipados"@, "android"@, "all"@]);
    v.push(("labels.platform", FieldDoc { name: "platform", description: "The operating system(s) this label applies to.", valid_values: Some(vals), example: Some("platform: darwin"), required: false, field_type: "string", cli_hint: None }));
    let mut vals: Vec<&'static str> = Vec::new();
    vals.push("dynamic");
    vals.push("manual");
    assert(strs(vals@) =~= seq!["dynamic"@, "manual"@]);
    v.push(("labels.label_membership_type", FieldDoc { name: "label_membership_type", description: "How hosts are assigned to this label. 'dynamic' uses the query, 'manual' requires explicit assignment.", valid_values: Some(vals), example: Some("label_membership_type: dynamic"), required: false, field_type: "string", cli_hint: None }));
    v.push(("labels.hosts", FieldDoc { name: "hosts", description: "List of host identifiers for manual label membership. Only used when label_membership_type is 'manual'.", valid_values: None, example: Some("hosts:\n  - host1.example.com\n  - host2.example.com"), required: false, field_type: "array of strings", cli_hint: None }));
    v.push(("name", FieldDoc { name: "name", description: "The name of this configuration file or fleet.", valid_values: None, example: Some("name: Engineering Team"), required: false, field_type: "string", cli_hint: Some("fleetctl get teams --yaml               # list all fleets\nfleetctl get teams --name \"Name\" --yaml  # export fleet config") }));
    v.push(("policies", FieldDoc { name: "policies", description: "List of compliance policies to enforce on hosts. Policies return results when violated.", valid_values: None, example: Some("policies:\n  - name: Disk Encryption\n    query: SELECT 1 FROM disk_encryption WHERE encrypted = 0"), required: false, field_type: "array", cli_hint: Some("fleetctl get policies --yaml          # export policies\nfleetctl apply -f policies.yml        # apply changes\nfleetctl get policies --team \"Name\"   # fleet-specific") }));
    v.push(("queries", FieldDoc { name: "queries", description: "List of osquery queries to run on hosts for data collection.", valid_values: None, example: Some("queries:\n  - name: Running Processes\n    query: SELECT * FROM processes"), required: false, field_type: "array", cli_hint: Some("fleetctl get queries --yaml          # export reports\nfleetctl apply -f reports.yml        # apply changes\nfleetctl get queries --team \"Name\"   # fleet-specific") }));
    v.push(("labels", FieldDoc { name: "labels", description: "List of labels to categorize hosts for targeting policies and queries.", valid_values: None, example: Some("labels:\n  - name: Production Servers\n    query: SELECT 1 FROM system_info WHERE hostname LIKE 'prod-%'"), required: false, field_type: "array", cli_hint: Some("fleetctl get labels --yaml            # export labels\nfleetctl apply -f labels.yml          # apply changes") }));
    v.push(("agent_options", FieldDoc { name: "agent_options", description: "osquery agent configuration options applied to hosts.", valid_values: None, example: Some("agent_options:\n  config:\n    options:\n      logger_plugin: tls"), required: false, field_type: "object", cli_hint: Some("fleetctl get config --yaml            # export (includes agent_options)\nfleetctl apply -f agent-options.yml   # apply changes") }));
    v.push(("controls", FieldDoc { name: "controls", description: "MDM controls and settings for managed devices.", valid_values: None, example: Some("controls:\n  macos_settings:\n    custom_settings:\n      - path: profiles/filevault.mobileconfig"), required: false, field_type: "object", cli_hint: Some("fleetctl apply -f controls.yml        # apply MDM profiles") }));
    v.push(("software", FieldDoc { name: "software", description: "Software packages to install or manage on hosts.", valid_values: None, example: Some("software:\n  packages:\n    - path: ../platforms/macos/software/firefox.yml"), required: false, field_type: "object", cli_hint: Some("fleetctl get software --yaml          # export software\nfleetctl apply -f software.yml        # apply changes") }));
    assert(doc_entries(v@) =~= doc_entries(old(v)@) + field_docs_part3());
}

/// Entries 37 to 48 of the field documentation.
pub closed spec fn field_docs_part4() -> Seq<(Seq<char>, FieldDocView)> {
    seq![
        ("software.packages"@, FieldDocView { name: "packages"@, description: "Custom software packages (.pkg, .msi, .deb) with install/uninstall scripts."@, valid_values: None, example: Some("packages:\n  - path: ../platforms/macos/software/firefox.yml"@), required: false, field_type: "array"@, cli_hint: None }),
        ("software.packages.path"@, FieldDocView { name: "path"@, description: "Path to a YAML file defining the software package (URL, install scripts, etc). Paths are relative to the current file."@, valid_values: None, example: Some("path: ../platforms/macos/software/firefox.yml"@), required: true, field_type: "string (file path)"@, cli_hint: None }),
        ("software.packages.self_service"@, FieldDocView { name: "self_service"@, description: "Whether end users can install this package themselves through Fleet Desktop."@, valid_values: Some(seq!["true"@, "false"@]), example: Some("self_service: true"@), required: false, field_type: "boolean"@, cli_hint: None }),
        ("software.packages.install_during_setup"@, FieldDocView { name: "install_during_setup"@, description: "Whether to install this package during device setup (MDM enrollment)."@, valid_values: Some(seq!["true"@, "false"@]), example: Some("install_during_setup: true"@), required: false, field_type: "boolean"@, cli_hint: None }),
        ("software.packages.categories"@, FieldDocView { name: "categories"@, description: "Categories for organizing the software package in Fleet Desktop."@, valid_values: None, example: Some("categories:\n  - Productivity\n  - Communication"@), required: false, field_type: "array of strings"@, cli_hint: None }),
        ("software.packages.labels_include_any"@, FieldDocView { name: "labels_include_any"@, description: "Only install on hosts that have ANY of these labels."@, valid_values: None, example: Some("labels_include_any:\n  - Engineering\n  - Product"@), required: false, field_type: "array of strings"@, cli_hint: None }),
        ("software.packages.labels_exclude_any"@, FieldDocView { name: "labels_exclude_any"@, description: "Do not install on hosts that have ANY of these labels."@, valid_values: None, example: Some("labels_exclude_any:\n  - Contractors"@), required: false, field_type: "array of strings"@, cli_hint: None }),
        ("software.app_store_apps"@, FieldDocView { name: "app_store_apps"@, description: "App Store apps deployed via VPP (Volume Purchase Program)."@, valid_values: None, example: Some("app_store_apps:\n  - app_store_id: \"1091189122\""@), required: false, field_type: "array"@, cli_hint: None }),
        ("software.fleet_maintained_apps"@, FieldDocView { name: "fleet_maintained_apps"@, description: "Fleet-maintained apps installed via slug. Fleet handles install/uninstall scripts and auto-updates."@, valid_values: None, example: Some("fleet_maintained_apps:\n  - slug: 1password/darwin\n    self_service: true"@), required: false, field_type: "array"@, cli_hint: Some("See: https://github.com/fleetdm/fleet/tree/main/ee/maintained-apps"@) }),
        ("software.fleet_maintained_apps.slug"@, FieldDocView { name: "slug"@, description: "The identifier slug for a Fleet-maintained app. Fleet maintains installers for popular apps."@, valid_values: None, example: Some("slug: 1password"@), required: true, field_type: "string"@, cli_hint: None }),
        ("software.fleet_maintained_apps.self_service"@, FieldDocView { name: "self_service"@, description: "Whether end users can install this app themselves through Fleet Desktop."@, valid_values: Some(seq!["true"@, "false"@]), example: Some("self_service: true"@), required: false, field_type: "boolean"@, cli_hint: None }),
        ("software.fleet_maintained_apps.setup_experience"@, FieldDocView { name: "setup_experience"@, description: "Whether to install this app during the macOS Setup Assistant experience."@, valid_values: Some(seq!["true"@, "false"@]), example: Some("setup_experience: true"@), required: false, field_type: "boolean"@, cli_hint: None }),
    ]
}

/// Appends entries 37 to 48 of the field documentation.
fn push_field_docs_part4(v: &mut Vec<(&'static str, FieldDoc)>)
    ensures
        doc_entries(final(v)@) == doc_entries(old(v)@) + field_docs_part4(),
{
    v.push(("software.packages", FieldDoc { name: "packages", description: "Custom software packages (.pkg, .msi, .deb) with install/uninstall scripts.", valid_values: None, example: Some("packages:\n  - path: ../platforms/macos/software/firefox.yml"), required: false, field_type: "array", cli_hint: None }));
    v.push(("software.packages.path", FieldDoc { name: "path", description: "Path to a YAML file defining the software package (URL, install scripts, etc). Paths are relative to the current file.", valid_values: None, example: Some("path: ../platforms/macos/software/firefox.yml"), required: true, field_type: "string (file path)", cli_hint: None }));
    let mut vals: Vec<&'static str> = Vec::new();
    vals.push("true");
    vals.push("false");
    assert(strs(vals@) =~= seq!["true"@, "false"@]);
    v.push(("software.packages.self_service", FieldDoc { name: "self_service", description: "Whether end users can install this package themselves through Fleet Desktop.", valid_values: Some(vals), example: Some("self_service: true"), required: false, field_type: "boolean", cli_hint: None }));
    let mut vals: Vec<&'static str> = Vec::new();
    vals.push("true");
    vals.push("false");
    assert(strs(vals@) =~= seq!["true"@, "false"@]);
    v.push(("software.packages.install_during_setup", FieldDoc { name: "install_during_setup", description: "Whether to install this package during device setup (MDM enrollment).", valid_values: Some(vals), example: Some("install_during_setup: true"), required: false, field_type: "boolean", cli_hint: None }));
    v.push(("software.packages.categories", FieldDoc { name: "categories", description: "Categories for organizing the software package in Fleet Desktop.", valid_values: None, example: Some("categories:\n  - Productivity\n  - Communication"), required: false, field_type: "array of strings", cli_hint: None }));
    v.push(("software.packages.labels_include_any", FieldDoc { name: "labels_include_any", description: "Only install on hosts that have ANY of these labels.", valid_values: None, example: Some("labels_include_any:\n  - Engineering\n  - Product"), required: false, field_type: "array of strings", cli_hint: None }));
    v.push(("software.packages.labels_exclude_any", FieldDoc { name: "labels_exclude_any", description: "Do not install on hosts that have ANY of these labels.", valid_values: None, example: Some("labels_exclude_any:\n  - Contractors"), required: false, field_type: "array of strings", cli_hint: None }));
    v.push(("software.app_store_apps", FieldDoc { name: "app_store_apps", description: "App Store apps deployed via VPP (Volume Purchase Program).", valid_values: None, example: Some("app_store_apps:\n  - app_store_id: \"1091189122\""), required: false, field_type: "array", cli_hint: None }));
    v.push(("software.fleet_maintained_apps", FieldDoc { name: "fleet_maintained_apps", description: "Fleet-maintained apps installed via slug. Fleet handles install/uninstall scripts and auto-updates.", valid_values: None, example: Some("fleet_maintained_apps:\n  - slug: 1password/darwin\n    self_service: true"), required: false, field_type: "array", cli_hint: Some("See: https://github.com/fleetdm/fleet/tree/main/ee/maintained-apps") }));
    v.push(("software.fleet_maintained_apps.slug", FieldDoc { name: "slug", description: "The identifier slug for a Fleet-maintained app. Fleet maintains installers for popular apps.", valid_values: None, example: Some("slug: 1password"), required: true, field_type: "string", cli_hint: None }));
    let mut vals: Vec<&'static str> = Vec::new();
    vals.push("true");
    vals.push("false");
    assert(strs(vals@) =~= seq!["true"@, "false"@]);
    v.push(("software.fleet_maintained_apps.self_service", FieldDoc { name: "self_service", description: "Whether end users can install this app themselves through Fleet Desktop.", valid_values: Some(vals), example: Some("self_service: true"), required: false, field_type: "boolean", cli_hint: None }));
    let mut vals: Vec<&'static str> = Vec::new();
    vals.push("true");
    vals.push("false");
    assert(strs(vals@) =~= seq!["true"@, "false"@]);
    v.push(("software.fleet_maintained_apps.setup_experience", FieldDoc { name: "setup_experience", description: "Whether to install this app during the macOS Setup Assistant experience.", valid_values: Some(vals), example: Some("setup_experience: true"), required: false, field_type: "boolean", cli_hint: None }));
    assert(doc_entries(v@) =~= doc_entries(old(v)@) + field_docs_part4());
}

/// Entries 49 to 60 of the field documentation.
pub closed spec fn field_docs_part5() -> Seq<(Seq<char>, FieldDocView)> {
    seq![
        ("software.app_store_apps.app_store_id"@, FieldDocView { name: "app_store_id"@, description: "The Apple App Store ID for the app to install via VPP."@, valid_values: None, example: Some("app_store_id: \"497799835\""@), required: true, field_type: "string"@, cli_hint: None }),
        ("software.app_store_apps.self_service"@, FieldDocView { name: "self_service"@, description: "Whether end users can install this app themselves through Fleet Desktop."@, valid_values: Some(seq!["true"@, "false"@]), example: Some("self_service: true"@), required: false, field_type: "boolean"@, cli_hint: None }),
        ("software.packages.setup_experience"@, FieldDocView { name: "setup_experience"@, description: "Whether to install this package during the macOS Setup Assistant experience."@, valid_values: Some(seq!["true"@, "false"@]), example: Some("setup_experience: true"@), required: false, field_type: "boolean"@, cli_hint: None }),
        ("software_lib.url"@, FieldDocView { name: "url"@, description: "URL to download the software installer package (.pkg, .dmg, .msi, etc.)."@, valid_values: None, example: Some("url: https://downloads.1password.com/mac/1Password.pkg"@), required: true, field_type: "string (URL)"@, cli_hint: None }),
        ("software_lib.icon"@, FieldDocView { name: "icon"@, description: "Icon to display for this software in Fleet Desktop."@, valid_values: None, example: Some("icon:\n  path: ../../all/icons/app-logo.png"@), required: false, field_type: "object with path"@, cli_hint: None }),
        ("software_lib.install_script"@, FieldDocView { name: "install_script"@, description: "Custom script to run for installation instead of the default installer."@, valid_values: None, example: Some("install_script:\n  path: ./scripts/install.sh"@), required: false, field_type: "object with path"@, cli_hint: None }),
        ("software_lib.post_install_script"@, FieldDocView { name: "post_install_script"@, description: "Script to run after the software is installed."@, valid_values: None, example: Some("post_install_script:\n  path: ./scripts/post-install.sh"@), required: false, field_type: "object with path"@, cli_hint: None }),
        ("software_lib.uninstall_script"@, FieldDocView { name: "uninstall_script"@, description: "Script to run when uninstalling the software."@, valid_values: None, example: Some("uninstall_script:\n  path: ./scripts/uninstall.sh"@), required: false, field_type: "object with path"@, cli_hint: None }),
        ("software_lib.pre_install_query"@, FieldDocView { name: "pre_install_query"@, description: "osquery SQL query to check before installing. Installation proceeds only if the query returns results."@, valid_values: None, example: Some("pre_install_query:\n  path: ./queries/check-requirements.sql"@), required: false, field_type: "object with path"@, cli_hint: None }),
        ("software_lib.hash_sha256"@, FieldDocView { name: "hash_sha256"@, description: "SHA256 hash of the installer package for verification."@, valid_values: None, example: Some("hash_sha256: abc123..."@), required: false, field_type: "string"@, cli_hint: None }),
        ("agent_options.config"@, FieldDocView { name: "config"@, description: "osquery configuration options."@, valid_values: None, example: Some("config:\n  options:\n    distributed_interval: 10"@), required: false, field_type: "object"@, cli_hint: None }),
        ("agent_options.config.decorators"@, FieldDocView { name: "decorators"@, description: "osquery decorators that add extra columns to query results."@, valid_values: None, example: Some("decorators:\n  load:\n    - SELECT hostname FROM system_info"@), required: false, field_type: "object"@, cli_hint: None }),
    ]
}

/// Appends entries 49 to 60 of the field documentation.
fn push_field_docs_part5(v: &mut Vec<(&'static str, FieldDoc)>)
    ensures
        doc_entries(final(v)@) == doc_entries(old(v)@) + field_docs_part5(),
{
    v.push(("software.app_store_apps.app_store_id", FieldDoc { name: "app_store_id", description: "The Apple App Store ID for the app to install via VPP.", valid_values: None, example: Some("app_store_id: \"497799835\""), required: true, field_type: "string", cli_hint: None }));
    let mut vals: Vec<&'static str> = Vec::new();
    vals.push("true");
    vals.push("false");
    assert(strs(vals@) =~= seq!["true"@, "false"@]);
    v.push(("software.app_store_apps.self_service", FieldDoc { name: "self_service", description: "Whether end users can install this app themselves through Fleet Desktop.", valid_values: Some(vals), example: Some("self_service: true"), required: false, field_type: "boolean", cli_hint: None }));
    let mut vals: Vec<&'static str> = Vec::new();
    vals.push("true");
    vals.push("false");
    assert(strs(vals@) =~= seq!["true"@, "false"@]);
    v.push(("software.packages.setup_experience", FieldDoc { name: "setup_experience", description: "Whether to install this package during the macOS Setup Assistant experience.", valid_values: Some(vals), example: Some("setup_experience: true"), required: false, field_type: "boolean", cli_hint: None }));
    v.push(("software_lib.url", FieldDoc { name: "url", description: "URL to download the software installer package (.pkg, .dmg, .msi, etc.).", valid_values: None, example: Some("url: https://downloads.1password.com/mac/1Password.pkg"), required: true, field_type: "string (URL)", cli_hint: None }));
    v.push(("software_lib.icon", FieldDoc { name: "icon", description: "Icon to display for this software in Fleet Desktop.", valid_values: None, example: Some("icon:\n  path: ../../all/icons/app-logo.png"), required: false, field_type: "object with path", cli_hint: None }));
    v.push(("software_lib.install_script", FieldDoc { name: "install_script", description: "Custom script to run for installation instead of the default installer.", valid_values: None, example: Some("install_script:\n  path: ./scripts/install.sh"), required: false, field_type: "object with path", cli_hint: None }));
    v.push(("software_lib.post_install_script", FieldDoc { name: "post_install_script", description: "Script to run after the software is installed.", valid_values: None, example: Some("post_install_script:\n  path: ./scripts/post-install.sh"), required: false, field_type: "object with path", cli_hint: None }));
    v.push(("software_lib.uninstall_script", FieldDoc { name: "uninstall_script", description: "Script to run when uninstalling the software.", valid_values: None, example: Some("uninstall_script:\n  path: ./scripts/uninstall.sh"), required: false, field_type: "object with path", cli_hint: None }));
    v.push(("software_lib.pre_install_query", FieldDoc { name: "pre_install_query", description: "osquery SQL query to check before installing. Installation proceeds only if the query returns results.", valid_values: None, example: Some("pre_install_query:\n  path: ./queries/check-requirements.sql"), required: false, field_type: "object with path", cli_hint: None }));
    v.push(("software_lib.hash_sha256", FieldDoc { name: "hash_sha256", description: "SHA256 hash of the installer package for verification.", valid_values: None, example: Some("hash_sha256: abc123..."), required: false, field_type: "string", cli_hint: None }));
    v.push(("agent_options.config", FieldDoc { name: "config", description: "osquery configuration options.", valid_values: None, example: Some("config:\n  options:\n    distributed_interval: 10"), required: false, field_type: "object", cli_hint: None }));
    v.push(("agent_options.config.decorators", FieldDoc { name: "decorators", description: "osquery decorators that add extra columns to query results.", valid_values: None, example: Some("decorators:\n  load:\n    - SELECT hostname FROM system_info"), required: false, field_type: "object", cli_hint: None }));
    assert(doc_entries(v@) =~= doc_entries(old(v)@) + field_docs_part5());
}

/// Entries 61 to 72 of the field documentation.
pub closed spec fn field_docs_part6() -> Seq<(Seq<char>, FieldDocView)> {
    seq![
        ("agent_options.config.options"@, FieldDocView { name: "options"@, description: "osquery daemon options (intervals, endpoints, etc.)."@, valid_values: None, example: Some("options:\n  distributed_interval: 10\n  logger_tls_period: 60"@), required: false, field_type: "object"@, cli_hint: None }),
        ("agent_options.update_channels"@, FieldDocView { name: "update_channels"@, description: "Update channels for Fleet agent components (osqueryd, orbit, desktop)."@, valid_values: None, example: Some("update_channels:\n  osqueryd: stable\n  orbit: stable"@), required: false, field_type: "object"@, cli_hint: None }),
        ("controls.enable_disk_encryption"@, FieldDocView { name: "enable_disk_encryption"@, description: "Enable FileVault (macOS) or BitLocker (Windows) disk encryption on managed devices."@, valid_values: Some(seq!["true"@, "false"@]), example: Some("enable_disk_encryption: true"@), required: false, field_type: "boolean"@, cli_hint: None }),
        ("controls.macos_settings"@, FieldDocView { name: "macos_settings"@, description: "MDM settings specific to macOS devices."@, valid_values: None, example: Some("macos_settings:\n  custom_settings:\n    - path: profiles/filevault.mobileconfig"@), required: false, field_type: "object"@, cli_hint: None }),
        ("controls.macos_settings.custom_settings"@, FieldDocView { name: "custom_settings"@, description: "List of custom configuration profiles to install on macOS devices."@, valid_values: None, example: Some("custom_settings:\n  - path: profiles/security.mobileconfig\n    labels_include_any:\n      - Engineering"@), required: false, field_type: "array"@, cli_hint: None }),
        ("controls.macos_settings.macos_setup"@, FieldDocView { name: "macos_setup"@, description: "Configuration for the macOS Setup Assistant experience."@, valid_values: None, example: Some("macos_setup:\n  bootstrap_package: bootstrap/pkg.pkg\n  enable_end_user_authentication: true"@), required: false, field_type: "object"@, cli_hint: None }),
        ("controls.macos_settings.macos_updates"@, FieldDocView { name: "macos_updates"@, description: "macOS software update enforcement settings."@, valid_values: None, example: Some("macos_updates:\n  minimum_version: \"15.0\"\n  deadline: \"2024-12-31\""@), required: false, field_type: "object"@, cli_hint: None }),
        ("controls.windows_settings"@, FieldDocView { name: "windows_settings"@, description: "Windows device settings. Contains configuration profiles (.xml CSP profiles)."@, valid_values: None, example: Some("windows_settings:\n  configuration_profiles:\n    - paths: ../platforms/windows/configuration-profiles/*.xml"@), required: false, field_type: "object"@, cli_hint: None }),
        ("controls.windows_settings.custom_settings"@, FieldDocView { name: "custom_settings"@, description: "List of custom configuration profiles to install on Windows devices."@, valid_values: None, example: Some("custom_settings:\n  - path: profiles/bitlocker.xml"@), required: false, field_type: "array"@, cli_hint: None }),
        ("controls.windows_settings.windows_updates"@, FieldDocView { name: "windows_updates"@, description: "Windows Update enforcement settings."@, valid_values: None, example: Some("windows_updates:\n  deadline_days: 7\n  grace_period_days: 2"@), required: false, field_type: "object"@, cli_hint: None }),
        ("controls.scripts"@, FieldDocView { name: "scripts"@, description: "Scripts available for execution on managed hosts. Must reference files via path or paths (glob)."@, valid_values: None, example: Some("scripts:\n  - paths: ../platforms/macos/scripts/*.sh\n  - paths: ../platforms/windows/scripts/*.ps1"@), required: false, field_type: "array"@, cli_hint: None }),
        ("controls.setup_experience"@, FieldDocView { name: "setup_experience"@, description: "Configuration for the out-of-the-box setup experience (formerly `macos_setup`). Controls bootstrap packages, end user authentication, and setup scripts."@, valid_values: None, example: Some("setup_experience:\n  bootstrap_package: https://example.org/bootstrap.pkg\n  enable_end_user_authentication: true\n  apple_setup_assistant: ./dep-profile.json\n  macos_script: ./post_setup.sh"@), required: false, field_type: "object"@, cli_hint: None }),
    ]
}

/// Appends entries 61 to 72 of the field documentation.
fn push_field_docs_part6(v: &mut Vec<(&'static str, FieldDoc)>)
    ensures
        doc_entries(final(v)@) == doc_entries(old(v)@) + field_docs_part6(),
{
    v.push(("agent_options.config.options", FieldDoc { name: "options", description: "osquery daemon options (intervals, endpoints, etc.).", valid_values: None, example: Some("options:\n  distributed_interval: 10\n  logger_tls_period: 60"), required: false, field_type: "object", cli_hint: None }));
    v.push(("agent_options.update_channels", FieldDoc { name: "update_channels", description: "Update channels for Fleet agent components (osqueryd, orbit, desktop).", valid_values: None, example: Some("update_channels:\n  osqueryd: stable\n  orbit: stable"), required: false, field_type: "object", cli_hint: None }));
    let mut vals: Vec<&'static str> = Vec::new();
    vals.push("true");
    vals.push("false");
    assert(strs(vals@) =~= seq!["true"@, "false"@]);
    v.push(("controls.enable_disk_encryption", FieldDoc { name: "enable_disk_encryption", description: "Enable FileVault (macOS) or BitLocker (Windows) disk encryption on managed devices.", valid_values: Some(vals), example: Some("enable_disk_encryption: true"), required: false, field_type: "boolean", cli_hint: None }));
    v.push(("controls.macos_settings", FieldDoc { name: "macos_settings", description: "MDM settings specific to macOS devices.", valid_values: None, example: Some("macos_settings:\n  custom_settings:\n    - path: profiles/filevault.mobileconfig"), required: false, field_type: "object", cli_hint: None }));
    v.push(("controls.macos_settings.custom_settings", FieldDoc { name: "custom_settings", description: "List of custom configuration profiles to install on macOS devices.", valid_values: None, example: Some("custom_settings:\n  - path: profiles/security.mobileconfig\n    labels_include_any:\n      - Engineering"), required: false, field_type: "array", cli_hint: None }));
    v.push(("controls.macos_settings.macos_setup", FieldDoc { name: "macos_setup", description: "Configuration for the macOS Setup Assistant experience.", valid_values: None, example: Some("macos_setup:\n  bootstrap_package: bootstrap/pkg.pkg\n  enable_end_user_authentication: true"), required: false, field_type: "object", cli_hint: None }));
    v.push(("controls.macos_settings.macos_updates", FieldDoc { name: "macos_updates", description: "macOS software update enforcement settings.", valid_values: None, example: Some("macos_updates:\n  minimum_version: \"15.0\"\n  deadline: \"2024-12-31\""), required: false, field_type: "object", cli_hint: None }));
    v.push(("controls.windows_settings", FieldDoc { name: "windows_settings", description: "Windows device settings. Contains configuration profiles (.xml CSP profiles).", valid_values: None, example: Some("windows_settings:\n  configuration_profiles:\n    - paths: ../platforms/windows/configuration-profiles/*.xml"), required: false, field_type: "object", cli_hint: None }));
    v.push(("controls.windows_settings.custom_settings", FieldDoc { name: "custom_settings", description: "List of custom configuration profiles to install on Windows devices.", valid_values: None, example: Some("custom_settings:\n  - path: profiles/bitlocker.xml"), required: false, field_type: "array", cli_hint: None }));
    v.push(("controls.windows_settings.windows_updates", FieldDoc { name: "windows_updates", description: "Windows Update enforcement settings.", valid_values: None, example: Some("windows_updates:\n  deadline_days: 7\n  grace_period_days: 2"), required: false, field_type: "object", cli_hint: None }));
    v.push(("controls.scripts", FieldDoc { name: "scripts", description: "Scripts available for execution on managed hosts. Must reference files via path or paths (glob).", valid_values: None, example: Some("scripts:\n  - paths: ../platforms/macos/scripts/*.sh\n  - paths: ../platforms/windows/scripts/*.ps1"), required: false, field_type: "array", cli_hint: None }));
    v.push(("controls.setup_experience", FieldDoc { name: "setup_experience", description: "Configuration for the out-of-the-box setup experience (formerly `macos_setup`). Controls bootstrap packages, end user authentication, and setup scripts.", valid_values: None, example: Some("setup_experience:\n  bootstrap_package: https://example.org/bootstrap.pkg\n  enable_end_user_authentication: true\n  apple_setup_assistant: ./dep-profile.json\n  macos_script: ./post_setup.sh"), required: false, field_type: "object", cli_hint: None }));
    assert(doc_entries(v@) =~= doc_entries(old(v)@) + field_docs_part6());
}

/// Entries 73 to 84 of the field documentation.
pub closed spec fn field_docs_part7() -> Seq<(Seq<char>, FieldDocView)> {
    seq![
        ("setup_experience"@, FieldDocView { name: "setup_experience"@, description: "Configuration for the out-of-the-box setup experience (formerly `macos_setup`). Controls bootstrap packages, end user authentication, and setup scripts."@, valid_values: None, example: Some("setup_experience:\n  bootstrap_package: https://example.org/bootstrap.pkg\n  enable_end_user_authentication: true"@), required: false, field_type: "object"@, cli_hint: None }),
        ("apple_enable_release_device_manually"@, FieldDocView { name: "apple_enable_release_device_manually"@, description: "When enabled, you're responsible for sending the `DeviceConfigured` command. End users stay in Setup Assistant until sent. Applies to Apple (macOS, iOS, iPadOS) hosts enrolled via ABM. Formerly `enable_release_device_manually`."@, valid_values: Some(seq!["true"@, "false"@]), example: Some("apple_enable_release_device_manually: false"@), required: false, field_type: "boolean"@, cli_hint: None }),
        ("apple_setup_assistant"@, FieldDocView { name: "apple_setup_assistant"@, description: "Path to a custom automatic enrollment (ADE) profile (.json). Applies to macOS and iOS/iPadOS hosts. Formerly `macos_setup_assistant`."@, valid_values: None, example: Some("apple_setup_assistant: ./setup_assistant.json"@), required: false, field_type: "string (file path)"@, cli_hint: None }),
        ("macos_script"@, FieldDocView { name: "macos_script"@, description: "Path to a custom setup script to run after the host is first set up. Applies to macOS only. Formerly `script` under `macos_setup`."@, valid_values: None, example: Some("macos_script: ./post_setup.sh"@), required: false, field_type: "string (file path)"@, cli_hint: None }),
        ("macos_manual_agent_install"@, FieldDocView { name: "macos_manual_agent_install"@, description: "Whether Fleet's agent (fleetd) will be installed as part of setup experience. Applies to macOS only. Formerly `manual_agent_install`."@, valid_values: Some(seq!["true"@, "false"@]), example: Some("macos_manual_agent_install: false"@), required: false, field_type: "boolean"@, cli_hint: None }),
        ("team_settings"@, FieldDocView { name: "team_settings"@, description: "Settings specific to this fleet. Deprecated: use 'settings' instead."@, valid_values: None, example: Some("team_settings:\n  secrets:\n    - secret: $ENROLL_SECRET"@), required: false, field_type: "object"@, cli_hint: Some("fleetctl get teams --name \"Name\" --yaml  # export fleet settings\nfleetctl apply -f fleet.yml               # apply changes"@) }),
        ("team_settings.secrets"@, FieldDocView { name: "secrets"@, description: "Enrollment secrets for adding hosts to this fleet."@, valid_values: None, example: Some("secrets:\n  - secret: $ENROLL_SECRET"@), required: false, field_type: "array"@, cli_hint: None }),
        ("team_settings.features"@, FieldDocView { name: "features"@, description: "Feature flags for this fleet."@, valid_values: None, example: Some("features:\n  enable_host_users: true\n  enable_software_inventory: true"@), required: false, field_type: "object"@, cli_hint: None }),
        ("team_settings.webhook_settings"@, FieldDocView { name: "webhook_settings"@, description: "Webhook configuration for this fleet."@, valid_values: None, example: Some("webhook_settings:\n  failing_policies_webhook:\n    enable_failing_policies_webhook: true"@), required: false, field_type: "object"@, cli_hint: None }),
        ("team_settings.integrations"@, FieldDocView { name: "integrations"@, description: "Third-party integrations for this fleet (Google Calendar, etc.)."@, valid_values: None, example: Some("integrations:\n  google_calendar:\n    enable_calendar_events: true"@), required: false, field_type: "object"@, cli_hint: None }),
        ("team_settings.host_expiry_settings"@, FieldDocView { name: "host_expiry_settings"@, description: "Settings for automatically removing inactive hosts."@, valid_values: None, example: Some("host_expiry_settings:\n  host_expiry_enabled: true\n  host_expiry_window: 30"@), required: false, field_type: "object"@, cli_hint: None }),
        ("webhook_settings"@, FieldDocView { name: "webhook_settings"@, description: "Configuration for webhook notifications."@, valid_values: None, example: Some("webhook_settings:\n  url: https://example.com/webhook"@), required: false, field_type: "object"@, cli_hint: None }),
    ]
}

/// Appends entries 73 to 84 of the field documentation.
fn push_field_docs_part7(v: &mut Vec<(&'static str, FieldDoc)>)
    ensures
        doc_entries(final(v)@) == doc_entries(old(v)@) + field_docs_part7(),
{
    v.push(("setup_experience", FieldDoc { name: "setup_experience", description: "Configuration for the out-of-the-box setup experience (formerly `macos_setup`). Controls bootstrap packages, end user authentication, and setup scripts.", valid_values: None, example: Some("setup_experience:\n  bootstrap_package: https://example.org/bootstrap.pkg\n  enable_end_user_authentication: true"), required: false, field_type: "object", cli_hint: None }));
    let mut vals: Vec<&'static str> = Vec::new();
    vals.push("true");
    vals.push("false");
    assert(strs(vals@) =~= seq!["true"@, "false"@]);
    v.push(("apple_enable_release_device_manually", FieldDoc { name: "apple_enable_release_device_manually", description: "When enabled, you're responsible for sending the `DeviceConfigured` command. End users stay in Setup Assistant until sent. Applies to Apple (macOS, iOS, iPadOS) hosts enrolled via ABM. Formerly `enable_release_device_manually`.", valid_values: Some(vals), example: Some("apple_enable_release_device_manually: false"), required: false, field_type: "boolean", cli_hint: None }));
    v.push(("apple_setup_assistant", FieldDoc { name: "apple_setup_assistant", description: "Path to a custom automatic enrollment (ADE) profile (.json). Applies to macOS and iOS/iPadOS hosts. Formerly `macos_setup_assistant`.", valid_values: None, example: Some("apple_setup_assistant: ./setup_assistant.json"), required: false, field_type: "string (file path)", cli_hint: None }));
    v.push(("macos_script", FieldDoc { name: "macos_script", description: "Path to a custom setup script to run after the host is first set up. Applies to macOS only. Formerly `script` under `macos_setup`.", valid_values: None, example: Some("macos_script: ./post_setup.sh"), required: false, field_type: "string (file path)", cli_hint: None }));
    let mut vals: Vec<&'static str> = Vec::new();
    vals.push("true");
    vals.push("false");
    assert(strs(vals@) =~= seq!["true"@, "false"@]);
    v.push(("macos_manual_agent_install", FieldDoc { name: "macos_manual_agent_install", description: "Whether Fleet's agent (fleetd) will be installed as part of setup experience. Applies to macOS only. Formerly `manual_agent_install`.", valid_values: Some(vals), example: Some("macos_manual_agent_install: false"), required: false, field_type: "boolean", cli_hint: None }));
    v.push(("team_settings", FieldDoc { name: "team_settings", description: "Settings specific to this fleet. Deprecated: use 'settings' instead.", valid_values: None, example: Some("team_settings:\n  secrets:\n    - secret: $ENROLL_SECRET"), required: false, field_type: "object", cli_hint: Some("fleetctl get teams --name \"Name\" --yaml  # export fleet settings\nfleetctl apply -f fleet.yml               # apply changes") }));
    v.push(("team_settings.secrets", FieldDoc { name: "secrets", description: "Enrollment secrets for adding hosts to this fleet.", valid_values: None, example: Some("secrets:\n  - secret: $ENROLL_SECRET"), required: false, field_type: "array", cli_hint: None }));
    v.push(("team_settings.features", FieldDoc { name: "features", description: "Feature flags for this fleet.", valid_values: None, example: Some("features:\n  enable_host_users: true\n  enable_software_inventory: true"), required: false, field_type: "object", cli_hint: None }));
    v.push(("team_settings.webhook_settings", FieldDoc { name: "webhook_settings", description: "Webhook configuration for this fleet.", valid_values: None, example: Some("webhook_settings:\n  failing_policies_webhook:\n    enable_failing_policies_webhook: true"), required: false, field_type: "object", cli_hint: None }));
    v.push(("team_settings.integrations", FieldDoc { name: "integrations", description: "Third-party integrations for this fleet (Google Calendar, etc.).", valid_values: None, example: Some("integrations:\n  google_calendar:\n    enable_calendar_events: true"), required: false, field_type: "object", cli_hint: None }));
    v.push(("team_settings.host_expiry_settings", FieldDoc { name: "host_expiry_settings", description: "Settings for automatically removing inactive hosts.", valid_values: None, example: Some("host_expiry_settings:\n  host_expiry_enabled: true\n  host_expiry_window: 30"), required: false, field_type: "object", cli_hint: None }));
    v.push(("webhook_settings", FieldDoc { name: "webhook_settings", description: "Configuration for webhook notifications.", valid_values: None, example: Some("webhook_settings:\n  url: https://example.com/webhook"), required: false, field_type: "object", cli_hint: None }));
    assert(doc_entries(v@) =~= doc_entries(old(v)@) + field_docs_part7());
}

/// Entries 85 to 96 of the field documentation.
pub closed spec fn field_docs_part8() -> Seq<(Seq<char>, FieldDocView)> {
    seq![
        ("path"@, FieldDocView { name: "path"@, description: "Reference to another YAML file containing configuration. Paths are relative to the repository root."@, valid_values: None, example: Some("- path: ../platforms/macos/policies/security.yml"@), required: false, field_type: "string (file path)"@, cli_hint: None }),
        ("org_settings"@, FieldDocView { name: "org_settings"@, description: "Organization-wide settings for the Fleet instance."@, valid_values: None, example: Some("org_settings:\n  server_settings:\n    server_url: https://fleet.example.com"@), required: false, field_type: "object"@, cli_hint: Some("fleetctl get config --yaml            # export org settings\nfleetctl apply -f default.yml         # apply changes"@) }),
        ("gitops"@, FieldDocView { name: "gitops"@, description: "Fleet GitOps workflow — manage Fleet configuration as code via YAML files."@, valid_values: None, example: None, required: false, field_type: "workflow"@, cli_hint: Some("fleetctl gitops -f default.yml          # dry-run (preview changes)\nfleetctl gitops -f default.yml --force  # apply to Fleet instance"@) }),
        ("reports"@, FieldDocView { name: "reports"@, description: "Scheduled queries (reports) for data collection. Renamed from 'queries' in Fleet 4.82+."@, valid_values: None, example: Some("reports:\n  - paths: ../platforms/all/reports/*.yml\n  - paths: ../platforms/macos/reports/*.yml"@), required: false, field_type: "array"@, cli_hint: Some("fleetctl get queries --yaml             # export reports"@) }),
        ("settings"@, FieldDocView { name: "settings"@, description: "Fleet-level settings (enrollment secrets, features, integrations). Renamed from 'team_settings' in Fleet 4.82+."@, valid_values: None, example: Some("settings:\n  secrets:\n    - secret: $ENROLL_SECRET\n  features:\n    enable_host_users: true"@), required: false, field_type: "object"@, cli_hint: Some("fleetctl get teams --name \"Name\" --yaml  # export fleet settings"@) }),
        ("controls.apple_settings"@, FieldDocView { name: "apple_settings"@, description: "Apple device settings (macOS, iOS, iPadOS). Contains configuration and declaration profiles. Renamed from 'macos_settings' in Fleet 4.83."@, valid_values: None, example: Some("apple_settings:\n  configuration_profiles:\n    - paths: ../platforms/macos/configuration-profiles/*.mobileconfig\n    - paths: ../platforms/macos/declaration-profiles/*.json"@), required: false, field_type: "object"@, cli_hint: None }),
        ("controls.android_settings"@, FieldDocView { name: "android_settings"@, description: "Android device settings. Contains configuration profiles and certificates."@, valid_values: None, example: Some("android_settings:\n  configuration_profiles: []\n  certificates: []"@), required: false, field_type: "object"@, cli_hint: None }),
        ("configuration_profiles"@, FieldDocView { name: "configuration_profiles"@, description: "MDM configuration profiles to deploy. Renamed from 'custom_settings' in Fleet 4.83. Supports glob patterns with 'paths:'."@, valid_values: None, example: Some("configuration_profiles:\n  - paths: ../platforms/macos/configuration-profiles/*.mobileconfig"@), required: false, field_type: "array"@, cli_hint: None }),
        ("controls.macos_updates"@, FieldDocView { name: "macos_updates"@, description: "macOS software update enforcement settings."@, valid_values: None, example: Some("macos_updates:\n  deadline: \"2025-06-15\"\n  minimum_version: \"15.1\"\n  update_new_hosts: true"@), required: false, field_type: "object"@, cli_hint: None }),
        ("controls.ios_updates"@, FieldDocView { name: "ios_updates"@, description: "iOS software update enforcement settings."@, valid_values: None, example: Some("ios_updates:\n  deadline: \"2025-06-15\"\n  minimum_version: \"18.0\""@), required: false, field_type: "object"@, cli_hint: None }),
        ("controls.ipados_updates"@, FieldDocView { name: "ipados_updates"@, description: "iPadOS software update enforcement settings."@, valid_values: None, example: Some("ipados_updates:\n  deadline: \"2025-06-15\"\n  minimum_version: \"18.0\""@), required: false, field_type: "object"@, cli_hint: None }),
        ("controls.windows_updates"@, FieldDocView { name: "windows_updates"@, description: "Windows update enforcement settings."@, valid_values: None, example: Some("windows_updates:\n  deadline_days: 7\n  grace_period_days: 2"@), required: false, field_type: "object"@, cli_hint: None }),
    ]
}

/// Appends entries 85 to 96 of the field documentation.
fn push_field_docs_part8(v: &mut Vec<(&'static str, FieldDoc)>)
    ensures
        doc_entries(final(v)@) == doc_entries(old(v)@) + field_docs_part8(),
{
    v.push(("path", FieldDoc { name: "path", description: "Reference to another YAML file containing configuration. Paths are relative to the repository root.", valid_values: None, example: Some("- path: ../platforms/macos/policies/security.yml"), required: false, field_type: "string (file path)", cli_hint: None }));
    v.push(("org_settings", FieldDoc { name: "org_settings", description: "Organization-wide settings for the Fleet instance.", valid_values: None, example: Some("org_settings:\n  server_settings:\n    server_url: https://fleet.example.com"), required: false, field_type: "object", cli_hint: Some("fleetctl get config --yaml            # export org settings\nfleetctl apply -f default.yml         # apply changes") }));
    v.push(("gitops", FieldDoc { name: "gitops", description: "Fleet GitOps workflow — manage Fleet configuration as code via YAML files.", valid_values: None, example: None, required: false, field_type: "workflow", cli_hint: Some("fleetctl gitops -f default.yml          # dry-run (preview changes)\nfleetctl gitops -f default.yml --force  # apply to Fleet instance") }));
    v.push(("reports", FieldDoc { name: "reports", description: "Scheduled queries (reports) for data collection. Renamed from 'queries' in Fleet 4.82+.", valid_values: None, example: Some("reports:\n  - paths: ../platforms/all/reports/*.yml\n  - paths: ../platforms/macos/reports/*.yml"), required: false, field_type: "array", cli_hint: Some("fleetctl get queries --yaml             # export reports") }));
    v.push(("settings", FieldDoc { name: "settings", description: "Fleet-level settings (enrollment secrets, features, integrations). Renamed from 'team_settings' in Fleet 4.82+.", valid_values: None, example: Some("settings:\n  secrets:\n    - secret: $ENROLL_SECRET\n  features:\n    enable_host_users: true"), required: false, field_type: "object", cli_hint: Some("fleetctl get teams --name \"Name\" --yaml  # export fleet settings") }));
    v.push(("controls.apple_settings", FieldDoc { name: "apple_settings", description: "Apple device settings (macOS, iOS, iPadOS). Contains configuration and declaration profiles. Renamed from 'macos_settings' in Fleet 4.83.", valid_values: None, example: Some("apple_settings:\n  configuration_profiles:\n    - paths: ../platforms/macos/configuration-profiles/*.mobileconfig\n    - paths: ../platforms/macos/declaration-profiles/*.json"), required: false, field_type: "object", cli_hint: None }));
    v.push(("controls.android_settings", FieldDoc { name: "android_settings", description: "Android device settings. Contains configuration profiles and certificates.", valid_values: None, example: Some("android_settings:\n  configuration_profiles: []\n  certificates: []"), required: false, field_type: "object", cli_hint: None }));
    v.push(("configuration_profiles", FieldDoc { name: "configuration_profiles", description: "MDM configuration profiles to deploy. Renamed from 'custom_settings' in Fleet 4.83. Supports glob patterns with 'paths:'.", valid_values: None, example: Some("configuration_profiles:\n  - paths: ../platforms/macos/configuration-profiles/*.mobileconfig"), required: false, field_type: "array", cli_hint: None }));
    v.push(("controls.macos_updates", FieldDoc { name: "macos_updates", description: "macOS software update enforcement settings.", valid_values: None, example: Some("macos_updates:\n  deadline: \"2025-06-15\"\n  minimum_version: \"15.1\"\n  update_new_hosts: true"), required: false, field_type: "object", cli_hint: None }));
    v.push(("controls.ios_updates", FieldDoc { name: "ios_updates", description: "iOS software update enforcement settings.", valid_values: None, example: Some("ios_updates:\n  deadline: \"2025-06-15\"\n  minimum_version: \"18.0\""), required: false, field_type: "object", cli_hint: None }));
    v.push(("controls.ipados_updates", FieldDoc { name: "ipados_updates", description: "iPadOS software update enforcement settings.", valid_values: None, example: Some("ipados_updates:\n  deadline: \"2025-06-15\"\n  minimum_version: \"18.0\""), required: false, field_type: "object", cli_hint: None }));
    v.push(("controls.windows_updates", FieldDoc { name: "windows_updates", description: "Windows update enforcement settings.", valid_values: None, example: Some("windows_updates:\n  deadline_days: 7\n  grace_period_days: 2"), required: false, field_type: "object", cli_hint: None }));
    assert(doc_entries(v@) =~= doc_entries(old(v)@) + field_docs_part8());
}

/// Entries 97 to 108 of the field documentation.
pub closed spec fn field_docs_part9() -> Seq<(Seq<char>, FieldDocView)> {
    seq![
        ("deadline"@, FieldDocView { name: "deadline"@, description: "Date by which the OS update must be installed. Format: YYYY-MM-DD."@, valid_values: None, example: Some("deadline: \"2025-06-15\""@), required: false, field_type: "string (date)"@, cli_hint: None }),
        ("minimum_version"@, FieldDocView { name: "minimum_version"@, description: "Minimum required OS version. Hosts below this version will be prompted to update."@, valid_values: None, example: Some("minimum_version: \"15.1\""@), required: false, field_type: "string"@, cli_hint: None }),
        ("update_new_hosts"@, FieldDocView { name: "update_new_hosts"@, description: "Whether to enforce OS updates on newly enrolled hosts."@, valid_values: Some(seq!["true"@, "false"@]), example: Some("update_new_hosts: true"@), required: false, field_type: "boolean"@, cli_hint: None }),
        ("slug"@, FieldDocView { name: "slug"@, description: "Fleet-maintained app identifier. Format: app-name/platform (e.g., 'santa/darwin', '1password/darwin')."@, valid_values: None, example: Some("slug: santa/darwin"@), required: false, field_type: "string"@, cli_hint: Some("See: https://github.com/fleetdm/fleet/tree/main/ee/maintained-apps"@) }),
        ("self_service"@, FieldDocView { name: "self_service"@, description: "Whether this software is available for users to install via Fleet Desktop self-service."@, valid_values: Some(seq!["true"@, "false"@]), example: Some("self_service: true"@), required: false, field_type: "boolean"@, cli_hint: None }),
        ("controls.apple_settings.configuration_profiles.paths"@, FieldDocView { name: "paths"@, description: "Glob pattern referencing Apple configuration or declaration profile files. Matches `.mobileconfig` (configuration profiles) and `.json` (declaration profiles) files."@, valid_values: None, example: Some("configuration_profiles:\n  - paths: ../platforms/macos/configuration-profiles/*.mobileconfig\n  - paths: ../platforms/macos/declaration-profiles/*.json"@), required: false, field_type: "string (glob)"@, cli_hint: Some("fleetctl get config --yaml  # see active profiles"@) }),
        ("controls.apple_settings.configuration_profiles.path"@, FieldDocView { name: "path"@, description: "Path to a single Apple configuration profile (`.mobileconfig`) or declaration profile (`.json`). Relative to the repository root or current file."@, valid_values: None, example: Some("configuration_profiles:\n  - path: ../platforms/macos/configuration-profiles/wifi.mobileconfig"@), required: false, field_type: "string (file path)"@, cli_hint: None }),
        ("controls.windows_settings.configuration_profiles.paths"@, FieldDocView { name: "paths"@, description: "Glob pattern referencing Windows configuration profile files (`.xml`)."@, valid_values: None, example: Some("configuration_profiles:\n  - paths: ../platforms/windows/configuration-profiles/*.xml"@), required: false, field_type: "string (glob)"@, cli_hint: None }),
        ("controls.windows_settings.configuration_profiles.path"@, FieldDocView { name: "path"@, description: "Path to a single Windows configuration profile (`.xml`). Relative to the repository root or current file."@, valid_values: None, example: Some("configuration_profiles:\n  - path: ../platforms/windows/configuration-profiles/security.xml"@), required: false, field_type: "string (file path)"@, cli_hint: None }),
        ("controls.scripts.paths"@, FieldDocView { name: "paths"@, description: "Glob pattern referencing script files to deploy to hosts. Supports `.sh` (macOS/Linux) and `.ps1` (Windows)."@, valid_values: None, example: Some("scripts:\n  - paths: ../platforms/macos/scripts/*.sh\n  - paths: ../platforms/windows/scripts/*.ps1"@), required: false, field_type: "string (glob)"@, cli_hint: Some("fleetctl run-script --script-path ./scripts/setup.sh --host \"hostname\""@) }),
        ("controls.scripts.path"@, FieldDocView { name: "path"@, description: "Path to a single script file to deploy to hosts. Supports `.sh` (macOS/Linux) and `.ps1` (Windows). Relative to the repository root or current file."@, valid_values: None, example: Some("scripts:\n  - path: ../platforms/macos/scripts/setup.sh"@), required: false, field_type: "string (file path)"@, cli_hint: Some("fleetctl run-script --script-path ./scripts/setup.sh --host \"hostname\""@) }),
        ("paths"@, FieldDocView { name: "paths"@, description: "Glob pattern referencing multiple files. Must contain glob characters (*, ?, [, {). Use `path` for a single file."@, valid_values: None, example: Some("- paths: ../platforms/macos/policies/*.yml\n- paths: ../platforms/macos/configuration-profiles/*.mobileconfig"@), required: false, field_type: "string (glob)"@, cli_hint: None }),
    ]
}

/// Appends entries 97 to 108 of the field documentation.
fn push_field_docs_part9(v: &mut Vec<(&'static str, FieldDoc)>)
    ensures
        doc_entries(final(v)@) == doc_entries(old(v)@) + field_docs_part9(),
{
    v.push(("deadline", FieldDoc { name: "deadline", description: "Date by which the OS update must be installed. Format: YYYY-MM-DD.", valid_values: None, example: Some("deadline: \"2025-06-15\""), required: false, field_type: "string (date)", cli_hint: None }));
    v.push(("minimum_version", FieldDoc { name: "minimum_version", description: "Minimum required OS version. Hosts below this version will be prompted to update.", valid_values: None, example: Some("minimum_version: \"15.1\""), required: false, field_type: "string", cli_hint: None }));
    let mut vals: Vec<&'static str> = Vec::new();
    vals.push("true");
    vals.push("false");
    assert(strs(vals@) =~= seq!["true"@, "false"@]);
    v.push(("update_new_hosts", FieldDoc { name: "update_new_hosts", description: "Whether to enforce OS updates on newly enrolled hosts.", valid_values: Some(vals), example: Some("update_new_hosts: true"), required: false, field_type: "boolean", cli_hint: None }));
    v.push(("slug", FieldDoc { name: "slug", description: "Fleet-maintained app identifier. Format: app-name/platform (e.g., 'santa/darwin', '1password/darwin').", valid_values: None, example: Some("slug: santa/darwin"), required: false, field_type: "string", cli_hint: Some("See: https://github.com/fleetdm/fleet/tree/main/ee/maintained-apps") }));
    let mut vals: Vec<&'static str> = Vec::new();
    vals.push("true");
    vals.push("false");
    assert(strs(vals@) =~= seq!["true"@, "false"@]);
    v.push(("self_service", FieldDoc { name: "self_service", description: "Whether this software is available for users to install via Fleet Desktop self-service.", valid_values: Some(vals), example: Some("self_service: true"), required: false, field_type: "boolean", cli_hint: None }));
    v.push(("controls.apple_settings.configuration_profiles.paths", FieldDoc { name: "paths", description: "Glob pattern referencing Apple configuration or declaration profile files. Matches `.mobileconfig` (configuration profiles) and `.json` (declaration profiles) files.", valid_values: None, example: Some("configuration_profiles:\n  - paths: ../platforms/macos/configuration-profiles/*.mobileconfig\n  - paths: ../platforms/macos/declaration-profiles/*.json"), required: false, field_type: "string (glob)", cli_hint: Some("fleetctl get config --yaml  # see active profiles") }));
    v.push(("controls.apple_settings.configuration_profiles.path", FieldDoc { name: "path", description: "Path to a single Apple configuration profile (`.mobileconfig`) or declaration profile (`.json`). Relative to the repository root or current file.", valid_values: None, example: Some("configuration_profiles:\n  - path: ../platforms/macos/configuration-profiles/wifi.mobileconfig"), required: false, field_type: "string (file path)", cli_hint: None }));
    v.push(("controls.windows_settings.configuration_profiles.paths", FieldDoc { name: "paths", description: "Glob pattern referencing Windows configuration profile files (`.xml`).", valid_values: None, example: Some("configuration_profiles:\n  - paths: ../platforms/windows/configuration-profiles/*.xml"), required: false, field_type: "string (glob)", cli_hint: None }));
    v.push(("controls.windows_settings.configuration_profiles.path", FieldDoc { name: "path", description: "Path to a single Windows configuration profile (`.xml`). Relative to the repository root or current file.", valid_values: None, example: Some("configuration_profiles:\n  - path: ../platforms/windows/configuration-profiles/security.xml"), required: false, field_type: "string (file path)", cli_hint: None }));
    v.push(("controls.scripts.paths", FieldDoc { name: "paths", description: "Glob pattern referencing script files to deploy to hosts. Supports `.sh` (macOS/Linux) and `.ps1` (Windows).", valid_values: None, example: Some("scripts:\n  - paths: ../platforms/macos/scripts/*.sh\n  - paths: ../platforms/windows/scripts/*.ps1"), required: false, field_type: "string (glob)", cli_hint: Some("fleetctl run-script --script-path ./scripts/setup.sh --host \"hostname\"") }));
    v.push(("controls.scripts.path", FieldDoc { name: "path", description: "Path to a single script file to deploy to hosts. Supports `.sh` (macOS/Linux) and `.ps1` (Windows). Relative to the repository root or current file.", valid_values: None, example: Some("scripts:\n  - path: ../platforms/macos/scripts/setup.sh"), required: false, field_type: "string (file path)", cli_hint: Some("fleetctl run-script --script-path ./scripts/setup.sh --host \"hostname\"") }));
    v.push(("paths", FieldDoc { name: "paths", description: "Glob pattern referencing multiple files. Must contain glob characters (*, ?, [, {). Use `path` for a single file.", valid_values: None, example: Some("- paths: ../platforms/macos/policies/*.yml\n- paths: ../platforms/macos/configuration-profiles/*.mobileconfig"), required: false, field_type: "string (glob)", cli_hint: None }));
    assert(doc_entries(v@) =~= doc_entries(old(v)@) + field_docs_part9());
}

/// The documentation of every field, one entry per key.
pub closed spec fn field_doc_table() -> Seq<(Seq<char>, FieldDocView)> {
    field_docs_part1() + field_docs_part2() + field_docs_part3() + field_docs_part4() + field_docs_part5() + field_docs_part6() + field_docs_part7() + field_docs_part8() + field_docs_part9()
}

/// The documentation of every field, by dotted key (`policies.platform`).
pub fn field_docs() -> (r: Vec<(&'static str, FieldDoc)>)
    ensures
        doc_entries(r@) == field_doc_table(),
{
    let mut v: Vec<(&'static str, FieldDoc)> = Vec::new();
    push_field_docs_part1(&mut v);
    push_field_docs_part2(&mut v);
    push_field_docs_part3(&mut v);
    push_field_docs_part4(&mut v);
    push_field_docs_part5(&mut v);
    push_field_docs_part6(&mut v);
    push_field_docs_part7(&mut v);
    push_field_docs_part8(&mut v);
    push_field_docs_part9(&mut v);
    assert(doc_entries(v@) =~= field_doc_table());
    v
}

} // verus!
