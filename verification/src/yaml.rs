//! A plain YAML value tree and the YAML parser entry point.
//!
//! Rules that inspect the document structure work on `YamlValue`, a
//! library-owned tree whose strings, sequences and mappings are ordinary
//! Rust values. Parsing itself is done by `serde_yaml`.
use vstd::prelude::*;

use crate::text;
use serde_yaml::Value as V;

verus! {

/// A parsed YAML node.
#[derive(Debug)]
pub enum YamlValue {
    Null,
    Bool(bool),
    /// A number, kept as its canonical text.
    Number(String),
    String(String),
    Sequence(Vec<YamlValue>),
    /// Key/value pairs in document order.
    Mapping(Vec<(YamlValue, YamlValue)>),
    /// A `!tag` applied to a value.
    Tagged(String, Box<YamlValue>),
}

#[verifier::external_type_specification]
#[verifier::external_body]
pub struct ExSerdeYamlValue(serde_yaml::Value);

/// A YAML syntax error: the parser's message and, when it reports one, its
/// 1-based line and column.
#[derive(Debug)]
pub struct YamlError {
    pub message: String,
    pub location: Option<(usize, usize)>,
}

/// What `serde_yaml::from_str::<serde_yaml::Value>` yields for a source text:
/// the tree as a `YamlValue`, or the error's message and location.
pub uninterp spec fn yaml_outcome(source: Seq<char>) -> Result<YamlValue, (Seq<char>, Option<(usize, usize)>)>;

/// The parsed tree of a source, `None` on a syntax error.
pub open spec fn yaml_parse(source: Seq<char>) -> Option<YamlValue> {
    match yaml_outcome(source) {
        Ok(v) => Some(v),
        Err(_) => None,
    }
}

/// Parses YAML text with `serde_yaml::from_str::<serde_yaml::Value>`. The
/// result is only named: the YAML grammar, and the wording of its errors,
/// are serde_yaml's. An error keeps its `Display` text and location.
#[verifier::external_body]
pub fn parse_yaml_outcome(source: &str) -> (r: Result<YamlValue, YamlError>)
    ensures
        match r {
            Ok(v) => yaml_outcome(source@) == Ok::<YamlValue, (Seq<char>, Option<(usize, usize)>)>(v),
            Err(e) => yaml_outcome(source@) == Err::<YamlValue, (Seq<char>, Option<(usize, usize)>)>((e.message@, e.location)),
        },
{
    match serde_yaml::from_str::<serde_yaml::Value>(source) {
        Ok(v) => Ok(from_serde(&v)),
        Err(e) => {
            let location = match e.location() {
                Some(l) => Some((l.line(), l.column())),
                None => None,
            };
            Err(YamlError { message: e.to_string(), location })
        },
    }
}

/// Parses YAML text; a syntax error becomes `None`.
pub fn parse_yaml(source: &str) -> (r: Option<YamlValue>)
    ensures
        r == yaml_parse(source@),
{
    match parse_yaml_outcome(source) {
        Ok(v) => Some(v),
        Err(_) => None,
    }
}

/// Converts a `serde_yaml::Value` node by node: each variant becomes the
/// variant of the same name, numbers become their `Display` text, mapping
/// entries keep their order.
#[verifier::external_body]
fn from_serde(v: &serde_yaml::Value) -> YamlValue {
    match v {
        V::Null => YamlValue::Null,
        V::Bool(b) => YamlValue::Bool(*b),
        V::Number(n) => YamlValue::Number(n.to_string()),
        V::String(s) => YamlValue::String(s.clone()),
        V::Sequence(items) => YamlValue::Sequence(items.iter().map(from_serde).collect()),
        V::Mapping(m) => YamlValue::Mapping(m.iter().map(|(k, x)| (from_serde(k), from_serde(x))).collect()),
        V::Tagged(t) => YamlValue::Tagged(t.tag.to_string(), Box::new(from_serde(&t.value))),
    }
}

// ---------------------------------------------------------------------------
// Specifications of lookups
// ---------------------------------------------------------------------------

/// The node is a string whose text is `s`.
pub open spec fn is_str(v: YamlValue, s: Seq<char>) -> bool {
    v matches YamlValue::String(t) && t@ == s
}

/// Index of the first mapping entry whose key is the string `key`.
pub open spec fn first_key_index(entries: Seq<(YamlValue, YamlValue)>, key: Seq<char>) -> Option<
    int,
> {
    if exists|i: int|
        0 <= i < entries.len() && is_str(entries[i].0, key) && forall|j: int|
            0 <= j < i ==> !is_str(#[trigger] entries[j].0, key) {
        Some(
            choose|i: int|
                0 <= i < entries.len() && is_str(entries[i].0, key) && forall|j: int|
                    0 <= j < i ==> !is_str(#[trigger] entries[j].0, key),
        )
    } else {
        None
    }
}

/// `Mapping::get` with a string key (the value of the first matching key;
/// `None` when the node is not a mapping or lacks the key).
pub open spec fn get(v: YamlValue, key: Seq<char>) -> Option<YamlValue> {
    match v {
        YamlValue::Mapping(entries) => match first_key_index(entries@, key) {
            Some(i) => Some(entries@[i].1),
            None => None,
        },
        _ => None,
    }
}

/// The node is a mapping that has the string key `key`.
pub open spec fn has_key(v: YamlValue, key: Seq<char>) -> bool {
    get(v, key) is Some
}

/// The string value under `key`, if that value is a string.
pub open spec fn get_str(v: YamlValue, key: Seq<char>) -> Option<Seq<char>> {
    match get(v, key) {
        Some(YamlValue::String(s)) => Some(s@),
        _ => None,
    }
}

// ---------------------------------------------------------------------------
// Exec lookups
// ---------------------------------------------------------------------------

/// The node is the string `key`.
pub fn value_is_str(v: &YamlValue, key: &[char]) -> (r: bool)
    ensures
        r == is_str(*v, key@),
{
    match v {
        YamlValue::String(s) => {
            let c = text::chars_of(s.as_str());
            text::eq(&c, key)
        },
        _ => false,
    }
}

/// `mapping.get(key)` for a string key.
pub fn get_exec<'a>(v: &'a YamlValue, key: &[char]) -> (r: Option<&'a YamlValue>)
    ensures
        r matches Some(x) ==> get(*v, key@) == Some(*x),
        r is None ==> get(*v, key@) is None,
{
    match v {
        YamlValue::Mapping(entries) => {
            let mut i: usize = 0;
            while i < entries.len()
                invariant
                    i <= entries.len(),
                    *v == YamlValue::Mapping(*entries),
                    forall|j: int| 0 <= j < i ==> !is_str(#[trigger] entries@[j].0, key@),
                decreases entries.len() - i,
            {
                if value_is_str(&entries[i].0, key) {
                    proof {
                        let k = choose|k: int|
                            0 <= k < entries@.len() && is_str(entries@[k].0, key@) && forall|
                                j: int,
                            | 0 <= j < k ==> !is_str(#[trigger] entries@[j].0, key@);
                        assert(0 <= i < entries@.len() && is_str(entries@[i as int].0, key@)
                            && forall|j: int|
                            0 <= j < i ==> !is_str(#[trigger] entries@[j].0, key@));
                        if k < i {
                        } else if k > i {
                            assert(!is_str(entries@[i as int].0, key@));
                        }
                        assert(k == i);
                    }
                    return Some(&entries[i].1);
                }
                i += 1;
            }
            None
        },
        _ => None,
    }
}

/// The node is a mapping with the string key `key`.
pub fn has_key_exec(v: &YamlValue, key: &str) -> (r: bool)
    ensures
        r == has_key(*v, key@),
{
    let k = text::chars_of(key);
    get_exec(v, &k).is_some()
}

/// The string value under `key`, as characters.
pub fn get_str_exec(v: &YamlValue, key: &str) -> (r: Option<Vec<char>>)
    ensures
        r matches Some(s) ==> get_str(*v, key@) == Some(s@),
        r is None ==> get_str(*v, key@) is None,
{
    let k = text::chars_of(key);
    match get_exec(v, &k) {
        Some(YamlValue::String(s)) => Some(text::chars_of(s.as_str())),
        _ => None,
    }
}

// ---------------------------------------------------------------------------
// Tags and debug text
// ---------------------------------------------------------------------------

/// The node under any tags (`Value::untag`).
pub open spec fn untag(v: YamlValue) -> YamlValue
    decreases v,
{
    match v {
        YamlValue::Tagged(_, x) => untag(*x),
        _ => v,
    }
}

/// `Value::as_str`: the text of a string node, looking through tags.
pub open spec fn as_str(v: YamlValue) -> Option<Seq<char>> {
    match untag(v) {
        YamlValue::String(s) => Some(s@),
        _ => None,
    }
}

/// `Value::is_bool`: a boolean node, looking through tags.
pub open spec fn is_bool(v: YamlValue) -> bool {
    untag(v) is Bool
}

/// Every tag in the tree is non-empty (always so for parsed documents).
pub open spec fn tags_nonempty(v: YamlValue) -> bool
    decreases v,
{
    match v {
        YamlValue::Sequence(items) => forall|i: int|
            0 <= i < items@.len() ==> tags_nonempty(#[trigger] items@[i]),
        YamlValue::Mapping(es) => (forall|i: int| 0 <= i < es@.len() ==> tags_nonempty(#[trigger] es@[i].0))
            && (forall|i: int| 0 <= i < es@.len() ==> tags_nonempty(#[trigger] es@[i].1)),
        YamlValue::Tagged(t, x) => t@.len() > 0 && tags_nonempty(*x),
        _ => true,
    }
}

/// The text of a node looking through tags, as characters.
pub fn as_str_exec(v: &YamlValue) -> (r: Option<Vec<char>>)
    ensures
        match r {
            Some(s) => as_str(*v) == Some(s@),
            None => as_str(*v).is_none(),
        },
    decreases v,
{
    match v {
        YamlValue::Tagged(_, x) => as_str_exec(x),
        YamlValue::String(s) => Some(text::chars_of(s.as_str())),
        _ => None,
    }
}

/// Whether a node is a boolean, looking through tags.
pub fn is_bool_exec(v: &YamlValue) -> (r: bool)
    ensures
        r == is_bool(*v),
    decreases v,
{
    match v {
        YamlValue::Tagged(_, x) => is_bool_exec(x),
        YamlValue::Bool(_) => true,
        _ => false,
    }
}

/// Whether every tag in the tree is non-empty.
pub fn tags_nonempty_exec(v: &YamlValue) -> (r: bool)
    ensures
        r == tags_nonempty(*v),
    decreases v,
{
    match v {
        YamlValue::Sequence(items) => {
            let mut i: usize = 0;
            while i < items.len()
                invariant
                    i <= items.len(),
                    *v == YamlValue::Sequence(*items),
                    forall|j: int| 0 <= j < i ==> tags_nonempty(#[trigger] items@[j]),
                decreases items.len() - i,
            {
                proof {
                    assert(decreases_to!(*v => (*v)->Sequence_0));
                    assert(decreases_to!(*items => items@));
                    assert(decreases_to!(items@ => items@[i as int]));
                }
                if !tags_nonempty_exec(&items[i]) {
                    return false;
                }
                i += 1;
            }
            assert(forall|j: int| 0 <= j < items@.len() ==> tags_nonempty(#[trigger] items@[j]));
            assert(*v == YamlValue::Sequence(*items));
            assert(tags_nonempty(*v));
            true
        },
        YamlValue::Mapping(es) => {
            let mut i: usize = 0;
            while i < es.len()
                invariant
                    i <= es.len(),
                    *v == YamlValue::Mapping(*es),
                    forall|j: int| 0 <= j < i ==> tags_nonempty(#[trigger] es@[j].0),
                    forall|j: int| 0 <= j < i ==> tags_nonempty(#[trigger] es@[j].1),
                decreases es.len() - i,
            {
                proof {
                    assert(decreases_to!(*v => (*v)->Mapping_0));
                    assert(decreases_to!(*es => es@));
                    assert(decreases_to!(es@ => es@[i as int]));
                    assert(decreases_to!(es@[i as int] => es@[i as int].0));
                    assert(decreases_to!(es@[i as int] => es@[i as int].1));
                }
                let k_ok = tags_nonempty_exec(&es[i].0);
                if !k_ok {
                    return false;
                }
                let v_ok = tags_nonempty_exec(&es[i].1);
                if !v_ok {
                    return false;
                }
                assert(tags_nonempty(es@[i as int].0) && tags_nonempty(es@[i as int].1));
                i += 1;
            }
            assert(*v == YamlValue::Mapping(*es));
            assert(tags_nonempty(*v));
            true
        },
        YamlValue::Tagged(t, x) => {
            let tc = text::chars_of(t.as_str());
            tc.len() > 0 && tags_nonempty_exec(x)
        },
        _ => true,
    }
}

/// What `format!("{:?}", value)` prints for the `serde_yaml::Value` that a
/// node stands for.
pub uninterp spec fn yaml_debug(v: YamlValue) -> Seq<char>;

/// The `Debug` text of the `serde_yaml::Value` that a node stands for; the
/// text is only named here. Each tag must be non-empty, as
/// `serde_yaml::value::Tag::new` panics on an empty one.
#[verifier::external_body]
pub fn debug_text(v: &YamlValue) -> (r: String)
    requires
        tags_nonempty(*v),
    ensures
        r@ == yaml_debug(*v),
{
    format!("{:?}", to_serde(v))
}

/// Converts a node back to a `serde_yaml::Value`, variant by variant; a
/// number's text is parsed back with `serde_yaml::Number::from_str`.
#[verifier::external_body]
fn to_serde(v: &YamlValue) -> serde_yaml::Value {
    match v {
        YamlValue::Null => V::Null,
        YamlValue::Bool(b) => V::Bool(*b),
        YamlValue::Number(n) => n.parse::<serde_yaml::Number>().map(V::Number).unwrap_or(V::Null),
        YamlValue::String(s) => V::String(s.clone()),
        YamlValue::Sequence(items) => V::Sequence(items.iter().map(to_serde).collect()),
        YamlValue::Mapping(m) => V::Mapping(m.iter().map(|(k, x)| (to_serde(k), to_serde(x))).collect()),
        YamlValue::Tagged(t, x) => V::Tagged(Box::new(serde_yaml::value::TaggedValue {
            tag: serde_yaml::value::Tag::new(t.clone()),
            value: to_serde(x),
        })),
    }
}

// ---------------------------------------------------------------------------
// Walking documents
// ---------------------------------------------------------------------------

/// The node reached from `v` by a path of string keys through mappings.
pub open spec fn at_path(v: YamlValue, path: Seq<Seq<char>>) -> Option<YamlValue>
    decreases path.len(),
{
    if path.len() == 0 {
        Some(v)
    } else {
        match get(v, path[0]) {
            Some(c) => at_path(c, path.drop_first()),
            None => None,
        }
    }
}

/// The items of the sequence at a path (none when the path is missing or
/// does not lead to a sequence).
pub open spec fn items_at(v: YamlValue, path: Seq<Seq<char>>) -> Seq<YamlValue> {
    match at_path(v, path) {
        Some(YamlValue::Sequence(items)) => items@,
        _ => Seq::empty(),
    }
}

/// The name an item is shown by: its `name`, else its `path`, else
/// `unnamed`.
pub open spec fn display_name(item: YamlValue) -> Seq<char> {
    match get_str(item, "name"@) {
        Some(n) => n,
        None => match get_str(item, "path"@) {
            Some(p) => p,
            None => "unnamed"@,
        },
    }
}

/// The string items (looking through tags) of the sequence under `key`.
pub open spec fn string_items(items: Seq<YamlValue>) -> Seq<Seq<char>>
    decreases items.len(),
{
    if items.len() == 0 {
        Seq::empty()
    } else {
        match as_str(items.last()) {
            Some(s) => string_items(items.drop_last()).push(s),
            None => string_items(items.drop_last()),
        }
    }
}

/// The strings listed under `key` of a mapping.
pub open spec fn get_string_array(v: YamlValue, key: Seq<char>) -> Seq<Seq<char>> {
    match get(v, key) {
        Some(YamlValue::Sequence(items)) => string_items(items@),
        _ => Seq::empty(),
    }
}

/// The value under `key` of a mapping, looking through tags on the mapping.
pub open spec fn get_untagged(v: YamlValue, key: Seq<char>) -> Option<YamlValue> {
    get(untag(v), key)
}

/// `Value::as_bool`: a boolean, looking through tags.
pub open spec fn as_bool(v: YamlValue) -> Option<bool> {
    match untag(v) {
        YamlValue::Bool(b) => Some(b),
        _ => None,
    }
}

/// The node under a path of keys.
pub fn at_path_exec<'a>(v: &'a YamlValue, path: &[&str]) -> (r: Option<&'a YamlValue>)
    ensures
        match r {
            Some(x) => at_path(*v, text::strs(path@)) == Some(*x),
            None => at_path(*v, text::strs(path@)).is_none(),
        },
{
    let ghost ps = text::strs(path@);
    let mut cur: &YamlValue = v;
    let mut i: usize = 0;
    assert(ps.skip(0) =~= ps);
    while i < path.len()
        invariant
            i <= path@.len(),
            ps == text::strs(path@),
            at_path(*v, ps) == at_path(*cur, ps.skip(i as int)),
        decreases path.len() - i,
    {
        let k = text::chars_of(path[i]);
        assert(ps.skip(i as int)[0] == k@);
        assert(ps.skip(i as int).drop_first() =~= ps.skip(i + 1));
        match get_exec(cur, &k) {
            Some(c) => {
                cur = c;
            },
            None => {
                return None;
            },
        }
        i += 1;
    }
    assert(ps.skip(i as int) =~= Seq::<Seq<char>>::empty());
    Some(cur)
}

/// The items of the sequence at a path.
pub fn items_at_exec<'a>(v: &'a YamlValue, path: &[&str]) -> (r: &'a [YamlValue])
    ensures
        r@ == items_at(*v, text::strs(path@)),
{
    match at_path_exec(v, path) {
        Some(YamlValue::Sequence(items)) => items.as_slice(),
        _ => &[],
    }
}

/// The name an item is shown by.
pub fn display_name_exec(item: &YamlValue) -> (r: Vec<char>)
    ensures
        r@ == display_name(*item),
{
    match get_str_exec(item, "name") {
        Some(n) => n,
        None => match get_str_exec(item, "path") {
            Some(p) => p,
            None => text::chars_of("unnamed"),
        },
    }
}

/// The strings listed under `key`.
pub fn get_string_array_exec(v: &YamlValue, key: &str) -> (r: Vec<Vec<char>>)
    ensures
        text::vviews(r@) == get_string_array(*v, key@),
{
    let k = text::chars_of(key);
    let mut out: Vec<Vec<char>> = Vec::new();
    match get_exec(v, &k) {
        Some(YamlValue::Sequence(items)) => {
            let mut i: usize = 0;
            assert(items@.take(0) =~= Seq::<YamlValue>::empty());
            assert(text::vviews(out@) =~= Seq::<Seq<char>>::empty());
            while i < items.len()
                invariant
                    i <= items@.len(),
                    text::vviews(out@) == string_items(items@.take(i as int)),
                decreases items.len() - i,
            {
                assert(items@.take(i + 1).drop_last() =~= items@.take(i as int));
                match as_str_exec(&items[i]) {
                    Some(s) => {
                        let ghost before = text::vviews(out@);
                        out.push(s);
                        assert(text::vviews(out@) =~= before.push(s@));
                    },
                    None => {},
                }
                i += 1;
            }
            assert(items@.take(items.len() as int) =~= items@);
        },
        _ => {
            assert(text::vviews(out@) =~= Seq::<Seq<char>>::empty());
        },
    }
    out
}

/// The node under any tags.
pub fn untag_exec(v: &YamlValue) -> (r: &YamlValue)
    ensures
        *r == untag(*v),
    decreases v,
{
    match v {
        YamlValue::Tagged(_, x) => untag_exec(x),
        _ => v,
    }
}

/// A boolean, looking through tags.
pub fn as_bool_exec(v: &YamlValue) -> (r: Option<bool>)
    ensures
        r == as_bool(*v),
{
    match untag_exec(v) {
        YamlValue::Bool(b) => Some(*b),
        _ => None,
    }
}

} // verus!
