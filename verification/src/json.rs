//! A JSON tree built by the library, and its pretty-printed text, which
//! `serde_json` writes.
use vstd::prelude::*;

use serde_json::Value as J;

verus! {

/// A JSON value.
#[derive(Debug)]
pub enum JsonValue {
    Null,
    Bool(bool),
    Number(u64),
    Str(String),
    Array(Vec<JsonValue>),
    /// Members in insertion order.
    Object(Vec<(String, JsonValue)>),
}

/// The content of a JSON value.
pub enum JsonView {
    Null,
    Bool(bool),
    Number(u64),
    Str(Seq<char>),
    Array(Seq<JsonView>),
    Object(Seq<(Seq<char>, JsonView)>),
}

/// The content of a JSON value.
pub open spec fn json_view(v: JsonValue) -> JsonView
    decreases v,
{
    match v {
        JsonValue::Null => JsonView::Null,
        JsonValue::Bool(b) => JsonView::Bool(b),
        JsonValue::Number(n) => JsonView::Number(n),
        JsonValue::Str(s) => JsonView::Str(s@),
        JsonValue::Array(items) => JsonView::Array(
            Seq::new(
                items@.len(),
                |i: int|
                    if 0 <= i < items@.len() {
                        json_view(items@[i])
                    } else {
                        JsonView::Null
                    },
            ),
        ),
        JsonValue::Object(es) => JsonView::Object(
            Seq::new(
                es@.len(),
                |i: int|
                    if 0 <= i < es@.len() {
                        (es@[i].0@, json_view(es@[i].1))
                    } else {
                        (Seq::empty(), JsonView::Null)
                    },
            ),
        ),
    }
}

/// The contents of a list of members.
pub open spec fn members_view(es: Seq<(String, JsonValue)>) -> Seq<(Seq<char>, JsonView)> {
    Seq::new(es.len(), |i: int| (es[i].0@, json_view(es[i].1)))
}

/// The contents of a list of values.
pub open spec fn items_view(items: Seq<JsonValue>) -> Seq<JsonView> {
    Seq::new(items.len(), |i: int| json_view(items[i]))
}

/// An object's content is the content of its members.
pub proof fn lemma_object_view(es: Vec<(String, JsonValue)>)
    ensures
        json_view(JsonValue::Object(es)) == JsonView::Object(members_view(es@)),
{
    let v = JsonValue::Object(es);
    match json_view(v) {
        JsonView::Object(m) => {
            assert forall|i: int| 0 <= i < es@.len() implies m[i] == (es@[i].0@, json_view(es@[i].1)) by {}
            assert(m =~= members_view(es@));
        },
        _ => {},
    }
}

/// An array's content is the content of its items.
pub proof fn lemma_array_view(items: Vec<JsonValue>)
    ensures
        json_view(JsonValue::Array(items)) == JsonView::Array(items_view(items@)),
{
    let v = JsonValue::Array(items);
    match json_view(v) {
        JsonView::Array(m) => {
            assert forall|i: int| 0 <= i < items@.len() implies m[i] == json_view(items@[i]) by {}
            assert(m =~= items_view(items@));
        },
        _ => {},
    }
}

/// Appends a member to an object's member list.
pub fn push_member(es: &mut Vec<(String, JsonValue)>, key: &str, v: JsonValue)
    ensures
        members_view(final(es)@) == members_view(old(es)@).push((key@, json_view(v))),
{
    let ghost before = members_view(es@);
    let ghost jv = json_view(v);
    es.push((key.to_owned(), v));
    assert(members_view(es@) =~= before.push((key@, jv)));
}

/// Appends a value to an array's item list.
pub fn push_item(items: &mut Vec<JsonValue>, v: JsonValue)
    ensures
        items_view(final(items)@) == items_view(old(items)@).push(json_view(v)),
{
    let ghost before = items_view(items@);
    let ghost jv = json_view(v);
    items.push(v);
    assert(items_view(items@) =~= before.push(jv));
}

#[verifier::external_type_specification]
#[verifier::external_body]
pub struct ExSerdeJsonValue(serde_json::Value);

/// What `serde_json::to_string_pretty` writes for a JSON value: two-space
/// indentation, with object members in the order of serde_json's `Map`.
pub uninterp spec fn pretty_text(v: JsonView) -> Seq<char>;

/// `serde_json::to_string_pretty` of the value; the text is only named.
#[verifier::external_body]
pub fn to_string_pretty(v: &JsonValue) -> (r: String)
    ensures
        r@ == pretty_text(json_view(*v)),
{
    serde_json::to_string_pretty(&to_serde_json(v)).unwrap_or_default()
}

/// Converts the tree into a `serde_json::Value`, variant by variant, each
/// member inserted into the object's map in turn.
#[verifier::external_body]
fn to_serde_json(v: &JsonValue) -> serde_json::Value {
    match v {
        JsonValue::Null => J::Null,
        JsonValue::Bool(b) => J::Bool(*b),
        JsonValue::Number(n) => J::Number((*n).into()),
        JsonValue::Str(s) => J::String(s.clone()),
        JsonValue::Array(items) => J::Array(items.iter().map(to_serde_json).collect()),
        JsonValue::Object(es) => J::Object(es.iter().map(|(k, x)| (k.clone(), to_serde_json(x))).collect()),
    }
}

} // verus!
