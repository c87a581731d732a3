//! Schema trees describing the valid structure of each Fleet GitOps file
//! type, and the registry of where each key is valid.
use vstd::prelude::*;

use crate::text;
use crate::text::strs;

verus! {

broadcast use vstd::string::group_string_axioms;

/// The valid structure at one level of the YAML tree.
#[derive(Debug)]
pub enum SchemaNode {
    /// A mapping with known child keys.
    Mapping(Vec<(&'static str, SchemaNode)>),
    /// An array whose items follow one schema.
    Array(Box<SchemaNode>),
    /// An array whose items follow one of several schemas.
    ArrayOneOf(Vec<SchemaNode>),
    /// A scalar or opaque value.
    Leaf,
    /// A boolean value.
    BooleanLeaf,
    /// A mapping that allows any keys.
    OpenMapping,
}

/// The abstract shape of a schema node.
#[verifier::ext_equal]
pub enum Schema {
    Mapping(Seq<(Seq<char>, Schema)>),
    Array(Box<Schema>),
    ArrayOneOf(Seq<Schema>),
    Leaf,
    BooleanLeaf,
    OpenMapping,
}

impl SchemaNode {
    /// The abstract shape of this node.
    pub open spec fn shape(&self) -> Schema
        decreases self,
    {
        match self {
            SchemaNode::Mapping(children) => Schema::Mapping(
                Seq::new(
                    children@.len(),
                    |i: int|
                        (
                            children@[i].0@,
                            if 0 <= i < children@.len() {
                                proof {
                                    assert(decreases_to!(children => children@));
                                    assert(decreases_to!(children@ => children@[i]));
                                }
                                children@[i].1.shape()
                            } else {
                                Schema::Leaf
                            },
                        ),
                ),
            ),
            SchemaNode::Array(item) => Schema::Array(Box::new(item.shape())),
            SchemaNode::ArrayOneOf(vs) => Schema::ArrayOneOf(
                Seq::new(
                    vs@.len(),
                    |i: int|
                        if 0 <= i < vs@.len() {
                            proof {
                                assert(decreases_to!(vs => vs@));
                                assert(decreases_to!(vs@ => vs@[i]));
                            }
                            vs@[i].shape()
                        } else {
                            Schema::Leaf
                        },
                ),
            ),
            SchemaNode::Leaf => Schema::Leaf,
            SchemaNode::BooleanLeaf => Schema::BooleanLeaf,
            SchemaNode::OpenMapping => Schema::OpenMapping,
        }
    }
}

/// The abstract shapes of mapping entries.
pub open spec fn entry_shapes(v: Seq<(&'static str, SchemaNode)>) -> Seq<(Seq<char>, Schema)> {
    Seq::new(v.len(), |i: int| (v[i].0@, v[i].1.shape()))
}

/// The keys of mapping entries.
pub open spec fn entry_keys(v: Seq<(&'static str, SchemaNode)>) -> Seq<Seq<char>> {
    Seq::new(v.len(), |i: int| v[i].0@)
}

/// The key at index `i` does not occur again after it.
pub open spec fn is_last_occurrence(ks: Seq<Seq<char>>, i: int) -> bool {
    forall|j: int| i < j < ks.len() ==> ks[j] != ks[i]
}

/// The distinct keys among the first `n`, each kept at its last occurrence
/// in the whole sequence (a later entry with the same key replaces an
/// earlier one).
pub open spec fn distinct_keys(ks: Seq<Seq<char>>, n: int) -> Seq<Seq<char>>
    decreases n,
{
    if n <= 0 {
        Seq::empty()
    } else {
        let rest = distinct_keys(ks, n - 1);
        if is_last_occurrence(ks, n - 1) {
            rest.push(ks[n - 1])
        } else {
            rest
        }
    }
}

/// The index of the last of the first `n` keys equal to `key`.
pub open spec fn last_index_of(ks: Seq<Seq<char>>, key: Seq<char>, n: int) -> Option<int>
    decreases n,
{
    if n <= 0 {
        None
    } else if ks[n - 1] == key {
        Some(n - 1)
    } else {
        last_index_of(ks, key, n - 1)
    }
}

/// The keys of shape entries.
pub open spec fn shape_keys(es: Seq<(Seq<char>, Schema)>) -> Seq<Seq<char>> {
    Seq::new(es.len(), |i: int| es[i].0)
}

/// The child shape for `key`: the last entry with that key, for a mapping.
pub open spec fn shape_child(s: Schema, key: Seq<char>) -> Option<Schema> {
    match s {
        Schema::Mapping(es) => match last_index_of(shape_keys(es), key, es.len() as int) {
            Some(i) => Some(es[i].1),
            None => None,
        },
        _ => None,
    }
}

/// The distinct keys of a mapping shape (empty for other shapes).
pub open spec fn shape_distinct_keys(s: Schema) -> Seq<Seq<char>> {
    match s {
        Schema::Mapping(es) => distinct_keys(shape_keys(es), es.len() as int),
        _ => Seq::empty(),
    }
}

/// A found index lies within the searched prefix.
pub proof fn lemma_last_index_bounds(ks: Seq<Seq<char>>, key: Seq<char>, n: int)
    ensures
        last_index_of(ks, key, n) matches Some(i) ==> 0 <= i < n && ks[i] == key,
    decreases n,
{
    if n > 0 && ks[n - 1] != key {
        lemma_last_index_bounds(ks, key, n - 1);
    }
}

/// The last index of a key among the first `n` has no later equal key
/// before `n`; no index is found exactly when none of the first `n` is it.
proof fn lemma_last_index_of(ks: Seq<Seq<char>>, key: Seq<char>, n: int)
    requires
        0 <= n <= ks.len(),
    ensures
        last_index_of(ks, key, n) matches Some(j) ==> 0 <= j < n && ks[j] == key && forall|m: int|
            j < m < n ==> ks[m] != key,
        last_index_of(ks, key, n) is None ==> forall|m: int| 0 <= m < n ==> ks[m] != key,
    decreases n,
{
    if n > 0 && ks[n - 1] != key {
        lemma_last_index_of(ks, key, n - 1);
    }
}

/// The distinct keys among the first `n` are the keys at their last
/// occurrences there, each listed once.
proof fn lemma_distinct_keys(ks: Seq<Seq<char>>, n: int)
    requires
        0 <= n <= ks.len(),
    ensures
        forall|k: Seq<char>|
            #![trigger distinct_keys(ks, n).contains(k)]
            distinct_keys(ks, n).contains(k) <==> exists|i: int|
                0 <= i < n && ks[i] == k && is_last_occurrence(ks, i),
        distinct_keys(ks, n).no_duplicates(),
    decreases n,
{
    if n > 0 {
        lemma_distinct_keys(ks, n - 1);
        let rest = distinct_keys(ks, n - 1);
        if is_last_occurrence(ks, n - 1) {
            let x = ks[n - 1];
            let d = rest.push(x);
            assert forall|k: Seq<char>| d.contains(k) <==> exists|i: int|
                0 <= i < n && ks[i] == k && is_last_occurrence(ks, i) by {
                if d.contains(k) {
                    let p = choose|p: int| 0 <= p < d.len() && d[p] == k;
                    if p < rest.len() {
                        assert(rest[p] == k);
                        assert(rest.contains(k));
                    } else {
                        assert(ks[n - 1] == k);
                    }
                }
                if exists|i: int| 0 <= i < n && ks[i] == k && is_last_occurrence(ks, i) {
                    let i = choose|i: int| 0 <= i < n && ks[i] == k && is_last_occurrence(ks, i);
                    if i < n - 1 {
                        assert(rest.contains(k));
                        let p = choose|p: int| 0 <= p < rest.len() && rest[p] == k;
                        assert(d[p] == k);
                    } else {
                        assert(d[d.len() - 1] == k);
                    }
                }
            }
            if rest.contains(x) {
                let i = choose|i: int| 0 <= i < n - 1 && ks[i] == x && is_last_occurrence(ks, i);
                assert(ks[n - 1] != ks[i]);
            }
            assert forall|p: int, q: int| 0 <= p < d.len() && 0 <= q < d.len() && p != q implies d[p] != d[q] by {
                if p == d.len() - 1 {
                    assert(rest.contains(d[q]));
                } else if q == d.len() - 1 {
                    assert(rest.contains(d[p]));
                }
            }
        } else {
            assert forall|k: Seq<char>| rest.contains(k) <==> exists|i: int|
                0 <= i < n && ks[i] == k && is_last_occurrence(ks, i) by {
                if exists|i: int| 0 <= i < n && ks[i] == k && is_last_occurrence(ks, i) {
                    let i = choose|i: int| 0 <= i < n && ks[i] == k && is_last_occurrence(ks, i);
                    assert(i != n - 1);
                }
            }
        }
    }
}

/// A node lists its valid keys exactly when it is a mapping; the list
/// holds each key once, and holds a key exactly when the node has a child
/// for it.
pub proof fn law_valid_keys_match_children(n: SchemaNode, key: Seq<char>)
    ensures
        n.keys_spec().is_some() <==> n is Mapping,
        n.keys_spec() matches Some(ks) ==> ks.no_duplicates() && (ks.contains(key) <==> n.child_spec(key).is_some()),
{
    match n {
        SchemaNode::Mapping(c) => {
            let ks = entry_keys(c@);
            let len = c@.len() as int;
            lemma_distinct_keys(ks, len);
            lemma_last_index_of(ks, key, len);
            match last_index_of(ks, key, len) {
                Some(j) => {
                    assert(is_last_occurrence(ks, j));
                    assert(distinct_keys(ks, len).contains(key));
                },
                None => {
                    if distinct_keys(ks, len).contains(key) {
                        let i = choose|i: int| 0 <= i < len && ks[i] == key && is_last_occurrence(ks, i);
                        assert(ks[i] != key);
                    }
                },
            }
        },
        _ => {},
    }
}

/// Lookups on a node agree with lookups on its shape.
pub proof fn lemma_node_lookup_shape(n: SchemaNode, key: Seq<char>)
    ensures
        match n.child_spec(key) {
            Some(c) => shape_child(n.shape(), key) == Some(c.shape()),
            None => shape_child(n.shape(), key).is_none(),
        },
        n.keys_spec() matches Some(ks) ==> ks == shape_distinct_keys(n.shape()),
        n.keys_spec().is_some() == n.shape() is Mapping,
        n.allows_unknown_spec() == (n.shape() is OpenMapping || n.shape() is Leaf || n.shape() is BooleanLeaf),
{
    match n {
        SchemaNode::Mapping(c) => {
            assert(shape_keys(entries(n.shape())) =~= entry_keys(c@));
            match last_index_of(entry_keys(c@), key, c@.len() as int) {
                Some(i) => {
                    lemma_last_index_bounds(entry_keys(c@), key, c@.len() as int);
                    assert(entries(n.shape())[i] == (c@[i].0@, c@[i].1.shape()));
                },
                None => {},
            }
        },
        _ => {},
    }
}

impl SchemaNode {
    /// The child schema for `key`: the last entry with that key, for a mapping.
    pub open spec fn child_spec(&self, key: Seq<char>) -> Option<SchemaNode> {
        match self {
            SchemaNode::Mapping(c) => match last_index_of(entry_keys(c@), key, c@.len() as int) {
                Some(i) => Some(c@[i].1),
                None => None,
            },
            _ => None,
        }
    }

    /// The distinct child keys of a mapping.
    pub open spec fn keys_spec(&self) -> Option<Seq<Seq<char>>> {
        match self {
            SchemaNode::Mapping(c) => Some(distinct_keys(entry_keys(c@), c@.len() as int)),
            _ => None,
        }
    }

    /// Nodes that accept any keys below them.
    pub open spec fn allows_unknown_spec(&self) -> bool {
        self is OpenMapping || self is Leaf || self is BooleanLeaf
    }

    /// The valid child keys, for a mapping node.
    pub fn valid_keys(&self) -> (r: Option<Vec<&'static str>>)
        ensures
            r.is_some() == self.keys_spec().is_some(),
            r.is_some() ==> r.unwrap()@.map_values(|k: &'static str| k@) == self.keys_spec().unwrap(),
    {
        match self {
            SchemaNode::Mapping(children) => {
                let ghost ks = entry_keys(children@);
                let mut out: Vec<&'static str> = Vec::new();
                let mut i: usize = 0;
                while i < children.len()
                    invariant
                        i <= children.len(),
                        ks == entry_keys(children@),
                        out@.map_values(|k: &'static str| k@) == distinct_keys(ks, i as int),
                    decreases children.len() - i,
                {
                    let mut later = false;
                    let mut j: usize = i + 1;
                    while j < children.len()
                        invariant
                            i < j <= children.len(),
                            ks == entry_keys(children@),
                            later == exists|m: int| i < m < j && ks[m] == ks[i as int],
                        decreases children.len() - j,
                    {
                        assert(ks[j as int] == children@[j as int].0@);
                        assert(ks[i as int] == children@[i as int].0@);
                        if text::str_eq(children[j].0, children[i].0) {
                            later = true;
                        }
                        j += 1;
                    }
                    assert(ks[i as int] == children@[i as int].0@);
                    if !later {
                        out.push(children[i].0);
                    }
                    proof {
                        if later {
                            let m = choose|m: int| i < m < children.len() && ks[m] == ks[i as int];
                            assert(!is_last_occurrence(ks, i as int));
                        } else {
                            assert(is_last_occurrence(ks, i as int));
                        }
                        assert(out@.map_values(|k: &'static str| k@) =~= distinct_keys(ks, i + 1));
                    }
                    i += 1;
                }
                Some(out)
            },
            _ => None,
        }
    }

    /// The child schema for `key`, for a mapping node that has it.
    pub fn get_child(&self, key: &str) -> (r: Option<&SchemaNode>)
        ensures
            match r {
                Some(n) => self.child_spec(key@) == Some(*n),
                None => self.child_spec(key@).is_none(),
            },
    {
        match self {
            SchemaNode::Mapping(children) => {
                let ghost ks = entry_keys(children@);
                let mut i: usize = children.len();
                while i > 0
                    invariant
                        i <= children.len(),
                        *self == SchemaNode::Mapping(*children),
                        ks == entry_keys(children@),
                        last_index_of(ks, key@, children.len() as int) == last_index_of(ks, key@, i as int),
                    decreases i,
                {
                    assert(ks[i - 1] == children@[i - 1].0@);
                    if text::str_eq(children[i - 1].0, key) {
                        return Some(&children[i - 1].1);
                    }
                    i -= 1;
                }
                None
            },
            _ => None,
        }
    }

    /// Whether arbitrary keys are accepted below this node.
    pub fn allows_unknown(&self) -> (r: bool)
        ensures
            r == self.allows_unknown_spec(),
    {
        match self {
            SchemaNode::OpenMapping | SchemaNode::Leaf | SchemaNode::BooleanLeaf => true,
            _ => false,
        }
    }
}

/// The abstract shapes of array alternatives.
pub open spec fn variant_shapes(v: Seq<SchemaNode>) -> Seq<Schema> {
    Seq::new(v.len(), |i: int| v[i].shape())
}

/// The entries of a mapping shape (empty for any other shape).
pub open spec fn entries(s: Schema) -> Seq<(Seq<char>, Schema)> {
    match s {
        Schema::Mapping(e) => e,
        _ => Seq::empty(),
    }
}

/// The item shape of an array shape (a leaf for any other shape).
pub open spec fn item(s: Schema) -> Schema {
    match s {
        Schema::Array(b) => *b,
        _ => Schema::Leaf,
    }
}

/// The alternatives of an array-of-alternatives shape (empty otherwise).
pub open spec fn variants(s: Schema) -> Seq<Schema> {
    match s {
        Schema::ArrayOneOf(v) => v,
        _ => Seq::empty(),
    }
}

/// A mapping node with the given entries.
fn mapping(children: Vec<(&'static str, SchemaNode)>) -> (r: SchemaNode)
    ensures
        r.shape() == Schema::Mapping(entry_shapes(children@)),
{
    let r = SchemaNode::Mapping(children);
    assert(r.shape()->Mapping_0 =~= entry_shapes(children@));
    r
}

/// An array node.
fn array(item: SchemaNode) -> (r: SchemaNode)
    ensures
        r.shape() == Schema::Array(Box::new(item.shape())),
{
    SchemaNode::Array(Box::new(item))
}

/// An array of alternatives.
fn array_one_of(variants: Vec<SchemaNode>) -> (r: SchemaNode)
    ensures
        r.shape() == Schema::ArrayOneOf(variant_shapes(variants@)),
{
    let r = SchemaNode::ArrayOneOf(variants);
    assert(r.shape()->ArrayOneOf_0 =~= variant_shapes(variants@));
    r
}

fn leaf() -> (r: SchemaNode)
    ensures
        r.shape() == Schema::Leaf,
{
    SchemaNode::Leaf
}

fn boolean_leaf() -> (r: SchemaNode)
    ensures
        r.shape() == Schema::BooleanLeaf,
{
    SchemaNode::BooleanLeaf
}

fn open_mapping() -> (r: SchemaNode)
    ensures
        r.shape() == Schema::OpenMapping,
{
    SchemaNode::OpenMapping
}

/// The shape built by `path_ref_schema`.
pub open spec fn path_ref_schema_shape() -> Schema {
    Schema::Mapping(seq![
        ("path"@, Schema::Leaf),
        ("paths"@, Schema::Leaf),
    ])
}

fn path_ref_schema() -> (r: SchemaNode)
    ensures
        r.shape() == path_ref_schema_shape(),
{
    let mut m1: Vec<(&'static str, SchemaNode)> = Vec::new();
    m1.push(("path", leaf()));
    m1.push(("paths", leaf()));
    assert(entry_shapes(m1@) =~= entries(path_ref_schema_shape()));
    mapping(m1)
}

/// The shape built by `controls_script_targeting`.
pub open spec fn controls_script_targeting_shape() -> Schema {
    Schema::Mapping(seq![
        ("path"@, Schema::Leaf),
        ("paths"@, Schema::Leaf),
        ("labels_include_all"@, Schema::Array(Box::new(Schema::Leaf))),
        ("labels_include_any"@, Schema::Array(Box::new(Schema::Leaf))),
        ("labels_exclude_any"@, Schema::Array(Box::new(Schema::Leaf))),
    ])
}

fn controls_script_targeting() -> (r: SchemaNode)
    ensures
        r.shape() == controls_script_targeting_shape(),
{
    let mut m1: Vec<(&'static str, SchemaNode)> = Vec::new();
    m1.push(("path", leaf()));
    m1.push(("paths", leaf()));
    m1.push(("labels_include_all", array(leaf())));
    m1.push(("labels_include_any", array(leaf())));
    m1.push(("labels_exclude_any", array(leaf())));
    assert(entry_shapes(m1@) =~= entries(controls_script_targeting_shape()));
    mapping(m1)
}

/// The shape built by `macos_updates`.
pub open spec fn macos_updates_shape() -> Schema {
    Schema::Mapping(seq![
        ("deadline"@, Schema::Leaf),
        ("minimum_version"@, Schema::Leaf),
        ("update_new_hosts"@, Schema::BooleanLeaf),
    ])
}

fn macos_updates() -> (r: SchemaNode)
    ensures
        r.shape() == macos_updates_shape(),
{
    let mut m1: Vec<(&'static str, SchemaNode)> = Vec::new();
    m1.push(("deadline", leaf()));
    m1.push(("minimum_version", leaf()));
    m1.push(("update_new_hosts", boolean_leaf()));
    assert(entry_shapes(m1@) =~= entries(macos_updates_shape()));
    mapping(m1)
}

/// The shape built by `windows_updates`.
pub open spec fn windows_updates_shape() -> Schema {
    Schema::Mapping(seq![
        ("deadline_days"@, Schema::Leaf),
        ("grace_period_days"@, Schema::Leaf),
    ])
}

fn windows_updates() -> (r: SchemaNode)
    ensures
        r.shape() == windows_updates_shape(),
{
    let mut m1: Vec<(&'static str, SchemaNode)> = Vec::new();
    m1.push(("deadline_days", leaf()));
    m1.push(("grace_period_days", leaf()));
    assert(entry_shapes(m1@) =~= entries(windows_updates_shape()));
    mapping(m1)
}

/// The shape built by `os_settings`.
pub open spec fn os_settings_shape() -> Schema {
    Schema::Mapping(seq![
        ("custom_settings"@, Schema::Array(Box::new(controls_script_targeting_shape()))),
        ("configuration_profiles"@, Schema::Array(Box::new(controls_script_targeting_shape()))),
    ])
}

fn os_settings() -> (r: SchemaNode)
    ensures
        r.shape() == os_settings_shape(),
{
    let mut m1: Vec<(&'static str, SchemaNode)> = Vec::new();
    m1.push(("custom_settings", array(controls_script_targeting())));
    m1.push(("configuration_profiles", array(controls_script_targeting())));
    assert(entry_shapes(m1@) =~= entries(os_settings_shape()));
    mapping(m1)
}

/// The shape built by `android_settings_schema`.
pub open spec fn android_settings_schema_shape() -> Schema {
    Schema::Mapping(seq![
        ("custom_settings"@, Schema::Array(Box::new(controls_script_targeting_shape()))),
        ("configuration_profiles"@, Schema::Array(Box::new(controls_script_targeting_shape()))),
        ("certificates"@, Schema::Array(Box::new(Schema::Mapping(seq![
            ("name"@, Schema::Leaf),
            ("certificate_authority_name"@, Schema::Leaf),
            ("subject_name"@, Schema::Leaf),
        ])))),
    ])
}

fn android_settings_schema() -> (r: SchemaNode)
    ensures
        r.shape() == android_settings_schema_shape(),
{
    let mut m1: Vec<(&'static str, SchemaNode)> = Vec::new();
    m1.push(("custom_settings", array(controls_script_targeting())));
    m1.push(("configuration_profiles", array(controls_script_targeting())));
    let mut m2: Vec<(&'static str, SchemaNode)> = Vec::new();
    m2.push(("name", leaf()));
    m2.push(("certificate_authority_name", leaf()));
    m2.push(("subject_name", leaf()));
    assert(entry_shapes(m2@) =~= entries(item(entries(android_settings_schema_shape())[2].1)));
    m1.push(("certificates", array(mapping(m2))));
    assert(entry_shapes(m1@) =~= entries(android_settings_schema_shape()));
    mapping(m1)
}

/// The shape built by `macos_setup`.
pub open spec fn macos_setup_shape() -> Schema {
    Schema::Mapping(seq![
        ("bootstrap_package"@, Schema::Leaf),
        ("manual_agent_install"@, Schema::BooleanLeaf),
        ("enable_end_user_authentication"@, Schema::BooleanLeaf),
        ("lock_end_user_info"@, Schema::BooleanLeaf),
        ("require_all_software"@, Schema::BooleanLeaf),
        ("enable_release_device_manually"@, Schema::BooleanLeaf),
        ("macos_setup_assistant"@, Schema::Leaf),
        ("script"@, Schema::Leaf),
        ("macos_bootstrap_package"@, Schema::Leaf),
        ("macos_manual_agent_install"@, Schema::BooleanLeaf),
        ("require_all_software_macos"@, Schema::BooleanLeaf),
        ("apple_enable_release_device_manually"@, Schema::BooleanLeaf),
        ("apple_setup_assistant"@, Schema::Leaf),
        ("macos_script"@, Schema::Leaf),
    ])
}

fn macos_setup() -> (r: SchemaNode)
    ensures
        r.shape() == macos_setup_shape(),
{
    let mut m1: Vec<(&'static str, SchemaNode)> = Vec::new();
    m1.push(("bootstrap_package", leaf()));
    m1.push(("manual_agent_install", boolean_leaf()));
    m1.push(("enable_end_user_authentication", boolean_leaf()));
    m1.push(("lock_end_user_info", boolean_leaf()));
    m1.push(("require_all_software", boolean_leaf()));
    m1.push(("enable_release_device_manually", boolean_leaf()));
    m1.push(("macos_setup_assistant", leaf()));
    m1.push(("script", leaf()));
    m1.push(("macos_bootstrap_package", leaf()));
    m1.push(("macos_manual_agent_install", boolean_leaf()));
    m1.push(("require_all_software_macos", boolean_leaf()));
    m1.push(("apple_enable_release_device_manually", boolean_leaf()));
    m1.push(("apple_setup_assistant", leaf()));
    m1.push(("macos_script", leaf()));
    assert(entry_shapes(m1@) =~= entries(macos_setup_shape()));
    mapping(m1)
}

/// The shape built by `macos_migration`.
pub open spec fn macos_migration_shape() -> Schema {
    Schema::Mapping(seq![
        ("enable"@, Schema::BooleanLeaf),
        ("mode"@, Schema::Leaf),
        ("webhook_url"@, Schema::Leaf),
    ])
}

fn macos_migration() -> (r: SchemaNode)
    ensures
        r.shape() == macos_migration_shape(),
{
    let mut m1: Vec<(&'static str, SchemaNode)> = Vec::new();
    m1.push(("enable", boolean_leaf()));
    m1.push(("mode", leaf()));
    m1.push(("webhook_url", leaf()));
    assert(entry_shapes(m1@) =~= entries(macos_migration_shape()));
    mapping(m1)
}

/// The shape built by `software_asset`.
pub open spec fn software_asset_shape() -> Schema {
    Schema::Mapping(seq![
        ("path"@, Schema::Leaf),
    ])
}

fn software_asset() -> (r: SchemaNode)
    ensures
        r.shape() == software_asset_shape(),
{
    let mut m1: Vec<(&'static str, SchemaNode)> = Vec::new();
    m1.push(("path", leaf()));
    assert(entry_shapes(m1@) =~= entries(software_asset_shape()));
    mapping(m1)
}

/// The shape built by `software_package_item`.
pub open spec fn software_package_item_shape() -> Schema {
    Schema::Mapping(seq![
        ("path"@, Schema::Leaf),
        ("url"@, Schema::Leaf),
        ("hash_sha256"@, Schema::Leaf),
        ("display_name"@, Schema::Leaf),
        ("self_service"@, Schema::BooleanLeaf),
        ("setup_experience"@, Schema::BooleanLeaf),
        ("categories"@, Schema::Array(Box::new(Schema::Leaf))),
        ("labels_include_any"@, Schema::Array(Box::new(Schema::Leaf))),
        ("labels_exclude_any"@, Schema::Array(Box::new(Schema::Leaf))),
        ("labels_include_all"@, Schema::Array(Box::new(Schema::Leaf))),
        ("pre_install_query"@, software_asset_shape()),
        ("install_script"@, software_asset_shape()),
        ("uninstall_script"@, software_asset_shape()),
        ("post_install_script"@, software_asset_shape()),
        ("icon"@, software_asset_shape()),
    ])
}

fn software_package_item() -> (r: SchemaNode)
    ensures
        r.shape() == software_package_item_shape(),
{
    let mut m1: Vec<(&'static str, SchemaNode)> = Vec::new();
    m1.push(("path", leaf()));
    m1.push(("url", leaf()));
    m1.push(("hash_sha256", leaf()));
    m1.push(("display_name", leaf()));
    m1.push(("self_service", boolean_leaf()));
    m1.push(("setup_experience", boolean_leaf()));
    m1.push(("categories", array(leaf())));
    m1.push(("labels_include_any", array(leaf())));
    m1.push(("labels_exclude_any", array(leaf())));
    m1.push(("labels_include_all", array(leaf())));
    m1.push(("pre_install_query", software_asset()));
    m1.push(("install_script", software_asset()));
    m1.push(("uninstall_script", software_asset()));
    m1.push(("post_install_script", software_asset()));
    m1.push(("icon", software_asset()));
    assert(entry_shapes(m1@) =~= entries(software_package_item_shape()));
    mapping(m1)
}

/// The shape built by `app_store_app_item`.
pub open spec fn app_store_app_item_shape() -> Schema {
    Schema::Mapping(seq![
        ("app_store_id"@, Schema::Leaf),
        ("platform"@, Schema::Leaf),
        ("display_name"@, Schema::Leaf),
        ("self_service"@, Schema::BooleanLeaf),
        ("setup_experience"@, Schema::BooleanLeaf),
        ("categories"@, Schema::Array(Box::new(Schema::Leaf))),
        ("labels_include_any"@, Schema::Array(Box::new(Schema::Leaf))),
        ("labels_exclude_any"@, Schema::Array(Box::new(Schema::Leaf))),
        ("labels_include_all"@, Schema::Array(Box::new(Schema::Leaf))),
        ("icon"@, software_asset_shape()),
        ("configuration"@, software_asset_shape()),
        ("auto_update_enabled"@, Schema::BooleanLeaf),
        ("auto_update_window_start"@, Schema::Leaf),
        ("auto_update_window_end"@, Schema::Leaf),
    ])
}

fn app_store_app_item() -> (r: SchemaNode)
    ensures
        r.shape() == app_store_app_item_shape(),
{
    let mut m1: Vec<(&'static str, SchemaNode)> = Vec::new();
    m1.push(("app_store_id", leaf()));
    m1.push(("platform", leaf()));
    m1.push(("display_name", leaf()));
    m1.push(("self_service", boolean_leaf()));
    m1.push(("setup_experience", boolean_leaf()));
    m1.push(("categories", array(leaf())));
    m1.push(("labels_include_any", array(leaf())));
    m1.push(("labels_exclude_any", array(leaf())));
    m1.push(("labels_include_all", array(leaf())));
    m1.push(("icon", software_asset()));
    m1.push(("configuration", software_asset()));
    m1.push(("auto_update_enabled", boolean_leaf()));
    m1.push(("auto_update_window_start", leaf()));
    m1.push(("auto_update_window_end", leaf()));
    assert(entry_shapes(m1@) =~= entries(app_store_app_item_shape()));
    mapping(m1)
}

/// The shape built by `fleet_maintained_app_item`.
pub open spec fn fleet_maintained_app_item_shape() -> Schema {
    Schema::Mapping(seq![
        ("slug"@, Schema::Leaf),
        ("version"@, Schema::Leaf),
        ("display_name"@, Schema::Leaf),
        ("self_service"@, Schema::BooleanLeaf),
        ("setup_experience"@, Schema::BooleanLeaf),
        ("categories"@, Schema::Array(Box::new(Schema::Leaf))),
        ("labels_include_any"@, Schema::Array(Box::new(Schema::Leaf))),
        ("labels_exclude_any"@, Schema::Array(Box::new(Schema::Leaf))),
        ("labels_include_all"@, Schema::Array(Box::new(Schema::Leaf))),
        ("pre_install_query"@, software_asset_shape()),
        ("install_script"@, software_asset_shape()),
        ("uninstall_script"@, software_asset_shape()),
        ("post_install_script"@, software_asset_shape()),
        ("icon"@, software_asset_shape()),
    ])
}

fn fleet_maintained_app_item() -> (r: SchemaNode)
    ensures
        r.shape() == fleet_maintained_app_item_shape(),
{
    let mut m1: Vec<(&'static str, SchemaNode)> = Vec::new();
    m1.push(("slug", leaf()));
    m1.push(("version", leaf()));
    m1.push(("display_name", leaf()));
    m1.push(("self_service", boolean_leaf()));
    m1.push(("setup_experience", boolean_leaf()));
    m1.push(("categories", array(leaf())));
    m1.push(("labels_include_any", array(leaf())));
    m1.push(("labels_exclude_any", array(leaf())));
    m1.push(("labels_include_all", array(leaf())));
    m1.push(("pre_install_query", software_asset()));
    m1.push(("install_script", software_asset()));
    m1.push(("uninstall_script", software_asset()));
    m1.push(("post_install_script", software_asset()));
    m1.push(("icon", software_asset()));
    assert(entry_shapes(m1@) =~= entries(fleet_maintained_app_item_shape()));
    mapping(m1)
}

/// The shape built by `software_schema`.
pub open spec fn software_schema_shape() -> Schema {
    Schema::Mapping(seq![
        ("packages"@, Schema::Array(Box::new(software_package_item_shape()))),
        ("app_store_apps"@, Schema::Array(Box::new(app_store_app_item_shape()))),
        ("fleet_maintained_apps"@, Schema::Array(Box::new(fleet_maintained_app_item_shape()))),
    ])
}

fn software_schema() -> (r: SchemaNode)
    ensures
        r.shape() == software_schema_shape(),
{
    let mut m1: Vec<(&'static str, SchemaNode)> = Vec::new();
    m1.push(("packages", array(software_package_item())));
    m1.push(("app_store_apps", array(app_store_app_item())));
    m1.push(("fleet_maintained_apps", array(fleet_maintained_app_item())));
    assert(entry_shapes(m1@) =~= entries(software_schema_shape()));
    mapping(m1)
}

/// The shape built by `controls_schema`.
pub open spec fn controls_schema_shape() -> Schema {
    Schema::Mapping(seq![
        ("scripts"@, Schema::Array(Box::new(controls_script_targeting_shape()))),
        ("windows_enabled_and_configured"@, Schema::BooleanLeaf),
        ("windows_entra_tenant_ids"@, Schema::Array(Box::new(Schema::Leaf))),
        ("enable_turn_on_windows_mdm_manually"@, Schema::BooleanLeaf),
        ("windows_migration_enabled"@, Schema::BooleanLeaf),
        ("enable_disk_encryption"@, Schema::BooleanLeaf),
        ("enable_recovery_lock_password"@, Schema::BooleanLeaf),
        ("volume_purchasing_program"@, Schema::OpenMapping),
        ("windows_require_bitlocker_pin"@, Schema::BooleanLeaf),
        ("macos_updates"@, macos_updates_shape()),
        ("ios_updates"@, macos_updates_shape()),
        ("ipados_updates"@, macos_updates_shape()),
        ("windows_updates"@, windows_updates_shape()),
        ("macos_settings"@, os_settings_shape()),
        ("apple_settings"@, os_settings_shape()),
        ("windows_settings"@, os_settings_shape()),
        ("android_settings"@, android_settings_schema_shape()),
        ("macos_setup"@, macos_setup_shape()),
        ("setup_experience"@, macos_setup_shape()),
        ("macos_migration"@, macos_migration_shape()),
    ])
}

fn controls_schema() -> (r: SchemaNode)
    ensures
        r.shape() == controls_schema_shape(),
{
    let mut m1: Vec<(&'static str, SchemaNode)> = Vec::new();
    m1.push(("scripts", array(controls_script_targeting())));
    m1.push(("windows_enabled_and_configured", boolean_leaf()));
    m1.push(("windows_entra_tenant_ids", array(leaf())));
    m1.push(("enable_turn_on_windows_mdm_manually", boolean_leaf()));
    m1.push(("windows_migration_enabled", boolean_leaf()));
    m1.push(("enable_disk_encryption", boolean_leaf()));
    m1.push(("enable_recovery_lock_password", boolean_leaf()));
    m1.push(("volume_purchasing_program", open_mapping()));
    m1.push(("windows_require_bitlocker_pin", boolean_leaf()));
    m1.push(("macos_updates", macos_updates()));
    m1.push(("ios_updates", macos_updates()));
    m1.push(("ipados_updates", macos_updates()));
    m1.push(("windows_updates", windows_updates()));
    m1.push(("macos_settings", os_settings()));
    m1.push(("apple_settings", os_settings()));
    m1.push(("windows_settings", os_settings()));
    m1.push(("android_settings", android_settings_schema()));
    m1.push(("macos_setup", macos_setup()));
    m1.push(("setup_experience", macos_setup()));
    m1.push(("macos_migration", macos_migration()));
    assert(entry_shapes(m1@) =~= entries(controls_schema_shape()));
    mapping(m1)
}

/// The shape built by `policy_inline_strict`.
pub open spec fn policy_inline_strict_shape() -> Schema {
    Schema::Mapping(seq![
        ("name"@, Schema::Leaf),
        ("description"@, Schema::Leaf),
        ("resolution"@, Schema::Leaf),
        ("query"@, Schema::Leaf),
        ("platform"@, Schema::Leaf),
        ("critical"@, Schema::BooleanLeaf),
        ("calendar_events_enabled"@, Schema::BooleanLeaf),
        ("conditional_access_enabled"@, Schema::BooleanLeaf),
        ("conditional_access_bypass_enabled"@, Schema::BooleanLeaf),
        ("software_title_id"@, Schema::Leaf),
        ("script_id"@, Schema::Leaf),
        ("type"@, Schema::Leaf),
        ("fleet_maintained_app_slug"@, Schema::Leaf),
        ("version"@, Schema::Leaf),
        ("labels_include_any"@, Schema::Array(Box::new(Schema::Leaf))),
        ("labels_include_all"@, Schema::Array(Box::new(Schema::Leaf))),
        ("labels_exclude_any"@, Schema::Array(Box::new(Schema::Leaf))),
        ("webhooks_and_tickets_enabled"@, Schema::BooleanLeaf),
        ("team"@, Schema::Leaf),
        ("run_script"@, Schema::Mapping(seq![
            ("path"@, Schema::Leaf),
        ])),
        ("install_software"@, Schema::Mapping(seq![
            ("package_path"@, Schema::Leaf),
            ("hash_sha256"@, Schema::Leaf),
            ("fleet_maintained_app_slug"@, Schema::Leaf),
            ("app_store_id"@, Schema::Leaf),
        ])),
    ])
}

/// The fields an inline policy may have, as Fleet documents them.
pub open spec fn documented_policy_fields() -> Seq<Seq<char>> {
    seq![
        "name"@,
        "description"@,
        "resolution"@,
        "query"@,
        "platform"@,
        "critical"@,
        "calendar_events_enabled"@,
        "conditional_access_enabled"@,
        "conditional_access_bypass_enabled"@,
        "software_title_id"@,
        "script_id"@,
        "type"@,
        "fleet_maintained_app_slug"@,
        "version"@,
        "labels_include_any"@,
        "labels_include_all"@,
        "labels_exclude_any"@,
        "webhooks_and_tickets_enabled"@,
        "team"@,
        "run_script"@,
        "install_software"@,
    ]
}

/// An inline policy accepts a key exactly when it is one of the documented
/// policy fields, so a policy that uses only those fields has no unknown
/// key.
pub proof fn law_policy_fields(key: Seq<char>)
    ensures
        shape_child(policy_inline_strict_shape(), key).is_some() <==> documented_policy_fields().contains(key),
{
    let es = entries(policy_inline_strict_shape());
    let ks = shape_keys(es);
    assert(ks =~= documented_policy_fields());
    lemma_last_index_of(ks, key, es.len() as int);
    if documented_policy_fields().contains(key) {
        let m = choose|m: int| 0 <= m < ks.len() && ks[m] == key;
        assert(ks[m] == key);
    }
}

fn policy_inline_strict() -> (r: SchemaNode)
    ensures
        r.shape() == policy_inline_strict_shape(),
{
    let mut m1: Vec<(&'static str, SchemaNode)> = Vec::new();
    m1.push(("name", leaf()));
    m1.push(("description", leaf()));
    m1.push(("resolution", leaf()));
    m1.push(("query", leaf()));
    m1.push(("platform", leaf()));
    m1.push(("critical", boolean_leaf()));
    m1.push(("calendar_events_enabled", boolean_leaf()));
    m1.push(("conditional_access_enabled", boolean_leaf()));
    m1.push(("conditional_access_bypass_enabled", boolean_leaf()));
    m1.push(("software_title_id", leaf()));
    m1.push(("script_id", leaf()));
    m1.push(("type", leaf()));
    m1.push(("fleet_maintained_app_slug", leaf()));
    m1.push(("version", leaf()));
    m1.push(("labels_include_any", array(leaf())));
    m1.push(("labels_include_all", array(leaf())));
    m1.push(("labels_exclude_any", array(leaf())));
    m1.push(("webhooks_and_tickets_enabled", boolean_leaf()));
    m1.push(("team", leaf()));
    let mut m2: Vec<(&'static str, SchemaNode)> = Vec::new();
    m2.push(("path", leaf()));
    assert(entry_shapes(m2@) =~= entries(entries(policy_inline_strict_shape())[19].1));
    m1.push(("run_script", mapping(m2)));
    let mut m3: Vec<(&'static str, SchemaNode)> = Vec::new();
    m3.push(("package_path", leaf()));
    m3.push(("hash_sha256", leaf()));
    m3.push(("fleet_maintained_app_slug", leaf()));
    m3.push(("app_store_id", leaf()));
    assert(entry_shapes(m3@) =~= entries(entries(policy_inline_strict_shape())[20].1));
    m1.push(("install_software", mapping(m3)));
    assert(entry_shapes(m1@) =~= entries(policy_inline_strict_shape()));
    mapping(m1)
}

/// The shape built by `query_inline_strict`.
pub open spec fn query_inline_strict_shape() -> Schema {
    Schema::Mapping(seq![
        ("name"@, Schema::Leaf),
        ("description"@, Schema::Leaf),
        ("query"@, Schema::Leaf),
        ("platform"@, Schema::Leaf),
        ("interval"@, Schema::Leaf),
        ("logging"@, Schema::Leaf),
        ("min_osquery_version"@, Schema::Leaf),
        ("observer_can_run"@, Schema::BooleanLeaf),
        ("automations_enabled"@, Schema::BooleanLeaf),
        ("discard_data"@, Schema::BooleanLeaf),
        ("labels_include_any"@, Schema::Array(Box::new(Schema::Leaf))),
        ("labels_include_all"@, Schema::Array(Box::new(Schema::Leaf))),
        ("labels_exclude_any"@, Schema::Array(Box::new(Schema::Leaf))),
    ])
}

fn query_inline_strict() -> (r: SchemaNode)
    ensures
        r.shape() == query_inline_strict_shape(),
{
    let mut m1: Vec<(&'static str, SchemaNode)> = Vec::new();
    m1.push(("name", leaf()));
    m1.push(("description", leaf()));
    m1.push(("query", leaf()));
    m1.push(("platform", leaf()));
    m1.push(("interval", leaf()));
    m1.push(("logging", leaf()));
    m1.push(("min_osquery_version", leaf()));
    m1.push(("observer_can_run", boolean_leaf()));
    m1.push(("automations_enabled", boolean_leaf()));
    m1.push(("discard_data", boolean_leaf()));
    m1.push(("labels_include_any", array(leaf())));
    m1.push(("labels_include_all", array(leaf())));
    m1.push(("labels_exclude_any", array(leaf())));
    assert(entry_shapes(m1@) =~= entries(query_inline_strict_shape()));
    mapping(m1)
}

/// The shape built by `label_inline_strict`.
pub open spec fn label_inline_strict_shape() -> Schema {
    Schema::Mapping(seq![
        ("name"@, Schema::Leaf),
        ("description"@, Schema::Leaf),
        ("platform"@, Schema::Leaf),
        ("label_membership_type"@, Schema::Leaf),
        ("query"@, Schema::Leaf),
        ("hosts"@, Schema::Array(Box::new(Schema::Leaf))),
        ("host_ids"@, Schema::Array(Box::new(Schema::Leaf))),
        ("criteria"@, host_vital_criteria_shape()),
        ("host_vitals"@, Schema::OpenMapping),
    ])
}

fn label_inline_strict() -> (r: SchemaNode)
    ensures
        r.shape() == label_inline_strict_shape(),
{
    let mut m1: Vec<(&'static str, SchemaNode)> = Vec::new();
    m1.push(("name", leaf()));
    m1.push(("description", leaf()));
    m1.push(("platform", leaf()));
    m1.push(("label_membership_type", leaf()));
    m1.push(("query", leaf()));
    m1.push(("hosts", array(leaf())));
    m1.push(("host_ids", array(leaf())));
    m1.push(("criteria", host_vital_criteria()));
    m1.push(("host_vitals", open_mapping()));
    assert(entry_shapes(m1@) =~= entries(label_inline_strict_shape()));
    mapping(m1)
}

/// The shape built by `host_vital_criteria`.
pub open spec fn host_vital_criteria_shape() -> Schema {
    Schema::OpenMapping
}

fn host_vital_criteria() -> (r: SchemaNode)
    ensures
        r.shape() == host_vital_criteria_shape(),
{
    open_mapping()
}

/// The shape built by `integrations_strict`.
pub open spec fn integrations_strict_shape() -> Schema {
    Schema::Mapping(seq![
        ("conditional_access_enabled"@, Schema::BooleanLeaf),
        ("enable_conditional_access"@, Schema::BooleanLeaf),
        ("enable_conditional_access_bypass"@, Schema::BooleanLeaf),
        ("google_calendar"@, Schema::Array(Box::new(Schema::Mapping(seq![
            ("api_key_json"@, Schema::Leaf),
            ("domain"@, Schema::Leaf),
            ("enable_calendar_events"@, Schema::BooleanLeaf),
            ("webhook_url"@, Schema::Leaf),
        ])))),
        ("jira"@, Schema::Array(Box::new(Schema::Mapping(seq![
            ("url"@, Schema::Leaf),
            ("username"@, Schema::Leaf),
            ("api_token"@, Schema::Leaf),
            ("project_key"@, Schema::Leaf),
            ("enable_failing_policies"@, Schema::BooleanLeaf),
            ("enable_software_vulnerabilities"@, Schema::BooleanLeaf),
        ])))),
        ("zendesk"@, Schema::Array(Box::new(Schema::Mapping(seq![
            ("url"@, Schema::Leaf),
            ("email"@, Schema::Leaf),
            ("api_token"@, Schema::Leaf),
            ("group_id"@, Schema::Leaf),
            ("enable_failing_policies"@, Schema::BooleanLeaf),
            ("enable_software_vulnerabilities"@, Schema::BooleanLeaf),
        ])))),
    ])
}

fn integrations_strict() -> (r: SchemaNode)
    ensures
        r.shape() == integrations_strict_shape(),
{
    let mut m1: Vec<(&'static str, SchemaNode)> = Vec::new();
    m1.push(("conditional_access_enabled", boolean_leaf()));
    m1.push(("enable_conditional_access", boolean_leaf()));
    m1.push(("enable_conditional_access_bypass", boolean_leaf()));
    let mut m2: Vec<(&'static str, SchemaNode)> = Vec::new();
    m2.push(("api_key_json", leaf()));
    m2.push(("domain", leaf()));
    m2.push(("enable_calendar_events", boolean_leaf()));
    m2.push(("webhook_url", leaf()));
    assert(entry_shapes(m2@) =~= entries(item(entries(integrations_strict_shape())[3].1)));
    m1.push(("google_calendar", array(mapping(m2))));
    let mut m3: Vec<(&'static str, SchemaNode)> = Vec::new();
    m3.push(("url", leaf()));
    m3.push(("username", leaf()));
    m3.push(("api_token", leaf()));
    m3.push(("project_key", leaf()));
    m3.push(("enable_failing_policies", boolean_leaf()));
    m3.push(("enable_software_vulnerabilities", boolean_leaf()));
    assert(entry_shapes(m3@) =~= entries(item(entries(integrations_strict_shape())[4].1)));
    m1.push(("jira", array(mapping(m3))));
    let mut m4: Vec<(&'static str, SchemaNode)> = Vec::new();
    m4.push(("url", leaf()));
    m4.push(("email", leaf()));
    m4.push(("api_token", leaf()));
    m4.push(("group_id", leaf()));
    m4.push(("enable_failing_policies", boolean_leaf()));
    m4.push(("enable_software_vulnerabilities", boolean_leaf()));
    assert(entry_shapes(m4@) =~= entries(item(entries(integrations_strict_shape())[5].1)));
    m1.push(("zendesk", array(mapping(m4))));
    assert(entry_shapes(m1@) =~= entries(integrations_strict_shape()));
    mapping(m1)
}

/// The shape built by `webhook_settings_strict`.
pub open spec fn webhook_settings_strict_shape() -> Schema {
    Schema::Mapping(seq![
        ("activities_webhook"@, Schema::Mapping(seq![
            ("enable_activities_webhook"@, Schema::BooleanLeaf),
            ("destination_url"@, Schema::Leaf),
        ])),
        ("failing_policies_webhook"@, Schema::Mapping(seq![
            ("enable_failing_policies_webhook"@, Schema::BooleanLeaf),
            ("destination_url"@, Schema::Leaf),
            ("policy_ids"@, Schema::Array(Box::new(Schema::Leaf))),
            ("host_batch_size"@, Schema::Leaf),
        ])),
        ("host_status_webhook"@, Schema::Mapping(seq![
            ("enable_host_status_webhook"@, Schema::BooleanLeaf),
            ("destination_url"@, Schema::Leaf),
            ("days_count"@, Schema::Leaf),
            ("host_percentage"@, Schema::Leaf),
        ])),
        ("vulnerabilities_webhook"@, Schema::Mapping(seq![
            ("enable_vulnerabilities_webhook"@, Schema::BooleanLeaf),
            ("destination_url"@, Schema::Leaf),
            ("host_batch_size"@, Schema::Leaf),
        ])),
        ("interval"@, Schema::Leaf),
    ])
}

fn webhook_settings_strict() -> (r: SchemaNode)
    ensures
        r.shape() == webhook_settings_strict_shape(),
{
    let mut m1: Vec<(&'static str, SchemaNode)> = Vec::new();
    let mut m2: Vec<(&'static str, SchemaNode)> = Vec::new();
    m2.push(("enable_activities_webhook", boolean_leaf()));
    m2.push(("destination_url", leaf()));
    assert(entry_shapes(m2@) =~= entries(entries(webhook_settings_strict_shape())[0].1));
    m1.push(("activities_webhook", mapping(m2)));
    let mut m3: Vec<(&'static str, SchemaNode)> = Vec::new();
    m3.push(("enable_failing_policies_webhook", boolean_leaf()));
    m3.push(("destination_url", leaf()));
    m3.push(("policy_ids", array(leaf())));
    m3.push(("host_batch_size", leaf()));
    assert(entry_shapes(m3@) =~= entries(entries(webhook_settings_strict_shape())[1].1));
    m1.push(("failing_policies_webhook", mapping(m3)));
    let mut m4: Vec<(&'static str, SchemaNode)> = Vec::new();
    m4.push(("enable_host_status_webhook", boolean_leaf()));
    m4.push(("destination_url", leaf()));
    m4.push(("days_count", leaf()));
    m4.push(("host_percentage", leaf()));
    assert(entry_shapes(m4@) =~= entries(entries(webhook_settings_strict_shape())[2].1));
    m1.push(("host_status_webhook", mapping(m4)));
    let mut m5: Vec<(&'static str, SchemaNode)> = Vec::new();
    m5.push(("enable_vulnerabilities_webhook", boolean_leaf()));
    m5.push(("destination_url", leaf()));
    m5.push(("host_batch_size", leaf()));
    assert(entry_shapes(m5@) =~= entries(entries(webhook_settings_strict_shape())[3].1));
    m1.push(("vulnerabilities_webhook", mapping(m5)));
    m1.push(("interval", leaf()));
    assert(entry_shapes(m1@) =~= entries(webhook_settings_strict_shape()));
    mapping(m1)
}

/// The shape built by `org_settings_strict`.
pub open spec fn org_settings_strict_shape() -> Schema {
    Schema::Mapping(seq![
        ("features"@, Schema::Mapping(seq![
            ("additional_queries"@, Schema::OpenMapping),
            ("enable_host_users"@, Schema::BooleanLeaf),
            ("enable_software_inventory"@, Schema::BooleanLeaf),
            ("detail_query_overrides"@, Schema::OpenMapping),
            ("osquery_detail"@, Schema::OpenMapping),
            ("osquery_policy"@, Schema::OpenMapping),
        ])),
        ("fleet_desktop"@, Schema::Mapping(seq![
            ("transparency_url"@, Schema::Leaf),
            ("alternative_browser_host"@, Schema::Leaf),
        ])),
        ("host_expiry_settings"@, Schema::Mapping(seq![
            ("host_expiry_enabled"@, Schema::BooleanLeaf),
            ("host_expiry_window"@, Schema::Leaf),
        ])),
        ("org_info"@, Schema::Mapping(seq![
            ("org_name"@, Schema::Leaf),
            ("org_logo_url"@, Schema::Leaf),
            ("org_logo_url_light_background"@, Schema::Leaf),
            ("contact_url"@, Schema::Leaf),
        ])),
        ("secrets"@, Schema::Array(Box::new(Schema::Mapping(seq![
            ("secret"@, Schema::Leaf),
        ])))),
        ("server_settings"@, Schema::Mapping(seq![
            ("ai_features_disabled"@, Schema::BooleanLeaf),
            ("deferred_save_host"@, Schema::BooleanLeaf),
            ("enable_analytics"@, Schema::BooleanLeaf),
            ("live_query_disabled"@, Schema::BooleanLeaf),
            ("live_reporting_disabled"@, Schema::BooleanLeaf),
            ("query_reports_disabled"@, Schema::BooleanLeaf),
            ("discard_reports_data"@, Schema::BooleanLeaf),
            ("query_report_cap"@, Schema::Leaf),
            ("report_cap"@, Schema::Leaf),
            ("scripts_disabled"@, Schema::BooleanLeaf),
            ("server_url"@, Schema::Leaf),
        ])),
        ("sso_settings"@, Schema::Mapping(seq![
            ("enable_sso"@, Schema::BooleanLeaf),
            ("idp_name"@, Schema::Leaf),
            ("idp_image_url"@, Schema::Leaf),
            ("entity_id"@, Schema::Leaf),
            ("metadata"@, Schema::Leaf),
            ("metadata_url"@, Schema::Leaf),
            ("enable_jit_provisioning"@, Schema::BooleanLeaf),
            ("enable_jit_role_sync"@, Schema::BooleanLeaf),
            ("enable_sso_idp_login"@, Schema::BooleanLeaf),
            ("issuer_uri"@, Schema::Leaf),
            ("sso_server_url"@, Schema::Leaf),
        ])),
        ("integrations"@, integrations_strict_shape()),
        ("certificate_authorities"@, Schema::OpenMapping),
        ("webhook_settings"@, webhook_settings_strict_shape()),
        ("mdm"@, Schema::OpenMapping),
        ("smtp_settings"@, Schema::Mapping(seq![
            ("authentication_method"@, Schema::Leaf),
            ("authentication_type"@, Schema::Leaf),
            ("domain"@, Schema::Leaf),
            ("enable_smtp"@, Schema::BooleanLeaf),
            ("enable_ssl_tls"@, Schema::BooleanLeaf),
            ("enable_start_tls"@, Schema::BooleanLeaf),
            ("password"@, Schema::Leaf),
            ("port"@, Schema::Leaf),
            ("sender_address"@, Schema::Leaf),
            ("server"@, Schema::Leaf),
            ("user_name"@, Schema::Leaf),
            ("verify_ssl_certs"@, Schema::BooleanLeaf),
        ])),
        ("vulnerability_settings"@, Schema::Mapping(seq![
            ("databases_path"@, Schema::Leaf),
            ("periodicity"@, Schema::Leaf),
            ("cpe_database_url"@, Schema::Leaf),
            ("cpe_translations_url"@, Schema::Leaf),
            ("cve_feed_prefix_url"@, Schema::Leaf),
            ("disable_data_sync"@, Schema::BooleanLeaf),
            ("disable_win_os_vulnerabilities"@, Schema::BooleanLeaf),
            ("recent_vulnerability_max_age"@, Schema::Leaf),
        ])),
        ("activity_expiry_settings"@, Schema::Mapping(seq![
            ("activity_expiry_enabled"@, Schema::BooleanLeaf),
            ("activity_expiry_window"@, Schema::Leaf),
        ])),
        ("yara_rules"@, Schema::Array(Box::new(Schema::OpenMapping))),
        ("gitops"@, Schema::Mapping(seq![
            ("gitops_mode_enabled"@, Schema::BooleanLeaf),
            ("repository_url"@, Schema::Leaf),
        ])),
    ])
}

fn org_settings_strict() -> (r: SchemaNode)
    ensures
        r.shape() == org_settings_strict_shape(),
{
    let mut m1: Vec<(&'static str, SchemaNode)> = Vec::new();
    let mut m2: Vec<(&'static str, SchemaNode)> = Vec::new();
    m2.push(("additional_queries", open_mapping()));
    m2.push(("enable_host_users", boolean_leaf()));
    m2.push(("enable_software_inventory", boolean_leaf()));
    m2.push(("detail_query_overrides", open_mapping()));
    m2.push(("osquery_detail", open_mapping()));
    m2.push(("osquery_policy", open_mapping()));
    assert(entry_shapes(m2@) =~= entries(entries(org_settings_strict_shape())[0].1));
    m1.push(("features", mapping(m2)));
    let mut m3: Vec<(&'static str, SchemaNode)> = Vec::new();
    m3.push(("transparency_url", leaf()));
    m3.push(("alternative_browser_host", leaf()));
    assert(entry_shapes(m3@) =~= entries(entries(org_settings_strict_shape())[1].1));
    m1.push(("fleet_desktop", mapping(m3)));
    let mut m4: Vec<(&'static str, SchemaNode)> = Vec::new();
    m4.push(("host_expiry_enabled", boolean_leaf()));
    m4.push(("host_expiry_window", leaf()));
    assert(entry_shapes(m4@) =~= entries(entries(org_settings_strict_shape())[2].1));
    m1.push(("host_expiry_settings", mapping(m4)));
    let mut m5: Vec<(&'static str, SchemaNode)> = Vec::new();
    m5.push(("org_name", leaf()));
    m5.push(("org_logo_url", leaf()));
    m5.push(("org_logo_url_light_background", leaf()));
    m5.push(("contact_url", leaf()));
    assert(entry_shapes(m5@) =~= entries(entries(org_settings_strict_shape())[3].1));
    m1.push(("org_info", mapping(m5)));
    let mut m6: Vec<(&'static str, SchemaNode)> = Vec::new();
    m6.push(("secret", leaf()));
    assert(entry_shapes(m6@) =~= entries(item(entries(org_settings_strict_shape())[4].1)));
    m1.push(("secrets", array(mapping(m6))));
    let mut m7: Vec<(&'static str, SchemaNode)> = Vec::new();
    m7.push(("ai_features_disabled", boolean_leaf()));
    m7.push(("deferred_save_host", boolean_leaf()));
    m7.push(("enable_analytics", boolean_leaf()));
    m7.push(("live_query_disabled", boolean_leaf()));
    m7.push(("live_reporting_disabled", boolean_leaf()));
    m7.push(("query_reports_disabled", boolean_leaf()));
    m7.push(("discard_reports_data", boolean_leaf()));
    m7.push(("query_report_cap", leaf()));
    m7.push(("report_cap", leaf()));
    m7.push(("scripts_disabled", boolean_leaf()));
    m7.push(("server_url", leaf()));
    assert(entry_shapes(m7@) =~= entries(entries(org_settings_strict_shape())[5].1));
    m1.push(("server_settings", mapping(m7)));
    let mut m8: Vec<(&'static str, SchemaNode)> = Vec::new();
    m8.push(("enable_sso", boolean_leaf()));
    m8.push(("idp_name", leaf()));
    m8.push(("idp_image_url", leaf()));
    m8.push(("entity_id", leaf()));
    m8.push(("metadata", leaf()));
    m8.push(("metadata_url", leaf()));
    m8.push(("enable_jit_provisioning", boolean_leaf()));
    m8.push(("enable_jit_role_sync", boolean_leaf()));
    m8.push(("enable_sso_idp_login", boolean_leaf()));
    m8.push(("issuer_uri", leaf()));
    m8.push(("sso_server_url", leaf()));
    assert(entry_shapes(m8@) =~= entries(entries(org_settings_strict_shape())[6].1));
    m1.push(("sso_settings", mapping(m8)));
    m1.push(("integrations", integrations_strict()));
    m1.push(("certificate_authorities", open_mapping()));
    m1.push(("webhook_settings", webhook_settings_strict()));
    m1.push(("mdm", open_mapping()));
    let mut m9: Vec<(&'static str, SchemaNode)> = Vec::new();
    m9.push(("authentication_method", leaf()));
    m9.push(("authentication_type", leaf()));
    m9.push(("domain", leaf()));
    m9.push(("enable_smtp", boolean_leaf()));
    m9.push(("enable_ssl_tls", boolean_leaf()));
    m9.push(("enable_start_tls", boolean_leaf()));
    m9.push(("password", leaf()));
    m9.push(("port", leaf()));
    m9.push(("sender_address", leaf()));
    m9.push(("server", leaf()));
    m9.push(("user_name", leaf()));
    m9.push(("verify_ssl_certs", boolean_leaf()));
    assert(entry_shapes(m9@) =~= entries(entries(org_settings_strict_shape())[11].1));
    m1.push(("smtp_settings", mapping(m9)));
    let mut m10: Vec<(&'static str, SchemaNode)> = Vec::new();
    m10.push(("databases_path", leaf()));
    m10.push(("periodicity", leaf()));
    m10.push(("cpe_database_url", leaf()));
    m10.push(("cpe_translations_url", leaf()));
    m10.push(("cve_feed_prefix_url", leaf()));
    m10.push(("disable_data_sync", boolean_leaf()));
    m10.push(("disable_win_os_vulnerabilities", boolean_leaf()));
    m10.push(("recent_vulnerability_max_age", leaf()));
    assert(entry_shapes(m10@) =~= entries(entries(org_settings_strict_shape())[12].1));
    m1.push(("vulnerability_settings", mapping(m10)));
    let mut m11: Vec<(&'static str, SchemaNode)> = Vec::new();
    m11.push(("activity_expiry_enabled", boolean_leaf()));
    m11.push(("activity_expiry_window", leaf()));
    assert(entry_shapes(m11@) =~= entries(entries(org_settings_strict_shape())[13].1));
    m1.push(("activity_expiry_settings", mapping(m11)));
    m1.push(("yara_rules", array(open_mapping())));
    let mut m12: Vec<(&'static str, SchemaNode)> = Vec::new();
    m12.push(("gitops_mode_enabled", boolean_leaf()));
    m12.push(("repository_url", leaf()));
    assert(entry_shapes(m12@) =~= entries(entries(org_settings_strict_shape())[15].1));
    m1.push(("gitops", mapping(m12)));
    assert(entry_shapes(m1@) =~= entries(org_settings_strict_shape()));
    mapping(m1)
}

/// The shape built by `team_webhook_settings_strict`.
pub open spec fn team_webhook_settings_strict_shape() -> Schema {
    Schema::Mapping(seq![
        ("activities_webhook"@, Schema::Mapping(seq![
            ("enable_activities_webhook"@, Schema::BooleanLeaf),
            ("destination_url"@, Schema::Leaf),
        ])),
        ("failing_policies_webhook"@, Schema::Mapping(seq![
            ("enable_failing_policies_webhook"@, Schema::BooleanLeaf),
            ("destination_url"@, Schema::Leaf),
            ("policy_ids"@, Schema::Array(Box::new(Schema::Leaf))),
            ("host_batch_size"@, Schema::Leaf),
        ])),
        ("host_status_webhook"@, Schema::Mapping(seq![
            ("enable_host_status_webhook"@, Schema::BooleanLeaf),
            ("destination_url"@, Schema::Leaf),
            ("days_count"@, Schema::Leaf),
            ("host_percentage"@, Schema::Leaf),
        ])),
        ("interval"@, Schema::Leaf),
    ])
}

fn team_webhook_settings_strict() -> (r: SchemaNode)
    ensures
        r.shape() == team_webhook_settings_strict_shape(),
{
    let mut m1: Vec<(&'static str, SchemaNode)> = Vec::new();
    let mut m2: Vec<(&'static str, SchemaNode)> = Vec::new();
    m2.push(("enable_activities_webhook", boolean_leaf()));
    m2.push(("destination_url", leaf()));
    assert(entry_shapes(m2@) =~= entries(entries(team_webhook_settings_strict_shape())[0].1));
    m1.push(("activities_webhook", mapping(m2)));
    let mut m3: Vec<(&'static str, SchemaNode)> = Vec::new();
    m3.push(("enable_failing_policies_webhook", boolean_leaf()));
    m3.push(("destination_url", leaf()));
    m3.push(("policy_ids", array(leaf())));
    m3.push(("host_batch_size", leaf()));
    assert(entry_shapes(m3@) =~= entries(entries(team_webhook_settings_strict_shape())[1].1));
    m1.push(("failing_policies_webhook", mapping(m3)));
    let mut m4: Vec<(&'static str, SchemaNode)> = Vec::new();
    m4.push(("enable_host_status_webhook", boolean_leaf()));
    m4.push(("destination_url", leaf()));
    m4.push(("days_count", leaf()));
    m4.push(("host_percentage", leaf()));
    assert(entry_shapes(m4@) =~= entries(entries(team_webhook_settings_strict_shape())[2].1));
    m1.push(("host_status_webhook", mapping(m4)));
    m1.push(("interval", leaf()));
    assert(entry_shapes(m1@) =~= entries(team_webhook_settings_strict_shape()));
    mapping(m1)
}

/// The shape built by `team_settings_strict`.
pub open spec fn team_settings_strict_shape() -> Schema {
    Schema::Mapping(seq![
        ("features"@, Schema::Mapping(seq![
            ("additional_queries"@, Schema::OpenMapping),
            ("enable_host_users"@, Schema::BooleanLeaf),
            ("enable_software_inventory"@, Schema::BooleanLeaf),
            ("detail_query_overrides"@, Schema::OpenMapping),
            ("osquery_detail"@, Schema::OpenMapping),
            ("osquery_policy"@, Schema::OpenMapping),
        ])),
        ("host_expiry_settings"@, Schema::Mapping(seq![
            ("host_expiry_enabled"@, Schema::BooleanLeaf),
            ("host_expiry_window"@, Schema::Leaf),
        ])),
        ("secrets"@, Schema::Array(Box::new(Schema::Mapping(seq![
            ("secret"@, Schema::Leaf),
        ])))),
        ("integrations"@, integrations_strict_shape()),
        ("webhook_settings"@, team_webhook_settings_strict_shape()),
    ])
}

fn team_settings_strict() -> (r: SchemaNode)
    ensures
        r.shape() == team_settings_strict_shape(),
{
    let mut m1: Vec<(&'static str, SchemaNode)> = Vec::new();
    let mut m2: Vec<(&'static str, SchemaNode)> = Vec::new();
    m2.push(("additional_queries", open_mapping()));
    m2.push(("enable_host_users", boolean_leaf()));
    m2.push(("enable_software_inventory", boolean_leaf()));
    m2.push(("detail_query_overrides", open_mapping()));
    m2.push(("osquery_detail", open_mapping()));
    m2.push(("osquery_policy", open_mapping()));
    assert(entry_shapes(m2@) =~= entries(entries(team_settings_strict_shape())[0].1));
    m1.push(("features", mapping(m2)));
    let mut m3: Vec<(&'static str, SchemaNode)> = Vec::new();
    m3.push(("host_expiry_enabled", boolean_leaf()));
    m3.push(("host_expiry_window", leaf()));
    assert(entry_shapes(m3@) =~= entries(entries(team_settings_strict_shape())[1].1));
    m1.push(("host_expiry_settings", mapping(m3)));
    let mut m4: Vec<(&'static str, SchemaNode)> = Vec::new();
    m4.push(("secret", leaf()));
    assert(entry_shapes(m4@) =~= entries(item(entries(team_settings_strict_shape())[2].1)));
    m1.push(("secrets", array(mapping(m4))));
    m1.push(("integrations", integrations_strict()));
    m1.push(("webhook_settings", team_webhook_settings_strict()));
    assert(entry_shapes(m1@) =~= entries(team_settings_strict_shape()));
    mapping(m1)
}

/// The shape built by `agent_options_inline`.
pub open spec fn agent_options_inline_shape() -> Schema {
    Schema::Mapping(seq![
        ("path"@, Schema::Leaf),
        ("config"@, Schema::OpenMapping),
        ("overrides"@, Schema::OpenMapping),
        ("command_line_flags"@, Schema::OpenMapping),
        ("update_channels"@, Schema::OpenMapping),
        ("script_execution_timeout"@, Schema::Leaf),
        ("extensions"@, Schema::OpenMapping),
    ])
}

fn agent_options_inline() -> (r: SchemaNode)
    ensures
        r.shape() == agent_options_inline_shape(),
{
    let mut m1: Vec<(&'static str, SchemaNode)> = Vec::new();
    m1.push(("path", leaf()));
    m1.push(("config", open_mapping()));
    m1.push(("overrides", open_mapping()));
    m1.push(("command_line_flags", open_mapping()));
    m1.push(("update_channels", open_mapping()));
    m1.push(("script_execution_timeout", leaf()));
    m1.push(("extensions", open_mapping()));
    assert(entry_shapes(m1@) =~= entries(agent_options_inline_shape()));
    mapping(m1)
}

/// The shape built by `default_schema`.
pub open spec fn default_schema_shape() -> Schema {
    Schema::Mapping(seq![
        ("labels"@, Schema::ArrayOneOf(seq![
            label_inline_strict_shape(),
            path_ref_schema_shape(),
        ])),
        ("policies"@, Schema::ArrayOneOf(seq![
            policy_inline_strict_shape(),
            path_ref_schema_shape(),
        ])),
        ("queries"@, Schema::ArrayOneOf(seq![
            query_inline_strict_shape(),
            path_ref_schema_shape(),
        ])),
        ("reports"@, Schema::ArrayOneOf(seq![
            query_inline_strict_shape(),
            path_ref_schema_shape(),
        ])),
        ("agent_options"@, agent_options_inline_shape()),
        ("controls"@, controls_schema_shape()),
        ("software"@, software_schema_shape()),
        ("org_settings"@, org_settings_strict_shape()),
        ("team_settings"@, team_settings_strict_shape()),
        ("settings"@, team_settings_strict_shape()),
    ])
}

/// Schema for `default.yml` files.
pub fn default_schema() -> (r: SchemaNode)
    ensures
        r.shape() == default_schema_shape(),
{
    let mut m1: Vec<(&'static str, SchemaNode)> = Vec::new();
    let mut w2: Vec<SchemaNode> = Vec::new();
    w2.push(label_inline_strict());
    w2.push(path_ref_schema());
    assert(variant_shapes(w2@) =~= variants(entries(default_schema_shape())[0].1));
    m1.push(("labels", array_one_of(w2)));
    let mut w3: Vec<SchemaNode> = Vec::new();
    w3.push(policy_inline_strict());
    w3.push(path_ref_schema());
    assert(variant_shapes(w3@) =~= variants(entries(default_schema_shape())[1].1));
    m1.push(("policies", array_one_of(w3)));
    let mut w4: Vec<SchemaNode> = Vec::new();
    w4.push(query_inline_strict());
    w4.push(path_ref_schema());
    assert(variant_shapes(w4@) =~= variants(entries(default_schema_shape())[2].1));
    m1.push(("queries", array_one_of(w4)));
    let mut w5: Vec<SchemaNode> = Vec::new();
    w5.push(query_inline_strict());
    w5.push(path_ref_schema());
    assert(variant_shapes(w5@) =~= variants(entries(default_schema_shape())[3].1));
    m1.push(("reports", array_one_of(w5)));
    m1.push(("agent_options", agent_options_inline()));
    m1.push(("controls", controls_schema()));
    m1.push(("software", software_schema()));
    m1.push(("org_settings", org_settings_strict()));
    m1.push(("team_settings", team_settings_strict()));
    m1.push(("settings", team_settings_strict()));
    assert(entry_shapes(m1@) =~= entries(default_schema_shape()));
    mapping(m1)
}

/// The shape built by `fleet_schema`.
pub open spec fn fleet_schema_shape() -> Schema {
    Schema::Mapping(seq![
        ("name"@, Schema::Leaf),
        ("labels"@, Schema::ArrayOneOf(seq![
            label_inline_strict_shape(),
            path_ref_schema_shape(),
        ])),
        ("policies"@, Schema::ArrayOneOf(seq![
            policy_inline_strict_shape(),
            path_ref_schema_shape(),
        ])),
        ("queries"@, Schema::ArrayOneOf(seq![
            query_inline_strict_shape(),
            path_ref_schema_shape(),
        ])),
        ("reports"@, Schema::ArrayOneOf(seq![
            query_inline_strict_shape(),
            path_ref_schema_shape(),
        ])),
        ("agent_options"@, agent_options_inline_shape()),
        ("controls"@, controls_schema_shape()),
        ("software"@, software_schema_shape()),
        ("team_settings"@, team_settings_strict_shape()),
        ("settings"@, team_settings_strict_shape()),
    ])
}

/// Schema for `fleets/*.yml` (and legacy `teams/*.yml`) files. Same structure as default.
pub fn fleet_schema() -> (r: SchemaNode)
    ensures
        r.shape() == fleet_schema_shape(),
{
    let mut m1: Vec<(&'static str, SchemaNode)> = Vec::new();
    m1.push(("name", leaf()));
    let mut w2: Vec<SchemaNode> = Vec::new();
    w2.push(label_inline_strict());
    w2.push(path_ref_schema());
    assert(variant_shapes(w2@) =~= variants(entries(fleet_schema_shape())[1].1));
    m1.push(("labels", array_one_of(w2)));
    let mut w3: Vec<SchemaNode> = Vec::new();
    w3.push(policy_inline_strict());
    w3.push(path_ref_schema());
    assert(variant_shapes(w3@) =~= variants(entries(fleet_schema_shape())[2].1));
    m1.push(("policies", array_one_of(w3)));
    let mut w4: Vec<SchemaNode> = Vec::new();
    w4.push(query_inline_strict());
    w4.push(path_ref_schema());
    assert(variant_shapes(w4@) =~= variants(entries(fleet_schema_shape())[3].1));
    m1.push(("queries", array_one_of(w4)));
    let mut w5: Vec<SchemaNode> = Vec::new();
    w5.push(query_inline_strict());
    w5.push(path_ref_schema());
    assert(variant_shapes(w5@) =~= variants(entries(fleet_schema_shape())[4].1));
    m1.push(("reports", array_one_of(w5)));
    m1.push(("agent_options", agent_options_inline()));
    m1.push(("controls", controls_schema()));
    m1.push(("software", software_schema()));
    m1.push(("team_settings", team_settings_strict()));
    m1.push(("settings", team_settings_strict()));
    assert(entry_shapes(m1@) =~= entries(fleet_schema_shape()));
    mapping(m1)
}

/// The shape built by `policy_schema`.
pub open spec fn policy_schema_shape() -> Schema {
    Schema::ArrayOneOf(seq![
        policy_inline_strict_shape(),
        path_ref_schema_shape(),
    ])
}

/// Schema for `lib/policies/*.yml` files (array of policies).
pub fn policy_schema() -> (r: SchemaNode)
    ensures
        r.shape() == policy_schema_shape(),
{
    let mut w1: Vec<SchemaNode> = Vec::new();
    w1.push(policy_inline_strict());
    w1.push(path_ref_schema());
    assert(variant_shapes(w1@) =~= variants(policy_schema_shape()));
    array_one_of(w1)
}

/// The shape built by `query_schema`.
pub open spec fn query_schema_shape() -> Schema {
    Schema::ArrayOneOf(seq![
        query_inline_strict_shape(),
        path_ref_schema_shape(),
    ])
}

/// Schema for `lib/queries/*.yml` files (array of queries).
pub fn query_schema() -> (r: SchemaNode)
    ensures
        r.shape() == query_schema_shape(),
{
    let mut w1: Vec<SchemaNode> = Vec::new();
    w1.push(query_inline_strict());
    w1.push(path_ref_schema());
    assert(variant_shapes(w1@) =~= variants(query_schema_shape()));
    array_one_of(w1)
}

/// The shape built by `label_schema`.
pub open spec fn label_schema_shape() -> Schema {
    Schema::ArrayOneOf(seq![
        label_inline_strict_shape(),
        path_ref_schema_shape(),
    ])
}

/// Schema for `lib/labels/*.yml` files (array of labels).
pub fn label_schema() -> (r: SchemaNode)
    ensures
        r.shape() == label_schema_shape(),
{
    let mut w1: Vec<SchemaNode> = Vec::new();
    w1.push(label_inline_strict());
    w1.push(path_ref_schema());
    assert(variant_shapes(w1@) =~= variants(label_schema_shape()));
    array_one_of(w1)
}

/// The keys registered, in the order of their first registration.
pub open spec fn key_order(regs: Seq<(Seq<char>, Seq<char>)>) -> Seq<Seq<char>>
    decreases regs.len(),
{
    if regs.len() == 0 {
        Seq::empty()
    } else {
        let ks = key_order(regs.drop_last());
        if ks.contains(regs.last().0) {
            ks
        } else {
            ks.push(regs.last().0)
        }
    }
}

/// The paths registered for key `k`, in registration order.
pub open spec fn paths_for(regs: Seq<(Seq<char>, Seq<char>)>, k: Seq<char>) -> Seq<Seq<char>>
    decreases regs.len(),
{
    if regs.len() == 0 {
        Seq::empty()
    } else {
        let ps = paths_for(regs.drop_last(), k);
        if regs.last().0 == k {
            ps.push(regs.last().1)
        } else {
            ps
        }
    }
}

/// A key was registered at least once.
pub open spec fn is_registered(regs: Seq<(Seq<char>, Seq<char>)>, k: Seq<char>) -> bool {
    exists|i: int| 0 <= i < regs.len() && #[trigger] regs[i].0 == k
}

/// The key views of registry entries.
pub open spec fn entry_names(e: Seq<(&'static str, Vec<&'static str>)>) -> Seq<Seq<char>> {
    Seq::new(e.len(), |i: int| e[i].0@)
}

/// A key is in the key order exactly when it was registered.
pub proof fn lemma_key_order_contains(regs: Seq<(Seq<char>, Seq<char>)>, k: Seq<char>)
    ensures
        key_order(regs).contains(k) <==> is_registered(regs, k),
    decreases regs.len(),
{
    if regs.len() > 0 {
        let init = regs.drop_last();
        let x = regs.last().0;
        let ks = key_order(init);
        lemma_key_order_contains(init, k);
        if is_registered(init, k) {
            let i = choose|i: int| 0 <= i < init.len() && #[trigger] init[i].0 == k;
            assert(regs[i].0 == k);
        }
        if is_registered(regs, k) && x != k {
            let i = choose|i: int| 0 <= i < regs.len() && #[trigger] regs[i].0 == k;
            assert(init[i].0 == k);
        }
        if x == k {
            assert(regs[regs.len() - 1].0 == k);
        }
        if !ks.contains(x) {
            if ks.contains(k) {
                let j = choose|j: int| 0 <= j < ks.len() && ks[j] == k;
                assert(ks.push(x)[j] == k);
            }
            if x == k {
                assert(ks.push(x)[ks.len() as int] == k);
            }
            if ks.push(x).contains(k) {
                let j = choose|j: int| 0 <= j < ks.len() + 1 && ks.push(x)[j] == k;
                if j < ks.len() {
                    assert(ks[j] == k);
                }
            }
        }
    }
}

/// No key occurs twice in the key order.
pub proof fn lemma_key_order_distinct(regs: Seq<(Seq<char>, Seq<char>)>)
    ensures
        key_order(regs).no_duplicates(),
    decreases regs.len(),
{
    if regs.len() > 0 {
        lemma_key_order_distinct(regs.drop_last());
    }
}

/// A key never registered has no paths.
pub proof fn lemma_paths_unregistered(regs: Seq<(Seq<char>, Seq<char>)>, k: Seq<char>)
    requires
        !is_registered(regs, k),
    ensures
        paths_for(regs, k) == Seq::<Seq<char>>::empty(),
    decreases regs.len(),
{
    if regs.len() > 0 {
        let init = regs.drop_last();
        assert(regs[regs.len() - 1].0 != k);
        assert(!is_registered(init, k)) by {
            if is_registered(init, k) {
                let i = choose|i: int| 0 <= i < init.len() && #[trigger] init[i].0 == k;
                assert(regs[i].0 == k);
            }
        }
        lemma_paths_unregistered(init, k);
    }
}

/// A registered key has at least one path.
proof fn lemma_paths_registered(regs: Seq<(Seq<char>, Seq<char>)>, k: Seq<char>)
    requires
        is_registered(regs, k),
    ensures
        paths_for(regs, k).len() > 0,
    decreases regs.len(),
{
    let init = regs.drop_last();
    if regs.last().0 != k {
        let i = choose|i: int| 0 <= i < regs.len() && #[trigger] regs[i].0 == k;
        assert(init[i].0 == k);
        lemma_paths_registered(init, k);
    }
}

/// The keys that `all_keys` lists (the key order) are distinct, they are
/// exactly the keys that `lookup` finds (the registered ones), and every
/// such key has at least one path.
pub proof fn law_registry_keys(regs: Seq<(Seq<char>, Seq<char>)>, k: Seq<char>)
    ensures
        key_order(regs).no_duplicates(),
        key_order(regs).contains(k) <==> is_registered(regs, k),
        is_registered(regs, k) ==> paths_for(regs, k).len() > 0,
{
    lemma_key_order_distinct(regs);
    lemma_key_order_contains(regs, k);
    if is_registered(regs, k) {
        lemma_paths_registered(regs, k);
    }
}

/// The registry of every known key name and the dot-separated paths where
/// it is valid, used to detect misplaced keys.
pub struct KeyRegistry {
    entries: Vec<(&'static str, Vec<&'static str>)>,
    registered: Ghost<Seq<(Seq<char>, Seq<char>)>>,
}

impl KeyRegistry {
    /// Every (key, path) registration made, in order.
    pub closed spec fn registrations(&self) -> Seq<(Seq<char>, Seq<char>)> {
        self.registered@
    }

    /// The entries hold, once per key and in first-registration order, the
    /// paths registered for that key.
    pub closed spec fn wf(&self) -> bool {
        &&& entry_names(self.entries@) == key_order(self.registered@)
        &&& forall|i: int|
            0 <= i < self.entries@.len() ==> strs(#[trigger] self.entries@[i].1@) == paths_for(
                self.registered@,
                self.entries@[i].0@,
            )
    }

    /// An empty registry.
    fn new() -> (r: Self)
        ensures
            r.wf(),
            r.registrations() == Seq::<(Seq<char>, Seq<char>)>::empty(),
    {
        let r = KeyRegistry { entries: Vec::new(), registered: Ghost(Seq::empty()) };
        assert(entry_names(r.entries@) =~= key_order(r.registered@));
        r
    }

    /// The index of the entry for `key`, if it has one.
    fn find(&self, key: &str) -> (r: Option<usize>)
        ensures
            match r {
                Some(i) => i < self.entries@.len() && self.entries@[i as int].0@ == key@,
                None => !entry_names(self.entries@).contains(key@),
            },
    {
        let mut i: usize = 0;
        while i < self.entries.len()
            invariant
                i <= self.entries@.len(),
                forall|j: int| 0 <= j < i ==> self.entries@[j].0@ != key@,
            decreases self.entries.len() - i,
        {
            if text::str_eq(self.entries[i].0, key) {
                return Some(i);
            }
            i += 1;
        }
        proof {
            if entry_names(self.entries@).contains(key@) {
                let j = choose|j: int| 0 <= j < self.entries@.len() && entry_names(self.entries@)[j] == key@;
                assert(self.entries@[j].0@ == key@);
            }
        }
        None
    }

    /// Records that `key` is valid at `path`.
    fn register(&mut self, key: &'static str, path: &'static str)
        requires
            old(self).wf(),
        ensures
            final(self).wf(),
            final(self).registrations() == old(self).registrations().push((key@, path@)),
    {
        let ghost regs = self.registered@;
        let ghost regs2 = regs.push((key@, path@));
        assert(regs2.drop_last() =~= regs);
        proof {
            lemma_key_order_distinct(regs);
        }
        match self.find(key) {
            Some(i) => {
                let ghost old_entries = self.entries@;
                let (k, mut ps) = self.entries.remove(i);
                ps.push(path);
                self.entries.insert(i, (k, ps));
                self.registered = Ghost(regs2);
                proof {
                    assert(self.entries@ =~= old_entries.update(i as int, (k, ps)));
                    assert(key_order(regs).contains(key@)) by {
                        assert(entry_names(old_entries)[i as int] == key@);
                    }
                    assert(entry_names(self.entries@) =~= entry_names(old_entries));
                    assert forall|j: int| 0 <= j < self.entries@.len() implies strs(
                        #[trigger] self.entries@[j].1@,
                    ) == paths_for(regs2, self.entries@[j].0@) by {
                        if j == i {
                            assert(strs(ps@) =~= strs(old_entries[j].1@).push(path@));
                        } else {
                            assert(entry_names(old_entries)[j] != entry_names(old_entries)[i as int]);
                        }
                    }
                }
            },
            None => {
                let ghost old_entries = self.entries@;
                let mut ps: Vec<&'static str> = Vec::new();
                ps.push(path);
                self.entries.push((key, ps));
                self.registered = Ghost(regs2);
                proof {
                    lemma_key_order_contains(regs, key@);
                    lemma_paths_unregistered(regs, key@);
                    assert(entry_names(self.entries@) =~= entry_names(old_entries).push(key@));
                    assert forall|j: int| 0 <= j < self.entries@.len() implies strs(
                        #[trigger] self.entries@[j].1@,
                    ) == paths_for(regs2, self.entries@[j].0@) by {
                        if j == old_entries.len() {
                            assert(strs(ps@) =~= seq![path@]);
                            assert(paths_for(regs, key@) =~= Seq::<Seq<char>>::empty());
                        } else {
                            assert(entry_names(old_entries)[j] == old_entries[j].0@);
                        }
                    }
                }
            },
        }
    }

    /// The paths where `key` is valid, if the key is known.
    pub fn lookup(&self, key: &str) -> (r: Option<&[&'static str]>)
        requires
            self.wf(),
        ensures
            r.is_some() == is_registered(self.registrations(), key@),
            r.is_some() ==> strs(r.unwrap()@) == paths_for(self.registrations(), key@),
    {
        proof {
            lemma_key_order_contains(self.registered@, key@);
        }
        match self.find(key) {
            Some(i) => {
                proof {
                    assert(entry_names(self.entries@)[i as int] == key@);
                }
                Some(self.entries[i].1.as_slice())
            },
            None => None,
        }
    }

    /// Every known key name, once each, in first-registration order.
    pub fn all_keys(&self) -> (r: Vec<&'static str>)
        requires
            self.wf(),
        ensures
            strs(r@) == key_order(self.registrations()),
    {
        let mut out: Vec<&'static str> = Vec::new();
        let mut i: usize = 0;
        while i < self.entries.len()
            invariant
                i <= self.entries@.len(),
                out@.len() == i,
                strs(out@) == entry_names(self.entries@).take(i as int),
            decreases self.entries.len() - i,
        {
            let ghost before = out@;
            out.push(self.entries[i].0);
            assert(entry_names(self.entries@)[i as int] == self.entries@[i as int].0@);
            assert forall|j: int| 0 <= j < i implies #[trigger] strs(out@)[j] == strs(before)[j] by {
                assert(out@[j] == before[j]);
            }
            assert(strs(out@) =~= entry_names(self.entries@).take(i + 1));
            i += 1;
        }
        assert(entry_names(self.entries@).take(i as int) =~= entry_names(self.entries@));
        out
    }
}

/// Registrations: Top-level keys (default.yml).
pub open spec fn registrations_top_level_keys() -> Seq<(Seq<char>, Seq<char>)> {
    seq![
        ("labels"@, ""@),
        ("policies"@, ""@),
        ("queries"@, ""@),
        ("reports"@, ""@),
        ("agent_options"@, ""@),
        ("controls"@, ""@),
        ("software"@, ""@),
        ("org_settings"@, ""@),
        ("team_settings"@, ""@),
        ("settings"@, ""@),
        ("name"@, ""@),
    ]
}

/// Registers: Top-level keys (default.yml).
fn register_top_level_keys(reg: &mut KeyRegistry)
    requires
        old(reg).wf(),
    ensures
        final(reg).wf(),
        final(reg).registrations() == old(reg).registrations() + registrations_top_level_keys(),
{
    reg.register("labels", "");
    reg.register("policies", "");
    reg.register("queries", "");
    reg.register("reports", "");
    reg.register("agent_options", "");
    reg.register("controls", "");
    reg.register("software", "");
    reg.register("org_settings", "");
    reg.register("team_settings", "");
    reg.register("settings", "");
    reg.register("name", "");
    assert(reg.registrations() =~= old(reg).registrations() + registrations_top_level_keys());
}

/// Registrations: controls children.
pub open spec fn registrations_controls_children() -> Seq<(Seq<char>, Seq<char>)> {
    seq![
        ("scripts"@, "controls"@),
        ("windows_enabled_and_configured"@, "controls"@),
        ("windows_entra_tenant_ids"@, "controls"@),
        ("enable_turn_on_windows_mdm_manually"@, "controls"@),
        ("windows_migration_enabled"@, "controls"@),
        ("enable_disk_encryption"@, "controls"@),
        ("windows_require_bitlocker_pin"@, "controls"@),
        ("macos_updates"@, "controls"@),
        ("ios_updates"@, "controls"@),
        ("ipados_updates"@, "controls"@),
        ("windows_updates"@, "controls"@),
        ("macos_settings"@, "controls"@),
        ("apple_settings"@, "controls"@),
        ("windows_settings"@, "controls"@),
        ("android_settings"@, "controls"@),
        ("macos_setup"@, "controls"@),
        ("setup_experience"@, "controls"@),
        ("macos_migration"@, "controls"@),
    ]
}

/// Registers: controls children.
fn register_controls_children(reg: &mut KeyRegistry)
    requires
        old(reg).wf(),
    ensures
        final(reg).wf(),
        final(reg).registrations() == old(reg).registrations() + registrations_controls_children(),
{
    reg.register("scripts", "controls");
    reg.register("windows_enabled_and_configured", "controls");
    reg.register("windows_entra_tenant_ids", "controls");
    reg.register("enable_turn_on_windows_mdm_manually", "controls");
    reg.register("windows_migration_enabled", "controls");
    reg.register("enable_disk_encryption", "controls");
    reg.register("windows_require_bitlocker_pin", "controls");
    reg.register("macos_updates", "controls");
    reg.register("ios_updates", "controls");
    reg.register("ipados_updates", "controls");
    reg.register("windows_updates", "controls");
    reg.register("macos_settings", "controls");
    reg.register("apple_settings", "controls");
    reg.register("windows_settings", "controls");
    reg.register("android_settings", "controls");
    reg.register("macos_setup", "controls");
    reg.register("setup_experience", "controls");
    reg.register("macos_migration", "controls");
    assert(reg.registrations() =~= old(reg).registrations() + registrations_controls_children());
}

/// Registrations: controls.macos_settings / apple_settings / windows_settings children.
pub open spec fn registrations_controls_macos_settings() -> Seq<(Seq<char>, Seq<char>)> {
    seq![
        ("custom_settings"@, "controls.macos_settings"@),
        ("configuration_profiles"@, "controls.macos_settings"@),
        ("custom_settings"@, "controls.apple_settings"@),
        ("configuration_profiles"@, "controls.apple_settings"@),
        ("custom_settings"@, "controls.windows_settings"@),
        ("configuration_profiles"@, "controls.windows_settings"@),
    ]
}

/// Registers: controls.macos_settings / apple_settings / windows_settings children.
fn register_controls_macos_settings(reg: &mut KeyRegistry)
    requires
        old(reg).wf(),
    ensures
        final(reg).wf(),
        final(reg).registrations() == old(reg).registrations() + registrations_controls_macos_settings(),
{
    reg.register("custom_settings", "controls.macos_settings");
    reg.register("configuration_profiles", "controls.macos_settings");
    reg.register("custom_settings", "controls.apple_settings");
    reg.register("configuration_profiles", "controls.apple_settings");
    reg.register("custom_settings", "controls.windows_settings");
    reg.register("configuration_profiles", "controls.windows_settings");
    assert(reg.registrations() =~= old(reg).registrations() + registrations_controls_macos_settings());
}

/// Registrations: controls.android_settings children.
pub open spec fn registrations_controls_android_settings_children() -> Seq<(Seq<char>, Seq<char>)> {
    seq![
        ("custom_settings"@, "controls.android_settings"@),
        ("configuration_profiles"@, "controls.android_settings"@),
        ("certificates"@, "controls.android_settings"@),
    ]
}

/// Registers: controls.android_settings children.
fn register_controls_android_settings_children(reg: &mut KeyRegistry)
    requires
        old(reg).wf(),
    ensures
        final(reg).wf(),
        final(reg).registrations() == old(reg).registrations() + registrations_controls_android_settings_children(),
{
    reg.register("custom_settings", "controls.android_settings");
    reg.register("configuration_profiles", "controls.android_settings");
    reg.register("certificates", "controls.android_settings");
    assert(reg.registrations() =~= old(reg).registrations() + registrations_controls_android_settings_children());
}

/// Registrations: controls.android_settings.certificates[] fields.
pub open spec fn registrations_controls_android_settings_certificates_fields() -> Seq<(Seq<char>, Seq<char>)> {
    seq![
        ("name"@, "controls.android_settings.certificates[]"@),
        ("certificate_authority_name"@, "controls.android_settings.certificates[]"@),
        ("subject_name"@, "controls.android_settings.certificates[]"@),
    ]
}

/// Registers: controls.android_settings.certificates[] fields.
fn register_controls_android_settings_certificates_fields(reg: &mut KeyRegistry)
    requires
        old(reg).wf(),
    ensures
        final(reg).wf(),
        final(reg).registrations() == old(reg).registrations() + registrations_controls_android_settings_certificates_fields(),
{
    reg.register("name", "controls.android_settings.certificates[]");
    reg.register("certificate_authority_name", "controls.android_settings.certificates[]");
    reg.register("subject_name", "controls.android_settings.certificates[]");
    assert(reg.registrations() =~= old(reg).registrations() + registrations_controls_android_settings_certificates_fields());
}

/// Registrations: controls.macos_updates / ios_updates / ipados_updates children.
pub open spec fn registrations_controls_macos_updates() -> Seq<(Seq<char>, Seq<char>)> {
    seq![
        ("deadline"@, "controls.macos_updates"@),
        ("minimum_version"@, "controls.macos_updates"@),
        ("update_new_hosts"@, "controls.macos_updates"@),
        ("deadline"@, "controls.ios_updates"@),
        ("minimum_version"@, "controls.ios_updates"@),
        ("update_new_hosts"@, "controls.ios_updates"@),
        ("deadline"@, "controls.ipados_updates"@),
        ("minimum_version"@, "controls.ipados_updates"@),
        ("update_new_hosts"@, "controls.ipados_updates"@),
    ]
}

/// Registers: controls.macos_updates / ios_updates / ipados_updates children.
fn register_controls_macos_updates(reg: &mut KeyRegistry)
    requires
        old(reg).wf(),
    ensures
        final(reg).wf(),
        final(reg).registrations() == old(reg).registrations() + registrations_controls_macos_updates(),
{
    reg.register("deadline", "controls.macos_updates");
    reg.register("minimum_version", "controls.macos_updates");
    reg.register("update_new_hosts", "controls.macos_updates");
    reg.register("deadline", "controls.ios_updates");
    reg.register("minimum_version", "controls.ios_updates");
    reg.register("update_new_hosts", "controls.ios_updates");
    reg.register("deadline", "controls.ipados_updates");
    reg.register("minimum_version", "controls.ipados_updates");
    reg.register("update_new_hosts", "controls.ipados_updates");
    assert(reg.registrations() =~= old(reg).registrations() + registrations_controls_macos_updates());
}

/// Registrations: controls.windows_updates children.
pub open spec fn registrations_controls_windows_updates_children() -> Seq<(Seq<char>, Seq<char>)> {
    seq![
        ("deadline_days"@, "controls.windows_updates"@),
        ("grace_period_days"@, "controls.windows_updates"@),
    ]
}

/// Registers: controls.windows_updates children.
fn register_controls_windows_updates_children(reg: &mut KeyRegistry)
    requires
        old(reg).wf(),
    ensures
        final(reg).wf(),
        final(reg).registrations() == old(reg).registrations() + registrations_controls_windows_updates_children(),
{
    reg.register("deadline_days", "controls.windows_updates");
    reg.register("grace_period_days", "controls.windows_updates");
    assert(reg.registrations() =~= old(reg).registrations() + registrations_controls_windows_updates_children());
}

/// Registrations: controls.macos_setup / setup_experience children.
pub open spec fn registrations_controls_macos_setup() -> Seq<(Seq<char>, Seq<char>)> {
    seq![
        ("bootstrap_package"@, "controls.macos_setup"@),
        ("manual_agent_install"@, "controls.macos_setup"@),
        ("enable_end_user_authentication"@, "controls.macos_setup"@),
        ("lock_end_user_info"@, "controls.macos_setup"@),
        ("require_all_software"@, "controls.macos_setup"@),
        ("enable_release_device_manually"@, "controls.macos_setup"@),
        ("macos_setup_assistant"@, "controls.macos_setup"@),
        ("script"@, "controls.macos_setup"@),
        ("macos_bootstrap_package"@, "controls.macos_setup"@),
        ("macos_manual_agent_install"@, "controls.macos_setup"@),
        ("require_all_software_macos"@, "controls.macos_setup"@),
        ("apple_enable_release_device_manually"@, "controls.macos_setup"@),
        ("apple_setup_assistant"@, "controls.macos_setup"@),
        ("macos_script"@, "controls.macos_setup"@),
        ("bootstrap_package"@, "controls.setup_experience"@),
        ("manual_agent_install"@, "controls.setup_experience"@),
        ("enable_end_user_authentication"@, "controls.setup_experience"@),
        ("lock_end_user_info"@, "controls.setup_experience"@),
        ("require_all_software"@, "controls.setup_experience"@),
        ("enable_release_device_manually"@, "controls.setup_experience"@),
        ("macos_setup_assistant"@, "controls.setup_experience"@),
        ("script"@, "controls.setup_experience"@),
        ("macos_bootstrap_package"@, "controls.setup_experience"@),
        ("macos_manual_agent_install"@, "controls.setup_experience"@),
        ("require_all_software_macos"@, "controls.setup_experience"@),
        ("apple_enable_release_device_manually"@, "controls.setup_experience"@),
        ("apple_setup_assistant"@, "controls.setup_experience"@),
        ("macos_script"@, "controls.setup_experience"@),
    ]
}

/// Registers: controls.macos_setup / setup_experience children.
fn register_controls_macos_setup(reg: &mut KeyRegistry)
    requires
        old(reg).wf(),
    ensures
        final(reg).wf(),
        final(reg).registrations() == old(reg).registrations() + registrations_controls_macos_setup(),
{
    reg.register("bootstrap_package", "controls.macos_setup");
    reg.register("manual_agent_install", "controls.macos_setup");
    reg.register("enable_end_user_authentication", "controls.macos_setup");
    reg.register("lock_end_user_info", "controls.macos_setup");
    reg.register("require_all_software", "controls.macos_setup");
    reg.register("enable_release_device_manually", "controls.macos_setup");
    reg.register("macos_setup_assistant", "controls.macos_setup");
    reg.register("script", "controls.macos_setup");
    reg.register("macos_bootstrap_package", "controls.macos_setup");
    reg.register("macos_manual_agent_install", "controls.macos_setup");
    reg.register("require_all_software_macos", "controls.macos_setup");
    reg.register("apple_enable_release_device_manually", "controls.macos_setup");
    reg.register("apple_setup_assistant", "controls.macos_setup");
    reg.register("macos_script", "controls.macos_setup");
    reg.register("bootstrap_package", "controls.setup_experience");
    reg.register("manual_agent_install", "controls.setup_experience");
    reg.register("enable_end_user_authentication", "controls.setup_experience");
    reg.register("lock_end_user_info", "controls.setup_experience");
    reg.register("require_all_software", "controls.setup_experience");
    reg.register("enable_release_device_manually", "controls.setup_experience");
    reg.register("macos_setup_assistant", "controls.setup_experience");
    reg.register("script", "controls.setup_experience");
    reg.register("macos_bootstrap_package", "controls.setup_experience");
    reg.register("macos_manual_agent_install", "controls.setup_experience");
    reg.register("require_all_software_macos", "controls.setup_experience");
    reg.register("apple_enable_release_device_manually", "controls.setup_experience");
    reg.register("apple_setup_assistant", "controls.setup_experience");
    reg.register("macos_script", "controls.setup_experience");
    assert(reg.registrations() =~= old(reg).registrations() + registrations_controls_macos_setup());
}

/// Registrations: controls.macos_migration children.
pub open spec fn registrations_controls_macos_migration_children() -> Seq<(Seq<char>, Seq<char>)> {
    seq![
        ("enable"@, "controls.macos_migration"@),
        ("mode"@, "controls.macos_migration"@),
        ("webhook_url"@, "controls.macos_migration"@),
    ]
}

/// Registers: controls.macos_migration children.
fn register_controls_macos_migration_children(reg: &mut KeyRegistry)
    requires
        old(reg).wf(),
    ensures
        final(reg).wf(),
        final(reg).registrations() == old(reg).registrations() + registrations_controls_macos_migration_children(),
{
    reg.register("enable", "controls.macos_migration");
    reg.register("mode", "controls.macos_migration");
    reg.register("webhook_url", "controls.macos_migration");
    assert(reg.registrations() =~= old(reg).registrations() + registrations_controls_macos_migration_children());
}

/// Registrations: org_settings children.
pub open spec fn registrations_org_settings_children() -> Seq<(Seq<char>, Seq<char>)> {
    seq![
        ("features"@, "org_settings"@),
        ("fleet_desktop"@, "org_settings"@),
        ("host_expiry_settings"@, "org_settings"@),
        ("org_info"@, "org_settings"@),
        ("secrets"@, "org_settings"@),
        ("server_settings"@, "org_settings"@),
        ("sso_settings"@, "org_settings"@),
        ("integrations"@, "org_settings"@),
        ("certificate_authorities"@, "org_settings"@),
        ("gitops"@, "org_settings"@),
    ]
}

/// Registers: org_settings children.
fn register_org_settings_children(reg: &mut KeyRegistry)
    requires
        old(reg).wf(),
    ensures
        final(reg).wf(),
        final(reg).registrations() == old(reg).registrations() + registrations_org_settings_children(),
{
    reg.register("features", "org_settings");
    reg.register("fleet_desktop", "org_settings");
    reg.register("host_expiry_settings", "org_settings");
    reg.register("org_info", "org_settings");
    reg.register("secrets", "org_settings");
    reg.register("server_settings", "org_settings");
    reg.register("sso_settings", "org_settings");
    reg.register("integrations", "org_settings");
    reg.register("certificate_authorities", "org_settings");
    reg.register("gitops", "org_settings");
    assert(reg.registrations() =~= old(reg).registrations() + registrations_org_settings_children());
}

/// Registrations: org_settings.features children.
pub open spec fn registrations_org_settings_features_children() -> Seq<(Seq<char>, Seq<char>)> {
    seq![
        ("additional_queries"@, "org_settings.features"@),
        ("enable_host_users"@, "org_settings.features"@),
        ("enable_software_inventory"@, "org_settings.features"@),
    ]
}

/// Registers: org_settings.features children.
fn register_org_settings_features_children(reg: &mut KeyRegistry)
    requires
        old(reg).wf(),
    ensures
        final(reg).wf(),
        final(reg).registrations() == old(reg).registrations() + registrations_org_settings_features_children(),
{
    reg.register("additional_queries", "org_settings.features");
    reg.register("enable_host_users", "org_settings.features");
    reg.register("enable_software_inventory", "org_settings.features");
    assert(reg.registrations() =~= old(reg).registrations() + registrations_org_settings_features_children());
}

/// Registrations: org_settings.fleet_desktop children.
pub open spec fn registrations_org_settings_fleet_desktop_children() -> Seq<(Seq<char>, Seq<char>)> {
    seq![
        ("transparency_url"@, "org_settings.fleet_desktop"@),
        ("alternative_browser_host"@, "org_settings.fleet_desktop"@),
    ]
}

/// Registers: org_settings.fleet_desktop children.
fn register_org_settings_fleet_desktop_children(reg: &mut KeyRegistry)
    requires
        old(reg).wf(),
    ensures
        final(reg).wf(),
        final(reg).registrations() == old(reg).registrations() + registrations_org_settings_fleet_desktop_children(),
{
    reg.register("transparency_url", "org_settings.fleet_desktop");
    reg.register("alternative_browser_host", "org_settings.fleet_desktop");
    assert(reg.registrations() =~= old(reg).registrations() + registrations_org_settings_fleet_desktop_children());
}

/// Registrations: org_settings.host_expiry_settings children.
pub open spec fn registrations_org_settings_host_expiry_settings_children() -> Seq<(Seq<char>, Seq<char>)> {
    seq![
        ("host_expiry_enabled"@, "org_settings.host_expiry_settings"@),
        ("host_expiry_window"@, "org_settings.host_expiry_settings"@),
    ]
}

/// Registers: org_settings.host_expiry_settings children.
fn register_org_settings_host_expiry_settings_children(reg: &mut KeyRegistry)
    requires
        old(reg).wf(),
    ensures
        final(reg).wf(),
        final(reg).registrations() == old(reg).registrations() + registrations_org_settings_host_expiry_settings_children(),
{
    reg.register("host_expiry_enabled", "org_settings.host_expiry_settings");
    reg.register("host_expiry_window", "org_settings.host_expiry_settings");
    assert(reg.registrations() =~= old(reg).registrations() + registrations_org_settings_host_expiry_settings_children());
}

/// Registrations: org_settings.org_info children.
pub open spec fn registrations_org_settings_org_info_children() -> Seq<(Seq<char>, Seq<char>)> {
    seq![
        ("org_name"@, "org_settings.org_info"@),
        ("org_logo_url"@, "org_settings.org_info"@),
        ("org_logo_url_light_background"@, "org_settings.org_info"@),
        ("contact_url"@, "org_settings.org_info"@),
    ]
}

/// Registers: org_settings.org_info children.
fn register_org_settings_org_info_children(reg: &mut KeyRegistry)
    requires
        old(reg).wf(),
    ensures
        final(reg).wf(),
        final(reg).registrations() == old(reg).registrations() + registrations_org_settings_org_info_children(),
{
    reg.register("org_name", "org_settings.org_info");
    reg.register("org_logo_url", "org_settings.org_info");
    reg.register("org_logo_url_light_background", "org_settings.org_info");
    reg.register("contact_url", "org_settings.org_info");
    assert(reg.registrations() =~= old(reg).registrations() + registrations_org_settings_org_info_children());
}

/// Registrations: org_settings.server_settings children.
pub open spec fn registrations_org_settings_server_settings_children() -> Seq<(Seq<char>, Seq<char>)> {
    seq![
        ("ai_features_disabled"@, "org_settings.server_settings"@),
        ("enable_analytics"@, "org_settings.server_settings"@),
        ("live_query_disabled"@, "org_settings.server_settings"@),
        ("live_reporting_disabled"@, "org_settings.server_settings"@),
        ("query_reports_disabled"@, "org_settings.server_settings"@),
        ("discard_reports_data"@, "org_settings.server_settings"@),
        ("query_report_cap"@, "org_settings.server_settings"@),
        ("report_cap"@, "org_settings.server_settings"@),
        ("scripts_disabled"@, "org_settings.server_settings"@),
        ("server_url"@, "org_settings.server_settings"@),
        ("discard_reports_data"@, "org_settings.server_settings"@),
    ]
}

/// Registers: org_settings.server_settings children.
fn register_org_settings_server_settings_children(reg: &mut KeyRegistry)
    requires
        old(reg).wf(),
    ensures
        final(reg).wf(),
        final(reg).registrations() == old(reg).registrations() + registrations_org_settings_server_settings_children(),
{
    reg.register("ai_features_disabled", "org_settings.server_settings");
    reg.register("enable_analytics", "org_settings.server_settings");
    reg.register("live_query_disabled", "org_settings.server_settings");
    reg.register("live_reporting_disabled", "org_settings.server_settings");
    reg.register("query_reports_disabled", "org_settings.server_settings");
    reg.register("discard_reports_data", "org_settings.server_settings");
    reg.register("query_report_cap", "org_settings.server_settings");
    reg.register("report_cap", "org_settings.server_settings");
    reg.register("scripts_disabled", "org_settings.server_settings");
    reg.register("server_url", "org_settings.server_settings");
    reg.register("discard_reports_data", "org_settings.server_settings");
    assert(reg.registrations() =~= old(reg).registrations() + registrations_org_settings_server_settings_children());
}

/// Registrations: org_settings.sso_settings children.
pub open spec fn registrations_org_settings_sso_settings_children() -> Seq<(Seq<char>, Seq<char>)> {
    seq![
        ("enable_sso"@, "org_settings.sso_settings"@),
        ("idp_name"@, "org_settings.sso_settings"@),
        ("idp_image_url"@, "org_settings.sso_settings"@),
        ("entity_id"@, "org_settings.sso_settings"@),
        ("metadata"@, "org_settings.sso_settings"@),
        ("metadata_url"@, "org_settings.sso_settings"@),
        ("enable_jit_provisioning"@, "org_settings.sso_settings"@),
        ("enable_jit_role_sync"@, "org_settings.sso_settings"@),
        ("enable_sso_idp_login"@, "org_settings.sso_settings"@),
        ("issuer_uri"@, "org_settings.sso_settings"@),
        ("sso_server_url"@, "org_settings.sso_settings"@),
    ]
}

/// Registers: org_settings.sso_settings children.
fn register_org_settings_sso_settings_children(reg: &mut KeyRegistry)
    requires
        old(reg).wf(),
    ensures
        final(reg).wf(),
        final(reg).registrations() == old(reg).registrations() + registrations_org_settings_sso_settings_children(),
{
    reg.register("enable_sso", "org_settings.sso_settings");
    reg.register("idp_name", "org_settings.sso_settings");
    reg.register("idp_image_url", "org_settings.sso_settings");
    reg.register("entity_id", "org_settings.sso_settings");
    reg.register("metadata", "org_settings.sso_settings");
    reg.register("metadata_url", "org_settings.sso_settings");
    reg.register("enable_jit_provisioning", "org_settings.sso_settings");
    reg.register("enable_jit_role_sync", "org_settings.sso_settings");
    reg.register("enable_sso_idp_login", "org_settings.sso_settings");
    reg.register("issuer_uri", "org_settings.sso_settings");
    reg.register("sso_server_url", "org_settings.sso_settings");
    assert(reg.registrations() =~= old(reg).registrations() + registrations_org_settings_sso_settings_children());
}

/// Registrations: org_settings.vulnerability_settings children.
pub open spec fn registrations_org_settings_vulnerability_settings_children() -> Seq<(Seq<char>, Seq<char>)> {
    seq![
        ("vulnerability_settings"@, "org_settings"@),
        ("databases_path"@, "org_settings.vulnerability_settings"@),
        ("periodicity"@, "org_settings.vulnerability_settings"@),
        ("cpe_database_url"@, "org_settings.vulnerability_settings"@),
        ("cpe_translations_url"@, "org_settings.vulnerability_settings"@),
        ("cve_feed_prefix_url"@, "org_settings.vulnerability_settings"@),
        ("disable_data_sync"@, "org_settings.vulnerability_settings"@),
        ("disable_win_os_vulnerabilities"@, "org_settings.vulnerability_settings"@),
        ("recent_vulnerability_max_age"@, "org_settings.vulnerability_settings"@),
    ]
}

/// Registers: org_settings.vulnerability_settings children.
fn register_org_settings_vulnerability_settings_children(reg: &mut KeyRegistry)
    requires
        old(reg).wf(),
    ensures
        final(reg).wf(),
        final(reg).registrations() == old(reg).registrations() + registrations_org_settings_vulnerability_settings_children(),
{
    reg.register("vulnerability_settings", "org_settings");
    reg.register("databases_path", "org_settings.vulnerability_settings");
    reg.register("periodicity", "org_settings.vulnerability_settings");
    reg.register("cpe_database_url", "org_settings.vulnerability_settings");
    reg.register("cpe_translations_url", "org_settings.vulnerability_settings");
    reg.register("cve_feed_prefix_url", "org_settings.vulnerability_settings");
    reg.register("disable_data_sync", "org_settings.vulnerability_settings");
    reg.register("disable_win_os_vulnerabilities", "org_settings.vulnerability_settings");
    reg.register("recent_vulnerability_max_age", "org_settings.vulnerability_settings");
    assert(reg.registrations() =~= old(reg).registrations() + registrations_org_settings_vulnerability_settings_children());
}

/// Registrations: org_settings.activity_expiry_settings children.
pub open spec fn registrations_org_settings_activity_expiry_settings_children() -> Seq<(Seq<char>, Seq<char>)> {
    seq![
        ("activity_expiry_settings"@, "org_settings"@),
        ("activity_expiry_enabled"@, "org_settings.activity_expiry_settings"@),
        ("activity_expiry_window"@, "org_settings.activity_expiry_settings"@),
    ]
}

/// Registers: org_settings.activity_expiry_settings children.
fn register_org_settings_activity_expiry_settings_children(reg: &mut KeyRegistry)
    requires
        old(reg).wf(),
    ensures
        final(reg).wf(),
        final(reg).registrations() == old(reg).registrations() + registrations_org_settings_activity_expiry_settings_children(),
{
    reg.register("activity_expiry_settings", "org_settings");
    reg.register("activity_expiry_enabled", "org_settings.activity_expiry_settings");
    reg.register("activity_expiry_window", "org_settings.activity_expiry_settings");
    assert(reg.registrations() =~= old(reg).registrations() + registrations_org_settings_activity_expiry_settings_children());
}

/// Registrations: org_settings.webhook_settings children.
pub open spec fn registrations_org_settings_webhook_settings_children() -> Seq<(Seq<char>, Seq<char>)> {
    seq![
        ("webhook_settings"@, "org_settings"@),
        ("activities_webhook"@, "org_settings.webhook_settings"@),
        ("failing_policies_webhook"@, "org_settings.webhook_settings"@),
        ("host_status_webhook"@, "org_settings.webhook_settings"@),
        ("vulnerabilities_webhook"@, "org_settings.webhook_settings"@),
        ("interval"@, "org_settings.webhook_settings"@),
    ]
}

/// Registers: org_settings.webhook_settings children.
fn register_org_settings_webhook_settings_children(reg: &mut KeyRegistry)
    requires
        old(reg).wf(),
    ensures
        final(reg).wf(),
        final(reg).registrations() == old(reg).registrations() + registrations_org_settings_webhook_settings_children(),
{
    reg.register("webhook_settings", "org_settings");
    reg.register("activities_webhook", "org_settings.webhook_settings");
    reg.register("failing_policies_webhook", "org_settings.webhook_settings");
    reg.register("host_status_webhook", "org_settings.webhook_settings");
    reg.register("vulnerabilities_webhook", "org_settings.webhook_settings");
    reg.register("interval", "org_settings.webhook_settings");
    assert(reg.registrations() =~= old(reg).registrations() + registrations_org_settings_webhook_settings_children());
}

/// Registrations: org_settings.mdm.
pub open spec fn registrations_org_settings_mdm() -> Seq<(Seq<char>, Seq<char>)> {
    seq![
        ("mdm"@, "org_settings"@),
        ("smtp_settings"@, "org_settings"@),
        ("yara_rules"@, "org_settings"@),
    ]
}

/// Registers: org_settings.mdm.
fn register_org_settings_mdm(reg: &mut KeyRegistry)
    requires
        old(reg).wf(),
    ensures
        final(reg).wf(),
        final(reg).registrations() == old(reg).registrations() + registrations_org_settings_mdm(),
{
    reg.register("mdm", "org_settings");
    reg.register("smtp_settings", "org_settings");
    reg.register("yara_rules", "org_settings");
    assert(reg.registrations() =~= old(reg).registrations() + registrations_org_settings_mdm());
}

/// Registrations: org_settings.gitops children.
pub open spec fn registrations_org_settings_gitops_children() -> Seq<(Seq<char>, Seq<char>)> {
    seq![
        ("gitops_mode_enabled"@, "org_settings.gitops"@),
        ("repository_url"@, "org_settings.gitops"@),
    ]
}

/// Registers: org_settings.gitops children.
fn register_org_settings_gitops_children(reg: &mut KeyRegistry)
    requires
        old(reg).wf(),
    ensures
        final(reg).wf(),
        final(reg).registrations() == old(reg).registrations() + registrations_org_settings_gitops_children(),
{
    reg.register("gitops_mode_enabled", "org_settings.gitops");
    reg.register("repository_url", "org_settings.gitops");
    assert(reg.registrations() =~= old(reg).registrations() + registrations_org_settings_gitops_children());
}

/// Registrations: team_settings children.
pub open spec fn registrations_team_settings_children() -> Seq<(Seq<char>, Seq<char>)> {
    seq![
        ("features"@, "team_settings"@),
        ("host_expiry_settings"@, "team_settings"@),
        ("secrets"@, "team_settings"@),
        ("integrations"@, "team_settings"@),
        ("webhook_settings"@, "team_settings"@),
    ]
}

/// Registers: team_settings children.
fn register_team_settings_children(reg: &mut KeyRegistry)
    requires
        old(reg).wf(),
    ensures
        final(reg).wf(),
        final(reg).registrations() == old(reg).registrations() + registrations_team_settings_children(),
{
    reg.register("features", "team_settings");
    reg.register("host_expiry_settings", "team_settings");
    reg.register("secrets", "team_settings");
    reg.register("integrations", "team_settings");
    reg.register("webhook_settings", "team_settings");
    assert(reg.registrations() =~= old(reg).registrations() + registrations_team_settings_children());
}

/// Registrations: settings children (alias for team_settings).
pub open spec fn registrations_settings_children() -> Seq<(Seq<char>, Seq<char>)> {
    seq![
        ("features"@, "settings"@),
        ("host_expiry_settings"@, "settings"@),
        ("secrets"@, "settings"@),
        ("integrations"@, "settings"@),
        ("webhook_settings"@, "settings"@),
    ]
}

/// Registers: settings children (alias for team_settings).
fn register_settings_children(reg: &mut KeyRegistry)
    requires
        old(reg).wf(),
    ensures
        final(reg).wf(),
        final(reg).registrations() == old(reg).registrations() + registrations_settings_children(),
{
    reg.register("features", "settings");
    reg.register("host_expiry_settings", "settings");
    reg.register("secrets", "settings");
    reg.register("integrations", "settings");
    reg.register("webhook_settings", "settings");
    assert(reg.registrations() =~= old(reg).registrations() + registrations_settings_children());
}

/// Registrations: reports fields (alias for queries).
pub open spec fn registrations_reports_fields() -> Seq<(Seq<char>, Seq<char>)> {
    seq![
        ("name"@, "reports[]"@),
        ("description"@, "reports[]"@),
        ("query"@, "reports[]"@),
        ("platform"@, "reports[]"@),
        ("interval"@, "reports[]"@),
        ("logging"@, "reports[]"@),
        ("min_osquery_version"@, "reports[]"@),
        ("observer_can_run"@, "reports[]"@),
        ("automations_enabled"@, "reports[]"@),
        ("discard_data"@, "reports[]"@),
        ("labels_include_any"@, "reports[]"@),
        ("labels_include_all"@, "reports[]"@),
        ("labels_exclude_any"@, "reports[]"@),
        ("path"@, "reports[]"@),
        ("paths"@, "reports[]"@),
    ]
}

/// Registers: reports fields (alias for queries).
fn register_reports_fields(reg: &mut KeyRegistry)
    requires
        old(reg).wf(),
    ensures
        final(reg).wf(),
        final(reg).registrations() == old(reg).registrations() + registrations_reports_fields(),
{
    reg.register("name", "reports[]");
    reg.register("description", "reports[]");
    reg.register("query", "reports[]");
    reg.register("platform", "reports[]");
    reg.register("interval", "reports[]");
    reg.register("logging", "reports[]");
    reg.register("min_osquery_version", "reports[]");
    reg.register("observer_can_run", "reports[]");
    reg.register("automations_enabled", "reports[]");
    reg.register("discard_data", "reports[]");
    reg.register("labels_include_any", "reports[]");
    reg.register("labels_include_all", "reports[]");
    reg.register("labels_exclude_any", "reports[]");
    reg.register("path", "reports[]");
    reg.register("paths", "reports[]");
    assert(reg.registrations() =~= old(reg).registrations() + registrations_reports_fields());
}

/// Registrations: agent_options path reference.
pub open spec fn registrations_agent_options_path_reference() -> Seq<(Seq<char>, Seq<char>)> {
    seq![
        ("path"@, "agent_options"@),
    ]
}

/// Registers: agent_options path reference.
fn register_agent_options_path_reference(reg: &mut KeyRegistry)
    requires
        old(reg).wf(),
    ensures
        final(reg).wf(),
        final(reg).registrations() == old(reg).registrations() + registrations_agent_options_path_reference(),
{
    reg.register("path", "agent_options");
    assert(reg.registrations() =~= old(reg).registrations() + registrations_agent_options_path_reference());
}

/// Registrations: integrations children (under org_settings.integrations or team_settings.integrations).
pub open spec fn registrations_integrations_children() -> Seq<(Seq<char>, Seq<char>)> {
    seq![
        ("conditional_access_enabled"@, "org_settings.integrations"@),
        ("google_calendar"@, "org_settings.integrations"@),
        ("jira"@, "org_settings.integrations"@),
        ("zendesk"@, "org_settings.integrations"@),
    ]
}

/// Registers: integrations children (under org_settings.integrations or team_settings.integrations).
fn register_integrations_children(reg: &mut KeyRegistry)
    requires
        old(reg).wf(),
    ensures
        final(reg).wf(),
        final(reg).registrations() == old(reg).registrations() + registrations_integrations_children(),
{
    reg.register("conditional_access_enabled", "org_settings.integrations");
    reg.register("google_calendar", "org_settings.integrations");
    reg.register("jira", "org_settings.integrations");
    reg.register("zendesk", "org_settings.integrations");
    assert(reg.registrations() =~= old(reg).registrations() + registrations_integrations_children());
}

/// Registrations: Policy fields.
pub open spec fn registrations_policy_fields() -> Seq<(Seq<char>, Seq<char>)> {
    seq![
        ("name"@, "policies[]"@),
        ("description"@, "policies[]"@),
        ("resolution"@, "policies[]"@),
        ("query"@, "policies[]"@),
        ("platform"@, "policies[]"@),
        ("critical"@, "policies[]"@),
        ("calendar_events_enabled"@, "policies[]"@),
        ("conditional_access_enabled"@, "policies[]"@),
        ("conditional_access_bypass_enabled"@, "policies[]"@),
        ("software_title_id"@, "policies[]"@),
        ("script_id"@, "policies[]"@),
        ("labels_include_any"@, "policies[]"@),
        ("labels_include_all"@, "policies[]"@),
        ("labels_exclude_any"@, "policies[]"@),
        ("run_script"@, "policies[]"@),
        ("install_software"@, "policies[]"@),
        ("type"@, "policies[]"@),
        ("fleet_maintained_app_slug"@, "policies[]"@),
        ("version"@, "policies[]"@),
        ("path"@, "policies[]"@),
        ("paths"@, "policies[]"@),
    ]
}

/// Registers: Policy fields.
fn register_policy_fields(reg: &mut KeyRegistry)
    requires
        old(reg).wf(),
    ensures
        final(reg).wf(),
        final(reg).registrations() == old(reg).registrations() + registrations_policy_fields(),
{
    reg.register("name", "policies[]");
    reg.register("description", "policies[]");
    reg.register("resolution", "policies[]");
    reg.register("query", "policies[]");
    reg.register("platform", "policies[]");
    reg.register("critical", "policies[]");
    reg.register("calendar_events_enabled", "policies[]");
    reg.register("conditional_access_enabled", "policies[]");
    reg.register("conditional_access_bypass_enabled", "policies[]");
    reg.register("software_title_id", "policies[]");
    reg.register("script_id", "policies[]");
    reg.register("labels_include_any", "policies[]");
    reg.register("labels_include_all", "policies[]");
    reg.register("labels_exclude_any", "policies[]");
    reg.register("run_script", "policies[]");
    reg.register("install_software", "policies[]");
    reg.register("type", "policies[]");
    reg.register("fleet_maintained_app_slug", "policies[]");
    reg.register("version", "policies[]");
    reg.register("path", "policies[]");
    reg.register("paths", "policies[]");
    assert(reg.registrations() =~= old(reg).registrations() + registrations_policy_fields());
}

/// Registrations: Query fields.
pub open spec fn registrations_query_fields() -> Seq<(Seq<char>, Seq<char>)> {
    seq![
        ("name"@, "queries[]"@),
        ("description"@, "queries[]"@),
        ("query"@, "queries[]"@),
        ("platform"@, "queries[]"@),
        ("interval"@, "queries[]"@),
        ("logging"@, "queries[]"@),
        ("min_osquery_version"@, "queries[]"@),
        ("observer_can_run"@, "queries[]"@),
        ("automations_enabled"@, "queries[]"@),
        ("discard_data"@, "queries[]"@),
        ("labels_include_any"@, "queries[]"@),
        ("labels_include_all"@, "queries[]"@),
        ("labels_exclude_any"@, "queries[]"@),
        ("path"@, "queries[]"@),
        ("paths"@, "queries[]"@),
    ]
}

/// Registers: Query fields.
fn register_query_fields(reg: &mut KeyRegistry)
    requires
        old(reg).wf(),
    ensures
        final(reg).wf(),
        final(reg).registrations() == old(reg).registrations() + registrations_query_fields(),
{
    reg.register("name", "queries[]");
    reg.register("description", "queries[]");
    reg.register("query", "queries[]");
    reg.register("platform", "queries[]");
    reg.register("interval", "queries[]");
    reg.register("logging", "queries[]");
    reg.register("min_osquery_version", "queries[]");
    reg.register("observer_can_run", "queries[]");
    reg.register("automations_enabled", "queries[]");
    reg.register("discard_data", "queries[]");
    reg.register("labels_include_any", "queries[]");
    reg.register("labels_include_all", "queries[]");
    reg.register("labels_exclude_any", "queries[]");
    reg.register("path", "queries[]");
    reg.register("paths", "queries[]");
    assert(reg.registrations() =~= old(reg).registrations() + registrations_query_fields());
}

/// Registrations: Label fields.
pub open spec fn registrations_label_fields() -> Seq<(Seq<char>, Seq<char>)> {
    seq![
        ("name"@, "labels[]"@),
        ("description"@, "labels[]"@),
        ("platform"@, "labels[]"@),
        ("label_membership_type"@, "labels[]"@),
        ("query"@, "labels[]"@),
        ("hosts"@, "labels[]"@),
        ("host_ids"@, "labels[]"@),
        ("criteria"@, "labels[]"@),
        ("host_vitals"@, "labels[]"@),
        ("path"@, "labels[]"@),
        ("paths"@, "labels[]"@),
    ]
}

/// Registers: Label fields.
fn register_label_fields(reg: &mut KeyRegistry)
    requires
        old(reg).wf(),
    ensures
        final(reg).wf(),
        final(reg).registrations() == old(reg).registrations() + registrations_label_fields(),
{
    reg.register("name", "labels[]");
    reg.register("description", "labels[]");
    reg.register("platform", "labels[]");
    reg.register("label_membership_type", "labels[]");
    reg.register("query", "labels[]");
    reg.register("hosts", "labels[]");
    reg.register("host_ids", "labels[]");
    reg.register("criteria", "labels[]");
    reg.register("host_vitals", "labels[]");
    reg.register("path", "labels[]");
    reg.register("paths", "labels[]");
    assert(reg.registrations() =~= old(reg).registrations() + registrations_label_fields());
}

/// Registrations: Script targeting fields (used in controls.scripts[], custom_settings[]).
pub open spec fn registrations_script_targeting_fields() -> Seq<(Seq<char>, Seq<char>)> {
    seq![
        ("path"@, "controls.scripts[]"@),
        ("paths"@, "controls.scripts[]"@),
        ("labels_include_all"@, "controls.scripts[]"@),
        ("labels_include_any"@, "controls.scripts[]"@),
        ("labels_exclude_any"@, "controls.scripts[]"@),
    ]
}

/// Registers: Script targeting fields (used in controls.scripts[], custom_settings[]).
fn register_script_targeting_fields(reg: &mut KeyRegistry)
    requires
        old(reg).wf(),
    ensures
        final(reg).wf(),
        final(reg).registrations() == old(reg).registrations() + registrations_script_targeting_fields(),
{
    reg.register("path", "controls.scripts[]");
    reg.register("paths", "controls.scripts[]");
    reg.register("labels_include_all", "controls.scripts[]");
    reg.register("labels_include_any", "controls.scripts[]");
    reg.register("labels_exclude_any", "controls.scripts[]");
    assert(reg.registrations() =~= old(reg).registrations() + registrations_script_targeting_fields());
}

/// Registrations: software children.
pub open spec fn registrations_software_children() -> Seq<(Seq<char>, Seq<char>)> {
    seq![
        ("packages"@, "software"@),
        ("app_store_apps"@, "software"@),
        ("fleet_maintained_apps"@, "software"@),
    ]
}

/// Registers: software children.
fn register_software_children(reg: &mut KeyRegistry)
    requires
        old(reg).wf(),
    ensures
        final(reg).wf(),
        final(reg).registrations() == old(reg).registrations() + registrations_software_children(),
{
    reg.register("packages", "software");
    reg.register("app_store_apps", "software");
    reg.register("fleet_maintained_apps", "software");
    assert(reg.registrations() =~= old(reg).registrations() + registrations_software_children());
}

/// Registrations: software.packages[] fields.
pub open spec fn registrations_software_packages_fields() -> Seq<(Seq<char>, Seq<char>)> {
    seq![
        ("path"@, "software.packages[]"@),
        ("url"@, "software.packages[]"@),
        ("hash_sha256"@, "software.packages[]"@),
        ("display_name"@, "software.packages[]"@),
        ("self_service"@, "software.packages[]"@),
        ("setup_experience"@, "software.packages[]"@),
        ("categories"@, "software.packages[]"@),
        ("labels_include_any"@, "software.packages[]"@),
        ("labels_exclude_any"@, "software.packages[]"@),
        ("labels_include_all"@, "software.packages[]"@),
        ("pre_install_query"@, "software.packages[]"@),
        ("install_script"@, "software.packages[]"@),
        ("uninstall_script"@, "software.packages[]"@),
        ("post_install_script"@, "software.packages[]"@),
        ("icon"@, "software.packages[]"@),
    ]
}

/// Registers: software.packages[] fields.
fn register_software_packages_fields(reg: &mut KeyRegistry)
    requires
        old(reg).wf(),
    ensures
        final(reg).wf(),
        final(reg).registrations() == old(reg).registrations() + registrations_software_packages_fields(),
{
    reg.register("path", "software.packages[]");
    reg.register("url", "software.packages[]");
    reg.register("hash_sha256", "software.packages[]");
    reg.register("display_name", "software.packages[]");
    reg.register("self_service", "software.packages[]");
    reg.register("setup_experience", "software.packages[]");
    reg.register("categories", "software.packages[]");
    reg.register("labels_include_any", "software.packages[]");
    reg.register("labels_exclude_any", "software.packages[]");
    reg.register("labels_include_all", "software.packages[]");
    reg.register("pre_install_query", "software.packages[]");
    reg.register("install_script", "software.packages[]");
    reg.register("uninstall_script", "software.packages[]");
    reg.register("post_install_script", "software.packages[]");
    reg.register("icon", "software.packages[]");
    assert(reg.registrations() =~= old(reg).registrations() + registrations_software_packages_fields());
}

/// Registrations: software.app_store_apps[] fields.
pub open spec fn registrations_software_app_store_apps_fields() -> Seq<(Seq<char>, Seq<char>)> {
    seq![
        ("app_store_id"@, "software.app_store_apps[]"@),
        ("platform"@, "software.app_store_apps[]"@),
        ("display_name"@, "software.app_store_apps[]"@),
        ("self_service"@, "software.app_store_apps[]"@),
        ("setup_experience"@, "software.app_store_apps[]"@),
        ("categories"@, "software.app_store_apps[]"@),
        ("labels_include_any"@, "software.app_store_apps[]"@),
        ("labels_exclude_any"@, "software.app_store_apps[]"@),
        ("labels_include_all"@, "software.app_store_apps[]"@),
        ("icon"@, "software.app_store_apps[]"@),
        ("configuration"@, "software.app_store_apps[]"@),
        ("auto_update_enabled"@, "software.app_store_apps[]"@),
        ("auto_update_window_start"@, "software.app_store_apps[]"@),
        ("auto_update_window_end"@, "software.app_store_apps[]"@),
    ]
}

/// Registers: software.app_store_apps[] fields.
fn register_software_app_store_apps_fields(reg: &mut KeyRegistry)
    requires
        old(reg).wf(),
    ensures
        final(reg).wf(),
        final(reg).registrations() == old(reg).registrations() + registrations_software_app_store_apps_fields(),
{
    reg.register("app_store_id", "software.app_store_apps[]");
    reg.register("platform", "software.app_store_apps[]");
    reg.register("display_name", "software.app_store_apps[]");
    reg.register("self_service", "software.app_store_apps[]");
    reg.register("setup_experience", "software.app_store_apps[]");
    reg.register("categories", "software.app_store_apps[]");
    reg.register("labels_include_any", "software.app_store_apps[]");
    reg.register("labels_exclude_any", "software.app_store_apps[]");
    reg.register("labels_include_all", "software.app_store_apps[]");
    reg.register("icon", "software.app_store_apps[]");
    reg.register("configuration", "software.app_store_apps[]");
    reg.register("auto_update_enabled", "software.app_store_apps[]");
    reg.register("auto_update_window_start", "software.app_store_apps[]");
    reg.register("auto_update_window_end", "software.app_store_apps[]");
    assert(reg.registrations() =~= old(reg).registrations() + registrations_software_app_store_apps_fields());
}

/// Registrations: software.fleet_maintained_apps[] fields.
pub open spec fn registrations_software_fleet_maintained_apps_fields() -> Seq<(Seq<char>, Seq<char>)> {
    seq![
        ("slug"@, "software.fleet_maintained_apps[]"@),
        ("version"@, "software.fleet_maintained_apps[]"@),
        ("display_name"@, "software.fleet_maintained_apps[]"@),
        ("self_service"@, "software.fleet_maintained_apps[]"@),
        ("setup_experience"@, "software.fleet_maintained_apps[]"@),
        ("categories"@, "software.fleet_maintained_apps[]"@),
        ("labels_include_any"@, "software.fleet_maintained_apps[]"@),
        ("labels_exclude_any"@, "software.fleet_maintained_apps[]"@),
        ("labels_include_all"@, "software.fleet_maintained_apps[]"@),
        ("pre_install_query"@, "software.fleet_maintained_apps[]"@),
        ("install_script"@, "software.fleet_maintained_apps[]"@),
        ("uninstall_script"@, "software.fleet_maintained_apps[]"@),
        ("post_install_script"@, "software.fleet_maintained_apps[]"@),
        ("icon"@, "software.fleet_maintained_apps[]"@),
    ]
}

/// Registers: software.fleet_maintained_apps[] fields.
fn register_software_fleet_maintained_apps_fields(reg: &mut KeyRegistry)
    requires
        old(reg).wf(),
    ensures
        final(reg).wf(),
        final(reg).registrations() == old(reg).registrations() + registrations_software_fleet_maintained_apps_fields(),
{
    reg.register("slug", "software.fleet_maintained_apps[]");
    reg.register("version", "software.fleet_maintained_apps[]");
    reg.register("display_name", "software.fleet_maintained_apps[]");
    reg.register("self_service", "software.fleet_maintained_apps[]");
    reg.register("setup_experience", "software.fleet_maintained_apps[]");
    reg.register("categories", "software.fleet_maintained_apps[]");
    reg.register("labels_include_any", "software.fleet_maintained_apps[]");
    reg.register("labels_exclude_any", "software.fleet_maintained_apps[]");
    reg.register("labels_include_all", "software.fleet_maintained_apps[]");
    reg.register("pre_install_query", "software.fleet_maintained_apps[]");
    reg.register("install_script", "software.fleet_maintained_apps[]");
    reg.register("uninstall_script", "software.fleet_maintained_apps[]");
    reg.register("post_install_script", "software.fleet_maintained_apps[]");
    reg.register("icon", "software.fleet_maintained_apps[]");
    assert(reg.registrations() =~= old(reg).registrations() + registrations_software_fleet_maintained_apps_fields());
}

/// Every registration of the key registry, in order.
pub open spec fn registrations_all() -> Seq<(Seq<char>, Seq<char>)> {
    registrations_top_level_keys() + registrations_controls_children() + registrations_controls_macos_settings() + registrations_controls_android_settings_children() + registrations_controls_android_settings_certificates_fields() + registrations_controls_macos_updates() + registrations_controls_windows_updates_children() + registrations_controls_macos_setup() + registrations_controls_macos_migration_children() + registrations_org_settings_children() + registrations_org_settings_features_children() + registrations_org_settings_fleet_desktop_children() + registrations_org_settings_host_expiry_settings_children() + registrations_org_settings_org_info_children() + registrations_org_settings_server_settings_children() + registrations_org_settings_sso_settings_children() + registrations_org_settings_vulnerability_settings_children() + registrations_org_settings_activity_expiry_settings_children() + registrations_org_settings_webhook_settings_children() + registrations_org_settings_mdm() + registrations_org_settings_gitops_children() + registrations_team_settings_children() + registrations_settings_children() + registrations_reports_fields() + registrations_agent_options_path_reference() + registrations_integrations_children() + registrations_policy_fields() + registrations_query_fields() + registrations_label_fields() + registrations_script_targeting_fields() + registrations_software_children() + registrations_software_packages_fields() + registrations_software_app_store_apps_fields() + registrations_software_fleet_maintained_apps_fields()
}

/// The registry of every known key and the paths where it is valid.
pub fn key_registry() -> (r: KeyRegistry)
    ensures
        r.wf(),
        r.registrations() == registrations_all(),
{
    let mut reg = KeyRegistry::new();
    register_top_level_keys(&mut reg);
    register_controls_children(&mut reg);
    register_controls_macos_settings(&mut reg);
    register_controls_android_settings_children(&mut reg);
    register_controls_android_settings_certificates_fields(&mut reg);
    register_controls_macos_updates(&mut reg);
    register_controls_windows_updates_children(&mut reg);
    register_controls_macos_setup(&mut reg);
    register_controls_macos_migration_children(&mut reg);
    register_org_settings_children(&mut reg);
    register_org_settings_features_children(&mut reg);
    register_org_settings_fleet_desktop_children(&mut reg);
    register_org_settings_host_expiry_settings_children(&mut reg);
    register_org_settings_org_info_children(&mut reg);
    register_org_settings_server_settings_children(&mut reg);
    register_org_settings_sso_settings_children(&mut reg);
    register_org_settings_vulnerability_settings_children(&mut reg);
    register_org_settings_activity_expiry_settings_children(&mut reg);
    register_org_settings_webhook_settings_children(&mut reg);
    register_org_settings_mdm(&mut reg);
    register_org_settings_gitops_children(&mut reg);
    register_team_settings_children(&mut reg);
    register_settings_children(&mut reg);
    register_reports_fields(&mut reg);
    register_agent_options_path_reference(&mut reg);
    register_integrations_children(&mut reg);
    register_policy_fields(&mut reg);
    register_query_fields(&mut reg);
    register_label_fields(&mut reg);
    register_script_targeting_fields(&mut reg);
    register_software_children(&mut reg);
    register_software_packages_fields(&mut reg);
    register_software_app_store_apps_fields(&mut reg);
    register_software_fleet_maintained_apps_fields(&mut reg);
    assert(reg.registrations() =~= registrations_all());
    reg
}

/// The shape of the schema used for a file at `path`.
pub open spec fn schema_shape_for_path(path: Seq<char>) -> Schema {
    if text::contains(path, "fleets/"@) || text::contains(path, "fleets\\"@) || text::contains(
        path,
        "teams/"@,
    ) || text::contains(path, "teams\\"@) {
        fleet_schema_shape()
    } else if text::contains(path, "policies"@) {
        policy_schema_shape()
    } else if text::contains(path, "queries"@) || text::contains(path, "reports"@) {
        query_schema_shape()
    } else if text::contains(path, "labels"@) {
        label_schema_shape()
    } else {
        default_schema_shape()
    }
}

/// The schema for a file, chosen by its path: fleet (and legacy team)
/// files, policy, query/report and label libraries, and `default.yml` for
/// anything else.
pub fn schema_for_path(path: &str) -> (r: SchemaNode)
    ensures
        r.shape() == schema_shape_for_path(path@),
{
    let p = text::chars_of(path);
    if text::contains_str(&p, "fleets/") || text::contains_str(&p, "fleets\\")
        || text::contains_str(&p, "teams/") || text::contains_str(&p, "teams\\") {
        return fleet_schema();
    }
    if text::contains_str(&p, "policies") {
        return policy_schema();
    }
    if text::contains_str(&p, "queries") || text::contains_str(&p, "reports") {
        return query_schema();
    }
    if text::contains_str(&p, "labels") {
        return label_schema();
    }
    default_schema()
}


} // verus!
