//! Structural validation: walks the YAML tree alongside the schema tree and
//! reports unknown keys (with typo suggestions), misplaced keys and missing
//! wrappers, and non-boolean values where a boolean is expected.
use vstd::prelude::*;

use crate::text;
use crate::diag::{diag, diags, extend_diags, mk, push_diag, s_of, Diag, FixSafety, LintError, Severity};
use crate::rules::{join3, join5, join_with};
use crate::structure::{
    is_registered, lemma_key_order_contains, lemma_node_lookup_shape, paths_for, shape_child,
    shape_distinct_keys, KeyRegistry, Schema, SchemaNode, schema_for_path, schema_shape_for_path, key_registry,
    registrations_all,
};
use crate::fleet_config::FleetConfig;
use crate::rules::Rule;
use crate::yaml::{
    parse_yaml, yaml_parse, as_str, as_str_exec, debug_text, is_bool, is_bool_exec, tags_nonempty, tags_nonempty_exec, yaml_debug,
    YamlValue,
};
use crate::text::{chars_of, concat, lines};

verus! {

broadcast use vstd::string::group_string_axioms;

// ---------------------------------------------------------------------------
// Edit distance
// ---------------------------------------------------------------------------

/// The least number of single-character insertions, deletions and
/// substitutions that turn `a` into `b`.
pub open spec fn edit_distance(a: Seq<char>, b: Seq<char>) -> nat
    decreases a.len() + b.len(),
{
    if a.len() == 0 {
        b.len()
    } else if b.len() == 0 {
        a.len()
    } else {
        let cost: nat = if a.last() == b.last() {
            0
        } else {
            1
        };
        min3(
            edit_distance(a.drop_last(), b) + 1,
            edit_distance(a, b.drop_last()) + 1,
            edit_distance(a.drop_last(), b.drop_last()) + cost,
        )
    }
}

/// The least of three numbers.
pub open spec fn min3(x: nat, y: nat, z: nat) -> nat {
    let m = if x <= y {
        x
    } else {
        y
    };
    if m <= z {
        m
    } else {
        z
    }
}

/// The edit distance of a text to itself is zero.
pub proof fn law_edit_distance_identity(a: Seq<char>)
    ensures
        edit_distance(a, a) == 0,
    decreases a.len(),
{
    if a.len() > 0 {
        law_edit_distance_identity(a.drop_last());
    }
}

/// The edit distance does not depend on the order of its arguments.
pub proof fn law_edit_distance_symmetric(a: Seq<char>, b: Seq<char>)
    ensures
        edit_distance(a, b) == edit_distance(b, a),
    decreases a.len() + b.len(),
{
    if a.len() > 0 && b.len() > 0 {
        law_edit_distance_symmetric(a.drop_last(), b);
        law_edit_distance_symmetric(a, b.drop_last());
        law_edit_distance_symmetric(a.drop_last(), b.drop_last());
    }
}

/// The edit distance is at most the length of the longer text.
pub proof fn law_edit_distance_bounded(a: Seq<char>, b: Seq<char>)
    ensures
        edit_distance(a, b) <= if a.len() >= b.len() { a.len() } else { b.len() },
    decreases a.len() + b.len(),
{
    if a.len() > 0 && b.len() > 0 {
        law_edit_distance_bounded(a.drop_last(), b.drop_last());
    }
}

/// What `levenshtein_distance` returns: the edit distance.
pub open spec fn levenshtein(a: Seq<char>, b: Seq<char>) -> nat {
    edit_distance(a, b)
}

/// The edit distance of `a` and `b` (counted in characters), computed row
/// by row.
pub fn levenshtein_distance(a: &str, b: &str) -> (r: usize)
    requires
        text::source_fits(a@),
        text::source_fits(b@),
    ensures
        r == levenshtein(a@, b@),
{
    let ac = chars_of(a);
    let bc = chars_of(b);
    proof {
        text::lemma_byte_len_ge_len(a@);
        text::lemma_byte_len_ge_len(b@);
    }
    let nb = bc.len();
    let na = ac.len();
    if na == 0 {
        return nb;
    }
    if nb == 0 {
        return na;
    }
    let mut prev: Vec<usize> = Vec::new();
    let mut curr: Vec<usize> = Vec::new();
    let mut k: usize = 0;
    assert(forall|j: int| 0 <= j <= nb ==> edit_distance(a@.take(0), #[trigger] b@.take(j)) == j) by {
        assert forall|j: int| 0 <= j <= nb implies edit_distance(a@.take(0), #[trigger] b@.take(j)) == j by {
            assert(a@.take(0).len() == 0);
        }
    }
    while k <= nb
        invariant
            k <= nb + 1,
            nb <= isize::MAX,
            prev@.len() == k,
            curr@.len() == k,
            forall|j: int| 0 <= j < k ==> prev@[j] == j,
            forall|j: int| 0 <= j < k ==> curr@[j] == 0,
        decreases nb + 1 - k,
    {
        prev.push(k);
        curr.push(0);
        k += 1;
    }
    let mut i: usize = 0;
    while i < na
        invariant
            na == a@.len(),
            nb == b@.len(),
            ac@ == a@,
            bc@ == b@,
            nb <= isize::MAX,
            na <= isize::MAX,
            i <= na,
            prev@.len() == nb + 1,
            curr@.len() == nb + 1,
            forall|j: int| 0 <= j <= nb ==> prev@[j] == edit_distance(a@.take(i as int), b@.take(j)),
            forall|j: int| 0 <= j <= nb ==> prev@[j] <= j + i,
        decreases na - i,
    {
        let ca = ac[i];
        curr.set(0, i + 1);
        assert(a@.take(i + 1).drop_last() =~= a@.take(i as int));
        assert(a@.take(i + 1).last() == ca);
        let mut j: usize = 0;
        while j < nb
            invariant
                na == a@.len(),
                nb == b@.len(),
                bc@ == b@,
                nb <= isize::MAX,
                na <= isize::MAX,
                i < na,
                ca == a@[i as int],
                j <= nb,
                prev@.len() == nb + 1,
                curr@.len() == nb + 1,
                a@.take(i + 1).drop_last() == a@.take(i as int),
                a@.take(i + 1).last() == ca,
                forall|m: int| 0 <= m <= nb ==> prev@[m] == edit_distance(a@.take(i as int), b@.take(m)),
                forall|m: int| 0 <= m <= nb ==> prev@[m] <= m + i,
                forall|m: int| 0 <= m <= j ==> curr@[m] == edit_distance(a@.take(i + 1), b@.take(m)),
                forall|m: int| 0 <= m <= j ==> curr@[m] <= m + i + 1,
            decreases nb - j,
        {
            let cb = bc[j];
            let cost: usize = if ca == cb {
                0
            } else {
                1
            };
            let x = prev[j + 1] + 1;
            let y = curr[j] + 1;
            let z = prev[j] + cost;
            let m1 = if x <= y {
                x
            } else {
                y
            };
            let m2 = if m1 <= z {
                m1
            } else {
                z
            };
            proof {
                let aa = a@.take(i + 1);
                let bb = b@.take(j + 1);
                assert(bb.drop_last() =~= b@.take(j as int));
                assert(bb.last() == cb);
                assert(aa.len() > 0 && bb.len() > 0);
                assert(edit_distance(aa, bb) == min3(
                    edit_distance(aa.drop_last(), bb) + 1,
                    edit_distance(aa, bb.drop_last()) + 1,
                    edit_distance(aa.drop_last(), bb.drop_last()) + (if aa.last() == bb.last() {
                        0nat
                    } else {
                        1nat
                    }),
                ));
            }
            curr.set(j + 1, m2);
            j += 1;
        }
        proof {
            assert(a@.take(i + 1).len() == i + 1);
            assert(curr@[0] == i + 1);
            assert(b@.take(0).len() == 0);
        }
        let tmp = prev;
        prev = curr;
        curr = tmp;
        i += 1;
    }
    assert(a@.take(na as int) =~= a@);
    assert(b@.take(nb as int) =~= b@);
    prev[nb]
}

/// The largest edit distance accepted for a suggestion: half the key's
/// byte length, and at least 3.
pub open spec fn max_suggestion_distance(key: Seq<char>) -> nat {
    if 3 >= text::byte_len(key) / 2 {
        3
    } else {
        text::byte_len(key) / 2
    }
}

/// The closest candidate among the first `n` within the allowed distance:
/// the first one at the least distance.
pub open spec fn closest_key(key: Seq<char>, cands: Seq<Seq<char>>, n: int) -> Option<(int, nat)>
    decreases n,
{
    if n <= 0 {
        None
    } else {
        let best = closest_key(key, cands, n - 1);
        let d = levenshtein(key, cands[n - 1]);
        if d <= max_suggestion_distance(key) {
            match best {
                None => Some((n - 1, d)),
                Some((bi, bd)) => if d < bd {
                    Some((n - 1, d))
                } else {
                    best
                },
            }
        } else {
            best
        }
    }
}

/// The chosen candidate is one of the first `n`.
pub proof fn lemma_closest_bounds(key: Seq<char>, cands: Seq<Seq<char>>, n: int)
    ensures
        closest_key(key, cands, n) matches Some((i, _)) ==> 0 <= i < n,
    decreases n,
{
    if n > 0 {
        lemma_closest_bounds(key, cands, n - 1);
    }
}

/// The closest matching key, if any is within the allowed distance.
pub fn find_closest_key<'a>(key: &str, candidates: &[&'a str]) -> (r: Option<&'a str>)
    requires
        text::source_fits(key@),
        forall|i: int| 0 <= i < candidates@.len() ==> text::source_fits(#[trigger] candidates@[i]@),
    ensures
        match closest_key(key@, text::strs(candidates@), candidates@.len() as int) {
            Some((i, _)) => r == Some(candidates@[i]),
            None => r.is_none(),
        },
{
    let kc = chars_of(key);
    let klen = text::byte_len_exec(&kc);
    let max_dist: usize = if 3 >= klen / 2 {
        3
    } else {
        klen / 2
    };
    let ghost cs = text::strs(candidates@);
    let mut best: Option<(usize, usize)> = None;
    let mut i: usize = 0;
    while i < candidates.len()
        invariant
            i <= candidates@.len(),
            cs == text::strs(candidates@),
            max_dist == max_suggestion_distance(key@),
            forall|m: int| 0 <= m < candidates@.len() ==> text::source_fits(#[trigger] candidates@[m]@),
            text::source_fits(key@),
            match closest_key(key@, cs, i as int) {
                Some((bi, bd)) => best matches Some((x, y)) && x == bi && y == bd && 0 <= bi < i,
                None => best.is_none(),
            },
        decreases candidates.len() - i,
    {
        let d = levenshtein_distance(key, candidates[i]);
        assert(cs[i as int] == candidates@[i as int]@);
        if d <= max_dist {
            match best {
                None => {
                    best = Some((i, d));
                },
                Some((_, bd)) => {
                    if d < bd {
                        best = Some((i, d));
                    }
                },
            }
        }
        i += 1;
    }
    match best {
        Some((bi, _)) => Some(candidates[bi]),
        None => None,
    }
}

// ---------------------------------------------------------------------------
// Lexicographic order and sorting
// ---------------------------------------------------------------------------

/// `a` comes before or equals `b` in lexicographic order of code points
/// (the byte order of their UTF-8 encodings).
pub open spec fn lex_le(a: Seq<char>, b: Seq<char>) -> bool
    decreases a.len(),
{
    if a.len() == 0 {
        true
    } else if b.len() == 0 {
        false
    } else if a[0] != b[0] {
        a[0] < b[0]
    } else {
        lex_le(a.drop_first(), b.drop_first())
    }
}

/// The lexicographic order as a relation.
pub open spec fn lex_order() -> spec_fn(Seq<char>, Seq<char>) -> bool {
    |a: Seq<char>, b: Seq<char>| lex_le(a, b)
}

proof fn lemma_lex_reflexive(a: Seq<char>)
    ensures
        lex_le(a, a),
    decreases a.len(),
{
    if a.len() > 0 {
        lemma_lex_reflexive(a.drop_first());
    }
}

proof fn lemma_lex_antisymmetric(a: Seq<char>, b: Seq<char>)
    requires
        lex_le(a, b),
        lex_le(b, a),
    ensures
        a == b,
    decreases a.len(),
{
    if a.len() > 0 && b.len() > 0 {
        if a[0] == b[0] {
            lemma_lex_antisymmetric(a.drop_first(), b.drop_first());
            assert(a =~= seq![a[0]] + a.drop_first());
            assert(b =~= seq![b[0]] + b.drop_first());
        } else {
            assert(a[0] < b[0] && b[0] < a[0]);
        }
    } else {
        assert(a.len() == 0 && b.len() == 0);
        assert(a =~= b);
    }
}

proof fn lemma_lex_transitive(a: Seq<char>, b: Seq<char>, c: Seq<char>)
    requires
        lex_le(a, b),
        lex_le(b, c),
    ensures
        lex_le(a, c),
    decreases a.len(),
{
    if a.len() > 0 && b.len() > 0 && c.len() > 0 {
        if a[0] == b[0] && b[0] == c[0] {
            lemma_lex_transitive(a.drop_first(), b.drop_first(), c.drop_first());
        } else if a[0] != b[0] && b[0] != c[0] {
            assert(a[0] < b[0] && b[0] < c[0]);
            assert(a[0] != c[0]);
        }
    }
}

proof fn lemma_lex_total(a: Seq<char>, b: Seq<char>)
    ensures
        lex_le(a, b) || lex_le(b, a),
    decreases a.len(),
{
    if a.len() > 0 && b.len() > 0 && a[0] == b[0] {
        lemma_lex_total(a.drop_first(), b.drop_first());
    }
}

/// The lexicographic order is a total order.
pub proof fn lemma_lex_total_ordering()
    ensures
        vstd::relations::total_ordering(lex_order()),
{
    assert forall|a: Seq<char>| #[trigger] lex_order()(a, a) by {
        lemma_lex_reflexive(a);
    }
    assert forall|a: Seq<char>, b: Seq<char>| #[trigger] lex_order()(a, b) && #[trigger] lex_order()(b, a) implies a == b by {
        lemma_lex_antisymmetric(a, b);
    }
    assert forall|a: Seq<char>, b: Seq<char>, c: Seq<char>| #[trigger] lex_order()(a, b) && #[trigger] lex_order()(b, c) implies lex_order()(a, c) by {
        lemma_lex_transitive(a, b, c);
    }
    assert forall|a: Seq<char>, b: Seq<char>| #[trigger] lex_order()(a, b) || #[trigger] lex_order()(b, a) by {
        lemma_lex_total(a, b);
    }
}

/// Whether `a` sorts before or with `b`.
fn lex_le_exec(a: &[char], b: &[char]) -> (r: bool)
    ensures
        r == lex_le(a@, b@),
{
    let mut i: usize = 0;
    assert(a@.skip(0) =~= a@);
    assert(b@.skip(0) =~= b@);
    while i < a.len() && i < b.len() && a[i] == b[i]
        invariant
            i <= a.len(),
            i <= b.len(),
            lex_le(a@, b@) == lex_le(a@.skip(i as int), b@.skip(i as int)),
        decreases a.len() - i,
    {
        assert(a@.skip(i as int).drop_first() =~= a@.skip(i + 1));
        assert(b@.skip(i as int).drop_first() =~= b@.skip(i + 1));
        i += 1;
    }
    if i == a.len() {
        true
    } else if i == b.len() {
        false
    } else {
        a[i] < b[i]
    }
}

/// The texts sorted in lexicographic order.
fn sort_texts(v: Vec<Vec<char>>) -> (r: Vec<Vec<char>>)
    ensures
        text::vviews(r@) == text::vviews(v@).sort_by(lex_order()),
{
    proof {
        lemma_lex_total_ordering();
    }
    let ghost vv = text::vviews(v@);
    let mut out: Vec<Vec<char>> = Vec::new();
    let mut i: usize = 0;
    assert(vv.take(0) =~= Seq::<Seq<char>>::empty());
    assert(text::vviews(out@) =~= Seq::<Seq<char>>::empty());
    while i < v.len()
        invariant
            i <= v.len(),
            vv == text::vviews(v@),
            vstd::relations::total_ordering(lex_order()),
            vstd::relations::sorted_by(text::vviews(out@), lex_order()),
            text::vviews(out@).to_multiset() == vv.take(i as int).to_multiset(),
        decreases v.len() - i,
    {
        let x = v[i].clone();
        let mut p: usize = 0;
        while p < out.len() && lex_le_exec(&out[p], &x)
            invariant
                p <= out.len(),
                forall|k: int| 0 <= k < p ==> lex_le(#[trigger] out@[k]@, x@),
            decreases out.len() - p,
        {
            p += 1;
        }
        let ghost before = text::vviews(out@);
        proof {
            if p < out.len() {
                lemma_lex_total(out@[p as int]@, x@);
            }
        }
        out.insert(p, x);
        proof {
            let after = text::vviews(out@);
            assert(after =~= before.insert(p as int, x@));
            assert forall|k: int| p <= k < before.len() implies lex_le(x@, #[trigger] before[k]) by {
                assert(!lex_le(before[p as int], x@));
                if k > p {
                    assert(lex_order()(before[p as int], before[k]));
                    lemma_lex_transitive(x@, before[p as int], before[k]);
                }
            }
            assert forall|a: int, b: int| 0 <= a < b < after.len() implies #[trigger] lex_order()(after[a], after[b]) by {
                if a < p && b == p {
                    assert(lex_le(out@[a]@, x@));
                } else if a < p && b > p {
                    assert(lex_le(before[a], x@));
                    assert(lex_le(x@, before[b - 1]));
                    lemma_lex_transitive(before[a], x@, before[b - 1]);
                } else if a == p {
                    assert(lex_le(x@, before[b - 1]));
                } else if a > p {
                    assert(lex_order()(before[a - 1], before[b - 1]));
                } else {
                    assert(lex_order()(before[a], before[b]));
                }
            }
            assert(vv.take(i + 1) =~= vv.take(i as int).push(vv[i as int]));
            vstd::seq_lib::to_multiset_insert(before, p as int, x@);
            vv.take(i as int).to_multiset_ensures();
            vv.take(i + 1).to_multiset_ensures();
        }
        i += 1;
    }
    proof {
        assert(vv.take(v.len() as int) =~= vv);
        vv.lemma_sort_by_ensures(lex_order());
        vstd::seq_lib::lemma_sorted_unique(text::vviews(out@), vv.sort_by(lex_order()), lex_order());
    }
    out
}

// ---------------------------------------------------------------------------
// Source positions
// ---------------------------------------------------------------------------

/// A line that, after its indentation, starts a `key:` entry, bare or
/// quoted.
pub open spec fn is_key_line(line: Seq<char>, key: Seq<char>) -> bool {
    let t = text::trim_start(line);
    text::starts_with(t, key + ":"@) || text::starts_with(t, "\""@ + key + "\":"@) || text::starts_with(
        t,
        "'"@ + key + "':"@,
    )
}

/// The index of the first key line at index `i` or later.
pub open spec fn key_line_index(ls: Seq<Seq<char>>, key: Seq<char>, i: int) -> Option<int>
    decreases ls.len() - i,
{
    if i < 0 || i >= ls.len() {
        None
    } else if is_key_line(ls[i], key) {
        Some(i)
    } else {
        key_line_index(ls, key, i + 1)
    }
}

/// The byte offset of the first occurrence of `p` in `line`, or 0.
pub open spec fn byte_find(line: Seq<char>, p: Seq<char>) -> nat {
    match text::find(line, p) {
        Some(k) => text::byte_len(line.take(k)),
        None => 0,
    }
}

/// The 1-based line of the first entry for `key`, and the 1-based byte
/// column where the key's text first appears on it.
pub open spec fn key_position(source: Seq<char>, key: Seq<char>) -> Option<(nat, nat)> {
    let ls = lines(source);
    match key_line_index(ls, key, 0) {
        Some(i) => Some(((i + 1) as nat, byte_find(ls[i], key) + 1)),
        None => None,
    }
}

/// The 1-based line of the first entry for `key`, and the column just
/// after its colon and one space.
pub open spec fn value_position(source: Seq<char>, key: Seq<char>) -> Option<(nat, nat)> {
    let ls = lines(source);
    match key_line_index(ls, key, 0) {
        Some(i) => match text::find_char(ls[i], ':') {
            Some(c) => Some(((i + 1) as nat, text::byte_len(ls[i].take(c)) + 2)),
            None => Some(((i + 1) as nat, byte_find(ls[i], key) + 1)),
        },
        None => None,
    }
}

/// The first key line, as an index into the lines of the source.
fn key_line_exec(ls: &Vec<Vec<char>>, key: &[char]) -> (r: Option<usize>)
    ensures
        match r {
            Some(i) => key_line_index(text::vviews(ls@), key@, 0) == Some(i as int) && i < ls.len(),
            None => key_line_index(text::vviews(ls@), key@, 0).is_none(),
        },
{
    let ghost lv = text::vviews(ls@);
    let p1 = concat(key, &chars_of(":"));
    let p2 = concat(&concat(&chars_of("\""), key), &chars_of("\":"));
    let p3 = concat(&concat(&chars_of("'"), key), &chars_of("':"));
    let mut i: usize = 0;
    while i < ls.len()
        invariant
            i <= ls.len(),
            lv == text::vviews(ls@),
            p1@ == key@ + ":"@,
            p2@ == "\""@ + key@ + "\":"@,
            p3@ == "'"@ + key@ + "':"@,
            key_line_index(lv, key@, 0) == key_line_index(lv, key@, i as int),
        decreases ls.len() - i,
    {
        let t = text::trim_start_vec(&ls[i]);
        assert(lv[i as int] == ls@[i as int]@);
        if text::starts_with_exec(&t, &p1) || text::starts_with_exec(&t, &p2) || text::starts_with_exec(&t, &p3) {
            return Some(i);
        }
        i += 1;
    }
    None
}

/// The line and column of the first entry for `key`.
pub fn find_key_position(source: &str, key: &str, path: &str) -> (r: (Option<usize>, Option<usize>))
    requires
        text::source_fits(source@),
    ensures
        match key_position(source@, key@) {
            Some((l, c)) => r.0 == Some(l as usize) && r.1 == Some(c as usize),
            None => r.0.is_none() && r.1.is_none(),
        },
{
    let src = chars_of(source);
    let ls = text::split_lines(&src);
    let kc = chars_of(key);
    proof {
        text::lemma_lines_bytes(source@);
    }
    match key_line_exec(&ls, &kc) {
        Some(i) => {
            let line = &ls[i];
            assert(text::vviews(ls@)[i as int] == line@);
            assert(text::byte_len(line@) <= text::byte_len(source@));
            let off = match text::find_exec(line, &kc) {
                Some(k) => {
                    let pre = text::slice_range(line, 0, k);
                    assert(pre@ =~= line@.take(k as int));
                    proof {
                        text::lemma_byte_len_take(line@, k as int);
                    }
                    text::byte_len_exec(&pre)
                },
                None => 0,
            };
            (Some(i + 1), Some(off + 1))
        },
        None => (None, None),
    }
}

/// The line of the first entry for `key`, and the column of its value.
pub fn find_value_position(source: &str, key: &str, path: &str) -> (r: (Option<usize>, Option<usize>))
    requires
        text::source_fits(source@),
    ensures
        match value_position(source@, key@) {
            Some((l, c)) => r.0 == Some(l as usize) && r.1 == Some(c as usize),
            None => r.0.is_none() && r.1.is_none(),
        },
{
    let src = chars_of(source);
    let ls = text::split_lines(&src);
    let kc = chars_of(key);
    proof {
        text::lemma_lines_bytes(source@);
    }
    match key_line_exec(&ls, &kc) {
        Some(i) => {
            let line = &ls[i];
            assert(text::vviews(ls@)[i as int] == line@);
            assert(text::byte_len(line@) <= text::byte_len(source@));
            match text::find_char_exec(line, ':') {
                Some(c) => {
                    let pre = text::slice_range(line, 0, c);
                    assert(pre@ =~= line@.take(c as int));
                    proof {
                        text::lemma_byte_len_take(line@, c as int);
                    }
                    (Some(i + 1), Some(text::byte_len_exec(&pre) + 2))
                },
                None => {
                    let off = match text::find_exec(line, &kc) {
                        Some(k) => {
                            let pre = text::slice_range(line, 0, k);
                            assert(pre@ =~= line@.take(k as int));
                            proof {
                                text::lemma_byte_len_take(line@, k as int);
                            }
                            text::byte_len_exec(&pre)
                        },
                        None => 0,
                    };
                    (Some(i + 1), Some(off + 1))
                },
            }
        },
        None => (None, None),
    }
}

// ---------------------------------------------------------------------------
// Choosing where a misplaced key belongs
// ---------------------------------------------------------------------------

/// The number of leading parts two dotted paths share.
pub open spec fn common_parts(xs: Seq<Seq<char>>, ys: Seq<Seq<char>>) -> nat
    decreases xs.len(),
{
    if xs.len() == 0 || ys.len() == 0 || xs[0] != ys[0] {
        0
    } else {
        1 + common_parts(xs.drop_first(), ys.drop_first())
    }
}

/// Among the first `n` candidates, the index of the first one sharing the
/// most leading parts with the current path, and that count.
pub open spec fn best_path_from(cur: Seq<Seq<char>>, cands: Seq<Seq<char>>, n: int) -> (int, nat)
    decreases n,
{
    if n <= 0 {
        (0, 0)
    } else {
        let (bi, bs) = best_path_from(cur, cands, n - 1);
        let c = common_parts(cur, text::split(cands[n - 1], '.'));
        if c > bs {
            (n - 1, c)
        } else {
            (bi, bs)
        }
    }
}

/// The candidate path most related to the current one: the first sharing
/// the most leading parts with it (the first candidate at the top level).
pub open spec fn best_path(current: Seq<char>, cands: Seq<Seq<char>>) -> Seq<char> {
    if current.len() > 0 {
        cands[best_path_from(text::split(current, '.'), cands, cands.len() as int).0]
    } else {
        cands[0]
    }
}

/// The number of leading parts two split paths share.
fn common_parts_exec(xs: &Vec<Vec<char>>, ys: &Vec<Vec<char>>) -> (r: usize)
    ensures
        r == common_parts(text::vviews(xs@), text::vviews(ys@)),
{
    let ghost xv = text::vviews(xs@);
    let ghost yv = text::vviews(ys@);
    let mut j: usize = 0;
    assert(xv.skip(0) =~= xv);
    assert(yv.skip(0) =~= yv);
    while j < xs.len() && j < ys.len() && text::eq(&xs[j], &ys[j])
        invariant
            j <= xs.len(),
            j <= ys.len(),
            xv == text::vviews(xs@),
            yv == text::vviews(ys@),
            common_parts(xv, yv) == j + common_parts(xv.skip(j as int), yv.skip(j as int)),
        decreases xs.len() - j,
    {
        assert(xv.skip(j as int).drop_first() =~= xv.skip(j + 1));
        assert(yv.skip(j as int).drop_first() =~= yv.skip(j + 1));
        assert(xv.skip(j as int)[0] == xs@[j as int]@);
        assert(yv.skip(j as int)[0] == ys@[j as int]@);
        j += 1;
    }
    if j < xs.len() && j < ys.len() {
        assert(xv.skip(j as int)[0] == xs@[j as int]@);
        assert(yv.skip(j as int)[0] == ys@[j as int]@);
    }
    j
}

/// The candidate path most related to the current one.
pub fn pick_best_path(key: &str, current_path: &str, candidates: &[&'static str]) -> (r: String)
    requires
        candidates@.len() > 0,
    ensures
        r@ == best_path(current_path@, text::strs(candidates@)),
{
    let cur = chars_of(current_path);
    let ghost cs = text::strs(candidates@);
    if cur.len() > 0 {
        let cur_parts = text::split_char(&cur, '.');
        let mut best_score: usize = 0;
        let mut best: usize = 0;
        let mut i: usize = 0;
        while i < candidates.len()
            invariant
                i <= candidates@.len(),
                cs == text::strs(candidates@),
                text::vviews(cur_parts@) == text::split(current_path@, '.'),
                best_path_from(text::split(current_path@, '.'), cs, i as int) == (best as int, best_score as nat),
                best < candidates@.len(),
            decreases candidates.len() - i,
        {
            let cc = chars_of(candidates[i]);
            let parts = text::split_char(&cc, '.');
            let common = common_parts_exec(&cur_parts, &parts);
            assert(cs[i as int] == candidates@[i as int]@);
            if common > best_score {
                best_score = common;
                best = i;
            }
            i += 1;
        }
        assert(cs[best as int] == candidates@[best as int]@);
        return candidates[best].to_string();
    }
    assert(cs[0] == candidates@[0]@);
    candidates[0].to_string()
}

// ---------------------------------------------------------------------------
// Classifying unknown keys
// ---------------------------------------------------------------------------

/// The path of `key` below `path`.
pub open spec fn child_path(path: Seq<char>, key: Seq<char>) -> Seq<char> {
    if path.len() == 0 {
        key
    } else {
        path + "."@ + key
    }
}

/// How a location is named in messages.
pub open spec fn display_location(path: Seq<char>) -> Seq<char> {
    if path.len() == 0 {
        "top level"@
    } else {
        "'"@ + path + "'"@
    }
}

/// A diagnostic placed at a line and column (column 1 when unknown), when
/// the line is known.
pub open spec fn located(d: Diag, line: Option<usize>, col: Option<usize>) -> Diag {
    match line {
        Some(l) => d.at(
            l,
            match col {
                Some(c) => c,
                None => 1,
            },
        ),
        None => d,
    }
}

/// The paths other than `path`, in order.
pub open spec fn without(ps: Seq<Seq<char>>, path: Seq<char>) -> Seq<Seq<char>>
    decreases ps.len(),
{
    if ps.len() == 0 {
        Seq::empty()
    } else if ps.last() == path {
        without(ps.drop_last(), path)
    } else {
        without(ps.drop_last(), path).push(ps.last())
    }
}

/// Some valid path of the key lies under the sibling's path.
pub open spec fn under_sibling(vps: Seq<Seq<char>>, sibling_path: Seq<char>) -> bool {
    exists|k: int| 0 <= k < vps.len() && text::starts_with(#[trigger] vps[k], sibling_path)
}

/// The first sibling (in order) under whose path the key is valid: the
/// wrapper the key is missing.
pub open spec fn wrapper_sibling(sibs: Seq<Seq<char>>, vps: Seq<Seq<char>>, path: Seq<char>) -> Option<
    Seq<char>,
>
    decreases sibs.len(),
{
    if sibs.len() == 0 {
        None
    } else if under_sibling(vps, child_path(path, sibs[0])) {
        Some(sibs[0])
    } else {
        wrapper_sibling(sibs.drop_first(), vps, path)
    }
}

/// The key and every candidate fit in memory (always so for real strings).
pub open spec fn all_fit(key: Seq<char>, sibs: Seq<Seq<char>>) -> bool {
    text::source_fits(key) && forall|i: int| 0 <= i < sibs.len() ==> text::source_fits(#[trigger] sibs[i])
}

/// The error for a key that is valid under a sibling `s` of where it stands.
pub open spec fn wrapper_diag(key: Seq<char>, path: Seq<char>, s: Seq<char>, line: Option<usize>, col: Option<usize>, file: Seq<char>) -> Diag {
    located(
        diag(
            Severity::Error,
            "Key '"@ + key + "' is not valid at '"@ + child_path(path, key) + "'. It requires wrapper '"@ + s
                + "'"@,
            file,
        ).helped("Place '"@ + key + "' inside '"@ + child_path(path, s) + "' instead"@),
        line,
        col,
    )
}

/// The error for a key that belongs under one of the paths `others`.
pub open spec fn misplaced_diag(key: Seq<char>, path: Seq<char>, others: Seq<Seq<char>>, line: Option<usize>, col: Option<usize>, file: Seq<char>) -> Diag {
    let sp = best_path(path, others);
    located(
        diag(
            Severity::Error,
            "Key '"@ + key + "' is not valid under "@ + display_location(path) + ". It belongs under '"@ + sp
                + "'"@,
            file,
        ).helped("Move '"@ + key + "' to be a child of '"@ + sp + "'"@),
        line,
        col,
    )
}

/// The error for a key known nowhere: the closest allowed key is
/// suggested, or else the allowed keys are listed in sorted order.
pub open spec fn plain_unknown_diag(key: Seq<char>, path: Seq<char>, sibs: Seq<Seq<char>>, line: Option<usize>, col: Option<usize>, file: Seq<char>) -> Diag {
    let d = diag(Severity::Error, "Unknown key '"@ + key + "' at "@ + display_location(path), file);
    let closest = if all_fit(key, sibs) {
        closest_key(key, sibs, sibs.len() as int)
    } else {
        None
    };
    match closest {
        Some((i, _)) => located(
            d.helped("Did you mean '"@ + sibs[i] + "'?"@).suggesting(sibs[i]).safety(FixSafety::Safe),
            line,
            col,
        ),
        None => if sibs.len() > 0 {
            located(
                d.helped("Valid keys at this level: "@ + join_with(sibs.sort_by(lex_order()), ", "@)),
                line,
                col,
            )
        } else {
            located(d, line, col)
        },
    }
}

/// The diagnostic for a key that the schema does not allow at `path`, with
/// `sibs` the keys allowed there and `regs` the key registry:
/// - a key registered elsewhere under a sibling is missing that wrapper;
/// - a key registered elsewhere is misplaced, and belongs under the most
///   related other path;
/// - any other key is unknown.
pub open spec fn unknown_key_diag(
    key: Seq<char>,
    path: Seq<char>,
    sibs: Seq<Seq<char>>,
    regs: Seq<(Seq<char>, Seq<char>)>,
    line: Option<usize>,
    col: Option<usize>,
    file: Seq<char>,
) -> Diag {
    let vps = paths_for(regs, key);
    let others = without(vps, path);
    if is_registered(regs, key) && others.len() > 0 {
        match wrapper_sibling(sibs, vps, path) {
            Some(s) => wrapper_diag(key, path, s, line, col, file),
            None => misplaced_diag(key, path, others, line, col, file),
        }
    } else {
        plain_unknown_diag(key, path, sibs, line, col, file)
    }
}

/// Places a diagnostic at a line and column, when the line is known.
fn locate(e: LintError, line: Option<usize>, col: Option<usize>) -> (r: LintError)
    ensures
        r@ == located(e@, line, col),
{
    match line {
        Some(l) => {
            let c = match col {
                Some(c) => c,
                None => 1,
            };
            e.with_location(l, c)
        },
        None => e,
    }
}

/// The path of `key` below `path`.
fn child_path_exec(path: &[char], key: &[char]) -> (r: Vec<char>)
    ensures
        r@ == child_path(path@, key@),
{
    if path.len() == 0 {
        let r = text::slice_range(key, 0, key.len());
        assert(r@ =~= key@);
        r
    } else {
        concat(&concat(path, &chars_of(".")), key)
    }
}

/// How a location is named in messages.
fn display_location_exec(path: &[char]) -> (r: Vec<char>)
    ensures
        r@ == display_location(path@),
{
    if path.len() == 0 {
        chars_of("top level")
    } else {
        concat(&concat(&chars_of("'"), path), &chars_of("'"))
    }
}

/// The first sibling under whose path one of `vps` lies.
fn wrapper_sibling_exec(siblings: &Vec<&'static str>, vps: &[&'static str], path: &[char]) -> (r: Option<usize>)
    ensures
        match r {
            Some(i) => i < siblings@.len() && wrapper_sibling(text::strs(siblings@), text::strs(vps@), path@)
                == Some(siblings@[i as int]@),
            None => wrapper_sibling(text::strs(siblings@), text::strs(vps@), path@).is_none(),
        },
{
    let ghost sibs = text::strs(siblings@);
    let ghost vv = text::strs(vps@);
    let mut s: usize = 0;
    assert(sibs.skip(0) =~= sibs);
    while s < siblings.len()
        invariant
            s <= siblings@.len(),
            sibs == text::strs(siblings@),
            vv == text::strs(vps@),
            wrapper_sibling(sibs, vv, path@) == wrapper_sibling(sibs.skip(s as int), vv, path@),
        decreases siblings.len() - s,
    {
        let sc = chars_of(siblings[s]);
        let sp = child_path_exec(path, &sc);
        assert(sibs.skip(s as int)[0] == sc@);
        assert(sibs.skip(s as int).drop_first() =~= sibs.skip(s + 1));
        let mut found = false;
        let mut k: usize = 0;
        while k < vps.len()
            invariant
                k <= vps@.len(),
                vv == text::strs(vps@),
                found == exists|m: int| 0 <= m < k && text::starts_with(#[trigger] vv[m], sp@),
            decreases vps.len() - k,
        {
            let vc = chars_of(vps[k]);
            assert(vv[k as int] == vc@);
            if text::starts_with_exec(&vc, &sp) {
                found = true;
            }
            k += 1;
        }
        if found {
            return Some(s);
        }
        s += 1;
    }
    assert(sibs.skip(s as int) =~= Seq::<Seq<char>>::empty());
    None
}

/// The error for a key that is missing a wrapper.
fn wrapper_error(key: &[char], path: &[char], s: &str, line: Option<usize>, col: Option<usize>, file: &str) -> (r: LintError)
    ensures
        r@ == wrapper_diag(key@, path@, s@, line, col, file@),
{
    let sc = chars_of(s);
    let m = join5("Key '", key, "' is not valid at '", &child_path_exec(path, key), "'. It requires wrapper '");
    let m = concat(&m, &concat(&sc, &chars_of("'")));
    assert(m@ =~= "Key '"@ + key@ + "' is not valid at '"@ + child_path(path@, key@) + "'. It requires wrapper '"@ + s@ + "'"@);
    let h = join5("Place '", key, "' inside '", &child_path_exec(path, &sc), "' instead");
    let hs = s_of(&h);
    locate(mk(Severity::Error, &m, file).with_help(hs.as_str()), line, col)
}

/// The error for a misplaced key.
fn misplaced_error(key: &str, path: &str, others: &Vec<&'static str>, line: Option<usize>, col: Option<usize>, file: &str) -> (r: LintError)
    requires
        others@.len() > 0,
    ensures
        r@ == misplaced_diag(key@, path@, text::strs(others@), line, col, file@),
{
    let kc = chars_of(key);
    let pc = chars_of(path);
    let sp = pick_best_path(key, path, others.as_slice());
    let spc = chars_of(sp.as_str());
    let m = join5("Key '", &kc, "' is not valid under ", &display_location_exec(&pc), ". It belongs under '");
    let m = concat(&m, &concat(&spc, &chars_of("'")));
    assert(m@ =~= "Key '"@ + key@ + "' is not valid under "@ + display_location(path@) + ". It belongs under '"@ + sp@ + "'"@);
    let h = join5("Move '", &kc, "' to be a child of '", &spc, "'");
    let hs = s_of(&h);
    locate(mk(Severity::Error, &m, file).with_help(hs.as_str()), line, col)
}

/// The error for a key known nowhere.
fn plain_unknown_error(key: &str, path: &str, siblings: &Vec<&'static str>, line: Option<usize>, col: Option<usize>, file: &str) -> (r: LintError)
    ensures
        r@ == plain_unknown_diag(key@, path@, text::strs(siblings@), line, col, file@),
{
    let ghost sibs = text::strs(siblings@);
    let kc = chars_of(key);
    let pc = chars_of(path);
    let m = join3("Unknown key '", &kc, "' at ");
    let m = concat(&m, &display_location_exec(&pc));
    let e = mk(Severity::Error, &m, file);
    let mut fit = text::fits_exec(&kc);
    let mut j: usize = 0;
    while j < siblings.len()
        invariant
            j <= siblings@.len(),
            sibs == text::strs(siblings@),
            fit == (text::source_fits(key@) && forall|q: int| 0 <= q < j ==> text::source_fits(#[trigger] sibs[q])),
        decreases siblings.len() - j,
    {
        let sc = chars_of(siblings[j]);
        assert(sibs[j as int] == sc@);
        if !text::fits_exec(&sc) {
            fit = false;
        }
        j += 1;
    }
    let sl = siblings.as_slice();
    assert(sl@ == siblings@);
    let closest = if fit {
        assert forall|q: int| 0 <= q < siblings@.len() implies text::source_fits(#[trigger] siblings@[q]@) by {
            assert(sibs[q] == siblings@[q]@);
        }
        find_closest_key(key, sl)
    } else {
        None
    };
    let e = match closest {
        Some(c) => {
            let h = join3("Did you mean '", &chars_of(c), "'?");
            let hs = s_of(&h);
            e.with_help(hs.as_str()).with_suggestion(c).with_fix_safety(FixSafety::Safe)
        },
        None => {
            if siblings.len() > 0 {
                let mut texts: Vec<Vec<char>> = Vec::new();
                let mut q: usize = 0;
                while q < siblings.len()
                    invariant
                        q <= siblings@.len(),
                        sibs == text::strs(siblings@),
                        text::vviews(texts@) == sibs.take(q as int),
                    decreases siblings.len() - q,
                {
                    let ghost before = text::vviews(texts@);
                    texts.push(chars_of(siblings[q]));
                    assert(text::vviews(texts@) =~= before.push(siblings@[q as int]@));
                    assert(sibs.take(q + 1) =~= sibs.take(q as int).push(sibs[q as int]));
                    q += 1;
                }
                assert(sibs.take(siblings.len() as int) =~= sibs);
                let sorted = sort_texts(texts);
                let joined = join_texts(&sorted);
                let h = concat(&chars_of("Valid keys at this level: "), &joined);
                let hs = s_of(&h);
                e.with_help(hs.as_str())
            } else {
                e
            }
        },
    };
    proof {
        match closest {
            Some(c) => {
                lemma_closest_bounds(key@, sibs, sibs.len() as int);
                let (i, _) = closest_key(key@, sibs, sibs.len() as int).unwrap();
                assert(sibs[i] == c@);
            },
            None => {},
        }
    }
    locate(e, line, col)
}

/// The contents of a list of string pairs.
pub open spec fn pair_views(v: Seq<(String, String)>) -> Seq<(Seq<char>, Seq<char>)> {
    Seq::new(v.len(), |i: int| (v[i].0@, v[i].1@))
}

/// The key is deprecated at this path: the deprecated-key list pairs it
/// with the path. Such a key is left to the deprecation checks and not
/// reported as unknown.
pub open spec fn deprecated_at(dep: Seq<(Seq<char>, Seq<char>)>, key: Seq<char>, path: Seq<char>) -> bool {
    exists|i: int| 0 <= i < dep.len() && #[trigger] dep[i] == (key, path)
}

/// Whether the deprecated-key list pairs the key with the path.
fn is_deprecated(deprecated: &Vec<(String, String)>, key: &str, path: &str) -> (r: bool)
    ensures
        r == deprecated_at(pair_views(deprecated@), key@, path@),
{
    let ghost dv = pair_views(deprecated@);
    let mut i: usize = 0;
    while i < deprecated.len()
        invariant
            i <= deprecated.len(),
            dv == pair_views(deprecated@),
            forall|j: int| 0 <= j < i ==> dv[j] != (key@, path@),
        decreases deprecated.len() - i,
    {
        if text::str_eq(deprecated[i].0.as_str(), key) && text::str_eq(deprecated[i].1.as_str(), path) {
            assert(dv[i as int] == (key@, path@));
            return true;
        }
        i += 1;
    }
    false
}

/// The diagnostic for a key that the schema does not allow here.
pub fn classify_unknown_key(
    key: &str,
    current_path: &str,
    siblings: &Vec<&'static str>,
    file: &str,
    line: Option<usize>,
    col: Option<usize>,
    registry: &KeyRegistry,
    deprecated: &Vec<(String, String)>,
) -> (r: Option<LintError>)
    requires
        registry.wf(),
    ensures
        if deprecated_at(pair_views(deprecated@), key@, current_path@) {
            r is None
        } else {
            r matches Some(e) && e@ == unknown_key_diag(
                key@,
                current_path@,
                text::strs(siblings@),
                registry.registrations(),
                line,
                col,
                file@,
            )
        },
{
    if is_deprecated(deprecated, key, current_path) {
        return None;
    }
    let ghost regs = registry.registrations();
    let kc = chars_of(key);
    let pc = chars_of(current_path);
    match registry.lookup(key) {
        Some(vps) => {
            let ghost vv = text::strs(vps@);
            let mut others: Vec<&'static str> = Vec::new();
            let mut i: usize = 0;
            while i < vps.len()
                invariant
                    i <= vps@.len(),
                    vv == text::strs(vps@),
                    text::strs(others@) == without(vv.take(i as int), current_path@),
                decreases vps.len() - i,
            {
                assert(vv.take(i + 1).drop_last() =~= vv.take(i as int));
                assert(vv.take(i + 1).last() == vps@[i as int]@);
                if !text::str_eq(vps[i], current_path) {
                    let ghost before = text::strs(others@);
                    others.push(vps[i]);
                    assert(text::strs(others@) =~= before.push(vps@[i as int]@));
                }
                i += 1;
            }
            assert(vv.take(vps.len() as int) =~= vv);
            if others.len() > 0 {
                match wrapper_sibling_exec(siblings, vps, &pc) {
                    Some(si) => {
                        return Some(wrapper_error(&kc, &pc, siblings[si], line, col, file));
                    },
                    None => {
                        return Some(misplaced_error(key, current_path, &others, line, col, file));
                    },
                }
            }
        },
        None => {},
    }
    Some(plain_unknown_error(key, current_path, siblings, line, col, file))
}

/// Texts joined with `", "`.
fn join_texts(v: &Vec<Vec<char>>) -> (r: Vec<char>)
    ensures
        r@ == join_with(text::vviews(v@), ", "@),
{
    let ghost ps = text::vviews(v@);
    let mut r: Vec<char> = Vec::new();
    let mut i: usize = 0;
    while i < v.len()
        invariant
            i <= v.len(),
            ps == text::vviews(v@),
            r@ == join_with(ps.take(i as int), ", "@),
        decreases v.len() - i,
    {
        assert(ps.take(i + 1).drop_last() =~= ps.take(i as int));
        assert(ps.take(i + 1).last() == v@[i as int]@);
        if i == 0 {
            r = v[i].clone();
        } else {
            r = concat(&r, &chars_of(", "));
            r = concat(&r, &v[i]);
        }
        i += 1;
    }
    assert(ps.take(v.len() as int) =~= ps);
    r
}

// ---------------------------------------------------------------------------
// Walking the document alongside the schema
// ---------------------------------------------------------------------------

/// The diagnostic lists joined in order.
pub open spec fn concat_all(ds: Seq<Seq<Diag>>) -> Seq<Diag>
    decreases ds.len(),
{
    if ds.len() == 0 {
        Seq::empty()
    } else {
        concat_all(ds.drop_last()) + ds.last()
    }
}

/// Of the diagnostic lists for the alternatives of an array item, the
/// first shortest one (nothing when there are no alternatives).
pub open spec fn best_of(ds: Seq<Seq<Diag>>) -> Seq<Diag>
    decreases ds.len(),
{
    if ds.len() == 0 {
        Seq::empty()
    } else if ds.len() == 1 {
        ds[0]
    } else {
        let b = best_of(ds.drop_last());
        if ds.last().len() < b.len() {
            ds.last()
        } else {
            b
        }
    }
}

/// The path of the item at `idx` of the array at `path`.
pub open spec fn index_path(path: Seq<char>, idx: int) -> Seq<char> {
    path + "["@ + text::decimal(idx as nat) + "]"@
}

/// The text after the last dot of a path.
pub open spec fn last_part(path: Seq<char>) -> Seq<char> {
    text::split(path, '.').last()
}

/// The YAML 1.1 words that Fleet also reads as booleans.
pub open spec fn is_bool_word(w: Seq<char>) -> bool {
    w == "yes"@ || w == "no"@ || w == "on"@ || w == "off"@
}

/// A value accepted where a boolean is expected: a boolean, or a string
/// whose lowercase form is a YAML 1.1 boolean word.
pub open spec fn accepts_bool(v: YamlValue) -> bool {
    is_bool(v) || match as_str(v) {
        Some(s) => is_bool_word(text::unicode_lower(s)),
        None => false,
    }
}

/// How a non-boolean value is shown in a message.
pub open spec fn value_text(v: YamlValue) -> Seq<char> {
    match v {
        YamlValue::String(s) => "\""@ + s@ + "\""@,
        YamlValue::Number(n) => n@,
        YamlValue::Null => "null"@,
        _ => if tags_nonempty(v) {
            yaml_debug(v)
        } else {
            Seq::empty()
        },
    }
}

/// The warning for a value at `path` where a boolean is expected.
pub open spec fn bool_diags(v: YamlValue, path: Seq<char>, source: Seq<char>, file: Seq<char>) -> Seq<Diag> {
    if accepts_bool(v) {
        Seq::empty()
    } else {
        let key = last_part(path);
        let d = diag(
            Severity::Warning,
            "'"@ + key + "' expects a boolean value, got "@ + value_text(v),
            file,
        ).helped("Use 'true' or 'false'"@);
        seq![
            match value_position(source, key) {
                Some((l, c)) => d.at(l as usize, c as usize),
                None => d,
            },
        ]
    }
}

/// The position of a key as an optional line and column.
pub open spec fn key_line_col(source: Seq<char>, key: Seq<char>) -> (Option<usize>, Option<usize>) {
    match key_position(source, key) {
        Some((l, c)) => (Some(l as usize), Some(c as usize)),
        None => (None, None),
    }
}

/// The structural diagnostics of a document node checked against a shape,
/// with `path` the dotted location of the node and `regs` the key
/// registry:
/// - a mapping checks each string key: allowed keys recurse into their
///   schema, other keys are classified as missing a wrapper, misplaced or
///   unknown;
/// - an array checks each item against the item schema;
/// - an array of alternatives checks each item against every alternative
///   and keeps the first one with the fewest findings;
/// - a boolean slot accepts booleans and YAML 1.1 boolean words;
/// - other shapes, and nodes of another kind than their shape, are not
///   checked.
pub open spec fn node_diags(
    v: YamlValue,
    s: Schema,
    path: Seq<char>,
    source: Seq<char>,
    file: Seq<char>,
    regs: Seq<(Seq<char>, Seq<char>)>,
    dep: Seq<(Seq<char>, Seq<char>)>,
) -> Seq<Diag>
    decreases v, 0nat,
{
    match s {
        Schema::Mapping(_) => match v {
            YamlValue::Mapping(es) => entries_diags(es@, s, path, source, file, regs, dep),
            _ => Seq::empty(),
        },
        Schema::Array(item) => match v {
            YamlValue::Sequence(items) => items_diags(items@, *item, path, source, file, regs, dep),
            _ => Seq::empty(),
        },
        Schema::ArrayOneOf(vs) => match v {
            YamlValue::Sequence(items) => one_of_diags(items@, vs, path, source, file, regs, dep),
            _ => Seq::empty(),
        },
        Schema::BooleanLeaf => bool_diags(v, path, source, file),
        _ => Seq::empty(),
    }
}

/// The findings of mapping entries, in order.
pub open spec fn entries_diags(
    es: Seq<(YamlValue, YamlValue)>,
    s: Schema,
    path: Seq<char>,
    source: Seq<char>,
    file: Seq<char>,
    regs: Seq<(Seq<char>, Seq<char>)>,
    dep: Seq<(Seq<char>, Seq<char>)>,
) -> Seq<Diag>
    decreases es, 0nat,
{
    if es.len() == 0 {
        Seq::empty()
    } else {
        entries_diags(es.drop_last(), s, path, source, file, regs, dep) + entry_part(
            es.last(),
            s,
            path,
            source,
            file,
            regs,
            dep,
        )
    }
}

/// The findings for one mapping entry: an allowed string key recurses
/// into its schema, any other string key is classified.
pub open spec fn entry_part(
    e: (YamlValue, YamlValue),
    s: Schema,
    path: Seq<char>,
    source: Seq<char>,
    file: Seq<char>,
    regs: Seq<(Seq<char>, Seq<char>)>,
    dep: Seq<(Seq<char>, Seq<char>)>,
) -> Seq<Diag>
    decreases e, 0nat,
{
    match as_str(e.0) {
        None => Seq::empty(),
        Some(k) => match shape_child(s, k) {
            Some(cs) => node_diags(e.1, cs, child_path(path, k), source, file, regs, dep),
            None => if deprecated_at(dep, k, path) {
                Seq::empty()
            } else {
                let (line, col) = key_line_col(source, k);
                seq![unknown_key_diag(k, path, shape_distinct_keys(s), regs, line, col, file)]
            },
        },
    }
}

/// The findings of array items checked against one item shape.
pub open spec fn items_diags(
    items: Seq<YamlValue>,
    item: Schema,
    path: Seq<char>,
    source: Seq<char>,
    file: Seq<char>,
    regs: Seq<(Seq<char>, Seq<char>)>,
    dep: Seq<(Seq<char>, Seq<char>)>,
) -> Seq<Diag>
    decreases items, 0nat,
{
    if items.len() == 0 {
        Seq::empty()
    } else {
        items_diags(items.drop_last(), item, path, source, file, regs, dep) + node_diags(
            items.last(),
            item,
            index_path(path, items.len() - 1),
            source,
            file,
            regs,
            dep,
        )
    }
}

/// The findings of array items, each checked against the best of the
/// alternatives.
pub open spec fn one_of_diags(
    items: Seq<YamlValue>,
    vs: Seq<Schema>,
    path: Seq<char>,
    source: Seq<char>,
    file: Seq<char>,
    regs: Seq<(Seq<char>, Seq<char>)>,
    dep: Seq<(Seq<char>, Seq<char>)>,
) -> Seq<Diag>
    decreases items, 0nat,
{
    if items.len() == 0 {
        Seq::empty()
    } else {
        one_of_diags(items.drop_last(), vs, path, source, file, regs, dep) + best_of(
            variant_parts(items.last(), vs, index_path(path, items.len() - 1), source, file, regs, dep),
        )
    }
}

/// The findings of one item checked against each alternative.
pub open spec fn variant_parts(
    item: YamlValue,
    vs: Seq<Schema>,
    path: Seq<char>,
    source: Seq<char>,
    file: Seq<char>,
    regs: Seq<(Seq<char>, Seq<char>)>,
    dep: Seq<(Seq<char>, Seq<char>)>,
) -> Seq<Seq<Diag>>
    decreases item, vs.len(),
{
    if vs.len() == 0 {
        Seq::empty()
    } else {
        variant_parts(item, vs.drop_last(), path, source, file, regs, dep).push(
            node_diags(item, vs.last(), path, source, file, regs, dep),
        )
    }
}

/// The last part of a dotted path, as characters.
fn last_part_exec(path: &[char]) -> (r: Vec<char>)
    ensures
        r@ == last_part(path@),
{
    let parts = text::split_char(path, '.');
    let n = parts.len();
    assert(text::vviews(parts@).last() == parts@[n - 1]@);
    parts[n - 1].clone()
}

/// Whether a value is accepted where a boolean is expected.
fn accepts_bool_exec(v: &YamlValue) -> (r: bool)
    ensures
        r == accepts_bool(*v),
{
    if is_bool_exec(v) {
        return true;
    }
    match as_str_exec(v) {
        Some(s) => {
            let l = text::to_lowercase(s_of(&s).as_str());
            let lc = chars_of(l.as_str());
            text::eq_str(&lc, "yes") || text::eq_str(&lc, "no") || text::eq_str(&lc, "on") || text::eq_str(&lc, "off")
        },
        None => false,
    }
}

/// How a non-boolean value is shown in a message.
fn value_text_exec(v: &YamlValue) -> (r: Vec<char>)
    ensures
        r@ == value_text(*v),
{
    match v {
        YamlValue::String(s) => concat(&concat(&chars_of("\""), &chars_of(s.as_str())), &chars_of("\"")),
        YamlValue::Number(n) => chars_of(n.as_str()),
        YamlValue::Null => chars_of("null"),
        _ => {
            if tags_nonempty_exec(v) {
                let t = debug_text(v);
                chars_of(t.as_str())
            } else {
                Vec::new()
            }
        },
    }
}

/// There is one list of findings per alternative.
proof fn lemma_variant_parts_len(
    item: YamlValue,
    vs: Seq<Schema>,
    path: Seq<char>,
    source: Seq<char>,
    file: Seq<char>,
    regs: Seq<(Seq<char>, Seq<char>)>,
    dep: Seq<(Seq<char>, Seq<char>)>,
)
    ensures
        variant_parts(item, vs, path, source, file, regs, dep).len() == vs.len(),
    decreases vs.len(),
{
    if vs.len() > 0 {
        lemma_variant_parts_len(item, vs.drop_last(), path, source, file, regs, dep);
    }
}

/// Checks one node of the document against its schema, appending the
/// findings to `errors`.
pub fn validate_node(
    value: &YamlValue,
    schema: &SchemaNode,
    path: &[char],
    source: &str,
    file: &str,
    registry: &KeyRegistry,
    deprecated: &Vec<(String, String)>,
    errors: &mut Vec<LintError>,
)
    requires
        registry.wf(),
        text::source_fits(source@),
    ensures
        diags(final(errors)@) == diags(old(errors)@) + node_diags(
            *value,
            schema.shape(),
            path@,
            source@,
            file@,
            registry.registrations(),
            pair_views(deprecated@),
        ),
    decreases value,
{
    let ghost s = schema.shape();
    let ghost regs = registry.registrations();
    let ghost dep = pair_views(deprecated@);
    let ghost start = diags(errors@);
    let path_s = s_of(path);
    match schema {
        SchemaNode::Mapping(children) => {
            match value {
                YamlValue::Mapping(es) => {
                    let siblings = match schema.valid_keys() {
                        Some(k) => k,
                        None => Vec::new(),
                    };
                    proof {
                        lemma_node_lookup_shape(*schema, Seq::empty());
                    }
                    assert(es@.take(0) =~= Seq::<(YamlValue, YamlValue)>::empty());
                    let mut i: usize = 0;
                    while i < es.len()
                        invariant
                            i <= es@.len(),
                            *value == YamlValue::Mapping(*es),
                            *schema == SchemaNode::Mapping(*children),
                            s == schema.shape(),
                            regs == registry.registrations(),
                            dep == pair_views(deprecated@),
                            registry.wf(),
                            text::source_fits(source@),
                            path_s@ == path@,
                            text::strs(siblings@) == shape_distinct_keys(s),
                            diags(errors@) == start + entries_diags(es@.take(i as int), s, path@, source@, file@, regs, dep),
                        decreases es.len() - i,
                    {
                        let ghost before = diags(errors@);
                        match as_str_exec(&es[i].0) {
                            None => {},
                            Some(k) => {
                                let ks = s_of(&k);
                                proof {
                                    lemma_node_lookup_shape(*schema, k@);
                                }
                                match schema.get_child(ks.as_str()) {
                                    Some(c) => {
                                        let cp = child_path_exec(path, &k);
                                        proof {
                                            assert(decreases_to!(*value => (*value)->Mapping_0));
                                            assert(decreases_to!(*es => es@));
                                            assert(decreases_to!(es@ => es@[i as int]));
                                            assert(decreases_to!(es@[i as int] => es@[i as int].1));
                                        }
                                        validate_node(&es[i].1, c, &cp, source, file, registry, deprecated, errors);
                                    },
                                    None => {
                                        let (line, col) = find_key_position(source, ks.as_str(), path_s.as_str());
                                        match classify_unknown_key(ks.as_str(), path_s.as_str(), &siblings, file, line, col, registry, deprecated) {
                                            Some(e) => push_diag(errors, e),
                                            None => {},
                                        }
                                    },
                                }
                            },
                        }
                        assert(diags(errors@) =~= before + entry_part(es@[i as int], s, path@, source@, file@, regs, dep));
                        assert(es@.take(i + 1).drop_last() =~= es@.take(i as int));
                        i += 1;
                    }
                    assert(es@.take(es.len() as int) =~= es@);
                },
                _ => {},
            }
        },
        SchemaNode::Array(item) => {
            match value {
                YamlValue::Sequence(items) => {
                    let ghost ish = item.shape();
                    assert(items@.take(0) =~= Seq::<YamlValue>::empty());
                    let mut i: usize = 0;
                    while i < items.len()
                        invariant
                            i <= items@.len(),
                            *value == YamlValue::Sequence(*items),
                            ish == item.shape(),
                            registry.wf(),
                            text::source_fits(source@),
                            regs == registry.registrations(),
                            dep == pair_views(deprecated@),
                            diags(errors@) == start + items_diags(items@.take(i as int), ish, path@, source@, file@, regs, dep),
                        decreases items.len() - i,
                    {
                        let ip = concat(&concat(path, &chars_of("[")), &concat(&text::decimal_chars(i), &chars_of("]")));
                        assert(ip@ =~= index_path(path@, i as int));
                        proof {
                            assert(decreases_to!(*value => (*value)->Sequence_0));
                            assert(decreases_to!(*items => items@));
                            assert(decreases_to!(items@ => items@[i as int]));
                        }
                        validate_node(&items[i], item, &ip, source, file, registry, deprecated, errors);
                        assert(items@.take(i + 1).drop_last() =~= items@.take(i as int));
                        i += 1;
                    }
                    assert(items@.take(items.len() as int) =~= items@);
                },
                _ => {},
            }
        },
        SchemaNode::ArrayOneOf(vs) => {
            match value {
                YamlValue::Sequence(items) => {
                    let ghost vsh = s->ArrayOneOf_0;
                    assert(vsh.len() == vs@.len());
                    assert(forall|k: int| 0 <= k < vs@.len() ==> #[trigger] vsh[k] == vs@[k].shape());
                    assert(items@.take(0) =~= Seq::<YamlValue>::empty());
                    let mut i: usize = 0;
                    while i < items.len()
                        invariant
                            i <= items@.len(),
                            *value == YamlValue::Sequence(*items),
                            registry.wf(),
                            text::source_fits(source@),
                            regs == registry.registrations(),
                            dep == pair_views(deprecated@),
                            vsh.len() == vs@.len(),
                            forall|k: int| 0 <= k < vs@.len() ==> #[trigger] vsh[k] == vs@[k].shape(),
                            diags(errors@) == start + one_of_diags(items@.take(i as int), vsh, path@, source@, file@, regs, dep),
                        decreases items.len() - i,
                    {
                        let ip = concat(&concat(path, &chars_of("[")), &concat(&text::decimal_chars(i), &chars_of("]")));
                        assert(ip@ =~= index_path(path@, i as int));
                        let mut best: Option<Vec<LintError>> = None;
                        let mut k: usize = 0;
                        assert(vsh.take(0) =~= Seq::<Schema>::empty());
                        while k < vs.len()
                            invariant
                                k <= vs@.len(),
                                i < items@.len(),
                                *value == YamlValue::Sequence(*items),
                                registry.wf(),
                                text::source_fits(source@),
                                regs == registry.registrations(),
                            dep == pair_views(deprecated@),
                                vsh.len() == vs@.len(),
                                forall|k: int| 0 <= k < vs@.len() ==> #[trigger] vsh[k] == vs@[k].shape(),
                                match best {
                                    None => k == 0,
                                    Some(b) => k > 0 && diags(b@) == best_of(
                                        variant_parts(items@[i as int], vsh.take(k as int), ip@, source@, file@, regs, dep),
                                    ),
                                },
                            decreases vs.len() - k,
                        {
                            let mut ve: Vec<LintError> = Vec::new();
                            proof {
                                assert(decreases_to!(*value => (*value)->Sequence_0));
                                assert(decreases_to!(*items => items@));
                                assert(decreases_to!(items@ => items@[i as int]));
                            }
                            validate_node(&items[i], &vs[k], &ip, source, file, registry, deprecated, &mut ve);
                            proof {
                                let ps = variant_parts(items@[i as int], vsh.take(k as int), ip@, source@, file@, regs, dep);
                                assert(vsh.take(k + 1).drop_last() =~= vsh.take(k as int));
                                assert(vsh.take(k + 1).last() == vs@[k as int].shape());
                                assert(diags(ve@) =~= Seq::<Diag>::empty() + node_diags(items@[i as int], vs@[k as int].shape(), ip@, source@, file@, regs, dep));
                                lemma_variant_parts_len(items@[i as int], vsh.take(k as int), ip@, source@, file@, regs, dep);
                                let ps2 = variant_parts(items@[i as int], vsh.take(k + 1), ip@, source@, file@, regs, dep);
                                assert(ps2 == ps.push(diags(ve@)));
                                assert(ps2.drop_last() =~= ps);
                            }
                            let replace = match &best {
                                None => true,
                                Some(b) => ve.len() < b.len(),
                            };
                            if replace {
                                best = Some(ve);
                            }
                            k += 1;
                        }
                        assert(vsh.take(vs.len() as int) =~= vsh);
                        let ghost before = diags(errors@);
                        let ghost bo = best_of(variant_parts(items@[i as int], vsh, ip@, source@, file@, regs, dep));
                        match best {
                            Some(b) => {
                                extend_diags(errors, b);
                            },
                            None => {
                                assert(vsh.len() == 0);
                                assert(diags(errors@) =~= before + bo);
                            },
                        }
                        assert(diags(errors@) == before + bo);
                        assert(items@.take(i + 1).drop_last() =~= items@.take(i as int));
                        assert(items@.take(i + 1).last() == items@[i as int]);
                        assert(one_of_diags(items@.take(i + 1), vsh, path@, source@, file@, regs, dep) == one_of_diags(
                            items@.take(i as int),
                            vsh,
                            path@,
                            source@,
                            file@,
                            regs,
                            dep,
                        ) + bo);
                        i += 1;
                    }
                    assert(items@.take(items.len() as int) =~= items@);
                },
                _ => {},
            }
        },
        SchemaNode::BooleanLeaf => {
            if !accepts_bool_exec(value) {
                let key = last_part_exec(path);
                let ks = s_of(&key);
                let (line, col) = find_value_position(source, ks.as_str(), path_s.as_str());
                let m = join3("'", &key, "' expects a boolean value, got ");
                let m = concat(&m, &value_text_exec(value));
                let mut e = mk(Severity::Warning, &m, file).with_help("Use 'true' or 'false'");
                match line {
                    Some(l) => {
                        let c = match col {
                            Some(c) => c,
                            None => 1,
                        };
                        e = e.with_location(l, c);
                    },
                    None => {},
                }
                push_diag(errors, e);
            }
            assert(diags(errors@) =~= start + node_diags(*value, s, path@, source@, file@, regs, dep));
        },
        _ => {},
    }
}

// ---------------------------------------------------------------------------
// The rule
// ---------------------------------------------------------------------------

/// Validates the YAML structure of a file against the schema for its path.
pub struct StructuralValidationRule;

/// The structural findings of a file: none when it does not parse (parse
/// errors are reported elsewhere), else those of its root against the
/// schema chosen by its path.
pub open spec fn structural_diags(file: Seq<char>, source: Seq<char>) -> Seq<Diag> {
    match yaml_parse(source) {
        None => Seq::empty(),
        Some(v) => node_diags(v, schema_shape_for_path(file), Seq::empty(), source, file, registrations_all(), Seq::empty()),
    }
}

impl Rule for StructuralValidationRule {
    fn name(&self) -> (r: &'static str)
        ensures
            r@ == "structural-validation"@,
    {
        "structural-validation"
    }

    fn description(&self) -> (r: &'static str)
        ensures
            r@ == "Validates YAML structure: catches unknown keys, misplaced keys, and missing wrappers"@,
    {
        "Validates YAML structure: catches unknown keys, misplaced keys, and missing wrappers"
    }

    fn category(&self) -> (r: &'static str)
        ensures
            r@ == "structural"@,
    {
        "structural"
    }

    fn is_fixable(&self) -> (r: bool)
        ensures
            r,
    {
        true
    }

    fn docs_url(&self) -> (r: Option<&'static str>)
        ensures
            r matches Some(u) && u@ == "https://fleetdm.com/docs/configuration/yaml-files"@,
    {
        Some("https://fleetdm.com/docs/configuration/yaml-files")
    }

    open spec fn check_defined(&self, file: Seq<char>, source: Seq<char>) -> bool {
        text::source_fits(source)
    }

    fn check(&self, config: &FleetConfig, file: &str, source: &str) -> (r: Vec<LintError>)
        ensures
            diags(r@) == structural_diags(file@, source@),
    {
        let mut errors: Vec<LintError> = Vec::new();
        match parse_yaml(source) {
            None => {},
            Some(v) => {
                let schema = schema_for_path(file);
                let registry = key_registry();
                let root: Vec<char> = Vec::new();
                let deprecated: Vec<(String, String)> = Vec::new();
                assert(pair_views(deprecated@) =~= Seq::<(Seq<char>, Seq<char>)>::empty());
                validate_node(&v, &schema, &root, source, file, &registry, &deprecated, &mut errors);
                assert(diags(errors@) =~= structural_diags(file@, source@));
            },
        }
        errors
    }
}

/// The edit distance is at least the difference of the lengths.
proof fn lemma_edit_distance_lower(a: Seq<char>, b: Seq<char>)
    ensures
        edit_distance(a, b) >= a.len() - b.len(),
        edit_distance(a, b) >= b.len() - a.len(),
    decreases a.len() + b.len(),
{
    if a.len() > 0 && b.len() > 0 {
        lemma_edit_distance_lower(a.drop_last(), b);
        lemma_edit_distance_lower(a, b.drop_last());
        lemma_edit_distance_lower(a.drop_last(), b.drop_last());
    }
}

/// The edit distance is zero exactly between equal texts.
pub proof fn law_edit_distance_zero(a: Seq<char>, b: Seq<char>)
    ensures
        edit_distance(a, b) == 0 <==> a == b,
    decreases a.len() + b.len(),
{
    if a.len() == 0 && b.len() == 0 {
        assert(a =~= b);
    } else if a == b {
        law_edit_distance_identity(a);
    } else if a.len() > 0 && b.len() > 0 {
        law_edit_distance_zero(a.drop_last(), b.drop_last());
        if edit_distance(a, b) == 0 {
            assert(a.last() == b.last());
            assert(edit_distance(a.drop_last(), b.drop_last()) == 0);
            assert(a.drop_last() == b.drop_last());
            assert(a =~= a.drop_last().push(a.last()));
            assert(b =~= b.drop_last().push(b.last()));
            assert(false);
        }
    }
}

/// The edit distance obeys the triangle inequality.
pub proof fn law_edit_distance_triangle(a: Seq<char>, b: Seq<char>, c: Seq<char>)
    ensures
        edit_distance(a, c) <= edit_distance(a, b) + edit_distance(b, c),
    decreases a.len() + b.len() + c.len(),
{
    if a.len() == 0 {
        lemma_edit_distance_lower(b, c);
    } else if b.len() == 0 {
        law_edit_distance_bounded(a, c);
    } else if c.len() == 0 {
        lemma_edit_distance_lower(a, b);
    } else {
        let aa = a.drop_last();
        let bb = b.drop_last();
        let cc = c.drop_last();
        let dab = edit_distance(a, b);
        let dbc = edit_distance(b, c);
        if dab == edit_distance(aa, b) + 1 {
            law_edit_distance_triangle(aa, b, c);
        } else if dbc == edit_distance(b, cc) + 1 {
            law_edit_distance_triangle(a, b, cc);
        } else if dab == edit_distance(a, bb) + 1 {
            if dbc == edit_distance(bb, c) + 1 {
                law_edit_distance_triangle(a, bb, c);
            } else {
                law_edit_distance_triangle(a, bb, cc);
            }
        } else {
            if dbc == edit_distance(bb, c) + 1 {
                law_edit_distance_triangle(aa, bb, c);
            } else {
                law_edit_distance_triangle(aa, bb, cc);
            }
        }
    }
}

/// The distance that suggestions are ranked by is a metric: zero exactly
/// between equal texts, symmetric, and obeying the triangle inequality.
pub proof fn law_levenshtein_metric(a: Seq<char>, b: Seq<char>, c: Seq<char>)
    ensures
        levenshtein(a, b) == 0 <==> a == b,
        levenshtein(a, b) == levenshtein(b, a),
        levenshtein(a, c) <= levenshtein(a, b) + levenshtein(b, c),
{
    law_edit_distance_zero(a, b);
    law_edit_distance_symmetric(a, b);
    law_edit_distance_triangle(a, b, c);
}

} // verus!
