//! The directory tree listing of a GitOps repository: which entries it
//! shows, in which order, and how each line is drawn. Reading directories
//! is left to the caller.
use vstd::prelude::*;

use crate::completion::label_le;
use crate::text::{chars_of, concat, string_of};

verus! {

/// An entry of a directory: its name and whether it is a directory.
#[derive(Debug)]
pub struct TreeEntry {
    pub name: String,
    pub is_dir: bool,
}

/// The content of an entry.
pub open spec fn entry_view(e: TreeEntry) -> (Seq<char>, bool) {
    (e.name@, e.is_dir)
}

/// The contents of a list of entries.
pub open spec fn entry_views(v: Seq<TreeEntry>) -> Seq<(Seq<char>, bool)> {
    Seq::new(v.len(), |i: int| entry_view(v[i]))
}

/// Names the tree leaves out: version-control and editor files, installed
/// packages and build output.
pub open spec fn tree_hidden(name: Seq<char>) -> bool {
    ||| name == ".git"@
    ||| name == ".DS_Store"@
    ||| name == "node_modules"@
    ||| name == "target"@
    ||| name == "dist"@
    ||| name == ".gitkeep"@
}

/// Whether the tree leaves out an entry of this name.
pub fn is_tree_hidden(name: &str) -> (r: bool)
    ensures
        r == tree_hidden(name@),
{
    let n = chars_of(name);
    crate::text::eq_str(&n, ".git") || crate::text::eq_str(&n, ".DS_Store") || crate::text::eq_str(&n, "node_modules")
        || crate::text::eq_str(&n, "target") || crate::text::eq_str(&n, "dist") || crate::text::eq_str(&n, ".gitkeep")
}

/// The entries the tree does not leave out.
pub open spec fn shown() -> spec_fn((Seq<char>, bool)) -> bool {
    |e: (Seq<char>, bool)| !tree_hidden(e.0)
}

/// `a` is listed no later than `b`: directories before files, then by name.
pub open spec fn entry_le(a: (Seq<char>, bool), b: (Seq<char>, bool)) -> bool {
    (a.1 && !b.1) || (a.1 == b.1 && label_le(a.0, b.0))
}

/// `x` placed into an ordered list after every entry listed no later than it.
pub open spec fn insert_entry(s: Seq<(Seq<char>, bool)>, x: (Seq<char>, bool)) -> Seq<(Seq<char>, bool)>
    decreases s.len(),
{
    if s.len() == 0 {
        seq![x]
    } else if entry_le(s.last(), x) {
        s.push(x)
    } else {
        insert_entry(s.drop_last(), x).push(s.last())
    }
}

/// The entries the tree shows, stably ordered: directories first, then by
/// name.
pub open spec fn tree_order(s: Seq<(Seq<char>, bool)>) -> Seq<(Seq<char>, bool)>
    decreases s.len(),
{
    if s.len() == 0 {
        s
    } else if tree_hidden(s.last().0) {
        tree_order(s.drop_last())
    } else {
        insert_entry(tree_order(s.drop_last()), s.last())
    }
}

proof fn lemma_insert_entry_multiset(s: Seq<(Seq<char>, bool)>, x: (Seq<char>, bool))
    ensures
        insert_entry(s, x).to_multiset() =~= s.to_multiset().insert(x),
    decreases s.len(),
{
    broadcast use vstd::seq_lib::group_to_multiset_ensures;

    if s.len() == 0 {
        assert(seq![x] =~= Seq::<(Seq<char>, bool)>::empty().push(x));
    } else if !entry_le(s.last(), x) {
        lemma_insert_entry_multiset(s.drop_last(), x);
        assert(s =~= s.drop_last().push(s.last()));
    }
}

/// The tree shows exactly the entries whose names are not hidden, each
/// once: its listing is the visible entries, rearranged.
pub proof fn law_tree_shows_visible_entries(s: Seq<(Seq<char>, bool)>)
    ensures
        tree_order(s).to_multiset() =~= s.filter(shown()).to_multiset(),
    decreases s.len(),
{
    broadcast use vstd::seq_lib::group_to_multiset_ensures;

    if s.len() > 0 {
        let p = s.drop_last();
        law_tree_shows_visible_entries(p);
        assert(s =~= p.push(s.last()));
        p.lemma_filter_push(s.last(), shown());
        if !tree_hidden(s.last().0) {
            lemma_insert_entry_multiset(tree_order(p), s.last());
        }
    } else {
        s.lemma_filter_len(shown());
        assert(s.filter(shown()) =~= Seq::<(Seq<char>, bool)>::empty());
    }
}

fn entry_le_exec(a: &TreeEntry, b: &TreeEntry) -> (r: bool)
    ensures
        r == entry_le(entry_view(*a), entry_view(*b)),
{
    (a.is_dir && !b.is_dir) || (a.is_dir == b.is_dir && crate::completion::label_le_exec(
        &chars_of(a.name.as_str()),
        &chars_of(b.name.as_str()),
    ))
}

fn insert_entry_exec(out: &mut Vec<TreeEntry>, x: TreeEntry)
    ensures
        entry_views(final(out)@) == insert_entry(entry_views(old(out)@), entry_view(x)),
{
    let ghost s = entry_views(out@);
    let ghost xv = entry_view(x);
    let mut j = out.len();
    assert(s.take(j as int) =~= s);
    assert(s.skip(j as int) =~= Seq::<(Seq<char>, bool)>::empty());
    loop
        invariant
            j <= out.len(),
            entry_views(out@) == s,
            xv == entry_view(x),
            insert_entry(s, xv) == insert_entry(s.take(j as int), xv) + s.skip(j as int),
        ensures
            j <= out.len(),
            entry_views(out@) == s,
            insert_entry(s, xv) == s.take(j as int).push(xv) + s.skip(j as int),
        decreases j,
    {
        if j == 0 {
            assert(s.take(0) =~= Seq::<(Seq<char>, bool)>::empty());
            assert(insert_entry(s.take(0), xv) =~= seq![xv]);
            break;
        }
        let le = entry_le_exec(&out[j - 1], &x);
        assert(s[j - 1] == entry_view(out@[j - 1]));
        assert(s.take(j as int).last() == s[j - 1]);
        assert(s.take(j as int).drop_last() =~= s.take(j - 1));
        if le {
            break;
        }
        assert(s.skip(j - 1) =~= seq![s[j - 1]] + s.skip(j as int));
        assert(insert_entry(s.take(j as int), xv) + s.skip(j as int) =~= insert_entry(s.take(j - 1), xv) + s.skip(
            j - 1,
        ));
        j -= 1;
    }
    out.insert(j, x);
    assert(entry_views(out@) =~= s.take(j as int).push(xv) + s.skip(j as int));
}

/// The entries of a directory as the tree shows them: hidden names left
/// out, directories first, then by name.
pub fn order_tree_entries(entries: &Vec<TreeEntry>) -> (r: Vec<TreeEntry>)
    ensures
        entry_views(r@) == tree_order(entry_views(entries@)),
{
    let ghost ev = entry_views(entries@);
    let mut out: Vec<TreeEntry> = Vec::new();
    let mut i: usize = 0;
    assert(entry_views(out@) =~= tree_order(ev.take(0)));
    while i < entries.len()
        invariant
            i <= entries.len(),
            ev == entry_views(entries@),
            entry_views(out@) == tree_order(ev.take(i as int)),
        decreases entries.len() - i,
    {
        let e = &entries[i];
        assert(ev.take(i + 1).drop_last() =~= ev.take(i as int));
        assert(ev.take(i + 1).last() == entry_view(*e));
        if !is_tree_hidden(e.name.as_str()) {
            let copy = TreeEntry { name: e.name.clone(), is_dir: e.is_dir };
            insert_entry_exec(&mut out, copy);
        }
        i += 1;
    }
    assert(ev.take(entries.len() as int) =~= ev);
    out
}

/// The line drawn for an entry: the prefix, a branch (a corner for the last
/// entry), and the name.
pub open spec fn tree_line(prefix: Seq<char>, name: Seq<char>, is_last: bool) -> Seq<char> {
    prefix + (if is_last {
        "└── "@
    } else {
        "├── "@
    }) + name
}

/// The prefix for the entries of a subdirectory: blank under the last
/// entry, a vertical bar otherwise.
pub open spec fn child_prefix(prefix: Seq<char>, is_last: bool) -> Seq<char> {
    prefix + if is_last {
        "    "@
    } else {
        "│   "@
    }
}

/// Draws the line for an entry.
pub fn tree_line_exec(prefix: &str, name: &str, is_last: bool) -> (r: String)
    ensures
        r@ == tree_line(prefix@, name@, is_last),
{
    let connector = if is_last {
        "└── "
    } else {
        "├── "
    };
    string_of(&concat(&concat(&chars_of(prefix), &chars_of(connector)), &chars_of(name)))
}

/// The prefix for the entries of a subdirectory.
pub fn tree_child_prefix(prefix: &str, is_last: bool) -> (r: String)
    ensures
        r@ == child_prefix(prefix@, is_last),
{
    let pad = if is_last {
        "    "
    } else {
        "│   "
    };
    string_of(&concat(&chars_of(prefix), &chars_of(pad)))
}

} // verus!
