//! The listing of a plugin directory: which entries are artifacts, and in what
//! order they run.

use vstd::prelude::*;
use crate::text::{chars_of, ends_with, has_suffix};

verus! {

/// The suffix that marks a file as a plugin artifact.
pub open spec fn artifact_suffix() -> Seq<char> {
    seq!['.', 'w', 'a', 's', 'm']
}

/// Whether a directory entry of this name is a plugin artifact.
pub open spec fn is_artifact_name(name: Seq<char>) -> bool {
    has_suffix(name, artifact_suffix())
}

/// The lexicographic order of names, character by character; a name comes
/// before every longer name that it begins.
pub open spec fn name_le(a: Seq<char>, b: Seq<char>) -> bool
    decreases a.len(),
{
    if a.len() == 0 {
        true
    } else if b.len() == 0 {
        false
    } else if a[0] != b[0] {
        a[0] < b[0]
    } else {
        name_le(a.drop_first(), b.drop_first())
    }
}

/// Whether `names` stands in lexicographic order.
pub open spec fn names_sorted(names: Seq<Seq<char>>) -> bool {
    forall|i: int, j: int| 0 <= i <= j < names.len() ==> name_le(names[i], names[j])
}

/// The artifacts among `entries`, in the order of `entries`.
pub open spec fn artifacts_among(entries: Seq<Seq<char>>) -> Seq<Seq<char>> {
    entries.filter(|name: Seq<char>| is_artifact_name(name))
}

pub proof fn lemma_name_le_reflexive(a: Seq<char>)
    ensures
        name_le(a, a),
    decreases a.len(),
{
    if a.len() > 0 {
        lemma_name_le_reflexive(a.drop_first());
    }
}

pub proof fn lemma_name_le_total(a: Seq<char>, b: Seq<char>)
    ensures
        name_le(a, b) || name_le(b, a),
    decreases a.len(),
{
    if a.len() > 0 && b.len() > 0 && a[0] == b[0] {
        lemma_name_le_total(a.drop_first(), b.drop_first());
    }
}

pub proof fn lemma_name_le_transitive(a: Seq<char>, b: Seq<char>, c: Seq<char>)
    requires
        name_le(a, b),
        name_le(b, c),
    ensures
        name_le(a, c),
    decreases a.len(),
{
    if a.len() > 0 && b.len() > 0 && c.len() > 0 && a[0] == b[0] && b[0] == c[0] {
        lemma_name_le_transitive(a.drop_first(), b.drop_first(), c.drop_first());
    }
}

pub proof fn lemma_name_le_antisymmetric(a: Seq<char>, b: Seq<char>)
    requires
        name_le(a, b),
        name_le(b, a),
    ensures
        a == b,
    decreases a.len(),
{
    if a.len() > 0 && b.len() > 0 {
        lemma_name_le_antisymmetric(a.drop_first(), b.drop_first());
        assert(a =~= seq![a[0]] + a.drop_first());
        assert(b =~= seq![b[0]] + b.drop_first());
    } else {
        assert(a =~= b);
    }
}

/// Whether `order` is the running order of the artifacts among `entries`:
/// it holds exactly these artifacts, each as often as `entries` does, sorted.
pub open spec fn is_running_order(entries: Seq<Seq<char>>, order: Seq<Seq<char>>) -> bool {
    names_sorted(order) && order.to_multiset() == artifacts_among(entries).to_multiset()
}

/// The artifacts among `entries` in the order in which they run.
pub open spec fn running_order(entries: Seq<Seq<char>>) -> Seq<Seq<char>> {
    choose|order: Seq<Seq<char>>| is_running_order(entries, order)
}

/// There is one running order only.
pub proof fn lemma_running_order_unique(
    entries: Seq<Seq<char>>,
    first: Seq<Seq<char>>,
    second: Seq<Seq<char>>,
)
    requires
        is_running_order(entries, first),
        is_running_order(entries, second),
    ensures
        first == second,
{
    let le = |a: Seq<char>, b: Seq<char>| name_le(a, b);
    assert(vstd::relations::total_ordering(le)) by {
        assert forall|a: Seq<char>| #[trigger] le(a, a) by {
            lemma_name_le_reflexive(a);
        }
        assert forall|a: Seq<char>, b: Seq<char>| #[trigger] le(a, b) && #[trigger] le(b, a) implies a
            == b by {
            lemma_name_le_antisymmetric(a, b);
        }
        assert forall|a: Seq<char>, b: Seq<char>, c: Seq<char>| #[trigger]
            le(a, b) && #[trigger] le(b, c) implies le(a, c) by {
            lemma_name_le_transitive(a, b, c);
        }
        assert forall|a: Seq<char>, b: Seq<char>| #[trigger] le(a, b) || #[trigger] le(b, a) by {
            lemma_name_le_total(a, b);
        }
    }
    assert(vstd::relations::sorted_by(first, le));
    assert(vstd::relations::sorted_by(second, le));
    vstd::seq_lib::lemma_sorted_unique(first, second, le);
}

fn chars_le(a: &Vec<char>, b: &Vec<char>) -> (r: bool)
    ensures
        r == name_le(a@, b@),
{
    let mut i: usize = 0;
    assert(a@.skip(0) =~= a@ && b@.skip(0) =~= b@);
    while i < a.len() && i < b.len()
        invariant
            i <= a.len(),
            i <= b.len(),
            name_le(a@, b@) == name_le(a@.skip(i as int), b@.skip(i as int)),
        decreases a.len() - i,
    {
        let ghost ra = a@.skip(i as int);
        let ghost rb = b@.skip(i as int);
        assert(ra[0] == a@[i as int] && rb[0] == b@[i as int]);
        if a[i] != b[i] {
            return a[i] < b[i];
        }
        assert(ra.drop_first() =~= a@.skip(i + 1));
        assert(rb.drop_first() =~= b@.skip(i + 1));
        i = i + 1;
    }
    i == a.len()
}

/// Where `name` goes among the sorted `plugins`: behind every name that is not
/// greater.
fn insertion_point(plugins: &Vec<String>, name: &Vec<char>) -> (p: usize)
    ensures
        p <= plugins.len(),
        forall|k: int| 0 <= k < p ==> name_le(#[trigger] plugins.deep_view()[k], name@),
        p < plugins.len() ==> !name_le(plugins.deep_view()[p as int], name@),
{
    let mut p: usize = 0;
    while p < plugins.len()
        invariant
            p <= plugins.len(),
            forall|k: int| 0 <= k < p ==> name_le(#[trigger] plugins.deep_view()[k], name@),
        decreases plugins.len() - p,
    {
        let here = chars_of(plugins[p].as_str());
        assert(plugins.deep_view()[p as int] == here@);
        if !chars_le(&here, name) {
            return p;
        }
        p = p + 1;
    }
    p
}

/// The plugin artifacts among the entries of a directory, in the order in
/// which they run: the names that end in `.wasm`, sorted lexicographically.
/// An empty result is no error.
pub fn get_plugins_from_path(entries: &Vec<String>) -> (plugins: Vec<String>)
    ensures
        names_sorted(plugins.deep_view()),
        plugins.deep_view().to_multiset() == artifacts_among(entries.deep_view()).to_multiset(),
        plugins.deep_view() == running_order(entries.deep_view()),
{
    let ghost all = entries.deep_view();
    let ghost wanted = |name: Seq<char>| is_artifact_name(name);
    let suffix = chars_of(".wasm");
    proof {
        reveal_strlit(".wasm");
        assert(suffix@ =~= artifact_suffix());
        assert(all.take(0).filter(wanted) =~= Seq::<Seq<char>>::empty()) by {
            reveal(Seq::filter);
        }
    }
    let mut plugins: Vec<String> = Vec::new();
    assert(plugins.deep_view() =~= Seq::<Seq<char>>::empty());
    let mut i: usize = 0;
    while i < entries.len()
        invariant
            i <= entries.len(),
            all == entries.deep_view(),
            wanted == |name: Seq<char>| is_artifact_name(name),
            suffix@ == artifact_suffix(),
            names_sorted(plugins.deep_view()),
            plugins.deep_view().to_multiset() == all.take(i as int).filter(wanted).to_multiset(),
        decreases entries.len() - i,
    {
        let name = chars_of(entries[i].as_str());
        assert(all[i as int] == name@);
        proof {
            assert(all.take(i + 1) =~= all.take(i as int).push(name@));
            Seq::lemma_filter_push(all.take(i as int), name@, wanted);
        }
        if ends_with(&name, &suffix) {
            let ghost before = plugins.deep_view();
            let p = insertion_point(&plugins, &name);
            plugins.insert(p, entries[i].clone());
            assert(plugins.deep_view() =~= before.insert(p as int, name@));
            proof {
                vstd::seq_lib::to_multiset_insert(before, p as int, name@);
                vstd::seq_lib::to_multiset_build(all.take(i as int).filter(wanted), name@);
            }
            assert(names_sorted(plugins.deep_view())) by {
                let after = plugins.deep_view();
                assert forall|x: int, y: int| 0 <= x <= y < after.len() implies name_le(
                    after[x],
                    after[y],
                ) by {
                    if x == y {
                        lemma_name_le_reflexive(after[x]);
                    } else if y == p {
                        assert(after[x] == before[x]);
                    } else if x == p {
                        lemma_name_le_total(before[p as int], name@);
                        lemma_name_le_transitive(name@, before[p as int], before[y - 1]);
                    } else if x < p && y > p {
                        assert(name_le(before[x], before[y - 1]));
                    } else if x < p {
                        assert(name_le(before[x], before[y]));
                    } else {
                        assert(name_le(before[x - 1], before[y - 1]));
                    }
                }
            }
        }
        i = i + 1;
    }
    assert(all.take(entries.len() as int) =~= all);
    proof {
        assert(is_running_order(all, plugins.deep_view()));
        lemma_running_order_unique(all, plugins.deep_view(), running_order(all));
    }
    plugins
}

} // verus!
