//! The labels of an endpoint, in the order of their names.

use crate::index_map::entries;
use crate::text::{self, comes_before};
use indexmap::IndexMap;
use vstd::prelude::*;

verus! {

/// Labels: names and values.
pub type Labels = IndexMap<String, String>;

/// The labels in a map, in its order.
pub uninterp spec fn label_entries(labels: IndexMap<String, String>) -> Seq<
    (Seq<char>, Seq<char>),
>;

/// `IndexMap::default` makes a map without entries.
#[verifier::external_body]
pub(crate) fn new_labels() -> (labels: Labels)
    ensures
        label_entries(labels) == Seq::<(Seq<char>, Seq<char>)>::empty(),
{
    IndexMap::default()
}

/// `IndexMap::insert` keeps the place of a name that is present and puts a new name last.
#[verifier::external_body]
pub(crate) fn insert_label(labels: &mut Labels, name: String, value: String)
    ensures
        label_entries(*final(labels)) == entries::inserted(
            label_entries(*old(labels)),
            name@,
            value@,
        ),
{
    labels.insert(name, value);
}

/// The map that `labels` make, of which the last one of a name counts.
pub open spec fn label_map(labels: Seq<(Seq<char>, Seq<char>)>) -> Map<Seq<char>, Seq<char>>
    decreases labels.len(),
{
    if labels.len() == 0 {
        Map::empty()
    } else {
        label_map(labels.drop_last()).insert(labels.last().0, labels.last().1)
    }
}

/// Whether the names of `labels` ascend.
pub open spec fn ascending(labels: Seq<(Seq<char>, Seq<char>)>) -> bool {
    forall|i: int, j: int|
        0 <= i < j < labels.len() ==> text::precedes(#[trigger] labels[i].0, #[trigger] labels[j].0)
}

/// Whether `labels` are those of `set` and `own`, in the order of their names. Where both have
/// a label of a name, that of `own` counts.
pub open spec fn merged(
    labels: Seq<(Seq<char>, Seq<char>)>,
    set: Seq<(Seq<char>, Seq<char>)>,
    own: Seq<(Seq<char>, Seq<char>)>,
) -> bool {
    &&& ascending(labels)
    &&& entries::as_map(labels) == label_map(set + own)
}

/// Labels whose names ascend have different names.
pub proof fn lemma_ascending_distinct(labels: Seq<(Seq<char>, Seq<char>)>)
    requires
        ascending(labels),
    ensures
        entries::distinct(labels),
{
    assert forall|i: int, j: int| 0 <= i < j < labels.len() implies #[trigger] labels[i].0
        != #[trigger] labels[j].0 by {
        text::lemma_precedes_total(labels[i].0, labels[j].0);
    }
}

/// Putting a label in its place keeps the names ascending and updates the map.
proof fn lemma_put(
    labels: Seq<(Seq<char>, Seq<char>)>,
    i: int,
    name: Seq<char>,
    value: Seq<char>,
)
    requires
        ascending(labels),
        0 <= i <= labels.len(),
        forall|j: int| 0 <= j < i ==> text::precedes(#[trigger] labels[j].0, name),
        i < labels.len() ==> !text::precedes(labels[i].0, name),
    ensures
        ({
            let after = if i < labels.len() && labels[i].0 == name {
                labels.update(i, (name, value))
            } else {
                labels.insert(i, (name, value))
            };
            &&& ascending(after)
            &&& entries::as_map(after) == entries::as_map(labels).insert(name, value)
        }),
{
    lemma_ascending_distinct(labels);
    if i < labels.len() && labels[i].0 == name {
        let after = labels.update(i, (name, value));
        entries::lemma_position(labels, i);
        entries::lemma_inserted(labels, name, value);
        assert(after =~= entries::inserted(labels, name, value));
    } else {
        let after = labels.insert(i, (name, value));
        assert forall|j: int| i <= j < labels.len() implies text::precedes(
            name,
            #[trigger] labels[j].0,
        ) by {
            text::lemma_precedes_total(labels[i].0, name);
            if i < j {
                text::lemma_precedes_trans(name, labels[i].0, labels[j].0);
            }
        }
        assert forall|a: int, b: int| 0 <= a < b < after.len() implies text::precedes(
            #[trigger] after[a].0,
            #[trigger] after[b].0,
        ) by {
            if a < i && b > i {
                assert(after[b] == labels[b - 1]);
                assert(after[a] == labels[a]);
            } else if b < i {
                assert(after[b] == labels[b]);
                assert(after[a] == labels[a]);
            } else if a > i {
                assert(after[b] == labels[b - 1]);
                assert(after[a] == labels[a - 1]);
            } else if a == i {
                assert(after[b] == labels[b - 1]);
            }
        }
        lemma_ascending_distinct(after);
        let before = entries::as_map(labels);
        assert forall|k: Seq<char>|
            entries::has_key(after, k) <==> entries::has_key(labels, k) || k == name by {
            if entries::has_key(labels, k) {
                let p = entries::position(labels, k);
                if p < i {
                    assert(after[p].0 == k);
                } else {
                    assert(after[p + 1].0 == k);
                }
            }
            assert(after[i].0 == name);
            if entries::has_key(after, k) && k != name {
                let p = entries::position(after, k);
                if p < i {
                    assert(labels[p].0 == k);
                } else {
                    assert(labels[p - 1].0 == k);
                }
            }
        }
        assert forall|k: Seq<char>| entries::has_key(after, k) implies (#[trigger] entries::as_map(
            after,
        )[k]) == before.insert(name, value)[k] by {
            let p = entries::position(after, k);
            assert(after[p].0 == k);
            if k == name {
                entries::lemma_position(after, i);
            } else if p < i {
                assert(labels[p].0 == k);
                entries::lemma_position(labels, p);
            } else {
                assert(p != i);
                assert(labels[p - 1].0 == k);
                entries::lemma_position(labels, p - 1);
            }
        }
        assert(entries::as_map(after) =~= before.insert(name, value));
    }
}

fn put(labels: &mut Vec<(String, String)>, name: &String, value: &String)
    requires
        ascending(text::pair_views(old(labels)@)),
    ensures
        ascending(text::pair_views(final(labels)@)),
        entries::as_map(text::pair_views(final(labels)@)) == entries::as_map(
            text::pair_views(old(labels)@),
        ).insert(name@, value@),
{
    let ghost before = text::pair_views(labels@);
    let mut i: usize = 0;
    while i < labels.len() && comes_before(&labels[i].0, name)
        invariant
            i <= labels@.len(),
            before == text::pair_views(labels@),
            forall|j: int| 0 <= j < i ==> text::precedes(#[trigger] before[j].0, name@),
        ensures
            i <= labels@.len(),
            before == text::pair_views(labels@),
            forall|j: int| 0 <= j < i ==> text::precedes(#[trigger] before[j].0, name@),
            i < labels@.len() ==> !text::precedes(before[i as int].0, name@),
        decreases labels@.len() - i,
    {
        assert(before[i as int].0 == labels@[i as int].0@);
        i += 1;
    }
    proof {
        lemma_put(before, i as int, name@, value@);
    }
    if i < labels.len() && labels[i].0 == *name {
        labels.set(i, (name.clone(), value.clone()));
        assert(text::pair_views(labels@) =~= before.update(i as int, (name@, value@)));
    } else {
        labels.insert(i, (name.clone(), value.clone()));
        assert(text::pair_views(labels@) =~= before.insert(i as int, (name@, value@)));
    }
}

fn put_all(labels: &mut Vec<(String, String)>, more: &Vec<(String, String)>, known: Ghost<
    Seq<(Seq<char>, Seq<char>)>,
>)
    requires
        ascending(text::pair_views(old(labels)@)),
        entries::as_map(text::pair_views(old(labels)@)) == label_map(known@),
    ensures
        ascending(text::pair_views(final(labels)@)),
        entries::as_map(text::pair_views(final(labels)@)) == label_map(
            known@ + text::pair_views(more@),
        ),
{
    let ghost added = text::pair_views(more@);
    let mut i: usize = 0;
    assert(known@ + added.take(0) =~= known@);
    while i < more.len()
        invariant
            i <= more@.len(),
            added == text::pair_views(more@),
            ascending(text::pair_views(labels@)),
            entries::as_map(text::pair_views(labels@)) == label_map(known@ + added.take(i as int)),
        decreases more@.len() - i,
    {
        proof {
            let longer = known@ + added.take(i + 1);
            assert(longer.drop_last() =~= known@ + added.take(i as int));
            assert(longer.last() == added[i as int]);
        }
        put(labels, &more[i].0, &more[i].1);
        i += 1;
    }
    assert(added.take(i as int) =~= added);
}

/// The labels of `set` and `own`, in the order of their names. Where both have a label of a
/// name, that of `own` counts.
pub fn merge_labels(set: &Vec<(String, String)>, own: &Vec<(String, String)>) -> (labels: Labels)
    ensures
        merged(label_entries(labels), text::pair_views(set@), text::pair_views(own@)),
{
    let mut sorted: Vec<(String, String)> = Vec::new();
    let ghost empty = Seq::<(Seq<char>, Seq<char>)>::empty();
    assert(text::pair_views(sorted@) =~= empty);
    assert(entries::as_map(empty) =~= label_map(empty));
    put_all(&mut sorted, set, Ghost(empty));
    assert(empty + text::pair_views(set@) =~= text::pair_views(set@));
    put_all(&mut sorted, own, Ghost(text::pair_views(set@)));
    let mut labels = new_labels();
    let ghost all = text::pair_views(sorted@);
    proof {
        lemma_ascending_distinct(all);
    }
    let mut i: usize = 0;
    assert(all.take(0) =~= empty);
    while i < sorted.len()
        invariant
            i <= sorted@.len(),
            all == text::pair_views(sorted@),
            entries::distinct(all),
            label_entries(labels) == all.take(i as int),
        decreases sorted@.len() - i,
    {
        proof {
            if entries::has_key(all.take(i as int), all[i as int].0) {
                let p = entries::position(all.take(i as int), all[i as int].0);
                assert(all[p].0 == all[i as int].0);
            }
            assert(all.take(i + 1) =~= all.take(i as int).push(all[i as int]));
        }
        insert_label(&mut labels, sorted[i].0.clone(), sorted[i].1.clone());
        i += 1;
    }
    assert(all.take(i as int) =~= all);
    labels
}

/// Without its last label a list makes the map without that label.
proof fn lemma_drop_last(labels: Seq<(Seq<char>, Seq<char>)>)
    requires
        entries::distinct(labels),
        labels.len() > 0,
    ensures
        entries::as_map(labels.drop_last()) == entries::as_map(labels).remove(labels.last().0),
{
    let rest = labels.drop_last();
    let last = labels.len() - 1;
    assert(entries::distinct(rest));
    assert forall|k: Seq<char>| #[trigger]
        entries::has_key(rest, k) <==> entries::has_key(labels, k) && k != labels.last().0 by {
        if entries::has_key(rest, k) {
            let p = entries::position(rest, k);
            assert(labels[p].0 == k);
            assert(labels[p].0 != labels[last].0);
        }
        if entries::has_key(labels, k) && k != labels.last().0 {
            let p = entries::position(labels, k);
            assert(labels[p].0 == k);
            assert(rest[p].0 == k);
        }
    }
    assert forall|k: Seq<char>| entries::has_key(rest, k) implies #[trigger] entries::as_map(
        rest,
    )[k] == entries::as_map(labels)[k] by {
        let p = entries::position(rest, k);
        assert(rest[p].0 == k);
        entries::lemma_position(rest, p);
        assert(labels[p].0 == k);
        entries::lemma_position(labels, p);
    }
    assert(entries::as_map(rest) =~= entries::as_map(labels).remove(labels.last().0));
}

/// The labels are determined by what is merged: two lists that are in order and make the same
/// map are the same.
pub proof fn law_merged_labels_are_determined(
    a: Seq<(Seq<char>, Seq<char>)>,
    b: Seq<(Seq<char>, Seq<char>)>,
    set: Seq<(Seq<char>, Seq<char>)>,
    own: Seq<(Seq<char>, Seq<char>)>,
)
    requires
        merged(a, set, own),
        merged(b, set, own),
    ensures
        a == b,
{
    lemma_same_map(a, b);
}

proof fn lemma_same_map(a: Seq<(Seq<char>, Seq<char>)>, b: Seq<(Seq<char>, Seq<char>)>)
    requires
        ascending(a),
        ascending(b),
        entries::as_map(a) == entries::as_map(b),
    ensures
        a == b,
    decreases a.len(),
{
    lemma_ascending_distinct(a);
    lemma_ascending_distinct(b);
    let map = entries::as_map(a);
    if a.len() > 0 {
        entries::lemma_position(a, a.len() - 1);
        assert(map.dom().contains(a.last().0));
        assert(entries::has_key(b, a.last().0));
        let p = entries::position(b, a.last().0);
        assert(b[p].0 == a.last().0);
        entries::lemma_position(b, b.len() - 1);
        assert(entries::as_map(b).dom().contains(b.last().0));
        assert(entries::has_key(a, b.last().0));
        let q = entries::position(a, b.last().0);
        assert(a[q].0 == b.last().0);
        text::lemma_precedes_total(a.last().0, b.last().0);
        if p < b.len() - 1 && q < a.len() - 1 {
            assert(text::precedes(b[p].0, b[b.len() - 1].0));
            assert(text::precedes(a[q].0, a[a.len() - 1].0));
        }
        assert(a.last().0 == b.last().0);
        assert(map[a.last().0] == a.last().1);
        assert(entries::as_map(b)[b.last().0] == b.last().1);
        lemma_drop_last(a);
        lemma_drop_last(b);
        lemma_same_map(a.drop_last(), b.drop_last());
        assert(a =~= a.drop_last().push(a.last()));
        assert(b =~= b.drop_last().push(b.last()));
    } else if b.len() > 0 {
        entries::lemma_position(b, b.len() - 1);
        assert(entries::as_map(b).dom().contains(b.last().0));
        assert(entries::has_key(a, b.last().0));
        assert(false);
    }
    assert(a =~= b);
}

} // verus!
