//! Lists of names in order: by code point of a key that each name comes
//! with, which is the name itself or its lower-case form.

use vstd::prelude::*;
use crate::text::{lex_le, lowercase_of, str_le, to_lowercase};

verus! {

/// What a name is ordered by: its lower-case form where case is folded, else
/// the name itself.
pub open spec fn sort_key(name: Seq<char>, fold_case: bool) -> Seq<char> {
    if fold_case {
        lowercase_of(name)
    } else {
        name
    }
}

/// `a` stands before `b`, or may stand at its place.
pub open spec fn name_le(a: Seq<char>, b: Seq<char>, fold_case: bool) -> bool {
    lex_le(sort_key(a, fold_case), sort_key(b, fold_case))
}

/// Each name stands before, or may stand at the place of, every later one.
pub open spec fn ordered(names: Seq<Seq<char>>, fold_case: bool) -> bool {
    forall|i: int, j: int|
        0 <= i <= j < names.len() ==> name_le(#[trigger] names[i], #[trigger] names[j], fold_case)
}

/// Each entry, a name with its key, has a key that stands before, or may
/// stand at the place of, the key of every later one.
pub open spec fn ordered_by_key(entries: Seq<(Seq<char>, Seq<char>)>) -> bool {
    forall|i: int, j: int|
        0 <= i <= j < entries.len() ==> lex_le((#[trigger] entries[i]).1, (#[trigger] entries[j]).1)
}

/// A list of entries in order with `entry` put in: behind every entry whose
/// key may stand before its key, so behind those with an equal key.
pub open spec fn inserted(
    sorted: Seq<(Seq<char>, Seq<char>)>,
    entry: (Seq<char>, Seq<char>),
) -> Seq<(Seq<char>, Seq<char>)>
    decreases sorted.len(),
{
    if sorted.len() == 0 {
        seq![entry]
    } else if lex_le(sorted.last().1, entry.1) {
        sorted.push(entry)
    } else {
        inserted(sorted.drop_last(), entry).push(sorted.last())
    }
}

/// The entries in order by key, those with equal keys in the order in which
/// they came.
pub open spec fn sorted_by_key(entries: Seq<(Seq<char>, Seq<char>)>) -> Seq<
    (Seq<char>, Seq<char>),
>
    decreases entries.len(),
{
    if entries.len() == 0 {
        Seq::empty()
    } else {
        inserted(sorted_by_key(entries.drop_last()), entries.last())
    }
}

/// The names of the entries.
pub open spec fn names_in(entries: Seq<(Seq<char>, Seq<char>)>) -> Seq<Seq<char>> {
    Seq::new(entries.len(), |i: int| entries[i].0)
}

/// The names, each with the key that it is ordered by.
pub open spec fn keyed(names: Seq<Seq<char>>, fold_case: bool) -> Seq<(Seq<char>, Seq<char>)> {
    Seq::new(names.len(), |i: int| (names[i], sort_key(names[i], fold_case)))
}

/// The names in order, equals in the order in which they came.
pub open spec fn sorted_names(names: Seq<Seq<char>>, fold_case: bool) -> Seq<Seq<char>> {
    names_in(sorted_by_key(keyed(names, fold_case)))
}

/// Every string may stand at its own place.
pub proof fn lemma_lex_le_reflexive(a: Seq<char>)
    ensures
        lex_le(a, a),
    decreases a.len(),
{
    if a.len() > 0 {
        lemma_lex_le_reflexive(a.drop_first());
    }
}

/// Of two strings one stands before the other, or they may change places.
pub proof fn lemma_lex_le_total(a: Seq<char>, b: Seq<char>)
    ensures
        lex_le(a, b) || lex_le(b, a),
    decreases a.len(),
{
    if a.len() > 0 && b.len() > 0 {
        if a[0] == b[0] {
            lemma_lex_le_total(a.drop_first(), b.drop_first());
        }
    }
}

/// The order of strings is transitive.
pub proof fn lemma_lex_le_transitive(a: Seq<char>, b: Seq<char>, c: Seq<char>)
    requires
        lex_le(a, b),
        lex_le(b, c),
    ensures
        lex_le(a, c),
    decreases a.len(),
{
    if a.len() > 0 && b.len() > 0 && c.len() > 0 {
        if a[0] == b[0] && b[0] == c[0] {
            lemma_lex_le_transitive(a.drop_first(), b.drop_first(), c.drop_first());
        }
    }
}

/// Two strings that may change places are the same string.
pub proof fn lemma_lex_le_antisymmetric(a: Seq<char>, b: Seq<char>)
    requires
        lex_le(a, b),
        lex_le(b, a),
    ensures
        a == b,
    decreases a.len(),
{
    if a.len() > 0 && b.len() > 0 {
        lemma_lex_le_antisymmetric(a.drop_first(), b.drop_first());
        assert(a =~= seq![a[0]] + a.drop_first());
        assert(b =~= seq![b[0]] + b.drop_first());
    } else {
        assert(a =~= b);
    }
}

/// Where an entry goes in a list in order: `inserted` puts it at place `p`
/// when the key before may stand before its key and none from `p` on may.
proof fn lemma_inserted_at(
    sorted: Seq<(Seq<char>, Seq<char>)>,
    entry: (Seq<char>, Seq<char>),
    p: int,
)
    requires
        0 <= p <= sorted.len(),
        p > 0 ==> lex_le(sorted[p - 1].1, entry.1),
        forall|j: int| p <= j < sorted.len() ==> !lex_le((#[trigger] sorted[j]).1, entry.1),
    ensures
        inserted(sorted, entry) == sorted.insert(p, entry),
    decreases sorted.len() - p,
{
    if sorted.len() == 0 {
        assert(sorted.insert(p, entry) =~= seq![entry]);
    } else if p == sorted.len() {
        assert(sorted.insert(p, entry) =~= sorted.push(entry));
    } else {
        assert(!lex_le(sorted[sorted.len() - 1].1, entry.1));
        let front = sorted.drop_last();
        assert forall|j: int| p <= j < front.len() implies !lex_le(
            (#[trigger] front[j]).1,
            entry.1,
        ) by {
            assert(front[j] == sorted[j]);
        }
        lemma_inserted_at(front, entry, p);
        assert(front.insert(p, entry).push(sorted.last()) =~= sorted.insert(p, entry));
    }
}

/// Putting an entry into a list in order leaves the list in order, and adds
/// that entry and nothing else.
pub proof fn lemma_inserted(sorted: Seq<(Seq<char>, Seq<char>)>, entry: (Seq<char>, Seq<char>))
    requires
        ordered_by_key(sorted),
    ensures
        ordered_by_key(inserted(sorted, entry)),
        inserted(sorted, entry).len() == sorted.len() + 1,
        inserted(sorted, entry).to_multiset() == sorted.to_multiset().insert(entry),
    decreases sorted.len(),
{
    broadcast use vstd::seq_lib::group_to_multiset_ensures;

    let out = inserted(sorted, entry);
    if sorted.len() == 0 {
        lemma_lex_le_reflexive(entry.1);
        assert(sorted =~= Seq::empty());
        assert(out =~= Seq::<(Seq<char>, Seq<char>)>::empty().push(entry));
    } else if lex_le(sorted.last().1, entry.1) {
        assert forall|i: int, j: int| 0 <= i <= j < out.len() implies lex_le(
            (#[trigger] out[i]).1,
            (#[trigger] out[j]).1,
        ) by {
            if j == sorted.len() {
                if i < sorted.len() {
                    lemma_lex_le_transitive(sorted[i].1, sorted.last().1, entry.1);
                } else {
                    lemma_lex_le_reflexive(entry.1);
                }
            }
        }
    } else {
        let front = sorted.drop_last();
        lemma_inserted(front, entry);
        let mid = inserted(front, entry);
        lemma_lex_le_total(sorted.last().1, entry.1);
        assert(sorted =~= front.push(sorted.last()));
        assert forall|i: int, j: int| 0 <= i <= j < out.len() implies lex_le(
            (#[trigger] out[i]).1,
            (#[trigger] out[j]).1,
        ) by {
            if j == mid.len() {
                if i < mid.len() {
                    assert(mid.to_multiset().count(mid[i]) > 0);
                    if mid[i] != entry {
                        assert(front.to_multiset().count(mid[i]) > 0);
                        assert(front.contains(mid[i]));
                        let k = choose|k: int| 0 <= k < front.len() && front[k] == mid[i];
                        assert(lex_le(sorted[k].1, sorted[sorted.len() - 1].1));
                    }
                } else {
                    lemma_lex_le_reflexive(sorted.last().1);
                }
            } else {
                assert(lex_le(mid[i].1, mid[j].1));
            }
        }
        assert(out.to_multiset() =~= sorted.to_multiset().insert(entry));
    }
}

/// The entries in order are in order by key, and are the same entries, each
/// as often.
pub proof fn lemma_sorted_by_key(entries: Seq<(Seq<char>, Seq<char>)>)
    ensures
        ordered_by_key(sorted_by_key(entries)),
        sorted_by_key(entries).len() == entries.len(),
        sorted_by_key(entries).to_multiset() == entries.to_multiset(),
    decreases entries.len(),
{
    broadcast use vstd::seq_lib::group_to_multiset_ensures;

    if entries.len() == 0 {
        assert(entries =~= Seq::empty());
    } else {
        lemma_sorted_by_key(entries.drop_last());
        lemma_inserted(sorted_by_key(entries.drop_last()), entries.last());
        assert(entries =~= entries.drop_last().push(entries.last()));
    }
}

/// The names of a list with one more entry put in are the names of the list
/// and the name of that entry.
proof fn lemma_names_in_inserted(
    sorted: Seq<(Seq<char>, Seq<char>)>,
    entry: (Seq<char>, Seq<char>),
)
    ensures
        names_in(inserted(sorted, entry)).to_multiset() == names_in(sorted).to_multiset().insert(
            entry.0,
        ),
    decreases sorted.len(),
{
    broadcast use vstd::seq_lib::group_to_multiset_ensures;

    if sorted.len() == 0 {
        assert(names_in(sorted) =~= Seq::empty());
        assert(names_in(inserted(sorted, entry)) =~= Seq::<Seq<char>>::empty().push(entry.0));
    } else if lex_le(sorted.last().1, entry.1) {
        assert(names_in(sorted.push(entry)) =~= names_in(sorted).push(entry.0));
    } else {
        let front = sorted.drop_last();
        lemma_names_in_inserted(front, entry);
        assert(names_in(inserted(front, entry).push(sorted.last())) =~= names_in(
            inserted(front, entry),
        ).push(sorted.last().0));
        assert(names_in(sorted) =~= names_in(front).push(sorted.last().0));
        assert(names_in(inserted(sorted, entry)).to_multiset() =~= names_in(
            sorted,
        ).to_multiset().insert(entry.0));
    }
}

/// The names in order are ordered, and are the same names, each as often.
pub proof fn lemma_sorted_names(names: Seq<Seq<char>>, fold_case: bool)
    ensures
        ordered(sorted_names(names, fold_case), fold_case),
        sorted_names(names, fold_case).len() == names.len(),
        sorted_names(names, fold_case).to_multiset() == names.to_multiset(),
    decreases names.len(),
{
    broadcast use vstd::seq_lib::group_to_multiset_ensures;

    let entries = keyed(names, fold_case);
    let sorted = sorted_by_key(entries);
    lemma_sorted_by_key(entries);
    assert forall|i: int, j: int| 0 <= i <= j < sorted.len() implies name_le(
        #[trigger] names_in(sorted)[i],
        #[trigger] names_in(sorted)[j],
        fold_case,
    ) by {
        lemma_entry_is_keyed(names, fold_case, sorted[i]);
        lemma_entry_is_keyed(names, fold_case, sorted[j]);
        assert(lex_le(sorted[i].1, sorted[j].1));
    }
    if names.len() == 0 {
        assert(names =~= Seq::empty());
        assert(names_in(sorted) =~= Seq::empty());
    } else {
        let front = names.drop_last();
        lemma_sorted_names(front, fold_case);
        assert(entries.drop_last() =~= keyed(front, fold_case));
        lemma_names_in_inserted(sorted_by_key(keyed(front, fold_case)), entries.last());
        assert(names =~= front.push(names.last()));
    }
}

/// Every entry of the names in order is a name with its own key.
proof fn lemma_entry_is_keyed(
    names: Seq<Seq<char>>,
    fold_case: bool,
    entry: (Seq<char>, Seq<char>),
)
    requires
        sorted_by_key(keyed(names, fold_case)).contains(entry),
    ensures
        entry.1 == sort_key(entry.0, fold_case),
{
    broadcast use vstd::seq_lib::group_to_multiset_ensures;

    let entries = keyed(names, fold_case);
    lemma_sorted_by_key(entries);
    assert(sorted_by_key(entries).to_multiset().count(entry) > 0);
    assert(entries.to_multiset().count(entry) > 0);
    assert(entries.contains(entry));
}

/// A list that is in order stays as it is.
pub proof fn lemma_sorted_names_of_ordered(names: Seq<Seq<char>>, fold_case: bool)
    requires
        ordered(names, fold_case),
    ensures
        sorted_names(names, fold_case) == names,
        sorted_by_key(keyed(names, fold_case)) == keyed(names, fold_case),
    decreases names.len(),
{
    let entries = keyed(names, fold_case);
    if names.len() == 0 {
        assert(names =~= Seq::empty());
        assert(entries =~= Seq::empty());
        assert(names_in(sorted_by_key(entries)) =~= names);
    } else {
        let front = names.drop_last();
        assert(ordered(front, fold_case)) by {
            assert forall|i: int, j: int| 0 <= i <= j < front.len() implies name_le(
                #[trigger] front[i],
                #[trigger] front[j],
                fold_case,
            ) by {
                assert(name_le(names[i], names[j], fold_case));
            }
        }
        lemma_sorted_names_of_ordered(front, fold_case);
        assert(entries.drop_last() =~= keyed(front, fold_case));
        if front.len() > 0 {
            assert(name_le(names[front.len() - 1], names[names.len() - 1], fold_case));
            assert(keyed(front, fold_case).last().1 == sort_key(names[front.len() - 1], fold_case));
        }
        assert(keyed(front, fold_case).push(entries.last()) =~= entries);
        assert(names_in(entries) =~= names);
    }
}

/// No two different names of the list have the same key.
pub open spec fn keys_tell_apart(names: Seq<Seq<char>>, fold_case: bool) -> bool {
    forall|i: int, j: int|
        0 <= i < names.len() && 0 <= j < names.len() && sort_key(names[i], fold_case) == sort_key(
            names[j],
            fold_case,
        ) ==> names[i] == names[j]
}

/// Two lists in order that hold the same names, each as often, are the same
/// list, as long as no two different names have the same key.
pub proof fn lemma_ordered_is_unique(a: Seq<Seq<char>>, b: Seq<Seq<char>>, fold_case: bool)
    requires
        ordered(a, fold_case),
        ordered(b, fold_case),
        a.to_multiset() == b.to_multiset(),
        keys_tell_apart(a, fold_case),
    ensures
        a == b,
    decreases a.len(),
{
    broadcast use vstd::seq_lib::group_to_multiset_ensures;

    a.to_multiset_ensures();
    b.to_multiset_ensures();
    assert(a.len() == b.len()) by {
        assert(a.to_multiset().len() == a.len());
        assert(b.to_multiset().len() == b.len());
    }
    if a.len() == 0 {
        assert(a =~= b);
    } else {
        let x = a.last();
        let y = b.last();
        // each last name is one of the other list, so stands before its last name
        assert(a.to_multiset().count(x) > 0) by {
            assert(a[a.len() - 1] == x);
            assert(a.contains(x));
        }
        assert(b.contains(x));
        let k = choose|k: int| 0 <= k < b.len() && b[k] == x;
        assert(name_le(b[k], b[b.len() - 1], fold_case));
        assert(b.to_multiset().count(y) > 0) by {
            assert(b[b.len() - 1] == y);
            assert(b.contains(y));
        }
        assert(a.contains(y));
        let m = choose|m: int| 0 <= m < a.len() && a[m] == y;
        assert(name_le(a[m], a[a.len() - 1], fold_case));
        lemma_lex_le_antisymmetric(sort_key(x, fold_case), sort_key(y, fold_case));
        assert(x == y) by {
            assert(sort_key(a[m], fold_case) == sort_key(a[a.len() - 1], fold_case));
        }
        let a_front = a.drop_last();
        let b_front = b.drop_last();
        assert(a =~= a_front.push(x));
        assert(b =~= b_front.push(y));
        assert(a_front.to_multiset() =~= b_front.to_multiset()) by {
            assert(a.to_multiset() == a_front.to_multiset().insert(x));
            assert(b.to_multiset() == b_front.to_multiset().insert(x));
            assert forall|v: Seq<char>| a_front.to_multiset().count(v) == b_front.to_multiset().count(
                v,
            ) by {
                assert(a_front.to_multiset().insert(x).count(v) == b_front.to_multiset().insert(
                    x,
                ).count(v));
            }
        }
        assert(ordered(a_front, fold_case)) by {
            assert forall|i: int, j: int| 0 <= i <= j < a_front.len() implies name_le(
                #[trigger] a_front[i],
                #[trigger] a_front[j],
                fold_case,
            ) by {
                assert(name_le(a[i], a[j], fold_case));
            }
        }
        assert(ordered(b_front, fold_case)) by {
            assert forall|i: int, j: int| 0 <= i <= j < b_front.len() implies name_le(
                #[trigger] b_front[i],
                #[trigger] b_front[j],
                fold_case,
            ) by {
                assert(name_le(b[i], b[j], fold_case));
            }
        }
        assert(keys_tell_apart(a_front, fold_case)) by {
            assert forall|i: int, j: int|
                0 <= i < a_front.len() && 0 <= j < a_front.len() && sort_key(
                    a_front[i],
                    fold_case,
                ) == sort_key(a_front[j], fold_case) implies a_front[i] == a_front[j] by {
                assert(a[i] == a_front[i] && a[j] == a_front[j]);
            }
        }
        lemma_ordered_is_unique(a_front, b_front, fold_case);
    }
}

/// The order in which names come makes no difference to the names in order,
/// as long as no two different names have the same key: two lists that hold
/// the same names, each as often, give the same list.
pub proof fn law_sorted_names_ignore_order(a: Seq<Seq<char>>, b: Seq<Seq<char>>, fold_case: bool)
    requires
        a.to_multiset() == b.to_multiset(),
        keys_tell_apart(a, fold_case),
    ensures
        sorted_names(a, fold_case) == sorted_names(b, fold_case),
{
    broadcast use vstd::seq_lib::group_to_multiset_ensures;

    lemma_sorted_names(a, fold_case);
    lemma_sorted_names(b, fold_case);
    let sorted = sorted_names(a, fold_case);
    assert(keys_tell_apart(sorted, fold_case)) by {
        assert forall|i: int, j: int|
            0 <= i < sorted.len() && 0 <= j < sorted.len() && sort_key(sorted[i], fold_case)
                == sort_key(sorted[j], fold_case) implies sorted[i] == sorted[j] by {
            assert(sorted.contains(sorted[i]));
            assert(sorted.contains(sorted[j]));
            assert(a.to_multiset().count(sorted[i]) > 0);
            assert(a.to_multiset().count(sorted[j]) > 0);
            assert(a.contains(sorted[i]));
            assert(a.contains(sorted[j]));
            let p = choose|p: int| 0 <= p < a.len() && a[p] == sorted[i];
            let q = choose|q: int| 0 <= q < a.len() && a[q] == sorted[j];
            assert(sort_key(a[p], fold_case) == sort_key(a[q], fold_case));
        }
    }
    lemma_ordered_is_unique(sorted, sorted_names(b, fold_case), fold_case);
}

/// By code point, the order in which names come never makes a difference to
/// the names in order.
pub proof fn law_sorted_by_code_point_ignores_order(a: Seq<Seq<char>>, b: Seq<Seq<char>>)
    requires
        a.to_multiset() == b.to_multiset(),
    ensures
        sorted_names(a, false) == sorted_names(b, false),
{
    law_sorted_names_ignore_order(a, b, false);
}

/// The list of entries that two lists of the same length stand for: each
/// name of the first with the key at its place in the second.
pub open spec fn paired(names: Seq<Seq<char>>, keys: Seq<Seq<char>>) -> Seq<
    (Seq<char>, Seq<char>),
> {
    Seq::new(names.len(), |i: int| (names[i], keys[i]))
}

/// Puts names in order by the keys that they come with: by code point of
/// the key, names with equal keys in the order in which they came.
pub fn sort_by_key(entries: Vec<(String, String)>) -> (sorted: Vec<String>)
    ensures
        sorted.deep_view() == names_in(sorted_by_key(entries.deep_view())),
{
    let ghost all = entries.deep_view();
    let mut out: Vec<String> = Vec::new();
    let mut keys: Vec<String> = Vec::new();
    assert(paired(out.deep_view(), keys.deep_view()) =~= sorted_by_key(all.take(0)));
    for entry in it: entries
        invariant
            it.seq() == entries@,
            all == entries.deep_view(),
            keys@.len() == out@.len(),
            paired(out.deep_view(), keys.deep_view()) == sorted_by_key(
                all.take(it.index() as int),
            ),
    {
        let ghost before = paired(out.deep_view(), keys.deep_view());
        let ghost n = it.index() as int;
        let (name, key) = entry;
        let mut p: usize = out.len();
        while p > 0 && !str_le(keys[p - 1].as_str(), key.as_str())
            invariant
                p <= out@.len(),
                keys@.len() == out@.len(),
                before == paired(out.deep_view(), keys.deep_view()),
                forall|j: int| p <= j < before.len() ==> !lex_le((#[trigger] before[j]).1, key@),
            decreases p,
        {
            p -= 1;
            assert(before[p as int].1 == keys@[p as int]@);
        }
        proof {
            if p > 0 {
                assert(before[p - 1].1 == keys@[p - 1]@);
            }
            lemma_inserted_at(before, (name@, key@), p as int);
            assert(all.take(n + 1).drop_last() =~= all.take(n));
            assert(all.take(n + 1).last() == (name@, key@));
        }
        out.insert(p, name);
        keys.insert(p, key);
        assert(paired(out.deep_view(), keys.deep_view()) =~= before.insert(
            p as int,
            (name@, key@),
        ));
    }
    assert(all.take(entries@.len() as int) =~= all);
    assert(out.deep_view() =~= names_in(paired(out.deep_view(), keys.deep_view())));
    out
}

fn key_of(name: &String, fold_case: bool) -> (key: String)
    ensures
        key@ == sort_key(name@, fold_case),
{
    if fold_case {
        to_lowercase(name.as_str())
    } else {
        name.clone()
    }
}

/// Puts the names in order, by code point of the lower-case form where
/// `fold_case` is set and of the name itself where not; equals stay in the
/// order in which they came.
pub fn sort_names(names: Vec<String>, fold_case: bool) -> (sorted: Vec<String>)
    ensures
        sorted.deep_view() == sorted_names(names.deep_view(), fold_case),
{
    let ghost all = names.deep_view();
    let mut entries: Vec<(String, String)> = Vec::new();
    assert(entries.deep_view() =~= keyed(all.take(0), fold_case));
    for name in it: names
        invariant
            it.seq() == names@,
            all == names.deep_view(),
            entries.deep_view() == keyed(all.take(it.index() as int), fold_case),
    {
        let ghost before = entries.deep_view();
        let ghost n = it.index() as int;
        let key = key_of(&name, fold_case);
        entries.push((name, key));
        assert(entries.deep_view() =~= before.push((name@, key@)));
        assert(entries.deep_view() =~= keyed(all.take(n + 1), fold_case));
    }
    assert(all.take(names@.len() as int) =~= all);
    sort_by_key(entries)
}

} // verus!
