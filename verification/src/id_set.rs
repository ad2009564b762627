//! Insertion-ordered sets of item identifiers.
//!
//! The sets are `indexmap::IndexSet<u64>`.  Verus sees such a set only through
//! [`ids`], the sequence of its members in insertion order, and through the
//! trusted functions of this file, one for each method of `IndexSet` that the
//! library calls.

use indexmap::IndexSet;
use vstd::prelude::*;

verus! {

#[verifier::external_type_specification]
#[verifier::external_body]
#[verifier::reject_recursive_types(T)]
#[verifier::reject_recursive_types(S)]
pub struct ExIndexSet<T, S>(IndexSet<T, S>);

/// The members of the set, in the order in which they were inserted.
pub uninterp spec fn ids(set: IndexSet<u64>) -> Seq<u64>;

/// `s` with `id` appended unless `s` already holds it.
pub open spec fn insert_id(s: Seq<u64>, id: u64) -> Seq<u64> {
    if s.contains(id) {
        s
    } else {
        s.push(id)
    }
}

/// The distinct members of `s`, each at the place of its first occurrence.
pub open spec fn distinct_ids(s: Seq<u64>) -> Seq<u64>
    decreases s.len(),
{
    if s.len() == 0 {
        Seq::empty()
    } else {
        insert_id(distinct_ids(s.drop_last()), s.last())
    }
}

/// Whether every member of `inner` is a member of `outer`.
pub open spec fn ids_within(inner: Seq<u64>, outer: Seq<u64>) -> bool {
    forall|id: u64| inner.contains(id) ==> outer.contains(id)
}

/// Inserting into a sequence without repetitions leaves it without
/// repetitions, and adds exactly the inserted member.
pub proof fn lemma_insert_id(s: Seq<u64>, id: u64)
    requires
        s.no_duplicates(),
    ensures
        insert_id(s, id).no_duplicates(),
        insert_id(s, id).contains(id),
        forall|x: u64| insert_id(s, id).contains(x) <==> (x == id || s.contains(x)),
{
    let t = insert_id(s, id);
    if s.contains(id) {
    } else {
        assert(t[s.len() as int] == id);
        assert forall|x: u64| t.contains(x) <==> (x == id || s.contains(x)) by {
            if s.contains(x) {
                let i = choose|i: int| 0 <= i < s.len() && s[i] == x;
                assert(t[i] == x);
            }
            if t.contains(x) {
                let i = choose|i: int| 0 <= i < t.len() && t[i] == x;
                if i < s.len() {
                    assert(s[i] == x);
                }
            }
        }
        assert forall|i: int, j: int| 0 <= i < t.len() && 0 <= j < t.len() && i != j implies t[i]
            != t[j] by {
            if i < s.len() && j < s.len() {
            } else if i < s.len() {
                assert(s.contains(s[i]));
            } else {
                assert(s.contains(s[j]));
            }
        }
    }
}

/// The distinct members of a sequence have no repetitions and are the
/// members of the sequence.
pub proof fn lemma_distinct_ids(s: Seq<u64>)
    ensures
        distinct_ids(s).no_duplicates(),
        forall|x: u64| distinct_ids(s).contains(x) <==> s.contains(x),
        distinct_ids(s).len() <= s.len(),
    decreases s.len(),
{
    if s.len() > 0 {
        let init = s.drop_last();
        lemma_distinct_ids(init);
        lemma_insert_id(distinct_ids(init), s.last());
        assert forall|x: u64| distinct_ids(s).contains(x) <==> s.contains(x) by {
            if s.contains(x) {
                let i = choose|i: int| 0 <= i < s.len() && s[i] == x;
                if i < s.len() - 1 {
                    assert(init[i] == x);
                }
            }
            if init.contains(x) {
                let i = choose|i: int| 0 <= i < init.len() && init[i] == x;
                assert(s[i] == x);
            }
            assert(s[s.len() - 1] == s.last());
        }
    }
}

/// A sequence without repetitions is its own sequence of distinct members.
pub proof fn lemma_distinct_ids_of_distinct(s: Seq<u64>)
    requires
        s.no_duplicates(),
    ensures
        distinct_ids(s) == s,
    decreases s.len(),
{
    if s.len() > 0 {
        let init = s.drop_last();
        assert(init.no_duplicates()) by {
            assert forall|i: int, j: int| 0 <= i < init.len() && 0 <= j < init.len() && i != j implies init[i]
                != init[j] by {
                assert(init[i] == s[i] && init[j] == s[j]);
            }
        }
        lemma_distinct_ids_of_distinct(init);
        if init.contains(s.last()) {
            let i = choose|i: int| 0 <= i < init.len() && init[i] == s.last();
            assert(s[i] == s[s.len() - 1]);
        }
        assert(init.push(s.last()) =~= s);
    } else {
        assert(s =~= Seq::<u64>::empty());
    }
}

/// `IndexSet::new`: the empty set.
#[verifier::external_body]
pub(crate) fn id_set_new() -> (r: IndexSet<u64>)
    ensures
        ids(r) == Seq::<u64>::empty(),
{
    IndexSet::new()
}

/// `IndexSet::len`: the number of members.
#[verifier::external_body]
pub(crate) fn id_set_len(set: &IndexSet<u64>) -> (r: usize)
    ensures
        r == ids(*set).len(),
{
    set.len()
}

/// `IndexSet::contains`: whether `id` is a member.
#[verifier::external_body]
pub(crate) fn id_set_contains(set: &IndexSet<u64>, id: u64) -> (r: bool)
    ensures
        r == ids(*set).contains(id),
{
    set.contains(&id)
}

/// `IndexSet::get_index`: the member at position `index` of the insertion
/// order, or `None` past the end.
#[verifier::external_body]
pub(crate) fn id_set_get_index(set: &IndexSet<u64>, index: usize) -> (r: Option<u64>)
    ensures
        index < ids(*set).len() ==> r == Some(ids(*set)[index as int]),
        index >= ids(*set).len() ==> r is None,
{
    set.get_index(index).copied()
}

/// `IndexSet::insert`: a new member goes to the end and the call returns
/// `true`; a member already present leaves the set as it was and the call
/// returns `false`.
#[verifier::external_body]
pub(crate) fn id_set_insert(set: &mut IndexSet<u64>, id: u64) -> (r: bool)
    ensures
        ids(*final(set)) == insert_id(ids(*old(set)), id),
        r == !ids(*old(set)).contains(id),
{
    set.insert(id)
}

/// `IndexSet::is_superset`: whether every member of `other` is a member of
/// `set`.
#[verifier::external_body]
pub(crate) fn id_set_is_superset(set: &IndexSet<u64>, other: &IndexSet<u64>) -> (r: bool)
    ensures
        r == ids_within(ids(*other), ids(*set)),
{
    set.is_superset(other)
}

} // verus!
