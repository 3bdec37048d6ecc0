//! The mathematical model of component storage: a sequence of rows, one
//! `(id, record)` pair per entity that currently has the component, kept in
//! iteration order.
//!
//! Every storage operation of the crate is specified against the spec
//! functions below, and the laws at the bottom of the file state what the
//! cleanup machinery relies on: removal is idempotent, removal of an absent
//! id changes nothing, and an add fully replaces the prior record.

use vstd::prelude::*;

verus! {

/// Holds of the rows that survive a removal of `id`.
pub open spec fn keyed_otherwise<C>(id: nat) -> spec_fn((nat, C)) -> bool {
    |r: (nat, C)| r.0 != id
}

/// Holds of the rows that carry exactly the id `id`.
pub open spec fn keyed_by<C>(id: nat) -> spec_fn((nat, C)) -> bool {
    |r: (nat, C)| r.0 == id
}

/// Does some row of `rows` carry the entity id `id`?
pub open spec fn rows_has_id<C>(rows: Seq<(nat, C)>, id: nat) -> bool {
    exists|i: int| 0 <= i < rows.len() && rows[i].0 == id
}

/// The rows left after deleting every row keyed by `id`; the surviving rows
/// keep their relative order.
pub open spec fn rows_remove<C>(rows: Seq<(nat, C)>, id: nat) -> Seq<(nat, C)> {
    rows.filter(keyed_otherwise(id))
}

/// The rows after attaching the record `c` to entity `id`: any prior row for
/// `id` is dropped and the fresh row is appended, so a re-add replaces the
/// whole record and moves the entity to the end of the iteration order.
pub open spec fn rows_add<C>(rows: Seq<(nat, C)>, id: nat, c: C) -> Seq<(nat, C)> {
    rows_remove(rows, id).push((id, c))
}

/// The subsequence of rows keyed by `id`, in iteration order.
pub open spec fn rows_with_id<C>(rows: Seq<(nat, C)>, id: nat) -> Seq<(nat, C)> {
    rows.filter(keyed_by(id))
}

/// `filter` steps through a `push`: the pushed element is kept exactly when
/// it satisfies the predicate.
pub(crate) proof fn lemma_filter_push<A>(s: Seq<A>, x: A, pred: spec_fn(A) -> bool)
    ensures
        s.push(x).filter(pred) == if pred(x) {
            s.filter(pred).push(x)
        } else {
            s.filter(pred)
        },
{
    reveal(Seq::filter);
    assert(s.push(x).drop_last() =~= s);
    assert(s.push(x).last() == x);
}

/// Law: a removed id is gone for good — no row of the result carries it, so
/// iteration after a removal can never yield that id again.
pub proof fn lemma_remove_clears<C>(rows: Seq<(nat, C)>, id: nat)
    ensures
        !rows_has_id(rows_remove(rows, id), id),
{
    broadcast use vstd::seq_lib::group_filter_ensures;

    let keep = keyed_otherwise::<C>(id);
    if rows_has_id(rows_remove(rows, id), id) {
        let i = choose|i: int|
            0 <= i < rows_remove(rows, id).len() && rows_remove(rows, id)[i].0 == id;
        assert(keep(rows.filter(keep)[i]));
    }
}

/// Law: removing an id that is present in no row is a no-op — the rows are
/// returned unchanged, records and order included.
pub proof fn lemma_remove_absent<C>(rows: Seq<(nat, C)>, id: nat)
    requires
        !rows_has_id(rows, id),
    ensures
        rows_remove(rows, id) == rows,
    decreases rows.len(),
{
    reveal(Seq::filter);
    if rows.len() == 0 {
        assert(rows_remove(rows, id) =~= rows);
    } else {
        let prefix = rows.drop_last();
        assert(forall|i: int| 0 <= i < prefix.len() ==> prefix[i] == rows[i]);
        lemma_remove_absent(prefix, id);
        lemma_filter_push(prefix, rows.last(), keyed_otherwise(id));
        assert(prefix.push(rows.last()) =~= rows);
        assert(rows.last().0 != id);
    }
}

/// Law: removing the same id twice is the same as removing it once.
pub proof fn lemma_remove_idempotent<C>(rows: Seq<(nat, C)>, id: nat)
    ensures
        rows_remove(rows_remove(rows, id), id) == rows_remove(rows, id),
{
    lemma_remove_clears(rows, id);
    lemma_remove_absent(rows_remove(rows, id), id);
}

/// Law: a removal does not touch the rows of any other id — their records
/// and relative order survive unchanged.
pub proof fn lemma_remove_preserves_others<C>(rows: Seq<(nat, C)>, id: nat, other: nat)
    requires
        other != id,
    ensures
        rows_with_id(rows_remove(rows, id), other) == rows_with_id(rows, other),
    decreases rows.len(),
{
    reveal(Seq::filter);
    let keep = keyed_otherwise::<C>(id);
    let mine = keyed_by::<C>(other);
    if rows.len() == 0 {
        assert(rows_remove(rows, id) =~= rows);
    } else {
        let prefix = rows.drop_last();
        let x = rows.last();
        lemma_remove_preserves_others(prefix, id, other);
        lemma_filter_push(prefix, x, keep);
        assert(prefix.push(x) =~= rows);
        if keep(x) {
            lemma_filter_push(prefix.filter(keep), x, mine);
        }
        lemma_filter_push(prefix, x, mine);
    }
}

/// Law: after an add, exactly one row carries the added id, and it holds
/// exactly the record that was added — re-adding replaces all prior field
/// values, with no merging.
pub proof fn lemma_add_replaces<C>(rows: Seq<(nat, C)>, id: nat, c: C)
    ensures
        rows_with_id(rows_add(rows, id, c), id) == seq![(id, c)],
{
    let mine = keyed_by::<C>(id);
    let removed = rows_remove(rows, id);
    lemma_remove_clears(rows, id);
    lemma_with_id_absent_empty(removed, id);
    lemma_filter_push(removed, (id, c), mine);
    assert(mine((id, c)));
    assert(removed.filter(mine).push((id, c)) =~= seq![(id, c)]);
}

/// Law: an add for one id does not touch the rows of any other id.
pub proof fn lemma_add_preserves_others<C>(rows: Seq<(nat, C)>, id: nat, c: C, other: nat)
    requires
        other != id,
    ensures
        rows_with_id(rows_add(rows, id, c), other) == rows_with_id(rows, other),
{
    let mine = keyed_by::<C>(other);
    lemma_filter_push(rows_remove(rows, id), (id, c), mine);
    assert(!mine((id, c)));
    lemma_remove_preserves_others(rows, id, other);
}

/// If no row carries `id`, the subsequence keyed by `id` is empty.
pub proof fn lemma_with_id_absent_empty<C>(rows: Seq<(nat, C)>, id: nat)
    requires
        !rows_has_id(rows, id),
    ensures
        rows_with_id(rows, id) == Seq::<(nat, C)>::empty(),
    decreases rows.len(),
{
    reveal(Seq::filter);
    if rows.len() == 0 {
        assert(rows_with_id(rows, id) =~= Seq::<(nat, C)>::empty());
    } else {
        let prefix = rows.drop_last();
        assert(forall|i: int| 0 <= i < prefix.len() ==> prefix[i] == rows[i]);
        lemma_with_id_absent_empty(prefix, id);
        lemma_filter_push(prefix, rows.last(), keyed_by(id));
        assert(prefix.push(rows.last()) =~= rows);
        assert(rows.last().0 != id);
    }
}

} // verus!
