//! The cleanup registry: the ordered collection of component managers that
//! an entity manager notifies when an entity is destroyed.
//!
//! Closing over live storage references at registration time would tie the
//! managers' lifetimes to the entity manager, so destruction instead goes
//! through this trait: each registered manager stands behind a slot, slots
//! are numbered in registration order, and a destroy asks the registry to
//! remove the dead id from every slot. Registries compose: a single
//! component manager is a one-slot registry, [`RegistryPair`] chains two
//! registries, and [`EmptyRegistry`] is the registry of a manager with no
//! component types registered.

use vstd::prelude::*;

verus! {

use crate::rows::rows_remove;

/// The ordered collection of per-component storages reached by entity
/// destruction. `slot_rows(j)` is the row model of the storage behind slot
/// `j`; `remove_all` is the cascade run for a destroyed id.
pub trait CleanupRegistry: Sized {
    /// The record type of the rows, as seen through this registry. A
    /// registry over several component types erases them into one type,
    /// such as [`PairRecord`].
    type Val;

    /// How many component storages this registry reaches.
    spec fn slot_count(&self) -> nat;

    /// The rows of the storage behind slot `j`, in its iteration order.
    spec fn slot_rows(&self, j: int) -> Seq<(nat, Self::Val)>;

    /// Remove entity `id` from every slot, in slot order. Slots that never
    /// held the id are left exactly as they were.
    fn remove_all(&mut self, id: usize)
        ensures
            final(self).slot_count() == old(self).slot_count(),
            forall|j: int|
                0 <= j < old(self).slot_count() ==> final(self).slot_rows(j) == rows_remove(
                    old(self).slot_rows(j),
                    id as nat,
                ),
    ;
}

/// The registry of an entity manager with no component types registered:
/// zero slots, and a cleanup cascade that does nothing.
pub struct EmptyRegistry;

impl CleanupRegistry for EmptyRegistry {
    type Val = ();

    open spec fn slot_count(&self) -> nat {
        0
    }

    open spec fn slot_rows(&self, j: int) -> Seq<(nat, ())> {
        Seq::empty()
    }

    fn remove_all(&mut self, _id: usize) {
    }
}

/// A record drawn from one of two registries chained by [`RegistryPair`]:
/// either a record of the first or one of the second.
pub enum PairRecord<A, B> {
    First(A),
    Second(B),
}

/// Two registries chained in order: the slots of `first` come before the
/// slots of `second`, so registration order is the nesting order. Chaining
/// pairs reaches any number of component managers.
pub struct RegistryPair<A: CleanupRegistry, B: CleanupRegistry> {
    pub first: A,
    pub second: B,
}

/// Lifts a row sequence into the erased record type of a pair's first side.
pub open spec fn lift_first<A, B>(rows: Seq<(nat, A)>) -> Seq<(nat, PairRecord<A, B>)> {
    rows.map_values(|r: (nat, A)| (r.0, PairRecord::First(r.1)))
}

/// Lifts a row sequence into the erased record type of a pair's second side.
pub open spec fn lift_second<A, B>(rows: Seq<(nat, B)>) -> Seq<(nat, PairRecord<A, B>)> {
    rows.map_values(|r: (nat, B)| (r.0, PairRecord::Second(r.1)))
}

/// Removal commutes with lifting: erasing the record type and then removing
/// an id gives the same rows as removing first and then erasing.
proof fn lemma_remove_lift_first<A, B>(rows: Seq<(nat, A)>, id: nat)
    ensures
        rows_remove(lift_first::<A, B>(rows), id) == lift_first::<A, B>(rows_remove(rows, id)),
    decreases rows.len(),
{
    reveal(Seq::filter);
    if rows.len() == 0 {
        assert(rows_remove(lift_first::<A, B>(rows), id) =~= lift_first::<A, B>(
            rows_remove(rows, id),
        ));
    } else {
        let prefix = rows.drop_last();
        let x = rows.last();
        lemma_remove_lift_first::<A, B>(prefix, id);
        crate::rows::lemma_filter_push(prefix, x, crate::rows::keyed_otherwise(id));
        assert(prefix.push(x) =~= rows);
        assert(lift_first::<A, B>(prefix).push((x.0, PairRecord::First(x.1))) =~= lift_first::<
            A,
            B,
        >(rows));
        crate::rows::lemma_filter_push(
            lift_first::<A, B>(prefix),
            (x.0, PairRecord::First(x.1)),
            crate::rows::keyed_otherwise(id),
        );
        if x.0 != id {
            assert(lift_first::<A, B>(rows_remove(prefix, id)).push(
                (x.0, PairRecord::First(x.1)),
            ) =~= lift_first::<A, B>(rows_remove(prefix, id).push(x)));
        }
    }
}

/// Removal commutes with lifting on the second side as well.
proof fn lemma_remove_lift_second<A, B>(rows: Seq<(nat, B)>, id: nat)
    ensures
        rows_remove(lift_second::<A, B>(rows), id) == lift_second::<A, B>(rows_remove(rows, id)),
    decreases rows.len(),
{
    reveal(Seq::filter);
    if rows.len() == 0 {
        assert(rows_remove(lift_second::<A, B>(rows), id) =~= lift_second::<A, B>(
            rows_remove(rows, id),
        ));
    } else {
        let prefix = rows.drop_last();
        let x = rows.last();
        lemma_remove_lift_second::<A, B>(prefix, id);
        crate::rows::lemma_filter_push(prefix, x, crate::rows::keyed_otherwise(id));
        assert(prefix.push(x) =~= rows);
        assert(lift_second::<A, B>(prefix).push((x.0, PairRecord::Second(x.1))) =~= lift_second::<
            A,
            B,
        >(rows));
        crate::rows::lemma_filter_push(
            lift_second::<A, B>(prefix),
            (x.0, PairRecord::Second(x.1)),
            crate::rows::keyed_otherwise(id),
        );
        if x.0 != id {
            assert(lift_second::<A, B>(rows_remove(prefix, id)).push(
                (x.0, PairRecord::Second(x.1)),
            ) =~= lift_second::<A, B>(rows_remove(prefix, id).push(x)));
        }
    }
}

impl<A: CleanupRegistry, B: CleanupRegistry> CleanupRegistry for RegistryPair<A, B> {
    type Val = PairRecord<A::Val, B::Val>;

    open spec fn slot_count(&self) -> nat {
        self.first.slot_count() + self.second.slot_count()
    }

    open spec fn slot_rows(&self, j: int) -> Seq<(nat, PairRecord<A::Val, B::Val>)> {
        if j < self.first.slot_count() {
            lift_first(self.first.slot_rows(j))
        } else {
            lift_second(self.second.slot_rows(j - self.first.slot_count() as int))
        }
    }

    fn remove_all(&mut self, id: usize) {
        self.first.remove_all(id);
        self.second.remove_all(id);
        proof {
            assert forall|j: int| 0 <= j < old(self).slot_count() implies self.slot_rows(j)
                == rows_remove(old(self).slot_rows(j), id as nat) by {
                if j < old(self).first.slot_count() {
                    lemma_remove_lift_first::<A::Val, B::Val>(
                        old(self).first.slot_rows(j),
                        id as nat,
                    );
                } else {
                    lemma_remove_lift_second::<A::Val, B::Val>(
                        old(self).second.slot_rows(j - old(self).first.slot_count() as int),
                        id as nat,
                    );
                }
            }
        }
    }
}

} // verus!
