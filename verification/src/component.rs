//! Component records and their storage.
//!
//! A component type is a plain record whose fields all have defaults; its
//! storage keeps one row per entity that has the component, keyed by the
//! entity's id. The storage contract is the [`ComponentManager`] trait;
//! [`RowManager`] is the storage this crate provides for any record type.
//! Keeping each row whole — rather than one container per field — makes the
//! cross-field consistency of projected views hold by construction: a view
//! can never pair one entity's field with another's.

use vstd::prelude::*;

verus! {

use crate::entity::Entity;
use crate::registry::CleanupRegistry;
use crate::rows::{rows_add, rows_remove};

/// A component record: a schema-described value type. Every field has a
/// default value, so the all-default record is always constructible.
pub trait Component: Sized {
    /// The all-default record.
    spec fn default_spec() -> Self;

    /// Build the all-default record.
    fn default_value() -> (c: Self)
        ensures
            c == Self::default_spec(),
    ;
}

/// The record an `add` stores: the given one, or the all-default record
/// when none was given.
pub open spec fn record_or_default<C: Component>(c: Option<C>) -> C {
    match c {
        Option::Some(v) => v,
        Option::None => C::default_spec(),
    }
}

/// The storage contract for one component type: rows keyed by entity id,
/// with add/remove/iterate. `rows()` is the model every operation is
/// specified against — the `(id, record)` pairs in iteration order.
pub trait ComponentManager<C: Component>: Sized {
    /// The stored rows, in iteration order.
    spec fn rows(&self) -> Seq<(nat, C)>;

    /// Attach a record to entity `e`: the given record, or the all-default
    /// one. Any record the entity already had is fully replaced. The entity
    /// handle is only read for its id; its lifetime is untouched.
    fn add(&mut self, e: &Entity, c: Option<C>)
        ensures
            final(self).rows() == rows_add(old(self).rows(), e@, record_or_default(c)),
    ;

    /// Delete the id's row. Removing an id that has no row is a no-op, not
    /// an error.
    fn remove(&mut self, id: usize)
        ensures
            final(self).rows() == rows_remove(old(self).rows(), id as nat),
    ;

    /// One read-only view per live row, in iteration order: the entity's id
    /// and its record, borrowed from storage.
    fn iter(&self) -> (r: Vec<(usize, &C)>)
        ensures
            r@.len() == self.rows().len(),
            forall|i: int|
                0 <= i < r@.len() ==> r@[i].0 as nat == self.rows()[i].0 && *r@[i].1
                    == self.rows()[i].1,
    ;

    /// How many rows one full traversal yields.
    fn len(&self) -> (n: usize)
        ensures
            n == self.rows().len(),
    ;

    /// An exclusive view of the record at position `i` of the iteration
    /// order: writing through it mutates the stored record in place, and
    /// neither the id nor any other row is affected.
    fn view_mut(&mut self, i: usize) -> (c: &mut C)
        requires
            i < old(self).rows().len(),
        ensures
            *c == old(self).rows()[i as int].1,
            final(self).rows() == old(self).rows().update(
                i as int,
                (old(self).rows()[i as int].0, *final(c)),
            ),
    ;
}

/// Composite-row storage for any component type: one `(id, record)` row per
/// entity, in insertion order of the most recent add.
pub struct RowManager<C: Component> {
    entries: Vec<(usize, C)>,
}

/// The row model of a concrete entry vector.
spec fn rows_of<C>(entries: Seq<(usize, C)>) -> Seq<(nat, C)> {
    Seq::new(entries.len(), |i: int| (entries[i].0 as nat, entries[i].1))
}

impl<C: Component> RowManager<C> {
    /// Empty storage: no entity has the component.
    pub fn new() -> (m: RowManager<C>)
        ensures
            m.rows() == Seq::<(nat, C)>::empty(),
    {
        let m = RowManager { entries: Vec::new() };
        proof {
            assert(m.rows() =~= Seq::<(nat, C)>::empty());
        }
        m
    }
}

impl<C: Component> Default for RowManager<C> {
    /// Empty storage, as [`RowManager::new`] builds it.
    fn default() -> (m: RowManager<C>)
        ensures
            m.rows() == Seq::<(nat, C)>::empty(),
    {
        RowManager::new()
    }
}

impl<C: Component> ComponentManager<C> for RowManager<C> {
    closed spec fn rows(&self) -> Seq<(nat, C)> {
        rows_of(self.entries@)
    }

    fn add(&mut self, e: &Entity, c: Option<C>) {
        let id = e.id();
        self.remove(id);
        let record = match c {
            Option::Some(v) => v,
            Option::None => C::default_value(),
        };
        let ghost mid = self.entries@;
        self.entries.push((id, record));
        proof {
            assert(self.rows() =~= rows_of(mid).push((id as nat, record)));
        }
    }

    fn remove(&mut self, id: usize) {
        let ghost orig = self.entries@;
        let mut kept: Vec<(usize, C)> = Vec::new();
        let ghost mut done: int = 0;
        proof {
            assert(orig.take(0) =~= Seq::<(usize, C)>::empty());
            assert(rows_of(orig.take(0)) =~= Seq::<(nat, C)>::empty());
            assert(rows_remove(rows_of(orig.take(0)), id as nat) =~= Seq::<(nat, C)>::empty())
                by {
                reveal(Seq::filter);
            }
            assert(rows_of(kept@) =~= Seq::<(nat, C)>::empty());
        }
        while self.entries.len() > 0
            invariant
                0 <= done <= orig.len(),
                self.entries@ == orig.skip(done),
                rows_of(kept@) == rows_remove(rows_of(orig.take(done)), id as nat),
            decreases self.entries@.len(),
        {
            let p = self.entries.remove(0);
            proof {
                assert(orig.skip(done).remove(0) =~= orig.skip(done + 1));
                assert(p == orig[done]);
            }
            let ghost kept_before = kept@;
            if p.0 != id {
                kept.push(p);
            }
            proof {
                assert(orig.take(done + 1) =~= orig.take(done).push(orig[done]));
                assert(rows_of(orig.take(done).push(orig[done])) =~= rows_of(
                    orig.take(done),
                ).push((orig[done].0 as nat, orig[done].1)));
                crate::rows::lemma_filter_push(
                    rows_of(orig.take(done)),
                    (orig[done].0 as nat, orig[done].1),
                    crate::rows::keyed_otherwise(id as nat),
                );
                if p.0 != id {
                    assert(rows_of(kept@) =~= rows_of(kept_before).push(
                        (orig[done].0 as nat, orig[done].1),
                    ));
                }
                done = done + 1;
            }
        }
        proof {
            assert(orig.take(done) =~= orig);
        }
        self.entries = kept;
    }

    fn iter(&self) -> (r: Vec<(usize, &C)>) {
        let mut r: Vec<(usize, &C)> = Vec::new();
        let mut i: usize = 0;
        while i < self.entries.len()
            invariant
                0 <= i <= self.entries@.len(),
                r@.len() == i,
                forall|j: int|
                    0 <= j < r@.len() ==> r@[j].0 as nat == self.rows()[j].0 && *r@[j].1
                        == self.rows()[j].1,
            decreases self.entries@.len() - i,
        {
            let id = self.entries[i].0;
            let record = &self.entries[i].1;
            r.push((id, record));
            i = i + 1;
        }
        r
    }

    fn len(&self) -> (n: usize) {
        self.entries.len()
    }

    fn view_mut(&mut self, i: usize) -> (c: &mut C) {
        let entry = &mut self.entries[i];
        proof {
            let entries_before = old(self).entries@;
            let id0 = entries_before[i as int].0;
            assert forall|v: C|
                rows_of(#[trigger] entries_before.update(i as int, (id0, v))) == rows_of(
                    entries_before,
                ).update(i as int, (id0 as nat, v)) by {
                assert(rows_of(entries_before.update(i as int, (id0, v))) =~= rows_of(
                    entries_before,
                ).update(i as int, (id0 as nat, v)));
            }
        }
        &mut entry.1
    }
}

impl<C: Component> CleanupRegistry for RowManager<C> {
    type Val = C;

    open spec fn slot_count(&self) -> nat {
        1
    }

    open spec fn slot_rows(&self, j: int) -> Seq<(nat, C)> {
        self.rows()
    }

    fn remove_all(&mut self, id: usize) {
        self.remove(id);
    }
}

} // verus!
