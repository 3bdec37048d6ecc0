//! Entity identity and lifetime: the entity manager hands out ids that are
//! unique and strictly increasing, never reused, and destroying an entity
//! cascades a removal through every registered component manager.
//!
//! Exclusive access to the manager is enforced by the borrow checker: every
//! mutating operation takes the manager exclusively, so a reentrant
//! operation — destroying from within a destroy, say — is rejected at
//! compile time rather than detected at run time.

use vstd::prelude::*;

verus! {

use crate::component::{Component, ComponentManager};
use crate::registry::CleanupRegistry;
use crate::rows::rows_remove;

/// An owning handle for one entity id, created only by
/// [`EntityManager::spawn`]. Its view is the id it carries. The handle is
/// consumed by [`EntityManager::destroy`], so an entity is destroyed at
/// most once and no operation can touch a destroyed entity.
pub struct Entity {
    id: usize,
}

impl View for Entity {
    type V = nat;

    closed spec fn view(&self) -> nat {
        self.id as nat
    }
}

impl Entity {
    /// Internal constructor, for [`EntityManager::spawn`] alone: handles
    /// must not be forged, or an id could be destroyed twice.
    pub(crate) fn new(id: usize) -> (e: Entity)
        ensures
            e@ == id as nat,
    {
        Entity { id }
    }

    /// The entity's id, for use as a storage key. Reading it does not
    /// affect ownership.
    pub fn id(&self) -> (id: usize)
        ensures
            id as nat == self@,
    {
        self.id
    }
}

/// The allocator and lifetime authority for entity ids. It tracks the next
/// unused id and how many component managers have been registered for
/// cleanup; the managers themselves stay caller-owned and are reached at
/// destruction time through a [`CleanupRegistry`] of matching shape.
pub struct EntityManager {
    counter: usize,
    registered: usize,
}

impl EntityManager {
    /// The id the next spawn returns. Ids below it are spent: each was
    /// returned by exactly one earlier spawn, and none is ever handed out
    /// again, destroyed or not.
    pub closed spec fn next_id(&self) -> nat {
        self.counter as nat
    }

    /// How many component managers have been registered for cleanup.
    pub closed spec fn registered(&self) -> nat {
        self.registered as nat
    }

    /// The id the next spawn would return, for callers that must test the
    /// id-space limit before spawning.
    pub fn peek_next_id(&self) -> (n: usize)
        ensures
            n as nat == self.next_id(),
    {
        self.counter
    }

    /// How many cleanup slots have been registered so far.
    pub fn registered_len(&self) -> (n: usize)
        ensures
            n as nat == self.registered(),
    {
        self.registered
    }

    /// Allocate the next unused id and return the owning handle. Ids are
    /// unique and strictly increasing: each spawn returns the current
    /// counter and bumps it by one.
    pub fn spawn(&mut self) -> (e: Entity)
        requires
            old(self).next_id() < usize::MAX,
        ensures
            e@ == old(self).next_id(),
            final(self).next_id() == old(self).next_id() + 1,
            final(self).registered() == old(self).registered(),
    {
        let e = Entity::new(self.counter);
        self.counter = self.counter + 1;
        e
    }

    /// Law: spawning `n` entities yields `n` consecutive ids in spawn
    /// order, so a fresh manager yields exactly the ids `0` to `n - 1`.
    pub fn spawn_many(&mut self, n: usize) -> (es: Vec<Entity>)
        requires
            old(self).next_id() + n <= usize::MAX,
        ensures
            es@.len() == n,
            forall|i: int| 0 <= i < n ==> es@[i]@ == old(self).next_id() + i,
            final(self).next_id() == old(self).next_id() + n,
            final(self).registered() == old(self).registered(),
    {
        let mut es: Vec<Entity> = Vec::new();
        let mut k: usize = 0;
        while k < n
            invariant
                0 <= k <= n,
                self.next_id() == old(self).next_id() + k,
                self.next_id() + (n - k) <= usize::MAX,
                self.registered() == old(self).registered(),
                es@.len() == k,
                forall|i: int| 0 <= i < k ==> es@[i]@ == old(self).next_id() + i,
            decreases n - k,
        {
            let e = self.spawn();
            es.push(e);
            k = k + 1;
        }
        es
    }

    /// Append a cleanup slot for one component manager and return its slot
    /// index: slots are numbered in registration order, and a later destroy
    /// expects a registry whose slots line up with the registrations. Must
    /// be called before destroying any entity that needs cleanup for this
    /// component type; the manager itself stays with the caller.
    pub fn register_component<C: Component, M: ComponentManager<C>>(
        &mut self,
        _manager: &M,
    ) -> (slot: usize)
        requires
            old(self).registered() < usize::MAX,
        ensures
            slot as nat == old(self).registered(),
            final(self).registered() == old(self).registered() + 1,
            final(self).next_id() == old(self).next_id(),
    {
        let slot = self.registered;
        self.registered = self.registered + 1;
        slot
    }

    /// Destroy an entity: consume its handle and invoke every registered
    /// component manager's removal, in registration order, through the
    /// registry. Every slot loses the id's row — slots that never held the
    /// id are untouched, and no other entity's rows change anywhere. The
    /// cascade does not report which slots actually held data.
    pub fn destroy<R: CleanupRegistry>(&self, e: Entity, registry: &mut R)
        requires
            old(registry).slot_count() == self.registered(),
        ensures
            final(registry).slot_count() == old(registry).slot_count(),
            forall|j: int|
                0 <= j < old(registry).slot_count() ==> final(registry).slot_rows(j)
                    == rows_remove(old(registry).slot_rows(j), e@),
    {
        let id = e.id();
        registry.remove_all(id);
    }
}

impl Default for EntityManager {
    /// A fresh manager: no ids handed out, no component managers
    /// registered.
    fn default() -> (m: EntityManager)
        ensures
            m.next_id() == 0,
            m.registered() == 0,
    {
        EntityManager { counter: 0, registered: 0 }
    }
}

} // verus!
