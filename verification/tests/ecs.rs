//! Entity lifecycle and component storage, exercised end to end.

use ecs_core::component::{ComponentManager, RowManager};
use ecs_core::entity::EntityManager;
use ecs_core::registry::{EmptyRegistry, RegistryPair};
use ecs_core::schema::{Position, PositionManager, Velocity, VelocityManager};

fn position_rows(m: &PositionManager) -> Vec<(usize, Position)> {
    m.iter().into_iter().map(|(id, p)| (id, *p)).collect()
}

#[test]
fn spawn_yields_consecutive_ids_from_zero() {
    let mut em = EntityManager::default();
    let entities = em.spawn_many(5);
    let ids: Vec<usize> = entities.iter().map(|e| e.id()).collect();
    assert_eq!(ids, vec![0, 1, 2, 3, 4]);
}

#[test]
fn spawn_many_zero_is_empty() {
    let mut em = EntityManager::default();
    let entities = em.spawn_many(0);
    assert!(entities.is_empty());
    assert_eq!(em.spawn().id(), 0);
}

#[test]
fn ids_are_never_reused_after_destroy() {
    let mut em = EntityManager::default();
    let e0 = em.spawn();
    assert_eq!(e0.id(), 0);
    em.destroy(e0, &mut EmptyRegistry);
    let e1 = em.spawn();
    assert_eq!(e1.id(), 1);
}

#[test]
fn register_component_numbers_slots_in_order() {
    let mut em = EntityManager::default();
    let pm = PositionManager::new();
    let vm = VelocityManager::new();
    assert_eq!(em.register_component(&pm), 0);
    assert_eq!(em.register_component(&vm), 1);
}

#[test]
fn add_then_iter_yields_exactly_one_matching_view() {
    let mut em = EntityManager::default();
    let mut pm = PositionManager::new();
    em.register_component(&pm);
    let other = em.spawn();
    let e = em.spawn();
    pm.add(&other, Some(Position { x: 1, y: 2 }));
    pm.add(&e, Some(Position { x: 5, y: 7 }));

    let views: Vec<(usize, Position)> = position_rows(&pm);
    let matching: Vec<&(usize, Position)> =
        views.iter().filter(|(id, _)| *id == e.id()).collect();
    assert_eq!(matching.len(), 1);
    assert_eq!(*matching[0], (e.id(), Position { x: 5, y: 7 }));
    // no other id is affected
    assert_eq!(views[0], (other.id(), Position { x: 1, y: 2 }));
    assert_eq!(views.len(), 2);
}

#[test]
fn add_without_record_stores_the_all_default_record() {
    let mut em = EntityManager::default();
    let mut pm = PositionManager::new();
    em.register_component(&pm);
    let e = em.spawn();
    pm.add(&e, None);
    let views = position_rows(&pm);
    assert_eq!(views, vec![(e.id(), Position { x: 0, y: 0 })]);
}

#[test]
fn re_add_fully_replaces_prior_field_values() {
    let mut em = EntityManager::default();
    let mut pm = PositionManager::new();
    em.register_component(&pm);
    let e = em.spawn();
    pm.add(&e, Some(Position { x: 1, y: 2 }));
    pm.add(&e, Some(Position { x: 5, y: 7 }));
    let views = position_rows(&pm);
    assert_eq!(views, vec![(e.id(), Position { x: 5, y: 7 })]);
    // re-adding with no record resets every field to its default
    pm.add(&e, None);
    let views = position_rows(&pm);
    assert_eq!(views, vec![(e.id(), Position { x: 0, y: 0 })]);
}

#[test]
fn remove_twice_equals_remove_once() {
    let mut em = EntityManager::default();
    let mut pm = PositionManager::new();
    em.register_component(&pm);
    let e1 = em.spawn();
    let e2 = em.spawn();
    pm.add(&e1, Some(Position { x: 1, y: 1 }));
    pm.add(&e2, Some(Position { x: 2, y: 2 }));
    pm.remove(e1.id());
    let after_once = position_rows(&pm);
    pm.remove(e1.id());
    let after_twice = position_rows(&pm);
    assert_eq!(after_once, after_twice);
    assert_eq!(after_twice, vec![(e2.id(), Position { x: 2, y: 2 })]);
}

#[test]
fn remove_of_absent_id_is_a_no_op() {
    let mut em = EntityManager::default();
    let mut pm = PositionManager::new();
    em.register_component(&pm);
    let e = em.spawn();
    pm.add(&e, Some(Position { x: 3, y: 4 }));
    let before = position_rows(&pm);
    pm.remove(999);
    assert_eq!(position_rows(&pm), before);
    let mut empty = PositionManager::new();
    empty.remove(0);
    assert_eq!(empty.len(), 0);
}

#[test]
fn destroy_removes_entity_from_every_registered_manager() {
    let mut em = EntityManager::default();
    let mut world = RegistryPair {
        first: PositionManager::new(),
        second: VelocityManager::new(),
    };
    em.register_component(&world.first);
    em.register_component(&world.second);
    let e = em.spawn();
    let survivor = em.spawn();
    world.first.add(&e, Some(Position { x: 5, y: 7 }));
    world.second.add(&e, Some(Velocity { dx: 1, dy: 1 }));
    world.first.add(&survivor, Some(Position { x: 9, y: 9 }));
    let dead = e.id();

    em.destroy(e, &mut world);

    assert!(world.first.iter().iter().all(|(id, _)| *id != dead));
    assert!(world.second.iter().iter().all(|(id, _)| *id != dead));
    assert_eq!(world.first.len(), 1);
    assert_eq!(world.second.len(), 0);
}

#[test]
fn destroy_runs_every_cleanup_even_where_nothing_was_attached() {
    // first registered before second; the entity only ever had the first
    // component — both managers end with no record of it.
    let mut em = EntityManager::default();
    let mut world = RegistryPair {
        first: PositionManager::new(),
        second: VelocityManager::new(),
    };
    em.register_component(&world.first);
    em.register_component(&world.second);
    let e = em.spawn();
    world.first.add(&e, Some(Position { x: 5, y: 7 }));
    let dead = e.id();

    em.destroy(e, &mut world);

    assert!(world.first.iter().iter().all(|(id, _)| *id != dead));
    assert_eq!(world.first.len(), 0);
    assert_eq!(world.second.len(), 0);
}

#[test]
fn destroy_with_no_components_anywhere_has_no_observable_effect() {
    let mut em = EntityManager::default();
    let e = em.spawn();
    em.destroy(e, &mut EmptyRegistry);
    // the manager goes on handing out fresh ids
    assert_eq!(em.spawn().id(), 1);
}

#[test]
fn destroy_leaves_other_entities_values_unchanged() {
    let mut em = EntityManager::default();
    let mut pm = PositionManager::new();
    em.register_component(&pm);
    let e1 = em.spawn();
    let e2 = em.spawn();
    pm.add(&e1, Some(Position { x: 1, y: 2 }));
    pm.add(&e2, Some(Position { x: 5, y: 7 }));
    let kept = e2.id();

    em.destroy(e1, &mut pm);

    let views = position_rows(&pm);
    assert_eq!(views, vec![(kept, Position { x: 5, y: 7 })]);
}

#[test]
fn iteration_follows_insertion_order_and_re_add_moves_to_the_end() {
    let mut em = EntityManager::default();
    let mut pm = PositionManager::new();
    em.register_component(&pm);
    let e0 = em.spawn();
    let e1 = em.spawn();
    let e2 = em.spawn();
    pm.add(&e0, Some(Position { x: 0, y: 0 }));
    pm.add(&e1, Some(Position { x: 1, y: 1 }));
    pm.add(&e2, Some(Position { x: 2, y: 2 }));
    let ids: Vec<usize> = pm.iter().iter().map(|(id, _)| *id).collect();
    assert_eq!(ids, vec![e0.id(), e1.id(), e2.id()]);

    pm.add(&e0, Some(Position { x: 9, y: 9 }));
    let ids: Vec<usize> = pm.iter().iter().map(|(id, _)| *id).collect();
    assert_eq!(ids, vec![e1.id(), e2.id(), e0.id()]);
}

#[test]
fn writing_through_a_mutable_view_mutates_storage_in_place() {
    let mut em = EntityManager::default();
    let mut pm = PositionManager::new();
    em.register_component(&pm);
    let e1 = em.spawn();
    let e2 = em.spawn();
    pm.add(&e1, Some(Position { x: 1, y: 1 }));
    pm.add(&e2, Some(Position { x: 2, y: 2 }));

    for i in 0..pm.len() {
        let view = pm.view_mut(i);
        view.x += 10;
    }

    let views = position_rows(&pm);
    assert_eq!(
        views,
        vec![
            (e1.id(), Position { x: 11, y: 1 }),
            (e2.id(), Position { x: 12, y: 2 }),
        ]
    );
}

#[test]
fn len_matches_one_full_traversal() {
    let mut pm = PositionManager::new();
    assert_eq!(pm.len(), 0);
    assert!(pm.iter().is_empty());
    let mut em = EntityManager::default();
    let e = em.spawn();
    pm.add(&e, None);
    assert_eq!(pm.len(), pm.iter().len());
    assert_eq!(pm.len(), 1);
}
