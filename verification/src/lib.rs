//! A minimal entity-component-system core.
//!
//! Entities are integer ids handed out by an [`entity::EntityManager`];
//! component records are kept in per-type storage satisfying the
//! [`component::ComponentManager`] contract; destroying an entity removes
//! its records from every registered storage through a
//! [`registry::CleanupRegistry`].

pub mod component;
pub mod entity;
pub mod registry;
pub mod rows;
pub mod schema;

pub use component::{Component, ComponentManager, RowManager};
pub use entity::{Entity, EntityManager};
pub use registry::{CleanupRegistry, EmptyRegistry, RegistryPair};
pub use rows::{rows_add, rows_has_id, rows_remove, rows_with_id};
