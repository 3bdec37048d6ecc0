//! What a component schema declaration expands to, written out for two
//! example records.
//!
//! A schema is a named record with an ordered list of `(field name, field
//! type)` entries. For each declared schema the crate needs: the record
//! type with an all-default instance, and a storage type meeting the
//! [`ComponentManager`](crate::component::ComponentManager) contract.
//! [`RowManager`](crate::component::RowManager) supplies the storage for
//! any record type, so the expansion per schema is only the record itself
//! and its [`Component`](crate::component::Component) impl, plus a storage
//! alias. Views need no per-schema type: a row view borrows the whole
//! record, every field at once.

use vstd::prelude::*;

verus! {

use crate::component::{Component, RowManager};

/// The schema `{ x: u64, y: u64 }`: a position in the plane.
#[derive(Clone, Copy, PartialEq, Eq, Structural, Debug)]
pub struct Position {
    pub x: u64,
    pub y: u64,
}

impl Component for Position {
    open spec fn default_spec() -> Position {
        Position { x: 0, y: 0 }
    }

    fn default_value() -> (c: Position) {
        Position { x: 0, y: 0 }
    }
}

/// Storage for [`Position`] rows.
pub type PositionManager = RowManager<Position>;

/// The schema `{ dx: u64, dy: u64 }`: a velocity in the plane.
#[derive(Clone, Copy, PartialEq, Eq, Structural, Debug)]
pub struct Velocity {
    pub dx: u64,
    pub dy: u64,
}

impl Component for Velocity {
    open spec fn default_spec() -> Velocity {
        Velocity { dx: 0, dy: 0 }
    }

    fn default_value() -> (c: Velocity) {
        Velocity { dx: 0, dy: 0 }
    }
}

/// Storage for [`Velocity`] rows.
pub type VelocityManager = RowManager<Velocity>;

} // verus!
