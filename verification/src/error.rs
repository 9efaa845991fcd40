//! The typed failures the engine reports to its callers.

use crate::world::entities::EntityType;
use crate::world::tiles::GroundType;
use vstd::prelude::*;

verus! {

/// Every rule violation is returned as one of these variants; the engine never
/// silently corrects invalid state, and a rejected operation leaves all state
/// unchanged.
#[derive(Debug, PartialEq, Eq, Clone, Copy, Structural)]
pub enum EngineError {
    /// A tile was built without specifying a ground type.
    TileWithoutGroundType,
    /// An entity was built without specifying a kind.
    EntityWithoutType,
    /// The entity kind is incompatible with the target ground type;
    /// carries the offending (kind, ground type) pair.
    EntityNotAllowedOnGroundType(EntityType, GroundType),
    /// A coordinate access outside the world's bounds; carries the offending
    /// coordinates.
    DroneOutOfBounds { x: usize, y: usize },
    /// A harvest was attempted on an empty tile or on an entity that is not
    /// yet grown.
    EntityNotGrown,
}

} // verus!
