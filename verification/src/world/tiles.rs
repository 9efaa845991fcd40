//! Ground types, the compatibility rule, and single tiles of the grid.

use crate::error::EngineError;
use crate::world::entities::{Entity, EntityType};
use vstd::prelude::*;

verus! {

/// The per-tile terrain category, constraining which entity kinds may be
/// planted on the tile.
#[derive(Debug, PartialEq, Eq, Clone, Copy, Structural)]
pub enum GroundType {
    Grassland,
    Soil,
}

/// The compatibility rule: grassland admits only grass, bush and tree; soil
/// admits only carrot and pumpkin.
pub open spec fn compatible(ground: GroundType, kind: EntityType) -> bool {
    match ground {
        GroundType::Grassland => kind == EntityType::Grass || kind == EntityType::Bush || kind
            == EntityType::Tree,
        GroundType::Soil => kind == EntityType::Carrot || kind == EntityType::Pumpkin,
    }
}

/// The other ground type: tilling toggles grassland and soil.
pub open spec fn toggled(ground: GroundType) -> GroundType {
    match ground {
        GroundType::Grassland => GroundType::Soil,
        GroundType::Soil => GroundType::Grassland,
    }
}

impl GroundType {
    /// Whether an entity of this kind may stand on this ground type.
    pub fn can_have_entity(&self, entity: &Entity) -> (r: bool)
        ensures
            r == compatible(*self, entity.entity_type),
    {
        let kind = entity.entity_type;
        match self {
            GroundType::Grassland => kind == EntityType::Grass || kind == EntityType::Bush || kind
                == EntityType::Tree,
            GroundType::Soil => kind == EntityType::Carrot || kind == EntityType::Pumpkin,
        }
    }
}

/// One cell of the grid: fixed coordinates, a mutable ground type, and an
/// optional planted entity. Owned exclusively by the world; created once at
/// world construction and mutated in place afterwards.
#[derive(Debug, PartialEq, Eq, Clone, Copy, Structural)]
pub struct Tile {
    pub x: usize,
    pub y: usize,
    pub ground_type: GroundType,
    pub entity: Option<Entity>,
}

impl Tile {
    /// The tile's column, fixed for the life of the tile.
    pub fn x(&self) -> (x: usize)
        ensures
            x == self.x,
    {
        self.x
    }

    /// The tile's row, fixed for the life of the tile.
    pub fn y(&self) -> (y: usize)
        ensures
            y == self.y,
    {
        self.y
    }

    /// The tile's ground type.
    pub fn ground_type(&self) -> (g: &GroundType)
        ensures
            *g == self.ground_type,
    {
        &self.ground_type
    }

    /// Unconditionally replaces the ground type. An entity already on the
    /// tile is deliberately not revalidated against the new ground type:
    /// tilling toggles the ground regardless of what is planted.
    pub fn set_ground_type(&mut self, ground_type: GroundType)
        ensures
            *final(self) == (Tile { ground_type, ..*old(self) }),
    {
        self.ground_type = ground_type;
    }

    /// The planted entity, if any.
    pub fn entity(&self) -> (e: Option<&Entity>)
        ensures
            e matches Some(en) ==> self.entity == Some(*en),
            e is None <==> self.entity is None,
    {
        self.entity.as_ref()
    }

    /// Attaches or clears the entity. Attaching validates the compatibility
    /// rule: on failure the error carries the offending (kind, ground type)
    /// pair and the tile is left unchanged. Clearing always succeeds.
    pub fn set_entity(&mut self, entity: Option<Entity>) -> (r: Result<(), EngineError>)
        ensures
            match entity {
                Some(e) => if compatible(old(self).ground_type, e.entity_type) {
                    r is Ok && *final(self) == (Tile { entity: Some(e), ..*old(self) })
                } else {
                    &&& r == Err::<(), EngineError>(
                        EngineError::EntityNotAllowedOnGroundType(
                            e.entity_type,
                            old(self).ground_type,
                        ),
                    )
                    &&& *final(self) == *old(self)
                },
                None => r is Ok && *final(self) == (Tile { entity: None, ..*old(self) }),
            },
    {
        match entity {
            Some(e) => {
                if self.ground_type.can_have_entity(&e) {
                    self.entity = Some(e);
                    Ok(())
                } else {
                    Err(EngineError::EntityNotAllowedOnGroundType(e.entity_type, self.ground_type))
                }
            },
            None => {
                self.entity = None;
                Ok(())
            },
        }
    }
}

/// Step-by-step construction of a [`Tile`]: the ground type is optional until
/// [`TileBuilder::build`] checks that it was supplied and that any chosen
/// entity is compatible with it.
pub struct TileBuilder {
    pub x: usize,
    pub y: usize,
    pub ground_type: Option<GroundType>,
    pub entity: Option<Entity>,
}

impl TileBuilder {
    /// A builder for the tile at (x, y), with no ground type or entity chosen.
    pub fn new(x: usize, y: usize) -> (b: Self)
        ensures
            b == (TileBuilder { x, y, ground_type: None, entity: None }),
    {
        TileBuilder { x, y, ground_type: None, entity: None }
    }

    /// Chooses the ground type of the tile to build.
    pub fn ground_type(self, ground_type: GroundType) -> (b: Self)
        ensures
            b == (TileBuilder { ground_type: Some(ground_type), ..self }),
    {
        TileBuilder { ground_type: Some(ground_type), ..self }
    }

    /// Chooses the entity of the tile to build, or clears the choice.
    pub fn entity(self, entity: Option<Entity>) -> (b: Self)
        ensures
            b == (TileBuilder { entity, ..self }),
    {
        TileBuilder { entity, ..self }
    }

    /// Builds the tile. Fails if no ground type was chosen, or if the chosen
    /// entity is incompatible with the chosen ground type.
    pub fn build(self) -> (r: Result<Tile, EngineError>)
        ensures
            self.ground_type is None ==> r == Err::<Tile, EngineError>(
                EngineError::TileWithoutGroundType,
            ),
            self.ground_type matches Some(g) ==> match self.entity {
                Some(e) => if compatible(g, e.entity_type) {
                    r == Ok::<Tile, EngineError>(
                        Tile { x: self.x, y: self.y, ground_type: g, entity: Some(e) },
                    )
                } else {
                    r == Err::<Tile, EngineError>(
                        EngineError::EntityNotAllowedOnGroundType(e.entity_type, g),
                    )
                },
                None => r == Ok::<Tile, EngineError>(
                    Tile { x: self.x, y: self.y, ground_type: g, entity: None },
                ),
            },
    {
        let ground_type = match self.ground_type {
            Some(g) => g,
            None => {
                return Err(EngineError::TileWithoutGroundType);
            },
        };
        let entity = match self.entity {
            Some(e) => {
                if !ground_type.can_have_entity(&e) {
                    return Err(
                        EngineError::EntityNotAllowedOnGroundType(e.entity_type, ground_type),
                    );
                }
                Some(e)
            },
            None => None,
        };
        Ok(Tile { x: self.x, y: self.y, ground_type, entity })
    }
}

} // verus!
