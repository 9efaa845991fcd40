//! The symbol table a renderer uses for tiles.
//!
//! Layout, legends and printing belong to the presentation layer outside this
//! crate; the mapping from tile contents to a symbol is the engine's own rule,
//! stated and verified here. Any (ground type, entity kind) pairing outside
//! the compatibility table falls back to the unknown symbol: unreachable
//! through planting, but handled defensively.

use crate::consts::{
    BUSH_SYMBOL, CARROT_SYMBOL, GRASSLAND_EMPTY_SYMBOL, GRASS_SYMBOL, PUMPKIN_SYMBOL,
    SOIL_EMPTY_SYMBOL, TREE_SYMBOL, UNKNOWN_SYMBOL,
};
use crate::world::entities::EntityType;
use crate::world::tiles::GroundType;
use vstd::prelude::*;

verus! {

/// The symbol for a tile with ground type `ground` and, optionally, an entity
/// of kind `kind` on it.
pub open spec fn spec_tile_symbol(ground: GroundType, kind: Option<EntityType>) -> char {
    match (ground, kind) {
        (GroundType::Grassland, None) => GRASSLAND_EMPTY_SYMBOL,
        (GroundType::Grassland, Some(EntityType::Grass)) => GRASS_SYMBOL,
        (GroundType::Grassland, Some(EntityType::Bush)) => BUSH_SYMBOL,
        (GroundType::Grassland, Some(EntityType::Tree)) => TREE_SYMBOL,
        (GroundType::Soil, None) => SOIL_EMPTY_SYMBOL,
        (GroundType::Soil, Some(EntityType::Carrot)) => CARROT_SYMBOL,
        (GroundType::Soil, Some(EntityType::Pumpkin)) => PUMPKIN_SYMBOL,
        _ => UNKNOWN_SYMBOL,
    }
}

/// The symbol for a tile with ground type `ground` and, optionally, an entity
/// of kind `kind` on it: one distinct symbol per pairing of the compatibility
/// table, and the unknown symbol for every pairing outside it.
pub fn tile_symbol(ground: GroundType, kind: Option<EntityType>) -> (c: char)
    ensures
        c == spec_tile_symbol(ground, kind),
{
    match (ground, kind) {
        (GroundType::Grassland, None) => GRASSLAND_EMPTY_SYMBOL,
        (GroundType::Grassland, Some(EntityType::Grass)) => GRASS_SYMBOL,
        (GroundType::Grassland, Some(EntityType::Bush)) => BUSH_SYMBOL,
        (GroundType::Grassland, Some(EntityType::Tree)) => TREE_SYMBOL,
        (GroundType::Soil, None) => SOIL_EMPTY_SYMBOL,
        (GroundType::Soil, Some(EntityType::Carrot)) => CARROT_SYMBOL,
        (GroundType::Soil, Some(EntityType::Pumpkin)) => PUMPKIN_SYMBOL,
        _ => UNKNOWN_SYMBOL,
    }
}

} // verus!
