//! Fixed gameplay constants: growth durations and renderer symbols.

use vstd::prelude::*;

verus! {

/// Seconds a freshly planted grass entity needs before it is grown.
pub const GRASS_GROWTH_TIME: u64 = 1;

/// Seconds a freshly planted bush entity needs before it is grown.
pub const BUSH_GROWTH_TIME: u64 = 2;

/// Seconds a freshly planted carrot entity needs before it is grown.
pub const CARROT_GROWTH_TIME: u64 = 3;

/// Seconds a freshly planted pumpkin entity needs before it is grown.
pub const PUMPKIN_GROWTH_TIME: u64 = 4;

/// Seconds a freshly planted tree entity needs before it is grown.
pub const TREE_GROWTH_TIME: u64 = 5;

/// The number of seconds in a day; every sampled time of day is below this.
pub const SECONDS_PER_DAY: u64 = 86400;

/// Renderer symbol for the drone's position.
pub const DRONE_SYMBOL: char = 'D';

/// Renderer symbol for an empty grassland tile.
pub const GRASSLAND_EMPTY_SYMBOL: char = '.';

/// Renderer symbol for an empty soil tile.
pub const SOIL_EMPTY_SYMBOL: char = 'S';

/// Renderer symbol for a planted grass entity.
pub const GRASS_SYMBOL: char = 'G';

/// Renderer symbol for a planted bush entity.
pub const BUSH_SYMBOL: char = 'B';

/// Renderer symbol for a planted tree entity.
pub const TREE_SYMBOL: char = 'T';

/// Renderer symbol for a planted carrot entity.
pub const CARROT_SYMBOL: char = 'C';

/// Renderer symbol for a planted pumpkin entity.
pub const PUMPKIN_SYMBOL: char = 'P';

/// Renderer symbol for a ground/entity pairing outside the compatibility table.
pub const UNKNOWN_SYMBOL: char = '?';

} // verus!
