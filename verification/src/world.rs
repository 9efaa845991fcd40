//! The world: a dense width×height grid of tiles with bounds-checked access.

use crate::clock::{is_time_of_day, now_secs};
use crate::consts::GRASS_GROWTH_TIME;
use crate::error::EngineError;
use crate::world::entities::{Entity, EntityType};
use crate::world::tiles::{GroundType, Tile};
use vstd::prelude::*;

pub mod entities;
pub mod tiles;

verus! {

/// Dense two-dimensional tile storage, backed by an `ndarray::Array2`.
/// The array is opaque to the verifier; its contents and dimensions are named
/// by [`grid_map`] and [`grid_dim`], and every access goes through the trusted
/// methods below.
#[verifier::external_body]
pub struct TileGrid {
    cells: ndarray::Array2<Tile>,
}

/// The contents of a tile grid: the tile stored at each (x, y) cell.
pub uninterp spec fn grid_map(grid: TileGrid) -> Map<(int, int), Tile>;

/// The dimensions (columns, rows) a tile grid was created with.
pub uninterp spec fn grid_dim(grid: TileGrid) -> (nat, nat);

impl TileGrid {
    /// Relies on ndarray::Array2::from_elem: a width×height array with every
    /// element a clone of `tile`; panics only if the product of the non-zero
    /// axis lengths overflows isize, so each axis must be bounded on its own
    /// as well as the product.
    #[verifier::external_body]
    pub(crate) fn new_filled(width: usize, height: usize, tile: Tile) -> (g: TileGrid)
        requires
            width <= isize::MAX,
            height <= isize::MAX,
            width * height <= isize::MAX,
        ensures
            grid_dim(g) == ((width as nat, height as nat)),
            forall|p: (int, int)|
                0 <= p.0 < width && 0 <= p.1 < height ==> #[trigger] grid_map(g)[p] == tile,
    {
        TileGrid { cells: ndarray::Array2::from_elem((width, height), tile) }
    }

    /// Relies on ndarray's Index impl for ArrayBase: returns the element at
    /// (x, y); panics only on an out-of-bounds index.
    #[verifier::external_body]
    pub(crate) fn at(&self, x: usize, y: usize) -> (t: &Tile)
        requires
            (x as int) < grid_dim(*self).0,
            (y as int) < grid_dim(*self).1,
        ensures
            *t == grid_map(*self)[(x as int, y as int)],
    {
        &self.cells[(x, y)]
    }

    /// Relies on ndarray's IndexMut impl for ArrayBase: replaces the element
    /// at (x, y); panics only on an out-of-bounds index.
    #[verifier::external_body]
    pub(crate) fn put(&mut self, x: usize, y: usize, tile: Tile)
        requires
            (x as int) < grid_dim(*old(self)).0,
            (y as int) < grid_dim(*old(self)).1,
        ensures
            grid_dim(*final(self)) == grid_dim(*old(self)),
            grid_map(*final(self)) == grid_map(*old(self)).insert((x as int, y as int), tile),
    {
        self.cells[(x, y)] = tile;
    }
}

/// The mathematical content of a [`World`]: its dimensions and the tile at
/// each coordinate. Only coordinates with `0 <= x < width` and
/// `0 <= y < height` are meaningful.
pub struct WorldView {
    pub width: int,
    pub height: int,
    pub tiles: Map<(int, int), Tile>,
}

impl WorldView {
    /// Whether (x, y) lies inside the world.
    pub open spec fn in_bounds(self, x: int, y: int) -> bool {
        0 <= x < self.width && 0 <= y < self.height
    }

    /// Every in-bounds tile records its own coordinates.
    pub open spec fn coords_ok(self) -> bool {
        forall|x: int, y: int|
            self.in_bounds(x, y) ==> (#[trigger] self.tiles[(x, y)]).x == x && self.tiles[
                (x, y)
            ].y == y
    }

    /// A freshly constructed width×height world: every in-bounds tile is
    /// grassland with no entity.
    pub open spec fn is_fresh(self, width: int, height: int) -> bool {
        &&& self.width == width
        &&& self.height == height
        &&& forall|x: int, y: int|
            self.in_bounds(x, y) ==> #[trigger] self.tiles[(x, y)] == (Tile {
                x: x as usize,
                y: y as usize,
                ground_type: GroundType::Grassland,
                entity: None,
            })
    }
}

/// A width×height grid of tiles, one per integer coordinate pair, addressed
/// 0-indexed with x increasing east and y increasing north. Dimensions are
/// fixed at construction; no wrap-around at this layer.
pub struct World {
    width: usize,
    height: usize,
    tiles: TileGrid,
}

impl View for World {
    type V = WorldView;

    closed spec fn view(&self) -> WorldView {
        WorldView {
            width: self.width as int,
            height: self.height as int,
            tiles: grid_map(self.tiles),
        }
    }
}

impl World {
    /// The tile storage matches the stated dimensions.
    pub closed spec fn storage_ok(self) -> bool {
        grid_dim(self.tiles) == ((self.width as nat, self.height as nat))
    }

    /// The world's invariant: storage matches the dimensions and every
    /// in-bounds tile records its own coordinates.
    pub open spec fn wf(self) -> bool {
        self.storage_ok() && self@.coords_ok()
    }

    /// Builds the full grid eagerly: every tile starts as grassland with no
    /// entity. Dimensions of zero are permitted and yield an empty grid.
    /// Construction never fails for dimensions within machine limits.
    pub fn new(width: usize, height: usize) -> (r: Result<World, EngineError>)
        requires
            width <= isize::MAX,
            height <= isize::MAX,
            width * height <= isize::MAX,
        ensures
            r matches Ok(w) && w.wf() && w@.is_fresh(width as int, height as int),
    {
        let filler = Tile { x: 0, y: 0, ground_type: GroundType::Grassland, entity: None };
        let mut tiles = TileGrid::new_filled(width, height, filler);
        let mut x: usize = 0;
        while x < width
            invariant
                x <= width,
                grid_dim(tiles) == ((width as nat, height as nat)),
                forall|i: int, j: int|
                    0 <= i < width && 0 <= j < height ==> #[trigger] grid_map(tiles)[(i, j)] == (
                    if i < x {
                        Tile {
                            x: i as usize,
                            y: j as usize,
                            ground_type: GroundType::Grassland,
                            entity: None,
                        }
                    } else {
                        filler
                    }),
            decreases width - x,
        {
            let mut y: usize = 0;
            while y < height
                invariant
                    x < width,
                    y <= height,
                    grid_dim(tiles) == ((width as nat, height as nat)),
                    forall|i: int, j: int|
                        0 <= i < width && 0 <= j < height ==> #[trigger] grid_map(tiles)[(i, j)]
                            == (if i < x || (i == x && j < y) {
                            Tile {
                                x: i as usize,
                                y: j as usize,
                                ground_type: GroundType::Grassland,
                                entity: None,
                            }
                        } else {
                            filler
                        }),
                decreases height - y,
            {
                tiles.put(x, y, Tile { x, y, ground_type: GroundType::Grassland, entity: None });
                y = y + 1;
            }
            x = x + 1;
        }
        Ok(World { width, height, tiles })
    }

    /// The world's width.
    pub fn width(&self) -> (w: usize)
        ensures
            w == self@.width,
    {
        self.width
    }

    /// The world's height.
    pub fn height(&self) -> (h: usize)
        ensures
            h == self@.height,
    {
        self.height
    }

    /// Bounds-checked tile access: the tile at (x, y), or an out-of-bounds
    /// error identifying the offending coordinates.
    pub fn get_tile(&self, x: usize, y: usize) -> (r: Result<&Tile, EngineError>)
        requires
            self.wf(),
        ensures
            self@.in_bounds(x as int, y as int) ==> (r matches Ok(t) && *t == self@.tiles[
                (x as int, y as int)
            ]),
            !self@.in_bounds(x as int, y as int) ==> r == Err::<&Tile, EngineError>(
                EngineError::DroneOutOfBounds { x, y },
            ),
    {
        if x >= self.width || y >= self.height {
            return Err(EngineError::DroneOutOfBounds { x, y });
        }
        Ok(self.tiles.at(x, y))
    }

    /// Bounds-checked tile replacement: stores `tile` at (x, y), or fails
    /// with an out-of-bounds error and leaves the world unchanged. The tile
    /// must carry the coordinates it is stored at, which never change for the
    /// life of a tile.
    pub fn put_tile(&mut self, x: usize, y: usize, tile: Tile) -> (r: Result<(), EngineError>)
        requires
            old(self).wf(),
            tile.x == x,
            tile.y == y,
        ensures
            final(self).wf(),
            final(self)@.width == old(self)@.width,
            final(self)@.height == old(self)@.height,
            old(self)@.in_bounds(x as int, y as int) ==> r is Ok && final(self)@.tiles == old(
                self,
            )@.tiles.insert((x as int, y as int), tile),
            !old(self)@.in_bounds(x as int, y as int) ==> r == Err::<(), EngineError>(
                EngineError::DroneOutOfBounds { x, y },
            ) && final(self)@ == old(self)@,
    {
        if x >= self.width || y >= self.height {
            return Err(EngineError::DroneOutOfBounds { x, y });
        }
        self.tiles.put(x, y, tile);
        Ok(())
    }

    /// Resets every tile to grassland with a fresh grass entity planted at
    /// time `now`. Grass on grassland is always compatible, so this never
    /// fails.
    pub fn clear_at(&mut self, now: u64) -> (r: Result<(), EngineError>)
        requires
            old(self).wf(),
            now + GRASS_GROWTH_TIME <= u64::MAX,
        ensures
            final(self).wf(),
            r is Ok,
            final(self)@.width == old(self)@.width,
            final(self)@.height == old(self)@.height,
            forall|x: int, y: int|
                final(self)@.in_bounds(x, y) ==> #[trigger] final(self)@.tiles[(x, y)] == (Tile {
                    x: x as usize,
                    y: y as usize,
                    ground_type: GroundType::Grassland,
                    entity: Some(
                        Entity {
                            entity_type: EntityType::Grass,
                            ready_at: (now + GRASS_GROWTH_TIME) as u64,
                        },
                    ),
                }),
    {
        let entity = Entity::new(EntityType::Grass, now);
        let mut x: usize = 0;
        while x < self.width
            invariant
                x <= self.width,
                self.wf(),
                self@.width == old(self)@.width,
                self@.height == old(self)@.height,
                entity == (Entity {
                    entity_type: EntityType::Grass,
                    ready_at: (now + GRASS_GROWTH_TIME) as u64,
                }),
                forall|i: int, j: int|
                    self@.in_bounds(i, j) ==> #[trigger] self@.tiles[(i, j)] == (if i < x {
                        Tile {
                            x: i as usize,
                            y: j as usize,
                            ground_type: GroundType::Grassland,
                            entity: Some(entity),
                        }
                    } else {
                        old(self)@.tiles[(i, j)]
                    }),
            decreases self.width - x,
        {
            let mut y: usize = 0;
            while y < self.height
                invariant
                    x < self.width,
                    y <= self.height,
                    self.wf(),
                    self@.width == old(self)@.width,
                    self@.height == old(self)@.height,
                    entity == (Entity {
                        entity_type: EntityType::Grass,
                        ready_at: (now + GRASS_GROWTH_TIME) as u64,
                    }),
                    forall|i: int, j: int|
                        self@.in_bounds(i, j) ==> #[trigger] self@.tiles[(i, j)] == (if i < x || (i
                            == x && j < y) {
                            Tile {
                                x: i as usize,
                                y: j as usize,
                                ground_type: GroundType::Grassland,
                                entity: Some(entity),
                            }
                        } else {
                            old(self)@.tiles[(i, j)]
                        }),
                decreases self.height - y,
            {
                let tile = Tile { x, y, ground_type: GroundType::Grassland, entity: Some(entity) };
                self.tiles.put(x, y, tile);
                y = y + 1;
            }
            x = x + 1;
        }
        Ok(())
    }

    /// Samples the clock and resets every tile to grassland with a fresh
    /// grass entity planted now.
    pub fn clear(&mut self) -> (r: Result<(), EngineError>)
        requires
            old(self).wf(),
        ensures
            final(self).wf(),
            r is Ok,
            final(self)@.width == old(self)@.width,
            final(self)@.height == old(self)@.height,
            exists|now: u64|
                #[trigger] is_time_of_day(now) && forall|x: int, y: int|
                    final(self)@.in_bounds(x, y) ==> #[trigger] final(self)@.tiles[(x, y)] == (Tile {
                        x: x as usize,
                        y: y as usize,
                        ground_type: GroundType::Grassland,
                        entity: Some(
                            Entity {
                                entity_type: EntityType::Grass,
                                ready_at: (now + GRASS_GROWTH_TIME) as u64,
                            },
                        ),
                    }),
    {
        let now = now_secs();
        let r = self.clear_at(now);
        proof {
            assert(is_time_of_day(now) && forall|x: int, y: int|
                self@.in_bounds(x, y) ==> #[trigger] self@.tiles[(x, y)] == (Tile {
                    x: x as usize,
                    y: y as usize,
                    ground_type: GroundType::Grassland,
                    entity: Some(
                        Entity {
                            entity_type: EntityType::Grass,
                            ready_at: (now + GRASS_GROWTH_TIME) as u64,
                        },
                    ),
                }));
        }
        r
    }
}

} // verus!
