//! The game: one world and one drone, and the player-facing command surface.
//!
//! Every operation acts on the tile at the drone's current position. The
//! state transitions are given as spec functions over [`GameView`], each
//! executable command is proved against them, and the laws at the end of the
//! module relate the transitions to one another.

use crate::clock::{is_time_of_day, now_secs};
use crate::error::EngineError;
use crate::game::drone::Drone;
use crate::world::entities::{growth_secs, lemma_growth_secs_bounds, Entity, EntityType};
use crate::world::tiles::{compatible, toggled, GroundType, Tile};
use crate::world::{World, WorldView};
use vstd::arithmetic::div_mod::{
    lemma_add_mod_noop, lemma_mod_bound, lemma_mod_self_0, lemma_small_mod,
};
use vstd::pervasive::unreached;
use vstd::prelude::*;

pub mod drone;

verus! {

/// The four movement directions. North decreases the row index, south
/// increases it; east increases the column index, west decreases it.
#[derive(Debug, PartialEq, Eq, Clone, Copy, Structural)]
pub enum Direction {
    North,
    East,
    South,
    West,
}

/// The two recognized world-creation options: width and height, both of which
/// must be positive.
pub struct GameOptions {
    pub world_width: usize,
    pub world_height: usize,
}

/// The mathematical content of a [`Game`]: the world and the drone's
/// coordinate.
pub struct GameView {
    pub world: WorldView,
    pub drone: (int, int),
}

impl GameView {
    /// The tile under the drone.
    pub open spec fn drone_tile(self) -> Tile {
        self.world.tiles[self.drone]
    }

    /// The game's invariant: the world has positive dimensions and the drone
    /// is within its bounds.
    pub open spec fn wf(self) -> bool {
        &&& 0 < self.world.width
        &&& 0 < self.world.height
        &&& self.world.in_bounds(self.drone.0, self.drone.1)
    }

    /// The same game with the tile under the drone replaced.
    pub open spec fn with_drone_tile(self, tile: Tile) -> GameView {
        GameView {
            world: WorldView { tiles: self.world.tiles.insert(self.drone, tile), ..self.world },
            ..self
        }
    }
}

/// One wrap-around movement step on a width×height torus: stepping off one
/// edge re-enters from the opposite edge.
pub open spec fn move_pos(p: (int, int), direction: Direction, width: int, height: int) -> (
    int,
    int,
) {
    match direction {
        Direction::North => (p.0, if p.1 == 0 {
            height - 1
        } else {
            p.1 - 1
        }),
        Direction::East => (
            if p.0 + 1 == width {
                0
            } else {
                p.0 + 1
            },
            p.1,
        ),
        Direction::South => (p.0, if p.1 + 1 == height {
            0
        } else {
            p.1 + 1
        }),
        Direction::West => (
            if p.0 == 0 {
                width - 1
            } else {
                p.0 - 1
            },
            p.1,
        ),
    }
}

/// The game after one movement step: only the drone's coordinate changes.
pub open spec fn spec_move(g: GameView, direction: Direction) -> GameView {
    GameView { drone: move_pos(g.drone, direction, g.world.width, g.world.height), ..g }
}

/// Whether planting `kind` on the tile under the drone is allowed: exactly
/// when the kind is compatible with that tile's ground type.
pub open spec fn plant_allowed(g: GameView, kind: EntityType) -> bool {
    compatible(g.drone_tile().ground_type, kind)
}

/// The game after planting `kind` at time `now`: the tile under the drone
/// carries a fresh entity that is grown once the kind's growth duration has
/// elapsed.
pub open spec fn spec_plant(g: GameView, kind: EntityType, now: u64) -> GameView {
    g.with_drone_tile(
        Tile {
            entity: Some(
                Entity { entity_type: kind, ready_at: (now + growth_secs(kind)) as u64 },
            ),
            ..g.drone_tile()
        },
    )
}

/// Whether the tile under the drone can be harvested at time `now`: it holds
/// an entity and that entity is grown.
pub open spec fn can_harvest_now(g: GameView, now: u64) -> bool {
    g.drone_tile().entity matches Some(e) && e.spec_is_grown(now)
}

/// The game after a successful harvest: the tile under the drone is cleared.
pub open spec fn spec_harvest(g: GameView) -> GameView {
    g.with_drone_tile(Tile { entity: None, ..g.drone_tile() })
}

/// The game after tilling: the ground type of the tile under the drone is
/// toggled; whatever entity occupies the tile stays untouched.
pub open spec fn spec_till(g: GameView) -> GameView {
    g.with_drone_tile(
        Tile { ground_type: toggled(g.drone_tile().ground_type), ..g.drone_tile() },
    )
}

/// One world and one drone; the sole entry point for all commands and
/// queries.
pub struct Game {
    world: World,
    drone: Drone,
}

impl View for Game {
    type V = GameView;

    closed spec fn view(&self) -> GameView {
        GameView { world: self.world@, drone: (self.drone.x as int, self.drone.y as int) }
    }
}

impl Game {
    /// The game's invariant: the world is well-formed, its dimensions are
    /// positive, and the drone is within bounds.
    pub closed spec fn wf(self) -> bool {
        self.world.wf() && self@.wf()
    }

    /// A fresh game: a fully grassland world of the requested dimensions with
    /// the drone at (0, 0). Dimensions of zero are rejected here, since
    /// wrap-around movement is undefined on an empty world.
    pub fn new(options: GameOptions) -> (g: Game)
        requires
            0 < options.world_width,
            0 < options.world_height,
            options.world_width * options.world_height <= isize::MAX,
        ensures
            g.wf(),
            g@.world.is_fresh(options.world_width as int, options.world_height as int),
            g@.drone == (0int, 0int),
    {
        proof {
            assert(options.world_width <= options.world_width * options.world_height
                && options.world_height <= options.world_width * options.world_height)
                by (nonlinear_arith)
                requires
                    1 <= options.world_width,
                    1 <= options.world_height,
            ;
        }
        let world = match World::new(options.world_width, options.world_height) {
            Ok(w) => w,
            Err(_) => unreached(),
        };
        let drone = Drone::new(0, 0);
        Game { world, drone }
    }

    /// The world's dimensions as (width, height).
    pub fn get_world_size(&self) -> (s: (usize, usize))
        ensures
            s.0 == self@.world.width,
            s.1 == self@.world.height,
    {
        (self.world.width(), self.world.height())
    }

    /// Read access to the world, for renderers that inspect every tile.
    pub fn world(&self) -> (w: &World)
        requires
            self.wf(),
        ensures
            w.wf(),
            w@ == self@.world,
    {
        &self.world
    }

    /// The drone's column.
    pub fn get_pos_x(&self) -> (x: usize)
        ensures
            x == self@.drone.0,
    {
        self.drone.x()
    }

    /// The drone's row.
    pub fn get_pos_y(&self) -> (y: usize)
        ensures
            y == self@.drone.1,
    {
        self.drone.y()
    }

    /// Plants an entity of `kind` on the tile under the drone, as planted at
    /// time `now`. Succeeds exactly when the kind is compatible with the
    /// tile's ground type; otherwise fails with the offending (kind, ground
    /// type) pair and changes nothing. There is no implicit tilling.
    pub fn plant_at(&mut self, entity_type: EntityType, now: u64) -> (r: Result<(), EngineError>)
        requires
            old(self).wf(),
            now + growth_secs(entity_type) <= u64::MAX,
        ensures
            final(self).wf(),
            r is Ok <==> plant_allowed(old(self)@, entity_type),
            r is Ok ==> final(self)@ == spec_plant(old(self)@, entity_type, now),
            r matches Err(e) ==> e == EngineError::EntityNotAllowedOnGroundType(
                entity_type,
                old(self)@.drone_tile().ground_type,
            ) && final(self)@ == old(self)@,
    {
        let x = self.drone.x();
        let y = self.drone.y();
        let mut tile = match self.world.get_tile(x, y) {
            Ok(t) => *t,
            Err(_) => unreached(),
        };
        let entity = Entity::new(entity_type, now);
        match tile.set_entity(Some(entity)) {
            Ok(()) => {
                match self.world.put_tile(x, y, tile) {
                    Ok(()) => Ok(()),
                    Err(_) => unreached(),
                }
            },
            Err(e) => Err(e),
        }
    }

    /// Samples the clock and plants an entity of `kind` as planted now.
    /// Succeeds exactly when the kind is compatible with the ground type of
    /// the tile under the drone.
    pub fn plant(&mut self, entity_type: EntityType) -> (r: Result<(), EngineError>)
        requires
            old(self).wf(),
        ensures
            final(self).wf(),
            r is Ok <==> plant_allowed(old(self)@, entity_type),
            r matches Err(e) ==> e == EngineError::EntityNotAllowedOnGroundType(
                entity_type,
                old(self)@.drone_tile().ground_type,
            ) && final(self)@ == old(self)@,
            r is Ok ==> exists|now: u64|
                #[trigger] is_time_of_day(now) && final(self)@ == spec_plant(
                    old(self)@,
                    entity_type,
                    now,
                ),
    {
        let now = now_secs();
        proof {
            lemma_growth_secs_bounds(entity_type);
        }
        let r = self.plant_at(entity_type, now);
        proof {
            if r is Ok {
                assert(is_time_of_day(now) && self@ == spec_plant(old(self)@, entity_type, now));
            }
        }
        r
    }

    /// Whether the tile under the drone holds an entity that is grown at time
    /// `now`. False on an empty tile, never an error.
    pub fn can_harvest_at(&self, now: u64) -> (r: Result<bool, EngineError>)
        requires
            self.wf(),
        ensures
            r == Ok::<bool, EngineError>(can_harvest_now(self@, now)),
    {
        let x = self.drone.x();
        let y = self.drone.y();
        let tile = match self.world.get_tile(x, y) {
            Ok(t) => t,
            Err(_) => unreached(),
        };
        match tile.entity() {
            Some(entity) => Ok(entity.is_grown_at(now)),
            None => Ok(false),
        }
    }

    /// Samples the clock and reports whether the tile under the drone holds a
    /// grown entity. False on an empty tile, never an error.
    pub fn can_harvest(&self) -> (r: Result<bool, EngineError>)
        requires
            self.wf(),
        ensures
            r matches Ok(b) && (b ==> self@.drone_tile().entity is Some),
            self@.drone_tile().entity is None ==> r == Ok::<bool, EngineError>(false),
            exists|now: u64|
                #[trigger] is_time_of_day(now) && r == Ok::<bool, EngineError>(
                    can_harvest_now(self@, now),
                ),
    {
        let now = now_secs();
        let r = self.can_harvest_at(now);
        proof {
            assert(is_time_of_day(now) && r == Ok::<bool, EngineError>(
                can_harvest_now(self@, now),
            ));
        }
        r
    }

    /// Harvests the tile under the drone at time `now`: succeeds exactly when
    /// the tile holds a grown entity, and then clears it. An empty tile and a
    /// not-yet-grown entity both fail with the same error, and change
    /// nothing.
    pub fn harvest_at(&mut self, now: u64) -> (r: Result<(), EngineError>)
        requires
            old(self).wf(),
        ensures
            final(self).wf(),
            r is Ok <==> can_harvest_now(old(self)@, now),
            r is Ok ==> final(self)@ == spec_harvest(old(self)@),
            r matches Err(e) ==> e == EngineError::EntityNotGrown && final(self)@ == old(self)@,
    {
        let can = match self.can_harvest_at(now) {
            Ok(b) => b,
            Err(_) => unreached(),
        };
        if can {
            let x = self.drone.x();
            let y = self.drone.y();
            let mut tile = match self.world.get_tile(x, y) {
                Ok(t) => *t,
                Err(_) => unreached(),
            };
            match tile.set_entity(None) {
                Ok(()) => {},
                Err(_) => unreached(),
            }
            match self.world.put_tile(x, y, tile) {
                Ok(()) => Ok(()),
                Err(_) => unreached(),
            }
        } else {
            Err(EngineError::EntityNotGrown)
        }
    }

    /// Samples the clock and harvests the tile under the drone: succeeds
    /// exactly when the tile holds an entity that is grown now, and then
    /// clears it. An empty tile always fails with the same error.
    pub fn harvest(&mut self) -> (r: Result<(), EngineError>)
        requires
            old(self).wf(),
        ensures
            final(self).wf(),
            old(self)@.drone_tile().entity is None ==> r == Err::<(), EngineError>(
                EngineError::EntityNotGrown,
            ) && final(self)@ == old(self)@,
            r is Ok ==> old(self)@.drone_tile().entity is Some && final(self)@ == spec_harvest(
                old(self)@,
            ),
            r matches Err(e) ==> e == EngineError::EntityNotGrown && final(self)@ == old(self)@,
            exists|now: u64|
                #[trigger] is_time_of_day(now) && (r is Ok <==> can_harvest_now(old(self)@, now)),
    {
        let now = now_secs();
        let r = self.harvest_at(now);
        proof {
            assert(is_time_of_day(now) && (r is Ok <==> can_harvest_now(old(self)@, now)));
        }
        r
    }

    /// The kind of the entity on the tile under the drone, if any. A pure
    /// read, no failure path.
    pub fn get_entity_type(&self) -> (r: Result<Option<&EntityType>, EngineError>)
        requires
            self.wf(),
        ensures
            r matches Ok(o) && match o {
                Some(k) => self@.drone_tile().entity matches Some(e) && e.entity_type == *k,
                None => self@.drone_tile().entity is None,
            },
    {
        let x = self.drone.x();
        let y = self.drone.y();
        let tile = match self.world.get_tile(x, y) {
            Ok(t) => t,
            Err(_) => unreached(),
        };
        match tile.entity() {
            Some(entity) => Ok(Some(entity.entity_type())),
            None => Ok(None),
        }
    }

    /// The ground type of the tile under the drone. A pure read, no failure
    /// path.
    pub fn get_ground_type(&self) -> (r: Result<&GroundType, EngineError>)
        requires
            self.wf(),
        ensures
            r matches Ok(g) && *g == self@.drone_tile().ground_type,
    {
        let x = self.drone.x();
        let y = self.drone.y();
        let tile = match self.world.get_tile(x, y) {
            Ok(t) => t,
            Err(_) => unreached(),
        };
        Ok(tile.ground_type())
    }

    /// Toggles the ground type of the tile under the drone between grassland
    /// and soil, unconditionally: an entity already on the tile is neither
    /// revalidated nor cleared.
    pub fn till(&mut self) -> (r: Result<(), EngineError>)
        requires
            old(self).wf(),
        ensures
            final(self).wf(),
            r is Ok,
            final(self)@ == spec_till(old(self)@),
    {
        let x = self.drone.x();
        let y = self.drone.y();
        let mut tile = match self.world.get_tile(x, y) {
            Ok(t) => *t,
            Err(_) => unreached(),
        };
        if tile.ground_type() == &GroundType::Grassland {
            tile.set_ground_type(GroundType::Soil);
        } else {
            tile.set_ground_type(GroundType::Grassland);
        }
        match self.world.put_tile(x, y, tile) {
            Ok(()) => Ok(()),
            Err(_) => unreached(),
        }
    }

    /// Moves the drone one step with wrap-around; never fails on a
    /// well-formed game, and only the drone's coordinate changes.
    pub fn move_drone(&mut self, direction: Direction) -> (r: Result<(), EngineError>)
        requires
            old(self).wf(),
        ensures
            final(self).wf(),
            r is Ok,
            final(self)@ == spec_move(old(self)@, direction),
    {
        let width = self.world.width();
        let height = self.world.height();

        let (x, y) = match direction {
            Direction::North => {
                let new_y = if self.drone.y() == 0 {
                    height - 1
                } else {
                    self.drone.y() - 1
                };
                (self.drone.x(), new_y)
            },
            Direction::East => {
                let new_x = (self.drone.x() + 1) % width;
                proof {
                    if self.drone.x + 1 == width {
                        lemma_mod_self_0(width as int);
                    } else {
                        lemma_small_mod((self.drone.x + 1) as nat, width as nat);
                    }
                }
                (new_x, self.drone.y())
            },
            Direction::South => {
                let new_y = (self.drone.y() + 1) % height;
                proof {
                    if self.drone.y + 1 == height {
                        lemma_mod_self_0(height as int);
                    } else {
                        lemma_small_mod((self.drone.y + 1) as nat, height as nat);
                    }
                }
                (self.drone.x(), new_y)
            },
            Direction::West => {
                let new_x = if self.drone.x() == 0 {
                    width - 1
                } else {
                    self.drone.x() - 1
                };
                (new_x, self.drone.y())
            },
        };
        self.drone.set_position(x, y);
        Ok(())
    }
}

/// Law: an entity planted at time `planted_at` cannot be harvested before
/// `planted_at` plus its kind's growth duration; from that moment on it can,
/// and harvesting clears the tile while keeping its ground type.
pub proof fn lemma_plant_then_harvest(g: GameView, kind: EntityType, planted_at: u64, now: u64)
    requires
        plant_allowed(g, kind),
        planted_at + growth_secs(kind) <= u64::MAX,
    ensures
        ({
            let planted = spec_plant(g, kind, planted_at);
            &&& now < planted_at + growth_secs(kind) ==> !can_harvest_now(planted, now)
            &&& now >= planted_at + growth_secs(kind) ==> can_harvest_now(planted, now)
            &&& spec_harvest(planted).drone_tile().entity is None
            &&& spec_harvest(planted).drone_tile().ground_type == g.drone_tile().ground_type
        }),
{
}

/// Law: tilling twice returns the ground type of the tile under the drone to
/// its original value, and tilling never touches the entity on that tile,
/// whatever occupies it.
pub proof fn lemma_till_twice(g: GameView)
    ensures
        spec_till(spec_till(g)).drone_tile().ground_type == g.drone_tile().ground_type,
        spec_till(g).drone_tile().entity == g.drone_tile().entity,
        spec_till(spec_till(g)).drone_tile().entity == g.drone_tile().entity,
        spec_till(g).drone == g.drone,
{
}

/// The game after `n` eastward movement steps.
pub open spec fn east_steps(g: GameView, n: nat) -> GameView
    decreases n,
{
    if n == 0 {
        g
    } else {
        spec_move(east_steps(g, (n - 1) as nat), Direction::East)
    }
}

/// After `n` eastward steps from a column inside the world, the drone stands
/// at the starting column plus `n`, modulo the width; the world and the row
/// never change.
pub proof fn lemma_east_steps_mod(g: GameView, n: nat)
    requires
        0 < g.world.width,
        0 <= g.drone.0 < g.world.width,
    ensures
        east_steps(g, n).world == g.world,
        east_steps(g, n).drone.1 == g.drone.1,
        east_steps(g, n).drone.0 == (g.drone.0 + n) % g.world.width,
    decreases n,
{
    let w = g.world.width;
    let x = g.drone.0;
    if n == 0 {
        lemma_small_mod(x as nat, w as nat);
    } else {
        lemma_east_steps_mod(g, (n - 1) as nat);
        let prev = east_steps(g, (n - 1) as nat);
        let p = prev.drone.0;
        assert(p == (x + (n - 1)) % w);
        assert(0 <= p < w) by {
            lemma_mod_bound(x + (n - 1), w);
        }
        if p + 1 == w {
            lemma_mod_self_0(w);
            assert((x + n) % w == ((p + 1) % w)) by {
                lemma_add_mod_noop(x + (n - 1), 1, w);
                if w == 1 {
                } else {
                    lemma_small_mod(1nat, w as nat);
                }
            }
        } else {
            assert((x + n) % w == p + 1) by {
                lemma_add_mod_noop(x + (n - 1), 1, w);
                if w == 1 {
                } else {
                    lemma_small_mod(1nat, w as nat);
                    lemma_small_mod((p + 1) as nat, w as nat);
                }
            }
        }
    }
}

/// Law: a sequence of eastward moves as long as the world is wide returns the
/// drone to its starting position and leaves the world untouched.
pub proof fn lemma_east_full_cycle(g: GameView)
    requires
        0 < g.world.width,
        0 <= g.drone.0 < g.world.width,
    ensures
        east_steps(g, g.world.width as nat).drone == g.drone,
        east_steps(g, g.world.width as nat).world == g.world,
{
    let w = g.world.width;
    let x = g.drone.0;
    lemma_east_steps_mod(g, w as nat);
    assert((x + w) % w == x) by {
        lemma_add_mod_noop(x, w, w);
        lemma_mod_self_0(w);
        lemma_small_mod(x as nat, w as nat);
    }
}

} // verus!
