//! Plantable entity kinds and planted, time-growing entities.

use crate::clock::{is_time_of_day, now_secs};
use crate::consts::{
    BUSH_GROWTH_TIME, CARROT_GROWTH_TIME, GRASS_GROWTH_TIME, PUMPKIN_GROWTH_TIME, TREE_GROWTH_TIME,
};
use crate::error::EngineError;
use vstd::prelude::*;

verus! {

/// The fixed set of plantable kinds. A kind has no identity beyond itself.
#[derive(Debug, PartialEq, Eq, Clone, Copy, Structural)]
pub enum EntityType {
    Grass,
    Bush,
    Carrot,
    Pumpkin,
    Tree,
}

/// The fixed growth duration of a kind, in seconds.
pub open spec fn growth_secs(kind: EntityType) -> int {
    match kind {
        EntityType::Grass => GRASS_GROWTH_TIME as int,
        EntityType::Bush => BUSH_GROWTH_TIME as int,
        EntityType::Carrot => CARROT_GROWTH_TIME as int,
        EntityType::Pumpkin => PUMPKIN_GROWTH_TIME as int,
        EntityType::Tree => TREE_GROWTH_TIME as int,
    }
}

/// Every growth duration lies between the grass and the tree duration.
pub proof fn lemma_growth_secs_bounds(kind: EntityType)
    ensures
        GRASS_GROWTH_TIME <= growth_secs(kind) <= TREE_GROWTH_TIME,
{
}

impl EntityType {
    /// The growth duration of this kind, in seconds. Total over the enum,
    /// no error path.
    pub fn growth_time(&self) -> (d: u64)
        ensures
            d == growth_secs(*self),
    {
        match self {
            EntityType::Grass => GRASS_GROWTH_TIME,
            EntityType::Bush => BUSH_GROWTH_TIME,
            EntityType::Carrot => CARROT_GROWTH_TIME,
            EntityType::Pumpkin => PUMPKIN_GROWTH_TIME,
            EntityType::Tree => TREE_GROWTH_TIME,
        }
    }
}

/// A planted entity: its kind and the timestamp at which it is grown.
/// The ready timestamp is always the planting time plus the kind's growth
/// duration; grown-ness is a pure function of the current time against it,
/// never a stored flag.
#[derive(Debug, PartialEq, Eq, Clone, Copy, Structural)]
pub struct Entity {
    pub entity_type: EntityType,
    pub ready_at: u64,
}

impl Entity {
    /// Whether the entity is grown at time `now`.
    pub open spec fn spec_is_grown(self, now: u64) -> bool {
        now >= self.ready_at
    }

    /// Creates an entity of `kind` planted at time `planted_at`; it is grown
    /// from `planted_at` plus the kind's growth duration onwards.
    ///
    /// Timestamps are treated as monotone: the ready time is not wrapped
    /// around midnight. An entity planted so close to midnight that its ready
    /// time falls past the day's end is therefore never grown by the sampled
    /// time-of-day clock, only by an explicitly supplied later timestamp.
    pub fn new(entity_type: EntityType, planted_at: u64) -> (e: Entity)
        requires
            planted_at + growth_secs(entity_type) <= u64::MAX,
        ensures
            e == (Entity {
                entity_type,
                ready_at: (planted_at + growth_secs(entity_type)) as u64,
            }),
    {
        Entity { entity_type, ready_at: planted_at + entity_type.growth_time() }
    }

    /// The entity's kind.
    pub fn entity_type(&self) -> (t: &EntityType)
        ensures
            *t == self.entity_type,
    {
        &self.entity_type
    }

    /// Changes the entity's kind; the ready timestamp is kept.
    pub fn set_entity_type(&mut self, entity_type: EntityType)
        ensures
            *final(self) == (Entity { entity_type, ..*old(self) }),
    {
        self.entity_type = entity_type;
    }

    /// The timestamp at which the entity is grown.
    pub fn growth_time(&self) -> (t: u64)
        ensures
            t == self.ready_at,
    {
        self.ready_at
    }

    /// Whether the entity is grown at time `now`: true iff `now` has reached
    /// the ready timestamp.
    pub fn is_grown_at(&self, now: u64) -> (r: bool)
        ensures
            r == self.spec_is_grown(now),
    {
        now >= self.ready_at
    }

    /// Samples the clock and reports whether the entity is grown now.
    /// Evaluated freshly on every call, never cached.
    pub fn is_grown(&self) -> (r: bool)
        ensures
            exists|now: u64| #[trigger] is_time_of_day(now) && r == self.spec_is_grown(now),
    {
        let now = now_secs();
        let r = self.is_grown_at(now);
        proof {
            assert(is_time_of_day(now) && r == self.spec_is_grown(now));
        }
        r
    }
}

/// Step-by-step construction of an [`Entity`]: the kind is optional until
/// [`EntityBuilder::build`] checks that it was supplied.
pub struct EntityBuilder {
    pub entity_type: Option<EntityType>,
}

impl Default for EntityBuilder {
    /// A builder with no kind chosen yet.
    fn default() -> (b: Self)
        ensures
            b.entity_type is None,
    {
        EntityBuilder { entity_type: None }
    }
}

impl EntityBuilder {
    /// A builder with no kind chosen yet.
    pub fn new() -> (b: Self)
        ensures
            b.entity_type is None,
    {
        Self::default()
    }

    /// Chooses the kind of the entity to build.
    pub fn entity_type(self, entity_type: EntityType) -> (b: Self)
        ensures
            b.entity_type == Some(entity_type),
    {
        EntityBuilder { entity_type: Some(entity_type) }
    }

    /// Builds the entity as planted at time `planted_at`; fails iff no kind
    /// was chosen.
    pub fn build_at(self, planted_at: u64) -> (r: Result<Entity, EngineError>)
        requires
            self.entity_type matches Some(k) ==> planted_at + growth_secs(k) <= u64::MAX,
        ensures
            self.entity_type matches Some(k) ==> r == Ok::<Entity, EngineError>(
                Entity { entity_type: k, ready_at: (planted_at + growth_secs(k)) as u64 },
            ),
            self.entity_type is None ==> r == Err::<Entity, EngineError>(
                EngineError::EntityWithoutType,
            ),
    {
        match self.entity_type {
            Some(t) => Ok(Entity::new(t, planted_at)),
            None => Err(EngineError::EntityWithoutType),
        }
    }

    /// Samples the clock and builds the entity as planted now; fails iff no
    /// kind was chosen.
    pub fn build(self) -> (r: Result<Entity, EngineError>)
        ensures
            self.entity_type is None <==> r == Err::<Entity, EngineError>(
                EngineError::EntityWithoutType,
            ),
            self.entity_type matches Some(k) ==> r matches Ok(e) && e.entity_type == k,
            r matches Ok(e) ==> {
                &&& self.entity_type == Some(e.entity_type)
                &&& exists|now: u64|
                    #[trigger] is_time_of_day(now) && e.ready_at == now + growth_secs(
                        e.entity_type,
                    )
            },
    {
        let now = now_secs();
        proof {
            if self.entity_type is Some {
                lemma_growth_secs_bounds(self.entity_type->0);
            }
        }
        let r = self.build_at(now);
        proof {
            if r is Ok {
                let e = r->Ok_0;
                assert(is_time_of_day(now) && e.ready_at == now + growth_secs(e.entity_type));
            }
        }
        r
    }
}

} // verus!
