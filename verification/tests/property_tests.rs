use farm_engine::consts::{
    BUSH_GROWTH_TIME, CARROT_GROWTH_TIME, GRASS_GROWTH_TIME, PUMPKIN_GROWTH_TIME, TREE_GROWTH_TIME,
};
use farm_engine::display::tile_symbol;
use farm_engine::error::EngineError;
use farm_engine::game::{Direction, Game, GameOptions};
use farm_engine::world::entities::{Entity, EntityBuilder, EntityType};
use farm_engine::world::tiles::{GroundType, TileBuilder};
use farm_engine::world::World;

#[test]
fn fresh_world_is_all_grassland_and_empty() {
    let world = World::new(4, 3).unwrap();
    assert_eq!(world.width(), 4);
    assert_eq!(world.height(), 3);
    for x in 0..4 {
        for y in 0..3 {
            let tile = world.get_tile(x, y).unwrap();
            assert_eq!(tile.x(), x);
            assert_eq!(tile.y(), y);
            assert_eq!(tile.ground_type(), &GroundType::Grassland);
            assert_eq!(tile.entity(), None);
        }
    }
}

#[test]
fn zero_sized_world_has_no_valid_coordinates() {
    let world = World::new(0, 0).unwrap();
    assert_eq!(world.width(), 0);
    assert_eq!(world.height(), 0);
    assert!(matches!(
        world.get_tile(0, 0).unwrap_err(),
        EngineError::DroneOutOfBounds { x: 0, y: 0 }
    ));
}

#[test]
fn out_of_bounds_access_reports_the_offending_coordinates() {
    let world = World::new(3, 3).unwrap();
    assert!(matches!(
        world.get_tile(3, 0).unwrap_err(),
        EngineError::DroneOutOfBounds { x: 3, y: 0 }
    ));
    assert!(matches!(
        world.get_tile(1, 7).unwrap_err(),
        EngineError::DroneOutOfBounds { x: 1, y: 7 }
    ));
}

#[test]
fn tile_without_ground_type_is_rejected() {
    let result = TileBuilder::new(2, 2).build();
    assert!(matches!(
        result.unwrap_err(),
        EngineError::TileWithoutGroundType
    ));
}

#[test]
fn entity_without_type_is_rejected() {
    let result = EntityBuilder::new().build();
    assert!(matches!(result.unwrap_err(), EngineError::EntityWithoutType));
}

#[test]
fn growth_durations_are_fixed_per_kind() {
    assert_eq!(EntityType::Grass.growth_time(), 1);
    assert_eq!(EntityType::Bush.growth_time(), 2);
    assert_eq!(EntityType::Carrot.growth_time(), 3);
    assert_eq!(EntityType::Pumpkin.growth_time(), 4);
    assert_eq!(EntityType::Tree.growth_time(), 5);
    assert_eq!(GRASS_GROWTH_TIME, 1);
    assert_eq!(BUSH_GROWTH_TIME, 2);
    assert_eq!(CARROT_GROWTH_TIME, 3);
    assert_eq!(PUMPKIN_GROWTH_TIME, 4);
    assert_eq!(TREE_GROWTH_TIME, 5);
}

#[test]
fn entity_is_grown_exactly_from_ready_time_onwards() {
    let entity = Entity::new(EntityType::Pumpkin, 100);
    assert_eq!(entity.entity_type(), &EntityType::Pumpkin);
    assert_eq!(entity.growth_time(), 104);
    assert!(!entity.is_grown_at(100));
    assert!(!entity.is_grown_at(103));
    assert!(entity.is_grown_at(104));
    assert!(entity.is_grown_at(7000));
}

#[test]
fn set_entity_type_keeps_the_ready_time() {
    let mut entity = Entity::new(EntityType::Grass, 50);
    entity.set_entity_type(EntityType::Bush);
    assert_eq!(entity.entity_type(), &EntityType::Bush);
    assert_eq!(entity.growth_time(), 51);
}

#[test]
fn entity_builder_builds_at_an_explicit_time() {
    let entity = EntityBuilder::new()
        .entity_type(EntityType::Carrot)
        .build_at(10)
        .unwrap();
    assert_eq!(entity.entity_type(), &EntityType::Carrot);
    assert_eq!(entity.growth_time(), 13);
}

#[test]
fn compatibility_table_is_exact() {
    let grass = Entity::new(EntityType::Grass, 0);
    let bush = Entity::new(EntityType::Bush, 0);
    let carrot = Entity::new(EntityType::Carrot, 0);
    let pumpkin = Entity::new(EntityType::Pumpkin, 0);
    let tree = Entity::new(EntityType::Tree, 0);

    assert!(GroundType::Grassland.can_have_entity(&grass));
    assert!(GroundType::Grassland.can_have_entity(&bush));
    assert!(GroundType::Grassland.can_have_entity(&tree));
    assert!(!GroundType::Grassland.can_have_entity(&carrot));
    assert!(!GroundType::Grassland.can_have_entity(&pumpkin));

    assert!(GroundType::Soil.can_have_entity(&carrot));
    assert!(GroundType::Soil.can_have_entity(&pumpkin));
    assert!(!GroundType::Soil.can_have_entity(&grass));
    assert!(!GroundType::Soil.can_have_entity(&bush));
    assert!(!GroundType::Soil.can_have_entity(&tree));
}

#[test]
fn plant_then_harvest_at_explicit_times() {
    let mut game = Game::new(GameOptions {
        world_width: 5,
        world_height: 5,
    });

    assert!(game.plant_at(EntityType::Grass, 100).is_ok());

    assert_eq!(game.can_harvest_at(100), Ok(false));
    assert!(matches!(
        game.harvest_at(100).unwrap_err(),
        EngineError::EntityNotGrown
    ));
    assert_eq!(game.get_entity_type().unwrap(), Some(&EntityType::Grass));

    assert_eq!(game.can_harvest_at(101), Ok(true));
    assert!(game.harvest_at(101).is_ok());
    assert!(game.get_entity_type().unwrap().is_none());
}

#[test]
fn scenario_five_by_five_walkthrough() {
    let mut game = Game::new(GameOptions {
        world_width: 5,
        world_height: 5,
    });
    assert_eq!((game.get_pos_x(), game.get_pos_y()), (0, 0));

    assert!(game.plant(EntityType::Grass).is_ok());

    game.move_drone(Direction::East).unwrap();
    assert!(game.plant(EntityType::Bush).is_ok());

    game.move_drone(Direction::East).unwrap();
    game.till().unwrap();
    assert_eq!(game.get_ground_type().unwrap(), &GroundType::Soil);
    assert!(game.plant(EntityType::Carrot).is_ok());

    game.move_drone(Direction::East).unwrap();
    let result = game.plant(EntityType::Pumpkin);
    assert!(matches!(
        result.unwrap_err(),
        EngineError::EntityNotAllowedOnGroundType(EntityType::Pumpkin, GroundType::Grassland)
    ));
}

#[test]
fn till_is_independent_of_the_planted_entity() {
    let mut game = Game::new(GameOptions {
        world_width: 2,
        world_height: 2,
    });
    game.plant(EntityType::Tree).unwrap();

    game.till().unwrap();
    assert_eq!(game.get_ground_type().unwrap(), &GroundType::Soil);
    assert_eq!(game.get_entity_type().unwrap(), Some(&EntityType::Tree));

    game.till().unwrap();
    assert_eq!(game.get_ground_type().unwrap(), &GroundType::Grassland);
    assert_eq!(game.get_entity_type().unwrap(), Some(&EntityType::Tree));
}

#[test]
fn moving_east_width_times_returns_to_the_start() {
    let mut game = Game::new(GameOptions {
        world_width: 7,
        world_height: 3,
    });
    game.move_drone(Direction::East).unwrap();
    game.move_drone(Direction::South).unwrap();
    let start = (game.get_pos_x(), game.get_pos_y());
    for _ in 0..7 {
        game.move_drone(Direction::East).unwrap();
    }
    assert_eq!((game.get_pos_x(), game.get_pos_y()), start);
}

#[test]
fn tile_symbols_follow_the_legend() {
    assert_eq!(tile_symbol(GroundType::Grassland, None), '.');
    assert_eq!(tile_symbol(GroundType::Soil, None), 'S');
    assert_eq!(tile_symbol(GroundType::Grassland, Some(EntityType::Grass)), 'G');
    assert_eq!(tile_symbol(GroundType::Grassland, Some(EntityType::Bush)), 'B');
    assert_eq!(tile_symbol(GroundType::Grassland, Some(EntityType::Tree)), 'T');
    assert_eq!(tile_symbol(GroundType::Soil, Some(EntityType::Carrot)), 'C');
    assert_eq!(tile_symbol(GroundType::Soil, Some(EntityType::Pumpkin)), 'P');
    assert_eq!(tile_symbol(GroundType::Grassland, Some(EntityType::Carrot)), '?');
    assert_eq!(tile_symbol(GroundType::Soil, Some(EntityType::Grass)), '?');
}

#[test]
fn rejected_operations_leave_the_tile_unchanged() {
    let mut game = Game::new(GameOptions {
        world_width: 3,
        world_height: 3,
    });
    game.plant(EntityType::Bush).unwrap();

    let result = game.plant(EntityType::Carrot);
    assert!(result.is_err());
    assert_eq!(game.get_entity_type().unwrap(), Some(&EntityType::Bush));
    assert_eq!(game.get_ground_type().unwrap(), &GroundType::Grassland);
}

#[test]
fn drone_accessors_report_the_set_position() {
    let mut drone = farm_engine::game::drone::Drone::new(2, 3);
    assert_eq!(drone.x(), 2);
    assert_eq!(drone.y(), 3);
    drone.set_position(4, 0);
    assert_eq!(drone.x(), 4);
    assert_eq!(drone.y(), 0);
}
