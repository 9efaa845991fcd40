use farm_engine::error::EngineError;
use farm_engine::world::entities::{Entity, EntityBuilder, EntityType};
use farm_engine::world::tiles::{GroundType, TileBuilder};
use farm_engine::world::World;

#[test]
fn can_create_world() {
    let world = World::new(10, 10).unwrap();
    assert_eq!(world.width(), 10);
    assert_eq!(world.height(), 10);
}

#[test]
fn can_get_tile() {
    let world = World::new(10, 10).unwrap();
    let tile = world.get_tile(0, 0).unwrap();
    assert_eq!(tile.ground_type(), &GroundType::Grassland);
}

#[test]
fn clear_resets_all_tiles_to_grassland_with_grass() {
    let mut world = World::new(5, 5).unwrap();

    let mut tile = *world.get_tile(1, 1).unwrap();
    tile.set_ground_type(GroundType::Soil);
    tile.set_entity(Some(Entity::new(EntityType::Carrot, 0))).unwrap();
    world.put_tile(1, 1, tile).unwrap();

    let mut tile = *world.get_tile(2, 3).unwrap();
    tile.set_ground_type(GroundType::Soil);
    tile.set_entity(Some(Entity::new(EntityType::Pumpkin, 0))).unwrap();
    world.put_tile(2, 3, tile).unwrap();

    let mut tile = *world.get_tile(4, 4).unwrap();
    tile.set_entity(Some(Entity::new(EntityType::Tree, 0))).unwrap();
    world.put_tile(4, 4, tile).unwrap();

    world.clear().unwrap();

    for x in 0..world.width() {
        for y in 0..world.height() {
            let tile = world.get_tile(x, y).unwrap();
            assert_eq!(tile.ground_type(), &GroundType::Grassland);
            assert!(tile.entity().is_some());
            assert_eq!(tile.entity().unwrap().entity_type(), &EntityType::Grass);
        }
    }
}

#[test]
fn can_create_tile() {
    let tile = TileBuilder::new(0, 0)
        .ground_type(GroundType::Grassland)
        .build()
        .unwrap();
    assert_eq!(tile.ground_type(), &GroundType::Grassland);
    assert_eq!(tile.entity(), None);
}

#[test]
fn can_create_tile_with_entity() {
    let entity = EntityBuilder::new()
        .entity_type(EntityType::Grass)
        .build()
        .unwrap();
    let tile = TileBuilder::new(0, 0)
        .ground_type(GroundType::Grassland)
        .entity(Some(entity))
        .build()
        .unwrap();
    assert_eq!(tile.entity(), Some(&entity));
}

#[test]
fn cannot_create_tile_with_entity_not_allowed_on_ground_type() {
    let tile = TileBuilder::new(0, 0)
        .ground_type(GroundType::Grassland)
        .entity(Some(
            EntityBuilder::new()
                .entity_type(EntityType::Carrot)
                .build()
                .unwrap(),
        ))
        .build();
    assert!(matches!(
        tile.unwrap_err(),
        EngineError::EntityNotAllowedOnGroundType(EntityType::Carrot, GroundType::Grassland)
    ));
}

#[test]
fn can_create_entity() {
    let entity = EntityBuilder::new()
        .entity_type(EntityType::Grass)
        .build()
        .unwrap();
    assert_eq!(entity.entity_type(), &EntityType::Grass);
}
