use bevy::ecs::entity::Entity;
use bevy::math::{Dir3, Vec3};
use bevy_tnua_physics_integration_layer::obstacle_radar::TnuaObstacleRadar;
use tnua_adapter::radar::{mark_obstacle, update_obstacle_radar};

fn blips_of(radar: &TnuaObstacleRadar) -> Vec<Entity> {
    let mut blips: Vec<Entity> = radar.iter_blips().collect();
    blips.sort();
    blips
}

#[test]
fn owner_is_not_marked() {
    let mut radar = TnuaObstacleRadar::new(1.0, 2.0);
    let owner = Entity::from_raw(1);
    radar.pre_marking_update(owner, Vec3::ZERO, Dir3::Y);
    assert!(mark_obstacle(&mut radar, owner, owner));
    assert!(!radar.has_blip(owner));
    assert!(mark_obstacle(&mut radar, owner, Entity::from_raw(2)));
    assert!(radar.has_blip(Entity::from_raw(2)));
}

#[test]
fn radar_sees_what_is_in_range() {
    let owner = Entity::from_raw(1);
    let a = Entity::from_raw(2);
    let b = Entity::from_raw(3);
    let c = Entity::from_raw(4);
    let mut radar = TnuaObstacleRadar::new(1.0, 2.0);
    update_obstacle_radar(&mut radar, owner, Vec3::new(1.0, 2.0, 0.0), Dir3::Y, &vec![a, owner, b, a]);
    assert_eq!(blips_of(&radar), vec![a, b]);
    assert!(!radar.has_blip(c));
    assert!(!radar.has_blip(owner));
}

#[test]
fn radar_is_told_its_owner_and_place() {
    let owner = Entity::from_raw(9);
    let mut radar = TnuaObstacleRadar::new(1.0, 2.0);
    update_obstacle_radar(&mut radar, owner, Vec3::new(1.0, 2.0, 0.0), Dir3::NEG_X, &vec![]);
    assert_eq!(radar.tracked_entity(), owner);
    assert_eq!(radar.tracked_position(), Vec3::new(1.0, 2.0, 0.0));
    assert_eq!(radar.up_direction(), Dir3::NEG_X);
}

#[test]
fn radar_keeps_its_extent() {
    let owner = Entity::from_raw(9);
    let mut radar = TnuaObstacleRadar::new(1.5, 2.5);
    update_obstacle_radar(&mut radar, owner, Vec3::ZERO, Dir3::Y, &vec![Entity::from_raw(2)]);
    assert_eq!(radar.radius.to_bits(), 1.5f32.to_bits());
    assert_eq!(radar.height.to_bits(), 2.5f32.to_bits());
}

#[test]
fn marking_changes_only_the_blips() {
    let owner = Entity::from_raw(9);
    let mut radar = TnuaObstacleRadar::new(1.5, 2.5);
    radar.pre_marking_update(owner, Vec3::new(4.0, 5.0, 0.0), Dir3::NEG_Y);
    assert!(mark_obstacle(&mut radar, owner, Entity::from_raw(2)));
    assert_eq!(radar.tracked_entity(), owner);
    assert_eq!(radar.tracked_position(), Vec3::new(4.0, 5.0, 0.0));
    assert_eq!(radar.up_direction(), Dir3::NEG_Y);
    assert_eq!(radar.radius.to_bits(), 1.5f32.to_bits());
    assert_eq!(radar.height.to_bits(), 2.5f32.to_bits());
}

#[test]
fn radar_forgets_after_one_more_tick() {
    let owner = Entity::from_raw(1);
    let a = Entity::from_raw(2);
    let b = Entity::from_raw(3);
    let mut radar = TnuaObstacleRadar::new(1.0, 2.0);
    update_obstacle_radar(&mut radar, owner, Vec3::ZERO, Dir3::Y, &vec![a, b]);
    assert_eq!(blips_of(&radar), vec![a, b]);
    update_obstacle_radar(&mut radar, owner, Vec3::ZERO, Dir3::Y, &vec![b]);
    assert_eq!(blips_of(&radar), vec![a, b]);
    update_obstacle_radar(&mut radar, owner, Vec3::ZERO, Dir3::Y, &vec![b]);
    assert_eq!(blips_of(&radar), vec![b]);
    update_obstacle_radar(&mut radar, owner, Vec3::ZERO, Dir3::Y, &vec![]);
    assert_eq!(blips_of(&radar), vec![b]);
    update_obstacle_radar(&mut radar, owner, Vec3::ZERO, Dir3::Y, &vec![]);
    assert_eq!(blips_of(&radar), vec![]);
}

#[test]
fn owner_never_enters_its_own_radar() {
    let owner = Entity::from_raw(5);
    let mut radar = TnuaObstacleRadar::new(1.0, 2.0);
    for _ in 0..3 {
        update_obstacle_radar(&mut radar, owner, Vec3::ZERO, Dir3::Y, &vec![owner, owner]);
        assert!(!radar.has_blip(owner));
        assert_eq!(blips_of(&radar), vec![]);
    }
}
