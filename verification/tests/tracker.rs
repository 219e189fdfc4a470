use tnua_adapter::scalar::{Quaternion, Scalar, Vector2, Vector3};
use tnua_adapter::toggle::Toggle;
use tnua_adapter::tracker::{update_rigid_body_tracker, BodyReading, RigidBodyTracker};

fn num(x: f32) -> Scalar {
    Scalar { bits: x.to_bits() }
}

fn vec3(x: f32, y: f32, z: f32) -> Vector3 {
    Vector3 { x: num(x), y: num(y), z: num(z) }
}

fn stale_tracker() -> RigidBodyTracker {
    RigidBodyTracker {
        translation: vec3(9.0, 9.0, 9.0),
        rotation: Quaternion { x: num(0.0), y: num(0.0), z: num(1.0), w: num(0.0) },
        velocity: vec3(8.0, 8.0, 8.0),
        angvel: vec3(7.0, 7.0, 7.0),
        gravity: vec3(6.0, 6.0, 6.0),
    }
}

fn reading() -> BodyReading {
    BodyReading {
        translation: vec3(1.0, 2.0, 0.5),
        rotation: Quaternion { x: num(0.0), y: num(0.0), z: num(0.0), w: num(1.0) },
        linear_velocity: Vector2 { x: num(3.0), y: num(-4.0) },
        angular_velocity: num(0.25),
        gravity: Vector2 { x: num(0.0), y: num(-9.81) },
    }
}

fn lifted_reading() -> RigidBodyTracker {
    RigidBodyTracker {
        translation: vec3(1.0, 2.0, 0.5),
        rotation: Quaternion { x: num(0.0), y: num(0.0), z: num(0.0), w: num(1.0) },
        velocity: vec3(3.0, -4.0, 0.0),
        angvel: vec3(0.0, 0.0, 0.25),
        gravity: vec3(0.0, -9.81, 0.0),
    }
}

#[test]
fn toggle_defaults_to_enabled() {
    assert_eq!(Toggle::default(), Toggle::Enabled);
    assert_eq!(Toggle::resolve(None), Toggle::Enabled);
    assert_eq!(Toggle::resolve(Some(Toggle::Disabled)), Toggle::Disabled);
    assert_eq!(Toggle::resolve(Some(Toggle::SenseOnly)), Toggle::SenseOnly);
}

#[test]
fn toggle_policy() {
    assert!(!Toggle::Disabled.senses());
    assert!(!Toggle::Disabled.drives());
    assert!(Toggle::SenseOnly.senses());
    assert!(!Toggle::SenseOnly.drives());
    assert!(Toggle::Enabled.senses());
    assert!(Toggle::Enabled.drives());
}

#[test]
fn tracker_takes_the_lifted_reading() {
    let mut tracker = stale_tracker();
    update_rigid_body_tracker(Some(Toggle::Enabled), &mut tracker, &reading());
    assert_eq!(tracker, lifted_reading());
}

#[test]
fn tracker_without_toggle_is_refreshed() {
    let mut tracker = stale_tracker();
    update_rigid_body_tracker(None, &mut tracker, &reading());
    assert_eq!(tracker, lifted_reading());
}

#[test]
fn tracker_of_sense_only_is_refreshed() {
    let mut tracker = stale_tracker();
    update_rigid_body_tracker(Some(Toggle::SenseOnly), &mut tracker, &reading());
    assert_eq!(tracker, lifted_reading());
}

#[test]
fn tracker_of_disabled_keeps_its_value() {
    let mut tracker = stale_tracker();
    update_rigid_body_tracker(Some(Toggle::Disabled), &mut tracker, &reading());
    assert_eq!(tracker, stale_tracker());
}
