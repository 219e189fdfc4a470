use tnua_adapter::motor::{apply_motor, ForceCommand, Motor, MotorEffect, TorqueCommand, VelChange};
use tnua_adapter::scalar::{Scalar, Vector2, Vector3};
use tnua_adapter::toggle::Toggle;

fn val(x: f32) -> Scalar {
    Scalar { bits: x.to_bits() }
}

fn v3(x: f32, y: f32, z: f32) -> Vector3 {
    Vector3 { x: val(x), y: val(y), z: val(z) }
}

fn v2(x: f32, y: f32) -> Vector2 {
    Vector2 { x: val(x), y: val(y) }
}

fn nothing() -> Vector3 {
    v3(f32::NAN, f32::NAN, f32::NAN)
}

fn idle(torque: TorqueCommand) -> MotorEffect {
    MotorEffect {
        linear_boost: None,
        force: ForceCommand::Clear,
        angular_boost: None,
        torque,
    }
}

fn full_motor() -> Motor {
    Motor {
        lin: VelChange { acceleration: v3(1.0, 2.0, 0.0), boost: v3(3.0, 4.0, 0.0) },
        ang: VelChange { acceleration: v3(0.0, 0.0, 5.0), boost: v3(0.0, 0.0, 6.0) },
    }
}

#[test]
fn linear_boost_alone() {
    let motor = Motor {
        lin: VelChange { acceleration: nothing(), boost: v3(1.5, -2.0, 0.0) },
        ang: VelChange { acceleration: nothing(), boost: nothing() },
    };
    let effect = apply_motor(Some(Toggle::Enabled), &motor);
    assert_eq!(
        effect,
        MotorEffect {
            linear_boost: Some(v2(1.5, -2.0)),
            force: ForceCommand::Keep,
            angular_boost: None,
            torque: TorqueCommand::Keep,
        }
    );
    assert_eq!(apply_motor(None, &motor), effect);
}

#[test]
fn every_part_acts_when_finite() {
    assert_eq!(
        apply_motor(None, &full_motor()),
        MotorEffect {
            linear_boost: Some(v2(3.0, 4.0)),
            force: ForceCommand::Accelerate(v2(1.0, 2.0)),
            angular_boost: Some(val(6.0)),
            torque: TorqueCommand::Accelerate(val(5.0)),
        }
    );
}

#[test]
fn each_part_is_gated_alone() {
    let mut motor = full_motor();
    motor.lin.acceleration = v3(1.0, f32::INFINITY, 0.0);
    let effect = apply_motor(None, &motor);
    assert_eq!(effect.force, ForceCommand::Keep);
    assert_eq!(effect.linear_boost, Some(v2(3.0, 4.0)));
    assert_eq!(effect.angular_boost, Some(val(6.0)));
    assert_eq!(effect.torque, TorqueCommand::Accelerate(val(5.0)));

    let mut motor = full_motor();
    motor.ang.boost = v3(0.0, 0.0, f32::NEG_INFINITY);
    let effect = apply_motor(None, &motor);
    assert_eq!(effect.angular_boost, None);
    assert_eq!(effect.force, ForceCommand::Accelerate(v2(1.0, 2.0)));

    let mut motor = full_motor();
    motor.ang.acceleration = v3(f32::NAN, 0.0, 5.0);
    let effect = apply_motor(None, &motor);
    assert_eq!(effect.torque, TorqueCommand::Keep);
    assert_eq!(effect.angular_boost, Some(val(6.0)));
}

#[test]
fn a_component_off_the_plane_gates_its_part() {
    let mut motor = full_motor();
    motor.lin.boost = v3(3.0, 4.0, f32::NAN);
    assert_eq!(apply_motor(None, &motor).linear_boost, None);
}

#[test]
fn disabled_motor_clears_the_force() {
    assert_eq!(apply_motor(Some(Toggle::Disabled), &full_motor()), idle(TorqueCommand::Keep));
}

#[test]
fn sense_only_motor_clears_the_force() {
    assert_eq!(apply_motor(Some(Toggle::SenseOnly), &full_motor()), idle(TorqueCommand::Clear));
}

#[test]
fn sense_only_motor_clears_the_torque_whatever_is_asked() {
    let mut motor = full_motor();
    assert_eq!(apply_motor(Some(Toggle::SenseOnly), &motor).torque, TorqueCommand::Clear);
    motor.ang.acceleration = nothing();
    assert_eq!(apply_motor(Some(Toggle::SenseOnly), &motor).torque, TorqueCommand::Clear);
    motor.ang.acceleration = v3(0.0, 0.0, -7.5);
    assert_eq!(apply_motor(Some(Toggle::SenseOnly), &motor), idle(TorqueCommand::Clear));
}
