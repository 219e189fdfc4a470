//! The motor: what the controller asks of a body, and what of it reaches
//! the engine.

use crate::scalar::{Scalar, Vector2, Vector3};
use crate::toggle::Toggle;
use vstd::prelude::*;

verus! {

/// A change of velocity in two parts. A part with a component that is
/// infinite or NaN asks for nothing.
#[derive(Clone, Copy, Debug, PartialEq, Eq, Structural)]
pub struct VelChange {
    /// The part that acts over the tick, as a force does.
    pub acceleration: Vector3,
    /// The part that is added to the velocity at once.
    pub boost: Vector3,
}

/// What the controller asks of a body for one tick.
#[derive(Clone, Copy, Debug, PartialEq, Eq, Structural)]
pub struct Motor {
    /// The change of linear velocity.
    pub lin: VelChange,
    /// The change of angular velocity; in the plane only its `z` counts.
    pub ang: VelChange,
}

/// What becomes of the external force on a body.
#[derive(Clone, Copy, Debug, PartialEq, Eq, Structural)]
pub enum ForceCommand {
    /// The force stays as it is.
    Keep,
    /// The force becomes zero.
    Clear,
    /// The force becomes this acceleration times the body's mass.
    Accelerate(Vector2),
}

/// What becomes of the external torque on a body.
#[derive(Clone, Copy, Debug, PartialEq, Eq, Structural)]
pub enum TorqueCommand {
    /// The torque stays as it is.
    Keep,
    /// The torque becomes zero.
    Clear,
    /// The torque becomes the body's inertia times this acceleration.
    Accelerate(Scalar),
}

/// What one tick of the motor does to a body.
#[derive(Clone, Copy, Debug, PartialEq, Eq, Structural)]
pub struct MotorEffect {
    /// What is added to the linear velocity, if anything.
    pub linear_boost: Option<Vector2>,
    pub force: ForceCommand,
    /// What is added to the angular velocity, if anything.
    pub angular_boost: Option<Scalar>,
    pub torque: TorqueCommand,
}

/// What the motor does to a body that it does not drive: the force is
/// cleared, and so is the torque of a character that only senses; the torque
/// of a disabled character and all velocities stay as they are.
pub open spec fn idle_effect(toggle: Toggle) -> MotorEffect {
    MotorEffect {
        linear_boost: None,
        force: ForceCommand::Clear,
        angular_boost: None,
        torque: if toggle == Toggle::SenseOnly {
            TorqueCommand::Clear
        } else {
            TorqueCommand::Keep
        },
    }
}

/// What one tick of the motor does to a body.
///
/// Where the character is not driven, the motor is not read: see
/// `idle_effect`. Where it is, each of the four parts of the motor acts if
/// and only if it is finite, whatever the others are.
pub open spec fn motor_effect(toggle: Option<Toggle>, motor: Motor) -> MotorEffect {
    if !Toggle::spec_resolve(toggle).spec_drives() {
        idle_effect(Toggle::spec_resolve(toggle))
    } else {
        MotorEffect {
            linear_boost: if motor.lin.boost.spec_is_finite() {
                Some(motor.lin.boost.spec_truncate())
            } else {
                None
            },
            force: if motor.lin.acceleration.spec_is_finite() {
                ForceCommand::Accelerate(motor.lin.acceleration.spec_truncate())
            } else {
                ForceCommand::Keep
            },
            angular_boost: if motor.ang.boost.spec_is_finite() {
                Some(motor.ang.boost.z)
            } else {
                None
            },
            torque: if motor.ang.acceleration.spec_is_finite() {
                TorqueCommand::Accelerate(motor.ang.acceleration.z)
            } else {
                TorqueCommand::Keep
            },
        }
    }
}

/// Works out what one tick of the motor does to a body.
pub fn apply_motor(toggle: Option<Toggle>, motor: &Motor) -> (effect: MotorEffect)
    ensures
        effect == motor_effect(toggle, *motor),
{
    let toggle: Toggle = Toggle::resolve(toggle);
    if !toggle.drives() {
        let torque: TorqueCommand = match toggle {
            Toggle::SenseOnly => TorqueCommand::Clear,
            _ => TorqueCommand::Keep,
        };
        return MotorEffect {
            linear_boost: None,
            force: ForceCommand::Clear,
            angular_boost: None,
            torque,
        };
    }
    let linear_boost: Option<Vector2> = if motor.lin.boost.is_finite() {
        Some(motor.lin.boost.truncate())
    } else {
        None
    };
    let force: ForceCommand = if motor.lin.acceleration.is_finite() {
        ForceCommand::Accelerate(motor.lin.acceleration.truncate())
    } else {
        ForceCommand::Keep
    };
    let angular_boost: Option<Scalar> = if motor.ang.boost.is_finite() {
        Some(motor.ang.boost.z)
    } else {
        None
    };
    let torque: TorqueCommand = if motor.ang.acceleration.is_finite() {
        TorqueCommand::Accelerate(motor.ang.acceleration.z)
    } else {
        TorqueCommand::Keep
    };
    MotorEffect { linear_boost, force, angular_boost, torque }
}

/// A motor of which only the linear boost is finite adds the planar part
/// of that boost to the linear velocity of a driven body, and leaves force,
/// angular velocity and torque alone.
pub proof fn lemma_linear_boost_alone(motor: Motor)
    requires
        motor.lin.boost.spec_is_finite(),
        !motor.lin.acceleration.spec_is_finite(),
        !motor.ang.boost.spec_is_finite(),
        !motor.ang.acceleration.spec_is_finite(),
    ensures
        motor_effect(Some(Toggle::Enabled), motor) == (MotorEffect {
            linear_boost: Some(motor.lin.boost.spec_truncate()),
            force: ForceCommand::Keep,
            angular_boost: None,
            torque: TorqueCommand::Keep,
        }),
        motor_effect(None, motor) == motor_effect(Some(Toggle::Enabled), motor),
{
}

} // verus!
