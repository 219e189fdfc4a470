//! What the toggle means for a whole tick: tracker, sensor and motor taken
//! together.

use crate::cast::{ghost_after, sensor_after};
use crate::layers::Layers;
use crate::motor::{motor_effect, ForceCommand, Motor, MotorEffect, TorqueCommand};
use crate::sensor::{CastHit, ProximitySensor, ProximitySensorOutput, SubservientSensor};
use crate::toggle::Toggle;
use crate::tracker::{tracker_after, BodyReading, RigidBodyTracker};
use vstd::prelude::*;

verus! {

/// A tick changes nothing of a disabled character but its external force,
/// which becomes zero: tracker, sensor and ghost sensor are afterwards what
/// they were, whatever the engine reports and whatever the cast would meet,
/// and velocities and torque are not touched.
pub proof fn lemma_disabled_tick(
    entity: u64,
    subservient: Option<SubservientSensor>,
    owner_layers: Option<Layers>,
    tracker: RigidBodyTracker,
    reading: BodyReading,
    sensor: ProximitySensor,
    ghost: Option<Seq<ProximitySensorOutput>>,
    hits: Seq<CastHit>,
    motor: Motor,
)
    ensures
        tracker_after(Some(Toggle::Disabled), tracker, reading) == tracker,
        sensor_after(Some(Toggle::Disabled), entity, subservient, owner_layers, sensor, hits)
            == sensor,
        ghost_after(Some(Toggle::Disabled), entity, subservient, owner_layers, sensor, ghost, hits)
            == ghost,
        motor_effect(Some(Toggle::Disabled), motor) == (MotorEffect {
            linear_boost: None,
            force: ForceCommand::Clear,
            angular_boost: None,
            torque: TorqueCommand::Keep,
        }),
{
}

/// A tick refreshes tracker, sensor and ghost sensor of a character that
/// only senses exactly as it does for an enabled one; its motor makes the
/// external force and the external torque zero, whatever they were and
/// whatever the motor asks, and leaves the velocities as they are.
pub proof fn lemma_sense_only_tick(
    entity: u64,
    subservient: Option<SubservientSensor>,
    owner_layers: Option<Layers>,
    tracker: RigidBodyTracker,
    reading: BodyReading,
    sensor: ProximitySensor,
    ghost: Option<Seq<ProximitySensorOutput>>,
    hits: Seq<CastHit>,
    motor: Motor,
)
    ensures
        tracker_after(Some(Toggle::SenseOnly), tracker, reading) == tracker_after(
            Some(Toggle::Enabled),
            tracker,
            reading,
        ),
        tracker_after(Some(Toggle::SenseOnly), tracker, reading) == reading.lifted(),
        sensor_after(Some(Toggle::SenseOnly), entity, subservient, owner_layers, sensor, hits)
            == sensor_after(Some(Toggle::Enabled), entity, subservient, owner_layers, sensor, hits),
        ghost_after(Some(Toggle::SenseOnly), entity, subservient, owner_layers, sensor, ghost, hits)
            == ghost_after(
            Some(Toggle::Enabled),
            entity,
            subservient,
            owner_layers,
            sensor,
            ghost,
            hits,
        ),
        motor_effect(Some(Toggle::SenseOnly), motor) == (MotorEffect {
            linear_boost: None,
            force: ForceCommand::Clear,
            angular_boost: None,
            torque: TorqueCommand::Clear,
        }),
{
}

} // verus!
