//! The snapshot of a body's motion that the controller reads.

use crate::scalar::{Quaternion, Scalar, Vector2, Vector3};
use crate::toggle::Toggle;
use vstd::prelude::*;

verus! {

/// What the engine reports of one body in the plane.
#[derive(Clone, Copy, Debug, PartialEq, Eq, Structural)]
pub struct BodyReading {
    pub translation: Vector3,
    pub rotation: Quaternion,
    /// Linear velocity in the plane.
    pub linear_velocity: Vector2,
    /// Rate of rotation about the axis that leaves the plane.
    pub angular_velocity: Scalar,
    /// The world's gravity, in the plane.
    pub gravity: Vector2,
}

/// The motion of a body as the controller sees it, in three components.
#[derive(Clone, Copy, Debug, PartialEq, Eq, Structural)]
pub struct RigidBodyTracker {
    pub translation: Vector3,
    pub rotation: Quaternion,
    pub velocity: Vector3,
    pub angvel: Vector3,
    pub gravity: Vector3,
}

impl BodyReading {
    /// The reading in three components: planar vectors get a zero `z`, the
    /// rate of rotation becomes the `z` of a vector that has nothing else.
    pub open spec fn lifted(self) -> RigidBodyTracker {
        RigidBodyTracker {
            translation: self.translation,
            rotation: self.rotation,
            velocity: self.linear_velocity.spec_extend(Scalar::spec_zero()),
            angvel: Vector3::spec_axial(self.angular_velocity),
            gravity: self.gravity.spec_extend(Scalar::spec_zero()),
        }
    }
}

/// The tracker after a tick: the lifted reading, or what it held where the
/// character is disabled.
pub open spec fn tracker_after(
    toggle: Option<Toggle>,
    tracker: RigidBodyTracker,
    reading: BodyReading,
) -> RigidBodyTracker {
    if Toggle::spec_resolve(toggle).spec_senses() {
        reading.lifted()
    } else {
        tracker
    }
}

/// Overwrites the tracker with the engine's reading, unless the character is
/// disabled.
pub fn update_rigid_body_tracker(
    toggle: Option<Toggle>,
    tracker: &mut RigidBodyTracker,
    reading: &BodyReading,
)
    ensures
        *final(tracker) == tracker_after(toggle, *old(tracker), *reading),
{
    if !Toggle::resolve(toggle).senses() {
        return ;
    }
    *tracker = RigidBodyTracker {
        translation: reading.translation,
        rotation: reading.rotation,
        velocity: reading.linear_velocity.extend(Scalar::zero()),
        angvel: Vector3::axial(reading.angular_velocity),
        gravity: reading.gravity.extend(Scalar::zero()),
    };
}

} // verus!
