//! The proximity sensor: data, and the verdict on one hit of a cast.

use crate::layers::{spec_excluded_by_collision_layers, excluded_by_collision_layers, Layers};
use crate::scalar::{Scalar, Vector2, Vector3};
use vstd::prelude::*;

verus! {

/// What a sensor knows of the collider it has found.
#[derive(Clone, Copy, Debug, PartialEq, Eq, Structural)]
pub struct ProximitySensorOutput {
    /// The collider's entity.
    pub entity: u64,
    /// The distance to the collider along the cast.
    pub proximity: Scalar,
    /// The normal of the collider's surface where the cast meets it.
    pub normal: Vector3,
    /// The velocity of the collider's body at the point that was hit.
    pub entity_linvel: Vector3,
    /// The angular velocity of the collider's body.
    pub entity_angvel: Vector3,
}

/// A probe from a character along a direction, and what it found last.
#[derive(Clone, Copy, Debug, PartialEq, Eq)]
pub struct ProximitySensor {
    /// Where the cast starts, in the character's own frame.
    pub cast_origin: Vector3,
    /// The direction of the cast, in the world's frame.
    pub cast_direction: Vector3,
    /// How far the cast reaches.
    pub cast_range: Scalar,
    /// A hit is dropped when the solver already holds a contact with the same
    /// collider whose normal lies along the cast by more than this.
    pub intersection_match_prevention_cutoff: Scalar,
    /// The first solid collider of the last cast.
    pub output: Option<ProximitySensorOutput>,
}

/// The platforms that a cast went through before it stopped, nearest first.
#[derive(Clone, Debug, PartialEq, Eq)]
pub struct GhostSensor(pub Vec<ProximitySensorOutput>);

/// Marks a sensor that probes on behalf of another entity.
#[derive(Clone, Copy, Debug, PartialEq, Eq, Structural)]
pub struct SubservientSensor {
    pub owner_entity: u64,
}

/// One patch of contact that the solver holds between two colliders.
#[derive(Clone, Copy, Debug, PartialEq, Eq, Structural)]
pub struct Manifold {
    /// The number of contact points in the patch.
    pub contacts: usize,
    /// The first collider's normal, projected on the direction of the cast.
    pub normal1_along_cast: Scalar,
    /// The second collider's normal, projected on the direction of the cast.
    pub normal2_along_cast: Scalar,
}

/// The contact that the solver holds between the owner and a collider.
#[derive(Clone, Debug, PartialEq, Eq)]
pub struct Contacts {
    /// The collider that the solver counts as the first of the pair.
    pub entity1: u64,
    pub manifolds: Vec<Manifold>,
}

/// The motion of a body that was hit.
#[derive(Clone, Copy, Debug, PartialEq, Eq, Structural)]
pub struct Kinematics {
    /// The velocity of the body at the point that was hit.
    pub velocity: Vector2,
    /// Rate of rotation about the axis that leaves the plane.
    pub angular_velocity: Scalar,
}

/// What is known of a collider that was hit.
#[derive(Clone, Copy, Debug, PartialEq, Eq)]
pub struct HitBody {
    /// The body's motion; a collider without one stands still.
    pub kinematics: Option<Kinematics>,
    pub layers: Option<Layers>,
    /// A platform that is sensed but does not stop the cast.
    pub is_ghost: bool,
    /// A collider that only reports overlaps.
    pub is_sensor: bool,
}

/// One collider that a cast has met.
#[derive(Clone, Debug, PartialEq, Eq)]
pub struct CastHit {
    pub entity: u64,
    /// The distance to the collider along the cast.
    pub proximity: Scalar,
    /// The normal of the collider's surface at the hit, in the plane.
    pub normal: Vector2,
    /// The contact between the owner and this collider, where the solver
    /// holds one.
    pub contacts: Option<Contacts>,
    /// `None` where nothing could be looked up for the collider.
    pub body: Option<HitBody>,
}

/// What stays the same for every hit of one cast.
#[derive(Clone, Copy, Debug, PartialEq, Eq)]
pub struct CastContext {
    /// The entity on whose behalf the cast is made.
    pub owner: u64,
    /// The owner's layers.
    pub layers: Option<Layers>,
    /// The sensor's `intersection_match_prevention_cutoff`.
    pub cutoff: Scalar,
}

/// What a cast makes of one hit.
#[derive(Clone, Copy, Debug, PartialEq, Eq)]
pub enum Verdict {
    /// The owner itself.
    Own,
    /// A collider that the solver already holds in contact, along the cast.
    Spurious,
    /// A collider of which nothing could be looked up.
    Unknown,
    /// A ghost platform: recorded, and the cast goes on.
    GhostPlatform(ProximitySensorOutput),
    /// A collider that only reports overlaps, or one that the layers keep
    /// apart from the owner.
    Intangible,
    /// The cast stops here.
    Solid(ProximitySensorOutput),
}

impl Manifold {
    /// The normal that points from the other collider to the owner, projected
    /// on the direction of the cast. `owner_first` says that the solver
    /// counts the owner as the first of the pair.
    pub open spec fn along_cast(self, owner_first: bool) -> Scalar {
        if owner_first {
            self.normal2_along_cast
        } else {
            self.normal1_along_cast
        }
    }

    /// Whether the patch holds a contact whose normal lies along the cast by
    /// more than `cutoff`.
    pub open spec fn spec_matches_cast(self, owner_first: bool, cutoff: Scalar) -> bool {
        self.contacts > 0 && cutoff.spec_lt(self.along_cast(owner_first))
    }

    /// Whether the patch holds a contact whose normal lies along the cast by
    /// more than `cutoff`.
    #[verifier::when_used_as_spec(spec_matches_cast)]
    pub fn matches_cast(self, owner_first: bool, cutoff: Scalar) -> (r: bool)
        ensures
            r == self.spec_matches_cast(owner_first, cutoff),
    {
        if self.contacts == 0 {
            return false;
        }
        let along: Scalar = if owner_first {
            self.normal2_along_cast
        } else {
            self.normal1_along_cast
        };
        cutoff.lt(along)
    }
}

impl Contacts {
    /// Whether some patch of the contact matches the cast.
    pub open spec fn spec_matches_cast(self, owner: u64, cutoff: Scalar) -> bool {
        exists|i: int|
            0 <= i < self.manifolds@.len() && (#[trigger] self.manifolds@[i]).spec_matches_cast(
                owner == self.entity1,
                cutoff,
            )
    }

    /// Whether some patch of the contact matches the cast.
    pub fn matches_cast(&self, owner: u64, cutoff: Scalar) -> (r: bool)
        ensures
            r == self.spec_matches_cast(owner, cutoff),
    {
        let owner_first: bool = owner == self.entity1;
        let mut i: usize = 0;
        while i < self.manifolds.len()
            invariant
                i <= self.manifolds@.len(),
                owner_first == (owner == self.entity1),
                forall|j: int|
                    0 <= j < i ==> !(#[trigger] self.manifolds@[j]).spec_matches_cast(
                        owner_first,
                        cutoff,
                    ),
            decreases self.manifolds@.len() - i,
        {
            if self.manifolds[i].matches_cast(owner_first, cutoff) {
                return true;
            }
            i += 1;
        }
        false
    }
}

impl CastHit {
    /// Whether the solver already holds this collider in a contact that
    /// matches the cast.
    pub open spec fn spec_is_spurious(self, owner: u64, cutoff: Scalar) -> bool {
        match self.contacts {
            Some(contacts) => contacts.spec_matches_cast(owner, cutoff),
            None => false,
        }
    }

    /// The record of this hit: the planar normal and velocity get a zero `z`,
    /// the rate of rotation becomes the `z` of the angular velocity, and a
    /// body without motion stands still.
    pub open spec fn spec_output(self, body: HitBody) -> ProximitySensorOutput {
        ProximitySensorOutput {
            entity: self.entity,
            proximity: self.proximity,
            normal: self.normal.spec_extend(Scalar::spec_zero()),
            entity_linvel: match body.kinematics {
                Some(k) => k.velocity.spec_extend(Scalar::spec_zero()),
                None => Vector3::spec_zero(),
            },
            entity_angvel: match body.kinematics {
                Some(k) => Vector3::spec_axial(k.angular_velocity),
                None => Vector3::spec_zero(),
            },
        }
    }

    /// Whether the solver already holds this collider in a contact that
    /// matches the cast.
    pub fn is_spurious(&self, owner: u64, cutoff: Scalar) -> (r: bool)
        ensures
            r == self.spec_is_spurious(owner, cutoff),
    {
        match &self.contacts {
            Some(contacts) => contacts.matches_cast(owner, cutoff),
            None => false,
        }
    }

    /// The record of this hit.
    pub fn output(&self, body: HitBody) -> (r: ProximitySensorOutput)
        ensures
            r == self.spec_output(body),
    {
        let (entity_linvel, entity_angvel): (Vector3, Vector3) = match body.kinematics {
            Some(k) => (k.velocity.extend(Scalar::zero()), Vector3::axial(k.angular_velocity)),
            None => (Vector3::zero(), Vector3::zero()),
        };
        ProximitySensorOutput {
            entity: self.entity,
            proximity: self.proximity,
            normal: self.normal.extend(Scalar::zero()),
            entity_linvel,
            entity_angvel,
        }
    }
}

impl CastContext {
    /// The verdict on one hit. The tests are made in this order: the owner
    /// itself; a contact that the solver already holds; a collider that
    /// cannot be looked up; a ghost platform; a collider that only reports
    /// overlaps or that the layers keep apart. What passes them all is solid.
    pub open spec fn spec_classify(self, hit: CastHit) -> Verdict {
        if hit.entity == self.owner {
            Verdict::Own
        } else if hit.spec_is_spurious(self.owner, self.cutoff) {
            Verdict::Spurious
        } else {
            match hit.body {
                None => Verdict::Unknown,
                Some(body) => {
                    if body.is_ghost {
                        Verdict::GhostPlatform(hit.spec_output(body))
                    } else if body.is_sensor || spec_excluded_by_collision_layers(
                        self.layers,
                        body.layers,
                    ) {
                        Verdict::Intangible
                    } else {
                        Verdict::Solid(hit.spec_output(body))
                    }
                },
            }
        }
    }

    /// The verdict on one hit.
    pub fn classify(&self, hit: &CastHit) -> (r: Verdict)
        ensures
            r == self.spec_classify(*hit),
    {
        if hit.entity == self.owner {
            return Verdict::Own;
        }
        if hit.is_spurious(self.owner, self.cutoff) {
            return Verdict::Spurious;
        }
        match hit.body {
            None => Verdict::Unknown,
            Some(body) => {
                if body.is_ghost {
                    Verdict::GhostPlatform(hit.output(body))
                } else if body.is_sensor || excluded_by_collision_layers(self.layers, body.layers) {
                    Verdict::Intangible
                } else {
                    Verdict::Solid(hit.output(body))
                }
            },
        }
    }
}

} // verus!
