//! Which bodies a collider interacts with.

use vstd::prelude::*;

verus! {

/// The layers a collider belongs to and the layers it interacts with, one bit
/// per layer.
#[derive(Clone, Copy, Debug, PartialEq, Eq, Structural)]
pub struct Layers {
    pub memberships: u32,
    pub filters: u32,
}

impl Layers {
    /// The layers of a collider that was given none: the first layer, and an
    /// interest in all of them.
    pub open spec fn standard() -> Layers {
        Layers { memberships: 1, filters: 0xffff_ffff }
    }

    /// The layers that hold for a collider: its own, or the standard ones.
    pub open spec fn or_standard(layers: Option<Layers>) -> Layers {
        match layers {
            Some(l) => l,
            None => Layers::standard(),
        }
    }

    /// Two colliders interact when each belongs to a layer that the other
    /// is interested in.
    pub open spec fn interacts_with(self, other: Layers) -> bool {
        (self.memberships & other.filters) != 0 && (other.memberships & self.filters) != 0
    }
}

/// Whether the layers keep two colliders apart.
pub open spec fn spec_excluded_by_collision_layers(
    own: Option<Layers>,
    other: Option<Layers>,
) -> bool {
    !Layers::or_standard(own).interacts_with(Layers::or_standard(other))
}

/// `avian2d::prelude::CollisionLayers::default`: the engine's layers for a
/// collider that carries none are its constant `DEFAULT`, the first layer as
/// membership and every layer as filter.
#[verifier::external_body]
fn engine_default() -> (r: Layers)
    ensures
        r == Layers::standard(),
{
    let layers = avian2d::prelude::CollisionLayers::default();
    Layers { memberships: layers.memberships.0, filters: layers.filters.0 }
}

/// `avian2d::prelude::CollisionLayers::interacts_with`, on layers made by
/// `from_bits`: true when the memberships of each side share a bit with the
/// filters of the other.
#[verifier::external_body]
fn engine_interacts(a: Layers, b: Layers) -> (r: bool)
    ensures
        r == a.interacts_with(b),
{
    avian2d::prelude::CollisionLayers::from_bits(a.memberships, a.filters).interacts_with(
        avian2d::prelude::CollisionLayers::from_bits(b.memberships, b.filters),
    )
}

/// Whether the layers keep two colliders apart. A collider without layers
/// of its own has the standard ones.
#[verifier::when_used_as_spec(spec_excluded_by_collision_layers)]
pub fn excluded_by_collision_layers(own: Option<Layers>, other: Option<Layers>) -> (r: bool)
    ensures
        r == spec_excluded_by_collision_layers(own, other),
{
    let a: Layers = match own {
        Some(l) => l,
        None => engine_default(),
    };
    let b: Layers = match other {
        Some(l) => l,
        None => engine_default(),
    };
    !engine_interacts(a, b)
}

} // verus!
