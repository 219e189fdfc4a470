//! The obstacle radar: which entities are around a character in this tick.
//!
//! The radar itself is the controller's. This file states what its methods
//! do to the blips it holds, and proves what a tick leaves in it.

use bevy::ecs::entity::Entity;
use bevy::math::Dir3;
use bevy::math::Vec3;
use bevy_tnua_physics_integration_layer::obstacle_radar::TnuaObstacleRadar;
use vstd::prelude::*;

verus! {

#[verifier::external_type_specification]
#[verifier::external_body]
pub struct ExEntity(Entity);

#[verifier::external_type_specification]
#[verifier::external_body]
pub struct ExVec3(Vec3);

#[verifier::external_type_specification]
#[verifier::external_body]
pub struct ExDir3(Dir3);

#[verifier::external_type_specification]
#[verifier::external_body]
pub struct ExTnuaObstacleRadar(TnuaObstacleRadar);

/// The number that identifies an entity: what `Entity::to_bits` returns.
/// Two entities are equal exactly when their numbers are.
pub uninterp spec fn entity_bits(entity: Entity) -> u64;

/// The blips that a radar holds: the entities it knows, each with `true`
/// where it was seen in this tick and `false` where it was seen in the tick
/// before and not yet again.
pub uninterp spec fn radar_blips(radar: TnuaObstacleRadar) -> Map<u64, bool>;

/// The entity that a radar tracks, as it was last told.
pub uninterp spec fn radar_owner(radar: TnuaObstacleRadar) -> u64;

/// The position of the tracked entity, as a radar was last told.
pub uninterp spec fn radar_position(radar: TnuaObstacleRadar) -> Vec3;

/// The direction that counts as up, as a radar was last told.
pub uninterp spec fn radar_up(radar: TnuaObstacleRadar) -> Dir3;

/// The radius of the region that a radar covers, as the bit pattern of the
/// number in its field `radius`.
pub uninterp spec fn radar_radius(radar: TnuaObstacleRadar) -> u32;

/// The height of the region that a radar covers, as the bit pattern of the
/// number in its field `height`.
pub uninterp spec fn radar_height(radar: TnuaObstacleRadar) -> u32;

/// Whether two radars cover a region of the same radius and height.
pub open spec fn same_extent(a: TnuaObstacleRadar, b: TnuaObstacleRadar) -> bool {
    radar_radius(a) == radar_radius(b) && radar_height(a) == radar_height(b)
}

/// Whether two radars were told the same of the entity they track: which it
/// is, where it is, and what counts as up.
pub open spec fn same_tracking(a: TnuaObstacleRadar, b: TnuaObstacleRadar) -> bool {
    radar_owner(a) == radar_owner(b) && radar_position(a) == radar_position(b) && radar_up(a)
        == radar_up(b)
}

/// The entities that a radar has seen in this tick.
pub open spec fn radar_seen(radar: TnuaObstacleRadar) -> Set<u64> {
    Set::new(|bits: u64| radar_blips(radar).contains_key(bits) && radar_blips(radar)[bits])
}

/// The blips after the start of a tick: what was seen is kept and counts as
/// not seen, what was not seen is gone.
pub open spec fn blips_aged(blips: Map<u64, bool>) -> Map<u64, bool> {
    Map::new(|bits: u64| blips.contains_key(bits) && blips[bits], |bits: u64| false)
}

/// The numbers of the first `end` obstacles that are not the owner.
pub open spec fn marked_before(owner: u64, obstacles: Seq<Entity>, end: int) -> Set<u64> {
    Set::new(
        |bits: u64|
            bits != owner && exists|i: int|
                0 <= i < end && i < obstacles.len() && entity_bits(#[trigger] obstacles[i])
                    == bits,
    )
}

/// The blips after a tick in which the engine reported `obstacles`: every
/// obstacle but the owner is seen, and what was seen in the tick before and
/// not in this one is kept as not seen.
pub open spec fn blips_after(blips: Map<u64, bool>, owner: u64, obstacles: Seq<Entity>) -> Map<
    u64,
    bool,
> {
    let marked = marked_before(owner, obstacles, obstacles.len() as int);
    Map::new(
        |bits: u64| marked.contains(bits) || (blips.contains_key(bits) && blips[bits]),
        |bits: u64| marked.contains(bits),
    )
}

/// `Entity::to_bits`: the number that identifies the entity.
#[verifier::external_body]
fn to_bits(entity: Entity) -> (bits: u64)
    ensures
        bits == entity_bits(entity),
{
    entity.to_bits()
}

/// `TnuaObstacleRadar::pre_marking_update`: stores the tracked entity, its
/// position and the up direction as given, turns every blip that was seen
/// into one that was not, and drops those that already were not. Radius and
/// height are not touched.
#[verifier::external_body]
fn pre_marking_update(radar: &mut TnuaObstacleRadar, owner: Entity, position: Vec3, up: Dir3)
    ensures
        radar_blips(*final(radar)) == blips_aged(radar_blips(*old(radar))),
        radar_owner(*final(radar)) == entity_bits(owner),
        radar_position(*final(radar)) == position,
        radar_up(*final(radar)) == up,
        radar_radius(*final(radar)) == radar_radius(*old(radar)),
        radar_height(*final(radar)) == radar_height(*old(radar)),
{
    radar.pre_marking_update(owner, position, up)
}

/// `TnuaObstacleRadar::mark_seen`: the entity gets a blip that counts as
/// seen, or its blip now counts as seen; nothing else changes.
#[verifier::external_body]
fn mark_seen(radar: &mut TnuaObstacleRadar, entity: Entity)
    ensures
        radar_blips(*final(radar)) == radar_blips(*old(radar)).insert(entity_bits(entity), true),
        radar_owner(*final(radar)) == radar_owner(*old(radar)),
        radar_position(*final(radar)) == radar_position(*old(radar)),
        radar_up(*final(radar)) == radar_up(*old(radar)),
        radar_radius(*final(radar)) == radar_radius(*old(radar)),
        radar_height(*final(radar)) == radar_height(*old(radar)),
{
    radar.mark_seen(entity)
}

/// Marks one entity that the engine found around the owner, unless it is
/// the owner itself. The search always goes on, and nothing but the blips
/// changes.
pub fn mark_obstacle(radar: &mut TnuaObstacleRadar, owner: Entity, obstacle: Entity) -> (keep_going:
    bool)
    ensures
        keep_going,
        same_tracking(*old(radar), *final(radar)),
        same_extent(*old(radar), *final(radar)),
        radar_blips(*final(radar)) == if entity_bits(owner) == entity_bits(obstacle) {
            radar_blips(*old(radar))
        } else {
            radar_blips(*old(radar)).insert(entity_bits(obstacle), true)
        },
{
    if to_bits(owner) == to_bits(obstacle) {
        return true;
    }
    mark_seen(radar, obstacle);
    true
}

/// One tick of a radar around whose owner the engine found `obstacles`.
///
/// What the radar has seen afterwards is exactly the obstacles without the
/// owner; what it had seen before and did not see again stays for one tick
/// as a blip that is not seen. The radar tracks the owner at the position
/// and with the up direction given, and covers the region it covered.
pub fn update_obstacle_radar(
    radar: &mut TnuaObstacleRadar,
    owner: Entity,
    position: Vec3,
    up: Dir3,
    obstacles: &Vec<Entity>,
)
    ensures
        radar_owner(*final(radar)) == entity_bits(owner),
        radar_position(*final(radar)) == position,
        radar_up(*final(radar)) == up,
        same_extent(*old(radar), *final(radar)),
        radar_blips(*final(radar)) == blips_after(
            radar_blips(*old(radar)),
            entity_bits(owner),
            obstacles@,
        ),
        radar_seen(*final(radar)) == marked_before(
            entity_bits(owner),
            obstacles@,
            obstacles@.len() as int,
        ),
        !radar_seen(*final(radar)).contains(entity_bits(owner)),
{
    let ghost before = radar_blips(*radar);
    let ghost own = entity_bits(owner);
    let ghost radius = radar_radius(*radar);
    let ghost height = radar_height(*radar);
    pre_marking_update(radar, owner, position, up);
    let mut i: usize = 0;
    while i < obstacles.len()
        invariant
            i <= obstacles@.len(),
            own == entity_bits(owner),
            radar_owner(*radar) == own,
            radar_position(*radar) == position,
            radar_up(*radar) == up,
            radar_radius(*radar) == radius,
            radar_height(*radar) == height,
            radar_blips(*radar) =~= Map::new(
                |bits: u64|
                    marked_before(own, obstacles@, i as int).contains(bits) || (before.contains_key(
                        bits,
                    ) && before[bits]),
                |bits: u64| marked_before(own, obstacles@, i as int).contains(bits),
            ),
        decreases obstacles@.len() - i,
    {
        let ghost earlier = marked_before(own, obstacles@, i as int);
        let ghost later = marked_before(own, obstacles@, i as int + 1);
        let obstacle: Entity = obstacles[i];
        let _ = mark_obstacle(radar, owner, obstacle);
        proof {
            let bits_i = entity_bits(obstacles@[i as int]);
            assert forall|bits: u64| later.contains(bits) == (earlier.contains(bits) || (bits
                == bits_i && bits != own)) by {
                if earlier.contains(bits) {
                    let w = choose|w: int|
                        0 <= w < i as int && w < obstacles@.len() && entity_bits(
                            #[trigger] obstacles@[w],
                        ) == bits;
                    assert(0 <= w < i as int + 1 && entity_bits(obstacles@[w]) == bits);
                }
                if bits == bits_i && bits != own {
                    assert(0 <= i as int && (i as int) < i as int + 1 && entity_bits(
                        obstacles@[i as int],
                    ) == bits);
                }
            }
        }
        i += 1;
    }
    proof {
        let after = radar_blips(*radar);
        let marked = marked_before(own, obstacles@, obstacles@.len() as int);
        assert(after =~= blips_after(before, own, obstacles@));
        assert(radar_seen(*radar) =~= marked);
    }
}

} // verus!
