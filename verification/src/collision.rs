//! Collision groups: which kinds of bodies touch which.

use vstd::prelude::*;

verus! {

/// Static level geometry.
pub const WORLD: u32 = 0b0001;
/// Characters.
pub const CHARACTER: u32 = 0b0010;
/// Projectiles.
pub const PROJECTILE: u32 = 0b0100;
/// Pickups.
pub const PICKUP: u32 = 0b1000;
/// Every kind of body.
pub const ALL: u32 = 0b1111;

/// The groups a body belongs to and the groups it may touch.
#[derive(Clone, Copy, Debug, PartialEq, Eq, Structural)]
pub struct CollisionGroups {
    pub memberships: u32,
    pub filters: u32,
}

/// Whether two bodies touch: each belongs to a group that the other may
/// touch.
pub open spec fn interacts(a: CollisionGroups, b: CollisionGroups) -> bool {
    (a.memberships & b.filters) != 0 && (b.memberships & a.filters) != 0
}

/// Whether two bodies touch (see [`interacts`]).
pub fn test_interaction(a: CollisionGroups, b: CollisionGroups) -> (touch: bool)
    ensures
        touch == interacts(a, b),
        touch == interacts(b, a),
        touch ==> (a.memberships & b.filters) != 0 && (b.memberships & a.filters) != 0,
        ((a.memberships & b.filters) != 0 && (b.memberships & a.filters) != 0) ==> touch,
{
    (a.memberships & b.filters) != 0 && (b.memberships & a.filters) != 0
}

/// Touching goes both ways, and needs each body to accept the other: a body
/// touches another only if one of its groups is among the other's filters,
/// and the other's groups are among its own.
pub proof fn lemma_interaction_symmetric(a: CollisionGroups, b: CollisionGroups)
    ensures
        interacts(a, b) == interacts(b, a),
        interacts(a, b) ==> (a.memberships & b.filters) != 0,
        interacts(a, b) ==> (b.memberships & a.filters) != 0,
        (a.memberships & b.filters) == 0 ==> !interacts(a, b),
        (b.memberships & a.filters) == 0 ==> !interacts(a, b),
{
}

/// Every kind of body but those of `mask`.
pub fn all_except(mask: u32) -> (m: u32)
    ensures
        m == ALL ^ mask,
{
    ALL ^ mask
}

/// Groups of the level: it touches everything.
pub fn world_groups() -> (g: CollisionGroups)
    ensures
        g == (CollisionGroups { memberships: WORLD, filters: ALL }),
{
    CollisionGroups { memberships: WORLD, filters: ALL }
}

/// Groups of a character: it touches everything.
pub fn character_groups() -> (g: CollisionGroups)
    ensures
        g == (CollisionGroups { memberships: CHARACTER, filters: ALL }),
{
    CollisionGroups { memberships: CHARACTER, filters: ALL }
}

/// Groups of a projectile: it touches everything but projectiles.
pub fn projectile_groups() -> (g: CollisionGroups)
    ensures
        g == (CollisionGroups { memberships: PROJECTILE, filters: ALL ^ PROJECTILE }),
{
    CollisionGroups { memberships: PROJECTILE, filters: all_except(PROJECTILE) }
}

/// Groups of a pickup: it touches characters only.
pub fn pickup_groups() -> (g: CollisionGroups)
    ensures
        g == (CollisionGroups { memberships: PICKUP, filters: CHARACTER }),
{
    CollisionGroups { memberships: PICKUP, filters: CHARACTER }
}

/// Groups of what can block the camera's view of its character: everything
/// but characters.
pub fn camera_obstacle_groups() -> (g: CollisionGroups)
    ensures
        g == (CollisionGroups { memberships: CHARACTER, filters: ALL ^ CHARACTER }),
{
    CollisionGroups { memberships: CHARACTER, filters: all_except(CHARACTER) }
}

/// Projectiles pass through each other, hit characters and the level, and
/// pickups only ever touch characters.
pub proof fn lemma_group_rules()
    ensures
        !interacts(
            CollisionGroups { memberships: PROJECTILE, filters: ALL ^ PROJECTILE },
            CollisionGroups { memberships: PROJECTILE, filters: ALL ^ PROJECTILE },
        ),
        interacts(
            CollisionGroups { memberships: PROJECTILE, filters: ALL ^ PROJECTILE },
            CollisionGroups { memberships: CHARACTER, filters: ALL },
        ),
        interacts(
            CollisionGroups { memberships: PROJECTILE, filters: ALL ^ PROJECTILE },
            CollisionGroups { memberships: WORLD, filters: ALL },
        ),
        interacts(
            CollisionGroups { memberships: PICKUP, filters: CHARACTER },
            CollisionGroups { memberships: CHARACTER, filters: ALL },
        ),
        forall|other: CollisionGroups|
            #![trigger interacts(CollisionGroups { memberships: PICKUP, filters: CHARACTER }, other)]
            interacts(CollisionGroups { memberships: PICKUP, filters: CHARACTER }, other) ==> (
            other.memberships & CHARACTER) != 0,
{
    assert((PROJECTILE & (ALL ^ PROJECTILE)) == 0) by (bit_vector);
    assert((PROJECTILE & ALL) != 0) by (bit_vector);
    assert((CHARACTER & (ALL ^ PROJECTILE)) != 0) by (bit_vector);
    assert((WORLD & (ALL ^ PROJECTILE)) != 0) by (bit_vector);
    assert((PICKUP & ALL) != 0) by (bit_vector);
    assert((CHARACTER & CHARACTER) != 0) by (bit_vector);
}

/// Whether a body of the given groups belongs to `group`.
pub open spec fn in_group(groups: u32, group: u32) -> bool {
    (groups & group) != 0
}

/// Reads a collision between two bodies as a projectile hit, with the
/// groups each body belongs to. Only collisions that stopped count: the body
/// that is a projectile and not a character hits the other one; the first
/// body is tried first. Gives the projectile and its target.
pub fn projectile_hit(started: bool, groups_1: u32, entity_1: u64, groups_2: u32, entity_2: u64) -> (hit: Option<(u64, u64)>)
    ensures
        hit == if started {
            None
        } else if in_group(groups_1, PROJECTILE) && !in_group(groups_1, CHARACTER) {
            Some((entity_1, entity_2))
        } else if in_group(groups_2, PROJECTILE) && !in_group(groups_2, CHARACTER) {
            Some((entity_2, entity_1))
        } else {
            None
        },
{
    if started {
        None
    } else if (groups_1 & PROJECTILE) != 0 && (groups_1 & CHARACTER) == 0 {
        Some((entity_1, entity_2))
    } else if (groups_2 & PROJECTILE) != 0 && (groups_2 & CHARACTER) == 0 {
        Some((entity_2, entity_1))
    } else {
        None
    }
}

} // verus!
