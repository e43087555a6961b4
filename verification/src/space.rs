//! Collision filtering of physical bodies, and the link from a body back to
//! the game entity it belongs to.
use vstd::prelude::*;

use crate::components::BodyKind;

verus! {

/// The collision groups of a body: the groups it belongs to and the groups
/// it may collide with, one bit per group (group `n` is bit `n - 1`).
#[derive(Clone, Copy, Debug, PartialEq, Eq, Structural)]
pub struct CollisionGroups {
    pub memberships: u32,
    pub filter: u32,
}

/// Group 1: the player's ship.
pub const GROUP_1: u32 = 0x1;
/// Group 2: asteroids.
pub const GROUP_2: u32 = 0x2;
/// Group 10: bullets.
pub const GROUP_10: u32 = 0x200;
/// Group 32: every other body.
pub const GROUP_32: u32 = 0x8000_0000;

/// The collision groups of each kind of body.
pub open spec fn groups_of(kind: BodyKind) -> CollisionGroups {
    match kind {
        BodyKind::Player => CollisionGroups { memberships: GROUP_1, filter: GROUP_1 | GROUP_2 },
        BodyKind::Asteroid => CollisionGroups {
            memberships: GROUP_2,
            filter: GROUP_1 | GROUP_2 | GROUP_10,
        },
        BodyKind::Bullet => CollisionGroups { memberships: GROUP_10, filter: GROUP_2 | GROUP_10 },
        BodyKind::Other => CollisionGroups { memberships: GROUP_32, filter: GROUP_32 },
    }
}

/// The physics engine's filtering rule: two bodies may collide exactly when
/// each belongs to a group that the other's filter lets through.
pub open spec fn groups_interact(a: CollisionGroups, b: CollisionGroups) -> bool {
    (a.memberships & b.filter) != 0 && (b.memberships & a.filter) != 0
}

/// Which kinds of body the game means to collide: bodies of other kinds
/// only among themselves; of the rest, every pair but a bullet and the
/// player's ship.
pub open spec fn may_collide(a: BodyKind, b: BodyKind) -> bool {
    if a == BodyKind::Other || b == BodyKind::Other {
        a == b
    } else {
        !((a == BodyKind::Player && b == BodyKind::Bullet) || (a == BodyKind::Bullet && b == BodyKind::Player))
    }
}

/// The kind of a body built for an entity at the start: the player's ship
/// if the entity is the player, else an asteroid if it is one, else other.
pub fn body_kind(is_player: bool, is_asteroid: bool) -> (kind: BodyKind)
    ensures
        kind == (if is_player {
            BodyKind::Player
        } else if is_asteroid {
            BodyKind::Asteroid
        } else {
            BodyKind::Other
        }),
{
    if is_player {
        BodyKind::Player
    } else if is_asteroid {
        BodyKind::Asteroid
    } else {
        BodyKind::Other
    }
}

/// The collision groups given to a new body of the given kind.
pub fn collision_groups(kind: BodyKind) -> (r: CollisionGroups)
    ensures
        r == groups_of(kind),
        kind == BodyKind::Player ==> r.memberships == 0x1 && r.filter == 0x3,
        kind == BodyKind::Asteroid ==> r.memberships == 0x2 && r.filter == 0x203,
        kind == BodyKind::Bullet ==> r.memberships == 0x200 && r.filter == 0x202,
        kind == BodyKind::Other ==> r.memberships == 0x8000_0000 && r.filter == 0x8000_0000,
{
    proof {
        lemma_group_masks();
    }
    match kind {
        BodyKind::Player => CollisionGroups { memberships: GROUP_1, filter: GROUP_1 | GROUP_2 },
        BodyKind::Asteroid => CollisionGroups {
            memberships: GROUP_2,
            filter: GROUP_1 | GROUP_2 | GROUP_10,
        },
        BodyKind::Bullet => CollisionGroups { memberships: GROUP_10, filter: GROUP_2 | GROUP_10 },
        BodyKind::Other => CollisionGroups { memberships: GROUP_32, filter: GROUP_32 },
    }
}

proof fn lemma_group_masks()
    by (bit_vector)
    ensures
        (0x1u32 & (0x1u32 | 0x2u32)) != 0,
        (0x1u32 & (0x1u32 | 0x2u32 | 0x200u32)) != 0,
        (0x1u32 & (0x2u32 | 0x200u32)) == 0,
        (0x1u32 & 0x8000_0000u32) == 0,
        (0x2u32 & (0x1u32 | 0x2u32)) != 0,
        (0x2u32 & (0x1u32 | 0x2u32 | 0x200u32)) != 0,
        (0x2u32 & (0x2u32 | 0x200u32)) != 0,
        (0x2u32 & 0x8000_0000u32) == 0,
        (0x200u32 & (0x1u32 | 0x2u32)) == 0,
        (0x200u32 & (0x1u32 | 0x2u32 | 0x200u32)) != 0,
        (0x200u32 & (0x2u32 | 0x200u32)) != 0,
        (0x200u32 & 0x8000_0000u32) == 0,
        (0x8000_0000u32 & (0x1u32 | 0x2u32)) == 0,
        (0x8000_0000u32 & (0x1u32 | 0x2u32 | 0x200u32)) == 0,
        (0x8000_0000u32 & (0x2u32 | 0x200u32)) == 0,
        (0x8000_0000u32 & 0x8000_0000u32) != 0,
        (0x1u32 | 0x2u32) == 0x3u32,
        (0x1u32 | 0x2u32 | 0x200u32) == 0x203u32,
        (0x2u32 | 0x200u32) == 0x202u32,
{
}

/// Law: under the physics engine's filtering rule, the groups that the game
/// gives its bodies let exactly the intended kinds collide; in particular a
/// bullet never hits the ship that fired it, and bullets do hit asteroids.
pub proof fn lemma_collision_matrix(a: BodyKind, b: BodyKind)
    ensures
        groups_interact(groups_of(a), groups_of(b)) == may_collide(a, b),
{
    lemma_group_masks();
}

/// The value stored with a body to find its entity again: the entity's bits.
pub fn user_data_of(entity_bits: u64) -> (r: u128)
    ensures
        r == entity_bits as u128,
{
    entity_bits as u128
}

/// The entity bits read back from a body's stored value; a body that cannot
/// be found reads as zero.  The stored value is cut to its low 64 bits.
pub fn entity_bits_of(user_data: Option<u128>) -> (r: u64)
    ensures
        r == (match user_data {
            Some(d) => d as u64,
            None => 0u64,
        }),
{
    match user_data {
        Some(d) => d as u64,
        None => 0,
    }
}

/// Law: the entity read back from a body is the entity whose bits were
/// stored with it.
pub proof fn lemma_user_data_round_trip(entity_bits: u64)
    ensures
        (entity_bits as u128) as u64 == entity_bits,
{
    assert((entity_bits as u128) as u64 == entity_bits) by (bit_vector);
}

} // verus!
