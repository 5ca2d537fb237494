//! Collision groups and their interaction matrix.
//!
//! Every physics body carries a membership mask and a filter mask; two
//! bodies generate contacts and events only when each one's filter admits
//! the other's membership. The four groups and the matrix are fixed for
//! the life of the game.

use vstd::prelude::*;

verus! {

pub const PLAYER_GROUP: u8 = 1;

pub const PAWN_GROUP: u8 = 2;

pub const WORLD_GROUP: u8 = 4;

pub const INVISIBLE_WALL_GROUP: u8 = 8;

/// Membership and filter masks of one physics body.
#[derive(Clone, Copy, Debug, PartialEq, Eq, Structural)]
pub struct CollisionGroups {
    pub memberships: u8,
    pub filters: u8,
}

/// Whether a mask admits a group.
pub open spec fn mask_admits(mask: u8, group: u8) -> bool {
    mask & group != 0
}

/// Two bodies interact only when each one's filter admits the other's
/// membership.
pub open spec fn spec_interact(a: CollisionGroups, b: CollisionGroups) -> bool {
    mask_admits(a.filters, b.memberships) && mask_admits(b.filters, a.memberships)
}

pub fn groups_interact(a: CollisionGroups, b: CollisionGroups) -> (r: bool)
    ensures
        r == spec_interact(a, b),
{
    (a.filters & b.memberships != 0) && (b.filters & a.memberships != 0)
}

/// The player's body: member of the player group, touching the world, the
/// pawn, and the invisible walls.
pub open spec fn spec_player_groups() -> CollisionGroups {
    CollisionGroups {
        memberships: PLAYER_GROUP,
        filters: WORLD_GROUP | PAWN_GROUP | INVISIBLE_WALL_GROUP,
    }
}

pub fn player_groups() -> (r: CollisionGroups)
    ensures
        r == spec_player_groups(),
{
    CollisionGroups { memberships: PLAYER_GROUP, filters: WORLD_GROUP | PAWN_GROUP | INVISIBLE_WALL_GROUP }
}

/// The patrolling pawn's body: member of the pawn group, touching every
/// group.
pub open spec fn spec_pawn_groups() -> CollisionGroups {
    CollisionGroups {
        memberships: PAWN_GROUP,
        filters: PLAYER_GROUP | WORLD_GROUP | PAWN_GROUP | INVISIBLE_WALL_GROUP,
    }
}

pub fn pawn_groups() -> (r: CollisionGroups)
    ensures
        r == spec_pawn_groups(),
{
    CollisionGroups {
        memberships: PAWN_GROUP,
        filters: PLAYER_GROUP | WORLD_GROUP | PAWN_GROUP | INVISIBLE_WALL_GROUP,
    }
}

/// A ground or platform body: passive, hit by the player and the pawn.
pub open spec fn spec_world_groups() -> CollisionGroups {
    CollisionGroups { memberships: WORLD_GROUP, filters: PLAYER_GROUP | PAWN_GROUP | WORLD_GROUP }
}

pub fn world_groups() -> (r: CollisionGroups)
    ensures
        r == spec_world_groups(),
{
    CollisionGroups { memberships: WORLD_GROUP, filters: PLAYER_GROUP | PAWN_GROUP | WORLD_GROUP }
}

/// An invisible turnaround wall: passive, hit by the player and the pawn.
pub open spec fn spec_invisible_wall_groups() -> CollisionGroups {
    CollisionGroups {
        memberships: INVISIBLE_WALL_GROUP,
        filters: PLAYER_GROUP | PAWN_GROUP | WORLD_GROUP,
    }
}

pub fn invisible_wall_groups() -> (r: CollisionGroups)
    ensures
        r == spec_invisible_wall_groups(),
{
    CollisionGroups { memberships: INVISIBLE_WALL_GROUP, filters: PLAYER_GROUP | PAWN_GROUP | WORLD_GROUP }
}

/// Law: the interaction matrix is fixed. The player touches the world,
/// the pawn, and the invisible walls; the pawn touches everything; the
/// passive groups do not touch one another.
pub proof fn lemma_interaction_matrix()
    ensures
        spec_interact(spec_player_groups(), spec_world_groups()),
        spec_interact(spec_player_groups(), spec_pawn_groups()),
        spec_interact(spec_player_groups(), spec_invisible_wall_groups()),
        spec_interact(spec_pawn_groups(), spec_world_groups()),
        spec_interact(spec_pawn_groups(), spec_pawn_groups()),
        spec_interact(spec_pawn_groups(), spec_invisible_wall_groups()),
        !spec_interact(spec_world_groups(), spec_invisible_wall_groups()),
        // the patrol ray's filter sees geometry and walls, never the
        // player nor a pawn
        mask_admits(WORLD_GROUP | INVISIBLE_WALL_GROUP, WORLD_GROUP),
        mask_admits(WORLD_GROUP | INVISIBLE_WALL_GROUP, INVISIBLE_WALL_GROUP),
        !mask_admits(WORLD_GROUP | INVISIBLE_WALL_GROUP, PLAYER_GROUP),
        !mask_admits(WORLD_GROUP | INVISIBLE_WALL_GROUP, PAWN_GROUP),
{
    assert({
        &&& (4u8 | 8u8) & 4u8 != 0
        &&& (4u8 | 8u8) & 8u8 != 0
        &&& (4u8 | 8u8) & 1u8 == 0
        &&& (4u8 | 8u8) & 2u8 == 0
        &&& (4u8 | 2u8 | 8u8) & 4u8 != 0
        &&& (4u8 | 2u8 | 8u8) & 2u8 != 0
        &&& (4u8 | 2u8 | 8u8) & 8u8 != 0
        &&& (1u8 | 4u8 | 2u8 | 8u8) & 1u8 != 0
        &&& (1u8 | 4u8 | 2u8 | 8u8) & 4u8 != 0
        &&& (1u8 | 4u8 | 2u8 | 8u8) & 2u8 != 0
        &&& (1u8 | 4u8 | 2u8 | 8u8) & 8u8 != 0
        &&& (1u8 | 2u8 | 4u8) & 1u8 != 0
        &&& (1u8 | 2u8 | 4u8) & 2u8 != 0
        &&& (1u8 | 2u8 | 4u8) & 8u8 == 0
    }) by (bit_vector);
}

} // verus!
