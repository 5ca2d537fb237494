//! The enemy patrol controller.
//!
//! Once per simulation tick the enemy casts a ray ahead of itself,
//! filtered to level geometry and invisible walls only, and reverses its
//! patrol direction when a hit lies closer than the reversal threshold.
//! Whether or not it reverses, it overwrites its horizontal drive force
//! with `direction * drive strength` — the force never accumulates across
//! ticks.

use vstd::prelude::*;
use crate::geometry::{Vec2I, abs_val};
use crate::physic::{INVISIBLE_WALL_GROUP, WORLD_GROUP};

verus! {

/// Constant horizontal drive of the patrol, in force units.
pub const ENEMY_DRIVE_STRENGTH: i64 = 4_000_000;

/// The patrol ray reaches this far ahead (60 world units).
pub const RAY_MAX_DISTANCE: i64 = 6_000;

/// A hit closer than this (50 world units) reverses the patrol; the gap
/// to the ray's reach is the hysteresis margin that keeps the direction
/// from oscillating exactly at the boundary.
pub const REVERSAL_DISTANCE: i64 = 5_000;

/// The patrol direction, always −1 or +1, never 0.
#[derive(Clone, Copy, Debug, PartialEq, Eq, Structural)]
pub struct BPEnemyDirection(pub i64);

impl BPEnemyDirection {
    pub open spec fn wf(self) -> bool {
        self.0 == 1 || self.0 == -1
    }
}

/// A ray-cast question for the external physics engine: origin, a purely
/// horizontal direction, a reach, and a filter mask of the groups the ray
/// may hit.
#[derive(Clone, Copy, Debug, PartialEq, Eq, Structural)]
pub struct RayQuery {
    pub origin: Vec2I,
    pub direction_x: i64,
    pub max_distance: i64,
    pub filter: u8,
}

/// The ray the patrol asks for: cast from the enemy's position along its
/// direction, reaching `RAY_MAX_DISTANCE`, and hitting only level
/// geometry and invisible walls — never the player nor another pawn.
pub fn patrol_ray_query(position: Vec2I, direction: BPEnemyDirection) -> (q: RayQuery)
    ensures
        q.origin == position,
        q.direction_x == direction.0,
        q.max_distance == RAY_MAX_DISTANCE,
        q.filter == WORLD_GROUP | INVISIBLE_WALL_GROUP,
{
    RayQuery {
        origin: position,
        direction_x: direction.0,
        max_distance: RAY_MAX_DISTANCE,
        filter: WORLD_GROUP | INVISIBLE_WALL_GROUP,
    }
}

/// Whether a ray answer reverses the patrol: only a hit strictly closer
/// than the reversal threshold does.
pub open spec fn spec_reverses(ray_hit: Option<i64>) -> bool {
    match ray_hit {
        Some(d) => d < REVERSAL_DISTANCE,
        None => false,
    }
}

/// The direction after one tick, given the direction before it and the
/// ray answer.
pub open spec fn spec_next_direction(d: int, ray_hit: Option<i64>) -> int {
    if spec_reverses(ray_hit) {
        -d
    } else {
        d
    }
}

/// One patrol tick: fold the ray answer into the direction and overwrite
/// the drive force with `direction * ENEMY_DRIVE_STRENGTH`. The force
/// channel's previous value leaves no trace.
pub fn enemy_patrol_tick(direction: &mut BPEnemyDirection, ray_hit: Option<i64>, force: &mut Vec2I)
    requires
        old(direction).wf(),
    ensures
        final(direction).wf(),
        final(direction).0 == spec_next_direction(old(direction).0 as int, ray_hit),
        final(force).x == final(direction).0 * ENEMY_DRIVE_STRENGTH,
        final(force).y == 0,
{
    if let Some(distance) = ray_hit {
        if distance < REVERSAL_DISTANCE {
            direction.0 = -direction.0;
        }
    }
    *force = Vec2I { x: direction.0 * ENEMY_DRIVE_STRENGTH, y: 0 };
}

/// Law: the reversal rule is deterministic in the ray answer. A hit
/// strictly inside the threshold negates the direction; a farther hit, or
/// none within reach, leaves it unchanged.
pub proof fn lemma_reversal_determinism(d: int, ray_hit: Option<i64>)
    ensures
        (ray_hit matches Some(t) && t < REVERSAL_DISTANCE)
            ==> spec_next_direction(d, ray_hit) == -d,
        (ray_hit matches Some(t) && t >= REVERSAL_DISTANCE)
            ==> spec_next_direction(d, ray_hit) == d,
        ray_hit is None ==> spec_next_direction(d, ray_hit) == d,
{
}

/// Law: the patrol drive never accumulates. `enemy_patrol_tick` promises
/// a force channel whose content is fixed by the direction and the ray
/// answer alone — the channel's previous value does not appear in its
/// contract — so after any run of ticks the force is the last tick's, and
/// its magnitude is always exactly the drive strength, never a multiple
/// of it.
pub proof fn lemma_enemy_force_overwrite(d: BPEnemyDirection)
    requires
        d.wf(),
    ensures
        abs_val(d.0 * ENEMY_DRIVE_STRENGTH) == ENEMY_DRIVE_STRENGTH,
{
}

} // verus!
