//! The player controller.
//!
//! Once per simulation tick while the match runs, the controller reads
//! the abstract action state — a run axis in [−1, 1] and a just-pressed
//! jump edge — overwrites the horizontal drive force with
//! `axis * run strength`, and on the jump edge applies a one-shot
//! vertical impulse. There is no grounded check: every jump press grants
//! a full impulse. As a side effect it emits cosmetic dust requests: a
//! single mote with one-in-ten chance per tick while running fast, and a
//! ten-mote puff on every jump.
//!
//! The axis is carried in thousandths: −1000 stands for a full pull left,
//! 1000 for a full pull right.

use vstd::prelude::*;
use rand::RngExt;
use crate::geometry::{Vec2I, abs_val};
use crate::particle::BPSpawnDustMessage;

verus! {

/// One full axis pull, in the thousandth scale of the action state.
pub const AXIS_UNIT: i64 = 1_000;

/// Bound on force gains; it keeps `axis * strength` inside `i64`.
pub const MAX_FORCE_STRENGTH: i64 = 1_000_000_000_000;

/// The player's run gain: the drive force of a full axis pull.
pub const PLAYER_RUN_STRENGTH: i64 = 9_500_000;

/// The magnitude of the one-shot jump impulse.
pub const PLAYER_JUMP_STRENGTH: i64 = 2_500_000;

/// Running faster than this (50 world units per second) may kick up dust.
pub const RUN_DUST_SPEED: i64 = 5_000;

/// A vertical speed above this (50 world units per second) counts as
/// airborne; running dust settles only near the ground.
pub const AIRBORNE_SPEED: i64 = 5_000;

/// One chance in this many per tick of a running dust mote.
pub const RUN_DUST_CHANCE: u32 = 10;

/// Motes in a running dust request.
pub const RUN_DUST_COUNT: usize = 1;

/// Motes in a jump puff.
pub const JUMP_DUST_COUNT: usize = 10;

/// Dust appears at the body's feet, this far (25 world units) below its
/// position.
pub const FEET_OFFSET: i64 = 2_500;

/// The run gain of a player body.
#[derive(Clone, Copy, Debug, PartialEq, Eq, Structural)]
pub struct BPPlayerRunStrength(pub i64);

impl BPPlayerRunStrength {
    pub open spec fn wf(self) -> bool {
        0 <= self.0 <= MAX_FORCE_STRENGTH
    }
}

/// The jump impulse magnitude of a player body.
#[derive(Clone, Copy, Debug, PartialEq, Eq, Structural)]
pub struct BPPlayerJumpStrength(pub i64);

impl BPPlayerJumpStrength {
    pub open spec fn wf(self) -> bool {
        0 <= self.0 <= MAX_FORCE_STRENGTH
    }
}

/// The gameplay action set the controller reads.
#[derive(Clone, Copy, Debug, PartialEq, Eq, Structural)]
pub enum Action {
    Run,
    Jump,
}

/// What the input collaborator hands the controller each tick: the run
/// axis in thousandths, and whether jump was pressed this very tick.
#[derive(Clone, Copy, Debug, PartialEq, Eq, Structural)]
pub struct PlayerActionState {
    pub run_axis: i64,
    pub jump_just_pressed: bool,
}

impl PlayerActionState {
    pub open spec fn wf(self) -> bool {
        -AXIS_UNIT <= self.run_axis <= AXIS_UNIT
    }

    /// The abstract `axis` reading: only the run action carries an axis.
    pub fn axis(&self, action: Action) -> (r: i64)
        ensures
            action == Action::Run ==> r == self.run_axis,
            action == Action::Jump ==> r == 0,
    {
        match action {
            Action::Run => self.run_axis,
            Action::Jump => 0,
        }
    }

    /// The abstract `justPressed` reading: only the jump action has a
    /// rising edge.
    pub fn just_pressed(&self, action: Action) -> (r: bool)
        ensures
            r == (action == Action::Jump && self.jump_just_pressed),
    {
        match action {
            Action::Run => false,
            Action::Jump => self.jump_just_pressed,
        }
    }
}

/// Where a body's feet are: its position, dropped by the feet offset.
pub open spec fn spec_feet(position: Vec2I) -> Vec2I {
    Vec2I { x: position.x, y: (position.y - FEET_OFFSET) as i64 }
}

/// The drive force of an axis pull: `axis * strength`, scaled back from
/// the thousandth axis scale, rounded toward zero.
pub open spec fn spec_drive_force(axis: int, strength: int) -> int {
    if axis >= 0 {
        axis * strength / (AXIS_UNIT as int)
    } else {
        -((-axis) * strength / (AXIS_UNIT as int))
    }
}

/// Compute the drive force of an axis pull.
fn drive_force(axis: i64, strength: i64) -> (f: i64)
    requires
        -AXIS_UNIT <= axis <= AXIS_UNIT,
        0 <= strength <= MAX_FORCE_STRENGTH,
    ensures
        f == spec_drive_force(axis as int, strength as int),
{
    let mag_axis: u64 = if axis >= 0 {
        axis as u64
    } else {
        (-axis) as u64
    };
    proof {
        assert((mag_axis as int) * (strength as int) <= 1000 * (MAX_FORCE_STRENGTH as int))
            by (nonlinear_arith)
            requires
                0 <= mag_axis as int <= 1000,
                0 <= strength as int <= MAX_FORCE_STRENGTH as int,
        ;
    }
    let prod: u64 = mag_axis * (strength as u64);
    let q: u64 = prod / (AXIS_UNIT as u64);
    proof {
        vstd::arithmetic::div_mod::lemma_div_is_ordered(
            prod as int,
            1000 * (MAX_FORCE_STRENGTH as int),
            1000,
        );
        vstd::arithmetic::div_mod::lemma_div_multiples_vanish(MAX_FORCE_STRENGTH as int, 1000);
    }
    if axis >= 0 {
        q as i64
    } else {
        -(q as i64)
    }
}

/// Relies on rand::rng and rand::RngExt::random_range: a sample drawn
/// uniformly from `0 .. bound`; of one draw nothing more is promised than
/// its range. random_range panics on an empty range, which `bound > 0`
/// rules out.
#[verifier::external_body]
fn sample_below(bound: u32) -> (r: u32)
    requires
        bound > 0,
    ensures
        r < bound,
{
    rand::rng().random_range(0..bound)
}

/// Whether this tick's run dust fires: the body must be running faster
/// than `RUN_DUST_SPEED` while not airborne, and the tick's
/// one-in-`RUN_DUST_CHANCE` roll must come up.
pub open spec fn spec_run_dust_fires(velocity: Vec2I, roll: u32) -> bool {
    abs_val(velocity.x as int) > RUN_DUST_SPEED && abs_val(velocity.y as int) <= AIRBORNE_SPEED
        && roll == 0
}

/// The fixed decision core of a movement tick, taking the tick's chance
/// roll as an argument: it overwrites the force channel with the axis
/// drive and answers the dust request the roll earns, exactly.
pub fn move_player_decision(
    actions: PlayerActionState,
    run_strength: BPPlayerRunStrength,
    velocity: Vec2I,
    position: Vec2I,
    roll: u32,
    force: &mut Vec2I,
) -> (dust: Option<BPSpawnDustMessage>)
    requires
        actions.wf(),
        run_strength.wf(),
        velocity.bounded(),
        position.bounded(),
        roll < RUN_DUST_CHANCE,
    ensures
        final(force).x == spec_drive_force(actions.run_axis as int, run_strength.0 as int),
        final(force).y == 0,
        spec_run_dust_fires(velocity, roll) ==> dust == Some(BPSpawnDustMessage {
            position: spec_feet(position),
            count: RUN_DUST_COUNT,
        }),
        !spec_run_dust_fires(velocity, roll) ==> dust is None,
{
    *force = Vec2I { x: drive_force(actions.run_axis, run_strength.0), y: 0 };
    let speed: i64 = if velocity.x >= 0 {
        velocity.x
    } else {
        -velocity.x
    };
    let vertical_speed: i64 = if velocity.y >= 0 {
        velocity.y
    } else {
        -velocity.y
    };
    if speed > RUN_DUST_SPEED && vertical_speed <= AIRBORNE_SPEED && roll == 0 {
        Some(BPSpawnDustMessage {
            position: Vec2I { x: position.x, y: position.y - FEET_OFFSET },
            count: RUN_DUST_COUNT,
        })
    } else {
        None
    }
}

/// One movement tick: overwrite the drive force from the run axis, and
/// with one-in-ten chance while running fast, ask for a dust mote at the
/// feet. Whatever this tick's roll, the force is exact and any dust
/// request names the feet and a single mote.
pub fn move_player(
    actions: PlayerActionState,
    run_strength: BPPlayerRunStrength,
    velocity: Vec2I,
    position: Vec2I,
    force: &mut Vec2I,
) -> (dust: Option<BPSpawnDustMessage>)
    requires
        actions.wf(),
        run_strength.wf(),
        velocity.bounded(),
        position.bounded(),
    ensures
        final(force).x == spec_drive_force(actions.run_axis as int, run_strength.0 as int),
        final(force).y == 0,
        dust matches Some(m) ==> abs_val(velocity.x as int) > RUN_DUST_SPEED && abs_val(
            velocity.y as int,
        ) <= AIRBORNE_SPEED && m == (BPSpawnDustMessage {
            position: spec_feet(position),
            count: RUN_DUST_COUNT,
        }),
        abs_val(velocity.x as int) <= RUN_DUST_SPEED || abs_val(velocity.y as int)
            > AIRBORNE_SPEED ==> dust is None,
{
    let roll = sample_below(RUN_DUST_CHANCE);
    move_player_decision(actions, run_strength, velocity, position, roll, force)
}

/// One jump tick: on the just-pressed edge alone, overwrite the impulse
/// channel with a full vertical impulse and ask for a ten-mote puff at
/// the feet; otherwise touch nothing.
pub fn jump_player(
    actions: PlayerActionState,
    jump_strength: BPPlayerJumpStrength,
    position: Vec2I,
    impulse: &mut Vec2I,
) -> (dust: Option<BPSpawnDustMessage>)
    requires
        jump_strength.wf(),
        position.bounded(),
    ensures
        actions.jump_just_pressed ==> *final(impulse) == (Vec2I { x: 0, y: jump_strength.0 })
            && dust == Some(BPSpawnDustMessage {
            position: spec_feet(position),
            count: JUMP_DUST_COUNT,
        }),
        !actions.jump_just_pressed ==> *final(impulse) == *old(impulse) && dust is None,
{
    if !actions.jump_just_pressed {
        return None;
    }
    *impulse = Vec2I { x: 0, y: jump_strength.0 };
    Some(BPSpawnDustMessage {
        position: Vec2I { x: position.x, y: position.y - FEET_OFFSET },
        count: JUMP_DUST_COUNT,
    })
}

/// Law: the drive force is overwritten, never accumulated. The force a
/// movement tick leaves is fixed by that tick's axis alone — the
/// channel's previous content appears nowhere in `move_player`'s
/// contract — and its magnitude never exceeds one full axis pull times
/// the run gain, whatever force earlier ticks wrote.
pub proof fn lemma_force_overwrite(a1: i64, a2: i64, strength: i64)
    requires
        -AXIS_UNIT <= a1 <= AXIS_UNIT,
        -AXIS_UNIT <= a2 <= AXIS_UNIT,
        0 <= strength <= MAX_FORCE_STRENGTH,
    ensures
        abs_val(spec_drive_force(a2 as int, strength as int)) <= strength,
        abs_val(spec_drive_force(a1 as int, strength as int)) <= strength,
        a2 == AXIS_UNIT ==> spec_drive_force(a2 as int, strength as int) == strength,
        a2 == -AXIS_UNIT ==> spec_drive_force(a2 as int, strength as int) == -strength,
{
    lemma_drive_force_bound(a1 as int, strength as int);
    lemma_drive_force_bound(a2 as int, strength as int);
}

proof fn lemma_drive_force_bound(axis: int, strength: int)
    requires
        -AXIS_UNIT <= axis <= AXIS_UNIT,
        0 <= strength,
    ensures
        abs_val(spec_drive_force(axis, strength)) <= strength,
        axis == AXIS_UNIT ==> spec_drive_force(axis, strength) == strength,
        axis == -AXIS_UNIT ==> spec_drive_force(axis, strength) == -strength,
{
    let u = AXIS_UNIT as int;
    if axis >= 0 {
        assert(axis * strength <= u * strength) by (nonlinear_arith)
            requires 0 <= axis <= u && 0 <= strength;
        assert(0 <= axis * strength) by (nonlinear_arith)
            requires 0 <= axis && 0 <= strength;
        assert(axis * strength / u <= u * strength / u);
        assert(u * strength / u == strength) by (nonlinear_arith)
            requires u == 1000;
    } else {
        assert((-axis) * strength <= u * strength) by (nonlinear_arith)
            requires 0 <= -axis <= u && 0 <= strength;
        assert(0 <= (-axis) * strength) by (nonlinear_arith)
            requires axis < 0 && 0 <= strength;
        assert((-axis) * strength / u <= u * strength / u);
        assert(u * strength / u == strength) by (nonlinear_arith)
            requires u == 1000;
    }
}

} // verus!
