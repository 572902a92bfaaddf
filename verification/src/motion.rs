//! The per-frame player step.
//!
//! Every frame, each entity tagged as the player is shifted by a constant
//! offset.  The elapsed-time and input resources are injected by the host
//! scheduler but not consulted, so the step is the same whatever came in:
//! the perceived speed is frame-rate dependent, a trait of the prototype
//! that is stated here rather than repaired.

use vstd::prelude::*;

use crate::units::Vec3Fixed;

verus! {

/// Horizontal step per frame, in tenths of a world unit.
pub const PLAYER_STEP_X_TENTHS: i32 = 2;

/// Vertical step per frame, in tenths of a world unit.
pub const PLAYER_STEP_Y_TENTHS: i32 = 2;

/// Where a player position is taken by one frame, whatever the elapsed
/// time was.  The result is exact, so it is stated over unbounded integers.
pub open spec fn spec_move_player(p: Vec3Fixed, elapsed_millis: u64) -> (int, int, int) {
    (p.x + PLAYER_STEP_X_TENTHS, p.y + PLAYER_STEP_Y_TENTHS, p.z as int)
}

/// Whether a position is far enough from the representable edge for one
/// more step.
pub open spec fn spec_step_fits(p: Vec3Fixed) -> bool {
    p.x + PLAYER_STEP_X_TENTHS <= i32::MAX && p.y + PLAYER_STEP_Y_TENTHS <= i32::MAX
}

/// Advances a player position by one frame: a constant shift of
/// (+0.2, +0.2, 0) world units, regardless of the elapsed time and of the
/// keyboard state handed in.
pub fn move_player(position: Vec3Fixed, elapsed_millis: u64, keys_pressed: &Vec<u32>) -> (r:
    Vec3Fixed)
    requires
        spec_step_fits(position),
    ensures
        (r.x as int, r.y as int, r.z as int) == spec_move_player(position, elapsed_millis),
{
    Vec3Fixed {
        x: position.x + PLAYER_STEP_X_TENTHS,
        y: position.y + PLAYER_STEP_Y_TENTHS,
        z: position.z,
    }
}

/// The step ignores the clock: two frames from the same position land in
/// the same place however much real time passed before each.
pub proof fn lemma_move_player_time_independent(p: Vec3Fixed, t1: u64, t2: u64)
    ensures
        spec_move_player(p, t1) == spec_move_player(p, t2),
{
}

} // verus!
