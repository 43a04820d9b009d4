//! How far the camera may pan.

use vstd::prelude::*;

use crate::global_state::GlobalState;

verus! {

/// The range of the camera on both axes, in whole world units.
#[derive(Clone, Copy, PartialEq, Eq, Debug, Structural)]
pub struct PanLimits {
    pub min_x: i64,
    pub max_x: i64,
    pub min_y: i64,
    pub max_y: i64,
}

/// Half the width of the world of `state`, rounded down.
pub open spec fn max_horizontal(state: GlobalState) -> int {
    (state.world_cols * state.block_size) / 2
}

/// Half the height of the world of `state`, rounded down.
pub open spec fn max_vertical(state: GlobalState) -> int {
    (state.world_rows * state.block_size) / 2
}

/// The range of the camera for the world of `state`: from the origin, half
/// the world to each side.
pub fn pan_limits(state: &GlobalState) -> (limits: PanLimits)
    ensures
        limits.max_x == max_horizontal(*state),
        limits.min_x == -max_horizontal(*state),
        limits.max_y == max_vertical(*state),
        limits.min_y == -max_vertical(*state),
{
    let size: u64 = state.block_size as u64;
    assert(state.world_cols * state.block_size <= 0xffff_ffff * 0xffff_ffff) by (nonlinear_arith)
        requires
            state.world_cols <= 0xffff_ffff,
            state.block_size <= 0xffff_ffff,
    ;
    assert(state.world_rows * state.block_size <= 0xffff_ffff * 0xffff_ffff) by (nonlinear_arith)
        requires
            state.world_rows <= 0xffff_ffff,
            state.block_size <= 0xffff_ffff,
    ;
    let horizontal: i64 = (((state.world_cols as u64) * size) / 2) as i64;
    let vertical: i64 = (((state.world_rows as u64) * size) / 2) as i64;
    PanLimits { min_x: -horizontal, max_x: horizontal, min_y: -vertical, max_y: vertical }
}

} // verus!
