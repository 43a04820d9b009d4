//! The size of the world.

use vstd::prelude::*;

verus! {

/// How many tiles the world has along each axis, and the edge of one tile in
/// world units.
#[derive(Clone, Copy, PartialEq, Eq, Debug, Structural)]
pub struct GlobalState {
    pub world_rows: u32,
    pub world_cols: u32,
    pub block_size: u32,
}

impl Default for GlobalState {
    /// A world of 48 columns and 32 rows of tiles 64 units wide.
    fn default() -> (state: Self)
        ensures
            state.world_rows == 32,
            state.world_cols == 48,
            state.block_size == 64,
    {
        GlobalState { world_rows: 32, world_cols: 48, block_size: 64 }
    }
}

} // verus!
