//! The third level: a pyramid of diamonds.
use vstd::prelude::*;

use crate::level_elements::diamond_pyramid;
use crate::level_elements::pyramid_rows;
use crate::level_elements::spawn_diamond_pyramid;
use crate::level_elements::with_layout;
use crate::level_elements::Placement;
use crate::world::World;

verus! {

/// Ordinate of the lowest row.
pub const BOTTOM_ROW_Y: i32 = -10000;

/// Distance between the centres of two neighbours of a row.
pub const BLOCK_DELTA: i32 = 6000;

/// Number of rows; odd, so that the pyramid is symmetric.
pub const ROWS_TOTAL: u16 = 9;

/// The blocks of the level, in the order in which they are spawned.
pub open spec fn layout() -> Seq<Placement> {
    diamond_pyramid(BOTTOM_ROW_Y, BLOCK_DELTA, ROWS_TOTAL)
}

/// The level has twenty-five blocks.
pub proof fn lemma_layout_len()
    ensures
        layout().len() == 25,
{
    reveal_with_fuel(pyramid_rows, 10);
}

/// Spawns the blocks of the third level.
pub fn spawn_level(world: &mut World)
    requires
        old(world)@.wf(),
        old(world)@.has_room(25),
    ensures
        final(world)@.wf(),
        final(world)@ == with_layout(old(world)@, layout()),
        final(world)@.next_id == old(world)@.next_id + 25,
{
    proof {
        lemma_layout_len();
    }
    spawn_diamond_pyramid(BOTTOM_ROW_Y, BLOCK_DELTA, ROWS_TOTAL, world);
}

} // verus!
