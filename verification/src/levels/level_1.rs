//! The first level: six columns of squares.
use vstd::prelude::*;

use crate::level_elements::lemma_layout_concat;
use crate::level_elements::spawn_square_block_column;
use crate::level_elements::square_block_column;
use crate::level_elements::with_layout;
use crate::level_elements::Placement;
use crate::world::World;

verus! {

/// Abscissa of the leftmost column.
pub const X_COORDINATE_LEFT_COLUMN: i32 = -35000;

/// Distance between two columns.
pub const HORIZONTAL_OFFSET: i32 = 15000;

/// Ordinate of the lowest block of each column.
pub const Y_POSITION_BOTTOM_BLOCK: i32 = -10000;

/// Distance between two blocks of a column.
pub const VERTICAL_OFFSET: i32 = 7500;

/// The first `count` columns of the level, from the left.
pub open spec fn columns(count: int) -> Seq<Placement>
    decreases count,
{
    if count <= 0 {
        Seq::empty()
    } else {
        columns(count - 1) + square_block_column(
            (X_COORDINATE_LEFT_COLUMN + HORIZONTAL_OFFSET * (count - 1)) as i32,
            Y_POSITION_BOTTOM_BLOCK,
            VERTICAL_OFFSET,
        )
    }
}

/// The blocks of the level, in the order in which they are spawned.
pub open spec fn layout() -> Seq<Placement> {
    columns(6)
}

/// The level has thirty blocks.
pub proof fn lemma_layout_len()
    ensures
        layout().len() == 30,
{
    reveal_with_fuel(columns, 7);
}

/// Spawns the blocks of the first level.
pub fn spawn_level(world: &mut World)
    requires
        old(world)@.wf(),
        old(world)@.has_room(30),
    ensures
        final(world)@.wf(),
        final(world)@ == with_layout(old(world)@, layout()),
        final(world)@.next_id == old(world)@.next_id + 30,
{
    let ghost start = world@;
    let mut index: i32 = 0;
    while index < 6
        invariant
            0 <= index <= 6,
            start.has_room(30),
            world@.wf(),
            world@ == with_layout(start, columns(index as int)),
            world@.next_id == start.next_id + 5 * index,
        decreases 6 - index,
    {
        proof {
            lemma_layout_concat(
                start,
                columns(index as int),
                square_block_column(
                    (X_COORDINATE_LEFT_COLUMN + HORIZONTAL_OFFSET * index) as i32,
                    Y_POSITION_BOTTOM_BLOCK,
                    VERTICAL_OFFSET,
                ),
            );
        }
        spawn_square_block_column(
            X_COORDINATE_LEFT_COLUMN + HORIZONTAL_OFFSET * index,
            Y_POSITION_BOTTOM_BLOCK,
            VERTICAL_OFFSET,
            world,
        );
        index += 1;
    }
}

} // verus!
