//! The second level: three columns of squares, with a cross of diamonds in
//! each of the two gaps.
use vstd::prelude::*;

use crate::geometry::Vec2;
use crate::level_elements::diamond_cross;
use crate::level_elements::lemma_layout_concat;
use crate::level_elements::spawn_diamond_cross;
use crate::level_elements::spawn_square_block_column;
use crate::level_elements::square_block_column;
use crate::level_elements::with_layout;
use crate::level_elements::Placement;
use crate::world::World;

verus! {

/// Abscissa of the leftmost column.
pub const X_COORDINATE_LEFT_COLUMN: i32 = -40000;

/// Distance between two columns.
pub const HORIZONTAL_OFFSET: i32 = 40000;

/// Ordinate of the lowest block of each column.
pub const Y_POSITION_BOTTOM_BLOCK: i32 = -10000;

/// Distance between two blocks of a column.
pub const VERTICAL_OFFSET: i32 = 7500;

/// Lower left corner of the cross between the first two columns.
pub const LEFT_CROSS_X: i32 = -30000;

/// Lower left corner of the cross between the last two columns.
pub const RIGHT_CROSS_X: i32 = 10000;

/// Ordinate of the lower corners of both crosses.
pub const CROSS_Y: i32 = -6650;

/// Width of both crosses.
pub const CROSS_WIDTH: i32 = 20000;

/// Height of both crosses.
pub const CROSS_HEIGHT: i32 = 22500;

/// What one pass of the level's loop spawns: the column number `index` from
/// the left, then the left cross, then the right cross.
pub open spec fn pass(index: int) -> Seq<Placement> {
    square_block_column(
        (X_COORDINATE_LEFT_COLUMN + HORIZONTAL_OFFSET * index) as i32,
        Y_POSITION_BOTTOM_BLOCK,
        VERTICAL_OFFSET,
    ) + diamond_cross(
        Vec2 { x: LEFT_CROSS_X, y: CROSS_Y },
        Vec2 { x: CROSS_WIDTH, y: CROSS_HEIGHT },
    ) + diamond_cross(
        Vec2 { x: RIGHT_CROSS_X, y: CROSS_Y },
        Vec2 { x: CROSS_WIDTH, y: CROSS_HEIGHT },
    )
}

/// What the first `count` passes spawn.
pub open spec fn passes(count: int) -> Seq<Placement>
    decreases count,
{
    if count <= 0 {
        Seq::empty()
    } else {
        passes(count - 1) + pass(count - 1)
    }
}

/// The blocks of the level, in the order in which they are spawned.  Each
/// of the three passes spawns both crosses, so each cross stands three
/// times on the same spot.
pub open spec fn layout() -> Seq<Placement> {
    passes(3)
}

/// The level has sixty-nine blocks.
pub proof fn lemma_layout_len()
    ensures
        layout().len() == 69,
{
    reveal_with_fuel(passes, 4);
}

/// Spawns the blocks of the second level.
pub fn spawn_level(world: &mut World)
    requires
        old(world)@.wf(),
        old(world)@.has_room(69),
    ensures
        final(world)@.wf(),
        final(world)@ == with_layout(old(world)@, layout()),
        final(world)@.next_id == old(world)@.next_id + 69,
{
    let ghost start = world@;
    let mut index: i32 = 0;
    // spawn 3 columns
    while index < 3
        invariant
            0 <= index <= 3,
            start.has_room(69),
            world@.wf(),
            world@ == with_layout(start, passes(index as int)),
            world@.next_id == start.next_id + 23 * index,
        decreases 3 - index,
    {
        let ghost column = square_block_column(
            (X_COORDINATE_LEFT_COLUMN + HORIZONTAL_OFFSET * index) as i32,
            Y_POSITION_BOTTOM_BLOCK,
            VERTICAL_OFFSET,
        );

        spawn_square_block_column(
            X_COORDINATE_LEFT_COLUMN + HORIZONTAL_OFFSET * index,
            Y_POSITION_BOTTOM_BLOCK,
            VERTICAL_OFFSET,
            world,
        );

        // spawn two crosses between the columns
        // LEFT cross
        let lower_left_pos = Vec2::new(LEFT_CROSS_X, CROSS_Y);
        let cross_dimensions = Vec2::new(CROSS_WIDTH, CROSS_HEIGHT);
        let ghost left_cross = diamond_cross(lower_left_pos, cross_dimensions);

        spawn_diamond_cross(lower_left_pos, cross_dimensions, world);

        // RIGHT cross
        let lower_left_pos = Vec2::new(RIGHT_CROSS_X, CROSS_Y);
        let cross_dimensions = Vec2::new(CROSS_WIDTH, CROSS_HEIGHT);
        let ghost right_cross = diamond_cross(lower_left_pos, cross_dimensions);

        spawn_diamond_cross(lower_left_pos, cross_dimensions, world);

        proof {
            let before = passes(index as int);
            lemma_layout_concat(start, before, column);
            lemma_layout_concat(start, before + column, left_cross);
            lemma_layout_concat(start, before + column + left_cross, right_cross);
            assert(before + column + left_cross + right_cross =~= before + pass(index as int));
        }
        index += 1;
    }
}

} // verus!
