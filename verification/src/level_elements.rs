//! The blocks of a level and the patterns they are laid out in.
use vstd::prelude::*;
use vstd::string::StringExecFns;

use crate::ColliderType;
use crate::components::AddCollider;
use crate::components::Body;
use crate::components::Entity;
use crate::components::EntityId;
use crate::components::RigidBody;
use crate::components::Sprite;
use crate::components::Transform;
use crate::geometry::fits;
use crate::geometry::fraction;
use crate::geometry::fraction_of;
use crate::geometry::half;
use crate::geometry::Vec2;
use crate::levels::OnLevelsScreen;
use crate::sprites::Image;
use crate::world::lemma_push_holds;
use crate::world::lemma_unused_id_is_free;
use crate::world::spawn;
use crate::world::World;
use crate::world::WorldView;

verus! {

/// Outline of a block.
#[derive(Clone, Copy, Debug, PartialEq, Eq, Structural)]
pub enum ElementShape {
    Square,
    Rectangle,
    Diamond,
    Pentagon,
}

/// How much power it takes to destroy a block.
#[derive(Clone, Copy, Debug, PartialEq, Eq, PartialOrd, Ord, Structural)]
pub enum ElementDurability {
    Lowest,
    Low,
    Medium,
    High,
    Highest,
    Indestructible,
}

impl ElementDurability {
    /// Position in the order `Lowest < Low < Medium < High < Highest < Indestructible`.
    pub open spec fn rank(self) -> int {
        match self {
            ElementDurability::Lowest => 0,
            ElementDurability::Low => 1,
            ElementDurability::Medium => 2,
            ElementDurability::High => 3,
            ElementDurability::Highest => 4,
            ElementDurability::Indestructible => 5,
        }
    }

    /// Whether a ball of some power can destroy a block of this durability.
    pub fn is_destructible(&self) -> (destructible: bool)
        ensures
            destructible == (*self != ElementDurability::Indestructible),
    {
        match self {
            ElementDurability::Indestructible => false,
            _ => true,
        }
    }
}

/// Marks a block that can be destroyed and holds its durability.
#[derive(Clone, Copy, Debug, PartialEq, Eq, Structural)]
pub struct DestructibleElement {
    pub element_durability: ElementDurability,
}

/// Marks a block that nothing destroys.
#[derive(Clone, Copy, Debug, PartialEq, Eq, Structural)]
pub struct IndestructibleElement;

/// The components a destructible block is spawned with.
#[derive(Clone, Copy, Debug, PartialEq, Eq, Structural)]
pub struct DestructibleElementBundle {
    pub marker: DestructibleElement,
    pub screen_marker: OnLevelsScreen,
    pub sprite: Sprite,
    pub transform: Transform,
    pub add_collider: AddCollider,
    pub rigid_body: RigidBody,
}

/// The components an indestructible block is spawned with.
#[derive(Clone, Copy, Debug, PartialEq, Eq, Structural)]
pub struct IndestructibleElementBundle {
    pub marker: IndestructibleElement,
    pub screen_marker: OnLevelsScreen,
    pub sprite: Sprite,
    pub transform: Transform,
    pub add_collider: AddCollider,
    pub rigid_body: RigidBody,
}

/// One block of a layout: what it is and where it stands.
#[derive(Clone, Copy, Debug, PartialEq, Eq, Structural)]
pub struct Placement {
    pub durability: ElementDurability,
    pub shape: ElementShape,
    pub position: Vec2,
}

/// The kind of collider that a shape is given.
pub open spec fn collider_type_of(element_shape: ElementShape) -> ColliderType {
    match element_shape {
        ElementShape::Square => ColliderType::Rectangle,
        ElementShape::Rectangle => ColliderType::Rectangle,
        ElementShape::Diamond => ColliderType::Diamond,
        ElementShape::Pentagon => ColliderType::RegularPolygon,
    }
}

/// The colour that shows a durability.
pub open spec fn durability_color(element_durability: ElementDurability) -> Seq<char> {
    match element_durability {
        ElementDurability::Lowest => "grey"@,
        ElementDurability::Low => "blue"@,
        ElementDurability::Medium => "green"@,
        ElementDurability::High => "yellow"@,
        ElementDurability::Highest => "red"@,
        ElementDurability::Indestructible => "purple"@,
    }
}

/// The name of a shape in asset paths.
pub open spec fn shape_name_of(element_shape: ElementShape) -> Seq<char> {
    match element_shape {
        ElementShape::Square => "square"@,
        ElementShape::Rectangle => "rectangle"@,
        ElementShape::Diamond => "diamond"@,
        ElementShape::Pentagon => "polygon"@,
    }
}

/// Path of the image of a block: `element_<colour>_<shape>.png`.
pub open spec fn element_asset_path(
    element_durability: ElementDurability,
    element_shape: ElementShape,
) -> Seq<char> {
    "element_"@ + durability_color(element_durability) + "_"@ + shape_name_of(element_shape)
        + ".png"@
}

/// The body that a block is spawned with.
pub open spec fn element_body(
    element_durability: ElementDurability,
    element_shape: ElementShape,
    element_position: Vec2,
) -> Body {
    Body {
        sprite: Some(Sprite::of(Image::Element(element_durability, element_shape))),
        transform: Transform::at(element_position),
        add_collider: Some(
            AddCollider { collider_scale: 100, collider_type: collider_type_of(element_shape) },
        ),
        collider: None,
        rigid_body: RigidBody::Static,
    }
}

/// The world `world` with one more block, which got the next identifier.
pub open spec fn with_element(
    world: WorldView,
    element_durability: ElementDurability,
    element_shape: ElementShape,
    element_position: Vec2,
) -> WorldView {
    let body = element_body(element_durability, element_shape, element_position);
    if element_durability == ElementDurability::Indestructible {
        WorldView {
            indestructible_elements: world.indestructible_elements.push(
                Entity { id: world.next_id, marker: IndestructibleElement, body },
            ),
            next_id: (world.next_id + 1) as EntityId,
            ..world
        }
    } else {
        WorldView {
            destructible_elements: world.destructible_elements.push(
                Entity { id: world.next_id, marker: DestructibleElement { element_durability }, body },
            ),
            next_id: (world.next_id + 1) as EntityId,
            ..world
        }
    }
}

/// The world `world` with the blocks of `layout` spawned in order.
pub open spec fn with_layout(world: WorldView, layout: Seq<Placement>) -> WorldView
    decreases layout.len(),
{
    if layout.len() == 0 {
        world
    } else {
        let last = layout.last();
        with_element(
            with_layout(world, layout.drop_last()),
            last.durability,
            last.shape,
            last.position,
        )
    }
}

/// Spawning a layout and then one more block is spawning the longer layout.
pub proof fn lemma_layout_push(world: WorldView, layout: Seq<Placement>, placement: Placement)
    ensures
        with_layout(world, layout.push(placement)) == with_element(
            with_layout(world, layout),
            placement.durability,
            placement.shape,
            placement.position,
        ),
{
    assert(layout.push(placement).drop_last() =~= layout);
}

/// Spawning two layouts one after the other is spawning their concatenation.
pub proof fn lemma_layout_concat(world: WorldView, first: Seq<Placement>, second: Seq<Placement>)
    ensures
        with_layout(world, first + second) == with_layout(with_layout(world, first), second),
    decreases second.len(),
{
    if second.len() > 0 {
        assert((first + second).drop_last() =~= first + second.drop_last());
        lemma_layout_concat(world, first, second.drop_last());
    }
}

/// A layout takes one identifier per block and leaves all but the blocks as
/// they were.
pub proof fn lemma_layout_frame(world: WorldView, layout: Seq<Placement>)
    ensures
        world.has_room(layout.len() as int) ==> with_layout(world, layout).next_id
            == world.next_id + layout.len(),
        with_layout(world, layout).player == world.player,
        with_layout(world, layout).paddle == world.paddle,
        with_layout(world, layout).ball == world.ball,
        with_layout(world, layout).bottom_collider == world.bottom_collider,
        with_layout(world, layout).permanent_elements == world.permanent_elements,
        with_layout(world, layout).selector_blocks == world.selector_blocks,
        with_layout(world, layout).selector_outlines == world.selector_outlines,
        with_layout(world, layout).destructible_elements.len()
            + with_layout(world, layout).indestructible_elements.len()
            == world.destructible_elements.len() + world.indestructible_elements.len()
            + layout.len(),
    decreases layout.len(),
{
    if layout.len() > 0 {
        lemma_layout_frame(world, layout.drop_last());
    }
}

/// The kind of collider that a shape is given.
pub fn get_collider_type(element_shape: &ElementShape) -> (collider_type: ColliderType)
    ensures
        collider_type == collider_type_of(*element_shape),
{
    match element_shape {
        ElementShape::Square => ColliderType::Rectangle,
        ElementShape::Diamond => ColliderType::Diamond,
        ElementShape::Rectangle => ColliderType::Rectangle,
        ElementShape::Pentagon => ColliderType::RegularPolygon,
    }
}

/// The colour that shows a durability, as it is written in asset paths.
pub fn color_name(element_durability: &ElementDurability) -> (name: &'static str)
    ensures
        name@ == durability_color(*element_durability),
{
    match element_durability {
        ElementDurability::Lowest => "grey",
        ElementDurability::Low => "blue",
        ElementDurability::Medium => "green",
        ElementDurability::High => "yellow",
        ElementDurability::Highest => "red",
        ElementDurability::Indestructible => "purple",
    }
}

/// The name of a shape, as it is written in asset paths.
pub fn shape_name(element_shape: &ElementShape) -> (name: &'static str)
    ensures
        name@ == shape_name_of(*element_shape),
{
    match element_shape {
        ElementShape::Square => "square",
        ElementShape::Diamond => "diamond",
        ElementShape::Rectangle => "rectangle",
        ElementShape::Pentagon => "polygon",
    }
}

/// Path of the image of a block: `element_<colour>_<shape>.png`.
pub fn assemble_asset_path(
    element_durability: &ElementDurability,
    element_shape: &ElementShape,
) -> (asset_path: String)
    ensures
        asset_path@ == element_asset_path(*element_durability, *element_shape),
{
    let mut asset_path = String::from_str("element_");
    asset_path.append(color_name(element_durability));
    asset_path.append("_");
    asset_path.append(shape_name(element_shape));
    asset_path.append(".png");
    asset_path
}

/// What the kind of an element decides: the asset that shows it, the kind
/// of collider it gets, and whether it can be destroyed at all.
pub fn classify(element_durability: &ElementDurability, element_shape: &ElementShape) -> (class: (
    String,
    ColliderType,
    bool,
))
    ensures
        class.0@ == element_asset_path(*element_durability, *element_shape),
        class.1 == collider_type_of(*element_shape),
        class.2 == (*element_durability != ElementDurability::Indestructible),
{
    (
        assemble_asset_path(element_durability, element_shape),
        get_collider_type(element_shape),
        element_durability.is_destructible(),
    )
}

/// Spawns one block: indestructible where the durability says so,
/// destructible otherwise.
pub fn spawn_element(
    element_durability: ElementDurability,
    element_shape: ElementShape,
    element_position: Vec2,
    world: &mut World,
)
    requires
        old(world)@.wf(),
        old(world)@.has_room(1),
    ensures
        final(world)@.wf(),
        final(world)@ == with_element(
            old(world)@,
            element_durability,
            element_shape,
            element_position,
        ),
{
    let collider_type = get_collider_type(&element_shape);
    let sprite = Sprite::from_image(Image::Element(element_durability, element_shape));
    let transform = Transform::from_xy(element_position.x, element_position.y);
    let add_collider = AddCollider { collider_scale: 100, collider_type };
    let ghost before = world@;

    if !element_durability.is_destructible() {
        let bundle = IndestructibleElementBundle {
            marker: IndestructibleElement,
            screen_marker: OnLevelsScreen,
            sprite,
            transform,
            add_collider,
            rigid_body: RigidBody::Static,
        };
        let body = Body {
            sprite: Some(bundle.sprite),
            transform: bundle.transform,
            add_collider: Some(bundle.add_collider),
            collider: None,
            rigid_body: bundle.rigid_body,
        };
        spawn(&mut world.indestructible_elements, &mut world.next_id, bundle.marker, body);
        proof {
            assert forall|id: EntityId| #[trigger] world@.holders(id) <= 1 by {
                assert(before.holders(id) <= 1);
                lemma_unused_id_is_free(before, before.next_id);
                lemma_push_holds(
                    before.indestructible_elements,
                    world@.indestructible_elements.last(),
                    id,
                );
            }
        }
    } else {
        let bundle = DestructibleElementBundle {
            marker: DestructibleElement { element_durability },
            screen_marker: OnLevelsScreen,
            sprite,
            transform,
            add_collider,
            rigid_body: RigidBody::Static,
        };
        let body = Body {
            sprite: Some(bundle.sprite),
            transform: bundle.transform,
            add_collider: Some(bundle.add_collider),
            collider: None,
            rigid_body: bundle.rigid_body,
        };
        spawn(&mut world.destructible_elements, &mut world.next_id, bundle.marker, body);
        proof {
            assert forall|id: EntityId| #[trigger] world@.holders(id) <= 1 by {
                assert(before.holders(id) <= 1);
                lemma_unused_id_is_free(before, before.next_id);
                lemma_push_holds(
                    before.destructible_elements,
                    world@.destructible_elements.last(),
                    id,
                );
            }
        }
    }
}

/// The durability at position `rank` of the order, the last destructible
/// one for every higher rank.
pub open spec fn durability_of_rank(rank: int) -> ElementDurability {
    if rank <= 0 {
        ElementDurability::Lowest
    } else if rank == 1 {
        ElementDurability::Low
    } else if rank == 2 {
        ElementDurability::Medium
    } else if rank == 3 {
        ElementDurability::High
    } else {
        ElementDurability::Highest
    }
}

/// Whether a layout holds destructible blocks only.
pub open spec fn layout_destructible(layout: Seq<Placement>) -> bool {
    forall|i: int|
        0 <= i < layout.len() ==> (#[trigger] layout[i]).durability
            != ElementDurability::Indestructible
}

/// The entity that the block `placement` becomes under identifier `id`.
pub open spec fn destructible_entity(id: EntityId, placement: Placement) -> Entity<
    DestructibleElement,
> {
    Entity {
        id,
        marker: DestructibleElement { element_durability: placement.durability },
        body: element_body(placement.durability, placement.shape, placement.position),
    }
}

/// The entities that the blocks of `layout` become, the first of them under
/// the identifier `first_id`.
pub open spec fn entities_of(first_id: EntityId, layout: Seq<Placement>) -> Seq<
    Entity<DestructibleElement>,
> {
    Seq::new(
        layout.len(),
        |i: int| destructible_entity((first_id + i) as EntityId, layout[i]),
    )
}

/// A layout of destructible blocks appends one entity per block, in order
/// and with consecutive identifiers, and leaves the indestructible blocks
/// as they were.
pub proof fn lemma_layout_destructible(world: WorldView, layout: Seq<Placement>)
    requires
        layout_destructible(layout),
        world.has_room(layout.len() as int),
    ensures
        with_layout(world, layout).destructible_elements == world.destructible_elements
            + entities_of(world.next_id, layout),
        with_layout(world, layout).indestructible_elements == world.indestructible_elements,
    decreases layout.len(),
{
    if layout.len() > 0 {
        let front = layout.drop_last();
        lemma_layout_destructible(world, front);
        lemma_layout_frame(world, front);
    }
}

/// Spawns the blocks of a layout, in order.
pub fn spawn_layout(layout: &Vec<Placement>, world: &mut World)
    requires
        old(world)@.wf(),
        old(world)@.has_room(layout@.len() as int),
    ensures
        final(world)@.wf(),
        final(world)@ == with_layout(old(world)@, layout@),
        final(world)@.next_id == old(world)@.next_id + layout@.len(),
{
    let ghost start = world@;
    let mut index: usize = 0;
    while index < layout.len()
        invariant
            index <= layout.len(),
            start.has_room(layout@.len() as int),
            world@.wf(),
            world@ == with_layout(start, layout@.take(index as int)),
            world@.next_id == start.next_id + index,
        decreases layout.len() - index,
    {
        let placement = layout[index];
        proof {
            lemma_layout_push(start, layout@.take(index as int), placement);
            assert(layout@.take(index as int).push(placement) =~= layout@.take(index as int + 1));
        }
        spawn_element(placement.durability, placement.shape, placement.position, world);
        index += 1;
    }
    proof {
        assert(layout@.take(index as int) =~= layout@);
    }
}

/// A column of five squares above `(x_coordinate, y_position_bottom_block)`,
/// `vertical_offset` apart, from the lowest durability at the bottom to the
/// highest at the top.
pub open spec fn square_block_column(
    x_coordinate: i32,
    y_position_bottom_block: i32,
    vertical_offset: i32,
) -> Seq<Placement> {
    Seq::new(
        5,
        |i: int|
            Placement {
                durability: durability_of_rank(i),
                shape: ElementShape::Square,
                position: Vec2 {
                    x: x_coordinate,
                    y: (y_position_bottom_block + i * vertical_offset) as i32,
                },
            },
    )
}

/// A column is five squares at one abscissa; their durabilities run from
/// lowest to highest, and with a positive offset each stands strictly
/// above the one before it.
pub proof fn lemma_column_shape(x_coordinate: i32, y_position_bottom_block: i32, vertical_offset: i32)
    requires
        fits(y_position_bottom_block + 4 * vertical_offset),
    ensures
        ({
            let column = square_block_column(
                x_coordinate,
                y_position_bottom_block,
                vertical_offset,
            );
            &&& column.len() == 5
            &&& column[0].durability == ElementDurability::Lowest
            &&& column[1].durability == ElementDurability::Low
            &&& column[2].durability == ElementDurability::Medium
            &&& column[3].durability == ElementDurability::High
            &&& column[4].durability == ElementDurability::Highest
            &&& layout_destructible(column)
            &&& forall|i: int|
                0 <= i < 5 ==> (#[trigger] column[i]).shape == ElementShape::Square && column[i].position.x
                    == x_coordinate && column[i].position.y == y_position_bottom_block + i
                    * vertical_offset
            &&& vertical_offset > 0 ==> forall|i: int, j: int|
                0 <= i < j < 5 ==> (#[trigger] column[i]).position.y < (#[trigger] column[j]).position.y
        }),
{
}

/// Lays out a column of five squares, the lowest at
/// `(x_coordinate, y_position_bottom_block)`, each `vertical_offset` above
/// the one before it and one step more durable.
pub fn square_block_column_layout(
    x_coordinate: i32,
    y_position_bottom_block: i32,
    vertical_offset: i32,
) -> (layout: Vec<Placement>)
    requires
        fits(y_position_bottom_block + 4 * vertical_offset),
    ensures
        layout@ == square_block_column(x_coordinate, y_position_bottom_block, vertical_offset),
{
    let mut layout: Vec<Placement> = Vec::new();
    let mut y = y_position_bottom_block;
    layout.push(
        Placement {
            durability: ElementDurability::Lowest,
            shape: ElementShape::Square,
            position: Vec2::new(x_coordinate, y),
        },
    );
    y = y + vertical_offset;
    layout.push(
        Placement {
            durability: ElementDurability::Low,
            shape: ElementShape::Square,
            position: Vec2::new(x_coordinate, y),
        },
    );
    y = y + vertical_offset;
    layout.push(
        Placement {
            durability: ElementDurability::Medium,
            shape: ElementShape::Square,
            position: Vec2::new(x_coordinate, y),
        },
    );
    y = y + vertical_offset;
    layout.push(
        Placement {
            durability: ElementDurability::High,
            shape: ElementShape::Square,
            position: Vec2::new(x_coordinate, y),
        },
    );
    y = y + vertical_offset;
    layout.push(
        Placement {
            durability: ElementDurability::Highest,
            shape: ElementShape::Square,
            position: Vec2::new(x_coordinate, y),
        },
    );
    proof {
        let column = square_block_column(x_coordinate, y_position_bottom_block, vertical_offset);
        assert(layout@[0] == column[0]);
        assert(layout@[1] == column[1]);
        assert(layout@[2] == column[2]);
        assert(layout@[3] == column[3]);
        assert(layout@[4] == column[4]);
        assert(layout@ =~= column);
    }
    layout
}

/// Spawns a column of five squares, the lowest at
/// `(x_coordinate, y_position_bottom_block)`, each `vertical_offset` above
/// the one before it and one step more durable.
pub fn spawn_square_block_column(
    x_coordinate: i32,
    y_position_bottom_block: i32,
    vertical_offset: i32,
    world: &mut World,
)
    requires
        old(world)@.wf(),
        old(world)@.has_room(5),
        fits(y_position_bottom_block + 4 * vertical_offset),
    ensures
        final(world)@.wf(),
        final(world)@ == with_layout(
            old(world)@,
            square_block_column(x_coordinate, y_position_bottom_block, vertical_offset),
        ),
        final(world)@.destructible_elements == old(world)@.destructible_elements + entities_of(
            old(world)@.next_id,
            square_block_column(x_coordinate, y_position_bottom_block, vertical_offset),
        ),
        final(world)@.next_id == old(world)@.next_id + 5,
{
    let layout = square_block_column_layout(x_coordinate, y_position_bottom_block, vertical_offset);
    proof {
        lemma_layout_destructible(world@, layout@);
    }
    spawn_layout(&layout, world);
}

/// A diamond at `(x, y)`.
pub open spec fn diamond_at(durability: ElementDurability, x: int, y: int) -> Placement {
    Placement { durability, shape: ElementShape::Diamond, position: Vec2 { x: x as i32, y: y as i32 } }
}

/// Nine diamonds in the shape of a cross that spans the box with lower left
/// corner `lower_left_pos` and dimensions `cross_dimensions`: the two bottom
/// corners, the two points a quarter of the way in, the centre, the two
/// points three quarters of the way up, and the two top corners.  The
/// durability rises with the height.
pub open spec fn diamond_cross(lower_left_pos: Vec2, cross_dimensions: Vec2) -> Seq<Placement> {
    let x = lower_left_pos.x as int;
    let y = lower_left_pos.y as int;
    let width = cross_dimensions.x as int;
    let height = cross_dimensions.y as int;
    seq![
        diamond_at(ElementDurability::Lowest, x, y),
        diamond_at(ElementDurability::Lowest, x + width, y),
        diamond_at(
            ElementDurability::Low,
            x + fraction_of(width, 1, 4),
            y + fraction_of(height, 1, 4),
        ),
        diamond_at(
            ElementDurability::Low,
            x + fraction_of(width, 3, 4),
            y + fraction_of(height, 1, 4),
        ),
        diamond_at(
            ElementDurability::Medium,
            x + fraction_of(width, 1, 2),
            y + fraction_of(height, 1, 2),
        ),
        diamond_at(
            ElementDurability::High,
            x + fraction_of(width, 1, 4),
            y + fraction_of(height, 3, 4),
        ),
        diamond_at(
            ElementDurability::High,
            x + fraction_of(width, 3, 4),
            y + fraction_of(height, 3, 4),
        ),
        diamond_at(ElementDurability::Highest, x, y + height),
        diamond_at(ElementDurability::Highest, x + width, y + height),
    ]
}

/// In a cross the two blocks of lowest durability stand at the bottom
/// corners of the box, the two of highest durability at its top corners, and
/// the only block of medium durability at its centre, rounded down to the
/// grid.
pub proof fn lemma_cross_shape(lower_left_pos: Vec2, cross_dimensions: Vec2)
    requires
        fits(lower_left_pos.x + cross_dimensions.x),
        fits(lower_left_pos.y + cross_dimensions.y),
    ensures
        ({
            let cross = diamond_cross(lower_left_pos, cross_dimensions);
            let x = lower_left_pos.x as int;
            let y = lower_left_pos.y as int;
            let width = cross_dimensions.x as int;
            let height = cross_dimensions.y as int;
            &&& cross.len() == 9
            &&& layout_destructible(cross)
            &&& forall|i: int| 0 <= i < 9 ==> (#[trigger] cross[i]).shape == ElementShape::Diamond
            &&& forall|i: int|
                0 <= i < 9 ==> ((#[trigger] cross[i]).durability == ElementDurability::Lowest <==> i
                    < 2)
            &&& forall|i: int|
                0 <= i < 9 ==> ((#[trigger] cross[i]).durability == ElementDurability::Highest <==> i
                    >= 7)
            &&& forall|i: int|
                0 <= i < 9 ==> ((#[trigger] cross[i]).durability == ElementDurability::Medium <==> i
                    == 4)
            &&& cross[0].position == lower_left_pos
            &&& cross[1].position.x == x + width && cross[1].position.y == y
            &&& cross[7].position.x == x && cross[7].position.y == y + height
            &&& cross[8].position.x == x + width && cross[8].position.y == y + height
            &&& 0 <= (2 * x + width) - 2 * cross[4].position.x <= 1
            &&& 0 <= (2 * y + height) - 2 * cross[4].position.y <= 1
            &&& width % 2 == 0 ==> 2 * cross[4].position.x == 2 * x + width
            &&& height % 2 == 0 ==> 2 * cross[4].position.y == 2 * y + height
        }),
{
}

/// A diamond of the given durability at `(x, y)`.
fn diamond(durability: ElementDurability, x: i32, y: i32) -> (placement: Placement)
    ensures
        placement == diamond_at(durability, x as int, y as int),
{
    Placement { durability, shape: ElementShape::Diamond, position: Vec2::new(x, y) }
}

/// Lays out nine diamonds in the shape of a cross that spans the box with
/// the given lower left corner and dimensions.
pub fn diamond_cross_layout(lower_left_pos: Vec2, cross_dimensions: Vec2) -> (layout: Vec<
    Placement,
>)
    requires
        fits(lower_left_pos.x + cross_dimensions.x),
        fits(lower_left_pos.y + cross_dimensions.y),
    ensures
        layout@ == diamond_cross(lower_left_pos, cross_dimensions),
{
    let left = lower_left_pos.x;
    let bottom = lower_left_pos.y;
    let right = left + cross_dimensions.x;
    let top = bottom + cross_dimensions.y;
    let x_quarter = left + fraction(cross_dimensions.x, 1, 4);
    let x_half = left + fraction(cross_dimensions.x, 1, 2);
    let x_three_quarters = left + fraction(cross_dimensions.x, 3, 4);
    let y_quarter = bottom + fraction(cross_dimensions.y, 1, 4);
    let y_half = bottom + fraction(cross_dimensions.y, 1, 2);
    let y_three_quarters = bottom + fraction(cross_dimensions.y, 3, 4);

    let mut layout: Vec<Placement> = Vec::new();
    // bottom row of the cross
    layout.push(diamond(ElementDurability::Lowest, left, bottom));
    layout.push(diamond(ElementDurability::Lowest, right, bottom));
    // row below the centre
    layout.push(diamond(ElementDurability::Low, x_quarter, y_quarter));
    layout.push(diamond(ElementDurability::Low, x_three_quarters, y_quarter));
    // centre of the cross
    layout.push(diamond(ElementDurability::Medium, x_half, y_half));
    // row above the centre
    layout.push(diamond(ElementDurability::High, x_quarter, y_three_quarters));
    layout.push(diamond(ElementDurability::High, x_three_quarters, y_three_quarters));
    // top row of the cross
    layout.push(diamond(ElementDurability::Highest, left, top));
    layout.push(diamond(ElementDurability::Highest, right, top));
    layout
}

/// Spawns nine diamonds in the shape of a cross that spans the box with
/// the given lower left corner and dimensions.
pub fn spawn_diamond_cross(lower_left_pos: Vec2, cross_dimensions: Vec2, world: &mut World)
    requires
        old(world)@.wf(),
        old(world)@.has_room(9),
        fits(lower_left_pos.x + cross_dimensions.x),
        fits(lower_left_pos.y + cross_dimensions.y),
    ensures
        final(world)@.wf(),
        final(world)@ == with_layout(old(world)@, diamond_cross(lower_left_pos, cross_dimensions)),
        final(world)@.destructible_elements == old(world)@.destructible_elements + entities_of(
            old(world)@.next_id,
            diamond_cross(lower_left_pos, cross_dimensions),
        ),
        final(world)@.next_id == old(world)@.next_id + 9,
{
    let layout = diamond_cross_layout(lower_left_pos, cross_dimensions);
    proof {
        lemma_layout_destructible(world@, layout@);
    }
    spawn_layout(&layout, world);
}

/// Number of blocks in row `row` of a pyramid of `rows_total` rows: one
/// more per row up to the middle row, one less per row after it.
pub open spec fn blocks_in_row(row: int, rows_total: int) -> int {
    if row + 1 <= rows_total - row {
        row + 1
    } else {
        rows_total - row
    }
}

/// Abscissa of block `index` of row `row`: the row is centred on zero and
/// its blocks stand `block_delta` apart.
pub open spec fn pyramid_x(row: int, index: int, rows_total: int, block_delta: int) -> int {
    fraction_of(-(blocks_in_row(row, rows_total) - 1) * block_delta, 1, 2) + index * block_delta
}

/// Ordinate of row `row`: each row stands half of `block_delta` above the
/// one before it.
pub open spec fn pyramid_y(row: int, bottom_row_y: int, block_delta: int) -> int {
    bottom_row_y + fraction_of(row * block_delta, 1, 2)
}

/// Row `row` of a pyramid, from the left.  The durability rises every
/// second row and stays at the highest once it is reached.
pub open spec fn pyramid_row(row: int, bottom_row_y: int, block_delta: int, rows_total: int) -> Seq<
    Placement,
> {
    Seq::new(
        blocks_in_row(row, rows_total) as nat,
        |index: int|
            diamond_at(
                durability_of_rank(row / 2),
                pyramid_x(row, index, rows_total, block_delta),
                pyramid_y(row, bottom_row_y, block_delta),
            ),
    )
}

/// The first `count` rows of a pyramid, from the bottom.
pub open spec fn pyramid_rows(count: int, bottom_row_y: int, block_delta: int, rows_total: int) -> Seq<
    Placement,
>
    decreases count,
{
    if count <= 0 {
        Seq::empty()
    } else {
        pyramid_rows(count - 1, bottom_row_y, block_delta, rows_total) + pyramid_row(
            count - 1,
            bottom_row_y,
            block_delta,
            rows_total,
        )
    }
}

/// Diamonds in `rows_total` rows that widen by one block per row up to the
/// middle row and narrow again above it.
pub open spec fn diamond_pyramid(bottom_row_y: i32, block_delta: i32, rows_total: u16) -> Seq<
    Placement,
> {
    pyramid_rows(rows_total as int, bottom_row_y as int, block_delta as int, rows_total as int)
}

/// Whether every block of the pyramid has coordinates that can be stored.
pub open spec fn pyramid_fits(bottom_row_y: i32, block_delta: i32, rows_total: u16) -> bool {
    forall|row: int, index: int|
        0 <= row < rows_total && 0 <= index < blocks_in_row(row, rows_total as int) ==> fits(
            #[trigger] pyramid_x(row, index, rows_total as int, block_delta as int),
        ) && fits(pyramid_y(row, bottom_row_y as int, block_delta as int))
}

/// Every block of a pyramid can be destroyed.
pub proof fn lemma_pyramid_destructible(
    count: int,
    bottom_row_y: int,
    block_delta: int,
    rows_total: int,
)
    ensures
        layout_destructible(pyramid_rows(count, bottom_row_y, block_delta, rows_total)),
    decreases count,
{
    if count > 0 {
        lemma_pyramid_destructible(count - 1, bottom_row_y, block_delta, rows_total);
    }
}

/// The durability of the rows `2 * group` and `2 * group + 1` of a pyramid.
pub fn durability_for_group(group: u16) -> (durability: ElementDurability)
    ensures
        durability == durability_of_rank(group as int),
{
    match group {
        0 => ElementDurability::Lowest,
        1 => ElementDurability::Low,
        2 => ElementDurability::Medium,
        3 => ElementDurability::High,
        _ => ElementDurability::Highest,
    }
}

/// Lays out a pyramid of diamonds: `rows_total` rows, an odd number, the
/// lowest at height `bottom_row_y`, the blocks of a row `block_delta` apart
/// and each row half of that above the one before it.
pub fn diamond_pyramid_layout(bottom_row_y: i32, block_delta: i32, rows_total: u16) -> (layout: Vec<
    Placement,
>)
    requires
        rows_total % 2 == 1,
        pyramid_fits(bottom_row_y, block_delta, rows_total),
    ensures
        layout@ == diamond_pyramid(bottom_row_y, block_delta, rows_total),
{
    let mut layout: Vec<Placement> = Vec::new();
    let mut row: u16 = 0;
    // one block more per row up to the middle row, one less per row after it
    while row < rows_total
        invariant
            row <= rows_total,
            pyramid_fits(bottom_row_y, block_delta, rows_total),
            layout@ == pyramid_rows(
                row as int,
                bottom_row_y as int,
                block_delta as int,
                rows_total as int,
            ),
        decreases rows_total - row,
    {
        let blocks: u16 = if row + 1 <= rows_total - row {
            row + 1
        } else {
            rows_total - row
        };
        assert(-0x8000_0000_0000 <= (blocks as int - 1) * (block_delta as int) <= 0x8000_0000_0000)
            by (nonlinear_arith)
            requires
                0 <= blocks as int - 1 <= 0xffff,
                -0x8000_0000 <= block_delta <= 0x7fff_ffff,
        ;
        assert(-0x8000_0000_0000 <= (row as int) * (block_delta as int) <= 0x8000_0000_0000)
            by (nonlinear_arith)
            requires
                0 <= row <= 0xffff,
                -0x8000_0000 <= block_delta <= 0x7fff_ffff,
        ;
        let span: i64 = (blocks as i64 - 1) * (block_delta as i64);
        let x_offset: i64 = half(-span);
        let rise: i64 = half((row as i64) * (block_delta as i64));
        let group: u16 = row / 2;  // the durability rises every 2 rows
        let ghost below = layout@;
        let ghost this_row = pyramid_row(
            row as int,
            bottom_row_y as int,
            block_delta as int,
            rows_total as int,
        );
        proof {
            assert(-(blocks as int - 1) * (block_delta as int) == -((blocks as int - 1) * (
            block_delta as int))) by (nonlinear_arith);
        }

        let mut i: u16 = 0;
        while i < blocks
            invariant
                i <= blocks,
                row < rows_total,
                blocks == blocks_in_row(row as int, rows_total as int),
                pyramid_fits(bottom_row_y, block_delta, rows_total),
                x_offset == fraction_of(
                    -(blocks_in_row(row as int, rows_total as int) - 1) * (block_delta as int),
                    1,
                    2,
                ),
                rise == fraction_of((row as int) * (block_delta as int), 1, 2),
                group == row / 2,
                this_row == pyramid_row(
                    row as int,
                    bottom_row_y as int,
                    block_delta as int,
                    rows_total as int,
                ),
                layout@ == below + this_row.take(i as int),
            decreases blocks - i,
        {
            proof {
                assert(fits(pyramid_x(row as int, i as int, rows_total as int, block_delta as int)));
            }
            assert(-0x8000_0000_0000 <= (i as int) * (block_delta as int) <= 0x8000_0000_0000)
                by (nonlinear_arith)
                requires
                    0 <= i <= 0xffff,
                    -0x8000_0000 <= block_delta <= 0x7fff_ffff,
            ;
            let step: i64 = (i as i64) * (block_delta as i64);
            let x: i64 = x_offset + step;
            let y: i64 = bottom_row_y as i64 + rise;
            layout.push(diamond(durability_for_group(group), x as i32, y as i32));
            i += 1;
        }
        row += 1;
    }
    layout
}

/// Spawns a pyramid of diamonds: `rows_total` rows, an odd number, the
/// lowest at height `bottom_row_y`, the blocks of a row `block_delta` apart
/// and each row half of that above the one before it.
pub fn spawn_diamond_pyramid(bottom_row_y: i32, block_delta: i32, rows_total: u16, world: &mut World)
    requires
        old(world)@.wf(),
        rows_total % 2 == 1,
        pyramid_fits(bottom_row_y, block_delta, rows_total),
        old(world)@.has_room(diamond_pyramid(bottom_row_y, block_delta, rows_total).len() as int),
    ensures
        final(world)@.wf(),
        final(world)@ == with_layout(
            old(world)@,
            diamond_pyramid(bottom_row_y, block_delta, rows_total),
        ),
        final(world)@.destructible_elements == old(world)@.destructible_elements + entities_of(
            old(world)@.next_id,
            diamond_pyramid(bottom_row_y, block_delta, rows_total),
        ),
        final(world)@.next_id == old(world)@.next_id + diamond_pyramid(
            bottom_row_y,
            block_delta,
            rows_total,
        ).len(),
{
    let layout = diamond_pyramid_layout(bottom_row_y, block_delta, rows_total);
    proof {
        lemma_pyramid_destructible(
            rows_total as int,
            bottom_row_y as int,
            block_delta as int,
            rows_total as int,
        );
        lemma_layout_destructible(world@, layout@);
    }
    spawn_layout(&layout, world);
}

} // verus!
