//! Colliders are built from sprites, once the image of the sprite is there.
use vstd::prelude::*;

use crate::ColliderType;
use crate::collisions::first_index_where;
use crate::collisions::lemma_first_index_found;
use crate::collisions::lemma_first_index_missing;
use crate::components::AddCollider;
use crate::components::Body;
use crate::components::Collider;
use crate::components::Entity;
use crate::components::EntityId;
use crate::components::Sprite;
use crate::geometry::fraction_of;
use crate::geometry::fraction_wide;
use crate::geometry::UNIT;
use crate::geometry::Vec2;
use crate::sprites::Image;
use crate::world::lemma_same_ids_hold;
use crate::world::World;
use crate::world::WorldView;

verus! {

/// Number of sides of the only regular polygon in the game.
pub const POLYGON_SIDES: u32 = 5;

/// An image that the renderer has loaded, with its size.
#[derive(Clone, Copy, Debug, PartialEq, Eq, Structural)]
pub struct LoadedImage {
    pub image: Image,
    pub size: Vec2,
}

/// The test whether a loaded image is `image`.
pub open spec fn image_is(image: Image) -> spec_fn(LoadedImage) -> bool {
    |loaded: LoadedImage| loaded.image == image
}

/// The size of `image`, if it is among the loaded ones.
pub open spec fn loaded_size(images: Seq<LoadedImage>, image: Image) -> Option<Vec2> {
    match first_index_where(images, image_is(image)) {
        Some(index) => Some(images[index].size),
        None => None,
    }
}

/// Looks the size of an image up among the loaded ones.
pub fn image_size(images: &Vec<LoadedImage>, image: Image) -> (size: Option<Vec2>)
    ensures
        size == loaded_size(images@, image),
{
    let ghost wanted = image_is(image);
    let mut index: usize = 0;
    while index < images.len()
        invariant
            index <= images.len(),
            wanted == image_is(image),
            forall|j: int| 0 <= j < index ==> !wanted(#[trigger] images@[j]),
        decreases images.len() - index,
    {
        if images[index].image == image {
            proof {
                lemma_first_index_found(images@, wanted, index as int);
            }
            return Some(images[index].size);
        }
        index += 1;
    }
    proof {
        lemma_first_index_missing(images@, wanted);
    }
    None
}

/// The size at which a sprite is drawn: its own, if it has one; else that
/// of its image, if it is known; else one unit each way.
pub open spec fn sprite_size(image_size: Option<Vec2>, sprite: Sprite) -> Vec2 {
    match sprite.custom_size {
        Some(custom_size) => custom_size,
        None => match image_size {
            Some(size) => size,
            None => Vec2 { x: UNIT, y: UNIT },
        },
    }
}

/// The size at which a sprite is drawn, given the size of its image if
/// that is known.
pub fn calculate_sprite_size(image_size: Option<Vec2>, sprite: &Sprite) -> (size: Vec2)
    ensures
        size == sprite_size(image_size, *sprite),
{
    if let Some(custom_size) = sprite.custom_size {
        custom_size
    } else if let Some(size) = image_size {
        size
    } else {
        Vec2::new(UNIT, UNIT)
    }
}

/// A length of the sprite, stretched by the scale of the request.
pub open spec fn scaled(length: int, collider_scale: int) -> int {
    fraction_of(length * collider_scale, 1, 100)
}

/// The collider that serves `request` on a sprite of size `size`:
/// a circle as wide as the sprite; a rectangle that covers the sprite; a
/// capsule along four fifths of the sprite's width; a pentagon within the
/// sprite's height; a rectangle with rounded corners; a diamond that
/// touches the middle of each side of the sprite.
pub open spec fn collider_of(request: AddCollider, size: Vec2) -> Option<Collider> {
    let width = scaled(size.x as int, request.collider_scale as int);
    let height = scaled(size.y as int, request.collider_scale as int);
    match request.collider_type {
        ColliderType::NoCollider => None,
        ColliderType::Circle => Some(Collider::Circle { radius: fraction_of(width, 1, 2) as i64 }),
        ColliderType::Rectangle => Some(
            Collider::Rectangle { width: width as i64, height: height as i64 },
        ),
        ColliderType::Capsule => Some(
            Collider::Capsule {
                radius: fraction_of(width, 1, 10) as i64,
                half_length: fraction_of(width, 4, 10) as i64,
            },
        ),
        ColliderType::RegularPolygon => Some(
            Collider::RegularPolygon {
                circumradius: fraction_of(height, 55, 100) as i64,
                sides: POLYGON_SIDES,
            },
        ),
        ColliderType::RoundedRectangle => Some(
            Collider::RoundRectangle {
                width: width as i64,
                height: height as i64,
                border_radius: UNIT as i64,
            },
        ),
        ColliderType::Diamond => Some(
            Collider::ConvexHull {
                half_width: fraction_of(width, 1, 2) as i64,
                half_height: fraction_of(height, 1, 2) as i64,
            },
        ),
    }
}

/// A sprite's length, stretched by a scale, leaves room for a fraction of
/// it to be computed.
proof fn lemma_scaled_bounds(length: i32, collider_scale: i32)
    ensures
        -0x4000_0000_0000_0000 <= (length as int) * (collider_scale as int)
            <= 0x4000_0000_0000_0000,
        -0x0100_0000_0000_0000 <= scaled(length as int, collider_scale as int)
            <= 0x0100_0000_0000_0000,
{
    assert(-0x4000_0000_0000_0000 <= (length as int) * (collider_scale as int)
        <= 0x4000_0000_0000_0000) by (nonlinear_arith)
        requires
            -0x8000_0000 <= length <= 0x7fff_ffff,
            -0x8000_0000 <= collider_scale <= 0x7fff_ffff,
    ;
}

fn scale_length(length: i32, collider_scale: i32) -> (stretched: i64)
    ensures
        stretched == scaled(length as int, collider_scale as int),
        -0x0100_0000_0000_0000 <= stretched <= 0x0100_0000_0000_0000,
{
    proof {
        lemma_scaled_bounds(length, collider_scale);
    }
    let product: i64 = (length as i64) * (collider_scale as i64);
    fraction_wide(product, 1, 100)
}

/// Builds the collider that a request asks for.
pub fn build_collider(request: &AddCollider, size: Vec2) -> (collider: Option<Collider>)
    ensures
        collider == collider_of(*request, size),
{
    let width = scale_length(size.x, request.collider_scale);
    let height = scale_length(size.y, request.collider_scale);
    match request.collider_type {
        ColliderType::NoCollider => None,
        ColliderType::Circle => Some(Collider::Circle { radius: fraction_wide(width, 1, 2) }),
        ColliderType::Rectangle => Some(Collider::Rectangle { width, height }),
        ColliderType::Capsule => Some(
            Collider::Capsule {
                radius: fraction_wide(width, 1, 10),
                half_length: fraction_wide(width, 4, 10),
            },
        ),
        ColliderType::RegularPolygon => Some(
            Collider::RegularPolygon {
                circumradius: fraction_wide(height, 55, 100),
                sides: POLYGON_SIDES,
            },
        ),
        ColliderType::RoundedRectangle => Some(
            Collider::RoundRectangle { width, height, border_radius: UNIT as i64 },
        ),
        ColliderType::Diamond => Some(
            Collider::ConvexHull {
                half_width: fraction_wide(width, 1, 2),
                half_height: fraction_wide(height, 1, 2),
            },
        ),
    }
}

/// The body `body` after its request for a collider was looked at: a body
/// whose image is loaded loses the request and gets the collider it asked
/// for; any other body stays as it is.
pub open spec fn served(body: Body, images: Seq<LoadedImage>) -> Body {
    match (body.sprite, body.add_collider) {
        (Some(sprite), Some(request)) => match loaded_size(images, sprite.image) {
            Some(size) => Body {
                add_collider: None,
                collider: match collider_of(request, sprite_size(Some(size), sprite)) {
                    Some(collider) => Some(collider),
                    None => body.collider,
                },
                ..body
            },
            None => body,
        },
        _ => body,
    }
}

/// Serves the request for a collider of one body.
pub fn serve_collider(body: Body, images: &Vec<LoadedImage>) -> (after: Body)
    ensures
        after == served(body, images@),
{
    if let Some(sprite) = body.sprite {
        if let Some(request) = body.add_collider {
            if let Some(size) = image_size(images, sprite.image) {
                let collider_size = calculate_sprite_size(Some(size), &sprite);
                let collider = match build_collider(&request, collider_size) {
                    Some(collider) => Some(collider),
                    None => body.collider,
                };
                return Body {
                    sprite: body.sprite,
                    transform: body.transform,
                    add_collider: None,
                    collider,
                    rigid_body: body.rigid_body,
                };
            }
        }
    }
    body
}

/// The entity `entity` with its request for a collider looked at.
pub open spec fn served_entity<M>(entity: Entity<M>, images: Seq<LoadedImage>) -> Entity<M> {
    Entity { id: entity.id, marker: entity.marker, body: served(entity.body, images) }
}

/// The entities of `list` with their requests for colliders looked at.
pub open spec fn all_served<M>(list: Seq<Entity<M>>, images: Seq<LoadedImage>) -> Seq<Entity<M>> {
    Seq::new(list.len(), |index: int| served_entity(list[index], images))
}

/// The one entity of a slot with its request for a collider looked at.
pub open spec fn served_slot<M>(slot: Option<Entity<M>>, images: Seq<LoadedImage>) -> Option<
    Entity<M>,
> {
    match slot {
        Some(entity) => Some(served_entity(entity, images)),
        None => None,
    }
}

/// Serves the requests for colliders of the entities of one kind.
pub fn add_colliders_in<M>(list: &mut Vec<Entity<M>>, images: &Vec<LoadedImage>)
    ensures
        final(list)@ == all_served(old(list)@, images@),
{
    let mut index: usize = 0;
    while index < list.len()
        invariant
            index <= list.len(),
            list@.len() == old(list)@.len(),
            forall|j: int|
                0 <= j < index ==> #[trigger] list@[j] == served_entity(old(list)@[j], images@),
            forall|j: int| index <= j < list@.len() ==> #[trigger] list@[j] == old(list)@[j],
        decreases list.len() - index,
    {
        let body = serve_collider(list[index].body, images);
        list[index].body = body;
        index += 1;
    }
}

/// Serves the request for a collider of the one entity of a slot.
pub fn add_collider_to<M>(slot: &mut Option<Entity<M>>, images: &Vec<LoadedImage>)
    ensures
        *final(slot) == served_slot(*old(slot), images@),
{
    match slot {
        Some(entity) => {
            let body = serve_collider(entity.body, images);
            entity.body = body;
        },
        None => {},
    }
}

/// The world `world` with every request for a collider looked at.
pub open spec fn with_colliders(world: WorldView, images: Seq<LoadedImage>) -> WorldView {
    WorldView {
        paddle: served_slot(world.paddle, images),
        ball: served_slot(world.ball, images),
        permanent_elements: all_served(world.permanent_elements, images),
        destructible_elements: all_served(world.destructible_elements, images),
        indestructible_elements: all_served(world.indestructible_elements, images),
        selector_blocks: all_served(world.selector_blocks, images),
        selector_outlines: all_served(world.selector_outlines, images),
        ..world
    }
}

/// Gives every entity whose image is loaded the collider it asked for.  A
/// request whose image is not loaded yet waits for a later step.
pub fn add_colliders(world: &mut World, images: &Vec<LoadedImage>)
    requires
        old(world)@.wf(),
    ensures
        final(world)@.wf(),
        final(world)@ == with_colliders(old(world)@, images@),
{
    let ghost before = world@;
    add_collider_to(&mut world.paddle, images);
    add_collider_to(&mut world.ball, images);
    add_colliders_in(&mut world.permanent_elements, images);
    add_colliders_in(&mut world.destructible_elements, images);
    add_colliders_in(&mut world.indestructible_elements, images);
    add_colliders_in(&mut world.selector_blocks, images);
    add_colliders_in(&mut world.selector_outlines, images);
    proof {
        let after = world@;
        assert forall|id: EntityId| #[trigger] after.holders(id) <= 1 by {
            assert(before.holders(id) <= 1);
            lemma_same_ids_hold(before.permanent_elements, after.permanent_elements, id);
            lemma_same_ids_hold(before.destructible_elements, after.destructible_elements, id);
            lemma_same_ids_hold(before.indestructible_elements, after.indestructible_elements, id);
            lemma_same_ids_hold(before.selector_blocks, after.selector_blocks, id);
            lemma_same_ids_hold(before.selector_outlines, after.selector_outlines, id);
        }
    }
}

} // verus!
