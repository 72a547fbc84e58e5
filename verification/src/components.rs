//! The data that entities of the game carry.
use vstd::prelude::*;

use crate::ColliderType;
use crate::PowerLevel;
use crate::geometry::Vec2;
use crate::levels::SelectedLevel;
use crate::sprites::Image;

verus! {

/// Stable identifier of an entity; contact pairs name entities by it.
pub type EntityId = u64;

/// Whether the physics moves the body.
#[derive(Clone, Copy, Debug, PartialEq, Eq, Structural)]
pub enum RigidBody {
    Static,
    Dynamic,
}

/// A tint; each channel is a percentage.
#[derive(Clone, Copy, Debug, PartialEq, Eq, Structural)]
pub struct Color {
    pub red: u8,
    pub green: u8,
    pub blue: u8,
}

/// What is drawn for an entity.
#[derive(Clone, Copy, Debug, PartialEq, Eq, Structural)]
pub struct Sprite {
    pub image: Image,
    /// Size to draw at, where it is not the size of the image.
    pub custom_size: Option<Vec2>,
    pub color: Color,
}

/// Placement of an entity: where it is, how it is turned and stretched.
#[derive(Clone, Copy, Debug, PartialEq, Eq, Structural)]
pub struct Transform {
    pub translation: Vec2,
    /// Counter-clockwise quarter turns about the entity's centre.
    pub quarter_turns: i8,
    /// Stretch along each axis, in hundredths.
    pub scale: Vec2,
}

/// A request for a collider, served once the entity's image is loaded.
#[derive(Clone, Copy, Debug, PartialEq, Eq, Structural)]
pub struct AddCollider {
    /// Size of the collider relative to the sprite, in hundredths.
    pub collider_scale: i32,
    pub collider_type: ColliderType,
}

/// A collision shape for the physics to build, centred on its entity.
#[derive(Clone, Copy, Debug, PartialEq, Eq, Structural)]
pub enum Collider {
    Circle { radius: i64 },
    Rectangle { width: i64, height: i64 },
    /// A capsule that lies along the abscissa, between the points
    /// `(-half_length, 0)` and `(half_length, 0)`.
    Capsule { radius: i64, half_length: i64 },
    RegularPolygon { circumradius: i64, sides: u32 },
    RoundRectangle { width: i64, height: i64, border_radius: i64 },
    /// The convex hull of the points `(0, half_height)`, `(half_width, 0)`,
    /// `(0, -half_height)` and `(-half_width, 0)`.
    ConvexHull { half_width: i64, half_height: i64 },
}

/// The components that every kind of entity can have.
#[derive(Clone, Copy, Debug, PartialEq, Eq, Structural)]
pub struct Body {
    pub sprite: Option<Sprite>,
    pub transform: Transform,
    pub add_collider: Option<AddCollider>,
    pub collider: Option<Collider>,
    pub rigid_body: RigidBody,
}

/// One entity: its identifier, the marker that says what it is, its body.
#[derive(Debug)]
pub struct Entity<M> {
    pub id: EntityId,
    pub marker: M,
    pub body: Body,
}

impl<M: Copy> Copy for Entity<M> {

}

impl<M: Copy> Clone for Entity<M> {
    fn clone(&self) -> (copy: Self)
        ensures
            copy == *self,
    {
        *self
    }
}

/// The player's progress.
#[derive(Clone, Copy, Debug, PartialEq, Eq, Structural)]
pub struct Player {
    pub highest_selectable_level: SelectedLevel,
}

/// Marks the paddle.
#[derive(Clone, Copy, Debug, PartialEq, Eq, Structural)]
pub struct PlayerPaddle;

/// Marks a border of the playing field.
#[derive(Clone, Copy, Debug, PartialEq, Eq, Structural)]
pub struct PermanentElement;

/// Marks the boundary below the paddle: a ball that touches it is lost.
#[derive(Clone, Copy, Debug, PartialEq, Eq, Structural)]
pub struct BottomCollider;

/// Marks the ball and holds its state.
#[derive(Clone, Copy, Debug, PartialEq, Eq, Structural)]
pub struct PlayerBall {
    /// Impulse that the ball receives when it is launched.
    pub initial_impulse: Vec2,
    pub power_level: PowerLevel,
    /// Whether the ball still rests on the paddle.
    pub in_hold: bool,
    /// Speed that the physics caps the ball at.
    pub max_linear_speed: i32,
}

impl Color {
    /// The tint that leaves an image as it is.
    pub open spec fn white() -> Color {
        Color { red: 100, green: 100, blue: 100 }
    }
}

impl Sprite {
    /// A sprite that shows `image` at its own size, untinted.
    pub open spec fn of(image: Image) -> Sprite {
        Sprite { image, custom_size: None, color: Color::white() }
    }

    /// A sprite that shows `image` at its own size, untinted.
    pub fn from_image(image: Image) -> (sprite: Sprite)
        ensures
            sprite == Sprite::of(image),
    {
        Sprite { image, custom_size: None, color: Color { red: 100, green: 100, blue: 100 } }
    }
}

impl Transform {
    /// The placement at `translation`, unturned and unstretched.
    pub open spec fn at(translation: Vec2) -> Transform {
        Transform { translation, quarter_turns: 0, scale: Vec2 { x: 100, y: 100 } }
    }

    /// The placement at `(x, y)`, unturned and unstretched.
    pub fn from_xy(x: i32, y: i32) -> (transform: Transform)
        ensures
            transform == Transform::at(Vec2 { x, y }),
    {
        Transform { translation: Vec2 { x, y }, quarter_turns: 0, scale: Vec2 { x: 100, y: 100 } }
    }
}

} // verus!
