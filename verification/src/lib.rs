//! Headless core of a block-breaking arcade game.
//!
//! A ball is launched from a paddle against blocks laid out per level.  The
//! crate holds the rules of the game as verified functions on plain values:
//! the layouts of the levels, which block a ball of a given power destroys,
//! how the power follows the ball's speed, when a level counts as cleared,
//! which level that unlocks, and the frame-by-frame state machine that ties
//! these together.  Physics, rendering and input devices stay outside: each
//! frame they hand in contact pairs, the ball's position and speed and the
//! raw input, and read back what changed.
use vstd::prelude::*;

pub mod ball;
pub mod colliders;
pub mod collisions;
pub mod components;
pub mod events;
pub mod game;
pub mod geometry;
pub mod input;
pub mod level_elements;
pub mod levels;
pub mod selection;
pub mod sprites;
pub mod world;

verus! {

/// How a pending collider request is turned into a collision shape.
#[derive(Clone, Copy, Debug, PartialEq, Eq, Structural)]
pub enum ColliderType {
    /// The entity gets no collider.
    NoCollider,
    Circle,
    Rectangle,
    Capsule,
    RegularPolygon,
    RoundedRectangle,
    Diamond,
}

impl Default for ColliderType {
    fn default() -> (collider_type: ColliderType)
        ensures
            collider_type == ColliderType::NoCollider,
    {
        ColliderType::NoCollider
    }
}

/// The screen that the game shows.
#[derive(Clone, Copy, Debug, PartialEq, Eq, Hash, Structural)]
pub enum GameState {
    Selection,
    Levels,
}

impl Default for GameState {
    fn default() -> (state: GameState)
        ensures
            state == GameState::Selection,
    {
        GameState::Selection
    }
}

/// The change of screen that was asked for and is still to be made.
#[derive(Clone, Copy, Debug, PartialEq, Eq, Structural)]
pub enum NextState {
    Unchanged,
    Pending(GameState),
}

impl NextState {
    /// Asks for a change to `state`; the latest request wins.
    pub fn set(&mut self, state: GameState)
        ensures
            *final(self) == NextState::Pending(state),
    {
        *self = NextState::Pending(state);
    }
}

/// Destructive capability of the ball, derived from its speed.
#[derive(Clone, Copy, Debug, PartialEq, Eq, PartialOrd, Ord, Structural)]
pub enum PowerLevel {
    Lowest,
    Low,
    Medium,
    High,
    Highest,
}

impl PowerLevel {
    /// Position of the level in the order `Lowest < Low < Medium < High < Highest`.
    pub open spec fn rank(self) -> int {
        match self {
            PowerLevel::Lowest => 0,
            PowerLevel::Low => 1,
            PowerLevel::Medium => 2,
            PowerLevel::High => 3,
            PowerLevel::Highest => 4,
        }
    }
}

impl Default for PowerLevel {
    fn default() -> (level: PowerLevel)
        ensures
            level == PowerLevel::Lowest,
    {
        PowerLevel::Lowest
    }
}

} // verus!
