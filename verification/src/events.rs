//! The messages that the systems of the game pass to each other.
//!
//! Each kind of message has a queue of its own.  Whoever writes appends; the
//! one system that reads a kind empties its queue when it runs.
use vstd::prelude::*;

use crate::geometry::Vec2;

verus! {

/// The primary button went down.
#[derive(Clone, Copy, Debug, PartialEq, Eq, Structural)]
pub struct LeftMousePressEvent;

/// The primary button came up.
#[derive(Clone, Copy, Debug, PartialEq, Eq, Structural)]
pub struct LeftMouseReleaseEvent;

/// The secondary button went down.
#[derive(Clone, Copy, Debug, PartialEq, Eq, Structural)]
pub struct RightMousePressEvent;

/// The pointer moved to `position`, a point of the playing field.
#[derive(Clone, Copy, Debug, PartialEq, Eq, Structural)]
pub struct MouseMoveEvent {
    pub position: Vec2,
}

/// The ball is to be removed.
#[derive(Clone, Copy, Debug, PartialEq, Eq, Structural)]
pub struct BallDestroyedEvent;

} // verus!
