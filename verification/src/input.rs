//! What the player does: buttons, pointer, and the paddle that follows it.
use vstd::prelude::*;

use crate::components::Body;
use crate::components::Entity;
use crate::components::PlayerBall;
use crate::components::PlayerPaddle;
use crate::components::Transform;
use crate::events::LeftMousePressEvent;
use crate::events::LeftMouseReleaseEvent;
use crate::events::MouseMoveEvent;
use crate::events::RightMousePressEvent;
use crate::geometry::Vec2;

verus! {

/// Farthest that the paddle may stand from the centre: 520 world units.
pub const PADDLE_MAX_ABS_TRANSLATION: i32 = 52000;

/// What the buttons did since the last step.
#[derive(Clone, Copy, Debug, PartialEq, Eq, Structural)]
pub struct ButtonInput {
    pub left_just_pressed: bool,
    pub left_just_released: bool,
    pub right_just_pressed: bool,
}

/// The pointer moved to `position`, a point of the playing field.
#[derive(Clone, Copy, Debug, PartialEq, Eq, Structural)]
pub struct CursorMoved {
    pub position: Vec2,
}

/// The message that passes a movement of the pointer on.
pub open spec fn mouse_move_of(moved: CursorMoved) -> MouseMoveEvent {
    MouseMoveEvent { position: moved.position }
}

/// The messages that pass the movements `cursor` of the pointer on.
pub open spec fn mouse_moves_of(cursor: Seq<CursorMoved>) -> Seq<MouseMoveEvent> {
    cursor.map_values(|moved: CursorMoved| mouse_move_of(moved))
}

/// `events` with one more event if `happened`.
pub open spec fn with_event<E>(events: Seq<E>, happened: bool, event: E) -> Seq<E> {
    if happened {
        events.push(event)
    } else {
        events
    }
}

/// Turns what the devices report into messages: one per button that went
/// down or came up, and one per movement of the pointer, in order.
pub fn handle_raw_input(
    input: &ButtonInput,
    cursor_evr: &mut Vec<CursorMoved>,
    mouse_move_evw: &mut Vec<MouseMoveEvent>,
    left_mouse_press_evw: &mut Vec<LeftMousePressEvent>,
    left_mouse_release_evw: &mut Vec<LeftMouseReleaseEvent>,
    right_mouse_press_evw: &mut Vec<RightMousePressEvent>,
)
    ensures
        final(cursor_evr)@.len() == 0,
        final(left_mouse_press_evw)@ == with_event(
            old(left_mouse_press_evw)@,
            input.left_just_pressed,
            LeftMousePressEvent,
        ),
        final(left_mouse_release_evw)@ == with_event(
            old(left_mouse_release_evw)@,
            input.left_just_released,
            LeftMouseReleaseEvent,
        ),
        final(right_mouse_press_evw)@ == with_event(
            old(right_mouse_press_evw)@,
            input.right_just_pressed,
            RightMousePressEvent,
        ),
        final(mouse_move_evw)@ == old(mouse_move_evw)@ + mouse_moves_of(old(cursor_evr)@),
{
    // press left mouse
    if input.left_just_pressed {
        left_mouse_press_evw.push(LeftMousePressEvent);
    }
    // release left mouse
    if input.left_just_released {
        left_mouse_release_evw.push(LeftMouseReleaseEvent);
    }
    // mouse move
    let ghost moves = mouse_moves_of(cursor_evr@);
    let mut index: usize = 0;
    while index < cursor_evr.len()
        invariant
            index <= cursor_evr.len(),
            cursor_evr@ == old(cursor_evr)@,
            moves == mouse_moves_of(old(cursor_evr)@),
            mouse_move_evw@ == old(mouse_move_evw)@ + moves.take(index as int),
        decreases cursor_evr.len() - index,
    {
        let event = cursor_evr[index];
        mouse_move_evw.push(MouseMoveEvent { position: event.position });
        index += 1;
    }
    cursor_evr.clear();
    // press right mouse
    if input.right_just_pressed {
        right_mouse_press_evw.push(RightMousePressEvent);
    }
}

/// Where a paddle that was moved to abscissa `x` comes to stand: where it
/// was moved to, if that is within the borders; otherwise on the largest
/// multiple of the border distance that is no farther from the centre.
pub open spec fn bordered(x: int) -> int {
    if x > PADDLE_MAX_ABS_TRANSLATION {
        PADDLE_MAX_ABS_TRANSLATION * (x / (PADDLE_MAX_ABS_TRANSLATION as int))
    } else if x < -PADDLE_MAX_ABS_TRANSLATION {
        -(PADDLE_MAX_ABS_TRANSLATION * ((-x) / (PADDLE_MAX_ABS_TRANSLATION as int)))
    } else {
        x
    }
}

/// Pulls a paddle that was moved beyond its borders back.
pub fn enforce_paddle_borders(transform: &mut Transform)
    ensures
        final(transform).translation.x == bordered(old(transform).translation.x as int),
        final(transform).translation.y == old(transform).translation.y,
        final(transform).quarter_turns == old(transform).quarter_turns,
        final(transform).scale == old(transform).scale,
{
    let x = transform.translation.x;
    if x > PADDLE_MAX_ABS_TRANSLATION || x < -PADDLE_MAX_ABS_TRANSLATION {
        transform.translation.x = PADDLE_MAX_ABS_TRANSLATION * (x / PADDLE_MAX_ABS_TRANSLATION);
    }
}

/// The body `body` moved to abscissa `x`.
pub open spec fn moved_to_x(body: Body, x: int) -> Body {
    Body {
        transform: Transform {
            translation: Vec2 { x: x as i32, y: body.transform.translation.y },
            ..body.transform
        },
        ..body
    }
}

/// Where the paddle stands after the pointer's movements of this step: at
/// the last of them, within the borders.
pub open spec fn paddle_x_after(paddle: Entity<PlayerPaddle>, moves: Seq<MouseMoveEvent>) -> int {
    if moves.len() > 0 {
        bordered(moves.last().position.x as int)
    } else {
        paddle.body.transform.translation.x as int
    }
}

/// The paddle after the pointer's movements of this step.
pub open spec fn paddle_after_moves(
    player_paddle: Option<Entity<PlayerPaddle>>,
    moves: Seq<MouseMoveEvent>,
) -> Option<Entity<PlayerPaddle>> {
    match player_paddle {
        Some(paddle) => Some(
            Entity {
                id: paddle.id,
                marker: paddle.marker,
                body: moved_to_x(paddle.body, paddle_x_after(paddle, moves)),
            },
        ),
        None => None,
    }
}

/// The ball after the pointer's movements of this step: a held ball is
/// where the paddle is.
pub open spec fn ball_after_moves(
    player_paddle: Option<Entity<PlayerPaddle>>,
    player_ball: Option<Entity<PlayerBall>>,
    moves: Seq<MouseMoveEvent>,
) -> Option<Entity<PlayerBall>> {
    match (player_paddle, player_ball) {
        (Some(paddle), Some(ball)) => if ball.marker.in_hold {
            Some(
                Entity {
                    id: ball.id,
                    marker: ball.marker,
                    body: moved_to_x(ball.body, paddle_x_after(paddle, moves)),
                },
            )
        } else {
            Some(ball)
        },
        _ => player_ball,
    }
}

/// The paddle follows the pointer within its borders, and a ball that is
/// still held follows the paddle.
pub fn handle_mouse_move_events(
    player_paddle: &mut Option<Entity<PlayerPaddle>>,
    player_ball: &mut Option<Entity<PlayerBall>>,
    mouse_move_evr: &mut Vec<MouseMoveEvent>,
)
    ensures
        final(mouse_move_evr)@.len() == 0,
        *final(player_paddle) == paddle_after_moves(*old(player_paddle), old(mouse_move_evr)@),
        *final(player_ball) == ball_after_moves(
            *old(player_paddle),
            *old(player_ball),
            old(mouse_move_evr)@,
        ),
{
    if let Some(paddle) = *player_paddle {
        let mut paddle_transform = paddle.body.transform;
        let mut index: usize = 0;
        while index < mouse_move_evr.len()
            invariant
                index <= mouse_move_evr.len(),
                mouse_move_evr@ == old(mouse_move_evr)@,
                paddle_transform.translation.x == paddle_x_after(
                    paddle,
                    mouse_move_evr@.take(index as int),
                ),
                paddle_transform.translation.y == paddle.body.transform.translation.y,
                paddle_transform.quarter_turns == paddle.body.transform.quarter_turns,
                paddle_transform.scale == paddle.body.transform.scale,
            decreases mouse_move_evr.len() - index,
        {
            paddle_transform.translation.x = mouse_move_evr[index].position.x;
            enforce_paddle_borders(&mut paddle_transform);
            index += 1;
        }
        *player_paddle = Some(
            Entity {
                id: paddle.id,
                marker: paddle.marker,
                body: Body {
                    sprite: paddle.body.sprite,
                    transform: paddle_transform,
                    add_collider: paddle.body.add_collider,
                    collider: paddle.body.collider,
                    rigid_body: paddle.body.rigid_body,
                },
            },
        );
        if let Some(ball) = *player_ball {
            if ball.marker.in_hold {
                *player_ball = Some(
                    Entity {
                        id: ball.id,
                        marker: ball.marker,
                        body: Body {
                            sprite: ball.body.sprite,
                            transform: Transform {
                                translation: Vec2::new(
                                    paddle_transform.translation.x,
                                    ball.body.transform.translation.y,
                                ),
                                quarter_turns: ball.body.transform.quarter_turns,
                                scale: ball.body.transform.scale,
                            },
                            add_collider: ball.body.add_collider,
                            collider: ball.body.collider,
                            rigid_body: ball.body.rigid_body,
                        },
                    },
                );
            }
        }
    }
    mouse_move_evr.clear();
}

} // verus!
