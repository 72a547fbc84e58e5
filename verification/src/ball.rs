//! The ball: how it comes into play, how its power follows its speed, and
//! how it is lost.
use vstd::prelude::*;

use crate::ColliderType;
use crate::GameState;
use crate::NextState;
use crate::PowerLevel;
use crate::collisions::are_touching;
use crate::collisions::touching;
use crate::collisions::ContactPair;
use crate::components::AddCollider;
use crate::components::Body;
use crate::components::BottomCollider;
use crate::components::Color;
use crate::components::Entity;
use crate::components::EntityId;
use crate::components::PlayerBall;
use crate::components::PlayerPaddle;
use crate::components::RigidBody;
use crate::components::Sprite;
use crate::components::Transform;
use crate::events::BallDestroyedEvent;
use crate::events::LeftMousePressEvent;
use crate::events::LeftMouseReleaseEvent;
use crate::geometry::Vec2;
use crate::level_elements::DestructibleElement;
use crate::sprites::Image;
use crate::world::lemma_unused_id_is_free;
use crate::world::World;
use crate::world::WorldView;

verus! {

/// Speed from which the ball has low power: 200 world units.
pub const LOW_POWER_SPEED: u32 = 20000;

/// Speed from which the ball has medium power: 400 world units.
pub const MEDIUM_POWER_SPEED: u32 = 40000;

/// Speed from which the ball has high power: 600 world units.
pub const HIGH_POWER_SPEED: u32 = 60000;

/// Speed from which the ball has the highest power: 800 world units.
pub const HIGHEST_POWER_SPEED: u32 = 80000;

/// What every contact adds to the speed of the ball: 10 world units.
pub const VELOCITY_ADDITION: u32 = 1000;

/// Ordinate at which the ball rests on the paddle.
pub const BALL_REST_Y: i32 = -26000;

/// Stretch of the ball along both axes, in hundredths.
pub const BALL_SCALE: i32 = 130;

/// Upward impulse that launches the ball.
pub const LAUNCH_IMPULSE: i32 = 13000000;

/// Speed that the physics caps the ball at.
pub const MAX_LINEAR_SPEED: i32 = 100000;

/// Distance from the centre, along the abscissa, beyond which the ball
/// counts as lost: 1500 world units.
pub const SANITY_LIMIT_X: i32 = 150000;

/// Distance from the centre, along the ordinate, beyond which the ball
/// counts as lost: 1000 world units.
pub const SANITY_LIMIT_Y: i32 = 100000;

/// The power of a ball that moves at `speed`.
pub open spec fn power_for_speed(speed: int) -> PowerLevel {
    if speed < LOW_POWER_SPEED {
        PowerLevel::Lowest
    } else if speed < MEDIUM_POWER_SPEED {
        PowerLevel::Low
    } else if speed < HIGH_POWER_SPEED {
        PowerLevel::Medium
    } else if speed < HIGHEST_POWER_SPEED {
        PowerLevel::High
    } else {
        PowerLevel::Highest
    }
}

/// A faster ball has at least the power of a slower one.
pub proof fn lemma_power_monotone(slower: int, faster: int)
    requires
        slower <= faster,
    ensures
        power_for_speed(slower).rank() <= power_for_speed(faster).rank(),
{
}

/// Along speeds that rise from one collision to the next, the power of the
/// ball never falls.
pub proof fn lemma_power_never_falls(speeds: Seq<int>)
    requires
        forall|i: int, j: int| 0 <= i < j < speeds.len() ==> speeds[i] < speeds[j],
    ensures
        forall|i: int, j: int|
            0 <= i < j < speeds.len() ==> power_for_speed(#[trigger] speeds[i]).rank()
                <= power_for_speed(#[trigger] speeds[j]).rank(),
{
}

/// The power of a ball that moves at `speed`: one level per threshold
/// that the speed has reached.
pub fn power_level_for_speed(speed: u32) -> (power_level: PowerLevel)
    ensures
        power_level == power_for_speed(speed as int),
{
    if speed < LOW_POWER_SPEED {
        PowerLevel::Lowest
    } else if speed < MEDIUM_POWER_SPEED {
        PowerLevel::Low
    } else if speed < HIGH_POWER_SPEED {
        PowerLevel::Medium
    } else if speed < HIGHEST_POWER_SPEED {
        PowerLevel::High
    } else {
        PowerLevel::Highest
    }
}

/// The tint that shows a power: white, light blue, green, yellow, red.
pub open spec fn ball_color_of(power_level: PowerLevel) -> Color {
    match power_level {
        PowerLevel::Lowest => Color { red: 100, green: 100, blue: 100 },
        PowerLevel::Low => Color { red: 50, green: 80, blue: 100 },
        PowerLevel::Medium => Color { red: 0, green: 100, blue: 0 },
        PowerLevel::High => Color { red: 100, green: 100, blue: 0 },
        PowerLevel::Highest => Color { red: 100, green: 20, blue: 20 },
    }
}

/// The tint that shows a power.
pub fn ball_color(power_level: &PowerLevel) -> (color: Color)
    ensures
        color == ball_color_of(*power_level),
{
    match power_level {
        PowerLevel::Lowest => Color { red: 100, green: 100, blue: 100 },
        PowerLevel::Low => Color { red: 50, green: 80, blue: 100 },
        PowerLevel::Medium => Color { red: 0, green: 100, blue: 0 },
        PowerLevel::High => Color { red: 100, green: 100, blue: 0 },
        PowerLevel::Highest => Color { red: 100, green: 20, blue: 20 },
    }
}

/// Number of contact pairs that involve the entity `id`.
pub open spec fn contacts_of(collisions: Seq<ContactPair>, id: EntityId) -> nat
    decreases collisions.len(),
{
    if collisions.len() == 0 {
        0
    } else {
        contacts_of(collisions.drop_last(), id) + if collisions.last().involves(id) {
            1nat
        } else {
            0nat
        }
    }
}

/// The first pairs of a step hold no more contacts than all of them.
pub proof fn lemma_contacts_prefix(collisions: Seq<ContactPair>, id: EntityId, count: int)
    requires
        0 <= count <= collisions.len(),
    ensures
        contacts_of(collisions.take(count), id) <= contacts_of(collisions, id),
    decreases collisions.len() - count,
{
    if count == collisions.len() {
        assert(collisions.take(count) =~= collisions);
    } else {
        lemma_contacts_prefix(collisions, id, count + 1);
        assert(collisions.take(count + 1).drop_last() =~= collisions.take(count));
    }
}

/// The speed of a ball that had `speed` before `contacts` contacts.
pub open spec fn boosted_speed(speed: int, contacts: nat) -> int {
    speed + VELOCITY_ADDITION * contacts
}

/// Contacts never slow the ball down, so they never lower its power.
pub proof fn lemma_boost_keeps_power(speed: int, contacts: nat)
    ensures
        boosted_speed(speed, contacts) >= speed,
        contacts > 0 ==> boosted_speed(speed, contacts) > speed,
        power_for_speed(boosted_speed(speed, contacts)).rank() >= power_for_speed(speed).rank(),
{
    assert(VELOCITY_ADDITION * contacts >= 0) by (nonlinear_arith)
        requires
            contacts >= 0,
    ;
    assert(contacts > 0 ==> VELOCITY_ADDITION * contacts > 0) by (nonlinear_arith)
        requires
            contacts >= 0,
    ;
}

/// The body `body` with its sprite tinted `color`.
pub open spec fn tinted(body: Body, color: Color) -> Body {
    Body {
        sprite: match body.sprite {
            Some(sprite) => Some(Sprite { color, ..sprite }),
            None => None,
        },
        ..body
    }
}

/// The body `body` with its sprite showing `image`.
pub open spec fn showing(body: Body, image: Image) -> Body {
    Body {
        sprite: match body.sprite {
            Some(sprite) => Some(Sprite { image, ..sprite }),
            None => None,
        },
        ..body
    }
}

/// The ball `ball` with the power and the tint that belong to `speed`.
pub open spec fn ball_at_speed(ball: Entity<PlayerBall>, speed: int) -> Entity<PlayerBall> {
    let power_level = power_for_speed(speed);
    Entity {
        id: ball.id,
        marker: PlayerBall { power_level, ..ball.marker },
        body: tinted(ball.body, ball_color_of(power_level)),
    }
}

/// The ball after the physics has moved it: a ball in flight is where the
/// physics says, a held ball stays with the paddle.
pub open spec fn ball_moved(player_ball: Option<Entity<PlayerBall>>, position: Vec2) -> Option<
    Entity<PlayerBall>,
> {
    match player_ball {
        Some(ball) => if ball.marker.in_hold {
            Some(ball)
        } else {
            Some(
                Entity {
                    id: ball.id,
                    marker: ball.marker,
                    body: Body {
                        transform: Transform { translation: position, ..ball.body.transform },
                        ..ball.body
                    },
                },
            )
        },
        None => None,
    }
}

/// Takes over the position that the physics has computed for the ball.
pub fn follow_physics(player_ball: &mut Option<Entity<PlayerBall>>, position: Vec2)
    ensures
        *final(player_ball) == ball_moved(*old(player_ball), position),
{
    match player_ball {
        Some(ball) => {
            if !ball.marker.in_hold {
                ball.body.transform.translation = position;
            }
        },
        None => {},
    }
}

/// Whether the speed that the ball reaches by its contacts can be stored.
pub open spec fn speed_fits(
    player_ball: Option<Entity<PlayerBall>>,
    collisions: Seq<ContactPair>,
    speed: int,
) -> bool {
    player_ball matches Some(ball) ==> boosted_speed(speed, contacts_of(collisions, ball.id))
        <= u32::MAX
}

/// The speed that the contacts of a step bring a ball of speed `speed` to,
/// if it touched anything.
pub open spec fn speed_after(
    player_ball: Option<Entity<PlayerBall>>,
    collisions: Seq<ContactPair>,
    speed: int,
) -> Option<u32> {
    match player_ball {
        Some(ball) => if contacts_of(collisions, ball.id) > 0 {
            Some(boosted_speed(speed, contacts_of(collisions, ball.id)) as u32)
        } else {
            None
        },
        None => None,
    }
}

/// The ball after the contacts of a step: a ball that touched something has
/// the power and the tint of the speed it has reached.
pub open spec fn ball_struck(
    player_ball: Option<Entity<PlayerBall>>,
    collisions: Seq<ContactPair>,
    speed: int,
) -> Option<Entity<PlayerBall>> {
    match player_ball {
        Some(ball) => if contacts_of(collisions, ball.id) > 0 {
            Some(ball_at_speed(ball, boosted_speed(speed, contacts_of(collisions, ball.id))))
        } else {
            Some(ball)
        },
        None => None,
    }
}

/// Every contact of the ball adds to its speed; its power and tint are then
/// taken from the speed it has reached.  Returns that speed, for the
/// physics to give the ball along its present direction, if the ball
/// touched anything.
pub fn handle_collision_player_ball(
    player_ball: &mut Option<Entity<PlayerBall>>,
    collisions: &Vec<ContactPair>,
    ball_speed: u32,
) -> (new_speed: Option<u32>)
    requires
        speed_fits(*old(player_ball), collisions@, ball_speed as int),
    ensures
        new_speed == speed_after(*old(player_ball), collisions@, ball_speed as int),
        *final(player_ball) == ball_struck(*old(player_ball), collisions@, ball_speed as int),
{
    let ball = match player_ball {
        Some(ball) => *ball,
        None => {
            return None;
        },
    };
    let mut speed: u32 = ball_speed;
    let mut touched = false;
    let mut index: usize = 0;
    while index < collisions.len()
        invariant
            index <= collisions.len(),
            boosted_speed(ball_speed as int, contacts_of(collisions@, ball.id)) <= u32::MAX,
            speed == boosted_speed(
                ball_speed as int,
                contacts_of(collisions@.take(index as int), ball.id),
            ),
            touched == (contacts_of(collisions@.take(index as int), ball.id) > 0),
        decreases collisions.len() - index,
    {
        let pair = collisions[index];
        proof {
            lemma_contacts_prefix(collisions@, ball.id, index as int + 1);
            assert(collisions@.take(index as int + 1).drop_last() =~= collisions@.take(
                index as int,
            ));
        }
        if pair.collider1 == ball.id || pair.collider2 == ball.id {
            speed = speed + VELOCITY_ADDITION;
            touched = true;
        }
        index += 1;
    }
    proof {
        assert(collisions@.take(index as int) =~= collisions@);
    }
    if !touched {
        return None;
    }
    let power_level = power_level_for_speed(speed);
    let color = ball_color(&power_level);
    let sprite = match ball.body.sprite {
        Some(sprite) => Some(Sprite { image: sprite.image, custom_size: sprite.custom_size, color }),
        None => None,
    };
    *player_ball = Some(
        Entity {
            id: ball.id,
            marker: PlayerBall {
                initial_impulse: ball.marker.initial_impulse,
                power_level,
                in_hold: ball.marker.in_hold,
                max_linear_speed: ball.marker.max_linear_speed,
            },
            body: Body {
                sprite,
                transform: ball.body.transform,
                add_collider: ball.body.add_collider,
                collider: ball.body.collider,
                rigid_body: ball.body.rigid_body,
            },
        },
    );
    Some(speed)
}

/// The ball as it is spawned on a paddle at abscissa `paddle_x`: held, of
/// the lowest power, with a round collider to come.
pub open spec fn held_ball(id: EntityId, paddle_x: i32) -> Entity<PlayerBall> {
    Entity {
        id,
        marker: PlayerBall {
            initial_impulse: Vec2 { x: 0, y: LAUNCH_IMPULSE },
            power_level: PowerLevel::Lowest,
            in_hold: true,
            max_linear_speed: MAX_LINEAR_SPEED,
        },
        body: Body {
            sprite: Some(Sprite::of(Image::Ball)),
            transform: Transform {
                translation: Vec2 { x: paddle_x, y: BALL_REST_Y },
                quarter_turns: 0,
                scale: Vec2 { x: BALL_SCALE, y: BALL_SCALE },
            },
            add_collider: Some(
                AddCollider { collider_scale: 100, collider_type: ColliderType::Circle },
            ),
            collider: None,
            rigid_body: RigidBody::Dynamic,
        },
    }
}

/// The paddle `paddle` showing `image`.
pub open spec fn paddle_showing(paddle: Entity<PlayerPaddle>, image: Image) -> Entity<PlayerPaddle> {
    Entity { id: paddle.id, marker: paddle.marker, body: showing(paddle.body, image) }
}

/// Whether a press of the primary button brings a ball into play: there is
/// a press, a paddle to put the ball on, and no ball yet.
pub open spec fn press_spawns_ball(world: WorldView, presses: Seq<LeftMousePressEvent>) -> bool {
    presses.len() > 0 && world.paddle is Some && world.ball is None
}

fn paddle_with_image(paddle: Entity<PlayerPaddle>, image: Image) -> (shown: Entity<PlayerPaddle>)
    ensures
        shown == paddle_showing(paddle, image),
{
    let sprite = match paddle.body.sprite {
        Some(sprite) => Some(
            Sprite { image, custom_size: sprite.custom_size, color: sprite.color },
        ),
        None => None,
    };
    Entity {
        id: paddle.id,
        marker: paddle.marker,
        body: Body {
            sprite,
            transform: paddle.body.transform,
            add_collider: paddle.body.add_collider,
            collider: paddle.body.collider,
            rigid_body: paddle.body.rigid_body,
        },
    }
}

/// The world after the presses of the primary button were looked at.
pub open spec fn world_after_press(world: WorldView, presses: Seq<LeftMousePressEvent>) -> WorldView {
    if press_spawns_ball(world, presses) {
        let paddle = world.paddle.unwrap();
        WorldView {
            paddle: Some(paddle_showing(paddle, Image::PaddleRed)),
            ball: Some(held_ball(world.next_id, paddle.body.transform.translation.x)),
            next_id: (world.next_id + 1) as EntityId,
            ..world
        }
    } else {
        world
    }
}

/// A press of the primary button while no ball exists puts a ball on the
/// paddle, which turns red; while a ball exists the press does nothing.
pub fn handle_left_mouse_press_events(
    world: &mut World,
    left_mouse_press_evr: &mut Vec<LeftMousePressEvent>,
)
    requires
        old(world)@.wf(),
        press_spawns_ball(old(world)@, old(left_mouse_press_evr)@) ==> old(world)@.has_room(1),
    ensures
        final(world)@.wf(),
        final(left_mouse_press_evr)@.len() == 0,
        final(world)@ == world_after_press(old(world)@, old(left_mouse_press_evr)@),
{
    let ghost before = world@;
    if left_mouse_press_evr.len() > 0 && world.ball.is_none() {
        if let Some(paddle) = world.paddle {
            let id = world.next_id;
            world.paddle = Some(paddle_with_image(paddle, Image::PaddleRed));
            world.ball = Some(
                Entity {
                    id,
                    marker: PlayerBall {
                        initial_impulse: Vec2::new(0, LAUNCH_IMPULSE),
                        power_level: PowerLevel::Lowest,
                        in_hold: true,
                        max_linear_speed: MAX_LINEAR_SPEED,
                    },
                    body: Body {
                        sprite: Some(Sprite::from_image(Image::Ball)),
                        transform: Transform {
                            translation: Vec2::new(
                                paddle.body.transform.translation.x,
                                BALL_REST_Y,
                            ),
                            quarter_turns: 0,
                            scale: Vec2::new(BALL_SCALE, BALL_SCALE),
                        },
                        add_collider: Some(
                            AddCollider {
                                collider_scale: 100,
                                collider_type: ColliderType::Circle,
                            },
                        ),
                        collider: None,
                        rigid_body: RigidBody::Dynamic,
                    },
                },
            );
            world.next_id = id + 1;
        }
    }
    proof {
        assert forall|id: EntityId| #[trigger] world@.holders(id) <= 1 by {
            assert(before.holders(id) <= 1);
            lemma_unused_id_is_free(before, before.next_id);
        }
    }
    // if there is more than one event in the queue: ignore the others
    left_mouse_press_evr.clear();
}

/// Whether a release of the primary button launches the ball: there is a
/// release, a paddle, and a ball that is still held.
pub open spec fn release_launches_ball(
    player_paddle: Option<Entity<PlayerPaddle>>,
    player_ball: Option<Entity<PlayerBall>>,
    releases: Seq<LeftMouseReleaseEvent>,
) -> bool {
    &&& releases.len() > 0
    &&& player_paddle is Some
    &&& player_ball matches Some(ball) && ball.marker.in_hold
}

/// The impulse that the physics is to give the ball in this step.
pub open spec fn launch_impulse(
    player_paddle: Option<Entity<PlayerPaddle>>,
    player_ball: Option<Entity<PlayerBall>>,
    releases: Seq<LeftMouseReleaseEvent>,
) -> Option<Vec2> {
    if release_launches_ball(player_paddle, player_ball, releases) {
        Some(player_ball.unwrap().marker.initial_impulse)
    } else {
        None
    }
}

/// The paddle after the releases of the primary button were looked at.
pub open spec fn paddle_after_release(
    player_paddle: Option<Entity<PlayerPaddle>>,
    player_ball: Option<Entity<PlayerBall>>,
    releases: Seq<LeftMouseReleaseEvent>,
) -> Option<Entity<PlayerPaddle>> {
    if release_launches_ball(player_paddle, player_ball, releases) {
        Some(paddle_showing(player_paddle.unwrap(), Image::PaddleBlue))
    } else {
        player_paddle
    }
}

/// The ball after the releases of the primary button were looked at.
pub open spec fn ball_after_release(
    player_paddle: Option<Entity<PlayerPaddle>>,
    player_ball: Option<Entity<PlayerBall>>,
    releases: Seq<LeftMouseReleaseEvent>,
) -> Option<Entity<PlayerBall>> {
    if release_launches_ball(player_paddle, player_ball, releases) {
        let ball = player_ball.unwrap();
        Some(
            Entity {
                id: ball.id,
                marker: PlayerBall { in_hold: false, ..ball.marker },
                body: ball.body,
            },
        )
    } else {
        player_ball
    }
}

/// A release of the primary button launches the held ball: the ball is
/// held no longer, the paddle turns blue again, and the impulse that the
/// physics is to give the ball is returned.
pub fn handle_left_mouse_release_events(
    player_paddle: &mut Option<Entity<PlayerPaddle>>,
    player_ball: &mut Option<Entity<PlayerBall>>,
    left_mouse_release_evr: &mut Vec<LeftMouseReleaseEvent>,
) -> (impulse: Option<Vec2>)
    ensures
        final(left_mouse_release_evr)@.len() == 0,
        impulse == launch_impulse(
            *old(player_paddle),
            *old(player_ball),
            old(left_mouse_release_evr)@,
        ),
        *final(player_paddle) == paddle_after_release(
            *old(player_paddle),
            *old(player_ball),
            old(left_mouse_release_evr)@,
        ),
        *final(player_ball) == ball_after_release(
            *old(player_paddle),
            *old(player_ball),
            old(left_mouse_release_evr)@,
        ),
{
    let mut impulse: Option<Vec2> = None;
    if left_mouse_release_evr.len() > 0 {
        if let Some(paddle) = *player_paddle {
            if let Some(ball) = *player_ball {
                if ball.marker.in_hold {
                    *player_paddle = Some(paddle_with_image(paddle, Image::PaddleBlue));
                    *player_ball = Some(
                        Entity {
                            id: ball.id,
                            marker: PlayerBall {
                                initial_impulse: ball.marker.initial_impulse,
                                power_level: ball.marker.power_level,
                                in_hold: false,
                                max_linear_speed: ball.marker.max_linear_speed,
                            },
                            body: ball.body,
                        },
                    );
                    impulse = Some(ball.marker.initial_impulse);
                }
            }
        }
    }
    // if there is more than one event in the queue: ignore the others
    left_mouse_release_evr.clear();
    impulse
}

/// Whether the ball is removed in this step: its destruction was asked for
/// and it exists.
pub open spec fn ball_lost(
    player_ball: Option<Entity<PlayerBall>>,
    ball_destroyed: Seq<BallDestroyedEvent>,
) -> bool {
    ball_destroyed.len() > 0 && player_ball is Some
}

/// Whether losing the ball ends the attempt at the level: the level screen
/// is shown and blocks are left to destroy.
pub open spec fn attempt_failed(
    state: GameState,
    destructible_elements: Seq<Entity<DestructibleElement>>,
) -> bool {
    state == GameState::Levels && destructible_elements.len() > 0
}

/// The ball after the requests for its destruction were looked at.
pub open spec fn ball_after_destruction(
    player_ball: Option<Entity<PlayerBall>>,
    ball_destroyed: Seq<BallDestroyedEvent>,
) -> Option<Entity<PlayerBall>> {
    if ball_lost(player_ball, ball_destroyed) {
        None
    } else {
        player_ball
    }
}

/// The change of screen that is pending after the requests for the
/// destruction of the ball were looked at.
pub open spec fn next_state_after_destruction(
    game_state: NextState,
    player_ball: Option<Entity<PlayerBall>>,
    ball_destroyed: Seq<BallDestroyedEvent>,
    state: GameState,
    destructible_elements: Seq<Entity<DestructibleElement>>,
) -> NextState {
    if ball_lost(player_ball, ball_destroyed) && attempt_failed(state, destructible_elements) {
        NextState::Pending(GameState::Selection)
    } else {
        game_state
    }
}

/// Removes the ball whose destruction was asked for and returns its
/// identifier.  On the level screen, with blocks left, that is the end of
/// the attempt: the selection screen comes back.
pub fn handle_ball_destroyed_event(
    player_ball: &mut Option<Entity<PlayerBall>>,
    ball_destroyed_evr: &mut Vec<BallDestroyedEvent>,
    state: GameState,
    game_state: &mut NextState,
    destructible_elements: &Vec<Entity<DestructibleElement>>,
) -> (despawned: Option<EntityId>)
    ensures
        final(ball_destroyed_evr)@.len() == 0,
        despawned == if ball_lost(*old(player_ball), old(ball_destroyed_evr)@) {
            Some(old(player_ball).unwrap().id)
        } else {
            None
        },
        *final(player_ball) == ball_after_destruction(*old(player_ball), old(ball_destroyed_evr)@),
        *final(game_state) == next_state_after_destruction(
            *old(game_state),
            *old(player_ball),
            old(ball_destroyed_evr)@,
            state,
            destructible_elements@,
        ),
{
    let mut despawned: Option<EntityId> = None;
    if ball_destroyed_evr.len() > 0 {
        if let Some(ball) = *player_ball {
            despawned = Some(ball.id);
            *player_ball = None;
            if state == GameState::Levels && destructible_elements.len() > 0 {
                game_state.set(GameState::Selection);
            }
        }
    }
    ball_destroyed_evr.clear();
    despawned
}

/// Whether a point lies outside the region in which a ball can sensibly be.
pub open spec fn out_of_bounds(position: Vec2) -> bool {
    ||| position.x > SANITY_LIMIT_X
    ||| position.x < -SANITY_LIMIT_X
    ||| position.y > SANITY_LIMIT_Y
    ||| position.y < -SANITY_LIMIT_Y
}

/// Asks for the destruction of a ball that has left the region in which a
/// ball can sensibly be, whatever brought it there.
pub fn player_ball_physics_sanity_check(
    player_ball: &Option<Entity<PlayerBall>>,
    ball_destroyed_evw: &mut Vec<BallDestroyedEvent>,
)
    ensures
        final(ball_destroyed_evw)@ == if *player_ball matches Some(ball) && out_of_bounds(
            ball.body.transform.translation,
        ) {
            old(ball_destroyed_evw)@.push(BallDestroyedEvent)
        } else {
            old(ball_destroyed_evw)@
        },
{
    if let Some(ball) = player_ball {
        let position = ball.body.transform.translation;
        if position.x > SANITY_LIMIT_X || position.x < -SANITY_LIMIT_X || position.y
            > SANITY_LIMIT_Y || position.y < -SANITY_LIMIT_Y {
            ball_destroyed_evw.push(BallDestroyedEvent);
        }
    }
}

/// Whether the ball touches the boundary below the paddle.
pub open spec fn fell_through(
    player_ball: Option<Entity<PlayerBall>>,
    bottom_collider: Option<Entity<BottomCollider>>,
    collisions: Seq<ContactPair>,
) -> bool {
    &&& player_ball matches Some(ball)
    &&& bottom_collider matches Some(bottom)
    &&& touching(ball.id, bottom.id, collisions)
}

/// Asks for the destruction of a ball that touches the boundary below the
/// paddle.
pub fn handle_collision_player_ball_and_bottom_collider(
    player_ball: &Option<Entity<PlayerBall>>,
    bottom_collider: &Option<Entity<BottomCollider>>,
    collisions: &Vec<ContactPair>,
    ball_destroyed_evw: &mut Vec<BallDestroyedEvent>,
)
    ensures
        final(ball_destroyed_evw)@ == if fell_through(
            *player_ball,
            *bottom_collider,
            collisions@,
        ) {
            old(ball_destroyed_evw)@.push(BallDestroyedEvent)
        } else {
            old(ball_destroyed_evw)@
        },
{
    if let Some(ball) = player_ball {
        if let Some(bottom) = bottom_collider {
            if are_touching(ball.id, bottom.id, collisions) {
                ball_destroyed_evw.push(BallDestroyedEvent);
            }
        }
    }
}

} // verus!
