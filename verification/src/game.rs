//! The session: its state, and the order in which the systems of the game
//! run in every frame.
use vstd::prelude::*;

use crate::ColliderType;
use crate::GameState;
use crate::NextState;
use crate::ball::ball_after_destruction;
use crate::ball::ball_after_release;
use crate::ball::ball_moved;
use crate::ball::ball_struck;
use crate::ball::fell_through;
use crate::ball::follow_physics;
use crate::ball::handle_ball_destroyed_event;
use crate::ball::handle_collision_player_ball;
use crate::ball::handle_collision_player_ball_and_bottom_collider;
use crate::ball::handle_left_mouse_press_events;
use crate::ball::handle_left_mouse_release_events;
use crate::ball::launch_impulse;
use crate::ball::next_state_after_destruction;
use crate::ball::out_of_bounds;
use crate::ball::paddle_after_release;
use crate::ball::player_ball_physics_sanity_check;
use crate::ball::press_spawns_ball;
use crate::ball::speed_after;
use crate::ball::speed_fits;
use crate::ball::world_after_press;
use crate::colliders::add_colliders;
use crate::colliders::with_colliders;
use crate::colliders::LoadedImage;
use crate::collisions::first_index_where;
use crate::collisions::hitting;
use crate::collisions::lemma_first_index_found;
use crate::collisions::lemma_first_index_meaning;
use crate::collisions::lemma_first_index_missing;
use crate::collisions::ContactPair;
use crate::components::AddCollider;
use crate::components::Body;
use crate::components::BottomCollider;
use crate::components::Collider;
use crate::components::Entity;
use crate::components::EntityId;
use crate::components::PermanentElement;
use crate::components::Player;
use crate::components::PlayerPaddle;
use crate::components::RigidBody;
use crate::components::Sprite;
use crate::components::Transform;
use crate::events::BallDestroyedEvent;
use crate::events::LeftMousePressEvent;
use crate::events::LeftMouseReleaseEvent;
use crate::events::MouseMoveEvent;
use crate::events::RightMousePressEvent;
use crate::geometry::Vec2;
use crate::input::ball_after_moves;
use crate::input::handle_mouse_move_events;
use crate::input::handle_raw_input;
use crate::input::mouse_moves_of;
use crate::input::paddle_after_moves;
use crate::input::with_event;
use crate::input::ButtonInput;
use crate::input::CursorMoved;
use crate::level_elements::lemma_layout_frame;
use crate::level_elements::with_layout;
use crate::level_elements::DestructibleElement;
use crate::levels::breaking;
use crate::levels::broken_block;
use crate::levels::destroys;
use crate::levels::handle_collision_player_ball_with_destructible_element;
use crate::levels::handle_event_block_destroyed;
use crate::levels::handle_right_mouse_press_event;
use crate::levels::level_cleared;
use crate::levels::level_layout;
use crate::levels::level_setup;
use crate::levels::selected_layouts;
use crate::levels::unlock_defined;
use crate::levels::unlocked;
use crate::levels::BlockDestroyedEvent;
use crate::levels::LastSelectedLevel;
use crate::levels::SelectedLevel;
use crate::selection::bounced_off;
use crate::selection::handle_collision_player_ball_and_selection_block;
use crate::selection::selected_block;
use crate::selection::selection_setup;
use crate::selection::with_selectors;
use crate::selection::LevelSelectedEvent;
use crate::selection::LevelSelectorBlock;
use crate::selection::LevelSelectorOutline;
use crate::sprites::Image;
use crate::world::lemma_holds_no_more;
use crate::world::lemma_remove_holds;
use crate::world::list_holds;
use crate::world::World;
use crate::world::WorldView;

verus! {

/// Where the paddle stands at the start.
pub const PADDLE_Y: i32 = -30000;

/// Stretch of the paddle along the abscissa, in hundredths.
pub const PADDLE_SCALE_X: i32 = 130;

/// Abscissa of the left border.
pub const LEFT_BORDER_X: i32 = -61500;

/// Abscissa of the right border.
pub const RIGHT_BORDER_X: i32 = 61500;

/// The turn that stands the left border upright.
pub const LEFT_BORDER_TURNS: i8 = 1;

/// The turn that stands the right border upright.
pub const RIGHT_BORDER_TURNS: i8 = -1;

/// Height at which the top border lies.
pub const TOP_BORDER_Y: i32 = 33500;

/// Stretch of the left and right borders along their length, in hundredths.
pub const SIDE_BORDER_SCALE: i32 = 380;

/// Stretch of the top border along its length, in hundredths.
pub const TOP_BORDER_SCALE: i32 = 620;

/// Height at which the boundary below the paddle lies.
pub const BOTTOM_COLLIDER_Y: i32 = -38500;

/// Width of the boundary below the paddle.
pub const BOTTOM_COLLIDER_WIDTH: i64 = 128000;

/// Height of the boundary below the paddle.
pub const BOTTOM_COLLIDER_HEIGHT: i64 = 6000;

/// The queues of the messages that are under way.
pub struct Events {
    pub mouse_move: Vec<MouseMoveEvent>,
    pub left_mouse_press: Vec<LeftMousePressEvent>,
    pub left_mouse_release: Vec<LeftMouseReleaseEvent>,
    pub right_mouse_press: Vec<RightMousePressEvent>,
    pub ball_destroyed: Vec<BallDestroyedEvent>,
    pub block_destroyed: Vec<BlockDestroyedEvent>,
    pub level_selected: Vec<LevelSelectedEvent>,
}

/// The mathematical content of [`Events`].
pub struct EventsView {
    pub mouse_move: Seq<MouseMoveEvent>,
    pub left_mouse_press: Seq<LeftMousePressEvent>,
    pub left_mouse_release: Seq<LeftMouseReleaseEvent>,
    pub right_mouse_press: Seq<RightMousePressEvent>,
    pub ball_destroyed: Seq<BallDestroyedEvent>,
    pub block_destroyed: Seq<BlockDestroyedEvent>,
    pub level_selected: Seq<LevelSelectedEvent>,
}

impl View for Events {
    type V = EventsView;

    open spec fn view(&self) -> EventsView {
        EventsView {
            mouse_move: self.mouse_move@,
            left_mouse_press: self.left_mouse_press@,
            left_mouse_release: self.left_mouse_release@,
            right_mouse_press: self.right_mouse_press@,
            ball_destroyed: self.ball_destroyed@,
            block_destroyed: self.block_destroyed@,
            level_selected: self.level_selected@,
        }
    }
}

impl EventsView {
    /// No message under way.
    pub open spec fn empty() -> EventsView {
        EventsView {
            mouse_move: Seq::empty(),
            left_mouse_press: Seq::empty(),
            left_mouse_release: Seq::empty(),
            right_mouse_press: Seq::empty(),
            ball_destroyed: Seq::empty(),
            block_destroyed: Seq::empty(),
            level_selected: Seq::empty(),
        }
    }
}

/// A session of the game.
pub struct Game {
    /// The screen that is shown.
    pub state: GameState,
    /// The screen that was asked for and comes with the next frame.
    pub next_state: NextState,
    pub last_selected_level: LastSelectedLevel,
    pub world: World,
    pub events: Events,
}

/// The mathematical content of a [`Game`].
pub struct GameView {
    pub state: GameState,
    pub next_state: NextState,
    pub last_selected_level: LastSelectedLevel,
    pub world: WorldView,
    pub events: EventsView,
}

impl View for Game {
    type V = GameView;

    open spec fn view(&self) -> GameView {
        GameView {
            state: self.state,
            next_state: self.next_state,
            last_selected_level: self.last_selected_level,
            world: self.world@,
            events: self.events@,
        }
    }
}

/// A border of the playing field at `translation`, turned by
/// `quarter_turns` and stretched to `scale_x` hundredths of its length.
pub open spec fn border_body(translation: Vec2, quarter_turns: i8, scale_x: i32) -> Body {
    Body {
        sprite: Some(Sprite::of(Image::Border)),
        transform: Transform { translation, quarter_turns, scale: Vec2 { x: scale_x, y: 100 } },
        add_collider: Some(
            AddCollider { collider_scale: 100, collider_type: ColliderType::RoundedRectangle },
        ),
        collider: None,
        rigid_body: RigidBody::Static,
    }
}

/// What exists on every screen: a player who may choose the first level,
/// the paddle, the left, right and top borders, and the boundary below the
/// paddle.
pub open spec fn permanent_world() -> WorldView {
    WorldView {
        player: Some(Player { highest_selectable_level: SelectedLevel::Level1 }),
        paddle: Some(
            Entity {
                id: 0,
                marker: PlayerPaddle,
                body: Body {
                    sprite: Some(Sprite::of(Image::PaddleBlue)),
                    transform: Transform {
                        translation: Vec2 { x: 0, y: PADDLE_Y },
                        quarter_turns: 0,
                        scale: Vec2 { x: PADDLE_SCALE_X, y: 100 },
                    },
                    add_collider: Some(
                        AddCollider { collider_scale: 100, collider_type: ColliderType::Capsule },
                    ),
                    collider: None,
                    rigid_body: RigidBody::Static,
                },
            },
        ),
        ball: None,
        bottom_collider: Some(
            Entity {
                id: 4,
                marker: BottomCollider,
                body: Body {
                    sprite: None,
                    transform: Transform::at(Vec2 { x: 0, y: BOTTOM_COLLIDER_Y }),
                    add_collider: None,
                    collider: Some(
                        Collider::Rectangle {
                            width: BOTTOM_COLLIDER_WIDTH,
                            height: BOTTOM_COLLIDER_HEIGHT,
                        },
                    ),
                    rigid_body: RigidBody::Static,
                },
            },
        ),
        permanent_elements: seq![
            Entity {
                id: 1,
                marker: PermanentElement,
                body: border_body(
                    Vec2 { x: LEFT_BORDER_X, y: 0 },
                    LEFT_BORDER_TURNS,
                    SIDE_BORDER_SCALE,
                ),
            },
            Entity {
                id: 2,
                marker: PermanentElement,
                body: border_body(
                    Vec2 { x: RIGHT_BORDER_X, y: 0 },
                    RIGHT_BORDER_TURNS,
                    SIDE_BORDER_SCALE,
                ),
            },
            Entity {
                id: 3,
                marker: PermanentElement,
                body: border_body(Vec2 { x: 0, y: TOP_BORDER_Y }, 0, TOP_BORDER_SCALE),
            },
        ],
        destructible_elements: Seq::empty(),
        indestructible_elements: Seq::empty(),
        selector_blocks: Seq::empty(),
        selector_outlines: Seq::empty(),
        next_id: 5,
    }
}

/// Spawns everything that is the same on every screen.
pub fn setup() -> (world: World)
    ensures
        world@.wf(),
        world@ == permanent_world(),
{
    let mut world = World::new();
    world.player = Some(Player { highest_selectable_level: SelectedLevel::Level1 });

    world.paddle = Some(
        Entity {
            id: 0,
            marker: PlayerPaddle,
            body: Body {
                sprite: Some(Sprite::from_image(Image::PaddleBlue)),
                transform: Transform {
                    translation: Vec2::new(0, PADDLE_Y),
                    quarter_turns: 0,
                    scale: Vec2::new(PADDLE_SCALE_X, 100),
                },
                add_collider: Some(
                    AddCollider { collider_scale: 100, collider_type: ColliderType::Capsule },
                ),
                collider: None,
                rigid_body: RigidBody::Static,
            },
        },
    );

    let border_sprite = Some(Sprite::from_image(Image::Border));
    let border_collider = Some(
        AddCollider { collider_scale: 100, collider_type: ColliderType::RoundedRectangle },
    );
    // left border
    let mut permanent_element_transform = Transform {
        translation: Vec2::new(LEFT_BORDER_X, 0),
        quarter_turns: LEFT_BORDER_TURNS,
        scale: Vec2::new(SIDE_BORDER_SCALE, 100),
    };
    world.permanent_elements.push(
        Entity {
            id: 1,
            marker: PermanentElement,
            body: Body {
                sprite: border_sprite,
                transform: permanent_element_transform,
                add_collider: border_collider,
                collider: None,
                rigid_body: RigidBody::Static,
            },
        },
    );

    // right border
    permanent_element_transform.translation = Vec2::new(RIGHT_BORDER_X, 0);
    permanent_element_transform.quarter_turns = RIGHT_BORDER_TURNS;
    world.permanent_elements.push(
        Entity {
            id: 2,
            marker: PermanentElement,
            body: Body {
                sprite: border_sprite,
                transform: permanent_element_transform,
                add_collider: border_collider,
                collider: None,
                rigid_body: RigidBody::Static,
            },
        },
    );

    // top border
    permanent_element_transform.translation = Vec2::new(0, TOP_BORDER_Y);
    permanent_element_transform.quarter_turns = 0;
    permanent_element_transform.scale.x = TOP_BORDER_SCALE;
    world.permanent_elements.push(
        Entity {
            id: 3,
            marker: PermanentElement,
            body: Body {
                sprite: border_sprite,
                transform: permanent_element_transform,
                add_collider: border_collider,
                collider: None,
                rigid_body: RigidBody::Static,
            },
        },
    );

    world.bottom_collider = Some(
        Entity {
            id: 4,
            marker: BottomCollider,
            body: Body {
                sprite: None,
                transform: Transform::from_xy(0, BOTTOM_COLLIDER_Y),
                add_collider: None,
                collider: Some(
                    Collider::Rectangle {
                        width: BOTTOM_COLLIDER_WIDTH,
                        height: BOTTOM_COLLIDER_HEIGHT,
                    },
                ),
                rigid_body: RigidBody::Static,
            },
        },
    );
    world.next_id = 5;
    proof {
        assert(world@.permanent_elements =~= permanent_world().permanent_elements);
    }
    world
}

/// The world `world` without the entities of the screen of `screen`: the
/// selectors of the selection screen, the blocks of the level screen.
pub open spec fn without_screen(world: WorldView, screen: GameState) -> WorldView {
    match screen {
        GameState::Selection => WorldView {
            selector_blocks: Seq::empty(),
            selector_outlines: Seq::empty(),
            ..world
        },
        GameState::Levels => WorldView {
            destructible_elements: Seq::empty(),
            indestructible_elements: Seq::empty(),
            ..world
        },
    }
}

/// Despawns every entity that belongs to the screen of `screen`.
pub fn despawn_screen(screen: GameState, world: &mut World)
    requires
        old(world)@.wf(),
    ensures
        final(world)@.wf(),
        final(world)@ == without_screen(old(world)@, screen),
{
    match screen {
        GameState::Selection => {
            world.selector_blocks.clear();
            world.selector_outlines.clear();
        },
        GameState::Levels => {
            world.destructible_elements.clear();
            world.indestructible_elements.clear();
        },
    }
    proof {
        lemma_holds_no_more(old(world)@, world@);
    }
}


impl GameView {
    /// The invariant of a session: its world is well formed, and of the
    /// entities that belong to a screen only those of the screen that is
    /// shown exist.
    pub open spec fn wf(self) -> bool {
        &&& self.world.wf()
        &&& self.state == GameState::Selection ==> self.world.destructible_elements.len() == 0
            && self.world.indestructible_elements.len() == 0
        &&& self.state == GameState::Levels ==> self.world.selector_blocks.len() == 0
            && self.world.selector_outlines.len() == 0
    }
}

/// The session as it starts: the selection screen, with the selectors as a
/// player sees them who may choose the first level only.
pub open spec fn new_game() -> GameView {
    GameView {
        state: GameState::Selection,
        next_state: NextState::Unchanged,
        last_selected_level: LastSelectedLevel { selected_level: SelectedLevel::Level1 },
        world: with_selectors(permanent_world()),
        events: EventsView::empty(),
    }
}

/// Whether the level is cleared at the start of this frame.
pub open spec fn clears_level(game: GameView) -> bool {
    &&& game.state == GameState::Levels
    &&& game.world.player is Some
    &&& level_cleared(game.events.block_destroyed, game.world.destructible_elements)
}

/// Whether the unlock rule can be applied if the level is cleared.
pub open spec fn can_unlock(game: GameView) -> bool {
    clears_level(game) ==> unlock_defined(
        game.world.player.unwrap().highest_selectable_level,
        game.last_selected_level.selected_level,
    )
}

/// The session after the first stage of a frame: a cleared level moves the
/// frontier of the player by the unlock rule, asks for the destruction of
/// the ball and for the selection screen.
pub open spec fn after_first(game: GameView) -> GameView {
    if clears_level(game) {
        GameView {
            next_state: NextState::Pending(GameState::Selection),
            world: WorldView {
                player: Some(
                    Player {
                        highest_selectable_level: unlocked(
                            game.world.player.unwrap().highest_selectable_level,
                            game.last_selected_level.selected_level,
                        ),
                    },
                ),
                ..game.world
            },
            events: EventsView {
                ball_destroyed: game.events.ball_destroyed.push(BallDestroyedEvent),
                block_destroyed: Seq::empty(),
                ..game.events
            },
            ..game
        }
    } else {
        GameView { events: EventsView { block_destroyed: Seq::empty(), ..game.events }, ..game }
    }
}

/// The session after the stage in which the ball's contacts are counted.
pub open spec fn after_pre_update(
    game: GameView,
    collisions: Seq<ContactPair>,
    ball_position: Vec2,
    ball_speed: int,
) -> GameView {
    GameView {
        world: WorldView {
            ball: ball_struck(ball_moved(game.world.ball, ball_position), collisions, ball_speed),
            ..game.world
        },
        ..game
    }
}

/// The session after the entry system of its screen has run: the selection
/// screen gets its selectors, the level screen the blocks of the level
/// that was selected.
pub open spec fn entered(game: GameView) -> GameView {
    match game.state {
        GameState::Selection => GameView { world: with_selectors(game.world), ..game },
        GameState::Levels => GameView {
            world: with_layout(game.world, selected_layouts(game.events.level_selected)),
            last_selected_level: if game.events.level_selected.len() > 0 {
                LastSelectedLevel {
                    selected_level: game.events.level_selected.last().selected_level,
                }
            } else {
                game.last_selected_level
            },
            events: EventsView { level_selected: Seq::empty(), ..game.events },
            ..game
        },
    }
}

/// The screen that comes with this frame, if another one was asked for.
pub open spec fn coming_screen(game: GameView) -> Option<GameState> {
    match game.next_state {
        NextState::Pending(target) => if target != game.state {
            Some(target)
        } else {
            None
        },
        NextState::Unchanged => None,
    }
}

/// Whether the entities of the screen that comes can be given identifiers.
pub open spec fn room_to_enter(game: GameView) -> bool {
    match coming_screen(game) {
        Some(GameState::Selection) => game.world.has_room(4),
        Some(GameState::Levels) => game.world.has_room(
            selected_layouts(game.events.level_selected).len() as int,
        ),
        None => true,
    }
}

/// The session after the change of screen that was asked for: the
/// entities of the old screen are gone, then the new screen is entered.
pub open spec fn after_state_transition(game: GameView) -> GameView {
    match coming_screen(game) {
        Some(target) => entered(
            GameView {
                state: target,
                next_state: NextState::Unchanged,
                world: without_screen(game.world, game.state),
                ..game
            },
        ),
        None => GameView { next_state: NextState::Unchanged, ..game },
    }
}

/// The session after the devices were read.
pub open spec fn after_fixed_update(
    game: GameView,
    input: ButtonInput,
    cursor: Seq<CursorMoved>,
) -> GameView {
    GameView {
        events: EventsView {
            mouse_move: game.events.mouse_move + mouse_moves_of(cursor),
            left_mouse_press: with_event(
                game.events.left_mouse_press,
                input.left_just_pressed,
                LeftMousePressEvent,
            ),
            left_mouse_release: with_event(
                game.events.left_mouse_release,
                input.left_just_released,
                LeftMouseReleaseEvent,
            ),
            right_mouse_press: with_event(
                game.events.right_mouse_press,
                input.right_just_pressed,
                RightMousePressEvent,
            ),
            ..game.events
        },
        ..game
    }
}

/// The session after the presses of the primary button were looked at.
pub open spec fn after_press(game: GameView) -> GameView {
    GameView {
        world: world_after_press(game.world, game.events.left_mouse_press),
        events: EventsView { left_mouse_press: Seq::empty(), ..game.events },
        ..game
    }
}

/// The session after the releases of the primary button were looked at.
pub open spec fn after_release(game: GameView) -> GameView {
    GameView {
        world: WorldView {
            paddle: paddle_after_release(
                game.world.paddle,
                game.world.ball,
                game.events.left_mouse_release,
            ),
            ball: ball_after_release(
                game.world.paddle,
                game.world.ball,
                game.events.left_mouse_release,
            ),
            ..game.world
        },
        events: EventsView { left_mouse_release: Seq::empty(), ..game.events },
        ..game
    }
}

/// The session after the movements of the pointer were looked at.
pub open spec fn after_mouse_move(game: GameView) -> GameView {
    GameView {
        world: WorldView {
            paddle: paddle_after_moves(game.world.paddle, game.events.mouse_move),
            ball: ball_after_moves(game.world.paddle, game.world.ball, game.events.mouse_move),
            ..game.world
        },
        events: EventsView { mouse_move: Seq::empty(), ..game.events },
        ..game
    }
}

/// The session after the requests for the destruction of the ball were
/// looked at.
pub open spec fn after_ball_destroyed(game: GameView) -> GameView {
    GameView {
        next_state: next_state_after_destruction(
            game.next_state,
            game.world.ball,
            game.events.ball_destroyed,
            game.state,
            game.world.destructible_elements,
        ),
        world: WorldView {
            ball: ball_after_destruction(game.world.ball, game.events.ball_destroyed),
            ..game.world
        },
        events: EventsView { ball_destroyed: Seq::empty(), ..game.events },
        ..game
    }
}

/// The session after the presses of the secondary button were looked at:
/// on the level screen a press abandons the attempt, elsewhere it is
/// forgotten.
pub open spec fn after_right_press(game: GameView) -> GameView {
    if game.state == GameState::Levels && game.events.right_mouse_press.len() > 0 {
        GameView {
            next_state: NextState::Pending(GameState::Selection),
            events: EventsView {
                right_mouse_press: Seq::empty(),
                ball_destroyed: game.events.ball_destroyed.push(BallDestroyedEvent),
                ..game.events
            },
            ..game
        }
    } else {
        GameView { events: EventsView { right_mouse_press: Seq::empty(), ..game.events }, ..game }
    }
}

/// The session after the ball's contacts with blocks were looked at: on the
/// level screen the ball destroys at most one block.
pub open spec fn after_block_contact(game: GameView, collisions: Seq<ContactPair>) -> GameView {
    if game.state == GameState::Levels {
        match broken_block(game.world.ball, game.world.destructible_elements, collisions) {
            Some(index) => GameView {
                world: WorldView {
                    destructible_elements: game.world.destructible_elements.remove(index),
                    ..game.world
                },
                events: EventsView {
                    block_destroyed: game.events.block_destroyed.push(BlockDestroyedEvent),
                    ..game.events
                },
                ..game
            },
            None => game,
        }
    } else {
        game
    }
}

/// The session after the ball's contacts with selectors were looked at: on
/// the selection screen the ball selects the level of the first block it
/// hits, and is to be destroyed by a block as by an outline.
pub open spec fn after_selector_contact(game: GameView, collisions: Seq<ContactPair>) -> GameView {
    if game.state == GameState::Selection {
        let selected = selected_block(game.world.ball, game.world.selector_blocks, collisions);
        let bounced = bounced_off(game.world.ball, game.world.selector_outlines, collisions);
        let after_selection = with_event(
            game.events.ball_destroyed,
            selected is Some,
            BallDestroyedEvent,
        );
        GameView {
            next_state: if selected is Some {
                NextState::Pending(GameState::Levels)
            } else {
                game.next_state
            },
            events: EventsView {
                ball_destroyed: with_event(after_selection, bounced, BallDestroyedEvent),
                level_selected: match selected {
                    Some(index) => game.events.level_selected.push(
                        LevelSelectedEvent {
                            selected_level: game.world.selector_blocks[index].marker.selected_level,
                        },
                    ),
                    None => game.events.level_selected,
                },
                ..game.events
            },
            ..game
        }
    } else {
        game
    }
}

/// The session after the main stage of a frame: the button presses and
/// releases, the pointer, then what the ball hit on the screen that is
/// shown, and last the destruction of the ball.
pub open spec fn after_update(game: GameView, collisions: Seq<ContactPair>) -> GameView {
    after_ball_destroyed(
        after_selector_contact(
            after_block_contact(
                after_right_press(after_mouse_move(after_release(after_press(game)))),
                collisions,
            ),
            collisions,
        ),
    )
}

/// The session after the stage that finds a lost ball: one that has left
/// the region in which a ball can sensibly be, or one that touches the
/// boundary below the paddle.
pub open spec fn after_post_update(game: GameView, collisions: Seq<ContactPair>) -> GameView {
    let astray = game.world.ball matches Some(ball) && out_of_bounds(
        ball.body.transform.translation,
    );
    let fallen = fell_through(game.world.ball, game.world.bottom_collider, collisions);
    GameView {
        events: EventsView {
            ball_destroyed: with_event(
                with_event(game.events.ball_destroyed, astray, BallDestroyedEvent),
                fallen,
                BallDestroyedEvent,
            ),
            ..game.events
        },
        ..game
    }
}

/// The session after the last stage of a frame, in which colliders are
/// built.
pub open spec fn after_last(game: GameView, images: Seq<LoadedImage>) -> GameView {
    GameView { world: with_colliders(game.world, images), ..game }
}

impl Game {
    /// Starts a session on the selection screen.
    pub fn new() -> (game: Game)
        ensures
            game@.wf(),
            game@ == new_game(),
    {
        let mut world = setup();
        selection_setup(&mut world);
        Game {
            state: GameState::Selection,
            next_state: NextState::Unchanged,
            last_selected_level: LastSelectedLevel { selected_level: SelectedLevel::Level1 },
            world,
            events: Events {
                mouse_move: Vec::new(),
                left_mouse_press: Vec::new(),
                left_mouse_release: Vec::new(),
                right_mouse_press: Vec::new(),
                ball_destroyed: Vec::new(),
                block_destroyed: Vec::new(),
                level_selected: Vec::new(),
            },
        }
    }

    /// The first stage of a frame: finds out whether the block that was
    /// destroyed in the frame before was the last one.
    pub fn first(&mut self)
        requires
            old(self)@.wf(),
            can_unlock(old(self)@),
        ensures
            final(self)@.wf(),
            final(self)@ == after_first(old(self)@),
    {
        if self.state == GameState::Levels {
            if let Some(mut player) = self.world.player {
                handle_event_block_destroyed(
                    &mut player,
                    &self.last_selected_level,
                    &mut self.next_state,
                    &mut self.events.ball_destroyed,
                    &mut self.events.block_destroyed,
                    &self.world.destructible_elements,
                );
                self.world.player = Some(player);
            } else {
                self.events.block_destroyed.clear();
            }
        } else {
            self.events.block_destroyed.clear();
        }
        proof {
            assert(self@.events.block_destroyed =~= Seq::empty());
            lemma_holds_no_more(old(self)@.world, self@.world);
        }
    }

    /// The stage before the main one: takes the ball's position over from
    /// the physics and lets the ball's contacts raise its speed and power.
    /// Returns the speed that the physics is to give the ball, if it changed.
    pub fn pre_update(
        &mut self,
        collisions: &Vec<ContactPair>,
        ball_position: Vec2,
        ball_speed: u32,
    ) -> (new_speed: Option<u32>)
        requires
            old(self)@.wf(),
            speed_fits(old(self)@.world.ball, collisions@, ball_speed as int),
        ensures
            final(self)@.wf(),
            final(self)@ == after_pre_update(
                old(self)@,
                collisions@,
                ball_position,
                ball_speed as int,
            ),
            new_speed == speed_after(old(self)@.world.ball, collisions@, ball_speed as int),
    {
        follow_physics(&mut self.world.ball, ball_position);
        let new_speed = handle_collision_player_ball(&mut self.world.ball, collisions, ball_speed);
        proof {
            lemma_holds_no_more(old(self)@.world, self@.world);
        }
        new_speed
    }

    /// Makes the change of screen that was asked for.
    pub fn state_transition(&mut self)
        requires
            old(self)@.wf(),
            room_to_enter(old(self)@),
        ensures
            final(self)@.wf(),
            final(self)@ == after_state_transition(old(self)@),
    {
        let next_state = self.next_state;
        self.next_state = NextState::Unchanged;
        if let NextState::Pending(target) = next_state {
            if target != self.state {
                // when leaving a screen, despawn everything that was spawned for it
                despawn_screen(self.state, &mut self.world);
                self.state = target;
                // when entering a screen, spawn everything that it needs
                match target {
                    GameState::Selection => {
                        selection_setup(&mut self.world);
                    },
                    GameState::Levels => {
                        proof {
                            lemma_layout_frame(
                                self.world@,
                                selected_layouts(self.events.level_selected@),
                            );
                        }
                        level_setup(
                            &mut self.world,
                            &mut self.last_selected_level,
                            &mut self.events.level_selected,
                        );
                        proof {
                            assert(self@.events.level_selected =~= Seq::empty());
                        }
                    },
                }
            }
        }
    }

    /// Reads the devices.
    pub fn fixed_update(&mut self, input: &ButtonInput, cursor_evr: &mut Vec<CursorMoved>)
        requires
            old(self)@.wf(),
        ensures
            final(self)@.wf(),
            final(self)@ == after_fixed_update(old(self)@, *input, old(cursor_evr)@),
            final(cursor_evr)@.len() == 0,
    {
        handle_raw_input(
            input,
            cursor_evr,
            &mut self.events.mouse_move,
            &mut self.events.left_mouse_press,
            &mut self.events.left_mouse_release,
            &mut self.events.right_mouse_press,
        );
    }

    /// The main stage of a frame.  Returns the impulse that the physics is
    /// to give the ball, if the ball was launched.
    pub fn update(&mut self, collisions: &Vec<ContactPair>) -> (impulse: Option<Vec2>)
        requires
            old(self)@.wf(),
            press_spawns_ball(old(self)@.world, old(self)@.events.left_mouse_press) ==> old(
                self,
            )@.world.has_room(1),
        ensures
            final(self)@.wf(),
            final(self)@ == after_update(old(self)@, collisions@),
            impulse == launch_impulse(
                after_press(old(self)@).world.paddle,
                after_press(old(self)@).world.ball,
                old(self)@.events.left_mouse_release,
            ),
    {
        handle_left_mouse_press_events(&mut self.world, &mut self.events.left_mouse_press);
        proof {
            assert(self@.events.left_mouse_press =~= Seq::empty());
        }
        let ghost pressed = self.world@;

        let impulse = handle_left_mouse_release_events(
            &mut self.world.paddle,
            &mut self.world.ball,
            &mut self.events.left_mouse_release,
        );
        proof {
            assert(self@.events.left_mouse_release =~= Seq::empty());
        }

        handle_mouse_move_events(
            &mut self.world.paddle,
            &mut self.world.ball,
            &mut self.events.mouse_move,
        );
        proof {
            assert(self@.events.mouse_move =~= Seq::empty());
        }

        if self.state == GameState::Levels {
            handle_right_mouse_press_event(
                &mut self.next_state,
                &mut self.events.right_mouse_press,
                &mut self.events.ball_destroyed,
            );
        } else {
            self.events.right_mouse_press.clear();
        }
        proof {
            assert(self@.events.right_mouse_press =~= Seq::empty());
        }

        let ghost aimed = self.world@;
        if self.state == GameState::Levels {
            handle_collision_player_ball_with_destructible_element(
                &self.world.ball,
                &mut self.world.destructible_elements,
                collisions,
                &mut self.events.block_destroyed,
            );
        }

        if self.state == GameState::Selection {
            handle_collision_player_ball_and_selection_block(
                &self.world.ball,
                &mut self.next_state,
                collisions,
                &self.world.selector_blocks,
                &self.world.selector_outlines,
                &mut self.events.ball_destroyed,
                &mut self.events.level_selected,
            );
        }

        handle_ball_destroyed_event(
            &mut self.world.ball,
            &mut self.events.ball_destroyed,
            self.state,
            &mut self.next_state,
            &self.world.destructible_elements,
        );
        proof {
            assert(self@.events.ball_destroyed =~= Seq::empty());
            let after = self.world@;
            assert forall|id: EntityId| #[trigger]
                list_holds(after.destructible_elements, id) implies list_holds(
                pressed.destructible_elements,
                id,
            ) by {
                match broken_block(aimed.ball, aimed.destructible_elements, collisions@) {
                    Some(index) => {
                        if self.state == GameState::Levels {
                            lemma_remove_holds(aimed.destructible_elements, index, id);
                        }
                    },
                    None => {},
                }
            }
            lemma_holds_no_more(pressed, after);
        }
        impulse
    }

    /// The stage after the main one: finds a ball that is lost.
    pub fn post_update(&mut self, collisions: &Vec<ContactPair>)
        requires
            old(self)@.wf(),
        ensures
            final(self)@.wf(),
            final(self)@ == after_post_update(old(self)@, collisions@),
    {
        player_ball_physics_sanity_check(&self.world.ball, &mut self.events.ball_destroyed);
        handle_collision_player_ball_and_bottom_collider(
            &self.world.ball,
            &self.world.bottom_collider,
            collisions,
            &mut self.events.ball_destroyed,
        );
    }

    /// The last stage of a frame: builds the colliders whose images have
    /// arrived.
    pub fn last(&mut self, images: &Vec<LoadedImage>)
        requires
            old(self)@.wf(),
        ensures
            final(self)@.wf(),
            final(self)@ == after_last(old(self)@, images@),
    {
        add_colliders(&mut self.world, images);
    }
}


/// What the outside hands in at the start of a frame.
pub struct FrameInput {
    /// What the buttons did since the last frame.
    pub buttons: ButtonInput,
    /// The movements of the pointer since the last frame, in order.
    pub cursor_moved: Vec<CursorMoved>,
    /// The contact pairs of this step of the physics.
    pub collisions: Vec<ContactPair>,
    /// Where the physics has the ball.
    pub ball_position: Vec2,
    /// How fast the physics has the ball.
    pub ball_speed: u32,
    /// The images that the renderer has loaded so far.
    pub loaded_images: Vec<LoadedImage>,
}

/// What the outside is to do after a frame, beside showing the world.
#[derive(Clone, Copy, Debug, PartialEq, Eq, Structural)]
pub struct FrameOutput {
    /// The speed to give the ball along its present direction.
    pub ball_speed: Option<u32>,
    /// The impulse to give the ball.
    pub launch_impulse: Option<Vec2>,
}

/// The session of `game` at the start of the main stage of a frame with
/// input `input`.
pub open spec fn before_update(game: GameView, input: FrameInput) -> GameView {
    after_fixed_update(
        after_state_transition(
            after_pre_update(
                after_first(game),
                input.collisions@,
                input.ball_position,
                input.ball_speed as int,
            ),
        ),
        input.buttons,
        input.cursor_moved@,
    )
}

/// The session of `game` after a frame with input `input`: the stages of a
/// frame, one after the other.
pub open spec fn after_frame(game: GameView, input: FrameInput) -> GameView {
    after_last(
        after_post_update(
            after_update(before_update(game, input), input.collisions@),
            input.collisions@,
        ),
        input.loaded_images@,
    )
}

/// What a frame with input `input` asks of the outside.
pub open spec fn frame_output(game: GameView, input: FrameInput) -> FrameOutput {
    let pressed = after_press(before_update(game, input));
    FrameOutput {
        ball_speed: speed_after(game.world.ball, input.collisions@, input.ball_speed as int),
        launch_impulse: launch_impulse(
            pressed.world.paddle,
            pressed.world.ball,
            before_update(game, input).events.left_mouse_release,
        ),
    }
}

/// Whether a frame with input `input` can run: the unlock rule can be
/// applied, and speeds and identifiers stay within what can be stored.
pub open spec fn frame_ready(game: GameView, input: FrameInput) -> bool {
    &&& can_unlock(game)
    &&& speed_fits(game.world.ball, input.collisions@, input.ball_speed as int)
    &&& room_to_enter(
        after_pre_update(
            after_first(game),
            input.collisions@,
            input.ball_position,
            input.ball_speed as int,
        ),
    )
    &&& (press_spawns_ball(
        before_update(game, input).world,
        before_update(game, input).events.left_mouse_press,
    ) ==> before_update(game, input).world.has_room(1))
}

impl Game {
    /// Runs one frame: every stage, in order.
    pub fn run_frame(&mut self, input: FrameInput) -> (output: FrameOutput)
        requires
            old(self)@.wf(),
            frame_ready(old(self)@, input),
        ensures
            final(self)@.wf(),
            final(self)@ == after_frame(old(self)@, input),
            output == frame_output(old(self)@, input),
    {
        let FrameInput {
            buttons,
            cursor_moved,
            collisions,
            ball_position,
            ball_speed,
            loaded_images,
        } = input;
        let mut cursor_moved = cursor_moved;
        self.first();
        let new_speed = self.pre_update(&collisions, ball_position, ball_speed);
        self.state_transition();
        self.fixed_update(&buttons, &mut cursor_moved);
        let launch_impulse = self.update(&collisions);
        self.post_update(&collisions);
        self.last(&loaded_images);
        FrameOutput { ball_speed: new_speed, launch_impulse }
    }
}

/// The number of the highest level that the player of `game` may choose;
/// none before there is a player.
pub open spec fn progress(game: GameView) -> int {
    match game.world.player {
        Some(player) => player.highest_selectable_level.number(),
        None => 0,
    }
}

/// No frame takes back what the player has unlocked: the highest
/// selectable level after a frame is at least the one before it.
pub proof fn lemma_progress_never_lost(game: GameView, input: FrameInput)
    ensures
        progress(after_frame(game, input)) >= progress(game),
{
    let first = after_first(game);
    let struck = after_pre_update(
        first,
        input.collisions@,
        input.ball_position,
        input.ball_speed as int,
    );
    let changed = after_state_transition(struck);
    assert(changed.world.player == struck.world.player) by {
        lemma_layout_frame(
            without_screen(struck.world, struck.state),
            selected_layouts(struck.events.level_selected),
        );
    }
}

/// Clearing the level that is the player's frontier moves the frontier to
/// the next level; clearing an earlier level leaves it where it is.
pub proof fn lemma_unlock_rule(game: GameView)
    requires
        clears_level(game),
        can_unlock(game),
    ensures
        ({
            let highest = game.world.player.unwrap().highest_selectable_level;
            let cleared = game.last_selected_level.selected_level;
            &&& cleared == highest ==> progress(after_first(game)) == highest.number() + 1
            &&& cleared.number() < highest.number() ==> progress(after_first(game))
                == highest.number()
            &&& after_first(game).next_state == NextState::Pending(GameState::Selection)
        }),
{
}

/// On the level screen a press of the secondary button ends the attempt,
/// whatever the ball touches in that frame: the ball is gone, the selection
/// screen is asked for, and the player has unlocked nothing by it.
pub proof fn lemma_abort_ends_attempt(game: GameView, collisions: Seq<ContactPair>)
    requires
        game.state == GameState::Levels,
        game.events.right_mouse_press.len() > 0,
    ensures
        after_update(game, collisions).next_state == NextState::Pending(GameState::Selection),
        after_update(game, collisions).world.ball is None,
        after_update(game, collisions).world.player == game.world.player,
{
}

/// A ball whose destruction was asked for on the level screen, while more
/// blocks are left than the ball can destroy in a frame, ends the attempt:
/// after the frame the ball is gone, the selection screen is asked for, and
/// the player's frontier is where it was.
pub proof fn lemma_lost_ball_ends_attempt(game: GameView, input: FrameInput)
    requires
        game.state == GameState::Levels,
        game.next_state == NextState::Unchanged,
        game.world.ball is Some,
        game.events.ball_destroyed.len() > 0,
        game.world.destructible_elements.len() > 1,
        !input.buttons.right_just_pressed,
        game.events.right_mouse_press.len() == 0,
    ensures
        after_frame(game, input).state == GameState::Levels,
        after_frame(game, input).next_state == NextState::Pending(GameState::Selection),
        after_frame(game, input).world.ball is None,
        after_frame(game, input).world.player == game.world.player,
{
    let start = before_update(game, input);
    let abandoned = after_right_press(after_mouse_move(after_release(after_press(start))));
    match abandoned.world.ball {
        Some(ball) => {
            let elements = abandoned.world.destructible_elements;
            match first_index_where(input.collisions@, breaking(ball, elements)) {
                Some(first) => {
                    lemma_first_index_meaning(
                        elements,
                        |entity: Entity<DestructibleElement>|
                            entity.id == input.collisions@[first].partner(ball.id),
                    );
                },
                None => {},
            }
        },
        None => {},
    }
}

/// A ball that touches the boundary below the paddle at the end of a frame
/// is asked to be destroyed.
pub proof fn lemma_fallen_ball_is_given_up(game: GameView, collisions: Seq<ContactPair>)
    requires
        fell_through(game.world.ball, game.world.bottom_collider, collisions),
    ensures
        after_post_update(game, collisions).events.ball_destroyed.len() > 0,
{
}

/// When the selection screen was asked for on the level screen, the next
/// change of screen removes the blocks of the level and spawns the
/// selectors as the player's progress has them.
pub proof fn lemma_selection_comes_back(game: GameView)
    requires
        game.wf(),
        game.state == GameState::Levels,
        game.next_state == NextState::Pending(GameState::Selection),
    ensures
        after_state_transition(game).state == GameState::Selection,
        after_state_transition(game).next_state == NextState::Unchanged,
        after_state_transition(game).world == with_selectors(
            without_screen(game.world, GameState::Levels),
        ),
        after_state_transition(game).world.destructible_elements.len() == 0,
        after_state_transition(game).world.selector_blocks.len() == 2,
        after_state_transition(game).world.player == game.world.player,
{
}

/// When a level was selected on the selection screen, the next change of
/// screen removes the selectors, spawns the blocks of that level and
/// records it as the level that is played.
pub proof fn lemma_selected_level_is_entered(game: GameView, level: SelectedLevel)
    requires
        game.state == GameState::Selection,
        game.next_state == NextState::Pending(GameState::Levels),
        game.events.level_selected == seq![LevelSelectedEvent { selected_level: level }],
    ensures
        after_state_transition(game).state == GameState::Levels,
        after_state_transition(game).last_selected_level.selected_level == level,
        after_state_transition(game).world == with_layout(
            without_screen(game.world, GameState::Selection),
            level_layout(level),
        ),
        after_state_transition(game).world.selector_blocks.len() == 0,
        after_state_transition(game).world.selector_outlines.len() == 0,
        after_state_transition(game).world.player == game.world.player,
{
    let events = game.events.level_selected;
    assert(selected_layouts(events.drop_last()) =~= Seq::empty());
    lemma_layout_frame(without_screen(game.world, GameState::Selection), level_layout(level));
}

/// On the selection screen a ball that touches nothing but a selector
/// block selects the level of that block: the level is announced and the
/// level screen is asked for.
pub proof fn lemma_selector_hit_selects_level(game: GameView, block: int)
    requires
        game.wf(),
        game.state == GameState::Selection,
        game.world.ball is Some,
        0 <= block < game.world.selector_blocks.len(),
    ensures
        ({
            let hit = ContactPair {
                collider1: game.world.ball.unwrap().id,
                collider2: game.world.selector_blocks[block].id,
            };
            let after = after_selector_contact(game, seq![hit]);
            &&& after.next_state == NextState::Pending(GameState::Levels)
            &&& after.events.level_selected == game.events.level_selected.push(
                LevelSelectedEvent {
                    selected_level: game.world.selector_blocks[block].marker.selected_level,
                },
            )
        }),
{
    let ball = game.world.ball.unwrap();
    let blocks = game.world.selector_blocks;
    let hit = ContactPair { collider1: ball.id, collider2: blocks[block].id };
    lemma_first_index_found(
        blocks,
        |entity: Entity<LevelSelectorBlock>| entity.id == blocks[block].id,
        block,
    );
    lemma_first_index_found(seq![hit], hitting(ball.id, blocks), 0);
}

/// On the level screen a ball that touches nothing but a block whose
/// durability its power overcomes destroys that block, and the destruction
/// is announced.
pub proof fn lemma_hit_destroys_block(game: GameView, block: int)
    requires
        game.wf(),
        game.state == GameState::Levels,
        game.world.ball is Some,
        0 <= block < game.world.destructible_elements.len(),
        destroys(
            game.world.ball.unwrap().marker.power_level,
            game.world.destructible_elements[block].marker.element_durability,
        ),
    ensures
        ({
            let hit = ContactPair {
                collider1: game.world.ball.unwrap().id,
                collider2: game.world.destructible_elements[block].id,
            };
            let after = after_block_contact(game, seq![hit]);
            &&& after.world.destructible_elements == game.world.destructible_elements.remove(
                block,
            )
            &&& after.events.block_destroyed == game.events.block_destroyed.push(
                BlockDestroyedEvent,
            )
        }),
{
    let ball = game.world.ball.unwrap();
    let elements = game.world.destructible_elements;
    let hit = ContactPair { collider1: ball.id, collider2: elements[block].id };
    lemma_first_index_found(
        elements,
        |entity: Entity<DestructibleElement>| entity.id == elements[block].id,
        block,
    );
    lemma_first_index_found(seq![hit], breaking(ball, elements), 0);
}

/// On the selection screen a ball that touches nothing but the outline of
/// a selector selects nothing: its destruction is asked for, and no other
/// screen.
pub proof fn lemma_outline_hit_selects_nothing(game: GameView, outline: int)
    requires
        game.wf(),
        game.state == GameState::Selection,
        game.world.ball is Some,
        0 <= outline < game.world.selector_outlines.len(),
    ensures
        ({
            let hit = ContactPair {
                collider1: game.world.ball.unwrap().id,
                collider2: game.world.selector_outlines[outline].id,
            };
            let after = after_selector_contact(game, seq![hit]);
            &&& after.next_state == game.next_state
            &&& after.events.level_selected == game.events.level_selected
            &&& after.events.ball_destroyed == game.events.ball_destroyed.push(BallDestroyedEvent)
        }),
{
    let ball = game.world.ball.unwrap();
    let blocks = game.world.selector_blocks;
    let outlines = game.world.selector_outlines;
    let id = outlines[outline].id;
    let hit = ContactPair { collider1: ball.id, collider2: id };
    // the outline is found among the outlines
    lemma_first_index_found(
        outlines,
        |entity: Entity<LevelSelectorOutline>| entity.id == id,
        outline,
    );
    lemma_first_index_found(seq![hit], hitting(ball.id, outlines), 0);
    // and, identifiers being unique, not among the blocks
    assert(game.world.holders(id) <= 1);
    assert(list_holds(outlines, id));
    lemma_first_index_meaning(blocks, |entity: Entity<LevelSelectorBlock>| entity.id == id);
    lemma_first_index_missing(seq![hit], hitting(ball.id, blocks));
}

} // verus!
