use kenney_jam_2025::collisions::ContactPair;
use kenney_jam_2025::colliders::LoadedImage;
use kenney_jam_2025::components::Collider;
use kenney_jam_2025::components::RigidBody;
use kenney_jam_2025::game::despawn_screen;
use kenney_jam_2025::game::setup;
use kenney_jam_2025::game::FrameInput;
use kenney_jam_2025::game::FrameOutput;
use kenney_jam_2025::game::Game;
use kenney_jam_2025::geometry::Vec2;
use kenney_jam_2025::input::ButtonInput;
use kenney_jam_2025::input::CursorMoved;
use kenney_jam_2025::level_elements::spawn_element;
use kenney_jam_2025::level_elements::ElementDurability;
use kenney_jam_2025::level_elements::ElementShape;
use kenney_jam_2025::levels::SelectedLevel;
use kenney_jam_2025::selection::selection_setup;
use kenney_jam_2025::sprites::Image;
use kenney_jam_2025::ColliderType;
use kenney_jam_2025::GameState;
use kenney_jam_2025::NextState;
use kenney_jam_2025::PowerLevel;

fn idle() -> FrameInput {
    FrameInput {
        buttons: ButtonInput {
            left_just_pressed: false,
            left_just_released: false,
            right_just_pressed: false,
        },
        cursor_moved: Vec::new(),
        collisions: Vec::new(),
        ball_position: Vec2::new(0, -20000),
        ball_speed: 30000,
        loaded_images: Vec::new(),
    }
}

fn press() -> FrameInput {
    let mut input = idle();
    input.buttons.left_just_pressed = true;
    input
}

fn release() -> FrameInput {
    let mut input = idle();
    input.buttons.left_just_released = true;
    input
}

fn right_press() -> FrameInput {
    let mut input = idle();
    input.buttons.right_just_pressed = true;
    input
}

fn contact(first: u64, second: u64, ball_speed: u32) -> FrameInput {
    let mut input = idle();
    input.collisions = vec![ContactPair::new(first, second)];
    input.ball_speed = ball_speed;
    input
}

/// Brings a ball into flight and returns its identifier.
fn launch(game: &mut Game) -> u64 {
    game.run_frame(press());
    let output = game.run_frame(release());
    assert_eq!(output.launch_impulse, Some(Vec2::new(0, 13000000)));
    let ball = game.world.ball.unwrap();
    assert!(!ball.marker.in_hold);
    ball.id
}

/// Selects a level by letting a ball hit its selector block, and runs the
/// frame in which the level screen comes.
fn enter_level(game: &mut Game, level: SelectedLevel) {
    assert_eq!(game.state, GameState::Selection);
    let ball = launch(game);
    let block = game
        .world
        .selector_blocks
        .iter()
        .find(|block| block.marker.selected_level == level)
        .unwrap()
        .id;
    game.run_frame(contact(ball, block, 30000));
    assert_eq!(game.state, GameState::Selection);
    assert_eq!(game.next_state, NextState::Pending(GameState::Levels));
    assert!(game.world.ball.is_none());
    game.run_frame(idle());
    assert_eq!(game.state, GameState::Levels);
    assert_eq!(game.next_state, NextState::Unchanged);
}

/// Destroys every block of the level that is played, one ball contact per
/// frame, with a ball of the highest power.
fn clear_level(game: &mut Game) {
    let ball = launch(game);
    while let Some(block) = game.world.destructible_elements.first().map(|block| block.id) {
        let left = game.world.destructible_elements.len();
        let output = game.run_frame(contact(block, ball, 90000));
        assert_eq!(output.ball_speed, Some(91000));
        assert_eq!(game.world.destructible_elements.len(), left - 1);
        assert_eq!(game.world.ball.unwrap().marker.power_level, PowerLevel::Highest);
        assert_eq!(game.state, GameState::Levels);
    }
}

#[test]
fn session_starts_on_the_selection_screen() {
    let game = Game::new();
    assert_eq!(game.state, GameState::Selection);
    assert_eq!(game.next_state, NextState::Unchanged);
    assert_eq!(game.last_selected_level.selected_level, SelectedLevel::Level1);
    assert_eq!(
        game.world.player.unwrap().highest_selectable_level,
        SelectedLevel::Level1
    );
    assert!(game.world.ball.is_none());
    assert_eq!(game.world.permanent_elements.len(), 3);
    assert_eq!(game.world.selector_blocks.len(), 2);
    assert_eq!(game.world.selector_outlines.len(), 2);
    assert!(game.world.destructible_elements.is_empty());
    assert!(game.world.indestructible_elements.is_empty());
    assert_eq!(game.world.next_id, 9);
    assert!(game.events.ball_destroyed.is_empty());
    assert!(game.events.level_selected.is_empty());
}

#[test]
fn setup_spawns_what_every_screen_has() {
    let world = setup();
    assert_eq!(world.player.unwrap().highest_selectable_level, SelectedLevel::Level1);
    let paddle = world.paddle.unwrap();
    assert_eq!(paddle.id, 0);
    assert_eq!(paddle.body.transform.translation, Vec2::new(0, -30000));
    assert_eq!(paddle.body.transform.scale, Vec2::new(130, 100));
    assert_eq!(paddle.body.sprite.unwrap().image, Image::PaddleBlue);
    assert_eq!(paddle.body.add_collider.unwrap().collider_type, ColliderType::Capsule);
    assert_eq!(paddle.body.rigid_body, RigidBody::Static);

    let borders: Vec<(u64, Vec2, i8, Vec2)> = world
        .permanent_elements
        .iter()
        .map(|border| {
            (
                border.id,
                border.body.transform.translation,
                border.body.transform.quarter_turns,
                border.body.transform.scale,
            )
        })
        .collect();
    assert_eq!(
        borders,
        vec![
            (1, Vec2::new(-61500, 0), 1, Vec2::new(380, 100)),
            (2, Vec2::new(61500, 0), -1, Vec2::new(380, 100)),
            (3, Vec2::new(0, 33500), 0, Vec2::new(620, 100)),
        ]
    );
    for border in world.permanent_elements.iter() {
        assert_eq!(border.body.sprite.unwrap().image, Image::Border);
        assert_eq!(
            border.body.add_collider.unwrap().collider_type,
            ColliderType::RoundedRectangle
        );
    }
    let bottom = world.bottom_collider.unwrap();
    assert_eq!(bottom.id, 4);
    assert_eq!(bottom.body.transform.translation, Vec2::new(0, -38500));
    assert_eq!(bottom.body.collider, Some(Collider::Rectangle { width: 128000, height: 6000 }));
    assert!(bottom.body.sprite.is_none());
    assert!(world.ball.is_none());
    assert_eq!(world.next_id, 5);
}

#[test]
fn leaving_a_screen_despawns_its_entities_only() {
    let mut world = setup();
    selection_setup(&mut world);
    spawn_element(ElementDurability::Low, ElementShape::Square, Vec2::new(0, 0), &mut world);
    spawn_element(
        ElementDurability::Indestructible,
        ElementShape::Square,
        Vec2::new(0, 0),
        &mut world,
    );
    despawn_screen(GameState::Selection, &mut world);
    assert!(world.selector_blocks.is_empty());
    assert!(world.selector_outlines.is_empty());
    assert_eq!(world.destructible_elements.len(), 1);
    assert_eq!(world.indestructible_elements.len(), 1);
    assert_eq!(world.permanent_elements.len(), 3);

    despawn_screen(GameState::Levels, &mut world);
    assert!(world.destructible_elements.is_empty());
    assert!(world.indestructible_elements.is_empty());
    assert_eq!(world.permanent_elements.len(), 3);
    assert!(world.paddle.is_some());
    assert!(world.bottom_collider.is_some());
    assert_eq!(world.next_id, 11);
}

#[test]
fn ball_is_held_then_launched_then_destroyed() {
    let mut game = Game::new();
    // no ball
    assert!(game.world.ball.is_none());
    let output = game.run_frame(idle());
    assert_eq!(output, FrameOutput { ball_speed: None, launch_impulse: None });
    assert!(game.world.ball.is_none());

    // held
    let output = game.run_frame(press());
    assert_eq!(output.launch_impulse, None);
    let ball = game.world.ball.unwrap();
    assert!(ball.marker.in_hold);
    assert_eq!(ball.id, 9);
    assert_eq!(game.world.paddle.unwrap().body.sprite.unwrap().image, Image::PaddleRed);

    // a second press changes nothing
    game.run_frame(press());
    assert_eq!(game.world.ball.unwrap().id, 9);
    assert_eq!(game.world.next_id, 10);

    // the held ball follows the paddle, not the physics
    let mut input = idle();
    input.cursor_moved = vec![CursorMoved { position: Vec2::new(8000, 0) }];
    input.ball_position = Vec2::new(-1, -1);
    game.run_frame(input);
    assert_eq!(game.world.paddle.unwrap().body.transform.translation.x, 8000);
    assert_eq!(game.world.ball.unwrap().body.transform.translation, Vec2::new(8000, -26000));

    // launched
    let output = game.run_frame(release());
    assert_eq!(output.launch_impulse, Some(Vec2::new(0, 13000000)));
    assert!(!game.world.ball.unwrap().marker.in_hold);
    assert_eq!(game.world.paddle.unwrap().body.sprite.unwrap().image, Image::PaddleBlue);

    // in flight the ball is where the physics has it
    let mut input = idle();
    input.ball_position = Vec2::new(4000, 12000);
    game.run_frame(input);
    assert_eq!(game.world.ball.unwrap().body.transform.translation, Vec2::new(4000, 12000));

    // destroyed: it touches the boundary below the paddle
    game.run_frame(contact(9, 4, 30000));
    assert!(game.world.ball.is_some());
    assert_eq!(game.events.ball_destroyed.len(), 1);
    game.run_frame(idle());
    assert!(game.world.ball.is_none());
    assert!(game.events.ball_destroyed.is_empty());
    assert_eq!(game.state, GameState::Selection);

    // and a new ball can be brought into play
    game.run_frame(press());
    assert_eq!(game.world.ball.unwrap().id, 10);
}

#[test]
fn press_and_release_in_one_frame_launch_at_once() {
    let mut game = Game::new();
    let mut input = press();
    input.buttons.left_just_released = true;
    let output = game.run_frame(input);
    assert_eq!(output.launch_impulse, Some(Vec2::new(0, 13000000)));
    assert!(!game.world.ball.unwrap().marker.in_hold);
}

#[test]
fn ball_that_leaves_the_field_is_destroyed() {
    let mut game = Game::new();
    launch(&mut game);
    let mut input = idle();
    input.ball_position = Vec2::new(150001, 0);
    game.run_frame(input);
    assert_eq!(game.events.ball_destroyed.len(), 1);
    game.run_frame(idle());
    assert!(game.world.ball.is_none());
}

#[test]
fn clearing_the_first_level_unlocks_the_second() {
    let mut game = Game::new();
    assert_eq!(
        game.world.selector_outlines[1].body.add_collider.unwrap().collider_type,
        ColliderType::Rectangle
    );

    enter_level(&mut game, SelectedLevel::Level1);
    assert_eq!(game.last_selected_level.selected_level, SelectedLevel::Level1);
    assert_eq!(game.world.destructible_elements.len(), 30);
    assert!(game.world.selector_blocks.is_empty());
    assert!(game.world.selector_outlines.is_empty());
    assert!(game.events.level_selected.is_empty());
    assert_eq!(
        game.world.destructible_elements[0].body.transform.translation,
        Vec2::new(-35000, -10000)
    );

    clear_level(&mut game);
    assert!(game.world.destructible_elements.is_empty());
    assert_eq!(game.events.block_destroyed.len(), 1);
    assert_eq!(
        game.world.player.unwrap().highest_selectable_level,
        SelectedLevel::Level1
    );

    // the frame after the last block: the level is cleared
    game.run_frame(idle());
    assert_eq!(game.state, GameState::Selection);
    assert_eq!(
        game.world.player.unwrap().highest_selectable_level,
        SelectedLevel::Level2
    );
    assert!(game.world.ball.is_none());
    assert!(game.events.block_destroyed.is_empty());
    assert!(game.events.ball_destroyed.is_empty());

    // the selector of the second level is open now
    assert_eq!(game.world.selector_blocks.len(), 2);
    let block = game.world.selector_blocks[1];
    let outline = game.world.selector_outlines[1];
    assert_eq!(block.marker.selected_level, SelectedLevel::Level2);
    assert_eq!(block.body.add_collider.unwrap().collider_type, ColliderType::RegularPolygon);
    assert_eq!(outline.body.add_collider.unwrap().collider_type, ColliderType::NoCollider);
    assert_eq!(outline.body.sprite.unwrap().image, Image::SelectorOpen);
    for outline in game.world.selector_outlines.iter() {
        assert_ne!(outline.body.add_collider.unwrap().collider_type, ColliderType::Rectangle);
    }

    // and it can be entered
    enter_level(&mut game, SelectedLevel::Level2);
    assert_eq!(game.last_selected_level.selected_level, SelectedLevel::Level2);
    assert_eq!(game.world.destructible_elements.len(), 69);
}

#[test]
fn losing_the_ball_returns_to_the_selection() {
    let mut game = Game::new();
    enter_level(&mut game, SelectedLevel::Level1);
    let ball = launch(&mut game);
    let bottom = game.world.bottom_collider.unwrap().id;

    // the ball falls through the bottom boundary
    game.run_frame(contact(ball, bottom, 30000));
    assert_eq!(game.state, GameState::Levels);
    assert_eq!(game.events.ball_destroyed.len(), 1);
    assert_eq!(game.world.destructible_elements.len(), 30);

    game.run_frame(idle());
    assert!(game.world.ball.is_none());
    assert_eq!(game.next_state, NextState::Pending(GameState::Selection));

    game.run_frame(idle());
    assert_eq!(game.state, GameState::Selection);
    assert_eq!(
        game.world.player.unwrap().highest_selectable_level,
        SelectedLevel::Level1
    );
    assert!(game.world.destructible_elements.is_empty());
    assert_eq!(game.world.selector_blocks.len(), 2);
    assert_eq!(
        game.world.selector_outlines[1].body.add_collider.unwrap().collider_type,
        ColliderType::Rectangle
    );
}

#[test]
fn losing_the_ball_after_some_blocks_keeps_the_frontier() {
    let mut game = Game::new();
    enter_level(&mut game, SelectedLevel::Level1);
    let ball = launch(&mut game);
    let block = game.world.destructible_elements[0].id;
    game.run_frame(contact(ball, block, 30000));
    assert_eq!(game.world.destructible_elements.len(), 29);
    game.run_frame(idle());
    assert_eq!(game.state, GameState::Levels);
    assert_eq!(game.next_state, NextState::Unchanged);

    let bottom = game.world.bottom_collider.unwrap().id;
    game.run_frame(contact(bottom, ball, 30000));
    game.run_frame(idle());
    game.run_frame(idle());
    assert_eq!(game.state, GameState::Selection);
    assert_eq!(
        game.world.player.unwrap().highest_selectable_level,
        SelectedLevel::Level1
    );
}

#[test]
fn locked_selector_cannot_be_chosen() {
    let mut game = Game::new();
    let ball = launch(&mut game);
    let outline = game.world.selector_outlines[1].id;
    game.run_frame(contact(ball, outline, 30000));
    assert!(game.world.ball.is_none());
    assert_eq!(game.next_state, NextState::Unchanged);
    assert!(game.events.level_selected.is_empty());
    game.run_frame(idle());
    assert_eq!(game.state, GameState::Selection);
    assert_eq!(game.world.selector_blocks.len(), 2);
}

#[test]
fn right_press_abandons_a_level() {
    let mut game = Game::new();
    enter_level(&mut game, SelectedLevel::Level1);
    launch(&mut game);
    game.run_frame(right_press());
    assert!(game.world.ball.is_none());
    assert_eq!(game.next_state, NextState::Pending(GameState::Selection));
    game.run_frame(idle());
    assert_eq!(game.state, GameState::Selection);
    assert_eq!(
        game.world.player.unwrap().highest_selectable_level,
        SelectedLevel::Level1
    );
    assert!(game.world.destructible_elements.is_empty());
}

#[test]
fn right_press_without_a_ball_abandons_as_well() {
    let mut game = Game::new();
    enter_level(&mut game, SelectedLevel::Level1);
    assert!(game.world.ball.is_none());
    game.run_frame(right_press());
    game.run_frame(idle());
    assert_eq!(game.state, GameState::Selection);
    assert!(game.events.ball_destroyed.is_empty());
}

#[test]
fn right_press_on_the_selection_screen_is_forgotten() {
    let mut game = Game::new();
    launch(&mut game);
    game.run_frame(right_press());
    assert!(game.world.ball.is_some());
    assert!(game.events.right_mouse_press.is_empty());
    assert_eq!(game.next_state, NextState::Unchanged);
    enter_level_with_ball(&mut game);
    assert_eq!(game.state, GameState::Levels);
    game.run_frame(idle());
    assert_eq!(game.state, GameState::Levels);
}

fn enter_level_with_ball(game: &mut Game) {
    let ball = game.world.ball.unwrap().id;
    let block = game.world.selector_blocks[0].id;
    game.run_frame(contact(ball, block, 30000));
    game.run_frame(idle());
}

#[test]
fn weak_ball_clears_nothing() {
    let mut game = Game::new();
    enter_level(&mut game, SelectedLevel::Level1);
    let ball = launch(&mut game);
    // the second block of the first column has low durability
    let block = game.world.destructible_elements[1].id;
    let output = game.run_frame(contact(ball, block, 10000));
    assert_eq!(output.ball_speed, Some(11000));
    assert_eq!(game.world.ball.unwrap().marker.power_level, PowerLevel::Lowest);
    assert_eq!(game.world.destructible_elements.len(), 30);
    // once it is fast enough, the same contact destroys the block
    let output = game.run_frame(contact(ball, block, 19000));
    assert_eq!(output.ball_speed, Some(20000));
    assert_eq!(game.world.ball.unwrap().marker.power_level, PowerLevel::Low);
    assert_eq!(game.world.destructible_elements.len(), 29);
    assert_eq!(game.events.block_destroyed.len(), 1);
    game.run_frame(idle());
    assert!(game.events.block_destroyed.is_empty());
    assert_eq!(game.state, GameState::Levels);
}

#[test]
fn colliders_arrive_with_the_images() {
    let mut game = Game::new();
    let mut input = idle();
    input.loaded_images = vec![LoadedImage { image: Image::PaddleBlue, size: Vec2::new(10400, 2400) }];
    game.run_frame(input);
    assert_eq!(
        game.world.paddle.unwrap().body.collider,
        Some(Collider::Capsule { radius: 1040, half_length: 4160 })
    );
    assert!(game.world.paddle.unwrap().body.add_collider.is_none());
    assert!(game.world.permanent_elements[0].body.collider.is_none());
}

#[test]
fn stages_can_be_run_one_by_one() {
    let mut game = Game::new();
    let buttons = ButtonInput {
        left_just_pressed: true,
        left_just_released: false,
        right_just_pressed: false,
    };
    let collisions: Vec<ContactPair> = Vec::new();
    let mut cursor = vec![CursorMoved { position: Vec2::new(-2000, 0) }];
    game.first();
    assert_eq!(game.pre_update(&collisions, Vec2::new(0, 0), 0), None);
    game.state_transition();
    game.fixed_update(&buttons, &mut cursor);
    assert!(cursor.is_empty());
    assert_eq!(game.events.left_mouse_press.len(), 1);
    assert_eq!(game.events.mouse_move.len(), 1);
    assert_eq!(game.update(&collisions), None);
    assert!(game.events.left_mouse_press.is_empty());
    assert!(game.events.mouse_move.is_empty());
    game.post_update(&collisions);
    game.last(&Vec::new());
    let ball = game.world.ball.unwrap();
    assert!(ball.marker.in_hold);
    // the ball was put on the paddle before the paddle moved, and moved with it
    assert_eq!(ball.body.transform.translation, Vec2::new(-2000, -26000));
}

#[test]
fn progress_is_never_lost() {
    let mut game = Game::new();
    enter_level(&mut game, SelectedLevel::Level1);
    clear_level(&mut game);
    game.run_frame(idle());
    assert_eq!(
        game.world.player.unwrap().highest_selectable_level,
        SelectedLevel::Level2
    );
    // clearing the first level again keeps the second unlocked and unlocks no third
    enter_level(&mut game, SelectedLevel::Level1);
    clear_level(&mut game);
    game.run_frame(idle());
    assert_eq!(game.state, GameState::Selection);
    assert_eq!(
        game.world.player.unwrap().highest_selectable_level,
        SelectedLevel::Level2
    );
    // clearing the second level unlocks the third
    enter_level(&mut game, SelectedLevel::Level2);
    clear_level(&mut game);
    game.run_frame(idle());
    assert_eq!(
        game.world.player.unwrap().highest_selectable_level,
        SelectedLevel::Level3
    );
}

fn identifiers(game: &Game) -> Vec<u64> {
    let world = &game.world;
    let mut ids: Vec<u64> = Vec::new();
    ids.extend(world.paddle.iter().map(|entity| entity.id));
    ids.extend(world.ball.iter().map(|entity| entity.id));
    ids.extend(world.bottom_collider.iter().map(|entity| entity.id));
    ids.extend(world.permanent_elements.iter().map(|entity| entity.id));
    ids.extend(world.destructible_elements.iter().map(|entity| entity.id));
    ids.extend(world.indestructible_elements.iter().map(|entity| entity.id));
    ids.extend(world.selector_blocks.iter().map(|entity| entity.id));
    ids.extend(world.selector_outlines.iter().map(|entity| entity.id));
    ids
}

fn assert_identifiers_unique(game: &Game) {
    let mut ids = identifiers(game);
    let count = ids.len();
    ids.sort();
    ids.dedup();
    assert_eq!(ids.len(), count);
    assert!(ids.iter().all(|id| *id < game.world.next_id));
}

#[test]
fn identifiers_are_never_shared() {
    let mut game = Game::new();
    assert_identifiers_unique(&game);
    enter_level(&mut game, SelectedLevel::Level1);
    assert_identifiers_unique(&game);
    let ball = launch(&mut game);
    assert_identifiers_unique(&game);
    let block = game.world.destructible_elements[7].id;
    game.run_frame(contact(ball, block, 90000));
    assert_identifiers_unique(&game);
    game.run_frame(right_press());
    game.run_frame(idle());
    assert_eq!(game.state, GameState::Selection);
    assert_identifiers_unique(&game);
    // identifiers of entities that are gone are not handed out again
    assert!(identifiers(&game).iter().all(|id| *id != ball && *id != block));
}

#[test]
fn only_the_entities_of_the_shown_screen_exist() {
    let mut game = Game::new();
    assert!(game.world.destructible_elements.is_empty());
    enter_level(&mut game, SelectedLevel::Level1);
    assert!(game.world.selector_blocks.is_empty());
    assert!(game.world.selector_outlines.is_empty());
    game.run_frame(right_press());
    game.run_frame(idle());
    assert_eq!(game.state, GameState::Selection);
    assert!(game.world.destructible_elements.is_empty());
    assert!(game.world.indestructible_elements.is_empty());
    assert_eq!(game.world.selector_blocks.len(), 2);
}
