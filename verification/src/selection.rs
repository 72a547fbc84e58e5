//! The selection screen: one selector per level, locked or open.
use vstd::prelude::*;

use crate::ColliderType;
use crate::GameState;
use crate::NextState;
use crate::collisions::find_first_hit;
use crate::collisions::first_hit;
use crate::collisions::ContactPair;
use crate::components::AddCollider;
use crate::components::Body;
use crate::components::Color;
use crate::components::Entity;
use crate::components::EntityId;
use crate::components::Player;
use crate::components::PlayerBall;
use crate::components::RigidBody;
use crate::components::Sprite;
use crate::components::Transform;
use crate::events::BallDestroyedEvent;
use crate::geometry::Vec2;
use crate::level_elements::ElementDurability;
use crate::levels::SelectedLevel;
use crate::sprites::Image;
use crate::world::lemma_push_holds;
use crate::world::lemma_unused_id_is_free;
use crate::world::spawn;
use crate::world::World;
use crate::world::WorldView;

verus! {

/// Marks the block that selects a level when the ball hits it.
#[derive(Clone, Copy, Debug, PartialEq, Eq, Structural)]
pub struct LevelSelectorBlock {
    pub selected_level: SelectedLevel,
}

/// Marks the outline around a selector; around a locked one it is solid.
#[derive(Clone, Copy, Debug, PartialEq, Eq, Structural)]
pub struct LevelSelectorOutline;

/// Says that the player chose a level.
#[derive(Clone, Copy, Debug, PartialEq, Eq, Structural)]
pub struct LevelSelectedEvent {
    pub selected_level: SelectedLevel,
}


/// Abscissa of the selector of the first level.
pub const LEVEL_1_SELECTOR_X: i32 = -45000;

/// Abscissa of the selector of the second level.
pub const LEVEL_2_SELECTOR_X: i32 = -30000;

/// Ordinate of the selectors.
pub const SELECTOR_Y: i32 = 10000;

/// Side of the outline around a selector.
pub const OUTLINE_SIZE: i32 = 5500;

/// Whether the player may choose `level`.
pub open spec fn unlocked_for(player: Player, level: SelectedLevel) -> bool {
    level.number() <= player.highest_selectable_level.number()
}

/// Whether `level` has a selector on the selection screen.
pub open spec fn has_selector(level: SelectedLevel) -> bool {
    level == SelectedLevel::Level1 || level == SelectedLevel::Level2
}

/// Where the selector of `level` stands.
pub open spec fn selector_transform(level: SelectedLevel) -> Transform {
    if level == SelectedLevel::Level1 {
        Transform::at(Vec2 { x: LEVEL_1_SELECTOR_X, y: SELECTOR_Y })
    } else {
        Transform::at(Vec2 { x: LEVEL_2_SELECTOR_X, y: SELECTOR_Y })
    }
}

/// The picture on the selector of `level`.
pub open spec fn selector_image(level: SelectedLevel) -> Image {
    if level == SelectedLevel::Level1 {
        Image::GlossyPolygon(ElementDurability::Lowest)
    } else {
        Image::GlossyPolygon(ElementDurability::Low)
    }
}

/// The body of the block that selects `level`.  The ball can hit the block
/// of an open selector only: a locked one gets no collider.
pub open spec fn selector_block_body(level: SelectedLevel, open: bool) -> Body {
    Body {
        sprite: Some(Sprite::of(selector_image(level))),
        transform: selector_transform(level),
        add_collider: Some(
            AddCollider {
                collider_scale: 100,
                collider_type: if open {
                    ColliderType::RegularPolygon
                } else {
                    ColliderType::NoCollider
                },
            },
        ),
        collider: None,
        rigid_body: RigidBody::Static,
    }
}

/// The body of the outline around the selector of `level`.  Around a locked
/// selector it is solid, so that the ball bounces off; around an open one
/// it has no collider.
pub open spec fn selector_outline_body(level: SelectedLevel, open: bool) -> Body {
    Body {
        sprite: Some(
            Sprite {
                image: if open {
                    Image::SelectorOpen
                } else {
                    Image::SelectorLocked
                },
                custom_size: Some(Vec2 { x: OUTLINE_SIZE, y: OUTLINE_SIZE }),
                color: Color::white(),
            },
        ),
        transform: selector_transform(level),
        add_collider: Some(
            AddCollider {
                collider_scale: 100,
                collider_type: if open {
                    ColliderType::NoCollider
                } else {
                    ColliderType::Rectangle
                },
            },
        ),
        collider: None,
        rigid_body: RigidBody::Static,
    }
}

/// The world `world` with the selector of `level` as `player` sees it: its
/// block, then its outline.
pub open spec fn with_selector(world: WorldView, player: Player, level: SelectedLevel) -> WorldView {
    let open = unlocked_for(player, level);
    WorldView {
        selector_blocks: world.selector_blocks.push(
            Entity {
                id: world.next_id,
                marker: LevelSelectorBlock { selected_level: level },
                body: selector_block_body(level, open),
            },
        ),
        selector_outlines: world.selector_outlines.push(
            Entity {
                id: (world.next_id + 1) as EntityId,
                marker: LevelSelectorOutline,
                body: selector_outline_body(level, open),
            },
        ),
        next_id: (world.next_id + 2) as EntityId,
        ..world
    }
}

/// Spawns the selector of a level: open if the player has unlocked the
/// level, locked otherwise.
pub fn spawn_selection_block(player: &Player, selected_level: SelectedLevel, world: &mut World)
    requires
        old(world)@.wf(),
        old(world)@.has_room(2),
        has_selector(selected_level),
    ensures
        final(world)@.wf(),
        final(world)@ == with_selector(old(world)@, *player, selected_level),
        final(world)@.next_id == old(world)@.next_id + 2,
{
    let ghost before = world@;
    let outline_size = Some(Vec2::new(OUTLINE_SIZE, OUTLINE_SIZE));
    let white = Color { red: 100, green: 100, blue: 100 };
    let outline_sprite_selectable = Sprite {
        image: Image::SelectorOpen,
        custom_size: outline_size,
        color: white,
    };
    let outline_sprite_not_selectable = Sprite {
        image: Image::SelectorLocked,
        custom_size: outline_size,
        color: white,
    };

    let transform: Transform;
    let image: Image;
    let outline_sprite: Sprite;
    let outline_collider_type: ColliderType;
    match selected_level {
        SelectedLevel::Level1 => {
            transform = Transform::from_xy(LEVEL_1_SELECTOR_X, SELECTOR_Y);
            image = Image::GlossyPolygon(ElementDurability::Lowest);
            outline_sprite = outline_sprite_selectable;
            outline_collider_type = ColliderType::NoCollider;
        },
        _ => {
            transform = Transform::from_xy(LEVEL_2_SELECTOR_X, SELECTOR_Y);
            image = Image::GlossyPolygon(ElementDurability::Low);
            let selectable = match player.highest_selectable_level {
                SelectedLevel::Level1 => false,
                _ => true,
            };
            outline_sprite = if selectable {
                outline_sprite_selectable
            } else {
                outline_sprite_not_selectable
            };
            outline_collider_type = if selectable {
                ColliderType::NoCollider
            } else {
                ColliderType::Rectangle
            };
        },
    }

    let block_body = Body {
        sprite: Some(Sprite::from_image(image)),
        transform,
        add_collider: Some(
            AddCollider {
                collider_scale: 100,
                collider_type: if outline_collider_type == ColliderType::NoCollider {
                    ColliderType::RegularPolygon
                } else {
                    ColliderType::NoCollider
                },
            },
        ),
        collider: None,
        rigid_body: RigidBody::Static,
    };
    spawn(
        &mut world.selector_blocks,
        &mut world.next_id,
        LevelSelectorBlock { selected_level },
        block_body,
    );

    let outline_body = Body {
        sprite: Some(outline_sprite),
        transform,
        add_collider: Some(
            AddCollider { collider_scale: 100, collider_type: outline_collider_type },
        ),
        collider: None,
        rigid_body: RigidBody::Static,
    };
    spawn(&mut world.selector_outlines, &mut world.next_id, LevelSelectorOutline, outline_body);
    proof {
        assert forall|id: EntityId| #[trigger] world@.holders(id) <= 1 by {
            assert(before.holders(id) <= 1);
            lemma_unused_id_is_free(before, before.next_id);
            lemma_unused_id_is_free(before, (before.next_id + 1) as EntityId);
            lemma_push_holds(before.selector_blocks, world@.selector_blocks.last(), id);
            lemma_push_holds(before.selector_outlines, world@.selector_outlines.last(), id);
        }
    }

}

/// The player whose progress decides which selectors are open: the
/// world's own, or one who has unlocked the first level only.
pub open spec fn selecting_player(world: WorldView) -> Player {
    match world.player {
        Some(player) => player,
        None => Player { highest_selectable_level: SelectedLevel::Level1 },
    }
}

/// The world `world` with the selectors of the first two levels.
pub open spec fn with_selectors(world: WorldView) -> WorldView {
    with_selector(
        with_selector(world, selecting_player(world), SelectedLevel::Level1),
        selecting_player(world),
        SelectedLevel::Level2,
    )
}

/// Enters the selection screen: spawns the selectors of the first two
/// levels.
pub fn selection_setup(world: &mut World)
    requires
        old(world)@.wf(),
        old(world)@.has_room(4),
    ensures
        final(world)@.wf(),
        final(world)@ == with_selectors(old(world)@),
        final(world)@.next_id == old(world)@.next_id + 4,
{
    let player = match world.player {
        Some(player) => player,
        None => Player { highest_selectable_level: SelectedLevel::Level1 },
    };
    spawn_selection_block(&player, SelectedLevel::Level1, world);
    spawn_selection_block(&player, SelectedLevel::Level2, world);
}

/// Index of the selector block that the ball hits first, if it hits one.
pub open spec fn selected_block(
    player_ball: Option<Entity<PlayerBall>>,
    level_selector_blocks: Seq<Entity<LevelSelectorBlock>>,
    collisions: Seq<ContactPair>,
) -> Option<int> {
    match player_ball {
        None => None,
        Some(ball) => first_hit(ball.id, level_selector_blocks, collisions),
    }
}

/// Whether the ball hits the outline of a selector.
pub open spec fn bounced_off(
    player_ball: Option<Entity<PlayerBall>>,
    level_selector_outlines: Seq<Entity<LevelSelectorOutline>>,
    collisions: Seq<ContactPair>,
) -> bool {
    match player_ball {
        None => false,
        Some(ball) => first_hit(ball.id, level_selector_outlines, collisions) is Some,
    }
}

/// The ball selects the level of the first selector block it hits: the
/// choice is announced, the ball is to be destroyed and the level screen
/// comes.  A ball that hits the outline of a selector is to be destroyed
/// and selects nothing by that.
pub fn handle_collision_player_ball_and_selection_block(
    player_ball: &Option<Entity<PlayerBall>>,
    game_state: &mut NextState,
    collisions: &Vec<ContactPair>,
    level_selector_blocks: &Vec<Entity<LevelSelectorBlock>>,
    level_selector_outlines: &Vec<Entity<LevelSelectorOutline>>,
    ball_destroyed_evw: &mut Vec<BallDestroyedEvent>,
    level_selected_evw: &mut Vec<LevelSelectedEvent>,
)
    ensures
        ({
            let selected = selected_block(*player_ball, level_selector_blocks@, collisions@);
            let bounced = bounced_off(*player_ball, level_selector_outlines@, collisions@);
            let after_selection = if selected is Some {
                old(ball_destroyed_evw)@.push(BallDestroyedEvent)
            } else {
                old(ball_destroyed_evw)@
            };
            &&& match selected {
                Some(index) => {
                    &&& 0 <= index < level_selector_blocks@.len()
                    &&& final(level_selected_evw)@ == old(level_selected_evw)@.push(
                        LevelSelectedEvent {
                            selected_level: level_selector_blocks@[index].marker.selected_level,
                        },
                    )
                    &&& *final(game_state) == NextState::Pending(GameState::Levels)
                },
                None => {
                    &&& final(level_selected_evw)@ == old(level_selected_evw)@
                    &&& *final(game_state) == *old(game_state)
                },
            }
            &&& final(ball_destroyed_evw)@ == if bounced {
                after_selection.push(BallDestroyedEvent)
            } else {
                after_selection
            }
        }),
{
    let ball = match player_ball {
        Some(ball) => *ball,
        None => {
            return ;
        },
    };

    if let Some(found) = find_first_hit(ball.id, level_selector_blocks, collisions) {
        let level_selector_block = level_selector_blocks[found].marker;
        ball_destroyed_evw.push(BallDestroyedEvent);
        level_selected_evw.push(
            LevelSelectedEvent { selected_level: level_selector_block.selected_level },
        );
        game_state.set(GameState::Levels);
    }

    if find_first_hit(ball.id, level_selector_outlines, collisions).is_some() {
        // the level is not yet unlocked
        ball_destroyed_evw.push(BallDestroyedEvent);
    }
}

} // verus!
