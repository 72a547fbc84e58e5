//! The level screen: its blocks, how they are destroyed, and what clearing
//! them unlocks.
use vstd::prelude::*;

use crate::GameState;
use crate::NextState;
use crate::PowerLevel;
use crate::collisions::find_entity;
use crate::collisions::first_index_where;
use crate::collisions::hits;
use crate::collisions::index_of_id;
use crate::collisions::lemma_first_index_found;
use crate::collisions::lemma_first_index_missing;
use crate::collisions::ContactPair;
use crate::components::Entity;
use crate::components::EntityId;
use crate::components::Player;
use crate::components::PlayerBall;
use crate::events::BallDestroyedEvent;
use crate::events::RightMousePressEvent;
use crate::level_elements::lemma_layout_concat;
use crate::level_elements::with_layout;
use crate::level_elements::DestructibleElement;
use crate::level_elements::ElementDurability;
use crate::level_elements::Placement;
use crate::selection::LevelSelectedEvent;
use crate::world::World;

pub mod level_1;
pub mod level_2;
pub mod level_3;

verus! {

/// Marks an entity as part of the level screen.
#[derive(Clone, Copy, Debug, PartialEq, Eq, Structural)]
pub struct OnLevelsScreen;

/// A level: the one being played, or the highest one the player may choose.
#[derive(Clone, Copy, Debug, PartialEq, Eq, PartialOrd, Ord, Hash, Structural)]
pub enum SelectedLevel {
    Level1,
    Level2,
    Level3,
    Level4,
    Level5,
}

impl SelectedLevel {
    /// The number of the level.
    pub open spec fn number(self) -> int {
        match self {
            SelectedLevel::Level1 => 1,
            SelectedLevel::Level2 => 2,
            SelectedLevel::Level3 => 3,
            SelectedLevel::Level4 => 4,
            SelectedLevel::Level5 => 5,
        }
    }
}

impl Default for SelectedLevel {
    fn default() -> (level: SelectedLevel)
        ensures
            level == SelectedLevel::Level1,
    {
        SelectedLevel::Level1
    }
}

/// A block was destroyed.
#[derive(Clone, Copy, Debug, PartialEq, Eq, Structural)]
pub struct BlockDestroyedEvent;

/// The level that was entered last.
#[derive(Clone, Copy, Debug, PartialEq, Eq, Structural)]
pub struct LastSelectedLevel {
    pub selected_level: SelectedLevel,
}

/// Whether a ball of power `power` destroys a block of durability
/// `durability`: the block is not indestructible and its rank does not
/// exceed the ball's.
pub open spec fn destroys(power: PowerLevel, durability: ElementDurability) -> bool {
    durability != ElementDurability::Indestructible && durability.rank() <= power.rank()
}

/// Whether a ball of the given power destroys a block of the given
/// durability.
pub fn ball_destroys_element(
    player_ball_power_level: &PowerLevel,
    element_durability: &ElementDurability,
) -> (destroyed: bool)
    ensures
        destroyed == destroys(*player_ball_power_level, *element_durability),
        *element_durability != ElementDurability::Indestructible ==> destroyed == (
        element_durability.rank() <= player_ball_power_level.rank()),
        *element_durability == ElementDurability::Indestructible ==> !destroyed,
{
    match player_ball_power_level {
        PowerLevel::Lowest => match element_durability {
            ElementDurability::Lowest => true,
            _ => false,
        },
        PowerLevel::Low => match element_durability {
            ElementDurability::Lowest | ElementDurability::Low => true,
            _ => false,
        },
        PowerLevel::Medium => match element_durability {
            ElementDurability::Lowest | ElementDurability::Low | ElementDurability::Medium => true,
            _ => false,
        },
        PowerLevel::High => match element_durability {
            ElementDurability::Highest | ElementDurability::Indestructible => false,
            _ => true,
        },
        PowerLevel::Highest => match element_durability {
            ElementDurability::Indestructible => false,
            _ => true,
        },
    }
}


/// Whether the pair joins the ball and a block that its power destroys.
pub open spec fn breaks(
    pair: ContactPair,
    ball: Entity<PlayerBall>,
    elements: Seq<Entity<DestructibleElement>>,
) -> bool {
    hits(pair, ball.id, elements) && destroys(
        ball.marker.power_level,
        elements[index_of_id(elements, pair.partner(ball.id)).unwrap()].marker.element_durability,
    )
}

/// The test that [`breaks`] makes of a pair, for a given ball and blocks.
pub open spec fn breaking(
    ball: Entity<PlayerBall>,
    elements: Seq<Entity<DestructibleElement>>,
) -> spec_fn(ContactPair) -> bool {
    |pair: ContactPair| breaks(pair, ball, elements)
}

/// Index in `elements` of the block that the ball destroys in this step:
/// the block of the first contact pair that joins the ball and a block
/// whose durability the ball's power overcomes.
pub open spec fn broken_block(
    player_ball: Option<Entity<PlayerBall>>,
    elements: Seq<Entity<DestructibleElement>>,
    collisions: Seq<ContactPair>,
) -> Option<int> {
    match player_ball {
        None => None,
        Some(ball) => match first_index_where(collisions, breaking(ball, elements)) {
            None => None,
            Some(first) => index_of_id(elements, collisions[first].partner(ball.id)),
        },
    }
}

/// Destroys at most one block per step: the first one, in the order of the
/// contact pairs, that the ball touches and has the power to destroy.
/// Returns the identifier of the block it removed.
pub fn handle_collision_player_ball_with_destructible_element(
    player_ball: &Option<Entity<PlayerBall>>,
    destructible_elements: &mut Vec<Entity<DestructibleElement>>,
    collisions: &Vec<ContactPair>,
    block_destroyed_evw: &mut Vec<BlockDestroyedEvent>,
) -> (destroyed: Option<EntityId>)
    ensures
        match broken_block(*player_ball, old(destructible_elements)@, collisions@) {
            Some(index) => {
                &&& 0 <= index < old(destructible_elements)@.len()
                &&& destroyed == Some(old(destructible_elements)@[index].id)
                &&& final(destructible_elements)@ == old(destructible_elements)@.remove(index)
                &&& final(block_destroyed_evw)@ == old(block_destroyed_evw)@.push(
                    BlockDestroyedEvent,
                )
            },
            None => {
                &&& destroyed == None::<EntityId>
                &&& final(destructible_elements)@ == old(destructible_elements)@
                &&& final(block_destroyed_evw)@ == old(block_destroyed_evw)@
            },
        },
{
    let ball = match player_ball {
        Some(ball) => *ball,
        None => {
            return None;
        },
    };
    let ghost elements = destructible_elements@;
    let ghost wanted = breaking(ball, elements);
    let mut index: usize = 0;
    while index < collisions.len()
        invariant
            index <= collisions.len(),
            *player_ball == Some(ball),
            elements == old(destructible_elements)@,
            destructible_elements@ == elements,
            block_destroyed_evw@ == old(block_destroyed_evw)@,
            wanted == breaking(ball, elements),
            forall|j: int| 0 <= j < index ==> !wanted(#[trigger] collisions@[j]),
        decreases collisions.len() - index,
    {
        let pair = collisions[index];
        if let Some(element_entity) = pair.partner_of(ball.id) {
            if let Some(found) = find_entity(destructible_elements, element_entity) {
                if ball_destroys_element(
                    &ball.marker.power_level,
                    &destructible_elements[found].marker.element_durability,
                ) {
                    proof {
                        lemma_first_index_found(collisions@, wanted, index as int);
                    }
                    destructible_elements.remove(found);
                    block_destroyed_evw.push(BlockDestroyedEvent);
                    return Some(element_entity);
                }
            }
        }
        index += 1;
    }
    proof {
        lemma_first_index_missing(collisions@, wanted);
    }
    None
}

/// A press of the secondary button abandons the attempt: the ball is to be
/// destroyed and the selection screen comes back.
pub fn handle_right_mouse_press_event(
    game_state: &mut NextState,
    right_mouse_press_evr: &mut Vec<RightMousePressEvent>,
    ball_destroyed_evw: &mut Vec<BallDestroyedEvent>,
)
    ensures
        final(right_mouse_press_evr)@.len() == 0,
        old(right_mouse_press_evr)@.len() > 0 ==> *final(game_state) == NextState::Pending(
            GameState::Selection,
        ) && final(ball_destroyed_evw)@ == old(ball_destroyed_evw)@.push(BallDestroyedEvent),
        old(right_mouse_press_evr)@.len() == 0 ==> *final(game_state) == *old(game_state)
            && final(ball_destroyed_evw)@ == old(ball_destroyed_evw)@,
{
    if right_mouse_press_evr.len() > 0 {
        ball_destroyed_evw.push(BallDestroyedEvent);
        game_state.set(GameState::Selection);
    }
    right_mouse_press_evr.clear();
}

/// Whether clearing `current_level` can move the frontier
/// `current_highest_selectable_level`: the last level has none after it.
pub open spec fn unlock_defined(
    current_highest_selectable_level: SelectedLevel,
    current_level: SelectedLevel,
) -> bool {
    !(current_level == current_highest_selectable_level && current_level == SelectedLevel::Level5)
}

/// The highest selectable level after `current_level` was cleared: the next
/// level where the cleared one was the frontier, the frontier otherwise.
pub open spec fn unlocked(
    current_highest_selectable_level: SelectedLevel,
    current_level: SelectedLevel,
) -> SelectedLevel {
    if current_level == current_highest_selectable_level {
        match current_level {
            SelectedLevel::Level1 => SelectedLevel::Level2,
            SelectedLevel::Level2 => SelectedLevel::Level3,
            SelectedLevel::Level3 => SelectedLevel::Level4,
            _ => SelectedLevel::Level5,
        }
    } else {
        current_highest_selectable_level
    }
}

/// Returns the new highest selectable level.  Only clearing the highest
/// selectable level itself unlocks the next one.
pub fn unlock_next_level(
    current_highest_selectable_level: SelectedLevel,
    current_level: SelectedLevel,
) -> (highest: SelectedLevel)
    requires
        unlock_defined(current_highest_selectable_level, current_level),
    ensures
        highest == unlocked(current_highest_selectable_level, current_level),
        current_level == current_highest_selectable_level ==> highest.number()
            == current_highest_selectable_level.number() + 1,
        current_level != current_highest_selectable_level ==> highest
            == current_highest_selectable_level,
        highest.number() >= current_highest_selectable_level.number(),
{
    if current_level == current_highest_selectable_level {
        match current_level {
            SelectedLevel::Level1 => SelectedLevel::Level2,
            SelectedLevel::Level2 => SelectedLevel::Level3,
            SelectedLevel::Level3 => SelectedLevel::Level4,
            _ => SelectedLevel::Level5,
        }
    } else {
        current_highest_selectable_level
    }
}

/// Whether the level counts as cleared in this step: a block was destroyed
/// and none is left.
pub open spec fn level_cleared(
    block_destroyed: Seq<BlockDestroyedEvent>,
    destructible_elements: Seq<Entity<DestructibleElement>>,
) -> bool {
    block_destroyed.len() > 0 && destructible_elements.len() == 0
}

/// On the destruction of the last block the level is cleared: the unlock
/// rule is applied, the ball is to be destroyed and the selection screen
/// comes back.
pub fn handle_event_block_destroyed(
    player: &mut Player,
    last_selected_level: &LastSelectedLevel,
    game_state: &mut NextState,
    ball_destroyed_evw: &mut Vec<BallDestroyedEvent>,
    block_destroyed_evr: &mut Vec<BlockDestroyedEvent>,
    destructible_elements: &Vec<Entity<DestructibleElement>>,
)
    requires
        level_cleared(old(block_destroyed_evr)@, destructible_elements@) ==> unlock_defined(
            old(player).highest_selectable_level,
            last_selected_level.selected_level,
        ),
    ensures
        final(block_destroyed_evr)@.len() == 0,
        level_cleared(old(block_destroyed_evr)@, destructible_elements@) ==> {
            &&& final(player).highest_selectable_level == unlocked(
                old(player).highest_selectable_level,
                last_selected_level.selected_level,
            )
            &&& final(ball_destroyed_evw)@ == old(ball_destroyed_evw)@.push(BallDestroyedEvent)
            &&& *final(game_state) == NextState::Pending(GameState::Selection)
        },
        !level_cleared(old(block_destroyed_evr)@, destructible_elements@) ==> {
            &&& *final(player) == *old(player)
            &&& final(ball_destroyed_evw)@ == old(ball_destroyed_evw)@
            &&& *final(game_state) == *old(game_state)
        },
{
    if block_destroyed_evr.len() > 0 && destructible_elements.len() == 0 {
        player.highest_selectable_level = unlock_next_level(
            player.highest_selectable_level,
            last_selected_level.selected_level,
        );
        // destroy the ball and return to the level selection
        ball_destroyed_evw.push(BallDestroyedEvent);
        game_state.set(GameState::Selection);
    }
    block_destroyed_evr.clear();
}


/// The blocks of a level, in the order in which they are spawned.  The last
/// two levels have no blocks.
pub open spec fn level_layout(level: SelectedLevel) -> Seq<Placement> {
    match level {
        SelectedLevel::Level1 => level_1::layout(),
        SelectedLevel::Level2 => level_2::layout(),
        SelectedLevel::Level3 => level_3::layout(),
        SelectedLevel::Level4 => Seq::empty(),
        SelectedLevel::Level5 => Seq::empty(),
    }
}

/// The blocks of the levels that `events` select, one level after the other.
pub open spec fn selected_layouts(events: Seq<LevelSelectedEvent>) -> Seq<Placement>
    decreases events.len(),
{
    if events.len() == 0 {
        Seq::empty()
    } else {
        selected_layouts(events.drop_last()) + level_layout(events.last().selected_level)
    }
}

/// The first events of a queue select no more blocks than the whole queue.
pub proof fn lemma_selected_layouts_prefix(events: Seq<LevelSelectedEvent>, count: int)
    requires
        0 <= count <= events.len(),
    ensures
        selected_layouts(events.take(count)).len() <= selected_layouts(events).len(),
    decreases events.len() - count,
{
    if count == events.len() {
        assert(events.take(count) =~= events);
    } else {
        lemma_selected_layouts_prefix(events, count + 1);
        assert(events.take(count + 1).drop_last() =~= events.take(count));
    }
}

/// Spawns the blocks of a level.
pub fn spawn_level(level: SelectedLevel, world: &mut World)
    requires
        old(world)@.wf(),
        old(world)@.has_room(level_layout(level).len() as int),
    ensures
        final(world)@.wf(),
        final(world)@ == with_layout(old(world)@, level_layout(level)),
        final(world)@.next_id == old(world)@.next_id + level_layout(level).len(),
{
    match level {
        SelectedLevel::Level1 => {
            proof {
                level_1::lemma_layout_len();
            }
            level_1::spawn_level(world);
        },
        SelectedLevel::Level2 => {
            proof {
                level_2::lemma_layout_len();
            }
            level_2::spawn_level(world);
        },
        SelectedLevel::Level3 => {
            proof {
                level_3::lemma_layout_len();
            }
            level_3::spawn_level(world);
        },
        SelectedLevel::Level4 => {},
        SelectedLevel::Level5 => {},
    }
}

/// Enters the level screen: for each level that was selected, records it
/// as the level being played and spawns its blocks.
pub fn level_setup(
    world: &mut World,
    last_selected_level: &mut LastSelectedLevel,
    level_selected_evr: &mut Vec<LevelSelectedEvent>,
)
    requires
        old(world)@.wf(),
        old(world)@.has_room(selected_layouts(old(level_selected_evr)@).len() as int),
    ensures
        final(world)@.wf(),
        final(world)@ == with_layout(old(world)@, selected_layouts(old(level_selected_evr)@)),
        final(level_selected_evr)@.len() == 0,
        final(last_selected_level).selected_level == if old(level_selected_evr)@.len() > 0 {
            old(level_selected_evr)@.last().selected_level
        } else {
            old(last_selected_level).selected_level
        },
{
    let ghost start = world@;
    let ghost events = level_selected_evr@;
    let mut index: usize = 0;
    while index < level_selected_evr.len()
        invariant
            index <= level_selected_evr.len(),
            level_selected_evr@ == events,
            start.wf(),
            start.has_room(selected_layouts(events).len() as int),
            world@.wf(),
            world@ == with_layout(start, selected_layouts(events.take(index as int))),
            world@.next_id == start.next_id + selected_layouts(events.take(index as int)).len(),
            last_selected_level.selected_level == if index > 0 {
                events[index - 1].selected_level
            } else {
                old(last_selected_level).selected_level
            },
        decreases level_selected_evr.len() - index,
    {
        let event = level_selected_evr[index];
        proof {
            lemma_selected_layouts_prefix(events, index as int + 1);
            assert(events.take(index as int + 1).drop_last() =~= events.take(index as int));
            lemma_layout_concat(
                start,
                selected_layouts(events.take(index as int)),
                level_layout(event.selected_level),
            );
        }
        last_selected_level.selected_level = event.selected_level;
        spawn_level(event.selected_level, world);
        index += 1;
    }
    proof {
        assert(events.take(index as int) =~= events);
    }
    level_selected_evr.clear();
}

} // verus!
