//! The entities of a session, kept by kind.
use vstd::prelude::*;

use crate::components::Body;
use crate::components::BottomCollider;
use crate::components::Entity;
use crate::components::EntityId;
use crate::components::PermanentElement;
use crate::components::Player;
use crate::components::PlayerBall;
use crate::components::PlayerPaddle;
use crate::level_elements::DestructibleElement;
use crate::level_elements::ElementDurability;
use crate::level_elements::IndestructibleElement;
use crate::selection::LevelSelectorBlock;
use crate::selection::LevelSelectorOutline;

verus! {

/// Everything that exists in a session.
///
/// The paddle, the ball and the bottom boundary exist at most once, so each
/// has a slot of its own; the other kinds are kept in the order in which they
/// were spawned.  Identifiers are handed out by a counter and never reused.
pub struct World {
    pub player: Option<Player>,
    pub paddle: Option<Entity<PlayerPaddle>>,
    pub ball: Option<Entity<PlayerBall>>,
    pub bottom_collider: Option<Entity<BottomCollider>>,
    pub permanent_elements: Vec<Entity<PermanentElement>>,
    pub destructible_elements: Vec<Entity<DestructibleElement>>,
    pub indestructible_elements: Vec<Entity<IndestructibleElement>>,
    pub selector_blocks: Vec<Entity<LevelSelectorBlock>>,
    pub selector_outlines: Vec<Entity<LevelSelectorOutline>>,
    /// The identifier that the next entity gets.
    pub next_id: EntityId,
}

/// The mathematical content of a [`World`].
pub struct WorldView {
    pub player: Option<Player>,
    pub paddle: Option<Entity<PlayerPaddle>>,
    pub ball: Option<Entity<PlayerBall>>,
    pub bottom_collider: Option<Entity<BottomCollider>>,
    pub permanent_elements: Seq<Entity<PermanentElement>>,
    pub destructible_elements: Seq<Entity<DestructibleElement>>,
    pub indestructible_elements: Seq<Entity<IndestructibleElement>>,
    pub selector_blocks: Seq<Entity<LevelSelectorBlock>>,
    pub selector_outlines: Seq<Entity<LevelSelectorOutline>>,
    pub next_id: EntityId,
}

impl View for World {
    type V = WorldView;

    open spec fn view(&self) -> WorldView {
        WorldView {
            player: self.player,
            paddle: self.paddle,
            ball: self.ball,
            bottom_collider: self.bottom_collider,
            permanent_elements: self.permanent_elements@,
            destructible_elements: self.destructible_elements@,
            indestructible_elements: self.indestructible_elements@,
            selector_blocks: self.selector_blocks@,
            selector_outlines: self.selector_outlines@,
            next_id: self.next_id,
        }
    }
}

/// The identifiers in `list` ascend and lie below `bound`.
pub open spec fn ids_ascend_below<M>(list: Seq<Entity<M>>, bound: EntityId) -> bool {
    &&& forall|i: int, j: int| 0 <= i < j < list.len() ==> list[i].id < list[j].id
    &&& forall|i: int| 0 <= i < list.len() ==> list[i].id < bound
}

/// Whether an entity of `list` has the identifier `id`.
pub open spec fn list_holds<M>(list: Seq<Entity<M>>, id: EntityId) -> bool {
    exists|i: int| 0 <= i < list.len() && (#[trigger] list[i]).id == id
}

/// Whether the entity of `slot` has the identifier `id`.
pub open spec fn slot_holds<M>(slot: Option<Entity<M>>, id: EntityId) -> bool {
    slot matches Some(entity) && entity.id == id
}

/// One for a kind that holds an identifier, zero for one that does not.
pub open spec fn one_if(holds: bool) -> int {
    if holds {
        1
    } else {
        0
    }
}

/// No element of `list` is marked with the durability that nothing destroys.
pub open spec fn all_destructible(list: Seq<Entity<DestructibleElement>>) -> bool {
    forall|i: int|
        0 <= i < list.len() ==> (#[trigger] list[i]).marker.element_durability
            != ElementDurability::Indestructible
}

impl WorldView {
    /// The invariant of a world: identifiers were handed out by the
    /// counter, no two entities share one, and what is kept as
    /// destructible can be destroyed.
    pub open spec fn wf(self) -> bool {
        &&& ids_ascend_below(self.permanent_elements, self.next_id)
        &&& ids_ascend_below(self.destructible_elements, self.next_id)
        &&& ids_ascend_below(self.indestructible_elements, self.next_id)
        &&& ids_ascend_below(self.selector_blocks, self.next_id)
        &&& ids_ascend_below(self.selector_outlines, self.next_id)
        &&& (self.paddle matches Some(paddle) ==> paddle.id < self.next_id)
        &&& (self.ball matches Some(ball) ==> ball.id < self.next_id)
        &&& (self.bottom_collider matches Some(bottom) ==> bottom.id < self.next_id)
        &&& all_destructible(self.destructible_elements)
        &&& forall|id: EntityId| #[trigger] self.holders(id) <= 1
    }

    /// Number of kinds that hold an entity with the identifier `id`.
    pub open spec fn holders(self, id: EntityId) -> int {
        one_if(slot_holds(self.paddle, id)) + one_if(slot_holds(self.ball, id)) + one_if(
            slot_holds(self.bottom_collider, id),
        ) + one_if(list_holds(self.permanent_elements, id)) + one_if(
            list_holds(self.destructible_elements, id),
        ) + one_if(list_holds(self.indestructible_elements, id)) + one_if(
            list_holds(self.selector_blocks, id),
        ) + one_if(list_holds(self.selector_outlines, id))
    }

    /// Whether `count` more entities can be given an identifier.
    pub open spec fn has_room(self, count: int) -> bool {
        self.next_id + count <= u64::MAX
    }
}

/// Whether every kind of `after` holds no identifier that it does not hold
/// in `before`.
pub open spec fn holds_no_more(before: WorldView, after: WorldView) -> bool {
    &&& forall|id: EntityId| #[trigger]
        slot_holds(after.paddle, id) ==> slot_holds(before.paddle, id)
    &&& forall|id: EntityId| #[trigger] slot_holds(after.ball, id) ==> slot_holds(before.ball, id)
    &&& forall|id: EntityId| #[trigger]
        slot_holds(after.bottom_collider, id) ==> slot_holds(before.bottom_collider, id)
    &&& forall|id: EntityId| #[trigger]
        list_holds(after.permanent_elements, id) ==> list_holds(before.permanent_elements, id)
    &&& forall|id: EntityId| #[trigger]
        list_holds(after.destructible_elements, id) ==> list_holds(
            before.destructible_elements,
            id,
        )
    &&& forall|id: EntityId| #[trigger]
        list_holds(after.indestructible_elements, id) ==> list_holds(
            before.indestructible_elements,
            id,
        )
    &&& forall|id: EntityId| #[trigger]
        list_holds(after.selector_blocks, id) ==> list_holds(before.selector_blocks, id)
    &&& forall|id: EntityId| #[trigger]
        list_holds(after.selector_outlines, id) ==> list_holds(before.selector_outlines, id)
}

/// A world whose kinds hold no more identifiers than those of a world
/// without shared identifiers has no shared identifiers either.
pub proof fn lemma_holds_no_more(before: WorldView, after: WorldView)
    requires
        forall|id: EntityId| #[trigger] before.holders(id) <= 1,
        holds_no_more(before, after),
    ensures
        forall|id: EntityId| #[trigger] after.holders(id) <= 1,
{
    assert forall|id: EntityId| #[trigger] after.holders(id) <= 1 by {
        assert(before.holders(id) <= 1);
    }
}

/// No entity has an identifier that is yet to be handed out.
pub proof fn lemma_unused_id_is_free(world: WorldView, id: EntityId)
    requires
        world.wf(),
        id >= world.next_id,
    ensures
        world.holders(id) == 0,
{
}

/// A list with one more entity holds the identifiers it held and that of
/// the new entity.
pub proof fn lemma_push_holds<M>(list: Seq<Entity<M>>, entity: Entity<M>, id: EntityId)
    ensures
        list_holds(list.push(entity), id) == (list_holds(list, id) || entity.id == id),
{
    let longer = list.push(entity);
    if list_holds(list, id) {
        let i = choose|i: int| 0 <= i < list.len() && (#[trigger] list[i]).id == id;
        assert(longer[i].id == id);
    }
    if entity.id == id {
        assert(longer[list.len() as int].id == id);
    }
    if list_holds(longer, id) {
        let i = choose|i: int| 0 <= i < longer.len() && (#[trigger] longer[i]).id == id;
        if i < list.len() {
            assert(list[i].id == id);
        }
    }
}

/// A list with one entity less holds no identifier that it did not hold.
pub proof fn lemma_remove_holds<M>(list: Seq<Entity<M>>, index: int, id: EntityId)
    requires
        0 <= index < list.len(),
    ensures
        list_holds(list.remove(index), id) ==> list_holds(list, id),
{
    let shorter = list.remove(index);
    if list_holds(shorter, id) {
        let i = choose|i: int| 0 <= i < shorter.len() && (#[trigger] shorter[i]).id == id;
        let from = if i < index {
            i
        } else {
            i + 1
        };
        assert(list[from].id == id);
    }
}

/// Lists with the same identifiers at the same places hold the same
/// identifiers.
pub proof fn lemma_same_ids_hold<M>(first: Seq<Entity<M>>, second: Seq<Entity<M>>, id: EntityId)
    requires
        first.len() == second.len(),
        forall|i: int| 0 <= i < first.len() ==> (#[trigger] first[i]).id == second[i].id,
    ensures
        list_holds(first, id) == list_holds(second, id),
{
    if list_holds(first, id) {
        let i = choose|i: int| 0 <= i < first.len() && (#[trigger] first[i]).id == id;
        assert(second[i].id == id);
    }
    if list_holds(second, id) {
        let i = choose|i: int| 0 <= i < second.len() && (#[trigger] second[i]).id == id;
        assert(first[i].id == id);
    }
}

/// Gives `marker` and `body` the next identifier and appends them to `list`.
pub fn spawn<M>(list: &mut Vec<Entity<M>>, next_id: &mut EntityId, marker: M, body: Body) -> (id:
    EntityId)
    requires
        *old(next_id) < u64::MAX,
    ensures
        id == *old(next_id),
        *final(next_id) == id + 1,
        final(list)@ == old(list)@.push(Entity { id, marker, body }),
{
    let id = *next_id;
    list.push(Entity { id, marker, body });
    *next_id = id + 1;
    id
}

impl World {
    /// A world without entities.
    pub fn new() -> (world: World)
        ensures
            world@.wf(),
            world@ == (WorldView {
                player: None,
                paddle: None,
                ball: None,
                bottom_collider: None,
                permanent_elements: Seq::empty(),
                destructible_elements: Seq::empty(),
                indestructible_elements: Seq::empty(),
                selector_blocks: Seq::empty(),
                selector_outlines: Seq::empty(),
                next_id: 0,
            }),
    {
        World {
            player: None,
            paddle: None,
            ball: None,
            bottom_collider: None,
            permanent_elements: Vec::new(),
            destructible_elements: Vec::new(),
            indestructible_elements: Vec::new(),
            selector_blocks: Vec::new(),
            selector_outlines: Vec::new(),
            next_id: 0,
        }
    }
}

} // verus!
