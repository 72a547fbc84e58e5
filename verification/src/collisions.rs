//! Contact pairs as the physics reports them, and how they are searched.
use vstd::prelude::*;

use crate::components::Entity;
use crate::components::EntityId;

verus! {

/// Two colliders that touch in the current step, in no particular order.
#[derive(Clone, Copy, Debug, PartialEq, Eq, Structural)]
pub struct ContactPair {
    pub collider1: EntityId,
    pub collider2: EntityId,
}

impl ContactPair {
    /// Whether `id` is one of the two colliders.
    pub open spec fn involves(self, id: EntityId) -> bool {
        self.collider1 == id || self.collider2 == id
    }

    /// The collider that `id` touches, for a pair that involves `id`.
    pub open spec fn partner(self, id: EntityId) -> EntityId {
        if self.collider1 == id {
            self.collider2
        } else {
            self.collider1
        }
    }

    /// The pair of `collider1` and `collider2`.
    pub fn new(collider1: EntityId, collider2: EntityId) -> (pair: ContactPair)
        ensures
            pair == (ContactPair { collider1, collider2 }),
    {
        ContactPair { collider1, collider2 }
    }

    /// The collider that `id` touches, if the pair involves `id` at all.
    pub fn partner_of(&self, id: EntityId) -> (partner: Option<EntityId>)
        ensures
            partner == if self.involves(id) {
                Some(self.partner(id))
            } else {
                None
            },
    {
        if self.collider1 == id {
            Some(self.collider2)
        } else if self.collider2 == id {
            Some(self.collider1)
        } else {
            None
        }
    }
}

/// Index of the first item of `items` that satisfies `wanted`.
pub open spec fn first_index_where<T>(items: Seq<T>, wanted: spec_fn(T) -> bool) -> Option<int>
    decreases items.len(),
{
    if items.len() == 0 {
        None
    } else if wanted(items[0]) {
        Some(0)
    } else {
        match first_index_where(items.drop_first(), wanted) {
            Some(index) => Some(index + 1),
            None => None,
        }
    }
}

/// An item that satisfies `wanted` and has none before it that does is the first.
pub proof fn lemma_first_index_found<T>(items: Seq<T>, wanted: spec_fn(T) -> bool, index: int)
    requires
        0 <= index < items.len(),
        wanted(items[index]),
        forall|j: int| 0 <= j < index ==> !wanted(#[trigger] items[j]),
    ensures
        first_index_where(items, wanted) == Some(index),
    decreases index,
{
    if index > 0 {
        let rest = items.drop_first();
        lemma_first_index_found(rest, wanted, index - 1);
    }
}

/// Where no item satisfies `wanted` there is no first one.
pub proof fn lemma_first_index_missing<T>(items: Seq<T>, wanted: spec_fn(T) -> bool)
    requires
        forall|j: int| 0 <= j < items.len() ==> !wanted(#[trigger] items[j]),
    ensures
        first_index_where(items, wanted) == None::<int>,
    decreases items.len(),
{
    if items.len() > 0 {
        let rest = items.drop_first();
        lemma_first_index_missing(rest, wanted);
    }
}

/// The first index lies within the items, the item at it satisfies
/// `wanted`, and no item before it does.
pub proof fn lemma_first_index_meaning<T>(items: Seq<T>, wanted: spec_fn(T) -> bool)
    ensures
        match first_index_where(items, wanted) {
            Some(index) => 0 <= index < items.len() && wanted(items[index]) && forall|j: int|
                0 <= j < index ==> !wanted(#[trigger] items[j]),
            None => forall|j: int| 0 <= j < items.len() ==> !wanted(#[trigger] items[j]),
        },
    decreases items.len(),
{
    if items.len() > 0 && !wanted(items[0]) {
        let rest = items.drop_first();
        lemma_first_index_meaning(rest, wanted);
        match first_index_where(rest, wanted) {
            Some(index) => {
                assert forall|j: int| 0 <= j < index + 1 implies !wanted(#[trigger] items[j]) by {
                    if j > 0 {
                        assert(rest[j - 1] == items[j]);
                    }
                }
            },
            None => {
                assert forall|j: int| 0 <= j < items.len() implies !wanted(#[trigger] items[j]) by {
                    if j > 0 {
                        assert(rest[j - 1] == items[j]);
                    }
                }
            },
        }
    }
}

/// Index in `list` of the entity with identifier `id`.
pub open spec fn index_of_id<M>(list: Seq<Entity<M>>, id: EntityId) -> Option<int> {
    first_index_where(list, |entity: Entity<M>| entity.id == id)
}

/// Whether `list` holds an entity with identifier `id`.
pub open spec fn has_id<M>(list: Seq<Entity<M>>, id: EntityId) -> bool {
    index_of_id(list, id) is Some
}

/// Looks an entity up by its identifier.
pub fn find_entity<M>(list: &Vec<Entity<M>>, id: EntityId) -> (found: Option<usize>)
    ensures
        match found {
            Some(index) => index_of_id(list@, id) == Some(index as int) && index < list.len()
                && list@[index as int].id == id,
            None => index_of_id(list@, id) == None::<int>,
        },
{
    let ghost wanted = |entity: Entity<M>| entity.id == id;
    let mut index: usize = 0;
    while index < list.len()
        invariant
            index <= list.len(),
            wanted == (|entity: Entity<M>| entity.id == id),
            forall|j: int| 0 <= j < index ==> !wanted(#[trigger] list@[j]),
        decreases list.len() - index,
    {
        if list[index].id == id {
            proof {
                lemma_first_index_found(list@, wanted, index as int);
            }
            return Some(index);
        }
        index += 1;
    }
    proof {
        lemma_first_index_missing(list@, wanted);
    }
    None
}


/// Whether the pair joins the ball `ball_id` and an entity of `list`.
pub open spec fn hits<M>(pair: ContactPair, ball_id: EntityId, list: Seq<Entity<M>>) -> bool {
    pair.involves(ball_id) && has_id(list, pair.partner(ball_id))
}

/// The test that [`hits`] makes of a pair, for a given ball and list.
pub open spec fn hitting<M>(ball_id: EntityId, list: Seq<Entity<M>>) -> spec_fn(ContactPair) -> bool {
    |pair: ContactPair| hits(pair, ball_id, list)
}

/// Index in `list` of the entity that the ball hits first: the partner of
/// the ball in the first contact pair that joins the ball and an entity of
/// `list`.
pub open spec fn first_hit<M>(
    ball_id: EntityId,
    list: Seq<Entity<M>>,
    collisions: Seq<ContactPair>,
) -> Option<int> {
    match first_index_where(collisions, hitting(ball_id, list)) {
        None => None,
        Some(first) => index_of_id(list, collisions[first].partner(ball_id)),
    }
}

/// Searches the contact pairs for the first that joins the ball and an
/// entity of `list`.
pub fn find_first_hit<M>(
    ball_id: EntityId,
    list: &Vec<Entity<M>>,
    collisions: &Vec<ContactPair>,
) -> (found: Option<usize>)
    ensures
        match found {
            Some(index) => first_hit(ball_id, list@, collisions@) == Some(index as int) && index
                < list.len(),
            None => first_hit(ball_id, list@, collisions@) == None::<int>,
        },
{
    let ghost wanted = hitting(ball_id, list@);
    let mut index: usize = 0;
    while index < collisions.len()
        invariant
            index <= collisions.len(),
            wanted == hitting(ball_id, list@),
            forall|j: int| 0 <= j < index ==> !wanted(#[trigger] collisions@[j]),
        decreases collisions.len() - index,
    {
        if let Some(partner) = collisions[index].partner_of(ball_id) {
            if let Some(found) = find_entity(list, partner) {
                proof {
                    lemma_first_index_found(collisions@, wanted, index as int);
                }
                return Some(found);
            }
        }
        index += 1;
    }
    proof {
        lemma_first_index_missing(collisions@, wanted);
    }
    None
}

/// Whether some contact pair joins the entities `first` and `second`.
pub open spec fn touching(first: EntityId, second: EntityId, collisions: Seq<ContactPair>) -> bool {
    exists|index: int|
        0 <= index < collisions.len() && (#[trigger] collisions[index]).involves(first)
            && collisions[index].involves(second)
}

/// Searches the contact pairs for one that joins `first` and `second`.
pub fn are_touching(first: EntityId, second: EntityId, collisions: &Vec<ContactPair>) -> (found:
    bool)
    ensures
        found == touching(first, second, collisions@),
{
    let mut index: usize = 0;
    while index < collisions.len()
        invariant
            index <= collisions.len(),
            forall|j: int|
                0 <= j < index ==> !((#[trigger] collisions@[j]).involves(first)
                    && collisions@[j].involves(second)),
        decreases collisions.len() - index,
    {
        let pair = collisions[index];
        if (pair.collider1 == first || pair.collider2 == first) && (pair.collider1 == second
            || pair.collider2 == second) {
            return true;
        }
        index += 1;
    }
    false
}

} // verus!
