//! The entity registry: a fixed-schema table of components keyed by
//! entity identity.
//!
//! An entity is a row; each component is an optional column. The schema is
//! small and static, so a plain record per entity replaces dynamic
//! component storage. Entities are only ever appended — nothing in the
//! scene logic removes one — so an entity's identity is its index.

use vstd::prelude::*;

use crate::scene::physicstest::Ball;
use crate::system::Collider;
use crate::system::ForceGenerator;
use crate::system::Gravity;
use crate::system::Mass;
use crate::system::Mesh;
use crate::system::Motion;
use crate::system::RigidBody;

verus! {

/// One entity: its identity is its index in the registry, its contents
/// are the components it owns.
#[derive(Clone, Copy, Debug, PartialEq, Eq)]
pub struct Entity {
    pub ball: Option<Ball>,
    pub mesh: Option<Mesh>,
    pub collider: Option<Collider>,
    pub rigid_body: Option<RigidBody>,
    pub force_generator: Option<ForceGenerator>,
    pub mass: Option<Mass>,
    pub gravity: Option<Gravity>,
    pub motion: Option<Motion>,
}

/// Does this entity carry the Ball, Collider and RigidBody components at
/// once — the join the shoot action and the spawn count range over?
pub open spec fn has_ball_collider_body(e: Entity) -> bool {
    &&& e.ball is Some
    &&& e.collider is Some
    &&& e.rigid_body is Some
}

/// How many entities of `entities` carry Ball, Collider and RigidBody at
/// once.
pub open spec fn ball_body_count(entities: Seq<Entity>) -> int
    decreases entities.len(),
{
    if entities.len() == 0 {
        0
    } else {
        ball_body_count(entities.drop_last()) + if has_ball_collider_body(entities.last()) {
            1int
        } else {
            0int
        }
    }
}

/// Appending one entity raises the count by one exactly when the entity
/// carries all three components.
pub proof fn lemma_ball_body_count_push(entities: Seq<Entity>, e: Entity)
    ensures
        ball_body_count(entities.push(e)) == ball_body_count(entities) + if has_ball_collider_body(
            e,
        ) {
            1int
        } else {
            0int
        },
{
    assert(entities.push(e).drop_last() =~= entities);
}

/// The registry itself: the table of entities.
#[derive(Clone, Debug, PartialEq, Eq)]
pub struct EntityRegistry {
    pub entities: Vec<Entity>,
}

impl EntityRegistry {
    /// An empty registry.
    pub fn new() -> (r: EntityRegistry)
        ensures
            r.entities@ =~= Seq::<Entity>::empty(),
    {
        EntityRegistry { entities: Vec::new() }
    }

    /// Append an entity; its identity is the index handed back.
    pub fn add_entity(&mut self, e: Entity) -> (id: usize)
        ensures
            id == old(self).entities@.len(),
            final(self).entities@ =~= old(self).entities@.push(e),
    {
        let id = self.entities.len();
        self.entities.push(e);
        id
    }

    /// How many entities the registry holds.
    pub fn len(&self) -> (n: usize)
        ensures
            n == self.entities@.len(),
    {
        self.entities.len()
    }

    /// Count the entities that carry Ball, Collider and RigidBody at once.
    pub fn count_ball_bodies(&self) -> (n: usize)
        ensures
            n == ball_body_count(self.entities@),
    {
        let total = self.entities.len();
        let mut n: usize = 0;
        let mut i: usize = 0;
        while i < total
            invariant
                i <= total,
                total == self.entities@.len(),
                n == ball_body_count(self.entities@.take(i as int)),
                n <= i,
            decreases total - i,
        {
            let e = &self.entities[i];
            let counts = e.ball.is_some() && e.collider.is_some() && e.rigid_body.is_some();
            proof {
                assert(self.entities@.take(i + 1).drop_last() =~= self.entities@.take(i as int));
                assert(self.entities@.take(i + 1).last() == self.entities@[i as int]);
            }
            if counts {
                n = n + 1;
            }
            i = i + 1;
        }
        proof {
            assert(self.entities@.take(total as int) =~= self.entities@);
        }
        n
    }
}

} // verus!
