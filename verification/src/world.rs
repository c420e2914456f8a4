//! The scene world: the entity registry, the physics bridge, the input
//! level state, and the cooperative quit flag, shared by every scene.

use vstd::prelude::*;

use crate::game::InputState;
use crate::game::input_state_initial;
use crate::math::v2_zero_spec;
use crate::physics::BodySlot;
use crate::physics::ColliderSlot;
use crate::physics::PhysicsWorld;
use crate::registry::EntityRegistry;
use crate::registry::Entity;
use crate::registry::ball_body_count;
use crate::scene::physicstest::PhysicsTest;
use crate::scene::physicstest::ball_spawn_collider;
use crate::scene::physicstest::ball_spawn_entity;
use crate::scene::physicstest::ball_spawn_slot;
use crate::scene::physicstest::empty_entity_spec;
use crate::scene::physicstest::ground_spawn_collider;
use crate::scene::physicstest::wall_spawn_collider;
use crate::scene::physicstest::wall_spawn_entity;
use crate::scene::physicstest::wall_spawn_slot;

verus! {

/// A snapshot of the world as the scenes know it.
#[derive(Clone, Debug)]
pub struct SceneWorld {
    pub registry: EntityRegistry,
    pub physics: PhysicsWorld,
    pub input: InputState,
    pub quit: bool,
}

/// One entity's handles all resolve in the physics world `p`.
pub open spec fn entity_wf(e: Entity, p: PhysicsWorld) -> bool {
    &&& e.collider is Some ==> p.collider_resolves(e.collider->Some_0.object_handle)
    &&& e.rigid_body is Some ==> p.body_live(e.rigid_body->Some_0.object_handle)
}

/// The registry and the physics world are in sync: every handle a
/// component holds resolves. Spawning establishes this and nothing in the
/// scene logic removes physics objects, so it is an invariant of every
/// world the library builds.
pub open spec fn world_wf(w: SceneWorld) -> bool {
    forall|i: int|
        0 <= i < w.registry.entities@.len() ==> entity_wf(
            #[trigger] w.registry.entities@[i],
            w.physics,
        )
}

/// The body table of a freshly set-up world: the fixed ground body, the
/// static wall body, and the first ball.
pub open spec fn initial_bodies_spec() -> Seq<BodySlot> {
    seq![PhysicsWorld::ground_slot_spec(), wall_spawn_slot(1), ball_spawn_slot(2)]
}

/// The collision objects of a freshly set-up world: the arena outline,
/// the first ball's circle, and the ground segment.
pub open spec fn initial_colliders_spec() -> Seq<ColliderSlot> {
    seq![wall_spawn_collider(1, 0), ball_spawn_collider(2, 1), ground_spawn_collider(2)]
}

/// The entities of a freshly set-up world: the walls, the first ball,
/// and the ground's empty entry.
pub open spec fn initial_entities_spec() -> Seq<Entity> {
    seq![wall_spawn_entity(0), ball_spawn_entity(2, 1), empty_entity_spec()]
}

impl SceneWorld {
    /// Set the world up as the game starts it: walls, one ball, and the
    /// ground, with gravity off, no input held, and the quit flag clear.
    pub fn new() -> (w: SceneWorld)
        ensures
            w.quit == false,
            w.input == input_state_initial(),
            w.physics.gravity == v2_zero_spec(),
            w.physics.bodies@ =~= initial_bodies_spec(),
            w.physics.colliders@ =~= initial_colliders_spec(),
            w.registry.entities@ =~= initial_entities_spec(),
            ball_body_count(w.registry.entities@) == 1,
            world_wf(w),
            w.physics.body_live(PhysicsWorld::ground()),
    {
        let mut w = SceneWorld {
            registry: EntityRegistry::new(),
            physics: PhysicsWorld::new(),
            input: InputState::new(),
            quit: false,
        };
        PhysicsTest::create_walls(&mut w);
        PhysicsTest::create_ball(&mut w);
        proof {
            assert(w.physics.bodies@ =~= initial_bodies_spec());
            assert(w.physics.body_live(PhysicsWorld::ground()));
        }
        PhysicsTest::create_ground(&mut w);
        proof {
            assert(w.physics.colliders@ =~= initial_colliders_spec());
            assert(w.registry.entities@ =~= initial_entities_spec());
        }
        w
    }
}

} // verus!
