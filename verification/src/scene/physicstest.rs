//! The physics demo scene: bouncing balls inside a walled arena.
//!
//! Input translates into effects on the world — the shoot button applies
//! a large constant force to every ball, the gravity button toggles the
//! global gravity vector, the rotate button queues a ball spawn for the
//! next draw pass (a deliberate one-frame latency), and the quit button
//! marks the scene done so the stack pops it on the next update.

use vstd::prelude::*;

use crate::game::Button;
use crate::game::InputEvent;
use crate::game::InputState;
use crate::game::button_pressed_spec;
use crate::math::Vec2;
use crate::math::v2_zero;
use crate::math::v2_zero_spec;
use crate::physics::Body;
use crate::physics::BodyHandle;
use crate::physics::BodySlot;
use crate::physics::BodyStatus;
use crate::physics::ColliderHandle;
use crate::physics::ColliderSlot;
use crate::physics::CollisionObject;
use crate::physics::Material;
use crate::physics::PhysicsError;
use crate::physics::PhysicsWorld;
use crate::physics::Shape;
use crate::physics::apply_force_spec;
use crate::physics::lemma_apply_force_preserves_live;
use crate::physics::lemma_step_preserves_live;
use crate::physics::slot_live;
use crate::physics::step_bodies_spec;
use crate::registry::Entity;
use crate::registry::ball_body_count;
use crate::registry::has_ball_collider_body;
use crate::registry::lemma_ball_body_count_push;
use crate::scene::stack::DrawCommand;
use crate::scene::stack::SceneSwitch;
use crate::system::Collider;
use crate::system::Gravity;
use crate::system::Mass;
use crate::system::Mesh;
use crate::system::MeshKind;
use crate::system::Motion;
use crate::system::PHYSICS_DT;
use crate::system::PhysicsSystem;
use crate::system::RigidBody;
use crate::world::SceneWorld;
use crate::world::entity_wf;
use crate::world::world_wf;

use vstd::pervasive::unreached;

verus! {

/// Strength of the global gravity vector while gravity is on.
pub const GRAVITY_STRENGTH: i64 = 98;

/// Restitution of every surface (0 would be a wet paper ball, 9 tenths a
/// bouncy one); the demo uses fully inelastic surfaces.
pub const BALL_RESTITUTION: i64 = 0;

/// Friction of every surface (0 is ice, 50 velcro).
pub const BALL_FRICTION: i64 = 50;

/// Radius of a spawned ball.
pub const BALL_RADIUS: i64 = 10;

/// Half-extent of the square wall arena.
pub const WALL_SIZE: i64 = 200;

/// Width of the camera view.
pub const CAMERA_WIDTH: i64 = 800;

/// Height of the camera view.
pub const CAMERA_HEIGHT: i64 = 600;

/// Magnitude of each component of the shoot force.
pub const SHOOT_FORCE: i64 = 1_000_000;

/// Marks an entity as a ball, the target of the shoot action.
#[derive(Clone, Copy, Debug, PartialEq, Eq, Structural)]
pub struct Ball {
    pub active: bool,
}

/// A collider handle that may or may not be set; kept for scene state
/// that tracks one distinguished ball.
#[derive(Clone, Copy, Debug, PartialEq, Eq, Structural)]
pub struct ActiveBall {
    pub object_handle: Option<ColliderHandle>,
}

/// The physics demo scene's state: the pending deferred spawn, the
/// gravity toggle, and the done flag.
#[derive(Clone, Copy, Debug, PartialEq, Eq, Structural)]
pub struct PhysicsTest {
    pub draw_ball: bool,
    pub gravity: bool,
    pub done: bool,
}

/// The force the shoot action applies to every ball.
pub open spec fn shoot_force_spec() -> Vec2 {
    Vec2 { x: SHOOT_FORCE, y: SHOOT_FORCE }
}

/// The gravity vector while gravity is on.
pub open spec fn gravity_on_spec() -> Vec2 {
    Vec2 { x: 0, y: GRAVITY_STRENGTH }
}

/// The gravity toggle: off goes to on with the fixed downward vector, on
/// goes to off with the zero vector.
pub open spec fn toggle_gravity_spec(on: bool) -> (bool, Vec2) {
    if !on {
        (true, gravity_on_spec())
    } else {
        (false, v2_zero_spec())
    }
}

/// The toggle flag and the global vector agree: on means the fixed
/// downward vector, off means zero.
pub open spec fn gravity_state_wf(on: bool, v: Vec2) -> bool {
    v == if on {
        gravity_on_spec()
    } else {
        v2_zero_spec()
    }
}

/// Toggling keeps the flag and the vector in agreement.
pub proof fn lemma_toggle_preserves_wf(on: bool, v: Vec2)
    requires
        gravity_state_wf(on, v),
    ensures
        gravity_state_wf(toggle_gravity_spec(on).0, toggle_gravity_spec(on).1),
{
}

/// Toggling gravity twice returns both the flag and the global gravity
/// vector to their original values: off, on, off is a round trip.
pub proof fn lemma_gravity_toggle_round_trip(on: bool, v: Vec2)
    requires
        gravity_state_wf(on, v),
    ensures
        toggle_gravity_spec(toggle_gravity_spec(on).0).0 == on,
        toggle_gravity_spec(toggle_gravity_spec(on).0).1 == v,
{
}

/// The body table after the shoot action visited one entity: the shoot
/// force lands on the entity's body exactly when the entity carries Ball,
/// Collider and RigidBody at once.
pub open spec fn shoot_one_spec(e: Entity, bodies: Seq<BodySlot>) -> Seq<BodySlot> {
    if has_ball_collider_body(e) {
        apply_force_spec(bodies, e.rigid_body->Some_0.object_handle, shoot_force_spec())
    } else {
        bodies
    }
}

/// The body table after the shoot action visited every entity in
/// registry order.
pub open spec fn shoot_all_spec(entities: Seq<Entity>, bodies: Seq<BodySlot>) -> Seq<BodySlot>
    decreases entities.len(),
{
    if entities.len() == 0 {
        bodies
    } else {
        shoot_all_spec(entities.drop_first(), shoot_one_spec(entities.first(), bodies))
    }
}

/// Visiting one more entity at the end folds onto the result of visiting
/// the earlier ones.
pub proof fn lemma_shoot_all_push(entities: Seq<Entity>, e: Entity, bodies: Seq<BodySlot>)
    ensures
        shoot_all_spec(entities.push(e), bodies) == shoot_one_spec(
            e,
            shoot_all_spec(entities, bodies),
        ),
    decreases entities.len(),
{
    if entities.len() == 0 {
        assert(entities.push(e).first() == e);
        assert(entities.push(e).drop_first() =~= Seq::<Entity>::empty());
        assert(shoot_all_spec(entities.push(e), bodies) == shoot_all_spec(
            Seq::<Entity>::empty(),
            shoot_one_spec(e, bodies),
        ));
        assert(shoot_all_spec(Seq::<Entity>::empty(), shoot_one_spec(e, bodies))
            == shoot_one_spec(e, bodies));
        assert(shoot_all_spec(entities, bodies) == bodies);
    } else {
        assert(entities.push(e).first() == entities.first());
        assert(entities.push(e).drop_first() =~= entities.drop_first().push(e));
        lemma_shoot_all_push(entities.drop_first(), e, shoot_one_spec(entities.first(), bodies));
    }
}

/// Shooting never creates or removes bodies: liveness of every handle is
/// untouched.
pub proof fn lemma_shoot_all_preserves_live(
    entities: Seq<Entity>,
    bodies: Seq<BodySlot>,
    h: BodyHandle,
)
    ensures
        slot_live(shoot_all_spec(entities, bodies), h) == slot_live(bodies, h),
    decreases entities.len(),
{
    if entities.len() > 0 {
        if has_ball_collider_body(entities.first()) {
            lemma_apply_force_preserves_live(
                bodies,
                entities.first().rigid_body->Some_0.object_handle,
                shoot_force_spec(),
                h,
            );
        }
        lemma_shoot_all_preserves_live(
            entities.drop_first(),
            shoot_one_spec(entities.first(), bodies),
            h,
        );
    }
}

/// The scene and the parts of the world it touches, after one input poll:
/// the shoot force lands on every ball if shoot is held, the gravity
/// toggle fires if the gravity button is held, a spawn is queued if the
/// rotate button is held, and the scene is done if quit is held.
pub open spec fn physics_input_spec(
    p: PhysicsTest,
    entities: Seq<Entity>,
    bodies: Seq<BodySlot>,
    gravity_vec: Vec2,
    inp: InputState,
) -> (PhysicsTest, Seq<BodySlot>, Vec2) {
    let bodies2 = if button_pressed_spec(inp, Button::Shoot) {
        shoot_all_spec(entities, bodies)
    } else {
        bodies
    };
    let toggled = toggle_gravity_spec(p.gravity);
    let gravity_on = if button_pressed_spec(inp, Button::Gravity) {
        toggled.0
    } else {
        p.gravity
    };
    let gravity_vec2 = if button_pressed_spec(inp, Button::Gravity) {
        toggled.1
    } else {
        gravity_vec
    };
    let p2 = PhysicsTest {
        draw_ball: p.draw_ball || button_pressed_spec(inp, Button::Rotate),
        gravity: gravity_on,
        done: p.done || button_pressed_spec(inp, Button::Quit),
    };
    (p2, bodies2, gravity_vec2)
}

/// The handle a body created as slot `nb` gets.
pub open spec fn body_handle_at(nb: int) -> BodyHandle {
    BodyHandle { index: nb as usize, generation: nb as u64 }
}

/// The handle a collision object created as slot `nc` gets.
pub open spec fn collider_handle_at(nc: int) -> ColliderHandle {
    ColliderHandle { index: nc as usize, generation: nc as u64 }
}

/// The body slot a spawned ball adds as slot `nb`: dynamic, at rest at
/// the origin.
pub open spec fn ball_spawn_slot(nb: int) -> BodySlot {
    BodySlot {
        generation: nb as u64,
        body: Some(
            Body {
                position: v2_zero_spec(),
                rotation: 0,
                velocity: v2_zero_spec(),
                status: BodyStatus::Dynamic,
                force: v2_zero_spec(),
            },
        ),
    }
}

/// The material every surface of the demo uses.
pub open spec fn demo_material_spec() -> Material {
    Material { restitution: BALL_RESTITUTION, friction: BALL_FRICTION }
}

/// The collision object a spawned ball adds as slot `nc`, attached to the
/// body in slot `nb`.
pub open spec fn ball_spawn_collider(nb: int, nc: int) -> ColliderSlot {
    ColliderSlot {
        generation: nc as u64,
        object: Some(
            CollisionObject {
                shape: Shape::Circle { radius: BALL_RADIUS },
                parent: body_handle_at(nb),
                material: demo_material_spec(),
            },
        ),
    }
}

/// The registry entry a spawned ball adds: the Ball marker, a circle
/// mesh, the two physics handles, and the informational components.
pub open spec fn ball_spawn_entity(nb: int, nc: int) -> Entity {
    Entity {
        ball: Some(Ball { active: false }),
        mesh: Some(Mesh { mesh: MeshKind::Circle { radius: BALL_RADIUS } }),
        collider: Some(Collider { object_handle: collider_handle_at(nc) }),
        rigid_body: Some(RigidBody { object_handle: body_handle_at(nb) }),
        force_generator: None,
        mass: Some(Mass { total: 0 }),
        gravity: Some(Gravity { force: None }),
        motion: Some(
            Motion { velocity: Vec2 { x: 1500i64, y: -1000i64 }, acceleration: v2_zero_spec() },
        ),
    }
}

/// Does this entity get drawn: it carries a mesh and a collider to read a
/// transform from.
pub open spec fn entity_visible(e: Entity) -> bool {
    &&& e.mesh is Some
    &&& e.collider is Some
}

/// The drawing instruction for a visible entity: its mesh at the
/// transform of its collider's parent body.
pub open spec fn entity_draw_command(e: Entity, p: PhysicsWorld) -> DrawCommand {
    let parent = p.collider_at(e.collider->Some_0.object_handle).parent;
    DrawCommand::MeshAt {
        mesh: e.mesh->Some_0.mesh,
        dest: p.body_at(parent).position,
        rotation: p.body_at(parent).rotation,
    }
}

/// Every visible entity's collider resolves to a transform — the
/// condition under which a draw pass succeeds.
pub open spec fn all_visible_resolve(entities: Seq<Entity>, p: PhysicsWorld) -> bool {
    forall|i: int|
        0 <= i < entities.len() && entity_visible(#[trigger] entities[i]) ==> p.collider_resolves(
            entities[i].collider->Some_0.object_handle,
        )
}

/// The drawing instructions for the visible entities, in registry order.
pub open spec fn draw_commands_spec(entities: Seq<Entity>, p: PhysicsWorld) -> Seq<DrawCommand>
    decreases entities.len(),
{
    if entities.len() == 0 {
        Seq::empty()
    } else if entity_visible(entities.last()) {
        draw_commands_spec(entities.drop_last(), p).push(entity_draw_command(entities.last(), p))
    } else {
        draw_commands_spec(entities.drop_last(), p)
    }
}

impl PhysicsTest {
    /// A fresh demo scene: nothing pending, gravity off, not done.
    pub fn new() -> (r: PhysicsTest)
        ensures
            r.draw_ball == false,
            r.gravity == false,
            r.done == false,
    {
        PhysicsTest { draw_ball: false, gravity: false, done: false }
    }

    /// The screen rectangle the camera shows, centred on the origin:
    /// left, top, width, height.
    pub fn screen_rect() -> (r: (i64, i64, i64, i64))
        ensures
            r.0 == -CAMERA_WIDTH / 2,
            r.1 == -CAMERA_HEIGHT / 2,
            r.2 == CAMERA_WIDTH,
            r.3 == CAMERA_HEIGHT,
    {
        let camera_focus_x: i64 = 0;
        let camera_focus_y: i64 = 0;
        (
            camera_focus_x - CAMERA_WIDTH / 2,
            camera_focus_y - CAMERA_HEIGHT / 2,
            CAMERA_WIDTH,
            CAMERA_HEIGHT,
        )
    }

    /// Spawn one ball: a dynamic body at rest at the origin, a circle
    /// collider attached to it, and a registry entry carrying both
    /// handles. The count of shootable balls rises by exactly one and the
    /// new collider resolves to a transform at once.
    pub fn create_ball(world: &mut SceneWorld)
        ensures
            final(world).physics.bodies@ =~= old(world).physics.bodies@.push(
                ball_spawn_slot(old(world).physics.bodies@.len() as int),
            ),
            final(world).physics.colliders@ =~= old(world).physics.colliders@.push(
                ball_spawn_collider(
                    old(world).physics.bodies@.len() as int,
                    old(world).physics.colliders@.len() as int,
                ),
            ),
            final(world).registry.entities@ =~= old(world).registry.entities@.push(
                ball_spawn_entity(
                    old(world).physics.bodies@.len() as int,
                    old(world).physics.colliders@.len() as int,
                ),
            ),
            final(world).physics.gravity == old(world).physics.gravity,
            final(world).input == old(world).input,
            final(world).quit == old(world).quit,
            ball_body_count(final(world).registry.entities@) == ball_body_count(
                old(world).registry.entities@,
            ) + 1,
            final(world).physics.collider_resolves(
                collider_handle_at(old(world).physics.colliders@.len() as int),
            ),
            world_wf(*old(world)) ==> world_wf(*final(world)),
    {
        let body_handle = world.physics.add_rigid_body(v2_zero());
        world.physics.set_status(body_handle, BodyStatus::Dynamic);
        proof {
            assert(old(world).physics.bodies@.len() == old(world).physics.bodies.len());
            assert(old(world).physics.colliders@.len() == old(world).physics.colliders.len());
            assert(world.physics.bodies@ =~= old(world).physics.bodies@.push(
                ball_spawn_slot(old(world).physics.bodies@.len() as int),
            ));
        }
        let material = Material { restitution: BALL_RESTITUTION, friction: BALL_FRICTION };
        let collide_handle = match world.physics.add_collider(
            Shape::Circle { radius: BALL_RADIUS },
            body_handle,
            material,
        ) {
            Ok(h) => h,
            Err(_) => unreached(),
        };
        let entity = Entity {
            ball: Some(Ball { active: false }),
            mesh: Some(Mesh { mesh: MeshKind::Circle { radius: BALL_RADIUS } }),
            collider: Some(Collider { object_handle: collide_handle }),
            rigid_body: Some(RigidBody { object_handle: body_handle }),
            force_generator: None,
            mass: Some(Mass { total: 0 }),
            gravity: Some(Gravity { force: None }),
            motion: Some(
                Motion { velocity: Vec2 { x: 1500, y: -1000 }, acceleration: v2_zero() },
            ),
        };
        world.registry.add_entity(entity);
        proof {
            lemma_ball_body_count_push(
                old(world).registry.entities@,
                ball_spawn_entity(
                    old(world).physics.bodies@.len() as int,
                    old(world).physics.colliders@.len() as int,
                ),
            );
            if world_wf(*old(world)) {
                assert forall|i: int|
                    0 <= i < world.registry.entities@.len() implies entity_wf(
                    #[trigger] world.registry.entities@[i],
                    world.physics,
                ) by {
                    if i < old(world).registry.entities@.len() {
                        assert(entity_wf(old(world).registry.entities@[i], old(world).physics));
                    }
                }
            }
        }
    }
}

/// The corner above-left of the arena.
pub open spec fn wall_corner_nw() -> Vec2 {
    Vec2 { x: (-WALL_SIZE) as i64, y: WALL_SIZE }
}

/// The corner below-left of the arena.
pub open spec fn wall_corner_sw() -> Vec2 {
    Vec2 { x: (-WALL_SIZE) as i64, y: (-WALL_SIZE) as i64 }
}

/// The corner below-right of the arena.
pub open spec fn wall_corner_se() -> Vec2 {
    Vec2 { x: WALL_SIZE, y: (-WALL_SIZE) as i64 }
}

/// The corner above-right of the arena.
pub open spec fn wall_corner_ne() -> Vec2 {
    Vec2 { x: WALL_SIZE, y: WALL_SIZE }
}

/// The body slot the wall entity adds as slot `nb`: static at the origin.
pub open spec fn wall_spawn_slot(nb: int) -> BodySlot {
    BodySlot {
        generation: nb as u64,
        body: Some(
            Body {
                position: v2_zero_spec(),
                rotation: 0,
                velocity: v2_zero_spec(),
                status: BodyStatus::Static,
                force: v2_zero_spec(),
            },
        ),
    }
}

/// The collision object the walls add as slot `nc`: the arena outline
/// attached to the static wall body in slot `nb`.
pub open spec fn wall_spawn_collider(nb: int, nc: int) -> ColliderSlot {
    ColliderSlot {
        generation: nc as u64,
        object: Some(
            CollisionObject {
                shape: Shape::Polyline {
                    p0: wall_corner_nw(),
                    p1: wall_corner_sw(),
                    p2: wall_corner_se(),
                    p3: wall_corner_ne(),
                },
                parent: body_handle_at(nb),
                material: demo_material_spec(),
            },
        ),
    }
}

/// The registry entry the walls add: the outline mesh and the collider
/// handle; no Ball marker and no RigidBody component.
pub open spec fn wall_spawn_entity(nc: int) -> Entity {
    Entity {
        ball: None,
        mesh: Some(
            Mesh {
                mesh: MeshKind::Polygon {
                    p0: wall_corner_nw(),
                    p1: wall_corner_sw(),
                    p2: wall_corner_se(),
                    p3: wall_corner_ne(),
                },
            },
        ),
        collider: Some(Collider { object_handle: collider_handle_at(nc) }),
        rigid_body: None,
        force_generator: None,
        mass: None,
        gravity: None,
        motion: None,
    }
}

/// The collision object the ground adds as slot `nc`: a segment across
/// the arena attached to the fixed ground body.
pub open spec fn ground_spawn_collider(nc: int) -> ColliderSlot {
    ColliderSlot {
        generation: nc as u64,
        object: Some(
            CollisionObject {
                shape: Shape::Segment { a: wall_corner_ne(), b: wall_corner_nw() },
                parent: PhysicsWorld::ground(),
                material: demo_material_spec(),
            },
        ),
    }
}

/// The empty registry entry the ground adds: the ground's collision
/// object lives in the physics world alone.
pub open spec fn empty_entity_spec() -> Entity {
    Entity {
        ball: None,
        mesh: None,
        collider: None,
        rigid_body: None,
        force_generator: None,
        mass: None,
        gravity: None,
        motion: None,
    }
}

impl PhysicsTest {
    /// Create the arena walls: a static body, the outline collider, and a
    /// registry entry carrying the outline mesh and the collider handle.
    pub fn create_walls(world: &mut SceneWorld)
        ensures
            final(world).physics.bodies@ =~= old(world).physics.bodies@.push(
                wall_spawn_slot(old(world).physics.bodies@.len() as int),
            ),
            final(world).physics.colliders@ =~= old(world).physics.colliders@.push(
                wall_spawn_collider(
                    old(world).physics.bodies@.len() as int,
                    old(world).physics.colliders@.len() as int,
                ),
            ),
            final(world).registry.entities@ =~= old(world).registry.entities@.push(
                wall_spawn_entity(old(world).physics.colliders@.len() as int),
            ),
            final(world).physics.gravity == old(world).physics.gravity,
            final(world).input == old(world).input,
            final(world).quit == old(world).quit,
            ball_body_count(final(world).registry.entities@) == ball_body_count(
                old(world).registry.entities@,
            ),
            final(world).physics.collider_resolves(
                collider_handle_at(old(world).physics.colliders@.len() as int),
            ),
            world_wf(*old(world)) ==> world_wf(*final(world)),
    {
        let body_handle = world.physics.add_rigid_body(v2_zero());
        world.physics.set_status(body_handle, BodyStatus::Static);
        proof {
            assert(old(world).physics.bodies@.len() == old(world).physics.bodies.len());
            assert(old(world).physics.colliders@.len() == old(world).physics.colliders.len());
            assert(world.physics.bodies@ =~= old(world).physics.bodies@.push(
                wall_spawn_slot(old(world).physics.bodies@.len() as int),
            ));
        }
        let material = Material { restitution: BALL_RESTITUTION, friction: BALL_FRICTION };
        let collide_handle = match world.physics.add_collider(
            Shape::Polyline {
                p0: Vec2 { x: -WALL_SIZE, y: WALL_SIZE },
                p1: Vec2 { x: -WALL_SIZE, y: -WALL_SIZE },
                p2: Vec2 { x: WALL_SIZE, y: -WALL_SIZE },
                p3: Vec2 { x: WALL_SIZE, y: WALL_SIZE },
            },
            body_handle,
            material,
        ) {
            Ok(h) => h,
            Err(_) => unreached(),
        };
        let entity = Entity {
            ball: None,
            mesh: Some(
                Mesh {
                    mesh: MeshKind::Polygon {
                        p0: Vec2 { x: -WALL_SIZE, y: WALL_SIZE },
                        p1: Vec2 { x: -WALL_SIZE, y: -WALL_SIZE },
                        p2: Vec2 { x: WALL_SIZE, y: -WALL_SIZE },
                        p3: Vec2 { x: WALL_SIZE, y: WALL_SIZE },
                    },
                },
            ),
            collider: Some(Collider { object_handle: collide_handle }),
            rigid_body: None,
            force_generator: None,
            mass: None,
            gravity: None,
            motion: None,
        };
        world.registry.add_entity(entity);
        proof {
            lemma_ball_body_count_push(
                old(world).registry.entities@,
                wall_spawn_entity(old(world).physics.colliders@.len() as int),
            );
            if world_wf(*old(world)) {
                assert forall|i: int|
                    0 <= i < world.registry.entities@.len() implies entity_wf(
                    #[trigger] world.registry.entities@[i],
                    world.physics,
                ) by {
                    if i < old(world).registry.entities@.len() {
                        assert(entity_wf(old(world).registry.entities@[i], old(world).physics));
                    }
                }
            }
        }
    }

    /// Create the ground: an empty registry entry, and a segment collider
    /// attached to the world's fixed ground body.
    pub fn create_ground(world: &mut SceneWorld)
        requires
            old(world).physics.body_live(PhysicsWorld::ground()),
        ensures
            final(world).physics.bodies@ == old(world).physics.bodies@,
            final(world).physics.colliders@ =~= old(world).physics.colliders@.push(
                ground_spawn_collider(old(world).physics.colliders@.len() as int),
            ),
            final(world).registry.entities@ =~= old(world).registry.entities@.push(
                empty_entity_spec(),
            ),
            final(world).physics.gravity == old(world).physics.gravity,
            final(world).input == old(world).input,
            final(world).quit == old(world).quit,
            ball_body_count(final(world).registry.entities@) == ball_body_count(
                old(world).registry.entities@,
            ),
            final(world).physics.collider_resolves(
                collider_handle_at(old(world).physics.colliders@.len() as int),
            ),
            world_wf(*old(world)) ==> world_wf(*final(world)),
    {
        let entity = Entity {
            ball: None,
            mesh: None,
            collider: None,
            rigid_body: None,
            force_generator: None,
            mass: None,
            gravity: None,
            motion: None,
        };
        world.registry.add_entity(entity);
        let material = Material { restitution: BALL_RESTITUTION, friction: BALL_FRICTION };
        match world.physics.add_collider(
            Shape::Segment {
                a: Vec2 { x: WALL_SIZE, y: WALL_SIZE },
                b: Vec2 { x: -WALL_SIZE, y: WALL_SIZE },
            },
            PhysicsWorld::ground_handle(),
            material,
        ) {
            Ok(_) => {},
            Err(_) => unreached(),
        }
        proof {
            lemma_ball_body_count_push(old(world).registry.entities@, empty_entity_spec());
            if world_wf(*old(world)) {
                assert forall|i: int|
                    0 <= i < world.registry.entities@.len() implies entity_wf(
                    #[trigger] world.registry.entities@[i],
                    world.physics,
                ) by {
                    if i < old(world).registry.entities@.len() {
                        assert(entity_wf(old(world).registry.entities@[i], old(world).physics));
                    }
                }
            }
        }
    }

    /// The scene's name, for logging.
    pub fn name(&self) -> (r: &'static str)
        ensures
            r@ == "Physics Gravity Test"@,
    {
        "Physics Gravity Test"
    }

    /// One update tick: run the physics system for one fixed step, then
    /// ask to pop once the quit button marked the scene done.
    pub fn update(&mut self, world: &mut SceneWorld) -> (r: SceneSwitch)
        ensures
            *final(self) == *old(self),
            final(world).physics.bodies@ == step_bodies_spec(
                old(world).physics.bodies@,
                old(world).physics.gravity,
                PHYSICS_DT,
            ),
            final(world).physics.colliders@ == old(world).physics.colliders@,
            final(world).physics.gravity == old(world).physics.gravity,
            final(world).registry.entities@ == old(world).registry.entities@,
            final(world).registry == old(world).registry,
            final(world).input == old(world).input,
            final(world).quit == old(world).quit,
            r == (if old(self).done {
                SceneSwitch::Pop
            } else {
                SceneSwitch::Stay
            }),
            world_wf(*old(world)) ==> world_wf(*final(world)),
    {
        let mut physics_system = PhysicsSystem;
        physics_system.run(&mut world.physics);
        proof {
            if world_wf(*old(world)) {
                assert forall|i: int|
                    0 <= i < world.registry.entities@.len() implies entity_wf(
                    #[trigger] world.registry.entities@[i],
                    world.physics,
                ) by {
                    let e = old(world).registry.entities@[i];
                    assert(entity_wf(e, old(world).physics));
                    if e.collider is Some {
                        lemma_step_preserves_live(
                            old(world).physics.bodies@,
                            old(world).physics.gravity,
                            PHYSICS_DT,
                            old(world).physics.collider_at(e.collider->Some_0.object_handle).parent,
                        );
                    }
                    if e.rigid_body is Some {
                        lemma_step_preserves_live(
                            old(world).physics.bodies@,
                            old(world).physics.gravity,
                            PHYSICS_DT,
                            e.rigid_body->Some_0.object_handle,
                        );
                    }
                }
            }
        }
        if self.done {
            SceneSwitch::Pop
        } else {
            SceneSwitch::Stay
        }
    }

    /// Handle one input poll. Shoot applies the constant force to every
    /// entity that carries Ball, Collider and RigidBody at once — a stale
    /// body handle makes that application a silent no-op. Gravity toggles
    /// the global vector, rotate queues a deferred spawn, and quit marks
    /// the scene done.
    #[verifier::loop_isolation(false)]
    pub fn input(&mut self, world: &mut SceneWorld, _ev: InputEvent, _started: bool)
        ensures
            final(world).registry == old(world).registry,
            final(world).physics.colliders@ == old(world).physics.colliders@,
            final(world).input == old(world).input,
            final(world).quit == old(world).quit,
            ({
                let t = physics_input_spec(
                    *old(self),
                    old(world).registry.entities@,
                    old(world).physics.bodies@,
                    old(world).physics.gravity,
                    old(world).input,
                );
                &&& *final(self) == t.0
                &&& final(world).physics.bodies@ == t.1
                &&& final(world).physics.gravity == t.2
            }),
            world_wf(*old(world)) ==> world_wf(*final(world)),
    {
        if world.input.get_button_pressed(Button::Shoot) {
            let total = world.registry.entities.len();
            let mut i: usize = 0;
            while i < total
                invariant
                    i <= total,
                    world.registry == old(world).registry,
                    world.physics.colliders@ == old(world).physics.colliders@,
                    world.physics.gravity == old(world).physics.gravity,
                    world.input == old(world).input,
                    world.quit == old(world).quit,
                    world.physics.bodies@ == shoot_all_spec(
                        old(world).registry.entities@.take(i as int),
                        old(world).physics.bodies@,
                    ),
                decreases total - i,
            {
                let e = world.registry.entities[i];
                proof {
                    assert(old(world).registry.entities@.take(i + 1) =~= old(
                        world,
                    ).registry.entities@.take(i as int).push(
                        old(world).registry.entities@[i as int],
                    ));
                    lemma_shoot_all_push(
                        old(world).registry.entities@.take(i as int),
                        old(world).registry.entities@[i as int],
                        old(world).physics.bodies@,
                    );
                }
                if e.ball.is_some() && e.collider.is_some() && e.rigid_body.is_some() {
                    let rb = match e.rigid_body {
                        Some(rb) => rb,
                        None => unreached(),
                    };
                    world.physics.apply_force(
                        rb.object_handle,
                        Vec2 { x: SHOOT_FORCE, y: SHOOT_FORCE },
                    );
                }
                i = i + 1;
            }
            proof {
                assert(old(world).registry.entities@.take(total as int) =~= old(
                    world,
                ).registry.entities@);
            }
        }
        if world.input.get_button_pressed(Button::Gravity) {
            if !self.gravity {
                world.physics.set_gravity(Vec2 { x: 0, y: GRAVITY_STRENGTH });
                self.gravity = true;
            } else {
                world.physics.set_gravity(v2_zero());
                self.gravity = false;
            }
        }
        if world.input.get_button_pressed(Button::Rotate) {
            self.draw_ball = true;
        }
        if world.input.get_button_pressed(Button::Quit) {
            self.done = true;
        }
        proof {
            if world_wf(*old(world)) {
                assert forall|i: int|
                    0 <= i < world.registry.entities@.len() implies entity_wf(
                    #[trigger] world.registry.entities@[i],
                    world.physics,
                ) by {
                    let e = old(world).registry.entities@[i];
                    assert(entity_wf(e, old(world).physics));
                    if button_pressed_spec(old(world).input, Button::Shoot) {
                        if e.collider is Some {
                            lemma_shoot_all_preserves_live(
                                old(world).registry.entities@,
                                old(world).physics.bodies@,
                                old(world).physics.collider_at(
                                    e.collider->Some_0.object_handle,
                                ).parent,
                            );
                        }
                        if e.rigid_body is Some {
                            lemma_shoot_all_preserves_live(
                                old(world).registry.entities@,
                                old(world).physics.bodies@,
                                e.rigid_body->Some_0.object_handle,
                            );
                        }
                    }
                }
            }
        }
    }

    /// One draw pass: consume a pending deferred spawn, then collect one
    /// drawing instruction per visible entity in registry order. A
    /// collider that no longer resolves is a desynchronisation between
    /// the registry and the physics world, reported as an error rather
    /// than skipped.
    #[verifier::loop_isolation(false)]
    pub fn draw(&mut self, world: &mut SceneWorld) -> (r: Result<Vec<DrawCommand>, PhysicsError>)
        ensures
            final(self).gravity == old(self).gravity,
            final(self).done == old(self).done,
            final(self).draw_ball == false,
            old(self).draw_ball ==> {
                &&& final(world).physics.bodies@ =~= old(world).physics.bodies@.push(
                    ball_spawn_slot(old(world).physics.bodies@.len() as int),
                )
                &&& final(world).physics.colliders@ =~= old(world).physics.colliders@.push(
                    ball_spawn_collider(
                        old(world).physics.bodies@.len() as int,
                        old(world).physics.colliders@.len() as int,
                    ),
                )
                &&& final(world).registry.entities@ =~= old(world).registry.entities@.push(
                    ball_spawn_entity(
                        old(world).physics.bodies@.len() as int,
                        old(world).physics.colliders@.len() as int,
                    ),
                )
                &&& ball_body_count(final(world).registry.entities@) == ball_body_count(
                    old(world).registry.entities@,
                ) + 1
            },
            !old(self).draw_ball ==> *final(world) == *old(world),
            final(world).physics.gravity == old(world).physics.gravity,
            final(world).input == old(world).input,
            final(world).quit == old(world).quit,
            world_wf(*old(world)) ==> world_wf(*final(world)),
            r is Ok <==> all_visible_resolve(final(world).registry.entities@, final(world).physics),
            r is Ok ==> r->Ok_0@ == draw_commands_spec(
                final(world).registry.entities@,
                final(world).physics,
            ),
            r is Err ==> r->Err_0 == PhysicsError::StaleCollider,
    {
        if self.draw_ball {
            self.draw_ball = false;
            PhysicsTest::create_ball(world);
        }
        let mut cmds: Vec<DrawCommand> = Vec::new();
        let total = world.registry.entities.len();
        let mut i: usize = 0;
        while i < total
            invariant
                i <= total,
                cmds@ == draw_commands_spec(
                    world.registry.entities@.take(i as int),
                    world.physics,
                ),
                forall|j: int|
                    0 <= j < i && entity_visible(#[trigger] world.registry.entities@[j])
                        ==> world.physics.collider_resolves(
                        world.registry.entities@[j].collider->Some_0.object_handle,
                    ),
            decreases total - i,
        {
            let e = world.registry.entities[i];
            proof {
                assert(world.registry.entities@.take(i + 1).drop_last() =~= world.registry.entities@.take(
                    i as int,
                ));
                assert(world.registry.entities@.take(i + 1).last() == world.registry.entities@[i as int]);
            }
            match (e.mesh, e.collider) {
                (Some(m), Some(c)) => {
                    match world.physics.lookup_transform(c.object_handle) {
                        Ok(t) => {
                            cmds.push(
                                DrawCommand::MeshAt { mesh: m.mesh, dest: t.0, rotation: t.1 },
                            );
                        },
                        Err(err) => {
                            proof {
                                assert(entity_visible(world.registry.entities@[i as int]));
                                assert(!all_visible_resolve(
                                    world.registry.entities@,
                                    world.physics,
                                ));
                            }
                            return Err(err);
                        },
                    }
                },
                _ => {},
            }
            i = i + 1;
        }
        proof {
            assert(world.registry.entities@.take(total as int) =~= world.registry.entities@);
        }
        Ok(cmds)
    }
}

} // verus!
