//! The scene stack: a last-in-first-out collection of interactive states.
//!
//! Exactly one scene — the top of the stack — receives input, update and
//! draw each tick. Popping the last scene sets the world's quit flag, the
//! only termination path of the game loop.

use vstd::prelude::*;

use crate::game::InputEvent;
use crate::math::Vec2;
use crate::physics::BodySlot;
use crate::physics::PhysicsError;
use crate::registry::Entity;
use crate::registry::ball_body_count;
use crate::scene::menu::MenuScene;
use crate::scene::menu::menu_input_spec;
use crate::scene::physicstest::PhysicsTest;
use crate::scene::physicstest::all_visible_resolve;
use crate::scene::physicstest::ball_spawn_collider;
use crate::scene::physicstest::ball_spawn_entity;
use crate::scene::physicstest::ball_spawn_slot;
use crate::scene::physicstest::draw_commands_spec;
use crate::scene::physicstest::physics_input_spec;
use crate::system::MeshKind;
use crate::system::PHYSICS_DT;
use crate::physics::step_bodies_spec;
use crate::world::SceneWorld;
use crate::world::world_wf;

verus! {

/// What a scene's update asks of the stack: stay, or pop the scene.
#[derive(Clone, Copy, Debug, PartialEq, Eq, Structural)]
pub enum SceneSwitch {
    Stay,
    Pop,
}

/// One entry of the scene stack.
#[derive(Clone, Copy, Debug, PartialEq, Eq, Structural)]
pub enum SceneItem {
    Menu(MenuScene),
    Physics(PhysicsTest),
}

/// One drawing instruction, for the renderer outside the library: a mesh
/// placed at a transform, or the menu text at a position.
#[derive(Clone, Copy, Debug, PartialEq, Eq, Structural)]
pub enum DrawCommand {
    MeshAt { mesh: MeshKind, dest: Vec2, rotation: i64 },
    TextAt { dest: Vec2 },
}

/// The scene named by `item`, after handling one input poll against level
/// state `inp`: the new scene, the new body table, and the new gravity
/// vector. Only a physics scene touches the world.
pub open spec fn scene_input_spec(
    item: SceneItem,
    entities: Seq<Entity>,
    bodies: Seq<BodySlot>,
    gravity: Vec2,
    inp: crate::game::InputState,
) -> (SceneItem, Seq<BodySlot>, Vec2) {
    match item {
        SceneItem::Menu(m) => (SceneItem::Menu(menu_input_spec(m, inp)), bodies, gravity),
        SceneItem::Physics(p) => {
            let t = physics_input_spec(p, entities, bodies, gravity, inp);
            (SceneItem::Physics(t.0), t.1, t.2)
        },
    }
}

/// The stack of scenes together with the world they share.
#[derive(Clone, Debug)]
pub struct SceneStack {
    pub world: SceneWorld,
    pub scenes: Vec<SceneItem>,
}

/// How one update tick moves the stack from `pre` to `post`: only the
/// active scene acts, a done scene is popped, and an empty stack — at
/// entry or after the pop — carries the quit flag.
pub open spec fn stack_update_spec(pre: SceneStack, post: SceneStack) -> bool {
    &&& post.world.registry == pre.world.registry
    &&& post.world.input == pre.world.input
    &&& post.world.physics.colliders@ == pre.world.physics.colliders@
    &&& post.scenes@.len() <= pre.scenes@.len()
    &&& forall|j: int| 0 <= j < pre.scenes@.len() - 1 ==> post.scenes@[j] == pre.scenes@[j]
    &&& (post.scenes@.len() == 0 ==> post.world.quit == true)
    &&& (pre.scenes@.len() == 0 ==> {
        &&& post.scenes@ == pre.scenes@
        &&& post.world.physics == pre.world.physics
        &&& post.world.quit == true
    })
    &&& (pre.scenes@.len() > 0 ==> match pre.scenes@.last() {
        SceneItem::Menu(m) => {
            &&& post.world.physics == pre.world.physics
            &&& (m.done ==> post.scenes@ == pre.scenes@.drop_last())
            &&& (!m.done ==> post.scenes@ == pre.scenes@)
            &&& ((!m.done || pre.scenes@.len() > 1) ==> post.world.quit == pre.world.quit)
        },
        SceneItem::Physics(p) => {
            &&& post.world.physics.bodies@ == step_bodies_spec(
                pre.world.physics.bodies@,
                pre.world.physics.gravity,
                PHYSICS_DT,
            )
            &&& post.world.physics.gravity == pre.world.physics.gravity
            &&& (p.done ==> post.scenes@ == pre.scenes@.drop_last())
            &&& (!p.done ==> post.scenes@ == pre.scenes@)
            &&& ((!p.done || pre.scenes@.len() > 1) ==> post.world.quit == pre.world.quit)
        },
    })
}

/// Popping the last scene sets the quit condition: every update tick
/// that ends with an empty stack ends with the world asking to quit, so
/// the game never runs without an active scene.
pub proof fn lemma_empty_stack_quits(pre: SceneStack, post: SceneStack)
    requires
        stack_update_spec(pre, post),
        post.scenes@.len() == 0,
    ensures
        post.world.quit,
{
}

/// How one draw pass moves the stack from `pre` to `post` and what it
/// hands back: the menu draws its text, the physics scene consumes a
/// pending spawn and lists every visible entity, and a stale collider
/// surfaces as the desynchronisation error.
pub open spec fn stack_draw_spec(
    pre: SceneStack,
    post: SceneStack,
    r: Result<Vec<DrawCommand>, PhysicsError>,
) -> bool {
    &&& post.scenes@.len() == pre.scenes@.len()
    &&& forall|j: int| 0 <= j < pre.scenes@.len() - 1 ==> post.scenes@[j] == pre.scenes@[j]
    &&& post.world.input == pre.world.input
    &&& post.world.quit == pre.world.quit
    &&& post.world.physics.gravity == pre.world.physics.gravity
    &&& (pre.scenes@.len() == 0 ==> {
        &&& post == pre
        &&& r is Ok
        &&& r->Ok_0@ == Seq::<DrawCommand>::empty()
    })
    &&& (pre.scenes@.len() > 0 ==> match pre.scenes@.last() {
        SceneItem::Menu(m) => {
            &&& post.world == pre.world
            &&& post.scenes@ == pre.scenes@
            &&& r is Ok
            &&& r->Ok_0@ =~= seq![DrawCommand::TextAt { dest: Vec2 { x: 200, y: 100 } }]
        },
        SceneItem::Physics(p) => {
            &&& post.scenes@.last() == SceneItem::Physics(
                PhysicsTest { draw_ball: false, gravity: p.gravity, done: p.done },
            )
            &&& (p.draw_ball ==> {
                &&& post.world.physics.bodies@ =~= pre.world.physics.bodies@.push(
                    ball_spawn_slot(pre.world.physics.bodies@.len() as int),
                )
                &&& post.world.physics.colliders@ =~= pre.world.physics.colliders@.push(
                    ball_spawn_collider(
                        pre.world.physics.bodies@.len() as int,
                        pre.world.physics.colliders@.len() as int,
                    ),
                )
                &&& post.world.registry.entities@ =~= pre.world.registry.entities@.push(
                    ball_spawn_entity(
                        pre.world.physics.bodies@.len() as int,
                        pre.world.physics.colliders@.len() as int,
                    ),
                )
                &&& ball_body_count(post.world.registry.entities@) == ball_body_count(
                    pre.world.registry.entities@,
                ) + 1
            })
            &&& (!p.draw_ball ==> post.world == pre.world)
            &&& (r is Ok <==> all_visible_resolve(
                post.world.registry.entities@,
                post.world.physics,
            ))
            &&& (r is Ok ==> r->Ok_0@ == draw_commands_spec(
                post.world.registry.entities@,
                post.world.physics,
            ))
            &&& (r is Err ==> r->Err_0 == PhysicsError::StaleCollider)
        },
    })
}

impl SceneStack {
    /// An empty stack over `world`.
    pub fn new(world: SceneWorld) -> (r: SceneStack)
        ensures
            r.world == world,
            r.scenes@ =~= Seq::<SceneItem>::empty(),
    {
        SceneStack { world, scenes: Vec::new() }
    }

    /// Push a scene; it becomes the active one.
    pub fn push(&mut self, scene: SceneItem)
        ensures
            final(self).scenes@ =~= old(self).scenes@.push(scene),
            final(self).world == old(self).world,
    {
        self.scenes.push(scene);
    }

    /// Hand one input event to the active scene alone. Scenes below the
    /// top are untouched, as is everything in the world except what the
    /// active scene's input handling changes.
    pub fn input(&mut self, ev: InputEvent, started: bool)
        ensures
            final(self).scenes@.len() == old(self).scenes@.len(),
            forall|j: int|
                0 <= j < old(self).scenes@.len() - 1 ==> final(self).scenes@[j] == old(
                    self,
                ).scenes@[j],
            final(self).world.registry == old(self).world.registry,
            final(self).world.physics.colliders@ == old(self).world.physics.colliders@,
            final(self).world.input == old(self).world.input,
            final(self).world.quit == old(self).world.quit,
            old(self).scenes@.len() == 0 ==> *final(self) == *old(self),
            old(self).scenes@.len() > 0 ==> {
                let t = scene_input_spec(
                    old(self).scenes@.last(),
                    old(self).world.registry.entities@,
                    old(self).world.physics.bodies@,
                    old(self).world.physics.gravity,
                    old(self).world.input,
                );
                &&& final(self).scenes@.last() == t.0
                &&& final(self).world.physics.bodies@ == t.1
                &&& final(self).world.physics.gravity == t.2
            },
    {
        let count = self.scenes.len();
        if count == 0 {
            return ;
        }
        let idx = count - 1;
        let top = self.scenes[idx];
        match top {
            SceneItem::Menu(mut m) => {
                m.input(&mut self.world, ev, started);
                self.scenes.set(idx, SceneItem::Menu(m));
            },
            SceneItem::Physics(mut p) => {
                p.input(&mut self.world, ev, started);
                self.scenes.set(idx, SceneItem::Physics(p));
            },
        }
    }

    /// One update tick for the active scene alone. A scene that declared
    /// itself done is popped; popping the last scene — or updating an
    /// already empty stack — sets the world's quit flag, so at no point is
    /// the game running without exactly one active scene.
    pub fn update(&mut self)
        ensures
            stack_update_spec(*old(self), *final(self)),
            world_wf(old(self).world) ==> world_wf(final(self).world),
    {
        let count = self.scenes.len();
        if count == 0 {
            self.world.quit = true;
            return ;
        }
        let idx = count - 1;
        let top = self.scenes[idx];
        let switch = match top {
            SceneItem::Menu(mut m) => {
                let sw = m.update(&mut self.world);
                self.scenes.set(idx, SceneItem::Menu(m));
                sw
            },
            SceneItem::Physics(mut p) => {
                let sw = p.update(&mut self.world);
                self.scenes.set(idx, SceneItem::Physics(p));
                sw
            },
        };
        proof {
            assert(self.scenes@ =~= old(self).scenes@);
        }
        match switch {
            SceneSwitch::Pop => {
                let _popped = self.scenes.pop();
                proof {
                    assert(self.scenes@ =~= old(self).scenes@.drop_last());
                }
                if self.scenes.len() == 0 {
                    self.world.quit = true;
                }
            },
            SceneSwitch::Stay => {},
        }
    }

    /// One draw pass for the active scene alone: the instructions to
    /// render, or the desynchronisation error a stale collider causes. A
    /// pending deferred spawn in the physics scene is consumed here.
    pub fn draw(&mut self) -> (r: Result<Vec<DrawCommand>, PhysicsError>)
        ensures
            stack_draw_spec(*old(self), *final(self), r),
            world_wf(old(self).world) ==> world_wf(final(self).world),
    {
        let count = self.scenes.len();
        if count == 0 {
            let cmds: Vec<DrawCommand> = Vec::new();
            return Ok(cmds);
        }
        let idx = count - 1;
        let top = self.scenes[idx];
        match top {
            SceneItem::Menu(mut m) => {
                let r = m.draw(&mut self.world);
                self.scenes.set(idx, SceneItem::Menu(m));
                proof {
                    assert(self.scenes@ =~= old(self).scenes@);
                }
                r
            },
            SceneItem::Physics(mut p) => {
                let r = p.draw(&mut self.world);
                self.scenes.set(idx, SceneItem::Physics(p));
                r
            },
        }
    }
}

} // verus!
