//! The input binder and the global game state.
//!
//! A static binding table maps hardware keys to semantic axes and buttons.
//! Button state is level-triggered: the binder exposes both the edge event
//! (handed to the scenes' `input` calls) and the level state (polled by
//! scene logic). Unbound keys produce no event.

use vstd::prelude::*;

use crate::physics::PhysicsError;
use crate::physics::PhysicsWorld;
use crate::registry::ball_body_count;
use crate::scene::menu::MenuScene;
use crate::scene::physicstest::PhysicsTest;
use crate::scene::stack::DrawCommand;
use crate::scene::stack::SceneItem;
use crate::scene::stack::SceneStack;
use crate::scene::stack::scene_input_spec;
use crate::scene::stack::stack_draw_spec;
use crate::scene::stack::stack_update_spec;
use crate::world::SceneWorld;
use crate::world::initial_bodies_spec;
use crate::world::initial_colliders_spec;
use crate::world::initial_entities_spec;
use crate::world::world_wf;
use crate::math::v2_zero_spec;

verus! {

/// Length of one logical update tick in nanoseconds: sixty ticks per
/// second.
pub const TICK_NS: u64 = 16_666_667;

/// The semantic buttons scenes react to.
#[derive(Clone, Copy, Debug, PartialEq, Eq, Hash, Structural)]
pub enum Button {
    Shoot,
    Rotate,
    Gravity,
    Quit,
}

/// The semantic axes.
#[derive(Clone, Copy, Debug, PartialEq, Eq, Hash, Structural)]
pub enum Axis {
    Forward,
    Backward,
}

/// The hardware keys the binder knows. Every other key is `Other` and is
/// bound to nothing.
#[derive(Clone, Copy, Debug, PartialEq, Eq, Hash, Structural)]
pub enum Key {
    Up,
    Down,
    G,
    Z,
    Space,
    Escape,
    Other,
}

/// A semantic input event: an axis moved or a button changed.
#[derive(Clone, Copy, Debug, PartialEq, Eq, Structural)]
pub enum InputEvent {
    Axis { axis: Axis, positive: bool },
    Button { button: Button },
}

/// What `resolve` answers on `bindings` for `key`: the event of the first
/// binding whose key matches, if any.
pub open spec fn resolve_spec(bindings: Seq<(Key, InputEvent)>, key: Key) -> Option<InputEvent>
    decreases bindings.len(),
{
    if bindings.len() == 0 {
        None
    } else if bindings.first().0 == key {
        Some(bindings.first().1)
    } else {
        resolve_spec(bindings.drop_first(), key)
    }
}

/// The static table from hardware keys to semantic events.
#[derive(Clone, Debug)]
pub struct InputBinding {
    pub bindings: Vec<(Key, InputEvent)>,
}

impl InputBinding {
    /// An empty table.
    pub fn new() -> (r: InputBinding)
        ensures
            r.bindings@ =~= Seq::<(Key, InputEvent)>::empty(),
    {
        InputBinding { bindings: Vec::new() }
    }

    /// Append a key-to-axis binding.
    pub fn bind_key_to_axis(self, key: Key, axis: Axis, positive: bool) -> (r: InputBinding)
        ensures
            r.bindings@ =~= self.bindings@.push((key, InputEvent::Axis { axis, positive })),
    {
        let mut bindings = self.bindings;
        bindings.push((key, InputEvent::Axis { axis, positive }));
        InputBinding { bindings }
    }

    /// Append a key-to-button binding.
    pub fn bind_key_to_button(self, key: Key, button: Button) -> (r: InputBinding)
        ensures
            r.bindings@ =~= self.bindings@.push((key, InputEvent::Button { button })),
    {
        let mut bindings = self.bindings;
        bindings.push((key, InputEvent::Button { button }));
        InputBinding { bindings }
    }

    /// Look a key up: the event of the first matching binding, or nothing
    /// for an unbound key.
    pub fn resolve(&self, key: Key) -> (r: Option<InputEvent>)
        ensures
            r == resolve_spec(self.bindings@, key),
    {
        let total = self.bindings.len();
        let mut i: usize = 0;
        proof {
            assert(self.bindings@.skip(0) =~= self.bindings@);
        }
        while i < total
            invariant
                i <= total,
                total == self.bindings@.len(),
                resolve_spec(self.bindings@, key) == resolve_spec(
                    self.bindings@.skip(i as int),
                    key,
                ),
            decreases total - i,
        {
            let pair = self.bindings[i];
            proof {
                assert(self.bindings@.skip(i as int).first() == self.bindings@[i as int]);
                assert(self.bindings@.skip(i as int).drop_first() =~= self.bindings@.skip(i + 1));
            }
            if pair.0 == key {
                return Some(pair.1);
            }
            i = i + 1;
        }
        None
    }
}

/// The game's fixed binding table, as a value: arrows drive the axes, G
/// toggles gravity, Z spawns a ball, Space shoots, Escape quits.
pub open spec fn default_bindings_spec() -> Seq<(Key, InputEvent)> {
    seq![
        (Key::Up, InputEvent::Axis { axis: Axis::Forward, positive: true }),
        (Key::Down, InputEvent::Axis { axis: Axis::Backward, positive: false }),
        (Key::G, InputEvent::Button { button: Button::Gravity }),
        (Key::Z, InputEvent::Button { button: Button::Rotate }),
        (Key::Space, InputEvent::Button { button: Button::Shoot }),
        (Key::Escape, InputEvent::Button { button: Button::Quit }),
    ]
}

/// Build the fixed binding table of the game.
pub fn bind_inputs() -> (r: InputBinding)
    ensures
        r.bindings@ =~= default_bindings_spec(),
{
    InputBinding::new()
        .bind_key_to_axis(Key::Up, Axis::Forward, true)
        .bind_key_to_axis(Key::Down, Axis::Backward, false)
        .bind_key_to_button(Key::G, Button::Gravity)
        .bind_key_to_button(Key::Z, Button::Rotate)
        .bind_key_to_button(Key::Space, Button::Shoot)
        .bind_key_to_button(Key::Escape, Button::Quit)
}

/// The level state of every semantic button and axis.
#[derive(Clone, Copy, Debug, PartialEq, Eq, Structural)]
pub struct InputState {
    pub shoot: bool,
    pub rotate: bool,
    pub gravity: bool,
    pub quit: bool,
    pub axis_forward: i64,
    pub axis_backward: i64,
}

/// The level state with nothing pressed.
pub open spec fn input_state_initial() -> InputState {
    InputState {
        shoot: false,
        rotate: false,
        gravity: false,
        quit: false,
        axis_forward: 0,
        axis_backward: 0,
    }
}

/// Is button `b` currently held in state `s`?
pub open spec fn button_pressed_spec(s: InputState, b: Button) -> bool {
    match b {
        Button::Shoot => s.shoot,
        Button::Rotate => s.rotate,
        Button::Gravity => s.gravity,
        Button::Quit => s.quit,
    }
}

/// The level state after one event: a button takes the new level, an axis
/// moves to its signed extreme while held and back to zero on release.
pub open spec fn update_effect_spec(s: InputState, ev: InputEvent, started: bool) -> InputState {
    match ev {
        InputEvent::Button { button } => match button {
            Button::Shoot => InputState { shoot: started, ..s },
            Button::Rotate => InputState { rotate: started, ..s },
            Button::Gravity => InputState { gravity: started, ..s },
            Button::Quit => InputState { quit: started, ..s },
        },
        InputEvent::Axis { axis, positive } => {
            let value: i64 = if !started {
                0i64
            } else if positive {
                1i64
            } else {
                -1i64
            };
            match axis {
                Axis::Forward => InputState { axis_forward: value, ..s },
                Axis::Backward => InputState { axis_backward: value, ..s },
            }
        },
    }
}

impl InputState {
    /// The state with nothing pressed.
    pub fn new() -> (r: InputState)
        ensures
            r == input_state_initial(),
    {
        InputState {
            shoot: false,
            rotate: false,
            gravity: false,
            quit: false,
            axis_forward: 0,
            axis_backward: 0,
        }
    }

    /// Record one semantic event at level `started`.
    pub fn update_effect(&mut self, ev: InputEvent, started: bool)
        ensures
            *final(self) == update_effect_spec(*old(self), ev, started),
    {
        match ev {
            InputEvent::Button { button } => match button {
                Button::Shoot => self.shoot = started,
                Button::Rotate => self.rotate = started,
                Button::Gravity => self.gravity = started,
                Button::Quit => self.quit = started,
            },
            InputEvent::Axis { axis, positive } => {
                let value: i64 = if !started {
                    0
                } else if positive {
                    1
                } else {
                    -1
                };
                match axis {
                    Axis::Forward => self.axis_forward = value,
                    Axis::Backward => self.axis_backward = value,
                }
            },
        }
    }

    /// The level of button `b`.
    pub fn get_button_pressed(&self, b: Button) -> (r: bool)
        ensures
            r == button_pressed_spec(*self, b),
    {
        match b {
            Button::Shoot => self.shoot,
            Button::Rotate => self.rotate,
            Button::Gravity => self.gravity,
            Button::Quit => self.quit,
        }
    }

    /// The signed position of axis `a`.
    pub fn get_axis(&self, a: Axis) -> (r: i64)
        ensures
            r == match a {
                Axis::Forward => self.axis_forward,
                Axis::Backward => self.axis_backward,
            },
    {
        match a {
            Axis::Forward => self.axis_forward,
            Axis::Backward => self.axis_backward,
        }
    }
}

/// The global game state: the scene stack over the shared world, the
/// input binding table, and the fixed-timestep accumulator that decouples
/// logical update ticks from rendered frames.
pub struct Game {
    pub scene_stack: SceneStack,
    pub input_binding: InputBinding,
    pub residual_ns: u64,
}

impl Game {
    /// Set the game up: the fresh world, the physics scene with the menu
    /// pushed on top of it, and the fixed key bindings.
    pub fn new() -> (g: Game)
        ensures
            g.residual_ns == 0,
            g.input_binding.bindings@ =~= default_bindings_spec(),
            g.scene_stack.scenes@ =~= seq![
                SceneItem::Physics(PhysicsTest { draw_ball: false, gravity: false, done: false }),
                SceneItem::Menu(MenuScene { done: false }),
            ],
            g.scene_stack.world.quit == false,
            g.scene_stack.world.input == input_state_initial(),
            g.scene_stack.world.physics.gravity == v2_zero_spec(),
            g.scene_stack.world.physics.bodies@ =~= initial_bodies_spec(),
            g.scene_stack.world.physics.colliders@ =~= initial_colliders_spec(),
            g.scene_stack.world.registry.entities@ =~= initial_entities_spec(),
            ball_body_count(g.scene_stack.world.registry.entities@) == 1,
            world_wf(g.scene_stack.world),
            g.scene_stack.world.physics.body_live(PhysicsWorld::ground()),
    {
        let scene_world = SceneWorld::new();
        let mut scene_stack = SceneStack::new(scene_world);
        scene_stack.push(SceneItem::Physics(PhysicsTest::new()));
        scene_stack.push(SceneItem::Menu(MenuScene::new()));
        proof {
            assert(scene_stack.scenes@ =~= seq![
                SceneItem::Physics(PhysicsTest { draw_ball: false, gravity: false, done: false }),
                SceneItem::Menu(MenuScene { done: false }),
            ]);
        }
        Game { scene_stack, input_binding: bind_inputs(), residual_ns: 0 }
    }

    /// Advance the game by the wall time one frame took: run zero, one or
    /// several whole update ticks, bank the remainder, and report whether
    /// the game asked to quit. The outcome depends on the elapsed time
    /// handed in alone, never on a clock read here.
    #[verifier::loop_isolation(false)]
    pub fn update(&mut self, elapsed_ns: u64) -> (quit: bool)
        requires
            old(self).residual_ns < TICK_NS,
            elapsed_ns <= u64::MAX - TICK_NS,
        ensures
            final(self).residual_ns == (old(self).residual_ns + elapsed_ns) % (TICK_NS as int),
            final(self).residual_ns < TICK_NS,
            final(self).input_binding == old(self).input_binding,
            final(self).scene_stack.world.registry == old(self).scene_stack.world.registry,
            final(self).scene_stack.world.input == old(self).scene_stack.world.input,
            final(self).scene_stack.world.physics.colliders@ == old(
                self,
            ).scene_stack.world.physics.colliders@,
            final(self).scene_stack.scenes@.len() <= old(self).scene_stack.scenes@.len(),
            quit == final(self).scene_stack.world.quit,
            (old(self).residual_ns + elapsed_ns) / (TICK_NS as int) == 0 ==> {
                &&& final(self).scene_stack.scenes@ == old(self).scene_stack.scenes@
                &&& final(self).scene_stack.world == old(self).scene_stack.world
            },
            (old(self).residual_ns + elapsed_ns) / (TICK_NS as int) == 1 ==> stack_update_spec(
                old(self).scene_stack,
                final(self).scene_stack,
            ),
            world_wf(old(self).scene_stack.world) ==> world_wf(final(self).scene_stack.world),
    {
        let total = self.residual_ns + elapsed_ns;
        let mut steps = total / TICK_NS;
        self.residual_ns = total % TICK_NS;
        while steps > 0
            invariant
                self.residual_ns == total % TICK_NS,
                self.input_binding == old(self).input_binding,
                self.scene_stack.world.registry == old(self).scene_stack.world.registry,
                self.scene_stack.world.input == old(self).scene_stack.world.input,
                self.scene_stack.world.physics.colliders@ == old(
                    self,
                ).scene_stack.world.physics.colliders@,
                self.scene_stack.scenes@.len() <= old(self).scene_stack.scenes@.len(),
                steps <= total / TICK_NS,
                steps == total / TICK_NS ==> {
                    &&& self.scene_stack.scenes@ == old(self).scene_stack.scenes@
                    &&& self.scene_stack.world == old(self).scene_stack.world
                },
                (total as int) / (TICK_NS as int) == 1 && steps == 0 ==> stack_update_spec(
                    old(self).scene_stack,
                    self.scene_stack,
                ),
                world_wf(old(self).scene_stack.world) ==> world_wf(self.scene_stack.world),
            decreases steps,
        {
            self.scene_stack.update();
            steps = steps - 1;
        }
        self.scene_stack.world.quit
    }

    /// One draw pass: clear, let the active scene draw, present. The
    /// library's part is the middle one; the commands go to the renderer.
    pub fn draw(&mut self) -> (r: Result<Vec<DrawCommand>, PhysicsError>)
        ensures
            final(self).input_binding == old(self).input_binding,
            final(self).residual_ns == old(self).residual_ns,
            stack_draw_spec(old(self).scene_stack, final(self).scene_stack, r),
            world_wf(old(self).scene_stack.world) ==> world_wf(final(self).scene_stack.world),
    {
        self.scene_stack.draw()
    }

    /// A key went down: translate it through the binding table; a bound
    /// key updates the level state and is handed to the active scene, an
    /// unbound key does nothing.
    pub fn key_down_event(&mut self, keycode: Key)
        ensures
            key_event_spec(*old(self), *final(self), keycode, true),
    {
        match self.input_binding.resolve(keycode) {
            Some(ev) => {
                self.scene_stack.world.input.update_effect(ev, true);
                self.scene_stack.input(ev, true);
            },
            None => {},
        }
    }

    /// A key came up: the same translation with the level cleared.
    pub fn key_up_event(&mut self, keycode: Key)
        ensures
            key_event_spec(*old(self), *final(self), keycode, false),
    {
        match self.input_binding.resolve(keycode) {
            Some(ev) => {
                self.scene_stack.world.input.update_effect(ev, false);
                self.scene_stack.input(ev, false);
            },
            None => {},
        }
    }
}

/// How a key event moves the game from `pre` to `post`: an unbound key
/// changes nothing; a bound key updates the level state and hands the
/// event to the active scene, leaving everything below the top and the
/// rest of the world alone.
pub open spec fn key_event_spec(pre: Game, post: Game, keycode: Key, started: bool) -> bool {
    &&& post.input_binding == pre.input_binding
    &&& post.residual_ns == pre.residual_ns
    &&& post.scene_stack.world.registry == pre.scene_stack.world.registry
    &&& post.scene_stack.world.physics.colliders@ == pre.scene_stack.world.physics.colliders@
    &&& post.scene_stack.world.quit == pre.scene_stack.world.quit
    &&& post.scene_stack.scenes@.len() == pre.scene_stack.scenes@.len()
    &&& forall|j: int|
        0 <= j < pre.scene_stack.scenes@.len() - 1 ==> post.scene_stack.scenes@[j]
            == pre.scene_stack.scenes@[j]
    &&& match resolve_spec(pre.input_binding.bindings@, keycode) {
        Option::None => post == pre,
        Option::Some(ev) => {
            let inp2 = update_effect_spec(pre.scene_stack.world.input, ev, started);
            &&& post.scene_stack.world.input == inp2
            &&& (pre.scene_stack.scenes@.len() == 0 ==> {
                &&& post.scene_stack.scenes@ == pre.scene_stack.scenes@
                &&& post.scene_stack.world.physics == pre.scene_stack.world.physics
            })
            &&& (pre.scene_stack.scenes@.len() > 0 ==> {
                let t = scene_input_spec(
                    pre.scene_stack.scenes@.last(),
                    pre.scene_stack.world.registry.entities@,
                    pre.scene_stack.world.physics.bodies@,
                    pre.scene_stack.world.physics.gravity,
                    inp2,
                );
                &&& post.scene_stack.scenes@.last() == t.0
                &&& post.scene_stack.world.physics.bodies@ == t.1
                &&& post.scene_stack.world.physics.gravity == t.2
            })
        },
    }
}

} // verus!
