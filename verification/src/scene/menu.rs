//! The menu scene: a single screen of text that waits for the shoot
//! button and then pops itself, falling through to the scene beneath.

use vstd::prelude::*;

use crate::game::Button;
use crate::game::InputEvent;
use crate::game::InputState;
use crate::game::button_pressed_spec;
use crate::math::Vec2;
use crate::physics::PhysicsError;
use crate::scene::stack::DrawCommand;
use crate::scene::stack::SceneSwitch;
use crate::world::SceneWorld;

verus! {

/// The menu scene's whole state: whether it is done and should pop.
#[derive(Clone, Copy, Debug, PartialEq, Eq, Structural)]
pub struct MenuScene {
    pub done: bool,
}

/// The menu after one input poll: it is done once the shoot button is
/// held, and otherwise unchanged.
pub open spec fn menu_input_spec(m: MenuScene, inp: InputState) -> MenuScene {
    if button_pressed_spec(inp, Button::Shoot) {
        MenuScene { done: true }
    } else {
        m
    }
}

impl MenuScene {
    /// A fresh menu, not yet dismissed.
    pub fn new() -> (r: MenuScene)
        ensures
            r.done == false,
    {
        MenuScene { done: false }
    }

    /// One update tick: ask to pop once dismissed; the world is untouched.
    pub fn update(&mut self, world: &mut SceneWorld) -> (r: SceneSwitch)
        ensures
            *final(self) == *old(self),
            *final(world) == *old(world),
            r == (if old(self).done {
                SceneSwitch::Pop
            } else {
                SceneSwitch::Stay
            }),
    {
        if self.done {
            SceneSwitch::Pop
        } else {
            SceneSwitch::Stay
        }
    }

    /// Draw the menu: one block of text near the top of the screen.
    pub fn draw(&mut self, world: &mut SceneWorld) -> (r: Result<Vec<DrawCommand>, PhysicsError>)
        ensures
            *final(self) == *old(self),
            *final(world) == *old(world),
            r is Ok,
            r->Ok_0@ =~= seq![DrawCommand::TextAt { dest: Vec2 { x: 200, y: 100 } }],
    {
        let mut cmds: Vec<DrawCommand> = Vec::new();
        cmds.push(DrawCommand::TextAt { dest: Vec2 { x: 200, y: 100 } });
        Ok(cmds)
    }

    /// The text the menu shows.
    pub fn text(&self) -> (r: &'static str)
        ensures
            r@ == "Bouncing balls in a bounded arena.\n\n- use spacebar to apply force to all balls\n- use z to add more balls\n- use g to toggle gravity (default off)\n\nPress SPACEBAR to continue.\n"@,
    {
        "Bouncing balls in a bounded arena.\n\n- use spacebar to apply force to all balls\n- use z to add more balls\n- use g to toggle gravity (default off)\n\nPress SPACEBAR to continue.\n"
    }

    /// The scene's name, for logging.
    pub fn name(&self) -> (r: &'static str)
        ensures
            r@ == "MenuScene"@,
    {
        "MenuScene"
    }

    /// Handle one input event: the menu polls the shoot button's level and
    /// dismisses itself once it is held.
    pub fn input(&mut self, world: &mut SceneWorld, _ev: InputEvent, _started: bool)
        ensures
            *final(world) == *old(world),
            *final(self) == menu_input_spec(*old(self), old(world).input),
    {
        if world.input.get_button_pressed(Button::Shoot) {
            self.done = true;
        }
    }
}

} // verus!
