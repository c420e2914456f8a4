use physics_demo::game::Button;
use physics_demo::game::InputEvent;
use physics_demo::math::Vec2;
use physics_demo::physics::PhysicsError;
use physics_demo::scene::menu::MenuScene;
use physics_demo::scene::physicstest::PhysicsTest;
use physics_demo::scene::stack::DrawCommand;
use physics_demo::scene::stack::SceneItem;
use physics_demo::scene::stack::SceneStack;
use physics_demo::scene::stack::SceneSwitch;
use physics_demo::world::SceneWorld;

fn press(world: &mut SceneWorld, button: Button) -> InputEvent {
    let ev = InputEvent::Button { button };
    world.input.update_effect(ev, true);
    ev
}

fn release(world: &mut SceneWorld, button: Button) -> InputEvent {
    let ev = InputEvent::Button { button };
    world.input.update_effect(ev, false);
    ev
}

#[test]
fn fresh_world_holds_walls_ball_and_ground() {
    let world = SceneWorld::new();
    assert_eq!(world.registry.len(), 3);
    assert_eq!(world.registry.count_ball_bodies(), 1);
    assert_eq!(world.physics.bodies.len(), 3);
    assert_eq!(world.physics.colliders.len(), 3);
    assert_eq!(world.physics.gravity, Vec2 { x: 0, y: 0 });
    assert!(!world.quit);
}

#[test]
fn menu_dismisses_on_shoot_and_pops() {
    let mut world = SceneWorld::new();
    let mut menu = MenuScene::new();
    assert_eq!(menu.update(&mut world), SceneSwitch::Stay);
    let ev = press(&mut world, Button::Shoot);
    menu.input(&mut world, ev, true);
    assert!(menu.done);
    assert_eq!(menu.update(&mut world), SceneSwitch::Pop);
}

#[test]
fn menu_ignores_other_buttons() {
    let mut world = SceneWorld::new();
    let mut menu = MenuScene::new();
    let ev = press(&mut world, Button::Gravity);
    menu.input(&mut world, ev, true);
    assert!(!menu.done);
}

#[test]
fn menu_draws_its_text_block() {
    let mut world = SceneWorld::new();
    let mut menu = MenuScene::new();
    let cmds = menu.draw(&mut world).unwrap();
    assert_eq!(cmds, vec![DrawCommand::TextAt { dest: Vec2 { x: 200, y: 100 } }]);
    assert_eq!(menu.name(), "MenuScene");
    assert!(menu.text().contains("SPACEBAR"));
}

#[test]
fn gravity_toggle_round_trips() {
    let mut world = SceneWorld::new();
    let mut scene = PhysicsTest::new();
    assert_eq!(world.physics.gravity, Vec2 { x: 0, y: 0 });
    let ev = press(&mut world, Button::Gravity);
    scene.input(&mut world, ev, true);
    assert!(scene.gravity);
    assert_eq!(world.physics.gravity, Vec2 { x: 0, y: 98 });
    scene.input(&mut world, ev, true);
    assert!(!scene.gravity);
    assert_eq!(world.physics.gravity, Vec2 { x: 0, y: 0 });
}

#[test]
fn shoot_applies_force_to_every_ball() {
    let mut world = SceneWorld::new();
    let mut scene = PhysicsTest::new();
    let ball_body = world.registry.entities[1].rigid_body.unwrap().object_handle;
    let ev = press(&mut world, Button::Shoot);
    scene.input(&mut world, ev, true);
    let body = world.physics.bodies[ball_body.index].body.unwrap();
    assert_eq!(body.force, Vec2 { x: 1_000_000, y: 1_000_000 });
    let wall_body = world.physics.bodies[1].body.unwrap();
    assert_eq!(wall_body.force, Vec2 { x: 0, y: 0 });
}

#[test]
fn shoot_on_invalidated_handle_is_a_no_op() {
    let mut world = SceneWorld::new();
    let mut scene = PhysicsTest::new();
    let ball_body = world.registry.entities[1].rigid_body.unwrap().object_handle;
    world.physics.remove_body(ball_body);
    let before = world.physics.clone();
    let ev = press(&mut world, Button::Shoot);
    scene.input(&mut world, ev, true);
    assert_eq!(world.physics, before);
}

#[test]
fn rotate_defers_one_spawn_to_the_next_draw() {
    let mut world = SceneWorld::new();
    let mut scene = PhysicsTest::new();
    let ev = press(&mut world, Button::Rotate);
    scene.input(&mut world, ev, true);
    assert!(scene.draw_ball);
    assert_eq!(world.registry.count_ball_bodies(), 1);

    let cmds = scene.draw(&mut world).unwrap();
    assert!(!scene.draw_ball);
    assert_eq!(world.registry.count_ball_bodies(), 2);
    // walls, the first ball, and the fresh ball are visible
    assert_eq!(cmds.len(), 3);

    // the new entity's collider resolves on the subsequent draw pass
    release(&mut world, Button::Rotate);
    let new_collider = world.registry.entities[3].collider.unwrap().object_handle;
    assert_eq!(world.physics.lookup_transform(new_collider), Ok((Vec2 { x: 0, y: 0 }, 0)));
    let again = scene.draw(&mut world).unwrap();
    assert_eq!(again.len(), 3);
    assert_eq!(world.registry.count_ball_bodies(), 2);
}

#[test]
fn quit_marks_the_scene_done() {
    let mut world = SceneWorld::new();
    let mut scene = PhysicsTest::new();
    let ev = press(&mut world, Button::Quit);
    scene.input(&mut world, ev, true);
    assert!(scene.done);
    assert_eq!(scene.update(&mut world), SceneSwitch::Pop);
}

#[test]
fn draw_fails_loudly_on_desynchronisation() {
    let mut world = SceneWorld::new();
    let mut scene = PhysicsTest::new();
    let ball_collider = world.registry.entities[1].collider.unwrap().object_handle;
    world.physics.remove_collider(ball_collider);
    assert_eq!(scene.draw(&mut world), Err(PhysicsError::StaleCollider));
}

#[test]
fn scene_constants_are_exposed() {
    let scene = PhysicsTest::new();
    assert_eq!(scene.name(), "Physics Gravity Test");
    assert_eq!(PhysicsTest::screen_rect(), (-400, -300, 800, 600));
}

#[test]
fn popping_the_last_scene_sets_the_quit_flag() {
    let world = SceneWorld::new();
    let mut stack = SceneStack::new(world);
    stack.push(SceneItem::Menu(MenuScene { done: true }));
    assert_eq!(stack.scenes.len(), 1);
    stack.update();
    assert_eq!(stack.scenes.len(), 0);
    assert!(stack.world.quit);
}

#[test]
fn updating_an_empty_stack_requests_quit() {
    let world = SceneWorld::new();
    let mut stack = SceneStack::new(world);
    assert!(!stack.world.quit);
    stack.update();
    assert!(stack.world.quit);
}

#[test]
fn only_the_top_scene_receives_input() {
    let world = SceneWorld::new();
    let mut stack = SceneStack::new(world);
    stack.push(SceneItem::Physics(PhysicsTest::new()));
    stack.push(SceneItem::Menu(MenuScene::new()));
    let ev = InputEvent::Button { button: Button::Quit };
    stack.world.input.update_effect(ev, true);
    stack.input(ev, true);
    // quit would mark the physics scene done, but only the menu saw it
    match stack.scenes[0] {
        SceneItem::Physics(p) => assert!(!p.done),
        _ => panic!("physics scene expected at the bottom"),
    }
}
