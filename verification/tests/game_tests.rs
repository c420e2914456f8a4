use physics_demo::game::Game;
use physics_demo::game::Key;
use physics_demo::game::TICK_NS;
use physics_demo::math::Vec2;
use physics_demo::scene::stack::DrawCommand;
use physics_demo::scene::stack::SceneItem;

fn tap(game: &mut Game, key: Key) {
    game.key_down_event(key);
    game.key_up_event(key);
}

#[test]
fn new_game_starts_in_the_menu_over_the_demo() {
    let game = Game::new();
    assert_eq!(game.residual_ns, 0);
    assert_eq!(game.scene_stack.scenes.len(), 2);
    assert!(matches!(game.scene_stack.scenes[0], SceneItem::Physics(_)));
    assert!(matches!(game.scene_stack.scenes[1], SceneItem::Menu(_)));
    assert!(!game.scene_stack.world.quit);
    assert_eq!(game.scene_stack.world.physics.gravity, Vec2 { x: 0, y: 0 });
    assert_eq!(game.scene_stack.world.registry.count_ball_bodies(), 1);
}

#[test]
fn menu_scenario_runs_to_quit() {
    let mut game = Game::new();

    // Space dismisses the menu; the pop lands on the next update tick.
    tap(&mut game, Key::Space);
    assert_eq!(game.scene_stack.scenes.len(), 2);
    let quit = game.update(TICK_NS);
    assert!(!quit);
    assert_eq!(game.scene_stack.scenes.len(), 1);
    assert!(matches!(game.scene_stack.scenes[0], SceneItem::Physics(_)));

    // G turns gravity on, a second G turns it back off.
    tap(&mut game, Key::G);
    assert_eq!(game.scene_stack.world.physics.gravity, Vec2 { x: 0, y: 98 });
    tap(&mut game, Key::G);
    assert_eq!(game.scene_stack.world.physics.gravity, Vec2 { x: 0, y: 0 });

    // Escape marks the demo done; the next update pops it and asks to quit.
    tap(&mut game, Key::Escape);
    match game.scene_stack.scenes[0] {
        SceneItem::Physics(p) => assert!(p.done),
        _ => panic!("physics scene expected on top"),
    }
    let quit = game.update(TICK_NS);
    assert!(quit);
    assert_eq!(game.scene_stack.scenes.len(), 0);
    assert!(game.scene_stack.world.quit);
}

#[test]
fn accumulator_banks_partial_ticks() {
    let mut game = Game::new();
    tap(&mut game, Key::Space);

    // Less than one tick elapses: nothing is updated, the rest is banked.
    let quit = game.update(TICK_NS - 1);
    assert!(!quit);
    assert_eq!(game.residual_ns, TICK_NS - 1);
    assert_eq!(game.scene_stack.scenes.len(), 2);

    // The banked time plus one nanosecond is exactly one tick.
    game.update(1);
    assert_eq!(game.residual_ns, 0);
    assert_eq!(game.scene_stack.scenes.len(), 1);
}

#[test]
fn several_whole_ticks_run_in_one_update() {
    let mut game = Game::new();
    tap(&mut game, Key::Space);
    game.update(3 * TICK_NS + 5);
    assert_eq!(game.residual_ns, 5);
    assert_eq!(game.scene_stack.scenes.len(), 1);
}

#[test]
fn unbound_keys_do_nothing() {
    let mut game = Game::new();
    let before_input = game.scene_stack.world.input;
    tap(&mut game, Key::Other);
    assert_eq!(game.scene_stack.world.input, before_input);
    assert_eq!(game.scene_stack.scenes.len(), 2);
}

#[test]
fn gravity_key_reaches_only_the_active_scene() {
    let mut game = Game::new();
    // While the menu is on top, G toggles nothing in the physics world.
    tap(&mut game, Key::G);
    assert_eq!(game.scene_stack.world.physics.gravity, Vec2 { x: 0, y: 0 });
}

#[test]
fn draw_shows_the_menu_then_the_arena() {
    let mut game = Game::new();
    let cmds = game.draw().unwrap();
    assert_eq!(cmds, vec![DrawCommand::TextAt { dest: Vec2 { x: 200, y: 100 } }]);

    tap(&mut game, Key::Space);
    game.update(TICK_NS);
    let cmds = game.draw().unwrap();
    // the wall outline and the first ball
    assert_eq!(cmds.len(), 2);
}

#[test]
fn spawn_key_adds_a_ball_on_the_next_draw() {
    let mut game = Game::new();
    tap(&mut game, Key::Space);
    game.update(TICK_NS);

    tap(&mut game, Key::Z);
    assert_eq!(game.scene_stack.world.registry.count_ball_bodies(), 1);
    let cmds = game.draw().unwrap();
    assert_eq!(game.scene_stack.world.registry.count_ball_bodies(), 2);
    assert_eq!(cmds.len(), 3);
}

#[test]
fn shoot_key_pushes_every_ball() {
    let mut game = Game::new();
    tap(&mut game, Key::Space);
    game.update(TICK_NS);

    game.key_down_event(Key::Space);
    let ball_body = game.scene_stack.world.registry.entities[1]
        .rigid_body
        .unwrap()
        .object_handle;
    let body = game.scene_stack.world.physics.bodies[ball_body.index].body.unwrap();
    assert_eq!(body.force, Vec2 { x: 1_000_000, y: 1_000_000 });
    game.key_up_event(Key::Space);
}
