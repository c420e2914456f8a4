use physics_demo::game::Axis;
use physics_demo::game::Button;
use physics_demo::game::InputBinding;
use physics_demo::game::InputEvent;
use physics_demo::game::InputState;
use physics_demo::game::Key;
use physics_demo::game::bind_inputs;

#[test]
fn bindings_resolve_each_bound_key() {
    let binding = bind_inputs();
    assert_eq!(
        binding.resolve(Key::Up),
        Some(InputEvent::Axis { axis: Axis::Forward, positive: true })
    );
    assert_eq!(
        binding.resolve(Key::Down),
        Some(InputEvent::Axis { axis: Axis::Backward, positive: false })
    );
    assert_eq!(
        binding.resolve(Key::G),
        Some(InputEvent::Button { button: Button::Gravity })
    );
    assert_eq!(
        binding.resolve(Key::Z),
        Some(InputEvent::Button { button: Button::Rotate })
    );
    assert_eq!(
        binding.resolve(Key::Space),
        Some(InputEvent::Button { button: Button::Shoot })
    );
    assert_eq!(
        binding.resolve(Key::Escape),
        Some(InputEvent::Button { button: Button::Quit })
    );
}

#[test]
fn unbound_key_resolves_to_nothing() {
    let binding = bind_inputs();
    assert_eq!(binding.resolve(Key::Other), None);
}

#[test]
fn empty_binding_resolves_nothing() {
    let binding = InputBinding::new();
    assert_eq!(binding.resolve(Key::Space), None);
}

#[test]
fn first_matching_binding_wins() {
    let binding = InputBinding::new()
        .bind_key_to_button(Key::G, Button::Gravity)
        .bind_key_to_button(Key::G, Button::Quit);
    assert_eq!(
        binding.resolve(Key::G),
        Some(InputEvent::Button { button: Button::Gravity })
    );
}

#[test]
fn button_level_state_tracks_press_and_release() {
    let mut state = InputState::new();
    assert!(!state.get_button_pressed(Button::Shoot));
    state.update_effect(InputEvent::Button { button: Button::Shoot }, true);
    assert!(state.get_button_pressed(Button::Shoot));
    assert!(!state.get_button_pressed(Button::Gravity));
    state.update_effect(InputEvent::Button { button: Button::Shoot }, false);
    assert!(!state.get_button_pressed(Button::Shoot));
}

#[test]
fn axis_state_moves_to_extreme_and_back() {
    let mut state = InputState::new();
    assert_eq!(state.get_axis(Axis::Forward), 0);
    state.update_effect(InputEvent::Axis { axis: Axis::Forward, positive: true }, true);
    assert_eq!(state.get_axis(Axis::Forward), 1);
    state.update_effect(InputEvent::Axis { axis: Axis::Forward, positive: true }, false);
    assert_eq!(state.get_axis(Axis::Forward), 0);
    state.update_effect(InputEvent::Axis { axis: Axis::Backward, positive: false }, true);
    assert_eq!(state.get_axis(Axis::Backward), -1);
}
