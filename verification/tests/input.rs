use loopframe::game::input::classify_keyboard;
use loopframe::game::input::classify_pointer_delta;
use loopframe::game::input::InputMap;
use loopframe::game::input::KeyCode;
use loopframe::game::input::LinearInputActivation;
use loopframe::game::input::LinearInputType;
use loopframe::game::input::Modifier;
use loopframe::game::input::ModifiersState;
use loopframe::game::input::MouseInputType;
use loopframe::game::input::VectorInputActivation;
use loopframe::game::input::VectorInputType;
use loopframe::game::input::ACTIVATION_SCALE;

#[test]
fn pointer_right_dominant_classifies_move_right() {
    // dx = 5, dy = 1, sensitivity 0.1 (100 thousandths):
    // |dx| > |dy| and dx > 0, so the linear action is MoveRight with
    // activation clamp(5 * 0.1) = 0.5; the vector sees (0.5, 0.1).
    let (linear, vector) = classify_pointer_delta(5, 1, 100);
    let (input, activation) = linear.expect("movement clears the jitter threshold");
    assert_eq!(input, LinearInputType::Mouse(MouseInputType::MoveRight));
    assert_eq!(activation.get(), 500);
    assert_eq!(vector.get(), (500, 100));
}

#[test]
fn pointer_below_jitter_threshold_still_feeds_vector() {
    let (linear, vector) = classify_pointer_delta(1, 1, 100);
    assert!(linear.is_none());
    assert_eq!(vector.get(), (100, 100));
}

#[test]
fn pointer_ties_break_toward_vertical() {
    // |dx| == |dy|: the horizontal axis only wins strictly.
    let (linear, _) = classify_pointer_delta(-3, 3, 100);
    let (input, _) = linear.unwrap();
    assert_eq!(input, LinearInputType::Mouse(MouseInputType::MoveUp));
    // dy <= 0 falls to the vertical "else" branch: MoveDown.
    let (linear, _) = classify_pointer_delta(3, -3, 100);
    let (input, _) = linear.unwrap();
    assert_eq!(input, LinearInputType::Mouse(MouseInputType::MoveDown));
}

#[test]
fn pointer_directions_by_sign() {
    let (linear, _) = classify_pointer_delta(-5, 1, 100);
    assert_eq!(linear.unwrap().0, LinearInputType::Mouse(MouseInputType::MoveLeft));
    let (linear, _) = classify_pointer_delta(1, 5, 100);
    assert_eq!(linear.unwrap().0, LinearInputType::Mouse(MouseInputType::MoveUp));
}

#[test]
fn pointer_magnitude_clamps_to_one() {
    let (linear, vector) = classify_pointer_delta(500, 0, 100);
    assert_eq!(linear.unwrap().1.get(), ACTIVATION_SCALE);
    assert_eq!(vector.get(), (ACTIVATION_SCALE as i32, 0));
}

#[test]
fn keyboard_press_and_release_activations() {
    let (input, activation) = classify_keyboard(KeyCode::KeyW, true);
    assert_eq!(input, LinearInputType::KnownKeyboard(KeyCode::KeyW));
    assert_eq!(activation.get(), ACTIVATION_SCALE);
    let (_, released) = classify_keyboard(KeyCode::KeyW, false);
    assert_eq!(released.get(), 0);
}

#[test]
fn linear_activation_try_from_validates() {
    assert_eq!(LinearInputActivation::try_from(0).unwrap().get(), 0);
    assert_eq!(LinearInputActivation::try_from(1000).unwrap().get(), 1000);
    assert_eq!(LinearInputActivation::try_from(-1), Err(-1));
    assert_eq!(LinearInputActivation::try_from(1001), Err(1001));
}

#[test]
fn linear_activation_clamp_saturates() {
    assert_eq!(LinearInputActivation::clamp(-50).get(), 0);
    assert_eq!(LinearInputActivation::clamp(400).get(), 400);
    assert_eq!(LinearInputActivation::clamp(4000).get(), 1000);
}

#[test]
fn vector_activation_try_from_validates() {
    assert_eq!(VectorInputActivation::try_from(-1000, 1000).unwrap().get(), (-1000, 1000));
    assert_eq!(VectorInputActivation::try_from(-1001, 0), Err((-1001, 0)));
    assert_eq!(VectorInputActivation::try_from(0, 1001), Err((0, 1001)));
}

#[test]
fn vector_activation_clamp_saturates_each_axis() {
    assert_eq!(VectorInputActivation::clamp(-5000, 30).get(), (-1000, 30));
    assert_eq!(VectorInputActivation::clamp(12, 5000).get(), (12, 1000));
}

#[test]
fn modifier_changes_in_fixed_order() {
    let previous = ModifiersState::default();
    let current = ModifiersState { shift: true, ctrl: false, alt: false, logo: true };
    let changes = current.changes_from(&previous);
    assert_eq!(changes, vec![(Modifier::Shift, true), (Modifier::Logo, true)]);
    // Releasing reports the new (false) state, still in order.
    let back = previous.changes_from(&current);
    assert_eq!(back, vec![(Modifier::Shift, false), (Modifier::Logo, false)]);
    assert_eq!(current.changes_from(&current), vec![]);
}

#[test]
fn input_map_assign_get_unassign() {
    let mut map = InputMap::<u32, u32>::empty();
    let key = LinearInputType::KnownKeyboard(KeyCode::Space);
    assert_eq!(map.get_linear(&key), None);
    map.assign_linear(key, 7);
    assert_eq!(map.get_linear(&key), Some(&7));
    // Assigning again replaces the binding.
    map.assign_linear(key, 9);
    assert_eq!(map.get_linear(&key), Some(&9));
    map.unassign_linear(&key);
    assert_eq!(map.get_linear(&key), None);
}

#[test]
fn input_map_vector_bindings() {
    let mut map = InputMap::<u32, u32>::empty();
    assert_eq!(map.get_vector(&VectorInputType::MouseMove), None);
    map.assign_vector(VectorInputType::MouseMove, 3);
    assert_eq!(map.get_vector(&VectorInputType::MouseMove), Some(&3));
    map.unassign_vector(&VectorInputType::MouseMove);
    assert_eq!(map.get_vector(&VectorInputType::MouseMove), None);
}

#[test]
fn union_prefers_the_overlay() {
    // Defaults, overlaid with persisted user preferences: the user's
    // binding wins on collision, everything else is kept.
    let mut defaults = InputMap::<u32, u32>::empty();
    defaults.assign_linear(LinearInputType::KnownKeyboard(KeyCode::KeyW), 1);
    defaults.assign_linear(LinearInputType::KnownKeyboard(KeyCode::KeyA), 2);
    let mut user = InputMap::<u32, u32>::empty();
    user.assign_linear(LinearInputType::KnownKeyboard(KeyCode::KeyW), 9);
    user.assign_linear(LinearInputType::KnownKeyboard(KeyCode::KeyS), 3);
    user.assign_vector(VectorInputType::MouseMove, 4);
    defaults.union(user);
    assert_eq!(defaults.get_linear(&LinearInputType::KnownKeyboard(KeyCode::KeyW)), Some(&9));
    assert_eq!(defaults.get_linear(&LinearInputType::KnownKeyboard(KeyCode::KeyA)), Some(&2));
    assert_eq!(defaults.get_linear(&LinearInputType::KnownKeyboard(KeyCode::KeyS)), Some(&3));
    assert_eq!(defaults.get_vector(&VectorInputType::MouseMove), Some(&4));
}

#[test]
fn key_code_index_round_trips() {
    for key in [KeyCode::Backquote, KeyCode::KeyA, KeyCode::Space, KeyCode::F35] {
        let index = key.index();
        assert_eq!(KeyCode::from_index(index), Some(key));
    }
    assert_eq!(KeyCode::from_index(100_000), None);
}

#[test]
fn linear_input_codes_separate_keys_from_mouse() {
    let key = LinearInputType::KnownKeyboard(KeyCode::KeyZ);
    let mouse = LinearInputType::Mouse(MouseInputType::ScrollDown);
    assert!(key.code() < 1000);
    assert_eq!(mouse.code(), 1005);
    assert_eq!(LinearInputType::from_code(key.code()), Some(key));
    assert_eq!(LinearInputType::from_code(mouse.code()), Some(mouse));
    assert_eq!(LinearInputType::from_code(999), None);
    assert_eq!(LinearInputType::from_code(1006), None);
}
