use loopframe::game::input::InputMap;
use loopframe::game::input::KeyCode;
use loopframe::game::input::LinearInputType;
use loopframe::game::input::MouseInputType;
use loopframe::game::input::VectorInputType;

#[test]
fn round_trip_preserves_bindings_exactly() {
    let mut map = InputMap::<u32, u32>::empty();
    map.assign_linear(LinearInputType::KnownKeyboard(KeyCode::KeyW), 11);
    map.assign_linear(LinearInputType::KnownKeyboard(KeyCode::Space), 12);
    map.assign_linear(LinearInputType::Mouse(MouseInputType::ScrollUp), 13);
    map.assign_vector(VectorInputType::MouseMove, 14);
    let text = map.to_str();
    let restored = InputMap::<u32, u32>::from_str(&text).expect("own serialization parses");
    assert_eq!(
        restored.get_linear(&LinearInputType::KnownKeyboard(KeyCode::KeyW)),
        Some(&11)
    );
    assert_eq!(
        restored.get_linear(&LinearInputType::KnownKeyboard(KeyCode::Space)),
        Some(&12)
    );
    assert_eq!(
        restored.get_linear(&LinearInputType::Mouse(MouseInputType::ScrollUp)),
        Some(&13)
    );
    assert_eq!(restored.get_vector(&VectorInputType::MouseMove), Some(&14));
    // An input unbound before the round trip is still unbound after it.
    assert_eq!(
        restored.get_linear(&LinearInputType::KnownKeyboard(KeyCode::KeyQ)),
        None
    );
}

#[test]
fn serialized_form_is_fixed_width_records() {
    let mut map = InputMap::<u32, u32>::empty();
    // Mouse gesture codes start at 1000 = 0x3e8; MoveLeft is the first.
    map.assign_linear(LinearInputType::Mouse(MouseInputType::MoveLeft), 7);
    assert_eq!(map.to_str(), "L000003e800000007\n");
    map.assign_vector(VectorInputType::MouseMove, 255);
    assert_eq!(map.to_str(), "L000003e800000007\nV00000000000000ff\n");
}

#[test]
fn empty_text_parses_to_empty_map() {
    let map = InputMap::<u32, u32>::from_str("").expect("empty text is a valid empty map");
    assert_eq!(map.get_vector(&VectorInputType::MouseMove), None);
    let empty = InputMap::<u32, u32>::empty();
    assert_eq!(empty.to_str(), "");
}

#[test]
fn malformed_texts_are_errors_not_panics() {
    // Not a multiple of the record width.
    assert!(InputMap::<u32, u32>::from_str("garbage").is_err());
    // Right width, wrong kind letter.
    assert!(InputMap::<u32, u32>::from_str("X000003e800000007\n").is_err());
    // Right width, non-hex digits.
    assert!(InputMap::<u32, u32>::from_str("L0000ZZe800000007\n").is_err());
    // Missing the closing newline.
    assert!(InputMap::<u32, u32>::from_str("L000003e8000000077").is_err());
    // A key code no input decodes to.
    assert!(InputMap::<u32, u32>::from_str("L000003ef00000007\n").is_err());
    // A vector record whose code is not a vector input.
    assert!(InputMap::<u32, u32>::from_str("V000000ff00000007\n").is_err());
}

#[test]
fn later_records_win_repeated_inputs() {
    let text = "L000003e800000001\nL000003e800000002\n";
    let map = InputMap::<u32, u32>::from_str(text).expect("well-formed records");
    assert_eq!(
        map.get_linear(&LinearInputType::Mouse(MouseInputType::MoveLeft)),
        Some(&2)
    );
}

#[test]
fn record_order_does_not_matter() {
    let forward = "L000003e800000001\nV000000000000002a\n";
    let backward = "V000000000000002a\nL000003e800000001\n";
    let a = InputMap::<u32, u32>::from_str(forward).unwrap();
    let b = InputMap::<u32, u32>::from_str(backward).unwrap();
    let key = LinearInputType::Mouse(MouseInputType::MoveLeft);
    assert_eq!(a.get_linear(&key), b.get_linear(&key));
    assert_eq!(
        a.get_vector(&VectorInputType::MouseMove),
        b.get_vector(&VectorInputType::MouseMove)
    );
}

#[test]
fn restore_bindings_overlays_persisted_over_defaults() {
    let key_w = LinearInputType::KnownKeyboard(KeyCode::KeyW);
    let key_a = LinearInputType::KnownKeyboard(KeyCode::KeyA);

    let mut defaults = InputMap::<u32, u32>::empty();
    defaults.assign_linear(key_w, 1);
    defaults.assign_linear(key_a, 2);

    let mut user = InputMap::<u32, u32>::empty();
    user.assign_linear(key_w, 9);
    let persisted = user.to_str();

    let merged = InputMap::restore_bindings(defaults, Some(&persisted));
    assert_eq!(merged.get_linear(&key_w), Some(&9));
    assert_eq!(merged.get_linear(&key_a), Some(&2));
}

#[test]
fn restore_bindings_falls_back_to_defaults() {
    let key_w = LinearInputType::KnownKeyboard(KeyCode::KeyW);
    let mut defaults = InputMap::<u32, u32>::empty();
    defaults.assign_linear(key_w, 1);
    let merged = InputMap::restore_bindings(defaults, Some("not a binding list"));
    assert_eq!(merged.get_linear(&key_w), Some(&1));

    let mut defaults = InputMap::<u32, u32>::empty();
    defaults.assign_linear(key_w, 1);
    let merged = InputMap::restore_bindings(defaults, None);
    assert_eq!(merged.get_linear(&key_w), Some(&1));
}
