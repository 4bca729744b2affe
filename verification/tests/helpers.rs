use loopframe::local_storage::storage_file_name;
use loopframe::local_storage::validate_key;
use loopframe::local_storage::StoreError;
use loopframe::next_multiple_of;
use loopframe::BUFFER_PADDING;

#[test]
fn padding_rounds_up_to_the_next_multiple() {
    assert_eq!(next_multiple_of(0, BUFFER_PADDING), 0);
    assert_eq!(next_multiple_of(1, BUFFER_PADDING), 256);
    assert_eq!(next_multiple_of(256, BUFFER_PADDING), 256);
    assert_eq!(next_multiple_of(257, BUFFER_PADDING), 512);
    assert_eq!(next_multiple_of(1000, 24), 1008);
}

#[test]
fn storage_keys_are_alphabetic_or_underscore() {
    assert!(validate_key("keybinds"));
    assert!(validate_key("key_binds"));
    assert!(validate_key("UPPER_lower"));
    assert!(validate_key(""));
    assert!(!validate_key("key1"));
    assert!(!validate_key("key binds"));
    assert!(!validate_key("key-binds"));
    assert!(!validate_key("clés"));
}

#[test]
fn storage_file_names_carry_the_store_extension() {
    assert_eq!(storage_file_name("keybinds"), "keybinds.lfx");
    assert_eq!(storage_file_name("a"), "a.lfx");
}

#[test]
fn store_errors_carry_their_cause() {
    let err = StoreError::FileUnwriteable {
        path: String::from("data/keybinds.lfx"),
        message: String::from("permission denied"),
    };
    assert!(matches!(err, StoreError::FileUnwriteable { .. }));
    assert!(matches!(
        StoreError::LocalStorageUnavailable,
        StoreError::LocalStorageUnavailable
    ));
}
