use render_core::keycode::{key_code_from_str, KeyCode};

#[test]
fn letters_map_to_keys() {
    assert_eq!(key_code_from_str("a"), KeyCode::KeyCodeA);
    assert_eq!(key_code_from_str("d"), KeyCode::KeyCodeD);
    assert_eq!(key_code_from_str("s"), KeyCode::KeyCodeS);
    assert_eq!(key_code_from_str("w"), KeyCode::KeyCodeW);
    assert_eq!(key_code_from_str("z"), KeyCode::KeyCodeZ);
}

#[test]
fn uppercase_letters_fold_to_lowercase() {
    assert_eq!(key_code_from_str("A"), KeyCode::KeyCodeA);
    assert_eq!(key_code_from_str("W"), KeyCode::KeyCodeW);
    assert_eq!(key_code_from_str("Z"), KeyCode::KeyCodeZ);
}

#[test]
fn digits_map_to_keys() {
    assert_eq!(key_code_from_str("0"), KeyCode::KeyCode0);
    assert_eq!(key_code_from_str("5"), KeyCode::KeyCode5);
    assert_eq!(key_code_from_str("9"), KeyCode::KeyCode9);
}

#[test]
fn arrows_map_to_keys() {
    assert_eq!(key_code_from_str("ArrowUp"), KeyCode::KeyCodeArrowUp);
    assert_eq!(key_code_from_str("ArrowDown"), KeyCode::KeyCodeArrowDown);
    assert_eq!(key_code_from_str("ArrowLeft"), KeyCode::KeyCodeArrowLeft);
    assert_eq!(key_code_from_str("ArrowRight"), KeyCode::KeyCodeArrowRight);
}

#[test]
fn space_maps_to_key() {
    assert_eq!(key_code_from_str(" "), KeyCode::KeyCodeSpace);
}

#[test]
fn unrecognized_text_is_unknown_not_an_error() {
    assert_eq!(key_code_from_str("Escape"), KeyCode::Unknown);
    assert_eq!(key_code_from_str("Enter"), KeyCode::Unknown);
    assert_eq!(key_code_from_str(""), KeyCode::Unknown);
    assert_eq!(key_code_from_str("arrowup"), KeyCode::Unknown);
    assert_eq!(key_code_from_str("!"), KeyCode::Unknown);
}
