use typebridge::esc::{key_is_down, keycode_of_keysym, ESCAPE_KEYSYM};

#[test]
fn escape_keycode_from_a_mapping() {
    // keycodes 8.. with 2 keysyms each; Escape is the first keysym of keycode 9
    let syms = vec![0, 0, ESCAPE_KEYSYM, 0, 0x31, 0x21];
    assert_eq!(keycode_of_keysym(&syms, 2, 8, ESCAPE_KEYSYM), Some(9));
    assert_eq!(keycode_of_keysym(&syms, 2, 8, 0x21), Some(10));
    assert_eq!(keycode_of_keysym(&syms, 2, 8, 0x7a), None);
    assert_eq!(keycode_of_keysym(&syms, 0, 8, ESCAPE_KEYSYM), None);
    assert_eq!(keycode_of_keysym(&syms, 1, 254, 0x31), None);
}

#[test]
fn pressed_keys_from_the_keymap_bits() {
    let mut keys = vec![0u8; 32];
    keys[1] = 0b0000_0010; // keycode 9
    assert!(key_is_down(&keys, 9));
    assert!(!key_is_down(&keys, 8));
    assert!(!key_is_down(&keys, 10));
    keys[31] = 0x80; // keycode 255
    assert!(key_is_down(&keys, 255));
    assert!(!key_is_down(&vec![0xff; 2], 16));
}
