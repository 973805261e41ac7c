use typebridge::keysym::{
    char_to_keysym, depressed_mask, keycode_level, libei_key_events, libei_keystroke,
    looks_absent, mod_mask, names_absence_in, names_kde, portal_backend, strip_trailing_nuls,
    vkbd_requests, wayland_sends, KeyTable, PortalBackend, VkbdRequest, MOD_INVALID,
};

#[test]
fn keysyms_of_characters() {
    assert_eq!(char_to_keysym('\n'), 0xff0d);
    assert_eq!(char_to_keysym('\t'), 0xff09);
    assert_eq!(char_to_keysym('\u{8}'), 0xff08);
    assert_eq!(char_to_keysym('\u{7f}'), 0xff08);
    assert_eq!(char_to_keysym('\u{1b}'), 0xff1b);
    assert_eq!(char_to_keysym('a'), 0x61);
    assert_eq!(char_to_keysym('~'), 0x7e);
    assert_eq!(char_to_keysym('é'), 0xe9);
    assert_eq!(char_to_keysym('\u{9f}'), 0x0100_009f);
    assert_eq!(char_to_keysym('€'), 0x0100_20ac);
}

fn table() -> KeyTable {
    // keycodes 10..=12; 10: a/A, 11: slash at level 0, 12: q at 0 and slash at AltGr
    KeyTable {
        min_keycode: 10,
        max_keycode: 12,
        syms: vec![
            vec![vec![0x61], vec![0x41]],
            vec![vec![0x2f]],
            vec![vec![0x71], vec![], vec![0x2f, 0x40]],
        ],
    }
}

#[test]
fn lowest_level_then_lowest_keycode_wins() {
    let t = table();
    assert_eq!(keycode_level(&t, 0x61), Some((10, 0)));
    assert_eq!(keycode_level(&t, 0x41), Some((10, 1)));
    assert_eq!(keycode_level(&t, 0x2f), Some((11, 0)));
    assert_eq!(keycode_level(&t, 0x40), Some((12, 2)));
    assert_eq!(keycode_level(&t, 0x7a), None);
    let empty = KeyTable { min_keycode: 9, max_keycode: 8, syms: vec![] };
    assert_eq!(keycode_level(&empty, 0x61), None);
}

#[test]
fn modifier_masks() {
    assert_eq!(mod_mask(MOD_INVALID), 0);
    assert_eq!(mod_mask(0), 1);
    assert_eq!(mod_mask(7), 128);
    assert_eq!(mod_mask(31), 0x8000_0000);
    assert_eq!(depressed_mask(0, 1, 128), 0);
    assert_eq!(depressed_mask(1, 1, 128), 1);
    assert_eq!(depressed_mask(2, 1, 128), 128);
    assert_eq!(depressed_mask(3, 1, 128), 129);
    assert_eq!(depressed_mask(4, 1, 128), 0);
}

#[test]
fn libei_events_wrap_the_key_in_modifiers() {
    assert_eq!(
        libei_key_events(38, 3, Some(50), Some(108)),
        vec![(42, true), (100, true), (30, true), (30, false), (100, false), (42, false)]
    );
    assert_eq!(libei_key_events(38, 1, None, Some(108)), vec![(30, true), (30, false)]);
    assert_eq!(
        libei_key_events(38, 2, Some(50), Some(108)),
        vec![(100, true), (30, true), (30, false), (100, false)]
    );
    let t = table();
    assert_eq!(
        libei_keystroke(&t, 0x41, Some(50), None),
        Some(vec![(42, true), (2, true), (2, false), (42, false)])
    );
    assert_eq!(libei_keystroke(&t, 0x7a, Some(50), None), None);
}

#[test]
fn virtual_keyboard_requests() {
    let (r, next) = vkbd_requests(38, 1, 1, 128, u32::MAX - 5);
    assert_eq!(
        r,
        vec![
            VkbdRequest::Modifiers(1),
            VkbdRequest::Key { time: u32::MAX - 5, code: 30, pressed: true },
            VkbdRequest::Key { time: 4, code: 30, pressed: false },
            VkbdRequest::Modifiers(0),
        ]
    );
    assert_eq!(next, 14);
}

#[test]
fn keymap_text_loses_its_terminators() {
    let mut b = vec![b'x', 0, b'y', 0, 0];
    strip_trailing_nuls(&mut b);
    assert_eq!(b, vec![b'x', 0, b'y']);
    let mut z = vec![0, 0];
    strip_trailing_nuls(&mut z);
    assert!(z.is_empty());
}

#[test]
fn absent_portal_errors() {
    assert!(looks_absent("org.freedesktop.DBus.Error.ServiceUnknown: x"));
    assert!(looks_absent("Portal NOT FOUND"));
    assert!(looks_absent("The name has no owner"));
    assert!(looks_absent("interface not provided"));
    assert!(looks_absent("Not Implemented"));
    assert!(!looks_absent("permission denied"));
    assert!(!looks_absent(""));
}

#[test]
fn kde_gets_libei() {
    assert_eq!(portal_backend("KDE"), PortalBackend::Libei);
    assert_eq!(portal_backend("plasma:kde"), PortalBackend::Libei);
    assert_eq!(portal_backend("GNOME"), PortalBackend::Keysym);
    assert_eq!(portal_backend(""), PortalBackend::Keysym);
}

#[test]
fn carriage_returns_are_not_sent() {
    assert!(!wayland_sends('\r'));
    assert!(wayland_sends('\n'));
    assert!(wayland_sends('x'));
}

#[test]
fn absence_and_kde_on_prepared_text() {
    assert!(names_absence_in("name has no owner"));
    assert!(!names_absence_in("Name Has No Owner"));
    assert!(!names_absence_in("access denied"));
    assert!(names_kde("PLASMA:KDE"));
    assert!(!names_kde("kde"));
    assert!(!names_kde("GNOME"));
}
