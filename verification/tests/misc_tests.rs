use typebridge::cancel::CancelToken;
use typebridge::libei::{
    should_start_emulating, DeviceKind, DeviceRecord, DeviceState, LibeiAction, LibeiEvent,
    LibeiState, SeatCaps,
};
use typebridge::text::{blank, chars_of, is_whitespace_char, same_text};
use typebridge::window::{foreground_window, window_id_from_handle};

#[test]
fn cancel_is_shared_by_clones() {
    let t = CancelToken::new();
    let c = t.clone();
    assert!(!t.is_cancelled());
    c.cancel();
    assert!(t.is_cancelled());
    assert!(c.is_cancelled());
}

#[test]
fn window_ids() {
    assert_eq!(window_id_from_handle(0), None);
    assert_eq!(window_id_from_handle(0x1234), Some(0x1234));
    assert_eq!(foreground_window(), None);
}

#[test]
fn seat_capabilities() {
    let mut caps = SeatCaps::new();
    assert_eq!(caps.bind_mask(), 0);
    caps.insert("ei_keyboard".to_string(), 0x4);
    caps.insert("ei_pointer".to_string(), 0x1);
    caps.insert("ei_touchscreen".to_string(), 0x40);
    caps.insert("ei_unknown".to_string(), 0x100);
    caps.insert("ei_pointer".to_string(), 0x2);
    assert_eq!(caps.get("ei_pointer"), Some(0x2));
    assert_eq!(caps.get("ei_button"), None);
    assert_eq!(caps.bind_mask(), 0x4 | 0x2 | 0x40);
}

#[test]
fn emulation_starts_on_resumed_virtual_devices() {
    assert!(should_start_emulating(true, DeviceState::Resumed));
    assert!(!should_start_emulating(false, DeviceState::Resumed));
    assert!(!should_start_emulating(true, DeviceState::Paused));
    assert!(!should_start_emulating(true, DeviceState::Emulating));
    assert_eq!(DeviceState::default(), DeviceState::Paused);
}

#[test]
fn text_helpers() {
    assert_eq!(chars_of("aé🚀"), vec!['a', 'é', '🚀']);
    assert!(blank(""));
    assert!(blank(" \t\n\u{a0}\u{2028}"));
    assert!(!blank(" x "));
    assert!(is_whitespace_char('\u{85}'));
    assert!(!is_whitespace_char('\u{200b}'));
    for c in ['\u{0}', 'a', '\u{9}', '\u{d}', '\u{e}', ' ', '\u{1680}', '\u{2000}', '\u{200a}', '\u{200b}', '\u{202f}', '\u{205f}', '\u{3000}', '\u{feff}'] {
        assert_eq!(is_whitespace_char(c), c.is_whitespace(), "{c:?}");
    }
    assert!(same_text("abc", "abc"));
    assert!(!same_text("abc", "abd"));
}

#[test]
fn libei_bookkeeping_follows_the_server() {
    let mut st = LibeiState::new(7);
    assert_eq!(st.sequence, 0);
    assert_eq!(st.last_serial, 8);
    assert_eq!(st.apply_event(LibeiEvent::Connected { serial: 20 }), Ok(LibeiAction::Nothing));
    assert_eq!((st.sequence, st.last_serial), (20, 20));

    // A device of an unknown seat is ignored.
    st.apply_event(LibeiEvent::DeviceAdded { seat: 1, device: 9 }).unwrap();
    assert!(st.devices.is_empty());

    st.apply_event(LibeiEvent::SeatAdded { seat: 1 }).unwrap();
    st.apply_event(LibeiEvent::Capability { seat: 1, interface: "ei_keyboard".to_string(), mask: 4 })
        .unwrap();
    st.apply_event(LibeiEvent::Capability { seat: 1, interface: "ei_callback".to_string(), mask: 64 })
        .unwrap();
    st.apply_event(LibeiEvent::Capability { seat: 1, interface: "ei_pointer".to_string(), mask: 1 })
        .unwrap();
    assert_eq!(
        st.apply_event(LibeiEvent::SeatDone { seat: 1 }),
        Ok(LibeiAction::Bind { seat: 1, mask: 5 })
    );
    assert_eq!(st.apply_event(LibeiEvent::SeatDone { seat: 2 }), Ok(LibeiAction::Nothing));

    st.apply_event(LibeiEvent::DeviceAdded { seat: 1, device: 9 }).unwrap();
    assert_eq!(st.devices.get(&9), Some(&DeviceRecord { kind: None, state: DeviceState::Paused }));
    assert_eq!(
        st.apply_event(LibeiEvent::DeviceInterface { device: 9 }),
        Ok(LibeiAction::KeepInterface { device: 9 })
    );
    assert_eq!(st.apply_event(LibeiEvent::DeviceInterface { device: 3 }), Ok(LibeiAction::Nothing));
    st.apply_event(LibeiEvent::DeviceKindKnown { device: 9, kind: DeviceKind::Virtual }).unwrap();
    st.apply_event(LibeiEvent::Resumed { device: 9, serial: 31 }).unwrap();
    assert_eq!(st.last_serial, 31);
    assert_eq!(
        st.devices.get(&9),
        Some(&DeviceRecord { kind: Some(DeviceKind::Virtual), state: DeviceState::Resumed })
    );
    // A resumption of an unknown device leaves the serial alone.
    st.apply_event(LibeiEvent::Resumed { device: 4, serial: 99 }).unwrap();
    assert_eq!(st.last_serial, 31);

    st.started_emulating(9);
    assert_eq!(st.devices.get(&9).unwrap().state, DeviceState::Emulating);
    assert_eq!(st.sequence, 21);
    assert_eq!(st.next_sequence(), 21);
    assert_eq!(st.sequence, 22);

    st.apply_event(LibeiEvent::Paused { device: 9, serial: 40 }).unwrap();
    assert_eq!(st.last_serial, 40);
    assert_eq!(st.devices.get(&9).unwrap().state, DeviceState::Paused);

    assert_eq!(
        st.apply_event(LibeiEvent::Keymap { keyboard: 11, xkb: true }),
        Ok(LibeiAction::LoadKeymap { keyboard: 11 })
    );
    st.keymap_loaded(11);
    assert!(st.keyboards.contains(&11));
    assert_eq!(
        st.apply_event(LibeiEvent::Keymap { keyboard: 12, xkb: false }),
        Err("keymap is not xkb".to_string())
    );
    assert!(!st.keyboards.contains(&12));

    assert_eq!(
        st.apply_event(LibeiEvent::Disconnected { last_serial: 50, message: "bye".to_string() }),
        Err("bye".to_string())
    );
    assert!(st.seats.is_empty() && st.devices.is_empty() && st.keyboards.is_empty());
    assert_eq!((st.sequence, st.last_serial), (0, 50));
}

#[test]
fn libei_destruction_forgets_objects() {
    let mut st = LibeiState::new(u32::MAX);
    assert_eq!(st.last_serial, 0);
    st.sequence = u32::MAX;
    assert_eq!(st.next_sequence(), u32::MAX);
    assert_eq!(st.sequence, 0);
    st.apply_event(LibeiEvent::SeatAdded { seat: 2 }).unwrap();
    st.apply_event(LibeiEvent::DeviceAdded { seat: 2, device: 5 }).unwrap();
    st.keymap_loaded(6);
    st.apply_event(LibeiEvent::DeviceDestroyed { device: 5 }).unwrap();
    st.apply_event(LibeiEvent::KeyboardDestroyed { keyboard: 6 }).unwrap();
    st.apply_event(LibeiEvent::SeatDestroyed { seat: 2 }).unwrap();
    assert!(st.seats.is_empty() && st.devices.is_empty() && st.keyboards.is_empty());
    assert_eq!(st.apply_event(LibeiEvent::Other), Ok(LibeiAction::Nothing));
}
