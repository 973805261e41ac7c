use typebridge::engine::{
    bmp_code_unit, classify, key_plan, physical_events, plan_keystroke, split_vk_scan, CharAction,
    KeyEvent, KeyPlan, Keystroke, Modifier, NamedKey, TypeError, VkScan,
};

#[test]
fn control_chars_map_to_special_keys() {
    assert_eq!(classify('\n'), CharAction::Enter);
    assert_eq!(classify('\t'), CharAction::Tab);
    assert_eq!(classify('\r'), CharAction::Skip);
    assert_eq!(classify('\u{8}'), CharAction::Backspace);
    assert_eq!(classify('\u{7f}'), CharAction::Backspace);
}

#[test]
fn printable_and_unicode_pass_through() {
    assert_eq!(classify('a'), CharAction::Char('a'));
    assert_eq!(classify(' '), CharAction::Char(' '));
    assert_eq!(classify('é'), CharAction::Char('é'));
    assert_eq!(classify('🚀'), CharAction::Char('🚀'));
}

#[test]
fn keystrokes_follow_the_mode() {
    assert_eq!(plan_keystroke('\r', true), Keystroke::Nothing);
    assert_eq!(plan_keystroke('\n', false), Keystroke::Tap(NamedKey::Return));
    assert_eq!(plan_keystroke('\t', true), Keystroke::Tap(NamedKey::Tab));
    assert_eq!(plan_keystroke('\u{7f}', true), Keystroke::Tap(NamedKey::Backspace));
    assert_eq!(plan_keystroke('#', true), Keystroke::Physical('#'));
    assert_eq!(plan_keystroke('#', false), Keystroke::Unicode('#'));
}

#[test]
fn error_messages() {
    assert_eq!(
        TypeError::Inject("boom".to_string()).message(),
        "Keyboard injection failed: boom"
    );
    let m = TypeError::Init("no display".to_string()).message();
    assert!(m.starts_with("Could not start keyboard input (no display).\nOn macOS: enable Accessibility"));
    assert!(m.ends_with("On Linux: an X11 session is required (Wayland is restricted)."));
}

#[test]
fn characters_beyond_the_bmp_have_no_virtual_key() {
    assert_eq!(bmp_code_unit('A'), Some(0x41));
    assert_eq!(bmp_code_unit('\u{FFFF}'), Some(0xFFFF));
    assert_eq!(bmp_code_unit('🚀'), None);
}

#[test]
fn vk_scan_splits_into_key_and_shift_state() {
    assert_eq!(split_vk_scan(-1), None);
    // 'A' on a US layout: VK 0x41 with Shift
    assert_eq!(split_vk_scan(0x0141), Some(VkScan { vk: 0x41, shift_state: 1 }));
    // a negative pattern keeps its high byte
    assert_eq!(split_vk_scan(-2), Some(VkScan { vk: 0xFE, shift_state: 0xFF }));
}

#[test]
fn key_plan_reads_modifier_bits() {
    assert_eq!(key_plan(0, 1), None);
    assert_eq!(key_plan(0x1_0000, 1), None);
    assert_eq!(
        key_plan(0x1E, 1),
        Some(KeyPlan { scancode: 0x1E, shift: true, ctrl: false, alt: false })
    );
    assert_eq!(
        key_plan(0x1_0010, 6),
        Some(KeyPlan { scancode: 0x10, shift: false, ctrl: true, alt: true })
    );
}

#[test]
fn modifiers_wrap_the_base_key() {
    let p = KeyPlan { scancode: 0x1E, shift: true, ctrl: false, alt: true };
    assert_eq!(
        physical_events(p),
        vec![
            KeyEvent::Press(Modifier::Shift),
            KeyEvent::Press(Modifier::Alt),
            KeyEvent::Click(0x1E),
            KeyEvent::Release(Modifier::Alt),
            KeyEvent::Release(Modifier::Shift),
        ]
    );
    let bare = KeyPlan { scancode: 7, shift: false, ctrl: false, alt: false };
    assert_eq!(physical_events(bare), vec![KeyEvent::Click(7)]);
}
