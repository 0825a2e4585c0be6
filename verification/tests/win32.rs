use cross_kvm::protocol::MouseButton;
use cross_kvm::win32::{
    button_flag, hook_mouse_kind, is_key_release, key_input, key_state_modifiers, monitor_display,
    monitors_or_generic, text_from_wide, wheel_mouse_data, wheel_rotation, wide_text, HookMouseKind,
    KEYEVENTF_KEYUP, KEYEVENTF_SCANCODE, MOUSEEVENTF_LEFTDOWN, MOUSEEVENTF_LEFTUP,
    MOUSEEVENTF_MIDDLEDOWN, MOUSEEVENTF_MIDDLEUP, MOUSEEVENTF_RIGHTDOWN, MOUSEEVENTF_RIGHTUP,
};

#[test]
fn mouse_hook_messages_are_classified() {
    assert_eq!(hook_mouse_kind(0x0200), Some(HookMouseKind::Motion));
    assert_eq!(hook_mouse_kind(0x0201), Some(HookMouseKind::ButtonDown(MouseButton::Left)));
    assert_eq!(hook_mouse_kind(0x0202), Some(HookMouseKind::ButtonUp(MouseButton::Left)));
    assert_eq!(hook_mouse_kind(0x0204), Some(HookMouseKind::ButtonDown(MouseButton::Right)));
    assert_eq!(hook_mouse_kind(0x0205), Some(HookMouseKind::ButtonUp(MouseButton::Right)));
    assert_eq!(hook_mouse_kind(0x0207), Some(HookMouseKind::ButtonDown(MouseButton::Middle)));
    assert_eq!(hook_mouse_kind(0x0208), Some(HookMouseKind::ButtonUp(MouseButton::Middle)));
    assert_eq!(hook_mouse_kind(0x020A), Some(HookMouseKind::Wheel));
    assert_eq!(hook_mouse_kind(0x020E), None);
}

#[test]
fn keyboard_hook_release_messages() {
    assert!(is_key_release(0x0101));
    assert!(is_key_release(0x0105));
    assert!(!is_key_release(0x0100));
    assert!(!is_key_release(0x0104));
}

#[test]
fn wheel_rotation_is_the_signed_high_word() {
    assert_eq!(wheel_rotation(0x0078_0000), 120);
    assert_eq!(wheel_rotation(0xFF88_0000), -120);
    assert_eq!(wheel_rotation(0x0000_FFFF), 0);
}

#[test]
fn key_states_give_modifiers() {
    let held: i16 = i16::MIN | 1;
    let m = key_state_modifiers(held, 0, 0, 0, held, 1);
    assert!(m.shift && !m.control && !m.alt_option && m.meta_command && m.caps_lock);
    let m = key_state_modifiers(1, held, held, 0, 0, 0);
    assert!(!m.shift && m.control && m.alt_option && !m.meta_command && !m.caps_lock);
    // Caps Lock held but toggled off.
    let m = key_state_modifiers(0, 0, 0, 0, 0, i16::MIN);
    assert!(!m.caps_lock);
}

#[test]
fn button_flags() {
    assert_eq!(button_flag(MouseButton::Left, true), MOUSEEVENTF_LEFTDOWN);
    assert_eq!(button_flag(MouseButton::Left, false), MOUSEEVENTF_LEFTUP);
    assert_eq!(button_flag(MouseButton::Right, true), MOUSEEVENTF_RIGHTDOWN);
    assert_eq!(button_flag(MouseButton::Right, false), MOUSEEVENTF_RIGHTUP);
    assert_eq!(button_flag(MouseButton::Middle, true), MOUSEEVENTF_MIDDLEDOWN);
    assert_eq!(button_flag(MouseButton::Other(4), false), MOUSEEVENTF_MIDDLEUP);
}

#[test]
fn keyboard_inputs() {
    let k = key_input(0x1E, 0x41, true);
    assert_eq!((k.virtual_key, k.scan, k.flags), (0x41, 0x1E, KEYEVENTF_KEYUP | KEYEVENTF_SCANCODE));
    assert_eq!(k.flags, 0x0A);
    let k = key_input(0, 0x1_0041, false);
    assert_eq!((k.virtual_key, k.scan, k.flags), (0x41, 0, 0));
}

#[test]
fn wheel_mouse_data_is_twos_complement() {
    assert_eq!(wheel_mouse_data(2), 240);
    assert_eq!(wheel_mouse_data(-1), 0xFFFF_FF88);
    assert_eq!(wheel_mouse_data(0), 0);
}

#[test]
fn wide_text_matches_std_encoding() {
    for text in ["", "hello", "Aé", "naïve 😀 text", "\u{FFFF}\u{10000}\u{10FFFF}"] {
        let expected: Vec<u16> = text.encode_utf16().chain(std::iter::once(0)).collect();
        assert_eq!(wide_text(text), expected);
    }
    assert_eq!(wide_text("A😀"), vec![0x41, 0xD83D, 0xDE00, 0]);
}

#[test]
fn wide_text_reads_back() {
    for text in ["", "clipboard", "Grüße 😀"] {
        assert_eq!(text_from_wide(&wide_text(text)), text);
    }
}

#[test]
fn text_from_wide_stops_at_nul_and_replaces_lone_surrogates() {
    assert_eq!(text_from_wide(&[0x48, 0x69, 0, 0x58]), "Hi");
    assert_eq!(text_from_wide(&[0x48, 0x69]), "Hi");
    assert_eq!(text_from_wide(&[0xD800, 0x41, 0]), "\u{FFFD}A");
    assert_eq!(text_from_wide(&[]), "");
}

#[test]
fn monitor_descriptions() {
    let d = monitor_display(0, -1920, 0, 0, 1080, 1, "DISPLAY1".to_string());
    assert_eq!((d.id, d.width, d.height, d.x, d.y, d.is_primary), (1, 1920, 1080, -1920, 0, true));
    assert_eq!(d.name, "DISPLAY1");
    assert_eq!(d.scale_factor, 1.0f32.to_bits());
    let d = monitor_display(2, 10, 10, 5, 20, 0, "DISPLAY3".to_string());
    assert_eq!((d.id, d.width, d.height, d.is_primary), (3, u32::MAX - 4, 10, false));
}

#[test]
fn empty_enumeration_gives_the_generic_display() {
    let r = monitors_or_generic(Vec::new());
    assert_eq!(r.len(), 1);
    assert_eq!((r[0].id, r[0].width, r[0].height, r[0].is_primary), (1, 1920, 1080, true));
    assert_eq!(r[0].name, "Generic Display");
    let one = monitor_display(0, 0, 0, 800, 600, 0, "A".to_string());
    let r = monitors_or_generic(vec![one]);
    assert_eq!(r.len(), 1);
    assert_eq!((r[0].width, r[0].height, r[0].is_primary), (800, 600, false));
}
