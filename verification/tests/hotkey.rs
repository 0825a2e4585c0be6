use cross_kvm::hotkey::{HotkeyAction, HotkeyState};
use cross_kvm::protocol::{InputEvent, KeyModifiers, MouseButton};

#[test]
fn test_ctrl_alt_q_exits() {
    let mut hotkeys = HotkeyState::default();
    let ev = InputEvent::KeyDown {
        scancode: 12,
        keycode: 12, // macOS 'Q'
        modifiers: KeyModifiers {
            control: true,
            alt_option: true,
            ..Default::default()
        },
    };
    assert_eq!(hotkeys.check(&ev), HotkeyAction::ExitApplication);
}

#[test]
fn test_ctrl_alt_c_exits() {
    let mut hotkeys = HotkeyState::default();
    let ev = InputEvent::KeyDown {
        scancode: 8,
        keycode: 8, // macOS 'C'
        modifiers: KeyModifiers {
            control: true,
            alt_option: true,
            ..Default::default()
        },
    };
    assert_eq!(hotkeys.check(&ev), HotkeyAction::ExitApplication);
}

#[test]
fn test_double_ctrl_c_exits() {
    let mut hotkeys = HotkeyState::default();
    let ev = InputEvent::KeyDown {
        scancode: 8,
        keycode: 8, // macOS 'C'
        modifiers: KeyModifiers {
            control: true,
            ..Default::default()
        },
    };
    // First Ctrl+C: Normal key
    assert_eq!(hotkeys.check(&ev), HotkeyAction::NoAction);
    // Second Ctrl+C immediately after: Triggers emergency exit!
    assert_eq!(hotkeys.check(&ev), HotkeyAction::ExitApplication);
}

#[test]
fn test_triple_escape_breakout() {
    let mut hotkeys = HotkeyState::default();
    let ev = InputEvent::KeyDown {
        scancode: 53,
        keycode: 53, // macOS Escape
        modifiers: KeyModifiers::default(),
    };
    assert_eq!(hotkeys.check(&ev), HotkeyAction::NoAction);
    assert_eq!(hotkeys.check(&ev), HotkeyAction::NoAction);
    // 3rd rapid escape triggers breakout
    assert_eq!(hotkeys.check(&ev), HotkeyAction::EmergencyBreakout);
}

#[test]
fn test_ctrl_alt_shift_escape_breakout() {
    let mut hotkeys = HotkeyState::default();
    let ev = InputEvent::KeyDown {
        scancode: 53,
        keycode: 53,
        modifiers: KeyModifiers {
            control: true,
            alt_option: true,
            shift: true,
            ..Default::default()
        },
    };
    assert_eq!(hotkeys.check(&ev), HotkeyAction::EmergencyBreakout);
}

fn key(keycode: u32, modifiers: KeyModifiers) -> InputEvent {
    InputEvent::KeyDown { scancode: keycode, keycode, modifiers }
}

const MS: u128 = 1_000_000;

#[test]
fn ctrl_c_presses_600ms_apart_do_not_exit() {
    let ctrl = KeyModifiers { control: true, ..Default::default() };
    let mut hotkeys = HotkeyState::default();
    assert_eq!(hotkeys.check_at(&key(67, ctrl), 0), HotkeyAction::NoAction);
    assert_eq!(hotkeys.check_at(&key(67, ctrl), 600 * MS), HotkeyAction::NoAction);
    assert_eq!(hotkeys.check_at(&key(8, ctrl), 1199 * MS), HotkeyAction::ExitApplication);
    // the memory was cleared: a single press after the exit is plain again
    assert_eq!(hotkeys.check_at(&key(8, ctrl), 1200 * MS), HotkeyAction::NoAction);
}

#[test]
fn escape_presses_spread_over_800ms_do_not_break_out() {
    let none = KeyModifiers::default();
    let mut hotkeys = HotkeyState::default();
    assert_eq!(hotkeys.check_at(&key(27, none), 0), HotkeyAction::NoAction);
    assert_eq!(hotkeys.check_at(&key(27, none), 400 * MS), HotkeyAction::NoAction);
    assert_eq!(hotkeys.check_at(&key(27, none), 800 * MS), HotkeyAction::NoAction);
    assert_eq!(hotkeys.check_at(&key(53, none), 801 * MS), HotkeyAction::EmergencyBreakout);
}

#[test]
fn exit_combinations_and_other_events() {
    let mut hotkeys = HotkeyState::default();
    let ctrl_alt = KeyModifiers { control: true, alt_option: true, ..Default::default() };
    let cmd_alt = KeyModifiers { meta_command: true, alt_option: true, ..Default::default() };
    assert_eq!(hotkeys.check_at(&key(88, ctrl_alt), 0), HotkeyAction::ExitApplication);
    assert_eq!(hotkeys.check_at(&key(7, ctrl_alt), 0), HotkeyAction::ExitApplication);
    assert_eq!(hotkeys.check_at(&key(27, ctrl_alt), 0), HotkeyAction::ExitApplication);
    assert_eq!(hotkeys.check_at(&key(81, cmd_alt), 0), HotkeyAction::ExitApplication);
    assert_eq!(hotkeys.check_at(&key(81, KeyModifiers::default()), 0), HotkeyAction::NoAction);
    let up = InputEvent::KeyUp { scancode: 12, keycode: 12, modifiers: ctrl_alt };
    assert_eq!(hotkeys.check_at(&up, 0), HotkeyAction::NoAction);
    assert_eq!(hotkeys.check_at(&InputEvent::MouseDown(MouseButton::Left), 0), HotkeyAction::NoAction);
}
