//! Global hotkey detection: exit combinations and emergency breakouts.
use vstd::prelude::*;
use crate::protocol::{InputEvent, KeyModifiers};
use std::time::{Duration, Instant};

verus! {

#[verifier::external_type_specification]
#[verifier::external_body]
pub struct ExInstant(std::time::Instant);

/// Calls `std::time::Instant::now`. Nothing is claimed of the instant returned.
#[verifier::external_body]
fn instant_now() -> Instant {
    Instant::now()
}

/// Calls `std::time::Instant::elapsed`. Nothing is claimed of the duration: it depends
/// on the clock.
#[verifier::external_body]
fn elapsed_since(origin: &Instant) -> Duration {
    origin.elapsed()
}

/// Calls `Duration::as_nanos`: the whole duration in nanoseconds. Nothing is claimed of
/// the value, as the library sees durations only opaquely.
#[verifier::external_body]
fn duration_nanos(d: &Duration) -> u128 {
    d.as_nanos()
}

/// Two Ctrl+C presses closer than this (600 ms, in nanoseconds) exit the application.
pub const CTRL_C_WINDOW_NANOS: u128 = 600_000_000;

/// Three Escape presses closer than this (800 ms, in nanoseconds) trigger a breakout.
pub const ESC_WINDOW_NANOS: u128 = 800_000_000;

#[derive(Debug, Clone, Copy, PartialEq, Eq)]
pub enum HotkeyAction {
    /// No hotkey fired
    NoAction,
    /// Return the cursor to this machine without stopping the daemon
    EmergencyBreakout,
    /// Stop the daemon
    ExitApplication,
}

/// Key codes (macOS virtual key, or Windows virtual key) of Escape.
pub open spec fn is_esc_key(k: u32) -> bool {
    k == 53 || k == 27
}

/// Key codes of Q.
pub open spec fn is_q_key(k: u32) -> bool {
    k == 12 || k == 81
}

/// Key codes of C.
pub open spec fn is_c_key(k: u32) -> bool {
    k == 8 || k == 67
}

/// Key codes of X.
pub open spec fn is_x_key(k: u32) -> bool {
    k == 7 || k == 88
}

/// Whether a press at time `t` is still within `window` of `now`.
pub open spec fn within_window(now: u128, window: u128) -> spec_fn(u128) -> bool {
    |t: u128| (now as int) < (t as int) + (window as int)
}

/// The presses of `presses` that are still within `window` of `now`.
pub open spec fn recent(presses: Seq<u128>, now: u128, window: u128) -> Seq<u128> {
    presses.filter(within_window(now, window))
}

/// Key combinations that stop the application at once.
pub open spec fn is_exit_combo(keycode: u32, m: KeyModifiers) -> bool {
    ||| m.control && m.alt_option && is_q_key(keycode)
    ||| m.control && m.alt_option && is_c_key(keycode)
    ||| m.control && m.alt_option && is_x_key(keycode)
    ||| m.control && m.alt_option && !m.shift && is_esc_key(keycode)
    ||| m.meta_command && m.alt_option && is_q_key(keycode)
}

/// Abstract state of the detector: the times (nanoseconds on its clock) of the
/// recent Escape presses and of the recent Ctrl+C presses.
pub struct HotkeyView {
    pub esc: Seq<u128>,
    pub ctrl_c: Seq<u128>,
}

/// The detector's answer to `ev` at time `now`, in state `s`, and its next state.
pub open spec fn hotkey_step(s: HotkeyView, ev: InputEvent, now: u128) -> (HotkeyView, HotkeyAction) {
    match ev {
        InputEvent::KeyDown { keycode, modifiers: m, .. } => {
            if is_exit_combo(keycode, m) {
                (s, HotkeyAction::ExitApplication)
            } else {
                let ctrl_pressed = recent(s.ctrl_c, now, CTRL_C_WINDOW_NANOS).push(now);
                if m.control && is_c_key(keycode) && ctrl_pressed.len() >= 2 {
                    (HotkeyView { esc: s.esc, ctrl_c: Seq::empty() }, HotkeyAction::ExitApplication)
                } else {
                    let ctrl_c = if m.control && is_c_key(keycode) { ctrl_pressed } else { s.ctrl_c };
                    if m.control && m.alt_option && m.shift && is_esc_key(keycode) {
                        (HotkeyView { esc: s.esc, ctrl_c }, HotkeyAction::EmergencyBreakout)
                    } else if is_esc_key(keycode) {
                        let esc_pressed = recent(s.esc, now, ESC_WINDOW_NANOS).push(now);
                        if esc_pressed.len() >= 3 {
                            (HotkeyView { esc: Seq::empty(), ctrl_c }, HotkeyAction::EmergencyBreakout)
                        } else {
                            (HotkeyView { esc: esc_pressed, ctrl_c }, HotkeyAction::NoAction)
                        }
                    } else {
                        (HotkeyView { esc: s.esc, ctrl_c }, HotkeyAction::NoAction)
                    }
                }
            }
        },
        _ => (s, HotkeyAction::NoAction),
    }
}

/// The detector never keeps enough presses to fire: at most one Ctrl+C and two
/// Escape presses are remembered after any event, if that held before it.
pub proof fn lemma_hotkey_memory_bounded(s: HotkeyView, ev: InputEvent, now: u128)
    requires
        s.ctrl_c.len() <= 1,
        s.esc.len() <= 2,
    ensures
        hotkey_step(s, ev, now).0.ctrl_c.len() <= 1,
        hotkey_step(s, ev, now).0.esc.len() <= 2,
{
}

/// An exit combination stops the application whatever the detector remembers;
/// Ctrl+Alt+Shift+Escape breaks out whatever it remembers; any event other than a key
/// press is answered with no action and changes nothing.
pub proof fn lemma_hotkey_exit_combos(s: HotkeyView, ev: InputEvent, now: u128)
    ensures
        ev matches InputEvent::KeyDown { keycode, modifiers, .. } && is_exit_combo(keycode, modifiers)
            ==> hotkey_step(s, ev, now) == (s, HotkeyAction::ExitApplication),
        !(ev is KeyDown) ==> hotkey_step(s, ev, now) == (s, HotkeyAction::NoAction),
        ev matches InputEvent::KeyDown { keycode, modifiers, .. } && is_esc_key(keycode) && modifiers.control
            && modifiers.alt_option && modifiers.shift ==> hotkey_step(s, ev, now).1 == HotkeyAction::EmergencyBreakout,
{
}

/// The exit keys, with the key codes of both platforms written out (macOS virtual key /
/// Windows virtual key): Ctrl+Alt with Q (12 / 81), C (8 / 67) or X (7 / 88), Ctrl+Alt
/// with Escape (53 / 27) while Shift is up, and Cmd+Alt+Q, stop the application at once,
/// whatever the detector remembers and whenever they come, and leave its memory as it was.
pub proof fn lemma_exit_keys(s: HotkeyView, now: u128, scancode: u32, keycode: u32, m: KeyModifiers)
    ensures
        m.control && m.alt_option && (keycode == 12 || keycode == 81 || keycode == 8 || keycode == 67
            || keycode == 7 || keycode == 88)
            ==> hotkey_step(s, InputEvent::KeyDown { scancode, keycode, modifiers: m }, now)
                == (s, HotkeyAction::ExitApplication),
        m.control && m.alt_option && !m.shift && (keycode == 53 || keycode == 27)
            ==> hotkey_step(s, InputEvent::KeyDown { scancode, keycode, modifiers: m }, now)
                == (s, HotkeyAction::ExitApplication),
        m.meta_command && m.alt_option && (keycode == 12 || keycode == 81)
            ==> hotkey_step(s, InputEvent::KeyDown { scancode, keycode, modifiers: m }, now)
                == (s, HotkeyAction::ExitApplication),
{
}

/// A Ctrl+C that did not fire, followed by a second Ctrl+C less than 600 ms later,
/// exits the application.
pub proof fn lemma_double_ctrl_c_exits(s: HotkeyView, ev: InputEvent, t1: u128, t2: u128)
    requires
        ev matches InputEvent::KeyDown { keycode, modifiers, .. } && modifiers.control && is_c_key(keycode),
        hotkey_step(s, ev, t1).1 == HotkeyAction::NoAction,
        t2 < t1 + CTRL_C_WINDOW_NANOS,
    ensures
        hotkey_step(hotkey_step(s, ev, t1).0, ev, t2).1 == HotkeyAction::ExitApplication,
{
    reveal_with_fuel(Seq::filter, 2);
    let s1 = hotkey_step(s, ev, t1).0;
    assert(s1.ctrl_c =~= seq![t1]);
    assert(recent(s1.ctrl_c, t2, CTRL_C_WINDOW_NANOS) =~= seq![t1]);
}

/// Three presses of Escape within 800 ms, without Ctrl+Alt held, from a detector that
/// remembers no Escape press: the first two do nothing, the third breaks out.
pub proof fn lemma_triple_escape_breaks_out(s: HotkeyView, ev: InputEvent, t1: u128, t2: u128, t3: u128)
    requires
        s.esc.len() == 0,
        ev matches InputEvent::KeyDown { keycode, modifiers, .. }
            && is_esc_key(keycode) && !(modifiers.control && modifiers.alt_option),
        t1 <= t2 <= t3,
        t3 < t1 + ESC_WINDOW_NANOS,
    ensures
        hotkey_step(s, ev, t1).1 == HotkeyAction::NoAction,
        hotkey_step(hotkey_step(s, ev, t1).0, ev, t2).1 == HotkeyAction::NoAction,
        hotkey_step(hotkey_step(hotkey_step(s, ev, t1).0, ev, t2).0, ev, t3).1 == HotkeyAction::EmergencyBreakout,
{
    reveal_with_fuel(Seq::filter, 3);
    let s1 = hotkey_step(s, ev, t1).0;
    assert(recent(s.esc, t1, ESC_WINDOW_NANOS) =~= Seq::<u128>::empty());
    assert(s1.esc =~= seq![t1]);
    let s2 = hotkey_step(s1, ev, t2).0;
    assert(recent(s1.esc, t2, ESC_WINDOW_NANOS) =~= seq![t1]);
    assert(s2.esc =~= seq![t1, t2]);
    assert(recent(s2.esc, t3, ESC_WINDOW_NANOS) =~= seq![t1, t2]);
}

/// Detector of the exit and breakout hotkeys.
pub struct HotkeyState {
    origin: Instant,
    last_esc_presses: Vec<u128>,
    last_ctrl_c_presses: Vec<u128>,
}

impl View for HotkeyState {
    type V = HotkeyView;

    closed spec fn view(&self) -> HotkeyView {
        HotkeyView { esc: self.last_esc_presses@, ctrl_c: self.last_ctrl_c_presses@ }
    }
}

/// Keeps the presses that are still within `window` of `now`, in order.
fn retain_recent(presses: &Vec<u128>, now: u128, window: u128) -> (r: Vec<u128>)
    ensures
        r@ == recent(presses@, now, window),
{
    let mut kept: Vec<u128> = Vec::new();
    let mut i: usize = 0;
    while i < presses.len()
        invariant
            i <= presses@.len(),
            kept@ == presses@.subrange(0, i as int).filter(within_window(now, window)),
        decreases presses@.len() - i,
    {
        let t = presses[i];
        let fresh = t > now || now - t < window;
        proof {
            reveal(Seq::filter);
            assert(presses@.subrange(0, i + 1).drop_last() == presses@.subrange(0, i as int));
            assert(presses@.subrange(0, i + 1).last() == t);
            assert(fresh == within_window(now, window)(t));
        }
        if fresh {
            kept.push(t);
        }
        i = i + 1;
    }
    assert(presses@.subrange(0, presses@.len() as int) == presses@);
    kept
}

impl Default for HotkeyState {
    fn default() -> (r: Self)
        ensures
            r@.esc == Seq::<u128>::empty(),
            r@.ctrl_c == Seq::<u128>::empty(),
    {
        HotkeyState { origin: instant_now(), last_esc_presses: Vec::new(), last_ctrl_c_presses: Vec::new() }
    }
}

impl HotkeyState {
    /// Classify a captured event against the hotkeys at time `now`
    /// (nanoseconds on this detector's clock).
    pub fn check_at(&mut self, event: &InputEvent, now: u128) -> (r: HotkeyAction)
        ensures
            (final(self)@, r) == hotkey_step(old(self)@, *event, now),
    {
        if let InputEvent::KeyDown { keycode, modifiers, .. } = event {
            let keycode = *keycode;
            let is_esc = keycode == 53 || keycode == 27;
            let is_q = keycode == 12 || keycode == 81;
            let is_c = keycode == 8 || keycode == 67;
            let is_x = keycode == 7 || keycode == 88;

            // Exit combinations
            if modifiers.control && modifiers.alt_option && is_q {
                return HotkeyAction::ExitApplication;
            }
            if modifiers.control && modifiers.alt_option && is_c {
                return HotkeyAction::ExitApplication;
            }
            if modifiers.control && modifiers.alt_option && is_x {
                return HotkeyAction::ExitApplication;
            }
            if modifiers.control && modifiers.alt_option && !modifiers.shift && is_esc {
                return HotkeyAction::ExitApplication;
            }
            if modifiers.meta_command && modifiers.alt_option && is_q {
                return HotkeyAction::ExitApplication;
            }
            // Double Ctrl+C
            if modifiers.control && is_c {
                let mut kept = retain_recent(&self.last_ctrl_c_presses, now, CTRL_C_WINDOW_NANOS);
                kept.push(now);
                if kept.len() >= 2 {
                    self.last_ctrl_c_presses = Vec::new();
                    return HotkeyAction::ExitApplication;
                }
                self.last_ctrl_c_presses = kept;
            }
            // Ctrl+Alt+Shift+Escape
            if modifiers.control && modifiers.alt_option && modifiers.shift && is_esc {
                return HotkeyAction::EmergencyBreakout;
            }
            // Triple Escape
            if is_esc {
                let mut kept = retain_recent(&self.last_esc_presses, now, ESC_WINDOW_NANOS);
                kept.push(now);
                if kept.len() >= 3 {
                    self.last_esc_presses = Vec::new();
                    return HotkeyAction::EmergencyBreakout;
                }
                self.last_esc_presses = kept;
            }
        }
        HotkeyAction::NoAction
    }

    /// Classify a captured event against the hotkeys, reading the clock.
    pub fn check(&mut self, event: &InputEvent) -> (r: HotkeyAction)
        ensures
            exists|now: u128| (final(self)@, r) == #[trigger] hotkey_step(old(self)@, *event, now),
    {
        let elapsed = elapsed_since(&self.origin);
        let now = duration_nanos(&elapsed);
        self.check_at(event, now)
    }
}

} // verus!
