//! macOS Quartz event vocabulary: event types, mouse buttons and modifier flags, and
//! their mapping to the protocol's events.
use vstd::prelude::*;
use crate::protocol::{KeyModifiers, MouseButton};

verus! {

pub const K_CG_EVENT_FLAG_MASK_ALPHA_LOCK: u64 = 0x0001_0000;
pub const K_CG_EVENT_FLAG_MASK_SHIFT: u64 = 0x0002_0000;
pub const K_CG_EVENT_FLAG_MASK_CONTROL: u64 = 0x0004_0000;
pub const K_CG_EVENT_FLAG_MASK_ALTERNATE: u64 = 0x0008_0000;
pub const K_CG_EVENT_FLAG_MASK_COMMAND: u64 = 0x0010_0000;

/// The five modifier flags together.
pub const MODIFIER_FLAGS_MASK: u64 = 0x001f_0000;

/// The modifiers set in a Quartz event's flags.
pub fn extract_modifiers(flags: u64) -> (r: KeyModifiers)
    ensures
        r.shift == (flags & K_CG_EVENT_FLAG_MASK_SHIFT != 0),
        r.control == (flags & K_CG_EVENT_FLAG_MASK_CONTROL != 0),
        r.alt_option == (flags & K_CG_EVENT_FLAG_MASK_ALTERNATE != 0),
        r.meta_command == (flags & K_CG_EVENT_FLAG_MASK_COMMAND != 0),
        r.caps_lock == (flags & K_CG_EVENT_FLAG_MASK_ALPHA_LOCK != 0),
{
    KeyModifiers {
        shift: (flags & K_CG_EVENT_FLAG_MASK_SHIFT) != 0,
        control: (flags & K_CG_EVENT_FLAG_MASK_CONTROL) != 0,
        alt_option: (flags & K_CG_EVENT_FLAG_MASK_ALTERNATE) != 0,
        meta_command: (flags & K_CG_EVENT_FLAG_MASK_COMMAND) != 0,
        caps_lock: (flags & K_CG_EVENT_FLAG_MASK_ALPHA_LOCK) != 0,
    }
}

/// The Quartz event flags of a set of modifiers.
pub open spec fn cg_flags_of(m: KeyModifiers) -> u64 {
    (if m.shift { K_CG_EVENT_FLAG_MASK_SHIFT } else { 0 })
        | (if m.control { K_CG_EVENT_FLAG_MASK_CONTROL } else { 0 })
        | (if m.alt_option { K_CG_EVENT_FLAG_MASK_ALTERNATE } else { 0 })
        | (if m.meta_command { K_CG_EVENT_FLAG_MASK_COMMAND } else { 0 })
        | (if m.caps_lock { K_CG_EVENT_FLAG_MASK_ALPHA_LOCK } else { 0 })
}

/// The Quartz event flags of a set of modifiers.
pub fn modifiers_to_cgflags(mods: &KeyModifiers) -> (r: u64)
    ensures
        r == cg_flags_of(*mods),
{
    let shift: u64 = if mods.shift { K_CG_EVENT_FLAG_MASK_SHIFT } else { 0 };
    let control: u64 = if mods.control { K_CG_EVENT_FLAG_MASK_CONTROL } else { 0 };
    let alternate: u64 = if mods.alt_option { K_CG_EVENT_FLAG_MASK_ALTERNATE } else { 0 };
    let command: u64 = if mods.meta_command { K_CG_EVENT_FLAG_MASK_COMMAND } else { 0 };
    let alpha_lock: u64 = if mods.caps_lock { K_CG_EVENT_FLAG_MASK_ALPHA_LOCK } else { 0 };
    shift | control | alternate | command | alpha_lock
}

/// Injecting modifiers and capturing them back gives the same modifiers; capturing flags
/// and injecting the modifiers found gives back exactly the modifier bits of the flags.
pub proof fn lemma_cg_flags_roundtrip(m: KeyModifiers, flags: u64)
    ensures
        ({
            let f = cg_flags_of(m);
            &&& (f & K_CG_EVENT_FLAG_MASK_SHIFT != 0) == m.shift
            &&& (f & K_CG_EVENT_FLAG_MASK_CONTROL != 0) == m.control
            &&& (f & K_CG_EVENT_FLAG_MASK_ALTERNATE != 0) == m.alt_option
            &&& (f & K_CG_EVENT_FLAG_MASK_COMMAND != 0) == m.meta_command
            &&& (f & K_CG_EVENT_FLAG_MASK_ALPHA_LOCK != 0) == m.caps_lock
        }),
        cg_flags_of(KeyModifiers {
            shift: flags & K_CG_EVENT_FLAG_MASK_SHIFT != 0,
            control: flags & K_CG_EVENT_FLAG_MASK_CONTROL != 0,
            alt_option: flags & K_CG_EVENT_FLAG_MASK_ALTERNATE != 0,
            meta_command: flags & K_CG_EVENT_FLAG_MASK_COMMAND != 0,
            caps_lock: flags & K_CG_EVENT_FLAG_MASK_ALPHA_LOCK != 0,
        }) == flags & MODIFIER_FLAGS_MASK,
{
    let sb = m.shift;
    let cb = m.control;
    let ab = m.alt_option;
    let mb = m.meta_command;
    let lb = m.caps_lock;
    let f = cg_flags_of(m);
    assert(
        f == (if sb { 0x0002_0000u64 } else { 0u64 }) | (if cb { 0x0004_0000u64 } else { 0u64 })
            | (if ab { 0x0008_0000u64 } else { 0u64 }) | (if mb { 0x0010_0000u64 } else { 0u64 })
            | (if lb { 0x0001_0000u64 } else { 0u64 })
        ==> ((f & 0x0002_0000u64 != 0) == sb && (f & 0x0004_0000u64 != 0) == cb
            && (f & 0x0008_0000u64 != 0) == ab && (f & 0x0010_0000u64 != 0) == mb
            && (f & 0x0001_0000u64 != 0) == lb)
    ) by (bit_vector);
    assert(
        (if flags & 0x0002_0000u64 != 0 { 0x0002_0000u64 } else { 0u64 })
            | (if flags & 0x0004_0000u64 != 0 { 0x0004_0000u64 } else { 0u64 })
            | (if flags & 0x0008_0000u64 != 0 { 0x0008_0000u64 } else { 0u64 })
            | (if flags & 0x0010_0000u64 != 0 { 0x0010_0000u64 } else { 0u64 })
            | (if flags & 0x0001_0000u64 != 0 { 0x0001_0000u64 } else { 0u64 })
        == flags & 0x001f_0000u64
    ) by (bit_vector);
}

pub const K_CG_EVENT_LEFT_MOUSE_DOWN: u32 = 1;
pub const K_CG_EVENT_LEFT_MOUSE_UP: u32 = 2;
pub const K_CG_EVENT_RIGHT_MOUSE_DOWN: u32 = 3;
pub const K_CG_EVENT_RIGHT_MOUSE_UP: u32 = 4;
pub const K_CG_EVENT_MOUSE_MOVED: u32 = 5;
pub const K_CG_EVENT_LEFT_MOUSE_DRAGGED: u32 = 6;
pub const K_CG_EVENT_RIGHT_MOUSE_DRAGGED: u32 = 7;
pub const K_CG_EVENT_KEY_DOWN: u32 = 10;
pub const K_CG_EVENT_KEY_UP: u32 = 11;
pub const K_CG_EVENT_FLAGS_CHANGED: u32 = 12;
pub const K_CG_EVENT_SCROLL_WHEEL: u32 = 22;
pub const K_CG_EVENT_OTHER_MOUSE_DOWN: u32 = 25;
pub const K_CG_EVENT_OTHER_MOUSE_UP: u32 = 26;

pub const K_CG_MOUSE_BUTTON_LEFT: u32 = 0;
pub const K_CG_MOUSE_BUTTON_RIGHT: u32 = 1;
pub const K_CG_MOUSE_BUTTON_CENTER: u32 = 2;

/// What a tapped Quartz event becomes in the protocol.
#[derive(Debug, Clone, Copy, PartialEq, Eq)]
pub enum QuartzEventKind {
    /// Pointer motion (plain or dragging): a mouse delta
    Motion,
    ButtonDown(MouseButton),
    ButtonUp(MouseButton),
    Scroll,
    KeyDown,
    KeyUp,
}

/// The protocol event kind of a Quartz event type; `None` for types that are not shared.
pub open spec fn quartz_kind_of(event_type: u32) -> Option<QuartzEventKind> {
    if event_type == K_CG_EVENT_MOUSE_MOVED || event_type == K_CG_EVENT_LEFT_MOUSE_DRAGGED
        || event_type == K_CG_EVENT_RIGHT_MOUSE_DRAGGED {
        Some(QuartzEventKind::Motion)
    } else if event_type == K_CG_EVENT_LEFT_MOUSE_DOWN {
        Some(QuartzEventKind::ButtonDown(MouseButton::Left))
    } else if event_type == K_CG_EVENT_LEFT_MOUSE_UP {
        Some(QuartzEventKind::ButtonUp(MouseButton::Left))
    } else if event_type == K_CG_EVENT_RIGHT_MOUSE_DOWN {
        Some(QuartzEventKind::ButtonDown(MouseButton::Right))
    } else if event_type == K_CG_EVENT_RIGHT_MOUSE_UP {
        Some(QuartzEventKind::ButtonUp(MouseButton::Right))
    } else if event_type == K_CG_EVENT_OTHER_MOUSE_DOWN {
        Some(QuartzEventKind::ButtonDown(MouseButton::Middle))
    } else if event_type == K_CG_EVENT_OTHER_MOUSE_UP {
        Some(QuartzEventKind::ButtonUp(MouseButton::Middle))
    } else if event_type == K_CG_EVENT_SCROLL_WHEEL {
        Some(QuartzEventKind::Scroll)
    } else if event_type == K_CG_EVENT_KEY_DOWN {
        Some(QuartzEventKind::KeyDown)
    } else if event_type == K_CG_EVENT_KEY_UP {
        Some(QuartzEventKind::KeyUp)
    } else {
        None
    }
}

/// Classify a tapped Quartz event.
pub fn quartz_event_kind(event_type: u32) -> (r: Option<QuartzEventKind>)
    ensures
        r == quartz_kind_of(event_type),
{
    if event_type == K_CG_EVENT_MOUSE_MOVED || event_type == K_CG_EVENT_LEFT_MOUSE_DRAGGED
        || event_type == K_CG_EVENT_RIGHT_MOUSE_DRAGGED {
        Some(QuartzEventKind::Motion)
    } else if event_type == K_CG_EVENT_LEFT_MOUSE_DOWN {
        Some(QuartzEventKind::ButtonDown(MouseButton::Left))
    } else if event_type == K_CG_EVENT_LEFT_MOUSE_UP {
        Some(QuartzEventKind::ButtonUp(MouseButton::Left))
    } else if event_type == K_CG_EVENT_RIGHT_MOUSE_DOWN {
        Some(QuartzEventKind::ButtonDown(MouseButton::Right))
    } else if event_type == K_CG_EVENT_RIGHT_MOUSE_UP {
        Some(QuartzEventKind::ButtonUp(MouseButton::Right))
    } else if event_type == K_CG_EVENT_OTHER_MOUSE_DOWN {
        Some(QuartzEventKind::ButtonDown(MouseButton::Middle))
    } else if event_type == K_CG_EVENT_OTHER_MOUSE_UP {
        Some(QuartzEventKind::ButtonUp(MouseButton::Middle))
    } else if event_type == K_CG_EVENT_SCROLL_WHEEL {
        Some(QuartzEventKind::Scroll)
    } else if event_type == K_CG_EVENT_KEY_DOWN {
        Some(QuartzEventKind::KeyDown)
    } else if event_type == K_CG_EVENT_KEY_UP {
        Some(QuartzEventKind::KeyUp)
    } else {
        None
    }
}

/// The Quartz (event type, button number) posted to press or release `button`;
/// buttons other than left and right are posted as the centre button.
pub open spec fn quartz_button_event_of(button: MouseButton, down: bool) -> (u32, u32) {
    match button {
        MouseButton::Left => (if down { K_CG_EVENT_LEFT_MOUSE_DOWN } else { K_CG_EVENT_LEFT_MOUSE_UP }, K_CG_MOUSE_BUTTON_LEFT),
        MouseButton::Right => (if down { K_CG_EVENT_RIGHT_MOUSE_DOWN } else { K_CG_EVENT_RIGHT_MOUSE_UP }, K_CG_MOUSE_BUTTON_RIGHT),
        _ => (if down { K_CG_EVENT_OTHER_MOUSE_DOWN } else { K_CG_EVENT_OTHER_MOUSE_UP }, K_CG_MOUSE_BUTTON_CENTER),
    }
}

/// The Quartz (event type, button number) posted to press or release `button`.
pub fn quartz_button_event(button: MouseButton, down: bool) -> (r: (u32, u32))
    ensures
        r == quartz_button_event_of(button, down),
{
    match button {
        MouseButton::Left => (if down { K_CG_EVENT_LEFT_MOUSE_DOWN } else { K_CG_EVENT_LEFT_MOUSE_UP }, K_CG_MOUSE_BUTTON_LEFT),
        MouseButton::Right => (if down { K_CG_EVENT_RIGHT_MOUSE_DOWN } else { K_CG_EVENT_RIGHT_MOUSE_UP }, K_CG_MOUSE_BUTTON_RIGHT),
        _ => (if down { K_CG_EVENT_OTHER_MOUSE_DOWN } else { K_CG_EVENT_OTHER_MOUSE_UP }, K_CG_MOUSE_BUTTON_CENTER),
    }
}

/// A button posted by the injector is classified back as the same press or release, for
/// the left, right and middle buttons.
pub proof fn lemma_quartz_button_roundtrip(button: MouseButton, down: bool)
    requires
        !(button is Other),
    ensures
        quartz_kind_of(quartz_button_event_of(button, down).0) == if down {
            Some(QuartzEventKind::ButtonDown(button))
        } else {
            Some(QuartzEventKind::ButtonUp(button))
        },
{
}

/// The event types the tap listens to: pointer motion (plain and dragging), the three
/// buttons, the wheel, keys, and modifier changes.
pub open spec fn tapped(t: u32) -> bool {
    ||| t == K_CG_EVENT_MOUSE_MOVED
    ||| t == K_CG_EVENT_LEFT_MOUSE_DOWN
    ||| t == K_CG_EVENT_LEFT_MOUSE_UP
    ||| t == K_CG_EVENT_RIGHT_MOUSE_DOWN
    ||| t == K_CG_EVENT_RIGHT_MOUSE_UP
    ||| t == K_CG_EVENT_LEFT_MOUSE_DRAGGED
    ||| t == K_CG_EVENT_RIGHT_MOUSE_DRAGGED
    ||| t == K_CG_EVENT_OTHER_MOUSE_DOWN
    ||| t == K_CG_EVENT_OTHER_MOUSE_UP
    ||| t == K_CG_EVENT_SCROLL_WHEEL
    ||| t == K_CG_EVENT_KEY_DOWN
    ||| t == K_CG_EVENT_KEY_UP
    ||| t == K_CG_EVENT_FLAGS_CHANGED
}

/// The event mask the tap is created with: bit `t` is set exactly for the tapped types.
pub fn tap_event_mask() -> (r: u64)
    ensures
        forall|t: u32| t < 64 ==> (#[trigger] ((r >> (t as u64)) & 1) == 1) == tapped(t),
{
    let r: u64 = (1u64 << K_CG_EVENT_MOUSE_MOVED) | (1u64 << K_CG_EVENT_LEFT_MOUSE_DOWN)
        | (1u64 << K_CG_EVENT_LEFT_MOUSE_UP) | (1u64 << K_CG_EVENT_RIGHT_MOUSE_DOWN)
        | (1u64 << K_CG_EVENT_RIGHT_MOUSE_UP) | (1u64 << K_CG_EVENT_LEFT_MOUSE_DRAGGED)
        | (1u64 << K_CG_EVENT_RIGHT_MOUSE_DRAGGED) | (1u64 << K_CG_EVENT_OTHER_MOUSE_DOWN)
        | (1u64 << K_CG_EVENT_OTHER_MOUSE_UP) | (1u64 << K_CG_EVENT_SCROLL_WHEEL)
        | (1u64 << K_CG_EVENT_KEY_DOWN) | (1u64 << K_CG_EVENT_KEY_UP)
        | (1u64 << K_CG_EVENT_FLAGS_CHANGED);
    assert(r == 0x0640_1CFEu64) by (bit_vector)
        requires
            r == (1u64 << 5u32) | (1u64 << 1u32) | (1u64 << 2u32) | (1u64 << 3u32) | (1u64 << 4u32)
                | (1u64 << 6u32) | (1u64 << 7u32) | (1u64 << 25u32) | (1u64 << 26u32) | (1u64 << 22u32)
                | (1u64 << 10u32) | (1u64 << 11u32) | (1u64 << 12u32),
    ;
    assert forall|t: u32| t < 64 implies (#[trigger] ((r >> (t as u64)) & 1) == 1) == tapped(t) by {
        assert(t < 64 ==> (((0x0640_1CFEu64 >> (t as u64)) & 1u64) == 1u64) == (t == 5 || t == 1 || t == 2
            || t == 3 || t == 4 || t == 6 || t == 7 || t == 25 || t == 26 || t == 22 || t == 10 || t == 11
            || t == 12)) by (bit_vector);
    }
    r
}

/// Every event type the tap classifies into a protocol event is one it listens to.
pub proof fn lemma_tap_covers_classified(t: u32)
    requires
        quartz_kind_of(t) is Some,
    ensures
        tapped(t),
{
}

} // verus!
