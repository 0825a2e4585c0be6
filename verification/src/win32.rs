//! Windows input vocabulary: low-level hook messages, key states, `SendInput` flags,
//! UTF-16 text as the clipboard holds it, and monitor descriptions.
use vstd::prelude::*;
use vstd::string::*;
use crate::platform::{fallback_display, is_fallback_display, SCALE_ONE_BITS};
use crate::protocol::{DisplayInfo, KeyModifiers, MouseButton};

verus! {

pub const WM_KEYUP: u32 = 0x0101;
pub const WM_SYSKEYUP: u32 = 0x0105;
pub const WM_MOUSEMOVE: u32 = 0x0200;
pub const WM_LBUTTONDOWN: u32 = 0x0201;
pub const WM_LBUTTONUP: u32 = 0x0202;
pub const WM_RBUTTONDOWN: u32 = 0x0204;
pub const WM_RBUTTONUP: u32 = 0x0205;
pub const WM_MBUTTONDOWN: u32 = 0x0207;
pub const WM_MBUTTONUP: u32 = 0x0208;
pub const WM_MOUSEWHEEL: u32 = 0x020A;

/// What a message seen by the low-level mouse hook becomes in the protocol.
#[derive(Debug, Clone, Copy, PartialEq, Eq)]
pub enum HookMouseKind {
    /// Pointer motion: a mouse delta
    Motion,
    ButtonDown(MouseButton),
    ButtonUp(MouseButton),
    /// Wheel rotation: a vertical scroll
    Wheel,
}

/// The protocol event kind of a mouse hook message; `None` for messages that are not shared.
pub open spec fn hook_mouse_kind_of(msg: u32) -> Option<HookMouseKind> {
    if msg == WM_MOUSEMOVE {
        Some(HookMouseKind::Motion)
    } else if msg == WM_LBUTTONDOWN {
        Some(HookMouseKind::ButtonDown(MouseButton::Left))
    } else if msg == WM_LBUTTONUP {
        Some(HookMouseKind::ButtonUp(MouseButton::Left))
    } else if msg == WM_RBUTTONDOWN {
        Some(HookMouseKind::ButtonDown(MouseButton::Right))
    } else if msg == WM_RBUTTONUP {
        Some(HookMouseKind::ButtonUp(MouseButton::Right))
    } else if msg == WM_MBUTTONDOWN {
        Some(HookMouseKind::ButtonDown(MouseButton::Middle))
    } else if msg == WM_MBUTTONUP {
        Some(HookMouseKind::ButtonUp(MouseButton::Middle))
    } else if msg == WM_MOUSEWHEEL {
        Some(HookMouseKind::Wheel)
    } else {
        None
    }
}

/// Classify a message seen by the low-level mouse hook.
pub fn hook_mouse_kind(msg: u32) -> (r: Option<HookMouseKind>)
    ensures
        r == hook_mouse_kind_of(msg),
{
    if msg == WM_MOUSEMOVE {
        Some(HookMouseKind::Motion)
    } else if msg == WM_LBUTTONDOWN {
        Some(HookMouseKind::ButtonDown(MouseButton::Left))
    } else if msg == WM_LBUTTONUP {
        Some(HookMouseKind::ButtonUp(MouseButton::Left))
    } else if msg == WM_RBUTTONDOWN {
        Some(HookMouseKind::ButtonDown(MouseButton::Right))
    } else if msg == WM_RBUTTONUP {
        Some(HookMouseKind::ButtonUp(MouseButton::Right))
    } else if msg == WM_MBUTTONDOWN {
        Some(HookMouseKind::ButtonDown(MouseButton::Middle))
    } else if msg == WM_MBUTTONUP {
        Some(HookMouseKind::ButtonUp(MouseButton::Middle))
    } else if msg == WM_MOUSEWHEEL {
        Some(HookMouseKind::Wheel)
    } else {
        None
    }
}

/// Whether a message seen by the low-level keyboard hook releases its key; every other
/// keyboard message presses it.
pub fn is_key_release(msg: u32) -> (r: bool)
    ensures
        r == (msg == WM_KEYUP || msg == WM_SYSKEYUP),
{
    msg == WM_KEYUP || msg == WM_SYSKEYUP
}

/// The signed high word of a mouse hook's `mouseData`.
pub open spec fn high_word_signed(data: u32) -> int {
    let hi = data / 0x10000;
    if hi >= 0x8000 { hi - 0x10000 } else { hi as int }
}

/// The wheel rotation carried by a mouse hook's `mouseData`, in hundred-and-twentieths of
/// a notch: its high word, read as a signed number.
pub fn wheel_rotation(mouse_data: u32) -> (r: i16)
    ensures
        r == high_word_signed(mouse_data),
{
    let hi: u32 = mouse_data >> 16;
    assert(hi == mouse_data / 0x10000) by (bit_vector)
        requires
            hi == mouse_data >> 16,
    ;
    let r: i16 = hi as i16;
    assert(hi < 0x8000 ==> r == hi) by (bit_vector)
        requires
            r == hi as i16,
            hi < 0x10000,
    ;
    assert(hi >= 0x8000 ==> r == hi - 0x10000) by (bit_vector)
        requires
            r == hi as i16,
            hi < 0x10000,
    ;
    r
}

/// Virtual-key codes whose `GetKeyState` the keyboard hook reads.
pub const VK_SHIFT: i32 = 0x10;
pub const VK_CONTROL: i32 = 0x11;
pub const VK_MENU: i32 = 0x12;
pub const VK_CAPITAL: i32 = 0x14;
pub const VK_LWIN: i32 = 0x5B;
pub const VK_RWIN: i32 = 0x5C;

/// A `GetKeyState` result reports its key held down by its high bit.
pub open spec fn key_held(state: i16) -> bool {
    state < 0
}

/// A `GetKeyState` result reports a toggle key switched on by its low bit.
pub open spec fn key_toggled(state: i16) -> bool {
    state % 2 != 0
}

fn high_bit_set(state: i16) -> (r: bool)
    ensures
        r == key_held(state),
{
    let r = (state as u16 & 0x8000) != 0;
    assert(((state as u16 & 0x8000u16) != 0) == (state < 0)) by (bit_vector);
    r
}

fn low_bit_set(state: i16) -> (r: bool)
    ensures
        r == key_toggled(state),
{
    let r = (state as u16 & 1) != 0;
    assert(((state as u16 & 1u16) != 0) == (state % 2 != 0)) by (bit_vector);
    r
}

/// The modifiers held while a key event is seen, from the `GetKeyState` results of Shift,
/// Control, Alt, the two Windows keys and Caps Lock. Either Windows key counts as Meta.
pub fn key_state_modifiers(
    shift: i16,
    control: i16,
    alt: i16,
    left_win: i16,
    right_win: i16,
    caps_lock: i16,
) -> (r: KeyModifiers)
    ensures
        r.shift == key_held(shift),
        r.control == key_held(control),
        r.alt_option == key_held(alt),
        r.meta_command == (key_held(left_win) || key_held(right_win)),
        r.caps_lock == key_toggled(caps_lock),
{
    let left = high_bit_set(left_win);
    let right = high_bit_set(right_win);
    KeyModifiers {
        shift: high_bit_set(shift),
        control: high_bit_set(control),
        alt_option: high_bit_set(alt),
        meta_command: left || right,
        caps_lock: low_bit_set(caps_lock),
    }
}

pub const MOUSEEVENTF_MOVE: u32 = 0x0001;
pub const MOUSEEVENTF_LEFTDOWN: u32 = 0x0002;
pub const MOUSEEVENTF_LEFTUP: u32 = 0x0004;
pub const MOUSEEVENTF_RIGHTDOWN: u32 = 0x0008;
pub const MOUSEEVENTF_RIGHTUP: u32 = 0x0010;
pub const MOUSEEVENTF_MIDDLEDOWN: u32 = 0x0020;
pub const MOUSEEVENTF_MIDDLEUP: u32 = 0x0040;
pub const MOUSEEVENTF_WHEEL: u32 = 0x0800;
pub const MOUSEEVENTF_ABSOLUTE: u32 = 0x8000;
pub const KEYEVENTF_KEYUP: u32 = 0x0002;
pub const KEYEVENTF_SCANCODE: u32 = 0x0008;

/// One notch of the wheel.
pub const WHEEL_DELTA: i32 = 120;

/// The `SendInput` mouse flag that presses or releases `button`; buttons other than left
/// and right are sent as the middle button.
pub open spec fn button_flag_of(button: MouseButton, down: bool) -> u32 {
    match button {
        MouseButton::Left => if down { MOUSEEVENTF_LEFTDOWN } else { MOUSEEVENTF_LEFTUP },
        MouseButton::Right => if down { MOUSEEVENTF_RIGHTDOWN } else { MOUSEEVENTF_RIGHTUP },
        _ => if down { MOUSEEVENTF_MIDDLEDOWN } else { MOUSEEVENTF_MIDDLEUP },
    }
}

/// The `SendInput` mouse flag that presses or releases `button`.
pub fn button_flag(button: MouseButton, down: bool) -> (r: u32)
    ensures
        r == button_flag_of(button, down),
{
    match button {
        MouseButton::Left => if down { MOUSEEVENTF_LEFTDOWN } else { MOUSEEVENTF_LEFTUP },
        MouseButton::Right => if down { MOUSEEVENTF_RIGHTDOWN } else { MOUSEEVENTF_RIGHTUP },
        _ => if down { MOUSEEVENTF_MIDDLEDOWN } else { MOUSEEVENTF_MIDDLEUP },
    }
}

/// A keyboard input for `SendInput`.
#[derive(Debug, Clone, Copy, PartialEq, Eq)]
pub struct KeyInput {
    pub virtual_key: u16,
    pub scan: u16,
    pub flags: u32,
}

/// The flags of a key press or release: a release carries KEYUP, and a nonzero scancode
/// makes the scancode, not the virtual key, the one that counts.
pub open spec fn key_flags_of(scancode: u32, up: bool) -> u32 {
    (if up { KEYEVENTF_KEYUP } else { 0u32 }) | (if scancode != 0 { KEYEVENTF_SCANCODE } else { 0u32 })
}

/// The keyboard input that presses (`up` false) or releases a key; codes are cut to their
/// low 16 bits.
pub fn key_input(scancode: u32, keycode: u32, up: bool) -> (r: KeyInput)
    ensures
        r.virtual_key == keycode % 0x10000,
        r.scan == scancode % 0x10000,
        r.flags == key_flags_of(scancode, up),
{
    let virtual_key = keycode as u16;
    let scan = scancode as u16;
    assert(virtual_key == keycode % 0x10000) by (bit_vector)
        requires
            virtual_key == keycode as u16,
    ;
    assert(scan == scancode % 0x10000) by (bit_vector)
        requires
            scan == scancode as u16,
    ;
    let release: u32 = if up { KEYEVENTF_KEYUP } else { 0 };
    let by_scan: u32 = if scancode != 0 { KEYEVENTF_SCANCODE } else { 0 };
    KeyInput { virtual_key, scan, flags: release | by_scan }
}

/// The wheel `mouseData` for a rotation of `notches` whole notches: the rotation in
/// hundred-and-twentieths, as a two's-complement word.
pub fn wheel_mouse_data(notches: i32) -> (r: u32)
    requires
        i32::MIN <= notches * WHEEL_DELTA <= i32::MAX,
    ensures
        r == if notches >= 0 { notches * WHEEL_DELTA } else { notches * WHEEL_DELTA + 0x1_0000_0000 },
{
    let rotation: i32 = notches * WHEEL_DELTA;
    let r = rotation as u32;
    assert(rotation >= 0 ==> r == rotation) by (bit_vector)
        requires
            r == rotation as u32,
    ;
    assert(rotation < 0 ==> r == rotation + 0x1_0000_0000) by (bit_vector)
        requires
            r == rotation as u32,
    ;
    r
}

/// The UTF-16 code units of one character: one unit in the Basic Multilingual Plane, a
/// surrogate pair above it.
pub open spec fn char_units(c: char) -> Seq<u16> {
    let v = c as int;
    if v < 0x10000 {
        seq![v as u16]
    } else {
        seq![(0xD800 + (v - 0x10000) / 0x400) as u16, (0xDC00 + (v - 0x10000) % 0x400) as u16]
    }
}

/// The UTF-16 code units of a text.
pub open spec fn utf16_of(s: Seq<char>) -> Seq<u16>
    decreases s.len(),
{
    if s.len() == 0 {
        Seq::empty()
    } else {
        utf16_of(s.drop_last()) + char_units(s.last())
    }
}

fn push_char_units(units: &mut Vec<u16>, c: char)
    ensures
        final(units)@ == old(units)@ + char_units(c),
{
    let v = c as u32;
    if v < 0x10000 {
        units.push(v as u16);
    } else {
        let w: u32 = v - 0x10000;
        units.push((0xD800 + w / 0x400) as u16);
        units.push((0xDC00 + w % 0x400) as u16);
    }
}

/// A text as the clipboard stores it: its UTF-16 code units followed by a NUL unit.
pub fn wide_text(text: &str) -> (r: Vec<u16>)
    ensures
        r@ == utf16_of(text@).push(0u16),
{
    let mut units: Vec<u16> = Vec::new();
    for c in it: text.chars()
        invariant
            it.seq() == text@,
            units@ == utf16_of(text@.take(it.index() as int)),
    {
        proof {
            assert(text@.take(it.index() + 1).drop_last() == text@.take(it.index() as int));
        }
        push_char_units(&mut units, c);
    }
    assert(text@.take(text@.len() as int) == text@);
    units.push(0);
    units
}

/// The units before the first NUL unit; all of them where there is none.
pub open spec fn before_nul(units: Seq<u16>) -> Seq<u16> {
    match units.index_of_first(0u16) {
        Some(i) => units.take(i),
        None => units,
    }
}

/// What `String::from_utf16_lossy` makes of a sequence of code units.
pub uninterp spec fn utf16_lossy(units: Seq<u16>) -> Seq<char>;

/// Calls `String::from_utf16_lossy`. The result is named; where the units are the exact
/// UTF-16 encoding of some text, the decoded text encodes back to those units, as the
/// documentation promises for valid input. What replaces invalid units is not stated.
#[verifier::external_body]
fn string_from_utf16_lossy(units: &[u16]) -> (r: String)
    ensures
        r@ == utf16_lossy(units@),
        (exists|s: Seq<char>| utf16_of(s) == units@) ==> utf16_of(r@) == units@,
{
    String::from_utf16_lossy(units)
}

/// The number of units before the first NUL unit.
fn units_before_nul(units: &[u16]) -> (n: usize)
    ensures
        units@.take(n as int) == before_nul(units@),
        n <= units@.len(),
{
    let mut n: usize = 0;
    while n < units.len() && units[n] != 0
        invariant
            n <= units@.len(),
            forall|j: int| 0 <= j < n ==> units@[j] != 0u16,
        decreases units@.len() - n,
    {
        n = n + 1;
    }
    proof {
        units@.index_of_first_ensures(0u16);
        if n < units@.len() {
            assert(units@.contains(0u16));
        } else {
            assert(units@.take(n as int) == units@);
        }
    }
    n
}

/// The units of one character: a single non-surrogate unit equal to the character below
/// 0x10000; above it, a high then a low surrogate from which the character is recovered.
proof fn lemma_char_units(c: char)
    ensures
        (c as int) < 0x10000 ==> char_units(c).len() == 1 && char_units(c)[0] == c as int
            && !(0xD800 <= char_units(c)[0] < 0xE000),
        (c as int) >= 0x10000 ==> char_units(c).len() == 2 && 0xD800 <= char_units(c)[0] < 0xDC00
            && 0xDC00 <= char_units(c)[1] < 0xE000 && c as int == 0x10000 + (char_units(c)[0]
            - 0xD800) * 0x400 + (char_units(c)[1] - 0xDC00),
{
    let v = c as int;
    assert(0 <= v <= 0x10FFFF);
    assert(!(0xD800 <= v < 0xE000));
    if v >= 0x10000 {
        let w = v - 0x10000;
        assert(0 <= w / 0x400 < 0x400);
        assert(0 <= w % 0x400 < 0x400);
        assert(w == (w / 0x400) * 0x400 + w % 0x400);
    }
}

/// Two characters with the same units are the same character.
proof fn lemma_char_units_injective(x: char, y: char)
    requires
        char_units(x) == char_units(y),
    ensures
        x == y,
{
    lemma_char_units(x);
    lemma_char_units(y);
    assert(x as int == y as int);
}

/// Two texts with the same UTF-16 encoding are the same text.
pub proof fn lemma_utf16_injective(a: Seq<char>, b: Seq<char>)
    requires
        utf16_of(a) == utf16_of(b),
    ensures
        a == b,
    decreases a.len(),
{
    if a.len() == 0 {
        if b.len() > 0 {
            lemma_char_units(b.last());
            assert(utf16_of(b).len() > 0);
        }
    } else {
        if b.len() == 0 {
            lemma_char_units(a.last());
            assert(utf16_of(a).len() > 0);
        } else {
            let x = a.last();
            let y = b.last();
            let w = utf16_of(a);
            let ux = char_units(x);
            let uy = char_units(y);
            lemma_char_units(x);
            lemma_char_units(y);
            assert(w == utf16_of(a.drop_last()) + ux);
            assert(w == utf16_of(b.drop_last()) + uy);
            assert(w.last() == ux.last());
            assert(w.last() == uy.last());
            assert(ux.len() == uy.len());
            assert(ux == w.subrange(w.len() - ux.len(), w.len() as int));
            assert(uy == w.subrange(w.len() - uy.len(), w.len() as int));
            lemma_char_units_injective(x, y);
            assert(utf16_of(a.drop_last()) == w.take(w.len() - ux.len()));
            assert(utf16_of(b.drop_last()) == w.take(w.len() - uy.len()));
            lemma_utf16_injective(a.drop_last(), b.drop_last());
            assert(a == a.drop_last().push(x));
            assert(b == b.drop_last().push(y));
        }
    }
}

/// A text read from the clipboard's store: the units before the first NUL, decoded, with
/// unpaired surrogates replaced. The stored form of a text without NUL reads back as that
/// same text.
pub fn text_from_wide(units: &[u16]) -> (r: String)
    ensures
        r@ == utf16_lossy(before_nul(units@)),
        forall|s: Seq<char>|
            !s.contains('\0') && units@ == #[trigger] utf16_of(s).push(0u16) ==> r@ == s,
{
    let n = units_before_nul(units);
    let mut prefix: Vec<u16> = Vec::new();
    let mut i: usize = 0;
    while i < n
        invariant
            n <= units@.len(),
            i <= n,
            prefix@ == units@.take(i as int),
        decreases n - i,
    {
        prefix.push(units[i]);
        i = i + 1;
        proof {
            assert(prefix@ == units@.take(i as int));
        }
    }
    let r = string_from_utf16_lossy(prefix.as_slice());
    proof {
        assert forall|s: Seq<char>|
            !s.contains('\0') && units@ == #[trigger] utf16_of(s).push(0u16) implies r@ == s by {
            lemma_utf16_no_nul(s);
            assert(before_nul(units@) == utf16_of(s)) by {
                units@.index_of_first_ensures(0u16);
                let k = utf16_of(s).len() as int;
                assert(units@[k] == 0u16);
                assert(units@.contains(0u16));
                assert(units@.take(k) == utf16_of(s));
            }
            lemma_utf16_injective(r@, s);
        }
    }
    r
}

/// The encoding of a text without NUL holds no NUL unit.
pub proof fn lemma_utf16_no_nul(s: Seq<char>)
    requires
        !s.contains('\0'),
    ensures
        forall|j: int| 0 <= j < utf16_of(s).len() ==> utf16_of(s)[j] != 0u16,
    decreases s.len(),
{
    if s.len() > 0 {
        assert(!s.drop_last().contains('\0')) by {
            if s.drop_last().contains('\0') {
                let j = choose|j: int| 0 <= j < s.drop_last().len() && s.drop_last()[j] == '\0';
                assert(s[j] == '\0');
            }
        }
        lemma_utf16_no_nul(s.drop_last());
        assert(s.last() != '\0') by {
            assert(s[s.len() - 1] == s.last());
        }
        lemma_char_units(s.last());
        assert(s.last() as int != 0);
        let u = char_units(s.last());
        let p = utf16_of(s.drop_last());
        assert(utf16_of(s) == p + u);
        assert forall|j: int| 0 <= j < utf16_of(s).len() implies utf16_of(s)[j] != 0u16 by {
            if j >= p.len() {
                assert(utf16_of(s)[j] == u[j - p.len()]);
            } else {
                assert(utf16_of(s)[j] == p[j]);
            }
        }
    }
}

/// The monitor-info flag of the primary monitor.
pub const MONITORINFOF_PRIMARY: u32 = 1;

/// A signed difference as an unsigned 32-bit word (two's complement).
pub open spec fn as_word(d: int) -> int {
    if d >= 0 { d } else { d + 0x1_0000_0000 }
}

/// The description of the monitor enumerated at `position` (counted from zero): numbered
/// from one, sized by its rectangle, placed at its top-left corner, at scale 1.0, and
/// primary when its flags say so.
pub fn monitor_display(
    position: usize,
    left: i32,
    top: i32,
    right: i32,
    bottom: i32,
    flags: u32,
    name: String,
) -> (r: DisplayInfo)
    requires
        (position as nat) % 0x1_0000_0000 < u32::MAX,
        i32::MIN <= right - left <= i32::MAX,
        i32::MIN <= bottom - top <= i32::MAX,
    ensures
        r.id == (position as nat) % 0x1_0000_0000 + 1,
        r.name@ == name@,
        r.width == as_word(right - left),
        r.height == as_word(bottom - top),
        r.scale_factor == SCALE_ONE_BITS,
        r.is_primary == (flags & MONITORINFOF_PRIMARY != 0),
        r.x == left,
        r.y == top,
{
    let index = position as u32;
    let wide = position as u64;
    assert(index == wide % 0x1_0000_0000u64) by (bit_vector)
        requires
            index == position as u32,
            wide == position as u64,
    ;
    let dx: i32 = right - left;
    let dy: i32 = bottom - top;
    let width = dx as u32;
    let height = dy as u32;
    assert(width == if dx >= 0 { dx as int } else { dx + 0x1_0000_0000 }) by (bit_vector)
        requires
            width == dx as u32,
    ;
    assert(height == if dy >= 0 { dy as int } else { dy + 0x1_0000_0000 }) by (bit_vector)
        requires
            height == dy as u32,
    ;
    DisplayInfo {
        id: index + 1,
        name,
        width,
        height,
        scale_factor: SCALE_ONE_BITS,
        is_primary: (flags & MONITORINFOF_PRIMARY) != 0,
        x: left,
        y: top,
    }
}

/// The enumerated monitors, or the generic display alone where none was enumerated.
pub fn monitors_or_generic(displays: Vec<DisplayInfo>) -> (r: Vec<DisplayInfo>)
    ensures
        displays@.len() > 0 ==> r@ == displays@,
        displays@.len() == 0 ==> r@.len() == 1 && is_fallback_display(r@[0], 1, "Generic Display"@),
{
    let mut displays = displays;
    if displays.len() == 0 {
        displays.push(fallback_display(1, String::from_str("Generic Display")));
    }
    displays
}

} // verus!
