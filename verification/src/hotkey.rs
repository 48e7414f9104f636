//! Hotkey detection from the low-level keyboard stream and from registered
//! hotkey notifications. The keyboard hook, the polling thread and the channel
//! that shows the window live with the caller; this module decides, for each
//! event, whether the launcher must be shown.
use vstd::prelude::*;

verus! {

/// Modifier set bits used by the hook: Shift.
pub const MOD_SHIFT: u32 = 1;
/// Modifier set bits used by the hook: Control.
pub const MOD_CONTROL: u32 = 2;
/// Modifier set bits used by the hook: Alt.
pub const MOD_ALT: u32 = 4;
/// Modifier set bits used by the hook: Windows key.
pub const MOD_SUPER: u32 = 8;

/// Win32 keyboard messages seen by the hook.
pub const WM_KEYDOWN: u32 = 0x100;
pub const WM_KEYUP: u32 = 0x101;
pub const WM_SYSKEYDOWN: u32 = 0x104;
pub const WM_SYSKEYUP: u32 = 0x105;

/// Virtual-key code of the space bar.
pub const VK_SPACE: u32 = 0x20;

/// Bits of keyboard-types' `Modifiers` flags (as `Modifiers::bits` returns them).
pub const KT_ALT: u32 = 0x01;
pub const KT_CONTROL: u32 = 0x08;
pub const KT_META: u32 = 0x40;
pub const KT_SHIFT: u32 = 0x200;
pub const KT_SUPER: u32 = 0x2000;

/// The bit that tracks one physical modifier key (left and right keys are
/// tracked independently), or `None` for any other virtual key.
pub open spec fn key_bit(vk: u32) -> Option<u32> {
    if vk == 0x10 {
        Some(1u32 << 0u32)
    } else if vk == 0xA0 {
        Some(1u32 << 1u32)
    } else if vk == 0xA1 {
        Some(1u32 << 2u32)
    } else if vk == 0x11 {
        Some(1u32 << 3u32)
    } else if vk == 0xA2 {
        Some(1u32 << 4u32)
    } else if vk == 0xA3 {
        Some(1u32 << 5u32)
    } else if vk == 0x12 {
        Some(1u32 << 6u32)
    } else if vk == 0xA4 {
        Some(1u32 << 7u32)
    } else if vk == 0xA5 {
        Some(1u32 << 8u32)
    } else if vk == 0x5B {
        Some(1u32 << 9u32)
    } else if vk == 0x5C {
        Some(1u32 << 10u32)
    } else {
        None
    }
}

/// The modifier set (MOD_* bits) held according to the per-key bits `held`.
pub open spec fn normalized(held: u32) -> u32 {
    (if held & 0b111u32 != 0 { MOD_SHIFT } else { 0u32 }) | (if held & 0b111000u32 != 0 {
        MOD_CONTROL
    } else {
        0u32
    }) | (if held & 0b111000000u32 != 0 { MOD_ALT } else { 0u32 }) | (if held & 0b11000000000u32
        != 0 {
        MOD_SUPER
    } else {
        0u32
    })
}

/// The modifier set (MOD_* bits) that a hotkey with keyboard-types modifier
/// bits `mods` requires.
pub open spec fn expected(mods: u32) -> u32 {
    (if mods & KT_SHIFT != 0 { MOD_SHIFT } else { 0u32 }) | (if mods & KT_CONTROL != 0 {
        MOD_CONTROL
    } else {
        0u32
    }) | (if mods & KT_ALT != 0 { MOD_ALT } else { 0u32 }) | (if mods & (KT_SUPER | KT_META) != 0 {
        MOD_SUPER
    } else {
        0u32
    })
}

/// The bit tracking physical modifier key `vk`, if it is one.
pub fn modifier_key_bit(vk: u32) -> (r: Option<u32>)
    ensures
        r == key_bit(vk),
{
    match vk {
        0x10 => Some(1 << 0),
        0xA0 => Some(1 << 1),
        0xA1 => Some(1 << 2),
        0x11 => Some(1 << 3),
        0xA2 => Some(1 << 4),
        0xA3 => Some(1 << 5),
        0x12 => Some(1 << 6),
        0xA4 => Some(1 << 7),
        0xA5 => Some(1 << 8),
        0x5B => Some(1 << 9),
        0x5C => Some(1 << 10),
        _ => None,
    }
}

/// Collapses left/right/generic modifier keys into one MOD_* bit each.
pub fn normalized_modifiers(held: u32) -> (r: u32)
    ensures
        r == normalized(held),
{
    let shift = if held & 0b111 != 0 { MOD_SHIFT } else { 0 };
    let control = if held & 0b111000 != 0 { MOD_CONTROL } else { 0 };
    let alt = if held & 0b111000000 != 0 { MOD_ALT } else { 0 };
    let win = if held & 0b11000000000 != 0 { MOD_SUPER } else { 0 };
    shift | control | alt | win
}

/// The MOD_* set a hotkey with keyboard-types modifier bits `mods` expects.
pub fn expected_modifiers(mods: u32) -> (r: u32)
    ensures
        r == expected(mods),
{
    let shift = if mods & KT_SHIFT != 0 { MOD_SHIFT } else { 0 };
    let control = if mods & KT_CONTROL != 0 { MOD_CONTROL } else { 0 };
    let alt = if mods & KT_ALT != 0 { MOD_ALT } else { 0 };
    let win = if mods & (KT_SUPER | KT_META) != 0 { MOD_SUPER } else { 0 };
    shift | control | alt | win
}

/// What the hook needs to know of a parsed hotkey.
#[derive(Clone, Copy, PartialEq, Eq, Debug)]
pub struct HotKeySpec {
    /// global-hotkey's id of the hotkey (what registered-hotkey events carry).
    pub id: u32,
    /// keyboard-types modifier bits of the hotkey.
    pub mods: u32,
    /// The main key is the space bar.
    pub key_is_space: bool,
}

/// Keys the polling thread samples, in the order `polled_modifiers` takes
/// their states: Shift, Control, Alt, left Windows, right Windows.
pub const POLLED_KEYS: [i32; 5] = [0x10, 0x11, 0x12, 0x5B, 0x5C];

/// The MOD_* set from sampled key states.
pub open spec fn polled(shift: bool, control: bool, alt: bool, left_win: bool, right_win: bool) -> u32 {
    (if shift { MOD_SHIFT } else { 0u32 }) | (if control { MOD_CONTROL } else { 0u32 }) | (if alt {
        MOD_ALT
    } else {
        0u32
    }) | (if left_win || right_win { MOD_SUPER } else { 0u32 })
}

/// The modifier set from the sampled states of the keys in `POLLED_KEYS`.
pub fn polled_modifiers(shift: bool, control: bool, alt: bool, left_win: bool, right_win: bool) -> (r: u32)
    ensures
        r == polled(shift, control, alt, left_win, right_win),
{
    let s = if shift { MOD_SHIFT } else { 0 };
    let c = if control { MOD_CONTROL } else { 0 };
    let a = if alt { MOD_ALT } else { 0 };
    let w = if left_win || right_win { MOD_SUPER } else { 0 };
    s | c | a | w
}

/// The polling thread sees the hotkey held: its main key is Space, Space is
/// down, and exactly its modifiers are down (`mods`, from `polled_modifiers`).
pub open spec fn poll_held(hotkey: Option<HotKeySpec>, space_down: bool, mods: u32) -> bool {
    hotkey matches Some(h) && h.key_is_space && space_down && expected(h.mods) == mods
}

/// A sample asks for the launcher when the hotkey is held now but was not held
/// at the previous sample (`was_held`).
pub open spec fn poll_request(hotkey: Option<HotKeySpec>, space_down: bool, mods: u32, was_held: bool) -> bool {
    poll_held(hotkey, space_down, mods) && !was_held
}

/// One sample of the polling thread, which only inspects key state and never
/// synthesizes input: returns (whether to request show, whether the hotkey is
/// held now); the second is passed back as `was_held` with the next sample.
pub fn poll_hotkey(hotkey: Option<HotKeySpec>, space_down: bool, mods: u32, was_held: bool) -> (r: (bool, bool))
    ensures
        r.0 == poll_request(hotkey, space_down, mods, was_held),
        r.1 == poll_held(hotkey, space_down, mods),
{
    let held = match hotkey {
        Some(h) => h.key_is_space && space_down && expected_modifiers(h.mods) == mods,
        None => false,
    };
    (held && !was_held, held)
}

/// Holding the hotkey over successive samples requests show once: the sample
/// after one that saw the same keys held requests nothing, while a sample
/// after one that did not see them held requests show exactly when they are.
pub proof fn law_poll_requests_once(hotkey: Option<HotKeySpec>, space_down: bool, mods: u32)
    ensures
        !poll_request(hotkey, space_down, mods, poll_held(hotkey, space_down, mods)),
        poll_request(hotkey, space_down, mods, false) == poll_held(hotkey, space_down, mods),
{
}

/// State of the low-level keyboard hook.
#[derive(Clone, Copy)]
pub struct HookState {
    pub hotkey: Option<HotKeySpec>,
    /// One bit per physical modifier key currently held (see `key_bit`).
    pub held_modifier_keys: u32,
    /// The space bar is down (auto-repeat events are ignored until it is released).
    pub space_down: bool,
}

pub open spec fn is_key_down(message: u32) -> bool {
    message == WM_KEYDOWN || message == WM_SYSKEYDOWN
}

pub open spec fn is_key_up(message: u32) -> bool {
    message == WM_KEYUP || message == WM_SYSKEYUP
}

/// The modifier set with Alt forced to what the event's ALTDOWN flag says.
pub open spec fn with_alt(mods: u32, alt_down: bool) -> u32 {
    if alt_down {
        mods | MOD_ALT
    } else {
        mods & !MOD_ALT
    }
}

/// Whether a keyboard event shows the launcher: a fresh (not auto-repeated)
/// press of the space bar while exactly the hotkey's modifiers are held, the
/// hotkey's main key being Space.
pub open spec fn hook_triggers(s: HookState, message: u32, vk: u32, alt_down: bool) -> bool {
    &&& is_key_down(message)
    &&& key_bit(vk) is None
    &&& vk == VK_SPACE
    &&& !s.space_down
    &&& s.hotkey matches Some(h)
    &&& h.key_is_space
    &&& expected(h.mods) == with_alt(normalized(s.held_modifier_keys), alt_down)
}

/// The hook state after a keyboard event.
pub open spec fn hook_next(s: HookState, message: u32, vk: u32, alt_down: bool) -> HookState {
    if !is_key_down(message) && !is_key_up(message) {
        s
    } else if key_bit(vk) is Some {
        let bit = key_bit(vk)->0;
        HookState {
            hotkey: s.hotkey,
            held_modifier_keys: if is_key_down(message) {
                s.held_modifier_keys | bit
            } else {
                s.held_modifier_keys & !bit
            },
            space_down: s.space_down,
        }
    } else if vk != VK_SPACE {
        s
    } else {
        HookState {
            hotkey: s.hotkey,
            held_modifier_keys: s.held_modifier_keys,
            space_down: is_key_down(message),
        }
    }
}

impl HookState {
    /// Nothing held, watching for `hotkey`.
    pub fn new(hotkey: Option<HotKeySpec>) -> (r: Self)
        ensures
            r == (HookState { hotkey, held_modifier_keys: 0, space_down: false }),
    {
        HookState { hotkey, held_modifier_keys: 0, space_down: false }
    }

    /// Handles one event of the low-level keyboard hook (`message`, the
    /// event's virtual key `vk`, and its LLKHF_ALTDOWN flag); returns whether
    /// the launcher must be shown.
    pub fn on_keyboard_event(&mut self, message: u32, vk: u32, alt_down: bool) -> (r: bool)
        ensures
            r == hook_triggers(*old(self), message, vk, alt_down),
            *final(self) == hook_next(*old(self), message, vk, alt_down),
    {
        let down = message == WM_KEYDOWN || message == WM_SYSKEYDOWN;
        let up = message == WM_KEYUP || message == WM_SYSKEYUP;
        if !down && !up {
            return false;
        }
        if let Some(bit) = modifier_key_bit(vk) {
            if down {
                self.held_modifier_keys = self.held_modifier_keys | bit;
            } else {
                self.held_modifier_keys = self.held_modifier_keys & !bit;
            }
            return false;
        }
        if vk != VK_SPACE {
            return false;
        }
        if up {
            self.space_down = false;
            return false;
        }
        // WM_SYSKEY* carries the current Alt state explicitly.
        let held = normalized_modifiers(self.held_modifier_keys);
        let modifiers = if alt_down { held | MOD_ALT } else { held & !MOD_ALT };
        let was_down = self.space_down;
        self.space_down = true;
        if was_down {
            return false; // ignore keyboard auto-repeat
        }
        match self.hotkey {
            None => false,
            Some(h) => h.key_is_space && expected_modifiers(h.mods) == modifiers,
        }
    }
}

/// Whether a registered-hotkey notification with `id` is for the active hotkey.
pub open spec fn registered_matches(s: HookState, id: u32) -> bool {
    s.hotkey matches Some(h) && h.id == id
}

/// Hotkey input: the keyboard hook's state plus the active hotkey that
/// registered-hotkey notifications are checked against.
pub struct HotkeyInput {
    pub state: HookState,
}

impl HotkeyInput {
    pub fn new(hotkey: Option<HotKeySpec>) -> (r: Self)
        ensures
            r.state == (HookState { hotkey, held_modifier_keys: 0, space_down: false }),
    {
        HotkeyInput { state: HookState::new(hotkey) }
    }

    /// Replaces the active hotkey and forgets the keys held so far.
    pub fn set_hotkey(&mut self, hotkey: Option<HotKeySpec>)
        ensures
            final(self).state == (HookState { hotkey, held_modifier_keys: 0, space_down: false }),
    {
        self.state.hotkey = hotkey;
        self.state.held_modifier_keys = 0;
        self.state.space_down = false;
    }

    /// Every source requests show, so even delayed or reordered duplicate
    /// notifications cannot close the launcher; returns whether the
    /// notification is for the active hotkey.
    pub fn on_registered_event(&self, id: u32) -> (r: bool)
        ensures
            r == registered_matches(self.state, id),
    {
        match self.state.hotkey {
            Some(h) => h.id == id,
            None => false,
        }
    }
}

/// Keyboard auto-repeat never shows the launcher again: once Space went down,
/// a further Space key-down (without a key-up in between) does not trigger.
pub proof fn law_auto_repeat_does_not_retrigger(
    s: HookState,
    first: u32,
    second: u32,
    alt1: bool,
    alt2: bool,
)
    requires
        is_key_down(first),
        is_key_down(second),
    ensures
        !hook_triggers(hook_next(s, first, VK_SPACE, alt1), second, VK_SPACE, alt2),
        hook_next(s, first, VK_SPACE, alt1).space_down,
{
}

/// Releasing Space rearms the next physical shortcut immediately: after a
/// Space key-up, a Space key-down triggers exactly when the hotkey is Space
/// with the modifiers then held.
pub proof fn law_space_release_rearms(s: HookState, up: u32, down: u32, alt1: bool, alt2: bool)
    requires
        is_key_up(up),
        is_key_down(down),
    ensures
        hook_triggers(hook_next(s, up, VK_SPACE, alt1), down, VK_SPACE, alt2) == (s.hotkey matches Some(
            h,
        ) && h.key_is_space && expected(h.mods) == with_alt(normalized(s.held_modifier_keys), alt2)),
{
}

/// Pressing and releasing a modifier key that was not held leaves the held
/// modifier keys as they were.
pub proof fn law_modifier_press_release_restores(s: HookState, vk: u32, down: u32, up: u32, a1: bool, a2: bool)
    requires
        key_bit(vk) is Some,
        s.held_modifier_keys & key_bit(vk)->0 == 0,
        is_key_down(down),
        is_key_up(up),
    ensures
        hook_next(hook_next(s, down, vk, a1), up, vk, a2) == s,
{
    let b = key_bit(vk)->0;
    let h = s.held_modifier_keys;
    assert((h | b) & !b == h) by (bit_vector)
        requires
            h & b == 0;
}

/// Left and right modifier keys are tracked independently: releasing one
/// Shift key while the other is still held keeps Shift in the modifier set.
pub proof fn law_left_right_independent(held: u32)
    requires
        held & (1u32 << 1u32) != 0,
        held & (1u32 << 2u32) != 0,
    ensures
        normalized(held & !(1u32 << 1u32)) & MOD_SHIFT != 0,
        normalized(held & !(1u32 << 2u32)) & MOD_SHIFT != 0,
{
    assert((held & !(1u32 << 1u32)) & 0b111u32 != 0) by (bit_vector)
        requires
            held & (1u32 << 2u32) != 0;
    assert((held & !(1u32 << 2u32)) & 0b111u32 != 0) by (bit_vector)
        requires
            held & (1u32 << 1u32) != 0;
    let x = held & !(1u32 << 1u32);
    let y = held & !(1u32 << 2u32);
    lemma_shift_bit_in_normalized(x);
    lemma_shift_bit_in_normalized(y);
}

proof fn lemma_shift_bit_in_normalized(h: u32)
    requires
        h & 0b111u32 != 0,
    ensures
        normalized(h) & MOD_SHIFT != 0,
{
    let c: u32 = if h & 0b111000u32 != 0 { 2u32 } else { 0u32 };
    let a: u32 = if h & 0b111000000u32 != 0 { 4u32 } else { 0u32 };
    let w: u32 = if h & 0b11000000000u32 != 0 { 8u32 } else { 0u32 };
    assert((1u32 | c | a | w) & 1u32 != 0) by (bit_vector);
}

/// A settings change disables the previous registered binding: after
/// `set_hotkey(k)`, a notification matches exactly when `k` is set and the
/// notification carries its id.
pub proof fn law_set_hotkey_replaces_binding(s: HookState, k: Option<HotKeySpec>, id: u32)
    ensures
        registered_matches(HookState { hotkey: k, held_modifier_keys: 0, space_down: false }, id)
            == (k matches Some(h) && h.id == id),
{
}

/// Every tracked physical modifier key means its modifier: Shift (generic,
/// left, right) gives Shift (1), Control gives Control (2), Alt gives Alt
/// (4), and the left and right Windows keys give Super (8).
pub proof fn law_modifier_keys_mean_their_modifier()
    ensures
        key_bit(0x10) is Some && normalized(key_bit(0x10)->0) == 1u32,
        key_bit(0xA0) is Some && normalized(key_bit(0xA0)->0) == 1u32,
        key_bit(0xA1) is Some && normalized(key_bit(0xA1)->0) == 1u32,
        key_bit(0x11) is Some && normalized(key_bit(0x11)->0) == 2u32,
        key_bit(0xA2) is Some && normalized(key_bit(0xA2)->0) == 2u32,
        key_bit(0xA3) is Some && normalized(key_bit(0xA3)->0) == 2u32,
        key_bit(0x12) is Some && normalized(key_bit(0x12)->0) == 4u32,
        key_bit(0xA4) is Some && normalized(key_bit(0xA4)->0) == 4u32,
        key_bit(0xA5) is Some && normalized(key_bit(0xA5)->0) == 4u32,
        key_bit(0x5B) is Some && normalized(key_bit(0x5B)->0) == 8u32,
        key_bit(0x5C) is Some && normalized(key_bit(0x5C)->0) == 8u32,
{
    assert(normalized(1u32 << 0u32) == 1u32) by (bit_vector);
    assert(normalized(1u32 << 1u32) == 1u32) by (bit_vector);
    assert(normalized(1u32 << 2u32) == 1u32) by (bit_vector);
    assert(normalized(1u32 << 3u32) == 2u32) by (bit_vector);
    assert(normalized(1u32 << 4u32) == 2u32) by (bit_vector);
    assert(normalized(1u32 << 5u32) == 2u32) by (bit_vector);
    assert(normalized(1u32 << 6u32) == 4u32) by (bit_vector);
    assert(normalized(1u32 << 7u32) == 4u32) by (bit_vector);
    assert(normalized(1u32 << 8u32) == 4u32) by (bit_vector);
    assert(normalized(1u32 << 9u32) == 8u32) by (bit_vector);
    assert(normalized(1u32 << 10u32) == 8u32) by (bit_vector);
}

/// The modifiers of several held keys are the modifiers of each key put
/// together.
pub proof fn law_held_keys_combine(a: u32, b: u32)
    ensures
        normalized(a | b) == normalized(a) | normalized(b),
{
    assert(normalized(a | b) == normalized(a) | normalized(b)) by (bit_vector);
}

} // verus!
