use global_hotkey::hotkey::Modifiers;
use kwick::hotkey::{
    expected_modifiers, modifier_key_bit, normalized_modifiers, poll_hotkey, polled_modifiers, HookState,
    HotkeyInput, MOD_ALT, MOD_CONTROL, MOD_SHIFT, MOD_SUPER, WM_KEYDOWN, WM_KEYUP, WM_SYSKEYDOWN,
};
use kwick::registration::{parse_hotkey_spec, settle_hotkey, HotkeyOutcome};

const VK_MENU: u32 = 0x12;
const VK_SPACE: u32 = 0x20;

#[test]
fn tracks_left_and_right_modifier_keys_independently() {
    assert_eq!(modifier_key_bit(0xA0), Some(1 << 1));
    assert_eq!(modifier_key_bit(0xA1), Some(1 << 2));
    assert_eq!(modifier_key_bit(0xA2), Some(1 << 4));
    assert_eq!(modifier_key_bit(0xA3), Some(1 << 5));
    assert_eq!(modifier_key_bit(0xA4), Some(1 << 7));
    assert_eq!(modifier_key_bit(0xA5), Some(1 << 8));
    assert_eq!(normalized_modifiers((1 << 1) | (1 << 2)), MOD_SHIFT);
}

#[test]
fn translates_configured_modifiers_to_hook_state() {
    let modifiers = Modifiers::ALT | Modifiers::SHIFT | Modifiers::SUPER;
    assert_eq!(
        expected_modifiers(modifiers.bits()),
        MOD_ALT | MOD_SHIFT | MOD_SUPER
    );
}

#[test]
fn detects_alt_space_and_keeps_registered_fallback_available() {
    let hotkey = parse_hotkey_spec("alt+space").unwrap();
    let mut input = HotkeyInput::new(Some(hotkey));

    assert!(!input.state.on_keyboard_event(WM_SYSKEYDOWN, VK_MENU, false));
    assert!(input.state.on_keyboard_event(WM_KEYDOWN, VK_SPACE, true));

    assert!(input.on_registered_event(hotkey.id));
    assert!(!input.on_registered_event(hotkey.id.wrapping_add(1)));

    // Auto-repeat in the hook must not continually steal focus.
    assert!(!input.state.on_keyboard_event(WM_KEYDOWN, VK_SPACE, true));

    assert!(!input.state.on_keyboard_event(WM_KEYUP, VK_SPACE, false));
    assert!(!input.state.on_keyboard_event(WM_KEYUP, VK_MENU, false));
    assert!(!input.state.on_keyboard_event(WM_KEYDOWN, VK_SPACE, false));

    // Releasing Space rearms the next physical shortcut immediately.
    assert!(!input.state.on_keyboard_event(WM_KEYUP, VK_SPACE, false));
    assert!(input.state.on_keyboard_event(WM_SYSKEYDOWN, VK_SPACE, true));

    // Settings changes must disable the previous registered binding.
    let replacement = parse_hotkey_spec("ctrl+space").unwrap();
    input.set_hotkey(Some(replacement));
    assert!(!input.on_registered_event(hotkey.id));
    assert!(input.on_registered_event(replacement.id));
    input.set_hotkey(None);
    assert!(!input.on_registered_event(replacement.id));
}

#[test]
fn generic_modifier_keys_and_windows_keys_are_tracked() {
    assert_eq!(modifier_key_bit(0x10), Some(1 << 0));
    assert_eq!(modifier_key_bit(0x11), Some(1 << 3));
    assert_eq!(modifier_key_bit(0x12), Some(1 << 6));
    assert_eq!(modifier_key_bit(0x5B), Some(1 << 9));
    assert_eq!(modifier_key_bit(0x5C), Some(1 << 10));
    assert_eq!(modifier_key_bit(0x41), None);
    assert_eq!(modifier_key_bit(VK_SPACE), None);
    assert_eq!(normalized_modifiers(1 << 10), MOD_SUPER);
    assert_eq!(normalized_modifiers((1 << 4) | (1 << 8)), MOD_CONTROL | MOD_ALT);
    assert_eq!(normalized_modifiers(0), 0);
}

#[test]
fn control_and_meta_bits_map_to_control_and_windows() {
    assert_eq!(expected_modifiers(Modifiers::CONTROL.bits()), MOD_CONTROL);
    assert_eq!(expected_modifiers(Modifiers::META.bits()), MOD_SUPER);
    assert_eq!(expected_modifiers(0), 0);
}

#[test]
fn polled_key_states_become_a_modifier_set() {
    assert_eq!(polled_modifiers(false, false, false, false, false), 0);
    assert_eq!(polled_modifiers(true, false, true, false, false), MOD_SHIFT | MOD_ALT);
    assert_eq!(polled_modifiers(false, true, false, false, true), MOD_CONTROL | MOD_SUPER);
}

#[test]
fn left_and_right_shift_release_independently() {
    let hotkey = parse_hotkey_spec("shift+space").unwrap();
    let mut state = HookState::new(Some(hotkey));
    assert!(!state.on_keyboard_event(WM_KEYDOWN, 0xA0, false));
    assert!(!state.on_keyboard_event(WM_KEYDOWN, 0xA1, false));
    // Releasing the left key leaves the right one held.
    assert!(!state.on_keyboard_event(WM_KEYUP, 0xA0, false));
    assert!(state.on_keyboard_event(WM_KEYDOWN, VK_SPACE, false));
    assert!(!state.on_keyboard_event(WM_KEYUP, VK_SPACE, false));
    assert!(!state.on_keyboard_event(WM_KEYUP, 0xA1, false));
    assert!(!state.on_keyboard_event(WM_KEYDOWN, VK_SPACE, false));
    assert_eq!(state.held_modifier_keys, 0);
}

#[test]
fn other_keys_and_messages_leave_the_state_alone() {
    let hotkey = parse_hotkey_spec("alt+space").unwrap();
    let mut state = HookState::new(Some(hotkey));
    let before = state;
    assert!(!state.on_keyboard_event(WM_KEYDOWN, 0x41, true));
    assert!(!state.on_keyboard_event(0x200, VK_SPACE, true));
    assert_eq!(state.held_modifier_keys, before.held_modifier_keys);
    assert_eq!(state.space_down, before.space_down);
    // A hotkey whose key is not Space never fires from the hook.
    let other = parse_hotkey_spec("alt+k").unwrap();
    let mut state = HookState::new(Some(other));
    assert!(!other.key_is_space);
    assert!(!state.on_keyboard_event(WM_SYSKEYDOWN, VK_SPACE, true));
    let mut none = HookState::new(None);
    assert!(!none.on_keyboard_event(WM_SYSKEYDOWN, VK_SPACE, true));
}

#[test]
fn unparsable_hotkey_text_gives_none() {
    assert!(parse_hotkey_spec("not a hotkey").is_none());
    let spec = parse_hotkey_spec("alt+space").unwrap();
    assert!(spec.key_is_space);
    assert_eq!(spec.mods, Modifiers::ALT.bits());
}

#[test]
fn polling_requests_show_once_per_press() {
    let hotkey = parse_hotkey_spec("alt+space");
    assert_eq!(poll_hotkey(hotkey, true, MOD_ALT, false), (true, true));
    assert_eq!(poll_hotkey(hotkey, true, MOD_ALT, true), (false, true));
    assert_eq!(poll_hotkey(hotkey, false, MOD_ALT, true), (false, false));
    assert_eq!(poll_hotkey(hotkey, true, MOD_ALT | MOD_SHIFT, false), (false, false));
    assert_eq!(poll_hotkey(None, true, MOD_ALT, false), (false, false));
}

#[test]
fn first_registered_candidate_is_kept_with_its_notice() {
    assert_eq!(
        settle_hotkey("alt+space", &[HotkeyOutcome::Registered]),
        (Some("alt+space".to_string()), None)
    );
    assert_eq!(
        settle_hotkey(
            "alt+space",
            &[
                HotkeyOutcome::Taken("busy".to_string()),
                HotkeyOutcome::Taken("busy".to_string()),
                HotkeyOutcome::Registered,
            ]
        ),
        (
            Some("ctrl+shift+space".to_string()),
            Some("'alt+space' は使用できないため、ホットキーは 'ctrl+shift+space' になっています".to_string())
        )
    );
}

#[test]
fn no_registered_candidate_explains_the_configured_failure() {
    let taken = |m: &str| HotkeyOutcome::Taken(m.to_string());
    assert_eq!(
        settle_hotkey("zz", &[HotkeyOutcome::Unparsable("bad key".to_string()), taken("a"), taken("b"), taken("c")]),
        (
            None,
            Some("ホットキーを登録できませんでした: 'zz' を解釈できません: bad key。タスクトレイのアイコンから開けます".to_string())
        )
    );
    assert_eq!(
        settle_hotkey("alt+space", &[taken("busy"), taken("a"), taken("b"), taken("c")]).1,
        Some("ホットキーを登録できませんでした: 'alt+space' は他のアプリが使用中です (busy)。タスクトレイのアイコンから開けます".to_string())
    );
    assert_eq!(
        settle_hotkey("alt+space", &[]),
        (None, Some("ホットキーを登録できませんでした: 。タスクトレイのアイコンから開けます".to_string()))
    );
}
