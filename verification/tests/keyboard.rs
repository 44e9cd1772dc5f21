use rstop::keyboard::{from_virtual_key_code, hook_action, HookAction, HC_ACTION, WM_KEYDOWN};

#[test]
fn hotkeys_are_digits_one_to_four_and_keypad_plus_minus() {
    for code in [49u32, 50, 51, 52, 97, 98, 99, 100, 107, 109] {
        assert!(from_virtual_key_code(code), "{} should be a hotkey", code);
    }
}

#[test]
fn other_keys_are_not_hotkeys() {
    for code in [0u32, 48, 53, 96, 101, 106, 108, 110, 65, 0xFFFF_FFFF] {
        assert!(!from_virtual_key_code(code), "{} should not be a hotkey", code);
    }
}

#[test]
fn negative_hook_code_is_passed_on() {
    assert_eq!(hook_action(-1, WM_KEYDOWN, false, 49), HookAction::PassToNextHook);
    assert_eq!(hook_action(i32::MIN, 0, true, 0), HookAction::PassToNextHook);
}

#[test]
fn hotkey_press_brings_selected_forward() {
    assert_eq!(hook_action(HC_ACTION, WM_KEYDOWN, false, 51), HookAction::BringSelectedForward);
    assert_eq!(hook_action(3, 0x0100, false, 107), HookAction::BringSelectedForward);
}

#[test]
fn paused_hook_ignores_hotkeys() {
    assert_eq!(hook_action(HC_ACTION, WM_KEYDOWN, true, 51), HookAction::Ignore);
}

#[test]
fn key_release_and_other_keys_are_ignored() {
    // WM_KEYUP
    assert_eq!(hook_action(HC_ACTION, 0x0101, false, 51), HookAction::Ignore);
    assert_eq!(hook_action(HC_ACTION, WM_KEYDOWN, false, 65), HookAction::Ignore);
}
