use vstd::prelude::*;

verus! {

/// Hook code below which a low-level keyboard hook must hand the message on
/// to the next hook without processing it.
pub const HC_ACTION: i32 = 0;

/// Window message of a key being pressed.
pub const WM_KEYDOWN: usize = 0x0100;

/// The virtual key codes that act as hotkeys: the digits 1 to 4 on the main
/// row and on the numeric pad, and the numeric pad's plus and minus keys.
pub open spec fn is_hotkey(code: u32) -> bool {
    ||| 49 <= code <= 52
    ||| 97 <= code <= 100
    ||| code == 107
    ||| code == 109
}

/// Whether a virtual key code is one of the hotkeys (assuming a Nordic
/// QWERTY layout).
pub fn from_virtual_key_code(code: u32) -> (hot: bool)
    ensures
        hot == is_hotkey(code),
        hot == (code == 49 || code == 50 || code == 51 || code == 52 || code == 97 || code == 98
            || code == 99 || code == 100 || code == 107 || code == 109),
{
    match code {
        49..=52 => true,
        97..=100 => true,
        107 => true,
        109 => true,
        _ => false,
    }
}

/// What the keyboard hook does with one message.
#[derive(Clone, Copy, Debug, PartialEq, Eq, Structural)]
pub enum HookAction {
    /// The hook may not process the message: hand it to the next hook.
    PassToNextHook,
    /// A hotkey was pressed while not paused: bring the selected program forward.
    BringSelectedForward,
    /// Nothing to do; the message is reported as handled with result 0.
    Ignore,
}

/// The hook's decision for a message with hook code `code`, message `wparam`,
/// pressed key `vk_code`, while the tray is `paused` or not.
pub open spec fn hook_decision(code: i32, wparam: usize, paused: bool, vk_code: u32) -> HookAction {
    if code < HC_ACTION {
        HookAction::PassToNextHook
    } else if wparam == WM_KEYDOWN && !paused && is_hotkey(vk_code) {
        HookAction::BringSelectedForward
    } else {
        HookAction::Ignore
    }
}

/// Decides what the low-level keyboard hook does with one message.
pub fn hook_action(code: i32, wparam: usize, paused: bool, vk_code: u32) -> (action: HookAction)
    ensures
        action == hook_decision(code, wparam, paused, vk_code),
        code < 0 ==> action == HookAction::PassToNextHook,
        code >= 0 && wparam == 0x0100 && !paused && (vk_code == 49 || vk_code == 50 || vk_code == 51
            || vk_code == 52 || vk_code == 97 || vk_code == 98 || vk_code == 99 || vk_code == 100
            || vk_code == 107 || vk_code == 109) ==> action == HookAction::BringSelectedForward,
        action == HookAction::BringSelectedForward ==> code >= 0 && wparam == 0x0100 && !paused && (
        vk_code == 49 || vk_code == 50 || vk_code == 51 || vk_code == 52 || vk_code == 97
            || vk_code == 98 || vk_code == 99 || vk_code == 100 || vk_code == 107 || vk_code == 109),
{
    if code < HC_ACTION {
        return HookAction::PassToNextHook;
    }
    if wparam == WM_KEYDOWN && !paused && from_virtual_key_code(vk_code) {
        HookAction::BringSelectedForward
    } else {
        HookAction::Ignore
    }
}

/// While paused, no message ever brings the selected program forward.
pub proof fn lemma_paused_hook_never_brings_forward(code: i32, wparam: usize, vk_code: u32)
    ensures
        hook_decision(code, wparam, true, vk_code) != HookAction::BringSelectedForward,
{
}

/// The hotkeys are exactly the digits 1 to 4 on the main row (virtual key
/// codes 49 to 52) and on the numeric pad (97 to 100), and the numeric pad's
/// plus (107) and minus (109); no other key, such as Enter (13), is one.
pub proof fn lemma_hotkeys_are_exactly(code: u32)
    ensures
        is_hotkey(code) <==> (code == 49 || code == 50 || code == 51 || code == 52 || code == 97
            || code == 98 || code == 99 || code == 100 || code == 107 || code == 109),
{
}

/// The hook is complete: every press of a hotkey, at a hook code the hook may
/// process and while not paused, brings the selected program forward.
pub proof fn lemma_every_hotkey_press_brings_forward(code: i32, vk_code: u32)
    requires
        code >= 0,
        vk_code == 49 || vk_code == 50 || vk_code == 51 || vk_code == 52 || vk_code == 97
            || vk_code == 98 || vk_code == 99 || vk_code == 100 || vk_code == 107 || vk_code == 109,
    ensures
        hook_decision(code, 0x0100, false, vk_code) == HookAction::BringSelectedForward,
{
}

/// Only key presses of hotkeys bring the selected program forward.
pub proof fn lemma_only_hotkey_presses_bring_forward(code: i32, wparam: usize, paused: bool, vk_code: u32)
    requires
        hook_decision(code, wparam, paused, vk_code) == HookAction::BringSelectedForward,
    ensures
        code >= HC_ACTION,
        wparam == WM_KEYDOWN,
        is_hotkey(vk_code),
{
}

} // verus!
