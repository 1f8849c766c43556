//! The decisions of the low-level keyboard hook: which key it intercepts,
//! which keystrokes it swallows, and when it wakes the recorder.

use vstd::prelude::*;
use crate::text::{same_text, trim, trimmed};

verus! {

/// Win32 virtual key code of Caps Lock (`VK_CAPITAL`).
pub const VK_CAPITAL: u32 = 0x14;

/// Win32 hook code for a keystroke the hook must act on (`HC_ACTION`).
pub const HC_ACTION: i32 = 0;

/// Win32 message of a key press (`WM_KEYDOWN`).
pub const WM_KEYDOWN: u32 = 0x0100;

/// Win32 message of a key press while Alt is held (`WM_SYSKEYDOWN`).
pub const WM_SYSKEYDOWN: u32 = 0x0104;

/// The state that the installed hook consults on every keystroke.
#[derive(Debug, Clone, Copy, PartialEq, Eq, Structural)]
pub struct HookState {
    /// The virtual key to intercept, or `None` to let everything through.
    pub target_vk: Option<u32>,
}

/// Installs the hook state once: the first call creates it with no target
/// and returns `true` (the caller then starts the hook thread); later calls
/// change nothing and return `false`.
pub fn install(hook: &mut Option<HookState>) -> (installed_now: bool)
    ensures
        installed_now == (*old(hook) is None),
        installed_now ==> *final(hook) == Some(HookState { target_vk: None }),
        !installed_now ==> *final(hook) == *old(hook),
{
    if hook.is_some() {
        return false;
    }
    *hook = Some(HookState { target_vk: None });
    true
}

/// Switches the hook to intercept `vk`, or nothing for `None`. Before the
/// hook is installed this does nothing.
pub fn set_target_vk(hook: &mut Option<HookState>, vk: Option<u32>)
    ensures
        *old(hook) is Some ==> *final(hook) == Some(HookState { target_vk: vk }),
        *old(hook) is None ==> *final(hook) is None,
{
    if hook.is_some() {
        *hook = Some(HookState { target_vk: vk });
    }
}

/// What the hook does with one keystroke.
#[derive(Debug, Clone, Copy, PartialEq, Eq, Structural)]
pub enum KeyVerdict {
    /// Hand the keystroke on to the next hook.
    PassThrough,
    /// Consume the keystroke; `notify` says whether the recorder is woken.
    Swallow { notify: bool },
}

/// The verdict on a keystroke with hook code `code`, virtual key `vk_code`
/// and window message `msg`.
pub open spec fn spec_key_verdict(hook: Option<HookState>, code: i32, vk_code: u32, msg: u32) -> KeyVerdict {
    if code == HC_ACTION && hook is Some && hook->0.target_vk == Some(vk_code) {
        KeyVerdict::Swallow { notify: msg == WM_KEYDOWN || msg == WM_SYSKEYDOWN }
    } else {
        KeyVerdict::PassThrough
    }
}

/// Decides a keystroke: the target key is swallowed on press and on release
/// so the system never toggles it, and a press (plain or with Alt) wakes the
/// recorder; every other keystroke passes through.
pub fn keyboard_verdict(hook: &Option<HookState>, code: i32, vk_code: u32, msg: u32) -> (res: KeyVerdict)
    ensures
        res == spec_key_verdict(*hook, code, vk_code, msg),
{
    if code == HC_ACTION {
        if let Some(st) = hook {
            if let Some(vk) = st.target_vk {
                if vk_code == vk {
                    return KeyVerdict::Swallow { notify: msg == WM_KEYDOWN || msg == WM_SYSKEYDOWN };
                }
            }
        }
    }
    KeyVerdict::PassThrough
}

/// The virtual key that a hotkey spec is intercepted by: Caps Lock (written
/// `CapsLock` or `Capital`, surrounding white space ignored) and nothing else.
pub open spec fn spec_vk_for_intercept(spec: Seq<char>) -> Option<u32> {
    if trimmed(spec) == "CapsLock"@ || trimmed(spec) == "Capital"@ {
        Some(VK_CAPITAL)
    } else {
        None
    }
}

/// Maps a hotkey spec onto the virtual key that the low-level hook should
/// intercept, or `None` when the spec goes through the global shortcut path.
pub fn vk_for_intercept(spec: &str) -> (res: Option<u32>)
    ensures
        res == spec_vk_for_intercept(spec@),
{
    let t = trim(spec);
    if same_text(t, "CapsLock") || same_text(t, "Capital") {
        Some(VK_CAPITAL)
    } else {
        None
    }
}

/// With the hook installed and targeting `vk`, pressing and releasing `vk`
/// are both swallowed, only the press (plain or with Alt) wakes the recorder,
/// and any other key passes through untouched.
pub proof fn law_hook_swallows_only_target(vk: u32, other: u32, msg: u32)
    requires
        other != vk,
    ensures
        spec_key_verdict(Some(HookState { target_vk: Some(vk) }), HC_ACTION, vk, WM_KEYDOWN)
            == (KeyVerdict::Swallow { notify: true }),
        spec_key_verdict(Some(HookState { target_vk: Some(vk) }), HC_ACTION, vk, WM_SYSKEYDOWN)
            == (KeyVerdict::Swallow { notify: true }),
        msg != WM_KEYDOWN && msg != WM_SYSKEYDOWN ==> spec_key_verdict(
            Some(HookState { target_vk: Some(vk) }),
            HC_ACTION,
            vk,
            msg,
        ) == (KeyVerdict::Swallow { notify: false }),
        spec_key_verdict(Some(HookState { target_vk: Some(vk) }), HC_ACTION, other, msg)
            == KeyVerdict::PassThrough,
{
}

/// Without a target, or before installation, every keystroke passes through.
pub proof fn law_no_target_passes_everything(hook: Option<HookState>, code: i32, vk_code: u32, msg: u32)
    requires
        hook is None || hook->0.target_vk is None,
    ensures
        spec_key_verdict(hook, code, vk_code, msg) == KeyVerdict::PassThrough,
{
}

} // verus!
