//! The decisions of the companion input-method daemon: when the polling
//! loop resets the input method, when it forces the Chinese conversion
//! mode, and how the escape-hotkey listener turns raw key events into
//! trigger signals. The polling, timers and message posting are the
//! surrounding program's job.

use vstd::prelude::*;

use crate::keys::KeyId;

verus! {

/// What the daemon does, and with which locales and cadence.
#[derive(Debug, Clone, Copy, PartialEq, Eq, Structural)]
pub struct Config {
    /// Reset to the English input method whenever window focus changes.
    pub ime_resetting: bool,
    /// Listen for Escape and Ctrl+[ and reset to English on either.
    pub escape_switching: bool,
    /// The English locale identifier.
    pub locale_en: u32,
    /// The Chinese locale identifier.
    pub locale_zh: u16,
    /// Keep the Chinese input method in Chinese conversion mode.
    pub ensure_chinese_mode: bool,
    /// The polling interval in milliseconds.
    pub poll_interval_ms: u64,
}

/// Whether the Chinese-mode guard must switch the conversion mode now:
/// only when the guard is enabled, the foreground window uses the
/// Chinese locale, and the reported conversion mode has its Chinese
/// bit clear.
pub open spec fn spec_ensure_chinese_mode(cfg: Config, layout: Option<u16>, mode: Option<
    i64,
>) -> bool {
    &&& cfg.ensure_chinese_mode
    &&& layout == Some(cfg.locale_zh)
    &&& match mode {
        Some(m) => m & 1 == 0,
        None => false,
    }
}

/// Decides whether one poll of the Chinese-mode guard requests the
/// Chinese conversion mode, given the foreground layout and the
/// reported conversion mode.
pub fn ensure_chinese_mode_if_needed(config: &Config, layout: Option<u16>, mode: Option<i64>) -> (r:
    bool)
    ensures
        r == spec_ensure_chinese_mode(*config, layout, mode),
{
    if !config.ensure_chinese_mode {
        return false;
    }
    let zh = match layout {
        Some(l) => l == config.locale_zh,
        None => false,
    };
    if !zh {
        return false;
    }
    match mode {
        Some(m) => m & 1 == 0,
        None => false,
    }
}

/// Decides whether one poll of the focus-reset loop posts a reset to
/// the English locale: exactly when resetting is enabled and the
/// foreground window changed since the previous poll. Returns the
/// decision and the window to remember for the next poll.
pub fn reset_method_on_focus_change_if_needed(
    config: &Config,
    prev_foreground: Option<u64>,
    now_foreground: Option<u64>,
) -> (r: (bool, Option<u64>))
    ensures
        !config.ime_resetting ==> r == (false, prev_foreground),
        config.ime_resetting && now_foreground == prev_foreground ==> r == (
            false,
            prev_foreground,
        ),
        config.ime_resetting && now_foreground != prev_foreground ==> r == (true, now_foreground),
{
    if !config.ime_resetting {
        return (false, prev_foreground);
    }
    let same = match (prev_foreground, now_foreground) {
        (Some(a), Some(b)) => a == b,
        (None, None) => true,
        _ => false,
    };
    if same {
        proof {
            assert(now_foreground == prev_foreground);
        }
        (false, prev_foreground)
    } else {
        (true, now_foreground)
    }
}

/// The escape-hotkey listener's state: which of the interesting keys
/// are held, and whether the current chord already sent its signal.
#[derive(Debug, Clone, Copy, PartialEq, Eq, Structural)]
pub struct HotkeyState {
    pub ctrl_down: bool,
    pub bracket_down: bool,
    pub escape_down: bool,
    pub triggered: bool,
}

impl HotkeyState {
    /// The startup state: nothing held, nothing triggered.
    pub fn new() -> (s: Self)
        ensures
            s == HotkeyState::initial(),
    {
        HotkeyState { ctrl_down: false, bracket_down: false, escape_down: false, triggered: false }
    }

    pub open spec fn initial() -> HotkeyState {
        HotkeyState { ctrl_down: false, bracket_down: false, escape_down: false, triggered: false }
    }
}

/// Either control key.
pub open spec fn spec_is_ctrl(key: KeyId) -> bool {
    key == KeyId::ControlLeft || key == KeyId::ControlRight
}

/// The `[` key.
pub open spec fn spec_is_bracket_key(key: KeyId) -> bool {
    key == KeyId::LeftBracket
}

/// The Escape key.
pub open spec fn spec_is_escape_key(key: KeyId) -> bool {
    key == KeyId::Escape
}

/// Whether `key` is one of the control keys.
pub fn is_ctrl(key: KeyId) -> (r: bool)
    ensures
        r == spec_is_ctrl(key),
{
    key == KeyId::ControlLeft || key == KeyId::ControlRight
}

/// Whether `key` is the `[` key.
pub fn is_bracket_key(key: KeyId) -> (r: bool)
    ensures
        r == spec_is_bracket_key(key),
{
    key == KeyId::LeftBracket
}

/// Whether `key` is the Escape key.
pub fn is_escape_key(key: KeyId) -> (r: bool)
    ensures
        r == spec_is_escape_key(key),
{
    key == KeyId::Escape
}

/// The listener state after one key event, and whether the event sends
/// the reset signal. A press updates the held flags and sends exactly
/// when the chord (Escape alone, or Ctrl and `[` together) is complete
/// and has not sent yet; a release updates the flags and re-arms the
/// chord once it is no longer held.
pub open spec fn spec_hotkey_step(s: HotkeyState, key: KeyId, is_pressing: bool) -> (
    HotkeyState,
    bool,
) {
    if is_pressing {
        let held = HotkeyState {
            ctrl_down: s.ctrl_down || spec_is_ctrl(key),
            bracket_down: s.bracket_down || spec_is_bracket_key(key),
            escape_down: s.escape_down || spec_is_escape_key(key),
            triggered: s.triggered,
        };
        let should = held.escape_down || (held.ctrl_down && held.bracket_down);
        let send = should && !s.triggered;
        (
            HotkeyState {
                triggered: s.triggered || send,
                ..held
            },
            send,
        )
    } else {
        let released = HotkeyState {
            ctrl_down: s.ctrl_down && !spec_is_ctrl(key),
            bracket_down: s.bracket_down && !spec_is_bracket_key(key),
            escape_down: s.escape_down && !spec_is_escape_key(key),
            triggered: s.triggered,
        };
        let still = released.escape_down || (released.ctrl_down && released.bracket_down);
        (
            HotkeyState {
                triggered: released.triggered && still,
                ..released
            },
            false,
        )
    }
}

/// Feeds one key event to the escape-hotkey listener, returning whether
/// it sends the reset signal.
pub fn hotkey_step(state: &mut HotkeyState, key: KeyId, is_pressing: bool) -> (send: bool)
    ensures
        *final(state) == spec_hotkey_step(*old(state), key, is_pressing).0,
        send == spec_hotkey_step(*old(state), key, is_pressing).1,
{
    if is_pressing {
        if is_ctrl(key) {
            state.ctrl_down = true;
        }
        if is_bracket_key(key) {
            state.bracket_down = true;
        }
        if is_escape_key(key) {
            state.escape_down = true;
        }
        let should = state.escape_down || (state.ctrl_down && state.bracket_down);
        if should && !state.triggered {
            state.triggered = true;
            true
        } else {
            false
        }
    } else {
        if is_ctrl(key) {
            state.ctrl_down = false;
        }
        if is_bracket_key(key) {
            state.bracket_down = false;
        }
        if is_escape_key(key) {
            state.escape_down = false;
        }
        let still = state.escape_down || (state.ctrl_down && state.bracket_down);
        if !still {
            state.triggered = false;
        }
        false
    }
}

} // verus!
