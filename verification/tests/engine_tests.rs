//! Tests of the key-event state machine, the input-method toggle, the
//! launch decision, and the daemon decisions.

use fncaps::config::default_hotkey_config;
use fncaps::daemon::{
    ensure_chinese_mode_if_needed, hotkey_step, is_bracket_key, is_ctrl, is_escape_key,
    reset_method_on_focus_change_if_needed, Config, HotkeyState,
};
use fncaps::hotkey::{on_event, scroll_wheel_amount};
use fncaps::ime::switch_im;
use fncaps::keys::KeyId;
use fncaps::launch::{launch_args, open_program, path_is_absolute, LaunchPlan};
use fncaps::state::{Action, Direction, State};

fn daemon_config() -> Config {
    Config {
        ime_resetting: true,
        escape_switching: true,
        locale_en: 1033,
        locale_zh: 2052,
        ensure_chinese_mode: true,
        poll_interval_ms: 100,
    }
}

#[test]
fn bound_key_fires_once_under_repeat() {
    // Modifier down, bound key down, repeats, release: the action fires
    // exactly once and every event of the bound key is suppressed.
    let config = default_hotkey_config();
    let mut state = State::new();

    let (action, suppress) = on_event(&mut state, &config, KeyId::CapsLock, true);
    assert_eq!(action, Action::Nothing);
    assert!(suppress);

    let (action, suppress) = on_event(&mut state, &config, KeyId::KeyH, true);
    assert_eq!(action, Action::SwitchTo(Direction::Left));
    assert!(suppress);
    assert_eq!(state.pending_key, Some(KeyId::KeyH));

    for _ in 0..5 {
        let (action, suppress) = on_event(&mut state, &config, KeyId::KeyH, true);
        assert_eq!(action, Action::Nothing);
        assert!(suppress);
        assert_eq!(state.pending_key, Some(KeyId::KeyH));
    }

    let (action, suppress) = on_event(&mut state, &config, KeyId::KeyH, false);
    assert_eq!(action, Action::Nothing);
    assert!(suppress);
    assert_eq!(state.pending_key, None);
}

#[test]
fn pending_key_passes_through_once_modifier_released() {
    let config = default_hotkey_config();
    let mut state = State::new();
    on_event(&mut state, &config, KeyId::CapsLock, true);
    on_event(&mut state, &config, KeyId::KeyH, true);
    on_event(&mut state, &config, KeyId::CapsLock, false);
    // The key is still held and pending, but the modifier is gone, so a
    // repeat press now passes through unmodified.
    let (action, suppress) = on_event(&mut state, &config, KeyId::KeyH, true);
    assert_eq!(action, Action::Nothing);
    assert!(!suppress);
    // Its release is still absorbed, so no stray key-up escapes.
    let (action, suppress) = on_event(&mut state, &config, KeyId::KeyH, false);
    assert_eq!(action, Action::Nothing);
    assert!(suppress);
}

#[test]
fn tap_fires_only_without_intervening_action() {
    let config = default_hotkey_config();

    // Press and release with nothing in between: the tap action fires.
    let mut state = State::new();
    on_event(&mut state, &config, KeyId::CapsLock, true);
    let (action, suppress) = on_event(&mut state, &config, KeyId::CapsLock, false);
    assert_eq!(action, Action::SwitchIme);
    assert!(suppress);

    // With a bound action in between, releasing fires nothing.
    let mut state = State::new();
    on_event(&mut state, &config, KeyId::CapsLock, true);
    on_event(&mut state, &config, KeyId::KeyL, true);
    let (action, suppress) = on_event(&mut state, &config, KeyId::CapsLock, false);
    assert_eq!(action, Action::Nothing);
    assert!(suppress);
}

#[test]
fn shift_alone_cancels_the_tap_and_passes_through() {
    let config = default_hotkey_config();
    let mut state = State::new();
    on_event(&mut state, &config, KeyId::CapsLock, true);
    let (action, suppress) = on_event(&mut state, &config, KeyId::ShiftLeft, true);
    assert_eq!(action, Action::Nothing);
    assert!(!suppress);
    let (action, _) = on_event(&mut state, &config, KeyId::CapsLock, false);
    assert_eq!(action, Action::Nothing);
}

#[test]
fn shift_state_selects_the_scroll_rules() {
    let config = default_hotkey_config();
    let mut state = State::new();
    on_event(&mut state, &config, KeyId::CapsLock, true);
    on_event(&mut state, &config, KeyId::ShiftLeft, true);
    let (action, suppress) = on_event(&mut state, &config, KeyId::KeyK, true);
    assert_eq!(action, Action::Scroll(1));
    assert!(suppress);
    // Scroll rules are not pending, so the repeat fires again.
    let (action, _) = on_event(&mut state, &config, KeyId::KeyK, true);
    assert_eq!(action, Action::Scroll(1));
    let (action, _) = on_event(&mut state, &config, KeyId::KeyJ, true);
    assert_eq!(action, Action::Scroll(-1));
}

#[test]
fn unbound_keys_pass_through() {
    let config = default_hotkey_config();
    let mut state = State::new();
    // Without the modifier, a bound key does nothing.
    let (action, suppress) = on_event(&mut state, &config, KeyId::KeyH, true);
    assert_eq!(action, Action::Nothing);
    assert!(!suppress);
    // With the modifier, an unbound key still passes through.
    on_event(&mut state, &config, KeyId::CapsLock, true);
    let (action, suppress) = on_event(&mut state, &config, KeyId::KeyQ, true);
    assert_eq!(action, Action::Nothing);
    assert!(!suppress);
    // Releases of bound keys that never fired pass through too.
    let (action, suppress) = on_event(&mut state, &config, KeyId::KeyH, false);
    assert_eq!(action, Action::Nothing);
    assert!(!suppress);
}

#[test]
fn program_rules_fire_their_actions() {
    let config = default_hotkey_config();
    let mut state = State::new();
    on_event(&mut state, &config, KeyId::CapsLock, true);
    let (action, _) = on_event(&mut state, &config, KeyId::KeyE, true);
    assert_eq!(
        action,
        Action::OpenProgram {
            program: "notepad.exe".to_string()
        }
    );
    on_event(&mut state, &config, KeyId::KeyE, false);
    let (action, _) = on_event(&mut state, &config, KeyId::KeyV, true);
    assert_eq!(
        action,
        Action::SwitchOrOpen {
            window_title: "Code".to_string(),
            program: "Code.exe".to_string()
        }
    );
}

#[test]
fn scroll_amount_is_a_fixed_unit_per_step() {
    assert_eq!(scroll_wheel_amount(1), 120);
    assert_eq!(scroll_wheel_amount(-1), -120);
    assert_eq!(scroll_wheel_amount(3), 360);
}

#[test]
fn switch_im_toggles_between_locales() {
    assert_eq!(switch_im(Some(1033)), 2052);
    assert_eq!(switch_im(Some(2052)), 1033);
    assert_eq!(switch_im(Some(1041)), 1033);
    assert_eq!(switch_im(None), 1033);
}

#[test]
fn launch_decision_depends_on_path_shape() {
    assert!(path_is_absolute("C:\\bin\\code.exe"));
    assert!(path_is_absolute("d:/tools/app.exe"));
    assert!(path_is_absolute("\\\\server\\share\\app.exe"));
    assert!(!path_is_absolute("code.exe"));
    assert!(!path_is_absolute("C:code.exe"));
    assert!(!path_is_absolute("\\relative\\to\\drive"));
    assert!(!path_is_absolute(""));

    match open_program("C:\\bin\\code.exe") {
        LaunchPlan::Direct { path } => assert_eq!(path, "C:\\bin\\code.exe"),
        LaunchPlan::Lookup { .. } => panic!("absolute path must launch directly"),
    }
    match open_program("notepad.exe") {
        LaunchPlan::Lookup { name } => assert_eq!(name, "notepad.exe"),
        LaunchPlan::Direct { .. } => panic!("bare name must be resolved first"),
    }
}

#[test]
fn launch_args_build_the_detached_start_line() {
    let args = launch_args("C:\\bin\\code.exe");
    assert_eq!(args, vec!["/C", "start", "", "C:\\bin\\code.exe"]);
}

#[test]
fn chinese_mode_guard_decision() {
    let config = daemon_config();
    // Chinese layout with the Chinese bit clear: switch.
    assert!(ensure_chinese_mode_if_needed(&config, Some(2052), Some(0)));
    // Bit already set: leave alone.
    assert!(!ensure_chinese_mode_if_needed(&config, Some(2052), Some(1)));
    // English layout: leave alone.
    assert!(!ensure_chinese_mode_if_needed(&config, Some(1033), Some(0)));
    // No layout or mode: leave alone.
    assert!(!ensure_chinese_mode_if_needed(&config, None, Some(0)));
    assert!(!ensure_chinese_mode_if_needed(&config, Some(2052), None));
    // Guard disabled: leave alone.
    let mut disabled = config;
    disabled.ensure_chinese_mode = false;
    assert!(!ensure_chinese_mode_if_needed(&disabled, Some(2052), Some(0)));
}

#[test]
fn focus_reset_decision() {
    let config = daemon_config();
    assert_eq!(
        reset_method_on_focus_change_if_needed(&config, Some(7), Some(7)),
        (false, Some(7))
    );
    assert_eq!(
        reset_method_on_focus_change_if_needed(&config, Some(7), Some(9)),
        (true, Some(9))
    );
    assert_eq!(
        reset_method_on_focus_change_if_needed(&config, None, Some(9)),
        (true, Some(9))
    );
    let mut disabled = config;
    disabled.ime_resetting = false;
    assert_eq!(
        reset_method_on_focus_change_if_needed(&disabled, Some(7), Some(9)),
        (false, Some(7))
    );
}

#[test]
fn escape_hotkey_classifiers() {
    assert!(is_ctrl(KeyId::ControlLeft));
    assert!(is_ctrl(KeyId::ControlRight));
    assert!(!is_ctrl(KeyId::KeyA));
    assert!(is_bracket_key(KeyId::LeftBracket));
    assert!(is_escape_key(KeyId::Escape));
}

#[test]
fn escape_hotkey_fires_once_per_chord() {
    let mut state = HotkeyState::new();
    // Escape alone triggers once, and repeats stay silent.
    assert!(hotkey_step(&mut state, KeyId::Escape, true));
    assert!(!hotkey_step(&mut state, KeyId::Escape, true));
    assert!(!hotkey_step(&mut state, KeyId::Escape, false));
    // Released: the chord is re-armed.
    assert!(hotkey_step(&mut state, KeyId::Escape, true));
    assert!(!hotkey_step(&mut state, KeyId::Escape, false));

    // Ctrl+[ triggers only when both are down.
    let mut state = HotkeyState::new();
    assert!(!hotkey_step(&mut state, KeyId::ControlLeft, true));
    assert!(hotkey_step(&mut state, KeyId::LeftBracket, true));
    assert!(!hotkey_step(&mut state, KeyId::LeftBracket, true));
    // Releasing the bracket but not ctrl re-arms, pressing it again
    // re-triggers.
    assert!(!hotkey_step(&mut state, KeyId::LeftBracket, false));
    assert!(hotkey_step(&mut state, KeyId::LeftBracket, true));
}
