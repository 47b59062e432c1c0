//! Tests of key and action parsing, rule resolution, and configuration
//! building.

use fncaps::config::{
    action_to_string, build_config_from_file, config_to_file, default_hotkey_config,
    default_hotkey_config_with_tap, mk_rule, parse_action, parse_shift, parse_simple_action,
    Binding, HotkeyConfig, ShiftRequirement,
};
use fncaps::keys::{key_to_string, parse_key, parse_single_char_key, KeyId};
use fncaps::state::{Action, Direction};

fn binding(key: &str, action: &str) -> Binding {
    Binding {
        key: key.to_string(),
        action: action.to_string(),
        shift: None,
        suppress: None,
        pending: None,
    }
}

#[test]
fn parse_key_named_keys() {
    assert_eq!(parse_key("left"), Some(KeyId::LeftArrow));
    assert_eq!(parse_key("LeftArrow"), Some(KeyId::LeftArrow));
    assert_eq!(parse_key("  Enter "), Some(KeyId::Return));
    assert_eq!(parse_key("RETURN"), Some(KeyId::Return));
    assert_eq!(parse_key("esc"), Some(KeyId::Escape));
    assert_eq!(parse_key("f11"), Some(KeyId::F11));
    assert_eq!(parse_key("pageup"), Some(KeyId::PageUp));
    assert_eq!(parse_key("q"), Some(KeyId::KeyQ));
    assert_eq!(parse_key("Z"), Some(KeyId::KeyZ));
    assert_eq!(parse_key("7"), Some(KeyId::Num7));
    assert_eq!(parse_key(""), None);
    assert_eq!(parse_key("notakey"), None);
    assert_eq!(parse_key("?"), None);
}

#[test]
fn parse_single_char_rejects_uppercase_and_symbols() {
    assert_eq!(parse_single_char_key('a'), Some(KeyId::KeyA));
    assert_eq!(parse_single_char_key('0'), Some(KeyId::Num0));
    assert_eq!(parse_single_char_key('A'), None);
    assert_eq!(parse_single_char_key('-'), None);
}

#[test]
fn key_strings_round_trip_through_parse() {
    let keys = [
        KeyId::KeyA,
        KeyId::KeyH,
        KeyId::KeyZ,
        KeyId::Num0,
        KeyId::Num9,
        KeyId::LeftArrow,
        KeyId::RightArrow,
        KeyId::UpArrow,
        KeyId::DownArrow,
        KeyId::Space,
        KeyId::Return,
        KeyId::Tab,
        KeyId::Escape,
        KeyId::Backspace,
        KeyId::Home,
        KeyId::End,
        KeyId::PageUp,
        KeyId::PageDown,
        KeyId::Insert,
        KeyId::Delete,
        KeyId::F1,
        KeyId::F12,
    ];
    for key in keys {
        let text = key_to_string(key);
        assert_eq!(parse_key(&text), Some(key), "round trip failed for {text}");
    }
    assert_eq!(key_to_string(KeyId::CapsLock), "unknown");
    assert_eq!(parse_key("unknown"), None);
}

#[test]
fn parse_shift_accepts_all_spellings() {
    assert_eq!(parse_shift(None), Ok(ShiftRequirement::Any));
    assert_eq!(parse_shift(Some("any")), Ok(ShiftRequirement::Any));
    assert_eq!(parse_shift(Some(" Down ")), Ok(ShiftRequirement::Down));
    assert_eq!(parse_shift(Some("pressed")), Ok(ShiftRequirement::Down));
    assert_eq!(parse_shift(Some("UP")), Ok(ShiftRequirement::Up));
    assert_eq!(parse_shift(Some("released")), Ok(ShiftRequirement::Up));
    assert_eq!(
        parse_shift(Some("sideways")),
        Err("unsupported shift mode 'sideways', expected any/down/up".to_string())
    );
}

#[test]
fn parse_simple_action_keywords() {
    assert_eq!(parse_simple_action("none"), Ok(Action::Nothing));
    assert_eq!(parse_simple_action("switch_ime"), Ok(Action::SwitchIme));
    assert_eq!(
        parse_simple_action("switch_left"),
        Ok(Action::SwitchTo(Direction::Left))
    );
    assert_eq!(
        parse_simple_action("switch_right"),
        Ok(Action::SwitchTo(Direction::Right))
    );
    assert_eq!(
        parse_simple_action("switch_up"),
        Ok(Action::SwitchTo(Direction::Up))
    );
    assert_eq!(
        parse_simple_action("switch_down"),
        Ok(Action::SwitchTo(Direction::Down))
    );
    assert_eq!(parse_simple_action("scroll_up"), Ok(Action::Scroll(1)));
    assert_eq!(parse_simple_action("scroll_down"), Ok(Action::Scroll(-1)));
    assert_eq!(
        parse_simple_action("warp"),
        Err("unknown simple action 'warp'".to_string())
    );
}

#[test]
fn parse_action_bare_keywords_ignore_case_and_space() {
    assert_eq!(parse_action("  NONE  "), Ok(Action::Nothing));
    assert_eq!(parse_action("Scroll_Up"), Ok(Action::Scroll(1)));
}

#[test]
fn parse_action_open_program_keeps_parameter_case() {
    assert_eq!(
        parse_action("open_program:C:\\Tools\\Notepad.EXE"),
        Ok(Action::OpenProgram {
            program: "C:\\Tools\\Notepad.EXE".to_string()
        })
    );
    assert_eq!(
        parse_action("open_app:calc.exe"),
        Ok(Action::OpenProgram {
            program: "calc.exe".to_string()
        })
    );
    assert_eq!(
        parse_action("open_program:"),
        Err("open_program requires a program name".to_string())
    );
}

#[test]
fn parse_action_switch_window() {
    assert_eq!(
        parse_action("switch_window:My Editor"),
        Ok(Action::SwitchWindow {
            title: "My Editor".to_string()
        })
    );
    assert_eq!(
        parse_action("switch_win:"),
        Err("switch_window requires a window title".to_string())
    );
}

#[test]
fn parse_action_switch_or_open_pipe_beats_colon() {
    // The pipe separator wins when both are present, so a program path
    // containing colons survives with its case intact.
    assert_eq!(
        parse_action("switch_or_open:Code|C:\\bin\\code.exe"),
        Ok(Action::SwitchOrOpen {
            window_title: "Code".to_string(),
            program: "C:\\bin\\code.exe".to_string()
        })
    );
}

#[test]
fn parse_action_switch_or_open_colon_form_rejoins_program() {
    assert_eq!(
        parse_action("switch_or_open:Shell:C:\\bin\\pwsh.exe"),
        Ok(Action::SwitchOrOpen {
            window_title: "Shell".to_string(),
            program: "C:\\bin\\pwsh.exe".to_string()
        })
    );
}

#[test]
fn parse_action_switch_or_open_errors() {
    assert_eq!(
        parse_action("switch_or_open:OnlyTitle"),
        Err("switch_or_open requires: switch_or_open:window_title:program_path".to_string())
    );
    assert_eq!(
        parse_action("switch_or_open: :prog"),
        Err("switch_or_open requires non-empty window_title and program".to_string())
    );
    assert_eq!(
        parse_action("switch_or_open:title: "),
        Err("switch_or_open requires non-empty window_title and program".to_string())
    );
}

#[test]
fn parse_action_unknown_forms() {
    assert_eq!(
        parse_action("fly_to:the moon"),
        Err("unsupported parameterized action 'fly_to'".to_string())
    );
    assert_eq!(
        parse_action("hover"),
        Err("unsupported action 'hover'".to_string())
    );
}

#[test]
fn action_to_string_renders_each_variant() {
    assert_eq!(action_to_string(&Action::Nothing), "none");
    assert_eq!(
        action_to_string(&Action::SwitchTo(Direction::Left)),
        "switch_left"
    );
    assert_eq!(action_to_string(&Action::Scroll(1)), "scroll_up");
    assert_eq!(action_to_string(&Action::Scroll(-1)), "scroll_down");
    assert_eq!(action_to_string(&Action::SwitchIme), "switch_ime");
    assert_eq!(
        action_to_string(&Action::OpenProgram {
            program: "notepad.exe".to_string()
        }),
        "open_program:notepad.exe"
    );
    assert_eq!(
        action_to_string(&Action::SwitchWindow {
            title: "Mail".to_string()
        }),
        "switch_window:Mail"
    );
    assert_eq!(
        action_to_string(&Action::SwitchOrOpen {
            window_title: "Code".to_string(),
            program: "Code.exe".to_string()
        }),
        "switch_or_open:Code:Code.exe"
    );
}

#[test]
fn resolve_first_match_wins_on_equal_key_and_shift() {
    // Two rules on the same key, both reachable with shift down: the
    // earlier one must win, in both orders.
    let config = HotkeyConfig {
        caps_tap_action: Action::SwitchIme,
        rules: vec![
            mk_rule(
                KeyId::KeyK,
                ShiftRequirement::Any,
                Action::Scroll(1),
                true,
                false,
                "first",
            ),
            mk_rule(
                KeyId::KeyK,
                ShiftRequirement::Down,
                Action::SwitchTo(Direction::Up),
                true,
                true,
                "second",
            ),
        ],
    };
    let rule = config.resolve(KeyId::KeyK, true).expect("a rule must match");
    assert_eq!(rule.description, "first");
    assert_eq!(rule.action, Action::Scroll(1));
}

#[test]
fn resolve_respects_shift_requirement() {
    let config = default_hotkey_config();
    // caps+shift+up scrolls, caps+up switches upward.
    let with_shift = config.resolve(KeyId::UpArrow, true).unwrap();
    assert_eq!(with_shift.action, Action::Scroll(1));
    let without_shift = config.resolve(KeyId::UpArrow, false).unwrap();
    assert_eq!(without_shift.action, Action::SwitchTo(Direction::Up));
}

#[test]
fn resolve_returns_none_only_without_any_match() {
    let config = default_hotkey_config();
    // No rule binds `q`.
    assert!(config.resolve(KeyId::KeyQ, false).is_none());
    assert!(config.resolve(KeyId::KeyQ, true).is_none());
    // `h` is bound with requirement Any, so it matches either way.
    assert!(config.resolve(KeyId::KeyH, false).is_some());
    assert!(config.resolve(KeyId::KeyH, true).is_some());
}

#[test]
fn default_config_has_the_documented_rules() {
    let config = default_hotkey_config();
    assert_eq!(config.caps_tap_action, Action::SwitchIme);
    assert_eq!(config.rules.len(), 15);
    assert_eq!(config.rules[0].key, KeyId::LeftArrow);
    assert_eq!(config.rules[0].action, Action::SwitchTo(Direction::Left));
    assert_eq!(config.rules[0].description, "caps+left");
    assert_eq!(config.rules[4].key, KeyId::UpArrow);
    assert_eq!(config.rules[4].shift, ShiftRequirement::Down);
    assert_eq!(config.rules[4].action, Action::Scroll(1));
    assert!(!config.rules[4].pending);
    assert_eq!(
        config.rules[14].action,
        Action::SwitchOrOpen {
            window_title: "PowerShell".to_string(),
            program: "pwsh.exe".to_string()
        }
    );
}

#[test]
fn missing_bindings_fall_back_to_full_defaults() {
    let built = build_config_from_file(None, None).unwrap();
    assert_eq!(built.rules.len(), 15);
    assert_eq!(built.caps_tap_action, Action::SwitchIme);
}

#[test]
fn empty_bindings_fall_back_to_full_defaults() {
    let built = build_config_from_file(Some("none"), Some(Vec::new())).unwrap();
    assert_eq!(built.rules.len(), 15);
    assert_eq!(built.caps_tap_action, Action::Nothing);
    for (built_rule, default_rule) in built
        .rules
        .iter()
        .zip(default_hotkey_config_with_tap(Action::Nothing).rules.iter())
    {
        assert_eq!(built_rule.key, default_rule.key);
        assert_eq!(built_rule.action, default_rule.action);
        assert_eq!(built_rule.description, default_rule.description);
    }
}

#[test]
fn build_config_parses_bindings_in_order() {
    let bindings = vec![
        Binding {
            key: "g".to_string(),
            action: "switch_window:Mail".to_string(),
            shift: Some("down".to_string()),
            suppress: Some(false),
            pending: Some(false),
        },
        binding("f5", "switch_ime"),
    ];
    let built = build_config_from_file(Some("scroll_up"), Some(bindings)).unwrap();
    assert_eq!(built.caps_tap_action, Action::Scroll(1));
    assert_eq!(built.rules.len(), 2);
    assert_eq!(built.rules[0].key, KeyId::KeyG);
    assert_eq!(built.rules[0].shift, ShiftRequirement::Down);
    assert!(!built.rules[0].suppress);
    assert!(!built.rules[0].pending);
    assert_eq!(built.rules[0].description, "caps+g");
    assert_eq!(built.rules[1].key, KeyId::F5);
    // Missing suppress and pending default to true.
    assert!(built.rules[1].suppress);
    assert!(built.rules[1].pending);
}

#[test]
fn build_config_reports_the_failing_binding() {
    let bad_key = vec![binding("h", "switch_ime"), binding("zz", "switch_ime")];
    assert_eq!(
        build_config_from_file(None, Some(bad_key)).unwrap_err(),
        "bindings[1] unknown key: 'zz'"
    );

    let bad_action = vec![binding("h", "hover")];
    assert_eq!(
        build_config_from_file(None, Some(bad_action)).unwrap_err(),
        "bindings[0] action error: unsupported action 'hover'"
    );

    let mut with_bad_shift = binding("h", "switch_ime");
    with_bad_shift.shift = Some("wide".to_string());
    assert_eq!(
        build_config_from_file(None, Some(vec![with_bad_shift])).unwrap_err(),
        "bindings[0] shift error: unsupported shift mode 'wide', expected any/down/up"
    );
}

#[test]
fn bad_tap_action_is_an_error() {
    assert_eq!(
        build_config_from_file(Some("hover"), None).unwrap_err(),
        "unsupported action 'hover'"
    );
}

#[test]
fn config_to_file_round_trips_through_build() {
    let config = default_hotkey_config();
    let (tap, bindings) = config_to_file(&config);
    assert_eq!(tap, "switch_ime");
    assert_eq!(bindings.len(), 15);
    assert_eq!(bindings[0].key, "left");
    assert_eq!(bindings[0].action, "switch_left");
    assert_eq!(bindings[0].shift, None);
    assert_eq!(bindings[4].shift, Some("down".to_string()));
    assert_eq!(bindings[6].shift, Some("up".to_string()));
    let rebuilt = build_config_from_file(Some(&tap), Some(bindings)).unwrap();
    assert_eq!(rebuilt.rules.len(), config.rules.len());
    for (a, b) in rebuilt.rules.iter().zip(config.rules.iter()) {
        assert_eq!(a.key, b.key);
        assert_eq!(a.shift, b.shift);
        assert_eq!(a.suppress, b.suppress);
        assert_eq!(a.pending, b.pending);
    }
}
