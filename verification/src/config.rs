//! The hotkey rule table: rules binding a key and a shift requirement to an
//! action, first-match resolution over an ordered rule list, the built-in
//! default table, and the parsing of configuration fields into rules.

use vstd::prelude::*;

use crate::keys::{key_to_string, parse_key, spec_key_string, spec_parse_key, KeyId};
use crate::state::{Action, ActionV, Direction};
use crate::text::{
    dec_seq, eq_ignore_case, find_char, find_char_str, lower_seq, lower_string, replace_char,
    replace_char_str, str_eq, trim_seq, trim_str, usize_string,
};

verus! {

/// What the secondary modifier must be doing for a rule to match.
#[derive(Debug, Clone, Copy, PartialEq, Eq, Structural)]
pub enum ShiftRequirement {
    /// The rule matches whether or not the secondary modifier is held.
    Any,
    /// The rule matches only while the secondary modifier is held.
    Down,
    /// The rule matches only while the secondary modifier is not held.
    Up,
}

/// One hotkey rule: while the primary modifier is held, pressing `key`
/// (with the secondary modifier as `shift` demands) fires `action`.
#[derive(Debug, Clone)]
pub struct HotkeyRule {
    /// The key that triggers this rule.
    pub key: KeyId,
    /// The required state of the secondary modifier.
    pub shift: ShiftRequirement,
    /// The action fired when the rule matches.
    pub action: Action,
    /// Whether the triggering key event is withheld from the rest of the
    /// system.
    pub suppress: bool,
    /// Whether repeats and the release of the triggering key are absorbed
    /// while it stays held.
    pub pending: bool,
    /// A readable name for the binding.
    pub description: String,
}

/// The mathematical value of a [`HotkeyRule`].
#[verifier::ext_equal]
pub struct RuleV {
    pub key: KeyId,
    pub shift: ShiftRequirement,
    pub action: ActionV,
    pub suppress: bool,
    pub pending: bool,
    pub description: Seq<char>,
}

impl View for HotkeyRule {
    type V = RuleV;

    open spec fn view(&self) -> RuleV {
        RuleV {
            key: self.key,
            shift: self.shift,
            action: self.action@,
            suppress: self.suppress,
            pending: self.pending,
            description: self.description@,
        }
    }
}

/// The complete hotkey configuration: the tap action of the primary
/// modifier and the ordered rule list.
#[derive(Debug, Clone)]
pub struct HotkeyConfig {
    /// The action fired when the primary modifier is pressed and released
    /// with no other action in between.
    pub caps_tap_action: Action,
    /// The rules, in declaration order; the first match wins.
    pub rules: Vec<HotkeyRule>,
}

/// The mathematical value of a [`HotkeyConfig`].
#[verifier::ext_equal]
pub struct ConfigV {
    pub caps_tap_action: ActionV,
    pub rules: Seq<RuleV>,
}

/// The views of a sequence of rules.
pub open spec fn rules_views(v: Seq<HotkeyRule>) -> Seq<RuleV> {
    v.map_values(|r: HotkeyRule| r@)
}

impl View for HotkeyConfig {
    type V = ConfigV;

    open spec fn view(&self) -> ConfigV {
        ConfigV { caps_tap_action: self.caps_tap_action@, rules: rules_views(self.rules@) }
    }
}

/// Whether `rule` matches a press of `key` while the secondary modifier
/// state is `lshift`.
pub open spec fn rule_matches(rule: RuleV, key: KeyId, lshift: bool) -> bool {
    &&& rule.key == key
    &&& match rule.shift {
        ShiftRequirement::Any => true,
        ShiftRequirement::Down => lshift,
        ShiftRequirement::Up => !lshift,
    }
}

/// The index of the first rule matching `(key, lshift)`, if any.
pub open spec fn spec_resolve(rules: Seq<RuleV>, key: KeyId, lshift: bool) -> Option<int>
    decreases rules.len(),
{
    if rules.len() == 0 {
        None
    } else if rule_matches(rules[0], key, lshift) {
        Some(0)
    } else {
        match spec_resolve(rules.skip(1), key, lshift) {
            Some(i) => Some(i + 1),
            None => None,
        }
    }
}

/// Resolution returns the first matching rule: a `Some` result names a
/// matching rule before which no rule matches, and a `None` result means
/// no rule matches at all.
pub proof fn lemma_resolve_characterization(rules: Seq<RuleV>, key: KeyId, lshift: bool)
    ensures
        match spec_resolve(rules, key, lshift) {
            Some(i) => 0 <= i < rules.len() && rule_matches(rules[i], key, lshift) && forall|j: int|
                0 <= j < i ==> !rule_matches(rules[j], key, lshift),
            None => forall|j: int| 0 <= j < rules.len() ==> !rule_matches(rules[j], key, lshift),
        },
    decreases rules.len(),
{
    if rules.len() == 0 {
    } else if rule_matches(rules[0], key, lshift) {
    } else {
        lemma_resolve_characterization(rules.skip(1), key, lshift);
        assert(forall|j: int| 0 < j < rules.len() ==> rules.skip(1)[j - 1] == rules[j]);
    }
}

/// Order stability: when two rules both match the same key and shift
/// state, resolution never selects the later one; the selected index is
/// never past the earlier of the two.
pub proof fn lemma_resolve_order_stable(
    rules: Seq<RuleV>,
    key: KeyId,
    lshift: bool,
    i: int,
    j: int,
)
    requires
        0 <= i < j < rules.len(),
        rule_matches(rules[i], key, lshift),
        rule_matches(rules[j], key, lshift),
    ensures
        spec_resolve(rules, key, lshift) is Some,
        spec_resolve(rules, key, lshift).unwrap() <= i,
{
    lemma_resolve_characterization(rules, key, lshift);
    if let Some(k) = spec_resolve(rules, key, lshift) {
        if k > i {
            assert(!rule_matches(rules[i], key, lshift));
        }
    }
}

/// Resolution fails exactly when no rule's key and shift requirement are
/// both satisfied.
pub proof fn lemma_resolve_none_iff(rules: Seq<RuleV>, key: KeyId, lshift: bool)
    ensures
        spec_resolve(rules, key, lshift) is None <==> forall|j: int|
            0 <= j < rules.len() ==> !rule_matches(rules[j], key, lshift),
{
    lemma_resolve_characterization(rules, key, lshift);
}

impl HotkeyConfig {
    /// Finds the first rule matching `key` under the current secondary
    /// modifier state, scanning in declaration order.
    pub fn resolve(&self, key: KeyId, lshift_pressing: bool) -> (r: Option<&HotkeyRule>)
        ensures
            r is Some <==> spec_resolve(self@.rules, key, lshift_pressing) is Some,
            r matches Some(rule) ==> rule@ == self@.rules[spec_resolve(
                self@.rules,
                key,
                lshift_pressing,
            ).unwrap()],
    {
        let n: usize = self.rules.len();
        let mut i: usize = 0;
        while i < n
            invariant
                n == self.rules.len(),
                0 <= i <= n,
                self@.rules.len() == n,
                forall|j: int| 0 <= j < i ==> !rule_matches(self@.rules[j], key, lshift_pressing),
            decreases n - i,
        {
            let rule = &self.rules[i];
            let shift_ok = match rule.shift {
                ShiftRequirement::Any => true,
                ShiftRequirement::Down => lshift_pressing,
                ShiftRequirement::Up => !lshift_pressing,
            };
            if rule.key == key && shift_ok {
                proof {
                    assert(self@.rules[i as int] == self.rules@[i as int]@);
                    assert(rule_matches(self@.rules[i as int], key, lshift_pressing));
                    lemma_resolve_characterization(self@.rules, key, lshift_pressing);
                    match spec_resolve(self@.rules, key, lshift_pressing) {
                        Some(k) => {
                            if k < i {
                                assert(!rule_matches(self@.rules[k], key, lshift_pressing));
                            }
                            if k > i {
                                assert(!rule_matches(self@.rules[i as int], key, lshift_pressing));
                            }
                            assert(k == i);
                        },
                        None => {
                            assert(!rule_matches(self@.rules[i as int], key, lshift_pressing));
                        },
                    }
                }
                return Some(rule);
            }
            i = i + 1;
        }
        proof {
            lemma_resolve_characterization(self@.rules, key, lshift_pressing);
        }
        None
    }
}

/// The view of an optional borrowed string.
pub open spec fn opt_view(value: Option<&str>) -> Option<Seq<char>> {
    match value {
        Some(v) => Some(v@),
        None => None,
    }
}

/// The shift requirement a configuration field names: a missing field
/// means `Any`; otherwise the field is trimmed and matched without regard
/// to ASCII case against `any`, `down`/`pressed` and `up`/`released`.
pub open spec fn spec_parse_shift(value: Option<Seq<char>>) -> Result<ShiftRequirement, Seq<char>> {
    match value {
        None => Ok(ShiftRequirement::Any),
        Some(s) => {
            let f = lower_seq(trim_seq(s));
            if f == lower_seq("any"@) {
                Ok(ShiftRequirement::Any)
            } else if f == lower_seq("down"@) || f == lower_seq("pressed"@) {
                Ok(ShiftRequirement::Down)
            } else if f == lower_seq("up"@) || f == lower_seq("released"@) {
                Ok(ShiftRequirement::Up)
            } else {
                Err("unsupported shift mode '"@ + f + "', expected any/down/up"@)
            }
        },
    }
}

/// Parses the optional `shift` field of a binding.
pub fn parse_shift(value: Option<&str>) -> (r: Result<ShiftRequirement, String>)
    ensures
        match (r, spec_parse_shift(opt_view(value))) {
            (Ok(a), Ok(b)) => a == b,
            (Err(m), Err(e)) => m@ == e,
            _ => false,
        },
{
    let v = match value {
        None => {
            return Ok(ShiftRequirement::Any);
        },
        Some(v) => v,
    };
    let t = trim_str(v);
    if eq_ignore_case(t, "any") {
        Ok(ShiftRequirement::Any)
    } else if eq_ignore_case(t, "down") || eq_ignore_case(t, "pressed") {
        Ok(ShiftRequirement::Down)
    } else if eq_ignore_case(t, "up") || eq_ignore_case(t, "released") {
        Ok(ShiftRequirement::Up)
    } else {
        let mut msg = "unsupported shift mode '".to_owned();
        msg.append(lower_string(t).as_str());
        msg.append("', expected any/down/up");
        Err(msg)
    }
}

/// The action a bare keyword names: one of `none`, `switch_ime`, the four
/// `switch_*` directions, and `scroll_up`/`scroll_down`; anything else is
/// rejected.
pub open spec fn spec_parse_simple_action(s: Seq<char>) -> Result<ActionV, Seq<char>> {
    if s == "none"@ {
        Ok(ActionV::Nothing)
    } else if s == "switch_ime"@ {
        Ok(ActionV::SwitchIme)
    } else if s == "switch_left"@ {
        Ok(ActionV::SwitchTo(Direction::Left))
    } else if s == "switch_right"@ {
        Ok(ActionV::SwitchTo(Direction::Right))
    } else if s == "switch_up"@ {
        Ok(ActionV::SwitchTo(Direction::Up))
    } else if s == "switch_down"@ {
        Ok(ActionV::SwitchTo(Direction::Down))
    } else if s == "scroll_up"@ {
        Ok(ActionV::Scroll(1i32))
    } else if s == "scroll_down"@ {
        Ok(ActionV::Scroll(-1i32))
    } else {
        Err("unknown simple action '"@ + s + "'"@)
    }
}

/// Parses a bare action keyword, which must already be normalized to
/// lowercase with no surrounding whitespace.
pub fn parse_simple_action(value: &str) -> (r: Result<Action, String>)
    ensures
        match (r, spec_parse_simple_action(value@)) {
            (Ok(a), Ok(b)) => a@ == b,
            (Err(m), Err(e)) => m@ == e,
            _ => false,
        },
{
    if str_eq(value, "none") {
        Ok(Action::Nothing)
    } else if str_eq(value, "switch_ime") {
        Ok(Action::SwitchIme)
    } else if str_eq(value, "switch_left") {
        Ok(Action::SwitchTo(Direction::Left))
    } else if str_eq(value, "switch_right") {
        Ok(Action::SwitchTo(Direction::Right))
    } else if str_eq(value, "switch_up") {
        Ok(Action::SwitchTo(Direction::Up))
    } else if str_eq(value, "switch_down") {
        Ok(Action::SwitchTo(Direction::Down))
    } else if str_eq(value, "scroll_up") {
        Ok(Action::Scroll(1))
    } else if str_eq(value, "scroll_down") {
        Ok(Action::Scroll(-1))
    } else {
        let mut msg = "unknown simple action '".to_owned();
        msg.append(value);
        msg.append("'");
        Err(msg)
    }
}

/// The action an `action` field names. The field is trimmed; a bare
/// keyword is matched in lowercase; otherwise the text before the first
/// `:` selects a parameterized action and the text after it carries the
/// parameters with their case preserved. For `switch_or_open` the
/// parameters split on `|` when one is present, else on `:`, the first
/// piece is the window title, and the remaining pieces are rejoined with
/// `:` to form the program.
pub open spec fn spec_parse_action(s: Seq<char>) -> Result<ActionV, Seq<char>> {
    let t = trim_seq(s);
    let tl = lower_seq(t);
    if spec_parse_simple_action(tl) is Ok {
        spec_parse_simple_action(tl)
    } else {
        match find_char(t, ':') {
            None => Err("unsupported action '"@ + tl + "'"@),
            Some(c) => {
                let name = tl.take(c);
                let params = t.skip(c + 1);
                if name == "open_program"@ || name == "open_app"@ {
                    if params.len() == 0 {
                        Err("open_program requires a program name"@)
                    } else {
                        Ok(ActionV::OpenProgram { program: params })
                    }
                } else if name == "switch_window"@ || name == "switch_win"@ {
                    if params.len() == 0 {
                        Err("switch_window requires a window title"@)
                    } else {
                        Ok(ActionV::SwitchWindow { title: params })
                    }
                } else if name == "switch_or_open"@ || name == "switch_or_launch"@ {
                    let sep = if find_char(params, '|') is Some {
                        '|'
                    } else {
                        ':'
                    };
                    match find_char(params, sep) {
                        None => Err(
                            "switch_or_open requires: switch_or_open:window_title:program_path"@,
                        ),
                        Some(i) => {
                            let window_title = trim_seq(params.take(i));
                            let program = trim_seq(
                                if sep == ':' {
                                    params.skip(i + 1)
                                } else {
                                    replace_char(params.skip(i + 1), '|', ':')
                                },
                            );
                            if window_title.len() == 0 || program.len() == 0 {
                                Err("switch_or_open requires non-empty window_title and program"@)
                            } else {
                                Ok(ActionV::SwitchOrOpen { window_title, program })
                            }
                        },
                    }
                } else {
                    Err("unsupported parameterized action '"@ + name + "'"@)
                }
            },
        }
    }
}

/// Parses an `action` field.
pub fn parse_action(value: &str) -> (r: Result<Action, String>)
    ensures
        match (r, spec_parse_action(value@)) {
            (Ok(a), Ok(b)) => a@ == b,
            (Err(m), Err(e)) => m@ == e,
            _ => false,
        },
{
    let t = trim_str(value);
    let tl = lower_string(t);
    let simple = parse_simple_action(tl.as_str());
    if let Ok(a) = simple {
        return Ok(a);
    }
    let n: usize = t.unicode_len();
    proof {
        assert(tl@.len() == t@.len());
    }
    match find_char_str(t, ':') {
        None => {
            let mut msg = "unsupported action '".to_owned();
            msg.append(tl.as_str());
            msg.append("'");
            Err(msg)
        },
        Some(c) => {
            let name = tl.as_str().substring_char(0, c);
            let params = t.substring_char(c + 1, n);
            proof {
                assert(name@ =~= lower_seq(t@).take(c as int));
                assert(params@ =~= t@.skip(c + 1));
            }
            if str_eq(name, "open_program") || str_eq(name, "open_app") {
                if params.unicode_len() == 0 {
                    Err("open_program requires a program name".to_owned())
                } else {
                    Ok(Action::OpenProgram { program: params.to_owned() })
                }
            } else if str_eq(name, "switch_window") || str_eq(name, "switch_win") {
                if params.unicode_len() == 0 {
                    Err("switch_window requires a window title".to_owned())
                } else {
                    Ok(Action::SwitchWindow { title: params.to_owned() })
                }
            } else if str_eq(name, "switch_or_open") || str_eq(name, "switch_or_launch") {
                let sep: char = if find_char_str(params, '|').is_some() {
                    '|'
                } else {
                    ':'
                };
                match find_char_str(params, sep) {
                    None => Err(
                        "switch_or_open requires: switch_or_open:window_title:program_path".to_owned(),
                    ),
                    Some(i) => {
                        let np: usize = params.unicode_len();
                        let window_title = trim_str(params.substring_char(0, i));
                        let rest = params.substring_char(i + 1, np);
                        proof {
                            assert(rest@ =~= params@.skip(i + 1));
                        }
                        let joined = if sep == ':' {
                            rest.to_owned()
                        } else {
                            replace_char_str(rest, '|', ':')
                        };
                        let program = trim_str(joined.as_str());
                        if window_title.unicode_len() == 0 || program.unicode_len() == 0 {
                            Err("switch_or_open requires non-empty window_title and program".to_owned())
                        } else {
                            Ok(
                                Action::SwitchOrOpen {
                                    window_title: window_title.to_owned(),
                                    program: program.to_owned(),
                                },
                            )
                        }
                    },
                }
            } else {
                let mut msg = "unsupported parameterized action '".to_owned();
                msg.append(name);
                msg.append("'");
                Err(msg)
            }
        },
    }
}

/// The configuration text that names `action`; parameterized actions
/// render as `name:params`.
pub open spec fn spec_action_string(a: ActionV) -> Seq<char> {
    match a {
        ActionV::Nothing => "none"@,
        ActionV::SwitchTo(Direction::Left) => "switch_left"@,
        ActionV::SwitchTo(Direction::Right) => "switch_right"@,
        ActionV::SwitchTo(Direction::Up) => "switch_up"@,
        ActionV::SwitchTo(Direction::Down) => "switch_down"@,
        ActionV::Scroll(n) => if n > 0 {
            "scroll_up"@
        } else {
            "scroll_down"@
        },
        ActionV::SwitchIme => "switch_ime"@,
        ActionV::OpenProgram { program } => "open_program:"@ + program,
        ActionV::SwitchWindow { title } => "switch_window:"@ + title,
        ActionV::SwitchOrOpen { window_title, program } => "switch_or_open:"@ + window_title + ":"@
            + program,
    }
}

/// Renders `action` as configuration text.
pub fn action_to_string(action: &Action) -> (r: String)
    ensures
        r@ == spec_action_string(action@),
{
    match action {
        Action::Nothing => "none".to_owned(),
        Action::SwitchTo(Direction::Left) => "switch_left".to_owned(),
        Action::SwitchTo(Direction::Right) => "switch_right".to_owned(),
        Action::SwitchTo(Direction::Up) => "switch_up".to_owned(),
        Action::SwitchTo(Direction::Down) => "switch_down".to_owned(),
        Action::Scroll(n) => if *n > 0 {
            "scroll_up".to_owned()
        } else {
            "scroll_down".to_owned()
        },
        Action::SwitchIme => "switch_ime".to_owned(),
        Action::OpenProgram { program } => {
            let mut r = "open_program:".to_owned();
            r.append(program.as_str());
            r
        },
        Action::SwitchWindow { title } => {
            let mut r = "switch_window:".to_owned();
            r.append(title.as_str());
            r
        },
        Action::SwitchOrOpen { window_title, program } => {
            let mut r = "switch_or_open:".to_owned();
            r.append(window_title.as_str());
            r.append(":");
            r.append(program.as_str());
            r
        },
    }
}

/// One binding record of the configuration file, with every field still
/// in its textual form.
#[derive(Debug, Clone)]
pub struct Binding {
    /// The key token.
    pub key: String,
    /// The action text.
    pub action: String,
    /// The optional shift requirement.
    pub shift: Option<String>,
    /// Whether the key event is withheld from the system; missing means
    /// yes.
    pub suppress: Option<bool>,
    /// Whether repeats and release of the key are absorbed; missing means
    /// yes.
    pub pending: Option<bool>,
}

/// The mathematical value of a [`Binding`].
#[verifier::ext_equal]
pub struct BindingV {
    pub key: Seq<char>,
    pub action: Seq<char>,
    pub shift: Option<Seq<char>>,
    pub suppress: Option<bool>,
    pub pending: Option<bool>,
}

impl View for Binding {
    type V = BindingV;

    open spec fn view(&self) -> BindingV {
        BindingV {
            key: self.key@,
            action: self.action@,
            shift: match &self.shift {
                Some(s) => Some(s@),
                None => None,
            },
            suppress: self.suppress,
            pending: self.pending,
        }
    }
}

/// The views of a sequence of bindings.
pub open spec fn bindings_views(v: Seq<Binding>) -> Seq<BindingV> {
    v.map_values(|b: Binding| b@)
}

/// The views of an optional binding list.
pub open spec fn opt_bindings_views(v: Option<Vec<Binding>>) -> Option<Seq<BindingV>> {
    match v {
        Some(bs) => Some(bindings_views(bs@)),
        None => None,
    }
}

/// Builds one rule.
pub fn mk_rule(
    key: KeyId,
    shift: ShiftRequirement,
    action: Action,
    suppress: bool,
    pending: bool,
    description: &str,
) -> (r: HotkeyRule)
    ensures
        r@ == (RuleV {
            key,
            shift,
            action: action@,
            suppress,
            pending,
            description: description@,
        }),
{
    HotkeyRule { key, shift, action, suppress, pending, description: description.to_owned() }
}

/// The built-in rule table: directional switching on the arrows and
/// `h`/`j`/`k`/`l`, wheel scrolling on shift+up/down, and three program
/// bindings.
pub open spec fn spec_default_rules() -> Seq<RuleV> {
    seq![
        RuleV {
            key: KeyId::LeftArrow,
            shift: ShiftRequirement::Any,
            action: ActionV::SwitchTo(Direction::Left),
            suppress: true,
            pending: true,
            description: "caps+left"@,
        },
        RuleV {
            key: KeyId::KeyH,
            shift: ShiftRequirement::Any,
            action: ActionV::SwitchTo(Direction::Left),
            suppress: true,
            pending: true,
            description: "caps+h"@,
        },
        RuleV {
            key: KeyId::RightArrow,
            shift: ShiftRequirement::Any,
            action: ActionV::SwitchTo(Direction::Right),
            suppress: true,
            pending: true,
            description: "caps+right"@,
        },
        RuleV {
            key: KeyId::KeyL,
            shift: ShiftRequirement::Any,
            action: ActionV::SwitchTo(Direction::Right),
            suppress: true,
            pending: true,
            description: "caps+l"@,
        },
        RuleV {
            key: KeyId::UpArrow,
            shift: ShiftRequirement::Down,
            action: ActionV::Scroll(1i32),
            suppress: true,
            pending: false,
            description: "caps+shift+up"@,
        },
        RuleV {
            key: KeyId::KeyK,
            shift: ShiftRequirement::Down,
            action: ActionV::Scroll(1i32),
            suppress: true,
            pending: false,
            description: "caps+shift+k"@,
        },
        RuleV {
            key: KeyId::UpArrow,
            shift: ShiftRequirement::Up,
            action: ActionV::SwitchTo(Direction::Up),
            suppress: true,
            pending: true,
            description: "caps+up"@,
        },
        RuleV {
            key: KeyId::KeyK,
            shift: ShiftRequirement::Up,
            action: ActionV::SwitchTo(Direction::Up),
            suppress: true,
            pending: true,
            description: "caps+k"@,
        },
        RuleV {
            key: KeyId::DownArrow,
            shift: ShiftRequirement::Down,
            action: ActionV::Scroll(-1i32),
            suppress: true,
            pending: false,
            description: "caps+shift+down"@,
        },
        RuleV {
            key: KeyId::KeyJ,
            shift: ShiftRequirement::Down,
            action: ActionV::Scroll(-1i32),
            suppress: true,
            pending: false,
            description: "caps+shift+j"@,
        },
        RuleV {
            key: KeyId::DownArrow,
            shift: ShiftRequirement::Up,
            action: ActionV::SwitchTo(Direction::Down),
            suppress: true,
            pending: true,
            description: "caps+down"@,
        },
        RuleV {
            key: KeyId::KeyJ,
            shift: ShiftRequirement::Up,
            action: ActionV::SwitchTo(Direction::Down),
            suppress: true,
            pending: true,
            description: "caps+j"@,
        },
        RuleV {
            key: KeyId::KeyE,
            shift: ShiftRequirement::Any,
            action: ActionV::OpenProgram { program: "notepad.exe"@ },
            suppress: true,
            pending: true,
            description: "caps+e"@,
        },
        RuleV {
            key: KeyId::KeyV,
            shift: ShiftRequirement::Any,
            action: ActionV::SwitchOrOpen { window_title: "Code"@, program: "Code.exe"@ },
            suppress: true,
            pending: true,
            description: "caps+v"@,
        },
        RuleV {
            key: KeyId::KeyP,
            shift: ShiftRequirement::Any,
            action: ActionV::SwitchOrOpen { window_title: "PowerShell"@, program: "pwsh.exe"@ },
            suppress: true,
            pending: true,
            description: "caps+p"@,
        },
    ]
}

/// The built-in rule table with the given tap action.
pub fn default_hotkey_config_with_tap(tap_action: Action) -> (r: HotkeyConfig)
    ensures
        r@.caps_tap_action == tap_action@,
        r@.rules == spec_default_rules(),
{
    let mut rules: Vec<HotkeyRule> = Vec::new();
    rules.push(
        mk_rule(
            KeyId::LeftArrow,
            ShiftRequirement::Any,
            Action::SwitchTo(Direction::Left),
            true,
            true,
            "caps+left",
        ),
    );
    rules.push(
        mk_rule(
            KeyId::KeyH,
            ShiftRequirement::Any,
            Action::SwitchTo(Direction::Left),
            true,
            true,
            "caps+h",
        ),
    );
    rules.push(
        mk_rule(
            KeyId::RightArrow,
            ShiftRequirement::Any,
            Action::SwitchTo(Direction::Right),
            true,
            true,
            "caps+right",
        ),
    );
    rules.push(
        mk_rule(
            KeyId::KeyL,
            ShiftRequirement::Any,
            Action::SwitchTo(Direction::Right),
            true,
            true,
            "caps+l",
        ),
    );
    rules.push(
        mk_rule(
            KeyId::UpArrow,
            ShiftRequirement::Down,
            Action::Scroll(1),
            true,
            false,
            "caps+shift+up",
        ),
    );
    rules.push(
        mk_rule(
            KeyId::KeyK,
            ShiftRequirement::Down,
            Action::Scroll(1),
            true,
            false,
            "caps+shift+k",
        ),
    );
    rules.push(
        mk_rule(
            KeyId::UpArrow,
            ShiftRequirement::Up,
            Action::SwitchTo(Direction::Up),
            true,
            true,
            "caps+up",
        ),
    );
    rules.push(
        mk_rule(
            KeyId::KeyK,
            ShiftRequirement::Up,
            Action::SwitchTo(Direction::Up),
            true,
            true,
            "caps+k",
        ),
    );
    rules.push(
        mk_rule(
            KeyId::DownArrow,
            ShiftRequirement::Down,
            Action::Scroll(-1),
            true,
            false,
            "caps+shift+down",
        ),
    );
    rules.push(
        mk_rule(
            KeyId::KeyJ,
            ShiftRequirement::Down,
            Action::Scroll(-1),
            true,
            false,
            "caps+shift+j",
        ),
    );
    rules.push(
        mk_rule(
            KeyId::DownArrow,
            ShiftRequirement::Up,
            Action::SwitchTo(Direction::Down),
            true,
            true,
            "caps+down",
        ),
    );
    rules.push(
        mk_rule(
            KeyId::KeyJ,
            ShiftRequirement::Up,
            Action::SwitchTo(Direction::Down),
            true,
            true,
            "caps+j",
        ),
    );
    rules.push(
        mk_rule(
            KeyId::KeyE,
            ShiftRequirement::Any,
            Action::OpenProgram { program: "notepad.exe".to_owned() },
            true,
            true,
            "caps+e",
        ),
    );
    rules.push(
        mk_rule(
            KeyId::KeyV,
            ShiftRequirement::Any,
            Action::SwitchOrOpen {
                window_title: "Code".to_owned(),
                program: "Code.exe".to_owned(),
            },
            true,
            true,
            "caps+v",
        ),
    );
    rules.push(
        mk_rule(
            KeyId::KeyP,
            ShiftRequirement::Any,
            Action::SwitchOrOpen {
                window_title: "PowerShell".to_owned(),
                program: "pwsh.exe".to_owned(),
            },
            true,
            true,
            "caps+p",
        ),
    );
    let r = HotkeyConfig { caps_tap_action: tap_action, rules };
    proof {
        assert(r@.rules =~= spec_default_rules());
    }
    r
}

/// The built-in configuration: the default rule table with input-method
/// switching as the tap action.
pub fn default_hotkey_config() -> (r: HotkeyConfig)
    ensures
        r@.caps_tap_action == ActionV::SwitchIme,
        r@.rules == spec_default_rules(),
{
    default_hotkey_config_with_tap(Action::SwitchIme)
}

/// The rule a binding record describes, or the error naming the field
/// that failed, prefixed with the binding's index.
pub open spec fn spec_binding_rule(b: BindingV, idx: int) -> Result<RuleV, Seq<char>> {
    match spec_parse_key(b.key) {
        None => Err("bindings["@ + dec_seq(idx) + "] unknown key: '"@ + b.key + "'"@),
        Some(key) => match spec_parse_action(b.action) {
            Err(e) => Err("bindings["@ + dec_seq(idx) + "] action error: "@ + e),
            Ok(action) => match spec_parse_shift(b.shift) {
                Err(e) => Err("bindings["@ + dec_seq(idx) + "] shift error: "@ + e),
                Ok(shift) => Ok(
                    RuleV {
                        key,
                        shift,
                        action,
                        suppress: match b.suppress {
                            Some(v) => v,
                            None => true,
                        },
                        pending: match b.pending {
                            Some(v) => v,
                            None => true,
                        },
                        description: "caps+"@ + b.key,
                    },
                ),
            },
        },
    }
}

/// The rules of `bs[start..]`, or the first error among them.
pub open spec fn spec_build_rules(bs: Seq<BindingV>, start: int) -> Result<Seq<RuleV>, Seq<char>>
    decreases bs.len() - start,
{
    if start < 0 || start >= bs.len() {
        Ok(Seq::empty())
    } else {
        match spec_binding_rule(bs[start], start) {
            Err(e) => Err(e),
            Ok(rule) => match spec_build_rules(bs, start + 1) {
                Err(e) => Err(e),
                Ok(rest) => Ok(seq![rule] + rest),
            },
        }
    }
}

proof fn lemma_build_rules_prefix(bs: Seq<BindingV>, i: int)
    requires
        0 <= i <= bs.len(),
        forall|j: int| 0 <= j < i ==> spec_binding_rule(bs[j], j) is Ok,
    ensures
        match spec_build_rules(bs, i) {
            Ok(rest) => spec_build_rules(bs, 0) == Ok::<Seq<RuleV>, Seq<char>>(
                Seq::new(i as nat, |j: int| spec_binding_rule(bs[j], j)->Ok_0) + rest,
            ),
            Err(e) => spec_build_rules(bs, 0) == Err::<Seq<RuleV>, Seq<char>>(e),
        },
    decreases i,
{
    if i == 0 {
        match spec_build_rules(bs, 0) {
            Ok(rest) => {
                assert(Seq::new(0, |j: int| spec_binding_rule(bs[j], j)->Ok_0) + rest =~= rest);
                assert(spec_build_rules(bs, 0) == Ok::<Seq<RuleV>, Seq<char>>(
                    Seq::new(0, |j: int| spec_binding_rule(bs[j], j)->Ok_0) + rest,
                ));
            },
            Err(_) => {},
        }
    } else {
        lemma_build_rules_prefix(bs, i - 1);
        let rule = spec_binding_rule(bs[i - 1], i - 1)->Ok_0;
        match spec_build_rules(bs, i) {
            Ok(rest) => {
                assert(spec_build_rules(bs, i - 1) == Ok::<Seq<RuleV>, Seq<char>>(
                    seq![rule] + rest,
                ));
                assert(Seq::new((i - 1) as nat, |j: int| spec_binding_rule(bs[j], j)->Ok_0) + (
                seq![rule] + rest) =~= Seq::new(
                    i as nat,
                    |j: int| spec_binding_rule(bs[j], j)->Ok_0,
                ) + rest);
            },
            Err(e) => {
                assert(spec_build_rules(bs, i - 1) == Err::<Seq<RuleV>, Seq<char>>(e));
            },
        }
    }
}

/// The configuration the file contents describe: the tap action parsed
/// from its field (input-method switching when missing), and the rules
/// built from the bindings in order, stopping at the first bad one. A
/// missing or empty binding list yields the complete built-in rule
/// table.
pub open spec fn spec_build_config(
    tap_action: Option<Seq<char>>,
    bindings: Option<Seq<BindingV>>,
) -> Result<ConfigV, Seq<char>> {
    let tap = match tap_action {
        None => Ok(ActionV::SwitchIme),
        Some(s) => spec_parse_action(s),
    };
    match tap {
        Err(e) => Err(e),
        Ok(t) => match bindings {
            None => Ok(ConfigV { caps_tap_action: t, rules: spec_default_rules() }),
            Some(bs) => if bs.len() == 0 {
                Ok(ConfigV { caps_tap_action: t, rules: spec_default_rules() })
            } else {
                match spec_build_rules(bs, 0) {
                    Err(e) => Err(e),
                    Ok(rules) => Ok(ConfigV { caps_tap_action: t, rules }),
                }
            },
        },
    }
}

/// A missing or empty binding list falls back to the complete built-in
/// rule table, never to an empty one.
pub proof fn lemma_empty_bindings_use_defaults(
    tap_action: Option<Seq<char>>,
    bindings: Option<Seq<BindingV>>,
)
    requires
        bindings is None || bindings.unwrap().len() == 0,
    ensures
        match spec_build_config(tap_action, bindings) {
            Ok(c) => c.rules == spec_default_rules() && c.rules.len() == 15,
            Err(_) => true,
        },
{
    assert(spec_default_rules().len() == 15);
}

/// Builds the hotkey configuration from the fields of the configuration
/// file.
#[verifier::loop_isolation(false)]
#[verifier::rlimit(50)]
pub fn build_config_from_file(tap_action: Option<&str>, bindings: Option<Vec<Binding>>) -> (r:
    Result<HotkeyConfig, String>)
    ensures
        match (r, spec_build_config(opt_view(tap_action), opt_bindings_views(bindings))) {
            (Ok(c), Ok(s)) => c@ == s,
            (Err(m), Err(e)) => m@ == e,
            _ => false,
        },
{
    let ghost b0 = bindings;
    let tap = match tap_action {
        None => Action::SwitchIme,
        Some(s) => match parse_action(s) {
            Ok(a) => a,
            Err(e) => {
                return Err(e);
            },
        },
    };
    let bs = match bindings {
        None => {
            return Ok(default_hotkey_config_with_tap(tap));
        },
        Some(bs) => bs,
    };
    if bs.len() == 0 {
        return Ok(default_hotkey_config_with_tap(tap));
    }
    let ghost bsv = bindings_views(bs@);
    proof {
        assert(opt_bindings_views(b0) == Some(bsv));
    }
    let mut rules: Vec<HotkeyRule> = Vec::new();
    let n: usize = bs.len();
    let mut i: usize = 0;
    while i < n
        invariant
            0 <= i <= n,
            bsv.len() == n,
            forall|j: int| 0 <= j < i ==> #[trigger] spec_binding_rule(bsv[j], j) is Ok,
            rules_views(rules@) =~= Seq::new(
                i as nat,
                |j: int| spec_binding_rule(bsv[j], j)->Ok_0,
            ),
        decreases n - i,
    {
        let b = &bs[i];
        proof {
            assert(bsv[i as int] == b@);
        }
        let key = match parse_key(b.key.as_str()) {
            Some(k) => k,
            None => {
                let mut msg = "bindings[".to_owned();
                msg.append(usize_string(i).as_str());
                msg.append("] unknown key: '");
                msg.append(b.key.as_str());
                msg.append("'");
                proof {
                    assert(msg@ =~= "bindings["@ + dec_seq(i as int) + "] unknown key: '"@
                        + bsv[i as int].key + "'"@);
                    lemma_build_rules_prefix(bsv, i as int);
                }
                return Err(msg);
            },
        };
        let action = match parse_action(b.action.as_str()) {
            Ok(a) => a,
            Err(e) => {
                let mut msg = "bindings[".to_owned();
                msg.append(usize_string(i).as_str());
                msg.append("] action error: ");
                msg.append(e.as_str());
                proof {
                    assert(msg@ =~= "bindings["@ + dec_seq(i as int) + "] action error: "@ + e@);
                    lemma_build_rules_prefix(bsv, i as int);
                }
                return Err(msg);
            },
        };
        let shift_field = match &b.shift {
            Some(s) => Some(s.as_str()),
            None => None,
        };
        let shift = match parse_shift(shift_field) {
            Ok(s) => s,
            Err(e) => {
                let mut msg = "bindings[".to_owned();
                msg.append(usize_string(i).as_str());
                msg.append("] shift error: ");
                msg.append(e.as_str());
                proof {
                    assert(msg@ =~= "bindings["@ + dec_seq(i as int) + "] shift error: "@ + e@);
                    lemma_build_rules_prefix(bsv, i as int);
                }
                return Err(msg);
            },
        };
        let suppress = match b.suppress {
            Some(v) => v,
            None => true,
        };
        let pending = match b.pending {
            Some(v) => v,
            None => true,
        };
        let mut description = "caps+".to_owned();
        description.append(b.key.as_str());
        let rule = HotkeyRule { key, shift, action, suppress, pending, description };
        let ghost prevr = rules@;
        let ghost rg = rule;
        rules.push(rule);
        proof {
            assert(rg@ == spec_binding_rule(bsv[i as int], i as int)->Ok_0);
            assert(rules@ == prevr.push(rg));
            assert forall|m: int| 0 <= m < i + 1 implies #[trigger] rules_views(rules@)[m]
                == Seq::new((i + 1) as nat, |j: int| spec_binding_rule(bsv[j], j)->Ok_0)[m] by {
                if m < i {
                    assert(rules@[m] == prevr[m]);
                    assert(rules_views(prevr)[m] == prevr[m]@);
                    assert(rules_views(prevr)[m] == Seq::new(
                        i as nat,
                        |j: int| spec_binding_rule(bsv[j], j)->Ok_0,
                    )[m]);
                } else {
                    assert(rules@[m] == rg);
                }
            }
            assert(rules_views(rules@) =~= Seq::new(
                (i + 1) as nat,
                |j: int| spec_binding_rule(bsv[j], j)->Ok_0,
            ));
        }
        i = i + 1;
    }
    proof {
        lemma_build_rules_prefix(bsv, n as int);
        assert(spec_build_rules(bsv, n as int) == Ok::<Seq<RuleV>, Seq<char>>(Seq::empty()));
        match spec_build_rules(bsv, 0) {
            Ok(all) => {
                assert(all =~= Seq::new(
                    n as nat,
                    |j: int| spec_binding_rule(bsv[j], j)->Ok_0,
                ) + Seq::empty());
                assert(all =~= rules_views(rules@));
            },
            Err(_) => {
                assert(false);
            },
        }
    }
    Ok(HotkeyConfig { caps_tap_action: tap, rules })
}

/// The binding record that renders `rule` back into configuration-file
/// fields.
pub open spec fn spec_rule_binding(rule: RuleV) -> BindingV {
    BindingV {
        key: spec_key_string(rule.key),
        action: spec_action_string(rule.action),
        shift: match rule.shift {
            ShiftRequirement::Any => None,
            ShiftRequirement::Down => Some("down"@),
            ShiftRequirement::Up => Some("up"@),
        },
        suppress: Some(rule.suppress),
        pending: Some(rule.pending),
    }
}

/// The binding records that render a whole rule list.
pub open spec fn spec_file_bindings(rules: Seq<RuleV>) -> Seq<BindingV> {
    rules.map_values(|rule: RuleV| spec_rule_binding(rule))
}

/// Renders a configuration back into file fields: the tap-action text
/// and one binding record per rule.
pub fn config_to_file(cfg: &HotkeyConfig) -> (r: (String, Vec<Binding>))
    ensures
        r.0@ == spec_action_string(cfg@.caps_tap_action),
        bindings_views(r.1@) == spec_file_bindings(cfg@.rules),
{
    let tap = action_to_string(&cfg.caps_tap_action);
    let mut bindings: Vec<Binding> = Vec::new();
    let n: usize = cfg.rules.len();
    let mut i: usize = 0;
    while i < n
        invariant
            n == cfg.rules.len(),
            0 <= i <= n,
            bindings@.len() == i,
            bindings_views(bindings@) =~= spec_file_bindings(cfg@.rules.take(i as int)),
        decreases n - i,
    {
        let rule = &cfg.rules[i];
        let shift = match rule.shift {
            ShiftRequirement::Any => None,
            ShiftRequirement::Down => Some("down".to_owned()),
            ShiftRequirement::Up => Some("up".to_owned()),
        };
        let b = Binding {
            key: key_to_string(rule.key),
            action: action_to_string(&rule.action),
            shift,
            suppress: Some(rule.suppress),
            pending: Some(rule.pending),
        };
        let ghost prev = bindings@;
        let ghost bex = b;
        let ghost bv = b@;
        bindings.push(b);
        proof {
            assert(cfg@.rules[i as int] == cfg.rules@[i as int]@);
            assert(bv == spec_rule_binding(cfg@.rules[i as int]));
            assert(bindings@ == prev.push(bex));
            assert forall|m: int| 0 <= m < i + 1 implies #[trigger] bindings_views(bindings@)[m]
                == spec_file_bindings(cfg@.rules.take(i + 1))[m] by {
                assert(bindings_views(bindings@)[m] == bindings@[m]@);
                assert(spec_file_bindings(cfg@.rules.take(i + 1))[m] == spec_rule_binding(
                    cfg@.rules.take(i + 1)[m],
                ));
                if m < i {
                    assert(bindings@[m] == prev[m]);
                    assert(bindings_views(prev)[m] == prev[m]@);
                    assert(bindings_views(prev)[m] == spec_file_bindings(
                        cfg@.rules.take(i as int),
                    )[m]);
                    assert(spec_file_bindings(cfg@.rules.take(i as int))[m] == spec_rule_binding(
                        cfg@.rules.take(i as int)[m],
                    ));
                } else {
                    assert(bindings@[m] == bex);
                }
            }
            assert(bindings_views(bindings@) =~= spec_file_bindings(cfg@.rules.take(i + 1)));
        }
        i = i + 1;
    }
    proof {
        assert(cfg@.rules.take(n as int) =~= cfg@.rules);
    }
    (tap, bindings)
}

} // verus!
