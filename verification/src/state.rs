//! Core value types of the engine: compass directions, the interception
//! state that persists across key events, and the actions a rule can fire.

use vstd::prelude::*;

use crate::keys::KeyId;

verus! {

/// A compass direction for window switching.
#[derive(Debug, Copy, Clone, PartialEq, Eq, Structural)]
pub enum Direction {
    Up,
    Down,
    Left,
    Right,
}

impl Direction {
    /// The canonical target angle of this direction, in millidegrees:
    /// `Right` is 0, `Up` is -90 000, `Down` is 90 000, `Left` is 180 000.
    pub fn angle(self) -> (a: i64)
        ensures
            a == self.spec_angle(),
    {
        match self {
            Direction::Up => -90_000,
            Direction::Down => 90_000,
            Direction::Left => 180_000,
            Direction::Right => 0,
        }
    }

    pub open spec fn spec_angle(self) -> i64 {
        match self {
            Direction::Up => -90_000i64,
            Direction::Down => 90_000i64,
            Direction::Left => 180_000i64,
            Direction::Right => 0i64,
        }
    }
}

/// The mutable interception state: which modifiers are held, which key's
/// repeats and release are being absorbed, and whether any action has
/// fired since the primary modifier went down.
#[derive(Debug, Copy, Clone, PartialEq, Eq)]
pub struct State {
    /// The primary modifier key is physically held.
    pub caps_lock_pressing: bool,
    /// The secondary modifier key is physically held.
    pub lshift_pressing: bool,
    /// A key whose press already fired an action and whose repeats and
    /// release are absorbed until it is released.
    pub pending_key: Option<KeyId>,
    /// An action has fired since the primary modifier was last pressed;
    /// releasing the modifier then does not fire the tap action.
    pub operations: bool,
}

impl State {
    /// The startup state: nothing held, nothing pending, no action taken.
    pub fn new() -> (s: Self)
        ensures
            s == State::initial(),
    {
        State {
            caps_lock_pressing: false,
            lshift_pressing: false,
            pending_key: None,
            operations: false,
        }
    }

    pub open spec fn initial() -> State {
        State {
            caps_lock_pressing: false,
            lshift_pressing: false,
            pending_key: None,
            operations: false,
        }
    }
}

/// What a resolved rule does. Actions are constructed once, dispatched
/// once, and discarded.
#[derive(Debug, Clone)]
pub enum Action {
    /// No effect; the event is handled by suppression alone or not at all.
    Nothing,
    /// Focus the best window in the given direction.
    SwitchTo(Direction),
    /// Send a vertical wheel scroll of the given sign and magnitude.
    Scroll(i32),
    /// Toggle the input method of the foreground window.
    SwitchIme,
    /// Launch the given program.
    OpenProgram { program: String },
    /// Focus the first window whose title matches.
    SwitchWindow { title: String },
    /// Focus the first window whose title matches, or launch the program.
    SwitchOrOpen { window_title: String, program: String },
}

/// The mathematical value of an [`Action`], with strings as character
/// sequences.
#[verifier::ext_equal]
pub enum ActionV {
    Nothing,
    SwitchTo(Direction),
    Scroll(i32),
    SwitchIme,
    OpenProgram { program: Seq<char> },
    SwitchWindow { title: Seq<char> },
    SwitchOrOpen { window_title: Seq<char>, program: Seq<char> },
}

impl View for Action {
    type V = ActionV;

    open spec fn view(&self) -> ActionV {
        match self {
            Action::Nothing => ActionV::Nothing,
            Action::SwitchTo(d) => ActionV::SwitchTo(*d),
            Action::Scroll(n) => ActionV::Scroll(*n),
            Action::SwitchIme => ActionV::SwitchIme,
            Action::OpenProgram { program } => ActionV::OpenProgram { program: program@ },
            Action::SwitchWindow { title } => ActionV::SwitchWindow { title: title@ },
            Action::SwitchOrOpen { window_title, program } => ActionV::SwitchOrOpen {
                window_title: window_title@,
                program: program@,
            },
        }
    }
}

impl Action {
    /// A copy of this action whose value is known to equal the original.
    pub fn duplicate(&self) -> (r: Action)
        ensures
            r@ == self@,
    {
        match self {
            Action::Nothing => Action::Nothing,
            Action::SwitchTo(d) => Action::SwitchTo(*d),
            Action::Scroll(n) => Action::Scroll(*n),
            Action::SwitchIme => Action::SwitchIme,
            Action::OpenProgram { program } => Action::OpenProgram { program: program.clone() },
            Action::SwitchWindow { title } => Action::SwitchWindow { title: title.clone() },
            Action::SwitchOrOpen { window_title, program } => Action::SwitchOrOpen {
                window_title: window_title.clone(),
                program: program.clone(),
            },
        }
    }
}

impl PartialEq for Action {
    fn eq(&self, other: &Action) -> (r: bool) {
        match (self, other) {
            (Action::Nothing, Action::Nothing) => true,
            (Action::SwitchTo(a), Action::SwitchTo(b)) => *a == *b,
            (Action::Scroll(a), Action::Scroll(b)) => *a == *b,
            (Action::SwitchIme, Action::SwitchIme) => true,
            (Action::OpenProgram { program: a }, Action::OpenProgram { program: b }) => *a == *b,
            (Action::SwitchWindow { title: a }, Action::SwitchWindow { title: b }) => *a == *b,
            (
                Action::SwitchOrOpen { window_title: at, program: ap },
                Action::SwitchOrOpen { window_title: bt, program: bp },
            ) => *at == *bt && *ap == *bp,
            _ => false,
        }
    }
}

impl vstd::std_specs::cmp::PartialEqSpecImpl for Action {
    open spec fn obeys_eq_spec() -> bool {
        true
    }

    open spec fn eq_spec(&self, other: &Action) -> bool {
        self@ == other@
    }
}

} // verus!
