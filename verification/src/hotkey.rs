//! The key-event state machine: for every physical key transition it
//! updates the interception state and decides which action fires and
//! whether the event is withheld from the rest of the system.

use vstd::prelude::*;

use crate::config::{spec_resolve, ConfigV, HotkeyConfig};
use crate::keys::KeyId;
use crate::state::{Action, ActionV, State};

verus! {

/// The complete outcome of one key event: the state afterwards, the
/// action that fires, and whether the event is suppressed.
#[verifier::ext_equal]
pub struct StepV {
    pub state: State,
    pub action: ActionV,
    pub suppress: bool,
}

/// What one key event does, in priority order: a pending key's repeats
/// and release are absorbed first; then the primary modifier updates its
/// flag, always suppressed, firing the tap action when released with no
/// action taken; then the secondary modifier updates its flag and passes
/// through; then, while the primary modifier is held, a press resolves
/// against the rule table; everything else passes through untouched.
pub open spec fn spec_on_event(cfg: ConfigV, s: State, key: KeyId, is_pressing: bool) -> StepV {
    if s.pending_key == Some(key) {
        if is_pressing {
            if s.caps_lock_pressing {
                StepV { state: s, action: ActionV::Nothing, suppress: true }
            } else {
                StepV { state: s, action: ActionV::Nothing, suppress: false }
            }
        } else {
            StepV {
                state: State {
                    caps_lock_pressing: s.caps_lock_pressing,
                    lshift_pressing: s.lshift_pressing,
                    pending_key: None,
                    operations: s.operations,
                },
                action: ActionV::Nothing,
                suppress: true,
            }
        }
    } else if key == KeyId::CapsLock {
        if s.caps_lock_pressing != is_pressing {
            StepV {
                state: State {
                    caps_lock_pressing: is_pressing,
                    lshift_pressing: s.lshift_pressing,
                    pending_key: s.pending_key,
                    operations: if is_pressing {
                        false
                    } else {
                        s.operations
                    },
                },
                action: if !is_pressing && !s.operations {
                    cfg.caps_tap_action
                } else {
                    ActionV::Nothing
                },
                suppress: true,
            }
        } else {
            StepV { state: s, action: ActionV::Nothing, suppress: true }
        }
    } else if key == KeyId::ShiftLeft {
        StepV {
            state: State {
                caps_lock_pressing: s.caps_lock_pressing,
                lshift_pressing: is_pressing,
                pending_key: s.pending_key,
                operations: true,
            },
            action: ActionV::Nothing,
            suppress: false,
        }
    } else if s.caps_lock_pressing && is_pressing {
        match spec_resolve(cfg.rules, key, s.lshift_pressing) {
            Some(i) => {
                let rule = cfg.rules[i];
                StepV {
                    state: State {
                        caps_lock_pressing: s.caps_lock_pressing,
                        lshift_pressing: s.lshift_pressing,
                        pending_key: if rule.pending {
                            Some(key)
                        } else {
                            s.pending_key
                        },
                        operations: true,
                    },
                    action: rule.action,
                    suppress: rule.suppress,
                }
            },
            None => StepV { state: s, action: ActionV::Nothing, suppress: false },
        }
    } else {
        StepV { state: s, action: ActionV::Nothing, suppress: false }
    }
}

/// Handles one key event: updates the interception state and returns the
/// action that fires together with the suppress verdict.
pub fn on_event(state: &mut State, config: &HotkeyConfig, key: KeyId, is_pressing: bool) -> (r: (
    Action,
    bool,
))
    ensures
        *final(state) == spec_on_event(config@, *old(state), key, is_pressing).state,
        r.0@ == spec_on_event(config@, *old(state), key, is_pressing).action,
        r.1 == spec_on_event(config@, *old(state), key, is_pressing).suppress,
{
    let pending_match = match state.pending_key {
        Some(k) => k == key,
        None => false,
    };
    if pending_match {
        if is_pressing {
            if state.caps_lock_pressing {
                return (Action::Nothing, true);
            }
            return (Action::Nothing, false);
        }
        state.pending_key = None;
        return (Action::Nothing, true);
    }
    if key == KeyId::CapsLock {
        if state.caps_lock_pressing != is_pressing {
            state.caps_lock_pressing = is_pressing;
            if is_pressing {
                state.operations = false;
                return (Action::Nothing, true);
            }
            if !state.operations {
                return (config.caps_tap_action.duplicate(), true);
            }
        }
        return (Action::Nothing, true);
    }
    if key == KeyId::ShiftLeft {
        state.lshift_pressing = is_pressing;
        state.operations = true;
        return (Action::Nothing, false);
    }
    if state.caps_lock_pressing && is_pressing {
        match config.resolve(key, state.lshift_pressing) {
            Some(rule) => {
                if rule.pending {
                    state.pending_key = Some(key);
                }
                state.operations = true;
                return (rule.action.duplicate(), rule.suppress);
            },
            None => {
                return (Action::Nothing, false);
            },
        }
    }
    (Action::Nothing, false)
}

/// How far one wheel event turns per scroll step.
pub const WHEEL_DELTA_UNIT: i32 = 120;

/// The wheel movement for a scroll action of `delta` steps: one fixed
/// wheel unit per step.
pub fn scroll_wheel_amount(delta: i32) -> (r: i32)
    requires
        -17895697 <= delta <= 17895697,
    ensures
        r == delta * WHEEL_DELTA_UNIT,
{
    delta * WHEEL_DELTA_UNIT
}

/// The states and actions of a whole event sequence: the state after
/// every event has been handled, and the action each event fired, in
/// order.
pub open spec fn spec_run(cfg: ConfigV, s: State, events: Seq<(KeyId, bool)>) -> (State, Seq<
    ActionV,
>)
    decreases events.len(),
{
    if events.len() == 0 {
        (s, Seq::empty())
    } else {
        let step = spec_on_event(cfg, s, events[0].0, events[0].1);
        let rest = spec_run(cfg, step.state, events.skip(1));
        (rest.0, seq![step.action] + rest.1)
    }
}

/// While a key is pending and the primary modifier stays held, repeated
/// press events of that key change nothing and fire nothing.
pub proof fn lemma_repeat_press_absorbed(cfg: ConfigV, s: State, key: KeyId)
    requires
        s.pending_key == Some(key),
        s.caps_lock_pressing,
    ensures
        spec_on_event(cfg, s, key, true) == (StepV {
            state: s,
            action: ActionV::Nothing,
            suppress: true,
        }),
{
}

/// Pressing a bound key while the primary modifier is held fires the
/// resolved rule's action and, for a pending rule, records the key as
/// pending.
pub proof fn lemma_bound_press_fires(cfg: ConfigV, s: State, key: KeyId, i: int)
    requires
        s.pending_key != Some(key),
        key != KeyId::CapsLock,
        key != KeyId::ShiftLeft,
        s.caps_lock_pressing,
        spec_resolve(cfg.rules, key, s.lshift_pressing) == Some(i),
        0 <= i < cfg.rules.len(),
    ensures
        spec_on_event(cfg, s, key, true).action == cfg.rules[i].action,
        cfg.rules[i].pending ==> spec_on_event(cfg, s, key, true).state.pending_key == Some(key),
        spec_on_event(cfg, s, key, true).state.operations,
        spec_on_event(cfg, s, key, true).state.caps_lock_pressing,
{
}

/// Pressing a bound key with a pending rule, letting the keyboard
/// auto-repeat the press any number of times, and then releasing the key,
/// all while the primary modifier stays held, fires the rule's action
/// exactly once: on the first press, with every repeat and the release
/// absorbed.
pub proof fn lemma_action_fires_once_under_repeat(cfg: ConfigV, s: State, key: KeyId, n: nat)
    requires
        s.pending_key != Some(key),
        key != KeyId::CapsLock,
        key != KeyId::ShiftLeft,
        s.caps_lock_pressing,
        spec_resolve(cfg.rules, key, s.lshift_pressing) is Some,
        cfg.rules[spec_resolve(cfg.rules, key, s.lshift_pressing).unwrap()].pending,
    ensures
        ({
            let rule = cfg.rules[spec_resolve(cfg.rules, key, s.lshift_pressing).unwrap()];
            let events = seq![(key, true)] + Seq::new(n, |m: int| (key, true)) + seq![
                (key, false),
            ];
            let run = spec_run(cfg, s, events);
            run.1 == seq![rule.action] + Seq::new(n, |m: int| ActionV::Nothing) + seq![
                ActionV::Nothing,
            ] && run.0.pending_key is None && run.0.caps_lock_pressing
        }),
{
    crate::config::lemma_resolve_characterization(cfg.rules, key, s.lshift_pressing);
    let i = spec_resolve(cfg.rules, key, s.lshift_pressing).unwrap();
    let rule = cfg.rules[i];
    let events = seq![(key, true)] + Seq::new(n, |m: int| (key, true)) + seq![(key, false)];
    let first = spec_on_event(cfg, s, key, true);
    assert(first.action == rule.action);
    assert(first.state.pending_key == Some(key));
    assert(events[0] == (key, true));
    let middle = Seq::new(n, |m: int| (key, true)) + seq![(key, false)];
    assert(events.skip(1) =~= middle);
    lemma_repeats_then_release(cfg, first.state, key, n);
    let run_rest = spec_run(cfg, first.state, middle);
    assert(spec_run(cfg, s, events).1 =~= seq![rule.action] + run_rest.1);
    assert(seq![rule.action] + (Seq::new(n, |m: int| ActionV::Nothing) + seq![ActionV::Nothing])
        =~= seq![rule.action] + Seq::new(n, |m: int| ActionV::Nothing) + seq![ActionV::Nothing]);
}

/// From a state where `key` is pending and the primary modifier is held,
/// `n` repeat presses followed by one release fire nothing and leave the
/// key no longer pending.
proof fn lemma_repeats_then_release(cfg: ConfigV, s: State, key: KeyId, n: nat)
    requires
        s.pending_key == Some(key),
        s.caps_lock_pressing,
    ensures
        ({
            let events = Seq::new(n, |m: int| (key, true)) + seq![(key, false)];
            let run = spec_run(cfg, s, events);
            run.1 == Seq::new(n, |m: int| ActionV::Nothing) + seq![ActionV::Nothing]
                && run.0.pending_key is None && run.0.caps_lock_pressing == s.caps_lock_pressing
                && run.0.lshift_pressing == s.lshift_pressing && run.0.operations == s.operations
        }),
    decreases n,
{
    let events = Seq::new(n, |m: int| (key, true)) + seq![(key, false)];
    if n == 0 {
        assert(events =~= seq![(key, false)]);
        assert(events.skip(1) =~= Seq::<(KeyId, bool)>::empty());
        let release = spec_on_event(cfg, s, key, false);
        assert(release.action == ActionV::Nothing);
        assert(release.state.pending_key is None);
        assert(spec_run(cfg, release.state, events.skip(1)) == (
            release.state,
            Seq::<ActionV>::empty(),
        ));
        assert(spec_run(cfg, s, events).1 == seq![release.action] + Seq::<ActionV>::empty());
        assert(spec_run(cfg, s, events).1 =~= Seq::new(0, |m: int| ActionV::Nothing) + seq![
            ActionV::Nothing,
        ]);
    } else {
        assert(events[0] == (key, true));
        lemma_repeat_press_absorbed(cfg, s, key);
        lemma_repeats_then_release(cfg, s, key, (n - 1) as nat);
        let shorter = Seq::new((n - 1) as nat, |m: int| (key, true)) + seq![(key, false)];
        assert(events.skip(1) =~= shorter);
        let run_shorter = spec_run(cfg, s, shorter);
        assert(spec_run(cfg, s, events).1 =~= seq![ActionV::Nothing] + run_shorter.1);
        assert(seq![ActionV::Nothing] + (Seq::new((n - 1) as nat, |m: int| ActionV::Nothing)
            + seq![ActionV::Nothing]) =~= Seq::new(n, |m: int| ActionV::Nothing) + seq![
            ActionV::Nothing,
        ]);
    }
}

/// Releasing the primary modifier fires the tap action exactly when no
/// other action was taken while it was held; either way the modifier is
/// recorded as released and the event is suppressed.
pub proof fn lemma_modifier_release_tap(cfg: ConfigV, s: State)
    requires
        s.caps_lock_pressing,
        s.pending_key != Some(KeyId::CapsLock),
    ensures
        spec_on_event(cfg, s, KeyId::CapsLock, false).action == (if s.operations {
            ActionV::Nothing
        } else {
            cfg.caps_tap_action
        }),
        !spec_on_event(cfg, s, KeyId::CapsLock, false).state.caps_lock_pressing,
        spec_on_event(cfg, s, KeyId::CapsLock, false).suppress,
{
}

} // verus!
