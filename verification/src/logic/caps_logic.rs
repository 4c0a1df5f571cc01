use vstd::prelude::*;

verus! {

/// What a finished Caps Lock press asks for.
#[derive(Debug, Clone, Copy, PartialEq, Eq, Structural)]
pub enum CapsAction {
    /// Toggle the input method (a short tap).
    SwitchIme,
    /// Drive the Caps Lock state to the given value.
    SetCaps(bool),
}

/// A press shorter than this many milliseconds counts as a tap.
pub const CAPS_TAP_THRESHOLD_MS: u64 = 300;

/// A press held under the threshold is a tap and switches the input method;
/// a longer one turns Caps Lock on.
pub open spec fn spec_decide_caps_action(held_ms: u64) -> CapsAction {
    if held_ms < CAPS_TAP_THRESHOLD_MS {
        CapsAction::SwitchIme
    } else {
        CapsAction::SetCaps(true)
    }
}

/// The action for a Caps Lock press held `held_ms` whole milliseconds.
///
/// The hold time is counted in whole (floored) milliseconds: for any hold time
/// `t >= 0`, `t < 300` holds exactly when `floor(t) < 300`, so the decision is
/// the one made on the exact time.
pub fn decide_caps_action(held_ms: u64) -> (action: CapsAction)
    ensures
        action == spec_decide_caps_action(held_ms),
{
    if held_ms < CAPS_TAP_THRESHOLD_MS {
        CapsAction::SwitchIme
    } else {
        CapsAction::SetCaps(true)
    }
}

/// Whether pressing Shift should switch Caps Lock off.
pub fn should_turn_caps_off_on_shift(caps_on: bool) -> (off: bool)
    ensures
        off == caps_on,
{
    caps_on
}

} // verus!
