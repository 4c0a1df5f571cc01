use vstd::prelude::*;

use crate::logic::caps_logic::{
    decide_caps_action, should_turn_caps_off_on_shift, spec_decide_caps_action, CapsAction,
    CAPS_TAP_THRESHOLD_MS,
};

verus! {

/// Message number of a key press delivered to a low-level keyboard hook.
pub const WM_KEYDOWN: u32 = 0x0100;

/// Message number of a key release delivered to a low-level keyboard hook.
pub const WM_KEYUP: u32 = 0x0101;

/// Message number of a system key press (Alt held).
pub const WM_SYSKEYDOWN: u32 = 0x0104;

/// Message number of a system key release (Alt held).
pub const WM_SYSKEYUP: u32 = 0x0105;

/// Virtual-key code of the generic Shift key.
pub const VK_SHIFT: u16 = 0x10;

/// Virtual-key code of the left Shift key.
pub const VK_LSHIFT: u16 = 0xA0;

/// Virtual-key code of the right Shift key.
pub const VK_RSHIFT: u16 = 0xA1;

/// Virtual-key code of Caps Lock.
pub const VK_CAPITAL: u16 = 0x14;

/// Virtual-key code of Control.
pub const VK_CONTROL: u16 = 0x11;

/// Virtual-key code of the space bar.
pub const VK_SPACE: u16 = 0x20;

/// How long the simulated keystrokes of an action keep the hook out of the way.
pub const CAPS_TAP_DELAY_MS: u64 = 50;

/// Nanoseconds in one millisecond.
pub const NANOS_PER_MILLI: u64 = 1_000_000;

/// One call of the low-level keyboard hook, with everything the decision reads.
///
/// `now_ns` is a reading of a monotonic clock in nanoseconds; `caps_on` is the
/// Caps Lock toggle state at the time of the call; `simulating` says whether a
/// simulated keystroke of this interceptor is in flight.
#[derive(Debug, Clone, Copy, PartialEq, Eq)]
pub struct KeyEvent {
    pub code: i32,
    pub message: u32,
    pub vk_code: u32,
    pub injected: bool,
    pub simulating: bool,
    pub caps_on: bool,
    pub now_ns: u64,
}

/// What the hook remembers between calls: whether Caps Lock is held, and since when.
#[derive(Debug, Clone, Copy, PartialEq, Eq)]
pub struct HookState {
    pub caps_pressed: bool,
    pub caps_at: Option<u64>,
}

/// The answer of the hook to one key event.
///
/// `swallow` means the event is not passed on to the next hook; `action` is
/// the work to start on a separate thread.
#[derive(Debug, Clone, Copy, PartialEq, Eq)]
pub struct HookVerdict {
    pub swallow: bool,
    pub action: Option<CapsAction>,
}

/// A single simulated key transition.
#[derive(Debug, Clone, Copy, PartialEq, Eq)]
pub struct Keystroke {
    pub vk: u16,
    pub key_up: bool,
}

pub open spec fn is_press_message(message: u32) -> bool {
    message == WM_KEYDOWN || message == WM_SYSKEYDOWN
}

pub open spec fn is_release_message(message: u32) -> bool {
    message == WM_KEYUP || message == WM_SYSKEYUP
}

pub open spec fn is_shift_key(vk_code: u32) -> bool {
    vk_code == VK_SHIFT as u32 || vk_code == VK_LSHIFT as u32 || vk_code == VK_RSHIFT as u32
}

/// Whole milliseconds between a press at `at` and `now` (no time if no press was seen).
pub open spec fn held_millis(at: Option<u64>, now: u64) -> u64 {
    match at {
        Some(t) => if now >= t { ((now - t) / (NANOS_PER_MILLI as int)) as u64 } else { 0 },
        None => 0,
    }
}

pub open spec fn pass_on() -> HookVerdict {
    HookVerdict { swallow: false, action: None }
}

/// The keyboard hook as a state machine: the state after an event and the verdict on it.
pub open spec fn hook_transition(s: HookState, ev: KeyEvent) -> (HookState, HookVerdict) {
    if ev.code < 0 || ev.injected || ev.simulating {
        (s, pass_on())
    } else if is_shift_key(ev.vk_code) {
        if is_press_message(ev.message) && ev.caps_on {
            (s, HookVerdict { swallow: false, action: Some(CapsAction::SetCaps(false)) })
        } else {
            (s, pass_on())
        }
    } else if ev.vk_code != VK_CAPITAL as u32 {
        (s, pass_on())
    } else if is_press_message(ev.message) {
        if s.caps_pressed {
            (s, HookVerdict { swallow: true, action: None })
        } else {
            (
                HookState { caps_pressed: true, caps_at: Some(ev.now_ns) },
                HookVerdict { swallow: true, action: None },
            )
        }
    } else if is_release_message(ev.message) {
        if s.caps_pressed {
            (
                HookState { caps_pressed: false, caps_at: None },
                HookVerdict {
                    swallow: true,
                    action: Some(spec_decide_caps_action(held_millis(s.caps_at, ev.now_ns))),
                },
            )
        } else {
            (s, HookVerdict { swallow: true, action: None })
        }
    } else {
        (s, pass_on())
    }
}

fn is_press(message: u32) -> (r: bool)
    ensures
        r == is_press_message(message),
{
    message == WM_KEYDOWN || message == WM_SYSKEYDOWN
}

fn is_release(message: u32) -> (r: bool)
    ensures
        r == is_release_message(message),
{
    message == WM_KEYUP || message == WM_SYSKEYUP
}

fn is_shift(vk_code: u32) -> (r: bool)
    ensures
        r == is_shift_key(vk_code),
{
    vk_code == VK_SHIFT as u32 || vk_code == VK_LSHIFT as u32 || vk_code == VK_RSHIFT as u32
}

/// Whole milliseconds a press lasted, from the recorded press time to `now`.
pub fn held_ms(at: Option<u64>, now: u64) -> (ms: u64)
    ensures
        ms == held_millis(at, now),
{
    match at {
        Some(t) => if now >= t { (now - t) / NANOS_PER_MILLI } else { 0 },
        None => 0,
    }
}

impl HookState {
    /// The state of a freshly installed hook: Caps Lock not held.
    pub fn new() -> (s: HookState)
        ensures
            s == (HookState { caps_pressed: false, caps_at: None }),
    {
        HookState { caps_pressed: false, caps_at: None }
    }

    /// Handles one keyboard event: updates the press record and says whether
    /// to swallow the event and which action to start.
    pub fn step(&mut self, ev: &KeyEvent) -> (verdict: HookVerdict)
        ensures
            (*final(self), verdict) == hook_transition(*old(self), *ev),
    {
        if ev.code < 0 || ev.injected || ev.simulating {
            return HookVerdict { swallow: false, action: None };
        }
        if is_shift(ev.vk_code) {
            if is_press(ev.message) && should_turn_caps_off_on_shift(ev.caps_on) {
                return HookVerdict { swallow: false, action: Some(CapsAction::SetCaps(false)) };
            }
            return HookVerdict { swallow: false, action: None };
        }
        if ev.vk_code != VK_CAPITAL as u32 {
            return HookVerdict { swallow: false, action: None };
        }
        if is_press(ev.message) {
            if !self.caps_pressed {
                self.caps_pressed = true;
                self.caps_at = Some(ev.now_ns);
            }
            return HookVerdict { swallow: true, action: None };
        }
        if is_release(ev.message) {
            if self.caps_pressed {
                let held = held_ms(self.caps_at, ev.now_ns);
                self.caps_pressed = false;
                self.caps_at = None;
                let action = decide_caps_action(held);
                return HookVerdict { swallow: true, action: Some(action) };
            }
            return HookVerdict { swallow: true, action: None };
        }
        HookVerdict { swallow: false, action: None }
    }
}

/// The keystrokes that carry out `action`, given the current Caps Lock state.
pub open spec fn spec_keystrokes(action: CapsAction, caps_on: bool) -> Seq<Keystroke> {
    match action {
        CapsAction::SwitchIme => seq![
            Keystroke { vk: VK_CONTROL, key_up: false },
            Keystroke { vk: VK_SPACE, key_up: false },
            Keystroke { vk: VK_SPACE, key_up: true },
            Keystroke { vk: VK_CONTROL, key_up: true },
        ],
        CapsAction::SetCaps(on) => if caps_on == on {
            Seq::empty()
        } else {
            seq![Keystroke { vk: VK_CAPITAL, key_up: false }, Keystroke { vk: VK_CAPITAL, key_up: true }]
        },
    }
}

/// Caps Lock state after the keystrokes run: each press of Caps Lock toggles it.
pub open spec fn caps_after(caps_on: bool, strokes: Seq<Keystroke>) -> bool
    decreases strokes.len(),
{
    if strokes.len() == 0 {
        caps_on
    } else {
        let first = strokes[0];
        let next = if first.vk == VK_CAPITAL && !first.key_up { !caps_on } else { caps_on };
        caps_after(next, strokes.drop_first())
    }
}

/// The keystrokes to simulate for `action` (Ctrl+Space to switch the input
/// method; one Caps Lock tap when its state differs from the one asked for).
pub fn keystrokes_for(action: CapsAction, caps_on: bool) -> (strokes: Vec<Keystroke>)
    ensures
        strokes@ == spec_keystrokes(action, caps_on),
{
    let mut v: Vec<Keystroke> = Vec::new();
    match action {
        CapsAction::SwitchIme => {
            v.push(Keystroke { vk: VK_CONTROL, key_up: false });
            v.push(Keystroke { vk: VK_SPACE, key_up: false });
            v.push(Keystroke { vk: VK_SPACE, key_up: true });
            v.push(Keystroke { vk: VK_CONTROL, key_up: true });
        },
        CapsAction::SetCaps(on) => {
            if caps_on != on {
                v.push(Keystroke { vk: VK_CAPITAL, key_up: false });
                v.push(Keystroke { vk: VK_CAPITAL, key_up: true });
            }
        },
    }
    assert(v@ =~= spec_keystrokes(action, caps_on));
    v
}

/// A real (not injected, not simulated) key event that the hook must judge.
pub open spec fn is_judged(ev: KeyEvent) -> bool {
    ev.code >= 0 && !ev.injected && !ev.simulating
}

/// Events that are injected, come while the interceptor simulates keys, or carry a
/// negative hook code go through untouched and leave the press record as it was.
pub proof fn lemma_foreign_events_pass_through(s: HookState, ev: KeyEvent)
    requires
        !is_judged(ev),
    ensures
        hook_transition(s, ev) == (s, pass_on()),
{
}

/// Caps Lock presses and releases never reach other programs.
pub proof fn lemma_caps_key_is_swallowed(s: HookState, ev: KeyEvent)
    requires
        is_judged(ev),
        ev.vk_code == VK_CAPITAL as u32,
        is_press_message(ev.message) || is_release_message(ev.message),
    ensures
        hook_transition(s, ev).1.swallow,
{
}

/// A press then a release of Caps Lock yields exactly one action, chosen by how
/// long the key was held: a tap (under the threshold) switches the input method,
/// a longer hold turns Caps Lock on. The hook is then ready for the next press.
pub proof fn lemma_press_release_decides_by_duration(s: HookState, down: KeyEvent, up: KeyEvent)
    requires
        !s.caps_pressed,
        is_judged(down),
        is_judged(up),
        down.vk_code == VK_CAPITAL as u32,
        up.vk_code == VK_CAPITAL as u32,
        is_press_message(down.message),
        is_release_message(up.message),
        down.now_ns <= up.now_ns,
    ensures
        ({
            let (s1, v1) = hook_transition(s, down);
            let (s2, v2) = hook_transition(s1, up);
            let held = ((up.now_ns - down.now_ns) / (NANOS_PER_MILLI as int)) as u64;
            &&& v1 == HookVerdict { swallow: true, action: None }
            &&& v2 == HookVerdict { swallow: true, action: Some(spec_decide_caps_action(held)) }
            &&& (held < CAPS_TAP_THRESHOLD_MS ==> v2.action == Some(CapsAction::SwitchIme))
            &&& (held >= CAPS_TAP_THRESHOLD_MS ==> v2.action == Some(CapsAction::SetCaps(true)))
            &&& s2 == HookState { caps_pressed: false, caps_at: None }
        }),
{
}

/// Key repeat while Caps Lock is held does not restart the measured press.
pub proof fn lemma_repeat_keeps_press_start(s: HookState, ev: KeyEvent)
    requires
        s.caps_pressed,
        is_judged(ev),
        ev.vk_code == VK_CAPITAL as u32,
        is_press_message(ev.message),
    ensures
        hook_transition(s, ev) == (s, HookVerdict { swallow: true, action: None }),
{
}

/// Every key other than Caps Lock and Shift goes through untouched, whatever the
/// message, and leaves the press record as it was; a Shift event is never
/// swallowed and never changes the press record either.
pub proof fn lemma_other_keys_pass_through(s: HookState, ev: KeyEvent)
    requires
        is_judged(ev),
        ev.vk_code != VK_CAPITAL as u32,
    ensures
        !is_shift_key(ev.vk_code) ==> hook_transition(s, ev) == (s, HookVerdict { swallow: false, action: None }),
        hook_transition(s, ev).0 == s,
        !hook_transition(s, ev).1.swallow,
{
}

/// Pressing Shift while Caps Lock is on asks to turn it off, and lets Shift through;
/// with Caps Lock off, Shift asks for nothing.
pub proof fn lemma_shift_turns_caps_off(s: HookState, ev: KeyEvent)
    requires
        is_judged(ev),
        is_shift_key(ev.vk_code),
        is_press_message(ev.message),
    ensures
        ev.caps_on ==> hook_transition(s, ev) == (s, HookVerdict { swallow: false, action: Some(CapsAction::SetCaps(false)) }),
        !ev.caps_on ==> hook_transition(s, ev) == (s, pass_on()),
{
}

/// The keystrokes for `SetCaps(target)` leave Caps Lock in the state `target`,
/// and those that switch the input method leave Caps Lock as it was.
pub proof fn lemma_keystrokes_reach_caps_target(caps_on: bool, target: bool)
    ensures
        caps_after(caps_on, spec_keystrokes(CapsAction::SetCaps(target), caps_on)) == target,
        caps_after(caps_on, spec_keystrokes(CapsAction::SwitchIme, caps_on)) == caps_on,
{
    reveal_with_fuel(caps_after, 5);
    let s = spec_keystrokes(CapsAction::SwitchIme, caps_on);
    assert(s.drop_first().drop_first().drop_first().drop_first().len() == 0);
    if caps_on != target {
        let t = spec_keystrokes(CapsAction::SetCaps(target), caps_on);
        assert(t.drop_first().drop_first().len() == 0);
    }
}

} // verus!
