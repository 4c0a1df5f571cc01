use imk::logic::caps_logic::CapsAction;
use imk::service::caps_interceptor::{
    held_ms, keystrokes_for, HookState, HookVerdict, KeyEvent, Keystroke, VK_CAPITAL, VK_CONTROL,
    VK_LSHIFT, VK_RSHIFT, VK_SHIFT, VK_SPACE, WM_KEYDOWN, WM_KEYUP, WM_SYSKEYDOWN, WM_SYSKEYUP,
};

const MS: u64 = 1_000_000;

fn ev(message: u32, vk: u16, now_ms: u64) -> KeyEvent {
    KeyEvent {
        code: 0,
        message,
        vk_code: vk as u32,
        injected: false,
        simulating: false,
        caps_on: false,
        now_ns: now_ms * MS,
    }
}

const SWALLOW: HookVerdict = HookVerdict { swallow: true, action: None };
const PASS: HookVerdict = HookVerdict { swallow: false, action: None };

#[test]
fn caps_tap_switches_input_method() {
    let mut s = HookState::new();
    assert_eq!(s.step(&ev(WM_KEYDOWN, VK_CAPITAL, 1000)), SWALLOW);
    assert_eq!(
        s.step(&ev(WM_KEYUP, VK_CAPITAL, 1200)),
        HookVerdict { swallow: true, action: Some(CapsAction::SwitchIme) }
    );
    assert_eq!(s, HookState::new());
}

#[test]
fn caps_hold_turns_caps_on_and_repeat_keeps_start() {
    let mut s = HookState::new();
    assert_eq!(s.step(&ev(WM_KEYDOWN, VK_CAPITAL, 1000)), SWALLOW);
    assert_eq!(s.step(&ev(WM_KEYDOWN, VK_CAPITAL, 1250)), SWALLOW);
    assert_eq!(s.caps_at, Some(1000 * MS));
    assert_eq!(
        s.step(&ev(WM_SYSKEYUP, VK_CAPITAL, 1300)),
        HookVerdict { swallow: true, action: Some(CapsAction::SetCaps(true)) }
    );
}

#[test]
fn caps_release_without_press_does_nothing() {
    let mut s = HookState::new();
    assert_eq!(s.step(&ev(WM_KEYUP, VK_CAPITAL, 5)), SWALLOW);
    assert_eq!(s, HookState::new());
}

#[test]
fn shift_with_caps_on_turns_caps_off() {
    let mut s = HookState::new();
    for vk in [VK_SHIFT, VK_LSHIFT, VK_RSHIFT] {
        let mut e = ev(WM_SYSKEYDOWN, vk, 10);
        e.caps_on = true;
        assert_eq!(s.step(&e), HookVerdict { swallow: false, action: Some(CapsAction::SetCaps(false)) });
        e.caps_on = false;
        assert_eq!(s.step(&e), PASS);
        let mut up = ev(WM_KEYUP, vk, 11);
        up.caps_on = true;
        assert_eq!(s.step(&up), PASS);
    }
}

#[test]
fn injected_and_simulated_events_pass() {
    let mut s = HookState::new();
    let mut e = ev(WM_KEYDOWN, VK_CAPITAL, 1);
    e.injected = true;
    assert_eq!(s.step(&e), PASS);
    e.injected = false;
    e.simulating = true;
    assert_eq!(s.step(&e), PASS);
    e.simulating = false;
    e.code = -1;
    assert_eq!(s.step(&e), PASS);
    assert_eq!(s, HookState::new());
    assert_eq!(s.step(&ev(WM_KEYDOWN, 0x41, 1)), PASS);
    assert_eq!(s.step(&ev(0x0200, VK_CAPITAL, 1)), PASS);
}

#[test]
fn held_time_is_whole_milliseconds() {
    assert_eq!(held_ms(Some(1_000), 1_000 + 299_999_999), 299);
    assert_eq!(held_ms(Some(1_000), 1_000 + 300_000_000), 300);
    assert_eq!(held_ms(None, 7), 0);
    assert_eq!(held_ms(Some(10), 5), 0);
}

#[test]
fn keystrokes_for_actions() {
    let k = |vk, key_up| Keystroke { vk, key_up };
    assert_eq!(
        keystrokes_for(CapsAction::SwitchIme, false),
        vec![k(VK_CONTROL, false), k(VK_SPACE, false), k(VK_SPACE, true), k(VK_CONTROL, true)]
    );
    assert_eq!(keystrokes_for(CapsAction::SetCaps(true), true), vec![]);
    assert_eq!(
        keystrokes_for(CapsAction::SetCaps(false), true),
        vec![k(VK_CAPITAL, false), k(VK_CAPITAL, true)]
    );
    assert_eq!(
        keystrokes_for(CapsAction::SetCaps(true), false),
        vec![k(VK_CAPITAL, false), k(VK_CAPITAL, true)]
    );
}
