use imk::service::window_monitor::{
    classify_shell_message, ConfirmAction, ConfirmPhase, Confirmation, ShellMessageAction,
    CHECK_INTERVAL_MS, POST_STABILIZATION_DELAY_MS, WM_CLOSE, WM_DESTROY,
};

const MS: u64 = 1_000_000;

#[test]
fn stable_window_is_delivered_after_delay() {
    let (mut c, a) = Confirmation::start(7, 0);
    assert_eq!(a, ConfirmAction::Wait(CHECK_INTERVAL_MS));
    let mut t = 50;
    while t < 500 {
        assert_eq!(c.step(false, 7, t * MS), ConfirmAction::Wait(CHECK_INTERVAL_MS));
        t += 50;
    }
    assert_eq!(c.step(false, 7, 500 * MS), ConfirmAction::Wait(POST_STABILIZATION_DELAY_MS));
    assert_eq!(c.phase, ConfirmPhase::Settling { window: 7 });
    assert_eq!(c.step(false, 9, 650 * MS), ConfirmAction::Deliver(7));
    assert_eq!(c.step(false, 9, 700 * MS), ConfirmAction::Stop);
}

#[test]
fn change_of_window_restarts_the_clock() {
    let (mut c, _) = Confirmation::start(7, 0);
    assert_eq!(c.step(false, 8, 400 * MS), ConfirmAction::Wait(CHECK_INTERVAL_MS));
    assert_eq!(c.step(false, 8, 800 * MS), ConfirmAction::Wait(CHECK_INTERVAL_MS));
    assert_eq!(c.step(false, 8, 900 * MS), ConfirmAction::Wait(POST_STABILIZATION_DELAY_MS));
    assert_eq!(c.step(false, 8, 1050 * MS), ConfirmAction::Deliver(8));
}

#[test]
fn null_window_is_never_delivered() {
    let (mut c, _) = Confirmation::start(0, 0);
    assert_eq!(c.step(false, 0, 600 * MS), ConfirmAction::Wait(CHECK_INTERVAL_MS));
    assert_eq!(c.step(false, 0, 2000 * MS), ConfirmAction::Wait(CHECK_INTERVAL_MS));
    assert_eq!(c.phase, ConfirmPhase::Polling { last: 0, stable_since: 2000 * MS });
}

#[test]
fn newer_activation_cancels() {
    let (mut c, _) = Confirmation::start(7, 0);
    assert_eq!(c.step(true, 7, 50 * MS), ConfirmAction::Stop);
    let (mut c, _) = Confirmation::start(7, 0);
    assert_eq!(c.step(false, 7, 500 * MS), ConfirmAction::Wait(POST_STABILIZATION_DELAY_MS));
    assert_eq!(c.step(true, 7, 650 * MS), ConfirmAction::Stop);
}

#[test]
fn shell_messages_are_sorted() {
    assert_eq!(classify_shell_message(0xC123, 4, Some(0xC123)), ShellMessageAction::ScheduleConfirmation);
    assert_eq!(classify_shell_message(0xC123, 1, Some(0xC123)), ShellMessageAction::Default);
    assert_eq!(classify_shell_message(0xC123, 4, None), ShellMessageAction::Default);
    assert_eq!(classify_shell_message(WM_CLOSE, 0, Some(0xC123)), ShellMessageAction::DestroyWindow);
    assert_eq!(classify_shell_message(WM_DESTROY, 0, None), ShellMessageAction::ReleaseAndQuit);
}
