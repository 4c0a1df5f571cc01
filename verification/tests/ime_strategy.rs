use imk::logic::mode_manager::InputMode as DecidedMode;
use imk::platform_win::ime::{
    attempt_outcome, fallback_needed, write_took,
    conversion_for_mode, control_bits_for_mode, from_decision, is_english_conversion, mode_reached,
    AttemptOutcome, ImeController, InputMode, ModeSwitch, SwitchAction, MAX_RETRY, RETRY_WAIT_MS,
    SETTLE_MS,
};
use imk::platform_win::tsf::{TsfController, TsfEvent, TsfNext, LANG_ZH_CN};

#[test]
fn ime_controller_compiles() {
    let _ = ImeController::new();
    let _ = InputMode::English;
}

#[test]
fn conversion_bits_select_mode_and_keep_others() {
    assert_eq!(conversion_for_mode(0x0009, InputMode::English), 0x0008);
    assert_eq!(conversion_for_mode(0x0008, InputMode::Chinese), 0x0009);
    assert_eq!(conversion_for_mode(0x0001, InputMode::Chinese), 0x0001);
    assert!(is_english_conversion(0x0008));
    assert!(!is_english_conversion(0x0401));
    assert_eq!(control_bits_for_mode(InputMode::English), 0);
    assert_eq!(control_bits_for_mode(InputMode::Chinese), 1);
    assert!(mode_reached(InputMode::English, true));
    assert!(!mode_reached(InputMode::Chinese, true));
    assert_eq!(from_decision(DecidedMode::Chinese), InputMode::Chinese);
}

#[test]
fn readings_prefer_imm32() {
    let ime = ImeController::new();
    assert_eq!(ime.combine_readings(Some(false), Some(true)), Some(false));
    assert_eq!(ime.combine_readings(None, Some(true)), Some(true));
    assert_eq!(ime.combine_readings(None, None), None);
}

#[test]
fn mode_switch_succeeds_when_mode_read_back() {
    let mut sw = ModeSwitch::new(InputMode::English);
    assert_eq!(sw.record(AttemptOutcome::NoWindow), SwitchAction::Retry(RETRY_WAIT_MS));
    assert_eq!(sw.record(AttemptOutcome::Applied(Some(false))), SwitchAction::Retry(RETRY_WAIT_MS));
    assert_eq!(sw.record(AttemptOutcome::Applied(None)), SwitchAction::Retry(RETRY_WAIT_MS));
    assert_eq!(sw.record(AttemptOutcome::Applied(Some(true))), SwitchAction::Succeed(SETTLE_MS));
    assert_eq!(sw.attempts, 4);
}

#[test]
fn mode_switch_gives_up_after_max_retry() {
    let mut sw = ModeSwitch::new(InputMode::Chinese);
    let mut last = None;
    let mut tries = 0;
    while tries < MAX_RETRY {
        let a = sw.record(AttemptOutcome::NotApplied);
        tries += 1;
        if a != SwitchAction::Retry(RETRY_WAIT_MS) {
            last = Some(a);
            break;
        }
    }
    assert_eq!(tries, 50);
    assert_eq!(last, Some(SwitchAction::GiveUp(RETRY_WAIT_MS)));
}

#[test]
fn tsf_values_and_flow() {
    let tsf = TsfController::new();
    assert_eq!(tsf.value_for_mode(InputMode::English), 0);
    assert_eq!(tsf.value_for_mode(InputMode::Chinese), 1);
    assert!(tsf.value_is_english(0));
    assert!(!tsf.value_is_english(1));
    assert!(!tsf.value_is_english(-1));
    assert_eq!(tsf.next_step(TsfEvent::FirstWrite(Some(true))), TsfNext::Finish(true));
    assert_eq!(tsf.next_step(TsfEvent::FirstWrite(Some(false))), TsfNext::ActivateProfile);
    assert_eq!(tsf.next_step(TsfEvent::FirstWrite(None)), TsfNext::ActivateProfile);
    assert_eq!(tsf.next_step(TsfEvent::ProfileActivated(false)), TsfNext::Finish(false));
    assert_eq!(tsf.next_step(TsfEvent::ProfileActivated(true)), TsfNext::WriteAgain);
    assert_eq!(tsf.next_step(TsfEvent::SecondWrite(None)), TsfNext::Finish(false));
    assert_eq!(tsf.next_step(TsfEvent::SecondWrite(Some(true))), TsfNext::Finish(true));
    assert!(tsf.language_matches(None, LANG_ZH_CN));
    assert!(tsf.language_matches(Some(0x0804), LANG_ZH_CN));
    assert!(!tsf.language_matches(Some(0x0409), LANG_ZH_CN));
    assert_eq!(tsf.com_initialization(true, false), Some(true));
    assert_eq!(tsf.com_initialization(false, true), Some(false));
    assert_eq!(tsf.com_initialization(false, false), None);
}

#[test]
fn imm32_is_tried_before_the_fallback() {
    assert!(fallback_needed(false));
    assert!(!fallback_needed(true));
    assert!(write_took(true, None));
    assert!(write_took(false, Some(true)));
    assert!(!write_took(false, Some(false)));
    assert!(!write_took(false, None));
    assert_eq!(attempt_outcome(false, true, Some(true), Some(true)), AttemptOutcome::NoWindow);
    assert_eq!(attempt_outcome(true, true, None, Some(true)), AttemptOutcome::Applied(Some(true)));
    assert_eq!(attempt_outcome(true, false, Some(true), None), AttemptOutcome::Applied(None));
    assert_eq!(attempt_outcome(true, false, Some(false), Some(false)), AttemptOutcome::NotApplied);
    assert_eq!(attempt_outcome(true, false, None, Some(false)), AttemptOutcome::NotApplied);
}
