use imk::logic::config::{InputConfig, RawConfig};
use imk::logic::mode_manager::{names_match, InputMode, ModeDecision};

#[test]
fn decide_switch_to_eng_when_in_list() {
    let decision = ModeDecision::for_process("notepad.exe", false, &["notepad.exe"], &[]);
    assert_eq!(decision, Some(InputMode::English));
}

#[test]
fn no_switch_when_already_english() {
    let decision = ModeDecision::for_process("notepad.exe", true, &["notepad.exe"], &[]);
    assert_eq!(decision, None);
}

#[test]
fn switch_to_chinese_when_in_chinese_list() {
    assert_eq!(
        ModeDecision::for_process("WeChat.exe", true, &[], &["wechat.exe"]),
        Some(InputMode::Chinese)
    );
    assert_eq!(ModeDecision::for_process("wechat.exe", false, &[], &["wechat.exe"]), None);
}

#[test]
fn english_list_wins_when_listed_twice() {
    let both = ["code.exe"];
    assert_eq!(ModeDecision::for_process("code.exe", false, &both, &both), Some(InputMode::English));
    assert_eq!(ModeDecision::for_process("code.exe", true, &both, &both), Some(InputMode::Chinese));
}

#[test]
fn unlisted_program_is_left_alone() {
    assert_eq!(ModeDecision::for_process("calc.exe", false, &["notepad.exe"], &["wechat.exe"]), None);
    assert_eq!(ModeDecision::for_process("calc.exe", true, &["notepad.exe"], &["wechat.exe"]), None);
}

#[test]
fn names_match_ignores_ascii_case_only() {
    assert!(names_match("NotePad.EXE", "notepad.exe"));
    assert!(!names_match("notepad.exe", "notepad.ex"));
    assert!(!names_match("notepad", "notepad "));
    assert!(names_match("微信.exe", "微信.EXE"));
    assert!(!names_match("Ä.exe", "ä.exe"));
    assert!(names_match("", ""));
}

#[test]
fn decision_from_config_treats_unknown_mode_as_english() {
    let cfg = InputConfig::from_raw(RawConfig { eng: vec!["notepad.exe".to_string()], chinese: vec!["wechat.exe".to_string()], caps_interceptor: true });
    assert_eq!(ModeDecision::for_config("NOTEPAD.EXE", Some(false), &cfg), Some(InputMode::English));
    assert_eq!(ModeDecision::for_config("notepad.exe", None, &cfg), None);
    assert_eq!(ModeDecision::for_config("wechat.exe", None, &cfg), Some(InputMode::Chinese));
    assert_eq!(ModeDecision::for_config("wechat.exe", Some(false), &cfg), None);
}
