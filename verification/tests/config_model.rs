use imk::logic::config::{
    default_caps_interceptor, load_config_or_default, toggle_caps_interceptor, update_caps_interceptor, InputConfig,
    RawConfig,
};

fn names(v: &[&str]) -> Vec<String> {
    v.iter().map(|s| s.to_string()).collect()
}

#[test]
fn default_config_has_interceptor_on() {
    let cfg = InputConfig::default();
    assert!(cfg.eng.is_empty());
    assert!(cfg.chinese.is_empty());
    assert!(cfg.caps_interceptor);
    assert!(default_caps_interceptor());
    assert!(load_config_or_default(None).caps_interceptor);
}

#[test]
fn loaded_config_is_used_as_is() {
    let cfg = InputConfig::from_raw(RawConfig { eng: names(&["a.exe"]), chinese: names(&[]), caps_interceptor: false });
    let got = load_config_or_default(Some(cfg));
    assert_eq!(got.eng, names(&["a.exe"]));
    assert!(!got.caps_interceptor);
}

#[test]
fn from_raw_keeps_first_occurrences() {
    let cfg = InputConfig::from_raw(RawConfig { eng: names(&["b.exe", "a.exe", "b.exe", "c.exe", "a.exe"]), chinese: names(&["w.exe", "w.exe"]), caps_interceptor: true });
    assert_eq!(cfg.eng, names(&["b.exe", "a.exe", "c.exe"]));
    assert_eq!(cfg.chinese, names(&["w.exe"]));
    assert!(cfg.caps_interceptor);
}

#[test]
fn store_then_load_gives_back_config() {
    let cfg = InputConfig {
        eng: names(&["x.exe", "y.exe", "x.exe"]),
        chinese: names(&["z.exe"]),
        caps_interceptor: false,
    };
    let raw = cfg.to_raw();
    assert_eq!(raw.eng, names(&["x.exe", "y.exe"]));
    assert_eq!(raw.chinese, names(&["z.exe"]));
    assert!(!raw.caps_interceptor);
    let back = InputConfig::from_raw(raw);
    assert_eq!(back.eng, names(&["x.exe", "y.exe"]));
    assert_eq!(back.chinese, names(&["z.exe"]));
    assert!(!back.caps_interceptor);
}

#[test]
fn update_caps_interceptor_sets_only_the_flag() {
    let cfg = load_config_or_default(None);
    assert!(cfg.caps_interceptor);
    let off = update_caps_interceptor(cfg, false);
    assert!(!off.caps_interceptor);
    let reloaded = InputConfig::from_raw(off.to_raw());
    assert!(!reloaded.caps_interceptor);
    let on = update_caps_interceptor(reloaded, true);
    assert!(on.caps_interceptor);
    assert!(on.eng.is_empty() && on.chinese.is_empty());
}

#[test]
fn toggle_caps_interceptor_flips_flag_and_keeps_names() {
    let cfg = InputConfig::from_raw(RawConfig { eng: names(&["a.exe"]), chinese: names(&["b.exe"]), caps_interceptor: true });
    let off = toggle_caps_interceptor(cfg);
    assert!(!off.caps_interceptor);
    assert_eq!(off.eng, names(&["a.exe"]));
    assert_eq!(off.chinese, names(&["b.exe"]));
    let back = InputConfig::from_raw(off.to_raw());
    assert!(!back.caps_interceptor);
    let on = toggle_caps_interceptor(back);
    assert!(on.caps_interceptor);
    assert_eq!(on.eng, names(&["a.exe"]));
}
