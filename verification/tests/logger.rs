use iso_minimap::logger::{
    crate_target_name, initialize, logger_config, LogLevel, LoggerOnce, LoggerPhase,
};

#[test]
fn target_name_replaces_dashes() {
    assert_eq!(crate_target_name("classicube-iso-minimap-plugin"), "classicube_iso_minimap_plugin");
    assert_eq!(crate_target_name("plain"), "plain");
    assert_eq!(crate_target_name(""), "");
    assert_eq!(crate_target_name("--a-"), "__a_");
    assert_eq!(crate_target_name("é-ü"), "é_ü");
}

#[test]
fn target_name_is_idempotent() {
    let once = crate_target_name("a-b-c");
    assert_eq!(crate_target_name(&once), once);
}

#[test]
fn config_for_debugging_own_crate() {
    let c = logger_config(true, false, "my-plugin");
    assert_eq!(c.level, LogLevel::Debug);
    assert_eq!(c.target_level, LogLevel::Trace);
    assert_eq!(c.thread_level, LogLevel::Trace);
    assert_eq!(c.allowed_target.as_deref(), Some("my_plugin"));
}

#[test]
fn config_for_all_crates() {
    let c = logger_config(false, true, "my-plugin");
    assert_eq!(c.level, LogLevel::Info);
    assert_eq!(c.allowed_target, None);
}

#[test]
fn logger_is_set_up_once() {
    let mut once = LoggerOnce::new();
    assert_eq!(once.phase, LoggerPhase::Unset);
    let first = initialize(&mut once, false, false, "x-y");
    assert_eq!(once.phase, LoggerPhase::Started);
    let c = first.unwrap();
    assert_eq!(c.level, LogLevel::Info);
    assert_eq!(c.allowed_target.as_deref(), Some("x_y"));
    assert!(initialize(&mut once, true, true, "x-y").is_none());
    assert!(initialize(&mut once, false, false, "x-y").is_none());
}

#[test]
fn failed_install_poisons_setup() {
    let mut once = LoggerOnce::new();
    assert!(initialize(&mut once, true, false, "x").is_some());
    once.install_failed();
    assert_eq!(once.phase, LoggerPhase::Poisoned);
}
