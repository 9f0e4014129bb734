use stump::message::{DEFAULT_DATETIME_FORMAT, EXPERIMENTAL_TAIL};
use stump::{
    datetime_format, datetime_text, experimental_notice, format_datetime, get_min_log_level, is_verbose,
    leveled_line, set_min_log_level, set_verbose, status_line, verbose_line, LogConfig,
    LogEntryLevel,
};

const STAMP: &str = "2024-05-01 10:20:30.456 ";

#[test]
fn status_line_joins_its_parts() {
    let r = status_line(STAMP, LogEntryLevel::ERROR, "src/main.rs:3", "disk full");
    assert_eq!(r, "2024-05-01 10:20:30.456  ERROR src/main.rs:3 disk full");
}

#[test]
fn warn_minimum_drops_info_and_keeps_error() {
    let mut config = LogConfig::new();
    set_min_log_level(&mut config, LogEntryLevel::WARN);
    let min = get_min_log_level(&config);
    assert_eq!(leveled_line(None, min, LogEntryLevel::INFO, STAMP, "a.rs:1", "hello"), None);
    let stamp = format_datetime(DEFAULT_DATETIME_FORMAT);
    let out = leveled_line(None, min, LogEntryLevel::ERROR, &stamp, "a.rs:2", "disk full").unwrap();
    assert!(out.starts_with(&stamp));
    assert!(out.contains("ERROR"));
    assert!(out.contains("disk full"));
}

#[test]
fn leveled_line_follows_the_environment_value() {
    let r = leveled_line(Some("debug"), LogEntryLevel::ERROR, LogEntryLevel::DEBUG, STAMP, "b.rs:9", "x");
    assert_eq!(r.unwrap(), "2024-05-01 10:20:30.456  DEBUG b.rs:9 x");
    assert_eq!(leveled_line(Some("nope"), LogEntryLevel::DEBUG, LogEntryLevel::ERROR, STAMP, "b.rs:9", "x"), None);
}

#[test]
fn verbose_line_only_when_verbose() {
    assert_eq!(verbose_line(false, STAMP, "c.rs:4", "detail"), None);
    assert_eq!(
        verbose_line(true, STAMP, "c.rs:4", "detail").unwrap(),
        "2024-05-01 10:20:30.456  c.rs:4 detail"
    );
}

#[test]
fn datetime_format_defaults() {
    assert_eq!(datetime_format(None), "%Y-%m-%d %H:%M:%S%.3f");
    assert_eq!(datetime_format(Some("%H:%M")), "%H:%M");
}

#[test]
fn format_datetime_uses_the_pattern() {
    let r = format_datetime("%Y-%m-%d");
    assert_eq!(r.len(), 11);
    assert!(r.ends_with(' '));
    assert_eq!(r.as_bytes()[4], b'-');
    let r = format_datetime(DEFAULT_DATETIME_FORMAT);
    assert_eq!(r.len(), 24);
}

#[test]
fn format_datetime_falls_back_on_a_bad_pattern() {
    let r = format_datetime("%Q");
    assert_eq!(r.len(), 24);
    assert!(r.ends_with(' '));
}

#[test]
fn config_defaults_and_setters() {
    let mut config = LogConfig::new();
    assert_eq!(get_min_log_level(&config), LogEntryLevel::WARN);
    assert!(!is_verbose(&config));
    assert_eq!(LogConfig::default(), config);
    set_verbose(&mut config, true);
    assert!(is_verbose(&config));
    set_min_log_level(&mut config, LogEntryLevel::DEBUG);
    assert_eq!(get_min_log_level(&config), LogEntryLevel::DEBUG);
    assert!(is_verbose(&config));
}

#[test]
fn setting_twice_changes_nothing() {
    let mut config = LogConfig::new();
    set_min_log_level(&mut config, LogEntryLevel::INFO);
    let once = config;
    set_min_log_level(&mut config, LogEntryLevel::INFO);
    assert_eq!(config, once);
    set_verbose(&mut config, true);
    let once = config;
    set_verbose(&mut config, true);
    assert_eq!(config, once);
}

#[test]
fn experimental_notice_has_red_head() {
    colored::control::set_override(true);
    assert_eq!(
        experimental_notice(),
        format!("\x1b[31mExperimental Code!\x1b[0m{}", EXPERIMENTAL_TAIL)
    );
}

#[test]
fn datetime_text_prefers_the_first_stamp() {
    assert_eq!(datetime_text(Some("10:20".to_string()), Some("x".to_string())), "10:20 ");
    assert_eq!(datetime_text(None, Some("2024-05-01".to_string())), "2024-05-01 ");
    assert_eq!(datetime_text(None, None), " ");
}
