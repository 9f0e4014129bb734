use stump::{passes_filter, should_emit, LevelError, LogEntryLevel};

const ALL: [LogEntryLevel; 4] = [
    LogEntryLevel::DEBUG,
    LogEntryLevel::INFO,
    LogEntryLevel::WARN,
    LogEntryLevel::ERROR,
];

#[test]
fn names_read_in_any_case() {
    let cases = [
        ("DEBUG", LogEntryLevel::DEBUG),
        ("debug", LogEntryLevel::DEBUG),
        ("DeBuG", LogEntryLevel::DEBUG),
        ("INFO", LogEntryLevel::INFO),
        ("info", LogEntryLevel::INFO),
        ("Warn", LogEntryLevel::WARN),
        ("wARN", LogEntryLevel::WARN),
        ("ERROR", LogEntryLevel::ERROR),
        ("error", LogEntryLevel::ERROR),
    ];
    for (text, level) in cases {
        assert_eq!(LogEntryLevel::from_string(text).unwrap(), level, "{}", text);
    }
}

#[test]
fn other_names_are_refused_with_their_text() {
    for text in ["", "verbose", "WARNING", " info", "err", "DEBUG "] {
        match LogEntryLevel::from_string(text) {
            Err(LevelError::InvalidLevel(t)) => assert_eq!(t, text),
            Ok(l) => panic!("{:?} read as {:?}", text, l),
        }
    }
}

#[test]
fn from_upper_takes_the_upper_text() {
    assert_eq!(LogEntryLevel::from_upper("info", "INFO").unwrap(), LogEntryLevel::INFO);
    match LogEntryLevel::from_upper("info", "info") {
        Err(LevelError::InvalidLevel(t)) => assert_eq!(t, "info"),
        Ok(l) => panic!("read as {:?}", l),
    }
}

#[test]
fn from_env_prefers_the_environment_value() {
    assert_eq!(LogEntryLevel::from_env(None, LogEntryLevel::INFO).unwrap(), LogEntryLevel::INFO);
    assert_eq!(
        LogEntryLevel::from_env(Some("debug"), LogEntryLevel::WARN).unwrap(),
        LogEntryLevel::DEBUG
    );
    match LogEntryLevel::from_env(Some("loud"), LogEntryLevel::WARN) {
        Err(LevelError::InvalidLevel(t)) => assert_eq!(t, "loud"),
        Ok(l) => panic!("read as {:?}", l),
    }
}

#[test]
fn severity_and_names() {
    assert_eq!(LogEntryLevel::DEBUG.severity(), 0);
    assert_eq!(LogEntryLevel::INFO.severity(), 1);
    assert_eq!(LogEntryLevel::WARN.severity(), 2);
    assert_eq!(LogEntryLevel::ERROR.severity(), 3);
    assert_eq!(LogEntryLevel::WARN.name(), "WARN");
    assert_eq!(LogEntryLevel::ERROR.name(), "ERROR");
}

#[test]
fn filter_matches_severity_order() {
    for (mi, m) in ALL.iter().enumerate() {
        for (ci, c) in ALL.iter().enumerate() {
            assert_eq!(should_emit(*c, *m), ci >= mi, "{:?} under {:?}", c, m);
        }
    }
}

#[test]
fn raising_the_minimum_shrinks_what_passes() {
    for i in 0..ALL.len() - 1 {
        let low = ALL[i];
        let high = ALL[i + 1];
        for c in ALL {
            if should_emit(c, high) {
                assert!(should_emit(c, low));
            }
        }
        assert!(should_emit(low, low));
        assert!(!should_emit(low, high));
    }
}

#[test]
fn minimum_warn_silences_debug_and_info() {
    let m = LogEntryLevel::WARN;
    assert!(!should_emit(LogEntryLevel::DEBUG, m));
    assert!(!should_emit(LogEntryLevel::INFO, m));
    assert!(should_emit(LogEntryLevel::WARN, m));
    assert!(should_emit(LogEntryLevel::ERROR, m));
}

#[test]
fn environment_level_overrides_configured_minimum() {
    for configured in ALL {
        assert!(!passes_filter(Some("error"), configured, LogEntryLevel::WARN));
        assert!(passes_filter(Some("error"), configured, LogEntryLevel::ERROR));
        assert!(passes_filter(Some("DEBUG"), configured, LogEntryLevel::DEBUG));
    }
}

#[test]
fn unset_environment_falls_back_to_configured_minimum() {
    assert!(passes_filter(None, LogEntryLevel::INFO, LogEntryLevel::INFO));
    assert!(!passes_filter(None, LogEntryLevel::INFO, LogEntryLevel::DEBUG));
}

#[test]
fn bad_environment_value_silences_without_failing() {
    for c in ALL {
        assert!(!passes_filter(Some("loud"), LogEntryLevel::DEBUG, c));
    }
}

#[test]
fn error_message_names_the_text() {
    let e = LogEntryLevel::from_string("loud").unwrap_err();
    assert_eq!(e.text(), "loud");
    assert_eq!(e.message(), "Invalid log level: loud");
}
