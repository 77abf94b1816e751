use grepper::logger::{LogExtraParams, LogLevel, Logger};

#[test]
fn info_logger_is_silent_for_debug_and_error_calls() {
    let logger = Logger::get_logger(Some("INFO"));
    assert!(!logger.should_log(LogLevel::Debug));
    assert!(!logger.should_log(LogLevel::Error));
    assert!(logger.should_log(LogLevel::Info));
}

#[test]
fn absent_level_defaults_to_info() {
    let logger = Logger::get_logger(None);
    assert!(logger.should_log(LogLevel::Info));
    assert!(!logger.should_log(LogLevel::Debug));
    assert!(!logger.should_log(LogLevel::Error));
}

#[test]
fn unrecognized_level_defaults_to_info() {
    let logger = Logger::get_logger(Some("TRACE"));
    assert!(logger.should_log(LogLevel::Info));
    assert!(!logger.should_log(LogLevel::Debug));
}

#[test]
fn debug_name_turns_debug_emission_on() {
    let logger = Logger::get_logger(Some("DEBUG"));
    assert!(logger.should_log(LogLevel::Debug));
    assert!(!logger.should_log(LogLevel::Info));
    assert!(!logger.should_log(LogLevel::Error));
}

#[test]
fn error_name_selects_error_level_only() {
    let logger = Logger::get_logger(Some("ERROR"));
    assert!(logger.should_log(LogLevel::Error));
    assert!(!logger.should_log(LogLevel::Info));
    assert!(!logger.should_log(LogLevel::Debug));
}

#[test]
fn level_names_are_the_upper_case_words() {
    assert_eq!(LogLevel::Debug.name(), "DEBUG");
    assert_eq!(LogLevel::Info.name(), "INFO");
    assert_eq!(LogLevel::Error.name(), "ERROR");
}

#[test]
fn message_carries_level_name_message_and_json_extra() {
    let logger = Logger::get_logger(Some("DEBUG"));
    let mut params = LogExtraParams::new();
    params.insert("file", "poem.txt");
    let line = logger.make_message("Starting search", Some(&params));
    assert!(line.contains("DEBUG"));
    assert!(line.contains("Starting search"));
    assert!(line.ends_with("  {\"file\":\"poem.txt\"}"));
}

#[test]
fn message_without_extra_has_an_empty_extra_segment() {
    let logger = Logger::get_logger(None);
    let line = logger.make_message("hello", None);
    assert!(line.contains("INFO"));
    assert!(line.ends_with("hello  "));
}

#[test]
fn extra_params_serialize_in_key_order() {
    let logger = Logger::get_logger(None);
    let mut params = LogExtraParams::new();
    params.insert("b", "two");
    params.insert("a", "one");
    let line = logger.make_message("m", Some(&params));
    assert!(line.ends_with("  {\"a\":\"one\",\"b\":\"two\"}"));
}

#[test]
fn later_insert_replaces_an_earlier_binding() {
    let logger = Logger::get_logger(None);
    let mut params = LogExtraParams::new();
    params.insert("key", "old");
    params.insert("key", "new");
    let line = logger.make_message("m", Some(&params));
    assert!(line.ends_with("  {\"key\":\"new\"}"));
}
