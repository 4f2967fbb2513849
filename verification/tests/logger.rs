use monitor_manager::logger::{log_footer, log_header, render_log_line, clean_message, write_log, Logger};

#[test]
fn test_logger_silent_failure() {
    let logger = Logger::init(Some("/nonexistent/path/to/log.log".to_string()));
    let record = write_log(&Some(logger), "2026-05-01 17:55:12.000", "Test message", false);
    // Logging never fails: the record only names where the line would go.
    let rec = record.expect("a record for the configured path");
    assert_eq!(rec.path, "/nonexistent/path/to/log.log");
}

#[test]
fn write_log_targets_configured_path() {
    let logger = Logger::init(Some("service.log".to_string()));
    let rec = logger.write_log("2026-05-01 17:55:12.345", "Test log entry", false).expect("a record");
    assert_eq!(rec.path, "service.log");
    assert_eq!(rec.line, "[2026-05-01 17:55:12.345] Test log entry\r\n");
    let event = logger.write_log("T", "a\nb", true).expect("a record");
    assert_eq!(event.line, "[T] a b\r\n");
}

#[test]
fn write_log_without_path_or_logger_writes_nothing() {
    let logger = Logger::init(None);
    assert!(logger.write_log("T", "x", false).is_none());
    assert!(write_log(&None, "T", "x", true).is_none());
}

#[test]
fn render_line_exact() {
    assert_eq!(render_log_line("2026-05-01 17:55:12.000", "Running in console mode", false),
        "[2026-05-01 17:55:12.000] Running in console mode\r\n");
}

#[test]
fn event_driven_lines_fold_breaks() {
    assert_eq!(clean_message("a\r\nb\nc", true), "a  b c");
    assert_eq!(clean_message("a\r\nb", false), "a\r\nb");
    let line = render_log_line("T", "one\ntwo\r\nthree", true);
    assert_eq!(line, "[T] one two  three\r\n");
    assert_eq!(line.matches('\n').count(), 1);
}

#[test]
fn header_and_footer_lines() {
    let rule = "=".repeat(60);
    let h = log_header("V0.2.0", "Some(Clone)");
    assert_eq!(h, vec![
        rule.clone(),
        "Monitor Service V0.2.0 Started".to_string(),
        "CLI Options: Some(Clone)".to_string(),
        rule,
    ]);
    assert_eq!(log_footer(), vec!["Cleanup...".to_string(), "Terminated".to_string()]);
}
