use std::collections::VecDeque;
use std::path::PathBuf;

use rustic_rs::{
    capture_console_log, write_captured_console_logs, ConsoleCaptureState,
    LogLevel, LogLevelFilter, LoggingOptions, TuiLogCapture, MAX_CAPTURED_CONSOLE_LOGS,
};

fn capture_warn(state: &mut ConsoleCaptureState, msg: &str) -> bool {
    capture_console_log(state, LogLevel::Warn, msg)
}

fn snapshot(state: &ConsoleCaptureState) -> (usize, Vec<String>, usize) {
    (state.depth(), state.records(), state.dropped())
}

#[test]
fn console_logs_pass_through_without_tui_capture() {
    let mut state = ConsoleCaptureState::new();
    assert!(!capture_warn(&mut state, "will retry Read"));
    assert_eq!(snapshot(&state), (0, Vec::new(), 0));
}

#[test]
fn tui_capture_holds_console_logs_until_drop() {
    let mut state = ConsoleCaptureState::new();

    let capture = TuiLogCapture::start(&mut state);
    assert!(capture_warn(&mut state, "will retry Read (attempt 1)"));
    assert!(capture_warn(&mut state, "still reading index"));
    assert_eq!(
        snapshot(&state),
        (
            1,
            vec![
                "[WARN] will retry Read (attempt 1)".to_string(),
                "[WARN] still reading index".to_string(),
            ],
            0
        )
    );

    let captured = capture.finish(&mut state).unwrap();
    assert_eq!(captured.records.len(), 2);
    assert_eq!(snapshot(&state), (0, Vec::new(), 0));
    assert!(!capture_warn(&mut state, "after tui"));
}

#[test]
fn nested_tui_capture_flushes_on_outermost_drop() {
    let mut state = ConsoleCaptureState::new();

    let outer = TuiLogCapture::start(&mut state);
    assert!(capture_warn(&mut state, "outer"));
    {
        let inner = TuiLogCapture::start(&mut state);
        assert!(capture_warn(&mut state, "inner"));
        assert!(inner.finish(&mut state).is_none());
        assert_eq!(
            snapshot(&state),
            (1, vec!["[WARN] outer".to_string(), "[WARN] inner".to_string()], 0)
        );
    }

    let captured = outer.finish(&mut state).unwrap();
    assert_eq!(
        Vec::from(captured.records),
        vec!["[WARN] outer".to_string(), "[WARN] inner".to_string()]
    );
    assert_eq!(snapshot(&state), (0, Vec::new(), 0));
}

#[test]
fn tui_capture_drops_oldest_records_when_full() {
    let mut state = ConsoleCaptureState::new();

    let capture = TuiLogCapture::start(&mut state);
    for i in 0..=MAX_CAPTURED_CONSOLE_LOGS {
        assert!(capture_warn(&mut state, &format!("msg {i}")));
    }

    let (depth, records, dropped) = snapshot(&state);
    assert_eq!(depth, 1);
    assert_eq!(dropped, 1);
    assert_eq!(records.len(), MAX_CAPTURED_CONSOLE_LOGS);
    assert_eq!(records[0], "[WARN] msg 1");
    assert_eq!(
        records[MAX_CAPTURED_CONSOLE_LOGS - 1],
        format!("[WARN] msg {MAX_CAPTURED_CONSOLE_LOGS}")
    );

    let captured = capture.finish(&mut state).unwrap();
    assert_eq!(captured.dropped, 1);
}

#[test]
fn captured_logs_replay_with_omission_notice() {
    let mut out = String::new();
    write_captured_console_logs(&mut out, VecDeque::from(["[WARN] retry".to_string()]), 2);
    assert_eq!(out, "[2 older log messages omitted]\n[WARN] retry\n");
}

#[test]
fn replay_without_omission_has_no_notice() {
    let mut out = String::from("> ");
    write_captured_console_logs(
        &mut out,
        VecDeque::from(["[INFO] a".to_string(), "[ERROR] b".to_string()]),
        0,
    );
    assert_eq!(out, "> [INFO] a\n[ERROR] b\n");
}

#[test]
fn restarting_capture_forgets_earlier_session() {
    let mut state = ConsoleCaptureState::new();
    let first = TuiLogCapture::start(&mut state);
    assert!(capture_console_log(&mut state, LogLevel::Error, "first"));
    let logs = first.finish(&mut state).unwrap();
    assert_eq!(Vec::from(logs.records), vec!["[ERROR] first".to_string()]);
    let second = TuiLogCapture::start(&mut state);
    assert!(capture_console_log(&mut state, LogLevel::Trace, "second"));
    assert_eq!(state.records(), vec!["[TRACE] second".to_string()]);
    assert!(second.finish(&mut state).is_some());
}

#[test]
fn level_names_of_records() {
    assert_eq!(LogLevel::Error.as_str(), "ERROR");
    assert_eq!(LogLevel::Warn.as_str(), "WARN");
    assert_eq!(LogLevel::Info.as_str(), "INFO");
    assert_eq!(LogLevel::Debug.as_str(), "DEBUG");
    assert_eq!(LogLevel::Trace.as_str(), "TRACE");
}

#[test]
fn level_filters_parse_ignoring_case() {
    let cases = [
        ("off", LogLevelFilter::Off),
        ("ERROR", LogLevelFilter::Error),
        ("Warn", LogLevelFilter::Warn),
        ("info", LogLevelFilter::Info),
        ("debug", LogLevelFilter::Debug),
        ("tRaCe", LogLevelFilter::Trace),
    ];
    for (name, level) in cases {
        let mut opts = options();
        opts.log_level = Some(name.to_string());
        assert!(opts.has_valid_levels(false));
        assert_eq!(opts.config(false).console_level, level);
    }
    for name in ["verbose", "", "warning", "inf"] {
        let mut opts = options();
        opts.log_level_dependencies = Some(name.to_string());
        assert!(!opts.has_valid_levels(false));
    }
}

fn options() -> LoggingOptions {
    LoggingOptions {
        log_level: None,
        log_level_logfile: None,
        log_level_dryrun: None,
        log_level_dependencies: None,
        log_file: None,
    }
}

#[test]
fn logging_defaults() {
    let opts = options();
    assert!(opts.has_valid_levels(false));
    let config = opts.config(false);
    assert_eq!(config.console_level, LogLevelFilter::Info);
    assert_eq!(config.logfile_level, None);
    assert_eq!(config.dependencies_level, LogLevelFilter::Warn);
}

#[test]
fn logging_dry_run_uses_its_own_level() {
    let mut opts = options();
    opts.log_level = Some("debug".to_string());
    opts.log_level_dryrun = Some("trace".to_string());
    opts.log_level_logfile = Some("error".to_string());
    opts.log_level_dependencies = Some("off".to_string());
    opts.log_file = Some(PathBuf::from("rustic.log"));
    assert_eq!(opts.config(false).console_level, LogLevelFilter::Debug);
    let config = opts.config(true);
    assert_eq!(config.console_level, LogLevelFilter::Trace);
    assert_eq!(config.logfile_level, Some(LogLevelFilter::Error));
    assert_eq!(config.dependencies_level, LogLevelFilter::Off);
}

#[test]
fn logging_invalid_level_is_detected() {
    let mut opts = options();
    opts.log_level_dryrun = Some("loud".to_string());
    assert!(opts.has_valid_levels(false));
    assert!(!opts.has_valid_levels(true));
    opts.log_level_logfile = Some("nope".to_string());
    assert!(!opts.has_valid_levels(false));
}
