//! Console log capture, logging settings and progress reporting for the
//! rustic command line client, with their behaviour stated as contracts.
//!
//! * [`capture`]: console log records held back while a TUI owns the terminal.
//! * [`logging`]: log levels and the logging set-up chosen from the options.
//! * [`layout`]: terminal width and the templates of progress bars.
//! * [`progress`]: progress options and the bookkeeping of live progress bars.
//! * [`report`]: periodic progress reports as log lines and JSON lines.
//! * [`text`]: numbers as decimal text and back.
//! * [`warmup`]: the announcement of a warm-up.

pub mod capture;
pub mod layout;
pub mod logging;
pub mod progress;
pub mod report;
pub mod text;
pub mod warmup;

pub use capture::{
    capture_console_log, write_captured_console_logs, CapturedLogs, ConsoleCaptureState,
    TuiLogCapture, MAX_CAPTURED_CONSOLE_LOGS,
};
pub use layout::{
    bytes_layout, eta_seconds, eta_text, ioctl_stderr_cols, prefix_width, stderr_width, style_template,
    uses_eta_key, BytesLayout, BytesStats, ELAPSED_WIDTH,
};
pub use logging::{
    LogConfig, LogLevel, LogLevelFilter, LoggingOptions, CONSOLE_PATTERN,
    LOGFILE_PATTERN, TRACED_TARGETS,
};
pub use progress::{
    interval_parts, InteractiveBarState, LiveBars, ProgressChoice, ProgressKind, ProgressOptions,
    DEFAULT_INTERVAL, DEFAULT_LOG_INTERVAL,
};
pub use report::{
    format_upload_stats, format_value, JsonError, JsonProgress, JsonStatus,
    NonInteractiveProgress, NonInteractiveState, PercentDone,
};
pub use text::{decimal_string, parse_usize, push_decimal};
pub use warmup::warming_up_message;
