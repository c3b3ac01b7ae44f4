# rustic_rs: console capture, logging set-up and progress reporting

A Verus library with the decisions behind rustic's console logging and
progress display, each stated as a contract and proved:

* `src/capture.rs` holds console log records back while a TUI owns the
  terminal: a bounded queue that keeps the newest records and counts the
  dropped ones, nested guards, and the text replayed afterwards.
* `src/logging.rs` picks the console, log file and dependency log levels.
* `src/layout.rs` sizes progress bar templates to the terminal width.
* `src/progress.rs` chooses how progress is shown and counts live bars.
* `src/report.rs` produces the periodic log lines and JSON status lines.
* `src/text.rs` converts numbers to and from decimal text.

`app/` is the plumbing that cannot be verified: process-wide state behind
mutexes, clap/serde option types, log4rs and indicatif set-up, terminal
queries, and the rustic_core progress traits.
