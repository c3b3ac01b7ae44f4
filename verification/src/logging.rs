use std::path::PathBuf;

use vstd::prelude::*;

verus! {

/// A file path, carried through as the user gave it.
#[verifier::external_type_specification]
#[verifier::external_body]
pub struct ExPathBuf(PathBuf);

/// The severity of a log record.
#[derive(Clone, Copy, Debug, PartialEq, Eq, Structural)]
pub enum LogLevel {
    Error,
    Warn,
    Info,
    Debug,
    Trace,
}

/// A threshold below which log records are dropped.
#[derive(Clone, Copy, Debug, PartialEq, Eq, Structural)]
pub enum LogLevelFilter {
    Off,
    Error,
    Warn,
    Info,
    Debug,
    Trace,
}

impl LogLevel {
    /// The name of the level, in capitals, as a log record prints it.
    pub open spec fn name(self) -> Seq<char> {
        match self {
            LogLevel::Error => seq!['E', 'R', 'R', 'O', 'R'],
            LogLevel::Warn => seq!['W', 'A', 'R', 'N'],
            LogLevel::Info => seq!['I', 'N', 'F', 'O'],
            LogLevel::Debug => seq!['D', 'E', 'B', 'U', 'G'],
            LogLevel::Trace => seq!['T', 'R', 'A', 'C', 'E'],
        }
    }

    /// The name of the level, in capitals.
    pub fn as_str(&self) -> (s: &'static str)
        ensures
            s@ == self.name(),
    {
        match self {
            LogLevel::Error => {
                proof { reveal_strlit("ERROR"); }
                "ERROR"
            },
            LogLevel::Warn => {
                proof { reveal_strlit("WARN"); }
                "WARN"
            },
            LogLevel::Info => {
                proof { reveal_strlit("INFO"); }
                "INFO"
            },
            LogLevel::Debug => {
                proof { reveal_strlit("DEBUG"); }
                "DEBUG"
            },
            LogLevel::Trace => {
                proof { reveal_strlit("TRACE"); }
                "TRACE"
            },
        }
    }
}

/// `c` with an ASCII capital letter turned into its small letter.
pub open spec fn ascii_lower(c: char) -> char {
    if 'A' <= c && c <= 'Z' {
        ((c as u32) + 32) as char
    } else {
        c
    }
}

/// Two texts are equal once ASCII letters are compared without case.
pub open spec fn eq_ignore_ascii_case(a: Seq<char>, b: Seq<char>) -> bool {
    a.len() == b.len() && forall|i: int| 0 <= i < a.len() ==> ascii_lower(a[i]) == ascii_lower(b[i])
}

/// The level filter whose name `s` is, in any case of its ASCII letters.
pub open spec fn level_filter_named(s: Seq<char>) -> Option<LogLevelFilter> {
    if eq_ignore_ascii_case(s, seq!['O', 'F', 'F']) {
        Some(LogLevelFilter::Off)
    } else if eq_ignore_ascii_case(s, seq!['E', 'R', 'R', 'O', 'R']) {
        Some(LogLevelFilter::Error)
    } else if eq_ignore_ascii_case(s, seq!['W', 'A', 'R', 'N']) {
        Some(LogLevelFilter::Warn)
    } else if eq_ignore_ascii_case(s, seq!['I', 'N', 'F', 'O']) {
        Some(LogLevelFilter::Info)
    } else if eq_ignore_ascii_case(s, seq!['D', 'E', 'B', 'U', 'G']) {
        Some(LogLevelFilter::Debug)
    } else if eq_ignore_ascii_case(s, seq!['T', 'R', 'A', 'C', 'E']) {
        Some(LogLevelFilter::Trace)
    } else {
        None
    }
}

/// Parses a level filter with `log::LevelFilter::from_str`.
///
/// Trusted: the `log` crate compares `s`, ignoring ASCII case, with the names
/// OFF, ERROR, WARN, INFO, DEBUG and TRACE, and fails on anything else.
#[verifier::external_body]
fn parse_level_filter(s: &str) -> (r: Option<LogLevelFilter>)
    ensures
        r == level_filter_named(s@),
{
    match s.parse::<log::LevelFilter>() {
        Ok(log::LevelFilter::Off) => Some(LogLevelFilter::Off),
        Ok(log::LevelFilter::Error) => Some(LogLevelFilter::Error),
        Ok(log::LevelFilter::Warn) => Some(LogLevelFilter::Warn),
        Ok(log::LevelFilter::Info) => Some(LogLevelFilter::Info),
        Ok(log::LevelFilter::Debug) => Some(LogLevelFilter::Debug),
        Ok(log::LevelFilter::Trace) => Some(LogLevelFilter::Trace),
        Err(_) => None,
    }
}

/// Pattern of console log lines: the level in brackets, then the message.
pub const CONSOLE_PATTERN: &'static str = "{h([{l}])} {m}{n}";

/// Pattern of log file lines: date, level and message.
pub const LOGFILE_PATTERN: &'static str = "{d} [{l}] - {m}{n}";

/// Logger targets of rustic itself, which log at every level.
pub const TRACED_TARGETS: [&'static str; 3] = ["rustic_rs", "rustic_core", "rustic_backend"];

/// Logging options, as given on the command line or in the config file.
pub struct LoggingOptions {
    /// Log level of the console.
    pub log_level: Option<String>,
    /// Log level of the log file.
    pub log_level_logfile: Option<String>,
    /// Log level of the console in dry-run mode.
    pub log_level_dryrun: Option<String>,
    /// Log level of other crates.
    pub log_level_dependencies: Option<String>,
    /// File that log messages are written to.
    pub log_file: Option<PathBuf>,
}

/// The logging set-up that a run uses.
#[derive(Clone, Copy, Debug, PartialEq, Eq, Structural)]
pub struct LogConfig {
    /// Threshold of the console appender.
    pub console_level: LogLevelFilter,
    /// Threshold of the log file appender, present when a log file is given.
    pub logfile_level: Option<LogLevelFilter>,
    /// Level of the root logger, which other crates log through.
    pub dependencies_level: LogLevelFilter,
}

/// The level that an optional level name gives, or `default` where none is given.
pub open spec fn level_or(name: Option<String>, default: LogLevelFilter) -> LogLevelFilter {
    match name {
        Some(n) => level_filter_named(n@).unwrap(),
        None => default,
    }
}

/// An optional level name is absent or names a level.
pub open spec fn level_valid(name: Option<String>) -> bool {
    match name {
        Some(n) => level_filter_named(n@) is Some,
        None => true,
    }
}

fn level_or_default(name: &Option<String>, default: LogLevelFilter) -> (r: LogLevelFilter)
    requires
        level_valid(*name),
    ensures
        r == level_or(*name, default),
{
    match name {
        Some(n) => match parse_level_filter(n.as_str()) {
            Some(level) => level,
            None => default,
        },
        None => default,
    }
}

fn level_is_valid(name: &Option<String>) -> (r: bool)
    ensures
        r == level_valid(*name),
{
    match name {
        Some(n) => parse_level_filter(n.as_str()).is_some(),
        None => true,
    }
}

impl LoggingOptions {
    /// The console level name in use: the dry-run one in dry-run mode.
    pub open spec fn console_level_name(&self, dry_run: bool) -> Option<String> {
        if dry_run {
            self.log_level_dryrun
        } else {
            self.log_level
        }
    }

    /// Every level name that `config` reads names a level.
    pub open spec fn levels_valid(&self, dry_run: bool) -> bool {
        &&& level_valid(self.console_level_name(dry_run))
        &&& level_valid(self.log_level_logfile)
        &&& level_valid(self.log_level_dependencies)
    }

    /// Whether every level name that `config` reads names a level.
    pub fn has_valid_levels(&self, dry_run: bool) -> (r: bool)
        ensures
            r == self.levels_valid(dry_run),
    {
        let console = if dry_run {
            level_is_valid(&self.log_level_dryrun)
        } else {
            level_is_valid(&self.log_level)
        };
        console && level_is_valid(&self.log_level_logfile) && level_is_valid(
            &self.log_level_dependencies,
        )
    }

    /// The logging set-up: console at the chosen level (info by default), a
    /// log file at its own level (info by default) when one is given, and
    /// other crates at their level (warn by default).
    pub fn config(&self, dry_run: bool) -> (c: LogConfig)
        requires
            self.levels_valid(dry_run),
        ensures
            c.console_level == level_or(self.console_level_name(dry_run), LogLevelFilter::Info),
            c.logfile_level == (if self.log_file is Some {
                Some(level_or(self.log_level_logfile, LogLevelFilter::Info))
            } else {
                None::<LogLevelFilter>
            }),
            c.dependencies_level == level_or(self.log_level_dependencies, LogLevelFilter::Warn),
    {
        let console_level = if dry_run {
            level_or_default(&self.log_level_dryrun, LogLevelFilter::Info)
        } else {
            level_or_default(&self.log_level, LogLevelFilter::Info)
        };
        let file_level = level_or_default(&self.log_level_logfile, LogLevelFilter::Info);
        let dependencies_level = level_or_default(&self.log_level_dependencies, LogLevelFilter::Warn);
        let logfile_level = match &self.log_file {
            Some(_) => Some(file_level),
            None => None,
        };
        LogConfig { console_level, logfile_level, dependencies_level }
    }
}

} // verus!
