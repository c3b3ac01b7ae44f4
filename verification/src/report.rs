use vstd::prelude::*;

use crate::progress::{interval_parts, ProgressKind};
use crate::text::{decimal_string, decimal_text, push_decimal};

verus! {

/// The text that `bytesize` shows for a byte count, such as `1.5 KiB`.
pub uninterp spec fn byte_size_text(bytes: u64) -> Seq<char>;

/// Formats a byte count with `bytesize::ByteSize`'s `Display`.
///
/// Trusted: the text is whatever `bytesize` prints for `bytes` (binary units
/// with one decimal place); it depends on `bytes` alone.
#[verifier::external_body]
fn format_bytes(bytes: u64) -> (s: String)
    ensures
        s@ == byte_size_text(bytes),
{
    bytesize::ByteSize(bytes).to_string()
}

/// How a value of a progress of `kind` is shown: bytes in units, others as numbers.
pub open spec fn value_text(kind: ProgressKind, value: u64) -> Seq<char> {
    if kind == ProgressKind::Bytes {
        byte_size_text(value)
    } else {
        decimal_text(value as nat)
    }
}

/// Shows a value of a progress of `kind`.
pub fn format_value(kind: ProgressKind, value: u64) -> (s: String)
    ensures
        s@ == value_text(kind, value),
{
    match kind {
        ProgressKind::Bytes => format_bytes(value),
        _ => decimal_string(value),
    }
}

/// The summary of uploaded files: `N new  M changed  SIZE added`.
pub open spec fn upload_stats_text(files_new: u64, files_changed: u64, bytes_added: u64) -> Seq<char> {
    decimal_text(files_new as nat) + " new  "@ + decimal_text(files_changed as nat) + " changed  "@
        + byte_size_text(bytes_added) + " added"@
}

/// The summary of uploaded files.
pub fn format_upload_stats(files_new: u64, files_changed: u64, bytes_added: u64) -> (s: String)
    ensures
        s@ == upload_stats_text(files_new, files_changed, bytes_added),
{
    let mut s = String::new();
    push_decimal(&mut s, files_new);
    s.append(" new  ");
    push_decimal(&mut s, files_changed);
    s.append(" changed  ");
    let size = format_bytes(bytes_added);
    s.append(size.as_str());
    s.append(" added");
    assert(s@ =~= upload_stats_text(files_new, files_changed, bytes_added));
    s
}

/// Time passed from `from` to `to` (nanoseconds), zero if `to` is earlier.
pub open spec fn elapsed_between(from: u64, to: u64) -> nat {
    if to >= from {
        (to - from) as nat
    } else {
        0
    }
}

/// State of non-interactive and JSON progress.
#[derive(Debug)]
pub struct NonInteractiveState {
    /// Title of the progress.
    pub prefix: String,
    /// Amount done.
    pub position: u64,
    /// Total amount, once known.
    pub length: Option<u64>,
    /// When progress was last reported (nanoseconds on a monotonic clock).
    pub last_log: u64,
    /// Number of errors reported.
    pub error_count: u64,
    /// Message of a status line.
    pub message: String,
    /// New files uploaded.
    pub files_new: Option<u64>,
    /// Changed files uploaded.
    pub files_changed: Option<u64>,
    /// Bytes added to the repository.
    pub bytes_added: Option<u64>,
}

/// The progress text: the message of a status line that has one; otherwise
/// the amount done, followed by ` / ` and the total once it is known.
pub open spec fn progress_text_of(
    kind: ProgressKind,
    message: Seq<char>,
    position: u64,
    length: Option<u64>,
) -> Seq<char> {
    if kind == ProgressKind::Status && message.len() > 0 {
        message
    } else {
        match length {
            Some(len) => value_text(kind, position) + " / "@ + value_text(kind, len),
            None => value_text(kind, position),
        }
    }
}

impl NonInteractiveState {
    /// A fresh state titled `prefix`, reported last at `now`.
    pub fn new(prefix: &str, now: u64) -> (s: Self)
        ensures
            s.prefix@ == prefix@,
            s.position == 0,
            s.length is None,
            s.last_log == now,
            s.error_count == 0,
            s.message@ == Seq::<char>::empty(),
            s.files_new is None,
            s.files_changed is None,
            s.bytes_added is None,
    {
        NonInteractiveState {
            prefix: prefix.to_owned(),
            position: 0,
            length: None,
            last_log: now,
            error_count: 0,
            message: String::new(),
            files_new: None,
            files_changed: None,
            bytes_added: None,
        }
    }

    /// The progress text of a progress of `kind`.
    pub fn progress_text(&self, kind: ProgressKind) -> (s: String)
        ensures
            s@ == progress_text_of(kind, self.message@, self.position, self.length),
    {
        if matches!(kind, ProgressKind::Status) && !self.message.as_str().is_empty() {
            return self.message.clone();
        }
        match self.length {
            Some(len) => {
                let mut s = format_value(kind, self.position);
                s.append(" / ");
                let total = format_value(kind, len);
                s.append(total.as_str());
                s
            },
            None => format_value(kind, self.position),
        }
    }

    /// At least `interval` nanoseconds passed since progress was last reported.
    pub fn should_log(&self, interval: u128, now: u64) -> (r: bool)
        ensures
            r == (elapsed_between(self.last_log, now) >= interval),
    {
        let elapsed: u64 = if now >= self.last_log {
            now - self.last_log
        } else {
            0
        };
        elapsed as u128 >= interval
    }

    /// Progress was reported at `now`.
    pub fn mark_logged(&mut self, now: u64)
        ensures
            *final(self) == (NonInteractiveState { last_log: now, ..*old(self) }),
    {
        self.last_log = now;
    }
}

/// `a` is `b` with its report time replaced.
pub open spec fn same_but_last_log(a: NonInteractiveState, b: NonInteractiveState) -> bool {
    a == (NonInteractiveState { last_log: a.last_log, ..b })
}

// ================ Non-Interactive ================

/// Periodic logger for non-interactive environments (i.e. systemd).
#[derive(Debug)]
pub struct NonInteractiveProgress {
    /// The progress state.
    pub state: NonInteractiveState,
    /// When the progress started (nanoseconds on a monotonic clock).
    pub start: u64,
    /// Least time between two reports, in nanoseconds.
    pub interval: u128,
    /// The kind of progress.
    pub kind: ProgressKind,
}

/// The log line of a progress report: `prefix: progress text`.
pub open spec fn report_line(s: NonInteractiveState, kind: ProgressKind) -> Seq<char> {
    s.prefix@ + ": "@ + progress_text_of(kind, s.message@, s.position, s.length)
}

/// The text that `Debug` with precision 2 (`{:.2?}`) writes for the
/// `std::time::Duration` of `secs` seconds and `nanos` nanoseconds, such as `1.50s`.
pub uninterp spec fn duration_debug_text(secs: u64, nanos: u32) -> Seq<char>;

/// Formats a duration with `Debug` at precision 2, as `{:.2?}` does.
///
/// Trusted: the text is what std's `Debug` for `Duration::new(secs, nanos)`
/// writes with precision 2; it depends on `secs` and `nanos` alone.
#[verifier::external_body]
fn duration_debug(secs: u64, nanos: u32) -> (s: String)
    requires
        nanos < 1_000_000_000,
    ensures
        s@ == duration_debug_text(secs, nanos),
{
    format!("{:.2?}", std::time::Duration::new(secs, nanos))
}

/// The text of an elapsed time given in nanoseconds, as `{:.2?}` writes it.
pub open spec fn elapsed_text(elapsed: u128) -> Seq<char> {
    duration_debug_text((elapsed / 1_000_000_000) as u64, (elapsed % 1_000_000_000) as u32)
}

/// The log line when a progress finishes after `elapsed` nanoseconds:
/// `prefix: value done in TIME`, with the message in place of the value for a
/// status line. A status line without a message logs nothing.
pub open spec fn finish_line(s: NonInteractiveState, kind: ProgressKind, elapsed: u128) -> Option<Seq<char>> {
    if kind == ProgressKind::Status {
        if s.message@.len() > 0 {
            Some(s.prefix@ + ": "@ + s.message@ + " done in "@ + elapsed_text(elapsed))
        } else {
            None
        }
    } else {
        Some(s.prefix@ + ": "@ + value_text(kind, s.position) + " done in "@ + elapsed_text(elapsed))
    }
}

impl NonInteractiveProgress {
    /// A new progress titled `prefix`, started at `now`.
    pub fn new(prefix: &str, interval: u128, kind: ProgressKind, now: u64) -> (p: Self)
        ensures
            p.state.prefix@ == prefix@,
            p.state.position == 0,
            p.state.length is None,
            p.state.last_log == now,
            p.state.error_count == 0,
            p.state.message@ == Seq::<char>::empty(),
            p.state.files_new is None && p.state.files_changed is None && p.state.bytes_added is None,
            p.start == now,
            p.interval == interval,
            p.kind == kind,
    {
        NonInteractiveProgress { state: NonInteractiveState::new(prefix, now), start: now, interval, kind }
    }

    /// Shows a value of this progress.
    pub fn format_value(&self, value: u64) -> (s: String)
        ensures
            s@ == value_text(self.kind, value),
    {
        format_value(self.kind, value)
    }

    /// The log line of a progress report.
    pub fn log_progress(&self) -> (s: String)
        ensures
            s@ == report_line(self.state, self.kind),
    {
        let mut s = self.state.prefix.clone();
        s.append(": ");
        let text = self.state.progress_text(self.kind);
        s.append(text.as_str());
        s
    }

    /// Reports when the interval passed; then returns the log line and
    /// remembers `now` as the time of the last report.
    fn report_if_due(&mut self, now: u64) -> (line: Option<String>)
        ensures
            final(self).start == old(self).start,
            final(self).interval == old(self).interval,
            final(self).kind == old(self).kind,
            same_but_last_log(final(self).state, old(self).state),
            line is Some <==> elapsed_between(old(self).state.last_log, now) >= old(self).interval,
            line matches Some(l) ==> l@ == report_line(old(self).state, old(self).kind)
                && final(self).state.last_log == now,
            line is None ==> final(self).state.last_log == old(self).state.last_log,
    {
        if self.state.should_log(self.interval, now) {
            let line = self.log_progress();
            self.state.mark_logged(now);
            Some(line)
        } else {
            None
        }
    }

    /// Sets the total amount.
    pub fn set_length(&mut self, len: u64)
        ensures
            *final(self) == (NonInteractiveProgress {
                state: NonInteractiveState { length: Some(len), ..old(self).state },
                ..*old(self)
            }),
    {
        self.state.length = Some(len);
    }

    /// Sets the title.
    pub fn set_title(&mut self, title: &str)
        ensures
            final(self).state.prefix@ == title@,
            *final(self) == (NonInteractiveProgress {
                state: NonInteractiveState { prefix: final(self).state.prefix, ..old(self).state },
                ..*old(self)
            }),
    {
        self.state.prefix = title.to_owned();
    }

    /// Advances the progress by `inc`; returns the log line when a report is due.
    pub fn inc(&mut self, inc: u64, now: u64) -> (line: Option<String>)
        requires
            old(self).state.position + inc <= u64::MAX,
        ensures
            *final(self) == (NonInteractiveProgress {
                state: NonInteractiveState {
                    position: (old(self).state.position + inc) as u64,
                    last_log: final(self).state.last_log,
                    ..old(self).state
                },
                ..*old(self)
            }),
            line is Some <==> elapsed_between(old(self).state.last_log, now) >= old(self).interval,
            line matches Some(l) ==> l@ == report_line(final(self).state, final(self).kind)
                && final(self).state.last_log == now,
            line is None ==> final(self).state.last_log == old(self).state.last_log,
    {
        self.state.position = self.state.position + inc;
        self.report_if_due(now)
    }

    /// The line logged when the progress finishes after `elapsed`
    /// nanoseconds; none for a status line without a message.
    pub fn finish(&self, elapsed: u128) -> (line: Option<String>)
        requires
            elapsed / 1_000_000_000 <= u64::MAX,
        ensures
            match (line, finish_line(self.state, self.kind, elapsed)) {
                (Some(l), Some(t)) => l@ == t,
                (None, None) => true,
                _ => false,
            },
    {
        if matches!(self.kind, ProgressKind::Status) {
            if !self.state.message.as_str().is_empty() {
                let mut s = self.state.prefix.clone();
                s.append(": ");
                s.append(self.state.message.as_str());
                s.append(" done in ");
                let time = Self::elapsed_string(elapsed);
                s.append(time.as_str());
                return Some(s);
            }
            return None;
        }
        let mut s = self.state.prefix.clone();
        s.append(": ");
        let value = self.format_value(self.state.position);
        s.append(value.as_str());
        s.append(" done in ");
        let time = Self::elapsed_string(elapsed);
        s.append(time.as_str());
        Some(s)
    }

    fn elapsed_string(elapsed: u128) -> (s: String)
        requires
            elapsed / 1_000_000_000 <= u64::MAX,
        ensures
            s@ == elapsed_text(elapsed),
    {
        let (secs, nanos) = interval_parts(elapsed);
        duration_debug(secs, nanos)
    }

    /// Sets the message; returns the log line when a report is due.
    pub fn set_message(&mut self, msg: &str, now: u64) -> (line: Option<String>)
        ensures
            final(self).state.message@ == msg@,
            *final(self) == (NonInteractiveProgress {
                state: NonInteractiveState {
                    message: final(self).state.message,
                    last_log: final(self).state.last_log,
                    ..old(self).state
                },
                ..*old(self)
            }),
            line is Some <==> elapsed_between(old(self).state.last_log, now) >= old(self).interval,
            line matches Some(l) ==> l@ == report_line(final(self).state, final(self).kind)
                && final(self).state.last_log == now,
            line is None ==> final(self).state.last_log == old(self).state.last_log,
    {
        self.state.message = msg.to_owned();
        self.report_if_due(now)
    }
}

// ================ JSON ================

/// Share of the work done, as a fraction `done / total` of at most one.
#[derive(Clone, Copy, Debug, PartialEq, Eq, Structural)]
pub struct PercentDone {
    /// Amount done, capped at the total.
    pub done: u64,
    /// Total amount; never zero.
    pub total: u64,
}

/// A JSON status line.
#[derive(Clone, Debug)]
pub struct JsonStatus {
    /// Always `status`.
    pub message_type: &'static str,
    /// Whole seconds since the progress started.
    pub seconds_elapsed: u64,
    /// Estimated whole seconds until the progress is done.
    pub seconds_remaining: Option<u64>,
    /// Share of the work done.
    pub percent_done: Option<PercentDone>,
    /// Total bytes, for a bytes progress.
    pub total_bytes: Option<u64>,
    /// Bytes done, for a bytes progress.
    pub bytes_done: Option<u64>,
    /// New files uploaded.
    pub files_new: Option<u64>,
    /// Changed files uploaded.
    pub files_changed: Option<u64>,
    /// Bytes added to the repository.
    pub bytes_added: Option<u64>,
    /// Number of errors reported.
    pub error_count: u64,
}

/// A JSON error line.
#[derive(Clone, Debug)]
pub struct JsonError {
    /// Always `error`.
    pub message_type: &'static str,
    /// The error message.
    pub message: String,
    /// What was being done.
    pub during: String,
    /// The item concerned; empty when there is none.
    pub item: String,
}

/// Whole seconds from `start` to `now` (nanoseconds).
pub open spec fn elapsed_secs(start: u64, now: u64) -> nat {
    elapsed_between(start, now) / 1_000_000_000
}

/// The estimated seconds left: the elapsed time scaled by the part not yet
/// done (the product saturating at `u64::MAX`), once something is done and
/// something remains.
pub open spec fn remaining_secs(elapsed: nat, position: u64, length: Option<u64>) -> Option<u64> {
    match length {
        Some(len) => if position > 0 && len > position {
            let product: int = elapsed * (len - position);
            let capped: int = if product <= u64::MAX {
                product
            } else {
                u64::MAX as int
            };
            Some((capped / (position as int)) as u64)
        } else {
            None
        },
        None => None,
    }
}

/// The share done: `position / length`, at most one, once a non-zero length is known.
pub open spec fn percent_of(position: u64, length: Option<u64>) -> Option<PercentDone> {
    match length {
        Some(len) => if len > 0 {
            Some(PercentDone { done: if position <= len { position } else { len }, total: len })
        } else {
            None
        },
        None => None,
    }
}

/// `st` is the status line of state `s` of a progress of `kind` that started
/// at `start`, reported at `now`.
pub open spec fn status_of(st: JsonStatus, s: NonInteractiveState, kind: ProgressKind, start: u64, now: u64) -> bool {
    &&& st.message_type@ == "status"@
    &&& st.seconds_elapsed == elapsed_secs(start, now)
    &&& st.seconds_remaining == remaining_secs(elapsed_secs(start, now), s.position, s.length)
    &&& st.percent_done == percent_of(s.position, s.length)
    &&& st.total_bytes == (if kind == ProgressKind::Bytes { s.length } else { None })
    &&& st.bytes_done == (if kind == ProgressKind::Bytes { Some(s.position) } else { None })
    &&& st.files_new == s.files_new
    &&& st.files_changed == s.files_changed
    &&& st.bytes_added == s.bytes_added
    &&& st.error_count == s.error_count
}

/// Law: the text of a progress is its message for a status line that has
/// one; otherwise the amount done alone while no total is known, and the
/// amount done, ` / ` and the total once it is.
pub proof fn lemma_progress_text_shape(
    kind: ProgressKind,
    message: Seq<char>,
    position: u64,
    length: Option<u64>,
)
    ensures
        kind == ProgressKind::Status && message.len() > 0 ==> progress_text_of(
            kind,
            message,
            position,
            length,
        ) == message,
        !(kind == ProgressKind::Status && message.len() > 0) && length is None ==> progress_text_of(
            kind,
            message,
            position,
            length,
        ) == value_text(kind, position),
        !(kind == ProgressKind::Status && message.len() > 0) && length is Some ==> progress_text_of(
            kind,
            message,
            position,
            length,
        ) == value_text(kind, position) + " / "@ + value_text(kind, length->0),
{
}

/// Law: while something is done and something remains, a status line's
/// estimate of the seconds left is the elapsed seconds times the part left,
/// divided by the part done, rounded down (the product capped at `u64::MAX`).
/// So for a fixed elapsed time the estimate never grows as more is done, and
/// it is at least the elapsed time while at most half is done.
pub proof fn lemma_remaining_estimate(
    st1: JsonStatus,
    s1: NonInteractiveState,
    st2: JsonStatus,
    s2: NonInteractiveState,
    kind: ProgressKind,
    start: u64,
    now: u64,
    len: u64,
)
    requires
        status_of(st1, s1, kind, start, now),
        status_of(st2, s2, kind, start, now),
        s1.length == Some(len),
        s2.length == Some(len),
        0 < s1.position <= s2.position < len,
    ensures
        ({
            let e = st1.seconds_elapsed as int;
            let p = s1.position as int;
            let product = e * (len - p);
            let capped = if product <= u64::MAX { product } else { u64::MAX as int };
            &&& st1.seconds_remaining is Some
            &&& st1.seconds_remaining->0 * p <= capped < (st1.seconds_remaining->0 + 1) * p
        }),
        st1.seconds_elapsed == st2.seconds_elapsed,
        st2.seconds_remaining is Some,
        st2.seconds_remaining->0 <= st1.seconds_remaining->0,
        2 * s1.position <= len && st1.seconds_elapsed * (len - s1.position) <= u64::MAX
            ==> st1.seconds_remaining->0 >= st1.seconds_elapsed,
{
    let e = elapsed_secs(start, now) as int;
    let p1 = s1.position as int;
    let p2 = s2.position as int;
    let n1 = e * (len - p1);
    let n2 = e * (len - p2);
    let c1 = if n1 <= u64::MAX { n1 } else { u64::MAX as int };
    let c2 = if n2 <= u64::MAX { n2 } else { u64::MAX as int };
    assert(0 <= n2 <= n1) by (nonlinear_arith)
        requires
            n1 == e * (len - p1),
            n2 == e * (len - p2),
            0 <= e,
            p1 <= p2 < len,
    ;
    crate::text::lemma_floor_division(c1, p1);
    vstd::arithmetic::div_mod::lemma_div_is_ordered(c2, c1, p2);
    vstd::arithmetic::div_mod::lemma_div_is_ordered_by_denominator(c1, p1, p2);
    if 2 * p1 <= len && n1 <= u64::MAX {
        assert(e * p1 <= n1) by (nonlinear_arith)
            requires
                n1 == e * (len - p1),
                0 <= e,
                2 * p1 <= len,
        ;
        vstd::arithmetic::div_mod::lemma_div_is_ordered(e * p1, n1, p1);
        vstd::arithmetic::div_mod::lemma_div_multiples_vanish(e, p1);
    }
}

/// Law: a reported share never exceeds the whole, and a remaining time is
/// only estimated while something is done and something remains.
pub proof fn lemma_status_bounds(elapsed: nat, position: u64, length: Option<u64>)
    ensures
        percent_of(position, length) matches Some(p) ==> p.done <= p.total && p.total > 0,
        remaining_secs(elapsed, position, length) is Some ==> (position > 0
            && (length matches Some(len) && len > position)),
{
}

/// Periodic JSON lines progress for machine-readable consumers.
#[derive(Debug)]
pub struct JsonProgress {
    /// The progress state.
    pub state: NonInteractiveState,
    /// When the progress started (nanoseconds on a monotonic clock).
    pub start: u64,
    /// Least time between two reports, in nanoseconds.
    pub interval: u128,
    /// The kind of progress.
    pub kind: ProgressKind,
}

impl JsonProgress {
    /// A new progress titled `prefix`, started at `now`.
    pub fn new(prefix: &str, interval: u128, kind: ProgressKind, now: u64) -> (p: Self)
        ensures
            p.state.prefix@ == prefix@,
            p.state.position == 0,
            p.state.length is None,
            p.state.last_log == now,
            p.state.error_count == 0,
            p.state.message@ == Seq::<char>::empty(),
            p.state.files_new is None && p.state.files_changed is None && p.state.bytes_added is None,
            p.start == now,
            p.interval == interval,
            p.kind == kind,
    {
        JsonProgress { state: NonInteractiveState::new(prefix, now), start: now, interval, kind }
    }

    /// The status line at `now`.
    pub fn log_progress(&self, now: u64) -> (st: JsonStatus)
        ensures
            status_of(st, self.state, self.kind, self.start, now),
    {
        let is_bytes = matches!(self.kind, ProgressKind::Bytes);
        let elapsed: u64 = (if now >= self.start {
            now - self.start
        } else {
            0
        }) / 1_000_000_000;
        let position = self.state.position;
        let percent_done = match self.state.length {
            Some(len) => if len > 0 {
                Some(PercentDone { done: if position <= len { position } else { len }, total: len })
            } else {
                None
            },
            None => None,
        };
        let seconds_remaining = match self.state.length {
            Some(len) => if position > 0 && len > position {
                let product = match elapsed.checked_mul(len - position) {
                    Some(p) => p,
                    None => u64::MAX,
                };
                Some(product / position)
            } else {
                None
            },
            None => None,
        };
        proof {
            reveal_strlit("status");
        }
        JsonStatus {
            message_type: "status",
            seconds_elapsed: elapsed,
            seconds_remaining,
            percent_done,
            total_bytes: if is_bytes { self.state.length } else { None },
            bytes_done: if is_bytes { Some(position) } else { None },
            files_new: self.state.files_new,
            files_changed: self.state.files_changed,
            bytes_added: self.state.bytes_added,
            error_count: self.state.error_count,
        }
    }

    /// Reports when the interval passed and remembers `now` as the last report.
    fn report_if_due(&mut self, now: u64) -> (st: Option<JsonStatus>)
        ensures
            final(self).start == old(self).start,
            final(self).interval == old(self).interval,
            final(self).kind == old(self).kind,
            same_but_last_log(final(self).state, old(self).state),
            st is Some <==> elapsed_between(old(self).state.last_log, now) >= old(self).interval,
            st matches Some(x) ==> status_of(x, old(self).state, old(self).kind, old(self).start, now)
                && final(self).state.last_log == now,
            st is None ==> final(self).state.last_log == old(self).state.last_log,
    {
        if self.state.should_log(self.interval, now) {
            let st = self.log_progress(now);
            self.state.mark_logged(now);
            Some(st)
        } else {
            None
        }
    }

    /// Sets the total amount and always reports.
    pub fn set_length(&mut self, len: u64, now: u64) -> (st: JsonStatus)
        ensures
            *final(self) == (JsonProgress {
                state: NonInteractiveState { length: Some(len), last_log: now, ..old(self).state },
                ..*old(self)
            }),
            status_of(st, final(self).state, final(self).kind, final(self).start, now),
    {
        self.state.length = Some(len);
        let st = self.log_progress(now);
        self.state.mark_logged(now);
        st
    }

    /// Sets the title.
    pub fn set_title(&mut self, title: &str)
        ensures
            final(self).state.prefix@ == title@,
            *final(self) == (JsonProgress {
                state: NonInteractiveState { prefix: final(self).state.prefix, ..old(self).state },
                ..*old(self)
            }),
    {
        self.state.prefix = title.to_owned();
    }

    /// Advances the progress by `inc`; returns a status line when a report is due.
    pub fn inc(&mut self, inc: u64, now: u64) -> (st: Option<JsonStatus>)
        requires
            old(self).state.position + inc <= u64::MAX,
        ensures
            *final(self) == (JsonProgress {
                state: NonInteractiveState {
                    position: (old(self).state.position + inc) as u64,
                    last_log: final(self).state.last_log,
                    ..old(self).state
                },
                ..*old(self)
            }),
            st is Some <==> elapsed_between(old(self).state.last_log, now) >= old(self).interval,
            st matches Some(x) ==> status_of(x, final(self).state, final(self).kind, final(self).start, now)
                && final(self).state.last_log == now,
            st is None ==> final(self).state.last_log == old(self).state.last_log,
    {
        self.state.position = self.state.position + inc;
        self.report_if_due(now)
    }

    /// The status line reported when the progress finishes; none for a status
    /// progress that never got upload statistics.
    pub fn finish(&self, now: u64) -> (st: Option<JsonStatus>)
        ensures
            st is None <==> (self.kind == ProgressKind::Status && self.state.files_new is None
                && self.state.files_changed is None && self.state.bytes_added is None),
            st matches Some(x) ==> status_of(x, self.state, self.kind, self.start, now),
    {
        if matches!(self.kind, ProgressKind::Status) && self.state.files_new.is_none()
            && self.state.files_changed.is_none() && self.state.bytes_added.is_none() {
            return None;
        }
        Some(self.log_progress(now))
    }

    /// Records upload statistics and their summary as message; returns a
    /// status line when a report is due.
    pub fn set_upload_stats(&mut self, files_new: u64, files_changed: u64, bytes_added: u64, now: u64) -> (st: Option<JsonStatus>)
        ensures
            final(self).state.files_new == Some(files_new),
            final(self).state.files_changed == Some(files_changed),
            final(self).state.bytes_added == Some(bytes_added),
            final(self).state.message@ == upload_stats_text(files_new, files_changed, bytes_added),
            *final(self) == (JsonProgress {
                state: NonInteractiveState {
                    files_new: Some(files_new),
                    files_changed: Some(files_changed),
                    bytes_added: Some(bytes_added),
                    message: final(self).state.message,
                    last_log: final(self).state.last_log,
                    ..old(self).state
                },
                ..*old(self)
            }),
            st is Some <==> elapsed_between(old(self).state.last_log, now) >= old(self).interval,
            st matches Some(x) ==> status_of(x, final(self).state, final(self).kind, final(self).start, now)
                && final(self).state.last_log == now,
            st is None ==> final(self).state.last_log == old(self).state.last_log,
    {
        self.state.files_new = Some(files_new);
        self.state.files_changed = Some(files_changed);
        self.state.bytes_added = Some(bytes_added);
        self.state.message = format_upload_stats(files_new, files_changed, bytes_added);
        self.report_if_due(now)
    }

    /// Counts an error and returns its JSON error line.
    pub fn error(&mut self, item: Option<&str>, during: &str, message: &str) -> (e: JsonError)
        requires
            old(self).state.error_count < u64::MAX,
        ensures
            *final(self) == (JsonProgress {
                state: NonInteractiveState {
                    error_count: (old(self).state.error_count + 1) as u64,
                    ..old(self).state
                },
                ..*old(self)
            }),
            e.message_type@ == "error"@,
            e.message@ == message@,
            e.during@ == during@,
            e.item@ == (match item {
                Some(i) => i@,
                None => Seq::<char>::empty(),
            }),
    {
        self.state.error_count = self.state.error_count + 1;
        let item_text = match item {
            Some(i) => i.to_owned(),
            None => String::new(),
        };
        proof {
            reveal_strlit("error");
        }
        JsonError {
            message_type: "error",
            message: message.to_owned(),
            during: during.to_owned(),
            item: item_text,
        }
    }
}

} // verus!
