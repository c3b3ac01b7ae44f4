use vstd::prelude::*;

verus! {

/// The kind of a progress indicator.
#[derive(Clone, Copy, Debug, PartialEq, Eq, Structural)]
pub enum ProgressKind {
    /// A spinner; it gets no length and is not advanced, only finished.
    Spinner,
    /// A progress which counts something.
    Counter,
    /// A progress which counts bytes.
    Bytes,
    /// A status line that shows a message.
    Status,
}

// ================ Options ================

/// Update interval of interactive progress bars, in nanoseconds (100 ms).
pub const DEFAULT_INTERVAL: u128 = 100_000_000;

/// Interval of non-interactive progress logging, in nanoseconds (10 s).
pub const DEFAULT_LOG_INTERVAL: u128 = 10_000_000_000;

/// Progress bar options.
pub struct ProgressOptions {
    /// Don't show any progress bar.
    pub no_progress: bool,
    /// Write progress as newline-delimited JSON.
    pub json_progress: bool,
    /// Interval to update progress bars, in nanoseconds.
    pub progress_interval: Option<i128>,
}

/// How progress of one operation is reported.
#[derive(Clone, Copy, Debug, PartialEq, Eq, Structural)]
pub enum ProgressChoice {
    /// Not at all.
    Hidden,
    /// As JSON lines on stdout, at most once per interval (nanoseconds).
    Json { interval: u128 },
    /// As a progress bar on the terminal, redrawn every tick (nanoseconds).
    Interactive { tick_interval: u128 },
    /// As log messages, at most once per interval (nanoseconds).
    NonInteractive { interval: u128 },
}

impl ProgressOptions {
    /// The configured interval is not negative.
    pub open spec fn interval_valid(&self) -> bool {
        self.progress_interval matches Some(i) ==> i >= 0
    }

    /// The configured interval, or `default` when none is configured.
    pub open spec fn interval_or(&self, default: u128) -> u128 {
        match self.progress_interval {
            Some(i) => i as u128,
            None => default,
        }
    }

    /// Interval of interactive progress bars, in nanoseconds.
    pub fn interactive_interval(&self) -> (r: u128)
        requires
            self.interval_valid(),
        ensures
            r == self.interval_or(DEFAULT_INTERVAL),
    {
        match self.progress_interval {
            Some(i) => i as u128,
            None => DEFAULT_INTERVAL,
        }
    }

    /// Interval of non-interactive progress logging, in nanoseconds.
    pub fn log_interval(&self) -> (r: u128)
        requires
            self.interval_valid(),
        ensures
            r == self.interval_or(DEFAULT_LOG_INTERVAL),
    {
        match self.progress_interval {
            Some(i) => i as u128,
            None => DEFAULT_LOG_INTERVAL,
        }
    }

    /// How progress of `kind` is reported.
    pub open spec fn choice(&self, kind: ProgressKind, is_terminal: bool) -> ProgressChoice {
        let interval = self.interval_or(DEFAULT_LOG_INTERVAL);
        if self.no_progress {
            ProgressChoice::Hidden
        } else if self.json_progress {
            if interval > 0 && (kind == ProgressKind::Bytes || kind == ProgressKind::Status) {
                ProgressChoice::Json { interval }
            } else {
                ProgressChoice::Hidden
            }
        } else if is_terminal {
            ProgressChoice::Interactive { tick_interval: self.interval_or(DEFAULT_INTERVAL) }
        } else if interval > 0 {
            ProgressChoice::NonInteractive { interval }
        } else {
            ProgressChoice::Hidden
        }
    }

    /// Chooses the progress indicator: hidden with `no_progress`; JSON lines
    /// (bytes and status only) with `json_progress`; a bar on a terminal;
    /// log messages otherwise. A zero interval hides the logged kinds.
    pub fn create_progress(&self, kind: ProgressKind, is_terminal: bool) -> (c: ProgressChoice)
        requires
            !self.no_progress ==> self.interval_valid(),
        ensures
            c == self.choice(kind, is_terminal),
    {
        if self.no_progress {
            return ProgressChoice::Hidden;
        }
        let interval = self.log_interval();
        if self.json_progress {
            return if interval > 0 && (matches!(kind, ProgressKind::Bytes) || matches!(kind, ProgressKind::Status)) {
                ProgressChoice::Json { interval }
            } else {
                ProgressChoice::Hidden
            };
        }
        if is_terminal {
            ProgressChoice::Interactive { tick_interval: self.interactive_interval() }
        } else if interval > 0 {
            ProgressChoice::NonInteractive { interval }
        } else {
            ProgressChoice::Hidden
        }
    }
}

/// Law: how progress is reported, by the options. `--no-progress` hides
/// everything. With `--json-progress`, bytes and status progress become JSON
/// lines at the configured interval (10 s by default) and every other kind is
/// hidden, as is everything when that interval is zero. Otherwise a terminal
/// gets a bar ticking at the configured interval (100 ms by default), and
/// anything else gets log lines at the configured interval (10 s by default),
/// unless that is zero.
pub proof fn lemma_progress_choice(o: ProgressOptions, kind: ProgressKind, is_terminal: bool)
    requires
        o.interval_valid(),
    ensures
        ({
            let log_iv: u128 = match o.progress_interval {
                Some(i) => i as u128,
                None => 10_000_000_000u128,
            };
            let tick_iv: u128 = match o.progress_interval {
                Some(i) => i as u128,
                None => 100_000_000u128,
            };
            &&& o.no_progress ==> o.choice(kind, is_terminal) == ProgressChoice::Hidden
            &&& !o.no_progress && o.json_progress && log_iv > 0 && (kind == ProgressKind::Bytes
                || kind == ProgressKind::Status) ==> o.choice(kind, is_terminal)
                == ProgressChoice::Json { interval: log_iv }
            &&& !o.no_progress && o.json_progress && (log_iv == 0 || kind == ProgressKind::Spinner
                || kind == ProgressKind::Counter) ==> o.choice(kind, is_terminal)
                == ProgressChoice::Hidden
            &&& !o.no_progress && !o.json_progress && is_terminal ==> o.choice(kind, is_terminal)
                == ProgressChoice::Interactive { tick_interval: tick_iv }
            &&& !o.no_progress && !o.json_progress && !is_terminal && log_iv > 0 ==> o.choice(
                kind,
                is_terminal,
            ) == ProgressChoice::NonInteractive { interval: log_iv }
            &&& !o.no_progress && !o.json_progress && !is_terminal && log_iv == 0 ==> o.choice(
                kind,
                is_terminal,
            ) == ProgressChoice::Hidden
        }),
{
}

/// Splits a duration in nanoseconds into whole seconds and the nanoseconds left.
pub fn interval_parts(nanos: u128) -> (r: (u64, u32))
    requires
        nanos / 1_000_000_000 <= u64::MAX,
    ensures
        r.0 == nanos / 1_000_000_000,
        r.1 == nanos % 1_000_000_000,
{
    ((nanos / 1_000_000_000) as u64, (nanos % 1_000_000_000) as u32)
}

// ================ Interactive ================

/// The number of interactive progress bars on screen, and whether the
/// terminal needs a line break once the last of them went away.
#[derive(Clone, Copy, Debug, PartialEq, Eq, Structural)]
pub struct LiveBars {
    /// Number of live bars.
    pub live: usize,
    /// The last live bar went away and its cells were not yet cleared.
    pub need_break: bool,
}

/// `n + 1`, wrapping around as an atomic counter does.
pub open spec fn wrapping_inc(n: usize) -> usize {
    if n < usize::MAX {
        (n + 1) as usize
    } else {
        0
    }
}

/// `n - 1`, wrapping around as an atomic counter does.
pub open spec fn wrapping_dec(n: usize) -> usize {
    if n > 0 {
        (n - 1) as usize
    } else {
        usize::MAX
    }
}

/// The counters after a bar becomes live.
pub open spec fn bars_registered(b: LiveBars) -> LiveBars {
    LiveBars { live: wrapping_inc(b.live), need_break: false }
}

/// The counters after a live bar goes away.
pub open spec fn bars_unregistered(b: LiveBars) -> LiveBars {
    LiveBars { live: wrapping_dec(b.live), need_break: b.need_break || b.live == 1 }
}

impl LiveBars {
    /// No bar is live.
    pub fn new() -> (b: Self)
        ensures
            b == (LiveBars { live: 0, need_break: false }),
    {
        LiveBars { live: 0, need_break: false }
    }

    /// True while at least one interactive progress bar is on screen.
    pub fn has_live_progress_bars(&self) -> (r: bool)
        ensures
            r == (self.live > 0),
    {
        self.live > 0
    }

    /// Console logs go above the progress bars only while a bar is on a
    /// visible screen.
    pub fn log_above_progress_bars(&self, hidden: bool) -> (r: bool)
        ensures
            r == (!hidden && self.live > 0),
    {
        !hidden && self.has_live_progress_bars()
    }

    /// Takes the pending line break: returns whether leftover bar cells must
    /// be cleared before the next console log.
    pub fn take_progress_break(&mut self) -> (r: bool)
        ensures
            r == old(self).need_break,
            *final(self) == (LiveBars { live: old(self).live, need_break: false }),
    {
        let r = self.need_break;
        self.need_break = false;
        r
    }
}

/// Whether an interactive progress bar is on screen and counted as live.
#[derive(Clone, Copy, Debug, PartialEq, Eq, Structural)]
pub struct InteractiveBarState {
    /// The kind of the bar.
    pub kind: ProgressKind,
    /// The bar was added to the screen.
    pub shown: bool,
    /// The bar is counted in [`LiveBars`].
    pub live: bool,
}

/// A bar and the counters after the bar is counted as live, if it was not.
pub open spec fn after_register(s: InteractiveBarState, b: LiveBars) -> (InteractiveBarState, LiveBars) {
    if !s.live {
        (InteractiveBarState { live: true, ..s }, bars_registered(b))
    } else {
        (s, b)
    }
}

/// A bar and the counters after the bar is no longer counted, if it was.
pub open spec fn after_unregister(s: InteractiveBarState, b: LiveBars) -> (InteractiveBarState, LiveBars) {
    if s.live {
        (InteractiveBarState { live: false, ..s }, bars_unregistered(b))
    } else {
        (s, b)
    }
}

/// A bar and the counters after the bar is shown, if it was not.
pub open spec fn after_show(s: InteractiveBarState, b: LiveBars) -> (InteractiveBarState, LiveBars) {
    if !s.shown {
        after_register(InteractiveBarState { shown: true, ..s }, b)
    } else {
        (s, b)
    }
}

/// A bar and the counters after the bar finishes: a status line that was
/// never shown stays as it is; any other bar is cleared and no longer counted.
pub open spec fn after_finish(s: InteractiveBarState, b: LiveBars) -> (InteractiveBarState, LiveBars) {
    if s.kind == ProgressKind::Status && !s.shown {
        (s, b)
    } else {
        after_unregister(s, b)
    }
}

/// A new bar is shown at once unless it is a status line or has no prefix.
pub open spec fn shown_at_start(prefix: Seq<char>, kind: ProgressKind) -> bool {
    kind != ProgressKind::Status && prefix.len() > 0
}

/// A new bar titled `prefix` and the counters after it is created.
pub open spec fn new_bar(prefix: Seq<char>, kind: ProgressKind, b: LiveBars) -> (InteractiveBarState, LiveBars) {
    if shown_at_start(prefix, kind) {
        after_register(InteractiveBarState { kind, shown: true, live: false }, b)
    } else {
        (InteractiveBarState { kind, shown: false, live: false }, b)
    }
}

/// Law: a new bar with a title is drawn and counted at once, whatever its
/// kind, except a status line; a status line or a bar without a title is
/// neither shown nor counted, and leaves the counters alone.
pub proof fn lemma_new_bar_shown(prefix: Seq<char>, kind: ProgressKind, b: LiveBars)
    requires
        b.live < usize::MAX,
    ensures
        prefix.len() > 0 && kind != ProgressKind::Status ==> new_bar(prefix, kind, b) == (
        InteractiveBarState { kind, shown: true, live: true }, LiveBars {
            live: (b.live + 1) as usize,
            need_break: false,
        }),
        kind == ProgressKind::Status || prefix.len() == 0 ==> new_bar(prefix, kind, b) == (
        InteractiveBarState { kind, shown: false, live: false }, b),
{
}

impl InteractiveBarState {
    /// A new bar; it is shown and counted as live at once unless it is a
    /// status line or has an empty prefix.
    pub fn new(prefix: &str, kind: ProgressKind, bars: &mut LiveBars) -> (s: Self)
        ensures
            (s, *final(bars)) == new_bar(prefix@, kind, *old(bars)),
    {
        let shown = !matches!(kind, ProgressKind::Status) && !prefix.is_empty();
        let mut s = InteractiveBarState { kind, shown, live: false };
        if shown {
            s.register_live(bars);
        }
        s
    }

    /// Counts the bar as live, if it was not.
    pub fn register_live(&mut self, bars: &mut LiveBars)
        ensures
            (*final(self), *final(bars)) == after_register(*old(self), *old(bars)),
    {
        if !self.live {
            self.live = true;
            bars.live = if bars.live < usize::MAX {
                bars.live + 1
            } else {
                0
            };
            bars.need_break = false;
        }
    }

    /// Stops counting the bar as live, if it was; when it was the last live
    /// bar, a line break becomes pending.
    pub fn unregister_live(&mut self, bars: &mut LiveBars)
        ensures
            (*final(self), *final(bars)) == after_unregister(*old(self), *old(bars)),
    {
        if self.live {
            self.live = false;
            let prev = bars.live;
            bars.live = if prev > 0 {
                prev - 1
            } else {
                usize::MAX
            };
            if prev == 1 {
                bars.need_break = true;
            }
        }
    }

    /// Shows the bar, if it was not; returns whether it was just shown, in
    /// which case it must be added to the screen.
    pub fn ensure_shown(&mut self, bars: &mut LiveBars) -> (newly: bool)
        ensures
            newly == !old(self).shown,
            (*final(self), *final(bars)) == after_show(*old(self), *old(bars)),
    {
        if !self.shown {
            self.shown = true;
            self.register_live(bars);
            true
        } else {
            false
        }
    }

    /// A length was set: bytes and counter bars change to a style with the length.
    pub fn restyles_with_length(&self) -> (r: bool)
        ensures
            r == (self.kind == ProgressKind::Bytes || self.kind == ProgressKind::Counter),
    {
        matches!(self.kind, ProgressKind::Bytes) || matches!(self.kind, ProgressKind::Counter)
    }

    /// A title was set: a bar with a non-empty title is shown. Returns whether
    /// the bar was just shown.
    pub fn set_title(&mut self, title: &str, bars: &mut LiveBars) -> (newly: bool)
        ensures
            (*final(self), *final(bars)) == (if title@.len() > 0 {
                after_show(*old(self), *old(bars))
            } else {
                (*old(self), *old(bars))
            }),
            newly == (title@.len() > 0 && !old(self).shown),
    {
        if !title.is_empty() {
            self.ensure_shown(bars)
        } else {
            false
        }
    }

    /// A message was set: a status line is shown. Returns whether the bar was
    /// just shown.
    pub fn set_message(&mut self, bars: &mut LiveBars) -> (newly: bool)
        ensures
            (*final(self), *final(bars)) == (if old(self).kind == ProgressKind::Status {
                after_show(*old(self), *old(bars))
            } else {
                (*old(self), *old(bars))
            }),
            newly == (old(self).kind == ProgressKind::Status && !old(self).shown),
    {
        if matches!(self.kind, ProgressKind::Status) {
            self.ensure_shown(bars)
        } else {
            false
        }
    }

    /// The bar finished. Returns whether it must be cleared from the screen;
    /// a status line that was never shown is left alone.
    pub fn finish(&mut self, bars: &mut LiveBars) -> (clear: bool)
        ensures
            clear == !(old(self).kind == ProgressKind::Status && !old(self).shown),
            (*final(self), *final(bars)) == after_finish(*old(self), *old(bars)),
    {
        if matches!(self.kind, ProgressKind::Status) && !self.shown {
            return false;
        }
        self.unregister_live(bars);
        true
    }
}

/// The number of bars in `others` that are live, plus one if `s` is live.
pub open spec fn counted(s: InteractiveBarState, others: nat) -> nat {
    if s.live {
        others + 1
    } else {
        others
    }
}

/// Law: the live counter counts the live bars. If it counts `others` bars
/// besides `s` (and has not reached its limit), it still counts them and
/// `s` after `s` is shown, finished, registered or unregistered.
pub proof fn lemma_live_count_tracks_bars(s: InteractiveBarState, b: LiveBars, others: nat)
    requires
        b.live == counted(s, others),
        b.live < usize::MAX,
    ensures
        after_register(s, b).1.live == counted(after_register(s, b).0, others),
        after_unregister(s, b).1.live == counted(after_unregister(s, b).0, others),
        after_show(s, b).1.live == counted(after_show(s, b).0, others),
        after_finish(s, b).1.live == counted(after_finish(s, b).0, others),
{
}

/// Law: showing a bar shows and counts it at most once; showing it again
/// changes nothing.
pub proof fn lemma_show_is_idempotent(s: InteractiveBarState, b: LiveBars)
    requires
        !s.shown ==> !s.live,
    ensures
        after_show(after_show(s, b).0, after_show(s, b).1) == after_show(s, b),
        after_show(s, b).0.shown && after_show(s, b).0.live == (s.live || !s.shown),
        !s.shown ==> after_show(s, b).1 == bars_registered(b),
        s.shown ==> after_show(s, b) == (s, b),
{
}

/// Law: finishing a bar a second time changes nothing.
pub proof fn lemma_finish_is_idempotent(s: InteractiveBarState, b: LiveBars)
    ensures
        after_finish(after_finish(s, b).0, after_finish(s, b).1) == after_finish(s, b),
{
}

/// Law: a line break becomes pending exactly when the last live bar goes
/// away, and showing another bar cancels it.
pub proof fn lemma_break_after_last_bar(s: InteractiveBarState, b: LiveBars)
    requires
        s.live,
        b.live == 1,
    ensures
        after_unregister(s, b).1 == (LiveBars { live: 0, need_break: true }),
        after_register(after_unregister(s, b).0, after_unregister(s, b).1).1 == (LiveBars {
            live: 1,
            need_break: false,
        }),
{
}

/// Law: a status line is not live until a message shows it.
pub proof fn lemma_status_live_after_message(b: LiveBars)
    requires
        b.live < usize::MAX,
    ensures
        ({
            let s = InteractiveBarState { kind: ProgressKind::Status, shown: false, live: false };
            !shown_at_start(Seq::empty(), ProgressKind::Status) && after_show(s, b).0.live
                && after_show(s, b).1.live == b.live + 1
        }),
{
}

} // verus!
