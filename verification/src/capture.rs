use std::collections::VecDeque;

use vstd::prelude::*;

use crate::logging::LogLevel;
use crate::text::{decimal_text, push_decimal};

verus! {

/// Maximum console log records held while the TUI owns the terminal.
pub const MAX_CAPTURED_CONSOLE_LOGS: usize = 256;

/// Console log records held back while a TUI owns the terminal.
pub struct ConsoleCaptureState {
    /// Number of live [`TuiLogCapture`] guards.
    depth: usize,
    records: VecDeque<String>,
    dropped: usize,
}

/// The abstract content of a [`ConsoleCaptureState`].
pub struct CaptureView {
    /// Number of live guards.
    pub depth: nat,
    /// Held records, oldest first.
    pub records: Seq<Seq<char>>,
    /// Number of records that were dropped to make room for newer ones.
    pub dropped: nat,
}

/// The texts of a sequence of strings.
pub open spec fn strings_view(v: Seq<String>) -> Seq<Seq<char>> {
    v.map_values(|s: String| s@)
}

/// `n + 1`, saturating at `usize::MAX`.
pub open spec fn saturating_inc(n: nat) -> nat {
    if n < usize::MAX {
        n + 1
    } else {
        usize::MAX as nat
    }
}

/// `n - 1`, saturating at zero.
pub open spec fn saturating_dec(n: nat) -> nat {
    if n > 0 {
        (n - 1) as nat
    } else {
        0
    }
}

/// The line that a captured record is held as: `[LEVEL] message`.
pub open spec fn capture_line(level: LogLevel, message: Seq<char>) -> Seq<char> {
    "["@ + level.name() + "] "@ + message
}

/// The state after one more record is held: when full, the oldest record
/// makes room and is counted as dropped.
pub open spec fn captured_after(v: CaptureView, line: Seq<char>) -> CaptureView {
    if v.records.len() >= MAX_CAPTURED_CONSOLE_LOGS {
        CaptureView {
            depth: v.depth,
            records: v.records.drop_first().push(line),
            dropped: saturating_inc(v.dropped),
        }
    } else {
        CaptureView { depth: v.depth, records: v.records.push(line), dropped: v.dropped }
    }
}

/// The state after a guard starts: the outermost guard begins with nothing held.
pub open spec fn started(v: CaptureView) -> CaptureView {
    if v.depth == 0 {
        CaptureView { depth: 1, records: Seq::empty(), dropped: 0 }
    } else {
        CaptureView { depth: saturating_inc(v.depth), records: v.records, dropped: v.dropped }
    }
}

/// The state after a guard ends: the outermost guard hands out what was held.
pub open spec fn finished(v: CaptureView) -> CaptureView {
    if saturating_dec(v.depth) == 0 {
        CaptureView { depth: 0, records: Seq::empty(), dropped: 0 }
    } else {
        CaptureView { depth: saturating_dec(v.depth), records: v.records, dropped: v.dropped }
    }
}

impl View for ConsoleCaptureState {
    type V = CaptureView;

    closed spec fn view(&self) -> CaptureView {
        CaptureView {
            depth: self.depth as nat,
            records: strings_view(self.records@),
            dropped: self.dropped as nat,
        }
    }
}

/// Records handed out when the outermost guard ends.
pub struct CapturedLogs {
    /// The held records, oldest first.
    pub records: VecDeque<String>,
    /// How many older records were dropped.
    pub dropped: usize,
}

impl ConsoleCaptureState {
    /// No more records are held than the limit allows.
    pub open spec fn wf(&self) -> bool {
        self@.records.len() <= MAX_CAPTURED_CONSOLE_LOGS
    }

    /// A state with no guard and nothing held.
    pub fn new() -> (s: Self)
        ensures
            s@ == (CaptureView { depth: 0, records: Seq::empty(), dropped: 0 }),
            s.wf(),
    {
        let s = ConsoleCaptureState { depth: 0, records: VecDeque::new(), dropped: 0 };
        assert(strings_view(s.records@) =~= Seq::empty());
        s
    }

    /// Number of live guards.
    pub fn depth(&self) -> (d: usize)
        ensures
            d == self@.depth,
    {
        self.depth
    }

    /// Number of records dropped since the outermost guard started.
    pub fn dropped(&self) -> (d: usize)
        ensures
            d == self@.dropped,
    {
        self.dropped
    }

    /// The held records, oldest first.
    pub fn records(&self) -> (r: Vec<String>)
        ensures
            strings_view(r@) == self@.records,
    {
        let mut r: Vec<String> = Vec::new();
        let n = self.records.len();
        for i in 0..n
            invariant
                n == self.records@.len(),
                r@.len() == i,
                forall|j: int| 0 <= j < i ==> #[trigger] r@[j] == self.records@[j],
        {
            r.push(self.records[i].clone());
        }
        assert(r@ =~= self.records@);
        r
    }
}

/// Diverts console log output away from the terminal while the TUI is active.
///
/// While at least one guard is live, console records are held in a
/// [`ConsoleCaptureState`]; when the last guard ends they are handed out.
#[derive(Debug)]
pub struct TuiLogCapture {
    _private: (),
}

impl TuiLogCapture {
    /// Starts capturing console logs until this guard is finished.
    pub fn start(state: &mut ConsoleCaptureState) -> (guard: TuiLogCapture)
        requires
            old(state).wf(),
        ensures
            final(state).wf(),
            final(state)@ == started(old(state)@),
    {
        if state.depth == 0 {
            state.records.clear();
            state.dropped = 0;
        }
        state.depth = state.depth.saturating_add(1);
        assert(state@.records =~= started(old(state)@).records);
        TuiLogCapture { _private: () }
    }

    /// Ends this guard; the last guard to end takes the held records out of
    /// the state, so that they can be written to the terminal.
    pub fn finish(self, state: &mut ConsoleCaptureState) -> (r: Option<CapturedLogs>)
        requires
            old(state).wf(),
        ensures
            final(state).wf(),
            final(state)@ == finished(old(state)@),
            saturating_dec(old(state)@.depth) == 0 <==> r is Some,
            r matches Some(logs) ==> strings_view(logs.records@) == old(state)@.records
                && logs.dropped == old(state)@.dropped,
    {
        state.depth = state.depth.saturating_sub(1);
        if state.depth == 0 {
            let mut records: VecDeque<String> = VecDeque::new();
            std::mem::swap(&mut records, &mut state.records);
            let dropped = state.dropped;
            state.dropped = 0;
            assert(state@.records =~= Seq::<Seq<char>>::empty());
            Some(CapturedLogs { records, dropped })
        } else {
            None
        }
    }
}

/// Holds `message` at `level` when a TUI session owns the terminal.
///
/// Returns `true` if the record was held and must not be written to the
/// console (which would overwrite the TUI).
pub fn capture_console_log(state: &mut ConsoleCaptureState, level: LogLevel, message: &str) -> (captured: bool)
    requires
        old(state).wf(),
    ensures
        final(state).wf(),
        captured == (old(state)@.depth > 0),
        captured ==> final(state)@ == captured_after(old(state)@, capture_line(level, message@)),
        !captured ==> final(state)@ == old(state)@,
{
    if state.depth == 0 {
        return false;
    }
    let ghost before = state.records@;
    if state.records.len() >= MAX_CAPTURED_CONSOLE_LOGS {
        let _ = state.records.pop_front();
        state.dropped = state.dropped.saturating_add(1);
    }
    let mut line = String::new();
    line.append("[");
    line.append(level.as_str());
    line.append("] ");
    line.append(message);
    let ghost mid = state.records@;
    state.records.push_back(line);
    proof {
        let target = captured_after(old(state)@, capture_line(level, message@));
        assert(line@ =~= capture_line(level, message@));
        if before.len() >= MAX_CAPTURED_CONSOLE_LOGS {
            assert(strings_view(mid) =~= strings_view(before).drop_first());
        } else {
            assert(mid == before);
        }
        assert(state@.records =~= target.records);
    }
    true
}

/// The state after each of `lines` is held in turn.
pub open spec fn captured_all(v: CaptureView, lines: Seq<Seq<char>>) -> CaptureView
    decreases lines.len(),
{
    if lines.len() == 0 {
        v
    } else {
        captured_after(captured_all(v, lines.drop_last()), lines.last())
    }
}

/// Law: while a guard is live, the held records are always the newest
/// `MAX_CAPTURED_CONSOLE_LOGS` of everything held since the outermost guard
/// started, and every older record is counted as dropped (saturating).
pub proof fn lemma_capture_keeps_newest(v: CaptureView, lines: Seq<Seq<char>>)
    requires
        v.records.len() <= MAX_CAPTURED_CONSOLE_LOGS,
        v.dropped <= usize::MAX,
    ensures
        ({
            let all = v.records + lines;
            let kept: int = if all.len() <= MAX_CAPTURED_CONSOLE_LOGS {
                all.len() as int
            } else {
                MAX_CAPTURED_CONSOLE_LOGS as int
            };
            let total_dropped: int = v.dropped + all.len() - kept;
            &&& captured_all(v, lines).depth == v.depth
            &&& captured_all(v, lines).records == all.subrange(all.len() - kept, all.len() as int)
            &&& captured_all(v, lines).dropped == (if total_dropped <= usize::MAX {
                total_dropped
            } else {
                usize::MAX as int
            })
        }),
    decreases lines.len(),
{
    let all = v.records + lines;
    if lines.len() == 0 {
        assert(all =~= v.records);
        assert(all.subrange(0, all.len() as int) =~= all);
    } else {
        let prev_lines = lines.drop_last();
        lemma_capture_keeps_newest(v, prev_lines);
        let prev_all = v.records + prev_lines;
        assert(all =~= prev_all.push(lines.last()));
        let w = captured_all(v, prev_lines);
        if prev_all.len() >= MAX_CAPTURED_CONSOLE_LOGS {
            let m = MAX_CAPTURED_CONSOLE_LOGS as int;
            assert(w.records.drop_first().push(lines.last()) =~= all.subrange(
                all.len() - m,
                all.len() as int,
            ));
        } else {
            assert(w.records.push(lines.last()) =~= all.subrange(0, all.len() as int));
        }
    }
}

/// Law: the records held after a guard starts at depth zero are exactly the
/// newest of those captured since, so nothing from an earlier session remains.
pub proof fn lemma_session_starts_empty(v: CaptureView, lines: Seq<Seq<char>>)
    requires
        v.depth == 0,
    ensures
        captured_all(started(v), lines).records == lines.subrange(
            if lines.len() <= MAX_CAPTURED_CONSOLE_LOGS {
                0
            } else {
                lines.len() - MAX_CAPTURED_CONSOLE_LOGS
            },
            lines.len() as int,
        ),
{
    let s = started(v);
    lemma_capture_keeps_newest(s, lines);
    assert(s.records + lines =~= lines);
}

/// Law: a nested guard that starts and ends leaves the capture as it was,
/// so only the outermost guard hands out the held records.
pub proof fn lemma_nested_guard_restores(v: CaptureView)
    requires
        0 < v.depth < usize::MAX,
    ensures
        finished(started(v)) == v,
        saturating_dec(started(v).depth) > 0,
{
}

/// Law: ending the last guard hands out everything held and leaves an empty,
/// inactive capture, in which later records pass through to the console.
pub proof fn lemma_last_guard_resets(v: CaptureView)
    requires
        v.depth <= 1,
    ensures
        finished(v) == (CaptureView { depth: 0, records: Seq::empty(), dropped: 0 }),
{
}

/// The text of held records, one per line.
pub open spec fn lines_text(records: Seq<Seq<char>>) -> Seq<char>
    decreases records.len(),
{
    if records.len() == 0 {
        Seq::empty()
    } else {
        lines_text(records.drop_last()) + records.last() + "\n"@
    }
}

/// The notice that stands before replayed records when older ones were dropped.
pub open spec fn omission_notice(dropped: nat) -> Seq<char> {
    if dropped > 0 {
        "["@ + decimal_text(dropped) + " older log messages omitted]\n"@
    } else {
        Seq::empty()
    }
}

/// Writes held records to `out`, after a notice of how many were dropped.
pub fn write_captured_console_logs(out: &mut String, records: VecDeque<String>, dropped: usize)
    ensures
        final(out)@ == old(out)@ + omission_notice(dropped as nat) + lines_text(
            strings_view(records@),
        ),
{
    if dropped > 0 {
        out.append("[");
        push_decimal(out, dropped as u64);
        out.append(" older log messages omitted]\n");
    }
    let ghost start = out@;
    assert(start =~= old(out)@ + omission_notice(dropped as nat));
    let n = records.len();
    for i in 0..n
        invariant
            n == records@.len(),
            out@ == start + lines_text(strings_view(records@).take(i as int)),
    {
        out.append(records[i].as_str());
        out.append("\n");
        proof {
            let s = strings_view(records@);
            assert(s.take(i + 1).drop_last() =~= s.take(i as int));
            assert(out@ =~= start + lines_text(s.take(i + 1)));
        }
    }
    assert(strings_view(records@).take(n as int) =~= strings_view(records@));
}

} // verus!
