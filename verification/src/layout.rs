use vstd::prelude::*;

use crate::progress::ProgressKind;
use crate::text::{decimal_text, parse_usize, parsed_usize, push_decimal};

verus! {

/// Columns taken by `[{elapsed_precise}]` and the space after it.
pub const ELAPSED_WIDTH: usize = 11;

/// The statistics printed after a bytes progress bar.
#[derive(Clone, Copy, Debug, PartialEq, Eq, Structural)]
pub enum BytesStats {
    /// Bytes done and rate.
    Bare,
    /// Bytes done, total and rate.
    WithTotal,
    /// Bytes done, total, rate and remaining time.
    WithEta,
}

impl BytesStats {
    /// Columns that the statistics take.
    pub open spec fn columns(self) -> nat {
        match self {
            BytesStats::Bare => 1 + 10 + 1 + 12,
            BytesStats::WithTotal => 1 + 10 + 1 + 10 + 1 + 12,
            BytesStats::WithEta => 1 + 10 + 1 + 10 + 1 + 12 + 13,
        }
    }

    /// The template text of the statistics.
    pub open spec fn suffix_text(self) -> Seq<char> {
        match self {
            BytesStats::Bare => " {bytes:>10} {bytes_per_sec:<12}"@,
            BytesStats::WithTotal => " {bytes:>10}/{total_bytes:<10} {bytes_per_sec:<12}"@,
            BytesStats::WithEta => " {bytes:>10}/{total_bytes:<10} {bytes_per_sec:<12} (ETA {my_eta})"@,
        }
    }

    /// Columns that the statistics take.
    pub fn width(self) -> (w: usize)
        ensures
            w == self.columns(),
    {
        match self {
            BytesStats::Bare => 1 + 10 + 1 + 12,
            BytesStats::WithTotal => 1 + 10 + 1 + 10 + 1 + 12,
            BytesStats::WithEta => 1 + 10 + 1 + 10 + 1 + 12 + 13,
        }
    }

    /// The template text of the statistics.
    pub fn suffix(self) -> (s: &'static str)
        ensures
            s@ == self.suffix_text(),
    {
        match self {
            BytesStats::Bare => " {bytes:>10} {bytes_per_sec:<12}",
            BytesStats::WithTotal => " {bytes:>10}/{total_bytes:<10} {bytes_per_sec:<12}",
            BytesStats::WithEta => " {bytes:>10}/{total_bytes:<10} {bytes_per_sec:<12} (ETA {my_eta})",
        }
    }
}

/// The column layout of a bytes progress bar.
#[derive(Clone, Copy, Debug, PartialEq, Eq, Structural)]
pub struct BytesLayout {
    /// Columns of the prefix.
    pub prefix: usize,
    /// Columns of the bar itself.
    pub bar: usize,
    /// Statistics after the bar.
    pub stats: BytesStats,
}

/// The columns that a layout takes in all.
pub open spec fn layout_columns(l: BytesLayout) -> nat {
    (ELAPSED_WIDTH + l.prefix + 1 + l.bar + l.stats.columns()) as nat
}

/// The indicatif template of a bytes layout.
pub open spec fn layout_template(l: BytesLayout) -> Seq<char> {
    "[{elapsed_precise}] {prefix:"@ + decimal_text(l.prefix as nat) + "} {bar:"@ + decimal_text(
        l.bar as nat,
    ) + ".cyan/blue}"@ + l.stats.suffix_text()
}

/// `width`, but at least 40.
pub open spec fn at_least_40(width: usize) -> nat {
    if width >= 40 {
        width as nat
    } else {
        40
    }
}

/// The columns a line may use: one less than the (at least 40) width, so that
/// the cursor never wraps.
pub open spec fn line_budget(width: usize) -> nat {
    (at_least_40(width) - 1) as nat
}

/// The layout with this prefix and these statistics, when the room left for
/// the bar is at least `min_bar`; the bar is capped at 40 columns.
pub open spec fn fitted(width: usize, prefix: nat, stats: BytesStats, min_bar: nat) -> Option<BytesLayout> {
    let used: int = ELAPSED_WIDTH + prefix + 1 + stats.columns();
    let room: int = line_budget(width) - used;
    let bar: int = if room > 0 {
        room
    } else {
        0
    };
    if bar >= min_bar {
        Some(BytesLayout { prefix: prefix as usize, bar: (if bar <= 40 { bar } else { 40 }) as usize, stats })
    } else {
        None
    }
}

/// The first of two choices that is present.
pub open spec fn or_else(first: Option<BytesLayout>, rest: BytesLayout) -> BytesLayout {
    match first {
        Some(l) => l,
        None => rest,
    }
}

/// The layout of last resort: a short prefix, a four-column bar, bare statistics.
pub open spec fn minimal_layout() -> BytesLayout {
    BytesLayout { prefix: 8, bar: 4, stats: BytesStats::Bare }
}

/// The chosen bytes layout: the first of the candidates, in order of
/// preference, that leaves enough room for its bar.
///
/// With a known length: 14-column prefix with ETA (bar of at least 10), then
/// with total (8), then a 10-column prefix with total (6), then bare (4).
/// Without a length: 14-column prefix bare (8), then 10-column prefix bare (4).
pub open spec fn layout_for(width: usize, with_length: bool) -> BytesLayout {
    if with_length {
        or_else(
            fitted(width, 14, BytesStats::WithEta, 10),
            or_else(
                fitted(width, 14, BytesStats::WithTotal, 8),
                or_else(
                    fitted(width, 10, BytesStats::WithTotal, 6),
                    or_else(fitted(width, 10, BytesStats::Bare, 4), minimal_layout()),
                ),
            ),
        )
    } else {
        or_else(
            fitted(width, 14, BytesStats::Bare, 8),
            or_else(fitted(width, 10, BytesStats::Bare, 4), minimal_layout()),
        )
    }
}

impl BytesLayout {
    /// The columns that the layout takes in all.
    pub fn total_width(self) -> (w: usize)
        requires
            layout_columns(self) <= usize::MAX,
        ensures
            w == layout_columns(self),
    {
        ELAPSED_WIDTH + self.prefix + 1 + self.bar + self.stats.width()
    }

    /// The indicatif template of the layout.
    pub fn template(self) -> (s: String)
        ensures
            s@ == layout_template(self),
    {
        let mut s = String::new();
        s.append("[{elapsed_precise}] {prefix:");
        push_decimal(&mut s, self.prefix as u64);
        s.append("} {bar:");
        push_decimal(&mut s, self.bar as u64);
        s.append(".cyan/blue}");
        s.append(self.stats.suffix());
        assert(s@ =~= layout_template(self));
        s
    }
}

fn try_fit(width: usize, prefix: usize, stats: BytesStats, min_bar: usize) -> (r: Option<BytesLayout>)
    requires
        prefix <= 14,
    ensures
        r == fitted(width, prefix as nat, stats, min_bar as nat),
{
    let budget = (if width >= 40 { width } else { 40 }) - 1;
    let used = ELAPSED_WIDTH + prefix + 1 + stats.width();
    let bar = budget.saturating_sub(used);
    if bar >= min_bar {
        Some(BytesLayout { prefix, bar: if bar <= 40 { bar } else { 40 }, stats })
    } else {
        None
    }
}

/// Chooses the layout of a bytes progress bar for a terminal `width` columns wide.
pub fn bytes_layout(width: usize, with_length: bool) -> (l: BytesLayout)
    ensures
        l == layout_for(width, with_length),
{
    let fallback = BytesLayout { prefix: 8, bar: 4, stats: BytesStats::Bare };
    if with_length {
        if let Some(l) = try_fit(width, 14, BytesStats::WithEta, 10) {
            l
        } else if let Some(l) = try_fit(width, 14, BytesStats::WithTotal, 8) {
            l
        } else if let Some(l) = try_fit(width, 10, BytesStats::WithTotal, 6) {
            l
        } else if let Some(l) = try_fit(width, 10, BytesStats::Bare, 4) {
            l
        } else {
            fallback
        }
    } else {
        if let Some(l) = try_fit(width, 14, BytesStats::Bare, 8) {
            l
        } else if let Some(l) = try_fit(width, 10, BytesStats::Bare, 4) {
            l
        } else {
            fallback
        }
    }
}

/// Law: on a terminal at least 48 columns wide the chosen bytes layout fits
/// within the width, and its bar is at least 4 columns wide.
pub proof fn lemma_bytes_layout_fits(width: usize, with_length: bool)
    requires
        width >= 48,
    ensures
        layout_columns(layout_for(width, with_length)) <= width,
        layout_for(width, with_length).bar >= 4,
{
}

/// Law: on any terminal the chosen layout fits within 48 columns or within
/// the width (of at least 40), whichever is larger.
pub proof fn lemma_bytes_layout_bounded(width: usize, with_length: bool)
    ensures
        layout_columns(layout_for(width, with_length)) <= if at_least_40(width) >= 48 {
            at_least_40(width)
        } else {
            48
        },
        layout_for(width, with_length).bar >= 4,
{
}

/// The prefix columns left for a line with `extra` other columns, between 8 and 14.
pub open spec fn prefix_columns(width: usize, extra: usize) -> nat {
    let room: int = line_budget(width) - (ELAPSED_WIDTH + extra);
    if room < 8 {
        8
    } else if room > 14 {
        14
    } else {
        room as nat
    }
}

/// The prefix columns left for a line with `extra` other columns.
pub fn prefix_width(width: usize, extra: usize) -> (w: usize)
    requires
        extra <= usize::MAX - ELAPSED_WIDTH,
    ensures
        w == prefix_columns(width, extra),
{
    let budget = (if width >= 40 { width } else { 40 }) - 1;
    let leftover = budget.saturating_sub(ELAPSED_WIDTH + extra);
    if leftover < 8 {
        8
    } else if leftover > 14 {
        14
    } else {
        leftover
    }
}

/// The terminal width that `ioctl(TIOCGWINSZ)` reports, if it succeeded and
/// reports at least 40 columns.
pub fn ioctl_stderr_cols(ok: bool, ws_col: u16) -> (r: Option<usize>)
    ensures
        r == (if ok && ws_col >= 40 {
            Some(ws_col as usize)
        } else {
            None::<usize>
        }),
{
    if ok && ws_col >= 40 {
        Some(ws_col as usize)
    } else {
        None
    }
}

/// The width of the terminal: what `ioctl` reports, else the `COLUMNS`
/// variable, as long as it is at least 40; else 80.
pub open spec fn terminal_width(ioctl_cols: Option<usize>, columns: Option<Seq<char>>) -> usize {
    let candidate = match ioctl_cols {
        Some(c) => Some(c),
        None => match columns {
            Some(t) => parsed_usize(t),
            None => None,
        },
    };
    match candidate {
        Some(c) => if c >= 40 {
            c
        } else {
            80
        },
        None => 80,
    }
}

/// The visible width of stderr, for sizing progress templates so they do not wrap.
pub fn stderr_width(ioctl_cols: Option<usize>, columns_env: Option<&str>) -> (w: usize)
    ensures
        w == terminal_width(
            ioctl_cols,
            match columns_env {
                Some(t) => Some(t@),
                None => None,
            },
        ),
{
    let candidate = match ioctl_cols {
        Some(c) => Some(c),
        None => match columns_env {
            Some(t) => parse_usize(t),
            None => None,
        },
    };
    match candidate {
        Some(c) => if c >= 40 {
            c
        } else {
            80
        },
        None => 80,
    }
}

/// The indicatif template of a progress bar of `kind` on a terminal `width`
/// columns wide, with or without a known length.
pub open spec fn style_template_text(kind: ProgressKind, width: usize, with_length: bool) -> Seq<char> {
    match kind {
        ProgressKind::Spinner => "[{elapsed_precise}] {prefix:"@ + decimal_text(
            prefix_columns(width, 2),
        ) + "} {spinner}"@,
        ProgressKind::Counter => {
            let l = layout_for(width, with_length);
            "[{elapsed_precise}] {prefix:"@ + decimal_text(l.prefix as nat) + "} {bar:"@
                + decimal_text(l.bar as nat) + (if with_length {
                ".cyan/blue} {pos:>10}/{len:10}"@
            } else {
                ".cyan/blue} {pos:>10}"@
            })
        },
        ProgressKind::Bytes => layout_template(layout_for(width, with_length)),
        ProgressKind::Status => "[{elapsed_precise}] {prefix:"@ + decimal_text(
            prefix_columns(width, 24),
        ) + "} {msg}"@,
    }
}

/// The indicatif template of a progress bar of `kind`.
pub fn style_template(kind: ProgressKind, width: usize, with_length: bool) -> (s: String)
    ensures
        s@ == style_template_text(kind, width, with_length),
{
    match kind {
        ProgressKind::Spinner => {
            let prefix = prefix_width(width, 2);
            let mut s = String::new();
            s.append("[{elapsed_precise}] {prefix:");
            push_decimal(&mut s, prefix as u64);
            s.append("} {spinner}");
            assert(s@ =~= style_template_text(kind, width, with_length));
            s
        },
        ProgressKind::Counter => {
            let layout = bytes_layout(width, with_length);
            let mut s = String::new();
            s.append("[{elapsed_precise}] {prefix:");
            push_decimal(&mut s, layout.prefix as u64);
            s.append("} {bar:");
            push_decimal(&mut s, layout.bar as u64);
            if with_length {
                s.append(".cyan/blue} {pos:>10}/{len:10}");
            } else {
                s.append(".cyan/blue} {pos:>10}");
            }
            assert(s@ =~= style_template_text(kind, width, with_length));
            s
        },
        ProgressKind::Bytes => bytes_layout(width, with_length).template(),
        ProgressKind::Status => {
            let prefix = prefix_width(width, 24);
            let mut s = String::new();
            s.append("[{elapsed_precise}] {prefix:");
            push_decimal(&mut s, prefix as u64);
            s.append("} {msg}");
            assert(s@ =~= style_template_text(kind, width, with_length));
            s
        },
    }
}

/// Whether the style of `kind` shows the remaining time, through the key `my_eta`.
pub fn uses_eta_key(kind: ProgressKind, with_length: bool) -> (r: bool)
    ensures
        r == (kind == ProgressKind::Bytes && with_length),
{
    match kind {
        ProgressKind::Bytes => with_length,
        _ => false,
    }
}

/// The remaining seconds that the `my_eta` key shows: the elapsed time scaled
/// by the part not yet done, once something is done and something remains.
pub open spec fn eta_secs(elapsed: u64, pos: u64, len: Option<u64>) -> Option<u64> {
    match len {
        Some(l) => if pos != 0 && l > pos {
            Some((elapsed * (l - pos) / (pos as int)) as u64)
        } else {
            None
        },
        None => None,
    }
}

/// The remaining seconds of a bar at `pos` of `len` after `elapsed` seconds.
pub fn eta_seconds(elapsed: u64, pos: u64, len: Option<u64>) -> (r: Option<u64>)
    requires
        len matches Some(l) ==> (pos != 0 && l > pos ==> elapsed * (l - pos) <= u64::MAX),
    ensures
        r == eta_secs(elapsed, pos, len),
{
    match len {
        Some(l) => if pos != 0 && l > pos {
            let rest = l - pos;
            let product = elapsed * rest;
            assert(product / pos <= product) by (nonlinear_arith)
                requires
                    pos > 0,
            ;
            Some(product / pos)
        } else {
            None
        },
        None => None,
    }
}

/// The text that `indicatif::HumanDuration` shows, in its alternate form, for
/// a duration of whole seconds (such as `30s` or `5m`).
pub uninterp spec fn human_duration_text(secs: u64) -> Seq<char>;

/// Formats whole seconds with `indicatif::HumanDuration` (`{:#}`).
///
/// Trusted: the text is what indicatif's `Display` writes for
/// `Duration::from_secs(secs)` with the alternate flag; it depends on `secs` alone.
#[verifier::external_body]
fn human_duration(secs: u64) -> (s: String)
    ensures
        s@ == human_duration_text(secs),
{
    format!("{:#}", indicatif::HumanDuration(std::time::Duration::from_secs(secs)))
}

/// What the `my_eta` key shows: the remaining time, or `-` when none is known.
pub open spec fn eta_text_of(elapsed: u64, pos: u64, len: Option<u64>) -> Seq<char> {
    match eta_secs(elapsed, pos, len) {
        Some(secs) => human_duration_text(secs),
        None => "-"@,
    }
}

/// The text of the `my_eta` key of a bar at `pos` of `len` after `elapsed` seconds.
pub fn eta_text(elapsed: u64, pos: u64, len: Option<u64>) -> (s: String)
    requires
        len matches Some(l) ==> (pos != 0 && l > pos ==> elapsed * (l - pos) <= u64::MAX),
    ensures
        s@ == eta_text_of(elapsed, pos, len),
{
    match eta_seconds(elapsed, pos, len) {
        Some(secs) => human_duration(secs),
        None => "-".to_owned(),
    }
}

/// Law: once something is done and something remains, the ETA is the elapsed
/// seconds times the part left, divided by the part done, rounded down; so it
/// is positive whenever that product reaches the part done, and the key shows
/// it as a human duration.
pub proof fn lemma_eta_estimate(elapsed: u64, pos: u64, len: u64)
    requires
        0 < pos < len,
        elapsed * (len - pos) <= u64::MAX,
    ensures
        eta_secs(elapsed, pos, Some(len)) is Some,
        ({
            let eta = eta_secs(elapsed, pos, Some(len))->0;
            let n = elapsed * (len - pos);
            &&& eta * pos <= n < (eta + 1) * pos
            &&& n >= pos ==> eta > 0
            &&& eta_text_of(elapsed, pos, Some(len)) == human_duration_text(eta)
        }),
{
    let n = elapsed * (len - pos);
    assert(n >= 0) by (nonlinear_arith)
        requires
            n == elapsed * (len - pos),
            elapsed >= 0,
            len > pos,
    ;
    crate::text::lemma_floor_division(n, pos as int);
}

/// Law: with nothing done, nothing left, or no total known, there is no ETA
/// and the key shows `-`.
pub proof fn lemma_eta_absent(elapsed: u64, pos: u64, len: Option<u64>)
    requires
        len is None || pos == 0 || len->0 <= pos,
    ensures
        eta_secs(elapsed, pos, len) is None,
        eta_text_of(elapsed, pos, len) == "-"@,
{
}

} // verus!
