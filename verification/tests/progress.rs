use rustic_rs::{
    decimal_string, format_upload_stats, format_value, parse_usize, InteractiveBarState,
    JsonProgress, LiveBars, NonInteractiveProgress, PercentDone, ProgressChoice, ProgressKind,
    ProgressOptions, DEFAULT_INTERVAL, DEFAULT_LOG_INTERVAL,
};

#[test]
fn live_bar_count_tracks_show_and_finish() {
    let mut bars = LiveBars::new();
    let before = bars.live;
    let mut p = InteractiveBarState::new("backing up...", ProgressKind::Bytes, &mut bars);
    assert!(bars.has_live_progress_bars());
    assert_eq!(bars.live, before + 1);
    assert!(p.finish(&mut bars));
    assert_eq!(bars.live, before);
    p.finish(&mut bars);
    assert_eq!(bars.live, before);
}

#[test]
fn live_bar_count_drops_without_finish() {
    let mut bars = LiveBars::new();
    let before = bars.live;
    {
        let mut p = InteractiveBarState::new("backing up...", ProgressKind::Bytes, &mut bars);
        assert_eq!(bars.live, before + 1);
        p.unregister_live(&mut bars);
    }
    assert_eq!(bars.live, before);
}

#[test]
fn empty_prefix_counter_is_not_shown() {
    let mut bars = LiveBars::new();
    let before = bars.live;
    let mut p = InteractiveBarState::new("", ProgressKind::Counter, &mut bars);
    assert_eq!(bars.live, before);
    p.finish(&mut bars);
    assert_eq!(bars.live, before);
}

#[test]
fn last_bar_defers_line_break_until_taken() {
    let mut bars = LiveBars::new();
    let mut p = InteractiveBarState::new("backing up...", ProgressKind::Bytes, &mut bars);
    assert!(!bars.need_break);
    p.finish(&mut bars);
    assert!(bars.need_break);
    assert!(bars.take_progress_break());
    assert!(!bars.need_break);
    assert!(!bars.take_progress_break());
}

#[test]
fn hidden_status_bar_is_not_live_until_shown() {
    let mut bars = LiveBars::new();
    let before = bars.live;
    let mut p = InteractiveBarState::new("uploading", ProgressKind::Status, &mut bars);
    assert_eq!(bars.live, before);
    assert!(p.set_message(&mut bars));
    assert_eq!(bars.live, before + 1);
    assert!(p.finish(&mut bars));
    assert_eq!(bars.live, before);
}

#[test]
fn backup_summary_does_not_use_progress_println_after_finish() {
    let mut bars = LiveBars::new();
    let hidden = false;
    let mut p = InteractiveBarState::new("backing up...", ProgressKind::Bytes, &mut bars);
    assert!(
        bars.log_above_progress_bars(hidden),
        "live bars on a TTY must print above the bar"
    );
    p.finish(&mut bars);
    assert!(
        !bars.log_above_progress_bars(hidden),
        "Files/snapshot summary must not use MultiProgress::println after the bar finishes"
    );
}

#[test]
fn unshown_status_bar_finish_is_a_no_op() {
    let mut bars = LiveBars::new();
    let mut p = InteractiveBarState::new("uploading", ProgressKind::Status, &mut bars);
    assert!(!p.finish(&mut bars));
    assert_eq!(bars, LiveBars { live: 0, need_break: false });
}

#[test]
fn titles_show_bars_and_lengths_restyle() {
    let mut bars = LiveBars::new();
    let mut p = InteractiveBarState::new("", ProgressKind::Counter, &mut bars);
    assert!(!p.set_title("", &mut bars));
    assert_eq!(bars.live, 0);
    assert!(p.set_title("index", &mut bars));
    assert_eq!(bars.live, 1);
    assert!(!p.set_title("again", &mut bars));
    assert!(p.restyles_with_length());
    let q = InteractiveBarState::new("x", ProgressKind::Spinner, &mut bars);
    assert!(!q.restyles_with_length());
    assert_eq!(bars.live, 2);
}

#[test]
fn progress_choice_follows_options() {
    let mut opts = ProgressOptions { no_progress: true, json_progress: false, progress_interval: None };
    assert_eq!(opts.create_progress(ProgressKind::Bytes, true), ProgressChoice::Hidden);
    opts.no_progress = false;
    assert_eq!(
        opts.create_progress(ProgressKind::Bytes, true),
        ProgressChoice::Interactive { tick_interval: DEFAULT_INTERVAL }
    );
    assert_eq!(
        opts.create_progress(ProgressKind::Counter, false),
        ProgressChoice::NonInteractive { interval: DEFAULT_LOG_INTERVAL }
    );
    opts.json_progress = true;
    assert_eq!(
        opts.create_progress(ProgressKind::Status, true),
        ProgressChoice::Json { interval: DEFAULT_LOG_INTERVAL }
    );
    assert_eq!(opts.create_progress(ProgressKind::Spinner, false), ProgressChoice::Hidden);
    opts.json_progress = false;
    opts.progress_interval = Some(0);
    assert_eq!(opts.create_progress(ProgressKind::Bytes, false), ProgressChoice::Hidden);
    assert_eq!(
        opts.create_progress(ProgressKind::Bytes, true),
        ProgressChoice::Interactive { tick_interval: 0 }
    );
    opts.progress_interval = Some(2_500_000_000);
    assert_eq!(opts.interactive_interval(), 2_500_000_000);
    assert_eq!(opts.log_interval(), 2_500_000_000);
}

#[test]
fn numbers_and_sizes_as_text() {
    assert_eq!(decimal_string(0), "0");
    assert_eq!(decimal_string(1234567890), "1234567890");
    assert_eq!(decimal_string(u64::MAX), u64::MAX.to_string());
    assert_eq!(parse_usize("0042"), Some(42));
    assert_eq!(parse_usize("+"), None);
    assert_eq!(parse_usize(""), None);
    assert_eq!(parse_usize("-1"), None);
    assert_eq!(parse_usize("12a"), None);
    assert_eq!(format_value(ProgressKind::Counter, 1536), "1536");
    assert_eq!(format_value(ProgressKind::Bytes, 1536), "1.5 KiB");
    assert_eq!(format_value(ProgressKind::Bytes, 12), "12 B");
    assert_eq!(format_upload_stats(1, 0, 0), "1 new  0 changed  0 B added");
    assert_eq!(format_upload_stats(3, 2, 2048), "3 new  2 changed  2.0 KiB added");
}

const SEC: u64 = 1_000_000_000;

#[test]
fn non_interactive_progress_logs_once_per_interval() {
    let mut p = NonInteractiveProgress::new("reading", 10 * SEC as u128, ProgressKind::Counter, 0);
    assert_eq!(p.inc(5, SEC), None);
    p.set_length(20);
    assert_eq!(p.inc(5, 10 * SEC).as_deref(), Some("reading: 10 / 20"));
    assert_eq!(p.inc(1, 15 * SEC), None);
    p.set_title("scanning");
    assert_eq!(
        p.finish(1_500_000_000).as_deref(),
        Some("scanning: 11 done in 1.50s")
    );
}

#[test]
fn non_interactive_bytes_and_status_texts() {
    let mut b = NonInteractiveProgress::new("backing up", 0, ProgressKind::Bytes, 0);
    b.set_length(4096);
    assert_eq!(b.inc(1024, 0).as_deref(), Some("backing up: 1.0 KiB / 4.0 KiB"));
    assert_eq!(
        b.finish(250_000_000).as_deref(),
        Some("backing up: 1.0 KiB done in 250.00ms")
    );

    let mut s = NonInteractiveProgress::new("upload", 0, ProgressKind::Status, 0);
    assert_eq!(s.finish(0), None);
    assert_eq!(s.set_message("3 files", 5).as_deref(), Some("upload: 3 files"));
    assert_eq!(
        s.finish(3_000_000_000).as_deref(),
        Some("upload: 3 files done in 3.00s")
    );
    assert_eq!(s.state.last_log, 5);
}

#[test]
fn json_status_reports() {
    let mut p = JsonProgress::new("backing up", 10 * SEC as u128, ProgressKind::Bytes, 0);
    let st = p.set_length(400, 20 * SEC);
    assert_eq!(st.message_type, "status");
    assert_eq!(st.seconds_elapsed, 20);
    assert_eq!(st.total_bytes, Some(400));
    assert_eq!(st.bytes_done, Some(0));
    assert_eq!(st.percent_done, Some(PercentDone { done: 0, total: 400 }));
    assert_eq!(st.seconds_remaining, None);
    assert!(p.inc(100, 25 * SEC).is_none());
    let st = p.inc(100, 30 * SEC).unwrap();
    assert_eq!(st.bytes_done, Some(200));
    assert_eq!(st.seconds_remaining, Some(30));
    assert_eq!(st.percent_done, Some(PercentDone { done: 200, total: 400 }));
    assert!(p.inc(300, 31 * SEC).is_none());
    let st = p.finish(40 * SEC).unwrap();
    assert_eq!(st.percent_done, Some(PercentDone { done: 400, total: 400 }));
    assert_eq!(st.seconds_remaining, None);
}

#[test]
fn json_status_and_errors() {
    let mut p = JsonProgress::new("upload", SEC as u128, ProgressKind::Status, 0);
    assert!(p.finish(0).is_none());
    let e = p.error(Some("/tmp/x"), "backup", "permission denied");
    assert_eq!(e.message_type, "error");
    assert_eq!(e.item, "/tmp/x");
    assert_eq!(e.during, "backup");
    assert_eq!(e.message, "permission denied");
    let e = p.error(None, "backup", "lost");
    assert_eq!(e.item, "");
    let st = p.set_upload_stats(1, 0, 0, 2 * SEC).unwrap();
    assert_eq!(p.state.message, "1 new  0 changed  0 B added");
    assert_eq!(st.files_new, Some(1));
    assert_eq!(st.files_changed, Some(0));
    assert_eq!(st.bytes_added, Some(0));
    assert_eq!(st.error_count, 2);
    assert_eq!(st.total_bytes, None);
    assert_eq!(st.bytes_done, None);
    assert!(p.finish(3 * SEC).is_some());
}

#[test]
fn warmup_announcement() {
    assert_eq!(rustic_rs::warming_up_message(0), "warming up 0 pack(s)");
    assert_eq!(rustic_rs::warming_up_message(17), "warming up 17 pack(s)");
}
