use std::fmt::Write;

use indicatif::{ProgressState, ProgressStyle};
use rustic_rs::{
    bytes_layout, eta_seconds, eta_text, ioctl_stderr_cols, prefix_width, stderr_width, style_template,
    uses_eta_key, BytesLayout, BytesStats, ProgressKind,
};

#[test]
fn bytes_layout_fits_typical_consoles() {
    for width in [80, 100, 120, 160] {
        for with_length in [false, true] {
            let layout = bytes_layout(width, with_length);
            assert!(
                layout.total_width() <= width,
                "width={width} with_length={with_length}: {} > {width} ({layout:?})",
                layout.total_width()
            );
            assert!(layout.bar >= 4, "bar too small: {layout:?}");
        }
    }
    assert!(bytes_layout(120, true).bar > bytes_layout(80, true).bar);
    assert_eq!(bytes_layout(80, true).stats, BytesStats::WithTotal);
    assert_eq!(bytes_layout(120, true).stats, BytesStats::WithEta);
}

#[test]
fn bytes_template_is_valid_indicatif_style() {
    for width in [80, 120] {
        let template = bytes_layout(width, true).template();
        _ = ProgressStyle::default_bar()
            .with_key("my_eta", |_: &ProgressState, w: &mut dyn Write| {
                let _ = w.write_str("-");
            })
            .template(&template)
            .expect(&template);
    }
}

#[test]
fn bytes_layout_exact_choices() {
    assert_eq!(
        bytes_layout(80, true),
        BytesLayout { prefix: 14, bar: 18, stats: BytesStats::WithTotal }
    );
    assert_eq!(
        bytes_layout(120, true),
        BytesLayout { prefix: 14, bar: 40, stats: BytesStats::WithEta }
    );
    assert_eq!(
        bytes_layout(80, false),
        BytesLayout { prefix: 14, bar: 29, stats: BytesStats::Bare }
    );
    assert_eq!(
        bytes_layout(40, true),
        BytesLayout { prefix: 8, bar: 4, stats: BytesStats::Bare }
    );
    assert_eq!(
        bytes_layout(55, true),
        BytesLayout { prefix: 10, bar: 8, stats: BytesStats::Bare }
    );
    assert_eq!(BytesStats::Bare.width(), 24);
    assert_eq!(BytesStats::WithTotal.width(), 35);
    assert_eq!(BytesStats::WithEta.width(), 48);
    assert_eq!(bytes_layout(80, true).total_width(), 79);
}

#[test]
fn bytes_template_text() {
    assert_eq!(
        bytes_layout(120, true).template(),
        "[{elapsed_precise}] {prefix:14} {bar:40.cyan/blue} {bytes:>10}/{total_bytes:<10} {bytes_per_sec:<12} (ETA {my_eta})"
    );
    assert_eq!(
        bytes_layout(80, false).template(),
        "[{elapsed_precise}] {prefix:14} {bar:29.cyan/blue} {bytes:>10} {bytes_per_sec:<12}"
    );
}

#[test]
fn prefix_width_is_clamped() {
    assert_eq!(prefix_width(80, 2), 14);
    assert_eq!(prefix_width(40, 24), 8);
    assert_eq!(prefix_width(45, 24), 9);
    assert_eq!(prefix_width(10, 2), 14);
}

#[test]
fn style_templates_per_kind() {
    assert_eq!(
        style_template(ProgressKind::Spinner, 80, false),
        "[{elapsed_precise}] {prefix:14} {spinner}"
    );
    assert_eq!(
        style_template(ProgressKind::Counter, 80, true),
        "[{elapsed_precise}] {prefix:14} {bar:18.cyan/blue} {pos:>10}/{len:10}"
    );
    assert_eq!(
        style_template(ProgressKind::Counter, 80, false),
        "[{elapsed_precise}] {prefix:14} {bar:29.cyan/blue} {pos:>10}"
    );
    assert_eq!(
        style_template(ProgressKind::Status, 45, false),
        "[{elapsed_precise}] {prefix:9} {msg}"
    );
    assert_eq!(
        style_template(ProgressKind::Bytes, 80, true),
        bytes_layout(80, true).template()
    );
    assert!(uses_eta_key(ProgressKind::Bytes, true));
    assert!(!uses_eta_key(ProgressKind::Bytes, false));
    assert!(!uses_eta_key(ProgressKind::Counter, true));
}

#[test]
fn terminal_width_sources() {
    assert_eq!(ioctl_stderr_cols(true, 100), Some(100));
    assert_eq!(ioctl_stderr_cols(true, 39), None);
    assert_eq!(ioctl_stderr_cols(false, 100), None);
    assert_eq!(stderr_width(Some(132), Some("90")), 132);
    assert_eq!(stderr_width(None, Some("90")), 90);
    assert_eq!(stderr_width(None, Some("+100")), 100);
    assert_eq!(stderr_width(None, Some("30")), 80);
    assert_eq!(stderr_width(None, Some("wide")), 80);
    assert_eq!(stderr_width(None, Some("99999999999999999999999")), 80);
    assert_eq!(stderr_width(None, None), 80);
}

#[test]
fn eta_from_elapsed_time() {
    assert_eq!(eta_seconds(10, 25, Some(100)), Some(30));
    assert_eq!(eta_seconds(10, 0, Some(100)), None);
    assert_eq!(eta_seconds(10, 100, Some(100)), None);
    assert_eq!(eta_seconds(10, 5, None), None);
    assert_eq!(eta_text(10, 25, Some(100)), "30s");
    assert_eq!(eta_text(60, 1, Some(6)), "5m");
    assert_eq!(eta_text(10, 0, Some(100)), "-");
}
