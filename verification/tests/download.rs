use randl::download::{content_length, parse_u64, progress_display, size_label, Progress, ProgressDisplay, REPORT_INTERVAL};

#[test]
fn parse_u64_matches_std() {
    let samples = [
        "0", "42", "+7", "+", "-", "-0", "", " 1", "1 ", "007", "18446744073709551615",
        "18446744073709551616", "99999999999999999999999", "1a", "++1", "٣", "12345678901234567890",
    ];
    for s in samples {
        assert_eq!(parse_u64(s), s.parse::<u64>().ok(), "for {:?}", s);
    }
}

#[test]
fn content_length_header() {
    assert_eq!(content_length(Some("1048576")), Some(1048576));
    assert_eq!(content_length(Some("abc")), None);
    assert_eq!(content_length(None), None);
}

#[test]
fn progress_reports_every_interval() {
    let mut p = Progress::new();
    assert!(!p.record(8192));
    assert!(!p.record(REPORT_INTERVAL - 8193));
    assert_eq!(p.written, REPORT_INTERVAL - 1);
    assert!(p.record(1));
    assert_eq!(p.last_reported, REPORT_INTERVAL);
    assert!(!p.record(REPORT_INTERVAL - 1));
    assert!(p.record(1));
    assert_eq!(p.written, 2 * REPORT_INTERVAL);
    assert_eq!(p.last_reported, 2 * REPORT_INTERVAL);
    assert!(p.record(3 * REPORT_INTERVAL));
}

#[test]
fn progress_display_forms() {
    match progress_display(524288, Some(1048576)) {
        ProgressDisplay::Percent { written, total } => {
            assert_eq!(written, 524288);
            assert_eq!(total, 1048576);
        }
        ProgressDisplay::Bytes(_) => panic!("expected a percentage"),
    }
    match progress_display(524288, None) {
        ProgressDisplay::Bytes(s) => {
            assert_eq!(s, size::Size::from_bytes(524288u64).to_string());
            assert_ne!(s, "524288");
        }
        ProgressDisplay::Percent { .. } => panic!("expected a size"),
    }
}

#[test]
fn size_labels() {
    assert_eq!(size_label(None), "unknown");
    let shown = size_label(Some(1536));
    assert_eq!(shown, size::Size::from_bytes(1536u64).to_string());
    assert!(shown.contains("KiB") || shown.contains("KB"));
}
