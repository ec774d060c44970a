use randl::security::{build_report, get_file_hash, to_hex_lower, vt_begin, vt_step, VtAnalysis, VtCommand, VtError, VtEvent, VtField, VtScan, VtSubmission, MAX_POLLS};

fn analysis(status: &str) -> VtAnalysis {
    VtAnalysis {
        status: Some(status.to_string()),
        url: Some("https://example.com/x".to_string()),
        harmless: Some(60),
        undetected: Some(10),
        suspicious: Some(1),
        malicious: Some(0),
    }
}

#[test]
fn sha256_fingerprint() {
    assert_eq!(get_file_hash(b"abc"), "ba7816bf8f01cfea414140de5dae2223b00361a396177a9cb410ff61f20015ad");
    assert_eq!(get_file_hash(b""), "e3b0c44298fc1c149afbf4c8996fb92427ae41e4649b934ca495991b7852b855");
    assert_eq!(to_hex_lower(&[0x0a, 0x14, 0x1e, 0xff]), "0a141eff");
}

#[test]
fn report_from_completed_analysis() {
    let r = build_report(analysis("completed")).ok().unwrap();
    assert_eq!(r.url, "https://example.com/x");
    assert_eq!((r.harmless, r.undetected, r.suspicious, r.malicious), (60, 10, 1, 0));
    let mut a = analysis("completed");
    a.harmless = Some((1u64 << 32) + 5);
    assert_eq!(build_report(a).ok().unwrap().harmless, 5);
    let mut a = analysis("completed");
    a.undetected = None;
    a.malicious = None;
    assert_eq!(build_report(a).err(), Some(VtError::Missing(VtField::Undetected)));
    assert_eq!(VtError::Missing(VtField::Undetected).message(), "missing undetected");
}

#[test]
fn scan_polls_at_most_ten_times() {
    let (scan, cmd) = vt_begin(VtSubmission { report_url: Some("https://vt/a/1".to_string()) });
    let mut scan: VtScan = scan.unwrap();
    let mut fetches = 0;
    match cmd {
        VtCommand::Fetch(u) => {
            assert_eq!(u, "https://vt/a/1");
            fetches += 1;
        }
        _ => panic!("expected a fetch"),
    }
    loop {
        let (s, cmd) = vt_step(scan, VtEvent::Analysis(analysis("queued")));
        assert!(matches!(cmd, VtCommand::Wait));
        let (s, cmd) = vt_step(s, VtEvent::Waited);
        scan = s;
        match cmd {
            VtCommand::Fetch(_) => fetches += 1,
            VtCommand::Finish(Err(e)) => {
                assert_eq!(e, VtError::TimedOut);
                assert_eq!(e.message(), "VirusTotal analysis timed out");
                break;
            }
            _ => panic!("unexpected command"),
        }
    }
    assert_eq!(fetches, MAX_POLLS);
}

#[test]
fn scan_statuses() {
    let scan = VtScan { report_url: "u".to_string(), attempts: 3 };
    let (_, cmd) = vt_step(scan, VtEvent::Analysis(analysis("completed")));
    assert!(matches!(cmd, VtCommand::Finish(Ok(_))));
    let scan = VtScan { report_url: "u".to_string(), attempts: 3 };
    let (_, cmd) = vt_step(scan, VtEvent::Analysis(analysis("in-progress")));
    assert!(matches!(cmd, VtCommand::Wait));
    let scan = VtScan { report_url: "u".to_string(), attempts: 3 };
    let (_, cmd) = vt_step(scan, VtEvent::Analysis(analysis("failed")));
    assert!(matches!(cmd, VtCommand::Finish(Err(VtError::UnexpectedStatus))));
    let (s, cmd) = vt_begin(VtSubmission { report_url: None });
    assert!(s.is_none());
    assert!(matches!(cmd, VtCommand::Finish(Err(VtError::MissingReportUrl))));
    assert_eq!(VtError::MissingReportUrl.message(), "missing report URL");
}
