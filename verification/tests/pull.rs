use randl::archive::Codec;
use randl::pull::{
    follow_line, follow_start, follow_step, pick_repository, rounds_begin, rounds_step, FollowCommand, FollowEvent,
    FollowOutcome, FollowState, Notice, PullSettings, RewardKind, RoundCommand, RoundEvent,
};
use randl::repository::Repositories;

fn settings() -> PullSettings {
    PullSettings { max_depth: 3, repeat: 1, no_confirm: false, dry_run: false, scan_reward_url: false, vt_api_key: None }
}

#[test]
fn reward_line_is_announced_then_confirmed_and_downloaded() {
    let s = settings();
    let (st, cmd) = follow_line(1, "https://example.com/files/song.mp3?dl=1".to_string());
    match &cmd {
        FollowCommand::Announce { kind, name } => {
            assert_eq!(*kind, RewardKind::File);
            assert_eq!(name, "song.mp3");
        }
        _ => panic!("expected an announcement"),
    }
    let (st, cmd) = follow_step(&s, st, FollowEvent::Ack);
    assert!(matches!(&cmd, FollowCommand::QuerySize { url } if url == "https://example.com/files/song.mp3?dl=1"));
    let (st, cmd) = follow_step(&s, st, FollowEvent::Size(None));
    match &cmd {
        FollowCommand::AskDownload { kind, name, size } => {
            assert_eq!(*kind, RewardKind::File);
            assert_eq!(name, "song.mp3");
            assert_eq!(size, "unknown");
        }
        _ => panic!("expected the download dialog"),
    }
    let (st, cmd) = follow_step(&s, st, FollowEvent::Answer(Ok(true)));
    assert!(matches!(&cmd, FollowCommand::Download { name, .. } if name == "song.mp3"));
    let (_, cmd) = follow_step(&s, st, FollowEvent::Downloaded(Ok(())));
    assert!(matches!(cmd, FollowCommand::Finish { outcome: FollowOutcome::Done, notice: Notice::Downloaded }));
}

#[test]
fn declined_and_failed_downloads_retry() {
    let s = settings();
    let st = FollowState::Confirming { kind: RewardKind::File, url: "u".to_string() };
    let (_, cmd) = follow_step(&s, st, FollowEvent::Answer(Ok(false)));
    assert!(matches!(cmd, FollowCommand::Finish { outcome: FollowOutcome::Retry, notice: Notice::Nothing }));
    let st = FollowState::Confirming { kind: RewardKind::File, url: "u".to_string() };
    let (_, cmd) = follow_step(&s, st, FollowEvent::Answer(Err("io".to_string())));
    assert!(matches!(cmd, FollowCommand::Abort));
    let (_, cmd) = follow_step(&s, FollowState::Downloading, FollowEvent::Downloaded(Err("cancelled".to_string())));
    assert!(matches!(cmd, FollowCommand::Finish { outcome: FollowOutcome::Retry, notice: Notice::Rerolled }));
    let (_, cmd) = follow_step(&s, FollowState::Downloading, FollowEvent::Downloaded(Err("timeout".to_string())));
    assert!(matches!(cmd, FollowCommand::Finish { outcome: FollowOutcome::Retry, notice: Notice::DownloadFailed(m) } if m == "timeout"));
}

#[test]
fn dry_run_stops_before_download() {
    let mut s = settings();
    s.dry_run = true;
    let (st, _) = follow_line(1, "Archive https://e/x.tar.gz".to_string());
    let (st, cmd) = follow_step(&s, st, FollowEvent::Ack);
    assert!(matches!(st, FollowState::Over));
    assert!(matches!(cmd, FollowCommand::Finish { outcome: FollowOutcome::Done, notice: Notice::DryRun }));
}

#[test]
fn no_confirm_skips_dialogs() {
    let mut s = settings();
    s.no_confirm = true;
    let (st, _) = follow_line(2, "Archive https://e/x.tar.gz".to_string());
    let (st, cmd) = follow_step(&s, st, FollowEvent::Ack);
    assert!(matches!(cmd, FollowCommand::QuerySize { .. }));
    let (st, cmd) = follow_step(&s, st, FollowEvent::Size(Some(10)));
    assert!(matches!(&cmd, FollowCommand::FetchArchive { url } if url == "https://e/x.tar.gz"));
    let (st, cmd) = follow_step(&s, st, FollowEvent::Response(Ok(200)));
    assert!(matches!(cmd, FollowCommand::ReadMagic));
    let (st, cmd) = follow_step(&s, st, FollowEvent::Magic(Ok(vec![0x1f, 0x8b, 8, 0, 0, 0])));
    assert!(matches!(cmd, FollowCommand::Extract { codec: Codec::Gzip }));
    let (_, cmd) = follow_step(&s, st, FollowEvent::Extracted(Ok(())));
    assert!(matches!(cmd, FollowCommand::Finish { outcome: FollowOutcome::Done, notice: Notice::Nothing }));
    // Past the depth limit there is no dialog either.
    let (_, cmd) = follow_start(&s, 4, &vec!["https://e/a".to_string()]);
    assert!(matches!(cmd, FollowCommand::Finish { outcome: FollowOutcome::Retry, notice: Notice::MaxDepth }));
}

#[test]
fn archive_failures() {
    let s = settings();
    let (_, cmd) = follow_step(&s, FollowState::FetchingArchive, FollowEvent::Response(Ok(404)));
    assert!(matches!(cmd, FollowCommand::Finish { outcome: FollowOutcome::Retry, notice: Notice::BadStatus(404) }));
    let (_, cmd) = follow_step(&s, FollowState::ReadingMagic, FollowEvent::Magic(Ok(b"PK\x03\x04ab".to_vec())));
    assert!(matches!(cmd, FollowCommand::Finish { outcome: FollowOutcome::Error(ref m), notice: Notice::UnknownArchive } if m == "unknown archive type"));
    let (_, cmd) = follow_step(&s, FollowState::Extracting, FollowEvent::Extracted(Err("bad tar".to_string())));
    assert!(matches!(cmd, FollowCommand::Finish { outcome: FollowOutcome::Error(ref m), notice: Notice::ExtractFailed(_) } if m == "bad tar"));
}

#[test]
fn nested_lists_go_one_level_deeper() {
    let s = settings();
    let (st, cmd) = follow_line(2, "Nested https://e/more.txt".to_string());
    assert!(matches!(&cmd, FollowCommand::FetchNested { url } if url == "https://e/more.txt"));
    let (_, cmd) = follow_step(&s, st, FollowEvent::Fetched(Ok(vec!["https://e/r".to_string()])));
    match cmd {
        FollowCommand::Descend { depth, lines } => {
            assert_eq!(depth, 3);
            assert_eq!(lines, vec!["https://e/r".to_string()]);
        }
        _ => panic!("expected to descend"),
    }
    // Beyond the limit the user is asked whether to retry.
    let (st, cmd) = follow_start(&s, 4, &vec!["https://e/a".to_string()]);
    assert!(matches!(cmd, FollowCommand::AskRetry));
    let (_, cmd) = follow_step(&s, st, FollowEvent::Answer(Ok(false)));
    assert!(matches!(cmd, FollowCommand::Finish { outcome: FollowOutcome::Done, .. }));
    // With no limit, any depth is followed.
    let mut unlimited = settings();
    unlimited.max_depth = 0;
    let (_, cmd) = follow_start(&unlimited, 1000, &vec!["https://e/a".to_string()]);
    assert!(matches!(cmd, FollowCommand::Announce { .. }));
}

#[test]
fn empty_list_and_unknown_line() {
    let s = settings();
    let (_, cmd) = follow_start(&s, 1, &vec![]);
    assert!(matches!(cmd, FollowCommand::Finish { outcome: FollowOutcome::Error(ref m), .. } if m == "Repository has no lines."));
    let (st, cmd) = follow_start(&s, 1, &vec!["Foo bar".to_string()]);
    assert!(matches!(st, FollowState::Over));
    assert!(matches!(cmd, FollowCommand::Finish { outcome: FollowOutcome::Retry, notice: Notice::Unrecognised }));
}

#[test]
fn scanning_needs_a_key() {
    let mut s = settings();
    s.scan_reward_url = true;
    let (st, _) = follow_line(1, "https://e/f".to_string());
    let (_, cmd) = follow_step(&s, st, FollowEvent::Ack);
    assert!(matches!(cmd, FollowCommand::Finish { outcome: FollowOutcome::Retry, notice: Notice::MissingApiKey }));
    s.vt_api_key = Some("k-123".to_string());
    let (st, _) = follow_line(1, "https://e/f".to_string());
    let (st, cmd) = follow_step(&s, st, FollowEvent::Ack);
    assert!(matches!(&cmd, FollowCommand::Scan { url, api_key } if url == "https://e/f" && api_key == "k-123"));
    let (_, cmd) = follow_step(&s, st, FollowEvent::Ack);
    assert!(matches!(cmd, FollowCommand::QuerySize { .. }));
}

#[test]
fn rounds_repeat_and_continue() {
    let mut s = settings();
    s.repeat = 2;
    let (c, cmd) = rounds_begin(&s);
    assert_eq!(c, 0);
    assert!(matches!(cmd, RoundCommand::Follow { after_error: None }));
    let (c, cmd) = rounds_step(&s, c, RoundEvent::Followed(FollowOutcome::Retry));
    assert_eq!(c, 0);
    assert!(matches!(cmd, RoundCommand::Follow { after_error: None }));
    let (c, cmd) = rounds_step(&s, c, RoundEvent::Followed(FollowOutcome::Error("boom".to_string())));
    assert!(matches!(&cmd, RoundCommand::AskContinue { error } if error == "boom"));
    let (c, cmd) = rounds_step(&s, c, RoundEvent::Continue(Ok(false)));
    assert_eq!(c, 1);
    assert!(matches!(cmd, RoundCommand::Follow { .. }));
    let (c, cmd) = rounds_step(&s, c, RoundEvent::Followed(FollowOutcome::Done));
    assert_eq!(c, 2);
    assert!(matches!(cmd, RoundCommand::Finished));
    let (c, cmd) = rounds_step(&s, 0, RoundEvent::Continue(Err("tty".to_string())));
    assert_eq!(c, 0);
    assert!(matches!(&cmd, RoundCommand::Fail(m) if m == "tty"));
    s.no_confirm = true;
    let (_, cmd) = rounds_step(&s, 0, RoundEvent::Followed(FollowOutcome::Error("boom".to_string())));
    assert!(matches!(&cmd, RoundCommand::Follow { after_error: Some(m) } if m == "boom"));
    s.repeat = 0;
    assert!(matches!(rounds_begin(&s).1, RoundCommand::Finished));
}

#[test]
fn picks_only_enabled_repositories() {
    let mut r = Repositories::new();
    assert_eq!(pick_repository(&r), None);
    r.insert("off".to_string(), "https://o".to_string(), false);
    assert_eq!(pick_repository(&r), None);
    r.insert("on".to_string(), "https://n".to_string(), true);
    for _ in 0..20 {
        assert_eq!(pick_repository(&r).as_deref(), Some("on"));
    }
    let lines = vec!["https://a/1".to_string(), "https://a/2".to_string()];
    for _ in 0..20 {
        match follow_start(&settings(), 1, &lines).1 {
            FollowCommand::Announce { name, .. } => assert!(name == "1" || name == "2"),
            _ => panic!("expected an announcement"),
        }
    }
}

#[test]
fn nested_fetches_stop_at_the_depth_limit() {
    // Every list names another list: with a limit of 2, following from
    // depth 1 fetches two nested lists, then reaches the limit.
    let mut s = settings();
    s.max_depth = 2;
    s.no_confirm = true;
    let lines = vec!["Nested https://e/loop.txt".to_string()];
    let mut fetches = 0;
    let (mut st, mut cmd) = follow_start(&s, 1, &lines);
    loop {
        match cmd {
            FollowCommand::FetchNested { .. } => {
                fetches += 1;
                let (s2, c2) = follow_step(&s, st, FollowEvent::Fetched(Ok(lines.clone())));
                st = s2;
                cmd = c2;
            }
            FollowCommand::Descend { depth, lines } => {
                let (s2, c2) = follow_start(&s, depth, &lines);
                st = s2;
                cmd = c2;
            }
            FollowCommand::Finish { outcome, notice } => {
                assert!(matches!(outcome, FollowOutcome::Retry));
                assert!(matches!(notice, Notice::MaxDepth));
                break;
            }
            _ => panic!("unexpected command"),
        }
    }
    assert_eq!(fetches, 2);
}
