use randl::repository::{
    last_synced, run, RemoveStep, CheckTotals, EntryCounts, Repositories, RepositoryAction, RepositoryEffect, SyncTally,
};

fn sample() -> Repositories {
    let mut r = Repositories::new();
    r.insert("alpha".to_string(), "https://a/list.txt".to_string(), true);
    r.insert("beta".to_string(), "https://b/list.txt".to_string(), false);
    r.insert("gamma".to_string(), "https://g/list.txt".to_string(), true);
    r
}

fn view(r: &Repositories) -> Vec<(String, String, bool)> {
    r.entries().iter().map(|e| (e.name.clone(), e.url.clone(), e.enabled)).collect()
}

#[test]
fn add_inserts_or_replaces_enabled() {
    let mut r = sample();
    assert!(matches!(
        run(RepositoryAction::Add { name: "delta".to_string(), url: "https://d".to_string() }, &mut r, None),
        RepositoryEffect::Save
    ));
    assert_eq!(view(&r).last().unwrap(), &("delta".to_string(), "https://d".to_string(), true));
    run(RepositoryAction::Add { name: "beta".to_string(), url: "https://b2".to_string() }, &mut r, None);
    assert_eq!(view(&r)[1], ("beta".to_string(), "https://b2".to_string(), true));
    assert_eq!(r.entries().len(), 4);
}

fn remove_steps(r: &mut Repositories, name: &str, keep_cache: bool, setting: Option<bool>) -> Vec<String> {
    match run(RepositoryAction::Remove { name: name.to_string(), keep_cache }, r, setting) {
        RepositoryEffect::Removed { steps } => steps
            .into_iter()
            .map(|s| match s {
                RemoveStep::ReportMissing(n) => format!("missing {}", n),
                RemoveStep::Save => "save".to_string(),
                RemoveStep::DeleteCache(n) => format!("delete {}", n),
            })
            .collect(),
        _ => panic!("expected a removal"),
    }
}

#[test]
fn remove_reports_and_decides_cache() {
    let mut r = sample();
    // The configuration is written first, the cache deleted after.
    assert_eq!(remove_steps(&mut r, "beta", false, None), vec!["save", "delete beta"]);
    assert_eq!(r.find(&"beta".to_string()), None);
    assert_eq!(r.entries().len(), 2);
    assert_eq!(remove_steps(&mut r, "alpha", false, Some(true)), vec!["save"]);
    assert_eq!(remove_steps(&mut r, "gamma", true, Some(false)), vec!["save"]);
    assert_eq!(remove_steps(&mut r, "nope", false, None), vec!["missing nope", "save"]);
    assert!(r.entries().is_empty());
}

#[test]
fn enable_and_disable() {
    let mut r = sample();
    run(RepositoryAction::Enable { name: "beta".to_string() }, &mut r, None);
    assert!(view(&r)[1].2);
    run(RepositoryAction::Disable { name: "alpha".to_string() }, &mut r, None);
    assert!(!view(&r)[0].2);
    assert_eq!(view(&r)[0].1, "https://a/list.txt");
}

#[test]
fn sync_selects_enabled_and_named() {
    let mut r = sample();
    match run(RepositoryAction::Sync { names: vec![], timeout: Some(5) }, &mut r, None) {
        RepositoryEffect::Sync { targets, timeout } => {
            let names: Vec<&str> = targets.iter().map(|t| t.name.as_str()).collect();
            assert_eq!(names, vec!["alpha", "gamma"]);
            assert_eq!(timeout, Some(5));
        }
        _ => panic!("expected a sync"),
    }
    match run(RepositoryAction::Sync { names: vec!["gamma".to_string(), "beta".to_string()], timeout: None }, &mut r, None) {
        RepositoryEffect::Sync { targets, .. } => {
            let names: Vec<&str> = targets.iter().map(|t| t.name.as_str()).collect();
            assert_eq!(names, vec!["gamma"]);
        }
        _ => panic!("expected a sync"),
    }
    assert!(matches!(run(RepositoryAction::List, &mut r, None), RepositoryEffect::List));
    assert!(matches!(
        run(RepositoryAction::Check { timeout: Some(3) }, &mut r, None),
        RepositoryEffect::Check { timeout: Some(3) }
    ));
    assert_eq!(r.entries().len(), 3);
}

#[test]
fn check_totals_add_up() {
    let mut t = CheckTotals::new();
    t.record(true, true, &EntryCounts { entries: 3, reward: 1, nested: 1, archive: 1, unknown: 0 });
    t.record(false, false, &EntryCounts { entries: 2, reward: 0, nested: 0, archive: 0, unknown: 2 });
    assert_eq!((t.alive, t.dead, t.enabled, t.disabled), (1, 1, 1, 1));
    assert_eq!((t.entries, t.reward, t.nested, t.archive, t.unknown), (5, 1, 1, 1, 2));
    let mut s = SyncTally::new();
    s.record(true);
    s.record(false);
    s.record(true);
    assert_eq!((s.synced, s.failed), (2, 1));
}

#[test]
fn last_synced_text() {
    assert_eq!(last_synced(None), "Never synced");
    assert_eq!(last_synced(Some(3661)), "1h 1m 1s ago");
    assert_eq!(last_synced(Some(0)), "0s ago");
    assert_eq!(last_synced(Some(9420)), "2h 37m ago");
    assert_eq!(last_synced(Some(31_730_405)), "1year 2days 5s ago");
    assert_eq!(last_synced(Some(864_040)), "10days 40s ago");
    assert_eq!(last_synced(Some(2 * 2_630_016)), "2months ago");
    assert_eq!(
        last_synced(Some(90)),
        format!("{} ago", humantime::format_duration(std::time::Duration::from_secs(90)))
    );
}
