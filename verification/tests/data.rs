use abylab_tui::data::{
    human_bytes, human_files, scan, wipe, DataItem, DataKeepWhy, DataOutcome, DataWhat, Found,
    Sizing, MAX_WALK,
};
use abylab_tui::path::FilePath;

fn file(len: u64) -> Option<Sizing> {
    Some(Sizing::file(len))
}

/// What a home holds that has the five entries, an instructions file written
/// by hand and a session tree of its own.
fn scratch() -> Found {
    Found {
        entries: vec![file(17), file(2), file(11), file(2048), file(2)],
        store: None,
        store_exists: true,
        instructions: true,
    }
}

fn home() -> FilePath {
    FilePath::parse("/home/me/.abylab")
}

#[test]
fn the_plan_names_what_the_program_saved_and_nothing_else() {
    let plan = scan(&home(), &home().join("sessions"), &scratch());
    let names: Vec<String> = plan.items.iter().map(DataItem::name).collect();
    assert_eq!(
        names,
        vec![
            "settings.json",
            "abylab-modes.json",
            ".credentials.yaml",
            "sessions",
            "queued"
        ],
        "the plan lists the owned entries once each, in order: {plan:?}"
    );
    // The default store is one of them, not a second row.
    assert_eq!(
        plan.items
            .iter()
            .filter(|item| item.what == DataWhat::Sessions)
            .count(),
        1
    );
    let sessions = plan
        .items
        .iter()
        .find(|item| item.what == DataWhat::Sessions)
        .unwrap();
    assert_eq!(sessions.files, 1);
    assert_eq!(sessions.bytes, 2048);
    assert_eq!(plan.files(), 5);
    assert_eq!(plan.bytes(), 17 + 2 + 11 + 2048 + 2);
    assert!(!plan.is_empty());
    assert_eq!(
        plan.kept
            .iter()
            .map(|keep| (keep.path.text(), keep.why))
            .collect::<Vec<_>>(),
        vec![(
            "/home/me/.abylab/AGENTS.md".to_string(),
            DataKeepWhy::HandWritten
        )],
        "the hand-written instructions file is reported as kept"
    );
}

#[test]
fn a_store_inside_the_home_is_cleaned_and_one_outside_is_reported() {
    let inside = home().join("store");
    let found = Found { store: Some(Sizing::empty()), ..scratch() };
    let plan = scan(&home(), &inside, &found);
    assert!(
        plan.items.iter().any(|item| item.path == inside),
        "an inside store is one more entry: {plan:?}"
    );
    // The default `sessions` tree is still listed — both are ours.
    assert!(plan
        .items
        .iter()
        .any(|item| item.path == home().join("sessions")));

    // A store outside the home is out of scope, and says so.
    let outside = FilePath::parse("/var/aby-outside");
    let plan = scan(&home(), &outside, &found);
    assert!(
        !plan.items.iter().any(|item| item.path == outside),
        "an outside store is never a target: {plan:?}"
    );
    assert_eq!(
        plan.kept
            .iter()
            .find(|keep| keep.path == outside)
            .map(|k| k.why),
        Some(DataKeepWhy::OutsideHome)
    );

    // The home is never a target either.
    let plan = scan(&home(), &home(), &found);
    assert!(!plan.items.iter().any(|item| item.path == home()));
    assert_eq!(
        plan.kept
            .iter()
            .find(|keep| keep.path == home())
            .map(|k| k.why),
        Some(DataKeepWhy::RootIsHome)
    );
}

fn nothing() -> Found {
    Found {
        entries: vec![None, None, None, None, None],
        store: None,
        store_exists: false,
        instructions: false,
    }
}

#[test]
fn an_empty_home_has_nothing_to_remove() {
    let plan = scan(&home(), &home().join("sessions"), &nothing());
    assert!(plan.is_empty(), "{plan:?}");
    assert!(
        plan.kept.is_empty(),
        "no instructions file, nothing to keep"
    );
    assert_eq!(wipe(&plan, &vec![]), DataOutcome::default());
}

#[test]
fn a_wipe_removes_what_the_plan_listed_and_leaves_the_rest() {
    let outside = FilePath::parse("/var/aby-kept");
    let plan = scan(&home(), &outside, &scratch());
    let outcome = wipe(&plan, &vec![None; plan.items.len()]);
    assert_eq!(outcome.removed, plan.items.len());
    assert!(outcome.failures.is_empty(), "{outcome:?}");
    assert_eq!(outcome.bytes, plan.bytes());
    assert_eq!(outcome.files, plan.files());
    // A second wipe has nothing left to do.
    let left = Found { instructions: true, store_exists: true, ..nothing() };
    assert_eq!(
        wipe(&scan(&home(), &outside, &left), &vec![]),
        DataOutcome::default()
    );
}

#[test]
fn an_entry_that_stays_is_reported_and_not_counted() {
    let plan = scan(&home(), &home().join("sessions"), &scratch());
    let reasons = vec![None, None, Some("denied".to_string()), None, None];
    let outcome = wipe(&plan, &reasons);
    assert_eq!(outcome.removed, 4);
    assert_eq!(outcome.bytes, 17 + 2 + 2048 + 2);
    assert_eq!(outcome.failures.len(), 1);
    assert_eq!(outcome.failures[0].1, "denied");
}

#[test]
fn sizes_read_the_way_the_installer_prints_them() {
    assert_eq!(human_bytes(0), "0 B");
    assert_eq!(human_bytes(1023), "1023 B");
    assert_eq!(human_bytes(1024), "1 KB");
    assert_eq!(human_bytes(1025), "2 KB", "a byte over rounds up");
    assert_eq!(human_bytes(2 * 1024 * 1024), "2.0 MB");
    assert_eq!(human_bytes(3 * 1024 * 1024 * 1024), "3.0 GB");
    assert_eq!(human_files(7, false), "7");
    assert_eq!(human_files(MAX_WALK, true), "20000+");
}

#[test]
fn a_walk_stops_counting_at_its_limit() {
    let mut s = Sizing::empty();
    assert!(s.count(10));
    assert_eq!((s.files, s.bytes, s.truncated), (1, 10, false));
    s.files = MAX_WALK - 1;
    assert!(!s.count(1));
    assert!(s.truncated);
}
