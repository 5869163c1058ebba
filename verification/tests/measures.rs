use abylab_tui::data::{human_bytes, human_files, scan, DataKeepWhy, Found, Sizing, MAX_WALK};
use abylab_tui::locale::Locale;
use abylab_tui::measure::{fmt_duration, fmt_tokens, percent};
use abylab_tui::path::{relative_path, FilePath};
use abylab_tui::picker::{short_id, step_down, step_up};
use abylab_tui::runtime::{Flags, KeyOrigin, RuntimeConfig, UiSettings, head_branch, launch};
use abylab_tui::selection::{slice_by_cells, word_span};
use abylab_tui::transcript::clamp_str;

#[test]
fn paths_are_spelled_against_a_base() {
    let base = FilePath::parse("/a/b");
    assert_eq!(relative_path(&base, &FilePath::parse("/a/b/c/d")), "c/d");
    assert_eq!(relative_path(&base, &FilePath::parse("/a/x")), "../x");
    assert_eq!(relative_path(&base, &base), ".");
    assert_eq!(FilePath::parse("/a//b/./c").text(), "/a/b/c");
    assert_eq!(FilePath::parse("/a/b").parent().unwrap().text(), "/a");
    assert!(FilePath::parse("/").parent().is_none());
    assert!(FilePath::parse("/a/b").starts_with(&FilePath::parse("/a")));
    assert!(!FilePath::parse("/ab").starts_with(&FilePath::parse("/a")));
}

#[test]
fn sizes_read_in_units() {
    assert_eq!(human_bytes(0), "0 B");
    assert_eq!(human_bytes(1023), "1023 B");
    assert_eq!(human_bytes(1025), "2 KB");
    assert_eq!(human_bytes(1024 * 1024), "1.0 MB");
    assert_eq!(human_bytes(1_572_864), "1.5 MB");
    assert_eq!(human_bytes(5 * 1024 * 1024 * 1024), "5.0 GB");
    assert_eq!(human_files(3, false), "3");
    assert_eq!(human_files(20_000, true), "20000+");
}

#[test]
fn a_count_stops_at_its_limit() {
    let mut s = Sizing::empty();
    assert!(s.count(10));
    assert_eq!((s.files, s.bytes, s.truncated), (1, 10, false));
    s.files = MAX_WALK - 1;
    assert!(!s.count(5));
    assert!(s.truncated);
    assert_eq!(Sizing::file(7), Sizing { files: 1, bytes: 7, truncated: false });
}

#[test]
fn tokens_durations_and_shares_read_short() {
    assert_eq!(fmt_tokens(999), "999");
    assert_eq!(fmt_tokens(1500), "1.5K");
    assert_eq!(fmt_tokens(2_500_000), "2.5M");
    assert_eq!(percent(1, 4), 25);
    assert_eq!(percent(1, 3), 33);
    assert_eq!(fmt_duration(0), "0.0s");
    assert_eq!(fmt_duration(61_500), "1m1s");
    assert_eq!(fmt_duration(1500), "1.5s");
}

#[test]
fn lists_wrap_at_their_ends() {
    assert_eq!(step_up(0, 3), 2);
    assert_eq!(step_up(2, 3), 1);
    assert_eq!(step_down(2, 3), 0);
    assert_eq!(step_down(0, 3), 1);
    assert_eq!(short_id("0123456789abcdef"), "01234567");
}

#[test]
fn cells_count_wide_characters_twice() {
    assert_eq!(slice_by_cells("a好b", 0, 1), "a");
    assert_eq!(slice_by_cells("a好b", 1, 3), "好");
    assert_eq!(slice_by_cells("a好b", 3, 4), "b");
    assert_eq!(word_span("hi there", 4), Some((3, 5, "there".to_string())));
    assert_eq!(word_span("hi there", 2), None);
    assert_eq!(clamp_str("short", 10), "short");
    assert_eq!(clamp_str("abcdef", 4), "abc…");
    assert_eq!(clamp_str("好好好", 4), "好…");
}

#[test]
fn the_branch_is_read_from_head() {
    assert_eq!(head_branch("ref: refs/heads/main\n"), Some("main".to_string()));
    assert_eq!(head_branch("ref: refs/heads/feature/next"), Some("feature/next".to_string()));
    assert_eq!(head_branch("0123abcd\n"), None);
    assert_eq!(head_branch(""), None);
}

#[test]
fn a_launch_falls_back_to_the_stock_model_and_effort() {
    let mut cfg = RuntimeConfig {
        workspace: "/w".to_string(),
        home: "/h".to_string(),
        sessions_root: "/h/sessions".to_string(),
        provider: "p".to_string(),
        model: String::new(),
        max_tokens: None,
        base_url: None,
        api_key: None,
        key_origin: None::<KeyOrigin>,
        flags: Flags {
            model: false,
            theme: false,
        },
    };
    let mut settings = UiSettings {
        language: Locale::En,
        model: None,
        effort: None,
        permission: Some("read-only".to_string()),
        theme: None,
        palette: None,
    };
    let l = launch(&cfg, &settings);
    assert_eq!((l.model.as_str(), l.reasoning.as_str()), ("deepseek-flash", "high"));
    assert_eq!(l.permission, Some("read-only".to_string()));
    cfg.model = "mine".to_string();
    settings.effort = Some("low".to_string());
    let l = launch(&cfg, &settings);
    assert_eq!((l.model.as_str(), l.reasoning.as_str()), ("mine", "low"));
}

#[test]
fn a_store_that_climbs_out_of_the_home_is_kept() {
    let home = FilePath::parse("/h");
    let found = Found {
        entries: Vec::new(),
        store: Some(Sizing::file(1)),
        store_exists: true,
        instructions: false,
    };
    for outside in ["/h/../x", "/x", "/h/a/../../x"] {
        let root = FilePath::parse(outside);
        let plan = scan(&home, &root, &found);
        assert!(plan.items.is_empty());
        assert_eq!(plan.kept.len(), 1);
        assert_eq!(plan.kept[0].path, root);
        assert_eq!(plan.kept[0].why, DataKeepWhy::OutsideHome);
    }
    let plan = scan(&home, &FilePath::parse("/h/store"), &found);
    assert_eq!(plan.items.len(), 1);
}
