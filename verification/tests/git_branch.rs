use abylab_tui::app::{App, GIT_CHECK_INTERVAL};
use abylab_tui::app::state::Host;
use abylab_tui::appearance::{Mode, PalettePack};
use abylab_tui::commands::Phrases;
use abylab_tui::input::normalize::ModifierState;
use abylab_tui::locale::Locale;
use abylab_tui::runtime::{Flags, RuntimeConfig, UiSettings};

fn host() -> Host {
    Host {
        now: 10_000,
        held: ModifierState::default(),
        known_modes: None,
        branch: None,
        mac: false,
    }
}

fn phrases() -> Phrases {
    Phrases {
        tips_en: vec![
            "esc interrupts a running turn — your draft survives".into(),
            "enter queues a follow-up; ctrl+enter steers the active turn now".into(),
        ],
        tips_zh: vec!["esc 中断".into(), "enter 排队".into()],
        commands_zh: vec![
            ("vim".into(), "切换 vim 模态编辑（默认关闭）".into()),
            ("status".into(), "状态、模型和实时用量统计".into()),
        ],
    }
}

fn packs() -> Vec<PalettePack> {
    ["default", "ayu", "one", "nord"]
        .iter()
        .map(|id| PalettePack { id: id.to_string(), label: id.to_string() })
        .collect()
}

fn settings() -> UiSettings {
    UiSettings {
        language: Locale::En,
        model: None,
        effort: None,
        permission: None,
        theme: None,
        palette: None,
    }
}

fn test_cfg() -> RuntimeConfig {
    RuntimeConfig {
        workspace: "/tmp".into(),
        home: "/home/me/.abylab".into(),
        sessions_root: "/home/me/.abylab/sessions".into(),
        provider: "deepseek-official".into(),
        model: "deepseek-v4-flash".into(),
        max_tokens: None,
        base_url: None,
        api_key: None,
        key_origin: None,
        flags: Flags {
            model: false,
            theme: false,
        },
    }
}

fn new_app(cfg: RuntimeConfig, id: &str) -> App {
    App::new(
        packs(),
        Mode::Dark,
        "default".into(),
        phrases(),
        cfg,
        id.into(),
        settings(),
        false,
        host(),
    )
}

fn test_app() -> App {
    new_app(test_cfg(), "dsh-test")
}

fn app_on(branch: Option<&str>) -> App {
    App::new(
        packs(),
        Mode::Dark,
        "default".into(),
        phrases(),
        test_cfg(),
        "dsh-test".into(),
        settings(),
        false,
        Host { branch: branch.map(str::to_string), ..host() },
    )
}

#[test]
fn startup_seeds_the_branch_from_the_workspace_head() {
    assert_eq!(app_on(Some("main")).git_branch.as_deref(), Some("main"));
    // A workspace that is not a checkout keeps the cap path-only.
    assert_eq!(app_on(None).git_branch, None);
}

#[test]
fn tick_picks_up_a_checkout_on_the_throttled_cadence() {
    let mut app = app_on(Some("main"));
    app.host.branch = Some("feature/next".into());

    // Inside the window: no re-read, and no repaint either.
    app.git_check_at = app.host.now;
    app.needs_redraw = false;
    app.tick();
    assert_eq!(
        app.git_branch.as_deref(),
        Some("main"),
        "the throttled tick must not re-read HEAD"
    );
    assert!(!app.needs_redraw);

    // Past it, the cap label follows the checkout.
    app.git_check_at = app.host.now - GIT_CHECK_INTERVAL;
    app.needs_redraw = false;
    app.tick();
    assert_eq!(app.git_branch.as_deref(), Some("feature/next"));
    assert!(app.needs_redraw, "a branch change repaints the cap");
}
