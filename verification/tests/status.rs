use abylab_tui::app::App;
use abylab_tui::app::state::Host;
use abylab_tui::appearance::{Mode, PalettePack};
use abylab_tui::bus::{AppEvent, CtlEvent};
use abylab_tui::commands::Phrases;
use abylab_tui::input::keys::{KeyCode, KeyEvent, KeyModifiers};
use abylab_tui::input::normalize::ModifierState;
use abylab_tui::locale::Locale;
use abylab_tui::runtime::{Flags, RuntimeConfig, UiSettings};
use abylab_tui::transcript::CellKind;

fn host() -> Host {
    Host {
        now: 10_000,
        held: ModifierState::default(),
        known_modes: None,
        branch: None,
        mac: false,
    }
}

fn phrases() -> Phrases {
    Phrases {
        tips_en: vec![
            "esc interrupts a running turn — your draft survives".into(),
            "enter queues a follow-up; ctrl+enter steers the active turn now".into(),
        ],
        tips_zh: vec!["esc 中断".into(), "enter 排队".into()],
        commands_zh: vec![
            ("vim".into(), "切换 vim 模态编辑（默认关闭）".into()),
            ("status".into(), "状态、模型和实时用量统计".into()),
        ],
    }
}

fn packs() -> Vec<PalettePack> {
    ["default", "ayu", "one", "nord"]
        .iter()
        .map(|id| PalettePack { id: id.to_string(), label: id.to_string() })
        .collect()
}

fn settings() -> UiSettings {
    UiSettings {
        language: Locale::En,
        model: None,
        effort: None,
        permission: None,
        theme: None,
        palette: None,
    }
}

fn test_cfg() -> RuntimeConfig {
    RuntimeConfig {
        workspace: "/tmp".into(),
        home: "/home/me/.abylab".into(),
        sessions_root: "/home/me/.abylab/sessions".into(),
        provider: "deepseek-official".into(),
        model: "deepseek-v4-flash".into(),
        max_tokens: None,
        base_url: None,
        api_key: None,
        key_origin: None,
        flags: Flags {
            model: false,
            theme: false,
        },
    }
}

fn new_app(cfg: RuntimeConfig, id: &str) -> App {
    App::new(
        packs(),
        Mode::Dark,
        "default".into(),
        phrases(),
        cfg,
        id.into(),
        settings(),
        false,
        host(),
    )
}

fn test_app() -> App {
    new_app(test_cfg(), "dsh-test")
}

#[test]
fn status_slash_opens_a_modal_with_state_and_the_usage_counters() {
    let mut app = test_app();
    app.locale = Locale::En;
    app.session.modes.effort = Some("high".into());
    app.session.session_title = Some("fix the login flow".into());
    // The counter rows the composer dock used to paint: the modal renders
    // them from the transcript accumulator instead.
    app.transcript.usage.input = 1834;
    app.transcript.usage.output = 412;
    app.transcript.usage.cached = 1200;
    app.transcript.stats.turns = 3;
    app.transcript.stats.steps = 47;
    app.transcript.stats.turn_millis = 135_000;
    app.transcript.stats.tool_millis = 8_000;
    app.transcript.stats.ttft_total_millis = 4_500;
    app.transcript.stats.ttft_count = 3;
    let cells_before = app.transcript.cells.len();

    app.run_slash("status", "");

    assert_eq!(
        app.transcript.cells.len(),
        cells_before,
        "/status is chrome and must not enter the conversation timeline"
    );
    let overlay = app.panels.view_overlay.as_ref()
        .expect("/status modal should open");
    assert_eq!(overlay.title, "Status");
    let text = &overlay.text;
    // The border names the card, so the body carries bullets only.
    assert!(!text.contains("## status"), "{text}");
    assert!(text.contains("- state · "), "{text}");
    // The session row carries the live title, and the credential source
    // (env vs stored vs none) landed here when `/session` retired.
    assert!(
        text.contains("- session · dsh-test · fix the login flow"),
        "{text}"
    );
    assert!(
        text.contains("- credentials · no api key — /login <apikey> stores one"),
        "{text}"
    );
    assert!(text.contains("- model · deepseek-v4-flash"), "{text}");
    assert!(text.contains("- effort · high"), "{text}");
    assert!(text.contains("- permission · "), "{text}");
    assert!(text.contains("- plan · "), "{text}");
    // Tokens, turns/steps, timing and TTFT ride the same card.
    assert!(text.contains("- tokens · ↑1.8K ↓412 · cache 65%"), "{text}");
    assert!(text.contains("- turns · 3 · steps · 47"), "{text}");
    assert!(text.contains("- LLM · 2m7s · tool · 8.0s"), "{text}");
    assert!(text.contains("- TTFT avg · 1.5s"), "{text}");

    // The card is drawn over the chat and esc closes it.
    app.handle_key(&KeyEvent::new(KeyCode::Esc, KeyModifiers::none()));
    assert!(app.panels.view_overlay.is_none(), "esc closes the modal");
}

/// A zero-data session still lists the counters as zeros (no dropped
/// row) while an unsampled TTFT stays out of the card — and the modal is
/// localized like the rest of the built-in chrome.
#[test]
fn status_slash_keeps_the_counter_row_for_a_fresh_session() {
    let mut app = test_app();
    app.locale = Locale::Zh;

    app.run_slash("status", "");

    let overlay = app.panels.view_overlay.as_ref()
        .expect("/status modal should open");
    assert_eq!(overlay.title, "状态");
    let text = &overlay.text;
    assert!(text.contains("- state · 空闲"), "{text}");
    assert!(text.contains("- tokens · ↑0 ↓0 · cache 0%"), "{text}");
    assert!(text.contains("- turns · 0 · steps · 0"), "{text}");
    assert!(text.contains("- LLM · 0.0s · tool · 0.0s"), "{text}");
    assert!(!text.contains("- TTFT avg ·"), "{text}");
}

/// The `/` menu lists `/status` (it was dispatch-only) with its localized
/// description.
#[test]
fn slash_menu_offers_the_status_dialog() {
    let mut app = test_app();
    app.draft.input.set("/status".into());

    let matches = app.slash_matches();
    assert_eq!(matches.len(), 1);
    assert_eq!(matches[0].name, "status");
    assert_eq!(matches[0].usage, "/status");
    assert_eq!(
        matches[0].desc,
        "run state, model and the live usage counters"
    );

    app.locale = Locale::Zh;
    assert_eq!(app.slash_matches()[0].desc, "状态、模型和实时用量统计");
}

/// A new session greets with one usage hint in the timeline — the line the
/// composer cap row used to rotate live — and the next `/new` walks on to
/// the following hint instead of repeating the first.
#[test]
fn new_session_greets_with_the_next_usage_hint() {
    let mut app = test_app();
    app.locale = Locale::En;
    app.transcript.push_user("a previous prompt".into(), false);
    let greeting = |app: &App| -> String {
        let first = app.transcript.cells.first().expect("greeting cell");
        let CellKind::MarkdownNotice { text } = &first.kind else {
            panic!("the greeting should be markdown, got {:?}", first.kind);
        };
        text.clone()
    };

    app.run_slash("new", "");
    app.handle(AppEvent::Ctl(CtlEvent::SessionBound {
        session_id: "first-new".into(),
        notice: None,
        model: None,
        effort: None,
    }));
    assert_eq!(
        greeting(&app),
        "- **Tip** · esc interrupts a running turn — your draft survives"
    );

    app.run_slash("new", "");
    app.handle(AppEvent::Ctl(CtlEvent::SessionBound {
        session_id: "second-new".into(),
        notice: None,
        model: None,
        effort: None,
    }));
    assert_eq!(
        greeting(&app),
        "- **Tip** · enter queues a follow-up; ctrl+enter steers the active turn now"
    );
}
