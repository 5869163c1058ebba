use abylab_tui::app::App;
use abylab_tui::app::state::{Host, RunState};
use abylab_tui::appearance::{Mode, PalettePack};
use abylab_tui::bus::{AppEvent, Cmd, CtlEvent, SessionListItem};
use abylab_tui::commands::Phrases;
use abylab_tui::controller::Effect;
use abylab_tui::events::UiEvent;
use abylab_tui::input::keys::{KeyCode, KeyEvent, KeyModifiers};
use abylab_tui::input::normalize::ModifierState;
use abylab_tui::locale::Locale;
use abylab_tui::picker::{Picker, PickerItem, PickerKind};
use abylab_tui::runtime::{Flags, RuntimeConfig, UiSettings};
use abylab_tui::transcript::CellKind;

fn host() -> Host {
    Host {
        now: 10_000,
        held: ModifierState::default(),
        known_modes: None,
        branch: None,
        mac: false,
    }
}

fn phrases() -> Phrases {
    Phrases {
        tips_en: vec![
            "esc interrupts a running turn — your draft survives".into(),
            "enter queues a follow-up; ctrl+enter steers the active turn now".into(),
        ],
        tips_zh: vec!["esc 中断".into(), "enter 排队".into()],
        commands_zh: vec![
            ("vim".into(), "切换 vim 模态编辑（默认关闭）".into()),
            ("status".into(), "状态、模型和实时用量统计".into()),
        ],
    }
}

fn packs() -> Vec<PalettePack> {
    ["default", "ayu", "one", "nord"]
        .iter()
        .map(|id| PalettePack { id: id.to_string(), label: id.to_string() })
        .collect()
}

fn settings() -> UiSettings {
    UiSettings {
        language: Locale::En,
        model: None,
        effort: None,
        permission: None,
        theme: None,
        palette: None,
    }
}

fn test_cfg() -> RuntimeConfig {
    RuntimeConfig {
        workspace: "/w".into(),
        home: "/home/me/.abylab".into(),
        sessions_root: "/home/me/.abylab/sessions".into(),
        provider: "deepseek-official".into(),
        model: "deepseek-v4-flash".into(),
        max_tokens: None,
        base_url: None,
        api_key: None,
        key_origin: None,
        flags: Flags {
            model: false,
            theme: false,
        },
    }
}

fn new_app(cfg: RuntimeConfig, id: &str) -> App {
    App::new(
        packs(),
        Mode::Dark,
        "default".into(),
        phrases(),
        cfg,
        id.into(),
        settings(),
        false,
        host(),
    )
}

fn test_app() -> App {
    new_app(test_cfg(), "dsh-current")
}

fn try_recv(app: &mut App) -> Result<Cmd, ()> {
    let at = app
        .ctl
        .effects
        .iter()
        .position(|effect| matches!(effect, Effect::Send(_)))
        .ok_or(())?;
    match app.ctl.effects.remove(at) {
        Effect::Send(cmd) => Ok(cmd),
        _ => Err(()),
    }
}

fn try_iter(app: &mut App) -> Vec<Cmd> {
    let mut sent = Vec::new();
    while let Ok(cmd) = try_recv(app) {
        sent.push(cmd);
    }
    sent
}

/// Leaving prints the session that was on screen — a `/resume` switch moves
/// the id — plus the two ways back, in the interface language.
#[test]
fn the_exit_notice_names_the_session_and_the_way_back() {
    let mut app = test_app();
    for (locale, id) in [
        (Locale::En, "dsh-current"),
        (Locale::Zh, "aby-20250101-1200-a1b2"),
    ] {
        app.locale = locale;
        app.session.session_id = id.into();
        let notice = app.exit_notice();
        assert_eq!(
            notice.lines().count(),
            2,
            "the id, then the way back: {notice}"
        );
        assert!(notice.contains(id), "{notice}");
        assert!(
            notice.contains(&format!("abylab --session-id {id}")),
            "the resume command carries the exact id: {notice}"
        );
        assert!(notice.contains("/resume"), "{notice}");
    }
}

#[test]
fn keys_slash_opens_a_local_modal_without_polluting_the_timeline() {
    let mut app = test_app();
    let cells_before = app.transcript.cells.len();
    app.draft.input.set("/keys".into());

    app.handle_key(&KeyEvent::new(KeyCode::Enter, KeyModifiers::none()));

    assert_eq!(
        app.transcript.cells.len(),
        cells_before,
        "/keys is chrome and must not enter the conversation timeline"
    );
    let overlay = app.panels.view_overlay.as_ref().expect("/keys modal should open");
    assert_eq!(overlay.title, "Keyboard shortcuts");
    let text = overlay.text.clone();
    assert!(text.contains("ctrl+q"), "quit binding missing:\n{text}");

    app.handle_key(&KeyEvent::new(KeyCode::End, KeyModifiers::none()));
    assert_eq!(app.panels.view_overlay.as_ref().unwrap().scroll, usize::MAX);
    assert!(
        text.contains("shift+tab") && text.contains("permission"),
        "permission binding missing:\n{text}"
    );

    app.handle_key(&KeyEvent::new(KeyCode::Esc, KeyModifiers::none()));
    assert!(app.panels.view_overlay.is_none(), "esc closes the local modal");
    assert!(
        try_recv(&mut app).is_err(),
        "closing a builtin modal must not emit a plugin overlay event"
    );
}

/// `/help` uses the same local modal as `/keys`: a dialog over the chat,
/// never a timeline entry.
#[test]
fn help_slash_opens_a_local_modal_without_polluting_the_timeline() {
    let mut app = test_app();
    let cells_before = app.transcript.cells.len();
    app.draft.input.set("/help".into());

    app.handle_key(&KeyEvent::new(KeyCode::Enter, KeyModifiers::none()));

    assert_eq!(
        app.transcript.cells.len(),
        cells_before,
        "/help is chrome and must not enter the conversation timeline"
    );
    let overlay = app.panels.view_overlay.as_ref().expect("/help modal should open");
    assert_eq!(overlay.title, "Help");
    let text = &overlay.text;
    assert!(text.contains("ctrl+enter"), "binding missing:\n{text}");
    assert!(text.contains("!cmd"), "shell hint missing:\n{text}");
    assert!(
        !text.contains("## help"),
        "the border names the dialog — no repeated heading:\n{text}"
    );

    app.handle_key(&KeyEvent::new(KeyCode::Esc, KeyModifiers::none()));
    assert!(app.panels.view_overlay.is_none(), "esc closes the local modal");
    assert!(
        try_recv(&mut app).is_err(),
        "closing a builtin modal must not emit a plugin overlay event"
    );
}

#[test]
fn failed_session_switch_preserves_history_identity_and_draft() {
    for new_session in [false, true] {
        let mut app = test_app();
        let previous = app.session.session_id.clone();
        app.transcript.push_user("original history".into(), false);
        if new_session {
            app.run_slash("new", "");
            assert!(matches!(try_recv(&mut app), Ok(Cmd::NewSession)));
        } else {
            app.load_acp_session("target");
            assert!(
                matches!(try_recv(&mut app), Ok(Cmd::LoadSession { session_id }) if session_id == "target")
            );
        }
        app.draft.input.set("unsent draft".into());
        app.submit();
        app.send_now();
        assert_eq!(app.draft.input.buf(), "unsent draft");
        assert!(try_recv(&mut app).is_err(), "no prompts during a switch");
        app.handle(AppEvent::Ctl(CtlEvent::TuiOpFailed("unrelated operation".into())));
        assert!(
            app.session.session_switch.is_some(),
            "unrelated failures cannot acknowledge the switch"
        );
        app.handle(AppEvent::Ctl(CtlEvent::SessionSwitchFailed("cannot load target".into())));
        assert!(app.session.session_switch.is_none());
        assert_eq!(app.session.session_id, previous);
        assert!(app.session.session_bound);
        assert!(app.transcript.cells.iter().any(|cell| matches!(&cell.kind,
            CellKind::User { text, .. } if text == "original history")));
        assert_eq!(app.draft.input.buf(), "unsent draft");
    }
}

#[test]
fn resume_ack_commits_the_view_and_never_moves_the_old_queue_to_the_new_session() {
    let mut app = test_app();
    let previous = app.session.session_id.clone();
    app.session.state = RunState::Running;
    app.send_agent_text("queued for old session".into());
    app.load_acp_session("target");
    assert!(matches!(try_recv(&mut app), Ok(Cmd::LoadSession { .. })));
    app.handle(AppEvent::Ui(UiEvent::SessionStatus {
        session: previous.clone(),
        running: false,
    }));
    assert_eq!(app.session.session_id, previous);
    assert_eq!(app.queue.queued, 1);
    assert!(
        try_recv(&mut app).is_err(),
        "idle must not dispatch through a pending switch"
    );
    app.handle(AppEvent::Ctl(CtlEvent::SessionBound {
        session_id: "target".into(),
        notice: None,
        model: None,
        effort: None,
    }));
    assert_eq!(app.session.session_id, "target");
    assert_eq!(app.queue.queued, 0);
    assert!(app.transcript.cells.is_empty());
    app.handle(AppEvent::Ui(UiEvent::UserMessage {
        session: "target".into(),
        text: "restored history".into(),
    }));
    app.draft.input.set("new draft".into());
    app.submit();
    let sent: Vec<_> = try_iter(&mut app).into_iter().collect();
    assert_eq!(
        sent.iter()
            .filter(|cmd| matches!(cmd, Cmd::Prompt { .. }))
            .count(),
        1
    );
    assert!(sent.iter().any(|cmd| matches!(cmd, Cmd::Prompt { session_id, text } if session_id == "target" && text == "new draft")));
}

#[test]
fn a_failed_switch_resumes_the_previous_sessions_queue() {
    let mut app = test_app();
    let previous = app.session.session_id.clone();
    app.session.state = RunState::Running;
    app.send_agent_text("queued for old session".into());
    app.load_acp_session("target");
    app.handle(AppEvent::Ui(UiEvent::SessionStatus {
        session: previous.clone(),
        running: false,
    }));
    app.handle(AppEvent::Ctl(CtlEvent::SessionSwitchFailed("cannot load target".into())));
    assert_eq!(app.session.session_id, previous);
    assert_eq!(app.queue.queued, 0);
    assert!(try_iter(&mut app).into_iter().any(|cmd| matches!(cmd, Cmd::Prompt { session_id, text } if session_id == previous && text == "queued for old session")));
}

#[test]
fn resume_picker_lists_sessions_and_prefix_resolves() {
    let mut app = test_app();

    app.run_slash("resume", "");
    // The driver-backed path: the SessionList rows open the picker.
    app.handle(AppEvent::Ctl(CtlEvent::SessionList {
        sessions: vec![SessionListItem {
            id: "dsh-alpha".into(),
            title: Some("fix failing tests".into()),
            updated_at: None,
        }],
        prefix: None,
    }));
    let picker = app.panels.picker.as_ref().expect("picker opens");
    assert!(matches!(picker.kind, PickerKind::Session));
    assert_eq!(picker.items[0].id, "dsh-alpha");
    // The human handle is the label; the meta carries the short id.
    assert_eq!(picker.items[0].label, "fix failing tests", "title as label");
    assert!(
        picker.items[0].meta.contains("dsh-alp"),
        "short id in meta: {}",
        picker.items[0].meta
    );
    assert!(
        picker.title.contains('1'),
        "picker title counts sessions: {}",
        picker.title
    );
    app.panels.picker = None;

    // unique prefix resolves; unknown id warns and keeps the session
    app.run_slash("resume", "dsh-al");
    app.handle(AppEvent::Ctl(CtlEvent::SessionList {
        sessions: vec![SessionListItem {
            id: "dsh-alpha".into(),
            title: None,
            updated_at: None,
        }],
        prefix: Some("dsh-al".into()),
    }));
    assert_ne!(
        app.session.session_id, "dsh-alpha",
        "wait for the driver's acknowledgement"
    );
    app.handle(AppEvent::Ctl(CtlEvent::SessionBound {
        session_id: "dsh-alpha".into(),
        notice: None,
        model: None,
        effort: None,
    }));
    assert_eq!(app.session.session_id, "dsh-alpha");
    app.run_slash("resume", "nope");
    assert_eq!(app.session.session_id, "dsh-alpha", "unknown prefix leaves session");
}

#[test]
fn resume_with_no_sessions_notices_instead_of_picker() {
    let mut app = test_app();
    app.run_slash("resume", "");
    assert!(app.panels.picker.is_none(), "no picker without sessions");
}

#[test]
fn picker_page_keys_jump_a_screenful_and_home_end_pin_the_ends() {
    let mut app = test_app();
    app.panels.picker = Some(Picker {
        kind: PickerKind::Session,
        title: " resume session · 40 sessions · enter select · esc close ".into(),
        sel: 0,
        items: (0..40)
            .map(|i| PickerItem {
                id: format!("s{i:02}"),
                label: format!("session {i:02}"),
                meta: String::new(),
                provider: None,
            })
            .collect(),
    });
    // The draw pass records how many rows the popup shows; page keys
    // move exactly that far (a 10-row popup in this test).
    app.panels.picker_page_rows = 10;

    let key = |app: &mut App, code: KeyCode| {
        app.handle_key(&KeyEvent::new(code, KeyModifiers::none()));
    };

    key(&mut app, KeyCode::PageDown);
    assert_eq!(app.panels.picker.as_ref().unwrap().sel, 10, "page down");
    key(&mut app, KeyCode::PageDown);
    assert_eq!(app.panels.picker.as_ref().unwrap().sel, 20, "page down again");
    key(&mut app, KeyCode::End);
    assert_eq!(app.panels.picker.as_ref().unwrap().sel, 39, "end pins the tail");
    key(&mut app, KeyCode::PageUp);
    assert_eq!(app.panels.picker.as_ref().unwrap().sel, 29, "page up");
    key(&mut app, KeyCode::Home);
    assert_eq!(app.panels.picker.as_ref().unwrap().sel, 0, "home pins the head");
    key(&mut app, KeyCode::PageUp);
    assert_eq!(
        app.panels.picker.as_ref().unwrap().sel,
        0,
        "page up sticks at head"
    );
    key(&mut app, KeyCode::Up);
    assert_eq!(app.panels.picker.as_ref().unwrap().sel, 39, "↑ still wraps");
}
