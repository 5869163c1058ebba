use abylab_tui::app::state::{Host, RunState, SessionSwitch};
use abylab_tui::app::{App, QUIT_CONFIRM_WINDOW};
use abylab_tui::appearance::{Mode, PalettePack};
use abylab_tui::bus::{
    AppEvent, Cmd, CtlEvent, MouseButton, MouseEvent, MouseEventKind, PermissionAskOption,
    PermissionAskReply, SkillInfo, TermEvent,
};
use abylab_tui::commands::{is_builtin, Phrases};
use abylab_tui::controller::Effect;
use abylab_tui::events::UiEvent;
use abylab_tui::input::keymap::{key_rows, Action};
use abylab_tui::input::keys::{KeyCode, KeyEvent, KeyModifiers};
use abylab_tui::input::normalize::ModifierState;
use abylab_tui::locale::Locale;
use abylab_tui::runtime::{Flags, RuntimeConfig, UiSettings};
use abylab_tui::selection::Rect;
use abylab_tui::staging::{split_draft_into_staged_blocks, StagedBlock};

fn host() -> Host {
    Host {
        now: 10_000,
        held: ModifierState::default(),
        known_modes: None,
        branch: None,
        mac: false,
    }
}

fn phrases() -> Phrases {
    Phrases {
        tips_en: vec![
            "esc interrupts a running turn — your draft survives".into(),
            "enter queues a follow-up; ctrl+enter steers the active turn now".into(),
        ],
        tips_zh: vec!["esc 中断".into(), "enter 排队".into()],
        commands_zh: vec![
            ("vim".into(), "切换 vim 模态编辑（默认关闭）".into()),
            ("status".into(), "状态、模型和实时用量统计".into()),
        ],
    }
}

fn packs() -> Vec<PalettePack> {
    ["default", "ayu", "one", "nord"]
        .iter()
        .map(|id| PalettePack { id: id.to_string(), label: id.to_string() })
        .collect()
}

fn settings() -> UiSettings {
    UiSettings {
        language: Locale::En,
        model: None,
        effort: None,
        permission: None,
        theme: None,
        palette: None,
    }
}

fn test_cfg() -> RuntimeConfig {
    RuntimeConfig {
        workspace: "/tmp".into(),
        home: "/home/me/.abylab".into(),
        sessions_root: "/home/me/.abylab/sessions".into(),
        provider: "deepseek-official".into(),
        model: "deepseek-v4-flash".into(),
        max_tokens: None,
        base_url: None,
        api_key: None,
        key_origin: None,
        flags: Flags {
            model: false,
            theme: false,
        },
    }
}

fn new_app(cfg: RuntimeConfig, id: &str) -> App {
    App::new(
        packs(),
        Mode::Dark,
        "default".into(),
        phrases(),
        cfg,
        id.into(),
        settings(),
        false,
        host(),
    )
}

fn test_app() -> App {
    new_app(test_cfg(), "dsh-test")
}

fn sends(app: &App) -> usize {
    app.ctl.effects.iter().filter(|e| matches!(e, Effect::Send(_))).count()
}

#[test]
fn the_command_menu_lists_builtins_alone() {
    let mut app = test_app();
    app.session.skills.push(SkillInfo {
        name: "login-helper".into(),
        description: "a skill".into(),
        input_hint: None,
        source: None,
    });
    app.draft.input.insert_str("/log");
    let rows = app.slash_matches();
    assert!(!rows.is_empty());
    assert!(rows.iter().all(|row| is_builtin(&row.name)));
    assert!(rows.iter().all(|row| row.name != "login-helper"));
}

#[test]
fn the_file_menu_stays_closed_under_the_command_menu() {
    let mut app = test_app();
    app.draft.input.insert_str("/");
    app.ctl.take();
    app.refresh_file_menu();
    assert!(app.draft.file_menu.is_none());
    assert!(app.ctl.effects.is_empty());
}

#[test]
fn a_modal_keeps_clicks_from_the_chrome() {
    let mut app = test_app();
    app.panels.expand_btn = Some(Rect { x: 0, y: 0, width: 2, height: 1 });
    let press = MouseEvent { kind: MouseEventKind::Down(MouseButton::Left), column: 0, row: 0 };
    app.open_status_dialog();
    app.handle_mouse(press);
    assert!(!app.panels.composer_expanded);
    app.panels.view_overlay = None;
    app.handle_mouse(press);
    assert!(app.panels.composer_expanded);
}

#[test]
fn nothing_is_sent_while_a_switch_is_under_way() {
    let mut app = test_app();
    app.session.session_switch = Some(SessionSwitch::New);
    app.draft.input.insert_str("hello");
    app.submit();
    app.send_now();
    assert_eq!(sends(&app), 0);
    assert_eq!(app.draft.input.buf(), "hello");
}

#[test]
fn a_failed_switch_leaves_the_session_on_show() {
    let mut app = test_app();
    app.session.state = RunState::Running;
    app.session.session_switch = Some(SessionSwitch::Resume("other".into()));
    app.draft.input.insert_str("draft");
    app.handle(AppEvent::Ctl(CtlEvent::SessionSwitchFailed("gone".into())));
    assert_eq!(app.session.session_id, "dsh-test");
    assert!(app.session.session_switch.is_none());
    assert_eq!(app.draft.input.buf(), "draft");
}

#[test]
fn an_ask_that_is_replaced_is_cancelled() {
    let mut app = test_app();
    let option = |id: &str| PermissionAskOption {
        option_id: id.into(),
        name: id.into(),
        kind: "reject_once".into(),
    };
    for id in ["a", "b"] {
        app.handle(AppEvent::PermissionAsk { title: id.into(), options: vec![option(id)] });
    }
    let replies: Vec<Effect> = app
        .ctl
        .take()
        .into_iter()
        .filter(|e| matches!(e, Effect::Reply(_)))
        .collect();
    assert_eq!(replies, vec![Effect::Reply(PermissionAskReply::Cancelled)]);
    assert_eq!(app.panels.permission_ask.as_ref().map(|a| a.title.as_str()), Some("b"));
}

fn cancels(app: &App) -> bool {
    app.ctl.effects.iter().any(|e| {
        matches!(e, Effect::Interrupt) || matches!(e, Effect::Send(Cmd::Interrupt { .. }))
    })
}

fn key(code: KeyCode, modifiers: KeyModifiers) -> AppEvent {
    AppEvent::Term(TermEvent::Key(KeyEvent::new(code, modifiers)))
}

#[test]
fn only_esc_cancels_a_turn() {
    let mut app = test_app();
    app.session.state = RunState::Running;
    app.session.run_started = Some(1);
    for c in ['a', 'q', 'c', 'x', 'd'] {
        app.handle(key(KeyCode::Char(c), KeyModifiers::none()));
        app.handle(key(KeyCode::Char(c), KeyModifiers::alt()));
    }
    app.handle(key(KeyCode::Char('c'), KeyModifiers::control()));
    app.handle(AppEvent::Term(TermEvent::Paste("text".into())));
    app.handle(AppEvent::Ctl(CtlEvent::TuiOpDone("done".into())));
    app.tick();
    assert!(!cancels(&app));
    app.draft.input.clear();
    app.handle(key(KeyCode::Esc, KeyModifiers::none()));
    assert!(cancels(&app));
}

#[test]
fn the_count_goes_with_the_queue() {
    let mut app = test_app();
    app.session.state = RunState::Running;
    app.session.run_started = Some(1);
    for line in ["one", "two", "three"] {
        app.draft.input.set(line.to_string());
        app.handle(key(KeyCode::Enter, KeyModifiers::none()));
        assert_eq!(app.queue.queued, app.queue.prompt_queue.len());
    }
    assert_eq!(app.queue.queued, 3);
    app.handle(AppEvent::Ui(UiEvent::SessionStatus {
        session: "dsh-test".into(),
        running: false,
    }));
    assert_eq!(app.queue.queued, 2);
    assert_eq!(app.queue.prompt_queue.len(), 2);
    assert!(app.session.run_started.is_some());
    app.handle(AppEvent::RuntimeExited(Some(1)));
    assert_eq!(app.queue.queued, 0);
    assert!(app.queue.prompt_queue.is_empty());
    assert!(app.session.run_started.is_none());
}

#[test]
fn the_pieces_of_a_draft_spell_it() {
    let mut app = test_app();
    app.draft.input.insert_str("see ");
    for name in ["a.png", "b.png"] {
        app.stage_image(
            name.into(),
            name.into(),
            "image/png".into(),
            vec![1u8; 4],
            String::new(),
        );
    }
    let buf = app.draft.input.buf();
    let blocks = split_draft_into_staged_blocks(&buf, app.draft.pending_images.iter());
    let spelled: String = blocks
        .iter()
        .map(|b| match b {
            StagedBlock::Text(t) => t.clone(),
            StagedBlock::Image(a) => a.token.clone(),
        })
        .collect();
    let squeezed = |s: &str| s.split_whitespace().collect::<String>();
    assert_eq!(squeezed(&spelled), squeezed(&buf));
    assert_eq!(
        blocks.iter().filter(|b| matches!(b, StagedBlock::Image(_))).count(),
        2
    );
}

#[test]
fn the_quit_key_is_confirmed() {
    let mut app = test_app();
    app.dispatch(Action::Quit);
    assert!(!app.quit, "the first press only asks");
    assert!(app.tip.is_some());
    app.dispatch(Action::Quit);
    assert!(app.quit);

    let mut app = test_app();
    app.dispatch(Action::Quit);
    app.host.now += QUIT_CONFIRM_WINDOW + 1;
    app.dispatch(Action::Quit);
    assert!(!app.quit, "a press that is too late asks again");
    app.host.now += QUIT_CONFIRM_WINDOW + 1;
    app.tick();
    assert_eq!(app.quit_armed, None);
}

fn kept(app: &mut App) -> UiSettings {
    app.ctl
        .take()
        .into_iter()
        .rev()
        .find_map(|e| match e {
            Effect::SaveSettings(s) => Some(s),
            _ => None,
        })
        .unwrap()
}

#[test]
fn what_is_given_for_one_run_is_not_kept() {
    let mut cfg = test_cfg();
    cfg.model = "x".into();
    cfg.flags = Flags {
        model: true,
        theme: true,
    };
    let mut app = App::new(
        packs(),
        Mode::Light,
        "default".into(),
        phrases(),
        cfg,
        "dsh-test".into(),
        UiSettings {
            model: Some("y".into()),
            theme: Some("dark".into()),
            ..settings()
        },
        false,
        host(),
    );
    app.save_settings();
    let s = kept(&mut app);
    assert_eq!(s.model.as_deref(), Some("y"));
    assert_eq!(s.theme.as_deref(), Some("dark"));

    app.handle(AppEvent::Ctl(CtlEvent::SessionBound {
        session_id: "dsh-test".into(),
        notice: None,
        model: Some("x".into()),
        effort: None,
    }));
    assert!(app.session.cfg.flags.model, "the session runs on what was given");
    app.save_settings();
    assert_eq!(kept(&mut app).model.as_deref(), Some("y"));

    app.handle(AppEvent::Ctl(CtlEvent::SessionBound {
        session_id: "dsh-test".into(),
        notice: None,
        model: Some("z".into()),
        effort: None,
    }));
    assert_eq!(kept(&mut app).model.as_deref(), Some("z"));

    app.set_mode(Mode::Light);
    assert_eq!(kept(&mut app).theme.as_deref(), Some("light"));
}

#[test]
fn what_is_in_force_is_kept() {
    let mut cfg = test_cfg();
    cfg.model = "x".into();
    let stored = UiSettings {
        model: None,
        theme: None,
        ..settings()
    };
    let mut app = App::new(
        packs(),
        Mode::Light,
        "default".into(),
        phrases(),
        cfg,
        "dsh-test".into(),
        stored,
        false,
        host(),
    );
    app.handle(AppEvent::Ctl(CtlEvent::SessionBound {
        session_id: "dsh-test".into(),
        notice: None,
        model: Some("x".into()),
        effort: None,
    }));
    assert!(
        !app.ctl.take().iter().any(|e| matches!(e, Effect::SaveSettings(_))),
        "the model in force is no news"
    );
    app.save_settings();
    let s = kept(&mut app);
    assert_eq!(s.model.as_deref(), Some("x"));
    assert_eq!(s.theme.as_deref(), Some("light"));
}

#[test]
fn a_pick_of_the_given_model_is_a_choice() {
    let mut cfg = test_cfg();
    cfg.model = "x".into();
    cfg.flags.model = true;
    let mut app = App::new(
        packs(),
        Mode::Dark,
        "default".into(),
        phrases(),
        cfg,
        "dsh-test".into(),
        settings(),
        false,
        host(),
    );
    app.set_model("x".into());
    app.save_settings();
    assert_eq!(kept(&mut app).model.as_deref(), Some("x"));
}

#[test]
fn every_key_row_has_probes() {
    assert!(key_rows().iter().all(|row| !row.probes.is_empty()));
}
