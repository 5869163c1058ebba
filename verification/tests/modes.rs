use abylab_tui::app::App;
use abylab_tui::app::state::{Host, RunState};
use abylab_tui::appearance::{Mode, PalettePack};
use abylab_tui::bus::{AppEvent, CtlEvent, MouseButton, MouseEvent, MouseEventKind, SessionListItem};
use abylab_tui::commands::{
    Phrases, media_type_for, normalize_permission, permission_desc, permission_label,
};
use abylab_tui::controller::Effect;
use abylab_tui::events::UiEvent;
use abylab_tui::input::keys::{KeyCode, KeyEvent, KeyModifiers};
use abylab_tui::input::normalize::ModifierState;
use abylab_tui::locale::Locale;
use abylab_tui::picker::{PickerItem, PickerKind};
use abylab_tui::runtime::{Flags, RuntimeConfig, UiSettings};
use abylab_tui::selection::Rect;
use abylab_tui::transcript::{Cell, CellKind, Transcript};

fn host() -> Host {
    Host {
        now: 10_000,
        held: ModifierState::default(),
        known_modes: None,
        branch: None,
        mac: false,
    }
}

fn phrases() -> Phrases {
    Phrases {
        tips_en: vec![
            "esc interrupts a running turn — your draft survives".into(),
            "enter queues a follow-up; ctrl+enter steers the active turn now".into(),
        ],
        tips_zh: vec!["esc 中断".into(), "enter 排队".into()],
        commands_zh: vec![
            ("vim".into(), "切换 vim 模态编辑（默认关闭）".into()),
            ("status".into(), "状态、模型和实时用量统计".into()),
        ],
    }
}

fn packs() -> Vec<PalettePack> {
    ["default", "ayu", "one", "nord"]
        .iter()
        .map(|id| PalettePack { id: id.to_string(), label: id.to_string() })
        .collect()
}

fn settings() -> UiSettings {
    UiSettings {
        language: Locale::En,
        model: None,
        effort: None,
        permission: None,
        theme: None,
        palette: None,
    }
}

fn test_cfg() -> RuntimeConfig {
    RuntimeConfig {
        workspace: "/tmp".into(),
        home: "/home/me/.abylab".into(),
        sessions_root: "/home/me/.abylab/sessions".into(),
        provider: "deepseek-official".into(),
        model: "deepseek-v4-flash".into(),
        max_tokens: None,
        base_url: None,
        api_key: None,
        key_origin: None,
        flags: Flags {
            model: false,
            theme: false,
        },
    }
}

fn new_app(cfg: RuntimeConfig, id: &str) -> App {
    App::new(
        packs(),
        Mode::Dark,
        "default".into(),
        phrases(),
        cfg,
        id.into(),
        settings(),
        false,
        host(),
    )
}

fn test_app() -> App {
    new_app(test_cfg(), "dsh-test")
}

#[test]
fn mode_facts_cache_per_workspace_across_instances() {
    let mut app = new_app(test_cfg(), "s1");
    app.session.modes.effort = Some("max".into());
    app.session.modes.plan = true;
    for fact in [
        UiEvent::ApprovalPolicy { session: "s1".into(), policy: "ask".into() },
        UiEvent::PermissionPreset { session: "s1".into(), preset: "workspace-write".into() },
    ] {
        app.handle(AppEvent::Ui(fact));
    }
    let kept = app
        .ctl
        .take()
        .into_iter()
        .filter_map(|effect| match effect {
            Effect::SaveModes(modes) => Some(modes),
            _ => None,
        })
        .last()
        .expect("changed modes are left to be kept");

    // A second instance in the same workspace boots with the cached
    // facts — except plan, which never carries over.
    let app2 = App::new(
        packs(),
        Mode::Dark,
        "default".into(),
        phrases(),
        test_cfg(),
        "s2".into(),
        settings(),
        false,
        Host { known_modes: Some(kept), ..host() },
    );
    assert_eq!(app2.session.modes.approval.as_deref(), Some("ask"));
    assert_eq!(app2.session.modes.permission.as_deref(), Some("workspace-write"));
    assert_eq!(app2.session.modes.effort.as_deref(), Some("max"));
    assert!(!app2.session.modes.plan, "plan is per-session");

    // A workspace that nothing is known of starts without.
    let app3 = new_app(test_cfg(), "s3");
    assert!(app3.session.modes.permission.is_none(), "cache is per workspace");
}

/// The launch splash reports the four facts a user wants before the first
/// prompt: build version, working directory, permission preset, model.
/// A preset cached from an earlier run is what the splash names.
#[test]
fn splash_reports_version_cwd_permission_and_model() {
    let mut app = new_app(test_cfg(), "s1");
    app.session.modes.permission = Some("workspace-write".into());
    app.session.modes.effort = Some("max".into());
    app.push_banner("1.2.3");

    assert_eq!(
        banner_facts(&app),
        vec![
            ("version".to_string(), "1.2.3".to_string()),
            ("cwd".to_string(), "/tmp".to_string()),
            ("permission".to_string(), "workspace-write".to_string()),
            (
                "model".to_string(),
                "deepseek-v4-flash · effort max".to_string()
            ),
        ]
    );

    // The labels follow the interface language; the values do not — the
    // one exception is the effort word, which is a label of its own.
    let mut zh = test_app();
    zh.locale = Locale::Zh;
    zh.session.modes.effort = Some("max".into());
    zh.push_banner("1.2.3");
    let facts = banner_facts(&zh);
    let labels: Vec<String> = facts.iter().map(|(l, _)| l.clone()).collect();
    assert_eq!(labels, ["版本", "工作目录", "权限", "模型"]);
    assert_eq!(
        facts[3].1, "deepseek-v4-flash · 推理强度 max",
        "zh names the effort"
    );
}

/// `/resume` mid-turn: the picker opens as soon as the driver's listing
/// lands (the driver answers store queries off its turn loop), while the
/// load itself waits for the turn and says so.
#[test]
fn resume_mid_turn_lists_now_and_says_when_the_load_lands() {
    let mut app = test_app();
    app.locale = Locale::Zh;
    app.session.state = RunState::Running;
    app.session.run_started = Some(10_000);
    assert!(app.turn_busy());

    app.run_slash("resume", "");
    assert_eq!(
        app.tip.as_ref().map(|(text, _)| text.as_str()),
        Some("正在列出会话…")
    );
    assert!(app.panels.picker.is_none(), "the picker waits for the listing");

    app.handle(AppEvent::Ctl(CtlEvent::SessionList {
        sessions: vec![SessionListItem {
            id: "aby-1".into(),
            title: Some("修复登录".into()),
            updated_at: None,
        }],
        prefix: None,
    }));
    let picker = app.panels.picker.as_ref().expect("the listing opens the picker");
    assert!(matches!(picker.kind, PickerKind::Session));
    assert_eq!(picker.items[0].id, "aby-1");

    // Picking one hands it to the driver, which is busy: the tip names the
    // wait instead of pretending the load already started.
    app.handle_picker_key(&KeyEvent::new(KeyCode::Enter, KeyModifiers::none()));
    let tip = app
        .tip
        .as_ref()
        .map(|(text, _)| text.clone())
        .unwrap_or_default();
    assert!(tip.starts_with("正在加载会话 aby-1 …"), "{tip}");
    assert!(tip.ends_with("（本轮结束后）"), "{tip}");
}

/// `/lang` retells every timeline the app paints — the root one and each
/// subagent's — so the next notice already speaks the new language, and a
/// subagent that starts later is born in it.
#[test]
fn lang_switch_retells_the_timelines() {
    let mut app = test_app();
    app.locale = Locale::En;
    app.transcript.set_locale(Locale::En);
    app.apply_ui(UiEvent::SubagentStarted {
        parent: "dsh-test".into(),
        child: "child-1".into(),
        label: None,
    });

    app.run_slash("lang", "zh");
    assert_eq!(app.locale, Locale::Zh);

    app.apply_ui(UiEvent::SessionTitle {
        session: "dsh-test".into(),
        title: "修复登录".into(),
    });
    app.apply_ui(UiEvent::SessionTitle {
        session: "child-1".into(),
        title: "子会话".into(),
    });
    let notices = |tr: &Transcript| -> Vec<String> {
        tr.cells
            .iter()
            .filter_map(|cell| match &cell.kind {
                CellKind::Notice { text, .. } => Some(text.clone()),
                _ => None,
            })
            .collect()
    };
    assert!(
        notices(&app.transcript).contains(&"会话 · 修复登录".to_string()),
        "{:?}",
        notices(&app.transcript)
    );
    let child = app
        .subagents
        .iter()
        .find(|view| view.id == "child-1")
        .expect("subagent view");
    assert!(
        notices(&child.transcript).contains(&"会话 · 子会话".to_string()),
        "{:?}",
        notices(&child.transcript)
    );

    // A subagent that starts after the switch is born in the new language.
    app.apply_ui(UiEvent::SubagentStarted {
        parent: "dsh-test".into(),
        child: "child-2".into(),
        label: None,
    });
    app.apply_ui(UiEvent::SessionTitle {
        session: "child-2".into(),
        title: "第二个".into(),
    });
    let fresh = app
        .subagents
        .iter()
        .find(|view| view.id == "child-2")
        .expect("second subagent view");
    assert!(
        notices(&fresh.transcript).contains(&"会话 · 第二个".to_string()),
        "the new timeline follows /lang: {:?}",
        notices(&fresh.transcript)
    );
}

/// Client-side command feedback speaks the interface language: the same
/// commands an English session answers in English answer a Chinese one in
/// Chinese (the values they carry stay identifiers).
#[test]
fn command_feedback_follows_the_interface_language() {
    let mut app = test_app();
    app.locale = Locale::Zh;
    let tip = |app: &App| app.tip.as_ref().map(|(text, _)| text.clone());

    app.run_slash("image", "");
    assert_eq!(
        tip(&app).as_deref(),
        Some("/image 需要路径 —— /image ./pic.png [说明]")
    );

    app.run_slash("image", "./missing.mp3");
    assert_eq!(
        tip(&app).as_deref(),
        Some("不支持的图片格式 —— 请用 .png .jpg .jpeg .webp .gif")
    );

    app.run_slash("theme", "nope");
    assert_eq!(tip(&app).as_deref(), Some("未知主题包: nope"));
    let notices: Vec<String> = app
        .transcript
        .cells
        .iter()
        .filter_map(|cell| match &cell.kind {
            CellKind::Notice { text, .. } => Some(text.clone()),
            _ => None,
        })
        .collect();
    assert!(
        notices.contains(&"未知主题包 `nope`".to_string()),
        "{notices:?}"
    );

    app.run_slash("clear", "");
    assert!(notices_tail(&app).contains(&"滚动区已清空".to_string()));

    // An empty store notices instead of opening a picker, in zh too.
    app.run_slash("resume", "");
    app.handle(AppEvent::Ctl(CtlEvent::SessionList {
        sessions: vec![],
        prefix: None,
    }));
    assert!(
        notices_tail(&app)
            .contains(&"这个工作区还没有持久会话 —— 先跑完一轮，/resume 就能看到".to_string()),
        "{:?}",
        notices_tail(&app)
    );
}

/// The notices currently in the timeline, newest last.
fn notices_tail(app: &App) -> Vec<String> {
    app.transcript
        .cells
        .iter()
        .filter_map(|cell| match &cell.kind {
            CellKind::Notice { text, .. } => Some(text.clone()),
            _ => None,
        })
        .collect()
}

/// The facts the splash cell carries, in paint order.
fn banner_facts(app: &App) -> Vec<(String, String)> {
    app.transcript
        .cells
        .iter()
        .find_map(|cell| match &cell.kind {
            CellKind::Banner { facts, .. } => Some(facts.clone()),
            _ => None,
        })
        .expect("splash banner")
}

#[test]
fn selected_model_clears_once_a_turn_streams_on_it() {
    let mut app = test_app();
    app.set_model("deepseek-v4-pro".into());
    assert_eq!(app.session.selected_model.as_deref(), Some("deepseek-v4-pro"));
    // The next turn streams on the picked model → the pick is realized
    // and the stream fact takes over.
    app.transcript.last_model = Some("deepseek-v4-pro".into());
    app.handle(AppEvent::Ctl(CtlEvent::TuiOpDone("noop".into())));
    assert_eq!(
        app.session.selected_model, None,
        "realized pick defers to the stream"
    );
}

#[test]
fn slash_menu_offers_the_client_language_switch() {
    let mut app = test_app();
    app.draft.input.set("/lang".into());

    let matches = app.slash_matches();

    assert_eq!(matches.len(), 1);
    assert_eq!(matches[0].name, "lang");
    assert_eq!(matches[0].usage, "/lang [zh|en]");
}

/// `/vim` was dispatch-only — typing it worked, but the `/` menu never
/// listed it. Both halves are pinned here: the row exists (with its
/// localized description) and the bare command still toggles.
#[test]
fn slash_menu_offers_the_vim_toggle() {
    let mut app = test_app();
    app.draft.input.set("/vim".into());

    let matches = app.slash_matches();
    assert_eq!(matches.len(), 1);
    assert_eq!(matches[0].name, "vim");
    assert_eq!(matches[0].usage, "/vim [on|off]");
    assert_eq!(matches[0].desc, "toggle vim modal editing in the composer");

    app.locale = Locale::Zh;
    assert_eq!(
        app.slash_matches()[0].desc,
        "切换 vim 模态编辑（默认关闭）",
        "the menu uses the zh description"
    );

    app.run_slash("vim", "");
    assert!(app.draft.vim.is_active(), "a bare /vim toggles it on");
    app.run_slash("vim", "off");
    assert!(!app.draft.vim.is_active(), "/vim off turns it off");
}

#[test]
fn lang_switch_repaints_immediately_and_persists_for_the_workspace() {
    let mut app = new_app(test_cfg(), "s1");
    app.needs_redraw = false;

    app.run_slash("lang", "zh");

    assert!(app.needs_redraw);
    assert_eq!(app.locale, Locale::Zh);
    let kept = app
        .ctl
        .take()
        .into_iter()
        .find_map(|effect| match effect {
            Effect::SaveSettings(kept) => Some(kept),
            _ => None,
        })
        .expect("the preferences are left to be kept");
    assert_eq!(
        kept.language,
        Locale::Zh,
        "/lang persists the language for the workspace"
    );

    let restarted = App::new(
        packs(),
        Mode::Dark,
        "default".into(),
        phrases(),
        test_cfg(),
        "s2".into(),
        kept,
        false,
        host(),
    );
    assert_eq!(restarted.locale, Locale::Zh);
}

#[test]
fn child_session_updates_do_not_enter_the_parent_transcript() {
    let mut app = test_app();
    app.apply_ui(UiEvent::SubagentStarted {
        parent: "dsh-test".into(),
        child: "child-1".into(),
        label: None,
    });
    app.apply_ui(UiEvent::TextDelta {
        session: "child-1".into(),
        text: "child-only output".into(),
    });

    assert!(
        !told(&app.transcript.cells, "child-only output"),
        "child content must stay out of the parent transcript"
    );
}

/// Whether a timeline holds a prompt or a stretch of answer of that text.
fn told(cells: &[Cell], wanted: &str) -> bool {
    cells.iter().any(|cell| match &cell.kind {
        CellKind::User { text, .. } => text == wanted,
        CellKind::Fact(UiEvent::TextDelta { text, .. }) => text == wanted,
        _ => false,
    })
}

#[test]
fn a_running_subagent_keeps_the_spinner_advancing() {
    let mut app = test_app();
    app.apply_ui(UiEvent::SubagentStarted {
        parent: "dsh-test".into(),
        child: "child-1".into(),
        label: None,
    });
    let before = app.spinner_idx;

    app.tick();

    assert_ne!(app.spinner_idx, before);
}

#[test]
fn down_on_an_empty_prompt_opens_the_agent_switcher() {
    let mut app = test_app();
    app.apply_ui(UiEvent::SubagentStarted {
        parent: "dsh-test".into(),
        child: "child-1".into(),
        label: None,
    });

    app.handle_key(&KeyEvent::new(KeyCode::Down, KeyModifiers::none()));

    let picker = app.panels.picker.as_ref().expect("agent switcher opens");
    assert!(picker.title.contains("agents"));
    let ids: Vec<&str> = picker.items.iter().map(|item| item.id.as_str()).collect();
    assert_eq!(ids, ["dsh-test", "child-1"]);
}

#[test]
fn enter_from_the_agent_switcher_opens_the_child_transcript() {
    let mut app = test_app();
    app.transcript.push_user("main-only text".into(), false);
    app.apply_ui(UiEvent::SubagentStarted {
        parent: "dsh-test".into(),
        child: "child-1".into(),
        label: None,
    });
    app.apply_ui(UiEvent::TextDelta {
        session: "child-1".into(),
        text: "child-only output".into(),
    });
    app.handle_key(&KeyEvent::new(KeyCode::Down, KeyModifiers::none()));
    app.handle_key(&KeyEvent::new(KeyCode::Enter, KeyModifiers::none()));

    let shown = &app.displayed_transcript().cells;
    assert!(told(shown, "child-only output"));
    assert!(!told(shown, "main-only text"));
}

#[test]
fn esc_from_a_child_transcript_returns_to_main() {
    let mut app = test_app();
    app.transcript.push_user("main-only text".into(), false);
    app.apply_ui(UiEvent::SubagentStarted {
        parent: "dsh-test".into(),
        child: "child-1".into(),
        label: None,
    });
    app.apply_ui(UiEvent::TextDelta {
        session: "child-1".into(),
        text: "child-only output".into(),
    });
    app.handle_key(&KeyEvent::new(KeyCode::Down, KeyModifiers::none()));
    app.handle_key(&KeyEvent::new(KeyCode::Enter, KeyModifiers::none()));

    app.handle_key(&KeyEvent::new(KeyCode::Esc, KeyModifiers::none()));

    let shown = &app.displayed_transcript().cells;
    assert!(told(shown, "main-only text"));
    assert!(!told(shown, "child-only output"));
}

#[test]
fn child_transcript_view_does_not_accept_composer_input() {
    let mut app = test_app();
    app.apply_ui(UiEvent::SubagentStarted {
        parent: "dsh-test".into(),
        child: "child-1".into(),
        label: None,
    });
    app.handle_key(&KeyEvent::new(KeyCode::Down, KeyModifiers::none()));
    app.handle_key(&KeyEvent::new(KeyCode::Enter, KeyModifiers::none()));

    app.handle_key(&KeyEvent::new(KeyCode::Char('x'), KeyModifiers::none()));
    app.handle_key(&KeyEvent::new(KeyCode::Enter, KeyModifiers::none()));

    assert!(
        app.draft.input.is_empty(),
        "child view must not edit the main draft"
    );
    assert!(
        app.transcript.cells.iter().all(|cell| !matches!(
            &cell.kind,
            CellKind::User { text, .. } if text == "x"
        )),
        "child view must not submit a main-session prompt"
    );
}

/// A child view replaces the composer, so a frame without a well must
/// clear the mouse seam: a click where the parent's well used to be can
/// neither move the main draft's caret nor arm a drag.
#[test]
fn a_child_view_frame_clears_the_well_hit_target() {
    let mut app = test_app();
    app.draft.input.set("parent draft".into());
    let well = Rect { x: 0, y: 20, width: 100, height: 3 };
    app.draft.area = well;

    app.apply_ui(UiEvent::SubagentStarted {
        parent: "dsh-test".into(),
        child: "child-1".into(),
        label: None,
    });
    // The switcher's ↓ only opens on an empty draft, so take the view the
    // way it lands it and keep the parent draft in place.
    app.active_subagent = Some("child-1".into());
    assert_eq!(app.active_subagent.as_deref(), Some("child-1"));

    // A frame without a well leaves none to hit.
    app.draft.area = Rect::none();

    let caret = app.draft.input.cursor_char();
    app.handle_mouse(MouseEvent {
        kind: MouseEventKind::Down(MouseButton::Left),
        column: well.x + 4,
        row: well.y,
    });
    assert!(!app.draft.input_selecting, "no composer drag in a child view");
    assert!(app.draft.input_sel.is_none());
    assert_eq!(app.draft.input.cursor_char(), caret, "the draft caret stays put");
}

#[test]
fn down_from_a_child_view_preselects_the_next_agent() {
    let mut app = test_app();
    for child in ["child-1", "child-2"] {
        app.apply_ui(UiEvent::SubagentStarted {
            parent: "dsh-test".into(),
            child: child.into(),
            label: None,
        });
    }
    app.handle_key(&KeyEvent::new(KeyCode::Down, KeyModifiers::none()));
    app.handle_key(&KeyEvent::new(KeyCode::Enter, KeyModifiers::none()));
    assert_eq!(app.active_subagent.as_deref(), Some("child-1"));

    app.handle_key(&KeyEvent::new(KeyCode::Down, KeyModifiers::none()));

    let picker = app.panels.picker.as_ref().expect("agent switcher reopens");
    assert_eq!(picker.items[picker.sel].id, "child-2");
}

#[test]
fn q_from_a_child_transcript_returns_to_main() {
    let mut app = test_app();
    app.apply_ui(UiEvent::SubagentStarted {
        parent: "dsh-test".into(),
        child: "child-1".into(),
        label: None,
    });
    app.handle_key(&KeyEvent::new(KeyCode::Down, KeyModifiers::none()));
    app.handle_key(&KeyEvent::new(KeyCode::Enter, KeyModifiers::none()));

    app.handle_key(&KeyEvent::new(KeyCode::Char('q'), KeyModifiers::none()));

    assert!(app.active_subagent.is_none());
}

#[test]
fn a_new_session_clears_the_previous_agent_views() {
    let mut app = test_app();
    app.apply_ui(UiEvent::SubagentStarted {
        parent: "dsh-test".into(),
        child: "child-1".into(),
        label: None,
    });
    assert_eq!(app.subagents.len(), 1);

    app.run_slash("new", "fresh");

    assert_eq!(
        app.subagents.len(),
        1,
        "keep the old view until the switch succeeds"
    );
    app.handle(AppEvent::Ctl(CtlEvent::SessionBound {
        session_id: "new-session".into(),
        notice: None,
        model: None,
        effort: None,
    }));
    assert!(app.subagents.is_empty());
    assert!(app.active_subagent.is_none());
}

#[test]
fn cmd_right_moves_to_the_current_wrapped_line_end_not_the_draft_end() {
    let mut app = test_app();
    app.draft.input.set("abcdefghij".into());
    app.draft.input.set_cursor_char(6);
    app.draft.wrap_width = 4;

    app.handle_key(&KeyEvent::new(KeyCode::Right, KeyModifiers::command()));

    assert_eq!(
        app.draft.input.cursor_char(),
        8,
        "second visual row ends after 'h'"
    );
    // The layout mirror keeps the upstream line-end affinity: the caret
    // sits at the end of the second visual row (row 1, display col 4).
    app.draft.input.refresh_layout(4);
    let layout = app.draft.input.layout.as_ref().expect("the mirror").map();
    let row = layout
        .rows
        .iter()
        .position(|r| r.start_char <= 8 && 8 <= r.end_char)
        .expect("cursor row in the layout mirror");
    assert_eq!(row, 1, "second visual row");
    assert_eq!(8 - layout.rows[row].start_char, 4, "display col 4");
}

#[test]
fn selecting_same_model_id_from_another_provider_switches_provider() {
    let mut app = test_app();
    app.session.cfg.provider = "coding-plan-a".into();
    app.session.cfg.model = "deepseek-v4".into();

    app.select_model(
        PickerItem {
            id: "deepseek-v4".into(),
            label: "deepseek-v4".into(),
            meta: "coding-plan-b · DeepSeek V4".into(),
            provider: Some("coding-plan-b".into()),
        });

    assert_eq!(app.session.cfg.provider, "coding-plan-b");
    assert_eq!(app.session.selected_model.as_deref(), Some("deepseek-v4"));
}

#[test]
fn live_acp_new_does_not_invent_a_local_id() {
    let mut app = test_app();
    let before = app.session.session_id.clone();
    app.run_slash("new", "fresh");
    assert_eq!(app.session.session_id, before, "ACP /new waits for session/new");
    app.handle(AppEvent::Ctl(CtlEvent::SessionBound {
        session_id: "acp-9".into(),
        notice: Some("new session · acp-9".into()),
        model: None,
        effort: None,
    }));
    assert_eq!(app.session.session_id, "acp-9");
}

#[test]
fn acp_session_list_opens_picker_and_prefix_loads() {
    let mut app = test_app();
    app.session.load_session = true;
    app.handle(AppEvent::Ctl(CtlEvent::SessionList {
        sessions: vec![
            SessionListItem {
                id: "s-old".into(),
                title: Some("hello".into()),
                updated_at: Some("yesterday".into()),
            },
            SessionListItem {
                id: "s-other".into(),
                title: None,
                updated_at: None,
            },
        ],
        prefix: None,
    }));
    let picker = app.panels.picker.as_ref().expect("ACP resume picker");
    assert_eq!(picker.items[0].label, "hello");
    assert_eq!(picker.items[1].label, "s-other");

    app.panels.picker = None;
    app.handle(AppEvent::Ctl(CtlEvent::SessionList {
        sessions: vec![SessionListItem {
            id: "s-old".into(),
            title: None,
            updated_at: None,
        }],
        prefix: Some("s-old".into()),
    }));
    assert_ne!(app.session.session_id, "s-old", "listing only requests the switch");
    app.handle(AppEvent::Ctl(CtlEvent::SessionBound {
        session_id: "s-old".into(),
        notice: None,
        model: None,
        effort: None,
    }));
    assert_eq!(app.session.session_id, "s-old");
    assert!(app.panels.picker.is_none());
}

#[test]
fn agent_caps_gate_resume_to_session_list() {
    let mut app = test_app();
    app.handle(AppEvent::Ctl(CtlEvent::AgentCaps { load_session: true }));
    assert!(app.session.load_session);
    app.run_slash("resume", "");
    assert!(
        app.panels.picker.is_none(),
        "live ACP /resume waits for session/list"
    );
}

#[test]
fn slash_permission_opens_picker_marking_current() {
    let mut app = test_app();
    app.run_slash("permission", "");
    let picker = app.panels.picker.as_ref().expect("permission picker opens");
    assert!(matches!(picker.kind, PickerKind::Permission));
    let ids: Vec<&str> = picker.items.iter().map(|i| i.id.as_str()).collect();
    assert_eq!(ids, ["read-only", "workspace-write", "danger-full-access"]);
    assert_eq!(picker.sel, 2, "danger-full-access is the default");
    assert!(
        picker.items[2].meta.contains("default"),
        "unreported → marked default"
    );

    app.session.modes.permission = Some("danger-full-access".into());
    app.run_slash("permission", "");
    let picker = app.panels.picker.as_ref().expect("picker reopens");
    assert_eq!(picker.sel, 2, "selection lands on the reported preset");
    assert!(picker.items[2].meta.contains("current"));
}

/// The picker's meanings and markers follow the interface language; the
/// preset ids never do.
#[test]
fn permission_picker_rows_speak_the_interface_language() {
    let mut app = test_app();
    app.locale = Locale::Zh;
    app.run_slash("permission", "");
    let picker = app.panels.picker.as_ref().expect("permission picker opens");
    assert_eq!(picker.sel, 2, "danger-full-access is the default");
    assert!(
        picker.items[0].meta.contains("只读"),
        "{}",
        picker.items[0].meta
    );
    assert!(
        picker.items[2].meta.contains("完全文件访问") && picker.items[2].meta.contains("默认"),
        "zh meaning + marker: {}",
        picker.items[2].meta
    );
    assert_eq!(
        picker
            .items
            .iter()
            .map(|i| i.id.as_str())
            .collect::<Vec<_>>(),
        ["read-only", "workspace-write", "danger-full-access"],
        "ids stay the ids /permission takes"
    );
    assert_eq!(
        permission_desc(Locale::Zh, "danger-full-access"),
        Some("完全文件访问 · 关闭审批 —— 仅限信任目录")
    );
    assert_eq!(
        permission_desc(Locale::En, "read-only"),
        Some("read only — no file writes")
    );
    // A preset outside the stock table carries no invented meaning.
    assert_eq!(permission_desc(Locale::Zh, "custom-preset"), None);

    app.session.modes.permission = Some("read-only".into());
    app.run_slash("permission", "");
    let picker = app.panels.picker.as_ref().expect("picker reopens");
    assert!(
        picker.items[0].meta.contains("当前"),
        "{}",
        picker.items[0].meta
    );
}

/// The slash menu's argument hints are chrome, so they translate too.
#[test]
fn slash_argument_hints_follow_the_interface_language() {
    let mut app = test_app();
    app.draft.input.set("/effort ".into());
    let en: Vec<String> = app.slash_matches().into_iter().map(|e| e.desc).collect();
    assert!(en[0].contains("disable extended reasoning"), "{en:?}");

    app.locale = Locale::Zh;
    app.draft.input.set("/effort ".into());
    let zh: Vec<String> = app.slash_matches().into_iter().map(|e| e.desc).collect();
    assert_eq!(zh, ["关闭扩展推理", "高推理强度", "最高推理强度"]);

    app.draft.input.set("/theme ".into());
    let zh: Vec<String> = app.slash_matches().into_iter().map(|e| e.desc).collect();
    assert_eq!(zh[0], "深色外观");
    assert_eq!(zh[1], "浅色外观");
    assert!(zh[2..].iter().all(|desc| desc == "主题包"), "{zh:?}");
}

#[test]
fn permission_aliases_normalize() {
    assert_eq!(normalize_permission("full"), Some("danger-full-access"));
    assert_eq!(normalize_permission("YOLO"), Some("danger-full-access"));
    assert_eq!(normalize_permission(" ws "), Some("workspace-write"));
    assert_eq!(normalize_permission("read-only"), Some("read-only"));
    assert_eq!(normalize_permission("RO"), Some("read-only"));
    assert_eq!(permission_label("read-only"), "Read Only");
    assert_eq!(permission_label("workspace-write"), "Workspace Write");
    assert_eq!(permission_label("danger-full-access"), "Full access");
}

#[test]
fn image_media_type_maps_extensions() {
    assert_eq!(media_type_for("a.png"), Some("image/png"));
    assert_eq!(media_type_for("a.JPEG"), Some("image/jpeg"));
    assert_eq!(media_type_for("/tmp/x.webp"), Some("image/webp"));
    assert_eq!(media_type_for("x.gif"), Some("image/gif"));
    assert_eq!(media_type_for("notes.txt"), None);
}

#[test]
fn slash_permission_alias_round_trips_the_durable_event() {
    let mut app = test_app();
    app.run_slash("permission", "full");
    // The driver echoes the permission facts; folding them flips the chip.
    app.handle(AppEvent::Ui(UiEvent::PermissionPreset {
        session: app.session.session_id.clone(),
        preset: "danger-full-access".into(),
    }));
    app.handle(AppEvent::Ui(UiEvent::ApprovalPolicy {
        session: app.session.session_id.clone(),
        policy: "never".into(),
    }));
    assert_eq!(app.session.modes.permission.as_deref(), Some("danger-full-access"));
    assert_eq!(app.session.modes.approval.as_deref(), Some("never"));
}

#[test]
fn shift_tab_cycles_between_the_stock_presets() {
    let mut app = test_app();
    assert_eq!(
        app.current_permission(),
        "danger-full-access",
        "assumed default"
    );

    // shift+tab sends the preset; the ack event folds the mode.
    for expected in ["read-only", "workspace-write", "danger-full-access"] {
        app.cycle_permission();
        app.handle(AppEvent::Ui(UiEvent::PermissionPreset {
            session: app.session.session_id.clone(),
            preset: expected.into(),
        }));
        assert_eq!(app.current_permission(), expected);
    }
}

#[test]
fn permission_facts_fold_the_chip_without_touching_the_timeline() {
    let mut app = test_app();
    let cells_before = app.transcript.cells.len();
    for ui in [
        UiEvent::SandboxMode {
            session: app.session.session_id.clone(),
            mode: "read-only".into(),
        },
        UiEvent::ApprovalPolicy {
            session: app.session.session_id.clone(),
            policy: "ask".into(),
        },
        UiEvent::PermissionPreset {
            session: app.session.session_id.clone(),
            preset: "read-only".into(),
        },
    ] {
        app.handle(AppEvent::Ui(ui));
    }
    assert_eq!(app.session.modes.sandbox.as_deref(), Some("read-only"));
    assert_eq!(app.session.modes.approval.as_deref(), Some("ask"));
    assert_eq!(app.session.modes.permission.as_deref(), Some("read-only"));
    assert_eq!(
        app.transcript.cells.len(),
        cells_before,
        "a switch is confirmed by the meta row's chips, not by timeline lines"
    );
}

#[test]
fn a_switch_borrows_the_tip_only_while_the_chips_are_hidden() {
    let mut app = test_app();
    // A bound session shows the permission chip, so the switch is silent.
    app.set_permission("read-only".into());
    assert!(app.tip.is_none());
    // A keyless boot has no session to chip: the staged switch keeps the
    // tip line, which is the only place left to say it.
    app.session.session_bound = false;
    app.set_permission("workspace-write".into());
    assert!(app.tip.is_some());
}
