use abylab_tui::app::App;
use abylab_tui::app::state::Host;
use abylab_tui::appearance::{Mode, PalettePack};
use abylab_tui::bus::{
    AppEvent, CatalogModel, CtlEvent, MouseButton, MouseEvent, MouseEventKind, TermEvent,
};
use abylab_tui::commands::Phrases;
use abylab_tui::events::{PlanItem, PlanProgress, PlanStatus, UiEvent};
use abylab_tui::input::keys::{KeyCode, KeyEvent, KeyModifiers};
use abylab_tui::input::normalize::ModifierState;
use abylab_tui::locale::Locale;
use abylab_tui::picker::{PickerKind, ViewOverlay};
use abylab_tui::runtime::{Flags, RuntimeConfig, UiSettings};
use abylab_tui::selection::{PromptRow, Rect};
use abylab_tui::transcript::{CellKind, NoticeLevel};

fn host() -> Host {
    Host {
        now: 10_000,
        held: ModifierState::default(),
        known_modes: None,
        branch: None,
        mac: false,
    }
}

fn phrases() -> Phrases {
    Phrases {
        tips_en: vec![
            "esc interrupts a running turn — your draft survives".into(),
            "enter queues a follow-up; ctrl+enter steers the active turn now".into(),
        ],
        tips_zh: vec!["esc 中断".into(), "enter 排队".into()],
        commands_zh: vec![
            ("vim".into(), "切换 vim 模态编辑（默认关闭）".into()),
            ("status".into(), "状态、模型和实时用量统计".into()),
        ],
    }
}

fn packs() -> Vec<PalettePack> {
    ["default", "ayu", "one", "nord"]
        .iter()
        .map(|id| PalettePack { id: id.to_string(), label: id.to_string() })
        .collect()
}

fn settings() -> UiSettings {
    UiSettings {
        language: Locale::En,
        model: None,
        effort: None,
        permission: None,
        theme: None,
        palette: None,
    }
}

fn test_cfg() -> RuntimeConfig {
    RuntimeConfig {
        workspace: "/tmp".into(),
        home: "/home/me/.abylab".into(),
        sessions_root: "/home/me/.abylab/sessions".into(),
        provider: "deepseek-official".into(),
        model: "deepseek-v4-flash".into(),
        max_tokens: None,
        base_url: None,
        api_key: None,
        key_origin: None,
        flags: Flags {
            model: false,
            theme: false,
        },
    }
}

fn new_app(cfg: RuntimeConfig, id: &str) -> App {
    App::new(
        packs(),
        Mode::Dark,
        "default".into(),
        phrases(),
        cfg,
        id.into(),
        settings(),
        false,
        host(),
    )
}

fn test_app() -> App {
    new_app(test_cfg(), "dsh-test")
}

fn rect(x: u16, y: u16, width: u16, height: u16) -> Rect {
    Rect { x, y, width, height }
}

#[test]
fn plan_snapshots_drive_the_composer_todo_line() {
    let mut app = test_app();
    let todos = vec![
        PlanItem {
            content: "inspect".into(),
            status: PlanStatus::Completed,
        },
        PlanItem {
            content: "patch".into(),
            status: PlanStatus::InProgress,
        },
        PlanItem {
            content: "test".into(),
            status: PlanStatus::Pending,
        },
    ];

    app.handle(AppEvent::Ui(UiEvent::Plan {
        session: "dsh-test".into(),
        summary: "1 of 3 done · now: patch · 1 pending".into(),
        todos: todos.clone(),
        active: Some("patch".into()),
        active_extra: 1,
        completed: 1,
        total: 3,
    }));
    assert_eq!(
        app.panels.plan,
        Some(PlanProgress {
            todos: todos.clone(),
            active: Some("patch".into()),
            active_extra: 1,
            completed: 1,
            total: 3,
        }),
        "a committed todo_write reaches the cap row"
    );

    // The driver's blank plan event (no list, or an explicit clear) takes
    // the todo line away again.
    app.handle(AppEvent::Ui(UiEvent::Plan {
        session: "dsh-test".into(),
        summary: String::new(),
        todos: Vec::new(),
        active: None,
        active_extra: 0,
        completed: 0,
        total: 0,
    }));
    assert_eq!(app.panels.plan, None);

    // A plan may never survive into the next session.
    app.handle(AppEvent::Ui(UiEvent::Plan {
        session: "dsh-test".into(),
        summary: "1 of 3 done · now: patch · 1 pending".into(),
        todos: todos.clone(),
        active: Some("patch".into()),
        active_extra: 0,
        completed: 1,
        total: 3,
    }));
    app.reset_session_ui();
    assert_eq!(app.panels.plan, None);
}

/// The cap row's `⛶` glyph is a mouse-only toggle: each click pins the
/// well to the amplified height or hands it back to the auto layout.
#[test]
fn the_expand_glyph_pins_and_restores_the_well_height() {
    let mut app = test_app();
    // The frame that draws the glyph records its hit target.
    app.panels.expand_btn = Some(rect(80, 4, 3, 1));

    for expected in [true, false] {
        app.handle_mouse(MouseEvent {
            kind: MouseEventKind::Down(MouseButton::Left),
            column: 81,
            row: 4,
        });
        assert_eq!(app.panels.composer_expanded, expected, "click {expected}");
    }

    // A click that misses the glyph leaves the height alone.
    app.handle_mouse(MouseEvent {
        kind: MouseEventKind::Down(MouseButton::Left),
        column: 40,
        row: 4,
    });
    assert!(!app.panels.composer_expanded);
}

/// The driver's live catalog fills an open `/model` picker (a query it now
/// answers mid-turn), keeps the configured model selected when the
/// provider lists it, and is remembered for the next picker opening.
#[test]
fn the_catalog_fills_the_open_model_picker_and_is_remembered() {
    let mut app = test_app();
    app.session.cfg.model = "deepseek-v4-flash".into();
    app.session.cfg.provider = "deepseek-official".into();
    app.open_model_picker();
    assert!(matches!(
        app.panels.picker.as_ref().expect("picker opens").kind,
        PickerKind::Model
    ));
    let stock = app.panels.picker.as_ref().expect("picker").items.len();
    assert!(stock > 1, "the picker opens on its stock rows");

    app.handle(AppEvent::Ctl(CtlEvent::Catalog {
        models: vec![
            CatalogModel {
                provider: "coding-plan-b".into(),
                id: "deepseek-v4-pro".into(),
                name: "DeepSeek V4 Pro".into(),
                vision: false,
            },
            CatalogModel {
                provider: "deepseek-official".into(),
                id: "deepseek-v4-flash".into(),
                name: "DeepSeek V4 Flash".into(),
                vision: true,
            },
        ],
    }));
    let picker = app.panels.picker.as_ref().expect("picker stays open");
    let ids: Vec<&str> = picker.items.iter().map(|i| i.id.as_str()).collect();
    assert_eq!(ids, ["deepseek-v4-pro", "deepseek-v4-flash"]);
    assert_eq!(
        picker.sel, 1,
        "the configured model keeps the selection (provider included)"
    );
    assert_eq!(
        picker.items[1].meta, "deepseek-official · DeepSeek V4 Flash · vision",
        "the meta row names the provider, the label and vision"
    );

    // A reopened popup seeds the stock rows again (the driver re-fetches),
    // while the cached listing is what the `/model ` candidates offer.
    app.panels.picker = None;
    app.open_model_picker();
    assert_eq!(
        app.panels.picker.as_ref().expect("picker reopens").items.len(),
        3,
        "stock presets + the configured model"
    );
    app.draft.input.set("/model ".into());
    let candidates = app.slash_matches();
    assert_eq!(
        candidates
            .iter()
            .map(|e| e.desc.as_str())
            .collect::<Vec<_>>(),
        ["coding-plan-b", "deepseek-official"],
        "the provider rides the meta"
    );
    assert_eq!(
        candidates
            .iter()
            .filter_map(|e| e.completion.as_deref())
            .collect::<Vec<_>>(),
        ["/model deepseek-v4-pro", "/model deepseek-v4-flash"],
        "the completion inserts the id"
    );
}

/// The meta row's `↓ N` chip is the way back down: clicking it drops the
/// scroll and follows the newest line again. The frame that draws the chip
/// records the cell, hover brightens it, and an open modal swallows the
/// click like it does for the other glyph buttons.
#[test]
fn clicking_the_scroll_chip_follows_the_tail_again() {
    let mut app = test_app();
    for i in 0..40 {
        app.transcript.push_user(format!("line {i}"), false);
    }
    app.scroll_by(20);
    let chip = rect(90, 13, 5, 1);
    app.panels.scroll_btn = Some(chip);
    assert!(app.chat.scroll_up > 0);

    // Hover: the chip brightens (the pointer rests on it).
    app.handle_mouse(MouseEvent {
        kind: MouseEventKind::Moved,
        column: chip.x + 1,
        row: chip.y,
    });
    assert!(app.panels.hover_scroll_btn, "hover lands on the chip");

    // A modal owns the screen: the click is not the chip's while one is up.
    app.panels.view_overlay = Some(ViewOverlay {
        title: "status".into(),
        text: String::new(),
        scroll: 0,
    });
    app.handle_mouse(MouseEvent {
        kind: MouseEventKind::Down(MouseButton::Left),
        column: chip.x,
        row: chip.y,
    });
    assert!(app.chat.scroll_up > 0, "a modal swallows the click");
    app.panels.view_overlay = None;

    app.handle_mouse(MouseEvent {
        kind: MouseEventKind::Down(MouseButton::Left),
        column: chip.x,
        row: chip.y,
    });
    assert_eq!(app.chat.scroll_up, 0, "the click follows the tail");
    assert!(app.needs_redraw);

    // A click that misses the chip leaves the scroll where it was.
    app.scroll_by(20);
    app.handle_mouse(MouseEvent {
        kind: MouseEventKind::Down(MouseButton::Left),
        column: chip.x.saturating_sub(6),
        row: chip.y,
    });
    assert!(app.chat.scroll_up > 0, "a miss keeps the scroll");

    // With the tail on screen the chip is gone, so nothing is clickable.
    app.panels.scroll_btn = None;
    app.handle_mouse(MouseEvent {
        kind: MouseEventKind::Down(MouseButton::Left),
        column: chip.x,
        row: chip.y,
    });
    assert!(app.chat.scroll_up > 0);
}

/// The cap row's progress chip opens the checklist dialog; esc closes it,
/// and a cleared checklist takes an open dialog down with it.
#[test]
fn todo_progress_chip_opens_and_closes_the_dialog() {
    let mut app = test_app();
    app.panels.plan = Some(PlanProgress {
        todos: vec![PlanItem {
            content: "patch".into(),
            status: PlanStatus::InProgress,
        }],
        active: Some("patch".into()),
        active_extra: 0,
        completed: 0,
        total: 1,
    });
    // The frame that draws the chip records its hit target.
    app.panels.plan_chip = Some(rect(20, 14, 8, 1));

    app.handle_mouse(MouseEvent {
        kind: MouseEventKind::Down(MouseButton::Left),
        column: 24,
        row: 14,
    });
    assert!(app.panels.todo_dialog.is_some(), "the progress chip is a button");

    app.handle(AppEvent::Term(TermEvent::Key(KeyEvent::new(KeyCode::Esc, KeyModifiers::none()))));
    assert!(app.panels.todo_dialog.is_none(), "esc closes the dialog");

    app.open_todo_dialog();
    app.handle(AppEvent::Ui(UiEvent::Plan {
        session: "dsh-test".into(),
        summary: String::new(),
        todos: Vec::new(),
        active: None,
        active_extra: 0,
        completed: 0,
        total: 0,
    }));
    assert!(
        app.panels.todo_dialog.is_none(),
        "a cleared checklist closes the dialog"
    );
}

/// The `↥` button walks the session's user prompts: newest first, then one
/// prompt back per click, and the oldest wraps to the newest. Each jump
/// anchors the prompt at the top of the pane and flashes its rows.
#[test]
fn prompt_jump_walks_user_prompts_newest_first() {
    let mut app = test_app();
    app.chat.view.area = rect(1, 0, 60, 4);
    // Three prompts, each with an answer of several rows under it.
    app.chat.view.users = vec![
        PromptRow { cell: 0, line: 0 },
        PromptRow { cell: 2, line: 8 },
        PromptRow { cell: 4, line: 16 },
    ];
    app.chat.view.total = 24;
    let users = app.chat.view.users.clone();
    let (oldest, middle, newest) = (users[0].cell, users[1].cell, users[2].cell);

    app.jump_to_user_prompt();
    assert_eq!(
        app.chat.prompt_jump_cell,
        Some(newest),
        "the newest prompt first"
    );
    let h = 4usize;
    let total = 24usize;
    let anchor = |app: &App| total - app.chat.scroll_up - h;
    assert_eq!(
        anchor(&app),
        users[2].line.min(total - h),
        "the jumped prompt is anchored at the top"
    );
    assert_eq!(app.chat.prompt_flash.map(|(cell, _)| cell), Some(newest));
    assert_eq!(
        app.tip.as_ref().map(|(text, _)| text.as_str()),
        Some("↥ user prompt 1/3 · newest first")
    );

    app.jump_to_user_prompt();
    assert_eq!(app.chat.prompt_jump_cell, Some(middle), "then one prompt back");
    app.jump_to_user_prompt();
    assert_eq!(app.chat.prompt_jump_cell, Some(oldest), "down to the oldest");
    app.jump_to_user_prompt();
    assert_eq!(
        app.chat.prompt_jump_cell,
        Some(newest),
        "the oldest wraps around"
    );

    // The flash expires on the next tick after its window.
    app.chat.prompt_flash = Some((newest, app.host.now - 1));
    app.tick();
    assert!(app.chat.prompt_flash.is_none());
    assert!(app.chat.prompt_flash_lines.is_none());
}

/// A session with no prompts says so instead of moving the viewport.
#[test]
fn prompt_jump_without_prompts_tips_instead_of_scrolling() {
    let mut app = test_app();
    app.transcript.push_notice(
        NoticeLevel::Info,
        "a notice, not a prompt".into(),
    );
    app.chat.view.area = rect(1, 0, 60, 10);
    app.chat.scroll_up = 3;

    app.jump_to_user_prompt();

    assert_eq!(app.chat.scroll_up, 3, "the viewport stays put");
    assert!(app.chat.prompt_jump_cell.is_none());
    assert!(
        app.tip
            .as_ref()
            .is_some_and(|(text, _)| text.contains("no user prompts")),
        "{:?}",
        app.tip
    );
}

#[test]
fn session_bound_then_user_message_renders_replay() {
    let mut app = test_app();
    app.handle(AppEvent::Ctl(CtlEvent::SessionBound {
        session_id: "persist-demo".into(),
        notice: Some("resumed · 1 turns".into()),
        model: None,
        effort: None,
    }));
    app.handle(AppEvent::Ui(UiEvent::UserMessage {
        session: "persist-demo".into(),
        text: "hello persistence".into(),
    }));
    let users: Vec<&str> = app
        .transcript
        .cells
        .iter()
        .filter_map(|cell| match &cell.kind {
            CellKind::User { text, .. } => Some(text.as_str()),
            _ => None,
        })
        .collect();
    assert!(
        users.iter().any(|t| t.contains("hello persistence")),
        "replayed user line lands in the transcript: {users:?}"
    );
}
