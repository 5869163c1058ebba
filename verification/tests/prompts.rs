use abylab_tui::app::App;
use abylab_tui::app::state::{CtrlCQuitChord, Host, RunState};
use abylab_tui::appearance::{Mode, PalettePack};
use abylab_tui::attachments::{Attachment, KITTY_ID_BASE};
use abylab_tui::bus::{AppEvent, Cmd, CtlEvent, TermEvent};
use abylab_tui::commands::Phrases;
use abylab_tui::controller::Effect;
use abylab_tui::events::UiEvent;
use abylab_tui::input::keys::{KeyCode, KeyEvent, KeyModifiers};
use abylab_tui::input::normalize::ModifierState;
use abylab_tui::locale::Locale;
use abylab_tui::picker::PickerKind;
use abylab_tui::runtime::{Flags, RuntimeConfig, UiSettings};
use abylab_tui::staging::StagedBlock;
use abylab_tui::transcript::CellKind;

fn host() -> Host {
    Host {
        now: 10_000,
        held: ModifierState::default(),
        known_modes: None,
        branch: None,
        mac: false,
    }
}

fn phrases() -> Phrases {
    Phrases {
        tips_en: vec![
            "esc interrupts a running turn — your draft survives".into(),
            "enter queues a follow-up; ctrl+enter steers the active turn now".into(),
        ],
        tips_zh: vec!["esc 中断".into(), "enter 排队".into()],
        commands_zh: vec![
            ("vim".into(), "切换 vim 模态编辑（默认关闭）".into()),
            ("status".into(), "状态、模型和实时用量统计".into()),
        ],
    }
}

fn packs() -> Vec<PalettePack> {
    ["default", "ayu", "one", "nord"]
        .iter()
        .map(|id| PalettePack { id: id.to_string(), label: id.to_string() })
        .collect()
}

fn settings() -> UiSettings {
    UiSettings {
        language: Locale::En,
        model: None,
        effort: None,
        permission: None,
        theme: None,
        palette: None,
    }
}

fn test_cfg() -> RuntimeConfig {
    RuntimeConfig {
        workspace: "/tmp".into(),
        home: "/home/me/.abylab".into(),
        sessions_root: "/home/me/.abylab/sessions".into(),
        provider: "deepseek-official".into(),
        model: "deepseek-v4-flash".into(),
        max_tokens: None,
        base_url: None,
        api_key: None,
        key_origin: None,
        flags: Flags {
            model: false,
            theme: false,
        },
    }
}

fn new_app(cfg: RuntimeConfig, id: &str) -> App {
    App::new(
        packs(),
        Mode::Dark,
        "default".into(),
        phrases(),
        cfg,
        id.into(),
        settings(),
        false,
        host(),
    )
}

fn test_app() -> App {
    new_app(test_cfg(), "dsh-test")
}

fn try_recv(app: &mut App) -> Result<Cmd, ()> {
    let at = app
        .ctl
        .effects
        .iter()
        .position(|effect| matches!(effect, Effect::Send(_)))
        .ok_or(())?;
    match app.ctl.effects.remove(at) {
        Effect::Send(cmd) => Ok(cmd),
        _ => Err(()),
    }
}

#[test]
fn staged_images_live_as_inline_tokens_and_esc_clears_them() {
    let mut app = test_app();
    assert!(app.draft.pending_images.is_empty());
    app.stage_image(
        "clipboard.png".into(),
        "clipboard".into(),
        "image/png".into(),
        vec![0u8; 8],
        String::new(),
    );
    app.stage_image(
        "shot-2.png".into(),
        "clipboard".into(),
        "image/png".into(),
        vec![1u8; 8],
        String::new(),
    );
    assert_eq!(
        app.draft.pending_images.len(),
        2,
        "images stage instead of sending"
    );
    assert!(app.draft.input.buf().contains("[image 1]") && app.draft.input.buf().contains("[image 2]"));
    app.handle_esc();
    assert!(app.draft.input.is_empty(), "esc clears the draft");
    assert!(app.draft.pending_images.is_empty(), "chips go with the draft");
}

#[test]
fn backspace_on_a_chip_cuts_the_whole_token() {
    let mut app = test_app();
    app.stage_image(
        "a.png".into(),
        "p".into(),
        "image/png".into(),
        vec![0u8; 4],
        String::new(),
    );
    app.stage_image(
        "b.png".into(),
        "p".into(),
        "image/png".into(),
        vec![1u8; 4],
        String::new(),
    );
    // Cursor sits right after "[image 2]" — one backspace eats the
    // whole token and un-stages that image only.
    app.handle_key(&KeyEvent::new(KeyCode::Backspace, KeyModifiers::none()));
    assert_eq!(
        app.draft.pending_images.len(),
        1,
        "backspace pops the chip under the cursor"
    );
    assert_eq!(app.draft.pending_images.get(0).unwrap().name, "a.png");
    assert!(app.draft.input.buf().contains("[image 1]"));
    assert!(!app.draft.input.buf().contains("[image 2]"));
}

#[test]
fn editing_a_token_away_unstages_its_image() {
    let mut app = test_app();
    app.stage_image(
        "a.png".into(),
        "p".into(),
        "image/png".into(),
        vec![0u8; 4],
        String::new(),
    );
    // Simulate a kill that leaves a broken token, then any key event.
    app.draft.input.set("[image 1".into());
    app.handle_key(&KeyEvent::new(KeyCode::Char('x'), KeyModifiers::none()));
    assert!(
        app.draft.pending_images.is_empty(),
        "broken token reconciles the tray"
    );
}

#[test]
fn esc_clears_draft_when_idle() {
    let mut app = test_app();
    app.draft.input.set("hello".into());
    app.handle_esc();
    assert!(app.draft.input.is_empty(), "single esc clears the draft");
}

#[test]
fn cancel_requested_stops_in_flight_tools() {
    let mut app = test_app();
    app.session.state = RunState::Running;
    app.transcript.apply(UiEvent::ToolCall {
        session: app.session.session_id.clone(),
        call_id: "c1".into(),
        name: "bash".into(),
        arguments: r#"{"command":"grep"}"#.into(),
    });
    app.handle(AppEvent::Ctl(CtlEvent::CancelRequested));
    assert_eq!(app.session.state_note, "cancelling");
    assert!(
        matches!(app.session.state, RunState::Running),
        "prompt has not unwound yet"
    );
    match &app.transcript.cells.last().unwrap().kind {
        CellKind::Tool { ok, error, .. } => {
            assert_eq!(*ok, Some(false));
            assert_eq!(error.as_deref(), Some("cancelled"));
        }
        other => panic!("expected tool, got {other:?}"),
    }
}

#[test]
fn send_now_while_running_is_a_steer_not_a_cancelled_queue_item() {
    let mut app = test_app();
    app.session.state = RunState::Running;
    app.draft.input.set("change course".into());

    app.send_now();

    assert!(matches!(app.session.state, RunState::Running));
    assert_eq!(app.queue.queued, 0);
    assert_ne!(app.session.state_note, "cancelling");
    assert!(matches!(
        app.transcript.cells.last().map(|cell| &cell.kind),
        Some(CellKind::User { text, queued: false })
            if text == "change course"
    ));
}

#[test]
fn rejected_send_now_becomes_visible_fifo_without_stopping_the_active_turn() {
    let mut app = test_app();
    app.session.state = RunState::Running;
    app.draft.input.set("change course".into());

    app.send_now();
    let message_id = app.queue.pending_steers.first().expect("tracked steer command").id;
    app.handle(AppEvent::Ctl(CtlEvent::SteerSettled {
        message_id,
        deferred: true,
    }));

    assert!(matches!(app.session.state, RunState::Running));
    assert_eq!(app.queue.queued, 1);
    assert!(matches!(
        app.transcript.cells.last().map(|cell| &cell.kind),
        Some(CellKind::User {
            text,
            queued: true,
        }) if text == "change course"
    ));
}

#[test]
fn send_now_with_an_image_keeps_the_active_turn_running() {
    let mut app = test_app();
    app.session.state = RunState::Running;
    app.stage_image(
        "shot.png".into(),
        "clipboard".into(),
        "image/png".into(),
        vec![1, 2, 3],
        String::new(),
    );

    app.send_now();

    assert!(matches!(app.session.state, RunState::Running));
    assert_eq!(app.queue.queued, 0);
    assert!(matches!(
        app.transcript.cells.last().map(|cell| &cell.kind),
        Some(CellKind::Image { queued: false, .. })
    ));
}

#[test]
fn first_prompt_after_agent_ready_is_not_marked_queued() {
    let mut app = test_app();
    app.handle(AppEvent::Ctl(CtlEvent::Starting {
        runtime: "dsh-acp".into(),
    }));
    app.handle(AppEvent::Ctl(CtlEvent::Ready {
        server: "dsh-acp".into(),
    }));

    app.send_agent_text("first".into());

    assert_eq!(app.queue.queued, 0);
    assert!(matches!(
        app.transcript.cells.last().map(|cell| &cell.kind),
        Some(CellKind::User { queued: false, .. })
    ));
}

#[test]
fn startup_lifecycle_updates_state_without_adding_transcript_rows() {
    let mut app = test_app();
    let cells_before = app.transcript.cells.len();

    app.handle(AppEvent::Ctl(CtlEvent::Starting {
        runtime: "/usr/local/bin/dsh-acp".into(),
    }));
    assert!(matches!(app.session.state, RunState::Starting));
    assert_eq!(app.transcript.cells.len(), cells_before);

    app.handle(AppEvent::Ctl(CtlEvent::Ready {
        server: "dsh-acp".into(),
    }));
    assert!(matches!(app.session.state, RunState::Idle));
    assert_eq!(app.session.server_info.as_deref(), Some("dsh-acp"));
    assert_eq!(app.transcript.cells.len(), cells_before);
}

#[test]
fn first_prompt_during_runtime_start_is_active_and_only_the_second_queues() {
    let mut app = test_app();
    app.handle(AppEvent::Ctl(CtlEvent::Starting {
        runtime: "dsh-acp".into(),
    }));

    app.send_agent_text("first".into());
    app.send_agent_text("second".into());

    assert_eq!(app.queue.queued, 1);
    let users = app
        .transcript
        .cells
        .iter()
        .filter_map(|cell| match &cell.kind {
            CellKind::User { text, queued } => {
                Some((text.as_str(), *queued))
            }
            _ => None,
        })
        .collect::<Vec<_>>();
    assert_eq!(users, [("first", false), ("second", true)]);
}

#[test]
fn terminal_lifecycle_events_release_a_pending_first_prompt() {
    let events = vec![
        AppEvent::RuntimeExited(None),
        AppEvent::Ctl(CtlEvent::Error("failed".into())),
        AppEvent::Ctl(CtlEvent::Interrupted),
        AppEvent::Ui(UiEvent::SessionStatus {
            session: "dsh-test".into(),
            running: false,
        }),
    ];

    for event in events {
        let mut app = test_app();
        app.send_agent_text("first".into());
        app.handle(event);
        app.send_agent_text("retry".into());

        assert_eq!(app.queue.queued, 0);
        assert!(matches!(
            app.transcript.cells.last().map(|cell| &cell.kind),
            Some(CellKind::User {
                text,
                queued: false
            }) if text == "retry"
        ));
    }
}

#[test]
fn bracketed_paste_wrapped_csi_u_ctrl_c_still_quits() {
    let mut app = test_app();

    for _ in 0..2 {
        app.handle(AppEvent::Term(TermEvent::Paste("\u{1b}[99;5u".to_string())));
    }

    assert!(app.quit, "two Ctrl+C presses should quit from idle");
    assert!(
        app.draft.input.is_empty(),
        "the CSI-u bytes must never enter the composer"
    );
}

#[test]
fn ordinary_and_mixed_paste_payloads_are_not_treated_as_keys() {
    let mut app = test_app();

    app.handle(AppEvent::Term(TermEvent::Paste("hello\nworld".to_string())));
    app.handle(AppEvent::Term(TermEvent::Paste(" literal \u{1b}[99;5u".to_string())));

    // The composer is multi-line, so the pasted break survives (a CRLF or
    // a bare CR from iTerm2-style terminals lands as a plain `\n`).
    assert_eq!(
        app.draft.input.buf(),
        "hello\nworld literal \u{1b}[99;5u",
        "a paste keeps its line structure"
    );
    assert!(!app.quit);
}

#[test]
fn a_pasted_crlf_lands_as_one_newline_and_never_sends() {
    let mut app = test_app();

    app.handle(AppEvent::Term(TermEvent::Paste("fn main() {\r\n    run();\r\n}\r".to_string())));

    assert_eq!(
        app.draft.input.buf(),
        "fn main() {\n    run();\n}\n",
        "CRLF and a trailing CR normalize to `\\n`"
    );
    assert!(
        app.transcript.cells.is_empty(),
        "a multi-line paste must not submit the draft"
    );
}

/// ↑ recalls the input history from a *non-empty* draft once the caret is
/// already on the first visual row, and ↓ past the newest entry puts the
/// stashed draft back.
#[test]
fn up_at_the_first_row_recalls_history_and_down_restores_the_draft() {
    let mut app = test_app();
    app.draft.input.history.push("first prompt".into());
    app.draft.input.history.push("second prompt".into());

    app.draft.input.set("half-typed".into());
    app.handle_key(&KeyEvent::new(KeyCode::Up, KeyModifiers::none()));
    assert_eq!(app.draft.input.buf(), "second prompt");
    assert_eq!(app.draft.input.hist_pos, Some(1));

    // While browsing, ↑/↓ keep walking the history (no caret motion).
    app.handle_key(&KeyEvent::new(KeyCode::Up, KeyModifiers::none()));
    assert_eq!(app.draft.input.buf(), "first prompt");
    app.handle_key(&KeyEvent::new(KeyCode::Down, KeyModifiers::none()));
    app.handle_key(&KeyEvent::new(KeyCode::Down, KeyModifiers::none()));
    assert_eq!(app.draft.input.buf(), "half-typed", "the draft was stashed");
    assert_eq!(app.draft.input.hist_pos, None);

    // A multi-line draft moves the caret first; only the top row recalls.
    app.draft.input.set("one\ntwo".into());
    app.handle_key(&KeyEvent::new(KeyCode::Up, KeyModifiers::none()));
    assert_eq!(app.draft.input.buf(), "one\ntwo", "the caret stayed in the draft");
    assert_eq!(app.draft.input.hist_pos, None, "no recall while the caret moves");
    app.handle_key(&KeyEvent::new(KeyCode::Up, KeyModifiers::none()));
    assert_eq!(app.draft.input.buf(), "second prompt");
}

#[test]
fn resetting_the_session_releases_a_pending_first_prompt() {
    let mut app = test_app();
    app.send_agent_text("old session".into());

    app.reset_session_ui();
    app.send_agent_text("new session".into());

    assert_eq!(app.queue.queued, 0);
    assert!(matches!(
        app.transcript.cells.last().map(|cell| &cell.kind),
        Some(CellKind::User {
            text,
            queued: false
        }) if text == "new session"
    ));
}

#[test]
fn resetting_the_session_discards_unsettled_steer_bookkeeping() {
    let mut app = test_app();
    app.session.state = RunState::Running;
    app.draft.input.set("old steer".into());
    app.send_now();
    let message_id = app.queue.pending_steers.first().expect("steer is awaiting settlement").id;

    app.reset_session_ui();
    app.handle(AppEvent::Ctl(CtlEvent::SteerSettled {
        message_id,
        deferred: true,
    }));

    assert!(app.queue.pending_steers.is_empty());
    assert_eq!(app.queue.queued, 0, "late settlement cannot taint a new session");
    assert!(app.queue.prompt_queue.is_empty());
}

#[test]
fn runtime_exit_discards_delivery_state_owned_by_the_dead_actor() {
    let mut app = test_app();
    app.session.state = RunState::Running;
    app.send_agent_text("queued followup".into());
    app.draft.input.set("unsettled steer".into());
    app.send_now();
    assert_eq!(app.queue.queued, 1);
    assert_eq!(app.queue.pending_steers.len(), 1);

    app.handle(AppEvent::RuntimeExited(Some(1)));

    assert_eq!(app.queue.queued, 0);
    assert!(app.queue.prompt_queue.is_empty());
    assert!(app.queue.pending_steers.is_empty());
    assert!(
        app.transcript.cells.iter().all(|cell| !matches!(
            &cell.kind,
            CellKind::User { queued: true, .. }
        )),
        "a dead queue's echoes stop claiming they are queued"
    );
}

#[test]
fn interrupted_keeps_client_followups_queued() {
    let mut app = test_app();
    app.session.state = RunState::Running;
    app.session.state_note = "cancelling".into();
    app.send_agent_text("first followup".into());
    app.handle(AppEvent::Ctl(CtlEvent::Interrupted));
    assert!(matches!(app.session.state, RunState::Idle));
    assert_eq!(app.queue.queued, 1);
    assert!(app.session.state_note.is_empty());

    app.send_agent_text("second followup".into());
    assert_eq!(
        app.queue.queued, 2,
        "new input joins the surviving FIFO while the actor advances it"
    );
    assert!(matches!(
        app.transcript.cells.last().map(|cell| &cell.kind),
        Some(CellKind::User { queued: true, .. })
    ));
}

#[test]
fn interrupted_turn_renders_one_specific_terminal_notice() {
    let mut app = test_app();
    app.handle(AppEvent::Ui(UiEvent::TurnEnd {
        session: app.session.session_id.clone(),
        kind: "interrupted".into(),
    }));
    app.handle(AppEvent::Ctl(CtlEvent::Interrupted));

    let notices = app
        .transcript
        .cells
        .iter()
        .filter_map(|cell| match &cell.kind {
            CellKind::Notice { text, .. } if text.contains("interrupt") => {
                Some(text.as_str())
            }
            _ => None,
        })
        .collect::<Vec<_>>();
    assert_eq!(notices, ["interrupted — turn cancelled"]);
}

#[test]
fn staged_input_joins_a_surviving_fifo_after_interrupt() {
    let mut app = test_app();
    app.session.state = RunState::Running;
    app.send_agent_text("first followup".into());
    app.handle(AppEvent::Ctl(CtlEvent::Interrupted));

    app.send_staged(
        vec![StagedBlock::Image(Attachment {
            id: KITTY_ID_BASE + 1,
            token: "[image 1]".into(),
            name: "shot.png".into(),
            path: "clipboard".into(),
            media_type: "image/png".into(),
            data: vec![1_u8, 2, 3],
        })]);

    assert_eq!(app.queue.queued, 2);
    assert_eq!(app.queue.prompt_queue.len(), 2);
    assert!(matches!(
        app.transcript.cells.last().map(|cell| &cell.kind),
        Some(CellKind::Image { queued: true, .. })
    ));
}

#[test]
fn send_now_can_steer_while_a_surviving_fifo_is_advancing() {
    let mut app = test_app();
    app.session.state = RunState::Running;
    app.send_agent_text("ordinary followup".into());
    app.handle(AppEvent::Ctl(CtlEvent::Interrupted));
    app.draft.input.set("urgent correction".into());

    app.send_now();

    assert_eq!(app.queue.queued, 1);
    assert_eq!(app.queue.pending_steers.len(), 1);
    assert!(matches!(
        app.transcript.cells.last().map(|cell| &cell.kind),
        Some(CellKind::User {
            text,
            queued: false,
        }) if text == "urgent correction"
    ));
}

/// `⌥↑` lists the queued follow-ups; entering one loads it into the
/// composer, and enter saves the edit back into the same FIFO slot.
#[test]
fn alt_up_edits_a_queued_prompt_in_place() {
    let mut app = test_app();
    app.session.state = RunState::Running;
    app.send_agent_text("first followup".into());
    app.send_agent_text("second followup".into());
    let kept_id = app.queue.prompt_queue[1].id;

    app.handle_key(&KeyEvent::new(KeyCode::Up, KeyModifiers::alt()));
    let picker = app.panels.picker.as_ref().expect("queue picker");
    assert!(matches!(picker.kind, PickerKind::Queue));
    assert_eq!(picker.items.len(), 2);
    assert_eq!(picker.items[1].label, "second followup");
    assert!(
        picker.items[1].meta.contains("#2"),
        "{}",
        picker.items[1].meta
    );

    // ↓ then enter opens the second item for editing.
    app.handle_key(&KeyEvent::new(KeyCode::Down, KeyModifiers::none()));
    app.handle_key(&KeyEvent::new(KeyCode::Enter, KeyModifiers::none()));
    assert!(app.panels.picker.is_none(), "the picker closed on enter");
    assert_eq!(app.draft.input.buf(), "second followup");
    assert!(app.queue.queue_edit.is_some());
    assert_eq!(app.queue.prompt_queue.len(), 2, "the item keeps its slot");

    // Enter saves: the item is replaced in place and nothing was sent.
    app.draft.input.set("second followup, revised".into());
    app.handle_key(&KeyEvent::new(KeyCode::Enter, KeyModifiers::none()));
    assert!(app.queue.queue_edit.is_none());
    assert!(app.draft.input.is_empty());
    assert_eq!(app.queue.queued, 2);
    assert_eq!(app.queue.prompt_queue[1].id, kept_id, "the slot is unchanged");
    assert!(
        matches!(&app.queue.prompt_queue[1].blocks[..], [StagedBlock::Text(text)] if text == "second followup, revised"),
        "the edit replaced the blocks"
    );
    assert!(
        try_recv(&mut app).is_err(),
        "editing a queued prompt never sends anything"
    );
}

/// Esc cancels an edit and leaves the item alone; ctrl+d arms and then
/// deletes it. Neither path sends anything.
#[test]
fn queue_edit_cancels_or_deletes_without_sending() {
    let mut app = test_app();
    app.session.state = RunState::Running;
    app.send_agent_text("keep me".into());
    let id = app.queue.prompt_queue[0].id;
    app.begin_queue_edit(&id.to_string());
    app.draft.input.set("changed my mind".into());

    app.handle_key(&KeyEvent::new(KeyCode::Esc, KeyModifiers::none()));
    assert!(app.queue.queue_edit.is_none(), "esc cancelled the edit");
    assert!(app.draft.input.is_empty(), "the draft is dropped");
    assert!(
        matches!(&app.queue.prompt_queue[0].blocks[..], [StagedBlock::Text(text)] if text == "keep me"),
        "the queued item is untouched"
    );
    assert_eq!(app.queue.queued, 1);

    // ctrl+d asks once, then deletes.
    app.begin_queue_edit(&id.to_string());
    app.handle_key(&KeyEvent::new(KeyCode::Char('d'), KeyModifiers::control()));
    assert!(app.queue.queue_edit.is_some(), "the first press only arms");
    assert_eq!(app.queue.prompt_queue.len(), 1);
    app.handle_key(&KeyEvent::new(KeyCode::Char('d'), KeyModifiers::control()));
    assert!(app.queue.queue_edit.is_none());
    assert!(app.queue.prompt_queue.is_empty(), "the second press deleted it");
    assert_eq!(app.queue.queued, 0);
    assert!(try_recv(&mut app).is_err(), "nothing was sent");
}

/// Deleting a queued prompt takes its echo out of the timeline with it: the
/// bubble never left the client, so leaving it behind as `queued` (or as a
/// plain, delivered-looking prompt) would both be wrong. The prompts behind
/// it keep their own bubbles, and the queue is remapped onto their new
/// indices.
#[test]
fn deleting_a_queued_prompt_drops_its_echo_and_remaps_the_rest() {
    let mut app = test_app();
    let queued_echoes = |app: &App| -> Vec<String> {
        app.transcript
            .cells
            .iter()
            .filter_map(|cell| match &cell.kind {
                CellKind::User { text, queued: true } => Some(text.clone()),
                _ => None,
            })
            .collect()
    };
    app.session.state = RunState::Running;
    app.send_agent_text("delete me".into());
    app.send_agent_text("keep me".into());
    assert_eq!(queued_echoes(&app), ["delete me", "keep me"]);

    let id = app.queue.prompt_queue[0].id;
    app.begin_queue_edit(&id.to_string());
    for _ in 0..2 {
        app.handle_key(&KeyEvent::new(KeyCode::Char('d'), KeyModifiers::control()));
    }

    assert_eq!(app.queue.queued, 1, "one item left in the queue");
    assert_eq!(app.queue.prompt_queue.len(), 1);
    assert_eq!(
        queued_echoes(&app),
        ["keep me"],
        "the deleted echo left the timeline, the survivor stayed"
    );
    assert_eq!(app.transcript.cells.len(), 1, "only its own bubble is left");
    for cell in app.queue.prompt_queue[0].cells.clone() {
        assert!(
            matches!(
                &app.transcript.cells[cell].kind,
                CellKind::User { text, queued: true } if text == "keep me"
            ),
            "the queue still points at its own bubble (cell {cell})"
        );
    }
    assert!(try_recv(&mut app).is_err(), "nothing was sent");
}

/// A row whose prompt has left in the meantime is not listed again, and a list
/// without it holds nothing armed.
#[test]
fn a_row_that_left_the_queue_is_not_armed() {
    let mut app = test_app();
    app.session.state = RunState::Running;
    app.send_agent_text("first".into());
    app.send_agent_text("second".into());
    app.handle_key(&KeyEvent::new(KeyCode::Up, KeyModifiers::alt()));
    app.queue.pop_front();
    app.handle_key(&KeyEvent::new(KeyCode::Char('d'), KeyModifiers::control()));
    assert!(app.queue.queue_delete_armed.is_none());
    let picker = app.panels.picker.as_ref().expect("the list stays open");
    assert_eq!(picker.items.len(), 1);
    assert_eq!(picker.items[0].label, "second");
    assert_eq!(app.queue.prompt_queue.len(), 1, "nothing was deleted");
}

/// The queue list deletes rows itself, without the editor round-trip:
/// `ctrl+d` arms the highlighted row (the row says so), the second press
/// drops it, and the dialog stays open on the row that took its place — so
/// several queued prompts can go without re-opening the selector.
#[test]
fn the_queue_picker_deletes_the_highlighted_row_in_place() {
    let mut app = test_app();
    let queued_echoes = |app: &App| -> Vec<String> {
        app.transcript
            .cells
            .iter()
            .filter_map(|cell| match &cell.kind {
                CellKind::User { text, queued: true } => Some(text.clone()),
                _ => None,
            })
            .collect()
    };
    let ctrl_d = || KeyEvent::new(KeyCode::Char('d'), KeyModifiers::control());
    app.session.state = RunState::Running;
    app.send_agent_text("drop me".into());
    app.send_agent_text("keep me".into());
    app.send_agent_text("keep me too".into());

    app.handle_key(&KeyEvent::new(KeyCode::Up, KeyModifiers::alt()));
    let head = app.panels.picker.as_ref().expect("queue picker").items[0]
        .id
        .clone();
    app.handle_key(&ctrl_d());
    assert_eq!(
        app.queue.queue_delete_armed.as_deref(),
        Some(head.as_str()),
        "the first press arms the highlighted row"
    );
    assert!(
        app.panels.picker.as_ref().unwrap().items[0]
            .meta
            .contains("ctrl+d"),
        "the armed row says what the next press does"
    );
    assert_eq!(app.queue.prompt_queue.len(), 3, "the first press only asks");

    // ↓ walks off the row and takes the arming with it: `ctrl+d` names the
    // row under the highlight, never the one the user left behind.
    app.handle_key(&KeyEvent::new(KeyCode::Down, KeyModifiers::none()));
    assert!(
        app.queue.queue_delete_armed.is_none(),
        "moving the highlight disarms"
    );
    app.handle_key(&ctrl_d());
    assert_eq!(app.queue.prompt_queue.len(), 3, "arming again deletes nothing");

    // Second press: the row goes, its echo leaves the timeline with it, and
    // the dialog stays open on the row that moved up into its place.
    app.handle_key(&ctrl_d());
    assert_eq!(app.queue.queued, 2);
    assert_eq!(queued_echoes(&app), ["drop me", "keep me too"]);
    let picker = app.panels.picker.as_ref().expect("the list stays open");
    assert_eq!(picker.sel, 1, "the highlight follows the survivor");
    assert_eq!(picker.items[1].label, "keep me too");
    assert!(app.queue.queue_delete_armed.is_none(), "the arming is spent");

    // Two more rounds empty the queue; the last delete closes the dialog.
    for _ in 0..2 {
        app.handle_key(&ctrl_d());
        app.handle_key(&ctrl_d());
    }
    assert!(app.queue.prompt_queue.is_empty());
    assert_eq!(app.queue.queued, 0);
    assert!(queued_echoes(&app).is_empty(), "no echo outlives its item");
    assert!(app.panels.picker.is_none(), "an empty list is not a dialog");
    assert!(
        try_recv(&mut app).is_err(),
        "deleting never sends anything"
    );
}

/// While an item is loaded for editing the FIFO holds: a turn end must not
/// ship the head out from under the editor.
#[test]
fn the_queue_pauses_dispatch_while_an_item_is_edited() {
    let mut app = test_app();
    app.session.state = RunState::Running;
    app.send_agent_text("head".into());
    app.send_agent_text("tail".into());
    let head = app.queue.prompt_queue[0].id;
    app.begin_queue_edit(&head.to_string());

    app.handle(AppEvent::Ui(UiEvent::SessionStatus {
        session: "dsh-test".into(),
        running: false,
    }));

    assert_eq!(app.queue.queued, 2, "the queue held");
    assert!(try_recv(&mut app).is_err(), "nothing went out");
    assert!(app.session.state_note.contains("paused"), "{}", app.session.state_note);

    // Closing the editor lets the next idle status ship the head.
    app.handle_key(&KeyEvent::new(KeyCode::Esc, KeyModifiers::none()));
    app.handle(AppEvent::Ui(UiEvent::SessionStatus {
        session: "dsh-test".into(),
        running: false,
    }));
    assert_eq!(app.queue.queued, 1);
    assert!(matches!(
        try_recv(&mut app),
        Ok(Cmd::Prompt { text, .. }) if text == "head"
    ));
}

/// An empty draft's enter promotes the FIFO head: a steer while the turn
/// runs, and it waits for the idle status like any other send otherwise.
#[test]
fn empty_enter_sends_the_queue_head_now() {
    let mut app = test_app();
    app.session.state = RunState::Running;
    app.send_agent_text("head".into());
    app.send_agent_text("tail".into());

    app.handle_key(&KeyEvent::new(KeyCode::Enter, KeyModifiers::none()));

    assert!(matches!(
        try_recv(&mut app),
        Ok(Cmd::Steer { text, .. }) if text == "head"
    ));
    assert_eq!(app.queue.queued, 1, "the tail stays queued");
    assert_eq!(app.queue.prompt_queue.len(), 1);
    assert!(
        matches!(&app.queue.prompt_queue[0].blocks[..], [StagedBlock::Text(text)] if text == "tail")
    );
    assert_eq!(
        app.queue.pending_steers.len(),
        1,
        "the steer awaits settlement"
    );
}

/// The idle status is what hands the FIFO head to the driver: it is not
/// merely kept (that was the driver-channel queue's job), it goes out —
/// exactly one item, whose echo loses the queued tint.
#[test]
fn an_idle_status_dispatches_the_client_owned_fifo_head() {
    let mut app = test_app();
    app.session.state = RunState::Running;
    app.send_agent_text("followup".into());
    assert_eq!(app.queue.queued, 1);
    assert!(matches!(
        app.transcript.cells.last().map(|cell| &cell.kind),
        Some(CellKind::User { queued: true, .. })
    ));

    app.handle(AppEvent::Ui(UiEvent::SessionStatus {
        session: "dsh-test".into(),
        running: false,
    }));

    assert_eq!(app.queue.queued, 0);
    assert!(app.queue.prompt_queue.is_empty(), "the head left the queue");
    assert!(matches!(
        app.transcript.cells.last().map(|cell| &cell.kind),
        Some(CellKind::User { queued: false, .. })
    ));
    assert!(matches!(
        try_recv(&mut app),
        Ok(Cmd::Prompt { text, .. }) if text == "followup"
    ));
    assert!(app.session.prompt_pending, "the dispatched turn is armed");
}

#[test]
fn an_idle_status_delivers_exactly_one_queued_prompt_group() {
    let mut app = test_app();
    app.session.state = RunState::Running;
    app.send_staged(
        vec![
            StagedBlock::Text("look".into()),
            StagedBlock::Image(Attachment {
                id: KITTY_ID_BASE + 1,
                token: "[image 1]".into(),
                name: "shot.png".into(),
                path: "clipboard".into(),
                media_type: "image/png".into(),
                data: vec![1_u8, 2, 3],
            }),
        ]);
    app.send_agent_text("after".into());

    assert_eq!(app.queue.queued, 2);

    app.handle(AppEvent::Ui(UiEvent::SessionStatus {
        session: "dsh-test".into(),
        running: false,
    }));
    assert_eq!(app.queue.queued, 1, "only the head went out");

    // The driver's own acceptance of a prompt never moves the queue.
    app.handle(AppEvent::Ctl(CtlEvent::PromptQueued {
        message_id: "dsh-test".into(),
    }));
    assert_eq!(app.queue.queued, 1);
    let queued = app
        .transcript
        .cells
        .iter()
        .filter_map(|cell| match &cell.kind {
            CellKind::User { queued, .. }
            | CellKind::Image { queued, .. } => Some(*queued),
            _ => None,
        })
        .collect::<Vec<_>>();
    assert_eq!(queued, [false, false, true]);
}

#[test]
fn ctrl_c_with_a_draft_clears_it_before_starting_a_fresh_double_press_to_quit() {
    let mut app = test_app();
    app.ctrl_c_armed = Some(CtrlCQuitChord {
        started: 10_000,
        presses: 1,
        required: 2,
    });
    app.draft.input.set("unfinished draft".into());

    app.handle_ctrl_c();
    assert!(app.draft.input.is_empty());
    assert!(
        app.ctrl_c_armed.is_none(),
        "clearing is not the first quit press"
    );
    assert!(!app.quit);

    app.handle_ctrl_c();
    assert!(app.ctrl_c_armed.is_some());
    assert!(!app.quit);

    app.handle_ctrl_c();
    assert!(app.quit);
}

#[test]
fn ctrl_c_while_starting_without_a_prompt_quits_after_two_empty_presses() {
    let mut app = test_app();
    app.session.state = RunState::Starting;

    app.handle_ctrl_c();
    assert!(!app.quit, "the first empty Ctrl+C arms the idle quit chord");

    app.handle_ctrl_c();
    assert!(
        app.quit,
        "startup without an active turn uses the two-press chord"
    );
}

#[test]
fn ctrl_c_while_running_never_interrupts_and_two_empty_presses_quit() {
    let mut app = test_app();
    app.session.state = RunState::Running;

    app.handle_ctrl_c();
    assert!(
        app.ctrl_c_armed.is_some(),
        "an empty Ctrl+C should arm quit even while the turn is running"
    );
    assert!(!app.quit);
    assert_eq!(app.session.state, RunState::Running);
    assert!(
        try_recv(&mut app).is_err(),
        "Ctrl+C must not send Cmd::Interrupt"
    );

    app.handle_ctrl_c();
    assert!(app.quit);
}
