use abylab_tui::app::App;
use abylab_tui::app::state::{Host, QueuedPrompt, RunState};
use abylab_tui::appearance::{Mode, PalettePack};
use abylab_tui::attachments::Staged;
use abylab_tui::bus::{
    AppEvent, Cmd, CtlEvent, PermissionAskOption, PermissionAskReply, PromptBlock, SkillInfo,
};
use abylab_tui::commands::{Phrases, slash_commands};
use abylab_tui::controller::Effect;
use abylab_tui::credentials::{API_KEY_REF, delete_key, store_key, stored_key};
use abylab_tui::events::UiEvent;
use abylab_tui::input::keys::{KeyCode, KeyEvent, KeyModifiers};
use abylab_tui::input::normalize::ModifierState;
use abylab_tui::locale::Locale;
use abylab_tui::runtime::{Flags, KeyOrigin, RuntimeConfig, UiSettings};
use abylab_tui::staging::{StagedBlock, prompt_blocks_from_staged, split_draft_into_staged_blocks};
use abylab_tui::transcript::CellKind;

fn host() -> Host {
    Host {
        now: 10_000,
        held: ModifierState::default(),
        known_modes: None,
        branch: None,
        mac: false,
    }
}

fn phrases() -> Phrases {
    Phrases {
        tips_en: vec![
            "esc interrupts a running turn — your draft survives".into(),
            "enter queues a follow-up; ctrl+enter steers the active turn now".into(),
        ],
        tips_zh: vec!["esc 中断".into(), "enter 排队".into()],
        commands_zh: vec![
            ("vim".into(), "切换 vim 模态编辑（默认关闭）".into()),
            ("status".into(), "状态、模型和实时用量统计".into()),
        ],
    }
}

fn packs() -> Vec<PalettePack> {
    ["default", "ayu", "one", "nord"]
        .iter()
        .map(|id| PalettePack { id: id.to_string(), label: id.to_string() })
        .collect()
}

fn settings() -> UiSettings {
    UiSettings {
        language: Locale::En,
        model: None,
        effort: None,
        permission: None,
        theme: None,
        palette: None,
    }
}

fn test_cfg() -> RuntimeConfig {
    RuntimeConfig {
        workspace: "/tmp".into(),
        home: "/home/me/.abylab".into(),
        sessions_root: "/home/me/.abylab/sessions".into(),
        provider: "deepseek-official".into(),
        model: "deepseek-v4-flash".into(),
        max_tokens: None,
        base_url: None,
        api_key: None,
        key_origin: None,
        flags: Flags {
            model: false,
            theme: false,
        },
    }
}

fn new_app(cfg: RuntimeConfig, id: &str) -> App {
    App::new(
        packs(),
        Mode::Dark,
        "default".into(),
        phrases(),
        cfg,
        id.into(),
        settings(),
        false,
        host(),
    )
}

fn test_app() -> App {
    new_app(test_cfg(), "dsh-test")
}

fn try_recv(app: &mut App) -> Result<Cmd, ()> {
    let at = app
        .ctl
        .effects
        .iter()
        .position(|effect| matches!(effect, Effect::Send(_)))
        .ok_or(())?;
    match app.ctl.effects.remove(at) {
        Effect::Send(cmd) => Ok(cmd),
        _ => Err(()),
    }
}

fn try_iter(app: &mut App) -> Vec<Cmd> {
    let mut sent = Vec::new();
    while let Ok(cmd) = try_recv(app) {
        sent.push(cmd);
    }
    sent
}

/// The document that keys are stored in, and what the store answers.
fn keep_keys(app: &mut App, doc: &mut String) {
    loop {
        let at = app.ctl.effects.iter().position(|effect| {
            matches!(effect, Effect::StoreKey(_) | Effect::DeleteKey)
        });
        let Some(at) = at else {
            return;
        };
        match app.ctl.effects.remove(at) {
            Effect::StoreKey(key) => {
                let outcome = store_key(doc, API_KEY_REF, &key).map(|text| *doc = text);
                app.login_finished(&key, outcome);
            }
            Effect::DeleteKey => {
                let outcome = delete_key(doc, API_KEY_REF).map(|text| match text {
                    Some(text) => {
                        *doc = text;
                        true
                    }
                    None => false,
                });
                app.logout_finished(outcome);
            }
            _ => {}
        }
    }
}

fn reply(app: &mut App) -> PermissionAskReply {
    app.ctl
        .take()
        .into_iter()
        .find_map(|effect| match effect {
            Effect::Reply(reply) => Some(reply),
            _ => None,
        })
        .expect("reply")
}

/// Skills are `/skill`'s business only: the `/` menu lists builtins and
/// nothing else, even when the catalog holds a name no builtin claims.
#[test]
fn skills_stay_out_of_the_slash_menu() {
    let mut app = test_app();
    app.session.skills = vec![
        SkillInfo {
            name: "commit-helper".into(),
            description: "draft a commit".into(),
            input_hint: None,
            source: None,
        },
        SkillInfo {
            name: "help".into(),
            description: "shadowed by builtin".into(),
            input_hint: None,
            source: None,
        },
    ];
    app.draft.input.set("/".into());
    let menu = app.slash_matches();
    assert_eq!(
        menu.len(),
        slash_commands().len(),
        "the bare `/` menu is the builtin list, unmerged"
    );
    assert!(
        !menu.iter().any(|e| e.name == "commit-helper"),
        "a skill never becomes a `/` row"
    );
    // Not even as a prefix: `/commit` matches no builtin, so the menu is
    // empty and the line is left to ship as a skill prompt instead.
    app.draft.input.set("/commit".into());
    assert!(app.slash_matches().is_empty());
    // The catalog is one command away.
    app.draft.input.set("/skill ".into());
    assert_eq!(app.slash_matches().len(), 2, "both skills are candidates");
}

#[test]
fn tab_completes_a_slash_argument_without_running_it() {
    let mut app = test_app();
    app.draft.input.set("/plan o".into());

    let menu = app.slash_matches();
    assert_eq!(
        menu.iter()
            .map(|entry| entry.usage.as_str())
            .collect::<Vec<_>>(),
        ["on", "off"]
    );

    app.handle_key(&KeyEvent::new(KeyCode::Tab, KeyModifiers::none()));
    assert_eq!(app.draft.input.buf(), "/plan on");
    assert!(try_recv(&mut app).is_err());
}

#[test]
fn direct_plan_mode_facts_fold_once_into_client_state() {
    let mut app = test_app();

    app.handle(AppEvent::Ui(UiEvent::PlanMode {
        session: "dsh-test".into(),
        active: true,
    }));
    assert!(app.session.modes.plan);
    let cells_after_first = app.transcript.cells.len();

    app.handle(AppEvent::Ui(UiEvent::PlanMode {
        session: "dsh-test".into(),
        active: true,
    }));
    assert_eq!(
        app.transcript.cells.len(),
        cells_after_first,
        "the same config_option_update is idempotent"
    );
}

#[test]
fn initial_default_plan_mode_does_not_add_an_off_notice() {
    let mut app = test_app();
    let cells_before = app.transcript.cells.len();

    app.handle(AppEvent::Ui(UiEvent::PlanMode {
        session: "dsh-test".into(),
        active: false,
    }));

    assert_eq!(app.transcript.cells.len(), cells_before);
}

/// The direct turn facts still drive the client lifecycle — the queue
/// itself is only moved by the idle status now.
#[test]
fn direct_ui_turn_facts_update_client_lifecycle() {
    let mut app = test_app();
    app.session.state = RunState::Running;
    app.session.run_started = Some(10_000);
    app.session.state_note = "working".into();
    app.queue.prompt_queue.push(QueuedPrompt {
        id: 1,
        blocks: vec![StagedBlock::Text("followup".into())],
        cells: vec![],
    });
    app.queue.queued = 1;

    app.handle(AppEvent::Ui(UiEvent::TurnStart {
        session: "dsh-test".into(),
        turn: 1,
    }));
    assert_eq!(app.queue.queued, 1, "a turn start never moves the queue");
    app.handle(AppEvent::Ctl(CtlEvent::PromptQueued {
        message_id: "dsh-test".into(),
    }));
    assert_eq!(app.queue.queued, 1, "acceptance never moves the queue either");

    app.handle(AppEvent::Ui(UiEvent::SessionStatus {
        session: "dsh-test".into(),
        running: false,
    }));
    assert_eq!(app.queue.queued, 0, "the idle status dispatched the queued head");
    assert!(matches!(app.session.state, RunState::Starting));
    assert!(app.session.run_started.is_some(), "the dispatched turn is timed");
    assert!(app.session.state_note.contains("queued"), "{}", app.session.state_note);

    // The next turn end has an empty queue and settles back to idle.
    app.handle(AppEvent::Ctl(CtlEvent::PromptQueued {
        message_id: "dsh-test".into(),
    }));
    app.handle(AppEvent::Ui(UiEvent::SessionStatus {
        session: "dsh-test".into(),
        running: false,
    }));
    assert!(matches!(app.session.state, RunState::Idle));
    assert!(app.session.run_started.is_none());
    assert!(app.session.state_note.is_empty());
}

#[test]
fn plan_message_keeps_the_slash_prompt_transport() {
    let mut app = test_app();
    app.session.skills = vec![SkillInfo {
        name: "plan".into(),
        description: "Enter plan mode".into(),
        input_hint: None,
        source: None,
    }];

    app.run_slash("plan", "focus on the parser");

    assert!(matches!(app.session.state, RunState::Starting));
    assert!(matches!(
        &app.transcript.cells[0].kind,
        CellKind::User { text, .. }
            if text == "/plan focus on the parser"
    ));
}

#[test]
fn no_key_onboarding_guides_the_platform_and_login() {
    let mut app = test_app();
    assert!(!app.session.cfg.has_credentials());

    app.push_no_key_onboarding();

    let cards: Vec<&str> = app
        .transcript
        .cells
        .iter()
        .filter_map(|cell| match &cell.kind {
            CellKind::MarkdownNotice { text } => Some(text.as_str()),
            _ => None,
        })
        .collect();
    assert_eq!(cards.len(), 1, "{cards:?}");
    assert!(
        cards[0].contains("platform.deepseek.com"),
        "the platform URL guides the user: {}",
        cards[0]
    );
    assert!(
        cards[0].contains("/login sk-"),
        "how to operate: {}",
        cards[0]
    );
    assert!(
        cards[0].contains("credentials.yaml"),
        "where the key lands: {}",
        cards[0]
    );

    // A key present: the same helper still renders (used by tests only),
    // but main.rs gates the call on has_credentials — covered upstream.
}

#[test]
fn login_without_argument_reports_status_never_the_value() {
    let mut app = test_app();
    let mut doc = String::new();

    app.run_slash("login", "");
    keep_keys(&mut app, &mut doc);

    let notices: Vec<&str> = app
        .transcript
        .cells
        .iter()
        .filter_map(|cell| match &cell.kind {
            CellKind::Notice { text, .. } => Some(text.as_str()),
            _ => None,
        })
        .collect();
    assert!(
        notices.iter().any(|text| text.contains("usage: /login")),
        "{notices:?}"
    );
}

#[test]
fn login_stores_the_key_and_rotates_the_running_driver() {
    let cfg = test_cfg();
    let mut app = new_app(cfg, "dsh-test");
    let mut doc = String::new();
    let key = "sk-abcdefgh1234567890";

    app.run_slash("login", key);
    keep_keys(&mut app, &mut doc);

    // The driver gets the rotation command.
    let sent: Vec<Cmd> = try_iter(&mut app);
    assert!(
        sent.iter().any(|cmd| matches!(
            cmd,
            Cmd::SetApiKey { key: Some(key) } if key == "sk-abcdefgh1234567890"
        )),
        "{sent:?}"
    );

    // The key landed in the store; the confirmation is redacted.
    assert_eq!(
        stored_key(Some(doc.as_str()), API_KEY_REF).unwrap(),
        Some("sk-abcdefgh1234567890".into())
    );
    let notices: Vec<String> = app
        .transcript
        .cells
        .iter()
        .filter_map(|cell| match &cell.kind {
            CellKind::Notice { text, .. } => Some(text.clone()),
            _ => None,
        })
        .collect();
    assert!(
        notices.iter().any(|text| text.contains("sk-…7890")),
        "redacted descriptor: {notices:?}"
    );
    assert!(
        !notices
            .iter()
            .any(|text| text.contains("sk-abcdefgh1234567890")),
        "the literal key must not appear in the transcript: {notices:?}"
    );
    assert_eq!(app.session.cfg.key_origin, Some(KeyOrigin::Stored));
    assert!(app.session.cfg.has_credentials());
}

#[test]
fn login_replaces_a_previously_stored_key() {
    let mut app = test_app();
    let mut doc = String::new();
    app.run_slash("login", "sk-first0000001");
    keep_keys(&mut app, &mut doc);
    app.run_slash("login", "sk-second0002");
    keep_keys(&mut app, &mut doc);

    assert_eq!(
        stored_key(Some(doc.as_str()), API_KEY_REF).unwrap(),
        Some("sk-second0002".into())
    );
}

#[test]
fn logout_removes_the_stored_key_and_clears_the_live_driver() {
    let cfg = test_cfg();
    let mut app = new_app(cfg, "dsh-test");
    let mut doc = String::new();
    app.run_slash("login", "sk-abcdefgh1234567890");
    keep_keys(&mut app, &mut doc);
    let _ = try_iter(&mut app);

    app.run_slash("logout", "");
    keep_keys(&mut app, &mut doc);

    // The stored entry is gone and the driver gets the clear command.
    assert_eq!(
        stored_key(Some(doc.as_str()), API_KEY_REF).unwrap(),
        None
    );
    let sent: Vec<Cmd> = try_iter(&mut app);
    assert!(
        sent.iter()
            .any(|cmd| matches!(cmd, Cmd::SetApiKey { key: None })),
        "{sent:?}"
    );
    assert_eq!(app.session.cfg.api_key, None);
    assert_eq!(app.session.cfg.key_origin, None);
    assert!(!app.session.cfg.has_credentials());
}

#[test]
fn logout_when_nothing_is_stored_is_a_quiet_noop() {
    let mut app = test_app();
    let mut doc = String::new();
    assert_eq!(app.session.cfg.key_origin, None);
    let cells_before = app.transcript.cells.len();

    app.run_slash("logout", "");
    keep_keys(&mut app, &mut doc);

    let notices: Vec<&str> = app
        .transcript
        .cells
        .iter()
        .filter_map(|cell| match &cell.kind {
            CellKind::Notice { text, .. } => Some(text.as_str()),
            _ => None,
        })
        .collect();
    assert!(
        notices.iter().any(|text| text.contains("no stored key")),
        "{notices:?}"
    );
    assert_eq!(app.transcript.cells.len(), cells_before + 1);
}

#[test]
fn logout_keeps_an_api_key_override_running() {
    let cfg = test_cfg();
    let mut app = new_app(cfg, "dsh-test");
    let mut doc = String::new();
    // An older stored key loses to the launch override, so both exist.
    doc = store_key(&doc, API_KEY_REF, "sk-stored000001").unwrap();
    app.session.cfg.api_key = Some("sk-override0001".into());
    app.session.cfg.key_origin = Some(KeyOrigin::Flag);

    app.run_slash("logout", "");
    keep_keys(&mut app, &mut doc);

    // The stored record is gone, but the run keeps its explicit override…
    assert_eq!(
        stored_key(Some(doc.as_str()), API_KEY_REF).unwrap(),
        None
    );
    assert_eq!(app.session.cfg.api_key, Some("sk-override0001".into()));
    assert_eq!(app.session.cfg.key_origin, Some(KeyOrigin::Flag));
    // …and the driver is not disturbed.
    assert!(
        try_iter(&mut app)
            .is_empty(),
        "no SetApiKey may reach the driver for a read-only launch override"
    );
    let notices: Vec<String> = app
        .transcript
        .cells
        .iter()
        .filter_map(|cell| match &cell.kind {
            CellKind::Notice { text, .. } => Some(text.clone()),
            _ => None,
        })
        .collect();
    assert!(
        notices
            .iter()
            .any(|text| text.contains("--api-key flag key keeps running")),
        "{notices:?}"
    );
}

/// The menu never rows a skill, but the line still reaches the host: a
/// hand-typed `/name` ships as a prompt and the agent injects the body.
#[test]
fn skill_line_ships_as_prompt_not_unknown_command() {
    let mut app = test_app();
    app.session.skills = vec![SkillInfo {
        name: "commit-helper".into(),
        description: "draft a commit".into(),
        input_hint: None,
        source: None,
    }];
    app.draft.input.set("/commit-helper for the last change".into());
    assert!(
        app.slash_matches().is_empty(),
        "no completer row — the skill is not a command"
    );
    app.submit();
    assert!(
        matches!(app.session.state, RunState::Starting),
        "skill line starts a turn"
    );
    assert!(app.draft.input.is_empty());
}

/// `/skill` with no argument renders the catalog the agent discovered,
/// source file and all; its empty state names the directory instead of
/// reading as "this build has no skills".
#[test]
fn bare_skill_command_lists_the_catalog_or_the_root() {
    let mut app = test_app();
    app.session.skills = vec![
        SkillInfo {
            name: "deploy".into(),
            description: "ship it".into(),
            input_hint: Some("<env>".into()),
            source: Some("/w/.abylab/skills/deploy/SKILL.md".into()),
        },
        SkillInfo {
            name: "triage".into(),
            description: "sort the inbox".into(),
            input_hint: None,
            source: None,
        },
    ];
    app.run_slash("skill", "");
    let overlay = app.panels.view_overlay.as_ref().expect("/skill opens a card");
    assert!(
        !slash_commands().iter().any(|command| command.name == "skills"),
        "the listing is `/skill`'s empty-argument surface, not its own command"
    );
    assert_eq!(overlay.title, "Skills");
    let text = &overlay.text;
    assert!(text.contains("/deploy <env>"), "usage missing:\n{text}");
    assert!(text.contains("ship it"), "description missing:\n{text}");
    assert!(
        text.contains("deploy/SKILL.md"),
        "the source file is shown:\n{text}"
    );
    assert!(
        text.contains("/triage"),
        "a hintless skill shows bare:\n{text}"
    );

    let mut empty = test_app();
    empty.run_slash("skill", "");
    let text = &empty.panels.view_overlay.as_ref().expect("/skill opens a card").text;
    assert!(text.contains("no skills in this workspace"), "{text}");
    assert!(
        text.contains(&format!("{}/.agents/skills", empty.session.cfg.workspace)),
        "the one discovery root is named:\n{text}"
    );
    assert!(
        !text.contains(&empty.session.cfg.home),
        "the home directory is not a skills root any more:\n{text}"
    );
}

/// `/skill <name> [args]` ships the plain `/<name> [args]` line the agent
/// expands — including for a name a builtin shadows, which is the whole
/// point of the two-word form.
#[test]
fn skill_invocation_resolves_the_name_before_shipping() {
    let mut app = test_app();
    app.session.skills = vec![
        SkillInfo {
            name: "deploy".into(),
            description: "ship it".into(),
            input_hint: None,
            source: None,
        },
        SkillInfo {
            name: "plan".into(),
            description: "shadowed by the builtin".into(),
            input_hint: None,
            source: None,
        },
    ];
    app.run_slash("skill", "deploy prod");
    assert!(
        matches!(app.session.state, RunState::Starting),
        "the skill line leaves as a prompt"
    );
    let sent: Vec<Cmd> = try_iter(&mut app);
    assert!(
        matches!(&sent[..], [Cmd::Prompt { text, .. }] if text == "/deploy prod"),
        "{sent:?}"
    );
    assert!(
        app.transcript.cells.iter().any(|cell| matches!(
            &cell.kind,
            CellKind::User { text, .. } if text == "/deploy prod"
        )),
        "the shipped line is what the transcript shows"
    );

    // `/plan on` would be swallowed by the builtin; the two-word form is
    // how a skill of that name still runs. (The first send marked the app
    // busy, so settle it back to idle first.)
    app.session.state = RunState::Idle;
    app.session.prompt_pending = false;
    app.run_slash("skill", "plan on");
    let sent: Vec<Cmd> = try_iter(&mut app);
    assert!(
        matches!(&sent[..], [Cmd::Prompt { text, .. }] if text == "/plan on"),
        "{sent:?}"
    );

    // No argument at all is the listing, not an error.
    let mut app = test_app();
    app.run_slash("skill", "");
    assert!(app.panels.view_overlay.is_some(), "an empty name lists instead");
}

/// An unknown name is caught client-side: shipping `/nope` would just ask
/// the model about a slash command.
#[test]
fn unknown_skill_names_warn_without_shipping() {
    let mut app = test_app();
    app.session.skills = vec![SkillInfo {
        name: "deploy".into(),
        description: "ship it".into(),
        input_hint: None,
        source: None,
    }];
    app.run_slash("skill", "nope now");
    assert!(try_recv(&mut app).is_err(), "nothing is sent");
    assert!(matches!(app.session.state, RunState::Idle));
    assert!(
        app.transcript.cells.iter().any(|cell| matches!(
            &cell.kind,
            CellKind::Notice { text, .. }
                if text.contains("unknown skill nope")
        )),
        "the miss is named"
    );
}

/// `/skill ` lists the catalog as argument candidates, filtered by what is
/// typed, with the hint and the description on the row.
#[test]
fn slash_skill_offers_the_catalog_as_candidates() {
    let mut app = test_app();
    app.session.skills = vec![
        SkillInfo {
            name: "audit".into(),
            description: "审核研究报告".into(),
            input_hint: Some("jp:{code}".into()),
            source: None,
        },
        SkillInfo {
            name: "triage".into(),
            description: "sort the inbox".into(),
            input_hint: None,
            source: None,
        },
    ];

    app.draft.input.set("/skill ".into());
    let menu = app.slash_matches();
    assert_eq!(menu.len(), 2, "every skill is a candidate");
    assert_eq!(menu[0].name, "skill", "the row belongs to the builtin");
    assert_eq!(menu[0].usage, "audit jp:{code}", "the hint rides the row");
    assert_eq!(menu[0].desc, "审核研究报告");
    assert_eq!(menu[0].completion.as_deref(), Some("/skill audit"));
    assert_eq!(menu[1].usage, "triage");
    assert_eq!(menu[1].desc, "sort the inbox");

    app.draft.input.set("/skill tr".into());
    let menu = app.slash_matches();
    assert_eq!(menu.len(), 1, "the typed prefix filters");
    assert_eq!(menu[0].usage, "triage");

    // A skill that takes no arguments runs on the pick.
    app.accept_slash(&menu[0].clone());
    let sent: Vec<Cmd> = try_iter(&mut app);
    assert!(
        matches!(&sent[..], [Cmd::Prompt { text, .. }] if text == "/triage"),
        "{sent:?}"
    );

    // One that declares a placeholder completes and waits instead.
    app.session.prompt_pending = false;
    app.session.state = RunState::Idle;
    app.draft.input.set("/skill au".into());
    let menu = app.slash_matches();
    app.accept_slash(&menu[0].clone());
    assert_eq!(
        app.draft.input.buf(),
        "/skill audit ",
        "the argument is the user's to type"
    );
    assert!(try_recv(&mut app).is_err(), "nothing was sent yet");
}

/// `/login` resolves in the TUI even when the agent advertises a skill of
/// that name — skills add no `/` row, so there is no race to lose.
#[test]
fn login_is_a_tui_builtin_and_shadows_the_agent_skill() {
    let mut app = test_app();
    let mut doc = String::new();
    app.session.skills = vec![SkillInfo {
        name: "login".into(),
        description: "Save a DeepSeek API key into the harness credential store".into(),
        input_hint: None,
        source: None,
    }];
    app.draft.input.set("/log".into());
    let candidates = app.slash_matches();
    let rows: Vec<&str> = candidates.iter().map(|e| e.name.as_str()).collect();
    assert_eq!(
        rows,
        ["login", "logout"],
        "the two builtins, in table order — the skill adds no rows"
    );
    app.draft.input.set("/login sk-test".into());
    app.submit();
    keep_keys(&mut app, &mut doc);
    assert!(
        !matches!(app.session.state, RunState::Starting),
        "the builtin is a local op, never a prompt"
    );
    assert_eq!(
        stored_key(Some(doc.as_str()), API_KEY_REF).unwrap(),
        Some("sk-test".into())
    );
}

/// Both twins stay local ops; the agent's same-named skills are reachable
/// only as `/skill login` / `/skill logout`.
#[test]
fn logout_is_a_tui_builtin_and_shadows_the_agent_skill() {
    let mut app = test_app();
    app.session.skills = vec![
        SkillInfo {
            name: "logout".into(),
            description: "sign out".into(),
            input_hint: None,
            source: None,
        },
        SkillInfo {
            name: "login".into(),
            description: "agent login".into(),
            input_hint: None,
            source: None,
        },
    ];
    app.draft.input.set("/".into());
    let menu = app.slash_matches();
    assert_eq!(
        menu.len(),
        slash_commands().len(),
        "the bare `/` menu is the builtin table, nothing appended"
    );
    for row in &menu {
        assert!(
            slash_commands().iter().any(|c| c.name == row.name),
            "{} is not a builtin",
            row.name
        );
    }
    assert!(menu.iter().any(|e| e.name == "logout"));
    assert!(menu.iter().any(|e| e.name == "login"));
    // The skills did not disappear — `/skill ` still offers both.
    app.draft.input.set("/skill ".into());
    let candidates = app.slash_matches();
    let mut catalog: Vec<&str> = candidates.iter().map(|e| e.usage.as_str()).collect();
    catalog.sort_unstable();
    assert_eq!(catalog, ["login", "logout"], "the catalog keeps them both");
}

#[test]
fn staged_images_send_together_with_token_free_caption() {
    let mut app = test_app();
    app.stage_image(
        "clipboard.png".into(),
        "clipboard".into(),
        "image/png".into(),
        vec![0u8; 8],
        String::new(),
    );
    app.stage_image(
        "shot-2.png".into(),
        "clipboard".into(),
        "image/png".into(),
        vec![1u8; 8],
        String::new(),
    );
    app.draft.input.insert_str("look");
    app.submit();
    assert!(app.draft.pending_images.is_empty(), "tray cleared after send");
    assert!(app.draft.input.is_empty());
    assert!(
        matches!(app.session.state, RunState::Starting),
        "sending starts the turn"
    );
}

#[test]
fn draft_split_keeps_text_and_images_interleaved() {
    let mut staged = Staged::default();
    staged
        .add(
            Locale::En,
            "a.png".into(),
            "/tmp/a.png".into(),
            "image/png".into(),
            vec![1],
        )
        .unwrap();
    staged
        .add(
            Locale::En,
            "b.png".into(),
            "/tmp/b.png".into(),
            "image/png".into(),
            vec![2],
        )
        .unwrap();
    let blocks =
        split_draft_into_staged_blocks("see [image 1] then [image 2] done", &staged.drain());
    assert_eq!(blocks.len(), 5);
    assert!(matches!(&blocks[0], StagedBlock::Text(t) if t == "see"));
    assert!(matches!(&blocks[1], StagedBlock::Image(a) if a.name == "a.png"));
    assert!(matches!(&blocks[2], StagedBlock::Text(t) if t == " then "));
    assert!(matches!(&blocks[3], StagedBlock::Image(a) if a.name == "b.png"));
    assert!(matches!(&blocks[4], StagedBlock::Text(t) if t == "done"));
    let prompt = prompt_blocks_from_staged(&blocks);
    assert!(matches!(&prompt[0], PromptBlock::Text(t) if t == "see"));
    assert!(matches!(&prompt[1], PromptBlock::Image(a) if a.path == "/tmp/a.png"));
    assert!(matches!(&prompt[2], PromptBlock::Text(t) if t == " then "));
    assert!(matches!(&prompt[3], PromptBlock::Image(a) if a.path == "/tmp/b.png"));
    assert!(matches!(&prompt[4], PromptBlock::Text(t) if t == "done"));
}

#[test]
fn draft_split_does_not_append_chips_missing_from_the_draft() {
    let mut staged = Staged::default();
    staged
        .add(
            Locale::En,
            "kept.png".into(),
            "/tmp/kept.png".into(),
            "image/png".into(),
            vec![1],
        )
        .unwrap();
    staged
        .add(
            Locale::En,
            "orphan.png".into(),
            "/tmp/orphan.png".into(),
            "image/png".into(),
            vec![2],
        )
        .unwrap();
    let blocks = split_draft_into_staged_blocks("hello [image 1]", &staged.drain());
    assert_eq!(blocks.len(), 2);
    assert!(matches!(&blocks[0], StagedBlock::Text(t) if t == "hello"));
    assert!(matches!(&blocks[1], StagedBlock::Image(a) if a.name == "kept.png"));
}

#[test]
fn submit_echoes_interleaved_transcript_not_caption_then_images() {
    let mut app = test_app();
    app.stage_image(
        "a.png".into(),
        "/tmp/a.png".into(),
        "image/png".into(),
        vec![0u8; 4],
        String::new(),
    );
    app.stage_image(
        "b.png".into(),
        "/tmp/b.png".into(),
        "image/png".into(),
        vec![1u8; 4],
        String::new(),
    );
    app.draft.input.set("see [image 1] then [image 2] done".into());
    app.submit();
    let kinds: Vec<String> = app
        .transcript
        .cells
        .iter()
        .map(|c| match &c.kind {
            CellKind::User { text, .. } => format!("text:{text}"),
            CellKind::Image { name, caption, .. } => {
                format!("image:{name}:{caption}")
            }
            _ => "other".into(),
        })
        .collect();
    assert_eq!(
        kinds,
        [
            "text:see",
            "image:a.png:",
            "text: then ",
            "image:b.png:",
            "text:done"
        ]
    );
}

fn ask_options() -> Vec<PermissionAskOption> {
    vec![
        PermissionAskOption {
            option_id: "reject".into(),
            kind: "reject_once".into(),
            name: "Reject".into(),
        },
        PermissionAskOption {
            option_id: "allow".into(),
            kind: "allow_once".into(),
            name: "Allow once".into(),
        },
    ]
}

#[test]
fn acp_permission_ask_enter_selects_option_id() {
    let mut app = test_app();
    app.handle(AppEvent::PermissionAsk {
        title: "bash".into(),
        options: ask_options(),
    });
    let ask = app.panels.permission_ask.as_ref().expect("overlay opens");
    assert_eq!(ask.title, "bash");
    assert_eq!(ask.sel, 1, "allow_once is preselected, not auto-chosen");
    assert_eq!(ask.options[0].name, "Reject");
    app.handle_key(&KeyEvent::new(KeyCode::Enter, KeyModifiers::none()));
    assert!(app.panels.permission_ask.is_none());
    assert_eq!(
        reply(&mut app),
        PermissionAskReply::Selected("allow".into())
    );
}

#[test]
fn acp_permission_ask_esc_cancels() {
    let mut app = test_app();
    app.handle(AppEvent::PermissionAsk {
        title: "bash".into(),
        options: ask_options(),
    });
    app.handle_key(&KeyEvent::new(KeyCode::Esc, KeyModifiers::none()));
    assert!(app.panels.permission_ask.is_none());
    assert_eq!(
        reply(&mut app),
        PermissionAskReply::Cancelled
    );
}
