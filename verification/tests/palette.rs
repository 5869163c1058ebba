use abylab_tui::app::App;
use abylab_tui::app::state::Host;
use abylab_tui::appearance::{Mode, PalettePack};
use abylab_tui::bus::{AppEvent, MouseEvent, MouseEventKind, TermEvent};
use abylab_tui::commands::{Phrases, slash_commands};
use abylab_tui::controller::Effect;
use abylab_tui::input::keys::{KeyCode, KeyEvent, KeyModifiers};
use abylab_tui::input::normalize::ModifierState;
use abylab_tui::locale::Locale;
use abylab_tui::runtime::{Flags, RuntimeConfig, UiSettings};

fn host() -> Host {
    Host {
        now: 10_000,
        held: ModifierState::default(),
        known_modes: None,
        branch: None,
        mac: false,
    }
}

fn phrases() -> Phrases {
    Phrases {
        tips_en: vec![
            "esc interrupts a running turn — your draft survives".into(),
            "enter queues a follow-up; ctrl+enter steers the active turn now".into(),
        ],
        tips_zh: vec!["esc 中断".into(), "enter 排队".into()],
        commands_zh: vec![
            ("vim".into(), "切换 vim 模态编辑（默认关闭）".into()),
            ("status".into(), "状态、模型和实时用量统计".into()),
        ],
    }
}

fn packs() -> Vec<PalettePack> {
    ["default", "ayu", "one", "nord"]
        .iter()
        .map(|id| PalettePack { id: id.to_string(), label: id.to_string() })
        .collect()
}

fn settings() -> UiSettings {
    UiSettings {
        language: Locale::En,
        model: None,
        effort: None,
        permission: None,
        theme: None,
        palette: None,
    }
}

fn test_cfg() -> RuntimeConfig {
    RuntimeConfig {
        workspace: "/tmp".into(),
        home: "/home/me/.abylab".into(),
        sessions_root: "/home/me/.abylab/sessions".into(),
        provider: "deepseek-official".into(),
        model: "deepseek-v4-flash".into(),
        max_tokens: None,
        base_url: None,
        api_key: None,
        key_origin: None,
        flags: Flags {
            model: false,
            theme: false,
        },
    }
}

fn new_app(cfg: RuntimeConfig, id: &str) -> App {
    App::new(
        packs(),
        Mode::Dark,
        "default".into(),
        phrases(),
        cfg,
        id.into(),
        settings(),
        false,
        host(),
    )
}

fn test_app() -> App {
    new_app(test_cfg(), "dsh-test")
}

/// A fresh install opens on One, dark. The built-in pack is not gone — it is a
/// row of the gallery, not the starting point.
#[test]
fn starts_on_the_one_pack() {
    let app = test_app();
    assert_eq!(app.look.active_palette_id, "one");
    assert_eq!(app.look.mode, Mode::Dark);
    assert_eq!(app.look.painted, "one");
    assert!(app.look.palettes.iter().any(|pack| pack.id == "default"));
}

#[test]
fn slash_theme_dark_light_stay_in_active_pack() {
    let mut app = test_app();
    app.run_slash("theme", "one");
    app.run_slash("theme", "light");
    assert_eq!(app.look.active_palette_id, "one");
    assert_eq!(app.look.mode, Mode::Light);
    assert_eq!(app.look.painted, "one");
    app.run_slash("theme", "dark");
    assert_eq!(app.look.mode, Mode::Dark);
    assert_eq!(app.look.painted, "one");
}

#[test]
fn slash_theme_usage_mentions_pack_ids() {
    let commands = slash_commands();
    let theme = commands.iter().find(|c| c.name == "theme").unwrap();
    assert!(
        theme.usage.contains("id"),
        "usage should mention pack ids, got {}",
        theme.usage
    );
}

fn key(app: &mut App, code: KeyCode) {
    app.handle_key(&KeyEvent::new(code, KeyModifiers::none()));
}

/// Walk the open theme dialog's highlight onto `id`'s row, ↓ one row at a
/// time so the tests do not depend on where the gallery puts it.
fn highlight_pack(app: &mut App, id: &str) {
    let highlighted = |app: &App| {
        app.panels.picker
            .as_ref()
            .and_then(|picker| picker.items.get(picker.sel))
            .map(|item| item.id.clone())
    };
    for _ in 0..app.look.palettes.len() {
        if highlighted(app).as_deref() == Some(id) {
            return;
        }
        key(app, KeyCode::Down);
    }
    panic!("the dialog never reached {id}");
}

fn wheel(app: &mut App, kind: MouseEventKind) {
    app.handle(AppEvent::Term(TermEvent::Mouse(MouseEvent {
        kind,
        column: 40,
        row: 10,
    })));
}

/// The theme dialog lives on its highlight: arrows paint the row under it
/// immediately, but only Enter commits — the committed pack and
/// `settings.json` wait for the confirmation.
#[test]
fn theme_dialog_arrows_preview_and_only_enter_commits() {
    let mut app = test_app();
    app.run_slash("theme", "");
    {
        let picker = app.panels.picker.as_ref().expect("the dialog opens");
        assert_eq!(
            picker.items[picker.sel].id, app.look.active_palette_id,
            "the committed row opens highlighted"
        );
    }

    // ↓ onto ayu: the painter follows right away, the committed pack does
    // not.
    highlight_pack(&mut app, "ayu");
    assert_eq!(app.look.painted, "ayu");
    assert_eq!(app.look.active_palette_id, "one", "arrows only preview");
    assert!(app.panels.picker.is_some(), "preview must keep browsing open");
    assert_eq!(app.look.theme_preview.as_deref(), Some("ayu"));

    // Back onto the committed row → the preview is gone.
    highlight_pack(&mut app, "one");
    assert_eq!(app.look.painted, "one");
    assert!(app.look.theme_preview.is_none());

    // Onto ayu once more, then Enter confirms: the dialog closes, ayu
    // commits.
    highlight_pack(&mut app, "ayu");
    assert_eq!(app.look.painted, "ayu");
    assert_eq!(app.look.active_palette_id, "one", "still only previewed");
    key(&mut app, KeyCode::Enter);
    assert!(app.panels.picker.is_none());
    assert_eq!(app.look.active_palette_id, "ayu");
    assert_eq!(app.look.painted, "ayu");
    assert!(app.look.theme_preview.is_none(), "the commit clears the preview");
}

/// Esc and the wheel follow the same rule: the wheel previews, Esc closes
/// the dialog and the committed pack comes back — nothing sticks.
#[test]
fn theme_dialog_esc_and_wheel_revert_to_the_committed_pack() {
    let mut app = test_app();
    app.run_slash("theme", "");

    wheel(&mut app, MouseEventKind::ScrollDown);
    assert_ne!(app.look.painted, "one", "one notch previews the next row");
    assert!(app.panels.picker.is_some(), "the wheel keeps the dialog open");
    wheel(&mut app, MouseEventKind::ScrollUp);
    assert_eq!(app.look.painted, "one", "back on the committed row");

    highlight_pack(&mut app, "ayu");
    assert_eq!(app.look.painted, "ayu");
    key(&mut app, KeyCode::Esc);
    assert!(app.panels.picker.is_none());
    assert_eq!(app.look.active_palette_id, "one");
    assert_eq!(
        app.look.painted, "one",
        "Esc must revert the preview — arrows never confirm"
    );
}

/// A preview must never reach the kept preferences; the Enter that follows it
/// must.
#[test]
fn theme_preview_paints_without_persisting() {
    let mut app = test_app();
    app.run_slash("theme", "");

    highlight_pack(&mut app, "ayu");
    assert_eq!(app.look.painted, "ayu");
    assert!(
        !app.ctl.take().iter().any(|effect| matches!(effect, Effect::SaveSettings(_))),
        "a preview must not be kept"
    );

    key(&mut app, KeyCode::Enter);
    assert!(
        app.ctl.take().iter().any(|effect| matches!(
            effect,
            Effect::SaveSettings(kept) if kept.palette.as_deref() == Some("ayu")
        )),
        "the commit keeps the pack"
    );
}

/// ctrl+t inside the dialog (the title advertises it) flips the mode of
/// the *previewed* pack and keeps browsing.
#[test]
fn theme_dialog_ctrl_t_toggles_the_previewed_pack() {
    let mut app = test_app();
    app.run_slash("theme", "");
    highlight_pack(&mut app, "ayu");

    app.handle_key(&KeyEvent::new(KeyCode::Char('t'), KeyModifiers::control()));
    assert_eq!(app.look.mode, Mode::Light);
    assert_eq!(app.look.painted, "ayu", "the toggle stays in-pack");
    assert_eq!(app.look.active_palette_id, "one", "still only previewed");
    assert!(app.panels.picker.is_some(), "ctrl+t must not close the dialog");

    // Esc drops the preview back to the committed pack — in the mode the
    // toggle left behind.
    key(&mut app, KeyCode::Esc);
    assert_eq!(app.look.mode, Mode::Light);
    assert_eq!(app.look.painted, "one", "One light, not ayu");
}

/// The `/theme ` candidate popup previews the palette under its
/// highlight and reverts when the popup closes — arrows never confirm.
#[test]
fn slash_theme_popup_previews_and_reverts_without_enter() {
    let mut app = test_app();
    app.draft.input.set("/theme ".into());

    // Rows: dark · light · default · ayu …
    key(&mut app, KeyCode::Down);
    assert_eq!(app.look.painted, "one", "the `light` row previews nothing");
    key(&mut app, KeyCode::Down);
    assert_eq!(
        app.look.painted, "default",
        "the `default` row previews the built-in pack"
    );
    key(&mut app, KeyCode::Down);
    assert_eq!(app.look.painted, "ayu", "the ayu row previews it");
    assert_eq!(app.look.active_palette_id, "one", "arrows only preview");
    assert_eq!(app.draft.input.buf(), "/theme ", "the draft survives the preview");

    // Esc dismisses the popup and reverts with it.
    key(&mut app, KeyCode::Esc);
    assert!(app.draft.input.is_empty());
    assert_eq!(app.look.painted, "one", "Esc reverts the popup preview");
}

/// Enter on the highlighted row is the confirmation there too.
#[test]
fn slash_theme_popup_enter_commits_the_previewed_pack() {
    let mut app = test_app();
    app.draft.input.set("/theme ".into());
    for _ in 0..3 {
        key(&mut app, KeyCode::Down);
    }
    assert_eq!(app.look.painted, "ayu");
    assert_eq!(app.look.active_palette_id, "one");

    key(&mut app, KeyCode::Enter);
    assert_eq!(app.look.active_palette_id, "ayu");
    assert_eq!(app.look.painted, "ayu");
    assert!(
        app.draft.input.is_empty(),
        "Enter runs the command and clears the draft"
    );
    assert!(app.look.theme_preview.is_none());
}
