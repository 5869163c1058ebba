use abylab_tui::app::App;
use abylab_tui::app::state::Host;
use abylab_tui::appearance::{Mode, PalettePack};
use abylab_tui::commands::Phrases;
use abylab_tui::controller::{BrowserMove, Effect};
use abylab_tui::file_ref::{FileEntry, is_staying, menu_hint};
use abylab_tui::input::keys::{KeyCode, KeyEvent, KeyModifiers};
use abylab_tui::input::normalize::ModifierState;
use abylab_tui::locale::Locale;
use abylab_tui::path::FilePath;
use abylab_tui::runtime::{Flags, RuntimeConfig, UiSettings};

fn host() -> Host {
    Host {
        now: 10_000,
        held: ModifierState::default(),
        known_modes: None,
        branch: None,
        mac: false,
    }
}

fn phrases() -> Phrases {
    Phrases {
        tips_en: vec![
            "esc interrupts a running turn — your draft survives".into(),
            "enter queues a follow-up; ctrl+enter steers the active turn now".into(),
        ],
        tips_zh: vec!["esc 中断".into(), "enter 排队".into()],
        commands_zh: vec![
            ("vim".into(), "切换 vim 模态编辑（默认关闭）".into()),
            ("status".into(), "状态、模型和实时用量统计".into()),
        ],
    }
}

fn packs() -> Vec<PalettePack> {
    ["default", "ayu", "one", "nord"]
        .iter()
        .map(|id| PalettePack { id: id.to_string(), label: id.to_string() })
        .collect()
}

fn settings() -> UiSettings {
    UiSettings {
        language: Locale::En,
        model: None,
        effort: None,
        permission: None,
        theme: None,
        palette: None,
    }
}

fn test_cfg() -> RuntimeConfig {
    RuntimeConfig {
        workspace: "/ws".into(),
        home: "/home/me/.abylab".into(),
        sessions_root: "/home/me/.abylab/sessions".into(),
        provider: "deepseek-official".into(),
        model: "deepseek-v4-flash".into(),
        max_tokens: None,
        base_url: None,
        api_key: None,
        key_origin: None,
        flags: Flags {
            model: false,
            theme: false,
        },
    }
}

fn new_app(cfg: RuntimeConfig, id: &str) -> App {
    App::new(
        packs(),
        Mode::Dark,
        "default".into(),
        phrases(),
        cfg,
        id.into(),
        settings(),
        false,
        host(),
    )
}

fn test_app() -> App {
    new_app(test_cfg(), "dsh-test")
}

/// A workspace in memory, and the browser that walks it.
struct Browser {
    dirs: Vec<&'static str>,
    files: Vec<&'static str>,
    show_hidden: bool,
}

impl Browser {
    fn new() -> Self {
        Browser {
            dirs: vec!["/ws", "/ws/src", "/ws/src/nested"],
            files: vec!["/ws/src/main.rs", "/ws/README.md", "/ws/notes.txt"],
            show_hidden: false,
        }
    }

    fn is_dir(&self, path: &FilePath) -> bool {
        self.dirs.iter().any(|dir| FilePath::parse(dir) == *path)
    }

    /// The way up, then the directories, then the files.
    fn list(&self, dir: &FilePath) -> Option<Vec<FileEntry>> {
        if !self.is_dir(dir) {
            return None;
        }
        let mut rows = vec![FileEntry {
            name: "../".into(),
            path: dir.parent().expect("a way up"),
            is_dir: true,
        }];
        for (paths, is_dir) in [(&self.dirs, true), (&self.files, false)] {
            for path in paths {
                let path = FilePath::parse(path);
                let name = path.text().rsplit('/').next().unwrap_or("").to_string();
                if path.parent().as_ref() != Some(dir)
                    || (name.starts_with('.') && !self.show_hidden)
                {
                    continue;
                }
                let name = if is_dir { format!("{name}/") } else { name };
                rows.push(FileEntry { name, path, is_dir });
            }
        }
        Some(rows)
    }

    /// Do what the application left to be done of its browser.
    fn serve(&mut self, app: &mut App) {
        loop {
            let effects = app.ctl.take();
            if effects.is_empty() {
                return;
            }
            for effect in effects {
                match effect {
                    Effect::OpenMenu { row, token } => {
                        let base = FilePath::parse(&app.session.cfg.workspace);
                        app.file_menu_opened(row, &token, self.list(&base));
                    }
                    Effect::WalkMenu(mut walk) => {
                        while walk.probe().is_some_and(|dir| self.is_dir(&dir)) {
                            walk.enter();
                        }
                        let rows = self.list(&walk.cwd);
                        app.file_menu_walked(&walk, rows);
                    }
                    Effect::SearchMenu { dirs } => {
                        for dir in dirs {
                            let rows = self.list(&dir).expect("a listed directory");
                            if app.file_menu_followed(dir, rows) {
                                break;
                            }
                        }
                    }
                    Effect::Browse(to) => self.browse(app, to),
                    _ => {}
                }
            }
        }
    }

    fn browse(&mut self, app: &mut App, to: BrowserMove) {
        let menu = app.draft.file_menu.as_ref().expect("menu open");
        let (cwd, filter) = (menu.cwd.clone(), menu.filter.clone());
        let (mut selected, n) = (menu.selected, menu.files.len());
        match to {
            BrowserMove::Up => selected = selected.checked_sub(1).unwrap_or(n - 1),
            BrowserMove::Down => selected = (selected + 1) % n,
            BrowserMove::ToggleShowHidden => self.show_hidden = !self.show_hidden,
            _ => {}
        }
        let mut rows = self.list(&cwd).expect("a listed directory");
        rows.retain(|row| is_staying(row, &filter));
        app.file_menu_moved(cwd, rows, selected);
    }
}

fn press(app: &mut App, browser: &mut Browser, code: KeyCode, modifiers: KeyModifiers) {
    app.handle_key(&KeyEvent::new(code, modifiers));
    browser.serve(app);
}

fn plain(app: &mut App, browser: &mut Browser, code: KeyCode) {
    press(app, browser, code, KeyModifiers::none());
}

fn spell(app: &mut App, browser: &mut Browser, text: &str) {
    for ch in text.chars() {
        plain(app, browser, KeyCode::Char(ch));
    }
}

fn names(app: &App) -> Vec<String> {
    let menu = app.draft.file_menu.as_ref().expect("browser open");
    menu.files.iter().map(|file| file.name.clone()).collect()
}

fn current(app: &App) -> String {
    let menu = app.draft.file_menu.as_ref().expect("browser open");
    menu.files[menu.selected].name.clone()
}

fn cwd(app: &App) -> String {
    app.draft.file_menu.as_ref().expect("browser open").cwd.text()
}

#[test]
fn at_opens_the_browser_and_enter_inserts_the_mention() {
    let (mut app, mut browser) = (test_app(), Browser::new());
    let before = app.draft.input.buf();
    spell(&mut app, &mut browser, "@");
    assert!(
        app.draft.file_menu.is_some(),
        "the @file browser opens on a fresh token"
    );
    // Enter replaces the token with the workspace mention.
    app.file_menu_settle();
    assert!(app.draft.file_menu.is_none());
    let after = app.draft.input.buf();
    let mention = after.strip_prefix(&before).unwrap_or("");
    assert!(mention.starts_with('@'), "mention inserted: {mention:?}");
}

#[test]
fn esc_dismiss_stays_closed_until_the_token_changes() {
    let (mut app, mut browser) = (test_app(), Browser::new());
    spell(&mut app, &mut browser, "@");
    plain(&mut app, &mut browser, KeyCode::Esc);
    assert!(app.draft.file_menu.is_none(), "esc closes the browser");
    // The same token stays closed.
    app.refresh_file_menu();
    browser.serve(&mut app);
    assert!(app.draft.file_menu.is_none(), "dismissed token stays closed");
    // Typing more query text re-opens the browser.
    spell(&mut app, &mut browser, "s");
    assert!(
        app.draft.file_menu.is_some(),
        "a changed token reopens the browser"
    );
    app.dismiss_file_menu();
    assert!(app.draft.file_menu.is_none());
}

#[test]
fn caret_leaving_the_token_closes_the_menu() {
    let (mut app, mut browser) = (test_app(), Browser::new());
    spell(&mut app, &mut browser, "@");
    assert!(app.draft.file_menu.is_some());
    spell(&mut app, &mut browser, " ");
    assert!(app.draft.file_menu.is_none(), "whitespace ends the token");
    assert!(app.draft.file_menu_dismissed.is_none());
}

/// ctrl+h is the explorer's own hidden-entries toggle, and it stays
/// modal while the browser is open (the draft keeps its text).
#[test]
fn ctrl_h_toggles_hidden_files_in_the_browser() {
    let (mut app, mut browser) = (test_app(), Browser::new());
    browser.files.push("/ws/.env");

    spell(&mut app, &mut browser, "@");
    assert!(!browser.show_hidden);
    assert!(!names(&app).contains(&".env".to_string()), ".env hidden by default");

    press(&mut app, &mut browser, KeyCode::Char('h'), KeyModifiers::control());
    assert!(browser.show_hidden, "ctrl+h reveals hidden entries");
    assert!(names(&app).contains(&".env".to_string()), ".env listed while hidden shown");
    assert_eq!(app.draft.input.buf(), "@", "the toggle is modal, not typed");

    // Toggling back hides them again and the browser still navigates.
    press(&mut app, &mut browser, KeyCode::Char('h'), KeyModifiers::control());
    assert!(!browser.show_hidden);
    assert!(!names(&app).contains(&".env".to_string()), ".env hidden again");
    plain(&mut app, &mut browser, KeyCode::Down); // src/
    plain(&mut app, &mut browser, KeyCode::Down); // README.md
    plain(&mut app, &mut browser, KeyCode::Enter);
    assert_eq!(app.draft.input.buf(), "@README.md");
}

/// The `/` menu and the `@` browser are mutually exclusive: a banner
/// command draft never opens the mention browser under it.
#[test]
fn slash_draft_does_not_open_the_browser() {
    let (mut app, mut browser) = (test_app(), Browser::new());
    spell(&mut app, &mut browser, "/th");
    assert!(app.slash_completion_open(), "the / menu owns the band");

    spell(&mut app, &mut browser, "@");
    assert!(
        app.draft.file_menu.is_none(),
        "slash context never opens the @ menu"
    );

    // Drop the command prefix and the browser takes over.
    for _ in 0..4 {
        plain(&mut app, &mut browser, KeyCode::Backspace);
    }
    spell(&mut app, &mut browser, "@");
    assert!(app.draft.file_menu.is_some(), "a plain @ opens the browser");
}

/// Send-now (ctrl+enter) clears the draft — the browser must not
/// survive the send and float over the busy transcript.
#[test]
fn send_now_closes_the_browser() {
    let (mut app, mut browser) = (test_app(), Browser::new());
    spell(&mut app, &mut browser, "@");
    assert!(app.draft.file_menu.is_some());

    press(&mut app, &mut browser, KeyCode::Enter, KeyModifiers::control());
    assert!(app.draft.file_menu.is_none(), "the send closes the browser");
}

/// Typing narrows the listing itself, not just the highlight: non-matching
/// entries leave the popup.
#[test]
fn browser_filter_narrows_the_listing() {
    let (mut app, mut browser) = (test_app(), Browser::new());
    spell(&mut app, &mut browser, "@read");

    let shown = names(&app);
    assert!(shown.contains(&"README.md".to_string()), "the match stays: {shown:?}");
    assert!(
        !shown.contains(&"notes.txt".to_string()) && !shown.contains(&"src/".to_string()),
        "non-matching entries leave the listing: {shown:?}"
    );
    assert_eq!(current(&app), "README.md");

    // Taking the query back brings the whole listing back.
    for _ in 0..4 {
        plain(&mut app, &mut browser, KeyCode::Backspace);
    }
    assert_eq!(names(&app), ["../", "src/", "README.md", "notes.txt"]);
    assert_eq!(current(&app), "README.md", "the highlight stays on its row");
}

/// The browser's hint row names the modal keys, ctrl+h included.
#[test]
fn browser_hint_names_the_hidden_toggle() {
    let hint = menu_hint(Locale::En);
    assert!(hint.contains("ctrl+h hidden"), "hint row: {hint}");
    assert!(hint.contains("enter pick"), "hint row: {hint}");
}

/// Tab / → on a directory rewrites the token to `@dir/` *and* takes the
/// browser inside: the listing must be the child's.
#[test]
fn tab_and_right_drill_into_the_selected_directory() {
    for key in [KeyCode::Tab, KeyCode::Right] {
        let (mut app, mut browser) = (test_app(), Browser::new());
        spell(&mut app, &mut browser, "@src");
        assert_eq!(current(&app), "src/", "the query preselected the directory");

        plain(&mut app, &mut browser, key);

        assert_eq!(app.draft.input.buf(), "@src/", "{key:?} keeps drilling open");
        assert_eq!(cwd(&app), "/ws/src", "{key:?} enters src/");
        assert_eq!(names(&app), ["../", "nested/", "main.rs"], "{key:?}");

        // Enter settles the drilled dir into a mention from the child.
        plain(&mut app, &mut browser, KeyCode::Down);
        plain(&mut app, &mut browser, KeyCode::Enter);
        assert_eq!(app.draft.input.buf(), "@src/nested/", "{key:?}");
    }
}

/// A quoted token keeps its quote open across the drill (`@"dir with
/// space/`), and the browser lands inside it.
#[test]
fn tab_drills_into_a_quoted_directory() {
    let (mut app, mut browser) = (test_app(), Browser::new());
    browser.dirs.push("/ws/with space");
    spell(&mut app, &mut browser, "@with");
    plain(&mut app, &mut browser, KeyCode::Tab);

    assert_eq!(app.draft.input.buf(), "@\"with space/");
    assert_eq!(cwd(&app), "/ws/with space");
    let menu = app.draft.file_menu.as_ref().expect("browser stays open");
    assert!(menu.quoted(), "the quoted form survives the drill");
}

/// The follow search (`@nested` with no `nested*` in the root hops the
/// browser into `src/`) plus the drill: the token jumps to the full
/// workspace-relative path and the listing is the nested directory's.
#[test]
fn tab_drills_after_the_follow_search() {
    let (mut app, mut browser) = (test_app(), Browser::new());
    spell(&mut app, &mut browser, "@nested");
    assert_eq!(cwd(&app), "/ws/src", "the follow search landed in src/");

    plain(&mut app, &mut browser, KeyCode::Tab);
    assert_eq!(app.draft.input.buf(), "@src/nested/");
    assert_eq!(cwd(&app), "/ws/src/nested");
}
