use abylab_tui::app::App;
use abylab_tui::app::state::{Host, SubagentView};
use abylab_tui::appearance::{Mode, PalettePack};
use abylab_tui::bus::{AppEvent, MouseButton, MouseEvent, MouseEventKind, TermEvent};
use abylab_tui::commands::Phrases;
use abylab_tui::events::UiEvent;
use abylab_tui::input::keys::{KeyCode, KeyEvent, KeyModifiers};
use abylab_tui::input::normalize::ModifierState;
use abylab_tui::locale::Locale;
use abylab_tui::runtime::{Flags, RuntimeConfig, UiSettings};
use abylab_tui::selection::{
    ChatView, InputSel, Rect, SelPoint, Selection, slice_by_cells, word_span,
};
use abylab_tui::transcript::Transcript;

fn host() -> Host {
    Host {
        now: 10_000,
        held: ModifierState::default(),
        known_modes: None,
        branch: None,
        mac: false,
    }
}

fn phrases() -> Phrases {
    Phrases {
        tips_en: vec![
            "esc interrupts a running turn — your draft survives".into(),
            "enter queues a follow-up; ctrl+enter steers the active turn now".into(),
        ],
        tips_zh: vec!["esc 中断".into(), "enter 排队".into()],
        commands_zh: vec![
            ("vim".into(), "切换 vim 模态编辑（默认关闭）".into()),
            ("status".into(), "状态、模型和实时用量统计".into()),
        ],
    }
}

fn packs() -> Vec<PalettePack> {
    ["default", "ayu", "one", "nord"]
        .iter()
        .map(|id| PalettePack { id: id.to_string(), label: id.to_string() })
        .collect()
}

fn settings() -> UiSettings {
    UiSettings {
        language: Locale::En,
        model: None,
        effort: None,
        permission: None,
        theme: None,
        palette: None,
    }
}

fn test_cfg() -> RuntimeConfig {
    RuntimeConfig {
        workspace: "/tmp".into(),
        home: "/home/me/.abylab".into(),
        sessions_root: "/home/me/.abylab/sessions".into(),
        provider: "deepseek-official".into(),
        model: "deepseek-v4-flash".into(),
        max_tokens: None,
        base_url: None,
        api_key: None,
        key_origin: None,
        flags: Flags {
            model: false,
            theme: false,
        },
    }
}

fn new_app(cfg: RuntimeConfig, id: &str) -> App {
    App::new(
        packs(),
        Mode::Dark,
        "default".into(),
        phrases(),
        cfg,
        id.into(),
        settings(),
        false,
        host(),
    )
}

fn test_app() -> App {
    new_app(test_cfg(), "dsh-test")
}

fn rect(x: u16, y: u16, width: u16, height: u16) -> Rect {
    Rect { x, y, width, height }
}

fn view(lines: &[&str]) -> ChatView {
    ChatView {
        area: rect(1, 0, 60, 10),
        top: 0,
        total: lines.len(),
        lines: lines.iter().map(|s| s.to_string()).collect(),
        owners: vec![None; lines.len()],
        users: Vec::new(),
    }
}

fn sel(a: (usize, usize), h: (usize, usize)) -> Selection {
    Selection {
        anchor: SelPoint {
            line: a.0,
            col: a.1,
        },
        head: SelPoint {
            line: h.0,
            col: h.1,
        },
    }
}

#[test]
fn slice_by_cells_handles_wide_chars() {
    assert_eq!(slice_by_cells("hello world", 6, 11), "world");
    // 选=2 cells: [0,2) 中=[2,4) 即=[4,6)
    assert_eq!(slice_by_cells("选中即copy", 2, 6), "中即");
    // a boundary-straddling wide char is kept
    assert_eq!(slice_by_cells("选中", 1, 3), "选中");
    assert_eq!(slice_by_cells("abc", 0, usize::MAX), "abc");
}

#[test]
fn selection_text_joins_lines_and_orders_reverse_drags() {
    let mut app = test_app();
    app.chat.view = view(&["first line  ", "second", "third"]);
    // forward drag: line0 col6 → line2 col2 (inclusive)
    let fwd = app.chat.view.selection_text(sel((0, 6), (2, 2)));
    assert_eq!(fwd, "line\nsecond\nthi");
    // dragging upward yields the same text
    let rev = app.chat.view.selection_text(sel((2, 2), (0, 6)));
    assert_eq!(fwd, rev);
}

/// A click in the well places the caret at the clicked char; a drag arms
/// the composer highlight, and releasing copies the covered text.
#[test]
fn clicking_and_dragging_in_the_well_places_the_caret_and_selects() {
    let mut app = test_app();
    app.draft.input.set("hello world".into());
    // The well: rows 10..13, prompt "❯ " in columns 0..2.
    app.draft.area = rect(0, 10, 40, 3);
    app.draft.wrap_width = 38;

    // Click on the 4th text column → char 3 (right of "hel").
    app.handle_mouse(MouseEvent {
        kind: MouseEventKind::Down(MouseButton::Left),
        column: 5,
        row: 10,
    });
    assert_eq!(app.draft.input.cursor_char(), 3, "the caret follows the click");
    assert!(app.draft.input_selecting, "the click arms a drag");

    // Drag right to the 10th text column (cell 11 - prompt 2), inclusive.
    app.handle_mouse(MouseEvent {
        kind: MouseEventKind::Drag(MouseButton::Left),
        column: 11,
        row: 10,
    });
    let (a, b) = app.input_selection_range().expect("a drag covers text");
    assert_eq!(
        app.draft.input.chars_between(a, b),
        "lo worl",
        "cells inclusive, either direction"
    );

    app.handle_mouse(MouseEvent {
        kind: MouseEventKind::Up(MouseButton::Left),
        column: 11,
        row: 10,
    });
    assert!(!app.draft.input_selecting);
    assert!(
        app.draft.input_sel.is_some(),
        "the highlight survives the release (esc clears it)"
    );

    // Ctrl+X cuts the dragged range: the highlight goes with it.
    app.handle_key(&KeyEvent::new(KeyCode::Char('x'), KeyModifiers::control()));
    assert_eq!(app.draft.input.buf(), "held", "the selection was cut");
    assert!(app.draft.input_sel.is_none(), "cut clears the highlight");
}

/// A click that never moves is a caret placement, not a selection, and a
/// click outside the well dismisses a lingering highlight.
#[test]
fn a_caret_click_clears_the_highlight_and_outside_clicks_dismiss_it() {
    let mut app = test_app();
    app.draft.input.set("hello".into());
    app.draft.area = rect(0, 10, 40, 3);
    app.draft.wrap_width = 38;

    app.draft.input_sel = Some(InputSel {
        anchor: (0, 0),
        head: (0, 3),
    });
    app.handle_mouse(MouseEvent {
        kind: MouseEventKind::Down(MouseButton::Left),
        column: 3,
        row: 10,
    });
    app.handle_mouse(MouseEvent {
        kind: MouseEventKind::Up(MouseButton::Left),
        column: 3,
        row: 10,
    });
    assert!(app.draft.input_sel.is_none(), "a plain click is just a caret");
    assert_eq!(app.draft.input.cursor_char(), 1);

    app.draft.input_sel = Some(InputSel {
        anchor: (0, 0),
        head: (0, 3),
    });
    app.handle_mouse(MouseEvent {
        kind: MouseEventKind::Down(MouseButton::Left),
        column: 39,
        row: 2,
    });
    assert!(app.draft.input_sel.is_none(), "outside the well dismisses it");
    assert!(!app.draft.input_selecting);
}

/// A pasted text, a typed one and a staged image all move what the lit cells
/// showed; an event that leaves the draft alone leaves the highlight too.
#[test]
fn every_edit_unlights_the_drag() {
    let mut app = test_app();
    app.draft.input.set("hello".into());
    let lit = InputSel {
        anchor: (0, 0),
        head: (0, 3),
    };

    app.draft.input_sel = Some(lit);
    app.handle(AppEvent::Term(TermEvent::Resize));
    assert!(app.draft.input_sel.is_some(), "nothing was edited");
    app.handle(AppEvent::Term(TermEvent::Paste("big ".into())));
    assert_eq!(app.draft.input.buf(), "hellobig ");
    assert!(app.draft.input_sel.is_none(), "the paste moved the text");

    app.draft.input_sel = Some(lit);
    app.handle(AppEvent::Term(TermEvent::Key(KeyEvent::new(
        KeyCode::Char('!'),
        KeyModifiers::none(),
    ))));
    assert!(app.draft.input_sel.is_none(), "so did the key");

    app.draft.input_sel = Some(lit);
    app.stage_image(
        "a.png".into(),
        "a.png".into(),
        "image/png".into(),
        vec![1],
        String::new(),
    );
    assert!(app.draft.input_sel.is_none(), "and so did the token");
}

#[test]
fn chat_hit_maps_screen_cells_to_layout_lines() {
    let mut app = test_app();
    app.chat.view = view(&["a", "b", "c", "d"]);
    app.chat.view.top = 2;
    let p = app.chat.view.hit(3, 1).expect("inside pane");
    assert_eq!((p.line, p.col), (3, 2)); // top=2 + row 1, col 3-x(1)
    assert!(app.chat.view.hit(0, 0).is_none(), "left of pane");
    assert!(app.chat.view.hit(3, 10).is_none(), "below pane");
}

#[test]
fn word_span_finds_word_under_column() {
    let (col, width, word) = word_span("run cargo test now", 6).expect("word");
    assert_eq!((col, width, word.as_str()), (4, 5, "cargo"));
    assert!(word_span("run cargo", 3).is_none(), "whitespace");
    assert!(word_span("run", 99).is_none(), "past end");
    let (col, width, word) = word_span("选中即复制 ok", 4).expect("cjk word");
    assert_eq!((col, width, word.as_str()), (0, 10, "选中即复制"));
}

#[test]
fn tool_click_toggles_output_expansion() {
    let mut app = test_app();
    app.transcript.apply(UiEvent::ToolCall {
        session: "dsh-test".into(),
        call_id: "c1".into(),
        name: "bash".into(),
        arguments: "{}".into(),
    });
    app.transcript.apply(UiEvent::ToolResult {
        session: "dsh-test".into(),
        call_id: "c1".into(),
        is_error: false,
        text: "a\nb\nc\nd\ne\nf\ng\nh".into(),
        error: None,
    });
    app.chat.view.area = rect(1, 0, 40, 10);
    app.chat.view.top = 0;
    app.chat.view.lines = vec!["tool line".into()];
    app.chat.view.owners = vec![Some(0)];

    assert_eq!(app.tool_at(2, 0), Some(0), "tool line owns its cell");
    assert!(!app.transcript.cells[0].expanded);
    app.toggle_tool(0);
    assert!(app.transcript.cells[0].expanded, "click expands");
    app.toggle_tool(0);
    assert!(!app.transcript.cells[0].expanded, "click collapses");
}

#[test]
fn wheel_over_collapsed_tool_scrolls_the_transcript() {
    let mut app = test_app();
    app.transcript.apply(UiEvent::ToolCall {
        session: "dsh-test".into(),
        call_id: "c1".into(),
        name: "bash".into(),
        arguments: "{}".into(),
    });
    app.transcript.apply(UiEvent::ToolResult {
        session: "dsh-test".into(),
        call_id: "c1".into(),
        is_error: false,
        text: "a\nb\nc\nd\ne\nf\ng\nh".into(),
        error: None,
    });
    app.chat.view.area = rect(1, 0, 40, 10);
    app.chat.view.top = 0;
    app.chat.view.lines = vec!["tool line".into()];
    app.chat.view.owners = vec![Some(0)];

    app.handle_mouse(MouseEvent {
        kind: MouseEventKind::ScrollUp,
        column: 2,
        row: 0,
    });

    assert_eq!(app.chat.scroll_up, 3, "tool cards must not swallow the wheel");
}

#[test]
fn tool_click_in_a_child_view_targets_the_child_transcript() {
    let mut app = test_app();
    let mut transcript = Transcript::new("child-1".into());
    transcript.apply(UiEvent::ToolCall {
        session: "child-1".into(),
        call_id: "c1".into(),
        name: "bash".into(),
        arguments: "{}".into(),
    });
    app.subagents.push(SubagentView {
        id: "child-1".into(),
        parent: "dsh-test".into(),
        label: "subagent 1".into(),
        running: true,
        transcript,
    });
    app.active_subagent = Some("child-1".into());

    app.toggle_tool(0);

    assert!(app.subagents[0].transcript.cells[0].expanded);
    assert!(app.transcript.cells.is_empty());
}
