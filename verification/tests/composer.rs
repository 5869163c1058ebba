use abylab_tui::input::composer::{scroll_to, ComposerEditor};
use abylab_tui::input::editor::Input;
use abylab_tui::input::keys::{KeyCode, KeyEvent, KeyModifiers};
use abylab_tui::input::layout::LayoutMap;
use abylab_tui::input::vim::{VimMode, VimState};

fn editor(text: &str) -> ComposerEditor {
    let mut e = ComposerEditor::new();
    e.insert_str(text);
    e
}

#[test]
fn typing_goes_where_the_cursor_is() {
    let mut e = editor("ab");
    assert_eq!(e.buf(), "ab");
    assert_eq!(e.cursor_char(), 2);
    e.move_left();
    e.insert_char('X');
    assert_eq!(e.buf(), "aXb");
    assert_eq!(e.cursor_char(), 2);
    e.insert_newline();
    assert_eq!(e.lines(), vec!["aX".to_string(), "b".to_string()]);
    e.backspace();
    assert_eq!(e.buf(), "aXb");
    e.delete_forward();
    assert_eq!(e.buf(), "aX");
    assert!(!e.is_empty());
    e.clear();
    assert!(e.is_empty());
}

#[test]
fn undoing_typed_text_gives_the_draft_back() {
    let mut e = editor("one");
    e.insert_str(" two");
    assert_eq!(e.buf(), "one two");
    assert!(e.undo());
    assert_eq!(e.buf(), "one");
    assert_eq!(e.cursor_char(), 3);
    assert!(e.redo());
    assert_eq!(e.buf(), "one two");
    assert_eq!(e.cursor_char(), 7);
    assert!(!e.redo());
}

#[test]
fn a_kill_is_pasted_back() {
    let mut e = editor("one two three");
    e.delete_char_range(4, 8);
    assert_eq!(e.buf(), "one three");
    assert!(e.paste_yank());
    assert_eq!(e.buf(), "one two three");
    e.delete_word_back();
    assert_eq!(e.buf(), "one three");
    assert!(!ComposerEditor::new().paste_yank());
}

#[test]
fn motions_move_by_character_word_and_line() {
    let mut e = editor("one two\nthree");
    e.line_head();
    assert_eq!(e.cursor_char(), 8);
    e.line_tail();
    assert_eq!(e.cursor_char(), 13);
    e.move_up();
    assert_eq!(e.cursor_char(), 5);
    e.word_left();
    assert_eq!(e.cursor_char(), 4);
    e.word_right();
    assert_eq!(e.cursor_char(), 8);
    e.set_cursor_char(0);
    e.word_end();
    assert_eq!(e.cursor_char(), 2);
    e.jump_top();
    assert_eq!(e.cursor_char(), 0);
    e.move_right();
    assert_eq!(e.cursor_char(), 1);
    e.move_down();
    assert_eq!(e.cursor_char(), 9);
    e.jump_bottom();
    assert_eq!(e.cursor_char(), 8);
    e.set_cursor_char(3);
    assert_eq!(e.cursor_char(), 3);
    assert_eq!(e.char_to_rowcol(9), (1, 1));
    assert_eq!(e.chars_between(7, 2), "e two");
}

#[test]
fn a_line_is_killed_with_its_newline() {
    let mut e = editor("one\ntwo\nthree");
    e.set_cursor_char(5);
    e.kill_line();
    assert_eq!(e.buf(), "one\nthree");
    e.jump_bottom();
    e.kill_line();
    assert_eq!(e.buf(), "one");
    assert_eq!(e.cursor_char(), 0);
    e.kill_line();
    assert_eq!(e.buf(), "");
    e.kill_line();
    assert_eq!(e.buf(), "");
}

#[test]
fn selections_are_copied_and_cut() {
    let mut e = editor("one two");
    e.select_word_left();
    assert_eq!(e.selection_text(), Some("two".to_string()));
    e.copy_selection_to_yank();
    assert_eq!(e.buf(), "one two");
    assert_eq!(e.selection_text(), None);
    assert!(e.paste_yank());
    assert_eq!(e.buf(), "one twotwo");
    e.line_head();
    e.select_right();
    e.select_right();
    e.select_right();
    e.select_left();
    assert_eq!(e.selection_text(), Some("on".to_string()));
    e.cut_selection_to_yank();
    assert_eq!(e.buf(), "e twotwo");
    e.select_line_end();
    assert_eq!(e.selection_text(), Some("e twotwo".to_string()));
    e.select_line_start();
    e.insert_char('x');
    assert_eq!(e.buf(), "xe twotwo");
}

#[test]
fn rows_wrap_by_cells_and_wide_graphemes_stay_whole() {
    let mut e = editor("abcd");
    assert_eq!(e.visual_row_count(2), 2);
    e.refresh_layout(2);
    assert_eq!(e.screen_to_char(2, 0, 1), 1);
    assert_eq!(e.screen_to_char(2, 1, 0), 2);
    assert_eq!(e.screen_to_char_end(2, 1, 0), 3);
    let wide = vec!["好a好".to_string()];
    let map = LayoutMap::new(&wide, 3);
    assert_eq!(map.row_count(), 2);
    assert_eq!(map.rows[0].end_char, 2);
    assert_eq!(map.rows[0].graphemes[0].width, 2);
    assert_eq!(map.total_chars, 3);
    let joined = vec!["e\u{301}x".to_string()];
    let map = LayoutMap::new(&joined, 10);
    assert_eq!(map.rows[0].graphemes.len(), 2);
    assert_eq!(map.rows[0].graphemes[0].end_char, 2);
    let tab = vec!["a\tb".to_string()];
    let map = LayoutMap::new(&tab, 10);
    assert_eq!(map.rows[0].graphemes[1].width, 3);
    assert_eq!(map.rows[0].graphemes[2].start_col, 4);
}

#[test]
fn every_caret_is_on_one_row() {
    let lines = vec!["abcdef".to_string(), String::new(), "xy".to_string()];
    let map = LayoutMap::new(&lines, 3);
    assert_eq!(map.row_count(), 4);
    let rows: Vec<Option<usize>> = (0..=map.total_chars).map(|c| map.row_at(c)).collect();
    assert_eq!(
        rows,
        vec![
            Some(0),
            Some(0),
            Some(0),
            Some(1),
            Some(1),
            Some(1),
            Some(1),
            Some(2),
            Some(3),
            Some(3),
            Some(3),
        ]
    );
    assert_eq!(map.row_at(11), None);
}

#[test]
fn kills_reach_to_the_ends_of_a_screen_row() {
    let mut e = editor("abcdef");
    e.set_cursor_char(4);
    e.kill_to_end(3);
    assert_eq!(e.buf(), "abcd");
    e.set_cursor_char(2);
    e.kill_to_start(3);
    assert_eq!(e.buf(), "cd");
    e.set("abcdef".to_string());
    assert_eq!(e.cursor_char(), 6);
    e.set_cursor_char(1);
    e.line_end(3);
    assert_eq!(e.cursor_char(), 3);
    e.set_cursor_char(5);
    e.line_start(3);
    assert_eq!(e.cursor_char(), 3);
}

#[test]
fn the_widget_counts_screen_rows_once_drawn() {
    let mut e = editor("abcdef");
    e.draw(3, 5);
    assert_eq!(e.screen_cursor(), (1, 3));
    let plain = editor("abcdef");
    assert_eq!(plain.screen_cursor(), (0, 6));
}

#[test]
fn the_scroll_top_follows_the_cursor() {
    assert_eq!(scroll_to(0, 0, 3), 0);
    assert_eq!(scroll_to(0, 3, 3), 1);
    assert_eq!(scroll_to(5, 2, 3), 2);
    assert_eq!(scroll_to(2, 4, 3), 2);
}

fn press(v: &mut VimState, e: &mut ComposerEditor, c: char) -> bool {
    v.handle_key(&KeyEvent::new(KeyCode::Char(c), KeyModifiers::none()), e)
}

#[test]
fn vim_commands_edit_the_draft() {
    let mut v = VimState::default();
    let mut e = editor("one two\nthree");
    assert!(!press(&mut v, &mut e, 'x'), "off, every key is the keymap's");
    v.set(true);
    assert_eq!(v.mode, VimMode::Insert);
    assert!(!press(&mut v, &mut e, 'x'));
    assert!(v.handle_key(&KeyEvent::new(KeyCode::Esc, KeyModifiers::none()), &mut e));
    assert_eq!(v.mode, VimMode::Normal);
    for c in ['g', 'g', 'x'] {
        assert!(press(&mut v, &mut e, c));
    }
    assert_eq!(e.buf(), "ne two\nthree");
    for c in ['d', 'd'] {
        assert!(press(&mut v, &mut e, c));
    }
    assert_eq!(e.buf(), "three");
    assert!(press(&mut v, &mut e, 'u'));
    assert_eq!(e.buf(), "ne two\nthree");
    assert!(press(&mut v, &mut e, 'z'), "an unknown command is taken");
    assert_eq!(e.buf(), "ne two\nthree");
    assert!(press(&mut v, &mut e, 'G'));
    assert!(press(&mut v, &mut e, 'o'));
    assert_eq!(v.mode, VimMode::Insert);
    assert_eq!(e.buf(), "ne two\nthree\n");
    v.set(false);
    assert!(!v.is_active());
}

#[test]
fn vim_leaves_chords_to_the_keymap() {
    let mut v = VimState { mode: VimMode::Normal, pending: None };
    let mut e = editor("one");
    let chord = KeyEvent::new(KeyCode::Char('x'), KeyModifiers::control());
    assert!(!v.handle_key(&chord, &mut e));
    assert_eq!(e.buf(), "one");
}

#[test]
fn a_mirror_for_another_width_is_made_anew() {
    let mut e = editor("abcdef");
    assert_eq!(e.screen_to_char(3, 1, 0), 3);
    assert_eq!(e.screen_to_char(2, 1, 0), 2);
    assert_eq!(e.screen_to_char(3, 1, 0), 3);
    e.set_cursor_char(5);
    e.refresh_layout(2);
    e.line_start(3);
    assert_eq!(e.cursor_char(), 3);
    e.line_start(3);
    assert_eq!(e.cursor_char(), 3);
}

#[test]
fn no_lines_have_no_rows() {
    let map = LayoutMap::new(&Vec::new(), 4);
    assert_eq!(map.row_count(), 0);
    assert_eq!(map.total_chars, 0);
    assert_eq!(map.screen_to_char_end(0, 0), 0);
    let map = LayoutMap::new(&vec!["abcdefghij".to_string()], 4);
    let ends: Vec<usize> = map.rows.iter().map(|r| r.end_char).collect();
    assert_eq!(ends, vec![4, 8, 10]);
    for row in 0..4 {
        for col in 0..6 {
            let before = map.screen_to_char(row, col);
            let after = map.screen_to_char_end(row, col);
            assert!(before <= after && after <= map.total_chars);
        }
    }
}

#[test]
fn backspace_takes_a_typed_character_back() {
    let mut f = Input::new();
    f.insert_str("a好b");
    f.cursor = 1;
    for ch in ['x', '好', '\n'] {
        f.insert(ch);
        f.backspace();
        assert_eq!((f.buf.as_str(), f.cursor), ("a好b", 1));
    }
    f.cursor = 0;
    f.backspace();
    assert_eq!((f.buf.as_str(), f.cursor), ("a好b", 0));
}

#[test]
fn a_step_up_and_a_step_down_return() {
    let mut f = Input::new();
    f.insert_str("abcdefgh\nij\nklmno");
    for at in 0..=f.buf.chars().count() {
        f.cursor = at;
        f.reset_vertical_goal();
        let (row, col) = f.visual_cursor(4);
        if row > 0 {
            f.move_vertical(4, -1);
            assert_eq!(f.visual_cursor(4).0, row - 1);
            f.move_vertical(4, 1);
            assert_eq!(f.cursor, at);
            assert_eq!(f.visual_cursor(4), (row, col));
        } else {
            f.move_vertical(4, -1);
            assert_eq!(f.cursor, at);
        }
    }
}
