use abylab_tui::input::csi::{decode_csi_u_key, decode_leaked_csi_u_keys};
use abylab_tui::input::keymap::{classify, Action, KeyCtx};
use abylab_tui::input::keys::{KeyCode, KeyEvent, KeyEventKind, KeyModifiers};
use abylab_tui::input::normalize::{rescue_key, ModifierState};

#[test]
fn csi_u_reports_are_keys() {
    let k = decode_csi_u_key("97;5").unwrap();
    assert_eq!(k.code, KeyCode::Char('a'));
    assert_eq!(k.modifiers, KeyModifiers::control());
    assert_eq!(k.kind, KeyEventKind::Press);
    let k = decode_csi_u_key("9;2:3").unwrap();
    assert_eq!(k.code, KeyCode::BackTab);
    assert_eq!(k.kind, KeyEventKind::Release);
    assert_eq!(decode_csi_u_key("9;1").unwrap().code, KeyCode::Tab);
    assert_eq!(decode_csi_u_key("27").unwrap().code, KeyCode::Esc);
    assert_eq!(decode_csi_u_key("13").unwrap().code, KeyCode::Enter);
    assert_eq!(decode_csi_u_key("127").unwrap().code, KeyCode::Backspace);
    assert_eq!(decode_csi_u_key("22909;1:2").unwrap().kind, KeyEventKind::Repeat);
    assert_eq!(decode_csi_u_key("22909").unwrap().code, KeyCode::Char('好'));
}

#[test]
fn what_is_no_csi_u_report_is_refused() {
    assert_eq!(decode_csi_u_key(""), None);
    assert_eq!(decode_csi_u_key("x"), None);
    assert_eq!(decode_csi_u_key("97;0"), None);
    assert_eq!(decode_csi_u_key("97;1:4"), None);
    assert_eq!(decode_csi_u_key("97;1:1:1"), None);
    assert_eq!(decode_csi_u_key("97;1;97"), None);
    assert_eq!(decode_csi_u_key("55296"), None, "a surrogate is no character");
    assert_eq!(decode_csi_u_key("1114112"), None);
}

#[test]
fn keys_are_recovered_only_from_a_whole_payload() {
    let keys = decode_leaked_csi_u_keys("\u{1b}[97u\u{1b}[98;5u").unwrap();
    assert_eq!(keys.len(), 2);
    assert_eq!(keys[1].code, KeyCode::Char('b'));
    assert_eq!(decode_leaked_csi_u_keys(""), None);
    assert_eq!(decode_leaked_csi_u_keys("\u{1b}[97u tail"), None);
    assert_eq!(decode_leaked_csi_u_keys("abc"), None);
}

#[test]
fn a_dropped_modifier_is_given_back_to_navigation() {
    let left = KeyEvent::new(KeyCode::Left, KeyModifiers::none());
    let both = ModifierState { command: true, option: true };
    assert_eq!(rescue_key(left, both).modifiers, KeyModifiers::command());
    let option = ModifierState { command: false, option: true };
    assert_eq!(rescue_key(left, option).modifiers, KeyModifiers::alt());
    let letter = KeyEvent::new(KeyCode::Char('a'), KeyModifiers::none());
    assert_eq!(rescue_key(letter, both), letter);
}

#[test]
fn chords_never_type_their_letter() {
    let ctx = KeyCtx { input_empty: true, history_active: false };
    let plain = KeyEvent::new(KeyCode::Char('q'), KeyModifiers::none());
    assert_eq!(classify(&plain, ctx), Some(Action::Insert('q')));
    for m in [KeyModifiers::control(), KeyModifiers::alt(), KeyModifiers::command()] {
        let chord = KeyEvent::new(KeyCode::Char('q'), m);
        assert!(!matches!(classify(&chord, ctx), Some(Action::Insert(_))));
    }
}
