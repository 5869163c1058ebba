use abylab_tui::input::keys::{KeyCode, KeyEvent, KeyModifiers};
use abylab_tui::input::normalize::{rescue_key, ModifierState};

fn bare(code: KeyCode) -> KeyEvent {
    KeyEvent::new(code, KeyModifiers::none())
}

const CMD: ModifierState = ModifierState { command: true, option: false };
const OPT: ModifierState = ModifierState { command: false, option: true };
const BOTH: ModifierState = ModifierState { command: true, option: true };

#[test]
fn cmd_left_upgrades_to_super() {
    let out = rescue_key(bare(KeyCode::Left), CMD);
    assert_eq!(out.modifiers, KeyModifiers::command());
    assert_eq!(out.code, KeyCode::Left);
}

#[test]
fn opt_arrow_and_backspace_upgrade_to_alt() {
    for code in [KeyCode::Left, KeyCode::Right, KeyCode::Backspace] {
        assert_eq!(rescue_key(bare(code), OPT).modifiers, KeyModifiers::alt());
    }
}

#[test]
fn cmd_wins_when_both_held() {
    let out = rescue_key(bare(KeyCode::Backspace), BOTH);
    assert_eq!(out.modifiers, KeyModifiers::command());
}

#[test]
fn text_enter_esc_are_never_rescued() {
    for code in [
        KeyCode::Char('a'),
        KeyCode::Enter,
        KeyCode::Esc,
        KeyCode::Tab,
        KeyCode::Char('v'),
    ] {
        let out = rescue_key(bare(code), BOTH);
        assert_eq!(out.modifiers, KeyModifiers::none(), "{code:?} must stay bare");
    }
}

#[test]
fn delivered_modifiers_are_believed() {
    let key = KeyEvent::new(KeyCode::Left, KeyModifiers::control());
    assert_eq!(rescue_key(key, CMD), key, "non-empty modifiers pass through");
}

#[test]
fn nothing_held_is_identity() {
    let key = bare(KeyCode::Left);
    assert_eq!(rescue_key(key, ModifierState::default()), key);
}
