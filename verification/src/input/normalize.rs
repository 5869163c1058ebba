//! Rescue of key events whose modifiers the terminal dropped.
//!
//! macOS terminals rarely deliver ⌘ (and often ⌥): they swallow the chord,
//! remap it to a control code, or send the bare key. The keymap reads the
//! control codes; this covers the bare navigation and deletion keys.

use vstd::prelude::*;
use crate::input::keys::{KeyCode, KeyEvent, KeyModifiers};

verus! {

/// The modifiers physically held, as the host sees them.
#[derive(Debug, Clone, Copy, PartialEq, Eq, Structural)]
pub struct ModifierState {
    pub command: bool,
    pub option: bool,
}

impl Default for ModifierState {
    fn default() -> (r: Self)
        ensures
            !r.command && !r.option,
    {
        ModifierState { command: false, option: false }
    }
}

/// The keys a dropped modifier is given back to.
pub open spec fn rescuable(code: KeyCode) -> bool {
    match code {
        KeyCode::Left | KeyCode::Right | KeyCode::Up | KeyCode::Down | KeyCode::Home
        | KeyCode::End | KeyCode::Backspace | KeyCode::Delete => true,
        _ => false,
    }
}

/// `key` with the held modifier: ⌘ wins over ⌥, and modifiers that the
/// terminal did send are believed.
pub open spec fn rescued(key: KeyEvent, held: ModifierState) -> KeyEvent {
    if key.modifiers == KeyModifiers::empty() && rescuable(key.code) {
        KeyEvent {
            modifiers: KeyModifiers {
                command: held.command,
                alt: held.option && !held.command,
                ..key.modifiers
            },
            ..key
        }
    } else {
        key
    }
}

/// Upgrades a bare navigation or deletion key with the modifier held.
/// Text, enter, esc and paste stay as they are.
pub fn rescue_key(key: KeyEvent, held: ModifierState) -> (r: KeyEvent)
    ensures
        r == rescued(key, held),
{
    if !key.modifiers.is_empty() {
        return key;
    }
    match key.code {
        KeyCode::Left
        | KeyCode::Right
        | KeyCode::Up
        | KeyCode::Down
        | KeyCode::Home
        | KeyCode::End
        | KeyCode::Backspace
        | KeyCode::Delete => {},
        _ => {
            return key;
        },
    }
    let mut out = key;
    if held.command {
        out.modifiers.command = true;
    } else if held.option {
        out.modifiers.alt = true;
    }
    out
}

/// Only the ⌘ and ⌥ of a bare key ever change, and never both.
pub proof fn rescue_changes_one_modifier(key: KeyEvent, held: ModifierState)
    ensures
        rescued(key, held).code == key.code,
        rescued(key, held).kind == key.kind,
        rescued(key, held) != key ==> key.modifiers == KeyModifiers::empty() && rescuable(key.code)
            && (rescued(key, held).modifiers.command != rescued(key, held).modifiers.alt),
        !held.command && !held.option ==> rescued(key, held) == key,
{
}

} // verus!
