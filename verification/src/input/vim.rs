//! Optional vim modal editing for the composer: a state machine in front of
//! the keymap.

use vstd::prelude::*;
use crate::input::area::Motion;
use crate::input::composer::{Composer, ComposerEditor};
use crate::input::keys::{KeyCode, KeyEvent, KeyModifiers};

verus! {

/// The composer's editing mode.
#[derive(Debug, Clone, Copy, PartialEq, Eq, Structural)]
pub enum VimMode {
    /// Off: the plain keymap handles everything.
    Off,
    /// Plain keys are commands.
    Normal,
    /// Plain keys type text.
    Insert,
}

/// A two-key command half entered.
#[derive(Debug, Clone, Copy, PartialEq, Eq, Structural)]
pub enum Pending {
    D,
    G,
}

/// The state machine.
#[derive(Debug, Clone, Copy, PartialEq, Eq, Structural)]
pub struct VimState {
    pub mode: VimMode,
    pub pending: Option<Pending>,
}

impl Default for VimState {
    fn default() -> (r: Self)
        ensures
            r == (VimState { mode: VimMode::Off, pending: None }),
    {
        VimState { mode: VimMode::Off, pending: None }
    }
}

/// Whether a chord belongs to the app keymap in every mode.
pub open spec fn chord(m: KeyModifiers) -> bool {
    m.control || m.alt || m.command || m.meta
}

/// What a command letter does to the draft, the two-key commands left out.
pub open spec fn commanded(c: Composer, ch: char) -> Composer {
    match ch {
        'h' => c.moved(Motion::Back),
        'l' => c.moved(Motion::Forward),
        'j' => c.moved(Motion::Down),
        'k' => c.moved(Motion::Up),
        'w' => c.moved(Motion::WordForward),
        'b' => c.moved(Motion::WordBack),
        'e' => c.moved(Motion::WordEnd),
        '0' => c.moved(Motion::Head),
        '$' => c.moved(Motion::End),
        'G' => c.moved(Motion::Jump(u16::MAX, 0)),
        'x' => c.edited(c.area.deleted_forward()),
        'X' => c.edited(c.area.backspaced()),
        'u' => c.undone(),
        'p' => c.pasted(),
        'a' => c.moved(Motion::Forward),
        'I' => c.moved(Motion::Head),
        'A' => c.moved(Motion::End),
        'o' => {
            let t = c.moved(Motion::End);
            t.edited(t.area.inserted(seq!['\n']))
        },
        'O' => {
            let h = c.moved(Motion::Head);
            h.edited(h.area.inserted(seq!['\n'])).moved(Motion::Up)
        },
        _ => c,
    }
}

/// The letters that enter insert mode.
pub open spec fn enters_insert(ch: char) -> bool {
    ch == 'i' || ch == 'a' || ch == 'I' || ch == 'A' || ch == 'o' || ch == 'O'
}

/// What one plain letter does in normal mode, to the machine and the draft.
pub open spec fn normal(s: VimState, ch: char, c: Composer) -> (VimState, Composer) {
    if ch == 'd' {
        if s.pending == Some(Pending::D) {
            (VimState { pending: None, ..s }, c.line_killed())
        } else {
            (VimState { pending: Some(Pending::D), ..s }, c)
        }
    } else if ch == 'g' {
        if s.pending == Some(Pending::G) {
            (VimState { pending: None, ..s }, c.moved(Motion::Jump(0, 0)))
        } else {
            (VimState { pending: Some(Pending::G), ..s }, c)
        }
    } else {
        (
            VimState {
                mode: if enters_insert(ch) { VimMode::Insert } else { s.mode },
                pending: None,
            },
            commanded(c, ch),
        )
    }
}

/// Whether vim takes a key from the app keymap.
pub open spec fn consumes(s: VimState, key: KeyEvent) -> bool {
    match s.mode {
        VimMode::Off => false,
        VimMode::Insert => key.code == KeyCode::Esc,
        VimMode::Normal => !chord(key.modifiers) && key.code is Char,
    }
}

/// What one key does to the machine and the draft. A key that is left to the
/// app keymap changes neither.
pub open spec fn stepped(s: VimState, key: KeyEvent, c: Composer) -> (VimState, Composer) {
    if !consumes(s, key) {
        (s, c)
    } else if s.mode is Insert {
        (VimState { mode: VimMode::Normal, pending: None }, c)
    } else {
        normal(s, key.code->Char_0, c)
    }
}

impl VimState {
    /// Turns vim editing on or off. On begins in insert mode, so the draft
    /// goes on as before until esc.
    pub fn set(&mut self, on: bool)
        ensures
            *final(self) == (VimState {
                mode: if on { VimMode::Insert } else { VimMode::Off },
                pending: None,
            }),
    {
        self.mode = if on {
            VimMode::Insert
        } else {
            VimMode::Off
        };
        self.pending = None;
    }

    pub fn is_active(&self) -> (r: bool)
        ensures
            r == (self.mode != VimMode::Off),
    {
        self.mode != VimMode::Off
    }

    /// Forgets a half-entered two-key command.
    pub fn reset_pending(&mut self)
        ensures
            *final(self) == (VimState { pending: None, ..*old(self) }),
    {
        self.pending = None;
    }

    /// One key while vim is active; tells whether it was taken.
    pub fn handle_key(&mut self, key: &KeyEvent, editor: &mut ComposerEditor) -> (r: bool)
        ensures
            r == consumes(*old(self), *key),
            (*final(self), final(editor)@) == stepped(*old(self), *key, old(editor)@),
    {
        match self.mode {
            VimMode::Off => false,
            VimMode::Insert => {
                if key.code == KeyCode::Esc {
                    self.mode = VimMode::Normal;
                    self.pending = None;
                    true
                } else {
                    false
                }
            },
            VimMode::Normal => self.normal_key(key, editor),
        }
    }

    fn normal_key(&mut self, key: &KeyEvent, editor: &mut ComposerEditor) -> (r: bool)
        requires
            old(self).mode == VimMode::Normal,
        ensures
            r == consumes(*old(self), *key),
            (*final(self), final(editor)@) == stepped(*old(self), *key, old(editor)@),
    {
        let m = key.modifiers;
        if m.control || m.alt || m.command || m.meta {
            return false;
        }
        let ch = match key.code {
            KeyCode::Char(ch) => ch,
            _ => {
                return false;
            },
        };
        let pending = self.pending;
        self.pending = None;
        match (pending, ch) {
            (Some(Pending::D), 'd') => editor.kill_line(),
            (Some(Pending::G), 'g') => editor.jump_top(),
            (_, 'd') => {
                self.pending = Some(Pending::D);
            },
            (_, 'g') => {
                self.pending = Some(Pending::G);
            },
            (_, 'h') => editor.move_left(),
            (_, 'l') => editor.move_right(),
            (_, 'j') => editor.move_down(),
            (_, 'k') => editor.move_up(),
            (_, 'w') => editor.word_right(),
            (_, 'b') => editor.word_left(),
            (_, 'e') => editor.word_end(),
            (_, '0') => editor.line_head(),
            (_, '$') => editor.line_tail(),
            (_, 'G') => editor.jump_bottom(),
            (_, 'x') => editor.delete_forward(),
            (_, 'X') => editor.backspace(),
            (_, 'u') => {
                editor.undo();
            },
            (_, 'p') => {
                editor.paste_yank();
            },
            (_, 'i') => {
                self.mode = VimMode::Insert;
            },
            (_, 'a') => {
                editor.move_right();
                self.mode = VimMode::Insert;
            },
            (_, 'I') => {
                editor.line_head();
                self.mode = VimMode::Insert;
            },
            (_, 'A') => {
                editor.line_tail();
                self.mode = VimMode::Insert;
            },
            (_, 'o') => {
                editor.line_tail();
                editor.insert_newline();
                self.mode = VimMode::Insert;
            },
            (_, 'O') => {
                editor.line_head();
                editor.insert_newline();
                editor.move_up();
                self.mode = VimMode::Insert;
            },
            _ => {},
        }
        true
    }
}

/// Normal mode never types a letter into the draft: a letter without a
/// meaning is taken and leaves the draft as it is.
pub proof fn unknown_commands_leave_the_draft(s: VimState, key: KeyEvent, c: Composer)
    requires
        s.mode is Normal,
        key.code matches KeyCode::Char(ch) && !chord(key.modifiers) && ch != 'd' && ch != 'g'
            && commanded(c, ch) == c,
    ensures
        consumes(s, key),
        stepped(s, key, c).1 == c,
        stepped(s, key, c).0.pending is None,
{
}

/// A chord always reaches the app keymap, and leaves the machine and the
/// draft as they are.
pub proof fn chords_fall_through(s: VimState, key: KeyEvent, c: Composer)
    requires
        chord(key.modifiers),
        key.code != KeyCode::Esc,
    ensures
        !consumes(s, key),
        stepped(s, key, c) == (s, c),
{
}

} // verus!
