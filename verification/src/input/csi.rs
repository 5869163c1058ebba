//! Key reports that arrive as pasted text.
//!
//! Some terminal layers wrap key reports of the form `ESC [ code ; mods u` in
//! paste markers. They are recovered only where the whole payload is made of
//! such reports.

use vstd::prelude::*;
use vstd::string::*;
use crate::input::keys::{KeyCode, KeyEvent, KeyEventKind, KeyModifiers};
use crate::text;
use crate::text::{chars, index_from, parse_u32, same, split, string_of};

verus! {

/// Whether a number is a Unicode scalar value.
pub open spec fn scalar(n: u32) -> bool {
    n <= 0xd7ff || 0xe000 <= n <= 0x10ffff
}

/// The character of a number.
pub open spec fn character(n: u32) -> char {
    (n as int) as char
}

/// `char::from_u32` of the standard library: the character of a Unicode scalar
/// value, and none for any other number.
pub assume_specification[ char::from_u32 ](i: u32) -> (r: Option<char>)
    ensures
        r is Some <==> scalar(i),
        r is Some ==> r->0 as int == i,
;

/// The modifiers of a report's mask.
pub open spec fn held(mask: u32) -> KeyModifiers {
    KeyModifiers {
        shift: mask % 2 == 1,
        alt: mask / 2 % 2 == 1,
        control: mask / 4 % 2 == 1,
        command: mask / 8 % 2 == 1,
        hyper: mask / 16 % 2 == 1,
        meta: mask / 32 % 2 == 1,
    }
}

/// The event kind a report spells, a press where it spells none.
pub open spec fn kind_of(parts: Seq<Seq<char>>) -> Option<KeyEventKind> {
    if parts.len() > 2 {
        None
    } else if parts.len() < 2 || parts[1] == "1"@ {
        Some(KeyEventKind::Press)
    } else if parts[1] == "2"@ {
        Some(KeyEventKind::Repeat)
    } else if parts[1] == "3"@ {
        Some(KeyEventKind::Release)
    } else {
        None
    }
}

/// The mask and the event kind of a report's second field; the mask is
/// reported with one added.
pub open spec fn mods_of(field: Seq<char>) -> Option<(u32, KeyEventKind)> {
    let parts = text::pieces(field, ':');
    match (text::spelled_u32(parts[0]), kind_of(parts)) {
        (Some(mask), Some(kind)) => if mask == 0 {
            None
        } else {
            Some(((mask - 1) as u32, kind))
        },
        _ => None,
    }
}

/// The key of a code point.
pub open spec fn key_of(code: u32, shift: bool) -> Option<KeyCode> {
    if !scalar(code) {
        None
    } else if code == 0x1b {
        Some(KeyCode::Esc)
    } else if code == 0x0d {
        Some(KeyCode::Enter)
    } else if code == 0x09 {
        Some(
            if shift {
                KeyCode::BackTab
            } else {
                KeyCode::Tab
            },
        )
    } else if code == 0x7f {
        Some(KeyCode::Backspace)
    } else {
        Some(KeyCode::Char(character(code)))
    }
}

/// The key event of a report's parameters: a code point and, where there is a
/// second field, modifiers and an event kind. Further fields make it no key.
pub open spec fn report(params: Seq<char>) -> Option<KeyEvent> {
    let fields = text::pieces(params, ';');
    let code = text::spelled_u32(text::pieces(fields[0], ':')[0]);
    let mods = if fields.len() == 1 {
        Some((0u32, KeyEventKind::Press))
    } else if fields.len() == 2 {
        mods_of(fields[1])
    } else {
        None
    };
    match (code, mods) {
        (Some(code), Some((mask, kind))) => match key_of(code, held(mask).shift) {
            Some(key) => Some(KeyEvent { code: key, modifiers: held(mask), kind }),
            None => None,
        },
        _ => None,
    }
}

/// The key events of a run of reports.
pub open spec fn reports(s: Seq<char>) -> Option<Seq<KeyEvent>>
    decreases s.len(),
{
    if s.len() == 0 {
        Some(Seq::empty())
    } else if s.len() >= 2 && s[0] == '\u{1b}' && s[1] == '[' {
        let encoded = s.skip(2);
        let end = text::position(encoded, 'u');
        if 0 <= end < encoded.len() {
            match (report(encoded.take(end)), reports(encoded.skip(end + 1))) {
                (Some(key), Some(rest)) => Some(seq![key] + rest),
                _ => None,
            }
        } else {
            None
        }
    } else {
        None
    }
}

/// The key events a pasted text consists of, if it consists of nothing else.
pub open spec fn leaked(s: Seq<char>) -> Option<Seq<KeyEvent>> {
    if s.len() == 0 {
        None
    } else {
        reports(s)
    }
}

fn decode_mods(field: &str) -> (r: Option<(u32, KeyEventKind)>)
    ensures
        r == mods_of(field@),
{
    let parts = split(field, ':');
    proof {
        text::join_pieces(field@, ':');
        assert(text::views(parts@)[0] == parts@[0]@);
    }
    let mask: u32 = match parse_u32(parts[0].as_str()) {
        Some(m) => m,
        None => return None,
    };
    if mask == 0 || parts.len() > 2 {
        return None;
    }
    let kind = if parts.len() < 2 {
        KeyEventKind::Press
    } else {
        assert(text::views(parts@)[1] == parts@[1]@);
        if same(parts[1].as_str(), "1") {
            KeyEventKind::Press
        } else if same(parts[1].as_str(), "2") {
            KeyEventKind::Repeat
        } else if same(parts[1].as_str(), "3") {
            KeyEventKind::Release
        } else {
            return None;
        }
    };
    Some((mask - 1, kind))
}

/// The key event of a report's parameters.
pub fn decode_csi_u_key(params: &str) -> (r: Option<KeyEvent>)
    ensures
        r == report(params@),
{
    let fields = split(params, ';');
    proof {
        text::join_pieces(params@, ';');
        assert(text::views(fields@)[0] == fields@[0]@);
    }
    let first = split(fields[0].as_str(), ':');
    proof {
        text::join_pieces(fields@[0]@, ':');
        assert(text::views(first@)[0] == first@[0]@);
    }
    let code: u32 = match parse_u32(first[0].as_str()) {
        Some(c) => c,
        None => return None,
    };
    if fields.len() > 2 {
        return None;
    }
    let (mask, kind): (u32, KeyEventKind) = if fields.len() == 2 {
        assert(text::views(fields@)[1] == fields@[1]@);
        match decode_mods(fields[1].as_str()) {
            Some(m) => m,
            None => return None,
        }
    } else {
        (0, KeyEventKind::Press)
    };
    let modifiers = KeyModifiers {
        shift: mask % 2 == 1,
        alt: mask / 2 % 2 == 1,
        control: mask / 4 % 2 == 1,
        command: mask / 8 % 2 == 1,
        hyper: mask / 16 % 2 == 1,
        meta: mask / 32 % 2 == 1,
    };
    let ch: char = match char::from_u32(code) {
        Some(c) => c,
        None => return None,
    };
    let key = if code == 0x1b {
        KeyCode::Esc
    } else if code == 0x0d {
        KeyCode::Enter
    } else if code == 0x09 {
        if modifiers.shift {
            KeyCode::BackTab
        } else {
            KeyCode::Tab
        }
    } else if code == 0x7f {
        KeyCode::Backspace
    } else {
        KeyCode::Char(ch)
    };
    assert(character(code) == ch);
    assert(held(mask) == modifiers);
    assert(key_of(code, modifiers.shift) == Some(key));
    Some(KeyEvent { code: key, modifiers, kind })
}

/// The key events a pasted text consists of, if it consists of nothing else.
pub fn decode_leaked_csi_u_keys(text: &str) -> (r: Option<Vec<KeyEvent>>)
    ensures
        match r {
            Some(keys) => leaked(text@) == Some(keys@),
            None => leaked(text@) is None,
        },
{
    let v = chars(text);
    if v.len() == 0 {
        return None;
    }
    let mut keys: Vec<KeyEvent> = Vec::new();
    let mut at: usize = 0;
    assert(v@.skip(0) == v@);
    assert(reports(v@.skip(0)) matches Some(rest) ==> keys@ + rest == rest);
    while at < v.len()
        invariant
            at <= v.len(),
            v@ == text@,
            v.len() > 0,
            match reports(v@.skip(at as int)) {
                Some(rest) => leaked(text@) == Some(keys@ + rest),
                None => leaked(text@) is None,
            },
        decreases v.len() - at,
    {
        let ghost s = v@.skip(at as int);
        if v.len() - at < 2 || v[at] != '\u{1b}' || v[at + 1] != '[' {
            assert(s[0] == v@[at as int]);
            return None;
        }
        assert(s[0] == v@[at as int] && s[1] == v@[at + 1]);
        assert(s.skip(2) == v@.skip(at + 2));
        let end = index_from(&v, at + 2, 'u');
        if end == v.len() {
            return None;
        }
        let params = string_of(&v, at + 2, end);
        let ghost n = end - (at + 2);
        assert(params@ == s.skip(2).take(n));
        assert(s.skip(2).skip(n + 1) == v@.skip(end + 1));
        match decode_csi_u_key(params.as_str()) {
            Some(key) => {
                let ghost before = keys@;
                keys.push(key);
                proof {
                    if let Some(rest) = reports(v@.skip(end + 1)) {
                        assert(before + (seq![key] + rest) == keys@ + rest);
                    }
                }
            },
            None => {
                return None;
            },
        }
        at = end + 1;
    }
    assert(v@.skip(at as int).len() == 0);
    assert(keys@ + Seq::<KeyEvent>::empty() == keys@);
    Some(keys)
}

} // verus!
