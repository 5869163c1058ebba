//! The dialogs: pickers, the command menu's rows, and the read-only cards.

use vstd::prelude::*;
use vstd::string::*;
use crate::bus::SessionListItem;
use crate::locale;
use crate::input::keys::KeyCode;
use crate::locale::Locale;
use crate::text;
use crate::text::{cat3, cat5, chars, number, same, starts_with, string_of, trimmed};
use crate::transcript;
use crate::transcript::clamp_str;

verus! {

#[derive(Debug, Clone, Copy, PartialEq, Eq, Structural)]
pub enum PickerKind {
    Model,
    Effort,
    Theme,
    Permission,
    Session,
    Subagent,
    /// The queued prompts.
    Queue,
}

#[derive(Debug, Clone, PartialEq, Eq)]
pub struct PickerItem {
    pub id: String,
    pub label: String,
    pub meta: String,
    pub provider: Option<String>,
}

#[verifier::ext_equal]
pub struct Row {
    pub id: Seq<char>,
    pub label: Seq<char>,
    pub meta: Seq<char>,
    pub provider: Option<Seq<char>>,
}

impl View for PickerItem {
    type V = Row;

    open spec fn view(&self) -> Row {
        Row {
            id: self.id@,
            label: self.label@,
            meta: self.meta@,
            provider: text::view_opt(self.provider),
        }
    }
}

pub open spec fn rows(items: Seq<PickerItem>) -> Seq<Row> {
    items.map_values(|i: PickerItem| i@)
}

/// A row that is its own label.
pub open spec fn plain_row(id: Seq<char>) -> Row {
    Row { id, label: id, meta: Seq::empty(), provider: None }
}

impl PickerItem {
    /// A row that is its own label.
    pub fn plain(id: &str) -> (r: Self)
        ensures
            r@ == plain_row(id@),
    {
        PickerItem {
            id: String::from_str(id),
            label: String::from_str(id),
            meta: String::new(),
            provider: None,
        }
    }

    pub fn copy(&self) -> (r: Self)
        ensures
            r@ == self@,
            r == *self,
    {
        PickerItem {
            id: self.id.clone(),
            label: self.label.clone(),
            meta: self.meta.clone(),
            provider: text::copy_opt(&self.provider),
        }
    }
}

#[derive(Debug, Clone, PartialEq, Eq)]
pub struct Picker {
    pub kind: PickerKind,
    pub title: String,
    pub sel: usize,
    pub items: Vec<PickerItem>,
}

#[verifier::ext_equal]
pub struct Choice {
    pub kind: PickerKind,
    pub title: Seq<char>,
    pub sel: usize,
    pub items: Seq<Row>,
}

impl View for Picker {
    type V = Choice;

    open spec fn view(&self) -> Choice {
        Choice { kind: self.kind, title: self.title@, sel: self.sel, items: rows(self.items@) }
    }
}

pub open spec fn view_choice(p: Option<Picker>) -> Option<Choice> {
    match p {
        Some(p) => Some(p@),
        None => None,
    }
}

/// One less, or the last of `n`.
pub open spec fn wrap_up(sel: usize, n: int) -> usize {
    if sel == 0 {
        (n - 1) as usize
    } else {
        (sel - 1) as usize
    }
}

/// One more, or the first of `n`.
pub open spec fn wrap_down(sel: usize, n: int) -> usize {
    if sel == usize::MAX {
        0
    } else {
        ((sel + 1) % n) as usize
    }
}

pub fn step_up(sel: usize, n: usize) -> (r: usize)
    requires
        n > 0,
    ensures
        r == wrap_up(sel, n as int),
{
    if sel == 0 {
        n - 1
    } else {
        sel - 1
    }
}

pub fn step_down(sel: usize, n: usize) -> (r: usize)
    requires
        n > 0,
    ensures
        r == wrap_down(sel, n as int),
{
    if sel == usize::MAX {
        0
    } else {
        (sel + 1) % n
    }
}

/// The lesser of two.
pub open spec fn lesser(a: int, b: int) -> int {
    if a <= b {
        a
    } else {
        b
    }
}

/// `a` less `b`, or nothing.
pub open spec fn less(a: int, b: int) -> int {
    if a >= b {
        a - b
    } else {
        0
    }
}

impl Choice {
    /// The rows, counted as at least one.
    pub open spec fn count(self) -> int {
        if self.items.len() == 0 {
            1
        } else {
            self.items.len() as int
        }
    }

    pub open spec fn at(self, sel: int) -> Choice {
        Choice { sel: sel as usize, ..self }
    }

    /// The row under the highlight.
    pub open spec fn current(self) -> Option<Row> {
        if self.sel < self.items.len() {
            Some(self.items[self.sel as int])
        } else {
            None
        }
    }

    /// The highlight moved by a key. The arrows go round; the page keys, which
    /// jump a screenful, and home and end do not.
    pub open spec fn walked(self, code: KeyCode, page: int) -> Choice {
        let n = self.count();
        match code {
            KeyCode::Up => self.at(wrap_up(self.sel, n) as int),
            KeyCode::Down => self.at(wrap_down(self.sel, n) as int),
            KeyCode::PageUp => self.at(less(self.sel as int, page)),
            KeyCode::PageDown => self.at(lesser(self.sel + page, n - 1)),
            KeyCode::Home => self.at(0),
            KeyCode::End => self.at(n - 1),
            _ => self,
        }
    }

    /// The highlight moved by the wheel: it stops at either end.
    pub open spec fn wheeled(self, down: bool, n: int) -> Choice {
        let last = less(self.items.len() as int, 1);
        if down {
            self.at(lesser(self.sel + n, last))
        } else {
            self.at(lesser(less(self.sel as int, n), last))
        }
    }
}

/// The first row of an id from row `i` on.
pub open spec fn row_of(items: Seq<Row>, id: Seq<char>, i: int) -> Option<int>
    decreases items.len() - i,
{
    if 0 <= i < items.len() {
        if items[i].id == id {
            Some(i)
        } else {
            row_of(items, id, i + 1)
        }
    } else {
        None
    }
}

/// The first row of an id, or the first row.
pub open spec fn row_or_first(items: Seq<Row>, id: Seq<char>) -> usize {
    match row_of(items, id, 0) {
        Some(i) => i as usize,
        None => 0,
    }
}

pub fn find_row(items: &Vec<PickerItem>, id: &str) -> (r: Option<usize>)
    ensures
        match r {
            Some(i) => row_of(rows(items@), id@, 0) == Some(i as int) && i < items.len(),
            None => row_of(rows(items@), id@, 0) is None,
        },
{
    let mut i: usize = 0;
    while i < items.len()
        invariant
            i <= items.len(),
            row_of(rows(items@), id@, 0) == row_of(rows(items@), id@, i as int),
        decreases items.len() - i,
    {
        assert(rows(items@)[i as int] == items@[i as int]@);
        if same(items[i].id.as_str(), id) {
            return Some(i);
        }
        i += 1;
    }
    None
}

pub fn find_row_or_first(items: &Vec<PickerItem>, id: &str) -> (r: usize)
    ensures
        r == row_or_first(rows(items@), id@),
{
    match find_row(items, id) {
        Some(i) => i,
        None => 0,
    }
}

impl Picker {
    /// The rows, counted as at least one.
    pub fn count(&self) -> (n: usize)
        ensures
            n == self@.count(),
            n > 0,
    {
        if self.items.len() == 0 {
            1
        } else {
            self.items.len()
        }
    }

    /// The row under the highlight.
    pub fn current(&self) -> (r: Option<PickerItem>)
        ensures
            match r {
                Some(item) => self@.current() == Some(item@),
                None => self@.current() is None,
            },
    {
        if self.sel < self.items.len() {
            assert(rows(self.items@)[self.sel as int] == self.items@[self.sel as int]@);
            Some(self.items[self.sel].copy())
        } else {
            None
        }
    }

    /// Move the highlight by a key.
    pub fn walk(&mut self, code: KeyCode, page: usize)
        ensures
            final(self)@ == old(self)@.walked(code, page as int),
    {
        let n: usize = self.count();
        match code {
            KeyCode::Up => self.sel = step_up(self.sel, n),
            KeyCode::Down => self.sel = step_down(self.sel, n),
            KeyCode::PageUp => self.sel = self.sel.saturating_sub(page),
            KeyCode::PageDown => {
                let to: usize = self.sel.saturating_add(page);
                self.sel = if to <= n - 1 {
                    to
                } else {
                    n - 1
                };
            },
            KeyCode::Home => self.sel = 0,
            KeyCode::End => self.sel = n - 1,
            _ => {},
        }
    }


    /// The highlight moved by the wheel: it stops at either end.
    pub fn wheel(&mut self, down: bool, n: usize)
        ensures
            final(self)@ == old(self)@.wheeled(down, n as int),
    {
        let last: usize = self.items.len().saturating_sub(1);
        let next: usize = if down {
            self.sel.saturating_add(n)
        } else {
            self.sel.saturating_sub(n)
        };
        self.sel = if next < last {
            next
        } else {
            last
        };
    }
}

/// The width of a row's label, so that the second column lines up.
pub const PICKER_LABEL_COL: usize = 30;

// --- sessions ---------------------------------------------------------------

/// The first eight characters of an id.
pub open spec fn short(id: Seq<char>) -> Seq<char> {
    id.take(lesser(id.len() as int, 8))
}

pub fn short_id(id: &str) -> (r: String)
    ensures
        r@ == short(id@),
{
    let v = chars(id);
    let n: usize = if v.len() < 8 {
        v.len()
    } else {
        8
    };
    string_of(&v, 0, n)
}

/// The bytes a character takes in UTF-8.
pub open spec fn utf8_len(c: char) -> int {
    let n = c as u32;
    if n < 0x80 {
        1
    } else if n < 0x800 {
        2
    } else if n < 0x1_0000 {
        3
    } else {
        4
    }
}

/// The characters from `i` on that take exactly `bytes` bytes, where there are
/// such.
pub open spec fn byte_end(s: Seq<char>, i: int, bytes: int) -> Option<int>
    decreases s.len() - i,
{
    if bytes == 0 {
        Some(i)
    } else if bytes < 0 || i < 0 || i >= s.len() {
        None
    } else {
        byte_end(s, i + 1, bytes - utf8_len(s[i]))
    }
}

/// The first ten bytes of a time, which are its date.
pub open spec fn date(updated_at: Option<Seq<char>>) -> Seq<char> {
    match updated_at {
        Some(u) => match byte_end(u, 0, 10) {
            Some(n) => u.take(n),
            None => "?"@,
        },
        None => "?"@,
    }
}

fn date_of(updated_at: &Option<String>) -> (r: String)
    ensures
        r@ == date(text::view_opt(*updated_at)),
{
    match updated_at {
        None => String::from_str("?"),
        Some(u) => {
            let v = chars(u.as_str());
            let mut left: i32 = 10;
            let mut i: usize = 0;
            while left > 0 && i < v.len()
                invariant
                    i <= v.len(),
                    v@ == u@,
                    -3 <= left <= 10,
                    byte_end(u@, 0, 10) == byte_end(u@, i as int, left as int),
                decreases v.len() - i,
            {
                let n: u32 = v[i] as u32;
                let w: i32 = if n < 0x80 {
                    1
                } else if n < 0x800 {
                    2
                } else if n < 0x1_0000 {
                    3
                } else {
                    4
                };
                left = left - w;
                i += 1;
            }
            if left == 0 {
                let d = string_of(&v, 0, i);
                assert(d@ == u@.take(i as int));
                d
            } else {
                String::from_str("?")
            }
        },
    }
}

/// A text with spaces behind it up to eight characters.
pub open spec fn padded(s: Seq<char>) -> Seq<char> {
    s + Seq::new(less(8, s.len() as int) as nat, |i: int| ' ')
}

fn pad(s: &str) -> (r: String)
    ensures
        r@ == padded(s@),
{
    let n: usize = s.unicode_len();
    let mut out = String::from_str(s);
    let mut i: usize = n;
    assert(out@ == s@ + Seq::new(0nat, |i: int| ' '));
    while i < 8
        invariant
            n <= i,
            i <= 8 || i == n,
            n == s@.len(),
            out@ == s@ + Seq::new((i - n) as nat, |i: int| ' '),
        decreases 8 - i,
    {
        out.push(' ');
        i += 1;
        assert(out@ == s@ + Seq::new((i - n) as nat, |i: int| ' '));
    }
    out
}

/// The row of a stored session: its title, or its id where it has none, and
/// then the beginning of its id and its date.
pub open spec fn session_row(
    id: Seq<char>,
    title: Option<Seq<char>>,
    updated_at: Option<Seq<char>>,
) -> Row {
    Row {
        id,
        label: if title is Some && !text::blank(title->0) {
            transcript::clamped(text::trim(title->0), PICKER_LABEL_COL as int)
        } else {
            short(id)
        },
        meta: padded(short(id)) + " · "@ + date(updated_at),
        provider: None,
    }
}

pub fn session_picker_row(item: &SessionListItem) -> (r: PickerItem)
    ensures
        r@ == session_row(
            item.id@,
            text::view_opt(item.title),
            text::view_opt(item.updated_at),
        ),
{
    let brief = short_id(item.id.as_str());
    let mut label = brief.clone();
    if let Some(title) = &item.title {
        let t = trimmed(title.as_str());
        if !t.as_str().is_empty() {
            label = clamp_str(t.as_str(), PICKER_LABEL_COL);
        }
    }
    let lead = pad(brief.as_str());
    let day = date_of(&item.updated_at);
    PickerItem {
        id: item.id.clone(),
        label,
        meta: cat3(lead.as_str(), " · ", day.as_str()),
        provider: None,
    }
}

/// The ids of the first `n` sessions that begin with a prefix.
pub open spec fn matching(sessions: Seq<SessionListItem>, prefix: Seq<char>, n: int) -> Seq<
    Seq<char>,
>
    decreases n,
{
    if n <= 0 {
        Seq::empty()
    } else if prefix.is_prefix_of(sessions[n - 1].id@) {
        matching(sessions, prefix, n - 1).push(sessions[n - 1].id@)
    } else {
        matching(sessions, prefix, n - 1)
    }
}

/// The session a prefix means: the one that begins with it, or the one it
/// names in full among several. Otherwise why it means none.
pub open spec fn meant(locale: Locale, sessions: Seq<SessionListItem>, prefix: Seq<char>) -> Result<
    Seq<char>,
    Seq<char>,
> {
    let ids = matching(sessions, prefix, sessions.len() as int);
    let hint = locale::say(locale, "/resume lists them"@, "/resume 可以看到它们"@);
    if ids.len() == 1 {
        Ok(ids[0])
    } else if ids.len() == 0 {
        Err(
            locale::say(
                locale,
                "no session matches “"@ + prefix + "” — "@ + hint,
                "没有会话匹配 “"@ + prefix + "” —— "@ + hint,
            ),
        )
    } else if ids.contains(prefix) {
        Ok(prefix)
    } else {
        Err(
            locale::say(
                locale,
                "“"@ + prefix + "” is ambiguous ("@ + text::decimal(ids.len()) + " matches) — "@
                    + hint,
                "“"@ + prefix + "” 有歧义（"@ + text::decimal(ids.len()) + " 个匹配）—— "@ + hint,
            ),
        )
    }
}

fn matching_ids(sessions: &Vec<SessionListItem>, prefix: &str) -> (r: Vec<String>)
    ensures
        text::views(r@) == matching(sessions@, prefix@, sessions@.len() as int),
{
    let mut out: Vec<String> = Vec::new();
    let mut i: usize = 0;
    assert(text::views(out@) == matching(sessions@, prefix@, 0));
    while i < sessions.len()
        invariant
            i <= sessions.len(),
            text::views(out@) == matching(sessions@, prefix@, i as int),
        decreases sessions.len() - i,
    {
        let ghost before = text::views(out@);
        if starts_with(sessions[i].id.as_str(), prefix) {
            out.push(sessions[i].id.clone());
            assert(text::views(out@) == before.push(sessions@[i as int].id@));
        }
        i += 1;
    }
    out
}

pub fn unique_session_list_match(
    locale: Locale,
    sessions: &Vec<SessionListItem>,
    prefix: &str,
) -> (r: Result<String, String>)
    ensures
        match r {
            Ok(id) => meant(locale, sessions@, prefix@) == Ok::<Seq<char>, Seq<char>>(id@),
            Err(why) => meant(locale, sessions@, prefix@) == Err::<Seq<char>, Seq<char>>(why@),
        },
{
    let ids = matching_ids(sessions, prefix);
    let ghost all = text::views(ids@);
    let hint = locale.tr("/resume lists them", "/resume 可以看到它们");
    if ids.len() == 1 {
        assert(all[0] == ids@[0]@);
        return Ok(ids[0].clone());
    }
    if ids.len() == 0 {
        return Err(
            match locale {
                Locale::En => text::cat4("no session matches “", prefix, "” — ", hint),
                Locale::Zh => text::cat4("没有会话匹配 “", prefix, "” —— ", hint),
            },
        );
    }
    let mut i: usize = 0;
    while i < ids.len()
        invariant
            i <= ids.len(),
            ids.len() > 1,
            all == text::views(ids@),
            all == matching(sessions@, prefix@, sessions@.len() as int),
            forall|j: int| 0 <= j < i ==> #[trigger] all[j] != prefix@,
        decreases ids.len() - i,
    {
        assert(all[i as int] == ids@[i as int]@);
        if same(ids[i].as_str(), prefix) {
            assert(all.contains(prefix@));
            return Ok(ids[i].clone());
        }
        i += 1;
    }
    let n = number(ids.len() as u64);
    Err(
        match locale {
            Locale::En => {
                let head = cat5("“", prefix, "” is ambiguous (", n.as_str(), " matches) — ");
                text::cat(head.as_str(), hint)
            },
            Locale::Zh => {
                let head = cat5("“", prefix, "” 有歧义（", n.as_str(), " 个匹配）—— ");
                text::cat(head.as_str(), hint)
            },
        },
    )
}

// --- the command menu and the cards -------------------------------------------

/// One row of the command menu: a command, or an argument of one. An argument
/// row holds the whole line that it stands for.
#[derive(Debug, Clone, PartialEq, Eq)]
pub struct SlashEntry {
    pub name: String,
    pub usage: String,
    pub desc: String,
    pub completion: Option<String>,
}

#[verifier::ext_equal]
pub struct Suggestion {
    pub name: Seq<char>,
    pub usage: Seq<char>,
    pub desc: Seq<char>,
    pub completion: Option<Seq<char>>,
}

impl View for SlashEntry {
    type V = Suggestion;

    open spec fn view(&self) -> Suggestion {
        Suggestion {
            name: self.name@,
            usage: self.usage@,
            desc: self.desc@,
            completion: text::view_opt(self.completion),
        }
    }
}

pub open spec fn suggestions(v: Seq<SlashEntry>) -> Seq<Suggestion> {
    v.map_values(|e: SlashEntry| e@)
}

impl SlashEntry {
    pub fn copy(&self) -> (r: Self)
        ensures
            r@ == self@,
    {
        SlashEntry {
            name: self.name.clone(),
            usage: self.usage.clone(),
            desc: self.desc.clone(),
            completion: text::copy_opt(&self.completion),
        }
    }
}

/// A read-only card: a title, and its body in markdown.
#[derive(Debug, Clone, PartialEq, Eq)]
pub struct ViewOverlay {
    pub title: String,
    pub text: String,
    pub scroll: usize,
}

#[verifier::ext_equal]
pub struct Card {
    pub title: Seq<char>,
    pub text: Seq<char>,
    pub scroll: usize,
}

impl View for ViewOverlay {
    type V = Card;

    open spec fn view(&self) -> Card {
        Card { title: self.title@, text: self.text@, scroll: self.scroll }
    }
}

/// The dialog behind the checklist's progress chip.
#[derive(Debug, Clone, Copy, PartialEq, Eq, Structural)]
pub struct TodoDialog {
    pub scroll: usize,
}

/// A scroll position moved, up or down, within what can be counted.
pub open spec fn scrolled(at: usize, down: bool, n: int) -> usize {
    if down {
        lesser(at + n, usize::MAX as int) as usize
    } else {
        less(at as int, n) as usize
    }
}

pub fn scroll_to(at: usize, down: bool, n: usize) -> (r: usize)
    ensures
        r == scrolled(at, down, n as int),
{
    if down {
        at.saturating_add(n)
    } else {
        at.saturating_sub(n)
    }
}

/// A step down and a step up undo each other, and both stay in the list.
pub proof fn steps_undo_each_other(sel: usize, n: int)
    requires
        sel < n <= usize::MAX,
    ensures
        wrap_up(sel, n) < n,
        wrap_down(sel, n) < n,
        wrap_down(wrap_up(sel, n), n) == sel,
        wrap_up(wrap_down(sel, n), n) == sel,
{
    let next = sel + 1;
    assert(next % n == if next == n {
        0
    } else {
        next
    }) by (nonlinear_arith)
        requires
            0 < next <= n,
    ;
    let last = n - 1;
    assert((last + 1) % n == 0) by (nonlinear_arith)
        requires
            last == n - 1,
            n > 0,
    ;
    if sel > 0 {
        assert(sel as int % n == sel) by (nonlinear_arith)
            requires
                0 <= sel < n,
        ;
    }
}

} // verus!
