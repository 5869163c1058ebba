//! The timeline of a session as the application keeps it: what the user sent,
//! what the client has to say, and the session's own facts in the order they
//! came. The painter lays it out and folds the facts into cards.

use vstd::prelude::*;
use vstd::string::*;
use crate::events::UiEvent;
use crate::input::layout;
use crate::input::layout::char_columns;
use crate::locale;
use crate::locale::Locale;
use crate::text;
use crate::text::{cat, chars, copy_opt, same, string_of};

verus! {

// --- clamped labels -------------------------------------------------------

/// The display columns of the first `n` characters of a text.
pub open spec fn columns_of(s: Seq<char>, n: int) -> int
    decreases n,
{
    if n <= 0 {
        0
    } else {
        layout::cap(columns_of(s, n - 1) + layout::columns(s[n - 1]))
    }
}

/// The longest prefix from the first `n` characters on that is no wider than
/// `max` columns, where the first `n` are not.
pub open spec fn fitting(s: Seq<char>, max: int, n: int) -> int
    decreases s.len() - n,
{
    if 0 <= n < s.len() && columns_of(s, n + 1) <= max {
        fitting(s, max, n + 1)
    } else {
        n
    }
}

/// A text no wider than `max` columns: whole where it fits, otherwise cut with
/// an ellipsis in the last column.
pub open spec fn clamped(s: Seq<char>, max: int) -> Seq<char> {
    if columns_of(s, s.len() as int) <= max {
        s
    } else {
        s.take(fitting(s, max - 1, 0)) + "…"@
    }
}

/// A text made no wider than `max` columns.
pub fn clamp_str(s: &str, max: usize) -> (r: String)
    requires
        max >= 1,
    ensures
        r@ == clamped(s@, max as int),
{
    let v = chars(s);
    let mut w: usize = 0;
    let mut i: usize = 0;
    while i < v.len()
        invariant
            i <= v.len(),
            v@ == s@,
            w == columns_of(s@, i as int),
        decreases v.len() - i,
    {
        let c: usize = match char_columns(v[i]) {
            Some(c) => c,
            None => 0,
        };
        w = w.saturating_add(c);
        i += 1;
    }
    if w <= max {
        return String::from_str(s);
    }
    let mut n: usize = 0;
    let mut at: usize = 0;
    while n < v.len()
        invariant_except_break
            fitting(s@, max - 1, 0) == fitting(s@, max - 1, n as int),
        invariant
            n <= v.len(),
            v@ == s@,
            max >= 1,
            at == columns_of(s@, n as int),
        ensures
            n == fitting(s@, max - 1, 0),
        decreases v.len() - n,
    {
        let c: usize = match char_columns(v[n]) {
            Some(c) => c,
            None => 0,
        };
        let next: usize = at.saturating_add(c);
        assert(next == columns_of(s@, n + 1));
        if next > max - 1 {
            break;
        }
        at = next;
        n += 1;
    }
    let head = string_of(&v, 0, n);
    assert(head@ == s@.take(n as int));
    cat(head.as_str(), "…")
}

// --- cells ------------------------------------------------------------------

#[derive(Debug, Clone, Copy, PartialEq, Eq, Structural)]
pub enum NoticeLevel {
    Info,
    Warn,
    Error,
}

/// What a cell of the timeline is.
#[derive(Debug, Clone, PartialEq, Eq)]
pub enum CellKind {
    /// A prompt of the user's; queued until it is sent.
    User { text: String, queued: bool },
    Image { name: String, caption: String, path: String, data: Vec<u8>, queued: bool },
    Notice { level: NoticeLevel, text: String },
    MarkdownNotice { text: String },
    Banner { art: Vec<String>, url: String, facts: Vec<(String, String)> },
    /// A tool call, open until it has come out well or not.
    Tool {
        call_id: String,
        name: String,
        arguments: String,
        ok: Option<bool>,
        error: Option<String>,
        output: String,
    },
    /// Any other fact of the session, for the painter to fold.
    Fact(UiEvent),
}

#[derive(Debug, Clone, PartialEq, Eq)]
pub struct Cell {
    pub kind: CellKind,
    pub expanded: bool,
}

pub enum Note {
    User { text: Seq<char>, queued: bool },
    Image {
        name: Seq<char>,
        caption: Seq<char>,
        path: Seq<char>,
        data: Seq<u8>,
        queued: bool,
    },
    Notice { level: NoticeLevel, text: Seq<char> },
    Markdown { text: Seq<char> },
    Banner { art: Seq<Seq<char>>, url: Seq<char>, facts: Seq<(Seq<char>, Seq<char>)> },
    Tool {
        call_id: Seq<char>,
        name: Seq<char>,
        arguments: Seq<char>,
        ok: Option<bool>,
        error: Option<Seq<char>>,
        output: Seq<char>,
    },
    Fact(UiEvent),
}

pub struct Entry {
    pub note: Note,
    pub expanded: bool,
}

pub open spec fn note_of(kind: CellKind) -> Note {
    match kind {
        CellKind::User { text, queued } => Note::User { text: text@, queued },
        CellKind::Image { name, caption, path, data, queued } => Note::Image {
            name: name@,
            caption: caption@,
            path: path@,
            data: data@,
            queued,
        },
        CellKind::Notice { level, text } => Note::Notice { level, text: text@ },
        CellKind::MarkdownNotice { text } => Note::Markdown { text: text@ },
        CellKind::Banner { art, url, facts } => Note::Banner {
            art: text::views(art@),
            url: url@,
            facts: facts@.map_values(|f: (String, String)| (f.0@, f.1@)),
        },
        CellKind::Tool { call_id, name, arguments, ok, error, output } => Note::Tool {
            call_id: call_id@,
            name: name@,
            arguments: arguments@,
            ok,
            error: text::view_opt(error),
            output: output@,
        },
        CellKind::Fact(ui) => Note::Fact(ui),
    }
}

impl View for Cell {
    type V = Entry;

    open spec fn view(&self) -> Entry {
        Entry { note: note_of(self.kind), expanded: self.expanded }
    }
}

pub open spec fn entries(cells: Seq<Cell>) -> Seq<Entry> {
    cells.map_values(|c: Cell| c@)
}

/// A prompt's echo marked as queued, or as sent; any other cell as it is.
pub open spec fn marked(e: Entry, queued: bool) -> Entry {
    match e.note {
        Note::User { text, .. } => Entry { note: Note::User { text, queued }, ..e },
        Note::Image { name, caption, path, data, .. } => Entry {
            note: Note::Image { name, caption, path, data, queued },
            ..e
        },
        _ => e,
    }
}

/// A tool call that was open when its turn was stopped; any other cell as it
/// is.
pub open spec fn stopped(e: Entry) -> Entry {
    match e.note {
        Note::Tool { call_id, name, arguments, ok, output, .. } => if ok is None {
            Entry {
                note: Note::Tool {
                    call_id,
                    name,
                    arguments,
                    ok: Some(false),
                    error: Some("cancelled"@),
                    output,
                },
                ..e
            }
        } else {
            e
        },
        _ => e,
    }
}

/// A tool call with its outcome.
pub open spec fn finished(
    e: Entry,
    ok: bool,
    error: Option<Seq<char>>,
    output: Seq<char>,
) -> Entry {
    match e.note {
        Note::Tool { call_id, name, arguments, .. } => Entry {
            note: Note::Tool { call_id, name, arguments, ok: Some(ok), error, output },
            ..e
        },
        _ => e,
    }
}

/// A cell that is the open tool call of that id.
pub open spec fn awaits(e: Entry, id: Seq<char>) -> bool {
    match e.note {
        Note::Tool { call_id, ok, .. } => call_id == id && ok is None,
        _ => false,
    }
}

/// The last of the first `n` cells that is the open tool call of that id.
pub open spec fn open_call(cells: Seq<Entry>, id: Seq<char>, n: int) -> Option<int>
    decreases n,
{
    if n <= 0 {
        None
    } else if awaits(cells[n - 1], id) {
        Some(n - 1)
    } else {
        open_call(cells, id, n - 1)
    }
}

/// The cells with the echoes at `at` marked.
pub open spec fn mark_at(cells: Seq<Entry>, at: Seq<usize>, queued: bool) -> Seq<Entry> {
    Seq::new(
        cells.len(),
        |i: int|
            if at.contains(i as usize) {
                marked(cells[i], queued)
            } else {
                cells[i]
            },
    )
}

/// How many of the first `n` cells stay when those at `at` go.
pub open spec fn rank(at: Seq<usize>, n: int) -> int
    decreases n,
{
    if n <= 0 {
        0
    } else if at.contains((n - 1) as usize) {
        rank(at, n - 1)
    } else {
        rank(at, n - 1) + 1
    }
}

/// Where each of `n` cells goes when those at `at` are removed.
pub open spec fn moves(at: Seq<usize>, n: int) -> Seq<Option<usize>> {
    Seq::new(
        n as nat,
        |i: int|
            if at.contains(i as usize) {
                None
            } else {
                Some(rank(at, i) as usize)
            },
    )
}

/// The first `n` cells without those at `at`.
pub open spec fn without(cells: Seq<Entry>, at: Seq<usize>, n: int) -> Seq<Entry>
    decreases n,
{
    if n <= 0 {
        Seq::empty()
    } else if at.contains((n - 1) as usize) {
        without(cells, at, n - 1)
    } else {
        without(cells, at, n - 1).push(cells[n - 1])
    }
}

/// A cell that stays is found, after a removal, where the moves say.
pub proof fn moves_follow_the_cells(cells: Seq<Entry>, at: Seq<usize>, n: int, i: int)
    requires
        0 <= i < n <= cells.len(),
        cells.len() <= usize::MAX,
    ensures
        without(cells, at, n).len() == rank(at, n),
        0 <= rank(at, i) <= rank(at, n) <= n,
        match moves(at, n)[i] {
            Some(to) => to < rank(at, n) && without(cells, at, n)[to as int] == cells[i],
            None => at.contains(i as usize),
        },
    decreases n,
{
    if n == 1 {
        assert(rank(at, 0) == 0);
        assert(without(cells, at, 0).len() == 0);
    } else if i < n - 1 {
        moves_follow_the_cells(cells, at, n - 1, i);
    } else {
        moves_follow_the_cells(cells, at, n - 1, n - 2);
    }
}

/// The tokens a session has used.
#[derive(Debug, Clone, Copy, PartialEq, Eq, Structural)]
pub struct Usage {
    /// All input, what came from the cache with it.
    pub input: u64,
    pub output: u64,
    pub cached: u64,
}

/// The counters of a session.
#[derive(Debug, Clone, Copy, PartialEq, Eq, Structural)]
pub struct Stats {
    pub turns: u64,
    pub steps: u64,
    pub turn_millis: u64,
    pub tool_millis: u64,
    pub ttft_count: u64,
    pub ttft_total_millis: u64,
}

/// The timeline of one session. The counters, the model of the last turn and
/// whether a turn streams are the painter's findings, read off the facts.
#[derive(Debug, Clone, PartialEq, Eq)]
pub struct Transcript {
    pub root: String,
    pub locale: Locale,
    pub cells: Vec<Cell>,
    pub expand_all: bool,
    pub last_model: Option<String>,
    pub streaming: bool,
    pub usage: Usage,
    pub stats: Stats,
}

#[verifier::ext_equal]
pub struct Timeline {
    pub root: Seq<char>,
    pub locale: Locale,
    pub cells: Seq<Entry>,
    pub expand_all: bool,
    pub last_model: Option<Seq<char>>,
    pub streaming: bool,
    pub usage: Usage,
    pub stats: Stats,
}

impl View for Transcript {
    type V = Timeline;

    open spec fn view(&self) -> Timeline {
        Timeline {
            root: self.root@,
            locale: self.locale,
            cells: entries(self.cells@),
            expand_all: self.expand_all,
            last_model: text::view_opt(self.last_model),
            streaming: self.streaming,
            usage: self.usage,
            stats: self.stats,
        }
    }
}

impl Timeline {
    pub open spec fn fresh(root: Seq<char>) -> Timeline {
        Timeline {
            root,
            locale: Locale::En,
            cells: Seq::empty(),
            expand_all: false,
            last_model: None,
            streaming: false,
            usage: Usage { input: 0, output: 0, cached: 0 },
            stats: Stats {
                turns: 0,
                steps: 0,
                turn_millis: 0,
                tool_millis: 0,
                ttft_count: 0,
                ttft_total_millis: 0,
            },
        }
    }

    pub open spec fn with(self, note: Note) -> Timeline {
        Timeline { cells: self.cells.push(Entry { note, expanded: false }), ..self }
    }

    pub open spec fn noticed(self, level: NoticeLevel, text: Seq<char>) -> Timeline {
        self.with(Note::Notice { level, text })
    }

    pub open spec fn info(self, text: Seq<char>) -> Timeline {
        self.noticed(NoticeLevel::Info, text)
    }

    pub open spec fn warn(self, text: Seq<char>) -> Timeline {
        self.noticed(NoticeLevel::Warn, text)
    }

    pub open spec fn cleared(self) -> Timeline {
        Timeline { cells: Seq::empty(), ..self }
    }

    pub open spec fn marked(self, at: Seq<usize>, queued: bool) -> Timeline {
        Timeline { cells: mark_at(self.cells, at, queued), ..self }
    }

    /// A cell shown in full, or folded again.
    pub open spec fn turned(self, i: int) -> Timeline {
        Timeline {
            cells: self.cells.update(
                i,
                Entry { expanded: !self.cells[i].expanded, ..self.cells[i] },
            ),
            ..self
        }
    }

    /// The tool calls that were open stopped.
    pub open spec fn cancelled(self) -> Timeline {
        Timeline { cells: self.cells.map_values(|e: Entry| stopped(e)), ..self }
    }

    /// A fact of the session told: a run state is no cell, a replayed line is
    /// a prompt, a title a notice, a tool's result completes its call, and
    /// anything else is kept as it came.
    #[verifier::opaque]
    pub open spec fn heard(self, ui: UiEvent) -> Timeline {
        match ui {
            UiEvent::SessionStatus { .. } => self,
            UiEvent::UserMessage { text, .. } => self.with(
                Note::User { text: text@, queued: false },
            ),
            UiEvent::SessionTitle { title, .. } => self.info(
                locale::say(self.locale, "session · "@, "会话 · "@) + title@,
            ),
            UiEvent::ToolCall { call_id, name, arguments, .. } => self.with(
                Note::Tool {
                    call_id: call_id@,
                    name: name@,
                    arguments: arguments@,
                    ok: None,
                    error: None,
                    output: Seq::empty(),
                },
            ),
            UiEvent::ToolResult { call_id, is_error, text, error, .. } => match open_call(
                self.cells,
                call_id@,
                self.cells.len() as int,
            ) {
                Some(i) => Timeline {
                    cells: self.cells.update(
                        i,
                        finished(self.cells[i], !is_error, text::view_opt(error), text@),
                    ),
                    ..self
                },
                None => self.with(Note::Fact(ui)),
            },
            _ => self.with(Note::Fact(ui)),
        }
    }

    /// The timeline without the cells at `at`.
    pub open spec fn removed(self, at: Seq<usize>) -> Timeline {
        let n = self.cells.len() as int;
        Timeline { cells: without(self.cells, at, n), ..self }
    }
}

fn has(at: &Vec<usize>, i: usize) -> (r: bool)
    ensures
        r == at@.contains(i),
{
    let mut k: usize = 0;
    while k < at.len()
        invariant
            k <= at.len(),
            forall|j: int| 0 <= j < k ==> at@[j] != i,
        decreases at.len() - k,
    {
        if at[k] == i {
            assert(at@.contains(i));
            return true;
        }
        k += 1;
    }
    false
}

impl Transcript {
    pub fn new(root: String) -> (r: Self)
        ensures
            r@ == Timeline::fresh(root@),
    {
        let r = Transcript {
            root,
            locale: Locale::En,
            cells: Vec::new(),
            expand_all: false,
            last_model: None,
            streaming: false,
            usage: Usage { input: 0, output: 0, cached: 0 },
            stats: Stats {
                turns: 0,
                steps: 0,
                turn_millis: 0,
                tool_millis: 0,
                ttft_count: 0,
                ttft_total_millis: 0,
            },
        };
        assert(r@.cells == Seq::<Entry>::empty());
        r
    }

    pub fn set_locale(&mut self, locale: Locale)
        ensures
            final(self)@ == (Timeline { locale, ..old(self)@ }),
    {
        self.locale = locale;
    }

    pub fn set_root_session(&mut self, root: String)
        ensures
            final(self)@ == (Timeline { root: root@, ..old(self)@ }),
    {
        self.root = root;
    }

    fn push(&mut self, kind: CellKind)
        ensures
            final(self)@ == old(self)@.with(note_of(kind)),
    {
        let cell = Cell { kind, expanded: false };
        let ghost e = cell@;
        self.cells.push(cell);
        assert(entries(self.cells@) == old(self)@.cells.push(e));
    }

    fn find_call(&self, id: &str) -> (r: Option<usize>)
        ensures
            match r {
                Some(i) => open_call(self@.cells, id@, self@.cells.len() as int) == Some(i as int)
                    && i < self@.cells.len(),
                None => open_call(self@.cells, id@, self@.cells.len() as int) is None,
            },
    {
        let mut n: usize = self.cells.len();
        while n > 0
            invariant
                n <= self.cells.len(),
                open_call(self@.cells, id@, self@.cells.len() as int) == open_call(
                    self@.cells,
                    id@,
                    n as int,
                ),
            decreases n,
        {
            assert(self@.cells[n - 1] == self.cells@[n - 1]@);
            let here = match &self.cells[n - 1].kind {
                CellKind::Tool { call_id, ok, .. } => ok.is_none() && same(call_id.as_str(), id),
                _ => false,
            };
            if here {
                return Some(n - 1);
            }
            n -= 1;
        }
        None
    }

    fn finish_call(&mut self, i: usize, ok: bool, error: Option<String>, output: String)
        requires
            i < old(self)@.cells.len(),
        ensures
            final(self)@ == (Timeline {
                cells: old(self)@.cells.update(
                    i as int,
                    finished(old(self)@.cells[i as int], ok, text::view_opt(error), output@),
                ),
                ..old(self)@
            }),
    {
        let ghost before = self@.cells;
        assert(before[i as int] == self.cells@[i as int]@);
        match &mut self.cells[i].kind {
            CellKind::Tool { ok: k, error: e, output: o, .. } => {
                *k = Some(ok);
                *e = error;
                *o = output;
            },
            _ => {},
        }
        assert(self@.cells == before.update(
            i as int,
            finished(before[i as int], ok, text::view_opt(error), output@),
        ));
    }

    /// Tell a fact of the session.
    pub fn apply(&mut self, ui: UiEvent)
        ensures
            final(self)@ == old(self)@.heard(ui),
    {
        reveal(Timeline::heard);
        match &ui {
            UiEvent::SessionStatus { .. } => {},
            UiEvent::UserMessage { text, .. } => {
                self.push_user(text.clone(), false);
            },
            UiEvent::SessionTitle { title, .. } => {
                let t = cat(self.locale.tr("session · ", "会话 · "), title.as_str());
                self.push_notice(NoticeLevel::Info, t);
            },
            UiEvent::ToolCall { call_id, name, arguments, .. } => {
                let none = String::new();
                assert(none@ == Seq::<char>::empty());
                self.push(
                    CellKind::Tool {
                        call_id: call_id.clone(),
                        name: name.clone(),
                        arguments: arguments.clone(),
                        ok: None,
                        error: None,
                        output: none,
                    },
                );
            },
            UiEvent::ToolResult { call_id, is_error, text, error, .. } => {
                match self.find_call(call_id.as_str()) {
                    Some(i) => {
                        self.finish_call(i, !*is_error, copy_opt(error), text.clone());
                    },
                    None => self.push(CellKind::Fact(ui)),
                }
            },
            _ => self.push(CellKind::Fact(ui)),
        }
    }

    pub fn push_user(&mut self, text: String, queued: bool)
        ensures
            final(self)@ == old(self)@.with(Note::User { text: text@, queued }),
    {
        self.push(CellKind::User { text, queued });
    }

    pub fn push_image(
        &mut self,
        name: String,
        caption: String,
        path: String,
        data: Vec<u8>,
        queued: bool,
    )
        ensures
            final(self)@ == old(self)@.with(
                Note::Image {
                    name: name@,
                    caption: caption@,
                    path: path@,
                    data: data@,
                    queued,
                },
            ),
    {
        self.push(CellKind::Image { name, caption, path, data, queued });
    }

    pub fn push_notice(&mut self, level: NoticeLevel, text: String)
        ensures
            final(self)@ == old(self)@.noticed(level, text@),
    {
        self.push(CellKind::Notice { level, text });
    }

    pub fn push_markdown(&mut self, text: String)
        ensures
            final(self)@ == old(self)@.with(Note::Markdown { text: text@ }),
    {
        self.push(CellKind::MarkdownNotice { text });
    }

    pub fn push_banner(&mut self, art: Vec<String>, url: String, facts: Vec<(String, String)>)
        ensures
            final(self)@ == old(self)@.with(
                Note::Banner {
                    art: text::views(art@),
                    url: url@,
                    facts: facts@.map_values(|f: (String, String)| (f.0@, f.1@)),
                },
            ),
    {
        self.push(CellKind::Banner { art, url, facts });
    }

    /// Every cell gone.
    pub fn clear(&mut self)
        ensures
            final(self)@ == old(self)@.cleared(),
    {
        self.cells.clear();
        assert(entries(self.cells@) == Seq::<Entry>::empty());
    }

    /// Show a cell in full, or fold it again: whether it is shown in full now.
    pub fn turn(&mut self, i: usize) -> (r: bool)
        requires
            i < old(self)@.cells.len(),
        ensures
            final(self)@ == old(self)@.turned(i as int),
            r == !old(self)@.cells[i as int].expanded,
    {
        let ghost before = self@.cells;
        assert(before[i as int] == self.cells@[i as int]@);
        let now = !self.cells[i].expanded;
        self.cells[i].expanded = now;
        assert(entries(self.cells@) == before.update(
            i as int,
            Entry { expanded: now, ..before[i as int] },
        ));
        now
    }

    /// The work of a stopped turn is no longer open.
    pub fn cancel_open_work(&mut self)
        ensures
            final(self)@ == old(self)@.cancelled(),
    {
        let ghost start = self@;
        let n: usize = self.cells.len();
        let mut i: usize = 0;
        while i < n
            invariant
                i <= n == self.cells.len(),
                n == start.cells.len(),
                start == old(self)@,
                self@ == (Timeline { cells: self@.cells, ..start }),
                forall|k: int| 0 <= k < i ==> #[trigger] self@.cells[k] == stopped(start.cells[k]),
                forall|k: int| i <= k < n ==> #[trigger] self@.cells[k] == start.cells[k],
            decreases n - i,
        {
            let ghost before = self@.cells;
            assert(before[i as int] == start.cells[i as int]);
            assert(before[i as int] == self.cells@[i as int]@);
            match &mut self.cells[i].kind {
                CellKind::Tool { ok, error, .. } => {
                    if ok.is_none() {
                        *ok = Some(false);
                        *error = Some(String::from_str("cancelled"));
                    }
                },
                _ => {},
            }
            assert(self@.cells == before.update(i as int, stopped(before[i as int])));
            i += 1;
        }
        assert(self@.cells == start.cells.map_values(|e: Entry| stopped(e)));
    }

    fn mark(&mut self, at: &Vec<usize>, queued: bool)
        ensures
            final(self)@ == old(self)@.marked(at@, queued),
    {
        let ghost start = self@;
        let n: usize = self.cells.len();
        let mut i: usize = 0;
        while i < n
            invariant
                i <= n == self.cells.len(),
                n == start.cells.len(),
                start == old(self)@,
                self@ == (Timeline { cells: self@.cells, ..start }),
                forall|k: int|
                    0 <= k < i ==> #[trigger] self@.cells[k] == mark_at(
                        start.cells,
                        at@,
                        queued,
                    )[k],
                forall|k: int| i <= k < n ==> #[trigger] self@.cells[k] == start.cells[k],
            decreases n - i,
        {
            let ghost before = self@.cells;
            assert(before[i as int] == start.cells[i as int]);
            assert(before[i as int] == self.cells@[i as int]@);
            if has(at, i) {
                match &mut self.cells[i].kind {
                    CellKind::User { queued: q, .. } => {
                        *q = queued;
                    },
                    CellKind::Image { queued: q, .. } => {
                        *q = queued;
                    },
                    _ => {},
                }
                assert(self@.cells == before.update(
                    i as int,
                    marked(before[i as int], queued),
                ));
            }
            i += 1;
        }
        assert(self@.cells == mark_at(start.cells, at@, queued));
    }

    /// The echoes at `at` wait in the queue again.
    pub fn mark_prompt_queued(&mut self, at: &Vec<usize>)
        ensures
            final(self)@ == old(self)@.marked(at@, true),
    {
        self.mark(at, true);
    }

    /// The echoes at `at` have been sent.
    pub fn mark_prompt_delivered(&mut self, at: &Vec<usize>)
        ensures
            final(self)@ == old(self)@.marked(at@, false),
    {
        self.mark(at, false);
    }

    /// The cells at `at` gone. Tells where every cell went.
    pub fn remove_cells(&mut self, at: &Vec<usize>) -> (r: Vec<Option<usize>>)
        ensures
            final(self)@ == old(self)@.removed(at@),
            r@ == moves(at@, old(self)@.cells.len() as int),
    {
        let ghost start = self@;
        let n: usize = self.cells.len();
        let mut kept: usize = 0;
        let mut map: Vec<Option<usize>> = Vec::new();
        let mut i: usize = 0;
        assert(start.cells.skip(0) == start.cells);
        while i < n
            invariant
                i <= n == start.cells.len(),
                start == old(self)@,
                kept == rank(at@, i as int),
                kept <= i,
                map@ == moves(at@, i as int),
                without(start.cells, at@, i as int).len() == kept,
                self@ == (Timeline {
                    cells: without(start.cells, at@, i as int) + start.cells.skip(i as int),
                    ..start
                }),
            decreases n - i,
        {
            let ghost before = self@.cells;
            let ghost head = without(start.cells, at@, i as int);
            assert(before.len() == kept + (n - i));
            assert(before.len() == self.cells@.len());
            assert(before[kept as int] == start.cells[i as int]);
            if has(at, i) {
                map.push(None);
                let ghost whole = self.cells@;
                self.cells.remove(kept);
                assert(self.cells@ == whole.remove(kept as int));
                assert(self@.cells == before.remove(kept as int));
                assert(before.remove(kept as int) == head + start.cells.skip(i + 1));
            } else {
                map.push(Some(kept));
                kept = kept + 1;
                assert(self@.cells == head.push(start.cells[i as int]) + start.cells.skip(i + 1));
            }
            assert(map@ == moves(at@, i + 1));
            i += 1;
        }
        assert(start.cells.skip(n as int) == Seq::<Entry>::empty());
        assert(without(start.cells, at@, n as int) + Seq::<Entry>::empty() == without(
            start.cells,
            at@,
            n as int,
        ));
        map
    }
}

} // verus!
