//! The one table from key events to actions: a pure function of the key and
//! two facts about the composer.

use vstd::prelude::*;
use vstd::string::*;
use crate::input::keys::{KeyCode, KeyEvent, KeyModifiers};
use crate::text;
use crate::text::cat;

verus! {

/// What a pressed key should do.
#[derive(Debug, Clone, Copy, PartialEq, Eq, Structural)]
pub enum Action {
    Insert(char),
    Newline,
    Enter,
    Esc,
    CtrlC,
    Quit,
    ClearScrollback,
    ToggleTheme,
    CycleToolOutput,
    SendNow,
    /// Pick one queued follow-up to edit in the composer.
    EditQueuedPrompt,
    AttachClipboard,
    ModelPicker,
    CyclePermission,
    TabComplete,
    HistoryPrev,
    HistoryNext,
    ScrollHalfUp,
    ScrollHalfDown,
    PageUp,
    PageDown,
    JumpTop,
    JumpTail,
    CursorLeft,
    CursorRight,
    CursorUp,
    CursorDown,
    WordLeft,
    WordRight,
    LineStart,
    LineEnd,
    Backspace,
    DeleteForward,
    DeleteWordBack,
    KillToEnd,
    KillToStart,
    /// Undo the last draft edit.
    Undo,
    /// Redo the last undone draft edit.
    Redo,
    /// Paste what was last killed.
    YankPaste,
    /// Delete the whole current line.
    KillLine,
    SelectLeft,
    SelectRight,
    SelectUp,
    SelectDown,
    SelectWordLeft,
    SelectWordRight,
    SelectLineStart,
    SelectLineEnd,
    /// Copy the keyboard selection.
    CopySelection,
    /// Cut the keyboard selection.
    CutSelection,
}

/// The composer facts the mapping depends on.
#[derive(Debug, Clone, Copy, PartialEq, Eq, Structural)]
pub struct KeyCtx {
    pub input_empty: bool,
    pub history_active: bool,
}

/// The action of a letter.
pub open spec fn letter(ch: char, m: KeyModifiers, ctx: KeyCtx) -> Option<Action> {
    if m.control && control_letter(ch, m.shift, ctx) is Some {
        control_letter(ch, m.shift, ctx)
    } else if m.alt && ch == 'b' {
        Some(Action::WordLeft)
    } else if m.alt && ch == 'f' {
        Some(Action::WordRight)
    } else if ch == 'z' && m.sup() {
        Some(if m.shift { Action::Redo } else { Action::Undo })
    } else if m.control || m.alt || m.sup() {
        None
    } else {
        Some(Action::Insert(ch))
    }
}

/// The action of a letter with control. With something typed, `u` and `d`
/// edit; on an empty draft they scroll. `z` redoes with shift, and ⌘ changes
/// nothing about it.
pub open spec fn control_letter(ch: char, shift: bool, ctx: KeyCtx) -> Option<Action> {
    match ch {
        'a' => Some(Action::LineStart),
        'b' => Some(Action::CursorLeft),
        'c' => Some(if shift { Action::CopySelection } else { Action::CtrlC }),
        'd' => Some(
            if ctx.input_empty { Action::ScrollHalfDown } else { Action::DeleteForward },
        ),
        'e' => Some(if shift { Action::SelectLineEnd } else { Action::LineEnd }),
        'f' => Some(Action::CursorRight),
        'j' => Some(Action::Newline),
        'k' => Some(if shift { Action::KillLine } else { Action::KillToEnd }),
        'l' => Some(Action::ClearScrollback),
        'o' => Some(Action::CycleToolOutput),
        'p' => Some(Action::ModelPicker),
        'q' => Some(Action::Quit),
        't' => Some(Action::ToggleTheme),
        'u' => Some(if ctx.input_empty { Action::ScrollHalfUp } else { Action::KillToStart }),
        'v' => Some(Action::AttachClipboard),
        'w' => Some(Action::DeleteWordBack),
        'x' => Some(Action::CutSelection),
        'y' => Some(Action::YankPaste),
        'z' => Some(if shift { Action::Redo } else { Action::Undo }),
        _ => None,
    }
}

/// The action of a key, `None` where it is not bound.
pub open spec fn bound(code: KeyCode, m: KeyModifiers, ctx: KeyCtx) -> Option<Action> {
    let alone = !m.sup() && !m.alt && !m.control;
    let word = m.alt || m.control;
    match code {
        KeyCode::Enter => Some(
            if m.sup() || m.control {
                Action::SendNow
            } else if m.shift {
                Action::Newline
            } else {
                Action::Enter
            },
        ),
        KeyCode::Esc => Some(Action::Esc),
        KeyCode::BackTab => Some(Action::CyclePermission),
        KeyCode::Tab => Some(if m.shift { Action::CyclePermission } else { Action::TabComplete }),
        KeyCode::PageUp => Some(Action::PageUp),
        KeyCode::PageDown => Some(Action::PageDown),
        KeyCode::Up => Some(
            if m.alt {
                Action::EditQueuedPrompt
            } else if m.shift && alone && !ctx.input_empty {
                Action::SelectUp
            } else if m.sup() {
                Action::JumpTop
            } else if ctx.input_empty || ctx.history_active {
                Action::HistoryPrev
            } else {
                Action::CursorUp
            },
        ),
        KeyCode::Down => Some(
            if m.shift && alone && !ctx.input_empty {
                Action::SelectDown
            } else if m.sup() {
                Action::JumpTail
            } else if ctx.input_empty || ctx.history_active {
                Action::HistoryNext
            } else {
                Action::CursorDown
            },
        ),
        KeyCode::Left => Some(
            if m.shift {
                if m.sup() {
                    Action::SelectLineStart
                } else if word {
                    Action::SelectWordLeft
                } else {
                    Action::SelectLeft
                }
            } else if m.sup() {
                Action::LineStart
            } else if word {
                Action::WordLeft
            } else {
                Action::CursorLeft
            },
        ),
        KeyCode::Right => Some(
            if m.shift {
                if m.sup() {
                    Action::SelectLineEnd
                } else if word {
                    Action::SelectWordRight
                } else {
                    Action::SelectRight
                }
            } else if m.sup() {
                Action::LineEnd
            } else if word {
                Action::WordRight
            } else {
                Action::CursorRight
            },
        ),
        KeyCode::Home => Some(
            if m.shift {
                Action::SelectLineStart
            } else if ctx.input_empty {
                Action::JumpTop
            } else {
                Action::LineStart
            },
        ),
        KeyCode::End => Some(
            if m.shift {
                Action::SelectLineEnd
            } else if ctx.input_empty {
                Action::JumpTail
            } else {
                Action::LineEnd
            },
        ),
        KeyCode::Backspace => Some(
            if m.sup() {
                Action::KillToStart
            } else if word {
                Action::DeleteWordBack
            } else {
                Action::Backspace
            },
        ),
        KeyCode::Delete => Some(Action::DeleteForward),
        KeyCode::Char(ch) => letter(ch, m, ctx),
        KeyCode::Insert | KeyCode::F(_) | KeyCode::Other => None,
    }
}

/// Classifies one key event. `None` is unbound: an unknown chord must not
/// type its base letter.
pub fn classify(key: &KeyEvent, ctx: KeyCtx) -> (r: Option<Action>)
    ensures
        r == bound(key.code, key.modifiers, ctx),
{
    let m = key.modifiers;
    let ctrl = m.control;
    let alt = m.alt;
    let shift = m.shift;
    let sup = m.command || m.meta;
    let action = match key.code {
        KeyCode::Enter if sup => Action::SendNow,
        KeyCode::Enter if ctrl => Action::SendNow,
        KeyCode::Char('j') if ctrl => Action::Newline,
        KeyCode::Enter if shift => Action::Newline,
        KeyCode::Enter => Action::Enter,
        KeyCode::Esc => Action::Esc,
        // --- app chords -------------------------------------------------
        KeyCode::Char('c') if ctrl && shift => Action::CopySelection,
        KeyCode::Char('c') if ctrl => Action::CtrlC,
        KeyCode::Char('x') if ctrl => Action::CutSelection,
        KeyCode::Char('q') if ctrl => Action::Quit,
        KeyCode::Char('l') if ctrl => Action::ClearScrollback,
        KeyCode::Char('t') if ctrl => Action::ToggleTheme,
        // ^o, not ^e: some terminals send ^e for ⌘→.
        KeyCode::Char('o') if ctrl => Action::CycleToolOutput,
        KeyCode::Char('v') if ctrl => Action::AttachClipboard,
        // ^p, not ^m: terminals send ^m as the enter byte.
        KeyCode::Char('p') if ctrl => Action::ModelPicker,
        KeyCode::Char('a') if ctrl => Action::LineStart,
        KeyCode::BackTab => Action::CyclePermission,
        // Some terminals report shift+tab instead of a back tab.
        KeyCode::Tab if shift => Action::CyclePermission,
        KeyCode::Tab => Action::TabComplete,
        // --- readline and dual-use control codes --------------------------
        KeyCode::Char('u') if ctrl && !ctx.input_empty => Action::KillToStart,
        KeyCode::Char('d') if ctrl && !ctx.input_empty => Action::DeleteForward,
        KeyCode::Char('u') if ctrl => Action::ScrollHalfUp,
        KeyCode::Char('d') if ctrl => Action::ScrollHalfDown,
        KeyCode::Char('k') if ctrl && shift => Action::KillLine,
        KeyCode::Char('k') if ctrl => Action::KillToEnd,
        KeyCode::Char('w') if ctrl => Action::DeleteWordBack,
        KeyCode::Char('e') if ctrl && shift => Action::SelectLineEnd,
        KeyCode::Char('e') if ctrl => Action::LineEnd,
        KeyCode::Char('b') if ctrl => Action::CursorLeft,
        KeyCode::Char('f') if ctrl => Action::CursorRight,
        // esc-b and esc-f: ⌥← and ⌥→ in most macOS terminals.
        KeyCode::Char('b') if alt => Action::WordLeft,
        KeyCode::Char('f') if alt => Action::WordRight,
        KeyCode::Up if alt => Action::EditQueuedPrompt,
        // --- scrolling ----------------------------------------------------
        KeyCode::PageUp => Action::PageUp,
        KeyCode::PageDown => Action::PageDown,
        // --- navigation: shift selects, then ⌘, then word hops -------------
        KeyCode::Left if sup && shift => Action::SelectLineStart,
        KeyCode::Right if sup && shift => Action::SelectLineEnd,
        KeyCode::Left if shift && (alt || ctrl) => Action::SelectWordLeft,
        KeyCode::Right if shift && (alt || ctrl) => Action::SelectWordRight,
        KeyCode::Up if shift && !sup && !alt && !ctrl && !ctx.input_empty => Action::SelectUp,
        KeyCode::Down if shift && !sup && !alt && !ctrl && !ctx.input_empty => Action::SelectDown,
        KeyCode::Home if shift => Action::SelectLineStart,
        KeyCode::End if shift => Action::SelectLineEnd,
        KeyCode::Left if shift && !sup && !alt && !ctrl => Action::SelectLeft,
        KeyCode::Right if shift && !sup && !alt && !ctrl => Action::SelectRight,
        KeyCode::Home if ctx.input_empty => Action::JumpTop,
        KeyCode::End if ctx.input_empty => Action::JumpTail,
        KeyCode::Home => Action::LineStart,
        KeyCode::End => Action::LineEnd,
        KeyCode::Left if sup => Action::LineStart,
        KeyCode::Right if sup => Action::LineEnd,
        KeyCode::Up if sup => Action::JumpTop,
        KeyCode::Down if sup => Action::JumpTail,
        KeyCode::Left if alt || ctrl => Action::WordLeft,
        KeyCode::Right if alt || ctrl => Action::WordRight,
        KeyCode::Up if ctx.input_empty || ctx.history_active => Action::HistoryPrev,
        KeyCode::Down if ctx.input_empty || ctx.history_active => Action::HistoryNext,
        KeyCode::Up => Action::CursorUp,
        KeyCode::Down => Action::CursorDown,
        KeyCode::Left => Action::CursorLeft,
        KeyCode::Right => Action::CursorRight,
        // --- deletion ------------------------------------------------------
        KeyCode::Backspace if sup => Action::KillToStart,
        KeyCode::Backspace if alt || ctrl => Action::DeleteWordBack,
        KeyCode::Backspace => Action::Backspace,
        KeyCode::Delete => Action::DeleteForward,
        // --- undo, redo, yank ----------------------------------------------
        KeyCode::Char('z') if sup && shift => Action::Redo,
        KeyCode::Char('z') if sup => Action::Undo,
        KeyCode::Char('z') if ctrl && shift => Action::Redo,
        KeyCode::Char('z') if ctrl => Action::Undo,
        KeyCode::Char('y') if ctrl => Action::YankPaste,
        // --- text ----------------------------------------------------------
        KeyCode::Char(ch) if !ctrl && !alt && !sup => Action::Insert(ch),
        _ => {
            return None;
        },
    };
    Some(action)
}

/// A chord that is not bound types nothing: only a letter without control, ⌥
/// and ⌘ is ever inserted.
pub proof fn chords_never_type(code: KeyCode, m: KeyModifiers, ctx: KeyCtx)
    ensures
        bound(code, m, ctx) matches Some(Action::Insert(ch)) ==> code == KeyCode::Char(ch)
            && !m.control && !m.alt && !m.sup(),
{
}

/// What a key means depends on the draft only for the dual-use keys: the
/// arrows, home and end, and control with `u` or `d`.
pub proof fn few_keys_are_dual_use(code: KeyCode, m: KeyModifiers, a: KeyCtx, b: KeyCtx)
    requires
        bound(code, m, a) != bound(code, m, b),
    ensures
        code == KeyCode::Up || code == KeyCode::Down || code == KeyCode::Home || code
            == KeyCode::End || (m.control && (code == KeyCode::Char('u') || code == KeyCode::Char(
            'd',
        ))),
{
}

// ---------------------------------------------------------------------------
// The `/keys` table. Every row is backed by probes: concrete keys that must
// classify back to the row's action, so the printed shortcuts cannot drift
// from the keymap.
// ---------------------------------------------------------------------------

/// When a binding applies.
#[derive(Debug, Clone, Copy, PartialEq, Eq, Structural)]
pub enum CtxNote {
    Always,
    EmptyPrompt,
    Typing,
}

/// The tag that names a context.
pub open spec fn ctx_tag(note: CtxNote, zh: bool) -> Seq<char> {
    match note {
        CtxNote::Always => ""@,
        CtxNote::EmptyPrompt => if zh { "[空输入时]"@ } else { "[empty]"@ },
        CtxNote::Typing => if zh { "[输入时]"@ } else { "[typing]"@ },
    }
}

impl CtxNote {
    pub fn tag(self, zh: bool) -> (r: &'static str)
        ensures
            r@ == ctx_tag(self, zh),
    {
        match self {
            CtxNote::Always => "",
            CtxNote::EmptyPrompt => if zh {
                "[空输入时]"
            } else {
                "[empty]"
            },
            CtxNote::Typing => if zh {
                "[输入时]"
            } else {
                "[typing]"
            },
        }
    }
}

/// The `/keys` groups, in display order.
#[derive(Debug, Clone, Copy, PartialEq, Eq, Structural)]
pub enum KeyGroup {
    Send,
    Navigate,
    /// The composer's own editing keys.
    Composer,
    App,
    Mouse,
}

/// A group's heading.
pub open spec fn group_title(group: KeyGroup, zh: bool) -> Seq<char> {
    match group {
        KeyGroup::Send => if zh { "发送 · 中断"@ } else { "send · interrupt"@ },
        KeyGroup::Navigate => if zh { "滚动 · 导航"@ } else { "scroll · navigate"@ },
        KeyGroup::Composer => if zh { "输入框编辑"@ } else { "composer textarea"@ },
        KeyGroup::App => if zh { "应用快捷键"@ } else { "app shortcuts"@ },
        KeyGroup::Mouse => if zh { "鼠标"@ } else { "mouse"@ },
    }
}

impl KeyGroup {
    pub fn title(self, zh: bool) -> (r: &'static str)
        ensures
            r@ == group_title(self, zh),
    {
        match self {
            KeyGroup::Send => if zh {
                "发送 · 中断"
            } else {
                "send · interrupt"
            },
            KeyGroup::Navigate => if zh {
                "滚动 · 导航"
            } else {
                "scroll · navigate"
            },
            KeyGroup::Composer => if zh {
                "输入框编辑"
            } else {
                "composer textarea"
            },
            KeyGroup::App => if zh {
                "应用快捷键"
            } else {
                "app shortcuts"
            },
            KeyGroup::Mouse => if zh {
                "鼠标"
            } else {
                "mouse"
            },
        }
    }
}

/// One documented binding.
pub struct KeyRow {
    pub action: Action,
    pub group: KeyGroup,
    /// Display spellings, one set for each platform.
    pub chords_mac: Vec<&'static str>,
    pub chords_other: Vec<&'static str>,
    pub ctx: CtxNote,
    pub desc_en: &'static str,
    pub desc_zh: &'static str,
    /// Keys that must classify back to `action`, each with whether the draft
    /// is empty.
    pub probes: Vec<(KeyCode, KeyModifiers, bool)>,
}

/// One documented mouse affordance.
pub struct MouseRow {
    pub chords: Vec<&'static str>,
    pub desc_en: &'static str,
    pub desc_zh: &'static str,
}

/// What a row documents.
#[verifier::ext_equal]
pub struct Binding {
    pub action: Action,
    pub group: KeyGroup,
    pub chords_mac: Seq<Seq<char>>,
    pub chords_other: Seq<Seq<char>>,
    pub ctx: CtxNote,
    pub desc_en: Seq<char>,
    pub desc_zh: Seq<char>,
    pub probes: Seq<(KeyCode, KeyModifiers, bool)>,
}

/// What a mouse row documents.
#[verifier::ext_equal]
pub struct MouseBinding {
    pub chords: Seq<Seq<char>>,
    pub desc_en: Seq<char>,
    pub desc_zh: Seq<char>,
}

pub open spec fn binding(
    action: Action,
    group: KeyGroup,
    chords_mac: Seq<Seq<char>>,
    chords_other: Seq<Seq<char>>,
    ctx: CtxNote,
    desc_en: Seq<char>,
    desc_zh: Seq<char>,
    probes: Seq<(KeyCode, KeyModifiers, bool)>,
) -> Binding {
    Binding { action, group, chords_mac, chords_other, ctx, desc_en, desc_zh, probes }
}

/// The modifiers of a probe.
pub open spec fn holding(shift: bool, control: bool, alt: bool, command: bool) -> KeyModifiers {
    KeyModifiers { shift, control, alt, command, ..KeyModifiers::empty() }
}

/// The views of a list of literals.
pub open spec fn spellings(v: Seq<&'static str>) -> Seq<Seq<char>> {
    v.map_values(|s: &'static str| s@)
}

impl View for KeyRow {
    type V = Binding;

    open spec fn view(&self) -> Binding {
        binding(
            self.action,
            self.group,
            spellings(self.chords_mac@),
            spellings(self.chords_other@),
            self.ctx,
            self.desc_en@,
            self.desc_zh@,
            self.probes@,
        )
    }
}

impl View for MouseRow {
    type V = MouseBinding;

    open spec fn view(&self) -> MouseBinding {
        MouseBinding {
            chords: spellings(self.chords@),
            desc_en: self.desc_en@,
            desc_zh: self.desc_zh@,
        }
    }
}

pub open spec fn bindings(v: Seq<KeyRow>) -> Seq<Binding> {
    v.map_values(|r: KeyRow| r@)
}

pub open spec fn mouse_bindings(v: Seq<MouseRow>) -> Seq<MouseBinding> {
    v.map_values(|r: MouseRow| r@)
}

/// Whether there are probes, and every one classifies back to the row's action.
pub open spec fn probed(action: Action, probes: Seq<(KeyCode, KeyModifiers, bool)>) -> bool {
    &&& probes.len() > 0
    &&& forall|i: int|
        0 <= i < probes.len() ==> bound(
            (#[trigger] probes[i]).0,
            probes[i].1,
            KeyCtx { input_empty: probes[i].2, history_active: false },
        ) == Some(action)
}

pub open spec fn all_probed(v: Seq<KeyRow>) -> bool {
    forall|i: int| 0 <= i < v.len() ==> probed((#[trigger] v[i]).action, v[i].probes@)
}

fn row(
    action: Action,
    group: KeyGroup,
    chords_mac: Vec<&'static str>,
    chords_other: Vec<&'static str>,
    ctx: CtxNote,
    desc_en: &'static str,
    desc_zh: &'static str,
    probes: Vec<(KeyCode, KeyModifiers, bool)>,
) -> (r: KeyRow)
    requires
        probed(action, probes@),
    ensures
        r@ == binding(
            action,
            group,
            spellings(chords_mac@),
            spellings(chords_other@),
            ctx,
            desc_en@,
            desc_zh@,
            probes@,
        ),
        probed(r.action, r.probes@),
{
    KeyRow { action, group, chords_mac, chords_other, ctx, desc_en, desc_zh, probes }
}

/// The send bindings of `/keys`.
pub open spec fn send_table() -> Seq<Binding> {
    seq![
        binding(
            Action::Enter,
            KeyGroup::Send,
            seq!["enter"@],
            seq!["enter"@],
            CtxNote::Always,
            "send · busy: the /enter mode · empty Enter sends the Queue head now"@,
            "发送；运行中按 /enter 的设置排队或插话；输入框为空时发送排队的第一条命令"@,
            seq![(KeyCode::Enter, holding(false, false, false, false), false)],
        ),
        binding(
            Action::SendNow,
            KeyGroup::Send,
            seq!["ctrl+enter"@, "⌘⏎"@],
            seq!["ctrl+enter"@],
            CtxNote::Always,
            "send now — busy: the other /enter mode (steers by default)"@,
            "立即发送；运行中执行与 enter 相反的操作（默认立即插话）"@,
            seq![
                (KeyCode::Enter, holding(false, true, false, false), false),
                (KeyCode::Enter, holding(false, false, false, true), false),
            ],
        ),
        binding(
            Action::EditQueuedPrompt,
            KeyGroup::Send,
            seq!["⌥↑"@],
            seq!["alt+↑"@],
            CtxNote::Always,
            "queued follow-ups: ↑/↓ select · enter edit · ctrl+enter steers · ctrl+d deletes"@,
            "排队命令：↑/↓ 选择 · enter 编辑 · ctrl+enter 插话 · ctrl+d 删除"@,
            seq![(KeyCode::Up, holding(false, false, true, false), true)],
        ),
        binding(
            Action::Esc,
            KeyGroup::Send,
            seq!["esc"@],
            seq!["esc"@],
            CtxNote::Always,
            "close / suggestions · cancel edit · esc twice interrupts a turn"@,
            "关闭 / 推荐 · 取消编辑 · 连按两次中断本轮"@,
            seq![(KeyCode::Esc, holding(false, false, false, false), false)],
        ),
        binding(
            Action::CtrlC,
            KeyGroup::Send,
            seq!["ctrl+c"@],
            seq!["ctrl+c"@],
            CtxNote::Always,
            "clear draft · 2× quits with no draft"@,
            "清草稿；无草稿时连按 2 次退出"@,
            seq![(KeyCode::Char('c'), holding(false, true, false, false), false)],
        ),
        binding(
            Action::Quit,
            KeyGroup::Send,
            seq!["ctrl+q"@],
            seq!["ctrl+q"@],
            CtxNote::Always,
            "quit abylab · press again to confirm"@,
            "退出 abylab；再按一次确认"@,
            seq![(KeyCode::Char('q'), holding(false, true, false, false), false)],
        ),
    ]
}

fn send_rows() -> (r: Vec<KeyRow>)
    ensures
        bindings(r@) == send_table(),
        all_probed(r@),
{
    let mut rows: Vec<KeyRow> = Vec::new();
    rows.push(
        row(
            Action::Enter,
            KeyGroup::Send,
            vec!["enter"],
            vec!["enter"],
            CtxNote::Always,
            "send · busy: the /enter mode · empty Enter sends the Queue head now",
            "发送；运行中按 /enter 的设置排队或插话；输入框为空时发送排队的第一条命令",
            vec![(KeyCode::Enter, KeyModifiers::none(), false)],
        ),
    );
    rows.push(
        row(
            Action::SendNow,
            KeyGroup::Send,
            vec!["ctrl+enter", "⌘⏎"],
            vec!["ctrl+enter"],
            CtxNote::Always,
            "send now — busy: the other /enter mode (steers by default)",
            "立即发送；运行中执行与 enter 相反的操作（默认立即插话）",
            vec![(KeyCode::Enter, KeyModifiers::control(), false), (KeyCode::Enter, KeyModifiers::command(), false)],
        ),
    );
    rows.push(
        row(
            Action::EditQueuedPrompt,
            KeyGroup::Send,
            vec!["⌥↑"],
            vec!["alt+↑"],
            CtxNote::Always,
            "queued follow-ups: ↑/↓ select · enter edit · ctrl+enter steers · ctrl+d deletes",
            "排队命令：↑/↓ 选择 · enter 编辑 · ctrl+enter 插话 · ctrl+d 删除",
            vec![(KeyCode::Up, KeyModifiers::alt(), true)],
        ),
    );
    rows.push(
        row(
            Action::Esc,
            KeyGroup::Send,
            vec!["esc"],
            vec!["esc"],
            CtxNote::Always,
            "close / suggestions · cancel edit · esc twice interrupts a turn",
            "关闭 / 推荐 · 取消编辑 · 连按两次中断本轮",
            vec![(KeyCode::Esc, KeyModifiers::none(), false)],
        ),
    );
    rows.push(
        row(
            Action::CtrlC,
            KeyGroup::Send,
            vec!["ctrl+c"],
            vec!["ctrl+c"],
            CtxNote::Always,
            "clear draft · 2× quits with no draft",
            "清草稿；无草稿时连按 2 次退出",
            vec![(KeyCode::Char('c'), KeyModifiers::control(), false)],
        ),
    );
    rows.push(
        row(
            Action::Quit,
            KeyGroup::Send,
            vec!["ctrl+q"],
            vec!["ctrl+q"],
            CtxNote::Always,
            "quit abylab · press again to confirm",
            "退出 abylab；再按一次确认",
            vec![(KeyCode::Char('q'), KeyModifiers::control(), false)],
        ),
    );
    assert(bindings(rows@) =~~= send_table());
    rows
}

/// The navigate bindings of `/keys`.
pub open spec fn navigate_table() -> Seq<Binding> {
    seq![
        binding(
            Action::HistoryPrev,
            KeyGroup::Navigate,
            seq!["↑"@],
            seq!["↑"@],
            CtxNote::EmptyPrompt,
            "previous prompt"@,
            "上一条历史"@,
            seq![(KeyCode::Up, holding(false, false, false, false), true)],
        ),
        binding(
            Action::HistoryNext,
            KeyGroup::Navigate,
            seq!["↓"@],
            seq!["↓"@],
            CtxNote::EmptyPrompt,
            "next prompt"@,
            "下一条历史"@,
            seq![(KeyCode::Down, holding(false, false, false, false), true)],
        ),
        binding(
            Action::JumpTop,
            KeyGroup::Navigate,
            seq!["home"@, "⌘↑"@],
            seq!["home"@],
            CtxNote::EmptyPrompt,
            "transcript top"@,
            "对话顶部"@,
            seq![
                (KeyCode::Home, holding(false, false, false, false), true),
                (KeyCode::Up, holding(false, false, false, true), false),
            ],
        ),
        binding(
            Action::JumpTail,
            KeyGroup::Navigate,
            seq!["end"@, "⌘↓"@],
            seq!["end"@],
            CtxNote::EmptyPrompt,
            "transcript tail"@,
            "对话底部"@,
            seq![
                (KeyCode::End, holding(false, false, false, false), true),
                (KeyCode::Down, holding(false, false, false, true), false),
            ],
        ),
        binding(
            Action::ScrollHalfUp,
            KeyGroup::Navigate,
            seq!["ctrl+u"@],
            seq!["ctrl+u"@],
            CtxNote::EmptyPrompt,
            "scroll up half a page"@,
            "上翻半页"@,
            seq![(KeyCode::Char('u'), holding(false, true, false, false), true)],
        ),
        binding(
            Action::ScrollHalfDown,
            KeyGroup::Navigate,
            seq!["ctrl+d"@],
            seq!["ctrl+d"@],
            CtxNote::EmptyPrompt,
            "scroll down half a page"@,
            "下翻半页"@,
            seq![(KeyCode::Char('d'), holding(false, true, false, false), true)],
        ),
        binding(
            Action::PageUp,
            KeyGroup::Navigate,
            seq!["pgup"@],
            seq!["pgup"@],
            CtxNote::Always,
            "page up"@,
            "上一页"@,
            seq![(KeyCode::PageUp, holding(false, false, false, false), false)],
        ),
        binding(
            Action::PageDown,
            KeyGroup::Navigate,
            seq!["pgdn"@],
            seq!["pgdn"@],
            CtxNote::Always,
            "page down"@,
            "下一页"@,
            seq![(KeyCode::PageDown, holding(false, false, false, false), false)],
        ),
    ]
}

fn navigate_rows() -> (r: Vec<KeyRow>)
    ensures
        bindings(r@) == navigate_table(),
        all_probed(r@),
{
    let mut rows: Vec<KeyRow> = Vec::new();
    rows.push(
        row(
            Action::HistoryPrev,
            KeyGroup::Navigate,
            vec!["↑"],
            vec!["↑"],
            CtxNote::EmptyPrompt,
            "previous prompt",
            "上一条历史",
            vec![(KeyCode::Up, KeyModifiers::none(), true)],
        ),
    );
    rows.push(
        row(
            Action::HistoryNext,
            KeyGroup::Navigate,
            vec!["↓"],
            vec!["↓"],
            CtxNote::EmptyPrompt,
            "next prompt",
            "下一条历史",
            vec![(KeyCode::Down, KeyModifiers::none(), true)],
        ),
    );
    rows.push(
        row(
            Action::JumpTop,
            KeyGroup::Navigate,
            vec!["home", "⌘↑"],
            vec!["home"],
            CtxNote::EmptyPrompt,
            "transcript top",
            "对话顶部",
            vec![(KeyCode::Home, KeyModifiers::none(), true), (KeyCode::Up, KeyModifiers::command(), false)],
        ),
    );
    rows.push(
        row(
            Action::JumpTail,
            KeyGroup::Navigate,
            vec!["end", "⌘↓"],
            vec!["end"],
            CtxNote::EmptyPrompt,
            "transcript tail",
            "对话底部",
            vec![(KeyCode::End, KeyModifiers::none(), true), (KeyCode::Down, KeyModifiers::command(), false)],
        ),
    );
    rows.push(
        row(
            Action::ScrollHalfUp,
            KeyGroup::Navigate,
            vec!["ctrl+u"],
            vec!["ctrl+u"],
            CtxNote::EmptyPrompt,
            "scroll up half a page",
            "上翻半页",
            vec![(KeyCode::Char('u'), KeyModifiers::control(), true)],
        ),
    );
    rows.push(
        row(
            Action::ScrollHalfDown,
            KeyGroup::Navigate,
            vec!["ctrl+d"],
            vec!["ctrl+d"],
            CtxNote::EmptyPrompt,
            "scroll down half a page",
            "下翻半页",
            vec![(KeyCode::Char('d'), KeyModifiers::control(), true)],
        ),
    );
    rows.push(
        row(
            Action::PageUp,
            KeyGroup::Navigate,
            vec!["pgup"],
            vec!["pgup"],
            CtxNote::Always,
            "page up",
            "上一页",
            vec![(KeyCode::PageUp, KeyModifiers::none(), false)],
        ),
    );
    rows.push(
        row(
            Action::PageDown,
            KeyGroup::Navigate,
            vec!["pgdn"],
            vec!["pgdn"],
            CtxNote::Always,
            "page down",
            "下一页",
            vec![(KeyCode::PageDown, KeyModifiers::none(), false)],
        ),
    );
    assert(bindings(rows@) =~~= navigate_table());
    rows
}

/// The composer bindings of `/keys`, part 1.
pub open spec fn composer_1_table() -> Seq<Binding> {
    seq![
        binding(
            Action::Newline,
            KeyGroup::Composer,
            seq!["shift+enter"@, "ctrl+j"@],
            seq!["shift+enter"@, "ctrl+j"@],
            CtxNote::Always,
            "newline in the draft"@,
            "草稿内换行"@,
            seq![
                (KeyCode::Enter, holding(true, false, false, false), false),
                (KeyCode::Char('j'), holding(false, true, false, false), false),
            ],
        ),
        binding(
            Action::LineStart,
            KeyGroup::Composer,
            seq!["home"@, "⌘←"@, "ctrl+a"@],
            seq!["home"@, "ctrl+a"@],
            CtxNote::Typing,
            "line start"@,
            "行首"@,
            seq![
                (KeyCode::Home, holding(false, false, false, false), false),
                (KeyCode::Left, holding(false, false, false, true), false),
                (KeyCode::Char('a'), holding(false, true, false, false), false),
            ],
        ),
        binding(
            Action::LineEnd,
            KeyGroup::Composer,
            seq!["end"@, "⌘→"@, "ctrl+e"@],
            seq!["end"@, "ctrl+e"@],
            CtxNote::Typing,
            "line end"@,
            "行尾"@,
            seq![
                (KeyCode::End, holding(false, false, false, false), false),
                (KeyCode::Right, holding(false, false, false, true), false),
                (KeyCode::Char('e'), holding(false, true, false, false), false),
            ],
        ),
        binding(
            Action::CursorLeft,
            KeyGroup::Composer,
            seq!["ctrl+b"@],
            seq!["ctrl+b"@],
            CtxNote::Typing,
            "cursor left"@,
            "光标左移"@,
            seq![(KeyCode::Char('b'), holding(false, true, false, false), false)],
        ),
        binding(
            Action::CursorRight,
            KeyGroup::Composer,
            seq!["ctrl+f"@],
            seq!["ctrl+f"@],
            CtxNote::Typing,
            "cursor right"@,
            "光标右移"@,
            seq![(KeyCode::Char('f'), holding(false, true, false, false), false)],
        ),
        binding(
            Action::SelectLeft,
            KeyGroup::Composer,
            seq!["shift+←"@],
            seq!["shift+←"@],
            CtxNote::Typing,
            "select left"@,
            "向左选择"@,
            seq![(KeyCode::Left, holding(true, false, false, false), false)],
        ),
        binding(
            Action::SelectRight,
            KeyGroup::Composer,
            seq!["shift+→"@],
            seq!["shift+→"@],
            CtxNote::Typing,
            "select right"@,
            "向右选择"@,
            seq![(KeyCode::Right, holding(true, false, false, false), false)],
        ),
        binding(
            Action::SelectUp,
            KeyGroup::Composer,
            seq!["shift+↑"@],
            seq!["shift+↑"@],
            CtxNote::Typing,
            "select up a screen line"@,
            "向上选择一行"@,
            seq![(KeyCode::Up, holding(true, false, false, false), false)],
        ),
    ]
}

fn composer_1_rows() -> (r: Vec<KeyRow>)
    ensures
        bindings(r@) == composer_1_table(),
        all_probed(r@),
{
    let mut rows: Vec<KeyRow> = Vec::new();
    rows.push(
        row(
            Action::Newline,
            KeyGroup::Composer,
            vec!["shift+enter", "ctrl+j"],
            vec!["shift+enter", "ctrl+j"],
            CtxNote::Always,
            "newline in the draft",
            "草稿内换行",
            vec![(KeyCode::Enter, KeyModifiers::shift(), false), (KeyCode::Char('j'), KeyModifiers::control(), false)],
        ),
    );
    rows.push(
        row(
            Action::LineStart,
            KeyGroup::Composer,
            vec!["home", "⌘←", "ctrl+a"],
            vec!["home", "ctrl+a"],
            CtxNote::Typing,
            "line start",
            "行首",
            vec![(KeyCode::Home, KeyModifiers::none(), false), (KeyCode::Left, KeyModifiers::command(), false), (KeyCode::Char('a'), KeyModifiers::control(), false)],
        ),
    );
    rows.push(
        row(
            Action::LineEnd,
            KeyGroup::Composer,
            vec!["end", "⌘→", "ctrl+e"],
            vec!["end", "ctrl+e"],
            CtxNote::Typing,
            "line end",
            "行尾",
            vec![(KeyCode::End, KeyModifiers::none(), false), (KeyCode::Right, KeyModifiers::command(), false), (KeyCode::Char('e'), KeyModifiers::control(), false)],
        ),
    );
    rows.push(
        row(
            Action::CursorLeft,
            KeyGroup::Composer,
            vec!["ctrl+b"],
            vec!["ctrl+b"],
            CtxNote::Typing,
            "cursor left",
            "光标左移",
            vec![(KeyCode::Char('b'), KeyModifiers::control(), false)],
        ),
    );
    rows.push(
        row(
            Action::CursorRight,
            KeyGroup::Composer,
            vec!["ctrl+f"],
            vec!["ctrl+f"],
            CtxNote::Typing,
            "cursor right",
            "光标右移",
            vec![(KeyCode::Char('f'), KeyModifiers::control(), false)],
        ),
    );
    rows.push(
        row(
            Action::SelectLeft,
            KeyGroup::Composer,
            vec!["shift+←"],
            vec!["shift+←"],
            CtxNote::Typing,
            "select left",
            "向左选择",
            vec![(KeyCode::Left, KeyModifiers::shift(), false)],
        ),
    );
    rows.push(
        row(
            Action::SelectRight,
            KeyGroup::Composer,
            vec!["shift+→"],
            vec!["shift+→"],
            CtxNote::Typing,
            "select right",
            "向右选择",
            vec![(KeyCode::Right, KeyModifiers::shift(), false)],
        ),
    );
    rows.push(
        row(
            Action::SelectUp,
            KeyGroup::Composer,
            vec!["shift+↑"],
            vec!["shift+↑"],
            CtxNote::Typing,
            "select up a screen line",
            "向上选择一行",
            vec![(KeyCode::Up, KeyModifiers::shift(), false)],
        ),
    );
    assert(bindings(rows@) =~~= composer_1_table());
    rows
}

/// The composer bindings of `/keys`, part 2.
pub open spec fn composer_2_table() -> Seq<Binding> {
    seq![
        binding(
            Action::SelectDown,
            KeyGroup::Composer,
            seq!["shift+↓"@],
            seq!["shift+↓"@],
            CtxNote::Typing,
            "select down a screen line"@,
            "向下选择一行"@,
            seq![(KeyCode::Down, holding(true, false, false, false), false)],
        ),
        binding(
            Action::SelectWordLeft,
            KeyGroup::Composer,
            seq!["⌥⇧←"@],
            seq!["ctrl+shift+←"@],
            CtxNote::Typing,
            "select word backward"@,
            "向前选一个词"@,
            seq![
                (KeyCode::Left, holding(true, false, true, false), false),
                (KeyCode::Left, holding(true, true, false, false), false),
            ],
        ),
        binding(
            Action::SelectWordRight,
            KeyGroup::Composer,
            seq!["⌥⇧→"@],
            seq!["ctrl+shift+→"@],
            CtxNote::Typing,
            "select word forward"@,
            "向后选一个词"@,
            seq![
                (KeyCode::Right, holding(true, false, true, false), false),
                (KeyCode::Right, holding(true, true, false, false), false),
            ],
        ),
        binding(
            Action::SelectLineStart,
            KeyGroup::Composer,
            seq!["shift+home"@, "⌘⇧←"@],
            seq!["shift+home"@],
            CtxNote::Typing,
            "select to line start"@,
            "选择到行首"@,
            seq![
                (KeyCode::Home, holding(true, false, false, false), false),
                (KeyCode::Left, holding(true, false, false, true), false),
            ],
        ),
        binding(
            Action::SelectLineEnd,
            KeyGroup::Composer,
            seq!["shift+end"@, "⌘⇧→"@, "ctrl+shift+e"@],
            seq!["shift+end"@, "ctrl+shift+e"@],
            CtxNote::Typing,
            "select to line end"@,
            "选择到行尾"@,
            seq![
                (KeyCode::End, holding(true, false, false, false), false),
                (KeyCode::Right, holding(true, false, false, true), false),
                (KeyCode::Char('e'), holding(true, true, false, false), false),
            ],
        ),
        binding(
            Action::CopySelection,
            KeyGroup::Composer,
            seq!["ctrl+shift+c"@],
            seq!["ctrl+shift+c"@],
            CtxNote::Typing,
            "copy the selection"@,
            "复制选中文本"@,
            seq![(KeyCode::Char('c'), holding(true, true, false, false), false)],
        ),
        binding(
            Action::CutSelection,
            KeyGroup::Composer,
            seq!["ctrl+x"@],
            seq!["ctrl+x"@],
            CtxNote::Typing,
            "cut the selection"@,
            "剪切选中文本"@,
            seq![(KeyCode::Char('x'), holding(false, true, false, false), false)],
        ),
        binding(
            Action::CursorUp,
            KeyGroup::Composer,
            seq!["↑"@],
            seq!["↑"@],
            CtxNote::Typing,
            "cursor up"@,
            "光标上移"@,
            seq![(KeyCode::Up, holding(false, false, false, false), false)],
        ),
    ]
}

fn composer_2_rows() -> (r: Vec<KeyRow>)
    ensures
        bindings(r@) == composer_2_table(),
        all_probed(r@),
{
    let mut rows: Vec<KeyRow> = Vec::new();
    rows.push(
        row(
            Action::SelectDown,
            KeyGroup::Composer,
            vec!["shift+↓"],
            vec!["shift+↓"],
            CtxNote::Typing,
            "select down a screen line",
            "向下选择一行",
            vec![(KeyCode::Down, KeyModifiers::shift(), false)],
        ),
    );
    rows.push(
        row(
            Action::SelectWordLeft,
            KeyGroup::Composer,
            vec!["⌥⇧←"],
            vec!["ctrl+shift+←"],
            CtxNote::Typing,
            "select word backward",
            "向前选一个词",
            vec![(KeyCode::Left, KeyModifiers::shift().with(KeyModifiers::alt()), false), (KeyCode::Left, KeyModifiers::shift().with(KeyModifiers::control()), false)],
        ),
    );
    rows.push(
        row(
            Action::SelectWordRight,
            KeyGroup::Composer,
            vec!["⌥⇧→"],
            vec!["ctrl+shift+→"],
            CtxNote::Typing,
            "select word forward",
            "向后选一个词",
            vec![(KeyCode::Right, KeyModifiers::shift().with(KeyModifiers::alt()), false), (KeyCode::Right, KeyModifiers::shift().with(KeyModifiers::control()), false)],
        ),
    );
    rows.push(
        row(
            Action::SelectLineStart,
            KeyGroup::Composer,
            vec!["shift+home", "⌘⇧←"],
            vec!["shift+home"],
            CtxNote::Typing,
            "select to line start",
            "选择到行首",
            vec![(KeyCode::Home, KeyModifiers::shift(), false), (KeyCode::Left, KeyModifiers::command().with(KeyModifiers::shift()), false)],
        ),
    );
    rows.push(
        row(
            Action::SelectLineEnd,
            KeyGroup::Composer,
            vec!["shift+end", "⌘⇧→", "ctrl+shift+e"],
            vec!["shift+end", "ctrl+shift+e"],
            CtxNote::Typing,
            "select to line end",
            "选择到行尾",
            vec![(KeyCode::End, KeyModifiers::shift(), false), (KeyCode::Right, KeyModifiers::command().with(KeyModifiers::shift()), false), (KeyCode::Char('e'), KeyModifiers::control().with(KeyModifiers::shift()), false)],
        ),
    );
    rows.push(
        row(
            Action::CopySelection,
            KeyGroup::Composer,
            vec!["ctrl+shift+c"],
            vec!["ctrl+shift+c"],
            CtxNote::Typing,
            "copy the selection",
            "复制选中文本",
            vec![(KeyCode::Char('c'), KeyModifiers::control().with(KeyModifiers::shift()), false)],
        ),
    );
    rows.push(
        row(
            Action::CutSelection,
            KeyGroup::Composer,
            vec!["ctrl+x"],
            vec!["ctrl+x"],
            CtxNote::Typing,
            "cut the selection",
            "剪切选中文本",
            vec![(KeyCode::Char('x'), KeyModifiers::control(), false)],
        ),
    );
    rows.push(
        row(
            Action::CursorUp,
            KeyGroup::Composer,
            vec!["↑"],
            vec!["↑"],
            CtxNote::Typing,
            "cursor up",
            "光标上移",
            vec![(KeyCode::Up, KeyModifiers::none(), false)],
        ),
    );
    assert(bindings(rows@) =~~= composer_2_table());
    rows
}

/// The composer bindings of `/keys`, part 3.
pub open spec fn composer_3_table() -> Seq<Binding> {
    seq![
        binding(
            Action::CursorDown,
            KeyGroup::Composer,
            seq!["↓"@],
            seq!["↓"@],
            CtxNote::Typing,
            "cursor down"@,
            "光标下移"@,
            seq![(KeyCode::Down, holding(false, false, false, false), false)],
        ),
        binding(
            Action::WordLeft,
            KeyGroup::Composer,
            seq!["⌥←"@, "esc-b"@],
            seq!["ctrl+←"@],
            CtxNote::Typing,
            "word back"@,
            "按词左移"@,
            seq![
                (KeyCode::Left, holding(false, false, true, false), false),
                (KeyCode::Char('b'), holding(false, false, true, false), false),
                (KeyCode::Left, holding(false, true, false, false), false),
            ],
        ),
        binding(
            Action::WordRight,
            KeyGroup::Composer,
            seq!["⌥→"@, "esc-f"@],
            seq!["ctrl+→"@],
            CtxNote::Typing,
            "word forward"@,
            "按词右移"@,
            seq![
                (KeyCode::Right, holding(false, false, true, false), false),
                (KeyCode::Char('f'), holding(false, false, true, false), false),
                (KeyCode::Right, holding(false, true, false, false), false),
            ],
        ),
        binding(
            Action::KillToStart,
            KeyGroup::Composer,
            seq!["ctrl+u"@, "⌘⌫"@],
            seq!["ctrl+u"@],
            CtxNote::Typing,
            "kill to line start"@,
            "删除到行首"@,
            seq![
                (KeyCode::Char('u'), holding(false, true, false, false), false),
                (KeyCode::Backspace, holding(false, false, false, true), false),
            ],
        ),
        binding(
            Action::KillToEnd,
            KeyGroup::Composer,
            seq!["ctrl+k"@],
            seq!["ctrl+k"@],
            CtxNote::Always,
            "kill to line end"@,
            "删除到行尾"@,
            seq![
                (KeyCode::Char('k'), holding(false, true, false, false), false),
                (KeyCode::Char('k'), holding(false, true, false, false), true),
            ],
        ),
        binding(
            Action::KillLine,
            KeyGroup::Composer,
            seq!["ctrl+shift+k"@],
            seq!["ctrl+shift+k"@],
            CtxNote::Typing,
            "kill the whole line"@,
            "删除整行"@,
            seq![(KeyCode::Char('k'), holding(true, true, false, false), false)],
        ),
        binding(
            Action::DeleteWordBack,
            KeyGroup::Composer,
            seq!["ctrl+w"@, "⌥⌫"@],
            seq!["ctrl+w"@, "ctrl+⌫"@],
            CtxNote::Typing,
            "delete word back"@,
            "删除前一词"@,
            seq![
                (KeyCode::Char('w'), holding(false, true, false, false), false),
                (KeyCode::Backspace, holding(false, false, true, false), false),
                (KeyCode::Backspace, holding(false, true, false, false), false),
            ],
        ),
        binding(
            Action::Undo,
            KeyGroup::Composer,
            seq!["⌘z"@],
            seq!["ctrl+z"@],
            CtxNote::Typing,
            "undo the last draft edit"@,
            "撤销上一步草稿编辑"@,
            seq![
                (KeyCode::Char('z'), holding(false, true, false, false), false),
                (KeyCode::Char('z'), holding(false, false, false, true), false),
            ],
        ),
    ]
}

fn composer_3_rows() -> (r: Vec<KeyRow>)
    ensures
        bindings(r@) == composer_3_table(),
        all_probed(r@),
{
    let mut rows: Vec<KeyRow> = Vec::new();
    rows.push(
        row(
            Action::CursorDown,
            KeyGroup::Composer,
            vec!["↓"],
            vec!["↓"],
            CtxNote::Typing,
            "cursor down",
            "光标下移",
            vec![(KeyCode::Down, KeyModifiers::none(), false)],
        ),
    );
    rows.push(
        row(
            Action::WordLeft,
            KeyGroup::Composer,
            vec!["⌥←", "esc-b"],
            vec!["ctrl+←"],
            CtxNote::Typing,
            "word back",
            "按词左移",
            vec![(KeyCode::Left, KeyModifiers::alt(), false), (KeyCode::Char('b'), KeyModifiers::alt(), false), (KeyCode::Left, KeyModifiers::control(), false)],
        ),
    );
    rows.push(
        row(
            Action::WordRight,
            KeyGroup::Composer,
            vec!["⌥→", "esc-f"],
            vec!["ctrl+→"],
            CtxNote::Typing,
            "word forward",
            "按词右移",
            vec![(KeyCode::Right, KeyModifiers::alt(), false), (KeyCode::Char('f'), KeyModifiers::alt(), false), (KeyCode::Right, KeyModifiers::control(), false)],
        ),
    );
    rows.push(
        row(
            Action::KillToStart,
            KeyGroup::Composer,
            vec!["ctrl+u", "⌘⌫"],
            vec!["ctrl+u"],
            CtxNote::Typing,
            "kill to line start",
            "删除到行首",
            vec![(KeyCode::Char('u'), KeyModifiers::control(), false), (KeyCode::Backspace, KeyModifiers::command(), false)],
        ),
    );
    rows.push(
        row(
            Action::KillToEnd,
            KeyGroup::Composer,
            vec!["ctrl+k"],
            vec!["ctrl+k"],
            CtxNote::Always,
            "kill to line end",
            "删除到行尾",
            vec![(KeyCode::Char('k'), KeyModifiers::control(), false), (KeyCode::Char('k'), KeyModifiers::control(), true)],
        ),
    );
    rows.push(
        row(
            Action::KillLine,
            KeyGroup::Composer,
            vec!["ctrl+shift+k"],
            vec!["ctrl+shift+k"],
            CtxNote::Typing,
            "kill the whole line",
            "删除整行",
            vec![(KeyCode::Char('k'), KeyModifiers::control().with(KeyModifiers::shift()), false)],
        ),
    );
    rows.push(
        row(
            Action::DeleteWordBack,
            KeyGroup::Composer,
            vec!["ctrl+w", "⌥⌫"],
            vec!["ctrl+w", "ctrl+⌫"],
            CtxNote::Typing,
            "delete word back",
            "删除前一词",
            vec![(KeyCode::Char('w'), KeyModifiers::control(), false), (KeyCode::Backspace, KeyModifiers::alt(), false), (KeyCode::Backspace, KeyModifiers::control(), false)],
        ),
    );
    rows.push(
        row(
            Action::Undo,
            KeyGroup::Composer,
            vec!["⌘z"],
            vec!["ctrl+z"],
            CtxNote::Typing,
            "undo the last draft edit",
            "撤销上一步草稿编辑",
            vec![(KeyCode::Char('z'), KeyModifiers::control(), false), (KeyCode::Char('z'), KeyModifiers::command(), false)],
        ),
    );
    assert(bindings(rows@) =~~= composer_3_table());
    rows
}

/// The composer bindings of `/keys`, part 4.
pub open spec fn composer_4_table() -> Seq<Binding> {
    seq![
        binding(
            Action::Redo,
            KeyGroup::Composer,
            seq!["⌘⇧z"@],
            seq!["ctrl+shift+z"@],
            CtxNote::Typing,
            "redo the last undone edit"@,
            "重做上一步撤销"@,
            seq![
                (KeyCode::Char('z'), holding(true, true, false, false), false),
                (KeyCode::Char('z'), holding(true, false, false, true), false),
            ],
        ),
        binding(
            Action::YankPaste,
            KeyGroup::Composer,
            seq!["ctrl+y"@],
            seq!["ctrl+y"@],
            CtxNote::Typing,
            "paste the last killed text"@,
            "粘贴最近一次删除的文本"@,
            seq![(KeyCode::Char('y'), holding(false, true, false, false), false)],
        ),
        binding(
            Action::DeleteForward,
            KeyGroup::Composer,
            seq!["delete"@, "ctrl+d"@],
            seq!["delete"@, "ctrl+d"@],
            CtxNote::Typing,
            "delete forward"@,
            "删除光标后字符"@,
            seq![
                (KeyCode::Delete, holding(false, false, false, false), false),
                (KeyCode::Char('d'), holding(false, true, false, false), false),
            ],
        ),
        binding(
            Action::Backspace,
            KeyGroup::Composer,
            seq!["⌫"@],
            seq!["⌫"@],
            CtxNote::Typing,
            "backspace"@,
            "退格"@,
            seq![(KeyCode::Backspace, holding(false, false, false, false), false)],
        ),
    ]
}

fn composer_4_rows() -> (r: Vec<KeyRow>)
    ensures
        bindings(r@) == composer_4_table(),
        all_probed(r@),
{
    let mut rows: Vec<KeyRow> = Vec::new();
    rows.push(
        row(
            Action::Redo,
            KeyGroup::Composer,
            vec!["⌘⇧z"],
            vec!["ctrl+shift+z"],
            CtxNote::Typing,
            "redo the last undone edit",
            "重做上一步撤销",
            vec![(KeyCode::Char('z'), KeyModifiers::control().with(KeyModifiers::shift()), false), (KeyCode::Char('z'), KeyModifiers::command().with(KeyModifiers::shift()), false)],
        ),
    );
    rows.push(
        row(
            Action::YankPaste,
            KeyGroup::Composer,
            vec!["ctrl+y"],
            vec!["ctrl+y"],
            CtxNote::Typing,
            "paste the last killed text",
            "粘贴最近一次删除的文本",
            vec![(KeyCode::Char('y'), KeyModifiers::control(), false)],
        ),
    );
    rows.push(
        row(
            Action::DeleteForward,
            KeyGroup::Composer,
            vec!["delete", "ctrl+d"],
            vec!["delete", "ctrl+d"],
            CtxNote::Typing,
            "delete forward",
            "删除光标后字符",
            vec![(KeyCode::Delete, KeyModifiers::none(), false), (KeyCode::Char('d'), KeyModifiers::control(), false)],
        ),
    );
    rows.push(
        row(
            Action::Backspace,
            KeyGroup::Composer,
            vec!["⌫"],
            vec!["⌫"],
            CtxNote::Typing,
            "backspace",
            "退格",
            vec![(KeyCode::Backspace, KeyModifiers::none(), false)],
        ),
    );
    assert(bindings(rows@) =~~= composer_4_table());
    rows
}

/// The app bindings of `/keys`.
pub open spec fn app_table() -> Seq<Binding> {
    seq![
        binding(
            Action::CyclePermission,
            KeyGroup::App,
            seq!["shift+tab"@],
            seq!["shift+tab"@],
            CtxNote::Always,
            "cycle permission: read only → workspace write → full access"@,
            "切换权限：只读 → 工作区可写 → 完全访问"@,
            seq![(KeyCode::BackTab, holding(false, false, false, false), false)],
        ),
        binding(
            Action::ModelPicker,
            KeyGroup::App,
            seq!["ctrl+p"@],
            seq!["ctrl+p"@],
            CtxNote::Always,
            "model picker → effort picker"@,
            "模型选择器 → 推理强度"@,
            seq![(KeyCode::Char('p'), holding(false, true, false, false), false)],
        ),
        binding(
            Action::ToggleTheme,
            KeyGroup::App,
            seq!["ctrl+t"@],
            seq!["ctrl+t"@],
            CtxNote::Always,
            "toggle dark/light"@,
            "切换明暗主题"@,
            seq![(KeyCode::Char('t'), holding(false, true, false, false), false)],
        ),
        binding(
            Action::CycleToolOutput,
            KeyGroup::App,
            seq!["ctrl+o"@],
            seq!["ctrl+o"@],
            CtxNote::Always,
            "cycle tool output: summary → preview → full"@,
            "切换工具输出显示：摘要 → 预览 → 全展开"@,
            seq![(KeyCode::Char('o'), holding(false, true, false, false), false)],
        ),
        binding(
            Action::ClearScrollback,
            KeyGroup::App,
            seq!["ctrl+l"@],
            seq!["ctrl+l"@],
            CtxNote::Always,
            "clear scrollback"@,
            "清屏"@,
            seq![(KeyCode::Char('l'), holding(false, true, false, false), false)],
        ),
        binding(
            Action::TabComplete,
            KeyGroup::App,
            seq!["tab"@],
            seq!["tab"@],
            CtxNote::Always,
            "complete /commands"@,
            "补全 / 命令"@,
            seq![(KeyCode::Tab, holding(false, false, false, false), false)],
        ),
        binding(
            Action::AttachClipboard,
            KeyGroup::App,
            seq!["ctrl+v"@],
            seq!["ctrl+v"@],
            CtxNote::Always,
            "attach the clipboard image"@,
            "粘贴剪贴板图片"@,
            seq![(KeyCode::Char('v'), holding(false, true, false, false), false)],
        ),
    ]
}

fn app_rows() -> (r: Vec<KeyRow>)
    ensures
        bindings(r@) == app_table(),
        all_probed(r@),
{
    let mut rows: Vec<KeyRow> = Vec::new();
    rows.push(
        row(
            Action::CyclePermission,
            KeyGroup::App,
            vec!["shift+tab"],
            vec!["shift+tab"],
            CtxNote::Always,
            "cycle permission: read only → workspace write → full access",
            "切换权限：只读 → 工作区可写 → 完全访问",
            vec![(KeyCode::BackTab, KeyModifiers::none(), false)],
        ),
    );
    rows.push(
        row(
            Action::ModelPicker,
            KeyGroup::App,
            vec!["ctrl+p"],
            vec!["ctrl+p"],
            CtxNote::Always,
            "model picker → effort picker",
            "模型选择器 → 推理强度",
            vec![(KeyCode::Char('p'), KeyModifiers::control(), false)],
        ),
    );
    rows.push(
        row(
            Action::ToggleTheme,
            KeyGroup::App,
            vec!["ctrl+t"],
            vec!["ctrl+t"],
            CtxNote::Always,
            "toggle dark/light",
            "切换明暗主题",
            vec![(KeyCode::Char('t'), KeyModifiers::control(), false)],
        ),
    );
    rows.push(
        row(
            Action::CycleToolOutput,
            KeyGroup::App,
            vec!["ctrl+o"],
            vec!["ctrl+o"],
            CtxNote::Always,
            "cycle tool output: summary → preview → full",
            "切换工具输出显示：摘要 → 预览 → 全展开",
            vec![(KeyCode::Char('o'), KeyModifiers::control(), false)],
        ),
    );
    rows.push(
        row(
            Action::ClearScrollback,
            KeyGroup::App,
            vec!["ctrl+l"],
            vec!["ctrl+l"],
            CtxNote::Always,
            "clear scrollback",
            "清屏",
            vec![(KeyCode::Char('l'), KeyModifiers::control(), false)],
        ),
    );
    rows.push(
        row(
            Action::TabComplete,
            KeyGroup::App,
            vec!["tab"],
            vec!["tab"],
            CtxNote::Always,
            "complete /commands",
            "补全 / 命令",
            vec![(KeyCode::Tab, KeyModifiers::none(), false)],
        ),
    );
    rows.push(
        row(
            Action::AttachClipboard,
            KeyGroup::App,
            vec!["ctrl+v"],
            vec!["ctrl+v"],
            CtxNote::Always,
            "attach the clipboard image",
            "粘贴剪贴板图片",
            vec![(KeyCode::Char('v'), KeyModifiers::control(), false)],
        ),
    );
    assert(bindings(rows@) =~~= app_table());
    rows
}
/// The mouse affordances of `/keys`.
pub open spec fn mouse_table() -> Seq<MouseBinding> {
    seq![
        MouseBinding {
            chords: seq!["click"@],
            desc_en: "expand/collapse a tool · wheel scrolls · in the input box it places the caret"@,
            desc_zh: "点击展开/折叠工具 · 滚轮滚动 · 在输入框里点击定位光标"@,
        },
        MouseBinding {
            chords: seq!["click 2/5"@],
            desc_en: "open the todo checklist behind the composer cap chip"@,
            desc_zh: "打开输入框上沿进度芯片（2/5）的完整清单"@,
        },
        MouseBinding {
            chords: seq!["click ↥"@],
            desc_en: "jump to your prompt on the composer cap's right end"@,
            desc_zh: "跳到输入框上沿右端的 ↥ 处（你上一条输入）"@,
        },
        MouseBinding {
            chords: seq!["drag"@],
            desc_en: "select text · copies on release (transcript and the input box)"@,
            desc_zh: "拖动选择文本，松开即复制（对话区和输入框都行）"@,
        },
        MouseBinding {
            chords: seq!["2×click"@],
            desc_en: "copy a word"@,
            desc_zh: "双击复制单词"@,
        },
        MouseBinding {
            chords: seq!["shift+drag"@],
            desc_en: "terminal-native selection"@,
            desc_zh: "终端原生选择"@,
        },
    ]
}

/// The mouse affordances. They live in the event path, not in the keymap.
pub fn mouse_rows() -> (r: Vec<MouseRow>)
    ensures
        mouse_bindings(r@) == mouse_table(),
{
    let mut rows: Vec<MouseRow> = Vec::new();
    rows.push(
        MouseRow {
            chords: vec!["click"],
            desc_en: "expand/collapse a tool · wheel scrolls · in the input box it places the caret",
            desc_zh: "点击展开/折叠工具 · 滚轮滚动 · 在输入框里点击定位光标",
        },
    );
    rows.push(
        MouseRow {
            chords: vec!["click 2/5"],
            desc_en: "open the todo checklist behind the composer cap chip",
            desc_zh: "打开输入框上沿进度芯片（2/5）的完整清单",
        },
    );
    rows.push(
        MouseRow {
            chords: vec!["click ↥"],
            desc_en: "jump to your prompt on the composer cap's right end",
            desc_zh: "跳到输入框上沿右端的 ↥ 处（你上一条输入）",
        },
    );
    rows.push(
        MouseRow {
            chords: vec!["drag"],
            desc_en: "select text · copies on release (transcript and the input box)",
            desc_zh: "拖动选择文本，松开即复制（对话区和输入框都行）",
        },
    );
    rows.push(
        MouseRow {
            chords: vec!["2×click"],
            desc_en: "copy a word",
            desc_zh: "双击复制单词",
        },
    );
    rows.push(
        MouseRow {
            chords: vec!["shift+drag"],
            desc_en: "terminal-native selection",
            desc_zh: "终端原生选择",
        },
    );
    assert(mouse_bindings(rows@) =~~= mouse_table());
    rows
}
/// The whole `/keys` table.
pub open spec fn key_table() -> Seq<Binding> {
    send_table() + navigate_table() + composer_1_table() + composer_2_table() + composer_3_table()
        + composer_4_table() + app_table()
}

/// The documented bindings, each of them backed by its probes.
pub fn key_rows() -> (r: Vec<KeyRow>)
    ensures
        bindings(r@) == key_table(),
        all_probed(r@),
{
    let mut rows = send_rows();
    let mut next = navigate_rows();
    rows.append(&mut next);
    let mut next = composer_1_rows();
    rows.append(&mut next);
    let mut next = composer_2_rows();
    rows.append(&mut next);
    let mut next = composer_3_rows();
    rows.append(&mut next);
    let mut next = composer_4_rows();
    rows.append(&mut next);
    let mut next = app_rows();
    rows.append(&mut next);
    rows
}

impl Binding {
    /// The spellings for a platform.
    pub open spec fn chords(self, mac: bool) -> Seq<Seq<char>> {
        if mac {
            self.chords_mac
        } else {
            self.chords_other
        }
    }

    /// The row's item in the list: spellings, context, description.
    pub open spec fn item(self, zh: bool, mac: bool) -> Seq<char> {
        let tag = ctx_tag(self.ctx, zh);
        let suffix = if tag.len() == 0 { ""@ } else { " "@ + tag };
        "- "@ + text::joined(self.chords(mac), " / "@) + suffix + " · "@ + (if zh {
            self.desc_zh
        } else {
            self.desc_en
        }) + "\n"@
    }
}

impl MouseBinding {
    pub open spec fn item(self, zh: bool) -> Seq<char> {
        "- "@ + text::joined(self.chords, " / "@) + " · "@ + (if zh {
            self.desc_zh
        } else {
            self.desc_en
        }) + "\n"@
    }
}

/// A group's heading, set off from the group before it.
pub open spec fn heading(group: KeyGroup, first: bool, zh: bool) -> Seq<char> {
    (if first { ""@ } else { "\n"@ }) + "### "@ + group_title(group, zh) + "\n\n"@
}

/// The items of the first `n` rows, each group under its heading.
pub open spec fn key_items(rows: Seq<Binding>, n: int, zh: bool, mac: bool) -> Seq<char>
    decreases n,
{
    if n <= 0 {
        Seq::empty()
    } else {
        let opens = n == 1 || rows[n - 2].group != rows[n - 1].group;
        key_items(rows, n - 1, zh, mac) + (if opens {
            heading(rows[n - 1].group, n == 1, zh)
        } else {
            Seq::empty()
        }) + rows[n - 1].item(zh, mac)
    }
}

pub open spec fn mouse_items(rows: Seq<MouseBinding>, n: int, zh: bool) -> Seq<char>
    decreases n,
{
    if n <= 0 {
        Seq::empty()
    } else {
        mouse_items(rows, n - 1, zh) + rows[n - 1].item(zh)
    }
}

/// The sentence that opens the map.
pub open spec fn keys_intro(zh: bool) -> Seq<char> {
    if zh {
        "双用途键：`[空输入时]` 滚动，`[输入时]` 编辑。\n\n"@
    } else {
        "Dual-use keys: `[empty]` scrolls, `[typing]` edits.\n\n"@
    }
}

/// The section on vim mode.
pub open spec fn keys_vim(zh: bool) -> Seq<char> {
    if zh {
        "### vim 模式（`/vim` 开启 · 默认关闭 · 输入框 meta 行显示 `-- INSERT --` / `-- NORMAL --`）\n\n- normal：`h/j/k/l` 移动 · `w/b/e` 词跳 · `0/$` 行首尾 · `x/X` 删除 · `dd` 删行 · `u` 撤销 · `p` 粘贴 · `gg/G` 文档首尾 · `i/a/A` 插入 · `o/O` 新行 · `esc` 返回 normal\n- Ctrl/⌘ · 组合键始终可用（插话、撤销等）。\n"@
    } else {
        "### vim mode (`/vim` toggles · off by default · the meta row shows `-- INSERT --` / `-- NORMAL --`)\n\n- normal: `h/j/k/l` move · `w/b/e` word · `0/$` line head/tail · `x/X` delete · `dd` kill line · `u` undo · `p` paste · `gg/G` document head/tail · `i/a/A` insert · `o/O` new line · `esc` back\n- Ctrl/⌘ · chords stay with the app (steer, undo, …).\n"@
    }
}

/// The `/keys` map: the intro, the bindings under their headings, the mouse
/// and vim sections.
pub open spec fn keys_map(zh: bool, mac: bool) -> Seq<char> {
    let keys = key_table();
    let mouse = mouse_table();
    keys_intro(zh) + key_items(keys, keys.len() as int, zh, mac) + heading(
        KeyGroup::Mouse,
        false,
        zh,
    ) + mouse_items(mouse, mouse.len() as int, zh) + "\n"@ + keys_vim(zh)
}

fn join_literals(v: &Vec<&'static str>, sep: &str) -> (r: String)
    ensures
        r@ == text::joined(spellings(v@), sep@),
{
    let mut list: Vec<String> = Vec::new();
    let mut i: usize = 0;
    while i < v.len()
        invariant
            i <= v.len(),
            text::views(list@) == spellings(v@).take(i as int),
        decreases v.len() - i,
    {
        let ghost before = text::views(list@);
        let s = String::from_str(v[i]);
        list.push(s);
        assert(text::views(list@) == before.push(s@));
        assert(spellings(v@).take(i as int + 1) == spellings(v@).take(i as int).push(v@[i as int]@));
        i += 1;
    }
    assert(spellings(v@).take(v@.len() as int) == spellings(v@));
    text::join(&list, sep)
}

fn push_heading(out: &mut String, group: KeyGroup, first: bool, zh: bool)
    ensures
        final(out)@ == old(out)@ + heading(group, first, zh),
{
    let ghost o = out@;
    if !first {
        out.append("\n");
    } else {
        out.append("");
    }
    out.append("### ");
    out.append(group.title(zh));
    out.append("\n\n");
    assert(out@ == o + heading(group, first, zh));
}

fn push_item(out: &mut String, chords: &Vec<&'static str>, suffix: &str, desc: &str)
    ensures
        final(out)@ == old(out)@ + ("- "@ + text::joined(spellings(chords@), " / "@) + suffix@
            + " · "@ + desc@ + "\n"@),
{
    let ghost o = out@;
    out.append("- ");
    let list = join_literals(chords, " / ");
    out.append(list.as_str());
    out.append(suffix);
    out.append(" · ");
    out.append(desc);
    out.append("\n");
    assert(out@ == o + ("- "@ + text::joined(spellings(chords@), " / "@) + suffix@ + " · "@ + desc@
        + "\n"@));
}

fn push_row(out: &mut String, row: &KeyRow, zh: bool, mac: bool)
    ensures
        final(out)@ == old(out)@ + row@.item(zh, mac),
{
    let tag = row.ctx.tag(zh);
    let suffix = if tag.is_empty() {
        String::from_str("")
    } else {
        cat(" ", tag)
    };
    let desc = if zh {
        row.desc_zh
    } else {
        row.desc_en
    };
    if mac {
        push_item(out, &row.chords_mac, suffix.as_str(), desc);
    } else {
        push_item(out, &row.chords_other, suffix.as_str(), desc);
    }
}

fn key_list(rows: &Vec<KeyRow>, zh: bool, mac: bool) -> (out: String)
    ensures
        out@ == key_items(bindings(rows@), rows@.len() as int, zh, mac),
{
    let mut out = String::new();
    let ghost keys = bindings(rows@);
    let mut i: usize = 0;
    while i < rows.len()
        invariant
            i <= rows.len(),
            keys == bindings(rows@),
            out@ == key_items(keys, i as int, zh, mac),
        decreases rows.len() - i,
    {
        let ghost before = out@;
        let row = &rows[i];
        assert(keys[i as int] == row@);
        let opens = if i == 0 {
            true
        } else {
            assert(keys[i - 1] == rows@[i - 1]@);
            rows[i - 1].group != row.group
        };
        if opens {
            push_heading(&mut out, row.group, i == 0, zh);
        } else {
            assert(before + Seq::<char>::empty() == before);
        }
        push_row(&mut out, row, zh, mac);
        i += 1;
    }
    out
}

fn mouse_list(rows: &Vec<MouseRow>, zh: bool) -> (out: String)
    ensures
        out@ == mouse_items(mouse_bindings(rows@), rows@.len() as int, zh),
{
    let mut out = String::new();
    let ghost all = mouse_bindings(rows@);
    let mut k: usize = 0;
    while k < rows.len()
        invariant
            k <= rows.len(),
            all == mouse_bindings(rows@),
            out@ == mouse_items(all, k as int, zh),
        decreases rows.len() - k,
    {
        let row = &rows[k];
        assert(all[k as int] == row@);
        push_item(
            &mut out,
            &row.chords,
            "",
            if zh {
                row.desc_zh
            } else {
                row.desc_en
            },
        );
        proof {
            reveal_strlit("");
            assert("- "@ + text::joined(row@.chords, " / "@) + ""@ == "- "@ + text::joined(
                row@.chords,
                " / "@,
            ));
        }
        k += 1;
    }
    out
}

/// The `/keys` map as a markdown list.
pub fn keys_markdown(zh: bool, mac: bool) -> (r: String)
    ensures
        r@ == keys_map(zh, mac),
{
    let mut out = String::from_str(
        if zh {
            "双用途键：`[空输入时]` 滚动，`[输入时]` 编辑。\n\n"
        } else {
            "Dual-use keys: `[empty]` scrolls, `[typing]` edits.\n\n"
        },
    );
    let rows = key_rows();
    let keys = key_list(&rows, zh, mac);
    out.append(keys.as_str());
    push_heading(&mut out, KeyGroup::Mouse, false, zh);
    let rows = mouse_rows();
    let mouse = mouse_list(&rows, zh);
    out.append(mouse.as_str());
    out.append("\n");
    out.append(
        if zh {
            "### vim 模式（`/vim` 开启 · 默认关闭 · 输入框 meta 行显示 `-- INSERT --` / `-- NORMAL --`）\n\n- normal：`h/j/k/l` 移动 · `w/b/e` 词跳 · `0/$` 行首尾 · `x/X` 删除 · `dd` 删行 · `u` 撤销 · `p` 粘贴 · `gg/G` 文档首尾 · `i/a/A` 插入 · `o/O` 新行 · `esc` 返回 normal\n- Ctrl/⌘ · 组合键始终可用（插话、撤销等）。\n"
        } else {
            "### vim mode (`/vim` toggles · off by default · the meta row shows `-- INSERT --` / `-- NORMAL --`)\n\n- normal: `h/j/k/l` move · `w/b/e` word · `0/$` line head/tail · `x/X` delete · `dd` kill line · `u` undo · `p` paste · `gg/G` document head/tail · `i/a/A` insert · `o/O` new line · `esc` back\n- Ctrl/⌘ · chords stay with the app (steer, undo, …).\n"
        },
    );
    out
}

/// The position of the first row for an action, if there is one.
pub open spec fn first_row(rows: Seq<Binding>, from: int, action: Action) -> Option<int>
    decreases rows.len() - from,
{
    if from >= rows.len() {
        None
    } else if rows[from].action == action {
        Some(from)
    } else {
        first_row(rows, from + 1, action)
    }
}

/// The chord that chrome outside `/keys` spells for an action, from the table
/// itself: a chip cannot name a key that the keymap does not bind.
pub fn primary_chord(action: Action, mac: bool) -> (r: Option<&'static str>)
    ensures
        ({
            let rows = key_table();
            match first_row(rows, 0, action) {
                Some(i) => {
                    let chords = rows[i].chords(mac);
                    if chords.len() > 0 {
                        r matches Some(c) && c@ == chords[0]
                    } else {
                        r is None
                    }
                },
                None => r is None,
            }
        }),
{
    let rows = key_rows();
    let ghost keys = key_table();
    let mut i: usize = 0;
    while i < rows.len()
        invariant
            i <= rows.len(),
            keys == bindings(rows@),
            keys == key_table(),
            first_row(keys, 0, action) == first_row(keys, i as int, action),
        decreases rows.len() - i,
    {
        let row = &rows[i];
        assert(keys[i as int] == row@);
        if row.action == action {
            let chords = if mac {
                &row.chords_mac
            } else {
                &row.chords_other
            };
            if chords.len() > 0 {
                return Some(chords[0]);
            } else {
                return None;
            }
        }
        i += 1;
    }
    None
}

} // verus!
