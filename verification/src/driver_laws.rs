//! What the passage between the interface and the driver promises, and what
//! keys and the wipe plan do.

use vstd::prelude::*;
use crate::backend::{DriverCmd, DriverReport, SessionFact, TodoStatus};
use crate::bus;
use crate::bus::{Cmd, CtlEvent};
use crate::controller;
use crate::controller::Route;
use crate::data;
use crate::data::{DataKeepWhy, DataWhat, Found, Item};
use crate::events::{PlanStatus, UiEvent};
use crate::input::csi;
use crate::input::keymap;
use crate::input::keymap::{Action, KeyCtx};
use crate::input::keys::{KeyCode, KeyEvent, KeyModifiers};
use crate::input::normalize;
use crate::input::normalize::ModifierState;
use crate::path;
use crate::text;

verus! {

// --- commands -------------------------------------------------------------------

/// A prompt reaches the driver for its session with its text as it is, and a
/// message for the running turn goes to the turn under its number.
pub proof fn texts_reach_the_driver(cmd: Cmd, stamp: Seq<char>, r: Route)
    requires
        controller::routed(cmd, stamp, r),
    ensures
        cmd is Prompt ==> (r matches Route::Driver(DriverCmd::PromptForSession { session_id, text })
            && session_id == cmd->Prompt_session_id && text == cmd->Prompt_text),
        cmd is PromptImages ==> (r matches Route::Driver(
            DriverCmd::PromptForSession { session_id, text },
        ) && session_id == cmd->PromptImages_session_id && text@ == controller::text_of(
            bus::view_blocks(cmd->PromptImages_blocks@),
        )),
        cmd is Steer ==> (r matches Route::Steer(q) && q.session_id == cmd->Steer_session_id
            && q.message_id == cmd->Steer_message_id && q.text == cmd->Steer_text),
        cmd is SteerImages ==> (r matches Route::Steer(q) && q.session_id
            == cmd->SteerImages_session_id && q.message_id == cmd->SteerImages_message_id && q.text@
            == controller::text_of(bus::view_blocks(cmd->SteerImages_blocks@))),
{
}

/// Only a shutdown ends the loop, only messages for the turn go to it, and only
/// the question for efforts is answered on the spot.
pub proof fn commands_go_their_way(cmd: Cmd, stamp: Seq<char>, r: Route)
    requires
        controller::routed(cmd, stamp, r),
    ensures
        (r is Shutdown) == (cmd is Shutdown),
        (r is Steer) == (cmd is Steer || cmd is SteerImages),
        (r is Answered) == (cmd is FetchEfforts),
        cmd is SelectModel ==> (r matches Route::Driver(DriverCmd::SetModel { model, effort })
            && model == cmd->SelectModel_model && effort == cmd->SelectModel_effort),
        cmd is SetPermission ==> (r matches Route::Driver(DriverCmd::SetPermission { preset })
            && preset == cmd->SetPermission_preset),
        cmd is SetApiKey ==> (r matches Route::Driver(DriverCmd::SetApiKey { key }) && key
            == cmd->SetApiKey_key),
        cmd is NewSession ==> (r matches Route::Driver(DriverCmd::NewSession { session_id })
            && session_id@ == "aby-"@ + stamp),
        cmd is LoadSession ==> (r matches Route::Driver(DriverCmd::Resume { session_id })
            && session_id == cmd->LoadSession_session_id),
        cmd is ListSessions ==> (r matches Route::Driver(DriverCmd::ListSessions { prefix })
            && prefix == cmd->ListSessions_prefix),
        cmd is Goal ==> (r matches Route::Driver(DriverCmd::Goal { arg }) && arg == cmd->Goal_arg),
        cmd is Compact ==> (r matches Route::Driver(DriverCmd::Compact)),
        cmd is FetchCatalog ==> (r matches Route::Driver(DriverCmd::FetchCatalog)),
        cmd is FetchSkills ==> (r matches Route::Driver(DriverCmd::FetchSkills)),
{
}

// --- facts and reports ----------------------------------------------------------

/// A fact stays about its session, and a text stays the text that it was.
pub proof fn facts_stay_about_their_session(fact: SessionFact, ui: UiEvent)
    requires
        controller::same_fact(fact, ui),
    ensures
        fact matches SessionFact::SessionStatus { session, running } ==> (
        ui matches UiEvent::SessionStatus { session: s, running: r } && s == session && r
            == running),
        fact matches SessionFact::TextDelta { session, text } ==> (ui matches UiEvent::TextDelta {
            session: s,
            text: t,
        } && s == session && t == text),
        fact matches SessionFact::ReasoningDelta { session, text } ==> (
        ui matches UiEvent::ReasoningDelta { session: s, text: t } && s == session && t == text),
        fact matches SessionFact::AssistantFinal { session, text, model } ==> (
        ui matches UiEvent::AssistantFinal { session: s, text: t, model: m } && s == session && t
            == text && m == model),
        fact matches SessionFact::UserMessage { session, text } ==> (
        ui matches UiEvent::UserMessage { session: s, text: t } && s == session && t == text),
        fact matches SessionFact::TurnStart { session, turn } ==> (ui matches UiEvent::TurnStart {
            session: s,
            turn: t,
        } && s == session && t == turn),
        fact matches SessionFact::TurnEnd { session, kind } ==> (ui matches UiEvent::TurnEnd {
            session: s,
            kind: k,
        } && s == session && k == kind),
        fact matches SessionFact::SubagentStarted { parent, child, label } ==> (
        ui matches UiEvent::SubagentStarted { parent: p, child: c, label: l } && p == parent && c
            == child && l == label),
        fact matches SessionFact::SubagentFinished { child } ==> (
        ui matches UiEvent::SubagentFinished { child: c } && c == child),
{
}

/// A tool's call, its outcome, the tokens and the modes pass field by field.
pub proof fn facts_pass_field_by_field(fact: SessionFact, ui: UiEvent)
    requires
        controller::same_fact(fact, ui),
    ensures
        fact matches SessionFact::ToolCall { session, call_id, name, arguments } ==> (
        ui matches UiEvent::ToolCall { session: s, call_id: c, name: n, arguments: a } && s
            == session && c == call_id && n == name && a == arguments),
        fact matches SessionFact::ToolCallDelta { session, call_id, name, delta } ==> (
        ui matches UiEvent::ToolCallDelta { session: s, call_id: c, name: n, delta: d } && s
            == session && c == call_id && n == name && d == delta),
        fact matches SessionFact::ToolStarted { session, call_id, name } ==> (
        ui matches UiEvent::ToolStarted { session: s, call_id: c, name: n } && s == session && c
            == call_id && n == name),
        fact matches SessionFact::ToolResult { session, call_id, is_error, text, error } ==> (
        ui matches UiEvent::ToolResult { session: s, call_id: c, is_error: e, text: t, error: w }
            && s == session && c == call_id && e == is_error && t == text && w == error),
        fact matches SessionFact::Usage { session, input, output, cached, reasoning } ==> (
        ui matches UiEvent::Usage { session: s, input: i, output: o, cached: c, reasoning: r } && s
            == session && i == input && o == output && c == cached && r == reasoning),
        fact matches SessionFact::SandboxMode { session, mode } ==> (
        ui matches UiEvent::SandboxMode { session: s, mode: m } && s == session && m == mode),
        fact matches SessionFact::PermissionPreset { session, preset } ==> (
        ui matches UiEvent::PermissionPreset { session: s, preset: p } && s == session && p
            == preset),
        fact matches SessionFact::ApprovalPolicy { session, policy } ==> (
        ui matches UiEvent::ApprovalPolicy { session: s, policy: p } && s == session && p
            == policy),
{
}

/// A checklist passes task by task, each with its words and its status.
pub proof fn a_checklist_passes_task_by_task(fact: SessionFact, ui: UiEvent, i: int)
    requires
        controller::same_fact(fact, ui),
        fact is Plan,
        0 <= i < fact->Plan_todos@.len(),
    ensures
        ui matches UiEvent::Plan { todos, completed, total, active, session, .. } && {
            &&& session == fact->Plan_session
            &&& completed == fact->Plan_completed
            &&& total == fact->Plan_total
            &&& active == fact->Plan_active
            &&& todos@.len() == fact->Plan_todos@.len()
            &&& todos@[i].content == fact->Plan_todos@[i].content
            &&& (todos@[i].status == PlanStatus::Pending) == (fact->Plan_todos@[i].status
                == TodoStatus::Pending)
            &&& (todos@[i].status == PlanStatus::InProgress) == (fact->Plan_todos@[i].status
                == TodoStatus::InProgress)
            &&& (todos@[i].status == PlanStatus::Completed) == (fact->Plan_todos@[i].status
                == TodoStatus::Completed)
        },
{
}

/// A report passes as what it is.
pub proof fn reports_pass_as_they_are(report: DriverReport, ctl: CtlEvent)
    requires
        controller::same_report(report, ctl),
    ensures
        report matches DriverReport::Error(m) ==> ctl == CtlEvent::Error(m),
        report matches DriverReport::TuiOpDone(m) ==> ctl == CtlEvent::TuiOpDone(m),
        report matches DriverReport::TuiOpFailed(m) ==> ctl == CtlEvent::TuiOpFailed(m),
        report matches DriverReport::SessionSwitchFailed(m) ==> ctl
            == CtlEvent::SessionSwitchFailed(m),
        (report is CancelRequested) == (ctl is CancelRequested),
        (report is Interrupted) == (ctl is Interrupted),
        (report is Starting) == (ctl is Starting),
        (report is Ready) == (ctl is Ready),
        report matches DriverReport::SteerSettled { message_id, deferred } ==> (
        ctl matches CtlEvent::SteerSettled { message_id: i, deferred: d } && i == message_id && d
            == deferred),
        report matches DriverReport::SessionBound { session_id, notice, model, effort } ==> (
        ctl matches CtlEvent::SessionBound { session_id: i, notice: n, model: m, effort: e } && i
            == session_id && n == notice && m == model && e == effort),
        report matches DriverReport::Efforts { efforts, default } ==> (
        ctl matches CtlEvent::Efforts { efforts: e, default: d } && e == efforts && d == default),
{
}

/// Lists pass row by row.
pub proof fn lists_pass_row_by_row(report: DriverReport, ctl: CtlEvent, i: int)
    requires
        controller::same_report(report, ctl),
        0 <= i,
    ensures
        report matches DriverReport::Catalog { models } ==> (i < models@.len() ==> (
        ctl matches CtlEvent::Catalog { models: m } && m@.len() == models@.len() && m@[i].id
            == models@[i].id && m@[i].provider == models@[i].provider && m@[i].name
            == models@[i].name && m@[i].vision == models@[i].vision)),
        report matches DriverReport::SessionList { sessions, prefix } ==> (i < sessions@.len() ==> (
        ctl matches CtlEvent::SessionList { sessions: s, prefix: p } && s@.len() == sessions@.len()
            && p == prefix && s@[i].id == sessions@[i].id && s@[i].title == sessions@[i].title
            && s@[i].updated_at == sessions@[i].updated_at)),
        report matches DriverReport::Skills { skills } ==> (i < skills@.len() ==> (
        ctl matches CtlEvent::Skills { skills: s } && s@.len() == skills@.len() && s@[i].name
            == skills@[i].name && s@[i].description == skills@[i].description && s@[i].input_hint
            == skills@[i].input_hint && s@[i].source == Some(skills@[i].path))),
{
}

// --- keys -----------------------------------------------------------------------

/// A letter alone, or with shift, is typed as it is.
pub proof fn letters_are_typed(ch: char, m: KeyModifiers, ctx: KeyCtx)
    requires
        !m.control,
        !m.alt,
        !m.command,
        !m.meta,
    ensures
        keymap::bound(KeyCode::Char(ch), m, ctx) == Some(Action::Insert(ch)),
{
}

/// Enter sends, with shift it breaks the line, with control or ⌘ it sends at
/// once; esc is esc, whatever is held with it.
pub proof fn enter_and_esc(m: KeyModifiers, ctx: KeyCtx)
    ensures
        m.control || m.command || m.meta ==> keymap::bound(KeyCode::Enter, m, ctx) == Some(
            Action::SendNow,
        ),
        !m.control && !m.command && !m.meta && m.shift ==> keymap::bound(KeyCode::Enter, m, ctx)
            == Some(Action::Newline),
        !m.control && !m.command && !m.meta && !m.shift ==> keymap::bound(KeyCode::Enter, m, ctx)
            == Some(Action::Enter),
        keymap::bound(KeyCode::Esc, m, ctx) == Some(Action::Esc),
        keymap::bound(KeyCode::Delete, m, ctx) == Some(Action::DeleteForward),
        keymap::bound(KeyCode::PageUp, m, ctx) == Some(Action::PageUp),
        keymap::bound(KeyCode::PageDown, m, ctx) == Some(Action::PageDown),
        m.shift ==> keymap::bound(KeyCode::Tab, m, ctx) == Some(Action::CyclePermission),
        !m.shift ==> keymap::bound(KeyCode::Tab, m, ctx) == Some(Action::TabComplete),
        keymap::bound(KeyCode::BackTab, m, ctx) == Some(Action::CyclePermission),
{
}

/// The letters with control that are bound, on any draft.
pub proof fn control_letters(m: KeyModifiers, ctx: KeyCtx)
    requires
        m.control,
    ensures
        !m.shift ==> keymap::bound(KeyCode::Char('c'), m, ctx) == Some(Action::CtrlC),
        m.shift ==> keymap::bound(KeyCode::Char('c'), m, ctx) == Some(Action::CopySelection),
        keymap::bound(KeyCode::Char('x'), m, ctx) == Some(Action::CutSelection),
        keymap::bound(KeyCode::Char('q'), m, ctx) == Some(Action::Quit),
        keymap::bound(KeyCode::Char('l'), m, ctx) == Some(Action::ClearScrollback),
        keymap::bound(KeyCode::Char('t'), m, ctx) == Some(Action::ToggleTheme),
        keymap::bound(KeyCode::Char('o'), m, ctx) == Some(Action::CycleToolOutput),
        keymap::bound(KeyCode::Char('v'), m, ctx) == Some(Action::AttachClipboard),
        keymap::bound(KeyCode::Char('p'), m, ctx) == Some(Action::ModelPicker),
        keymap::bound(KeyCode::Char('a'), m, ctx) == Some(Action::LineStart),
        keymap::bound(KeyCode::Char('j'), m, ctx) == Some(Action::Newline),
        keymap::bound(KeyCode::Char('w'), m, ctx) == Some(Action::DeleteWordBack),
        keymap::bound(KeyCode::Char('y'), m, ctx) == Some(Action::YankPaste),
        keymap::bound(KeyCode::Char('b'), m, ctx) == Some(Action::CursorLeft),
        keymap::bound(KeyCode::Char('f'), m, ctx) == Some(Action::CursorRight),
        !m.shift ==> keymap::bound(KeyCode::Char('e'), m, ctx) == Some(Action::LineEnd),
        !m.shift ==> keymap::bound(KeyCode::Char('k'), m, ctx) == Some(Action::KillToEnd),
        m.shift ==> keymap::bound(KeyCode::Char('k'), m, ctx) == Some(Action::KillLine),
        !m.shift ==> keymap::bound(KeyCode::Char('z'), m, ctx) == Some(Action::Undo),
        m.shift ==> keymap::bound(KeyCode::Char('z'), m, ctx) == Some(Action::Redo),
        ctx.input_empty ==> keymap::bound(KeyCode::Char('u'), m, ctx) == Some(Action::ScrollHalfUp),
        !ctx.input_empty ==> keymap::bound(KeyCode::Char('u'), m, ctx) == Some(Action::KillToStart),
        ctx.input_empty ==> keymap::bound(KeyCode::Char('d'), m, ctx) == Some(
            Action::ScrollHalfDown,
        ),
        !ctx.input_empty ==> keymap::bound(KeyCode::Char('d'), m, ctx) == Some(
            Action::DeleteForward,
        ),
        keymap::bound(KeyCode::Char('g'), m, ctx) is None,
{
}

/// The arrows alone: left and right move, up and down walk the history on an
/// empty draft and the rows on another; with shift they select.
pub proof fn arrows_alone(m: KeyModifiers, ctx: KeyCtx)
    requires
        !m.control,
        !m.alt,
        !m.command,
        !m.meta,
    ensures
        !m.shift ==> keymap::bound(KeyCode::Left, m, ctx) == Some(Action::CursorLeft),
        !m.shift ==> keymap::bound(KeyCode::Right, m, ctx) == Some(Action::CursorRight),
        m.shift ==> keymap::bound(KeyCode::Left, m, ctx) == Some(Action::SelectLeft),
        m.shift ==> keymap::bound(KeyCode::Right, m, ctx) == Some(Action::SelectRight),
        !m.shift && (ctx.input_empty || ctx.history_active) ==> keymap::bound(KeyCode::Up, m, ctx)
            == Some(Action::HistoryPrev) && keymap::bound(KeyCode::Down, m, ctx) == Some(
            Action::HistoryNext,
        ),
        !m.shift && !ctx.input_empty && !ctx.history_active ==> keymap::bound(KeyCode::Up, m, ctx)
            == Some(Action::CursorUp) && keymap::bound(KeyCode::Down, m, ctx) == Some(
            Action::CursorDown,
        ),
        m.shift && !ctx.input_empty ==> keymap::bound(KeyCode::Up, m, ctx) == Some(Action::SelectUp)
            && keymap::bound(KeyCode::Down, m, ctx) == Some(Action::SelectDown),
        !m.shift && !ctx.input_empty ==> keymap::bound(KeyCode::Home, m, ctx) == Some(
            Action::LineStart,
        ) && keymap::bound(KeyCode::End, m, ctx) == Some(Action::LineEnd),
        !m.shift && ctx.input_empty ==> keymap::bound(KeyCode::Home, m, ctx) == Some(
            Action::JumpTop,
        ) && keymap::bound(KeyCode::End, m, ctx) == Some(Action::JumpTail),
        keymap::bound(KeyCode::Backspace, m, ctx) == Some(Action::Backspace),
{
}

/// With ⌥ the arrows go by words, with ⌘ to the ends; so do the deletions.
pub proof fn arrows_with_modifiers(m: KeyModifiers, ctx: KeyCtx)
    ensures
        !m.command && !m.meta && (m.alt || m.control) && !m.shift ==> keymap::bound(
            KeyCode::Left,
            m,
            ctx,
        ) == Some(Action::WordLeft) && keymap::bound(KeyCode::Right, m, ctx) == Some(
            Action::WordRight,
        ) && keymap::bound(KeyCode::Backspace, m, ctx) == Some(Action::DeleteWordBack),
        !m.command && !m.meta && (m.alt || m.control) && m.shift ==> keymap::bound(
            KeyCode::Left,
            m,
            ctx,
        ) == Some(Action::SelectWordLeft) && keymap::bound(KeyCode::Right, m, ctx) == Some(
            Action::SelectWordRight,
        ),
        (m.command || m.meta) && !m.shift ==> keymap::bound(KeyCode::Left, m, ctx) == Some(
            Action::LineStart,
        ) && keymap::bound(KeyCode::Right, m, ctx) == Some(Action::LineEnd) && keymap::bound(
            KeyCode::Backspace,
            m,
            ctx,
        ) == Some(Action::KillToStart),
        (m.command || m.meta) && m.shift ==> keymap::bound(KeyCode::Left, m, ctx) == Some(
            Action::SelectLineStart,
        ) && keymap::bound(KeyCode::Right, m, ctx) == Some(Action::SelectLineEnd),
        (m.command || m.meta) && !m.alt ==> keymap::bound(KeyCode::Up, m, ctx) == Some(
            Action::JumpTop,
        ) && keymap::bound(KeyCode::Down, m, ctx) == Some(Action::JumpTail),
        m.alt ==> keymap::bound(KeyCode::Up, m, ctx) == Some(Action::EditQueuedPrompt),
        m.alt && !m.control ==> keymap::bound(KeyCode::Char('b'), m, ctx) == Some(Action::WordLeft)
            && keymap::bound(KeyCode::Char('f'), m, ctx) == Some(Action::WordRight),
{
}

/// A key that lost its modifier on the way gets the one that is held: ⌘ before
/// ⌥, and only where it lost one that matters.
pub proof fn lost_modifiers_come_back(key: KeyEvent, held: ModifierState)
    requires
        key.modifiers == KeyModifiers::empty(),
    ensures
        ({
            let r = normalize::rescued(key, held);
            let moves = key.code == KeyCode::Left || key.code == KeyCode::Right || key.code
                == KeyCode::Up || key.code == KeyCode::Down || key.code == KeyCode::Home
                || key.code == KeyCode::End || key.code == KeyCode::Backspace || key.code
                == KeyCode::Delete;
            &&& moves && held.command ==> r.modifiers.command && !r.modifiers.alt
            &&& moves && !held.command && held.option ==> r.modifiers.alt && !r.modifiers.command
            &&& !moves ==> r == key
            &&& !r.modifiers.shift && !r.modifiers.control
        }),
{
}

/// A report's mask says which modifiers were held, one bit for each.
pub proof fn masks_are_modifiers(mask: u32)
    ensures
        csi::held(0) == KeyModifiers::empty(),
        csi::held(mask).shift == (mask % 2 == 1),
        csi::held(1).shift && !csi::held(1).alt && !csi::held(1).control,
        csi::held(2).alt && !csi::held(2).shift && !csi::held(2).control,
        csi::held(4).control && !csi::held(4).shift && !csi::held(4).alt,
        csi::held(8).command && !csi::held(8).control,
        csi::held(32).meta && !csi::held(32).command,
{
}

/// The key of a code point is its character, but for the few that are keys of
/// their own.
pub proof fn code_points_are_keys(code: u32, shift: bool)
    ensures
        code == 27 ==> csi::key_of(code, shift) == Some(KeyCode::Esc),
        code == 13 ==> csi::key_of(code, shift) == Some(KeyCode::Enter),
        code == 127 ==> csi::key_of(code, shift) == Some(KeyCode::Backspace),
        code == 9 && shift ==> csi::key_of(code, shift) == Some(KeyCode::BackTab),
        code == 9 && !shift ==> csi::key_of(code, shift) == Some(KeyCode::Tab),
        32 <= code <= 126 ==> (csi::key_of(code, shift) matches Some(KeyCode::Char(c)) && c as u32
            == code),
        code > 0x10ffff ==> csi::key_of(code, shift) is None,
{
}

/// Text is taken for key reports only where all of it is: one that begins with
/// anything else, and an empty one, is text.
pub proof fn text_is_not_taken_for_keys(s: Seq<char>, rest: Seq<char>)
    ensures
        s.len() == 0 ==> csi::leaked(s) is None,
        s.len() > 0 && s[0] != '\u{1b}' ==> csi::leaked(s) is None,
        csi::leaked(s) is Some && rest.len() > 0 && rest[0] != '\u{1b}' ==> csi::leaked(s + rest)
            is None,
{
    if csi::leaked(s) is Some && rest.len() > 0 && rest[0] != '\u{1b}' {
        reports_end_in_text(s, rest);
    }
}

proof fn reports_end_in_text(s: Seq<char>, rest: Seq<char>)
    requires
        csi::reports(s) is Some,
        rest.len() > 0,
        rest[0] != '\u{1b}',
    ensures
        csi::reports(s + rest) is None,
    decreases s.len(),
{
    if s.len() == 0 {
        assert(s + rest =~= rest);
    } else {
        let e = s.skip(2);
        let n = text::position(e, 'u');
        text::position_is_first(e, 'u');
        let f = (s + rest).skip(2);
        assert(f =~= e + rest);
        assert forall|k: int| 0 <= k < n implies f[k] != 'u' by {
            assert(f[k] == e[k]);
        }
        assert(f[n] == e[n]);
        text::first_is_position(f, 'u', n);
        assert(f.skip(n + 1) =~= e.skip(n + 1) + rest);
        reports_end_in_text(e.skip(n + 1), rest);
        assert((s + rest)[0] == s[0] && (s + rest)[1] == s[1]);
    }
}

// --- the wipe plan --------------------------------------------------------------

/// What the program keeps in its home is what a plan names, in this order.
pub proof fn the_plan_names_what_is_kept()
    ensures
        data::entries().len() == 5,
        data::entries()[0] == ("settings.json"@, DataWhat::Settings),
        data::entries()[1] == ("abylab-modes.json"@, DataWhat::Modes),
        data::entries()[2] == (".credentials.yaml"@, DataWhat::Credentials),
        data::entries()[3] == ("sessions"@, DataWhat::Sessions),
        data::entries()[4] == ("queued"@, DataWhat::Queue),
{
}

proof fn own_item_found(home: Seq<Seq<char>>, found: Found, k: int, i: int)
    requires
        0 <= i < k <= 5,
        data::size_at(found, i) is Some,
    ensures
        data::listed(data::own_items(home, found, k), home.push(data::entries()[i].0)),
    decreases k,
{
    let items = data::own_items(home, found, k);
    let p = home.push(data::entries()[i].0);
    if i == k - 1 {
        assert(p.len() == home.len() + 1);
        if !data::listed(data::own_items(home, found, k - 1), p) {
            assert(items[items.len() - 1].path == p);
        }
    } else {
        own_item_found(home, found, k - 1, i);
        let r = data::own_items(home, found, k - 1);
        let j = choose|j: int| 0 <= j < r.len() && #[trigger] r[j].path == p;
        assert(items[j].path == p);
    }
}

/// Every entry of the program's that is there is on the plan, and so is a
/// session store below the home.
pub proof fn what_is_there_is_planned(
    home: Seq<Seq<char>>,
    root: Seq<Seq<char>>,
    found: Found,
    i: int,
)
    requires
        0 <= i < 5,
    ensures
        i < found.entries@.len() && found.entries@[i] is Some ==> data::listed(
            data::planned(home, root, found).items,
            home.push(data::entries()[i].0),
        ),
        path::below(root, home) && found.store is Some ==> data::listed(
            data::planned(home, root, found).items,
            root,
        ),
        found.instructions ==> data::planned(home, root, found).kept.contains(
            (home.push(data::INSTRUCTIONS_FILE@), DataKeepWhy::HandWritten),
        ),
        root == home ==> data::planned(home, root, found).kept.contains(
            (home, DataKeepWhy::RootIsHome),
        ),
{
    let own = data::own_items(home, found, 5);
    let plan = data::planned(home, root, found);
    assert(data::entries().len() == 5);
    if i < found.entries@.len() && found.entries@[i] is Some {
        own_item_found(home, found, 5, i);
        let p = home.push(data::entries()[i].0);
        let j = choose|j: int| 0 <= j < own.len() && #[trigger] own[j].path == p;
        assert(plan.items[j].path == p);
    }
    if path::below(root, home) && found.store is Some && !data::listed(own, root) {
        assert(plan.items[plan.items.len() - 1].path == root);
    }
    if found.instructions {
        assert(plan.kept[plan.kept.len() - 1].1 == DataKeepWhy::HandWritten);
    }
    if root == home {
        assert(plan.kept[0] == (home, DataKeepWhy::RootIsHome));
    }
}

/// The files and the bytes of a plan are those of its entries, added up.
pub proof fn sizes_add_up(items: Seq<Item>, x: Item)
    ensures
        data::file_sum(items.push(x)) == data::file_sum(items) + x.size.files,
        data::byte_sum(items.push(x)) == data::byte_sum(items) + x.size.bytes,
        data::file_sum(Seq::empty()) == 0,
        data::byte_sum(Seq::empty()) == 0,
{
    assert(items.push(x).drop_last() =~= items);
}

/// An entry went where its removal gave no reason, and refused to go, with the
/// reason, where it gave one.
pub proof fn an_entry_goes_or_refuses(items: Seq<Item>, reasons: Seq<Option<String>>, k: int, i: int)
    requires
        0 <= i < k <= items.len(),
        reasons.len() == items.len(),
    ensures
        reasons[i] is None ==> data::gone(items, reasons, k).contains(items[i]),
        reasons[i] matches Some(r) ==> data::refused(items, reasons, k).contains(
            (items[i].path, r@),
        ),
    decreases k,
{
    let g = data::gone(items, reasons, k);
    let f = data::refused(items, reasons, k);
    if i == k - 1 {
        if reasons[i] is None {
            assert(g[g.len() - 1] == items[i]);
        } else {
            assert(f[f.len() - 1].0 == items[i].path);
        }
    } else {
        an_entry_goes_or_refuses(items, reasons, k - 1, i);
        let g0 = data::gone(items, reasons, k - 1);
        let f0 = data::refused(items, reasons, k - 1);
        if reasons[i] is None {
            let j = choose|j: int| 0 <= j < g0.len() && g0[j] == items[i];
            assert(g[j] == g0[j]);
        } else {
            let x = (items[i].path, reasons[i]->0@);
            let j = choose|j: int| 0 <= j < f0.len() && f0[j] == x;
            assert(f[j] == f0[j]);
        }
    }
}

/// A size is in bytes, then in kilobytes rounded up, then in larger units.
pub proof fn sizes_have_units(n: int)
    requires
        n >= 0,
    ensures
        n < 1024 ==> data::size(n) == text::decimal(n as nat) + " B"@,
        1024 <= n < 0x10_0000 ==> exists|k: nat|
            data::size(n) == #[trigger] text::decimal(k) + " KB"@ && 1024 * k >= n && 1024 * (k - 1)
                < n,
{
    if 1024 <= n < 0x10_0000 {
        let k = ((n + 1023) / 1024) as nat;
        assert(data::size(n) == text::decimal(k) + " KB"@);
    }
}

} // verus!
