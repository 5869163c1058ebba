//! What the reports of a session promise: what they change, where facts are
//! told, and what a switch leaves behind.

use vstd::prelude::*;
use crate::app::queue;
use crate::app::session;
use crate::app::Scene;
use crate::app::state::{Child, RunState, Switch};
use crate::bus::{CtlEvent, Order};
use crate::controller::Deed;
use crate::events;
use crate::events::UiEvent;
use crate::text;
use crate::transcript;
use crate::transcript::{Entry, Note, NoticeLevel, Timeline};

verus! {

/// A notice added to the end of a timeline.
pub open spec fn remarked(from: Timeline, to: Timeline, level: NoticeLevel) -> bool {
    &&& to.cells.len() == from.cells.len() + 1
    &&& to.cells.take(from.cells.len() as int) == from.cells
    &&& to.cells.last().note matches Note::Notice { level: l, .. } && l == level
}

/// The reports on a turn move the session through its states: a start begins
/// it, readiness ends a start that no prompt waits for, a prompt that is taken
/// up runs, and errors and interruptions bring the session to rest.
pub proof fn reports_move_the_run_state(scene: Scene, ev: CtlEvent)
    ensures
        ({
            let s = scene.report_taken(ev).session;
            let r = scene.session;
            &&& ev is Starting ==> s.state == RunState::Starting && s.run_started == Some(
                scene.host.now,
            ) && s.pending == r.pending
            &&& ev is Ready && r.pending ==> s.state == r.state && s.pending
            &&& ev is Ready && !r.pending ==> s.state == RunState::Idle && s.run_started is None
            &&& ev matches CtlEvent::Ready { server } ==> s.server == Some(server@)
            &&& ev is PromptQueued ==> !s.pending && s.state == if r.state == RunState::Starting {
                RunState::Running
            } else {
                r.state
            }
            &&& ev is Error ==> s.state == RunState::Idle && !s.pending && s.run_started is None
            &&& ev is Interrupted ==> s.state == RunState::Idle && !s.pending && s.run_started
                is None
            &&& ev is CancelRequested ==> s.state == r.state && s.pending == r.pending
        }),
{
    reveal(Scene::report_taken);
}

/// What a report says is remarked on in the timeline: an error as an error, a
/// failure and an interruption as a warning, a success as a notice. The queue
/// stays.
pub proof fn reports_are_remarked_on(scene: Scene, ev: CtlEvent)
    ensures
        ({
            let s = scene.report_taken(ev);
            let t = scene.transcript;
            &&& ev matches CtlEvent::Error(m) ==> s.transcript.cells == t.cells.push(
                Entry {
                    note: Note::Notice { level: NoticeLevel::Error, text: m@ },
                    expanded: false,
                },
            )
            &&& ev matches CtlEvent::TuiOpDone(m) ==> s.transcript.cells == t.cells.push(
                Entry {
                    note: Note::Notice { level: NoticeLevel::Info, text: m@ },
                    expanded: false,
                },
            )
            &&& ev matches CtlEvent::TuiOpFailed(m) ==> s.transcript.cells == t.cells.push(
                Entry {
                    note: Note::Notice { level: NoticeLevel::Warn, text: m@ },
                    expanded: false,
                },
            )
            &&& ev is Interrupted ==> s.transcript.cells.len() == t.cells.len() + 1
            &&& (ev is Error || ev is TuiOpDone || ev is TuiOpFailed || ev is Interrupted || ev
                is CancelRequested) ==> s.queue == scene.queue && s.ctl == scene.ctl && s.draft
                == scene.draft
            &&& ev matches CtlEvent::Skills { skills } ==> s.session.skills == skills@
            &&& ev matches CtlEvent::AgentCaps { load_session } ==> s.session.load_session
                == load_session
            &&& (ev is Queue || ev is QueueClaimed || ev is QueueRemoved || ev is SteerAdmitted)
                ==> s == scene
        }),
{
    reveal(Scene::report_taken);
}

/// A tool call that is open when its turn is stopped is marked as cancelled;
/// one that has an outcome keeps it, and so does every other cell.
pub proof fn a_stopped_turn_closes_its_calls(t: Timeline, i: int)
    requires
        0 <= i < t.cells.len(),
    ensures
        t.cancelled().cells.len() == t.cells.len(),
        t.cells[i].note matches Note::Tool { call_id, ok, .. } ==> (ok is None ==> (
        t.cancelled().cells[i].note matches Note::Tool { call_id: c, ok: o, error: Some(e), .. }
            && c == call_id && o == Some(false) && e == "cancelled"@)),
        t.cells[i].note matches Note::Tool { ok, .. } ==> (ok is Some ==> t.cancelled().cells[i]
            == t.cells[i]),
        !(t.cells[i].note is Tool) ==> t.cancelled().cells[i] == t.cells[i],
{
}

/// A message that was put off waits behind all others as the very prompt that
/// was sent, and is marked as queued; one that landed is forgotten. Either way
/// it no longer counts as under way.
pub proof fn a_settled_message_lands_or_waits(scene: Scene, id: u64, deferred: bool, i: int)
    requires
        queue::index_of(scene.queue.steers, id, 0) == Some(i),
        0 <= i < scene.queue.steers.len(),
    ensures
        ({
            let s = scene.steer_settled(id, deferred);
            let w = scene.queue.steers[i];
            &&& !deferred ==> s.queue.waiting == scene.queue.waiting && s.transcript
                == scene.transcript
            &&& deferred ==> s.queue.waiting.len() == scene.queue.waiting.len() + 1
            &&& deferred ==> s.queue.waiting.drop_last() == scene.queue.waiting
            &&& deferred ==> s.queue.waiting.last().pieces == w.pieces
                && s.queue.waiting.last().cells == w.cells
            &&& s.ctl == scene.ctl
            &&& s.session == scene.session
        }),
{
    reveal(Scene::steer_settled);
    let s = scene.steer_settled(id, deferred);
    if deferred {
        assert(s.queue.waiting.drop_last() =~= scene.queue.waiting);
    }
}

/// A message that is not known to be under way settles nothing.
pub proof fn an_unknown_message_settles_nothing(scene: Scene, id: u64, deferred: bool)
    requires
        queue::index_of(scene.queue.steers, id, 0) is None,
    ensures
        scene.steer_settled(id, deferred) == scene,
{
    reveal(Scene::steer_settled);
}

/// A bound session is the one on show: its id is used and its timeline is
/// begun under it, what it reports of model and effort is in force, and its
/// skills are asked for.
pub proof fn a_bound_session_is_on_show(
    scene: Scene,
    id: Seq<char>,
    notice: Option<Seq<char>>,
    model: Option<Seq<char>>,
    effort: Option<Seq<char>>,
)
    ensures
        ({
            let s = scene.session_bound(id, notice, model, effort);
            &&& s.session.id == id
            &&& s.session.bound
            &&& s.transcript.root == id
            &&& model matches Some(m) ==> s.session.cfg.model == m
            &&& model is None ==> s.session.cfg.model == scene.session.cfg.model
            &&& effort matches Some(e) ==> s.session.modes.effort == Some(e)
            &&& s.ctl.effects == scene.ctl.effects.push(Deed::Send(Order::FetchSkills))
            &&& s.draft.input == scene.draft.input
        }),
{
    reveal(Scene::session_bound);
    reveal(Scene::session_left);
    reveal(Scene::childless);
    reveal(Scene::hinted);
}

/// A switch that settles puts everything of the old session away: its cells,
/// its queue, its subagents, its plan and what was selected. A binding of the
/// session on show leaves all of that.
pub proof fn a_switch_puts_the_old_session_away(
    scene: Scene,
    id: Seq<char>,
    model: Option<Seq<char>>,
    effort: Option<Seq<char>>,
)
    ensures
        ({
            let s = scene.session_bound(id, None, model, effort);
            let resumed = scene.session.switch == Some(Switch::Resume(id));
            &&& resumed ==> s.transcript.cells.len() == 0 && s.queue.waiting.len() == 0
                && s.queue.queued == 0 && s.queue.steers.len() == 0 && s.queue.edit is None
                && s.subagents.len() == 0 && s.active is None && s.panels.plan is None
                && s.panels.todo is None && s.chat.sel is None && s.chat.scroll_up == 0
                && s.session.switch is None && s.session.state == RunState::Idle
                && !s.session.pending && s.session.title is None
            &&& scene.session.switch == Some(Switch::New) && id != scene.session.id
                ==> s.transcript.cells.len() == 1 && s.queue.waiting.len() == 0
                && s.session.switch is None
            &&& scene.session.switch is None && id == scene.session.id ==> s.transcript.cells
                == scene.transcript.cells && s.queue == scene.queue && s.subagents
                == scene.subagents && s.panels == scene.panels && s.session.state
                == scene.session.state
        }),
{
    reveal(Scene::session_bound);
    reveal(Scene::session_left);
    reveal(Scene::childless);
    reveal(Scene::hinted);
}

/// A new session opens with the next usage hint; the hints go round.
pub proof fn hints_go_round(scene: Scene)
    requires
        scene.session_tip_idx < scene.phrases.tips_en.len() <= usize::MAX,
    ensures
        scene.hinted().session_tip_idx == if scene.session_tip_idx + 1
            == scene.phrases.tips_en.len() {
            0int
        } else {
            scene.session_tip_idx + 1
        },
        scene.hinted().transcript.cells.len() == scene.transcript.cells.len() + 1,
{
    reveal(Scene::hinted);
}

/// A fact of the session on show changes what it is about and nothing else.
pub proof fn facts_change_what_they_are_about(scene: Scene, ui: UiEvent)
    requires
        events::session_of(ui) == Some(scene.session.id),
    ensures
        ({
            let s = scene.fact_taken(ui).session;
            let r = scene.session;
            &&& ui matches UiEvent::PlanMode { active, .. } ==> s.modes.plan == active
                && s.modes.permission == r.modes.permission && s.modes.sandbox == r.modes.sandbox
            &&& ui matches UiEvent::SandboxMode { mode, .. } ==> s.modes.sandbox == Some(mode@)
                && s.modes.permission == r.modes.permission
            &&& ui matches UiEvent::ApprovalPolicy { policy, .. } ==> s.modes.approval == Some(
                policy@,
            ) && s.modes.permission == r.modes.permission
            &&& ui matches UiEvent::PermissionPreset { preset, .. } ==> s.modes.permission == Some(
                preset@,
            ) && s.modes.sandbox == r.modes.sandbox
            &&& ui matches UiEvent::SessionTitle { title, .. } ==> s.title == Some(title@)
            &&& ui matches UiEvent::SessionStatus { running, .. } ==> s.state == (if running {
                RunState::Running
            } else {
                RunState::Idle
            }) && (!running ==> !s.pending && s.run_started is None)
            &&& ui matches UiEvent::SessionStatus { running, .. } ==> (running && r.run_started
                is Some ==> s.run_started == r.run_started)
            &&& !(ui is PlanMode || ui is SandboxMode || ui is ApprovalPolicy || ui
                is PermissionPreset || ui is SessionTitle || ui is SessionStatus) ==> s == r
            &&& s.id == r.id
            &&& s.cfg == r.cfg
            &&& s.switch == r.switch
            &&& scene.fact_taken(ui).queue == scene.queue
            &&& scene.fact_taken(ui).draft == scene.draft
            &&& scene.fact_taken(ui).ctl == scene.ctl
        }),
{
    reveal(Scene::fact_taken);
}

/// A fact of another session changes nothing of the session on show.
pub proof fn facts_of_others_stay_out(scene: Scene, ui: UiEvent)
    requires
        events::session_of(ui) matches Some(x) && x != scene.session.id,
    ensures
        scene.fact_taken(ui).session == scene.session,
        scene.fact_taken(ui).panels == scene.panels,
        scene.fact_taken(ui).queue == scene.queue,
        session::child_at(scene.subagents, events::session_of(ui)->0, 0) is Some
            ==> scene.fact_taken(ui).transcript == scene.transcript,
{
    reveal(Scene::fact_taken);
}

/// A subagent is found by its id.
pub proof fn subagents_are_found_by_id(c: Seq<Child>, id: Seq<char>, i: int, k: int)
    requires
        0 <= i <= k < c.len(),
    ensures
        match session::child_at(c, id, i) {
            Some(j) => i <= j < c.len() && c[j].id == id && (k < j ==> c[k].id != id),
            None => c[k].id != id,
        },
    decreases c.len() - i,
{
    if c[i].id != id {
        if i + 1 <= k {
            subagents_are_found_by_id(c, id, i + 1, k);
        } else if i + 1 < c.len() {
            subagents_are_found_by_id(c, id, i + 1, i + 1);
        }
    }
}

/// A fact of a subagent is told in its view and in no other.
pub proof fn facts_of_a_subagent_are_told_there(scene: Scene, ui: UiEvent, i: int, k: int)
    requires
        events::session_of(ui) matches Some(x) && x != scene.session.id,
        session::child_at(scene.subagents, events::session_of(ui)->0, 0) == Some(i),
        0 <= i < scene.subagents.len(),
        0 <= k < scene.subagents.len(),
    ensures
        ({
            let s = scene.fact_taken(ui);
            &&& s.subagents.len() == scene.subagents.len()
            &&& k != i ==> s.subagents[k] == scene.subagents[k]
            &&& s.subagents[i].transcript == scene.subagents[i].transcript.heard(ui)
            &&& s.subagents[i].id == scene.subagents[i].id
            &&& s.subagents[i].running == scene.subagents[i].running
        }),
{
    reveal(Scene::fact_taken);
}

/// A new subagent gets a view of its own, at work and empty, behind the others;
/// one that is known gets no second. When it finishes it is no longer at work.
pub proof fn a_subagent_is_born_and_finishes(
    scene: Scene,
    parent: Seq<char>,
    child: Seq<char>,
    label: Option<Seq<char>>,
    ui: UiEvent,
)
    ensures
        ({
            let s = scene.child_born(parent, child, label);
            &&& session::child_at(scene.subagents, child, 0) is Some ==> s == scene
            &&& session::child_at(scene.subagents, child, 0) is None ==> {
                &&& s.subagents.len() == scene.subagents.len() + 1
                &&& s.subagents.drop_last() == scene.subagents
                &&& s.subagents.last().id == child
                &&& s.subagents.last().parent == parent
                &&& s.subagents.last().running
                &&& s.subagents.last().transcript.cells.len() == 0
                &&& s.subagents.last().transcript.root == child
                &&& label matches Some(l) ==> s.subagents.last().label == l
            }
        }),
        session::child_at(scene.subagents, child, 0) is None ==> scene.child_finished(child, ui)
            == scene,
        session::child_at(scene.subagents, child, 0) matches Some(i) ==> (0 <= i
            < scene.subagents.len() ==> scene.child_finished(child, ui).subagents.len()
            == scene.subagents.len() && !scene.child_finished(child, ui).subagents[i].running),
{
    reveal(Scene::child_born);
    reveal(Scene::child_finished);
    let s = scene.child_born(parent, child, label);
    if session::child_at(scene.subagents, child, 0) is None {
        assert(s.subagents.drop_last() =~= scene.subagents);
    }
    if let Some(i) = session::child_at(scene.subagents, child, 0) {
        if 0 <= i < scene.subagents.len() {
            let c = scene.subagents[i];
            let rest = scene.subagents.update(i, Child { running: false, ..c });
            subagents_are_found_by_id(rest, c.parent, 0, i);
        }
    }
}

/// What a timeline makes of a fact: a run state is no cell, a replayed line is
/// a sent prompt, a call is an open call, and anything else is told at the end.
pub proof fn a_timeline_tells_facts_at_its_end(t: Timeline, ui: UiEvent)
    ensures
        ({
            let h = t.heard(ui);
            let n = t.cells.len();
            &&& ui is SessionStatus ==> h == t
            &&& ui matches UiEvent::UserMessage { text, .. } ==> h.cells == t.cells.push(
                Entry { note: Note::User { text: text@, queued: false }, expanded: false },
            )
            &&& ui matches UiEvent::ToolCall { call_id, name, arguments, .. } ==> h.cells.len() == n
                + 1 && h.cells.take(n as int) == t.cells && (
            h.cells[n as int].note matches Note::Tool {
                call_id: c,
                name: m,
                arguments: a,
                ok,
                error,
                ..
            } && c == call_id@ && m == name@ && a == arguments@ && ok is None && error is None)
            &&& ui is TextDelta || ui is AssistantFinal || ui is Plan || ui is TurnEnd
                ==> h.cells == t.cells.push(Entry { note: Note::Fact(ui), expanded: false })
            &&& h.root == t.root
            &&& h.locale == t.locale
        }),
{
    reveal(Timeline::heard);
    let h = t.heard(ui);
    if ui is ToolCall {
        assert(h.cells.take(t.cells.len() as int) =~= t.cells);
    }
}

proof fn call_found(cells: Seq<Entry>, id: Seq<char>, n: int, k: int)
    requires
        0 <= k < n <= cells.len(),
    ensures
        match transcript::open_call(cells, id, n) {
            Some(j) => 0 <= j < n && transcript::awaits(cells[j], id) && (k > j
                ==> !transcript::awaits(cells[k], id)),
            None => !transcript::awaits(cells[k], id),
        },
    decreases n,
{
    if !transcript::awaits(cells[n - 1], id) {
        if k < n - 1 {
            call_found(cells, id, n - 1, k);
        } else if n - 1 > 0 {
            call_found(cells, id, n - 1, 0);
        }
    }
}

/// A result completes the latest open call of its id, with its outcome and its
/// text, and touches no other cell.
pub proof fn a_result_completes_its_call(t: Timeline, ui: UiEvent, i: int, k: int)
    requires
        ui is ToolResult,
        0 <= i < t.cells.len(),
        0 <= k < t.cells.len(),
        t.cells[i].note matches Note::Tool { call_id, ok, .. } && call_id == ui->ToolResult_call_id@
            && ok is None,
        forall|j: int|
            i < j < t.cells.len() ==> !((#[trigger] t.cells[j]).note matches Note::Tool {
                call_id,
                ok,
                ..
            } && call_id == ui->ToolResult_call_id@ && ok is None),
    ensures
        ({
            let h = t.heard(ui);
            &&& h.cells.len() == t.cells.len()
            &&& k != i ==> h.cells[k] == t.cells[k]
            &&& h.cells[i].note matches Note::Tool { call_id, ok, output, error, .. } && call_id
                == ui->ToolResult_call_id@ && ok == Some(!ui->ToolResult_is_error) && output
                == ui->ToolResult_text@ && error == text::view_opt(ui->ToolResult_error)
        }),
{
    reveal(Timeline::heard);
    let id = ui->ToolResult_call_id@;
    let n = t.cells.len() as int;
    call_found(t.cells, id, n, i);
    let j = transcript::open_call(t.cells, id, n);
    if j is Some && j->0 > i {
        assert(!(t.cells[j->0].note matches Note::Tool { call_id, ok, .. } && call_id == id && ok
            is None));
    }
}

/// Marking echoes touches the cells that are named and no other, and only
/// whether they count as queued.
pub proof fn marking_touches_the_named_cells(t: Timeline, at: Seq<usize>, queued: bool, i: int)
    requires
        0 <= i < t.cells.len() <= usize::MAX,
    ensures
        t.marked(at, queued).cells.len() == t.cells.len(),
        !at.contains(i as usize) ==> t.marked(at, queued).cells[i] == t.cells[i],
        at.contains(i as usize) ==> (t.cells[i].note matches Note::User { text, .. } ==> t.marked(
            at,
            queued,
        ).cells[i].note == (Note::User { text, queued })),
        at.contains(i as usize) && !(t.cells[i].note is User) && !(t.cells[i].note is Image)
            ==> t.marked(at, queued).cells[i] == t.cells[i],
{
}

/// A runtime that has gone takes the queue with it: nothing waits, nothing is
/// edited, nothing is under way and the session is at rest.
pub proof fn a_gone_runtime_leaves_nothing_waiting(scene: Scene, code: Option<i32>)
    ensures
        ({
            let s = scene.runtime_gone(code);
            &&& s.queue.waiting.len() == 0
            &&& s.queue.queued == 0
            &&& s.queue.steers.len() == 0
            &&& s.queue.edit is None
            &&& s.session.state == RunState::Idle
            &&& !s.session.pending
            &&& s.session.switch is None
            &&& s.draft == scene.draft
            &&& s.ctl == scene.ctl
        }),
{
    reveal(Scene::runtime_gone);
    reveal(Scene::withdrawn);
}

/// The checklist shown is the one of the latest snapshot; an empty snapshot
/// takes it away and closes its dialog.
pub proof fn the_checklist_is_the_latest(scene: Scene, ui: UiEvent)
    requires
        ui is Plan,
        ui->Plan_session@ == scene.session.id,
    ensures
        ({
            let s = scene.fact_taken(ui).panels;
            &&& ui->Plan_total == 0 ==> s.plan is None && s.todo is None
            &&& ui->Plan_total > 0 ==> s.plan is Some && {
                &&& s.plan->0.completed == ui->Plan_completed
                &&& s.plan->0.total == ui->Plan_total
                &&& s.plan->0.active == text::view_opt(ui->Plan_active)
                &&& s.plan->0.active_extra == ui->Plan_active_extra
                &&& s.plan->0.todos.len() == ui->Plan_todos@.len()
                &&& forall|i: int|
                    0 <= i < ui->Plan_todos@.len() ==> #[trigger] s.plan->0.todos[i] == (
                        ui->Plan_todos@[i].content@,
                        ui->Plan_todos@[i].status,
                    )
            }
            &&& ui->Plan_total > 0 ==> s.todo == scene.panels.todo
        }),
{
    reveal(Scene::fact_taken);
}

} // verus!
