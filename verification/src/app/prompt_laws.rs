//! What sending promises: which order goes out, what waits, and what is echoed.

use vstd::prelude::*;
use crate::app::prompt;
use crate::app::queue;
use crate::app::Scene;
use crate::app::state::{QueueEditState, RunState, Waiting};
use crate::bus;
use crate::bus::Order;
use crate::clipboard;
use crate::controller::Deed;
use crate::input::area;
use crate::staging;
use crate::staging::Piece;
use crate::text;
use crate::transcript;
use crate::transcript::{Entry, Note, Timeline};

verus! {

/// A turn runs, one was handed over, or prompts wait already.
pub open spec fn occupied(scene: Scene) -> bool {
    scene.session.state == RunState::Running || scene.session.pending || scene.queue.waiting.len()
        != 0
}

/// The blocks of a prompt are its pieces one for one, in order: a text as it
/// is, an image with its name, its path, its type and its bytes in base64.
pub proof fn blocks_are_the_pieces(p: Seq<Piece>, i: int)
    requires
        0 <= i < p.len(),
    ensures
        staging::wire(p).len() == p.len(),
        p[i] matches Piece::Text(t) ==> staging::wire(p)[i] == bus::Block::Text(t),
        p[i] matches Piece::Image(m) ==> staging::wire(p)[i] == bus::Block::Image(
            bus::Part {
                data: clipboard::base64_of(m.data),
                media_type: m.media_type,
                name: m.name,
                path: m.path,
            },
        ),
{
}

/// The images of a prompt are counted one by one.
pub proof fn images_are_counted(a: Seq<Piece>, p: Piece)
    ensures
        staging::image_count(a.push(p)) == staging::image_count(a) + if p is Image {
            1int
        } else {
            0
        },
        staging::image_count(Seq::empty()) == 0,
{
    assert(a.push(p).drop_last() == a);
}

/// A text that finds the session free goes out as it is, in one order to the
/// session on show; it is echoed as sent, a turn begins, and nothing queues.
pub proof fn a_free_session_takes_the_text(scene: Scene, t: Seq<char>)
    requires
        scene.session.switch is None,
        !occupied(scene),
    ensures
        ({
            let s = scene.text_sent(t);
            &&& s.ctl.effects == scene.ctl.effects.push(
                Deed::Send(Order::Prompt { session_id: scene.session.id, text: t }),
            )
            &&& s.queue == scene.queue
            &&& s.draft == scene.draft
            &&& s.transcript.cells == scene.transcript.cells.push(
                Entry { note: Note::User { text: t, queued: false }, expanded: false },
            )
            &&& s.session.state == RunState::Starting
            &&& s.session.pending
            &&& s.session.run_started == Some(scene.host.now)
            &&& s.chat.scroll_up == 0
        }),
{
    reveal(Scene::text_sent);
}

/// A text that finds the session occupied waits behind all others, and nothing
/// is sent; its echo is marked as queued.
pub proof fn an_occupied_session_queues_the_text(scene: Scene, t: Seq<char>)
    requires
        scene.session.switch is None,
        occupied(scene),
    ensures
        ({
            let s = scene.text_sent(t);
            &&& s.ctl == scene.ctl
            &&& s.session == scene.session
            &&& s.queue.waiting.len() == scene.queue.waiting.len() + 1
            &&& s.queue.waiting.take(scene.queue.waiting.len() as int) == scene.queue.waiting
            &&& s.queue.waiting.last().pieces == seq![Piece::Text(t)]
            &&& s.queue.waiting.last().id == scene.queue.next_id
            &&& s.queue.waiting.last().cells == seq![scene.transcript.cells.len() as usize]
            &&& s.queue.next_id != scene.queue.next_id
            &&& s.queue.next_id != 0
            &&& s.transcript.cells == scene.transcript.cells.push(
                Entry { note: Note::User { text: t, queued: true }, expanded: false },
            )
        }),
{
    reveal(Scene::text_sent);
    let s = scene.text_sent(t);
    assert(s.queue.waiting.take(scene.queue.waiting.len() as int) =~= scene.queue.waiting);
}

/// A draft with images that finds the session free goes out whole in one
/// order, its pieces in order.
pub proof fn a_free_session_takes_the_images(scene: Scene, p: Seq<Piece>)
    requires
        p.len() > 0,
        !occupied(scene),
        p.len() > 1 || p[0] is Image,
    ensures
        ({
            let s = scene.staged_sent(p);
            &&& s.ctl.effects == scene.ctl.effects.push(
                Deed::Send(
                    Order::PromptImages { session_id: scene.session.id, blocks: staging::wire(p) },
                ),
            )
            &&& s.queue == scene.queue
            &&& s.session.state == RunState::Starting
            &&& s.session.pending
            &&& s.transcript.cells.len() == scene.transcript.cells.len() + p.len()
        }),
{
    reveal(Scene::staged_sent);
    reveal(Scene::emitted);
    echo_is_in_order(scene.transcript, p, false, p.len() as int, 0);
}

/// A draft with images that finds the session occupied waits whole.
pub proof fn an_occupied_session_queues_the_images(scene: Scene, p: Seq<Piece>)
    requires
        p.len() > 0,
        occupied(scene),
    ensures
        ({
            let s = scene.staged_sent(p);
            &&& s.ctl == scene.ctl
            &&& s.session == scene.session
            &&& s.queue.waiting.len() == scene.queue.waiting.len() + 1
            &&& s.queue.waiting.take(scene.queue.waiting.len() as int) == scene.queue.waiting
            &&& s.queue.waiting.last().pieces == p
            &&& s.queue.waiting.last().id == scene.queue.next_id
            &&& s.queue.waiting.last().cells.len() == p.len()
            &&& forall|i: int|
                0 <= i < p.len() ==> #[trigger] s.queue.waiting.last().cells[i] == (
                scene.transcript.cells.len() + i) as usize
        }),
{
    reveal(Scene::staged_sent);
    reveal(Scene::emitted);
    let s = scene.staged_sent(p);
    assert(s.queue.waiting.take(scene.queue.waiting.len() as int) =~= scene.queue.waiting);
}

/// The echo of a prompt stands behind everything said before, its pieces in
/// order and each marked as the prompt is.
pub proof fn echo_is_in_order(t: Timeline, p: Seq<Piece>, queued: bool, n: int, i: int)
    requires
        0 <= n <= p.len(),
    ensures
        ({
            let e = prompt::echoed(t, p, queued, n).cells;
            &&& e.len() == t.cells.len() + n
            &&& e.take(t.cells.len() as int) == t.cells
            &&& 0 <= i < n ==> (p[i] matches Piece::Text(x) ==> e[t.cells.len() + i].note == (
            Note::User { text: x, queued }))
            &&& 0 <= i < n ==> (p[i] matches Piece::Image(m) ==> (
            e[t.cells.len() + i].note matches Note::Image { name, path, data, queued: q, .. }
                && name == m.name && path == m.path && data == m.data && q == queued))
        }),
    decreases n,
{
    if n > 0 {
        echo_is_in_order(t, p, queued, n - 1, i);
        let e = prompt::echoed(t, p, queued, n).cells;
        let d = prompt::echoed(t, p, queued, n - 1).cells;
        assert(e.take(t.cells.len() as int) =~= d.take(t.cells.len() as int));
    } else {
        assert(t.cells.take(t.cells.len() as int) =~= t.cells);
    }
}

/// A draft sent at once goes into the running turn under a fresh number, which
/// is remembered until it is settled; where no turn runs it is a prompt. It is
/// put in the history, and the draft is empty.
pub proof fn sending_now_steers_a_running_turn(scene: Scene)
    requires
        scene.session.switch is None,
        scene.draft.images.items.len() == 0,
        text::trim(scene.draft.input.area.text).len() > 0,
        scene.queue.queued == scene.queue.waiting.len(),
    ensures
        ({
            let s = scene.sent_now();
            let t = text::trim(scene.draft.input.area.text);
            let id = scene.queue.next_id;
            &&& occupied(scene) ==> s.ctl.effects == scene.ctl.effects.push(
                Deed::Send(Order::Steer { session_id: scene.session.id, message_id: id, text: t }),
            )
            &&& occupied(scene) ==> s.queue.steers.last() == (Waiting {
                id,
                pieces: seq![Piece::Text(t)],
                cells: seq![scene.transcript.cells.len() as usize],
            }) && s.queue.next_id != id
            &&& !occupied(scene) ==> s.ctl.effects == scene.ctl.effects.push(
                Deed::Send(Order::Prompt { session_id: scene.session.id, text: t }),
            ) && s.session.state == RunState::Starting
            &&& s.queue.waiting == scene.queue.waiting
            &&& s.draft.input.area.text.len() == 0
            &&& s.draft.input.history == scene.draft.input.history.push(
                scene.draft.input.area.text,
            )
            &&& s.transcript.cells == scene.transcript.cells.push(
                Entry { note: Note::User { text: t, queued: false }, expanded: false },
            )
        }),
{
    reveal(Scene::sent_now);
    reveal(Scene::pieces_sent_now);
    let t = text::trim(scene.draft.input.area.text);
    let p = seq![Piece::Text(t)];
    images_are_counted(Seq::empty(), p[0]);
    assert(Seq::<Piece>::empty().push(p[0]) == p);
    let c = scene.draft.input;
    assert(c.area.text.take(0) + c.area.text.skip(c.area.text.len() as int)
        =~= Seq::<char>::empty());
}

/// While a session switch is under way nothing is sent at once, and the draft
/// stays.
pub proof fn a_switch_keeps_the_draft(scene: Scene)
    requires
        scene.session.switch is Some,
    ensures
        scene.sent_now().ctl == scene.ctl,
        scene.sent_now().draft == scene.draft,
        scene.sent_now().queue == scene.queue,
        scene.next_sent() == scene,
{
    reveal(Scene::sent_now);
    reveal(Scene::next_sent);
}

/// The end of a turn hands over the head of the queue: a lone text as a plain
/// prompt, anything else as blocks. A turn begins, and its echo is no longer
/// marked as queued.
pub proof fn the_head_goes_out(scene: Scene, k: int)
    requires
        scene.session.switch is None,
        scene.queue.edit is None,
        scene.queue.waiting.len() > 0,
        0 <= k < scene.transcript.cells.len(),
        scene.transcript.cells.len() <= usize::MAX,
    ensures
        ({
            let s = scene.next_sent();
            let head = scene.queue.waiting[0];
            let id = scene.session.id;
            &&& head.pieces.len() == 1 && head.pieces[0] is Text ==> s.ctl.effects
                == scene.ctl.effects.push(
                Deed::Send(Order::Prompt { session_id: id, text: head.pieces[0]->Text_0 }),
            )
            &&& head.pieces.len() != 1 || head.pieces[0] is Image ==> s.ctl.effects
                == scene.ctl.effects.push(
                Deed::Send(
                    Order::PromptImages { session_id: id, blocks: staging::wire(head.pieces) },
                ),
            )
            &&& s.queue.waiting == scene.queue.waiting.skip(1)
            &&& s.session.state == RunState::Starting
            &&& s.session.pending
            &&& s.transcript.cells.len() == scene.transcript.cells.len()
            &&& head.cells.contains(k as usize) ==> (
            scene.transcript.cells[k].note matches Note::User { text, .. }
                ==> s.transcript.cells[k].note == (Note::User { text, queued: false }))
            &&& !head.cells.contains(k as usize) ==> s.transcript.cells[k]
                == scene.transcript.cells[k]
        }),
{
    reveal(Scene::next_sent);
}

/// The head of the queue sent ahead leaves it: into the running turn where
/// there is one, which remembers it, and as a prompt where there is none.
pub proof fn the_head_sent_ahead_leaves_the_queue(scene: Scene)
    requires
        scene.queue.edit is None,
        scene.queue.waiting.len() > 0,
        scene.queue.waiting[0].pieces.len() == 1,
        scene.queue.waiting[0].pieces[0] is Text,
    ensures
        ({
            let s = scene.head_sent();
            let head = scene.queue.waiting[0];
            let t = head.pieces[0]->Text_0;
            let runs = scene.session.state == RunState::Running || scene.session.pending;
            &&& s.queue.waiting == scene.queue.waiting.skip(1)
            &&& runs ==> s.ctl.effects == scene.ctl.effects.push(
                Deed::Send(
                    Order::Steer { session_id: scene.session.id, message_id: head.id, text: t },
                ),
            ) && s.queue.steers.last() == head
            &&& !runs ==> s.ctl.effects == scene.ctl.effects.push(
                Deed::Send(Order::Prompt { session_id: scene.session.id, text: t }),
            ) && s.session.state == RunState::Starting && s.queue.steers == scene.queue.steers
        }),
{
    reveal(Scene::head_sent);
}

/// A prompt is found by its number: the place that is found holds it, no place
/// before it does, and where none is found none holds it.
pub proof fn prompts_are_found_by_number(w: Seq<Waiting>, id: u64, i: int, k: int)
    requires
        0 <= i <= k < w.len(),
    ensures
        match queue::index_of(w, id, i) {
            Some(j) => i <= j < w.len() && w[j].id == id && (k < j ==> w[k].id != id),
            None => w[k].id != id,
        },
    decreases w.len() - i,
{
    if w[i].id != id {
        if i + 1 <= k {
            prompts_are_found_by_number(w, id, i + 1, k);
        } else if i + 1 < w.len() {
            prompts_are_found_by_number(w, id, i + 1, i + 1);
        }
    }
}

/// So it is by the row that names it.
pub proof fn prompts_are_found_by_row(w: Seq<Waiting>, id: Seq<char>, i: int, k: int)
    requires
        0 <= i <= k < w.len(),
    ensures
        match queue::index_named(w, id, i) {
            Some(j) => i <= j < w.len() && text::decimal(w[j].id as nat) == id && (k < j
                ==> text::decimal(w[k].id as nat) != id),
            None => text::decimal(w[k].id as nat) != id,
        },
    decreases w.len() - i,
{
    if text::decimal(w[i].id as nat) != id {
        if i + 1 <= k {
            prompts_are_found_by_row(w, id, i + 1, k);
        } else if i + 1 < w.len() {
            prompts_are_found_by_row(w, id, i + 1, i + 1);
        }
    }
}

/// A settled prompt is forgotten, and every other one is kept in order.
pub proof fn settling_forgets_one(w: Seq<Waiting>, id: u64)
    ensures
        queue::others(w, id) == w.filter(|p: Waiting| p.id != id),
    decreases w.len(),
{
    reveal(Seq::filter);
    if w.len() > 0 {
        settling_forgets_one(w.drop_last(), id);
    }
}

/// Cells are followed one for one, in order, to where they went.
pub proof fn cells_are_followed(cells: Seq<usize>, map: Seq<Option<usize>>)
    requires
        forall|i: int|
            0 <= i < cells.len() ==> (#[trigger] cells[i]) < map.len() && map[cells[i] as int] is Some,
    ensures
        queue::followed(cells, map).len() == cells.len(),
        forall|i: int|
            0 <= i < cells.len() ==> map[(#[trigger] cells[i]) as int] == Some(
                queue::followed(cells, map)[i],
            ),
    decreases cells.len(),
{
    if cells.len() > 0 {
        let d = cells.drop_last();
        assert forall|i: int| 0 <= i < d.len() implies (#[trigger] d[i]) < map.len()
            && map[d[i] as int] is Some by {
            assert(d[i] == cells[i]);
        }
        cells_are_followed(d, map);
        assert(cells.last() == cells[cells.len() - 1]);
        assert forall|i: int| 0 <= i < cells.len() implies map[(#[trigger] cells[i]) as int]
            == Some(queue::followed(cells, map)[i]) by {
            if i < d.len() {
                assert(d[i] == cells[i]);
            }
        }
    }
}

/// Saving an edited prompt changes that prompt alone: its place and its number
/// stay, and it holds what the draft said.
pub proof fn a_saved_edit_keeps_its_place(scene: Scene, i: int)
    requires
        scene.queue.edit matches Some(e) && !e.delete_confirm,
        scene.draft.images.items.len() == 0,
        text::trim(scene.draft.input.area.text).len() > 0,
        scene.session.state != RunState::Idle,
        queue::index_of(scene.queue.waiting, scene.queue.edit->0.prompt_id, 0) == Some(i),
        0 <= i < scene.queue.waiting.len(),
    ensures
        ({
            let s = scene.edit_saved();
            let w = scene.queue.waiting[i];
            &&& s.queue.waiting == scene.queue.waiting.update(
                i,
                Waiting {
                    id: w.id,
                    pieces: seq![Piece::Text(text::trim(scene.draft.input.area.text))],
                    cells: w.cells,
                },
            )
            &&& s.queue.edit is None
            &&& s.ctl == scene.ctl
            &&& s.draft.input.area.text.len() == 0
        }),
{
    reveal(Scene::edit_saved);
    reveal(Scene::edit_put);
    reveal(Scene::edit_ended);
    reveal(Scene::tray_settled);
    let c = scene.draft.input;
    assert(c.area.text.take(0) + c.area.text.skip(c.area.text.len() as int)
        =~= Seq::<char>::empty());
}

/// An edit saved with nothing in it changes no prompt.
pub proof fn an_empty_edit_saves_nothing(scene: Scene)
    requires
        scene.queue.edit matches Some(e) && !e.delete_confirm,
        scene.draft.images.items.len() == 0,
        text::trim(scene.draft.input.area.text).len() == 0,
    ensures
        scene.edit_saved().queue == scene.queue,
        scene.edit_saved().ctl == scene.ctl,
        scene.edit_saved().draft == scene.draft,
{
    reveal(Scene::edit_saved);
}

/// Deleting the prompt under edit takes two askings: the first only arms, the
/// second takes that prompt out of the queue and no other.
pub proof fn deleting_an_edit_is_asked_twice(scene: Scene, i: int)
    requires
        scene.queue.edit is Some,
        queue::index_of(scene.queue.waiting, scene.queue.edit->0.prompt_id, 0) == Some(i),
        0 <= i < scene.queue.waiting.len(),
        scene.session.state != RunState::Idle,
    ensures
        ({
            let s = scene.edit_deleted();
            let e = scene.queue.edit->0;
            &&& !e.delete_confirm ==> s.queue.waiting == scene.queue.waiting && s.queue.edit
                == Some(QueueEditState { prompt_id: e.prompt_id, delete_confirm: true })
                && s.transcript == scene.transcript
            &&& e.delete_confirm ==> s.queue.waiting.len() == scene.queue.waiting.len() - 1
                && s.queue.edit is None
            &&& e.delete_confirm ==> forall|k: int|
                0 <= k < s.queue.waiting.len() ==> (#[trigger] s.queue.waiting[k]).id
                    == scene.queue.waiting[if k < i { k } else { k + 1 }].id
                    && s.queue.waiting[k].pieces == scene.queue.waiting[if k < i {
                    k
                } else {
                    k + 1
                }].pieces
            &&& s.ctl == scene.ctl
        }),
{
    reveal(Scene::edit_deleted);
    reveal(Scene::edit_ended);
    reveal(Scene::tray_settled);
    reveal(Scene::dropped);
    reveal(Scene::withdrawn);
}

/// So does deleting a row of the list.
pub proof fn deleting_a_row_is_asked_twice(scene: Scene, id: Seq<char>, i: int)
    requires
        queue::index_named(scene.queue.waiting, id, 0) == Some(i),
        0 <= i < scene.queue.waiting.len(),
        scene.session.state != RunState::Idle,
    ensures
        ({
            let s = scene.row_deleted(id);
            &&& scene.queue.armed != Some(id) ==> s.queue.waiting == scene.queue.waiting
                && s.queue.armed == Some(id) && s.transcript == scene.transcript
            &&& scene.queue.armed == Some(id) ==> s.queue.waiting.len()
                == scene.queue.waiting.len() - 1 && s.queue.armed is None
            &&& scene.queue.armed == Some(id) ==> forall|k: int|
                0 <= k < s.queue.waiting.len() ==> (#[trigger] s.queue.waiting[k]).id
                    == scene.queue.waiting[if k < i { k } else { k + 1 }].id
            &&& s.ctl == scene.ctl
        }),
{
    reveal(Scene::row_deleted);
    reveal(Scene::queue_list_refreshed);
    reveal(Scene::dropped);
    reveal(Scene::withdrawn);
}

/// Taking a queued text into the composer puts that text in the draft, and
/// remembers which prompt it is.
pub proof fn editing_loads_the_text(scene: Scene, id: Seq<char>, i: int, t: Seq<char>)
    requires
        queue::index_named(scene.queue.waiting, id, 0) == Some(i),
        0 <= i < scene.queue.waiting.len(),
        scene.queue.waiting[i].pieces == seq![Piece::Text(t)],
        area::unreturned(t) == t,
        scene.draft.input.area.ok(),
    ensures
        ({
            let s = scene.edit_begun(id);
            &&& s.draft.input.area.text == t
            &&& s.queue.edit == Some(
                QueueEditState {
                    prompt_id: scene.queue.waiting[i].id,
                    delete_confirm: false,
                },
            )
            &&& s.queue.waiting == scene.queue.waiting
        }),
{
    reveal(Scene::edit_begun);
    reveal(Scene::tray_settled);
    reveal_with_fuel(Scene::reloaded, 2);
    let c = scene.draft.input;
    let e = c.emptied();
    assert(c.area.text.take(0) + c.area.text.skip(c.area.text.len() as int)
        =~= Seq::<char>::empty());
    assert(e.area.text =~= Seq::<char>::empty());
    assert(e.area.text.take(e.area.cursor) + t + e.area.text.skip(e.area.cursor) =~= t);
}

} // verus!
