//! The client's own queue: first in, first out, every prompt in it still
//! addressable.

use vstd::prelude::*;
use vstd::string::*;
use crate::app::state;
use crate::app::state::{Line, PromptQueue, QueuedPrompt, Waiting};
use crate::staging;
use crate::staging::{Piece, StagedBlock};
use crate::text;
use crate::text::{number, same};

verus! {

/// The number after `n`; nothing is numbered zero.
pub open spec fn id_after(n: u64) -> u64 {
    if n == u64::MAX {
        1
    } else {
        (n + 1) as u64
    }
}

/// The first prompt of an id from `i` on.
pub open spec fn index_of(w: Seq<Waiting>, id: u64, i: int) -> Option<int>
    decreases w.len() - i,
{
    if 0 <= i < w.len() {
        if w[i].id == id {
            Some(i)
        } else {
            index_of(w, id, i + 1)
        }
    } else {
        None
    }
}

/// The first prompt from `i` on whose id a row names.
pub open spec fn index_named(w: Seq<Waiting>, id: Seq<char>, i: int) -> Option<int>
    decreases w.len() - i,
{
    if 0 <= i < w.len() {
        if text::decimal(w[i].id as nat) == id {
            Some(i)
        } else {
            index_named(w, id, i + 1)
        }
    } else {
        None
    }
}

/// The prompts without those of an id.
pub open spec fn others(w: Seq<Waiting>, id: u64) -> Seq<Waiting>
    decreases w.len(),
{
    if w.len() == 0 {
        w
    } else if w.last().id == id {
        others(w.drop_last(), id)
    } else {
        others(w.drop_last(), id).push(w.last())
    }
}

/// Cells followed to where they went; those that are gone are left out.
pub open spec fn followed(cells: Seq<usize>, map: Seq<Option<usize>>) -> Seq<usize>
    decreases cells.len(),
{
    if cells.len() == 0 {
        cells
    } else {
        let rest = followed(cells.drop_last(), map);
        if cells.last() < map.len() && map[cells.last() as int] is Some {
            rest.push(map[cells.last() as int]->0)
        } else {
            rest
        }
    }
}

pub open spec fn all_followed(w: Seq<Waiting>, map: Seq<Option<usize>>) -> Seq<Waiting> {
    w.map_values(|p: Waiting| Waiting { cells: followed(p.cells, map), ..p })
}

/// The cells of the first `n` prompts, in a row.
pub open spec fn cells_of(w: Seq<Waiting>, n: int) -> Seq<usize>
    decreases n,
{
    if n <= 0 {
        Seq::empty()
    } else {
        cells_of(w, n - 1) + w[n - 1].cells
    }
}

impl Line {
    /// The count goes with the queue.
    pub open spec fn ok(self) -> bool {
        self.queued == self.waiting.len()
    }

    pub open spec fn lined(self, w: Seq<Waiting>) -> Line {
        Line { waiting: w, queued: w.len() as usize, ..self }
    }

    /// A prompt at the end of the queue.
    pub open spec fn enqueued(self, pieces: Seq<Piece>, cells: Seq<usize>) -> Line {
        Line {
            next_id: id_after(self.next_id),
            ..self.lined(self.waiting.push(Waiting { id: self.next_id, pieces, cells }))
        }
    }

    /// The queue without its head.
    pub open spec fn advanced(self) -> Line {
        self.lined(self.waiting.skip(1))
    }

    /// A prompt that was sent into the running turn.
    pub open spec fn steered(self, w: Waiting) -> Line {
        Line { steers: others(self.steers, w.id).push(w), ..self }
    }

    pub open spec fn settled(self, id: u64) -> Line {
        Line { steers: others(self.steers, id), ..self }
    }

    /// Every cell followed to where it went.
    pub open spec fn remapped(self, map: Seq<Option<usize>>) -> Line {
        Line {
            waiting: all_followed(self.waiting, map),
            steers: all_followed(self.steers, map),
            ..self
        }
    }

    /// A row armed for deletion stays so only while its prompt waits.
    pub open spec fn aimed(self) -> Line {
        match self.armed {
            Some(id) => if index_named(self.waiting, id, 0) is Some {
                self
            } else {
                Line { armed: None, ..self }
            },
            None => self,
        }
    }

    /// The queue emptied, nothing left of what was sent into the turn.
    pub open spec fn emptied(self) -> Line {
        Line { waiting: Seq::empty(), queued: 0, edit: None, steers: Seq::empty(), ..self }
    }
}

fn follow(cells: &Vec<usize>, map: &Vec<Option<usize>>) -> (r: Vec<usize>)
    ensures
        r@ == followed(cells@, map@),
{
    let mut out: Vec<usize> = Vec::new();
    let mut i: usize = 0;
    assert(cells@.take(0) == Seq::<usize>::empty());
    while i < cells.len()
        invariant
            i <= cells.len(),
            out@ == followed(cells@.take(i as int), map@),
        decreases cells.len() - i,
    {
        assert(cells@.take(i + 1).drop_last() == cells@.take(i as int));
        let at: usize = cells[i];
        if at < map.len() {
            if let Some(to) = map[at] {
                out.push(to);
            }
        }
        i += 1;
    }
    assert(cells@.take(cells@.len() as int) == cells@);
    out
}

fn follow_all(v: &mut Vec<QueuedPrompt>, map: &Vec<Option<usize>>)
    ensures
        state::waiting(final(v)@) == all_followed(state::waiting(old(v)@), map@),
{
    let ghost start = state::waiting(v@);
    let n: usize = v.len();
    let mut i: usize = 0;
    while i < n
        invariant
            i <= n == v.len(),
            start == state::waiting(old(v)@),
            start.len() == n,
            forall|k: int|
                0 <= k < i ==> #[trigger] state::waiting(v@)[k] == all_followed(start, map@)[k],
            forall|k: int| i <= k < n ==> #[trigger] state::waiting(v@)[k] == start[k],
        decreases n - i,
    {
        let ghost before = state::waiting(v@);
        assert(before[i as int] == start[i as int]);
        assert(before[i as int] == v@[i as int]@);
        let cells = follow(&v[i].cells, map);
        v[i].cells = cells;
        assert(state::waiting(v@) == before.update(
            i as int,
            Waiting { cells: cells@, ..before[i as int] },
        ));
        i += 1;
    }
    assert(state::waiting(v@) == all_followed(start, map@));
}

fn remove_others(v: &mut Vec<QueuedPrompt>, id: u64) -> (r: Option<QueuedPrompt>)
    ensures
        state::waiting(final(v)@) == others(state::waiting(old(v)@), id),
        match r {
            Some(p) => p.id == id && index_of(state::waiting(old(v)@), id, 0) is Some && p@
                == state::waiting(old(v)@)[index_of(state::waiting(old(v)@), id, 0)->0],
            None => index_of(state::waiting(old(v)@), id, 0) is None,
        },
{
    let ghost all = state::waiting(v@);
    let n: usize = v.len();
    let mut found: Option<QueuedPrompt> = None;
    let mut i: usize = 0;
    let mut k: usize = 0;
    assert(all.take(0) == Seq::<Waiting>::empty());
    assert(all.skip(0) == all);
    assert(Seq::<Waiting>::empty() + all == all);
    while i < n
        invariant
            i <= n == all.len(),
            k <= i,
            all == state::waiting(old(v)@),
            others(all.take(i as int), id).len() == k,
            state::waiting(v@) == others(all.take(i as int), id) + all.skip(i as int),
            match found {
                Some(p) => p.id == id && index_of(all, id, 0) is Some && p@ == all[index_of(
                    all,
                    id,
                    0,
                )->0],
                None => index_of(all, id, 0) == index_of(all, id, i as int),
            },
        decreases n - i,
    {
        let ghost head = others(all.take(i as int), id);
        let ghost now = state::waiting(v@);
        assert(now.len() == k + (n - i));
        assert(now.len() == v@.len());
        assert(now[k as int] == all[i as int]);
        assert(now[k as int] == v@[k as int]@);
        assert(all.take(i + 1).drop_last() == all.take(i as int));
        if v[k].id == id {
            let ghost whole = v@;
            let p = v.remove(k);
            assert(v@ == whole.remove(k as int));
            assert(state::waiting(v@) == now.remove(k as int));
            assert(now.remove(k as int) == head + all.skip(i + 1));
            if found.is_none() {
                found = Some(p);
            }
        } else {
            assert(now == head.push(all[i as int]) + all.skip(i + 1));
            k += 1;
        }
        i += 1;
    }
    assert(all.take(n as int) == all);
    assert(all.skip(n as int) == Seq::<Waiting>::empty());
    assert(others(all, id) + Seq::<Waiting>::empty() == others(all, id));
    found
}

impl PromptQueue {
    /// A fresh number.
    pub fn take_id(&mut self) -> (r: u64)
        ensures
            r == old(self)@.next_id,
            final(self)@ == (Line { next_id: id_after(old(self)@.next_id), ..old(self)@ }),
    {
        let id: u64 = self.next_prompt_id;
        self.next_prompt_id = if id == u64::MAX {
            1
        } else {
            id + 1
        };
        id
    }

    /// Put a prompt at the end of the queue.
    pub fn enqueue(&mut self, blocks: Vec<StagedBlock>, cells: Vec<usize>)
        ensures
            final(self)@ == old(self)@.enqueued(staging::pieces(blocks@), cells@),
    {
        let id = self.take_id();
        let p = QueuedPrompt { id, blocks, cells };
        let ghost w = p@;
        self.prompt_queue.push(p);
        assert(state::waiting(self.prompt_queue@) == old(self)@.waiting.push(w));
        self.queued = self.prompt_queue.len();
    }

    /// Take the head of the queue.
    pub fn pop_front(&mut self) -> (r: Option<QueuedPrompt>)
        ensures
            match r {
                Some(p) => old(self)@.waiting.len() > 0 && p@ == old(self)@.waiting[0]
                    && final(self)@ == old(self)@.advanced(),
                None => old(self)@.waiting.len() == 0 && final(self)@ == old(self)@,
            },
    {
        if self.prompt_queue.len() == 0 {
            return None;
        }
        let p = self.prompt_queue.remove(0);
        assert(state::waiting(self.prompt_queue@) == old(self)@.waiting.skip(1));
        self.queued = self.prompt_queue.len();
        Some(p)
    }

    /// Take the prompt at a place of the queue.
    pub fn remove_at(&mut self, i: usize) -> (r: QueuedPrompt)
        requires
            i < old(self)@.waiting.len(),
        ensures
            r@ == old(self)@.waiting[i as int],
            final(self)@ == old(self)@.lined(old(self)@.waiting.remove(i as int)),
    {
        let p = self.prompt_queue.remove(i);
        assert(state::waiting(self.prompt_queue@) == old(self)@.waiting.remove(i as int));
        self.queued = self.prompt_queue.len();
        p
    }

    pub fn position(&self, id: u64) -> (r: Option<usize>)
        ensures
            match r {
                Some(i) => index_of(self@.waiting, id, 0) == Some(i as int) && i
                    < self@.waiting.len(),
                None => index_of(self@.waiting, id, 0) is None,
            },
    {
        let mut i: usize = 0;
        while i < self.prompt_queue.len()
            invariant
                i <= self.prompt_queue.len(),
                index_of(self@.waiting, id, 0) == index_of(self@.waiting, id, i as int),
            decreases self.prompt_queue.len() - i,
        {
            assert(self@.waiting[i as int] == self.prompt_queue@[i as int]@);
            if self.prompt_queue[i].id == id {
                return Some(i);
            }
            i += 1;
        }
        None
    }

    /// The place of the prompt that a row names.
    pub fn position_named(&self, id: &str) -> (r: Option<usize>)
        ensures
            match r {
                Some(i) => index_named(self@.waiting, id@, 0) == Some(i as int) && i
                    < self@.waiting.len(),
                None => index_named(self@.waiting, id@, 0) is None,
            },
    {
        let mut i: usize = 0;
        while i < self.prompt_queue.len()
            invariant
                i <= self.prompt_queue.len(),
                index_named(self@.waiting, id@, 0) == index_named(self@.waiting, id@, i as int),
            decreases self.prompt_queue.len() - i,
        {
            assert(self@.waiting[i as int] == self.prompt_queue@[i as int]@);
            let n = number(self.prompt_queue[i].id);
            if same(n.as_str(), id) {
                return Some(i);
            }
            i += 1;
        }
        None
    }

    /// Give the prompt at a place new blocks.
    pub fn set_blocks(&mut self, i: usize, blocks: Vec<StagedBlock>)
        requires
            i < old(self)@.waiting.len(),
        ensures
            final(self)@ == (Line {
                waiting: old(self)@.waiting.update(
                    i as int,
                    Waiting {
                        pieces: staging::pieces(blocks@),
                        ..old(self)@.waiting[i as int]
                    },
                ),
                ..old(self)@
            }),
    {
        let ghost before = self@.waiting;
        assert(before[i as int] == self.prompt_queue@[i as int]@);
        let ghost pieces = staging::pieces(blocks@);
        self.prompt_queue[i].blocks = blocks;
        assert(state::waiting(self.prompt_queue@) == before.update(
            i as int,
            Waiting { pieces, ..before[i as int] },
        ));
    }

    /// Keep a prompt that was sent into the running turn until it settles.
    pub fn steer(&mut self, id: u64, blocks: Vec<StagedBlock>, cells: Vec<usize>)
        ensures
            final(self)@ == old(self)@.steered(
                Waiting { id, pieces: staging::pieces(blocks@), cells: cells@ },
            ),
    {
        let _ = remove_others(&mut self.pending_steers, id);
        let p = QueuedPrompt { id, blocks, cells };
        let ghost w = p@;
        let ghost before = state::waiting(self.pending_steers@);
        self.pending_steers.push(p);
        assert(state::waiting(self.pending_steers@) == before.push(w));
    }

    /// A prompt that was sent into the running turn has settled.
    pub fn take_steer(&mut self, id: u64) -> (r: Option<QueuedPrompt>)
        ensures
            final(self)@ == old(self)@.settled(id),
            match r {
                Some(p) => index_of(old(self)@.steers, id, 0) is Some && p@
                    == old(self)@.steers[index_of(old(self)@.steers, id, 0)->0],
                None => index_of(old(self)@.steers, id, 0) is None,
            },
    {
        remove_others(&mut self.pending_steers, id)
    }

    /// Follow every cell to where it went.
    pub fn remap(&mut self, map: &Vec<Option<usize>>)
        ensures
            final(self)@ == old(self)@.remapped(map@),
    {
        follow_all(&mut self.prompt_queue, map);
        follow_all(&mut self.pending_steers, map);
    }

    /// The cells of every queued prompt.
    pub fn all_cells(&self) -> (r: Vec<usize>)
        ensures
            r@ == cells_of(self@.waiting, self@.waiting.len() as int),
    {
        let mut out: Vec<usize> = Vec::new();
        let mut i: usize = 0;
        while i < self.prompt_queue.len()
            invariant
                i <= self.prompt_queue.len(),
                out@ == cells_of(self@.waiting, i as int),
            decreases self.prompt_queue.len() - i,
        {
            assert(self@.waiting[i as int] == self.prompt_queue@[i as int]@);
            let ghost before = out@;
            let c = &self.prompt_queue[i].cells;
            let mut k: usize = 0;
            assert(before + c@.take(0) == before);
            while k < c.len()
                invariant
                    k <= c.len(),
                    out@ == before + c@.take(k as int),
                decreases c.len() - k,
            {
                out.push(c[k]);
                k += 1;
            }
            assert(c@.take(c@.len() as int) == c@);
            i += 1;
        }
        out
    }

    /// Empty the queue, and forget what was sent into the turn.
    pub fn empty(&mut self)
        ensures
            final(self)@ == old(self)@.emptied(),
    {
        self.prompt_queue.clear();
        self.pending_steers.clear();
        self.queued = 0;
        self.queue_edit = None;
        assert(self@.waiting == Seq::<Waiting>::empty());
        assert(self@.steers == Seq::<Waiting>::empty());
    }
}

/// The queue is first in, first out: what is put at its end leaves after
/// everything that was there before it, and nothing is lost or changes places.
pub proof fn queue_is_first_in_first_out(q: Line, pieces: Seq<Piece>, cells: Seq<usize>)
    requires
        q.waiting.len() > 0,
    ensures
        q.enqueued(pieces, cells).waiting[0] == q.waiting[0],
        q.enqueued(pieces, cells).advanced().waiting == q.advanced().waiting.push(
            Waiting { id: q.next_id, pieces, cells },
        ),
        q.enqueued(pieces, cells).waiting.last() == (Waiting { id: q.next_id, pieces, cells }),
{
    let w = Waiting { id: q.next_id, pieces, cells };
    assert(q.waiting.push(w).skip(1) == q.waiting.skip(1).push(w));
}

/// Every change of the queue keeps its count right, as long as the queue can
/// be counted at all.
pub proof fn queue_count_stays_right(
    q: Line,
    pieces: Seq<Piece>,
    cells: Seq<usize>,
    i: int,
    w: Waiting,
    map: Seq<Option<usize>>,
)
    requires
        q.ok(),
        q.waiting.len() < usize::MAX,
    ensures
        q.enqueued(pieces, cells).ok(),
        q.waiting.len() > 0 ==> q.advanced().ok(),
        0 <= i < q.waiting.len() ==> q.lined(q.waiting.remove(i)).ok(),
        q.steered(w).ok(),
        q.settled(w.id).ok(),
        q.remapped(map).ok(),
        q.emptied().ok(),
{
}

} // verus!
