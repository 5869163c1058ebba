//! The queue in the user's hands: the list of what waits, a prompt taken back
//! into the composer, saved, deleted, or sent ahead.

use vstd::prelude::*;
use vstd::string::*;
use crate::app::{App, Scene};
use crate::app::queue;
use crate::app::state;
use crate::app::state::{ChatState, DraftState, Line, QueueEditState, RunState, Waiting};
use crate::input::area;
use crate::measure::wide_number;
use crate::picker;
use crate::picker::{find_row_or_first, Choice, Picker, PickerItem, PickerKind, Row};
use crate::staging;
use crate::staging::{
    copy_blocks, prompt_blocks_from_staged, queue_prompt_summary, Piece, StagedBlock,
};
use crate::text;
use crate::text::{cat3, number, opt_is, trimmed};
use crate::transcript;

verus! {

/// A number counted from one.
pub open spec fn ordinal(i: int) -> Seq<char> {
    text::decimal((i + 1) as nat)
}

impl Scene {
    /// The row of the `i`th queued prompt.
    pub open spec fn queue_row(self, i: int) -> Row {
        let w = self.queue.waiting[i];
        let id = text::decimal(w.id as nat);
        let state = if self.queue.armed == Some(id) {
            self.tr("ctrl+d deletes"@, "再按 ctrl+d 删除"@)
        } else if self.queue.edit is Some && self.queue.edit->0.prompt_id == w.id {
            self.tr("editing"@, "编辑中"@)
        } else {
            self.tr("queued"@, "排队中"@)
        };
        Row {
            id,
            label: staging::summary(w.pieces),
            meta: "#"@ + ordinal(i) + " · "@ + state,
            provider: None,
        }
    }

    pub open spec fn queue_rows(self) -> Seq<Row> {
        Seq::new(self.queue.waiting.len(), |i: int| self.queue_row(i))
    }

    /// The list of the queue, in order. The highlight stays where it was, or
    /// opens on the prompt being edited, or on the head. An empty queue has no
    /// list.
    #[verifier::opaque]
    pub open spec fn queue_list(self, sel: Option<usize>) -> Option<Choice> {
        let items = self.queue_rows();
        if items.len() == 0 {
            None
        } else {
            Some(
                Choice {
                    kind: PickerKind::Queue,
                    title: self.tr(
                        " queued prompts · ↑/↓ · enter edit · ctrl+d delete · esc close "@,
                        " 排队消息 · ↑/↓ · enter 编辑 · ctrl+d 删除 · esc 关闭 "@,
                    ),
                    sel: match sel {
                        Some(s) => picker::lesser(s as int, items.len() - 1) as usize,
                        None => match self.queue.edit {
                            Some(e) => picker::row_or_first(
                                items,
                                text::decimal(e.prompt_id as nat),
                            ),
                            None => 0,
                        },
                    },
                    items,
                },
            )
        }
    }

    /// The open list of the queue brought up to date; an empty one closes. A
    /// row that is not listed any more is not armed either.
    #[verifier::opaque]
    pub open spec fn queue_list_refreshed(self) -> Scene {
        match self.panels.picker {
            Some(p) => if p.kind == PickerKind::Queue {
                self.picking(self.queue_list(Some(p.sel))).queueing(self.queue.aimed())
            } else {
                self
            },
            None => self,
        }
    }

    /// The list of the queue opened, where there is a queue and the composer
    /// is free.
    #[verifier::opaque]
    pub open spec fn queue_opened(self) -> Scene {
        if self.queue.waiting.len() == 0 {
            self.told_tr("no queued prompt to edit"@, "没有可编辑的排队消息"@)
        } else if self.draft.input.area.text.len() > 0 || self.draft.images.items.len() > 0 {
            self.told_tr(
                "send or clear the current draft before editing the queue"@,
                "编辑队列前请先发送或清空当前草稿"@,
            )
        } else {
            let s = self.queueing(Line { armed: None, ..self.queue });
            s.picking(s.queue_list(None))
        }
    }

    /// The first `n` pieces of a prompt put back into an empty draft, the
    /// images staged anew.
    pub open spec fn reloaded(self, p: Seq<Piece>, n: int) -> Scene
        decreases n,
    {
        if n <= 0 {
            self.typed(self.draft.input.emptied())
        } else {
            let s = self.reloaded(p, n - 1);
            match p[n - 1] {
                Piece::Text(t) => s.typed(
                    s.draft.input.edited(s.draft.input.area.inserted(area::unreturned(t))),
                ),
                Piece::Image(i) => s.image_staged(
                    i.name,
                    i.path,
                    i.media_type,
                    i.data,
                    Seq::empty(),
                ),
            }
        }
    }

    pub open spec fn gone_remark(self) -> Scene {
        self.told_tr("queued prompt already left the queue"@, "这条消息已离开队列"@)
    }

    /// A queued prompt taken into the composer. It keeps its place in the
    /// queue, and what it was.
    #[verifier::opaque]
    pub open spec fn edit_begun(self, id: Seq<char>) -> Scene {
        match queue::index_named(self.queue.waiting, id, 0) {
            None => self.gone_remark(),
            Some(i) => {
                let w = self.queue.waiting[i];
                let s = self.reloaded(w.pieces, w.pieces.len() as int);
                s.queueing(
                    Line {
                        edit: Some(QueueEditState { prompt_id: w.id, delete_confirm: false }),
                        ..s.queue
                    },
                ).tray_settled().told_tr(
                    "editing queued prompt · enter save · ctrl+d delete · esc cancel"@,
                    "编辑排队消息 · enter 保存 · ctrl+d 删除 · esc 取消"@,
                )
            },
        }
    }

    /// The editing ended; the draft is dropped.
    #[verifier::opaque]
    pub open spec fn edit_ended(self) -> Scene {
        let s = self.queueing(Line { edit: None, ..self.queue });
        s.drafted(
            DraftState {
                input: s.draft.input.emptied(),
                images: s.draft.images.emptied(),
                ..s.draft
            },
        ).tray_settled()
    }

    /// The echoes at `at` taken out of the timeline, and every cell that is
    /// kept in mind followed to where it went.
    #[verifier::opaque]
    pub open spec fn withdrawn(self, at: Seq<usize>) -> Scene {
        let map = transcript::moves(at, self.transcript.cells.len() as int);
        let s = self.telling(self.transcript.removed(at)).queueing(self.queue.remapped(map));
        s.chatting(
            ChatState {
                jump_cell: match s.chat.jump_cell {
                    Some(c) => if c < map.len() {
                        map[c as int]
                    } else {
                        None
                    },
                    None => None,
                },
                flash: None,
                flash_lines: None,
                sel: None,
                ..s.chat
            },
        )
    }

    /// The next in line sent, where nothing runs.
    pub open spec fn next_sent_if_idle(self) -> Scene {
        if self.session.state == RunState::Idle {
            self.next_sent()
        } else {
            self
        }
    }

    /// The `i`th queued prompt deleted, its echo with it.
    #[verifier::opaque]
    pub open spec fn dropped(self, i: int) -> Scene {
        let cells = self.queue.waiting[i].cells;
        let s = self.queueing(self.queue.lined(self.queue.waiting.remove(i))).withdrawn(cells);
        s.told(
            s.tr("queued prompt #"@, "排队消息 #"@) + ordinal(i) + s.tr(" deleted"@, " 已删除"@),
        ).next_sent_if_idle()
    }

    /// Delete what is being edited: the first time it is asked back, the
    /// second time it is done.
    #[verifier::opaque]
    pub open spec fn edit_deleted(self) -> Scene {
        match self.queue.edit {
            None => self,
            Some(e) => if !e.delete_confirm {
                self.queueing(
                    Line {
                        edit: Some(QueueEditState { delete_confirm: true, ..e }),
                        ..self.queue
                    },
                ).told_tr(
                    "ctrl+d again deletes this queued prompt · esc cancels"@,
                    "再按一次 ctrl+d 删除这条排队消息 · esc 取消"@,
                )
            } else {
                match queue::index_of(self.queue.waiting, e.prompt_id, 0) {
                    None => self.edit_ended(),
                    Some(i) => self.edit_ended().dropped(i),
                }
            },
        }
    }

    /// The pieces of an edited draft put in the place of the prompt's.
    #[verifier::opaque]
    pub open spec fn edit_put(self, id: u64, p: Seq<Piece>) -> Scene {
        match queue::index_of(self.queue.waiting, id, 0) {
            None => self.edit_ended().gone_remark(),
            Some(i) => {
                let q = Line {
                    waiting: self.queue.waiting.update(
                        i,
                        Waiting { pieces: p, ..self.queue.waiting[i] },
                    ),
                    ..self.queue
                };
                let s = self.queueing(q).edit_ended();
                s.told(
                    s.tr("queued prompt #"@, "排队消息 #"@) + ordinal(i) + s.tr(
                        " updated"@,
                        " 已更新"@,
                    ),
                ).next_sent_if_idle()
            },
        }
    }

    /// The edited draft saved in the queued prompt's place.
    #[verifier::opaque]
    pub open spec fn edit_saved(self) -> Scene {
        let raw = text::trim(self.draft.input.area.text);
        match self.queue.edit {
            None => self,
            Some(e) => if e.delete_confirm {
                self.edit_deleted()
            } else if self.draft.images.items.len() > 0 {
                self.tray_taken().edit_put(e.prompt_id, self.staged_pieces())
            } else if raw.len() == 0 {
                self.told_tr(
                    "queued prompt cannot be empty · ctrl+d deletes it"@,
                    "排队消息不能为空 · ctrl+d 可删除"@,
                )
            } else {
                self.edit_put(e.prompt_id, seq![Piece::Text(raw)])
            },
        }
    }

    /// Delete a row of the list: the first time it is armed, the second time
    /// it is done.
    #[verifier::opaque]
    pub open spec fn row_deleted(self, id: Seq<char>) -> Scene {
        if self.queue.armed != Some(id) {
            self.queueing(Line { armed: Some(id), ..self.queue }).queue_list_refreshed()
        } else {
            let s = self.queueing(Line { armed: None, ..self.queue });
            match queue::index_named(s.queue.waiting, id, 0) {
                Some(i) => s.dropped(i).queue_list_refreshed(),
                None => s.queue_list_refreshed(),
            }
        }
    }

    /// The head of the queue sent ahead: into a turn that runs, and as a
    /// prompt where none does.
    #[verifier::opaque]
    pub open spec fn head_sent(self) -> Scene {
        if self.queue.edit is Some || self.queue.waiting.len() == 0 {
            self
        } else {
            let head = self.queue.waiting[0];
            let s = self.queueing(self.queue.advanced()).at_tail();
            if self.session.state == RunState::Running || self.session.pending {
                let t = s.queueing(s.queue.steered(head)).told_tr(
                    "queue head sent now — lands at the next agent step"@,
                    "队首已立即发送 —— 在下一步 Agent 处生效"@,
                );
                t.sent(t.order(staging::wire(head.pieces), Some(head.id)))
            } else {
                let t = s.telling(s.transcript.marked(head.cells, false)).started().noted(
                    s.tr("sending queued followup"@, "正在发送排队消息"@),
                );
                t.sent(t.order(staging::wire(head.pieces), None))
            }
        }
    }
}

impl App {
    fn queue_items(&self) -> (r: Vec<PickerItem>)
        ensures
            picker::rows(r@) == self@.queue_rows(),
    {
        let mut items: Vec<PickerItem> = Vec::new();
        let ghost all = self@.queue_rows();
        let mut i: usize = 0;
        assert(picker::rows(items@) == all.take(0));
        while i < self.queue.prompt_queue.len()
            invariant
                i <= self.queue.prompt_queue.len(),
                all == self@.queue_rows(),
                picker::rows(items@) == all.take(i as int),
            decreases self.queue.prompt_queue.len() - i,
        {
            let p = &self.queue.prompt_queue[i];
            assert(self@.queue.waiting[i as int] == p@);
            let id = number(p.id);
            let armed = opt_is(&self.queue.queue_delete_armed, id.as_str());
            let editing = match self.queue.queue_edit {
                Some(e) => e.prompt_id == p.id,
                None => false,
            };
            let state = if armed {
                self.locale.tr("ctrl+d deletes", "再按 ctrl+d 删除")
            } else if editing {
                self.locale.tr("editing", "编辑中")
            } else {
                self.locale.tr("queued", "排队中")
            };
            let n = wide_number(i as u128 + 1);
            let item = PickerItem {
                id,
                label: queue_prompt_summary(&p.blocks),
                meta: text::cat4("#", n.as_str(), " · ", state),
                provider: None,
            };
            let ghost before = picker::rows(items@);
            assert(item@ == all[i as int]);
            items.push(item);
            assert(picker::rows(items@) == before.push(all[i as int]));
            assert(all.take(i + 1) == all.take(i as int).push(all[i as int]));
            i += 1;
        }
        assert(all.take(all.len() as int) == all);
        items
    }

    /// The list of the queue.
    pub fn queue_picker(&self, sel: Option<usize>) -> (r: Option<Picker>)
        ensures
            picker::view_choice(r) == self@.queue_list(sel),
    {
        reveal(Scene::queue_list);
        let items = self.queue_items();
        assert(picker::rows(items@).len() == items@.len());
        if items.len() == 0 {
            return None;
        }
        let last: usize = items.len() - 1;
        let at: usize = match sel {
            Some(s) => if s <= last {
                s
            } else {
                last
            },
            None => match self.queue.queue_edit {
                Some(e) => {
                    let id = number(e.prompt_id);
                    find_row_or_first(&items, id.as_str())
                },
                None => 0,
            },
        };
        let title = String::from_str(
            self.locale.tr(
                " queued prompts · ↑/↓ · enter edit · ctrl+d delete · esc close ",
                " 排队消息 · ↑/↓ · enter 编辑 · ctrl+d 删除 · esc 关闭 ",
            ),
        );
        Some(Picker { kind: PickerKind::Queue, title, sel: at, items })
    }

    /// Bring the open list of the queue up to date.
    pub fn refresh_queue_picker(&mut self)
        ensures
            final(self)@ == old(self)@.queue_list_refreshed(),
    {
        reveal(Scene::queue_list_refreshed);
        let sel: usize = match &self.panels.picker {
            Some(p) => if p.kind == PickerKind::Queue {
                p.sel
            } else {
                return;
            },
            None => {
                return;
            },
        };
        let list = self.queue_picker(Some(sel));
        self.set_picker(list);
        let gone = match &self.queue.queue_delete_armed {
            Some(id) => self.queue.position_named(id.as_str()).is_none(),
            None => false,
        };
        if gone {
            self.queue.queue_delete_armed = None;
        }
    }

    /// Open the list of the queue.
    pub fn open_queue_selector(&mut self)
        ensures
            final(self)@ == old(self)@.queue_opened(),
    {
        reveal(Scene::queue_opened);
        if self.queue.prompt_queue.len() == 0 {
            self.tip_tr("no queued prompt to edit", "没有可编辑的排队消息");
            return;
        }
        if !self.draft.input.is_empty() || !self.draft.pending_images.is_empty() {
            self.tip_tr(
                "send or clear the current draft before editing the queue",
                "编辑队列前请先发送或清空当前草稿",
            );
            return;
        }
        self.queue.queue_delete_armed = None;
        let list = self.queue_picker(None);
        self.set_picker(list);
    }

    fn reload(&mut self, blocks: &Vec<StagedBlock>)
        ensures
            final(self)@ == old(self)@.reloaded(staging::pieces(blocks@), blocks@.len() as int),
    {
        let ghost p = staging::pieces(blocks@);
        self.draft.input.clear();
        let mut i: usize = 0;
        while i < blocks.len()
            invariant
                i <= blocks.len(),
                p == staging::pieces(blocks@),
                self@ == old(self)@.reloaded(p, i as int),
            decreases blocks.len() - i,
        {
            assert(p[i as int] == blocks@[i as int]@);
            match blocks[i].copy() {
                StagedBlock::Text(t) => {
                    self.draft.input.insert_str(t.as_str());
                },
                StagedBlock::Image(a) => {
                    let none = String::new();
                    assert(none@ == Seq::<char>::empty());
                    self.stage_image(a.name, a.path, a.media_type, a.data, none);
                },
            }
            i += 1;
        }
    }

    /// Take a queued prompt into the composer.
    pub fn begin_queue_edit(&mut self, id: &str)
        ensures
            final(self)@ == old(self)@.edit_begun(id@),
    {
        reveal(Scene::edit_begun);
        let index: usize = match self.queue.position_named(id) {
            Some(i) => i,
            None => {
                self.tip_tr("queued prompt already left the queue", "这条消息已离开队列");
                return;
            },
        };
        assert(self@.queue.waiting[index as int] == self.queue.prompt_queue@[index as int]@);
        let prompt_id: u64 = self.queue.prompt_queue[index].id;
        let blocks = copy_blocks(&self.queue.prompt_queue[index].blocks);
        self.reload(&blocks);
        self.queue.queue_edit = Some(QueueEditState { prompt_id, delete_confirm: false });
        self.reconcile_attachments();
        self.tip_tr(
            "editing queued prompt · enter save · ctrl+d delete · esc cancel",
            "编辑排队消息 · enter 保存 · ctrl+d 删除 · esc 取消",
        );
    }

    /// End the editing; the draft is dropped.
    pub fn finish_queue_edit(&mut self)
        ensures
            final(self)@ == old(self)@.edit_ended(),
    {
        reveal(Scene::edit_ended);
        self.queue.queue_edit = None;
        self.draft.input.clear();
        self.draft.pending_images.clear();
        self.reconcile_attachments();
    }

    /// Take echoes out of the timeline.
    pub fn withdraw_prompt_echo(&mut self, cells: &Vec<usize>)
        ensures
            final(self)@ == old(self)@.withdrawn(cells@),
    {
        reveal(Scene::withdrawn);
        let map = self.transcript.remove_cells(cells);
        self.queue.remap(&map);
        self.chat.prompt_jump_cell = match self.chat.prompt_jump_cell {
            Some(c) => if c < map.len() {
                map[c]
            } else {
                None
            },
            None => None,
        };
        self.chat.prompt_flash = None;
        self.chat.prompt_flash_lines = None;
        self.chat.sel = None;
    }

    fn send_next_if_idle(&mut self)
        ensures
            final(self)@ == old(self)@.next_sent_if_idle(),
    {
        if self.session.state == RunState::Idle {
            self.dispatch_next_queued();
        }
    }

    /// Delete a queued prompt.
    pub fn drop_queued_prompt(&mut self, index: usize)
        requires
            index < old(self)@.queue.waiting.len(),
        ensures
            final(self)@ == old(self)@.dropped(index as int),
    {
        reveal(Scene::dropped);
        let prompt = self.queue.remove_at(index);
        self.withdraw_prompt_echo(&prompt.cells);
        let n = wide_number(index as u128 + 1);
        let t = cat3(
            self.locale.tr("queued prompt #", "排队消息 #"),
            n.as_str(),
            self.locale.tr(" deleted", " 已删除"),
        );
        self.show_tip(t);
        self.send_next_if_idle();
    }

    /// Delete what is being edited, on the second asking.
    pub fn delete_queue_edit(&mut self)
        ensures
            final(self)@ == old(self)@.edit_deleted(),
    {
        reveal(Scene::edit_deleted);
        reveal(Scene::edit_ended);
        reveal(Scene::tray_settled);
        let edit = match self.queue.queue_edit {
            Some(e) => e,
            None => {
                return;
            },
        };
        if !edit.delete_confirm {
            self.queue.queue_edit = Some(
                QueueEditState { prompt_id: edit.prompt_id, delete_confirm: true },
            );
            self.tip_tr(
                "ctrl+d again deletes this queued prompt · esc cancels",
                "再按一次 ctrl+d 删除这条排队消息 · esc 取消",
            );
            return;
        }
        match self.queue.position(edit.prompt_id) {
            None => self.finish_queue_edit(),
            Some(index) => {
                self.finish_queue_edit();
                self.drop_queued_prompt(index);
            },
        }
    }

    fn put_edit(&mut self, prompt_id: u64, blocks: Vec<StagedBlock>)
        ensures
            final(self)@ == old(self)@.edit_put(prompt_id, staging::pieces(blocks@)),
    {
        reveal(Scene::edit_put);
        let index: usize = match self.queue.position(prompt_id) {
            Some(i) => i,
            None => {
                self.finish_queue_edit();
                self.tip_tr("queued prompt already left the queue", "这条消息已离开队列");
                return;
            },
        };
        self.queue.set_blocks(index, blocks);
        self.finish_queue_edit();
        let n = wide_number(index as u128 + 1);
        let t = cat3(
            self.locale.tr("queued prompt #", "排队消息 #"),
            n.as_str(),
            self.locale.tr(" updated", " 已更新"),
        );
        self.show_tip(t);
        self.send_next_if_idle();
    }

    /// Save the edited draft in the queued prompt's place.
    pub fn save_queue_edit(&mut self)
        ensures
            final(self)@ == old(self)@.edit_saved(),
    {
        reveal(Scene::edit_saved);
        let edit = match self.queue.queue_edit {
            Some(e) => e,
            None => {
                return;
            },
        };
        if edit.delete_confirm {
            self.delete_queue_edit();
            return;
        }
        if !self.draft.pending_images.is_empty() {
            let blocks = self.take_staged_blocks();
            self.put_edit(edit.prompt_id, blocks);
            return;
        }
        let raw = trimmed(self.draft.input.buf().as_str());
        if raw.as_str().is_empty() {
            self.tip_tr(
                "queued prompt cannot be empty · ctrl+d deletes it",
                "排队消息不能为空 · ctrl+d 可删除",
            );
            return;
        }
        let ghost words = raw@;
        let mut blocks: Vec<StagedBlock> = Vec::new();
        blocks.push(StagedBlock::Text(raw));
        assert(staging::pieces(blocks@) == seq![Piece::Text(words)]);
        self.put_edit(edit.prompt_id, blocks);
    }

    /// Delete a row of the list, on the second asking.
    pub fn press_queue_delete(&mut self, id: &str)
        ensures
            final(self)@ == old(self)@.row_deleted(id@),
    {
        reveal(Scene::row_deleted);
        if !opt_is(&self.queue.queue_delete_armed, id) {
            self.queue.queue_delete_armed = Some(String::from_str(id));
            self.refresh_queue_picker();
            return;
        }
        self.queue.queue_delete_armed = None;
        if let Some(index) = self.queue.position_named(id) {
            self.drop_queued_prompt(index);
        }
        self.refresh_queue_picker();
    }

    /// Send the head of the queue ahead.
    pub fn send_queue_head_now(&mut self)
        ensures
            final(self)@ == old(self)@.head_sent(),
    {
        reveal(Scene::head_sent);
        if self.queue.queue_edit.is_some() {
            return;
        }
        let running = self.session.state == RunState::Running || self.session.prompt_pending;
        let prompt = match self.queue.pop_front() {
            Some(p) => p,
            None => {
                return;
            },
        };
        self.chat.scroll_up = 0;
        let wire = prompt_blocks_from_staged(&prompt.blocks);
        if running {
            let id: u64 = prompt.id;
            self.queue.steer(id, prompt.blocks, prompt.cells);
            self.tip_tr(
                "queue head sent now — lands at the next agent step",
                "队首已立即发送 —— 在下一步 Agent 处生效",
            );
            self.send_wire_prompt(wire, Some(id));
            return;
        }
        self.transcript.mark_prompt_delivered(&prompt.cells);
        self.session.prompt_pending = true;
        self.session.state = RunState::Starting;
        self.session.run_started = Some(self.host.now);
        self.session.state_note = String::from_str(
            self.locale.tr("sending queued followup", "正在发送排队消息"),
        );
        self.send_wire_prompt(wire, None);
    }
}

/// A queued prompt keeps its place, its number and its blocks while it is
/// edited, and when the editing is called off.
pub proof fn editing_leaves_the_queue(scene: Scene, id: Seq<char>, p: Seq<Piece>, n: int)
    ensures
        scene.edit_begun(id).queue.waiting == scene.queue.waiting,
        scene.edit_begun(id).queue.queued == scene.queue.queued,
        scene.edit_ended().queue.waiting == scene.queue.waiting,
        scene.edit_ended().queue.queued == scene.queue.queued,
        scene.reloaded(p, n).queue == scene.queue,
    decreases n,
{
    reveal(Scene::edit_ended);
    reveal(Scene::edit_begun);
    reveal(Scene::tray_settled);
    reloading_leaves_the_queue(scene, p, n);
    if let Some(i) = queue::index_named(scene.queue.waiting, id, 0) {
        let w = scene.queue.waiting[i];
        reloading_leaves_the_queue(scene, w.pieces, w.pieces.len() as int);
    }
}

proof fn reloading_leaves_the_queue(scene: Scene, p: Seq<Piece>, n: int)
    ensures
        scene.reloaded(p, n).queue == scene.queue,
    decreases n,
{
    reveal(Scene::image_staged);
    if n > 0 {
        reloading_leaves_the_queue(scene, p, n - 1);
    }
}

/// While a queued prompt is edited the queue holds: the end of a turn sends
/// nothing.
pub proof fn editing_holds_the_queue(scene: Scene)
    requires
        scene.queue.edit is Some,
    ensures
        scene.next_sent().queue == scene.queue,
        scene.next_sent().ctl == scene.ctl,
        scene.next_sent().transcript == scene.transcript,
{
    reveal(Scene::next_sent);
}

/// The end of a turn sends the head of the queue and nothing else, and what
/// waits behind it moves up in order.
pub proof fn turn_end_sends_the_head(scene: Scene)
    requires
        scene.session.switch is None,
        scene.queue.edit is None,
        scene.queue.waiting.len() > 0,
    ensures
        scene.next_sent().queue.waiting == scene.queue.waiting.skip(1),
        scene.next_sent().ctl == scene.ctl.with(
            crate::controller::Deed::Send(scene.order(staging::wire(scene.queue.waiting[0].pieces), None)),
        ),
{
    reveal(Scene::next_sent);
}

} // verus!
