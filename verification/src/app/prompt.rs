//! Sending: prompts to the session, prompts into the running turn, and the
//! queue of those that wait.

use vstd::prelude::*;
use vstd::string::*;
use crate::app::{App, Scene};
use crate::app::queue;
use crate::app::state;
use crate::app::state::{ChatState, Line, RunState, SessionState, Waiting};
use crate::attachments::copy_bytes;
use crate::bus;
use crate::bus::{Cmd, Order, PromptBlock};
use crate::input::area;
use crate::measure::wide_number;
use crate::staging;
use crate::staging::{count_images, prompt_blocks_from_staged, Piece, StagedBlock};
use crate::text;
use crate::text::{cat3, number, starts_with_char, trimmed};
use crate::transcript;
use crate::transcript::{Note, Timeline};

verus! {

/// The timeline with the first `n` pieces of a prompt echoed.
pub open spec fn echoed(t: Timeline, p: Seq<Piece>, queued: bool, n: int) -> Timeline
    decreases n,
{
    if n <= 0 {
        t
    } else {
        echoed(t, p, queued, n - 1).with(
            match p[n - 1] {
                Piece::Text(text) => Note::User { text, queued },
                Piece::Image(i) => Note::Image {
                    name: i.name,
                    caption: Seq::empty(),
                    path: i.path,
                    data: i.data,
                    queued,
                },
            },
        )
    }
}

/// The cells that the echo of `n` pieces takes up.
pub open spec fn echo_cells(t: Timeline, n: int) -> Seq<usize> {
    Seq::new(n as nat, |i: int| (t.cells.len() + i) as usize)
}

impl Scene {
    /// A turn is in flight, or one was handed over, or others wait already.
    pub open spec fn busy(self) -> bool {
        self.session.state == RunState::Running || self.session.pending || self.queue.waiting.len()
            > 0
    }

    pub open spec fn queueing(self, queue: Line) -> Scene {
        Scene { queue, ..self }
    }

    pub open spec fn chatting(self, chat: ChatState) -> Scene {
        Scene { chat, ..self }
    }

    pub open spec fn telling(self, transcript: Timeline) -> Scene {
        Scene { transcript, ..self }
    }

    /// The tail of the chat followed.
    pub open spec fn at_tail(self) -> Scene {
        self.chatting(ChatState { scroll_up: 0, ..self.chat })
    }

    /// A turn begun.
    pub open spec fn started(self) -> Scene {
        self.run(
            SessionState {
                pending: true,
                state: RunState::Starting,
                run_started: Some(self.host.now),
                ..self.session
            },
        )
    }

    pub open spec fn noted(self, note: Seq<char>) -> Scene {
        self.run(SessionState { note, ..self.session })
    }

    /// The command that hands a prompt over: a lone text as it is, anything
    /// else as blocks, and into the running turn where it has a number.
    pub open spec fn order(self, blocks: Seq<bus::Block>, steer: Option<u64>) -> Order {
        let session_id = self.session.id;
        if blocks.len() == 1 && blocks[0] is Text {
            match steer {
                Some(message_id) => Order::Steer { session_id, message_id, text: blocks[0]->Text_0 },
                None => Order::Prompt { session_id, text: blocks[0]->Text_0 },
            }
        } else {
            match steer {
                Some(message_id) => Order::SteerImages { session_id, message_id, blocks },
                None => Order::PromptImages { session_id, blocks },
            }
        }
    }

    pub open spec fn switch_remark(self) -> Scene {
        self.told_tr(
            "waiting for the session switch — your draft is kept"@,
            "正在等待会话切换，草稿已保留"@,
        )
    }

    /// Text sent as a prompt, or put in the queue behind a turn in flight.
    /// While a session switch is under way nothing is sent.
    #[verifier::opaque]
    pub open spec fn text_sent(self, text: Seq<char>) -> Scene {
        let busy = self.busy();
        let cell = self.transcript.cells.len() as usize;
        let s = self.telling(self.transcript.with(Note::User { text, queued: busy }));
        if self.session.switch is Some {
            self.switch_remark()
        } else if busy {
            let q = s.queueing(s.queue.enqueued(seq![Piece::Text(text)], seq![cell]));
            q.told(
                q.tr("queued ("@, "已排队（"@) + text::decimal(q.queue.queued as nat) + q.tr(
                    " waiting) — lands after this turn · ⌥↑ edits · ctrl+enter sends now"@,
                    " 条等待）—— 本轮结束后送出 · ⌥↑ 编辑 · ctrl+enter 立即发送"@,
                ),
            ).at_tail()
        } else {
            s.started().noted(s.tr("contacting runtime"@, "正在连接运行时"@)).at_tail().sent(
                Order::Prompt { session_id: s.session.id, text },
            )
        }
    }

    /// The head of the queue handed over, once the turn it waited behind has
    /// ended. Not while a session switch is under way, and not while one of
    /// the queue is being edited.
    #[verifier::opaque]
    pub open spec fn next_sent(self) -> Scene {
        if self.session.switch is Some {
            self
        } else if self.queue.edit is Some {
            self.noted(self.tr("queue paused for edit"@, "队列已暂停 · 正在编辑"@))
        } else if self.queue.waiting.len() == 0 {
            self
        } else {
            let head = self.queue.waiting[0];
            let s = self.queueing(self.queue.advanced()).telling(
                self.transcript.marked(head.cells, false),
            ).started().noted(
                self.tr("sending queued followup"@, "正在发送排队消息"@),
            ).at_tail();
            s.sent(s.order(staging::wire(head.pieces), None))
        }
    }

    /// The pieces of a prompt echoed, and the prompt put in the queue or
    /// handed over.
    #[verifier::opaque]
    pub open spec fn emitted(self, p: Seq<Piece>, queued: bool, steer: Option<u64>) -> Scene {
        let cells = echo_cells(self.transcript, p.len() as int);
        let s = self.telling(
            echoed(self.transcript, p, queued, p.len() as int),
        ).at_tail();
        if queued {
            s.queueing(s.queue.enqueued(p, cells))
        } else {
            let t = match steer {
                Some(id) => s.queueing(s.queue.steered(Waiting { id, pieces: p, cells })),
                None => s,
            };
            t.sent(t.order(staging::wire(p), steer))
        }
    }

    pub open spec fn sending_images(self, n: int) -> Seq<char> {
        if n == 1 {
            self.tr("sending image"@, "正在发送图片"@)
        } else {
            self.tr("sending "@, "正在发送 "@) + text::decimal(n as nat) + self.tr(
                " images"@,
                " 张图片"@,
            )
        }
    }

    /// A draft with images sent, or put in the queue.
    #[verifier::opaque]
    pub open spec fn staged_sent(self, p: Seq<Piece>) -> Scene {
        let n = staging::image_count(p);
        let busy = self.busy();
        if p.len() == 0 {
            self
        } else if busy {
            self.told(
                if n <= 1 {
                    self.tr("image queued ("@, "图片已排队（"@) + text::decimal(
                        (self.queue.queued + 1) as nat,
                    ) + self.tr(
                        " waiting) — lands after this turn"@,
                        " 条等待）—— 本轮结束后送出"@,
                    )
                } else {
                    self.tr(""@, "已排队 "@) + text::decimal(n as nat) + self.tr(
                        " images queued — land after this turn"@,
                        " 张图片 —— 本轮结束后送出"@,
                    )
                },
            ).emitted(p, true, None)
        } else {
            self.started().noted(
                if n <= 1 {
                    self.tr("sending image"@, "正在发送图片"@)
                } else {
                    self.sending_images(n)
                },
            ).emitted(p, false, None)
        }
    }

    /// The remark that commands take no images.
    pub open spec fn no_images_remark(self) -> Scene {
        self.told_tr(
            "send or delete the [image] chips first — /commands don't take images"@,
            "先发送或删除草稿里的 [image] 图片 —— / 命令不接收图片"@,
        )
    }

    /// The draft put in the history, and emptied.
    pub open spec fn draft_kept(self) -> Scene {
        let c = self.draft.input;
        self.typed(c.remembered(c.area.text).emptied())
    }

    /// A draft's pieces sent at once: into the running turn where there is
    /// one.
    #[verifier::opaque]
    pub open spec fn pieces_sent_now(self, p: Seq<Piece>) -> Scene {
        let busy = self.session.state == RunState::Running || self.session.pending
            || self.queue.queued > 0;
        let s = self.draft_kept();
        let n = staging::image_count(p);
        let id = s.queue.next_id;
        if n > 0 {
            if busy {
                let t = s.told_tr(
                    "steered with image — lands at the next agent step"@,
                    "已 steer（带图片）—— 在 Agent 下一步生效"@,
                );
                t.queueing(Line { next_id: queue::id_after(id), ..t.queue }).emitted(
                    p,
                    false,
                    Some(id),
                )
            } else {
                s.started().noted(s.sending_images(n)).emitted(p, false, None)
            }
        } else {
            match p[0] {
                Piece::Text(text) => {
                    let cell = s.transcript.cells.len() as usize;
                    let t = s.telling(s.transcript.with(Note::User { text, queued: false }));
                    let one = seq![bus::Block::Text(text)];
                    if busy {
                        let u = t.told_tr(
                            "steered — lands at the next agent step"@,
                            "已 steer —— 在 Agent 下一步生效"@,
                        ).at_tail();
                        let v = u.queueing(
                            (Line { next_id: queue::id_after(id), ..u.queue }).steered(
                                Waiting { id, pieces: seq![Piece::Text(text)], cells: seq![cell] },
                            ),
                        );
                        v.sent(v.order(one, Some(id)))
                    } else {
                        let u = t.started().at_tail();
                        u.sent(u.order(one, None))
                    }
                },
                Piece::Image(_) => s,
            }
        }
    }

    /// The draft sent at once. Nothing of a running turn is cancelled.
    #[verifier::opaque]
    pub open spec fn sent_now(self) -> Scene {
        let raw = text::trim(self.draft.input.area.text);
        if self.session.switch is Some {
            self.switch_remark()
        } else if self.draft.images.items.len() == 0 {
            if raw.len() == 0 {
                self
            } else {
                self.pieces_sent_now(seq![Piece::Text(raw)])
            }
        } else if text::leads(raw, '/') {
            self.no_images_remark()
        } else if self.staged_pieces().len() == 0 {
            self.tray_taken()
        } else {
            self.tray_taken().pieces_sent_now(self.staged_pieces())
        }
    }
}

impl App {
    /// Whether a prompt has to wait.
    pub fn turn_busy(&self) -> (r: bool)
        ensures
            r == self@.busy(),
    {
        self.session.state == RunState::Running || self.session.prompt_pending
            || self.queue.prompt_queue.len() > 0
    }

    /// Whether a session switch is under way, which is remarked on.
    pub fn waiting_for_session_switch(&mut self) -> (r: bool)
        ensures
            r == (old(self)@.session.switch is Some),
            final(self)@ == if r {
                old(self)@.switch_remark()
            } else {
                old(self)@
            },
    {
        if self.session.session_switch.is_none() {
            return false;
        }
        self.tip_tr(
            "waiting for the session switch — your draft is kept",
            "正在等待会话切换，草稿已保留",
        );
        true
    }

    fn start_turn(&mut self)
        ensures
            final(self)@ == old(self)@.started(),
    {
        self.session.prompt_pending = true;
        self.session.state = RunState::Starting;
        self.session.run_started = Some(self.host.now);
    }

    fn note(&mut self, en: &'static str, zh: &'static str)
        ensures
            final(self)@ == old(self)@.noted(old(self)@.tr(en@, zh@)),
    {
        self.session.state_note = String::from_str(self.locale.tr(en, zh));
    }

    /// Hand a prompt over.
    pub fn send_wire_prompt(&mut self, blocks: Vec<PromptBlock>, steer: Option<u64>)
        ensures
            final(self)@ == old(self)@.sent(old(self)@.order(bus::view_blocks(blocks@), steer)),
    {
        let session_id = self.session.session_id.clone();
        let mut lone: Option<String> = None;
        if blocks.len() == 1 {
            assert(bus::view_blocks(blocks@)[0] == blocks@[0]@);
            if let PromptBlock::Text(t) = &blocks[0] {
                lone = Some(t.clone());
            }
        }
        let cmd = match (steer, lone) {
            (Some(message_id), Some(text)) => Cmd::Steer { session_id, message_id, text },
            (Some(message_id), None) => Cmd::SteerImages { session_id, message_id, blocks },
            (None, Some(text)) => Cmd::Prompt { session_id, text },
            (None, None) => Cmd::PromptImages { session_id, blocks },
        };
        self.ctl.send(cmd);
    }

    /// Put a prompt in the queue.
    pub fn enqueue_prompt(&mut self, blocks: Vec<StagedBlock>, cells: Vec<usize>)
        ensures
            final(self)@ == old(self)@.queueing(
                old(self)@.queue.enqueued(staging::pieces(blocks@), cells@),
            ),
    {
        self.queue.enqueue(blocks, cells);
    }

    /// Send text as a prompt, or put it in the queue.
    pub fn send_agent_text(&mut self, text: String)
        ensures
            final(self)@ == old(self)@.text_sent(text@),
    {
        reveal(Scene::text_sent);
        if self.waiting_for_session_switch() {
            return;
        }
        let running = self.turn_busy();
        let cell: usize = self.transcript.cells.len();
        self.transcript.push_user(text.clone(), running);
        if running {
            let ghost t = text@;
            let mut blocks: Vec<StagedBlock> = Vec::new();
            blocks.push(StagedBlock::Text(text));
            assert(staging::pieces(blocks@) == seq![Piece::Text(t)]);
            let mut cells: Vec<usize> = Vec::new();
            cells.push(cell);
            assert(cells@ == seq![cell]);
            self.enqueue_prompt(blocks, cells);
            let n = number(self.queue.queued as u64);
            let t = cat3(
                self.locale.tr("queued (", "已排队（"),
                n.as_str(),
                self.locale.tr(
                    " waiting) — lands after this turn · ⌥↑ edits · ctrl+enter sends now",
                    " 条等待）—— 本轮结束后送出 · ⌥↑ 编辑 · ctrl+enter 立即发送",
                ),
            );
            self.show_tip(t);
            self.chat.scroll_up = 0;
            return;
        }
        self.start_turn();
        self.note("contacting runtime", "正在连接运行时");
        self.chat.scroll_up = 0;
        let session_id = self.session.session_id.clone();
        self.ctl.send(Cmd::Prompt { session_id, text });
    }

    /// Hand the head of the queue over.
    pub fn dispatch_next_queued(&mut self)
        ensures
            final(self)@ == old(self)@.next_sent(),
    {
        reveal(Scene::next_sent);
        if self.session.session_switch.is_some() {
            return;
        }
        if self.queue.queue_edit.is_some() {
            self.note("queue paused for edit", "队列已暂停 · 正在编辑");
            return;
        }
        let prompt = match self.queue.pop_front() {
            Some(p) => p,
            None => {
                return;
            },
        };
        self.transcript.mark_prompt_delivered(&prompt.cells);
        self.start_turn();
        self.note("sending queued followup", "正在发送排队消息");
        self.chat.scroll_up = 0;
        let wire = prompt_blocks_from_staged(&prompt.blocks);
        self.send_wire_prompt(wire, None);
    }

    fn echo(&mut self, staged: &Vec<StagedBlock>, queued: bool) -> (r: Vec<usize>)
        ensures
            final(self)@ == old(self)@.telling(
                echoed(
                    old(self)@.transcript,
                    staging::pieces(staged@),
                    queued,
                    staged@.len() as int,
                ),
            ),
            r@ == echo_cells(old(self)@.transcript, staged@.len() as int),
    {
        let ghost start = self@.transcript;
        let ghost p = staging::pieces(staged@);
        let mut cells: Vec<usize> = Vec::new();
        let mut i: usize = 0;
        assert(cells@ == echo_cells(start, 0));
        while i < staged.len()
            invariant
                i <= staged.len(),
                p == staging::pieces(staged@),
                start == old(self)@.transcript,
                self@ == old(self)@.telling(echoed(start, p, queued, i as int)),
                self@.transcript.cells.len() == start.cells.len() + i,
                cells@ == echo_cells(start, i as int),
            decreases staged.len() - i,
        {
            assert(p[i as int] == staged@[i as int]@);
            let at: usize = self.transcript.cells.len();
            cells.push(at);
            assert(cells@ == echo_cells(start, i + 1));
            match &staged[i] {
                StagedBlock::Text(t) => {
                    self.transcript.push_user(t.clone(), queued);
                },
                StagedBlock::Image(a) => {
                    let none = String::new();
                    assert(none@ == Seq::<char>::empty());
                    self.transcript.push_image(
                        a.name.clone(),
                        none,
                        a.path.clone(),
                        copy_bytes(&a.data),
                        queued,
                    );
                },
            }
            i += 1;
        }
        cells
    }

    /// Echo a prompt's pieces, and put it in the queue or hand it over.
    pub fn emit_staged_prompt(
        &mut self,
        staged: Vec<StagedBlock>,
        queued: bool,
        steer_message_id: Option<u64>,
    )
        ensures
            final(self)@ == old(self)@.emitted(
                staging::pieces(staged@),
                queued,
                steer_message_id,
            ),
    {
        reveal(Scene::emitted);
        let cells = self.echo(&staged, queued);
        self.chat.scroll_up = 0;
        if queued {
            self.enqueue_prompt(staged, cells);
            return;
        }
        let wire = prompt_blocks_from_staged(&staged);
        if let Some(id) = steer_message_id {
            self.queue.steer(id, staged, cells);
        }
        self.send_wire_prompt(wire, steer_message_id);
    }

    fn sending_images(&self, n: usize) -> (r: String)
        ensures
            r@ == self@.sending_images(n as int),
    {
        if n == 1 {
            String::from_str(self.locale.tr("sending image", "正在发送图片"))
        } else {
            let digits = number(n as u64);
            cat3(
                self.locale.tr("sending ", "正在发送 "),
                digits.as_str(),
                self.locale.tr(" images", " 张图片"),
            )
        }
    }

    /// Send a draft with images, or put it in the queue.
    pub fn send_staged(&mut self, staged: Vec<StagedBlock>)
        ensures
            final(self)@ == old(self)@.staged_sent(staging::pieces(staged@)),
    {
        reveal(Scene::staged_sent);
        if staged.len() == 0 {
            return;
        }
        let n = count_images(&staged);
        let running = self.turn_busy();
        if running {
            let t = if n <= 1 {
                let digits = wide_number(self.queue.queued as u128 + 1);
                cat3(
                    self.locale.tr("image queued (", "图片已排队（"),
                    digits.as_str(),
                    self.locale.tr(
                        " waiting) — lands after this turn",
                        " 条等待）—— 本轮结束后送出",
                    ),
                )
            } else {
                let digits = number(n as u64);
                cat3(
                    self.locale.tr("", "已排队 "),
                    digits.as_str(),
                    self.locale.tr(
                        " images queued — land after this turn",
                        " 张图片 —— 本轮结束后送出",
                    ),
                )
            };
            self.show_tip(t);
        } else {
            self.start_turn();
            let note = if n <= 1 {
                String::from_str(self.locale.tr("sending image", "正在发送图片"))
            } else {
                self.sending_images(n)
            };
            self.session.state_note = note;
        }
        self.emit_staged_prompt(staged, running, None);
    }

    /// Put the draft in the history, and empty it.
    pub fn keep_draft(&mut self)
        ensures
            final(self)@ == old(self)@.draft_kept(),
    {
        let line = self.draft.input.buf();
        let ghost before = self.draft.input@.history;
        self.draft.input.history.push(line);
        assert(text::views(self.draft.input.history@) == before.push(line@));
        assert(self.draft.input@ == old(self)@.draft.input.remembered(line@));
        self.draft.input.clear();
    }

    fn send_images_now(&mut self, staged: Vec<StagedBlock>, n: usize, running: bool)
        requires
            n == staging::image_count(staging::pieces(staged@)),
            n > 0,
            running == (old(self)@.session.state == RunState::Running || old(self)@.session.pending
                || old(self)@.queue.queued > 0),
        ensures
            final(self)@ == ({
                let s = old(self)@;
                let p = staging::pieces(staged@);
                let id = s.queue.next_id;
                if running {
                    let t = s.told_tr(
                        "steered with image — lands at the next agent step"@,
                        "已 steer（带图片）—— 在 Agent 下一步生效"@,
                    );
                    t.queueing(Line { next_id: queue::id_after(id), ..t.queue }).emitted(
                        p,
                        false,
                        Some(id),
                    )
                } else {
                    s.started().noted(s.sending_images(n as int)).emitted(p, false, None)
                }
            }),
    {
        if running {
            self.tip_tr(
                "steered with image — lands at the next agent step",
                "已 steer（带图片）—— 在 Agent 下一步生效",
            );
            let id = self.queue.take_id();
            self.emit_staged_prompt(staged, false, Some(id));
        } else {
            self.start_turn();
            let note = self.sending_images(n);
            self.session.state_note = note;
            self.emit_staged_prompt(staged, false, None);
        }
    }

    fn send_text_now(&mut self, text: String, running: bool)
        ensures
            final(self)@ == ({
                let s = old(self)@;
                let id = s.queue.next_id;
                let cell = s.transcript.cells.len() as usize;
                let t = s.telling(
                    s.transcript.with(Note::User { text: text@, queued: false }),
                );
                let one = seq![bus::Block::Text(text@)];
                if running {
                    let u = t.told_tr(
                        "steered — lands at the next agent step"@,
                        "已 steer —— 在 Agent 下一步生效"@,
                    ).at_tail();
                    let v = u.queueing(
                        (Line { next_id: queue::id_after(id), ..u.queue }).steered(
                            Waiting {
                                id,
                                pieces: seq![Piece::Text(text@)],
                                cells: seq![cell],
                            },
                        ),
                    );
                    v.sent(v.order(one, Some(id)))
                } else {
                    let u = t.started().at_tail();
                    u.sent(u.order(one, None))
                }
            }),
    {
        let ghost words = text@;
        let cell: usize = self.transcript.cells.len();
        self.transcript.push_user(text.clone(), false);
        if running {
            self.tip_tr(
                "steered — lands at the next agent step",
                "已 steer —— 在 Agent 下一步生效",
            );
        } else {
            self.start_turn();
        }
        self.chat.scroll_up = 0;
        let mut message_id: Option<u64> = None;
        if running {
            let id = self.queue.take_id();
            let mut blocks: Vec<StagedBlock> = Vec::new();
            blocks.push(StagedBlock::Text(text.clone()));
            assert(staging::pieces(blocks@) == seq![Piece::Text(words)]);
            let mut cells: Vec<usize> = Vec::new();
            cells.push(cell);
            assert(cells@ == seq![cell]);
            self.queue.steer(id, blocks, cells);
            message_id = Some(id);
        }
        let mut wire: Vec<PromptBlock> = Vec::new();
        wire.push(PromptBlock::Text(text));
        assert(bus::view_blocks(wire@) == seq![bus::Block::Text(words)]);
        self.send_wire_prompt(wire, message_id);
    }

    fn send_pieces_now(&mut self, staged: Vec<StagedBlock>)
        requires
            staged@.len() > 0,
        ensures
            final(self)@ == old(self)@.pieces_sent_now(staging::pieces(staged@)),
    {
        reveal(Scene::pieces_sent_now);
        let running = self.session.state == RunState::Running || self.session.prompt_pending
            || self.queue.queued > 0;
        self.keep_draft();
        let n = count_images(&staged);
        if n > 0 {
            self.send_images_now(staged, n, running);
            return;
        }
        assert(staging::pieces(staged@)[0] == staged@[0]@);
        let text = match &staged[0] {
            StagedBlock::Text(t) => t.clone(),
            StagedBlock::Image(_) => {
                return;
            },
        };
        self.send_text_now(text, running);
    }

    /// Send the draft at once, into the running turn where there is one.
    pub fn send_now(&mut self)
        ensures
            final(self)@ == old(self)@.sent_now(),
    {
        reveal(Scene::sent_now);
        if self.waiting_for_session_switch() {
            return;
        }
        let raw = trimmed(self.draft.input.buf().as_str());
        if self.draft.pending_images.is_empty() {
            if raw.as_str().is_empty() {
                return;
            }
            let ghost words = raw@;
            let mut staged: Vec<StagedBlock> = Vec::new();
            staged.push(StagedBlock::Text(raw));
            assert(staging::pieces(staged@) == seq![Piece::Text(words)]);
            self.send_pieces_now(staged);
            return;
        }
        if starts_with_char(raw.as_str(), '/') {
            self.tip_tr(
                "send or delete the [image] chips first — /commands don't take images",
                "先发送或删除草稿里的 [image] 图片 —— / 命令不接收图片",
            );
            return;
        }
        let staged = self.take_staged_blocks();
        if staged.len() == 0 {
            return;
        }
        self.send_pieces_now(staged);
    }
}

} // verus!
