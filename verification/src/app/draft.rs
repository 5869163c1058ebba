//! The draft: its history, the images staged in it, the `@` menu over it, and
//! what the mouse selects in it.

use vstd::prelude::*;
use vstd::string::*;
use crate::app::{App, Scene};
use crate::app::state::DraftState;
use crate::attachments;
use crate::attachments::Tray;
use crate::controller::{Deed, Effect};
use crate::file_ref;
use crate::file_ref::{
    active_at_token, replace_span, token_tag, AtToken, FileEntry, FileMenu, Menu, QueryWalk, Token,
};
use crate::input::area;
use crate::input::composer;
use crate::input::composer::Composer;
use crate::input::layout;
use crate::input::layout::char_columns;
use crate::input::vim::VimMode;
use crate::path;
use crate::path::FilePath;
use crate::selection::Rect;
use crate::staging;
use crate::staging::{split_draft_into_staged_blocks, token_spans_in, Piece, Span, StagedBlock};
use crate::text;
use crate::text::{cat, chars, is_blank, is_space, number, opt_is};

verus! {

/// The first span from `i` on that a position lies in, its end counted in or
/// not.
pub open spec fn span_at(sp: Seq<Span>, at: int, end_too: bool, i: int) -> Option<Span>
    decreases sp.len() - i,
{
    if 0 <= i < sp.len() {
        if sp[i].start <= at && (at < sp[i].end || (end_too && at == sp[i].end)) {
            Some(sp[i])
        } else {
            span_at(sp, at, end_too, i + 1)
        }
    } else {
        None
    }
}

fn find_span(sp: &Vec<(usize, usize, usize)>, at: usize, end_too: bool) -> (r: Option<
    (usize, usize, usize),
>)
    ensures
        match r {
            Some(s) => span_at(staging::view_spans(sp@), at as int, end_too, 0) == Some(
                staging::span_of(s),
            ) && sp@.contains(s),
            None => span_at(staging::view_spans(sp@), at as int, end_too, 0) is None,
        },
{
    let ghost all = staging::view_spans(sp@);
    let mut i: usize = 0;
    while i < sp.len()
        invariant
            i <= sp.len(),
            all == staging::view_spans(sp@),
            span_at(all, at as int, end_too, 0) == span_at(all, at as int, end_too, i as int),
        decreases sp.len() - i,
    {
        assert(all[i as int] == staging::span_of(sp@[i as int]));
        if sp[i].0 <= at && (at < sp[i].1 || (end_too && at == sp[i].1)) {
            assert(sp@.contains(sp@[i as int]));
            return Some(sp[i]);
        }
        i += 1;
    }
    None
}

/// The chip of those from `i` on that a cell lies in.
pub open spec fn chip_under(chips: Seq<(Rect, usize)>, col: u16, row: u16, i: int) -> Option<usize>
    decreases chips.len() - i,
{
    if 0 <= i < chips.len() {
        if chips[i].0.covers(col, row) {
            Some(chips[i].1)
        } else {
            chip_under(chips, col, row, i + 1)
        }
    } else {
        None
    }
}

/// The width of the composer's prompt sign and the space behind it.
pub open spec fn prompt_columns() -> int {
    layout::cap(layout::columns('❯') + layout::columns(' ')) % 65536
}

/// The draft after a step back in its history. The draft that was begun is
/// put by on the first step.
pub open spec fn recalled(c: Composer) -> Composer {
    let n = c.history.len() as int;
    let pos = match c.hist_pos {
        None => n - 1,
        Some(p) => if p == 0 {
            0
        } else {
            p - 1
        },
    };
    if 0 <= pos < n {
        (Composer {
            hist_pos: Some(pos as usize),
            stash: if c.hist_pos is None {
                c.area.text
            } else {
                c.stash
            },
            ..c
        }).replaced(c.history[pos])
    } else {
        c
    }
}

/// The draft after a step forward in its history; past the newest prompt it
/// is the draft that was put by.
pub open spec fn returned(c: Composer) -> Composer {
    match c.hist_pos {
        None => c,
        Some(pos) => if pos + 1 >= c.history.len() {
            (Composer { hist_pos: None, stash: Seq::empty(), ..c }).replaced(c.stash)
        } else {
            (Composer { hist_pos: Some((pos + 1) as usize), ..c }).replaced(c.history[pos + 1])
        },
    }
}

impl DraftState {
    pub open spec fn spans(self) -> Seq<Span> {
        staging::spans(
            self.input.area.text,
            self.images.items,
            self.images.items.len() as int,
        )
    }

    pub open spec fn typed(self, input: Composer) -> DraftState {
        DraftState { input, ..self }
    }

    /// The well's width, at least one.
    pub open spec fn avail(self) -> int {
        if self.wrap_width < 1 {
            1
        } else {
            self.wrap_width as int
        }
    }

    /// The row and column of the well's text that a cell of the screen lies
    /// on, or the nearest.
    pub open spec fn cell_at(self, col: u16, row: u16) -> (usize, usize) {
        let a = self.area;
        let down = crate::picker::lesser(
            crate::picker::less(row as int, a.y as int),
            crate::picker::less(a.height as int, 1),
        );
        let left = crate::picker::lesser(a.x + prompt_columns(), u16::MAX as int);
        let right = crate::picker::lesser(
            crate::picker::less(col as int, left),
            self.avail() - 1,
        );
        (layout::cap(down + self.input_top) as usize, right as usize)
    }

    /// The characters that the drag in the well covers, both of its ends
    /// included.
    pub open spec fn dragged(self) -> Option<(int, int)> {
        match self.input_sel {
            Some(sel) => {
                let (s, e) = sel.ends();
                let mirror = self.input.mirror(self.avail());
                let from = mirror.boundary_before(s.0 as int, s.1 as int);
                let to = mirror.boundary_after(e.0 as int, e.1 as int);
                if from < to {
                    Some((from, to))
                } else {
                    None
                }
            },
            None => None,
        }
    }

    /// The layout made for what a drag covers, where there is a drag.
    pub open spec fn measured(self) -> DraftState {
        if self.input_sel is Some {
            self.typed(self.input.mirrored(self.avail()))
        } else {
            self
        }
    }
}

impl Scene {
    pub open spec fn drafted(self, draft: DraftState) -> Scene {
        Scene { draft, ..self }
    }

    pub open spec fn typed(self, input: Composer) -> Scene {
        self.drafted(self.draft.typed(input))
    }

    /// The tray following the draft's tokens.
    #[verifier::opaque]
    pub open spec fn tray_settled(self) -> Scene {
        let images = self.draft.images.reconciled(self.draft.input.area.text);
        let s = self.drafted(DraftState { images, ..self.draft });
        if images.items.len() < self.draft.images.items.len() {
            s.drafted(DraftState { hover_att: None, ..s.draft }).redrawn()
        } else {
            s
        }
    }

    /// The token that deleting at the cursor would cut into.
    pub open spec fn token_in_the_way(self, cursor: int, backward: bool) -> Option<Span> {
        if backward && cursor == 0 {
            None
        } else {
            span_at(
                self.draft.spans(),
                if backward {
                    cursor - 1
                } else {
                    cursor
                },
                false,
                0,
            )
        }
    }

    /// A whole token deleted, and its image with it.
    #[verifier::opaque]
    pub open spec fn token_deleted(self, s: Span) -> Scene {
        let images = self.draft.images;
        self.drafted(
            DraftState {
                input: self.draft.input.cut_range(s.start, s.end),
                images: Tray { items: images.items.remove(s.idx), ..images },
                ..self.draft
            },
        ).told(self.tr("removed "@, "已移除 "@) + images.items[s.idx].name)
    }

    /// The image to preview: the one under the pointer, or the one whose
    /// token the cursor is in or right behind.
    pub open spec fn previewed_image(self) -> Option<usize> {
        match self.draft.hover_att {
            Some(i) => Some(i),
            None => match span_at(self.draft.spans(), self.draft.input.area.cursor, true, 0) {
                Some(s) => Some(s.idx as usize),
                None => None,
            },
        }
    }

    /// Whether a token at the cursor would run into the word before it.
    pub open spec fn crowded(self) -> bool {
        let a = self.draft.input.area;
        a.cursor > 0 && a.cursor <= a.text.len() && !text::space(a.text[a.cursor - 1])
    }

    /// An image staged: its token stands at the cursor, a space before it
    /// where it needs one. A caption becomes the draft. A full tray is
    /// remarked on.
    #[verifier::opaque]
    pub open spec fn image_staged(
        self,
        name: Seq<char>,
        path: Seq<char>,
        media_type: Seq<char>,
        data: Seq<u8>,
        caption: Seq<char>,
    ) -> Scene {
        let images = self.draft.images;
        if images.items.len() >= attachments::MAX_STAGED {
            self.told_tr(
                "attachment tray is full — send or remove an [image] chip first"@,
                "附件区已满 —— 先发送或删除一个 [image] 图片"@,
            )
        } else {
            let image = images.next(name, path, media_type, data);
            let input = self.draft.input;
            let base = if caption.len() > 0 {
                input.replaced(caption)
            } else {
                input
            };
            let ready = if caption.len() > 0 || self.crowded() {
                base.edited(base.area.inserted(seq![' ']))
            } else {
                base
            };
            self.drafted(
                DraftState {
                    input: ready.edited(ready.area.inserted(area::unreturned(image.token))),
                    images: images.staged(image),
                    input_sel: None,
                    ..self.draft
                },
            ).told_tr(
                "image staged — ⌫ deletes its chip · hover it to preview"@,
                "图片已暂存 —— ⌫ 删除它的筹码 · 悬停可预览"@,
            )
        }
    }

    /// The pieces of the draft, once the tray has followed it.
    pub open spec fn staged_pieces(self) -> Seq<Piece> {
        let s = self.tray_settled();
        staging::draft_pieces(s.draft.input.area.text, s.draft.images.items)
    }

    /// The tray emptied for sending.
    pub open spec fn tray_taken(self) -> Scene {
        let s = self.tray_settled();
        s.drafted(DraftState { images: s.draft.images.emptied(), ..s.draft })
    }

    // --- the `@` menu ---------------------------------------------------------

    pub open spec fn menued(self, file_menu: Option<Menu>) -> Scene {
        self.drafted(DraftState { file_menu, ..self.draft })
    }

    /// The row the cursor is on, and its column there.
    pub open spec fn cursor_cell(self) -> (int, int) {
        let a = self.draft.input.area;
        composer::locate(area::lines_of(a.text), a.cursor)
    }

    /// The `@` token the cursor is in.
    pub open spec fn cursor_token(self) -> Option<Token> {
        let (row, col) = self.cursor_cell();
        file_ref::active(area::lines_of(self.draft.input.area.text)[row], col)
    }

    /// The open menu kept in step with its token.
    #[verifier::opaque]
    pub open spec fn menu_followed(self, menu: Menu, row: int, token: Token) -> Scene {
        let m = if menu.row != row || menu.start != token.start || menu.end != token.end {
            menu.retokened(row, token)
        } else {
            menu
        };
        let s = self.menued(Some(Menu { applied_query: token.query, ..m }));
        if m.shows(token.query) {
            s
        } else {
            s.done(Deed::WalkMenu(file_ref::walk_of(m.base, token.query)))
        }
    }

    /// The menu in step with the draft: it opens on a new token, follows its
    /// token, and closes with it. It stays closed for a dismissed token, under
    /// the command menu, and while vim takes commands.
    #[verifier::opaque]
    pub open spec fn menu_refreshed(self) -> Scene {
        if self.draft.vim.mode == VimMode::Normal || self.menu().len() > 0 {
            self.menued(None)
        } else {
            match self.cursor_token() {
                None => self.drafted(
                    DraftState { file_menu: None, dismissed: None, ..self.draft },
                ),
                Some(token) => {
                    let row = self.cursor_cell().0;
                    match self.draft.file_menu {
                        Some(menu) => self.menu_followed(menu, row, token),
                        None => if self.draft.dismissed == Some(
                            file_ref::tag_of(token.quoted, token.query),
                        ) {
                            self
                        } else {
                            self.drafted(DraftState { dismissed: None, ..self.draft }).done(
                                Deed::OpenMenu { row, token },
                            )
                        },
                    }
                },
            }
        }
    }

    /// The menu opened on the workspace's listing, and the token's query left
    /// to be walked where it has one.
    #[verifier::opaque]
    pub open spec fn menu_opened(
        self,
        row: int,
        token: Token,
        files: Option<Seq<file_ref::Entry>>,
    ) -> Scene {
        match files {
            Some(files) => {
                let base = path::components(self.session.cfg.workspace);
                let m = Menu::opened(base, row, token, files);
                let s = self.menued(Some(Menu { applied_query: token.query, ..m }));
                if token.query.len() == 0 {
                    s
                } else {
                    s.done(Deed::WalkMenu(file_ref::walk_of(base, token.query)))
                }
            },
            None => self,
        }
    }

    /// The token replaced by the mention of the selected row, and the menu
    /// closed.
    #[verifier::opaque]
    pub open spec fn menu_settled(self) -> Scene {
        match self.draft.file_menu {
            Some(m) => match m.pick() {
                Some(mention) => self.typed(
                    file_ref::respelled(self.draft.input, m.row, m.start, m.end, mention),
                ).menued(None).tray_settled(),
                None => self,
            },
            None => self,
        }
    }

    /// The token replaced by the selected directory, with the menu following
    /// into it; a file is settled on.
    #[verifier::opaque]
    pub open spec fn menu_drilled(self) -> Scene {
        match self.draft.file_menu {
            Some(m) => if !(0 <= m.selected < m.files.len()) {
                self
            } else if !m.files[m.selected].is_dir {
                self.menu_settled()
            } else {
                match m.pick() {
                    Some(mention) => self.typed(
                        file_ref::respelled(self.draft.input, m.row, m.start, m.end, mention),
                    ).menu_refreshed(),
                    None => self,
                }
            },
            None => self,
        }
    }

    /// The menu closed, and kept closed for its token.
    #[verifier::opaque]
    pub open spec fn menu_dismissed(self) -> Scene {
        match self.draft.file_menu {
            Some(m) => self.drafted(
                DraftState {
                    file_menu: None,
                    dismissed: Some(file_ref::tag_of(m.quoted, m.applied_query)),
                    ..self.draft
                },
            ),
            None => self,
        }
    }

    /// The drag in the well ended: what it covers is copied, and a click, or
    /// white space alone, is no selection.
    #[verifier::opaque]
    pub open spec fn drag_ended(self) -> Scene {
        let d = self.draft;
        match d.input_sel {
            None => self.redrawn(),
            Some(sel) => {
                let none = DraftState { input_sel: None, ..d };
                if sel.anchor == sel.head {
                    self.drafted(none).redrawn()
                } else {
                    match d.dragged() {
                        None => self.drafted(
                            DraftState { input_sel: None, ..d.measured() },
                        ).redrawn(),
                        Some((a, b)) => {
                            let t = composer::between(d.input.area.text, a, b);
                            if text::blank(t) {
                                self.drafted(
                                    DraftState { input_sel: None, ..d.measured() },
                                ).redrawn()
                            } else {
                                self.drafted(d.measured()).redrawn().done(Deed::Copy(t))
                            }
                        },
                    }
                }
            },
        }
    }
}

fn chip_hit(chips: &Vec<(Rect, usize)>, col: u16, row: u16) -> (r: Option<usize>)
    ensures
        r == chip_under(chips@, col, row, 0),
{
    let mut i: usize = 0;
    while i < chips.len()
        invariant
            i <= chips.len(),
            chip_under(chips@, col, row, 0) == chip_under(chips@, col, row, i as int),
        decreases chips.len() - i,
    {
        if chips[i].0.contains(col, row) {
            return Some(chips[i].1);
        }
        i += 1;
    }
    None
}

impl App {
    /// Where the images' tokens stand in the draft, in reading order.
    pub fn token_spans(&self) -> (r: Vec<(usize, usize, usize)>)
        ensures
            staging::view_spans(r@) == self@.draft.spans(),
            forall|i: int|
                0 <= i < r@.len() ==> #[trigger] staging::span_ok(
                    r@[i],
                    self@.draft.input.area.text.len(),
                    self@.draft.images.items.len(),
                ),
    {
        let buf = self.draft.input.buf();
        token_spans_in(buf.as_str(), self.draft.pending_images.iter())
    }

    /// Drop the images whose token is no longer in the draft.
    pub fn reconcile_attachments(&mut self)
        ensures
            final(self)@ == old(self)@.tray_settled(),
    {
        reveal(Scene::tray_settled);
        let buf = self.draft.input.buf();
        if self.draft.pending_images.reconcile(buf.as_str()) > 0 {
            self.draft.hover_att = None;
            self.needs_redraw = true;
        }
    }

    /// Delete the whole token that deleting at the cursor would cut into.
    /// Tells whether there was one.
    pub fn delete_token_at(&mut self, cursor: usize, backward: bool) -> (r: bool)
        ensures
            match old(self)@.token_in_the_way(cursor as int, backward) {
                Some(s) => r && final(self)@ == old(self)@.token_deleted(s),
                None => !r && final(self)@ == old(self)@,
            },
    {
        reveal(Scene::token_deleted);
        if backward && cursor == 0 {
            return false;
        }
        let probe: usize = if backward {
            cursor - 1
        } else {
            cursor
        };
        let spans = self.token_spans();
        match find_span(&spans, probe, false) {
            None => false,
            Some((start, end, idx)) => {
                proof {
                    let k = choose|k: int|
                        0 <= k < spans@.len() && #[trigger] spans@[k] == (start, end, idx);
                    assert(staging::span_ok(
                        spans@[k],
                        self@.draft.input.area.text.len(),
                        self@.draft.images.items.len(),
                    ));
                }
                self.draft.input.delete_char_range(start, end);
                if let Some(att) = self.draft.pending_images.remove(idx) {
                    let t = cat(self.locale.tr("removed ", "已移除 "), att.name.as_str());
                    self.show_tip(t);
                }
                true
            },
        }
    }

    /// The image to preview.
    pub fn preview_att(&self) -> (r: Option<usize>)
        ensures
            r == self@.previewed_image(),
    {
        if let Some(idx) = self.draft.hover_att {
            return Some(idx);
        }
        let c = self.draft.input.cursor_char();
        let spans = self.token_spans();
        match find_span(&spans, c, true) {
            Some((_, _, idx)) => Some(idx),
            None => None,
        }
    }

    /// The image whose chip a cell of the screen lies in.
    pub fn chip_at(&self, col: u16, row: u16) -> (r: Option<usize>)
        ensures
            r == chip_under(self@.draft.att_chips, col, row, 0),
    {
        chip_hit(&self.draft.att_chips, col, row)
    }

    /// Stage an image at the cursor.
    pub fn stage_image(
        &mut self,
        name: String,
        path: String,
        media_type: String,
        data: Vec<u8>,
        caption: String,
    )
        ensures
            final(self)@ == old(self)@.image_staged(name@, path@, media_type@, data@, caption@),
    {
        reveal(Scene::image_staged);
        let locale = self.locale;
        let crowded = {
            let c: usize = self.draft.input.cursor_char();
            let v = chars(self.draft.input.buf().as_str());
            c > 0 && c <= v.len() && !is_space(v[c - 1])
        };
        let token = match self.draft.pending_images.add(locale, name, path, media_type, data) {
            Ok(a) => a.token.clone(),
            Err(full) => {
                let t = String::from_str(full);
                self.show_tip(t);
                return;
            },
        };
        if !caption.as_str().is_empty() {
            self.draft.input.set(caption);
            self.draft.input.insert_char(' ');
        } else if crowded {
            self.draft.input.insert_char(' ');
        }
        self.draft.input.insert_str(token.as_str());
        self.draft.input_sel = None;
        self.tip_tr(
            "image staged — ⌫ deletes its chip · hover it to preview",
            "图片已暂存 —— ⌫ 删除它的筹码 · 悬停可预览",
        );
    }

    /// Empty the tray and take the draft apart at its tokens.
    pub fn take_staged_blocks(&mut self) -> (r: Vec<StagedBlock>)
        ensures
            staging::pieces(r@) == old(self)@.staged_pieces(),
            final(self)@ == old(self)@.tray_taken(),
    {
        self.reconcile_attachments();
        let buf = self.draft.input.buf();
        let items = self.draft.pending_images.drain();
        split_draft_into_staged_blocks(buf.as_str(), &items)
    }

    // --- history ----------------------------------------------------------------

    /// Recall the prompt before, whatever the draft holds.
    pub fn history_prev_from_draft(&mut self)
        ensures
            final(self)@ == old(self)@.typed(recalled(old(self)@.draft.input)),
    {
        let n: usize = self.draft.input.history.len();
        if n == 0 {
            return;
        }
        let pos: usize = match self.draft.input.hist_pos {
            None => n - 1,
            Some(p) => if p == 0 {
                0
            } else {
                p - 1
            },
        };
        if pos >= n {
            return;
        }
        if self.draft.input.hist_pos.is_none() {
            self.draft.input.stash = self.draft.input.buf();
        }
        self.draft.input.hist_pos = Some(pos);
        let ghost mid = self.draft.input@;
        assert(mid.history[pos as int] == self.draft.input.history@[pos as int]@);
        let line = self.draft.input.history[pos].clone();
        self.draft.input.set(line);
    }

    /// Recall the prompt before, from an empty draft or while recalling.
    pub fn history_prev(&mut self)
        ensures
            final(self)@ == if old(self)@.draft.input.area.text.len() > 0
                && old(self)@.draft.input.hist_pos is None {
                old(self)@
            } else {
                old(self)@.typed(recalled(old(self)@.draft.input))
            },
    {
        if !self.draft.input.is_empty() && self.draft.input.hist_pos.is_none() {
            return;
        }
        self.history_prev_from_draft();
    }

    /// Back towards the newest prompt, and past it to the draft that was put
    /// by.
    pub fn history_next(&mut self)
        ensures
            final(self)@ == old(self)@.typed(returned(old(self)@.draft.input)),
    {
        let pos: usize = match self.draft.input.hist_pos {
            Some(p) => p,
            None => {
                return;
            },
        };
        let n: usize = self.draft.input.history.len();
        if pos >= n || pos + 1 >= n {
            self.draft.input.hist_pos = None;
            let mut stash = String::new();
            std::mem::swap(&mut stash, &mut self.draft.input.stash);
            assert(self.draft.input@.stash == Seq::<char>::empty());
            self.draft.input.set(stash);
        } else {
            self.draft.input.hist_pos = Some(pos + 1);
            assert(self.draft.input@.history[pos + 1] == self.draft.input.history@[pos + 1]@);
            let line = self.draft.input.history[pos + 1].clone();
            self.draft.input.set(line);
        }
    }

    // --- the `@` menu -----------------------------------------------------------

    fn follow_menu(&mut self, row: usize, token: &AtToken)
        requires
            old(self)@.draft.file_menu is Some,
        ensures
            final(self)@ == old(self)@.menu_followed(
                old(self)@.draft.file_menu->0,
                row as int,
                token@,
            ),
    {
        reveal(Scene::menu_followed);
        let mut taken: Option<FileMenu> = None;
        std::mem::swap(&mut taken, &mut self.draft.file_menu);
        if let Some(mut menu) = taken {
            if menu.row() != row || menu.start() != token.start || menu.end() != token.end {
                menu.retoken(row, token);
            }
            let walk = menu.apply_query(token.query.as_str());
            self.draft.file_menu = Some(menu);
            if let Some(w) = walk {
                self.ctl.push(Effect::WalkMenu(w));
            }
        }
    }

    /// Bring the `@` menu in step with the draft.
    pub fn refresh_file_menu(&mut self)
        ensures
            final(self)@ == old(self)@.menu_refreshed(),
    {
        reveal(Scene::menu_refreshed);
        if self.draft.vim.mode == VimMode::Normal {
            self.draft.file_menu = None;
            return;
        }
        if self.slash_completion_open() {
            self.draft.file_menu = None;
            return;
        }
        let at = self.draft.input.cursor_char();
        let (row, col) = self.draft.input.char_to_rowcol(at);
        let lines = self.draft.input.lines();
        assert(text::views(lines@)[row as int] == lines@[row as int]@);
        let token = match active_at_token(lines[row].as_str(), col) {
            Some(t) => t,
            None => {
                self.draft.file_menu = None;
                self.draft.file_menu_dismissed = None;
                return;
            },
        };
        if self.draft.file_menu.is_some() {
            self.follow_menu(row, &token);
        } else {
            let tag = token_tag(token.quoted, token.query.as_str());
            if opt_is(&self.draft.file_menu_dismissed, tag.as_str()) {
                return;
            }
            self.draft.file_menu_dismissed = None;
            self.ctl.push(Effect::OpenMenu { row, token });
        }
    }

    /// The workspace has been listed for the menu of a token; `None` where it
    /// could not be.
    pub fn file_menu_opened(
        &mut self,
        row: usize,
        token: &AtToken,
        files: Option<Vec<FileEntry>>,
    )
        ensures
            final(self)@ == old(self)@.menu_opened(
                row as int,
                token@,
                match files {
                    Some(f) => Some(file_ref::listing(f@)),
                    None => None,
                },
            ),
    {
        reveal(Scene::menu_opened);
        let base = FilePath::parse(self.session.cfg.workspace.as_str());
        if let Some(mut menu) = FileMenu::open(&base, row, token, files) {
            let walk = menu.apply_query(token.query.as_str());
            assert(token.query@.len() == 0 ==> token.query@ == Seq::<char>::empty());
            self.draft.file_menu = Some(menu);
            if let Some(w) = walk {
                self.ctl.push(Effect::WalkMenu(w));
            }
        }
    }

    /// The walk of a query has ended; `files` lists the directory it came to,
    /// where that could be listed. Where nothing listed fits, the directories
    /// in it are left to be looked in.
    pub fn file_menu_walked(&mut self, walk: &QueryWalk, files: Option<Vec<FileEntry>>)
        requires
            walk@.ok(),
        ensures
            match old(self)@.draft.file_menu {
                Some(m) => {
                    let listed = match files {
                        Some(f) => Some(file_ref::listing(f@)),
                        None => None,
                    };
                    let dirs = m.seeks(listed, walk@.filter());
                    &&& final(self)@.draft.file_menu matches Some(n)
                    &&& m.settles(walk@.cwd, listed, walk@.filter(), n)
                    &&& final(self)@ == if dirs.len() > 0 {
                        old(self)@.menued(Some(n)).done(Deed::SearchMenu { dirs })
                    } else {
                        old(self)@.menued(Some(n))
                    }
                },
                None => final(self)@ == old(self)@,
            },
    {
        let mut taken: Option<FileMenu> = None;
        std::mem::swap(&mut taken, &mut self.draft.file_menu);
        if let Some(mut menu) = taken {
            let dirs = menu.settle_query(walk, files);
            self.draft.file_menu = Some(menu);
            assert(file_ref::paths(dirs@).len() == dirs@.len());
            if dirs.len() > 0 {
                self.ctl.push(Effect::SearchMenu { dirs });
            }
        }
    }

    /// A directory has been looked in: whether the menu goes there.
    pub fn file_menu_followed(&mut self, cwd: FilePath, files: Vec<FileEntry>) -> (r: bool)
        ensures
            match old(self)@.draft.file_menu {
                Some(m) => {
                    let all = file_ref::listing(files@);
                    &&& r == (m.filter.len() > 0 && file_ref::fits(all, m.filter))
                    &&& if r {
                        &&& final(self)@.draft.file_menu matches Some(n)
                        &&& m.narrows(cwd@, all, m.filter, n)
                        &&& final(self)@ == old(self)@.menued(Some(n))
                    } else {
                        final(self)@ == old(self)@
                    }
                },
                None => !r && final(self)@ == old(self)@,
            },
    {
        let mut taken: Option<FileMenu> = None;
        std::mem::swap(&mut taken, &mut self.draft.file_menu);
        if let Some(mut menu) = taken {
            let gone = menu.follow(cwd, files);
            self.draft.file_menu = Some(menu);
            gone
        } else {
            false
        }
    }

    /// The browser has moved: what it shows now.
    pub fn file_menu_moved(&mut self, cwd: FilePath, files: Vec<FileEntry>, selected: usize)
        ensures
            final(self)@ == match old(self)@.draft.file_menu {
                Some(m) => old(self)@.menued(
                    Some(
                        Menu {
                            cwd: cwd@,
                            files: file_ref::listing(files@),
                            selected: selected as int,
                            ..m
                        },
                    ),
                ),
                None => old(self)@,
            },
    {
        let mut taken: Option<FileMenu> = None;
        std::mem::swap(&mut taken, &mut self.draft.file_menu);
        if let Some(mut menu) = taken {
            menu.show(cwd, files, selected);
            self.draft.file_menu = Some(menu);
        }
    }

    /// Settle on the selected row.
    pub fn file_menu_settle(&mut self)
        ensures
            final(self)@ == old(self)@.menu_settled(),
    {
        reveal(Scene::menu_settled);
        let (mention, row, start, end): (String, usize, usize, usize) = match &self.draft.file_menu {
            Some(menu) => match menu.current_mention() {
                Some(m) => (m, menu.row(), menu.start(), menu.end()),
                None => {
                    return;
                },
            },
            None => {
                return;
            },
        };
        replace_span(&mut self.draft.input, row, start, end, mention.as_str());
        self.draft.file_menu = None;
        self.reconcile_attachments();
    }

    /// Into the selected directory; a file is settled on.
    pub fn file_menu_drill(&mut self)
        ensures
            final(self)@ == old(self)@.menu_drilled(),
    {
        reveal(Scene::menu_drilled);
        let (mention, row, start, end): (String, usize, usize, usize) = match &self.draft.file_menu {
            Some(menu) => {
                if menu.selected >= menu.files.len() {
                    return;
                }
                assert(menu@.files[menu.selected as int] == menu.files@[menu.selected as int]@);
                if !menu.on_directory() {
                    self.file_menu_settle();
                    return;
                }
                match menu.current_mention() {
                    Some(m) => (m, menu.row(), menu.start(), menu.end()),
                    None => {
                        return;
                    },
                }
            },
            None => {
                return;
            },
        };
        replace_span(&mut self.draft.input, row, start, end, mention.as_str());
        self.refresh_file_menu();
    }

    /// Close the menu, and keep it closed until its token changes.
    pub fn dismiss_file_menu(&mut self)
        ensures
            final(self)@ == old(self)@.menu_dismissed(),
    {
        reveal(Scene::menu_dismissed);
        if let Some(menu) = &self.draft.file_menu {
            let tag = token_tag(menu.quoted(), menu.token_query());
            self.draft.file_menu_dismissed = Some(tag);
            self.draft.file_menu = None;
        }
    }

    // --- the mouse in the well --------------------------------------------------

    /// The well's width, at least one.
    pub fn input_avail(&self) -> (r: usize)
        ensures
            r == self@.draft.avail(),
    {
        if self.draft.wrap_width < 1 {
            1
        } else {
            self.draft.wrap_width
        }
    }

    /// Whether a cell of the screen lies in the well.
    pub fn input_hit(&self, col: u16, row: u16) -> (r: bool)
        ensures
            r == self@.draft.area.covers(col, row),
    {
        self.draft.area.contains(col, row)
    }

    /// The row and column of the well's text that a cell of the screen lies
    /// on, or the nearest.
    pub fn input_cell_at(&self, col: u16, row: u16) -> (r: (usize, usize))
        ensures
            r == self@.draft.cell_at(col, row),
    {
        let a = self.draft.area;
        let sign: usize = match char_columns('❯') {
            Some(w) => w,
            None => 0,
        };
        let blank: usize = match char_columns(' ') {
            Some(w) => w,
            None => 0,
        };
        let prompt: u16 = (sign.saturating_add(blank) % 65536) as u16;
        let down: u16 = row.saturating_sub(a.y);
        let last: u16 = a.height.saturating_sub(1);
        let rel_row: usize = (if down <= last {
            down
        } else {
            last
        }) as usize;
        let left: u16 = a.x.saturating_add(prompt);
        let over: usize = col.saturating_sub(left) as usize;
        let most: usize = self.input_avail() - 1;
        let rel_col: usize = if over <= most {
            over
        } else {
            most
        };
        (rel_row.saturating_add(self.draft.input_top), rel_col)
    }

    /// The characters that the drag in the well covers.
    pub fn input_selection_range(&mut self) -> (r: Option<(usize, usize)>)
        ensures
            final(self)@ == old(self)@.drafted(old(self)@.draft.measured()),
            match r {
                Some((a, b)) => old(self)@.draft.dragged() == Some((a as int, b as int)),
                None => old(self)@.draft.dragged() is None,
            },
    {
        let sel = match self.draft.input_sel {
            Some(s) => s,
            None => {
                return None;
            },
        };
        let (s, e) = sel.ordered();
        let avail = self.input_avail();
        let start: usize = self.draft.input.screen_to_char(avail, s.0, s.1);
        let end: usize = self.draft.input.screen_to_char_end(avail, e.0, e.1);
        if start < end {
            Some((start, end))
        } else {
            None
        }
    }

    /// Leave text to be copied.
    pub fn copy_text(&mut self, text: String)
        ensures
            final(self)@ == old(self)@.done(Deed::Copy(text@)),
    {
        self.ctl.push(Effect::Copy(text));
    }

    /// Text of `chars` characters has been copied, or could not be.
    pub fn copied(&mut self, count: usize, ok: bool)
        ensures
            final(self)@ == if ok {
                old(self)@.told(
                    old(self)@.tr("✓ copied "@, "✓ 已复制 "@) + text::decimal(count as nat)
                        + old(self)@.tr(
                        " chars — esc clears the highlight"@,
                        " 个字符 —— esc 清除高亮"@,
                    ),
                )
            } else {
                old(self)@.told_tr(
                    "copy failed — hold shift and drag for the terminal's native selection"@,
                    "复制失败 —— 按住 shift 拖动可用终端自带的选择"@,
                )
            },
    {
        if ok {
            let n = number(count as u64);
            let t = text::cat3(
                self.locale.tr("✓ copied ", "✓ 已复制 "),
                n.as_str(),
                self.locale.tr(
                    " chars — esc clears the highlight",
                    " 个字符 —— esc 清除高亮",
                ),
            );
            self.show_tip(t);
        } else {
            self.tip_tr(
                "copy failed — hold shift and drag for the terminal's native selection",
                "复制失败 —— 按住 shift 拖动可用终端自带的选择",
            );
        }
    }

    /// The drag in the well has ended.
    pub fn finish_input_selection(&mut self)
        ensures
            final(self)@ == old(self)@.drag_ended(),
    {
        reveal(Scene::drag_ended);
        self.needs_redraw = true;
        let sel = match self.draft.input_sel {
            Some(s) => s,
            None => {
                return;
            },
        };
        if sel.is_caret() {
            self.draft.input_sel = None;
            return;
        }
        match self.input_selection_range() {
            None => {
                self.draft.input_sel = None;
            },
            Some((a, b)) => {
                let t = self.draft.input.chars_between(a, b);
                if is_blank(t.as_str()) {
                    self.draft.input_sel = None;
                    return;
                }
                self.copy_text(t);
            },
        }
    }
}

/// The file menu never stands under the command menu, nor while vim takes
/// commands.
pub proof fn one_menu_at_a_time(scene: Scene)
    requires
        scene.menu().len() > 0 || scene.draft.vim.mode == VimMode::Normal,
    ensures
        scene.menu_refreshed().draft.file_menu is None,
        scene.menu_refreshed().ctl == scene.ctl,
{
    reveal(Scene::menu_refreshed);
}

} // verus!
