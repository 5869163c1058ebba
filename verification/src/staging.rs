//! A draft taken apart at its image tokens: the blocks a prompt is made of,
//! text and images in reading order.

use vstd::prelude::*;
use vstd::string::*;
use crate::attachments;
use crate::attachments::{Attachment, Image, Tray};
use crate::bus;
use crate::bus::{ImagePart, PromptBlock};
use crate::clipboard;
use crate::clipboard::base64;
use crate::text;
use crate::text::{cat3, chars, find, is_blank, lines, number, string_of, trimmed};
use crate::transcript;
use crate::transcript::clamp_str;

verus! {

/// A piece of a draft.
#[derive(Debug, Clone, PartialEq, Eq)]
pub enum StagedBlock {
    Text(String),
    Image(Attachment),
}

pub enum Piece {
    Text(Seq<char>),
    Image(Image),
}

impl View for StagedBlock {
    type V = Piece;

    open spec fn view(&self) -> Piece {
        match *self {
            StagedBlock::Text(t) => Piece::Text(t@),
            StagedBlock::Image(a) => Piece::Image(a@),
        }
    }
}

pub open spec fn pieces(blocks: Seq<StagedBlock>) -> Seq<Piece> {
    blocks.map_values(|b: StagedBlock| b@)
}

impl StagedBlock {
    pub fn copy(&self) -> (r: Self)
        ensures
            r@ == self@,
    {
        match self {
            StagedBlock::Text(t) => StagedBlock::Text(t.clone()),
            StagedBlock::Image(a) => StagedBlock::Image(a.copy()),
        }
    }
}

pub fn copy_blocks(blocks: &Vec<StagedBlock>) -> (r: Vec<StagedBlock>)
    ensures
        pieces(r@) == pieces(blocks@),
{
    let mut out: Vec<StagedBlock> = Vec::new();
    let mut i: usize = 0;
    let ghost all = pieces(blocks@);
    assert(pieces(out@) == all.take(0));
    while i < blocks.len()
        invariant
            i <= blocks.len(),
            all == pieces(blocks@),
            pieces(out@) == all.take(i as int),
        decreases blocks.len() - i,
    {
        let ghost before = pieces(out@);
        let b = blocks[i].copy();
        let ghost p = b@;
        out.push(b);
        assert(pieces(out@) == before.push(p));
        assert(all.take(i + 1) == all.take(i as int).push(all[i as int]));
        i += 1;
    }
    assert(all.take(all.len() as int) == all);
    out
}

// --- token spans ----------------------------------------------------------

/// Where an image's token stands in a draft: its first character, the one
/// past its last, and which image it is.
pub struct Span {
    pub start: int,
    pub end: int,
    pub idx: int,
}

/// Whether span `a` comes before span `b`: by start, then by end, then by
/// image.
pub open spec fn before(a: Span, b: Span) -> bool {
    a.start < b.start || (a.start == b.start && (a.end < b.end || (a.end == b.end && a.idx
        < b.idx)))
}

/// A sorted list of spans with one more in its place.
pub open spec fn placed(spans: Seq<Span>, x: Span) -> Seq<Span>
    decreases spans.len(),
{
    if spans.len() == 0 || before(spans.last(), x) {
        spans.push(x)
    } else {
        placed(spans.drop_last(), x).push(spans.last())
    }
}

/// The spans of the first `k` images whose tokens stand in the draft, in
/// reading order.
pub open spec fn spans(buf: Seq<char>, items: Seq<Image>, k: int) -> Seq<Span>
    decreases k,
{
    if k <= 0 {
        Seq::empty()
    } else {
        match text::place(buf, items[k - 1].token) {
            Some(start) => placed(
                spans(buf, items, k - 1),
                Span { start, end: start + items[k - 1].token.len(), idx: k - 1 },
            ),
            None => spans(buf, items, k - 1),
        }
    }
}

pub open spec fn span_of(s: (usize, usize, usize)) -> Span {
    Span { start: s.0 as int, end: s.1 as int, idx: s.2 as int }
}

pub open spec fn view_spans(v: Seq<(usize, usize, usize)>) -> Seq<Span> {
    v.map_values(|s: (usize, usize, usize)| span_of(s))
}

fn precedes(a: (usize, usize, usize), b: (usize, usize, usize)) -> (r: bool)
    ensures
        r == before(span_of(a), span_of(b)),
{
    a.0 < b.0 || (a.0 == b.0 && (a.1 < b.1 || (a.1 == b.1 && a.2 < b.2)))
}

fn place_span(v: &mut Vec<(usize, usize, usize)>, x: (usize, usize, usize))
    ensures
        view_spans(final(v)@) == placed(view_spans(old(v)@), span_of(x)),
{
    let n: usize = v.len();
    let mut i: usize = n;
    let ghost all = view_spans(v@);
    assert(all.take(n as int) == all);
    assert(all.skip(n as int) == Seq::<Span>::empty());
    assert(placed(all, span_of(x)) == placed(all, span_of(x)) + all.skip(n as int));
    while i > 0 && !precedes(v[i - 1], x)
        invariant
            i <= n == v.len(),
            v@ == old(v)@,
            all == view_spans(v@),
            placed(all, span_of(x)) == placed(all.take(i as int), span_of(x)) + all.skip(i as int),
        decreases i,
    {
        let ghost head = all.take(i as int);
        assert(head.last() == span_of(v@[i - 1]));
        assert(head.drop_last() == all.take(i - 1));
        assert(placed(head, span_of(x)) == placed(all.take(i - 1), span_of(x)).push(
            all[i - 1],
        ));
        assert(placed(all.take(i - 1), span_of(x)).push(all[i - 1]) + all.skip(i as int) == placed(
            all.take(i - 1),
            span_of(x),
        ) + all.skip(i - 1));
        i -= 1;
    }
    proof {
        let head = all.take(i as int);
        if i > 0 {
            assert(head.last() == span_of(v@[i - 1]));
        }
        assert(placed(head, span_of(x)) == head.push(span_of(x)));
    }
    v.insert(i, x);
    assert(view_spans(v@) == all.take(i as int).push(span_of(x)) + all.skip(i as int));
}

/// Where the images' tokens stand in a draft, in reading order.
pub fn token_spans_in(buf: &str, attachments: &Vec<Attachment>) -> (r: Vec<(usize, usize, usize)>)
    ensures
        view_spans(r@) == spans(
            buf@,
            attachments::images(attachments@),
            attachments@.len() as int,
        ),
        forall|i: int| 0 <= i < r@.len() ==> #[trigger] span_ok(r@[i], buf@.len(), attachments@.len()),
{
    let ghost items = attachments::images(attachments@);
    let mut out: Vec<(usize, usize, usize)> = Vec::new();
    let mut i: usize = 0;
    assert(view_spans(out@) == spans(buf@, items, 0));
    let total: usize = buf.unicode_len();
    while i < attachments.len()
        invariant
            i <= attachments.len(),
            total == buf@.len(),
            items == attachments::images(attachments@),
            view_spans(out@) == spans(buf@, items, i as int),
            forall|k: int|
                0 <= k < out@.len() ==> #[trigger] span_ok(
                    out@[k],
                    buf@.len(),
                    attachments@.len(),
                ),
        decreases attachments.len() - i,
    {
        let a = &attachments[i];
        assert(items[i as int] == a@);
        if let Some(start) = find(buf, a.token.as_str()) {
            proof {
                text::first_is_place(buf@, a.token@, start as int);
            }
            let n: usize = a.token.as_str().unicode_len();
            let ghost prior = out@;
            let x: (usize, usize, usize) = (start, start + n, i);
            place_span(&mut out, x);
            proof {
                placed_members(view_spans(prior), span_of(x));
                assert forall|k: int| 0 <= k < out@.len() implies #[trigger] span_ok(
                    out@[k],
                    buf@.len(),
                    attachments@.len(),
                ) by {
                    let s = view_spans(out@)[k];
                    assert(s == span_of(out@[k]));
                    if s != span_of(x) {
                        let j = choose|j: int|
                            0 <= j < prior.len() && #[trigger] view_spans(prior)[j] == s;
                        assert(span_ok(prior[j], buf@.len(), attachments@.len()));
                        assert(span_of(prior[j]) == s);
                    }
                }
            }
        }
        i += 1;
    }
    out
}

/// A span lies in the draft and names an image.
pub open spec fn span_ok(s: (usize, usize, usize), len: nat, count: nat) -> bool {
    s.0 <= s.1 <= len && s.2 < count
}

proof fn placed_members(spans: Seq<Span>, x: Span)
    ensures
        placed(spans, x).len() == spans.len() + 1,
        forall|k: int|
            0 <= k < placed(spans, x).len() ==> (#[trigger] placed(spans, x)[k]) == x || exists|
                j: int,
            |
                0 <= j < spans.len() && #[trigger] spans[j] == placed(spans, x)[k],
    decreases spans.len(),
{
    if spans.len() == 0 || before(spans.last(), x) {
        assert forall|k: int| 0 <= k < placed(spans, x).len() implies (#[trigger] placed(
            spans,
            x,
        )[k]) == x || exists|j: int| 0 <= j < spans.len() && #[trigger] spans[j] == placed(
            spans,
            x,
        )[k] by {
            if k < spans.len() {
                assert(spans[k] == placed(spans, x)[k]);
            }
        }
    } else {
        let init = spans.drop_last();
        placed_members(init, x);
        assert forall|k: int| 0 <= k < placed(spans, x).len() implies (#[trigger] placed(
            spans,
            x,
        )[k]) == x || exists|j: int| 0 <= j < spans.len() && #[trigger] spans[j] == placed(
            spans,
            x,
        )[k] by {
            if k < placed(init, x).len() {
                assert(placed(spans, x)[k] == placed(init, x)[k]);
                if placed(init, x)[k] != x {
                    let j = choose|j: int|
                        0 <= j < init.len() && #[trigger] init[j] == placed(init, x)[k];
                    assert(spans[j] == init[j]);
                }
            } else {
                assert(spans[spans.len() - 1] == placed(spans, x)[k]);
            }
        }
    }
}

/// Whether a list of spans is in reading order.
pub open spec fn in_order(spans: Seq<Span>) -> bool {
    forall|i: int, j: int| 0 <= i < j < spans.len() ==> before(#[trigger] spans[i], #[trigger] spans[j])
}

proof fn placed_is_in_order(spans: Seq<Span>, x: Span)
    requires
        in_order(spans),
        forall|i: int| 0 <= i < spans.len() ==> (#[trigger] spans[i]).idx != x.idx,
    ensures
        in_order(placed(spans, x)),
    decreases spans.len(),
{
    if spans.len() == 0 || before(spans.last(), x) {
        assert forall|i: int, j: int| 0 <= i < j < placed(spans, x).len() implies before(
            #[trigger] placed(spans, x)[i],
            #[trigger] placed(spans, x)[j],
        ) by {
            if j == spans.len() && i < spans.len() - 1 {
                assert(before(spans[i], spans[spans.len() - 1]));
            }
        }
    } else {
        let init = spans.drop_last();
        assert forall|i: int, j: int| 0 <= i < j < init.len() implies before(
            #[trigger] init[i],
            #[trigger] init[j],
        ) by {
            assert(before(spans[i], spans[j]));
        }
        assert forall|i: int| 0 <= i < init.len() implies (#[trigger] init[i]).idx != x.idx by {
            assert(spans[i].idx != x.idx);
        }
        placed_is_in_order(init, x);
        placed_members(init, x);
        let p = placed(init, x);
        assert forall|i: int, j: int| 0 <= i < j < p.push(spans.last()).len() implies before(
            #[trigger] p.push(spans.last())[i],
            #[trigger] p.push(spans.last())[j],
        ) by {
            if j == p.len() {
                assert(p.push(spans.last())[i] == p[i]);
                if p[i] != x {
                    let m = choose|m: int| 0 <= m < init.len() && #[trigger] init[m] == p[i];
                    assert(before(spans[m], spans[spans.len() - 1]));
                }
            } else {
                assert(p.push(spans.last())[i] == p[i]);
                assert(p.push(spans.last())[j] == p[j]);
            }
        }
    }
}

/// A span is that of an image.
pub proof fn span_indices(buf: Seq<char>, items: Seq<Image>, k: int)
    requires
        0 <= k <= items.len(),
    ensures
        forall|i: int|
            0 <= i < spans(buf, items, k).len() ==> 0 <= (#[trigger] spans(buf, items, k)[i]).idx
                < k,
    decreases k,
{
    if k > 0 {
        span_indices(buf, items, k - 1);
        let prior = spans(buf, items, k - 1);
        if let Some(start) = text::place(buf, items[k - 1].token) {
            let x = Span { start, end: start + items[k - 1].token.len(), idx: k - 1 };
            placed_members(prior, x);
            assert forall|i: int| 0 <= i < spans(buf, items, k).len() implies 0 <= (
            #[trigger] spans(buf, items, k)[i]).idx < k by {
                let s = spans(buf, items, k)[i];
                assert(s == placed(prior, x)[i]);
                if s != x {
                    let j = choose|j: int| 0 <= j < prior.len() && #[trigger] prior[j] == s;
                    assert(prior[j].idx < k - 1);
                }
            }
        }
    }
}

/// The tokens of a draft are found in reading order.
pub proof fn spans_are_in_order(buf: Seq<char>, items: Seq<Image>, k: int)
    requires
        0 <= k <= items.len(),
    ensures
        in_order(spans(buf, items, k)),
    decreases k,
{
    if k > 0 {
        spans_are_in_order(buf, items, k - 1);
        span_indices(buf, items, k - 1);
        if let Some(start) = text::place(buf, items[k - 1].token) {
            placed_is_in_order(
                spans(buf, items, k - 1),
                Span { start, end: start + items[k - 1].token.len(), idx: k - 1 },
            );
        }
    }
}

// --- blocks -----------------------------------------------------------------

/// The text before character `to`, as a piece, where there is any past `from`.
pub open spec fn text_before(out: Seq<Piece>, buf: Seq<char>, from: int, to: int) -> Seq<Piece> {
    if to > from {
        out.push(Piece::Text(buf.subrange(from, to)))
    } else {
        out
    }
}

/// Where the reading stands after `k` spans.
pub open spec fn read_to(sp: Seq<Span>, k: int) -> int {
    if k <= 0 {
        0
    } else {
        sp[k - 1].end
    }
}

/// The pieces up to the end of the `k`th span: each token's image, and the
/// text between the tokens.
pub open spec fn cut_pieces(buf: Seq<char>, items: Seq<Image>, sp: Seq<Span>, k: int) -> Seq<Piece>
    decreases k,
{
    if k <= 0 {
        Seq::empty()
    } else {
        text_before(
            cut_pieces(buf, items, sp, k - 1),
            buf,
            read_to(sp, k - 1),
            sp[k - 1].start,
        ).push(Piece::Image(items[sp[k - 1].idx]))
    }
}

/// The pieces of a draft before they are trimmed.
pub open spec fn raw_pieces(buf: Seq<char>, items: Seq<Image>) -> Seq<Piece> {
    let sp = spans(buf, items, items.len() as int);
    text_before(
        cut_pieces(buf, items, sp, sp.len() as int),
        buf,
        read_to(sp, sp.len() as int),
        buf.len() as int,
    )
}

pub open spec fn blank_piece(p: Piece) -> bool {
    match p {
        Piece::Text(t) => text::blank(t),
        Piece::Image(_) => false,
    }
}

pub open spec fn drop_leading(p: Seq<Piece>) -> Seq<Piece>
    decreases p.len(),
{
    if p.len() > 0 && blank_piece(p[0]) {
        drop_leading(p.skip(1))
    } else {
        p
    }
}

pub open spec fn drop_trailing(p: Seq<Piece>) -> Seq<Piece>
    decreases p.len(),
{
    if p.len() > 0 && blank_piece(p.last()) {
        drop_trailing(p.drop_last())
    } else {
        p
    }
}

pub open spec fn trimmed_piece(p: Piece) -> Piece {
    match p {
        Piece::Text(t) => Piece::Text(text::trim(t)),
        Piece::Image(_) => p,
    }
}

/// The pieces with the first and the last of them trimmed.
pub open spec fn trim_ends(p: Seq<Piece>) -> Seq<Piece> {
    if p.len() == 0 {
        p
    } else {
        let q = p.update(0, trimmed_piece(p[0]));
        q.update(q.len() - 1, trimmed_piece(q.last()))
    }
}

/// The pieces without empty text.
pub open spec fn solid(p: Seq<Piece>) -> Seq<Piece>
    decreases p.len(),
{
    if p.len() == 0 {
        p
    } else {
        match p.last() {
            Piece::Text(t) => if t.len() == 0 {
                solid(p.drop_last())
            } else {
                solid(p.drop_last()).push(p.last())
            },
            Piece::Image(_) => solid(p.drop_last()).push(p.last()),
        }
    }
}

/// The pieces without blank text at either end, trimmed there.
pub open spec fn trim_pieces(p: Seq<Piece>) -> Seq<Piece> {
    solid(trim_ends(drop_trailing(drop_leading(p))))
}

/// The pieces of a draft, text and images in reading order.
pub open spec fn draft_pieces(buf: Seq<char>, items: Seq<Image>) -> Seq<Piece> {
    trim_pieces(raw_pieces(buf, items))
}

fn is_blank_block(b: &StagedBlock) -> (r: bool)
    ensures
        r == blank_piece(b@),
{
    match b {
        StagedBlock::Text(t) => is_blank(t.as_str()),
        StagedBlock::Image(_) => false,
    }
}

fn trim_block(b: StagedBlock) -> (r: StagedBlock)
    ensures
        r@ == trimmed_piece(b@),
{
    match b {
        StagedBlock::Text(t) => StagedBlock::Text(trimmed(t.as_str())),
        other => other,
    }
}

/// Blank text dropped at both ends of a draft, and what is left there
/// trimmed.
pub fn trim_staged_blocks(blocks: &mut Vec<StagedBlock>)
    ensures
        pieces(final(blocks)@) == trim_pieces(pieces(old(blocks)@)),
{
    let ghost start = pieces(blocks@);
    while blocks.len() > 0 && is_blank_block(&blocks[0])
        invariant
            drop_leading(pieces(blocks@)) == drop_leading(start),
        decreases blocks.len(),
    {
        let ghost before = pieces(blocks@);
        assert(before[0] == blocks@[0]@);
        blocks.remove(0);
        assert(pieces(blocks@) == before.skip(1));
    }
    proof {
        if blocks@.len() > 0 {
            assert(pieces(blocks@)[0] == blocks@[0]@);
        }
    }
    assert(pieces(blocks@) == drop_leading(start));
    while blocks.len() > 0 && is_blank_block(&blocks[blocks.len() - 1])
        invariant
            drop_trailing(pieces(blocks@)) == drop_trailing(drop_leading(start)),
        decreases blocks.len(),
    {
        let ghost before = pieces(blocks@);
        assert(before.last() == blocks@.last()@);
        blocks.pop();
        assert(pieces(blocks@) == before.drop_last());
    }
    proof {
        if blocks@.len() > 0 {
            assert(pieces(blocks@).last() == blocks@.last()@);
        }
    }
    let ghost mid = pieces(blocks@);
    assert(mid == drop_trailing(drop_leading(start)));
    if blocks.len() > 0 {
        let first = trim_block(blocks.remove(0));
        let ghost p = first@;
        assert(pieces(blocks@) == mid.skip(1));
        blocks.insert(0, first);
        assert(pieces(blocks@) == mid.update(0, p));
        let ghost q = pieces(blocks@);
        match blocks.pop() {
            Some(last) => {
                let last = trim_block(last);
                let ghost l = last@;
                assert(pieces(blocks@) == q.drop_last());
                blocks.push(last);
                assert(pieces(blocks@) == q.update(q.len() - 1, l));
            },
            None => {},
        }
    }
    let ghost ends = pieces(blocks@);
    assert(ends == trim_ends(mid));
    drop_empty(blocks);
}

fn drop_empty(blocks: &mut Vec<StagedBlock>)
    ensures
        pieces(final(blocks)@) == solid(pieces(old(blocks)@)),
{
    let ghost all = pieces(blocks@);
    let n: usize = blocks.len();
    let mut i: usize = 0;
    let mut k: usize = 0;
    assert(all.take(0) == Seq::<Piece>::empty());
    assert(all.skip(0) == all);
    assert(Seq::<Piece>::empty() + all == all);
    while i < n
        invariant
            i <= n == all.len(),
            k <= i,
            solid(all.take(i as int)).len() == k,
            pieces(blocks@) == solid(all.take(i as int)) + all.skip(i as int),
        decreases n - i,
    {
        let ghost head = solid(all.take(i as int));
        let ghost now = pieces(blocks@);
        assert(now.len() == k + (n - i));
        assert(now.len() == blocks@.len());
        assert(now[k as int] == all[i as int]);
        assert(now[k as int] == blocks@[k as int]@);
        assert(all.take(i + 1).drop_last() == all.take(i as int));
        let empty = match &blocks[k] {
            StagedBlock::Text(t) => t.as_str().is_empty(),
            StagedBlock::Image(_) => false,
        };
        if empty {
            let ghost whole = blocks@;
            blocks.remove(k);
            assert(blocks@ == whole.remove(k as int));
            assert(pieces(blocks@) == now.remove(k as int));
            assert(now.remove(k as int) == head + all.skip(i + 1));
        } else {
            assert(now == head.push(all[i as int]) + all.skip(i + 1));
            k += 1;
        }
        i += 1;
    }
    assert(all.take(n as int) == all);
    assert(all.skip(n as int) == Seq::<Piece>::empty());
    assert(solid(all) + Seq::<Piece>::empty() == solid(all));
}

/// A draft taken apart at its image tokens, text and images in reading order.
pub fn split_draft_into_staged_blocks(buf: &str, attachments: &Vec<Attachment>) -> (r: Vec<
    StagedBlock,
>)
    ensures
        pieces(r@) == draft_pieces(buf@, attachments::images(attachments@)),
{
    let ghost items = attachments::images(attachments@);
    let found = token_spans_in(buf, attachments);
    let ghost sp = view_spans(found@);
    let v = chars(buf);
    let mut blocks: Vec<StagedBlock> = Vec::new();
    let mut at: usize = 0;
    let mut i: usize = 0;
    assert(pieces(blocks@) == cut_pieces(buf@, items, sp, 0));
    while i < found.len()
        invariant
            i <= found.len(),
            at <= v.len(),
            v@ == buf@,
            items == attachments::images(attachments@),
            sp == view_spans(found@),
            at == read_to(sp, i as int),
            forall|k: int|
                0 <= k < found@.len() ==> #[trigger] span_ok(
                    found@[k],
                    buf@.len(),
                    attachments@.len(),
                ),
            pieces(blocks@) == cut_pieces(buf@, items, sp, i as int),
        decreases found.len() - i,
    {
        let (start, end, idx): (usize, usize, usize) = found[i];
        assert(span_ok(found@[i as int], buf@.len(), attachments@.len()));
        assert(sp[i as int] == span_of(found@[i as int]));
        let ghost before = pieces(blocks@);
        if start > at {
            let t = string_of(&v, at, start);
            blocks.push(StagedBlock::Text(t));
            assert(pieces(blocks@) == before.push(
                Piece::Text(buf@.subrange(at as int, start as int)),
            ));
        }
        let ghost mid = pieces(blocks@);
        assert(mid == text_before(before, buf@, at as int, start as int));
        let image = StagedBlock::Image(attachments[idx].copy());
        let ghost p = image@;
        assert(p == Piece::Image(items[idx as int]));
        blocks.push(image);
        assert(pieces(blocks@) == mid.push(p));
        at = end;
        i += 1;
    }
    let ghost before = pieces(blocks@);
    if at < v.len() {
        let t = string_of(&v, at, v.len());
        blocks.push(StagedBlock::Text(t));
        assert(pieces(blocks@) == before.push(
            Piece::Text(buf@.subrange(at as int, v@.len() as int)),
        ));
    }
    assert(pieces(blocks@) == raw_pieces(buf@, items));
    trim_staged_blocks(&mut blocks);
    blocks
}

/// A draft without images is one piece, itself trimmed, or none where it is
/// blank.
pub proof fn plain_draft_is_one_piece(buf: Seq<char>)
    ensures
        draft_pieces(buf, Seq::empty()) == if text::blank(buf) {
            Seq::<Piece>::empty()
        } else {
            seq![Piece::Text(text::trim(buf))]
        },
{
    let none = Seq::<Image>::empty();
    let raw = raw_pieces(buf, none);
    assert(spans(buf, none, 0).len() == 0);
    reveal_with_fuel(drop_leading, 2);
    reveal_with_fuel(drop_trailing, 2);
    reveal_with_fuel(solid, 2);
    if buf.len() > 0 {
        assert(buf.subrange(0, buf.len() as int) == buf);
        assert(raw == seq![Piece::Text(buf)]);
        if text::blank(buf) {
            assert(raw.skip(1) == Seq::<Piece>::empty());
        } else {
            assert(drop_leading(raw) == raw);
            assert(drop_trailing(raw) == raw);
            text::trim_is_stable(buf);
            assert(trim_ends(raw) == seq![Piece::Text(text::trim(buf))]);
            assert(trim_ends(raw).drop_last() == Seq::<Piece>::empty());
            assert(solid(trim_ends(raw)) == seq![Piece::Text(text::trim(buf))]);
        }
    }
}

// --- the wire ---------------------------------------------------------------

pub open spec fn part(image: Image) -> bus::Part {
    bus::Part {
        data: clipboard::base64_of(image.data),
        media_type: image.media_type,
        name: image.name,
        path: image.path,
    }
}

pub open spec fn wire_block(p: Piece) -> bus::Block {
    match p {
        Piece::Text(t) => bus::Block::Text(t),
        Piece::Image(i) => bus::Block::Image(part(i)),
    }
}

/// The blocks of a prompt, in the order of its pieces.
pub open spec fn wire(p: Seq<Piece>) -> Seq<bus::Block> {
    p.map_values(|p: Piece| wire_block(p))
}

pub fn image_part_from(att: &Attachment) -> (r: ImagePart)
    ensures
        r@ == part(att@),
{
    ImagePart {
        data: base64(att.data.as_slice()),
        media_type: att.media_type.clone(),
        name: att.name.clone(),
        path: att.path.clone(),
    }
}

/// The blocks of a prompt, in the order of its pieces.
pub fn prompt_blocks_from_staged(staged: &Vec<StagedBlock>) -> (r: Vec<PromptBlock>)
    ensures
        bus::view_blocks(r@) == wire(pieces(staged@)),
{
    let mut out: Vec<PromptBlock> = Vec::new();
    let ghost all = wire(pieces(staged@));
    let mut i: usize = 0;
    assert(bus::view_blocks(out@) == all.take(0));
    while i < staged.len()
        invariant
            i <= staged.len(),
            all == wire(pieces(staged@)),
            bus::view_blocks(out@) == all.take(i as int),
        decreases staged.len() - i,
    {
        let ghost before = bus::view_blocks(out@);
        assert(pieces(staged@)[i as int] == staged@[i as int]@);
        let b = match &staged[i] {
            StagedBlock::Text(t) => PromptBlock::Text(t.clone()),
            StagedBlock::Image(a) => PromptBlock::Image(image_part_from(a)),
        };
        let ghost w = b@;
        out.push(b);
        assert(bus::view_blocks(out@) == before.push(w));
        assert(all.take(i + 1) == all.take(i as int).push(all[i as int]));
        i += 1;
    }
    assert(all.take(all.len() as int) == all);
    out
}

/// How many of the pieces are images.
pub open spec fn image_count(p: Seq<Piece>) -> int
    decreases p.len(),
{
    if p.len() == 0 {
        0
    } else {
        image_count(p.drop_last()) + (if p.last() is Image {
            1int
        } else {
            0int
        })
    }
}

pub fn count_images(blocks: &Vec<StagedBlock>) -> (r: usize)
    ensures
        r == image_count(pieces(blocks@)),
        r <= blocks@.len(),
{
    let ghost all = pieces(blocks@);
    let mut n: usize = 0;
    let mut i: usize = 0;
    assert(all.take(0) == Seq::<Piece>::empty());
    while i < blocks.len()
        invariant
            i <= blocks.len(),
            n <= i,
            all == pieces(blocks@),
            n == image_count(all.take(i as int)),
        decreases blocks.len() - i,
    {
        assert(all[i as int] == blocks@[i as int]@);
        assert(all.take(i + 1).drop_last() == all.take(i as int));
        if let StagedBlock::Image(_) = &blocks[i] {
            n += 1;
        }
        i += 1;
    }
    assert(all.take(all.len() as int) == all);
    n
}

// --- the label of a queued prompt -------------------------------------------

/// The text of the pieces, in a row with a space between them.
pub open spec fn running_text(p: Seq<Piece>) -> Seq<char>
    decreases p.len(),
{
    if p.len() == 0 {
        Seq::empty()
    } else {
        let head = running_text(p.drop_last());
        match p.last() {
            Piece::Text(t) => if head.len() == 0 {
                t
            } else {
                head + " "@ + t
            },
            Piece::Image(_) => head,
        }
    }
}

/// The first line with something on it, from line `i` on.
pub open spec fn first_line(lines: Seq<Seq<char>>, i: int) -> Seq<char>
    decreases lines.len() - i,
{
    if 0 <= i < lines.len() {
        if text::blank(lines[i]) {
            first_line(lines, i + 1)
        } else {
            lines[i]
        }
    } else {
        Seq::empty()
    }
}

/// The widest a label's text gets.
pub const SUMMARY_COLUMNS: usize = 48;

/// One line for a queued prompt: its first line of text, and a count of the
/// images that go with it.
pub open spec fn summary(p: Seq<Piece>) -> Seq<char> {
    let line = text::trim(first_line(text::text_lines(running_text(p)), 0));
    let label = transcript::clamped(line, SUMMARY_COLUMNS as int);
    let n = image_count(p);
    if n == 0 {
        label
    } else if label.len() == 0 {
        "["@ + text::decimal(n as nat) + " image]"@
    } else {
        label + (" [+"@ + text::decimal(n as nat) + " image]"@)
    }
}

fn run_text(blocks: &Vec<StagedBlock>) -> (r: String)
    ensures
        r@ == running_text(pieces(blocks@)),
{
    let ghost all = pieces(blocks@);
    let mut out = String::new();
    let mut i: usize = 0;
    assert(all.take(0) == Seq::<Piece>::empty());
    while i < blocks.len()
        invariant
            i <= blocks.len(),
            all == pieces(blocks@),
            out@ == running_text(all.take(i as int)),
        decreases blocks.len() - i,
    {
        assert(all[i as int] == blocks@[i as int]@);
        assert(all.take(i + 1).drop_last() == all.take(i as int));
        match &blocks[i] {
            StagedBlock::Text(t) => {
                if out.as_str().is_empty() {
                    out = t.clone();
                } else {
                    out.append(" ");
                    out.append(t.as_str());
                }
            },
            StagedBlock::Image(_) => {},
        }
        i += 1;
    }
    assert(all.take(all.len() as int) == all);
    out
}

/// One line for a queued prompt.
pub fn queue_prompt_summary(blocks: &Vec<StagedBlock>) -> (r: String)
    ensures
        r@ == summary(pieces(blocks@)),
{
    let all = run_text(blocks);
    let rows = lines(all.as_str());
    let ghost r = text::text_lines(all@);
    let mut i: usize = 0;
    let mut line = String::new();
    while i < rows.len()
        invariant_except_break
            first_line(r, 0) == first_line(r, i as int),
            line@.len() == 0,
        invariant
            i <= rows.len(),
            r == text::views(rows@),
        ensures
            line@ == first_line(r, 0),
        decreases rows.len() - i,
    {
        assert(r[i as int] == rows@[i as int]@);
        if !is_blank(rows[i].as_str()) {
            line = rows[i].clone();
            break;
        }
        i += 1;
    }
    let head = trimmed(line.as_str());
    let mut label = clamp_str(head.as_str(), SUMMARY_COLUMNS);
    let n = count_images(blocks);
    if n == 0 {
        return label;
    }
    let digits = number(n as u64);
    if label.as_str().is_empty() {
        return cat3("[", digits.as_str(), " image]");
    }
    let tail = cat3(" [+", digits.as_str(), " image]");
    label.append(tail.as_str());
    label
}

// --- what a draft's pieces spell --------------------------------------------------

/// The text that pieces were cut from: an image stands for its token.
pub open spec fn respelled(p: Seq<Piece>) -> Seq<char>
    decreases p.len(),
{
    if p.len() == 0 {
        Seq::empty()
    } else {
        respelled(p.drop_last()) + match p.last() {
            Piece::Text(t) => t,
            Piece::Image(image) => image.token,
        }
    }
}

proof fn respelled_push(p: Seq<Piece>, x: Piece)
    ensures
        respelled(p.push(x)) == respelled(p) + match x {
            Piece::Text(t) => t,
            Piece::Image(image) => image.token,
        },
{
    assert(p.push(x).drop_last() == p);
}

proof fn decimal_is_digits(n: nat)
    ensures
        text::decimal(n).len() > 0,
        forall|i: int| 0 <= i < text::decimal(n).len() ==> '0' <= #[trigger] text::decimal(n)[i] <= '9',
        text::digits_value(text::decimal(n)) == n,
    decreases n,
{
    reveal_with_fuel(text::digits_value, 2);
    if n >= 10 {
        decimal_is_digits(n / 10);
        let head = text::decimal(n / 10);
        assert(text::decimal(n).drop_last() == head);
    } else {
        assert(text::decimal(n).drop_last() == Seq::<char>::empty());
    }
}

/// A token opens and closes once.
proof fn token_is_bracketed(n: u32)
    ensures
        ({
            let t = attachments::token(n);
            &&& t.len() >= 8
            &&& t[0] == '['
            &&& t.last() == ']'
            &&& forall|i: int| 0 < i < t.len() ==> #[trigger] t[i] != '['
            &&& forall|i: int| 0 <= i < t.len() - 1 ==> #[trigger] t[i] != ']'
            &&& t.subrange(7, t.len() - 1) == text::decimal(n as nat)
        }),
{
    reveal_strlit("[image ");
    reveal_strlit("]");
    decimal_is_digits(n as nat);
    let t = attachments::token(n);
    let d = text::decimal(n as nat);
    assert(t.subrange(7, t.len() - 1) == d);
    assert forall|i: int| 0 < i < t.len() implies #[trigger] t[i] != '[' by {
        if 7 <= i < t.len() - 1 {
            assert(t[i] == d[i - 7]);
        }
    }
    assert forall|i: int| 0 <= i < t.len() - 1 implies #[trigger] t[i] != ']' by {
        if 7 <= i {
            assert(t[i] == d[i - 7]);
        }
    }
}

/// Each span is where its image's token stands.
proof fn spans_stand(buf: Seq<char>, items: Seq<Image>, k: int)
    requires
        0 <= k <= items.len(),
    ensures
        forall|i: int|
            #![trigger spans(buf, items, k)[i]]
            0 <= i < spans(buf, items, k).len() ==> {
                let s = spans(buf, items, k)[i];
                &&& 0 <= s.idx < k
                &&& text::stands_at(buf, items[s.idx].token, s.start)
                &&& s.end == s.start + items[s.idx].token.len()
            },
    decreases k,
{
    if k > 0 {
        spans_stand(buf, items, k - 1);
        let prior = spans(buf, items, k - 1);
        let all = spans(buf, items, k);
        if let Some(start) = text::place(buf, items[k - 1].token) {
            let x = Span { start, end: start + items[k - 1].token.len(), idx: k - 1 };
            text::place_stands(buf, items[k - 1].token);
            placed_members(prior, x);
            assert forall|i: int| #![trigger all[i]] 0 <= i < all.len() implies {
                let s = all[i];
                &&& 0 <= s.idx < k
                &&& text::stands_at(buf, items[s.idx].token, s.start)
                &&& s.end == s.start + items[s.idx].token.len()
            } by {
                if all[i] != x {
                    let j = choose|j: int| 0 <= j < prior.len() && #[trigger] prior[j] == all[i];
                    assert(prior[j].idx < k - 1);
                }
            }
        }
    }
}

/// The tokens of two images never overlap.
proof fn spans_are_apart(buf: Seq<char>, tray: Tray, i: int)
    requires
        tray.ok(),
        0 <= i,
        i + 1 < spans(buf, tray.items, tray.items.len() as int).len(),
    ensures
        ({
            let sp = spans(buf, tray.items, tray.items.len() as int);
            sp[i].end <= sp[i + 1].start
        }),
{
    let items = tray.items;
    let n = items.len() as int;
    let sp = spans(buf, items, n);
    spans_stand(buf, items, n);
    spans_are_in_order(buf, items, n);
    let a = sp[i];
    let b = sp[i + 1];
    assert(before(a, b));
    let ta = items[a.idx].token;
    let tb = items[b.idx].token;
    let na = (items[a.idx].id - attachments::KITTY_ID_BASE) as u32;
    let nb = (items[b.idx].id - attachments::KITTY_ID_BASE) as u32;
    token_is_bracketed(na);
    token_is_bracketed(nb);
    let at = buf.subrange(a.start, a.start + ta.len());
    let bt = buf.subrange(b.start, b.start + tb.len());
    assert(at == ta);
    assert(bt == tb);
    if a.start < b.start {
        if b.start < a.end {
            assert(bt[0] == buf[b.start]);
            assert(at[b.start - a.start] == buf[b.start]);
        }
    } else {
        if ta.len() < tb.len() {
            assert(bt[ta.len() - 1] == buf[a.start + ta.len() - 1]);
            assert(at[ta.len() - 1] == buf[a.start + ta.len() - 1]);
        } else if tb.len() < ta.len() {
            assert(bt[tb.len() - 1] == buf[a.start + tb.len() - 1]);
            assert(at[tb.len() - 1] == buf[a.start + tb.len() - 1]);
        } else {
            assert(ta == tb);
            decimal_is_digits(na as nat);
            decimal_is_digits(nb as nat);
            assert(na == nb);
            if a.idx < b.idx {
                assert(items[a.idx].id < items[b.idx].id);
            } else if b.idx < a.idx {
                assert(items[b.idx].id < items[a.idx].id);
            } else {
                assert(a.end == b.end);
            }
        }
    }
}

proof fn cut_respells(buf: Seq<char>, tray: Tray, k: int)
    requires
        tray.ok(),
        0 <= k <= spans(buf, tray.items, tray.items.len() as int).len(),
    ensures
        ({
            let sp = spans(buf, tray.items, tray.items.len() as int);
            &&& 0 <= read_to(sp, k) <= buf.len()
            &&& respelled(cut_pieces(buf, tray.items, sp, k)) == buf.take(read_to(sp, k))
        }),
    decreases k,
{
    let items = tray.items;
    let n = items.len() as int;
    let sp = spans(buf, items, n);
    if k > 0 {
        cut_respells(buf, tray, k - 1);
        spans_stand(buf, items, n);
        if k > 1 {
            spans_are_apart(buf, tray, k - 2);
        }
        let from = read_to(sp, k - 1);
        let s = sp[k - 1];
        let before_it = cut_pieces(buf, items, sp, k - 1);
        let text = text_before(before_it, buf, from, s.start);
        if s.start > from {
            respelled_push(before_it, Piece::Text(buf.subrange(from, s.start)));
        }
        assert(respelled(text) == buf.take(s.start)) by {
            assert(buf.take(from) + buf.subrange(from, s.start) == buf.take(s.start));
        }
        respelled_push(text, Piece::Image(items[s.idx]));
        let token = items[s.idx].token;
        assert(buf.subrange(s.start, s.end) == token);
        assert(buf.take(s.start) + token == buf.take(s.end));
    } else {
        assert(buf.take(0) == Seq::<char>::empty());
    }
}

/// Cutting a draft at its tokens loses nothing: its pieces, each image as its
/// token, spell the draft.
pub proof fn pieces_spell_the_draft(buf: Seq<char>, tray: Tray)
    requires
        tray.ok(),
    ensures
        respelled(raw_pieces(buf, tray.items)) == buf,
{
    let items = tray.items;
    let sp = spans(buf, items, items.len() as int);
    let k = sp.len() as int;
    cut_respells(buf, tray, k);
    let from = read_to(sp, k);
    let cut = cut_pieces(buf, items, sp, k);
    if from < buf.len() {
        respelled_push(cut, Piece::Text(buf.subrange(from, buf.len() as int)));
        assert(buf.take(from) + buf.subrange(from, buf.len() as int) == buf);
    } else {
        assert(buf.take(from) == buf);
    }
}

} // verus!
