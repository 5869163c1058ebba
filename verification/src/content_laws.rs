//! What texts, tokens, labels and numbers promise.

use vstd::prelude::*;
use crate::attachments;
use crate::attachments::{Image, Tray};
use crate::bus::SessionListItem;
use crate::locale::Locale;
use crate::measure;
use crate::picker;
use crate::staging;
use crate::staging::{Piece, Span};
use crate::text;
use crate::transcript;

verus! {

// --- texts ----------------------------------------------------------------------

/// A number in decimal reads back as the number, holds digits alone and begins
/// with no zero but its own.
pub proof fn numbers_read_back(n: nat)
    ensures
        text::digits_value(text::decimal(n)) == n,
        text::decimal(n).len() > 0,
        forall|i: int| 0 <= i < text::decimal(n).len() ==> '0' <= #[trigger] text::decimal(n)[i] <= '9',
        n > 0 ==> text::decimal(n)[0] != '0',
    decreases n,
{
    reveal_with_fuel(text::digits_value, 2);
    let d = text::decimal(n);
    if n >= 10 {
        numbers_read_back(n / 10);
        assert(d.drop_last() =~= text::decimal(n / 10));
        assert(d[0] == text::decimal(n / 10)[0]);
    } else {
        assert(d.drop_last() =~= Seq::<char>::empty());
    }
}

/// Two numbers that are spelled alike are the same.
pub proof fn numbers_are_spelled_apart(a: nat, b: nat)
    requires
        text::decimal(a) == text::decimal(b),
    ensures
        a == b,
{
    numbers_read_back(a);
    numbers_read_back(b);
}

proof fn start_is_cut(s: Seq<char>) -> (n: int)
    ensures
        0 <= n <= s.len(),
        text::trim_start(s) == s.skip(n),
        forall|i: int| 0 <= i < n ==> text::space(#[trigger] s[i]),
        n < s.len() ==> !text::space(s[n]),
    decreases s.len(),
{
    if s.len() > 0 && text::space(s[0]) {
        let m = start_is_cut(s.skip(1));
        assert(s.skip(1).skip(m) =~= s.skip(m + 1));
        assert forall|i: int| 0 <= i < m + 1 implies text::space(#[trigger] s[i]) by {
            if i > 0 {
                assert(s.skip(1)[i - 1] == s[i]);
            }
        }
        if m + 1 < s.len() {
            assert(s.skip(1)[m] == s[m + 1]);
        }
        m + 1
    } else {
        assert(s.skip(0) =~= s);
        0
    }
}

proof fn end_is_cut(s: Seq<char>) -> (n: int)
    ensures
        0 <= n <= s.len(),
        text::trim_end(s) == s.take(n),
        forall|i: int| n <= i < s.len() ==> text::space(#[trigger] s[i]),
        n > 0 ==> !text::space(s[n - 1]),
    decreases s.len(),
{
    if s.len() > 0 && text::space(s.last()) {
        let m = end_is_cut(s.drop_last());
        assert(s.drop_last().take(m) =~= s.take(m));
        assert forall|i: int| m <= i < s.len() implies text::space(#[trigger] s[i]) by {
            if i < s.len() - 1 {
                assert(s.drop_last()[i] == s[i]);
            }
        }
        if m > 0 {
            assert(s.drop_last()[m - 1] == s[m - 1]);
        }
        m
    } else {
        assert(s.take(s.len() as int) =~= s);
        s.len() as int
    }
}

/// What is trimmed is the part of a text that is left when the white space at
/// its ends is taken off: all that is taken off is white space, and what is left
/// neither begins nor ends with it.
pub proof fn trimming_takes_white_space_off(s: Seq<char>)
    ensures
        exists|a: int, b: int|
            0 <= a <= b <= s.len() && text::trim(s) == #[trigger] s.subrange(a, b) && (forall|i: int|
                0 <= i < a || b <= i < s.len() ==> text::space(#[trigger] s[i])) && (a < b
                ==> !text::space(s[a]) && !text::space(s[b - 1])),
{
    let a = start_is_cut(s);
    let t = s.skip(a);
    let n = end_is_cut(t);
    let b = a + n;
    assert(t.take(n) =~= s.subrange(a, b));
    assert forall|i: int| 0 <= i < a || b <= i < s.len() implies text::space(#[trigger] s[i]) by {
        if i >= b {
            assert(t[i - a] == s[i]);
        }
    }
    if a < b {
        assert(t[n - 1] == s[b - 1]);
    }
}

/// A text is cut at the first of a character: what stands before it holds none,
/// and the parts and the character make up the text.
pub proof fn a_text_is_cut_at_the_first(s: Seq<char>, c: char)
    ensures
        match text::cut_at(s, c) {
            Some((a, b)) => s == a + seq![c] + b && !a.contains(c),
            None => !s.contains(c),
        },
{
    text::position_is_first(s, c);
    if let Some((a, b)) = text::cut_at(s, c) {
        assert(s =~= a + seq![c] + b);
    }
}

/// To make letters small changes capitals alone, one for one.
pub proof fn small_letters_are_small(s: Seq<char>, i: int)
    requires
        0 <= i < s.len(),
    ensures
        text::small(s).len() == s.len(),
        'A' <= s[i] <= 'Z' ==> text::small(s)[i] as u32 == s[i] as u32 + 32,
        !('A' <= s[i] <= 'Z') ==> text::small(s)[i] == s[i],
{
}

/// Line ends are made one: no carriage return is left, and a text without any
/// stays as it is.
pub proof fn line_ends_are_made_one(s: Seq<char>)
    ensures
        !text::unified(s).contains('\r'),
        !s.contains('\r') ==> text::unified(s) == s,
    decreases s.len(),
{
    if s.len() > 0 {
        let n: int = if s[0] == '\r' && s.len() > 1 && s[1] == '\n' {
            2
        } else {
            1
        };
        line_ends_are_made_one(s.skip(n));
        let u = text::unified(s.skip(n));
        assert(text::unified(s) == seq![if s[0] == '\r' {
            '\n'
        } else {
            s[0]
        }] + u);
        assert forall|i: int| 0 <= i < text::unified(s).len() implies text::unified(s)[i] != '\r' by {
            if i > 0 {
                assert(text::unified(s)[i] == u[i - 1]);
                assert(u.contains(u[i - 1]));
            }
        }
        if !s.contains('\r') {
            assert(s[0] != '\r') by {
                assert(s.contains(s[0]));
            }
            assert forall|i: int| 0 <= i < s.skip(1).len() implies s.skip(1)[i] != '\r' by {
                assert(s.contains(s[i + 1]));
            }
            assert(text::unified(s) =~= s);
        }
    }
}

// --- tokens and pieces ----------------------------------------------------------

/// The tray keeps the images whose token is still in the draft, in order, and no
/// other.
pub proof fn the_tray_follows_the_draft(items: Seq<Image>, t: Seq<char>)
    ensures
        attachments::kept(items, t) == items.filter(|i: Image| text::occurs(t, i.token)),
    decreases items.len(),
{
    reveal(Seq::filter);
    if items.len() > 0 {
        the_tray_follows_the_draft(items.drop_last(), t);
    }
}

/// Each staged image gets a token of its own: a new number, in brackets.
pub proof fn tokens_are_numbered(tray: Tray, a: u32, b: u32)
    requires
        tray.seq < u32::MAX,
    ensures
        tray.next(Seq::empty(), Seq::empty(), Seq::empty(), Seq::empty()).token == "[image "@
            + text::decimal((tray.seq + 1) as nat) + "]"@,
        attachments::token(a) == attachments::token(b) ==> a == b,
        tray.staged(
            tray.next(Seq::empty(), Seq::empty(), Seq::empty(), Seq::empty()),
        ).seq == tray.seq + 1,
{
    if attachments::token(a) == attachments::token(b) {
        let x = text::decimal(a as nat);
        let y = text::decimal(b as nat);
        let n = "[image "@.len() as int;
        assert(attachments::token(a).len() == n + x.len() + "]"@.len());
        assert(attachments::token(b).len() == n + y.len() + "]"@.len());
        assert(attachments::token(a).subrange(n, n + x.len()) =~= x);
        assert(attachments::token(b).subrange(n, n + y.len()) =~= y);
        numbers_are_spelled_apart(a as nat, b as nat);
    }
}

/// A span is where its image's token first stands in the draft.
pub proof fn spans_are_tokens(buf: Seq<char>, items: Seq<Image>, k: int, i: int)
    requires
        0 <= k <= items.len(),
        0 <= i < staging::spans(buf, items, k).len(),
    ensures
        ({
            let s = staging::spans(buf, items, k)[i];
            &&& 0 <= s.idx < k
            &&& text::first_at(buf, items[s.idx].token, s.start)
            &&& s.end == s.start + items[s.idx].token.len()
        }),
    decreases k,
{
    if k > 0 {
        let prior = staging::spans(buf, items, k - 1);
        text::place_stands(buf, items[k - 1].token);
        match text::place(buf, items[k - 1].token) {
            Some(start) => {
                let x = Span { start, end: start + items[k - 1].token.len(), idx: k - 1 };
                let j = placed_comes_from(prior, x, i);
                if j >= 0 {
                    spans_are_tokens(buf, items, k - 1, j);
                }
            },
            None => {
                spans_are_tokens(buf, items, k - 1, i);
            },
        }
    }
}

proof fn placed_comes_from(p: Seq<Span>, x: Span, i: int) -> (j: int)
    requires
        0 <= i < staging::placed(p, x).len(),
    ensures
        j == -1 ==> staging::placed(p, x)[i] == x,
        j != -1 ==> 0 <= j < p.len() && staging::placed(p, x)[i] == p[j],
    decreases p.len(),
{
    if p.len() == 0 || staging::before(p.last(), x) {
        if i < p.len() {
            i
        } else {
            -1
        }
    } else {
        let q = staging::placed(p.drop_last(), x);
        if i < q.len() {
            placed_comes_from(p.drop_last(), x, i)
        } else {
            p.len() - 1
        }
    }
}

proof fn count_push(p: Seq<Piece>, x: Piece)
    ensures
        staging::image_count(p.push(x)) == staging::image_count(p) + if x is Image {
            1int
        } else {
            0
        },
{
    assert(p.push(x).drop_last() =~= p);
}

proof fn solid_keeps_images(p: Seq<Piece>)
    ensures
        staging::image_count(staging::solid(p)) == staging::image_count(p),
        forall|i: int|
            0 <= i < staging::solid(p).len() ==> (#[trigger] staging::solid(p)[i] matches Piece::Text(
                t,
            ) ==> t.len() > 0),
    decreases p.len(),
{
    if p.len() > 0 {
        solid_keeps_images(p.drop_last());
        count_push(staging::solid(p.drop_last()), p.last());
    }
}

proof fn trailing_keeps_images(p: Seq<Piece>)
    ensures
        staging::image_count(staging::drop_trailing(p)) == staging::image_count(p),
    decreases p.len(),
{
    if p.len() > 0 && staging::blank_piece(p.last()) {
        trailing_keeps_images(p.drop_last());
    }
}

proof fn count_skip(p: Seq<Piece>)
    requires
        p.len() > 0,
    ensures
        staging::image_count(p) == staging::image_count(p.skip(1)) + if p[0] is Image {
            1int
        } else {
            0
        },
    decreases p.len(),
{
    if p.len() > 1 {
        count_skip(p.drop_last());
        assert(p.drop_last().skip(1) =~= p.skip(1).drop_last());
        assert(p.skip(1).last() == p.last());
    } else {
        assert(p.skip(1) =~= Seq::<Piece>::empty());
        assert(p.drop_last() =~= Seq::<Piece>::empty());
        assert(p.last() == p[0]);
    }
}

proof fn leading_keeps_images(p: Seq<Piece>)
    ensures
        staging::image_count(staging::drop_leading(p)) == staging::image_count(p),
    decreases p.len(),
{
    if p.len() > 0 && staging::blank_piece(p[0]) {
        count_skip(p);
        leading_keeps_images(p.skip(1));
    }
}

proof fn count_alike(p: Seq<Piece>, q: Seq<Piece>)
    requires
        p.len() == q.len(),
        forall|i: int| 0 <= i < p.len() ==> (#[trigger] p[i] is Image) == (q[i] is Image),
    ensures
        staging::image_count(p) == staging::image_count(q),
    decreases p.len(),
{
    if p.len() > 0 {
        assert forall|i: int| 0 <= i < p.drop_last().len() implies (#[trigger] p.drop_last()[i]
            is Image) == (q.drop_last()[i] is Image) by {
            assert(p[i] is Image == (q[i] is Image));
        }
        count_alike(p.drop_last(), q.drop_last());
        let n = p.len() - 1;
        assert((p[n] is Image) == (q[n] is Image));
    }
}

/// To trim a draft's pieces loses no image and leaves no empty text.
pub proof fn trimming_keeps_every_image(p: Seq<Piece>)
    ensures
        staging::image_count(staging::trim_pieces(p)) == staging::image_count(p),
        forall|i: int|
            0 <= i < staging::trim_pieces(p).len() ==> (#[trigger] staging::trim_pieces(
                p,
            )[i] matches Piece::Text(t) ==> t.len() > 0),
{
    let a = staging::drop_leading(p);
    let b = staging::drop_trailing(a);
    leading_keeps_images(p);
    trailing_keeps_images(a);
    count_alike(b, staging::trim_ends(b));
    solid_keeps_images(staging::trim_ends(b));
}

proof fn cut_counts(buf: Seq<char>, items: Seq<Image>, sp: Seq<Span>, k: int)
    requires
        0 <= k <= sp.len(),
    ensures
        staging::image_count(staging::cut_pieces(buf, items, sp, k)) == k,
    decreases k,
{
    if k > 0 {
        cut_counts(buf, items, sp, k - 1);
        let out = staging::cut_pieces(buf, items, sp, k - 1);
        let from = staging::read_to(sp, k - 1);
        let to = sp[k - 1].start;
        if to > from {
            count_push(out, Piece::Text(buf.subrange(from, to)));
        }
        count_push(
            staging::text_before(out, buf, from, to),
            Piece::Image(items[sp[k - 1].idx]),
        );
    }
}

/// A draft is sent with every image whose token stands in it, each once.
pub proof fn every_token_is_an_image(buf: Seq<char>, items: Seq<Image>)
    ensures
        staging::image_count(staging::draft_pieces(buf, items)) == staging::spans(
            buf,
            items,
            items.len() as int,
        ).len(),
{
    let sp = staging::spans(buf, items, items.len() as int);
    let n = sp.len() as int;
    cut_counts(buf, items, sp, n);
    let out = staging::cut_pieces(buf, items, sp, n);
    let from = staging::read_to(sp, n);
    if buf.len() > from {
        count_push(out, Piece::Text(buf.subrange(from, buf.len() as int)));
    }
    trimming_keeps_every_image(staging::raw_pieces(buf, items));
}

// --- labels ---------------------------------------------------------------------

/// The label of a queued prompt is its first line that holds anything.
pub proof fn the_first_line_that_holds_anything(lines: Seq<Seq<char>>, i: int, k: int)
    requires
        0 <= i <= k < lines.len(),
        !text::blank(lines[k]),
        forall|j: int| i <= j < k ==> text::blank(#[trigger] lines[j]),
    ensures
        staging::first_line(lines, i) == lines[k],
    decreases k - i,
{
    if i < k {
        the_first_line_that_holds_anything(lines, i + 1, k);
    }
}

/// The text of a prompt's pieces is that of its text pieces in order, with a
/// space between.
pub proof fn running_text_is_in_order(p: Seq<Piece>, t: Seq<char>, m: Image)
    ensures
        staging::running_text(p.push(Piece::Image(m))) == staging::running_text(p),
        staging::running_text(p).len() > 0 ==> staging::running_text(p.push(Piece::Text(t)))
            == staging::running_text(p) + " "@ + t,
        staging::running_text(p).len() == 0 ==> staging::running_text(p.push(Piece::Text(t))) == t,
{
    assert(p.push(Piece::Image(m)).drop_last() =~= p);
    assert(p.push(Piece::Text(t)).drop_last() =~= p);
}

proof fn fit_found(s: Seq<char>, max: int, n: int)
    requires
        0 <= n <= s.len(),
        transcript::columns_of(s, n) <= max,
    ensures
        ({
            let k = transcript::fitting(s, max, n);
            &&& n <= k <= s.len()
            &&& transcript::columns_of(s, k) <= max
            &&& k < s.len() ==> transcript::columns_of(s, k + 1) > max
        }),
    decreases s.len() - n,
{
    if n < s.len() && transcript::columns_of(s, n + 1) <= max {
        fit_found(s, max, n + 1);
    }
}

/// A label that fits stays as it is; one that does not is cut to as much as
/// leaves a column for the ellipsis.
pub proof fn labels_are_cut_to_fit(s: Seq<char>, max: int)
    requires
        max >= 1,
    ensures
        transcript::columns_of(s, s.len() as int) <= max ==> transcript::clamped(s, max) == s,
        transcript::columns_of(s, s.len() as int) > max ==> exists|k: int|
            0 <= k <= s.len() && transcript::clamped(s, max) == #[trigger] s.take(k) + "…"@
                && transcript::columns_of(s, k) <= max - 1 && (k < s.len()
                ==> transcript::columns_of(s, k + 1) > max - 1),
{
    fit_found(s, max - 1, 0);
    let k = transcript::fitting(s, max - 1, 0);
    assert(s.take(k) + "…"@ == s.take(k) + "…"@);
}

/// The short form of an id is its first eight characters.
pub proof fn ids_are_shortened(id: Seq<char>)
    ensures
        picker::short(id).is_prefix_of(id),
        id.len() >= 8 ==> picker::short(id).len() == 8,
        id.len() < 8 ==> picker::short(id) == id,
        picker::padded(picker::short(id)).len() == 8,
        picker::short(id).is_prefix_of(picker::padded(picker::short(id))),
{
    assert(id.take(id.len() as int) =~= id);
}

proof fn matching_filtered(sessions: Seq<SessionListItem>, prefix: Seq<char>, n: int, i: int)
    requires
        0 <= n <= sessions.len(),
        0 <= i < n,
    ensures
        prefix.is_prefix_of(sessions[i].id@) ==> picker::matching(sessions, prefix, n).contains(
            sessions[i].id@,
        ),
    decreases n,
{
    let m = picker::matching(sessions, prefix, n);
    if prefix.is_prefix_of(sessions[i].id@) {
        if i == n - 1 {
            assert(m[m.len() - 1] == sessions[i].id@);
        } else {
            matching_filtered(sessions, prefix, n - 1, i);
            let r = picker::matching(sessions, prefix, n - 1);
            let j = choose|j: int| 0 <= j < r.len() && r[j] == sessions[i].id@;
            assert(m[j] == r[j]);
        }
    }
}

proof fn matching_begins_alike(sessions: Seq<SessionListItem>, prefix: Seq<char>, n: int, i: int)
    requires
        0 <= n <= sessions.len(),
        0 <= i < picker::matching(sessions, prefix, n).len(),
    ensures
        prefix.is_prefix_of(picker::matching(sessions, prefix, n)[i]),
        exists|k: int| 0 <= k < n && (#[trigger] sessions[k]).id@ == picker::matching(
            sessions,
            prefix,
            n,
        )[i],
    decreases n,
{
    if n > 0 {
        let r = picker::matching(sessions, prefix, n - 1);
        if i < r.len() {
            matching_begins_alike(sessions, prefix, n - 1, i);
        } else {
            assert(sessions[n - 1].id@ == picker::matching(sessions, prefix, n)[i]);
        }
    }
}

/// The session that a prefix means begins with it; where only one does it is
/// meant, and where none does none is.
pub proof fn a_prefix_means_a_session(
    locale: Locale,
    sessions: Seq<SessionListItem>,
    prefix: Seq<char>,
    i: int,
)
    requires
        0 <= i < sessions.len(),
    ensures
        picker::meant(locale, sessions, prefix) matches Ok(id) ==> prefix.is_prefix_of(id)
            && exists|k: int| 0 <= k < sessions.len() && (#[trigger] sessions[k]).id@ == id,
        prefix == sessions[i].id@ ==> picker::meant(locale, sessions, prefix) is Ok,
        (forall|k: int|
            0 <= k < sessions.len() ==> !prefix.is_prefix_of((#[trigger] sessions[k]).id@))
            ==> picker::meant(locale, sessions, prefix) is Err,
{
    let n = sessions.len() as int;
    let ids = picker::matching(sessions, prefix, n);
    matching_filtered(sessions, prefix, n, i);
    assert(prefix.is_prefix_of(prefix));
    if ids.len() > 0 {
        matching_begins_alike(sessions, prefix, n, 0);
    }
    if ids.contains(prefix) {
        let j = choose|j: int| 0 <= j < ids.len() && ids[j] == prefix;
        matching_begins_alike(sessions, prefix, n, j);
    }
}

// --- numbers --------------------------------------------------------------------

/// A rounded quotient is the nearest integer.
pub proof fn rounding_goes_to_the_nearest(n: int, d: int)
    requires
        n >= 0,
        d > 0,
    ensures
        ({
            let q = measure::half_even(n, d);
            &&& 2 * (q * d - n) <= d
            &&& 2 * (n - q * d) <= d
            &&& 2 * (q * d - n) == d || 2 * (n - q * d) == d ==> q % 2 == 0
        }),
{
    vstd::arithmetic::div_mod::lemma_fundamental_div_mod(n, d);
    vstd::arithmetic::div_mod::lemma_mod_bound(n, d);
    let q = n / d;
    let r = n % d;
    assert(q * d == d * q && (q + 1) * d == d * q + d) by (nonlinear_arith);
}

/// A duration from a minute on is its minutes and the seconds that are left.
pub proof fn durations_are_split(ms: int)
    requires
        ms >= 60_000,
    ensures
        exists|m: nat, s: nat|
            #![trigger text::decimal(m), text::decimal(s)]
            measure::duration(ms) == text::decimal(m) + "m"@ + text::decimal(s) + "s"@ && s < 60
                && 60 * m + s == ms / 1000,
{
    let m = (ms / 60_000) as nat;
    let s = (ms % 60_000 / 1000) as nat;
    assert(measure::duration(ms) == text::decimal(m) + "m"@ + text::decimal(s) + "s"@);
    assert(s < 60 && 60 * m + s == ms / 1000);
}

/// Small counts are spelled out; larger ones in thousands, then in millions.
pub proof fn counts_are_compact(n: int)
    requires
        n >= 0,
    ensures
        n < 1000 ==> measure::token_count(n) == text::decimal(n as nat),
        1000 <= n < 1_000_000 ==> measure::token_count(n).last() == 'K',
        n >= 1_000_000 ==> measure::token_count(n).last() == 'M',
        measure::duration(n).last() == 's',
{
    reveal_strlit("K");
    reveal_strlit("M");
    reveal_strlit("s");
}

} // verus!
