//! What holds of the words that the client reads and writes: names, dates,
//! descriptions, shares, and the sequence that carries a copy.

use vstd::prelude::*;
use vstd::utf8::*;
use crate::clipboard;
use crate::commands;
use crate::commands::Wording;
use crate::content_laws;
use crate::events;
use crate::events::UiEvent;
use crate::locale::Locale;
use crate::measure;
use crate::picker;
use crate::runtime;
use crate::staging;
use crate::staging::Piece;
use crate::text;

verus! {

// --- names ----------------------------------------------------------------------

proof fn last_of_the_pieces(a: Seq<char>, c: char, e: Seq<char>)
    requires
        !e.contains(c),
    ensures
        text::pieces(a + seq![c] + e, c).last() == e,
    decreases a.len(),
{
    let s = a + seq![c] + e;
    let i = text::position(s, c);
    text::position_is_first(s, c);
    assert(s[a.len() as int] == c);
    text::join_pieces(s.skip(i + 1), c);
    if i < a.len() {
        assert(s.skip(i + 1) =~= a.skip(i + 1) + seq![c] + e);
        last_of_the_pieces(a.skip(i + 1), c, e);
    } else {
        assert(s.skip(i + 1) =~= e);
        text::position_is_first(e, c);
        if text::position(e, c) < e.len() {
            assert(e[text::position(e, c)] == c);
        }
        assert(text::pieces(e, c) =~= seq![e]);
    }
}

/// An image file is told by what stands behind its last dot, in capitals or
/// not; a file of another kind is none.
pub proof fn images_are_told_by_their_ending(stem: Seq<char>, ending: Seq<char>)
    requires
        !ending.contains('.'),
    ensures
        ({
            let e = text::small(ending);
            let m = commands::media_type(stem + seq!['.'] + ending);
            &&& e == "png"@ ==> m == Some("image/png"@)
            &&& e == "jpg"@ || e == "jpeg"@ ==> m == Some("image/jpeg"@)
            &&& e == "webp"@ ==> m == Some("image/webp"@)
            &&& e == "gif"@ ==> m == Some("image/gif"@)
            &&& e != "png"@ && e != "jpg"@ && e != "jpeg"@ && e != "webp"@ && e != "gif"@ ==> m
                is None
        }),
{
    last_of_the_pieces(stem, '.', ending);
    reveal_strlit("png");
    reveal_strlit("jpg");
    reveal_strlit("jpeg");
    reveal_strlit("webp");
    reveal_strlit("gif");
    assert("png"@[0] == 'p' && "jpg"@[0] == 'j' && "jpeg"@[0] == 'j' && "webp"@[0] == 'w'
        && "gif"@[0] == 'g');
}

/// The words of a hyphenated text, each with its first letter made a capital,
/// character by character.
proof fn titles_letter_by_letter(s: Seq<char>)
    requires
        forall|k: int|
            0 <= k < text::pieces(s, '-').len() ==> (#[trigger] text::pieces(s, '-')[k]).len() > 0,
    ensures
        ({
            let r = text::joined(
                text::pieces(s, '-').map_values(|w: Seq<char>| commands::titled(w)),
                " "@,
            );
            &&& r.len() == s.len()
            &&& forall|i: int|
                0 <= i < s.len() ==> #[trigger] r[i] == (if s[i] == '-' {
                    ' '
                } else if i == 0 || s[i - 1] == '-' {
                    commands::raised(s[i])
                } else {
                    s[i]
                })
        }),
    decreases s.len(),
{
    reveal_strlit(" ");
    let f = |w: Seq<char>| commands::titled(w);
    let p = text::pieces(s, '-');
    let q = p.map_values(f);
    let r = text::joined(q, " "@);
    let i = text::position(s, '-');
    text::position_is_first(s, '-');
    text::join_pieces(s, '-');
    if i < s.len() {
        let rest = s.skip(i + 1);
        let pr = text::pieces(rest, '-');
        text::join_pieces(rest, '-');
        assert(p =~= seq![s.take(i)] + pr);
        assert(p[0] == s.take(i));
        assert forall|k: int| 0 <= k < pr.len() implies (#[trigger] pr[k]).len() > 0 by {
            assert(p[k + 1] == pr[k]);
        }
        titles_letter_by_letter(rest);
        let rr = text::joined(pr.map_values(f), " "@);
        assert(q.skip(1) =~= pr.map_values(f));
        assert(q[0] == commands::titled(s.take(i)));
        assert(r == q[0] + " "@ + rr);
        assert(q[0].len() == i);
        assert(s[i] == '-');
        assert forall|j: int| 0 <= j < s.len() implies #[trigger] r[j] == (if s[j] == '-' {
            ' '
        } else if j == 0 || s[j - 1] == '-' {
            commands::raised(s[j])
        } else {
            s[j]
        }) by {
            if j < i {
                assert(s.take(i)[j] == s[j]);
                if j > 0 {
                    assert(s[j - 1] != '-');
                }
            } else if j > i {
                assert(r[j] == rr[j - i - 1]);
                assert(rest[j - i - 1] == s[j]);
                if j > i + 1 {
                    assert(rest[j - i - 2] == s[j - 1]);
                }
            }
        }
    } else {
        assert(p =~= seq![s]);
        assert(q[0] == commands::titled(s));
        assert(r == commands::titled(s));
        assert forall|j: int| 0 <= j < s.len() implies #[trigger] r[j] == (if s[j] == '-' {
            ' '
        } else if j == 0 || s[j - 1] == '-' {
            commands::raised(s[j])
        } else {
            s[j]
        }) by {
            assert(s[j] != '-');
            if j > 0 {
                assert(s[j - 1] != '-');
            }
        }
    }
}

/// A preset reads as its id with the hyphens made spaces and each word begun
/// with a capital; an id of another make reads as it is.
pub proof fn presets_read_as_titles(id: Seq<char>, i: int)
    requires
        id != "danger-full-access"@,
    ensures
        commands::kebab(id) && 0 <= i < id.len() ==> commands::label_of(id).len() == id.len()
            && commands::label_of(id)[i] == (if id[i] == '-' {
            ' '
        } else if i == 0 || id[i - 1] == '-' {
            if 'a' <= id[i] <= 'z' {
                (id[i] as u32 - 32) as char
            } else {
                id[i]
            }
        } else {
            id[i]
        }),
        !commands::kebab(id) ==> commands::label_of(id) == id,
{
    if commands::kebab(id) {
        assert forall|k: int| 0 <= k < text::pieces(id, '-').len() implies (#[trigger] text::pieces(
            id,
            '-',
        )[k]).len() > 0 by {
            assert(commands::kebab_word(text::pieces(id, '-')[k]));
        }
        titles_letter_by_letter(id);
    }
}

/// Full access has a name of its own, and just the three stock presets have a
/// meaning.
pub proof fn stock_presets_have_a_meaning(locale: Locale, id: Seq<char>)
    ensures
        commands::label_of("danger-full-access"@) == "Full access"@,
        commands::meaning(locale, id) is Some <==> (id == "read-only"@ || id == "workspace-write"@
            || id == "danger-full-access"@),
{
}

/// A command is described in English by itself, and in Chinese by its first row
/// in the table, or by itself where it has none.
pub proof fn commands_are_described(w: Wording, name: Seq<char>, desc: Seq<char>, k: int)
    requires
        0 <= k <= w.commands_zh.len(),
        forall|j: int| 0 <= j < k ==> (#[trigger] w.commands_zh[j]).0 != name,
    ensures
        w.desc(Locale::En, name, desc) == desc,
        k < w.commands_zh.len() && w.commands_zh[k].0 == name ==> w.desc(Locale::Zh, name, desc)
            == w.commands_zh[k].1,
        k == w.commands_zh.len() ==> w.desc(Locale::Zh, name, desc) == desc,
{
    rows_passed_over(w, name, 0, k);
}

proof fn rows_passed_over(w: Wording, name: Seq<char>, i: int, k: int)
    requires
        0 <= i <= k <= w.commands_zh.len(),
        forall|j: int| i <= j < k ==> (#[trigger] w.commands_zh[j]).0 != name,
    ensures
        w.translated(name, i) == w.translated(name, k),
    decreases k - i,
{
    if i < k {
        assert(w.commands_zh[i].0 != name);
        rows_passed_over(w, name, i + 1, k);
    }
}

proof fn white_tail_is_cut(m: Seq<char>, w: Seq<char>)
    requires
        m.len() > 0,
        !text::space(m.last()),
        forall|k: int| 0 <= k < w.len() ==> text::space(#[trigger] w[k]),
    ensures
        text::trim_end(m + w) == m,
    decreases w.len(),
{
    let s = m + w;
    if w.len() == 0 {
        assert(s =~= m);
    } else {
        assert(s.last() == w[w.len() - 1]);
        assert(s.drop_last() =~= m + w.drop_last());
        white_tail_is_cut(m, w.drop_last());
    }
}

/// The branch is what `HEAD` names behind `refs/heads/`, whatever white space
/// ends the file; a `HEAD` that begins otherwise names none.
pub proof fn the_branch_is_what_head_names(name: Seq<char>, tail: Seq<char>, other: Seq<char>)
    requires
        name.len() > 0,
        !text::space(name.last()),
        forall|k: int| 0 <= k < tail.len() ==> text::space(#[trigger] tail[k]),
        other.len() > 0,
        !text::space(other[0]),
        other[0] != 'r',
    ensures
        runtime::branch_of("ref: refs/heads/"@ + name + tail) == Some(name),
        runtime::branch_of(other) is None,
{
    let mark = "ref: refs/heads/"@;
    reveal_strlit("ref: refs/heads/");
    assert(mark[0] == 'r');
    let line = mark + name;
    let head = mark + name + tail;
    assert(head =~= line + tail);
    assert(line.last() == name.last());
    assert(head[0] == 'r');
    assert(text::trim_start(head) == head);
    white_tail_is_cut(line, tail);
    assert(line.skip(mark.len() as int) =~= name);
    assert(mark.is_prefix_of(line));
    text::trimmed_ends(other);
    assert(text::trim_start(other) == other);
    assert(text::trim(other)[0] == other[0]);
    if mark.is_prefix_of(text::trim(other)) {
        assert(text::trim(other)[0] == mark[0]);
    }
}

/// What is remembered of a workspace is what was kept but for plan mode.
pub proof fn plan_mode_is_not_remembered(m: runtime::ModeFacts)
    ensures
        !runtime::remembered(Some(m)).plan,
        runtime::remembered(Some(m)).sandbox == m.sandbox,
        runtime::remembered(Some(m)).approval == m.approval,
        runtime::remembered(Some(m)).permission == m.permission,
        runtime::remembered(Some(m)).effort == m.effort,
        runtime::remembered(None).permission is None,
        runtime::remembered(None).effort is None,
{
}

proof fn plain_characters_are_a_byte_each(s: Seq<char>, i: int, bytes: int)
    requires
        0 <= i,
        0 <= bytes,
        i + bytes <= s.len(),
        forall|k: int| i <= k < i + bytes ==> (#[trigger] s[k] as u32) < 0x80,
    ensures
        picker::byte_end(s, i, bytes) == Some(i + bytes),
    decreases bytes,
{
    if bytes > 0 {
        assert((s[i] as u32) < 0x80);
        plain_characters_are_a_byte_each(s, i + 1, bytes - 1);
    }
}

/// The date of a session is the first ten characters of its time; without a
/// time there is a question mark.
pub proof fn a_date_is_ten_characters(t: Seq<char>)
    requires
        t.len() >= 10,
        forall|k: int| 0 <= k < 10 ==> (#[trigger] t[k] as u32) < 0x80,
    ensures
        picker::date(Some(t)) == t.take(10),
        picker::date(None) == "?"@,
{
    plain_characters_are_a_byte_each(t, 0, 10);
}

/// A queued prompt with images says how many behind its line, one without says
/// none.
pub proof fn a_summary_counts_the_images(p: Seq<Piece>)
    ensures
        staging::image_count(p) > 0 ==> (text::decimal(staging::image_count(p) as nat)
            + " image]"@).is_suffix_of(staging::summary(p)),
        staging::image_count(p) == 0 ==> staging::summary(p) == crate::transcript::clamped(
            text::trim(staging::first_line(text::text_lines(staging::running_text(p)), 0)),
            48,
        ),
{
    let n = text::decimal(staging::image_count(p) as nat);
    let s = staging::summary(p);
    if staging::image_count(p) > 0 {
        let k = n + " image]"@;
        assert(s.skip(s.len() - k.len()) =~= k);
    }
}

/// A snapshot of a checklist is shown as it is, task by task; an empty one is
/// none.
pub proof fn a_snapshot_is_shown_as_it_is(ui: UiEvent, i: int)
    requires
        ui is Plan,
        0 <= i < ui->Plan_todos@.len(),
    ensures
        ui->Plan_total == 0 <==> events::progress_of(ui) is None,
        events::progress_of(ui) matches Some(p) ==> p.completed == ui->Plan_completed && p.total
            == ui->Plan_total && p.todos.len() == ui->Plan_todos@.len() && p.todos[i].0
            == ui->Plan_todos@[i].content@ && p.todos[i].1 == ui->Plan_todos@[i].status,
{
}

// --- copies ---------------------------------------------------------------------

proof fn the_cut_is_the_last_boundary(bytes: Seq<u8>, k: int)
    requires
        0 <= k,
    ensures
        0 <= clipboard::boundary(bytes, k) <= k,
        clipboard::boundary(bytes, k) == 0 || is_char_boundary(
            bytes,
            clipboard::boundary(bytes, k),
        ),
        forall|j: int|
            clipboard::boundary(bytes, k) < j <= k ==> !#[trigger] is_char_boundary(bytes, j),
    decreases k,
{
    if k > 0 && !is_char_boundary(bytes, k) {
        the_cut_is_the_last_boundary(bytes, k - 1);
    }
}

/// A copy carries its text whole, or as many whole characters of its beginning
/// as fit.
pub proof fn a_copy_carries_what_fits(t: Seq<char>)
    ensures
        ({
            let all = encode_utf8(t);
            let c = clipboard::carried(t);
            &&& all.len() <= 73728 ==> c == all
            &&& c.is_prefix_of(all)
            &&& c.len() <= 73728
            &&& all.len() > 73728 ==> forall|j: int|
                c.len() < j <= 73728 ==> !#[trigger] is_char_boundary(all, j)
        }),
{
    the_cut_is_the_last_boundary(encode_utf8(t), 73728);
}

/// The sequence of a copy begins with the escape of the clipboard and ends with
/// a bell, and what stands between reads back as the bytes carried.
pub proof fn a_sequence_holds_the_copy(t: Seq<char>)
    ensures
        ({
            let s = clipboard::osc52(t, false);
            let head = "\u{1b}]52;c;"@;
            &&& head.is_prefix_of(s)
            &&& s.last() == '\u{7}'
            &&& clipboard::unbase64(s.subrange(head.len() as int, s.len() - 1))
                == clipboard::carried(t)
        }),
{
    let s = clipboard::osc52(t, false);
    let head = "\u{1b}]52;c;"@;
    reveal_strlit("\u{7}");
    let mid = clipboard::base64_of(clipboard::carried(t));
    assert(s.subrange(head.len() as int, s.len() - 1) =~= mid);
    clipboard::base64_reads_back(clipboard::carried(t));
}

/// Inside tmux the same sequence goes in an envelope.
pub proof fn tmux_gets_an_envelope(t: Seq<char>)
    ensures
        clipboard::osc52(t, true) == "\u{1b}Ptmux;"@ + clipboard::escaped(
            clipboard::osc52(t, false),
        ) + "\u{1b}\\"@,
{
}

/// Escape characters are written twice, and nothing else is changed.
pub proof fn escapes_are_doubled(a: Seq<char>, c: char)
    ensures
        clipboard::escaped(Seq::empty()).len() == 0,
        c == '\u{1b}' ==> clipboard::escaped(a.push(c)) == clipboard::escaped(a) + seq![c, c],
        c != '\u{1b}' ==> clipboard::escaped(a.push(c)) == clipboard::escaped(a) + seq![c],
{
    assert(a.push(c).drop_last() =~= a);
}

// --- shares ---------------------------------------------------------------------

proof fn doubled_to_reach(n: int, d: int, p: int)
    requires
        n > 0,
        d > 0,
        p > 0,
    ensures
        ({
            let (m, q) = measure::raised(n, d, p);
            &&& m * p == n * q
            &&& m >= measure::LOW * d
            &&& q >= p
        }),
    decreases
        (if n < measure::LOW * d {
            measure::LOW * d - n
        } else {
            0
        }),
{
    if n < measure::LOW * d {
        doubled_to_reach(2 * n, d, 2 * p);
        let (m, q) = measure::raised(n, d, p);
        assert(m * (2 * p) == 2 * (m * p) && (2 * n) * q == 2 * (n * q)) by (nonlinear_arith);
    }
}

proof fn coarse_as_needed(n: int, p: int)
    requires
        n >= 0,
        p >= 1,
    ensures
        measure::grain(n, p) == p || 2 * n >= measure::HIGH * measure::grain(n, p),
        measure::grain(n, p) >= p,
        n < measure::HIGH * p ==> measure::grain(n, p) == p,
    decreases n - p,
{
    if n >= measure::HIGH * p {
        coarse_as_needed(n, 2 * p);
    }
}

/// Where `n` is below 2^53 of `d`, the quotient is rounded once: to the nearest
/// multiple of `1 / p`, with at least 2^52 of them in `n / d`.
proof fn rounded_once(n: int, d: int)
    requires
        0 < n < measure::HIGH,
        0 < d < measure::HIGH,
    ensures
        ({
            let (q, p, k) = measure::quotient(n, d);
            &&& k == 1
            &&& p >= 1
            &&& n * p >= measure::LOW * d
            &&& 2 * (q * d - n * p) <= d
            &&& 2 * (n * p - q * d) <= d
        }),
{
    coarse_as_needed(n, 1);
    coarse_as_needed(d, 1);
    assert(measure::double(n) == n && measure::double(d) == d);
    doubled_to_reach(n, d, 1);
    assert(measure::lowered(n, d, 1) == (d, 1int));
    let (top, p) = measure::raised(n, d, 1);
    content_laws::rounding_goes_to_the_nearest(top, d);
}

/// A share is within one of the true one, counted in percent, wherever the part
/// is no more than the whole.
pub proof fn a_share_is_in_percent(part: int, whole: int)
    requires
        0 <= part <= whole < measure::HIGH,
    ensures
        measure::share(0, whole) == 0,
        measure::share(part, 0) == 0,
        whole > 0 ==> measure::share(part, whole) * whole < 100 * part + whole,
        whole > 0 ==> measure::share(part, whole) * whole > 100 * part - whole,
{
    if part > 0 {
        let n = part;
        let d = whole;
        rounded_once(n, d);
        let (q, p, k) = measure::quotient(n, d);
        assert(p >= measure::LOW) by (nonlinear_arith)
            requires
                n * p >= measure::LOW * d,
                0 < n <= d,
                p >= 1,
        ;
        assert(q <= p && q >= 0) by (nonlinear_arith)
            requires
                2 * (q * d - n * p) <= d,
                2 * (n * p - q * d) <= d,
                0 < n <= d,
                p >= 1,
        ;
        let x = 100 * q;
        let g = measure::grain(x, 1);
        coarse_as_needed(x, 1);
        content_laws::rounding_goes_to_the_nearest(x, g);
        let v = measure::double(x);
        assert(v == measure::half_even(x, g) * g);
        assert(1000 * (v - x) <= p && 1000 * (x - v) <= p) by {
            if g == 1 {
                assert(v == x) by (nonlinear_arith)
                    requires
                        v == measure::half_even(x, g) * g,
                        2 * (measure::half_even(x, g) * g - x) <= g,
                        2 * (x - measure::half_even(x, g) * g) <= g,
                        g == 1,
                ;
            } else {
                assert(measure::HIGH * g <= 200 * p);
            }
        }
        let s = measure::share(n, d);
        assert(v * 1 == v);
        assert(s == (2 * v + p) / (2 * p));
        vstd::arithmetic::div_mod::lemma_fundamental_div_mod(2 * v + p, 2 * p);
        vstd::arithmetic::div_mod::lemma_mod_bound(2 * v + p, 2 * p);
        let e = 2 * p * s;
        assert(e <= 2 * v + p && e > 2 * v - p);
        // In units of 1 / (1000 p): the share times 2, against 200 q.
        assert(1000 * (e - 200 * q) <= 1002 * p && 1000 * (200 * q - e) <= 1002 * p);
        assert(s * d < 100 * n + d && s * d > 100 * n - d) by (nonlinear_arith)
            requires
                e == 2 * p * s,
                1000 * (e - 200 * q) <= 1002 * p,
                1000 * (200 * q - e) <= 1002 * p,
                2 * (q * d - n * p) <= d,
                2 * (n * p - q * d) <= d,
                p >= measure::LOW,
                measure::LOW >= 1_000_000,
                d > 0,
        {
            // e d against 200 n p.
            assert((e - 200 * q) * d * 1000 <= 1002 * p * d);
            assert((200 * q - e) * d * 1000 <= 1002 * p * d);
            assert(200 * (q * d - n * p) <= 100 * d);
            assert(200 * (n * p - q * d) <= 100 * d);
            assert(1_000_000 * d <= p * d);
            assert(e * d == 2 * p * (s * d));
            assert((e - 200 * q) * d == e * d - 200 * (q * d));
            assert((200 * q - e) * d == 200 * (q * d) - e * d);
            assert(2 * p * (s * d) - 200 * (n * p) < 2 * (p * d));
            assert(200 * (n * p) - 2 * p * (s * d) < 2 * (p * d));
            assert(p * (s * d - 100 * n - d) < 0);
            assert(p * (100 * n - s * d - d) < 0);
        }
    }
}

/// A number shown with one decimal is within a tenth of the true one.
pub proof fn a_decimal_is_within_a_tenth(n: int, d: int)
    requires
        0 < n < 0x100_0000_0000,
        0 < d < measure::HIGH,
    ensures
        measure::tenths(n, d) * d < 10 * n + d,
        measure::tenths(n, d) * d > 10 * n - d,
        measure::tenths(0, d) == 0,
{
    rounded_once(n, d);
    let (q, p, k) = measure::quotient(n, d);
    assert(p >= 0x1000) by (nonlinear_arith)
        requires
            n * p >= measure::LOW * d,
            0 < n < 0x100_0000_0000,
            d >= 1,
            p >= 1,
            measure::LOW == 0x10_0000_0000_0000,
    ;
    assert(q >= 0) by (nonlinear_arith)
        requires
            2 * (n * p - q * d) <= d,
            n > 0,
            d > 0,
            p >= 1,
    ;
    let t = measure::tenths(n, d);
    assert(10 * q * k == 10 * q);
    content_laws::rounding_goes_to_the_nearest(10 * q, p);
    assert(t * d < 10 * n + d && t * d > 10 * n - d) by (nonlinear_arith)
        requires
            2 * (t * p - 10 * q) <= p,
            2 * (10 * q - t * p) <= p,
            2 * (q * d - n * p) <= d,
            2 * (n * p - q * d) <= d,
            p >= 0x1000,
            d > 0,
    {
        assert(2 * (t * p - 10 * q) * d <= p * d);
        assert(2 * (10 * q - t * p) * d <= p * d);
        assert((t * p - 10 * q) * d == p * (t * d) - 10 * (q * d));
        assert((10 * q - t * p) * d == 10 * (q * d) - p * (t * d));
        assert(0x1000 * d <= p * d);
        assert(p * (t * d) - 10 * (n * p) < p * d);
        assert(10 * (n * p) - p * (t * d) < p * d);
        assert(p * (t * d - 10 * n - d) < 0);
        assert(p * (10 * n - t * d - d) < 0);
    }
}

} // verus!
