//! Laws of the credential store: a stored key reads back and a deleted one is
//! gone, and every other entry is as it was.

use vstd::prelude::*;
use crate::credentials;
use crate::credentials::Reading;
use crate::text;

verus! {

// --- white space --------------------------------------------------------------

proof fn start_push(s: Seq<char>, c: char)
    requires
        text::space(c),
    ensures
        text::trim_start(s.push(c)) == if text::trim_start(s).len() == 0 {
            Seq::empty()
        } else {
            text::trim_start(s).push(c)
        },
    decreases s.len(),
{
    if s.len() == 0 {
        assert(s.push(c).skip(1) == Seq::<char>::empty());
        assert(text::trim_start(s.push(c).skip(1)) == Seq::<char>::empty());
        assert(text::trim_start(s) == s);
    } else if text::space(s[0]) {
        assert(s.push(c).skip(1) == s.skip(1).push(c));
        start_push(s.skip(1), c);
    }
}

/// White space at the end is trimmed.
proof fn trim_push(s: Seq<char>, c: char)
    requires
        text::space(c),
    ensures
        text::trim(s.push(c)) == text::trim(s),
{
    start_push(s, c);
    let a = text::trim_start(s);
    if a.len() > 0 {
        assert(a.push(c).drop_last() == a);
    } else {
        assert(a == Seq::<char>::empty());
    }
}

/// White space at the front is trimmed.
proof fn trim_lead(c: char, s: Seq<char>)
    requires
        text::space(c),
    ensures
        text::trim(seq![c] + s) == text::trim(s),
{
    assert((seq![c] + s).skip(1) == s);
}

/// A text whose ends are no white space has nothing to trim.
proof fn word_stays(w: Seq<char>)
    requires
        w.len() > 0,
        !text::space(w[0]),
        !text::space(w.last()),
    ensures
        text::trim(w) == w,
{
}

proof fn start_grows(n: Seq<char>, rest: Seq<char>)
    requires
        text::trim_start(n).len() > 0,
    ensures
        text::trim_start(n + rest) == text::trim_start(n) + rest,
    decreases n.len(),
{
    if n.len() > 0 && text::space(n[0]) {
        assert((n + rest).skip(1) == n.skip(1) + rest);
        start_grows(n.skip(1), rest);
    }
}

/// A text that begins, past white space, with a character begins with it
/// once trimmed.
proof fn trimmed_begins(n: Seq<char>, rest: Seq<char>)
    requires
        text::trim(n).len() > 0,
    ensures
        text::trim(n + rest).len() > 0,
        text::trim(n + rest)[0] == text::trim(n)[0],
{
    text::trimmed_ends(n);
    start_grows(n, rest);
    text::trimmed_ends(n + rest);
}

// --- lines ----------------------------------------------------------------------

/// A value that a line of the document can spell: on one line, not in quotes
/// of its own, and without what would open a comment.
pub open spec fn spellable(v: Seq<char>) -> bool {
    &&& !v.contains('\n')
    &&& credentials::unquoted(v) == v
    &&& credentials::without_comment(seq![' '] + v) == seq![' '] + v
}

/// The line of an entry reads back as the entry.
proof fn entry_reads_back(name: Seq<char>, v: Seq<char>)
    requires
        credentials::valid_name(name),
        v.len() > 0,
        text::trim(v) == v,
        spellable(v),
    ensures
        ({
            let line = credentials::entry_line(name, v);
            &&& credentials::entry_of(line) == Some((name, v))
            &&& credentials::nested(line)
            &&& !credentials::idle(line)
            &&& text::unreturn(line) == line
            &&& text::cut_at(line, ':') is Some
            &&& !line.contains('\n')
        }),
{
    reveal_strlit("  ");
    reveal_strlit(": ");
    let line = credentials::entry_line(name, v);
    let n = name.len() as int + 2;
    assert forall|k: int| 0 <= k < n implies line[k] != ':' && line[k] != '\n' by {
        if k >= 2 {
            assert(line[k] == name[k - 2]);
            assert(k == 2 || credentials::word_start(name[k - 2]) || text::is_digit(name[k - 2]));
        }
    }
    text::first_is_position(line, ':', n);
    let head = seq![' ', ' '] + name;
    assert(line.take(n) == head);
    assert(line.skip(n + 1) == seq![' '] + v);
    assert(head == seq![' '] + (seq![' '] + name));
    trim_lead(' ', seq![' '] + name);
    trim_lead(' ', name);
    let last = name.last();
    assert(credentials::word_start(last) || text::is_digit(last));
    word_stays(name);
    trim_lead(' ', v);
    text::trimmed_ends(v);
    let whole = name + ": "@ + v;
    assert(line == seq![' '] + (seq![' '] + whole));
    trim_lead(' ', seq![' '] + whole);
    trim_lead(' ', whole);
    assert(whole[0] == name[0]);
    assert(whole.last() == v.last());
    word_stays(whole);
    assert(line.last() == v.last());
    assert(text::space('\r'));
    assert forall|k: int| 0 <= k < line.len() implies line[k] != '\n' by {
        if k >= n + 2 {
            assert(line[k] == v[k - n - 2]);
            assert(v.contains(v[k - n - 2]));
        }
    }
}

/// The line of an entry at the top level reads back as the entry.
proof fn flat_reads_back(name: Seq<char>, v: Seq<char>)
    requires
        credentials::valid_name(name),
        v.len() > 0,
        text::trim(v) == v,
        spellable(v),
    ensures
        ({
            let line = credentials::flat_line(name, v);
            &&& credentials::entry_of(line) == Some((name, v))
            &&& !credentials::nested(line)
            &&& !credentials::idle(line)
            &&& sense(line).key == Some(name)
            &&& !line.contains('\n')
        }),
{
    reveal_strlit(": ");
    let line = credentials::flat_line(name, v);
    let n = name.len() as int;
    assert forall|k: int| 0 <= k < n implies line[k] != ':' && line[k] != '\n' by {
        assert(line[k] == name[k]);
        assert(k == 0 || credentials::word_start(name[k]) || text::is_digit(name[k]));
    }
    text::first_is_position(line, ':', n);
    assert(line.take(n) == name);
    assert(line.skip(n + 1) == seq![' '] + v);
    let last = name.last();
    assert(credentials::word_start(last) || text::is_digit(last));
    word_stays(name);
    trim_lead(' ', v);
    text::trimmed_ends(v);
    assert(line[0] == name[0]);
    assert(line.last() == v.last());
    word_stays(line);
    assert forall|k: int| 0 <= k < line.len() implies line[k] != '\n' by {
        if k >= n + 2 {
            assert(line[k] == v[k - n - 2]);
            assert(v.contains(v[k - n - 2]));
        }
    }
}

proof fn comment_push(v: Seq<char>, c: char, i: int)
    requires
        c != '#',
        0 <= i,
    ensures
        credentials::comment_at(v.push(c), i) == credentials::comment_at(v, i)
            || (credentials::comment_at(v, i) == v.len() && credentials::comment_at(v.push(c), i)
            == v.len() + 1),
        i <= v.len() ==> credentials::comment_at(v, i) <= v.len(),
    decreases v.len() - i,
{
    if i + 1 < v.len() {
        assert(v.push(c)[i] == v[i]);
        assert(v.push(c)[i + 1] == v[i + 1]);
        if !(v[i] == ' ' && v[i + 1] == '#') {
            comment_push(v, c, i + 1);
        }
    } else if i + 1 == v.len() {
        assert(v.push(c)[i + 1] == c);
        assert(credentials::comment_at(v.push(c), i + 1) == v.len() + 1);
    }
}

/// A carriage return at the end of a value is no part of it.
proof fn value_push(v: Seq<char>)
    ensures
        text::trim(credentials::without_comment(v.push('\r'))) == text::trim(
            credentials::without_comment(v),
        ),
{
    comment_push(v, '\r', 0);
    let a = credentials::comment_at(v, 0);
    let b = credentials::comment_at(v.push('\r'), 0);
    assert(text::space('\r'));
    if b == a {
        assert(0 <= a <= v.len()) by {
            comment_within(v, 0);
        }
        assert(v.push('\r').take(a) == v.take(a));
    } else {
        assert(v.take(a) == v);
        assert(v.push('\r').take(b) == v.push('\r'));
        trim_push(v, '\r');
    }
}

proof fn comment_within(v: Seq<char>, i: int)
    requires
        0 <= i <= v.len(),
    ensures
        i <= credentials::comment_at(v, i) <= v.len(),
    decreases v.len() - i,
{
    if i + 1 < v.len() {
        comment_within(v, i + 1);
    }
}

/// What the reader makes of a line, but for where it stands.
pub struct Sense {
    pub idle: bool,
    pub nested: bool,
    pub key: Option<Seq<char>>,
    pub plain: Seq<char>,
    pub entry: Option<(Seq<char>, Seq<char>)>,
}

spec fn sense(line: Seq<char>) -> Sense {
    Sense {
        idle: credentials::idle(line),
        nested: !credentials::idle(line) && credentials::nested(line),
        key: match text::cut_at(line, ':') {
            Some((name, _)) => Some(text::trim(name)),
            None => None,
        },
        plain: match text::cut_at(line, ':') {
            Some((_, value)) => text::trim(credentials::without_comment(value)),
            None => Seq::empty(),
        },
        entry: credentials::entry_of(line),
    }
}

/// A carriage return at the end of a line makes no difference.
proof fn return_is_nothing(line: Seq<char>)
    ensures
        sense(text::unreturn(line)) == sense(line),
{
    let u = text::unreturn(line);
    if u != line {
        assert(line == u.push('\r'));
        assert(text::space('\r'));
        trim_push(u, '\r');
        if !credentials::idle(line) {
            assert(u.len() > 0) by {
                if u.len() == 0 {
                    assert(text::trim(u) == u);
                }
            }
            assert(u[0] == line[0]);
        }
        text::position_is_first(u, ':');
        let i = text::position(u, ':');
        assert forall|k: int| 0 <= k < i implies line[k] != ':' by {
            assert(line[k] == u[k]);
        }
        if i < u.len() {
            text::first_is_position(line, ':', i);
            assert(line.take(i) == u.take(i));
            assert(line.skip(i + 1) == u.skip(i + 1).push('\r'));
            value_push(u.skip(i + 1));
        } else {
            text::first_is_position(line, ':', line.len() as int);
        }
    }
}

/// An entry's line is neither blank nor a comment.
proof fn entry_is_not_idle(line: Seq<char>)
    requires
        credentials::entry_of(line) is Some,
    ensures
        !credentials::idle(line),
{
    let i = text::position(line, ':');
    text::position_is_first(line, ':');
    let n = line.take(i);
    assert(line == n + line.skip(i));
    trimmed_begins(n, line.skip(i));
}

// --- reading ----------------------------------------------------------------------

spec fn added(r: Reading, e: (Seq<char>, Seq<char>)) -> Option<Reading> {
    if e.1.len() == 0 || credentials::names(r.refs, e.0) {
        None
    } else {
        Some(Reading { refs: r.refs.push(e), ..r })
    }
}

/// What a line makes of a document half read, where it is not refused.
spec fn taken(r: Reading, s: Sense) -> Option<Reading> {
    if s.idle {
        Some(r)
    } else if s.key is None {
        None
    } else if s.nested {
        if r.in_refs && s.entry is Some {
            added(r, s.entry->0)
        } else {
            None
        }
    } else if s.key == Some("version"@) {
        if text::spelled_u32(s.plain) == Some(1u32) {
            Some(Reading { in_refs: false, ..r })
        } else {
            None
        }
    } else if s.key == Some("refs"@) {
        if s.plain.len() == 0 {
            Some(Reading { in_refs: true, ..r })
        } else {
            None
        }
    } else if s.key == Some("records"@) {
        None
    } else if s.entry is Some {
        added(r, s.entry->0)
    } else {
        None
    }
}

proof fn line_is_taken(r: Reading, index: int, line: Seq<char>)
    ensures
        match credentials::read_line(r, index, line) {
            Ok(x) => taken(r, sense(line)) == Some(x),
            Err(_) => taken(r, sense(line)) is None,
        },
{
    return_is_nothing(line);
    let u = text::unreturn(line);
    assert(sense(u) == sense(line));
    assert(taken(r, sense(u)) == taken(r, sense(line)));
}

/// The document up to line `k`, where it is not refused.
spec fn fold(all: Seq<Seq<char>>, k: int) -> Option<Reading>
    decreases k,
{
    if k <= 0 {
        Some(Reading { refs: Seq::empty(), in_refs: false })
    } else {
        match fold(all, k - 1) {
            Some(r) => taken(r, sense(all[k - 1])),
            None => None,
        }
    }
}

proof fn lines_fold(all: Seq<Seq<char>>, k: int)
    ensures
        match credentials::read_lines(all, k) {
            Ok(x) => fold(all, k) == Some(x),
            Err(_) => fold(all, k) is None,
        },
    decreases k,
{
    if k > 0 {
        lines_fold(all, k - 1);
        match credentials::read_lines(all, k - 1) {
            Ok(r) => line_is_taken(r, k - 1, all[k - 1]),
            Err(_) => {},
        }
    }
}

proof fn fold_agrees(a: Seq<Seq<char>>, b: Seq<Seq<char>>, k: int)
    requires
        forall|i: int| 0 <= i < k ==> sense(#[trigger] a[i]) == sense(b[i]),
    ensures
        fold(a, k) == fold(b, k),
    decreases k,
{
    if k > 0 {
        fold_agrees(a, b, k - 1);
        assert(sense(a[k - 1]) == sense(b[k - 1]));
    }
}

/// What is read at the end was read all along.
proof fn fold_reaches(all: Seq<Seq<char>>, i: int, k: int)
    requires
        0 <= i <= k,
        fold(all, k) is Some,
    ensures
        fold(all, i) is Some,
        (fold(all, i)->0).refs.len() <= (fold(all, k)->0).refs.len(),
        forall|name: Seq<char>|
            credentials::names((fold(all, i)->0).refs, name) ==> #[trigger] credentials::names(
                (fold(all, k)->0).refs,
                name,
            ),
    decreases k,
{
    if i < k {
        fold_reaches(all, i, k - 1);
        let a = (fold(all, k - 1)->0).refs;
        let b = (fold(all, k)->0).refs;
        assert forall|name: Seq<char>| credentials::names(a, name) implies credentials::names(
            b,
            name,
        ) by {
            let j = choose|j: int| 0 <= j < a.len() && #[trigger] a[j].0 == name;
            assert(b[j] == a[j]);
        }
    }
}

// --- lines as a document --------------------------------------------------------------

spec fn on_one_line(all: Seq<Seq<char>>) -> bool {
    forall|i: int| #![trigger all[i]] 0 <= i < all.len() ==> !all[i].contains('\n')
}

/// The lines of a document are free of newlines.
proof fn lines_are_lines(doc: Seq<char>)
    ensures
        on_one_line(credentials::raw_lines(doc)),
{
    text::join_pieces(doc, '\n');
    let p = text::pieces(doc, '\n');
    let all = credentials::raw_lines(doc);
    assert forall|i: int| #![trigger all[i]] 0 <= i < all.len() implies !all[i].contains('\n') by {
        assert(all[i] == p[i]);
    }
}

/// The lines as they are written read as those without their carriage returns.
proof fn written_reads_alike(doc: Seq<char>)
    ensures
        credentials::raw_lines(doc).len() == text::text_lines(doc).len(),
        fold(credentials::raw_lines(doc), credentials::raw_lines(doc).len() as int) == fold(
            text::text_lines(doc),
            text::text_lines(doc).len() as int,
        ),
{
    text::join_pieces(doc, '\n');
    let p = text::pieces(doc, '\n');
    let raw = credentials::raw_lines(doc);
    let all = text::text_lines(doc);
    assert forall|i: int| 0 <= i < raw.len() implies sense(#[trigger] raw[i]) == sense(all[i]) by {
        assert(raw[i] == p[i]);
        return_is_nothing(p[i]);
    }
    fold_agrees(raw, all, raw.len() as int);
}

proof fn closed_is_joined(all: Seq<Seq<char>>)
    ensures
        credentials::closed_text(all) == text::joined(all.push(Seq::empty()), seq!['\n']),
    decreases all.len(),
{
    reveal_strlit("\n");
    assert("\n"@ == seq!['\n']);
    let none = Seq::<char>::empty();
    let sep = seq!['\n'];
    if all.len() == 0 {
        assert(all.push(none) == seq![none]);
    } else {
        let init = all.drop_last();
        let last = all.last();
        closed_is_joined(init);
        assert(all == init.push(last));
        text::joined_push(all, none, sep);
        if init.len() > 0 {
            text::joined_push(init, last, sep);
            text::joined_push(init, none, sep);
            assert(credentials::closed_text(all) == text::joined(init, sep) + sep + last + sep);
        } else {
            assert(all == seq![last]);
            assert(credentials::closed_text(all) == last + sep);
        }
    }
}

/// Closing lines into a document and reading it is reading the lines.
proof fn closed_reads_as_lines(all: Seq<Seq<char>>)
    requires
        on_one_line(all),
    ensures
        credentials::raw_lines(credentials::closed_text(all)) == all,
        ({
            let back = text::text_lines(credentials::closed_text(all));
            fold(back, back.len() as int) == fold(all, all.len() as int)
        }),
{
    let none = Seq::<char>::empty();
    let p = all.push(none);
    closed_is_joined(all);
    assert forall|k: int| #![trigger p[k]] 0 <= k < p.len() implies !p[k].contains('\n') by {
        if k < all.len() {
            assert(p[k] == all[k]);
        }
    }
    text::pieces_joined(p, '\n');
    assert(p.drop_last() == all);
    written_reads_alike(credentials::closed_text(all));
}

/// The entries of the document that lines are closed into.
proof fn closed_document(all: Seq<Seq<char>>)
    requires
        on_one_line(all),
    ensures
        match fold(all, all.len() as int) {
            Some(r) => credentials::document(credentials::closed_text(all)) == Ok::<
                credentials::Refs,
                Seq<char>,
            >(r.refs),
            None => credentials::document(credentials::closed_text(all)) is Err,
        },
{
    closed_reads_as_lines(all);
    let back = text::text_lines(credentials::closed_text(all));
    lines_fold(back, back.len() as int);
}

// --- deleting ------------------------------------------------------------------------

/// The entries without those of a name.
spec fn sans(refs: credentials::Refs, name: Seq<char>) -> credentials::Refs
    decreases refs.len(),
{
    if refs.len() == 0 {
        refs
    } else if refs.last().0 == name {
        sans(refs.drop_last(), name)
    } else {
        sans(refs.drop_last(), name).push(refs.last())
    }
}

proof fn sans_push(refs: credentials::Refs, e: (Seq<char>, Seq<char>), name: Seq<char>)
    ensures
        sans(refs.push(e), name) == if e.0 == name {
            sans(refs, name)
        } else {
            sans(refs, name).push(e)
        },
{
    assert(refs.push(e).drop_last() == refs);
}

proof fn lookup_push(
    refs: credentials::Refs,
    e: (Seq<char>, Seq<char>),
    i: int,
    name: Seq<char>,
)
    requires
        0 <= i <= refs.len(),
    ensures
        credentials::lookup(refs.push(e), i, name) == match credentials::lookup(refs, i, name) {
            Some(v) => Some(v),
            None => if e.0 == name {
                Some(e.1)
            } else {
                None
            },
        },
    decreases refs.len() - i,
{
    reveal_with_fuel(credentials::lookup, 2);
    if i < refs.len() {
        assert(refs.push(e)[i] == refs[i]);
        lookup_push(refs, e, i + 1, name);
    } else {
        assert(refs.push(e)[i] == e);
    }
}

proof fn lookup_names(refs: credentials::Refs, i: int, name: Seq<char>)
    requires
        0 <= i <= refs.len(),
    ensures
        credentials::lookup(refs, i, name) is Some <==> exists|j: int|
            i <= j < refs.len() && #[trigger] refs[j].0 == name,
    decreases refs.len() - i,
{
    if i < refs.len() {
        lookup_names(refs, i + 1, name);
        if credentials::lookup(refs, i + 1, name) is Some && refs[i].0 != name {
            let j = choose|j: int| i + 1 <= j < refs.len() && #[trigger] refs[j].0 == name;
            assert(i <= j < refs.len() && refs[j].0 == name);
        }
    }
}

proof fn sans_names(refs: credentials::Refs, name: Seq<char>, other: Seq<char>)
    ensures
        credentials::lookup(sans(refs, name), 0, other) == if other == name {
            None
        } else {
            credentials::lookup(refs, 0, other)
        },
        credentials::names(sans(refs, name), other) == (other != name && credentials::names(
            refs,
            other,
        )),
    decreases refs.len(),
{
    if refs.len() > 0 {
        let a = refs.drop_last();
        let e = refs.last();
        assert(refs == a.push(e));
        sans_names(a, name, other);
        sans_push(a, e, name);
        lookup_push(a, e, 0, other);
        if e.0 != name {
            lookup_push(sans(a, name), e, 0, other);
        }
    }
    lookup_names(refs, 0, other);
    lookup_names(sans(refs, name), 0, other);
}

/// Reading what is left once a name's lines are dropped.
proof fn dropped_reads(all: Seq<Seq<char>>, k: int, name: Seq<char>)
    requires
        0 <= k <= all.len(),
        fold(all, k) is Some,
        !credentials::layout_key(name),
    ensures
        ({
            let left = credentials::dropped(all, k, name);
            let r = fold(all, k)->0;
            fold(left, left.len() as int) == Some(
                Reading { refs: sans(r.refs, name), in_refs: r.in_refs },
            )
        }),
    decreases k,
{
    if k > 0 {
        dropped_reads(all, k - 1, name);
        let line = all[k - 1];
        let before = credentials::dropped(all, k - 1, name);
        let left = credentials::dropped(all, k, name);
        let r = fold(all, k - 1)->0;
        let x = fold(all, k)->0;
        let rest = Reading { refs: sans(r.refs, name), in_refs: r.in_refs };
        if let Some(e) = credentials::entry_of(line) {
            entry_is_not_idle(line);
            sans_push(r.refs, e, name);
            sans_names(r.refs, name, e.0);
        }
        if !credentials::holds(line, name) {
            assert forall|i: int| 0 <= i < before.len() implies sense(#[trigger] before[i])
                == sense(left[i]) by {
                assert(left[i] == before[i]);
            }
            fold_agrees(before, left, before.len() as int);
            assert(left[left.len() - 1] == line);
            assert(taken(rest, sense(line)) == Some(
                Reading { refs: sans(x.refs, name), in_refs: x.in_refs },
            ));
        }
    } else {
        assert(sans(Seq::empty(), name) == Seq::<(Seq<char>, Seq<char>)>::empty());
    }
}

proof fn dropped_on_one_line(all: Seq<Seq<char>>, k: int, name: Seq<char>)
    requires
        0 <= k <= all.len(),
        on_one_line(all),
    ensures
        on_one_line(credentials::dropped(all, k, name)),
    decreases k,
{
    if k > 0 {
        dropped_on_one_line(all, k - 1, name);
        let before = credentials::dropped(all, k - 1, name);
        let left = credentials::dropped(all, k, name);
        assert forall|i: int| #![trigger left[i]] 0 <= i < left.len() implies !left[i].contains(
            '\n',
        ) by {
            if i < before.len() {
                assert(left[i] == before[i]);
            } else {
                assert(left[i] == all[k - 1]);
            }
        }
    }
}

/// A deleted key is gone, and every other entry is as it was. The names of the
/// document's own layout are no keys to delete.
pub proof fn deleted_key_is_gone(doc: Seq<char>, name: Seq<char>)
    requires
        credentials::document(doc) is Ok,
        !credentials::layout_key(name),
    ensures
        ({
            let left = credentials::document(credentials::without_key(doc, name));
            &&& left is Ok
            &&& credentials::lookup(left->Ok_0, 0, name) is None
            &&& forall|other: Seq<char>|
                other != name ==> #[trigger] credentials::lookup(left->Ok_0, 0, other)
                    == credentials::lookup(credentials::document(doc)->Ok_0, 0, other)
        }),
{
    let all = credentials::raw_lines(doc);
    let n = all.len() as int;
    lines_fold(text::text_lines(doc), n);
    written_reads_alike(doc);
    lines_are_lines(doc);
    dropped_reads(all, n, name);
    dropped_on_one_line(all, n, name);
    closed_document(credentials::dropped(all, n, name));
    let refs = credentials::document(doc)->Ok_0;
    sans_names(refs, name, name);
    assert forall|other: Seq<char>| other != name implies #[trigger] credentials::lookup(
        sans(refs, name),
        0,
        other,
    ) == credentials::lookup(refs, 0, other) by {
        sans_names(refs, name, other);
    }
}

// --- storing --------------------------------------------------------------------------

/// Whether a line opens the `refs:` block.
spec fn opens(s: Sense) -> bool {
    !s.idle && !s.nested && s.key == Some("refs"@)
}

proof fn keys_differ()
    ensures
        "version"@ != "refs"@,
        "version"@ != "records"@,
        "refs"@ != "records"@,
{
    reveal_strlit("version");
    reveal_strlit("refs");
    reveal_strlit("records");
    assert("version"@[0] == 'v');
    assert("refs"@[2] == 'f');
    assert("records"@[2] == 'c');
    assert("refs"@[0] == 'r');
    assert("records"@[0] == 'r');
}

/// The entries with a new value for a name.
spec fn revalued(refs: credentials::Refs, name: Seq<char>, v: Seq<char>) -> credentials::Refs {
    refs.map_values(
        |e: (Seq<char>, Seq<char>)|
            if e.0 == name {
                (name, v)
            } else {
                e
            },
    )
}

proof fn revalued_names(
    refs: credentials::Refs,
    name: Seq<char>,
    v: Seq<char>,
    i: int,
    other: Seq<char>,
)
    requires
        0 <= i <= refs.len(),
    ensures
        credentials::lookup(revalued(refs, name, v), i, other) == if other == name
            && credentials::lookup(refs, i, name) is Some {
            Some(v)
        } else {
            credentials::lookup(refs, i, other)
        },
    decreases refs.len() - i,
{
    reveal_with_fuel(credentials::lookup, 2);
    if i < refs.len() {
        revalued_names(refs, name, v, i + 1, other);
    }
}

proof fn names_is_lookup(refs: credentials::Refs, name: Seq<char>)
    ensures
        credentials::names(refs, name) == (credentials::lookup(refs, 0, name) is Some),
{
    lookup_names(refs, 0, name);
}

/// A patched document half read: as before, but for the value of the name
/// where its entry was replaced.
proof fn patch_reads(all: Seq<Seq<char>>, k: int, name: Seq<char>, v: Seq<char>)
    requires
        0 <= k <= all.len(),
        fold(all, k) is Some,
        credentials::valid_name(name),
        v.len() > 0,
        text::trim(v) == v,
        spellable(v),
    ensures
        ({
            let p = credentials::patch_lines(all, k, name, v);
            let r = fold(all, k)->0;
            &&& p.out.len() == k
            &&& r.in_refs ==> p.header is Some
            &&& p.header matches Some(h) ==> 0 <= h < k && opens(sense(all[h]))
            &&& p.last matches Some(i) ==> 0 <= i < k && p.header is Some && sense(all[i]).nested
            &&& p.replaced == credentials::names(r.refs, name)
            &&& !p.replaced ==> p.out == all.take(k)
            &&& fold(p.out, k) == Some(
                Reading { refs: revalued(r.refs, name, v), in_refs: r.in_refs },
            )
        }),
    decreases k,
{
    let entry = credentials::entry_line(name, v);
    if k > 0 {
        patch_reads(all, k - 1, name, v);
        let q = credentials::patch_lines(all, k - 1, name, v);
        let p = credentials::patch_lines(all, k, name, v);
        let line = all[k - 1];
        let flat = credentials::flat_line(name, v);
        let r = fold(all, k - 1)->0;
        let x = fold(all, k)->0;
        keys_differ();
        entry_reads_back(name, v);
        flat_reads_back(name, v);
        assert forall|i: int| 0 <= i < k - 1 implies sense(#[trigger] q.out[i]) == sense(
            p.out[i],
        ) by {
            assert(p.out[i] == q.out[i]);
        }
        fold_agrees(q.out, p.out, k - 1);
        let was = Reading { refs: revalued(r.refs, name, v), in_refs: r.in_refs };
        if let Some(e) = credentials::entry_of(line) {
            entry_is_not_idle(line);
            names_is_lookup(was.refs, e.0);
            names_is_lookup(r.refs, e.0);
            revalued_names(r.refs, name, v, 0, e.0);
            names_is_lookup(was.refs, name);
            names_is_lookup(r.refs, name);
            names_is_lookup(r.refs.push(e), name);
            lookup_push(r.refs, e, 0, name);
            revalued_names(r.refs, name, v, 0, name);
            assert(revalued(r.refs.push(e), name, v) == if e.0 == name {
                was.refs.push((name, v))
            } else {
                was.refs.push(e)
            });
        }
        assert(all.take(k) == all.take(k - 1).push(line));
        assert(p.out[k - 1] == line || p.out[k - 1] == entry || p.out[k - 1] == flat);
        assert(taken(was, sense(p.out[k - 1])) == Some(
            Reading { refs: revalued(x.refs, name, v), in_refs: x.in_refs },
        ));
    } else {
        let none = Seq::<(Seq<char>, Seq<char>)>::empty();
        assert(revalued(none, name, v) == none);
        assert(credentials::patch_lines(all, 0, name, v).out == all.take(0));
        assert(!credentials::names(none, name));
    }
}

/// Where the block is open, an entry let in leaves the rest as it was read.
proof fn insert_reads(
    all: Seq<Seq<char>>,
    at: int,
    k: int,
    entry: Seq<char>,
    e: (Seq<char>, Seq<char>),
)
    requires
        0 <= at <= k <= all.len(),
        fold(all, at) is Some,
        (fold(all, at)->0).in_refs,
        fold(all, k) is Some,
        !credentials::names((fold(all, k)->0).refs, e.0),
        credentials::entry_of(entry) == Some(e),
        e.1.len() > 0,
        credentials::nested(entry),
        !credentials::idle(entry),
        text::cut_at(entry, ':') is Some,
    ensures
        ({
            let at_refs = (fold(all, at)->0).refs.len() as int;
            let r = fold(all, k)->0;
            &&& at_refs <= r.refs.len()
            &&& fold(all.insert(at, entry), k + 1) == Some(
                Reading { refs: r.refs.insert(at_refs, e), in_refs: r.in_refs },
            )
        }),
    decreases k,
{
    let new = all.insert(at, entry);
    let x = fold(all, at)->0;
    let m = x.refs.len() as int;
    fold_reaches(all, at, k);
    if k == at {
        assert forall|i: int| 0 <= i < at implies sense(#[trigger] all[i]) == sense(new[i]) by {
            assert(new[i] == all[i]);
        }
        fold_agrees(all, new, at);
        assert(new[at] == entry);
        assert(x.refs.push(e) == x.refs.insert(m, e));
    } else {
        fold_reaches(all, k - 1, k);
        fold_reaches(all, at, k - 1);
        insert_reads(all, at, k - 1, entry, e);
        let line = all[k - 1];
        let r = fold(all, k - 1)->0;
        let y = fold(all, k)->0;
        assert(new[k] == line);
        let now = Reading { refs: r.refs.insert(m, e), in_refs: r.in_refs };
        if let Some(d) = credentials::entry_of(line) {
            entry_is_not_idle(line);
            assert(r.refs.push(d).insert(m, e) == r.refs.insert(m, e).push(d));
            if y.refs == r.refs.push(d) {
                assert(y.refs[r.refs.len() as int].0 == d.0);
                assert(d.0 != e.0);
                insert_names(r.refs, m, e, d.0);
            }
        }
        assert(taken(now, sense(line)) == Some(
            Reading { refs: y.refs.insert(m, e), in_refs: y.in_refs },
        ));
    }
}

proof fn insert_names(
    refs: credentials::Refs,
    m: int,
    e: (Seq<char>, Seq<char>),
    other: Seq<char>,
)
    requires
        0 <= m <= refs.len(),
    ensures
        credentials::names(refs.insert(m, e), other) == (credentials::names(refs, other) || e.0
            == other),
{
    let new = refs.insert(m, e);
    if credentials::names(refs, other) {
        let j = choose|j: int| 0 <= j < refs.len() && #[trigger] refs[j].0 == other;
        let i = if j < m {
            j
        } else {
            j + 1
        };
        assert(new[i].0 == other);
    }
    assert(new[m] == e);
    if credentials::names(new, other) {
        let j = choose|j: int| 0 <= j < new.len() && #[trigger] new[j].0 == other;
        if j < m {
            assert(refs[j].0 == other);
        } else if j > m {
            assert(refs[j - 1].0 == other);
        }
    }
}

proof fn insert_lookup(
    refs: credentials::Refs,
    m: int,
    e: (Seq<char>, Seq<char>),
    i: int,
    other: Seq<char>,
)
    requires
        0 <= i <= refs.len() + 1,
        0 <= m <= refs.len(),
        !credentials::names(refs, e.0),
    ensures
        i <= m ==> credentials::lookup(refs.insert(m, e), i, other) == if other == e.0 {
            Some(e.1)
        } else {
            credentials::lookup(refs, i, other)
        },
        i > m ==> credentials::lookup(refs.insert(m, e), i, other) == credentials::lookup(
            refs,
            i - 1,
            other,
        ),
    decreases refs.len() + 1 - i,
{
    let new = refs.insert(m, e);
    if i < new.len() {
        insert_lookup(refs, m, e, i + 1, other);
        if i < m {
            assert(new[i] == refs[i]);
        } else if i > m {
            assert(new[i] == refs[i - 1]);
        } else {
            assert(new[i] == e);
        }
    }
}

spec fn same_but(a: credentials::Refs, b: credentials::Refs, name: Seq<char>) -> bool {
    forall|other: Seq<char>|
        other != name ==> #[trigger] credentials::lookup(b, 0, other) == credentials::lookup(
            a,
            0,
            other,
        )
}

/// Patched lines read with the new value, and every other entry as it was.
proof fn patched_reads(all: Seq<Seq<char>>, name: Seq<char>, v: Seq<char>)
    requires
        fold(all, all.len() as int) is Some,
        credentials::valid_name(name),
        v.len() > 0,
        text::trim(v) == v,
        spellable(v),
        on_one_line(all),
    ensures
        ({
            let new = credentials::patched(all, name, v);
            let r = fold(new, new.len() as int);
            &&& on_one_line(new)
            &&& r is Some
            &&& credentials::lookup((r->0).refs, 0, name) == Some(v)
            &&& same_but((fold(all, all.len() as int)->0).refs, (r->0).refs, name)
        }),
{
    let n = all.len() as int;
    let entry = credentials::entry_line(name, v);
    let p = credentials::patch_lines(all, n, name, v);
    let new = credentials::patched(all, name, v);
    let r = fold(all, n)->0;
    let refs = r.refs;
    patch_reads(all, n, name, v);
    entry_reads_back(name, v);
    names_is_lookup(refs, name);
    flat_reads_back(name, v);
    patch_on_one_line(all, n, name, v);
    if p.replaced {
        revalued_names(refs, name, v, 0, name);
        assert forall|other: Seq<char>| other != name implies #[trigger] credentials::lookup(
            revalued(refs, name, v),
            0,
            other,
        ) == credentials::lookup(refs, 0, other) by {
            revalued_names(refs, name, v, 0, other);
        }
    } else {
        assert(all.take(n) == all);
        keys_differ();
        match p.header {
            Some(h) => {
                let at = match p.last {
                    Some(i) => i + 1,
                    None => h + 1,
                };
                fold_reaches(all, at - 1, n);
                fold_reaches(all, at, n);
                assert((fold(all, at)->0).in_refs);
                insert_reads(all, at, n, entry, (name, v));
                let m = (fold(all, at)->0).refs.len() as int;
                assert(new == all.insert(at, entry));
                assert(new.len() == n + 1);
                insert_lookup(refs, m, (name, v), 0, name);
                assert forall|other: Seq<char>| other != name implies #[trigger] credentials::lookup(
                    refs.insert(m, (name, v)),
                    0,
                    other,
                ) == credentials::lookup(refs, 0, other) by {
                    insert_lookup(refs, m, (name, v), 0, other);
                }
            },
            None => {
                let head = "refs:"@;
                header_opens();
                let mid = all.push(head);
                assert(new == mid.push(entry));
                assert forall|i: int| 0 <= i < n implies sense(#[trigger] all[i]) == sense(
                    mid[i],
                ) by {
                    assert(mid[i] == all[i]);
                }
                fold_agrees(all, mid, n);
                assert(mid[n] == head);
                assert forall|i: int| 0 <= i < n + 1 implies sense(#[trigger] mid[i]) == sense(
                    new[i],
                ) by {
                    assert(new[i] == mid[i]);
                }
                fold_agrees(mid, new, n + 1);
                assert(new[n + 1] == entry);
                let open = Reading { refs, in_refs: true };
                assert(fold(mid, n + 1) == Some(open));
                assert(fold(new, n + 2) == Some(Reading { refs: refs.push((name, v)), ..open }));
                lookup_push(refs, (name, v), 0, name);
                assert forall|other: Seq<char>| other != name implies #[trigger] credentials::lookup(
                    refs.push((name, v)),
                    0,
                    other,
                ) == credentials::lookup(refs, 0, other) by {
                    lookup_push(refs, (name, v), 0, other);
                }
            },
        }
    }
}

/// What the two lines of the layout mean.
proof fn header_opens()
    ensures
        opens(sense("refs:"@)),
        sense("refs:"@).plain.len() == 0,
        !"refs:"@.contains('\n'),
{
    reveal_strlit("refs:");
    reveal_strlit("refs");
    let s = "refs:"@;
    assert(s =~= seq!['r', 'e', 'f', 's', ':']);
    text::first_is_position(s, ':', 4);
    assert(s.take(4) == "refs"@);
    let none = Seq::<char>::empty();
    assert(s.skip(5) == none);
    assert(credentials::without_comment(none) == none);
    assert(text::trim(none) == none);
    word_stays("refs"@);
    word_stays(s);
}

proof fn patch_on_one_line(all: Seq<Seq<char>>, k: int, name: Seq<char>, v: Seq<char>)
    requires
        0 <= k <= all.len(),
        on_one_line(all),
        !credentials::entry_line(name, v).contains('\n'),
        !credentials::flat_line(name, v).contains('\n'),
    ensures
        ({
            let p = credentials::patch_lines(all, k, name, v);
            &&& on_one_line(p.out)
            &&& p.out.len() == k
            &&& p.header matches Some(h) ==> 0 <= h < k
            &&& p.last matches Some(i) ==> 0 <= i < k
            &&& on_one_line(credentials::patch_end(p, credentials::entry_line(name, v)))
        }),
    decreases k,
{
    let entry = credentials::entry_line(name, v);
    let flat = credentials::flat_line(name, v);
    header_opens();
    if k > 0 {
        patch_on_one_line(all, k - 1, name, v);
        let q = credentials::patch_lines(all, k - 1, name, v);
        let p = credentials::patch_lines(all, k, name, v);
        assert forall|i: int| #![trigger p.out[i]] 0 <= i < p.out.len() implies !p.out[i].contains(
            '\n',
        ) by {
            if i < k - 1 {
                assert(p.out[i] == q.out[i]);
            } else {
                assert(p.out[i] == all[k - 1] || p.out[i] == entry || p.out[i] == flat);
            }
        }
    }
    let p = credentials::patch_lines(all, k, name, v);
    let new = credentials::patch_end(p, entry);
    assert forall|i: int| #![trigger new[i]] 0 <= i < new.len() implies !new[i].contains(
        '\n',
    ) by {
        if !p.replaced {
            match p.header {
                Some(h) => {
                    let at = match p.last {
                        Some(j) => j + 1,
                        None => h + 1,
                    };
                    if i < at {
                        assert(new[i] == p.out[i]);
                    } else if i == at {
                        assert(new[i] == entry);
                    } else {
                        assert(new[i] == p.out[i - 1]);
                    }
                },
                None => {
                    if i < k {
                        assert(new[i] == p.out[i]);
                    }
                },
            }
        }
    }
}

// --- a flat document ----------------------------------------------------------------------

proof fn version_line()
    ensures
        ({
            let s = sense("version: 1"@);
            &&& !s.idle
            &&& !s.nested
            &&& s.key == Some("version"@)
            &&& text::spelled_u32(s.plain) == Some(1u32)
        }),
        !"version: 1"@.contains('\n'),
{
    reveal_strlit("version: 1");
    reveal_strlit("version");
    let s = "version: 1"@;
    assert(s =~= seq!['v', 'e', 'r', 's', 'i', 'o', 'n', ':', ' ', '1']);
    text::first_is_position(s, ':', 7);
    assert(s.take(7) == "version"@);
    let value = seq![' ', '1'];
    assert(s.skip(8) == value);
    assert(credentials::comment_at(value, 0) == 2) by {
        reveal_with_fuel(credentials::comment_at, 3);
    }
    assert(credentials::without_comment(value) == value);
    let one = seq!['1'];
    assert(value == seq![' '] + one);
    trim_lead(' ', one);
    word_stays(one);
    word_stays("version"@);
    word_stays(s);
    assert(text::digits_value(one) == 1) by {
        reveal_with_fuel(text::digits_value, 2);
        assert(one.drop_last() == Seq::<char>::empty());
    }
    assert(text::all_digits(one));
}

/// Indenting a line changes only where it stands.
proof fn indent_keeps(line: Seq<char>)
    ensures
        ({
            let a = sense(line);
            let b = sense(credentials::indented(line));
            &&& b.idle == a.idle
            &&& b.key == a.key
            &&& b.plain == a.plain
            &&& b.entry == a.entry
            &&& b.nested == !b.idle
        }),
{
    if text::unreturn(line).len() > 0 {
        reveal_strlit("  ");
        let new = credentials::indented(line);
        let mid = seq![' '] + line;
        assert(new == seq![' '] + mid);
        trim_lead(' ', line);
        trim_lead(' ', mid);
        text::position_is_first(line, ':');
        let i = text::position(line, ':');
        assert forall|k: int| 0 <= k < i + 2 implies new[k] != ':' by {
            if k >= 2 {
                assert(new[k] == line[k - 2]);
            }
        }
        text::first_is_position(new, ':', i + 2);
        if i < line.len() {
            let head = line.take(i);
            assert(new.take(i + 2) == seq![' '] + (seq![' '] + head));
            trim_lead(' ', head);
            trim_lead(' ', seq![' '] + head);
            assert(new.skip(i + 3) == line.skip(i + 1));
        }
    } else {
        return_is_nothing(line);
        assert(text::trim(text::unreturn(line)) == text::unreturn(line));
    }
}

/// A document without the `version:` line.
spec fn bare(all: Seq<Seq<char>>) -> bool {
    forall|i: int| 0 <= i < all.len() ==> !credentials::top_key(#[trigger] all[i], "version"@)
}

/// A flat document nested under `refs:` has the same entries.
proof fn nested_reads(all: Seq<Seq<char>>, k: int)
    requires
        0 <= k <= all.len(),
        bare(all),
        !credentials::blocked(all),
        fold(all, k) is Some,
    ensures
        !(fold(all, k)->0).in_refs,
        fold(credentials::nested_under_refs(all), k + 2) == Some(
            Reading { refs: (fold(all, k)->0).refs, in_refs: true },
        ),
    decreases k,
{
    let new = credentials::nested_under_refs(all);
    keys_differ();
    if k == 0 {
        version_line();
        header_opens();
        assert(new[0] == "version: 1"@);
        assert(new[1] == "refs:"@);
        reveal_with_fuel(fold, 3);
    } else {
        nested_reads(all, k - 1);
        let line = all[k - 1];
        assert(new[k + 1] == credentials::indented(line));
        indent_keeps(line);
        assert(!credentials::top_key(line, "version"@));
        assert(!credentials::top_key(line, "refs"@));
    }
}

/// The version line before a document changes none of its entries.
proof fn enveloped_reads(all: Seq<Seq<char>>, k: int)
    requires
        0 <= k <= all.len(),
    ensures
        fold(seq!["version: 1"@] + all, k + 1) == fold(all, k),
    decreases k,
{
    let new = seq!["version: 1"@] + all;
    keys_differ();
    if k == 0 {
        version_line();
        assert(new[0] == "version: 1"@);
        reveal_with_fuel(fold, 2);
    } else {
        enveloped_reads(all, k - 1);
        assert(new[k] == all[k - 1]);
    }
}

/// A document brought to the version-1 layout has the same entries.
proof fn migrated_reads(all: Seq<Seq<char>>)
    requires
        bare(all),
        fold(all, all.len() as int) is Some,
    ensures
        ({
            let new = credentials::migrated(all);
            let r = fold(new, new.len() as int);
            r is Some && (r->0).refs == (fold(all, all.len() as int)->0).refs
        }),
{
    let n = all.len() as int;
    let new = credentials::migrated(all);
    if credentials::blocked(all) {
        enveloped_reads(all, n);
        assert(new.len() == n + 1);
    } else {
        nested_reads(all, n);
        assert(new.len() == n + 2);
    }
}

proof fn migrated_on_one_line(all: Seq<Seq<char>>)
    requires
        on_one_line(all),
    ensures
        on_one_line(credentials::migrated(all)),
{
    version_line();
    header_opens();
    reveal_strlit("  ");
    let new = credentials::migrated(all);
    assert forall|i: int| #![trigger new[i]] 0 <= i < new.len() implies !new[i].contains(
        '\n',
    ) by {
        if credentials::blocked(all) {
            if i >= 1 {
                assert(new[i] == all[i - 1]);
            }
        } else if i >= 2 {
            let line = all[i - 2];
            assert(new[i] == credentials::indented(line));
            if new[i].contains('\n') && text::unreturn(line).len() > 0 {
                let j = choose|j: int| 0 <= j < new[i].len() && new[i][j] == '\n';
                assert(line[j - 2] == '\n');
            }
        }
    }
}

/// A stored key reads back, whether its name was new or replaced, and every
/// other entry is as it was. What is written is understood: no name is in it
/// twice.
pub proof fn stored_key_reads_back(doc: Seq<char>, name: Seq<char>, value: Seq<char>)
    requires
        credentials::stored(doc, name, value) is Ok,
        spellable(text::trim(value)),
    ensures
        ({
            let new = credentials::document(credentials::stored(doc, name, value)->Ok_0);
            &&& new is Ok
            &&& credentials::lookup(new->Ok_0, 0, name) == Some(text::trim(value))
            &&& forall|other: Seq<char>|
                other != name ==> #[trigger] credentials::lookup(new->Ok_0, 0, other)
                    == credentials::lookup(credentials::document(doc)->Ok_0, 0, other)
        }),
{
    let v = text::trim(value);
    let all = credentials::raw_lines(doc);
    let n = all.len() as int;
    text::trim_is_stable(value);
    lines_fold(text::text_lines(doc), n);
    written_reads_alike(doc);
    lines_are_lines(doc);
    let base = if credentials::versioned(all) {
        all
    } else {
        credentials::migrated(all)
    };
    if !credentials::versioned(all) {
        assert(bare(all));
        migrated_reads(all);
        migrated_on_one_line(all);
    }
    patched_reads(base, name, v);
    closed_document(credentials::patched(base, name, v));
}

// --- what a write leaves alone -----------------------------------------------------------

proof fn dropped_agrees(a: Seq<Seq<char>>, b: Seq<Seq<char>>, k: int, name: Seq<char>)
    requires
        0 <= k <= a.len(),
        k <= b.len(),
        forall|i: int| 0 <= i < k ==> #[trigger] a[i] == b[i],
    ensures
        credentials::dropped(a, k, name) == credentials::dropped(b, k, name),
    decreases k,
{
    if k > 0 {
        dropped_agrees(a, b, k - 1, name);
        assert(a[k - 1] == b[k - 1]);
    }
}

proof fn dropped_insert(
    all: Seq<Seq<char>>,
    at: int,
    k: int,
    entry: Seq<char>,
    name: Seq<char>,
)
    requires
        0 <= at <= k <= all.len(),
        credentials::holds(entry, name),
    ensures
        credentials::dropped(all.insert(at, entry), k + 1, name) == credentials::dropped(
            all,
            k,
            name,
        ),
    decreases k,
{
    let new = all.insert(at, entry);
    if k == at {
        dropped_agrees(all, new, at, name);
        assert(new[at] == entry);
    } else {
        dropped_insert(all, at, k - 1, entry, name);
        assert(new[k] == all[k - 1]);
    }
}

proof fn entry_holds(name: Seq<char>, line: Seq<char>)
    requires
        !credentials::layout_key(name),
        credentials::entry_of(line) matches Some(e) && e.0 == name,
    ensures
        credentials::holds(line, name),
{
}

proof fn patch_drops_alike(all: Seq<Seq<char>>, k: int, name: Seq<char>, v: Seq<char>)
    requires
        0 <= k <= all.len(),
        !credentials::layout_key(name),
        credentials::holds(credentials::entry_line(name, v), name),
        credentials::holds(credentials::flat_line(name, v), name),
    ensures
        ({
            let p = credentials::patch_lines(all, k, name, v);
            &&& p.out.len() == k
            &&& p.header matches Some(h) ==> 0 <= h < k
            &&& p.last matches Some(i) ==> 0 <= i < k
            &&& credentials::dropped(p.out, k, name) == credentials::dropped(all, k, name)
        }),
    decreases k,
{
    if k > 0 {
        let entry = credentials::entry_line(name, v);
        let flat = credentials::flat_line(name, v);
        patch_drops_alike(all, k - 1, name, v);
        let q = credentials::patch_lines(all, k - 1, name, v);
        let p = credentials::patch_lines(all, k, name, v);
        dropped_agrees(q.out, p.out, k - 1, name);
        let line = all[k - 1];
        if credentials::entry_of(line) is Some && (credentials::entry_of(line)->0).0 == name {
            entry_holds(name, line);
        }
        assert(p.out[k - 1] == line || ((p.out[k - 1] == entry || p.out[k - 1] == flat)
            && credentials::holds(line, name)));
    }
}

/// A write patches only its own entry: of a document under the version
/// envelope every other line stays as it is spelled, blank lines and comments
/// with it, in its place. Where the name has no entry and there is no `refs:`
/// block yet, one is opened at the end.
pub proof fn storing_keeps_every_other_line(all: Seq<Seq<char>>, name: Seq<char>, v: Seq<char>)
    requires
        credentials::valid_name(name),
        !credentials::layout_key(name),
        v.len() > 0,
        text::trim(v) == v,
        spellable(v),
    ensures
        ({
            let new = credentials::patched(all, name, v);
            let left = credentials::dropped(all, all.len() as int, name);
            let p = credentials::patch_lines(all, all.len() as int, name, v);
            credentials::dropped(new, new.len() as int, name) == if p.replaced
                || credentials::blocked(all) {
                left
            } else {
                left.push("refs:"@)
            }
        }),
{
    let n = all.len() as int;
    let entry = credentials::entry_line(name, v);
    let p = credentials::patch_lines(all, n, name, v);
    let new = credentials::patched(all, name, v);
    entry_reads_back(name, v);
    flat_reads_back(name, v);
    entry_holds(name, entry);
    entry_holds(name, credentials::flat_line(name, v));
    patch_drops_alike(all, n, name, v);
    header_is_found(all, n, name, v);
    if !p.replaced {
        match p.header {
            Some(h) => {
                let at = match p.last {
                    Some(i) => i + 1,
                    None => h + 1,
                };
                dropped_insert(p.out, at, n, entry, name);
            },
            None => {
                header_opens();
                let mid = p.out.push("refs:"@);
                dropped_agrees(p.out, mid, n, name);
                dropped_agrees(mid, new, n + 1, name);
                assert(mid[n] == "refs:"@);
                assert(new[n + 1] == entry);
                assert(!credentials::holds("refs:"@, name));
                assert(credentials::dropped(mid, n + 1, name) == credentials::dropped(
                    all,
                    n,
                    name,
                ).push("refs:"@));
            },
        }
    }
}

proof fn header_is_found(all: Seq<Seq<char>>, k: int, name: Seq<char>, v: Seq<char>)
    requires
        0 <= k <= all.len(),
    ensures
        credentials::patch_lines(all, k, name, v).header is Some <==> exists|i: int|
            0 <= i < k && credentials::top_key(#[trigger] all[i], "refs"@),
    decreases k,
{
    if k > 0 {
        header_is_found(all, k - 1, name, v);
        if credentials::top_key(all[k - 1], "refs"@) {
        } else if exists|i: int| 0 <= i < k && credentials::top_key(#[trigger] all[i], "refs"@) {
            let i = choose|i: int|
                0 <= i < k && credentials::top_key(#[trigger] all[i], "refs"@);
            assert(i < k - 1);
        }
    }
}

/// The lines of a written document are the lines that were to be written, byte
/// for byte.
pub proof fn written_lines_read_back(all: Seq<Seq<char>>)
    requires
        forall|i: int| #![trigger all[i]] 0 <= i < all.len() ==> !all[i].contains('\n'),
    ensures
        credentials::raw_lines(credentials::closed_text(all)) == all,
{
    closed_reads_as_lines(all);
}

proof fn idle_insert(all: Seq<Seq<char>>, at: int, k: int, line: Seq<char>)
    requires
        0 <= at <= k <= all.len(),
        credentials::idle(line),
    ensures
        fold(all.insert(at, line), k + 1) == fold(all, k),
    decreases k,
{
    let new = all.insert(at, line);
    if k == at {
        assert forall|i: int| 0 <= i < at implies sense(#[trigger] all[i]) == sense(new[i]) by {
            assert(new[i] == all[i]);
        }
        fold_agrees(all, new, at);
        assert(new[at] == line);
    } else {
        idle_insert(all, at, k - 1, line);
        assert(new[k] == all[k - 1]);
    }
}

/// Blank lines and comments change nothing in what a document holds, wherever
/// they stand.
pub proof fn idle_lines_change_nothing(all: Seq<Seq<char>>, at: int, line: Seq<char>)
    requires
        0 <= at <= all.len(),
        credentials::idle(line),
        !line.contains('\n'),
        forall|i: int| #![trigger all[i]] 0 <= i < all.len() ==> !all[i].contains('\n'),
    ensures
        match credentials::document(credentials::closed_text(all)) {
            Ok(refs) => credentials::document(credentials::closed_text(all.insert(at, line)))
                == Ok::<credentials::Refs, Seq<char>>(refs),
            Err(_) => credentials::document(credentials::closed_text(all.insert(at, line))) is Err,
        },
{
    let new = all.insert(at, line);
    assert forall|i: int| #![trigger new[i]] 0 <= i < new.len() implies !new[i].contains(
        '\n',
    ) by {
        if i < at {
            assert(new[i] == all[i]);
        } else if i > at {
            assert(new[i] == all[i - 1]);
        }
    }
    idle_insert(all, at, all.len() as int, line);
    closed_document(all);
    closed_document(new);
}

/// A document that others can read too, that cannot be read or that is not
/// understood is never overwritten: there is nothing to write. Every other one
/// takes every key that can be stored.
pub proof fn refused_documents_stay(
    path: Seq<char>,
    mode: Option<u32>,
    read: Result<Option<Seq<char>>, Seq<char>>,
    name: Seq<char>,
    value: Seq<char>,
)
    requires
        text::trim(value).len() > 0,
        credentials::valid_name(name),
    ensures
        credentials::stored_over(path, mode, read, name, value) is Err <==> {
            ||| mode matches Some(m) && m % 64 != 0
            ||| read is Err
            ||| read matches Ok(Some(doc)) && credentials::document(doc) is Err
        },
{
    let none = Seq::<char>::empty();
    lines_fold(text::text_lines(none), text::text_lines(none).len() as int);
    closed_document(Seq::empty());
    assert(credentials::closed_text(Seq::empty()) == none);
}

} // verus!
