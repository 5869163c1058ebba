//! Text as sequences of characters: the small vocabulary every other module
//! speaks, with each operation stated over the view of its strings.

use vstd::prelude::*;
use vstd::string::*;

verus! {

/// `String::push` of the standard library: appends one character.
pub assume_specification[ String::push ](s: &mut String, ch: char)
    ensures
        final(s)@ == old(s)@.push(ch),
;

/// The characters of the Unicode `White_Space` property.
pub open spec fn space(c: char) -> bool {
    let n = c as u32;
    ||| 9 <= n <= 13
    ||| n == 0x20
    ||| n == 0x85
    ||| n == 0xa0
    ||| n == 0x1680
    ||| 0x2000 <= n <= 0x200a
    ||| n == 0x2028
    ||| n == 0x2029
    ||| n == 0x202f
    ||| n == 0x205f
    ||| n == 0x3000
}

pub fn is_space(c: char) -> (r: bool)
    ensures
        r == space(c),
{
    let n: u32 = c as u32;
    (9 <= n && n <= 13) || n == 0x20 || n == 0x85 || n == 0xa0 || n == 0x1680 || (0x2000 <= n && n
        <= 0x200a) || n == 0x2028 || n == 0x2029 || n == 0x202f || n == 0x205f || n == 0x3000
}

/// The characters of a string, in order.
pub fn chars(s: &str) -> (r: Vec<char>)
    ensures
        r@ == s@,
{
    let mut out: Vec<char> = Vec::new();
    for c in it: s.chars()
        invariant
            out@ == s@.take(it.index()),
            it.seq() == s@,
    {
        out.push(c);
    }
    assert(s@.take(s@.len() as int) == s@);
    out
}

/// The string made of `v[from..to]`.
pub fn string_of(v: &Vec<char>, from: usize, to: usize) -> (r: String)
    requires
        from <= to <= v.len(),
    ensures
        r@ == v@.subrange(from as int, to as int),
{
    let mut out = String::new();
    let mut i: usize = from;
    while i < to
        invariant
            from <= i <= to <= v.len(),
            out@ == v@.subrange(from as int, i as int),
        decreases to - i,
    {
        out.push(v[i]);
        i += 1;
    }
    out
}

/// Whether two strings hold the same characters.
pub fn same(a: &str, b: &str) -> (r: bool)
    ensures
        r == (a@ == b@),
{
    let x = String::from_str(a);
    let y = String::from_str(b);
    x == y
}

/// The views of a list of strings.
pub open spec fn views(v: Seq<String>) -> Seq<Seq<char>> {
    v.map_values(|s: String| s@)
}

/// `a` followed by `b`.
pub fn cat(a: &str, b: &str) -> (r: String)
    ensures
        r@ == a@ + b@,
{
    let mut s = String::from_str(a);
    s.append(b);
    s
}

/// Three strings in a row.
pub fn cat3(a: &str, b: &str, c: &str) -> (r: String)
    ensures
        r@ == a@ + b@ + c@,
{
    let mut s = String::from_str(a);
    s.append(b);
    s.append(c);
    s
}

/// Four strings in a row.
pub fn cat4(a: &str, b: &str, c: &str, d: &str) -> (r: String)
    ensures
        r@ == a@ + b@ + c@ + d@,
{
    let mut s = cat3(a, b, c);
    s.append(d);
    s
}

/// Five strings in a row.
pub fn cat5(a: &str, b: &str, c: &str, d: &str, e: &str) -> (r: String)
    ensures
        r@ == a@ + b@ + c@ + d@ + e@,
{
    let mut s = cat4(a, b, c, d);
    s.append(e);
    s
}

/// A copy of an optional string.
pub fn copy_opt(o: &Option<String>) -> (r: Option<String>)
    ensures
        r == *o,
{
    match o {
        Some(s) => Some(s.clone()),
        None => None,
    }
}

/// The view of an optional string.
pub open spec fn view_opt(o: Option<String>) -> Option<Seq<char>> {
    match o {
        Some(s) => Some(s@),
        None => None,
    }
}

/// Whether an optional string holds exactly `s`.
pub fn opt_is(o: &Option<String>, s: &str) -> (r: bool)
    ensures
        r == (view_opt(*o) == Some(s@)),
{
    match o {
        Some(x) => same(x.as_str(), s),
        None => false,
    }
}

/// Whether two optional strings hold the same text, or are both absent.
pub fn opt_same(a: &Option<String>, b: &Option<String>) -> (r: bool)
    ensures
        r == (view_opt(*a) == view_opt(*b)),
{
    match (a, b) {
        (Some(x), Some(y)) => same(x.as_str(), y.as_str()),
        (None, None) => true,
        _ => false,
    }
}

/// A copy of a list of strings.
pub fn copy_list(v: &Vec<String>) -> (r: Vec<String>)
    ensures
        r@ == v@,
{
    let mut out: Vec<String> = Vec::new();
    let mut i: usize = 0;
    while i < v.len()
        invariant
            i <= v.len(),
            out@ == v@.take(i as int),
        decreases v.len() - i,
    {
        out.push(v[i].clone());
        i += 1;
    }
    assert(v@.take(v@.len() as int) == v@);
    out
}

/// Whether `s` begins with `prefix`.
pub fn starts_with(s: &str, prefix: &str) -> (r: bool)
    ensures
        r == prefix@.is_prefix_of(s@),
{
    let a = chars(s);
    let p = chars(prefix);
    if p.len() > a.len() {
        return false;
    }
    let mut i: usize = 0;
    while i < p.len()
        invariant
            i <= p.len() <= a.len(),
            p@ == prefix@,
            a@ == s@,
            forall|k: int| 0 <= k < i ==> p@[k] == a@[k],
        decreases p.len() - i,
    {
        if a[i] != p[i] {
            assert(s@.subrange(0, p@.len() as int)[i as int] == a@[i as int]);
            return false;
        }
        i += 1;
    }
    assert(prefix@ == s@.subrange(0, prefix@.len() as int));
    true
}

/// Whether `s` begins with the character `c`.
pub open spec fn leads(s: Seq<char>, c: char) -> bool {
    s.len() > 0 && s[0] == c
}

pub fn starts_with_char(s: &str, c: char) -> (r: bool)
    ensures
        r == leads(s@, c),
{
    s.unicode_len() > 0 && s.get_char(0) == c
}

/// The text of `s` from character `n` on.
pub fn tail(s: &str, n: usize) -> (r: String)
    requires
        n <= s@.len(),
    ensures
        r@ == s@.skip(n as int),
{
    let v = chars(s);
    string_of(&v, n, v.len())
}

/// `s` without its leading white space.
pub open spec fn trim_start(s: Seq<char>) -> Seq<char>
    decreases s.len(),
{
    if s.len() > 0 && space(s[0]) {
        trim_start(s.skip(1))
    } else {
        s
    }
}

/// `s` without its trailing white space.
pub open spec fn trim_end(s: Seq<char>) -> Seq<char>
    decreases s.len(),
{
    if s.len() > 0 && space(s.last()) {
        trim_end(s.drop_last())
    } else {
        s
    }
}

/// `s` without white space at either end.
pub open spec fn trim(s: Seq<char>) -> Seq<char> {
    trim_end(trim_start(s))
}

/// How many leading characters of `v` are white space.
fn leading_spaces(v: &Vec<char>) -> (n: usize)
    ensures
        n <= v.len(),
        trim_start(v@) == v@.skip(n as int),
{
    let mut i: usize = 0;
    assert(v@.skip(0) == v@);
    while i < v.len() && is_space(v[i])
        invariant
            i <= v.len(),
            trim_start(v@) == trim_start(v@.skip(i as int)),
        decreases v.len() - i,
    {
        assert(v@.skip(i as int).skip(1) == v@.skip(i as int + 1));
        i += 1;
    }
    i
}

/// Where the trailing white space of `v[from..]` begins.
fn trailing_end(v: &Vec<char>, from: usize) -> (n: usize)
    requires
        from <= v.len(),
    ensures
        from <= n <= v.len(),
        trim_end(v@.skip(from as int)) == v@.subrange(from as int, n as int),
{
    let mut i: usize = v.len();
    assert(v@.skip(from as int) == v@.subrange(from as int, i as int));
    while i > from && is_space(v[i - 1])
        invariant
            from <= i <= v.len(),
            trim_end(v@.skip(from as int)) == trim_end(v@.subrange(from as int, i as int)),
        decreases i,
    {
        assert(v@.subrange(from as int, i as int).drop_last() == v@.subrange(
            from as int,
            i as int - 1,
        ));
        i -= 1;
    }
    i
}

/// `str::trim`.
pub fn trimmed(s: &str) -> (r: String)
    ensures
        r@ == trim(s@),
{
    let v = chars(s);
    let a = leading_spaces(&v);
    let b = trailing_end(&v, a);
    string_of(&v, a, b)
}

/// `str::trim_start`.
pub fn start_trimmed(s: &str) -> (r: String)
    ensures
        r@ == trim_start(s@),
{
    let v = chars(s);
    let a = leading_spaces(&v);
    string_of(&v, a, v.len())
}

/// `str::trim_end`.
pub fn end_trimmed(s: &str) -> (r: String)
    ensures
        r@ == trim_end(s@),
{
    let v = chars(s);
    let b = trailing_end(&v, 0);
    assert(v@.skip(0) == v@);
    string_of(&v, 0, b)
}

proof fn trim_start_facts(s: Seq<char>)
    ensures
        trim_start(s).len() == 0 || !space(trim_start(s)[0]),
    decreases s.len(),
{
    if s.len() > 0 && space(s[0]) {
        trim_start_facts(s.skip(1));
    }
}

proof fn trim_end_facts(s: Seq<char>)
    ensures
        trim_end(s).len() == 0 || !space(trim_end(s).last()),
        trim_end(s).len() <= s.len(),
        trim_end(s) == s.take(trim_end(s).len() as int),
    decreases s.len(),
{
    if s.len() > 0 && space(s.last()) {
        trim_end_facts(s.drop_last());
        assert(s.drop_last().take(trim_end(s).len() as int) == s.take(trim_end(s).len() as int));
    } else {
        assert(s.take(s.len() as int) == s);
    }
}

/// What is trimmed has no white space at its ends.
pub proof fn trimmed_ends(s: Seq<char>)
    ensures
        trim(s).len() == 0 || (!space(trim(s)[0]) && !space(trim(s).last())),
        trim_start(s).len() > 0 ==> trim(s).len() > 0 && trim(s)[0] == trim_start(s)[0],
        trim_start(s).len() == 0 ==> trim(s).len() == 0,
{
    let a = trim_start(s);
    trim_start_facts(s);
    trim_end_facts(a);
    if a.len() > 0 {
        first_stays(a);
    }
}

proof fn first_stays(a: Seq<char>)
    requires
        a.len() > 0,
        !space(a[0]),
    ensures
        trim_end(a).len() > 0,
        trim_end(a)[0] == a[0],
    decreases a.len(),
{
    if space(a.last()) {
        assert(a.drop_last()[0] == a[0]);
        first_stays(a.drop_last());
    }
}

/// What is trimmed has nothing more to trim.
pub proof fn trim_is_stable(s: Seq<char>)
    ensures
        trim(trim(s)) == trim(s),
{
    let a = trim_start(s);
    trim_start_facts(s);
    trim_end_facts(a);
    let b = trim_end(a);
    if b.len() > 0 {
        assert(b[0] == a[0]);
    }
    assert(trim_start(b) == b);
}

/// Whether `s` is empty or all white space.
pub open spec fn blank(s: Seq<char>) -> bool {
    trim(s).len() == 0
}

pub fn is_blank(s: &str) -> (r: bool)
    ensures
        r == blank(s@),
{
    let t = trimmed(s);
    t.as_str().is_empty()
}

/// The first position of `c` in `s`, or the length of `s` where it has none.
pub open spec fn position(s: Seq<char>, c: char) -> int
    decreases s.len(),
{
    if s.len() == 0 || s[0] == c {
        0
    } else {
        1 + position(s.skip(1), c)
    }
}

/// `position` finds the first occurrence.
pub proof fn position_is_first(s: Seq<char>, c: char)
    ensures
        0 <= position(s, c) <= s.len(),
        forall|k: int| 0 <= k < position(s, c) ==> s[k] != c,
        position(s, c) < s.len() ==> s[position(s, c)] == c,
    decreases s.len(),
{
    if s.len() > 0 && s[0] != c {
        position_is_first(s.skip(1), c);
        assert forall|k: int| 0 <= k < position(s, c) implies s[k] != c by {
            if k > 0 {
                assert(s.skip(1)[k - 1] == s[k]);
            }
        }
    }
}

/// A first occurrence is where `position` says.
pub proof fn first_is_position(s: Seq<char>, c: char, i: int)
    requires
        0 <= i <= s.len(),
        forall|k: int| 0 <= k < i ==> s[k] != c,
        i < s.len() ==> s[i] == c,
    ensures
        position(s, c) == i,
{
    position_is_first(s, c);
}

/// The index of the first `c` in `v[from..]`, or the length of `v`.
pub fn index_from(v: &Vec<char>, from: usize, c: char) -> (r: usize)
    requires
        from <= v.len(),
    ensures
        from <= r <= v.len(),
        r == from + position(v@.skip(from as int), c),
{
    let mut i: usize = from;
    while i < v.len() && v[i] != c
        invariant
            from <= i <= v.len(),
            forall|k: int| from <= k < i ==> v@[k] != c,
        decreases v.len() - i,
    {
        i += 1;
    }
    proof {
        let t = v@.skip(from as int);
        assert forall|k: int| 0 <= k < i - from implies t[k] != c by {
            assert(t[k] == v@[k + from]);
        }
        first_is_position(t, c, i - from);
    }
    i
}

/// `s` cut at every `c`: one piece more than there are cuts.
pub open spec fn pieces(s: Seq<char>, c: char) -> Seq<Seq<char>>
    decreases s.len(),
{
    let i = position(s, c);
    if 0 <= i < s.len() {
        seq![s.take(i)] + pieces(s.skip(i + 1), c)
    } else {
        seq![s]
    }
}

/// `str::split` on one character.
pub fn split(s: &str, c: char) -> (r: Vec<String>)
    ensures
        views(r@) == pieces(s@, c),
{
    let v = chars(s);
    let mut out: Vec<String> = Vec::new();
    let mut from: usize = 0;
    assert(v@.skip(0) == s@);
    assert(views(out@) + pieces(s@, c) == pieces(s@, c));
    loop
        invariant_except_break
            pieces(s@, c) == views(out@) + pieces(v@.skip(from as int), c),
        invariant
            v@ == s@,
            from <= v.len(),
        ensures
            pieces(s@, c) == views(out@),
        decreases v.len() - from,
    {
        let i = index_from(&v, from, c);
        let ghost rest = v@.skip(from as int);
        let ghost before = views(out@);
        let piece = string_of(&v, from, i);
        assert(piece@ == rest.take(i - from));
        proof {
            position_is_first(rest, c);
        }
        out.push(piece);
        assert(views(out@) == before.push(rest.take(i - from)));
        if i >= v.len() {
            assert(rest.take(i - from) == rest);
            assert(views(out@) == before + seq![rest]);
            break;
        }
        assert(rest.skip(i - from + 1) == v@.skip(i as int + 1));
        assert(views(out@) + pieces(v@.skip(i as int + 1), c) == before + (seq![rest.take(i - from)]
            + pieces(v@.skip(i as int + 1), c)));
        from = i + 1;
    }
    out
}

/// The pieces in a row with `c` between each two.
pub open spec fn joined(p: Seq<Seq<char>>, sep: Seq<char>) -> Seq<char>
    decreases p.len(),
{
    if p.len() == 0 {
        Seq::empty()
    } else if p.len() == 1 {
        p[0]
    } else {
        p[0] + sep + joined(p.skip(1), sep)
    }
}

pub proof fn joined_push(p: Seq<Seq<char>>, x: Seq<char>, sep: Seq<char>)
    requires
        p.len() > 0,
    ensures
        joined(p.push(x), sep) == joined(p, sep) + sep + x,
    decreases p.len(),
{
    reveal_with_fuel(joined, 2);
    assert(p.push(x).skip(1) == p.skip(1).push(x));
    if p.len() > 1 {
        joined_push(p.skip(1), x, sep);
        assert(joined(p.push(x), sep) == p[0] + sep + (joined(p.skip(1), sep) + sep + x));
    } else {
        assert(p.skip(1).push(x) == seq![x]);
    }
}

/// `[String]::join`.
pub fn join(v: &Vec<String>, sep: &str) -> (r: String)
    ensures
        r@ == joined(views(v@), sep@),
{
    let mut out = String::new();
    let mut i: usize = 0;
    while i < v.len()
        invariant
            i <= v.len(),
            out@ == joined(views(v@).take(i as int), sep@),
        decreases v.len() - i,
    {
        proof {
            let p = views(v@).take(i as int);
            assert(views(v@).take(i as int + 1) == p.push(v@[i as int]@));
            if i > 0 {
                joined_push(p, v@[i as int]@, sep@);
            } else {
                assert(p.push(v@[i as int]@) == seq![v@[i as int]@]);
                assert(Seq::<char>::empty() + v@[i as int]@ == v@[i as int]@);
            }
        }
        if i > 0 {
            out.append(sep);
        }
        out.append(v[i].as_str());
        i += 1;
    }
    assert(views(v@).take(v@.len() as int) == views(v@));
    out
}

/// Cutting and joining again gives the text back.
pub proof fn join_pieces(s: Seq<char>, c: char)
    ensures
        joined(pieces(s, c), seq![c]) == s,
        pieces(s, c).len() > 0,
        forall|k: int| #![trigger pieces(s, c)[k]] 0 <= k < pieces(s, c).len() ==> !pieces(s, c)[k].contains(c),
    decreases s.len(),
{
    let i = position(s, c);
    position_is_first(s, c);
    if i < s.len() {
        let rest = pieces(s.skip(i + 1), c);
        join_pieces(s.skip(i + 1), c);
        assert(pieces(s, c).skip(1) == rest);
        assert(s == s.take(i) + seq![c] + s.skip(i + 1));
        assert forall|k: int| #![trigger pieces(s, c)[k]] 0 <= k < pieces(s, c).len() implies !pieces(s, c)[k].contains(c) by {
            if k > 0 {
                assert(pieces(s, c)[k] == rest[k - 1]);
            }
        }
    }
}

/// Joining pieces that hold no `c` and cutting again gives the pieces back.
pub proof fn pieces_joined(p: Seq<Seq<char>>, c: char)
    requires
        p.len() > 0,
        forall|k: int| #![trigger p[k]] 0 <= k < p.len() ==> !p[k].contains(c),
    ensures
        pieces(joined(p, seq![c]), c) == p,
    decreases p.len(),
{
    let s = joined(p, seq![c]);
    if p.len() == 1 {
        assert forall|k: int| 0 <= k < s.len() implies s[k] != c by {
            assert(p[0].contains(s[k]));
        }
        first_is_position(s, c, s.len() as int);
        assert(p == seq![s]);
    } else {
        let n = p[0].len() as int;
        assert forall|k: int| 0 <= k < n implies s[k] != c by {
            assert(s[k] == p[0][k]);
            assert(p[0].contains(s[k]));
        }
        first_is_position(s, c, n);
        assert(s.take(n) == p[0]);
        assert(s.skip(n + 1) == joined(p.skip(1), seq![c]));
        assert forall|k: int| #![trigger p.skip(1)[k]] 0 <= k < p.skip(1).len() implies !p.skip(1)[k].contains(c) by {
            assert(p.skip(1)[k] == p[k + 1]);
        }
        pieces_joined(p.skip(1), c);
        assert(seq![p[0]] + p.skip(1) == p);
    }
}

/// Whether `needle` stands in `hay` at position `i`.
pub open spec fn stands_at(hay: Seq<char>, needle: Seq<char>, i: int) -> bool {
    0 <= i && i + needle.len() <= hay.len() && hay.subrange(i, i + needle.len()) == needle
}

/// Whether `needle` stands anywhere in `hay`.
pub open spec fn occurs(hay: Seq<char>, needle: Seq<char>) -> bool {
    exists|i: int| stands_at(hay, needle, i)
}

/// `i` is the first position of `needle` in `hay`.
pub open spec fn first_at(hay: Seq<char>, needle: Seq<char>, i: int) -> bool {
    stands_at(hay, needle, i) && forall|k: int| 0 <= k < i ==> !stands_at(hay, needle, k)
}

/// Whether `needle` stands at `v[i..]`.
fn matches_at(v: &Vec<char>, needle: &Vec<char>, i: usize) -> (r: bool)
    requires
        i <= v.len(),
    ensures
        r == stands_at(v@, needle@, i as int),
{
    if needle.len() > v.len() - i {
        return false;
    }
    let mut k: usize = 0;
    while k < needle.len()
        invariant
            k <= needle.len(),
            i + needle.len() <= v.len(),
            forall|j: int| 0 <= j < k ==> v@[i + j] == needle@[j],
        decreases needle.len() - k,
    {
        if v[i + k] != needle[k] {
            assert(v@.subrange(i as int, i + needle@.len())[k as int] == v@[i + k]);
            return false;
        }
        k += 1;
    }
    assert(v@.subrange(i as int, i + needle@.len()) == needle@);
    true
}

/// `str::find`, counted in characters.
pub fn find(hay: &str, needle: &str) -> (r: Option<usize>)
    ensures
        match r {
            Some(i) => first_at(hay@, needle@, i as int),
            None => !occurs(hay@, needle@),
        },
{
    let h = chars(hay);
    let n = chars(needle);
    if n.len() > h.len() {
        return None;
    }
    let last: usize = h.len() - n.len();
    let mut i: usize = 0;
    while i <= last
        invariant
            h@ == hay@,
            n@ == needle@,
            n.len() <= h.len(),
            last == h.len() - n.len(),
            i <= last + 1,
            forall|k: int| 0 <= k < i ==> !stands_at(hay@, needle@, k),
        decreases h.len() - i,
    {
        if matches_at(&h, &n, i) {
            return Some(i);
        }
        if i == last {
            assert forall|k: int| !stands_at(hay@, needle@, k) by {}
            return None;
        }
        i += 1;
    }
    None
}

/// The first position of `needle` in `hay`, where it has one.
pub open spec fn place(hay: Seq<char>, needle: Seq<char>) -> Option<int> {
    if occurs(hay, needle) {
        Some(choose|i: int| first_at(hay, needle, i))
    } else {
        None
    }
}

proof fn first_exists(hay: Seq<char>, needle: Seq<char>, i: int)
    requires
        stands_at(hay, needle, i),
    ensures
        exists|j: int| first_at(hay, needle, j),
    decreases i,
{
    if first_at(hay, needle, i) {
    } else {
        let k = choose|k: int| 0 <= k < i && stands_at(hay, needle, k);
        first_exists(hay, needle, k);
    }
}

/// `place` is where the needle stands.
pub proof fn place_stands(hay: Seq<char>, needle: Seq<char>)
    ensures
        place(hay, needle) matches Some(i) ==> first_at(hay, needle, i),
{
    if occurs(hay, needle) {
        let i = choose|i: int| stands_at(hay, needle, i);
        first_exists(hay, needle, i);
    }
}

/// There is one first position.
pub proof fn first_is_place(hay: Seq<char>, needle: Seq<char>, i: int)
    requires
        first_at(hay, needle, i),
    ensures
        place(hay, needle) == Some(i),
{
    let j = choose|j: int| first_at(hay, needle, j);
    assert(first_at(hay, needle, j));
    if j < i {
        assert(!stands_at(hay, needle, j));
    }
    if i < j {
        assert(!stands_at(hay, needle, i));
    }
}

/// `str::contains` of a string.
pub fn contains(hay: &str, needle: &str) -> (r: bool)
    ensures
        r == occurs(hay@, needle@),
{
    match find(hay, needle) {
        Some(_) => true,
        None => false,
    }
}

/// The decimal digit for `d`.
pub open spec fn digit(d: int) -> char {
    (('0' as u32) + d) as char
}

/// A number in decimal.
pub open spec fn decimal(n: nat) -> Seq<char>
    decreases n,
{
    if n < 10 {
        seq![digit(n as int)]
    } else {
        decimal(n / 10).push(digit((n % 10) as int))
    }
}

fn digit_char(d: u8) -> (c: char)
    requires
        d < 10,
    ensures
        c == digit(d as int),
{
    (48u8 + d) as char
}

/// `u64::to_string`.
pub fn number(n: u64) -> (r: String)
    ensures
        r@ == decimal(n as nat),
    decreases n,
{
    if n < 10 {
        let mut s = String::new();
        s.push(digit_char(n as u8));
        s
    } else {
        let mut s = number(n / 10);
        s.push(digit_char((n % 10) as u8));
        s
    }
}

/// `c` with an ASCII capital made small.
pub open spec fn lower(c: char) -> char {
    if 'A' <= c <= 'Z' {
        ((c as u32) + 32) as char
    } else {
        c
    }
}

fn lower_char(c: char) -> (r: char)
    ensures
        r == lower(c),
{
    if 'A' <= c && c <= 'Z' {
        ((c as u8) + 32) as char
    } else {
        c
    }
}

/// A text with its ASCII capitals made small.
pub open spec fn small(s: Seq<char>) -> Seq<char> {
    s.map_values(|c: char| lower(c))
}

/// `str::to_ascii_lowercase`.
pub fn lowered(s: &str) -> (r: String)
    ensures
        r@ == small(s@),
{
    let v = chars(s);
    let mut out = String::new();
    let mut i: usize = 0;
    while i < v.len()
        invariant
            i <= v.len(),
            v@ == s@,
            out@ == s@.take(i as int).map_values(|c: char| lower(c)),
        decreases v.len() - i,
    {
        out.push(lower_char(v[i]));
        assert(s@.take(i as int + 1) == s@.take(i as int).push(v@[i as int]));
        i += 1;
        assert(out@ == s@.take(i as int).map_values(|c: char| lower(c)));
    }
    assert(s@.take(s@.len() as int) == s@);
    out
}

/// One trailing carriage return left out.
pub open spec fn unreturn(s: Seq<char>) -> Seq<char> {
    if s.len() > 0 && s.last() == '\r' {
        s.drop_last()
    } else {
        s
    }
}

/// The lines of a text as `str::lines` gives them: a line ends at a newline
/// or a carriage return before one, and what follows the last line ending is
/// a line only where there is something.
pub open spec fn text_lines(s: Seq<char>) -> Seq<Seq<char>> {
    let p = pieces(s, '\n');
    let ended = p.drop_last().map_values(|l: Seq<char>| unreturn(l));
    if p.last().len() == 0 {
        ended
    } else {
        ended.push(p.last())
    }
}

pub fn strip_return(s: &str) -> (r: String)
    ensures
        r@ == unreturn(s@),
{
    let v = chars(s);
    if v.len() > 0 && v[v.len() - 1] == '\r' {
        string_of(&v, 0, v.len() - 1)
    } else {
        string_of(&v, 0, v.len())
    }
}

/// `str::lines`.
pub fn lines(s: &str) -> (r: Vec<String>)
    ensures
        views(r@) == text_lines(s@),
{
    let p = split(s, '\n');
    proof {
        join_pieces(s@, '\n');
    }
    let mut out: Vec<String> = Vec::new();
    let last: usize = p.len() - 1;
    let ghost all = pieces(s@, '\n');
    let mut i: usize = 0;
    while i < last
        invariant
            i <= last,
            last == p.len() - 1,
            all == views(p@),
            all.len() == p.len(),
            views(out@) == all.take(i as int).map_values(|l: Seq<char>| unreturn(l)),
        decreases last - i,
    {
        let ghost before = views(out@);
        let line = strip_return(p[i].as_str());
        out.push(line);
        assert(views(out@) == before.push(line@));
        assert(all.take(i as int + 1) == all.take(i as int).push(all[i as int]));
        i += 1;
        assert(views(out@) == all.take(i as int).map_values(|l: Seq<char>| unreturn(l)));
    }
    assert(all.take(last as int) == all.drop_last());
    if !p[last].as_str().is_empty() {
        let ghost before = views(out@);
        out.push(p[last].clone());
        assert(views(out@) == before.push(all.last()));
    }
    out
}

/// What stands before and behind the first `c`, where there is one.
pub open spec fn cut_at(s: Seq<char>, c: char) -> Option<(Seq<char>, Seq<char>)> {
    let i = position(s, c);
    if i < s.len() {
        Some((s.take(i), s.skip(i + 1)))
    } else {
        None
    }
}

/// `str::split_once` on one character.
pub fn split_once(s: &str, c: char) -> (r: Option<(String, String)>)
    ensures
        match r {
            Some((a, b)) => cut_at(s@, c) == Some((a@, b@)),
            None => cut_at(s@, c) is None,
        },
{
    let v = chars(s);
    let i = index_from(&v, 0, c);
    assert(v@.skip(0) == v@);
    if i < v.len() {
        Some((string_of(&v, 0, i), string_of(&v, i + 1, v.len())))
    } else {
        None
    }
}

/// The value of a run of decimal digits.
pub open spec fn digits_value(s: Seq<char>) -> nat
    decreases s.len(),
{
    if s.len() == 0 {
        0
    } else {
        (digits_value(s.drop_last()) * 10 + (s.last() as u32 - '0' as u32)) as nat
    }
}

pub open spec fn is_digit(c: char) -> bool {
    '0' <= c <= '9'
}

pub open spec fn all_digits(s: Seq<char>) -> bool {
    forall|i: int| 0 <= i < s.len() ==> is_digit(#[trigger] s[i])
}

/// The number that a text spells as `u32::from_str` reads it: digits, with a
/// plus sign before them or without.
pub open spec fn spelled_u32(s: Seq<char>) -> Option<u32> {
    let d = if s.len() > 0 && s[0] == '+' { s.skip(1) } else { s };
    if d.len() > 0 && all_digits(d) && digits_value(d) <= u32::MAX {
        Some(digits_value(d) as u32)
    } else {
        None
    }
}

/// `str::parse::<u32>`.
pub fn parse_u32(s: &str) -> (r: Option<u32>)
    ensures
        r == spelled_u32(s@),
{
    let v = chars(s);
    let from: usize = if v.len() > 0 && v[0] == '+' {
        1
    } else {
        0
    };
    let ghost d = if s@.len() > 0 && s@[0] == '+' { s@.skip(1) } else { s@ };
    assert(d == v@.skip(from as int));
    if from >= v.len() {
        return None;
    }
    let mut n: u64 = 0;
    let mut big = false;
    let mut i: usize = from;
    while i < v.len()
        invariant
            from <= i <= v.len(),
            d == v@.skip(from as int),
            d == if s@.len() > 0 && s@[0] == '+' { s@.skip(1) } else { s@ },
            forall|k: int| 0 <= k < i - from ==> is_digit(#[trigger] d[k]),
            !big ==> n == digits_value(d.take(i - from)) && n <= u32::MAX,
            big ==> digits_value(d.take(i - from)) > u32::MAX,
        decreases v.len() - i,
    {
        let c = v[i];
        assert(d[i - from] == c);
        if !('0' <= c && c <= '9') {
            proof {
                let e = if s@.len() > 0 && s@[0] == '+' { s@.skip(1) } else { s@ };
                assert(e == d);
                assert(0 <= i - from < e.len());
                assert(!is_digit(e[i - from]));
                assert(!all_digits(e));
            }
            return None;
        }
        let digit: u64 = (c as u32 - 48) as u64;
        assert(d.take(i - from + 1).drop_last() == d.take(i - from));
        if !big {
            n = n * 10 + digit;
            if n > 0xffff_ffff {
                big = true;
            }
        }
        i += 1;
    }
    assert(d.take(d.len() as int) == d);
    if big {
        None
    } else {
        Some(n as u32)
    }
}

/// Every line end as a newline: a carriage return with its newline, or alone.
pub open spec fn unified(s: Seq<char>) -> Seq<char>
    decreases s.len(),
{
    if s.len() == 0 {
        s
    } else if s[0] == '\r' {
        seq!['\n'] + unified(
            s.skip(
                if s.len() > 1 && s[1] == '\n' {
                    2
                } else {
                    1
                },
            ),
        )
    } else {
        seq![s[0]] + unified(s.skip(1))
    }
}

pub fn unify_newlines(s: &str) -> (r: String)
    ensures
        r@ == unified(s@),
{
    let v = chars(s);
    let mut out = String::new();
    let mut i: usize = 0;
    assert(v@.skip(0) == v@);
    assert(out@ + unified(v@.skip(0)) == unified(s@));
    while i < v.len()
        invariant
            i <= v.len(),
            v@ == s@,
            out@ + unified(v@.skip(i as int)) == unified(s@),
        decreases v.len() - i,
    {
        let ghost rest = v@.skip(i as int);
        let ghost before = out@;
        if v[i] == '\r' {
            out.push('\n');
            if i + 1 < v.len() && v[i + 1] == '\n' {
                assert(rest.skip(2) == v@.skip(i + 2));
                assert(out@ + unified(rest.skip(2)) == before + unified(rest));
                i += 2;
            } else {
                assert(rest.skip(1) == v@.skip(i + 1));
                assert(out@ + unified(rest.skip(1)) == before + unified(rest));
                i += 1;
            }
        } else {
            out.push(v[i]);
            assert(rest.skip(1) == v@.skip(i + 1));
            assert(out@ + unified(rest.skip(1)) == before + unified(rest));
            i += 1;
        }
    }
    assert(unified(v@.skip(i as int)) == Seq::<char>::empty());
    out
}

} // verus!
