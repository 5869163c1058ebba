//! Paths as their components, as the standard library takes a Unix path
//! apart: repeated and trailing separators count for nothing, and neither
//! does `.` but at the beginning of a relative path.

use vstd::prelude::*;
use vstd::string::*;
use crate::text;
use crate::text::{copy_list, join, same, split, starts_with_char};

verus! {

/// A path. The root is a component of its own, spelled `/`.
#[derive(Debug, Clone, PartialEq, Eq)]
pub struct FilePath {
    pub parts: Vec<String>,
}

impl View for FilePath {
    type V = Seq<Seq<char>>;

    open spec fn view(&self) -> Seq<Seq<char>> {
        text::views(self.parts@)
    }
}

/// The components among the first `k` pieces of a path.
pub open spec fn kept(p: Seq<Seq<char>>, k: int) -> Seq<Seq<char>>
    decreases k,
{
    if k <= 0 {
        Seq::empty()
    } else if p[k - 1].len() == 0 || (p[k - 1] == "."@ && k > 1) {
        kept(p, k - 1)
    } else {
        kept(p, k - 1).push(p[k - 1])
    }
}

/// The components of a path's text.
pub open spec fn components(path: Seq<char>) -> Seq<Seq<char>> {
    let p = text::pieces(path, '/');
    let body = kept(p, p.len() as int);
    if text::leads(path, '/') {
        seq!["/"@] + body
    } else {
        body
    }
}

/// The text of a path.
pub open spec fn spelled(parts: Seq<Seq<char>>) -> Seq<char> {
    if parts.len() > 0 && parts[0] == "/"@ {
        "/"@ + text::joined(parts.skip(1), "/"@)
    } else {
        text::joined(parts, "/"@)
    }
}

/// Whether a path lies below a base for certain: it begins with the base, goes
/// on, and no step behind it leads up again.
pub open spec fn below(path: Seq<Seq<char>>, base: Seq<Seq<char>>) -> bool {
    &&& base.is_prefix_of(path)
    &&& path != base
    &&& forall|i: int| base.len() <= i < path.len() ==> #[trigger] path[i] != ".."@
}

/// How many components two paths share at the front.
pub open spec fn shared(a: Seq<Seq<char>>, b: Seq<Seq<char>>) -> int
    decreases a.len(),
{
    if a.len() > 0 && b.len() > 0 && a[0] == b[0] {
        1 + shared(a.skip(1), b.skip(1))
    } else {
        0
    }
}

/// `n` steps up.
pub open spec fn ups(n: int) -> Seq<Seq<char>> {
    Seq::new(n as nat, |i: int| ".."@)
}

/// The spelling of `path` seen from `base`: what lies below it, `.` for the
/// base itself, `..` for the way up, and the whole path where they share
/// nothing.
pub open spec fn relative(base: Seq<Seq<char>>, path: Seq<Seq<char>>) -> Seq<char> {
    let n = shared(base, path);
    let rest = path.skip(n);
    if n == base.len() {
        if rest.len() == 0 {
            "."@
        } else {
            spelled(rest)
        }
    } else if n == 0 {
        spelled(path)
    } else {
        text::joined(ups(base.len() - n) + rest, "/"@)
    }
}

proof fn shared_bounds(a: Seq<Seq<char>>, b: Seq<Seq<char>>)
    ensures
        0 <= shared(a, b) <= a.len(),
        shared(a, b) <= b.len(),
    decreases a.len(),
{
    if a.len() > 0 && b.len() > 0 && a[0] == b[0] {
        shared_bounds(a.skip(1), b.skip(1));
    }
}

/// What is shared is shared.
pub proof fn shared_is_common(a: Seq<Seq<char>>, b: Seq<Seq<char>>)
    ensures
        0 <= shared(a, b) <= a.len(),
        shared(a, b) <= b.len(),
        a.take(shared(a, b)) == b.take(shared(a, b)),
    decreases a.len(),
{
    let n = shared(a, b);
    if a.len() > 0 && b.len() > 0 && a[0] == b[0] {
        shared_is_common(a.skip(1), b.skip(1));
        assert forall|i: int| 0 <= i < n implies a.take(n)[i] == b.take(n)[i] by {
            if i > 0 {
                assert(a.skip(1).take(n - 1)[i - 1] == b.skip(1).take(n - 1)[i - 1]);
            }
        }
        assert(a.take(n) == b.take(n));
    } else {
        assert(a.take(0) == b.take(0));
    }
}

impl FilePath {
    /// The path a text spells.
    pub fn parse(path: &str) -> (r: Self)
        ensures
            r@ == components(path@),
    {
        let p = split(path, '/');
        let ghost all = text::pieces(path@, '/');
        let mut parts: Vec<String> = Vec::new();
        let rooted = starts_with_char(path, '/');
        if rooted {
            parts.push(String::from_str("/"));
        }
        let ghost head = text::views(parts@);
        assert(head == if rooted { seq!["/"@] } else { Seq::<Seq<char>>::empty() });
        let mut i: usize = 0;
        assert(head + kept(all, 0) == head);
        while i < p.len()
            invariant
                i <= p.len(),
                all == text::views(p@),
                text::views(parts@) == head + kept(all, i as int),
            decreases p.len() - i,
        {
            let ghost before = text::views(parts@);
            assert(all[i as int] == p@[i as int]@);
            let skip = p[i].as_str().is_empty() || (i > 0 && same(p[i].as_str(), "."));
            if !skip {
                parts.push(p[i].clone());
                assert(text::views(parts@) == before.push(all[i as int]));
            }
            i += 1;
            assert(text::views(parts@) == head + kept(all, i as int));
        }
        if !rooted {
            assert(Seq::<Seq<char>>::empty() + kept(all, all.len() as int) == kept(
                all,
                all.len() as int,
            ));
        }
        FilePath { parts }
    }

    pub fn copy(&self) -> (r: Self)
        ensures
            r@ == self@,
    {
        FilePath { parts: copy_list(&self.parts) }
    }

    /// The text of the path.
    pub fn text(&self) -> (r: String)
        ensures
            r@ == spelled(self@),
    {
        if self.parts.len() > 0 && same(self.parts[0].as_str(), "/") {
            let mut rest: Vec<String> = Vec::new();
            let mut i: usize = 1;
            while i < self.parts.len()
                invariant
                    1 <= i <= self.parts.len(),
                    text::views(rest@) == self@.subrange(1, i as int),
                decreases self.parts.len() - i,
            {
                let ghost before = text::views(rest@);
                rest.push(self.parts[i].clone());
                assert(text::views(rest@) == before.push(self@[i as int]));
                assert(self@.subrange(1, i as int + 1) == self@.subrange(1, i as int).push(
                    self@[i as int],
                ));
                i += 1;
            }
            assert(self@.subrange(1, self@.len() as int) == self@.skip(1));
            let mut s = String::from_str("/");
            let body = join(&rest, "/");
            s.append(body.as_str());
            s
        } else {
            join(&self.parts, "/")
        }
    }

    /// How many components two paths share at the front.
    fn shared_with(&self, other: &FilePath) -> (n: usize)
        ensures
            n == shared(self@, other@),
            n <= self@.len(),
            n <= other@.len(),
    {
        let mut n: usize = 0;
        assert(self@.skip(0) == self@);
        assert(other@.skip(0) == other@);
        while n < self.parts.len() && n < other.parts.len() && same(
            self.parts[n].as_str(),
            other.parts[n].as_str(),
        )
            invariant
                n <= self.parts.len(),
                n <= other.parts.len(),
                shared(self@, other@) == n + shared(self@.skip(n as int), other@.skip(n as int)),
            decreases self.parts.len() - n,
        {
            assert(self@.skip(n as int)[0] == self@[n as int]);
            assert(other@.skip(n as int)[0] == other@[n as int]);
            assert(self@.skip(n as int).skip(1) == self@.skip(n as int + 1));
            assert(other@.skip(n as int).skip(1) == other@.skip(n as int + 1));
            n += 1;
        }
        proof {
            if n < self@.len() && n < other@.len() {
                assert(self@.skip(n as int)[0] == self@[n as int]);
                assert(other@.skip(n as int)[0] == other@[n as int]);
            }
        }
        n
    }

    /// Whether the two are the same path.
    pub fn same_as(&self, other: &FilePath) -> (r: bool)
        ensures
            r == (self@ == other@),
    {
        if self.parts.len() != other.parts.len() {
            return false;
        }
        let n = self.shared_with(other);
        proof {
            shared_is_common(self@, other@);
            if self@ == other@ {
                shared_reflexive(self@);
            }
            assert(self@.take(self@.len() as int) == self@);
            assert(other@.take(other@.len() as int) == other@);
        }
        n == self.parts.len()
    }

    /// Whether this path lies at or below `base`.
    pub fn starts_with(&self, base: &FilePath) -> (r: bool)
        ensures
            r == base@.is_prefix_of(self@),
    {
        let n = base.shared_with(self);
        proof {
            shared_is_common(base@, self@);
            assert(base@.take(base@.len() as int) == base@);
            if base@.is_prefix_of(self@) {
                shared_of_prefix(base@, self@);
            }
        }
        n == base.parts.len()
    }

    /// Whether the path lies below a base for certain.
    pub fn is_below(&self, base: &FilePath) -> (r: bool)
        ensures
            r == below(self@, base@),
    {
        if !self.starts_with(base) || self.same_as(base) {
            return false;
        }
        let mut i: usize = base.parts.len();
        while i < self.parts.len()
            invariant
                base.parts@.len() <= i <= self.parts@.len(),
                forall|k: int| base@.len() <= k < i ==> #[trigger] self@[k] != ".."@,
            decreases self.parts.len() - i,
        {
            assert(self@[i as int] == self.parts@[i as int]@);
            if same(self.parts[i].as_str(), "..") {
                return false;
            }
            i += 1;
        }
        true
    }

    /// The path of an entry of this directory.
    pub fn join(&self, name: &str) -> (r: FilePath)
        ensures
            r@ == self@.push(name@),
    {
        let mut parts = copy_list(&self.parts);
        let ghost before = text::views(parts@);
        let s = String::from_str(name);
        parts.push(s);
        assert(text::views(parts@) == before.push(name@));
        FilePath { parts }
    }

    /// The directory above, where there is one.
    pub fn parent(&self) -> (r: Option<FilePath>)
        ensures
            match r {
                Some(p) => self@.len() > 0 && self@.last() != "/"@ && p@ == self@.drop_last(),
                None => self@.len() == 0 || self@.last() == "/"@,
            },
    {
        let n: usize = self.parts.len();
        if n == 0 || same(self.parts[n - 1].as_str(), "/") {
            return None;
        }
        let mut parts = copy_list(&self.parts);
        parts.pop();
        assert(text::views(parts@) == self@.drop_last());
        Some(FilePath { parts })
    }
}

proof fn shared_reflexive(a: Seq<Seq<char>>)
    ensures
        shared(a, a) == a.len(),
    decreases a.len(),
{
    if a.len() > 0 {
        shared_reflexive(a.skip(1));
    }
}

proof fn shared_of_prefix(a: Seq<Seq<char>>, b: Seq<Seq<char>>)
    requires
        a.is_prefix_of(b),
    ensures
        shared(a, b) == a.len(),
    decreases a.len(),
{
    if a.len() > 0 {
        assert(b.subrange(0, a.len() as int)[0] == b[0]);
        assert(a.skip(1) == b.skip(1).subrange(0, a.len() - 1));
        shared_of_prefix(a.skip(1), b.skip(1));
    }
}

/// The spelling of `path` seen from `base`.
pub fn relative_path(base: &FilePath, path: &FilePath) -> (r: String)
    ensures
        r@ == relative(base@, path@),
{
    let n = base.shared_with(path);
    if n != base.parts.len() && n == 0 {
        return path.text();
    }
    let mut out: Vec<String> = Vec::new();
    let up: usize = base.parts.len() - n;
    let mut k: usize = 0;
    assert(text::views(out@) == ups(0));
    while k < up
        invariant
            k <= up,
            text::views(out@) == ups(k as int),
        decreases up - k,
    {
        let ghost before = text::views(out@);
        let s = String::from_str("..");
        out.push(s);
        assert(text::views(out@) == before.push(".."@));
        assert(ups(k as int + 1) == ups(k as int).push(".."@));
        k += 1;
    }
    let mut i: usize = n;
    assert(text::views(out@) == ups(up as int) + path@.subrange(n as int, n as int));
    while i < path.parts.len()
        invariant
            n <= i <= path.parts.len(),
            text::views(out@) == ups(up as int) + path@.subrange(n as int, i as int),
        decreases path.parts.len() - i,
    {
        let ghost before = text::views(out@);
        out.push(path.parts[i].clone());
        assert(text::views(out@) == before.push(path@[i as int]));
        assert(path@.subrange(n as int, i as int + 1) == path@.subrange(n as int, i as int).push(
            path@[i as int],
        ));
        i += 1;
        assert(text::views(out@) == ups(up as int) + path@.subrange(n as int, i as int));
    }
    assert(path@.subrange(n as int, path@.len() as int) == path@.skip(n as int));
    if n == base.parts.len() {
        assert(ups(0) + path@.skip(n as int) == path@.skip(n as int));
        if out.len() == 0 {
            assert(path@.skip(n as int).len() == 0);
            return String::from_str(".");
        }
        let rest = FilePath { parts: out };
        return rest.text();
    }
    join(&out, "/")
}

proof fn shared_with_below(base: Seq<Seq<char>>, rest: Seq<Seq<char>>)
    ensures
        shared(base, base + rest) == base.len(),
    decreases base.len(),
{
    if base.len() > 0 {
        shared_with_below(base.skip(1), rest);
        assert((base + rest).skip(1) == base.skip(1) + rest);
    }
}

/// What lies below the base is spelled without it, and the base is a dot.
pub proof fn below_is_spelled_short(base: Seq<Seq<char>>, rest: Seq<Seq<char>>)
    ensures
        relative(base, base) == "."@,
        rest.len() > 0 ==> relative(base, base + rest) == spelled(rest),
{
    shared_with_below(base, rest);
    shared_with_below(base, Seq::empty());
    assert(base + Seq::<Seq<char>>::empty() == base);
    assert((base + rest).skip(base.len() as int) == rest);
}

} // verus!
