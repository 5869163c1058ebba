//! The credentials document `.credentials.yaml`: a strict version-1 layout
//! (`version: 1` and a `refs:` mapping of env-style names to secret strings).
//!
//! Every write patches only its own entry, so comments and the spelling of
//! untouched entries survive. Keys are write-only: callers describe them with
//! [`redact`], never the literal value. Reading and replacing the file is the
//! host's part; this is what the text means and what a write makes of it.

use vstd::prelude::*;
use vstd::string::*;
use crate::text;
use crate::text::{
    cat, cat3, cat4, cat5, chars, is_blank, is_space, lines, number, parse_u32, same, split, split_once,
    starts_with_char, string_of, strip_return, trimmed,
};

verus! {

/// Basename of the credentials document inside the aby home.
pub const CREDENTIALS_FILENAME: &'static str = ".credentials.yaml";

/// The document layout this build reads and writes.
pub const DOCUMENT_VERSION: u32 = 1;

/// The one reference stored today; the layout stays generic.
pub const API_KEY_REF: &'static str = "DEEPSEEK_API_KEY";

/// One parsed document: the reference entries, keyed as written.
#[derive(Debug, Clone, PartialEq, Eq)]
pub struct CredentialRefs {
    pub refs: Vec<(String, String)>,
}

/// Names and values.
pub type Refs = Seq<(Seq<char>, Seq<char>)>;

pub open spec fn ref_views(v: Seq<(String, String)>) -> Refs {
    v.map_values(|e: (String, String)| (e.0@, e.1@))
}

impl View for CredentialRefs {
    type V = Seq<(Seq<char>, Seq<char>)>;

    open spec fn view(&self) -> Refs {
        ref_views(self.refs@)
    }
}

/// The value of the first entry for a name from `i` on.
pub open spec fn lookup(refs: Refs, i: int, name: Seq<char>) -> Option<Seq<char>>
    decreases refs.len() - i,
{
    if i >= refs.len() {
        None
    } else if refs[i].0 == name {
        Some(refs[i].1)
    } else {
        lookup(refs, i + 1, name)
    }
}

/// Whether there is an entry for a name.
pub open spec fn names(refs: Refs, name: Seq<char>) -> bool {
    exists|i: int| 0 <= i < refs.len() && (#[trigger] refs[i]).0 == name
}

impl Default for CredentialRefs {
    fn default() -> (r: Self)
        ensures
            r@ == Seq::<(Seq<char>, Seq<char>)>::empty(),
    {
        let refs: Vec<(String, String)> = Vec::new();
        assert(ref_views(refs@) == Seq::<(Seq<char>, Seq<char>)>::empty());
        CredentialRefs { refs }
    }
}

impl CredentialRefs {
    pub fn get(&self, name: &str) -> (r: Option<&str>)
        ensures
            match r {
                Some(v) => lookup(self@, 0, name@) == Some(v@),
                None => lookup(self@, 0, name@) is None,
            },
    {
        let mut i: usize = 0;
        while i < self.refs.len()
            invariant
                i <= self.refs.len(),
                lookup(self@, 0, name@) == lookup(self@, i as int, name@),
            decreases self.refs.len() - i,
        {
            assert(self@[i as int] == (self.refs@[i as int].0@, self.refs@[i as int].1@));
            if same(self.refs[i].0.as_str(), name) {
                return Some(self.refs[i].1.as_str());
            }
            i += 1;
        }
        None
    }
}

/// The path of an entry in a directory.
pub open spec fn under(dir: Seq<char>, name: Seq<char>) -> Seq<char> {
    if dir.len() == 0 || dir.last() == '/' {
        dir + name
    } else {
        dir + "/"@ + name
    }
}

/// A relative name joined to a directory.
pub fn path_under(dir: &str, name: &str) -> (r: String)
    ensures
        r@ == under(dir@, name@),
{
    let v = chars(dir);
    if v.len() == 0 || v[v.len() - 1] == '/' {
        cat(dir, name)
    } else {
        cat3(dir, "/", name)
    }
}

/// The path of the credentials document under the aby home.
pub fn credentials_path(home: &str) -> (r: String)
    ensures
        r@ == under(home@, CREDENTIALS_FILENAME@),
{
    path_under(home, CREDENTIALS_FILENAME)
}

/// A number below 512 in octal.
pub open spec fn octal(n: int) -> Seq<char> {
    if n < 8 {
        seq![text::digit(n)]
    } else if n < 64 {
        seq![text::digit(n / 8), text::digit(n % 8)]
    } else {
        seq![text::digit(n / 64), text::digit(n / 8 % 8), text::digit(n % 8)]
    }
}

fn octal_digits(n: u32) -> (r: String)
    requires
        n < 512,
    ensures
        r@ == octal(n as int),
{
    let mut s = String::new();
    if n >= 64 {
        s.push((48u8 + (n / 64) as u8) as char);
    }
    if n >= 8 {
        s.push((48u8 + (n / 8 % 8) as u8) as char);
    }
    s.push((48u8 + (n % 8) as u8) as char);
    assert(s@ == octal(n as int));
    s
}

/// The complaint about a document that other users can read.
pub open spec fn exposed(path: Seq<char>, mode: u32) -> Seq<char> {
    path + " is readable beyond its owner (mode "@ + octal(mode as int % 512)
        + "); run \"chmod 600 "@ + path + "\" before starting again"@
}

/// Refuses a document that other users can read, by its mode bits, before its
/// contents are read at all.
pub fn assert_owner_only(mode: u32, path: &str) -> (r: Result<(), String>)
    ensures
        r is Ok <==> mode % 64 == 0,
        r matches Err(e) ==> e@ == exposed(path@, mode),
{
    let bits: u32 = mode % 512;
    assert(mode % 512 % 64 == mode % 64) by (bit_vector);
    if bits % 64 == 0 {
        return Ok(());
    }
    let mut s = cat(path, " is readable beyond its owner (mode ");
    let digits = octal_digits(bits);
    s.append(digits.as_str());
    s.append("); run \"chmod 600 ");
    s.append(path);
    s.append("\" before starting again");
    Err(s)
}

pub open spec fn word_start(c: char) -> bool {
    'a' <= c <= 'z' || 'A' <= c <= 'Z' || c == '_'
}

/// An env-style name: a letter or underscore, then letters, digits and
/// underscores.
pub open spec fn valid_name(name: Seq<char>) -> bool {
    &&& name.len() > 0
    &&& word_start(name[0])
    &&& forall|i: int|
        1 <= i < name.len() ==> word_start(#[trigger] name[i]) || text::is_digit(name[i])
}

fn is_word_start(c: char) -> (r: bool)
    ensures
        r == word_start(c),
{
    ('a' <= c && c <= 'z') || ('A' <= c && c <= 'Z') || c == '_'
}

fn valid_ref_name(name: &str) -> (r: bool)
    ensures
        r == valid_name(name@),
{
    let v = chars(name);
    if v.len() == 0 || !is_word_start(v[0]) {
        return false;
    }
    let mut i: usize = 1;
    while i < v.len()
        invariant
            1 <= i <= v.len(),
            v@ == name@,
            forall|k: int|
                1 <= k < i ==> word_start(#[trigger] name@[k]) || text::is_digit(name@[k]),
        decreases v.len() - i,
    {
        if !is_word_start(v[i]) && !('0' <= v[i] && v[i] <= '9') {
            assert(!(word_start(name@[i as int]) || text::is_digit(name@[i as int])));
            return false;
        }
        i += 1;
    }
    true
}

/// One matched pair of quotes left out.
pub open spec fn unquoted(v: Seq<char>) -> Seq<char> {
    if v.len() >= 2 && v[0] == v.last() && (v[0] == '"' || v[0] == '\'') {
        v.subrange(1, v.len() - 1)
    } else {
        v
    }
}

fn unquote(value: &str) -> (r: String)
    ensures
        r@ == unquoted(value@),
{
    let v = chars(value);
    if v.len() >= 2 && v[0] == v[v.len() - 1] && (v[0] == '"' || v[0] == '\'') {
        string_of(&v, 1, v.len() - 1)
    } else {
        string_of(&v, 0, v.len())
    }
}

/// The first position of `" #"` from `i` on, or the length.
pub open spec fn comment_at(v: Seq<char>, i: int) -> int
    decreases v.len() - i,
{
    if i + 1 >= v.len() {
        v.len() as int
    } else if v[i] == ' ' && v[i + 1] == '#' {
        i
    } else {
        comment_at(v, i + 1)
    }
}

/// What stands before an inline comment, `value # note`. A `#` glued to the
/// value opens none.
pub open spec fn without_comment(v: Seq<char>) -> Seq<char> {
    v.take(comment_at(v, 0))
}

fn strip_inline_comment(value: &str) -> (r: String)
    ensures
        r@ == without_comment(value@),
{
    let v = chars(value);
    let mut i: usize = 0;
    while i < v.len() && v.len() - i > 1
        invariant
            i <= v.len(),
            v@ == value@,
            comment_at(v@, 0) == comment_at(v@, i as int),
        decreases v.len() - i,
    {
        if v[i] == ' ' && v[i + 1] == '#' {
            return string_of(&v, 0, i);
        }
        i += 1;
    }
    string_of(&v, 0, v.len())
}

/// The entry a `NAME: value` line makes, if it makes one.
pub open spec fn entry_of(line: Seq<char>) -> Option<(Seq<char>, Seq<char>)> {
    match text::cut_at(line, ':') {
        Some((name, value)) => {
            if valid_name(text::trim(name)) {
                Some((text::trim(name), unquoted(text::trim(without_comment(value)))))
            } else {
                None
            }
        },
        None => None,
    }
}

fn parse_entry(line: &str) -> (r: Option<(String, String)>)
    ensures
        match r {
            Some((n, v)) => entry_of(line@) == Some((n@, v@)),
            None => entry_of(line@) is None,
        },
{
    match split_once(line, ':') {
        Some((name, value)) => {
            let name = trimmed(name.as_str());
            if !valid_ref_name(name.as_str()) {
                return None;
            }
            let value = strip_inline_comment(value.as_str());
            let value = trimmed(value.as_str());
            Some((name, unquote(value.as_str())))
        },
        None => None,
    }
}

/// The layout's own keys.
pub open spec fn layout_key(name: Seq<char>) -> bool {
    name == "version"@ || name == "refs"@ || name == "records"@
}

/// The key of a line, where it is one of the layout's own.
pub open spec fn layout_key_of(line: Seq<char>) -> Option<Seq<char>> {
    match text::cut_at(line, ':') {
        Some((name, _)) => if layout_key(text::trim(name)) {
            Some(text::trim(name))
        } else {
            None
        },
        None => None,
    }
}

fn is_layout_key(name: &str) -> (r: bool)
    ensures
        r == layout_key(name@),
{
    same(name, "version") || same(name, "refs") || same(name, "records")
}

fn top_layout_key(line: &str) -> (r: Option<String>)
    ensures
        match r {
            Some(k) => layout_key_of(line@) == Some(k@),
            None => layout_key_of(line@) is None,
        },
{
    match split_once(line, ':') {
        Some((name, _)) => {
            let name = trimmed(name.as_str());
            if is_layout_key(name.as_str()) {
                Some(name)
            } else {
                None
            }
        },
        None => None,
    }
}

/// A document half read: the entries so far, and whether nested lines are
/// admitted here.
#[verifier::ext_equal]
pub struct Reading {
    pub refs: Refs,
    pub in_refs: bool,
}

/// Where a complaint points.
pub open spec fn at_line(index: int) -> Seq<char> {
    "line "@ + text::decimal(index as nat)
}

/// One more entry. An empty value and a name that is there already are
/// refused.
pub open spec fn admitted(refs: Refs, e: (Seq<char>, Seq<char>), index: int) -> Result<
    Refs,
    Seq<char>,
> {
    if e.1.len() == 0 {
        Err(
            "the value for \""@ + e.0 + "\" at "@ + at_line(index)
                + " is empty; remove the key instead"@,
        )
    } else if names(refs, e.0) {
        Err("invalid document at "@ + at_line(index) + ": duplicate key \""@ + e.0 + "\""@)
    } else {
        Ok(refs.push(e))
    }
}

/// One more entry for a document half read.
pub open spec fn with_entry(r: Reading, e: (Seq<char>, Seq<char>), index: int) -> Result<
    Reading,
    Seq<char>,
> {
    match admitted(r.refs, e, index) {
        Ok(refs) => Ok(Reading { refs, ..r }),
        Err(e) => Err(e),
    }
}

/// A blank or comment line.
pub open spec fn idle(line: Seq<char>) -> bool {
    text::blank(line) || text::leads(text::trim(line), '#')
}

/// Whether a line is nested.
pub open spec fn nested(line: Seq<char>) -> bool {
    line.len() > 0 && text::space(line[0])
}

/// A top-level line.
pub open spec fn read_top(
    r: Reading,
    index: int,
    line: Seq<char>,
    name: Seq<char>,
    value: Seq<char>,
) -> Result<Reading, Seq<char>> {
    let invalid = "invalid document at "@ + at_line(index);
    let plain = text::trim(without_comment(value));
    if name == "version"@ {
        match text::spelled_u32(plain) {
            None => Err(invalid + ": version must be an integer"@),
            Some(v) => if v == 1 {
                Ok(Reading { in_refs: false, ..r })
            } else {
                Err(
                    "the document declares version "@ + text::decimal(v as nat)
                        + "; this build reads version "@ + text::decimal(1),
                )
            },
        }
    } else if name == "refs"@ {
        if plain.len() > 0 {
            Err(invalid + ": \"refs:\" must open a block mapping"@)
        } else {
            Ok(Reading { in_refs: true, ..r })
        }
    } else if name == "records"@ {
        Err(invalid + ": this build does not read a \"records\" section"@)
    } else {
        match entry_of(line) {
            Some(e) => with_entry(r, e, index),
            None => Err(invalid + ": unknown top-level key \""@ + name + "\""@),
        }
    }
}

/// What one line makes of a document half read. Nothing is skipped in
/// silence: a line that is not understood refuses the document.
pub open spec fn read_line(r: Reading, index: int, raw: Seq<char>) -> Result<Reading, Seq<char>> {
    let line = text::unreturn(raw);
    let invalid = "invalid document at "@ + at_line(index);
    if idle(line) {
        Ok(r)
    } else {
        match text::cut_at(line, ':') {
            None => Err(invalid + ": expected \"name: value\""@),
            Some((name, value)) => if !nested(line) {
                read_top(r, index, line, text::trim(name), value)
            } else if !r.in_refs {
                Err(invalid + ": nested lines belong under \"refs:\""@)
            } else {
                match entry_of(line) {
                    Some(e) => with_entry(r, e, index),
                    None => Err(invalid + ": expected a \"NAME: value\" reference"@),
                }
            },
        }
    }
}

/// The document up to line `k`.
pub open spec fn read_lines(all: Seq<Seq<char>>, k: int) -> Result<Reading, Seq<char>>
    decreases k,
{
    if k <= 0 {
        Ok(Reading { refs: Seq::empty(), in_refs: false })
    } else {
        match read_lines(all, k - 1) {
            Ok(r) => read_line(r, k - 1, all[k - 1]),
            Err(e) => Err(e),
        }
    }
}

/// The entries of a document, or what is wrong with it.
pub open spec fn document(doc: Seq<char>) -> Result<Refs, Seq<char>> {
    let all = text::text_lines(doc);
    match read_lines(all, all.len() as int) {
        Ok(r) => Ok(r.refs),
        Err(e) => Err(e),
    }
}

fn line_label(index: usize) -> (r: String)
    ensures
        r@ == at_line(index as int),
{
    let n = number(index as u64);
    cat("line ", n.as_str())
}

fn invalid(index: usize, what: &str) -> (r: String)
    ensures
        r@ == "invalid document at "@ + at_line(index as int) + what@,
{
    let at = line_label(index);
    cat3("invalid document at ", at.as_str(), what)
}

/// One more entry for a document being read.
fn push_ref(
    refs: &mut Vec<(String, String)>,
    name: String,
    value: String,
    index: usize,
) -> (r: Result<(), String>)
    ensures
        match r {
            Ok(()) => admitted(ref_views(old(refs)@), (name@, value@), index as int) == Ok::<
                Refs,
                Seq<char>,
            >(ref_views(final(refs)@)),
            Err(e) => admitted(ref_views(old(refs)@), (name@, value@), index as int) == Err::<
                Refs,
                Seq<char>,
            >(e@),
        },
{
    if value.as_str().is_empty() {
        let at = line_label(index);
        let mut s = cat4("the value for \"", name.as_str(), "\" at ", at.as_str());
        s.append(" is empty; remove the key instead");
        return Err(s);
    }
    let mut i: usize = 0;
    while i < refs.len()
        invariant
            i <= refs.len(),
            value@.len() > 0,
            refs@ == old(refs)@,
            forall|k: int| 0 <= k < i ==> (#[trigger] refs@[k]).0@ != name@,
        decreases refs.len() - i,
    {
        if same(refs[i].0.as_str(), name.as_str()) {
            let at = line_label(index);
            assert(ref_views(refs@)[i as int].0 == name@);
            return Err(
                cat5(
                    "invalid document at ",
                    at.as_str(),
                    ": duplicate key \"",
                    name.as_str(),
                    "\"",
                ),
            );
        }
        i += 1;
    }
    proof {
        assert(!names(ref_views(refs@), name@)) by {
            if names(ref_views(refs@), name@) {
                let k = choose|k: int|
                    0 <= k < ref_views(refs@).len() && (#[trigger] ref_views(refs@)[k]).0 == name@;
                assert(refs@[k].0@ == name@);
            }
        }
    }
    let ghost before = ref_views(refs@);
    refs.push((name, value));
    assert(ref_views(refs@) == before.push((name@, value@)));
    Ok(())
}

/// What a reading is, held.
pub open spec fn reading(refs: Seq<(String, String)>, in_refs: bool) -> Reading {
    Reading { refs: ref_views(refs), in_refs }
}

/// A top-level line of a document being read; gives whether nested lines are
/// admitted behind it.
fn parse_top(
    refs: &mut Vec<(String, String)>,
    in_refs: bool,
    index: usize,
    line: &str,
    name: &str,
    value: &str,
) -> (r: Result<bool, String>)
    ensures
        ({
            let o = reading(old(refs)@, in_refs);
            match r {
                Ok(b) => read_top(o, index as int, line@, name@, value@) == Ok::<
                    Reading,
                    Seq<char>,
                >(reading(final(refs)@, b)),
                Err(e) => read_top(o, index as int, line@, name@, value@) == Err::<
                    Reading,
                    Seq<char>,
                >(e@),
            }
        }),
{
    let plain = strip_inline_comment(value);
    let plain = trimmed(plain.as_str());
    if same(name, "version") {
        return match parse_u32(plain.as_str()) {
            None => Err(invalid(index, ": version must be an integer")),
            Some(v) => {
                if v == DOCUMENT_VERSION {
                    Ok(false)
                } else {
                    let has = number(v as u64);
                    let reads = number(DOCUMENT_VERSION as u64);
                    Err(
                        cat4(
                            "the document declares version ",
                            has.as_str(),
                            "; this build reads version ",
                            reads.as_str(),
                        ),
                    )
                }
            },
        };
    }
    if same(name, "refs") {
        if !plain.as_str().is_empty() {
            return Err(invalid(index, ": \"refs:\" must open a block mapping"));
        }
        return Ok(true);
    }
    if same(name, "records") {
        return Err(invalid(index, ": this build does not read a \"records\" section"));
    }
    match parse_entry(line) {
        Some((n, v)) => match push_ref(refs, n, v, index) {
            Ok(()) => Ok(in_refs),
            Err(e) => Err(e),
        },
        None => {
            let mut s = invalid(index, ": unknown top-level key \"");
            s.append(name);
            s.append("\"");
            Err(s)
        },
    }
}

/// One line of a document being read.
fn parse_line(
    refs: &mut Vec<(String, String)>,
    in_refs: bool,
    index: usize,
    raw: &str,
) -> (r: Result<bool, String>)
    ensures
        ({
            let o = reading(old(refs)@, in_refs);
            match r {
                Ok(b) => read_line(o, index as int, raw@) == Ok::<Reading, Seq<char>>(
                    reading(final(refs)@, b),
                ),
                Err(e) => read_line(o, index as int, raw@) == Err::<Reading, Seq<char>>(e@),
            }
        }),
{
    let line = strip_return(raw);
    let plain = trimmed(line.as_str());
    if plain.as_str().is_empty() || starts_with_char(plain.as_str(), '#') {
        return Ok(in_refs);
    }
    let (name, value) = match split_once(line.as_str(), ':') {
        Some(p) => p,
        None => {
            return Err(invalid(index, ": expected \"name: value\""));
        },
    };
    let name = trimmed(name.as_str());
    if !is_nested(line.as_str()) {
        return parse_top(refs, in_refs, index, line.as_str(), name.as_str(), value.as_str());
    }
    if !in_refs {
        return Err(invalid(index, ": nested lines belong under \"refs:\""));
    }
    match parse_entry(line.as_str()) {
        Some((n, v)) => match push_ref(refs, n, v, index) {
            Ok(()) => Ok(in_refs),
            Err(e) => Err(e),
        },
        None => Err(invalid(index, ": expected a \"NAME: value\" reference")),
    }
}

fn is_nested(line: &str) -> (r: bool)
    ensures
        r == nested(line@),
{
    line.unicode_len() > 0 && is_space(line.get_char(0))
}

/// Once a line is refused, the document is.
proof fn refused_stays_refused(all: Seq<Seq<char>>, k: int, n: int)
    requires
        0 <= k <= n,
        read_lines(all, k) is Err,
    ensures
        read_lines(all, n) == read_lines(all, k),
    decreases n - k,
{
    if k < n {
        refused_stays_refused(all, k, n - 1);
    }
}

/// Parses the document text. Everything is refused rather than skipped; an
/// unversioned flat layout is admitted, and the next write migrates it. An
/// empty document, or one of comments, is the empty store.
pub fn parse_document(doc: &str) -> (r: Result<CredentialRefs, String>)
    ensures
        match r {
            Ok(c) => document(doc@) == Ok::<Refs, Seq<char>>(c@),
            Err(e) => document(doc@) == Err::<Refs, Seq<char>>(e@),
        },
{
    let all = lines(doc);
    let ghost lv = text::views(all@);
    let mut refs: Vec<(String, String)> = Vec::new();
    let mut in_refs = false;
    let mut i: usize = 0;
    assert(reading(refs@, false) == (Reading { refs: Seq::empty(), in_refs: false }));
    while i < all.len()
        invariant
            i <= all.len(),
            lv == text::views(all@),
            lv == text::text_lines(doc@),
            read_lines(lv, i as int) == Ok::<Reading, Seq<char>>(reading(refs@, in_refs)),
        decreases all.len() - i,
    {
        assert(lv[i as int] == all@[i as int]@);
        match parse_line(&mut refs, in_refs, i, all[i].as_str()) {
            Ok(b) => {
                in_refs = b;
            },
            Err(e) => {
                proof {
                    refused_stays_refused(lv, i as int + 1, lv.len() as int);
                }
                return Err(e);
            },
        }
        i += 1;
    }
    Ok(CredentialRefs { refs })
}

/// The lines of a document as they are written: what stands between newlines,
/// a carriage return before one kept.
pub open spec fn raw_lines(doc: Seq<char>) -> Seq<Seq<char>> {
    let p = text::pieces(doc, '\n');
    if p.last().len() == 0 {
        p.drop_last()
    } else {
        p
    }
}

fn document_lines(doc: &str) -> (r: Vec<String>)
    ensures
        text::views(r@) == raw_lines(doc@),
{
    let mut all = split(doc, '\n');
    proof {
        text::join_pieces(doc@, '\n');
    }
    let ghost p = text::views(all@);
    let n: usize = all.len();
    assert(p.last() == all@[n - 1]@);
    if all[n - 1].as_str().is_empty() {
        all.pop();
        assert(text::views(all@) == p.drop_last());
    }
    all
}

/// Lines as a document: each with its newline.
pub open spec fn closed_text(all: Seq<Seq<char>>) -> Seq<char>
    decreases all.len(),
{
    if all.len() == 0 {
        Seq::empty()
    } else {
        closed_text(all.drop_last()) + all.last() + "\n"@
    }
}

fn close_lines(all: &Vec<String>) -> (r: String)
    ensures
        r@ == closed_text(text::views(all@)),
{
    let ghost lv = text::views(all@);
    let mut t = String::new();
    let mut i: usize = 0;
    while i < all.len()
        invariant
            i <= all.len(),
            lv == text::views(all@),
            t@ == closed_text(lv.take(i as int)),
        decreases all.len() - i,
    {
        assert(lv.take(i as int + 1).drop_last() == lv.take(i as int));
        t.append(all[i].as_str());
        t.append("\n");
        i += 1;
    }
    assert(lv.take(lv.len() as int) == lv);
    t
}

/// Whether a line is an entry for a name, and not one of the layout's keys.
pub open spec fn holds(line: Seq<char>, name: Seq<char>) -> bool {
    layout_key_of(line) is None && (entry_of(line) matches Some(e) && e.0 == name)
}

fn is_entry_for(line: &str, name: &str) -> (r: bool)
    ensures
        r == holds(line@, name@),
{
    match top_layout_key(line) {
        Some(_) => false,
        None => match parse_entry(line) {
            Some((n, _)) => same(n.as_str(), name),
            None => false,
        },
    }
}

/// The lines without the entries for a name.
pub open spec fn dropped(all: Seq<Seq<char>>, k: int, name: Seq<char>) -> Seq<Seq<char>>
    decreases k,
{
    if k <= 0 {
        Seq::empty()
    } else if holds(all[k - 1], name) {
        dropped(all, k - 1, name)
    } else {
        dropped(all, k - 1, name).push(all[k - 1])
    }
}

/// The document without a name's entries; comments and siblings survive.
pub open spec fn without_key(doc: Seq<char>, name: Seq<char>) -> Seq<char> {
    let all = raw_lines(doc);
    closed_text(dropped(all, all.len() as int, name))
}

fn render_delete(doc: &str, name: &str) -> (r: String)
    ensures
        r@ == without_key(doc@, name@),
{
    let all = document_lines(doc);
    let ghost lv = text::views(all@);
    let mut out: Vec<String> = Vec::new();
    let mut i: usize = 0;
    assert(text::views(out@) == dropped(lv, 0, name@));
    while i < all.len()
        invariant
            i <= all.len(),
            lv == text::views(all@),
            text::views(out@) == dropped(lv, i as int, name@),
        decreases all.len() - i,
    {
        let line = all[i].as_str();
        assert(lv[i as int] == line@);
        let ghost before = text::views(out@);
        if !is_entry_for(line, name) {
            out.push(all[i].clone());
            assert(text::views(out@) == before.push(lv[i as int]));
        }
        i += 1;
    }
    close_lines(&out)
}

/// Whether a line is a layout key of its own at the top level.
pub open spec fn top_key(line: Seq<char>, key: Seq<char>) -> bool {
    !nested(line) && !idle(line) && layout_key_of(line) == Some(key)
}

fn is_top_key(line: &str, key: &str) -> (r: bool)
    ensures
        r == top_key(line@, key@),
{
    if is_nested(line) {
        return false;
    }
    let plain = trimmed(line);
    if plain.as_str().is_empty() || starts_with_char(plain.as_str(), '#') {
        return false;
    }
    match top_layout_key(line) {
        Some(k) => same(k.as_str(), key),
        None => false,
    }
}

/// Whether the document carries the version envelope.
pub open spec fn versioned(all: Seq<Seq<char>>) -> bool {
    exists|i: int| 0 <= i < all.len() && top_key(#[trigger] all[i], "version"@)
}

fn has_version_layout(all: &Vec<String>) -> (r: bool)
    ensures
        r == versioned(text::views(all@)),
{
    let ghost lv = text::views(all@);
    let mut i: usize = 0;
    while i < all.len()
        invariant
            i <= all.len(),
            lv == text::views(all@),
            forall|k: int| 0 <= k < i ==> !top_key(#[trigger] lv[k], "version"@),
        decreases all.len() - i,
    {
        assert(lv[i as int] == all@[i as int]@);
        if is_top_key(all[i].as_str(), "version") {
            return true;
        }
        i += 1;
    }
    false
}

/// Whether the document has a `refs:` block.
pub open spec fn blocked(all: Seq<Seq<char>>) -> bool {
    exists|i: int| 0 <= i < all.len() && top_key(#[trigger] all[i], "refs"@)
}

fn has_refs_block(all: &Vec<String>) -> (r: bool)
    ensures
        r == blocked(text::views(all@)),
{
    let ghost lv = text::views(all@);
    let mut i: usize = 0;
    while i < all.len()
        invariant
            i <= all.len(),
            lv == text::views(all@),
            forall|k: int| 0 <= k < i ==> !top_key(#[trigger] lv[k], "refs"@),
        decreases all.len() - i,
    {
        assert(lv[i as int] == all@[i as int]@);
        if is_top_key(all[i].as_str(), "refs") {
            return true;
        }
        i += 1;
    }
    false
}

/// A line nested under `refs:`; an empty one stays empty.
pub open spec fn indented(line: Seq<char>) -> Seq<char> {
    if text::unreturn(line).len() == 0 {
        line
    } else {
        "  "@ + line
    }
}

/// The version-1 layout for a flat document: its lines, with comments and
/// each value's spelling, nest under `refs:`.
pub open spec fn nested_under_refs(all: Seq<Seq<char>>) -> Seq<Seq<char>> {
    seq!["version: 1"@, "refs:"@] + all.map_values(|l: Seq<char>| indented(l))
}

/// The version-1 layout for a document without the version envelope: one with
/// a `refs:` block of its own only gets the envelope.
pub open spec fn migrated(all: Seq<Seq<char>>) -> Seq<Seq<char>> {
    if blocked(all) {
        seq!["version: 1"@] + all
    } else {
        nested_under_refs(all)
    }
}

fn migrate(all: Vec<String>) -> (r: Vec<String>)
    ensures
        text::views(r@) == migrated(text::views(all@)),
{
    if has_refs_block(&all) {
        let ghost lv = text::views(all@);
        let mut out = all;
        out.insert(0, String::from_str("version: 1"));
        assert(text::views(out@) == seq!["version: 1"@] + lv);
        out
    } else {
        migrate_flat(&all)
    }
}

fn migrate_flat(all: &Vec<String>) -> (r: Vec<String>)
    ensures
        text::views(r@) == nested_under_refs(text::views(all@)),
{
    let ghost lv = text::views(all@);
    let mut out: Vec<String> = Vec::new();
    out.push(String::from_str("version: 1"));
    out.push(String::from_str("refs:"));
    let mut i: usize = 0;
    assert(text::views(out@) == seq!["version: 1"@, "refs:"@] + lv.take(0).map_values(
        |l: Seq<char>| indented(l),
    ));
    while i < all.len()
        invariant
            i <= all.len(),
            lv == text::views(all@),
            text::views(out@) == seq!["version: 1"@, "refs:"@] + lv.take(i as int).map_values(
                |l: Seq<char>| indented(l),
            ),
        decreases all.len() - i,
    {
        let ghost before = text::views(out@);
        let bare = strip_return(all[i].as_str());
        let line = if bare.as_str().is_empty() {
            all[i].clone()
        } else {
            cat("  ", all[i].as_str())
        };
        assert(line@ == indented(lv[i as int]));
        out.push(line);
        assert(text::views(out@) == before.push(line@));
        assert(lv.take(i as int + 1) == lv.take(i as int).push(lv[i as int]));
        i += 1;
        assert(text::views(out@) == seq!["version: 1"@, "refs:"@] + lv.take(i as int).map_values(
            |l: Seq<char>| indented(l),
        ));
    }
    assert(lv.take(lv.len() as int) == lv);
    out
}

/// A document half patched.
#[verifier::ext_equal]
pub struct Patch {
    pub out: Seq<Seq<char>>,
    /// Where the `refs:` line stands.
    pub header: Option<int>,
    /// Where the last entry under it stands.
    pub last: Option<int>,
    pub replaced: bool,
}

pub open spec fn patch_start() -> Patch {
    Patch { out: Seq::empty(), header: None, last: None, replaced: false }
}

/// One more line: the entry for `name` gives way to the new one wherever it
/// stands, under `refs:` or at the top level.
pub open spec fn patch_line(
    p: Patch,
    line: Seq<char>,
    name: Seq<char>,
    value: Seq<char>,
) -> Patch {
    let header = if p.header is None && top_key(line, "refs"@) {
        Some(p.out.len() as int)
    } else {
        p.header
    };
    if header is Some && nested(line) && entry_of(line) is Some {
        if (entry_of(line)->0).0 == name {
            Patch { out: p.out.push(entry_line(name, value)), header, replaced: true, ..p }
        } else {
            Patch { out: p.out.push(line), header, last: Some(p.out.len() as int), ..p }
        }
    } else if !nested(line) && holds(line, name) {
        Patch { out: p.out.push(flat_line(name, value)), header, replaced: true, ..p }
    } else {
        Patch { out: p.out.push(line), header, ..p }
    }
}

pub open spec fn patch_lines(
    all: Seq<Seq<char>>,
    k: int,
    name: Seq<char>,
    value: Seq<char>,
) -> Patch
    decreases k,
{
    if k <= 0 {
        patch_start()
    } else {
        patch_line(patch_lines(all, k - 1, name, value), all[k - 1], name, value)
    }
}

/// The patched lines: an entry that replaced none follows the last one, and
/// the `refs:` block is opened where there is none.
pub open spec fn patch_end(p: Patch, entry: Seq<char>) -> Seq<Seq<char>> {
    if p.replaced {
        p.out
    } else {
        match p.header {
            Some(h) => {
                let at = match p.last {
                    Some(i) => i + 1,
                    None => h + 1,
                };
                p.out.insert(at, entry)
            },
            None => p.out.push("refs:"@).push(entry),
        }
    }
}

/// The line of an entry under `refs:`.
pub open spec fn entry_line(name: Seq<char>, value: Seq<char>) -> Seq<char> {
    "  "@ + name + ": "@ + value
}

/// The line of an entry at the top level.
pub open spec fn flat_line(name: Seq<char>, value: Seq<char>) -> Seq<char> {
    name + ": "@ + value
}

pub open spec fn patched(all: Seq<Seq<char>>, name: Seq<char>, value: Seq<char>) -> Seq<
    Seq<char>,
> {
    patch_end(patch_lines(all, all.len() as int, name, value), entry_line(name, value))
}

/// The document with a name's value stored.
pub open spec fn with_key(doc: Seq<char>, name: Seq<char>, value: Seq<char>) -> Seq<char> {
    let all = raw_lines(doc);
    closed_text(patched(if versioned(all) { all } else { migrated(all) }, name, value))
}

proof fn patch_bounds(all: Seq<Seq<char>>, k: int, name: Seq<char>, value: Seq<char>)
    requires
        0 <= k <= all.len(),
    ensures
        ({
            let p = patch_lines(all, k, name, value);
            &&& p.out.len() == k
            &&& p.header matches Some(h) ==> 0 <= h < k
            &&& p.last matches Some(i) ==> 0 <= i < k && p.header is Some
        }),
    decreases k,
{
    if k > 0 {
        patch_bounds(all, k - 1, name, value);
    }
}

fn patch_refs_section(all: &Vec<String>, name: &str, value: &str) -> (r: Vec<String>)
    ensures
        text::views(r@) == patched(text::views(all@), name@, value@),
{
    let entry = cat4("  ", name, ": ", value);
    let flat = cat3(name, ": ", value);
    let ghost lv = text::views(all@);
    let mut out: Vec<String> = Vec::new();
    let mut header: Option<usize> = None;
    let mut last: Option<usize> = None;
    let mut replaced = false;
    let mut i: usize = 0;
    assert(text::views(out@) == Seq::<Seq<char>>::empty());
    while i < all.len()
        invariant
            i <= all.len(),
            lv == text::views(all@),
            entry@ == entry_line(name@, value@),
            flat@ == flat_line(name@, value@),
            out.len() == i,
            ({
                let p = patch_lines(lv, i as int, name@, value@);
                &&& p.out == text::views(out@)
                &&& p.header == as_index(header)
                &&& p.last == as_index(last)
                &&& p.replaced == replaced
            }),
        decreases all.len() - i,
    {
        let line = all[i].as_str();
        assert(lv[i as int] == line@);
        let ghost before = text::views(out@);
        if header.is_none() && is_top_key(line, "refs") {
            header = Some(i);
        }
        let mut next = all[i].clone();
        if header.is_some() && is_nested(line) {
            if let Some((n, _)) = parse_entry(line) {
                if same(n.as_str(), name) {
                    next = entry.clone();
                    replaced = true;
                } else {
                    last = Some(i);
                }
            }
        } else if !is_nested(line) && is_entry_for(line, name) {
            next = flat.clone();
            replaced = true;
        }
        out.push(next);
        assert(text::views(out@) == before.push(next@));
        i += 1;
    }
    proof {
        patch_bounds(lv, lv.len() as int, name@, value@);
    }
    if !replaced {
        let ghost before = text::views(out@);
        match header {
            Some(h) => {
                let at: usize = match last {
                    Some(k) => k + 1,
                    None => h + 1,
                };
                out.insert(at, entry);
                assert(text::views(out@) == before.insert(at as int, entry@));
            },
            None => {
                let open = String::from_str("refs:");
                out.push(open);
                assert(text::views(out@) == before.push(open@));
                out.push(entry);
                assert(text::views(out@) == before.push(open@).push(entry@));
            },
        }
    }
    out
}

/// An index as a number.
pub open spec fn as_index(i: Option<usize>) -> Option<int> {
    match i {
        Some(k) => Some(k as int),
        None => None,
    }
}

/// What storing a key makes of a document, or why it is refused. A document
/// that cannot be read is never overwritten.
pub open spec fn stored(doc: Seq<char>, name: Seq<char>, value: Seq<char>) -> Result<
    Seq<char>,
    Seq<char>,
> {
    if text::trim(value).len() == 0 {
        Err("empty keys are not stored; remove the key instead"@)
    } else if !valid_name(name) {
        Err("\""@ + name + "\" is not an env-style reference name"@)
    } else {
        match document(doc) {
            Err(e) => Err(e),
            Ok(_) => Ok(with_key(doc, name, text::trim(value))),
        }
    }
}

/// The entries of the document, none where there is no document.
pub open spec fn entries_of(doc: Option<Seq<char>>) -> Result<Refs, Seq<char>> {
    match doc {
        Some(d) => document(d),
        None => Ok(Seq::empty()),
    }
}

pub open spec fn view_doc(doc: Option<&str>) -> Option<Seq<char>> {
    match doc {
        Some(d) => Some(d@),
        None => None,
    }
}

/// The entries of the document, where there is one.
pub fn load_refs(doc: Option<&str>) -> (r: Result<CredentialRefs, String>)
    ensures
        match r {
            Ok(c) => entries_of(view_doc(doc)) == Ok::<Refs, Seq<char>>(c@),
            Err(e) => entries_of(view_doc(doc)) == Err::<Refs, Seq<char>>(e@),
        },
{
    match doc {
        Some(d) => parse_document(d),
        None => Ok(CredentialRefs::default()),
    }
}

/// The key stored under a name.
pub fn stored_key(doc: Option<&str>, name: &str) -> (r: Result<Option<String>, String>)
    ensures
        match entries_of(view_doc(doc)) {
            Err(e) => r matches Err(x) && x@ == e,
            Ok(refs) => r matches Ok(k) && text::view_opt(k) == lookup(refs, 0, name@),
        },
{
    match load_refs(doc) {
        Err(e) => Err(e),
        Ok(refs) => match refs.get(name) {
            Some(v) => Ok(Some(String::from_str(v))),
            None => Ok(None),
        },
    }
}

/// The document with one reference stored or replaced: only its line changes,
/// and a flat layout migrates in the same write.
pub fn store_key(doc: &str, name: &str, value: &str) -> (r: Result<String, String>)
    ensures
        match r {
            Ok(t) => stored(doc@, name@, value@) == Ok::<Seq<char>, Seq<char>>(t@),
            Err(e) => stored(doc@, name@, value@) == Err::<Seq<char>, Seq<char>>(e@),
        },
{
    let value = trimmed(value);
    if value.as_str().is_empty() {
        return Err(String::from_str("empty keys are not stored; remove the key instead"));
    }
    if !valid_ref_name(name) {
        return Err(cat3("\"", name, "\" is not an env-style reference name"));
    }
    match parse_document(doc) {
        Err(e) => Err(e),
        Ok(_) => {
            let all = document_lines(doc);
            let base = if has_version_layout(&all) {
                all
            } else {
                migrate(all)
            };
            let next = patch_refs_section(&base, name, value.as_str());
            Ok(close_lines(&next))
        },
    }
}

/// What reading the document gave: no document, or its text, or why it cannot
/// be read.
pub open spec fn view_read(read: Result<Option<String>, String>) -> Result<
    Option<Seq<char>>,
    Seq<char>,
> {
    match read {
        Ok(doc) => Ok(text::view_opt(doc)),
        Err(why) => Err(why@),
    }
}

/// What storing a key makes of what was read. A document that others can read
/// too, that cannot be read or that cannot be understood is refused, so that
/// it is never overwritten; where there is none, a new one is begun.
pub open spec fn stored_over(
    path: Seq<char>,
    mode: Option<u32>,
    read: Result<Option<Seq<char>>, Seq<char>>,
    name: Seq<char>,
    value: Seq<char>,
) -> Result<Seq<char>, Seq<char>> {
    if text::trim(value).len() == 0 || !valid_name(name) {
        stored(Seq::empty(), name, value)
    } else if mode matches Some(m) && m % 64 != 0 {
        Err(exposed(path, mode->0))
    } else {
        match read {
            Err(why) => Err("cannot read "@ + path + ": "@ + why),
            Ok(None) => stored(Seq::empty(), name, value),
            Ok(Some(doc)) => stored(doc, name, value),
        }
    }
}

/// The document to write for a key, by the path and the mode bits of the
/// document and the outcome of reading it. Without a mode there is no document,
/// or none that carries one.
pub fn store_over(
    path: &str,
    mode: Option<u32>,
    read: Result<Option<String>, String>,
    name: &str,
    value: &str,
) -> (r: Result<String, String>)
    ensures
        match r {
            Ok(t) => stored_over(path@, mode, view_read(read), name@, value@) == Ok::<
                Seq<char>,
                Seq<char>,
            >(t@),
            Err(e) => stored_over(path@, mode, view_read(read), name@, value@) == Err::<
                Seq<char>,
                Seq<char>,
            >(e@),
        },
{
    proof {
        reveal_strlit("");
        assert(""@ == Seq::<char>::empty());
    }
    if is_blank(value) || !valid_ref_name(name) {
        return store_key("", name, value);
    }
    if let Some(m) = mode {
        if let Err(e) = assert_owner_only(m, path) {
            return Err(e);
        }
    }
    match read {
        Err(why) => Err(cat4("cannot read ", path, ": ", why.as_str())),
        Ok(None) => store_key("", name, value),
        Ok(Some(doc)) => store_key(doc.as_str(), name, value),
    }
}

/// The document with one reference removed, `None` where nothing is: only the
/// entry's line goes. The layout's own names are excluded from deletion.
pub fn delete_key(doc: &str, name: &str) -> (r: Result<Option<String>, String>)
    ensures
        match document(doc@) {
            Err(e) => r matches Err(x) && x@ == e,
            Ok(refs) => if lookup(refs, 0, name@) is None || layout_key(name@) {
                r matches Ok(None)
            } else {
                r matches Ok(Some(t)) && t@ == without_key(doc@, name@)
            },
        },
{
    match parse_document(doc) {
        Err(e) => Err(e),
        Ok(refs) => match refs.get(name) {
            None => Ok(None),
            Some(_) => if is_layout_key(name) {
                Ok(None)
            } else {
                Ok(Some(render_delete(doc, name)))
            },
        },
    }
}

/// A descriptor for confirmations: a short key shows nothing, a longer one
/// its first three and last four characters.
pub open spec fn redacted(value: Seq<char>) -> Seq<char> {
    if value.len() <= 8 {
        "••••"@
    } else {
        value.take(3) + "…"@ + value.skip(value.len() - 4)
    }
}

/// The redacted descriptor of a key, never the key itself.
pub fn redact(value: &str) -> (r: String)
    ensures
        r@ == redacted(value@),
{
    let v = chars(value);
    if v.len() <= 8 {
        return String::from_str("••••");
    }
    let head = string_of(&v, 0, 3);
    let tail = string_of(&v, v.len() - 4, v.len());
    cat3(head.as_str(), "…", tail.as_str())
}

/// A descriptor never carries the whole key: of nine characters or more it
/// drops at least two, and of fewer it is the same for every key.
pub proof fn redact_never_carries_the_key(value: Seq<char>)
    ensures
        value.len() > 8 ==> redacted(value).len() == 8 && !text::occurs(redacted(value), value),
        value.len() <= 8 ==> redacted(value) == "••••"@,
{
    reveal_strlit("…");
    if value.len() > 8 {
        assert forall|i: int| !text::stands_at(redacted(value), value, i) by {}
    }
}

} // verus!
