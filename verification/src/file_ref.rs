//! `@file` mentions: the token grammar and the browser menu's rules.
//!
//! An `@` at a word boundary opens a token that runs to whitespace, or to the
//! closing quote in the form `@"..."`. The menu drives a directory browser
//! from the token: directory segments navigate, the last segment selects.

use vstd::prelude::*;
use vstd::string::*;
use crate::input::area;
use crate::input::composer::{Composer, ComposerEditor};
use crate::input::layout;
use crate::locale;
use crate::locale::Locale;
use crate::path;
use crate::path::{relative_path, FilePath};
use crate::text;
use crate::text::{
    cat, cat3, chars, contains, index_from, is_space, join, same, split, starts_with,
    string_of,
};

verus! {

/// Whether a character is a letter or a digit by Unicode's tables, as
/// `char::is_alphanumeric` has it.
pub uninterp spec fn alphanumeric(c: char) -> bool;

/// `char::is_alphanumeric` of the standard library: a function of the
/// character alone, read off Unicode's tables.
#[verifier::external_body]
fn is_alphanumeric(c: char) -> (r: bool)
    ensures
        r == alphanumeric(c),
{
    c.is_alphanumeric()
}

/// The lowercase equivalent of a string, as `str::to_lowercase` has it.
pub uninterp spec fn lowercase(s: Seq<char>) -> Seq<char>;

/// `str::to_lowercase` of the standard library: a function of the string
/// alone, read off Unicode's tables.
#[verifier::external_body]
fn to_lowercase(s: &str) -> (r: String)
    ensures
        r@ == lowercase(s@),
{
    s.to_lowercase()
}

/// An active `@` token on a line, in character offsets.
#[derive(Debug, Clone, PartialEq, Eq)]
pub struct AtToken {
    /// Where the `@` stands.
    pub start: usize,
    /// Just past the token.
    pub end: usize,
    /// The text after `@`, or after `@"`, without the quotes.
    pub query: String,
    /// The form `@"..."`: the query may hold spaces.
    pub quoted: bool,
}

#[verifier::ext_equal]
pub struct Token {
    pub start: int,
    pub end: int,
    pub query: Seq<char>,
    pub quoted: bool,
}

impl View for AtToken {
    type V = Token;

    open spec fn view(&self) -> Token {
        Token {
            start: self.start as int,
            end: self.end as int,
            query: self.query@,
            quoted: self.quoted,
        }
    }
}

/// Whether a word can begin at `i`: the line's start, or after a character
/// that is no part of a word.
pub open spec fn boundary(line: Seq<char>, i: int) -> bool {
    i == 0 || !(alphanumeric(line[i - 1]) || line[i - 1] == '_')
}

/// Whether an `@` at `i` opens a token.
pub open spec fn opens(line: Seq<char>, i: int) -> bool {
    0 <= i < line.len() && line[i] == '@' && boundary(line, i)
}

/// The end of the run without whitespace that begins at `i`.
pub open spec fn run_end(line: Seq<char>, i: int) -> int
    decreases (if i < line.len() {
        line.len() - i
    } else {
        0
    }),
{
    if i < line.len() && !text::space(line[i]) {
        run_end(line, i + 1)
    } else {
        i
    }
}

/// The token that opens at `i`.
pub open spec fn token_at(line: Seq<char>, i: int) -> Token {
    let quoted = i + 1 < line.len() && line[i + 1] == '"';
    let body = if quoted {
        i + 2
    } else {
        i + 1
    };
    let end = if quoted {
        body + text::position(line.skip(body), '"')
    } else {
        run_end(line, body)
    };
    Token { start: i, end, query: line.subrange(body, end), quoted }
}

/// The last token at or after `i` that the caret sits in. What a quoted token
/// spans opens no token of its own.
pub open spec fn active_from(line: Seq<char>, cursor: int, i: int) -> Option<Token>
    decreases (if i < line.len() {
        line.len() - i
    } else {
        0
    }),
{
    if i < 0 || i >= line.len() {
        None
    } else if opens(line, i) {
        let t = token_at(line, i);
        let later = active_from(
            line,
            cursor,
            if t.quoted && t.end > i + 1 {
                t.end
            } else {
                i + 1
            },
        );
        if later is Some {
            later
        } else if i <= cursor <= t.end {
            Some(t)
        } else {
            None
        }
    } else {
        active_from(line, cursor, i + 1)
    }
}

/// The token the caret sits in, if any.
pub open spec fn active(line: Seq<char>, cursor: int) -> Option<Token> {
    active_from(line, cursor, 0)
}

proof fn run_end_bounds(line: Seq<char>, i: int)
    requires
        0 <= i <= line.len(),
    ensures
        i <= run_end(line, i) <= line.len(),
        forall|k: int| i <= k < run_end(line, i) ==> !text::space(#[trigger] line[k]),
        run_end(line, i) < line.len() ==> text::space(line[run_end(line, i)]),
    decreases line.len() - i,
{
    if i < line.len() && !text::space(line[i]) {
        run_end_bounds(line, i + 1);
    }
}

fn token_of(line: &Vec<char>, i: usize) -> (r: AtToken)
    requires
        i < line.len(),
    ensures
        r@ == token_at(line@, i as int),
        r.end <= line.len(),
        r.end > i,
{
    let quoted = i + 1 < line.len() && line[i + 1] == '"';
    if quoted {
        let body: usize = i + 2;
        let end = index_from(line, body, '"');
        AtToken { start: i, end, query: string_of(line, body, end), quoted }
    } else {
        let body: usize = i + 1;
        let mut e: usize = body;
        while e < line.len() && !is_space(line[e])
            invariant
                body <= e <= line.len(),
                run_end(line@, body as int) == run_end(line@, e as int),
            decreases line.len() - e,
        {
            e += 1;
        }
        AtToken { start: i, end: e, query: string_of(line, body, e), quoted }
    }
}

/// The token the caret sits in, if any. An `@` inside a word, as in an
/// address, opens none; an `@` alone is a token.
pub fn active_at_token(line: &str, cursor_col: usize) -> (r: Option<AtToken>)
    ensures
        match r {
            Some(t) => active(line@, cursor_col as int) == Some(t@),
            None => active(line@, cursor_col as int) is None,
        },
{
    let chars = chars(line);
    let mut found: Option<AtToken> = None;
    let mut i: usize = 0;
    let ghost c = cursor_col as int;
    while i < chars.len()
        invariant
            i <= chars.len(),
            chars@ == line@,
            c == cursor_col,
            active(line@, c) == if active_from(line@, c, i as int) is Some {
                active_from(line@, c, i as int)
            } else {
                match found {
                    Some(t) => Some(t@),
                    None => None,
                }
            },
        decreases chars.len() - i,
    {
        let ghost later = active_from(line@, c, i as int);
        if chars[i] == '@' && (i == 0 || !(is_alphanumeric(chars[i - 1]) || chars[i - 1] == '_')) {
            assert(opens(line@, i as int));
            let t = token_of(&chars, i);
            let next: usize = if t.quoted && t.end > i + 1 {
                t.end
            } else {
                i + 1
            };
            assert(t@ == token_at(line@, i as int));
            if i <= cursor_col && cursor_col <= t.end {
                found = Some(t);
            }
            i = next;
        } else {
            assert(!opens(line@, i as int));
            i += 1;
        }
    }
    found
}

proof fn active_from_is_sound(line: Seq<char>, cursor: int, i: int)
    requires
        0 <= i <= line.len(),
    ensures
        active_from(line, cursor, i) matches Some(t) ==> opens(line, t.start) && t == token_at(
            line,
            t.start,
        ) && t.start <= cursor <= t.end && i <= t.start,
    decreases line.len() - i,
{
    if i < line.len() {
        if opens(line, i) {
            let t = token_at(line, i);
            text::position_is_first(line.skip(i + 2), '"');
            run_end_bounds(line, i + 1);
            active_from_is_sound(line, cursor, i + 1);
            if t.quoted && t.end > i + 1 {
                active_from_is_sound(line, cursor, t.end);
            }
        } else {
            active_from_is_sound(line, cursor, i + 1);
        }
    }
}

/// An active token opens at an `@` on a word boundary, so never inside an
/// address; the caret is on it or in it; and it is the token that opens there.
pub proof fn active_token_is_sound(line: Seq<char>, cursor: int)
    ensures
        active(line, cursor) matches Some(t) ==> opens(line, t.start) && t == token_at(
            line,
            t.start,
        ) && t.start <= cursor <= t.end,
{
    active_from_is_sound(line, cursor, 0);
}

/// What tells a dismissed token from another: its quote and its query.
pub fn token_tag(quoted: bool, query: &str) -> (r: String)
    ensures
        r@ == tag_of(quoted, query@),
{
    if quoted {
        cat("\"", query)
    } else {
        let r = String::from_str(query);
        assert(Seq::<char>::empty() + query@ == query@);
        r
    }
}

pub open spec fn tag_of(quoted: bool, query: Seq<char>) -> Seq<char> {
    if quoted {
        "\""@ + query
    } else {
        query
    }
}

/// Whether a character is a control character (Unicode's category `Cc`).
pub open spec fn control(c: char) -> bool {
    c as u32 <= 0x1f || 0x7f <= c as u32 <= 0x9f
}

/// Whether a path can be written as a mention.
pub open spec fn mentionable(rel: Seq<char>) -> bool {
    rel.len() > 0 && forall|i: int|
        0 <= i < rel.len() ==> !control(#[trigger] rel[i]) && rel[i] != '"'
}

/// A directory's path, with its trailing slash.
pub open spec fn slashed(rel: Seq<char>, is_dir: bool) -> Seq<char> {
    if is_dir && !(rel.len() > 0 && rel.last() == '/') {
        rel.push('/')
    } else {
        rel
    }
}

/// Whether there is whitespace in a path.
pub open spec fn spaced(s: Seq<char>) -> bool {
    exists|i: int| 0 <= i < s.len() && text::space(#[trigger] s[i])
}

/// The mention of a path. Whitespace forces the quoted form, and a quoted
/// directory keeps its quote open.
pub open spec fn mention(rel: Seq<char>, is_dir: bool, quoted: bool) -> Option<Seq<char>> {
    if !mentionable(rel) {
        None
    } else {
        let path = slashed(rel, is_dir);
        if quoted || spaced(path) {
            Some(
                if is_dir {
                    "@\""@ + path
                } else {
                    "@\""@ + path + "\""@
                },
            )
        } else {
            Some("@"@ + path)
        }
    }
}

fn is_mentionable(rel: &Vec<char>) -> (r: bool)
    ensures
        r == mentionable(rel@),
{
    if rel.len() == 0 {
        return false;
    }
    let mut i: usize = 0;
    while i < rel.len()
        invariant
            i <= rel.len(),
            forall|k: int| 0 <= k < i ==> !control(#[trigger] rel@[k]) && rel@[k] != '"',
        decreases rel.len() - i,
    {
        let n: u32 = rel[i] as u32;
        if n <= 0x1f || (0x7f <= n && n <= 0x9f) || rel[i] == '"' {
            return false;
        }
        i += 1;
    }
    true
}

fn is_spaced(s: &Vec<char>) -> (r: bool)
    ensures
        r == spaced(s@),
{
    let mut i: usize = 0;
    while i < s.len()
        invariant
            i <= s.len(),
            forall|k: int| 0 <= k < i ==> !text::space(#[trigger] s@[k]),
        decreases s.len() - i,
    {
        if is_space(s[i]) {
            return true;
        }
        i += 1;
    }
    false
}

/// The text that stands for a picked path, or `None` where it cannot be
/// written: a control character, or a quote, which the quoted form cannot
/// nest.
pub fn format_file_mention(rel: &str, is_dir: bool, quoted: bool) -> (r: Option<String>)
    ensures
        text::view_opt(r) == mention(rel@, is_dir, quoted),
{
    let mut path = chars(rel);
    if !is_mentionable(&path) {
        return None;
    }
    if is_dir && path[path.len() - 1] != '/' {
        path.push('/');
    }
    let spelled = string_of(&path, 0, path.len());
    assert(spelled@ == slashed(rel@, is_dir));
    if quoted || is_spaced(&path) {
        if is_dir {
            Some(cat("@\"", spelled.as_str()))
        } else {
            Some(cat3("@\"", spelled.as_str(), "\""))
        }
    } else {
        Some(cat("@", spelled.as_str()))
    }
}

/// A mention reads back: with the caret at the end of a file's or a
/// directory's mention, the active token is that mention, and its query is
/// the path. An `@` of the path that stands at a word's start is left out where
/// the mention is not quoted: it opens a token of its own.
pub proof fn mention_reads_back(rel: Seq<char>, is_dir: bool, quoted: bool)
    requires
        mention(rel, is_dir, quoted) is Some,
        quoted || spaced(slashed(rel, is_dir)) || forall|i: int|
            0 <= i < rel.len() && #[trigger] rel[i] == '@' ==> i > 0 && !boundary(rel, i),
    ensures
        ({
            let line = mention(rel, is_dir, quoted)->0;
            let path = slashed(rel, is_dir);
            let marked = quoted || spaced(path);
            active(
                line,
                if marked && !is_dir {
                    line.len() - 1
                } else {
                    line.len() as int
                },
            ) == Some(
                Token {
                    start: 0,
                    end: if marked && !is_dir {
                        line.len() - 1
                    } else {
                        line.len() as int
                    },
                    query: path,
                    quoted: marked,
                },
            )
        }),
{
    reveal_strlit("@\"");
    reveal_strlit("\"");
    reveal_strlit("@");
    let line = mention(rel, is_dir, quoted)->0;
    let path = slashed(rel, is_dir);
    assert forall|i: int| 0 <= i < path.len() implies #[trigger] path[i] != '"' by {
        if i < rel.len() {
            assert(path[i] == rel[i]);
        }
    }
    assert(opens(line, 0));
    if quoted || spaced(path) {
        assert(line[1] == '"');
        let rest = line.skip(2);
        let end = path.len() as int;
        assert forall|k: int| 0 <= k < end implies rest[k] != '"' by {
            assert(rest[k] == path[k]);
        }
        if !is_dir {
            assert(rest[end] == '"');
        }
        text::first_is_position(rest, '"', end);
        assert(line.subrange(2, 2 + end) == path);
        let t = token_at(line, 0);
        assert(t.end == 2 + end);
        reveal_with_fuel(active_from, 3);
        if !is_dir {
            assert(!opens(line, 2 + end));
        }
    } else {
        assert(path.len() > 0);
        assert(line[1] == path[0]);
        assert(path[0] != '"');
        run_end_bounds(line, 1);
        assert forall|k: int| 1 <= k < line.len() implies !text::space(#[trigger] line[k]) by {
            assert(line[k] == path[k - 1]);
        }
        assert(run_end(line, 1) == line.len());
        assert(line.subrange(1, line.len() as int) == path);
        assert forall|k: int| 1 <= k < line.len() implies !#[trigger] opens(line, k) by {
            assert(line[k] == path[k - 1]);
            if k - 1 < rel.len() {
                assert(path[k - 1] == rel[k - 1]);
                if k >= 2 {
                    assert(line[k - 1] == rel[k - 2]);
                }
            }
        }
        nothing_opens(line, line.len() as int, 1);
    }
}

proof fn nothing_opens(line: Seq<char>, cursor: int, i: int)
    requires
        0 <= i <= line.len(),
        forall|k: int| i <= k < line.len() ==> !#[trigger] opens(line, k),
    ensures
        active_from(line, cursor, i) is None,
    decreases line.len() - i,
{
    if i < line.len() {
        assert(!opens(line, i));
        nothing_opens(line, cursor, i + 1);
    }
}

/// One row of a directory listing. A directory's name ends in a slash; the
/// row that leads to the parent is named `../`.
#[derive(Debug, Clone, PartialEq, Eq)]
pub struct FileEntry {
    pub name: String,
    pub path: FilePath,
    pub is_dir: bool,
}

#[verifier::ext_equal]
pub struct Entry {
    pub name: Seq<char>,
    pub path: Seq<Seq<char>>,
    pub is_dir: bool,
}

impl View for FileEntry {
    type V = Entry;

    open spec fn view(&self) -> Entry {
        Entry { name: self.name@, path: self.path@, is_dir: self.is_dir }
    }
}

impl FileEntry {
    pub fn copy(&self) -> (r: Self)
        ensures
            r@ == self@,
    {
        FileEntry { name: self.name.clone(), path: self.path.copy(), is_dir: self.is_dir }
    }
}

pub open spec fn listing(files: Seq<FileEntry>) -> Seq<Entry> {
    files.map_values(|f: FileEntry| f@)
}

/// A name without the slash that marks a directory.
pub open spec fn unslashed(name: Seq<char>) -> Seq<char> {
    if name.len() > 0 && name.last() == '/' {
        name.drop_last()
    } else {
        name
    }
}

/// How well a row fits a needle, less being better: an exact name before a
/// prefix before a part, and among those a directory before a file.
pub open spec fn rank(entry: Entry, needle: Seq<char>) -> Option<int> {
    let name = lowercase(unslashed(entry.name));
    let file = if entry.is_dir {
        0int
    } else {
        1int
    };
    if entry.name == "../"@ {
        None
    } else if name == needle {
        Some(file)
    } else if needle.is_prefix_of(name) {
        Some(2 + file)
    } else if text::occurs(name, needle) {
        Some(4 + file)
    } else {
        None
    }
}

/// The first row of the best rank.
pub open spec fn is_best(files: Seq<Entry>, needle: Seq<char>, i: int) -> bool {
    &&& 0 <= i < files.len()
    &&& rank(files[i], needle) is Some
    &&& forall|j: int|
        0 <= j < files.len() && rank(#[trigger] files[j], needle) is Some ==> rank(
            files[i],
            needle,
        )->0 <= rank(files[j], needle)->0 && (j < i ==> rank(files[i], needle)->0 < rank(
            files[j],
            needle,
        )->0)
}

/// The name that a row is found by: without the slash of a directory, in
/// lower case.
pub open spec fn sought(entry: Entry) -> Seq<char> {
    let n = entry.name;
    lowercase(
        if n.len() > 0 && n.last() == '/' {
            n.take(n.len() - 1)
        } else {
            n
        },
    )
}

/// The best row is the one that is meant: where some row has the very name it
/// has it too, failing that it begins with the needle where some row does, and
/// in any case it holds it. Among rows that fit alike a directory comes before
/// a file, and the first before the others. The way up is never meant.
pub proof fn the_best_row_is_the_one_meant(files: Seq<Entry>, needle: Seq<char>, i: int, j: int)
    requires
        is_best(files, needle, i),
        0 <= j < files.len(),
        files[j].name != "../"@,
    ensures
        files[i].name != "../"@,
        text::occurs(sought(files[i]), needle),
        sought(files[j]) == needle ==> sought(files[i]) == needle,
        needle.is_prefix_of(sought(files[j])) ==> needle.is_prefix_of(sought(files[i])),
        sought(files[j]) == needle && files[j].is_dir ==> files[i].is_dir,
        sought(files[i]) == needle && sought(files[j]) == needle && files[i].is_dir
            == files[j].is_dir ==> i <= j,
        needle.is_prefix_of(sought(files[j])) && sought(files[i]) != needle && files[j].is_dir
            ==> files[i].is_dir,
        needle.is_prefix_of(sought(files[j])) && sought(files[i]) != needle && files[i].is_dir
            == files[j].is_dir ==> i <= j,
        text::occurs(sought(files[j]), needle) && !needle.is_prefix_of(sought(files[i]))
            && files[j].is_dir ==> files[i].is_dir,
        text::occurs(sought(files[j]), needle) && !needle.is_prefix_of(sought(files[i]))
            && files[i].is_dir == files[j].is_dir ==> i <= j,
{
    let a = sought(files[i]);
    let b = sought(files[j]);
    assert(rank(files[i], needle) is Some);
    if needle.is_prefix_of(a) {
        assert(a.subrange(0, needle.len() as int) == needle);
        assert(text::stands_at(a, needle, 0));
    }
    if needle.is_prefix_of(b) {
        assert(b.subrange(0, needle.len() as int) == needle);
        assert(text::stands_at(b, needle, 0));
    }
    assert(needle.is_prefix_of(needle));
    let r = rank(files[j], needle);
}

/// A row that holds the needle is found: only where none does is there no best
/// row.
pub proof fn what_fits_is_found(files: Seq<Entry>, needle: Seq<char>, j: int)
    requires
        0 <= j < files.len(),
        files[j].name != "../"@,
        text::occurs(sought(files[j]), needle),
    ensures
        rank(files[j], needle) is Some,
{
}

fn rank_of(file: &FileEntry, needle: &str) -> (r: Option<u8>)
    ensures
        match r {
            Some(n) => rank(file@, needle@) == Some(n as int),
            None => rank(file@, needle@) is None,
        },
{
    if same(file.name.as_str(), "../") {
        return None;
    }
    let whole = chars(file.name.as_str());
    let n: usize = if whole.len() > 0 && whole[whole.len() - 1] == '/' {
        whole.len() - 1
    } else {
        whole.len()
    };
    let bare = string_of(&whole, 0, n);
    assert(bare@ == unslashed(file.name@));
    let name = to_lowercase(bare.as_str());
    let tail: u8 = if file.is_dir {
        0
    } else {
        1
    };
    if same(name.as_str(), needle) {
        Some(tail)
    } else if starts_with(name.as_str(), needle) {
        Some(2 + tail)
    } else if contains(name.as_str(), needle) {
        Some(4 + tail)
    } else {
        None
    }
}

/// The row that fits the last segment of a query best: exact before prefix
/// before part, directories before files, `../` never.
pub fn best_match(files: &Vec<FileEntry>, last: &str) -> (r: Option<usize>)
    ensures
        match r {
            Some(i) => is_best(listing(files@), lowercase(last@), i as int),
            None => forall|j: int|
                0 <= j < files@.len() ==> rank(
                    #[trigger] listing(files@)[j],
                    lowercase(last@),
                ) is None,
        },
{
    let needle = to_lowercase(last);
    let ghost all = listing(files@);
    let mut best: Option<(usize, u8)> = None;
    let mut i: usize = 0;
    while i < files.len()
        invariant
            i <= files.len(),
            all == listing(files@),
            needle@ == lowercase(last@),
            match best {
                Some((b, s)) => b < i && rank(all[b as int], needle@) == Some(s as int)
                    && forall|j: int|
                    0 <= j < i && rank(#[trigger] all[j], needle@) is Some ==> s <= rank(
                        all[j],
                        needle@,
                    )->0 && (j < b ==> s < rank(all[j], needle@)->0),
                None => forall|j: int| 0 <= j < i ==> rank(#[trigger] all[j], needle@) is None,
            },
        decreases files.len() - i,
    {
        assert(all[i as int] == files@[i as int]@);
        if let Some(total) = rank_of(&files[i], needle.as_str()) {
            let better = match best {
                Some((_, s)) => total < s,
                None => true,
            };
            if better {
                best = Some((i, total));
            }
        }
        i += 1;
    }
    match best {
        Some((b, _)) => Some(b),
        None => None,
    }
}

/// Whether a row stays in the listing under a filter: one that fits it, and
/// the way up always.
pub open spec fn stays(entry: Entry, filter: Seq<char>) -> bool {
    filter.len() == 0 || entry.name == "../"@ || rank(entry, lowercase(filter)) is Some
}

/// Those of the first `n` rows that stay under a filter.
pub open spec fn narrowed(files: Seq<Entry>, filter: Seq<char>, n: int) -> Seq<Entry>
    decreases n,
{
    if n <= 0 {
        Seq::empty()
    } else if stays(files[n - 1], filter) {
        narrowed(files, filter, n - 1).push(files[n - 1])
    } else {
        narrowed(files, filter, n - 1)
    }
}

/// Some row fits a filter.
pub open spec fn fits(files: Seq<Entry>, filter: Seq<char>) -> bool {
    exists|i: int| 0 <= i < files.len() && rank(#[trigger] files[i], lowercase(filter)) is Some
}

/// The directories among the first `n` rows, the way up left out.
pub open spec fn subdirectories(files: Seq<Entry>, n: int) -> Seq<Seq<Seq<char>>>
    decreases n,
{
    if n <= 0 {
        Seq::empty()
    } else if files[n - 1].is_dir && files[n - 1].name != "../"@ {
        subdirectories(files, n - 1).push(files[n - 1].path)
    } else {
        subdirectories(files, n - 1)
    }
}

/// The first row from `i` on with a path, or the first row.
pub open spec fn row_at(files: Seq<Entry>, path: Seq<Seq<char>>, i: int) -> int
    decreases files.len() - i,
{
    if 0 <= i < files.len() {
        if files[i].path == path {
            i
        } else {
            row_at(files, path, i + 1)
        }
    } else {
        0
    }
}

pub open spec fn paths(v: Seq<FilePath>) -> Seq<Seq<Seq<char>>> {
    v.map_values(|p: FilePath| p@)
}

/// Whether a row stays in the listing under a filter.
pub fn is_staying(file: &FileEntry, filter: &str) -> (r: bool)
    ensures
        r == stays(file@, filter@),
{
    if filter.is_empty() || same(file.name.as_str(), "../") {
        return true;
    }
    let needle = to_lowercase(filter);
    rank_of(file, needle.as_str()).is_some()
}

fn narrow(files: Vec<FileEntry>, filter: &str) -> (r: Vec<FileEntry>)
    ensures
        listing(r@) == narrowed(listing(files@), filter@, files@.len() as int),
{
    let ghost all = listing(files@);
    let mut out: Vec<FileEntry> = Vec::new();
    let mut i: usize = 0;
    assert(listing(out@) == narrowed(all, filter@, 0));
    while i < files.len()
        invariant
            i <= files.len(),
            all == listing(files@),
            listing(out@) == narrowed(all, filter@, i as int),
        decreases files.len() - i,
    {
        let ghost before = listing(out@);
        assert(all[i as int] == files@[i as int]@);
        if is_staying(&files[i], filter) {
            let copy = files[i].copy();
            out.push(copy);
            assert(listing(out@) == before.push(all[i as int]));
        }
        i += 1;
    }
    out
}

fn copy_entries(files: &Vec<FileEntry>) -> (r: Vec<FileEntry>)
    ensures
        listing(r@) == listing(files@),
{
    let ghost all = listing(files@);
    let mut out: Vec<FileEntry> = Vec::new();
    let mut i: usize = 0;
    assert(listing(out@) == all.take(0));
    while i < files.len()
        invariant
            i <= files.len(),
            all == listing(files@),
            listing(out@) == all.take(i as int),
        decreases files.len() - i,
    {
        let ghost before = listing(out@);
        assert(all[i as int] == files@[i as int]@);
        let copy = files[i].copy();
        out.push(copy);
        assert(listing(out@) == before.push(all[i as int]));
        assert(all.take(i + 1) == all.take(i as int).push(all[i as int]));
        i += 1;
    }
    assert(all.take(i as int) == all);
    out
}

fn directories(files: &Vec<FileEntry>) -> (r: Vec<FilePath>)
    ensures
        paths(r@) == subdirectories(listing(files@), files@.len() as int),
{
    let ghost all = listing(files@);
    let mut out: Vec<FilePath> = Vec::new();
    let mut i: usize = 0;
    assert(paths(out@) == subdirectories(all, 0));
    while i < files.len()
        invariant
            i <= files.len(),
            all == listing(files@),
            paths(out@) == subdirectories(all, i as int),
        decreases files.len() - i,
    {
        let ghost before = paths(out@);
        assert(all[i as int] == files@[i as int]@);
        if files[i].is_dir && !same(files[i].name.as_str(), "../") {
            let copy = files[i].path.copy();
            out.push(copy);
            assert(paths(out@) == before.push(all[i as int].path));
        }
        i += 1;
    }
    out
}

fn find_row(files: &Vec<FileEntry>, path: &FilePath) -> (r: usize)
    ensures
        r == row_at(listing(files@), path@, 0),
{
    let ghost all = listing(files@);
    let mut i: usize = 0;
    while i < files.len()
        invariant
            i <= files.len(),
            all == listing(files@),
            row_at(all, path@, 0) == row_at(all, path@, i as int),
        decreases files.len() - i,
    {
        assert(all[i as int] == files@[i as int]@);
        if files[i].path.same_as(path) {
            return i;
        }
        i += 1;
    }
    0
}

/// Every row of a narrowed listing stands in the whole one, and fits the
/// filter or is the way up.
pub proof fn narrowing_keeps_what_fits(files: Seq<Entry>, filter: Seq<char>, n: int)
    requires
        0 <= n <= files.len(),
    ensures
        forall|i: int|
            0 <= i < narrowed(files, filter, n).len() ==> stays(
                #[trigger] narrowed(files, filter, n)[i],
                filter,
            ) && files.contains(narrowed(files, filter, n)[i]),
    decreases n,
{
    if n > 0 {
        narrowing_keeps_what_fits(files, filter, n - 1);
        assert(files.contains(files[n - 1]));
        let before = narrowed(files, filter, n - 1);
        let rows = narrowed(files, filter, n);
        assert forall|i: int| 0 <= i < rows.len() implies stays(#[trigger] rows[i], filter)
            && files.contains(rows[i]) by {
            if i < before.len() {
                assert(rows[i] == before[i]);
            }
        }
    }
}

/// The way a query's directory part is walked, one directory at a time.
#[derive(Debug, Clone, PartialEq, Eq)]
pub struct QueryWalk {
    /// Where the walk has come to.
    pub cwd: FilePath,
    /// The directory segments of the query.
    pub segments: Vec<String>,
    /// How many of them are walked.
    pub walked: usize,
    /// What follows the last slash of the query.
    pub last: String,
}

#[verifier::ext_equal]
pub struct Walk {
    pub cwd: Seq<Seq<char>>,
    pub segments: Seq<Seq<char>>,
    pub walked: int,
    pub last: Seq<char>,
}

impl View for QueryWalk {
    type V = Walk;

    open spec fn view(&self) -> Walk {
        Walk {
            cwd: self.cwd@,
            segments: text::views(self.segments@),
            walked: self.walked as int,
            last: self.last@,
        }
    }
}

/// The directory above, or the directory itself where there is none.
pub open spec fn above(dir: Seq<Seq<char>>) -> Seq<Seq<char>> {
    if dir.len() == 0 || dir.last() == "/"@ {
        dir
    } else {
        dir.drop_last()
    }
}

impl Walk {
    pub open spec fn ok(self) -> bool {
        0 <= self.walked <= self.segments.len()
    }

    /// The walk past the segments that need no look at the disk: empty ones,
    /// `.` and `..`.
    pub open spec fn rested(self) -> Walk
        decreases (if self.walked < self.segments.len() {
            self.segments.len() - self.walked
        } else {
            0
        }),
    {
        if self.walked < self.segments.len() {
            let seg = self.segments[self.walked];
            let on = Walk { walked: self.walked + 1, ..self };
            if seg.len() == 0 || seg == "."@ {
                on.rested()
            } else if seg == ".."@ {
                (Walk { cwd: above(self.cwd), ..on }).rested()
            } else {
                self
            }
        } else {
            self
        }
    }

    /// The walk one directory further.
    pub open spec fn entered(self) -> Walk {
        Walk { cwd: self.cwd.push(self.segments[self.walked]), walked: self.walked + 1, ..self }
    }

    /// Where the walk ends, on a disk whose directories are `dirs`.
    pub open spec fn ended(self, dirs: Set<Seq<Seq<char>>>) -> Walk
        decreases (if self.walked < self.segments.len() {
            self.segments.len() - self.walked
        } else {
            0
        }),
    {
        if self.walked < self.segments.len() {
            let seg = self.segments[self.walked];
            let on = Walk { walked: self.walked + 1, ..self };
            if seg.len() == 0 || seg == "."@ {
                on.ended(dirs)
            } else if seg == ".."@ {
                (Walk { cwd: above(self.cwd), ..on }).ended(dirs)
            } else if dirs.contains(self.cwd.push(seg)) {
                self.entered().ended(dirs)
            } else {
                self
            }
        } else {
            self
        }
    }

    /// What is left of the query to select by: the segments that could not be
    /// walked, then the last one.
    pub open spec fn filter(self) -> Seq<char> {
        let rest = text::joined(self.segments.skip(self.walked), "/"@);
        if rest.len() == 0 {
            self.last
        } else {
            rest + "/"@ + self.last
        }
    }
}

/// To walk step by step, asking at each step whether the next directory is
/// there, is to walk to the end.
pub proof fn steps_reach_the_end(w: Walk, dirs: Set<Seq<Seq<char>>>)
    requires
        w.ok(),
    ensures
        w.rested().ok(),
        w.ended(dirs) == ({
            let r = w.rested();
            if r.walked < r.segments.len() && dirs.contains(r.cwd.push(r.segments[r.walked])) {
                r.entered().ended(dirs)
            } else {
                r
            }
        }),
    decreases w.segments.len() - w.walked,
{
    if w.walked < w.segments.len() {
        let seg = w.segments[w.walked];
        let on = Walk { walked: w.walked + 1, ..w };
        if seg.len() == 0 || seg == "."@ {
            steps_reach_the_end(on, dirs);
        } else if seg == ".."@ {
            steps_reach_the_end(Walk { cwd: above(w.cwd), ..on }, dirs);
        }
    }
}

impl QueryWalk {
    /// The walk of a query from `base`.
    pub fn begin(base: &FilePath, query: &str) -> (r: Self)
        ensures
            r@ == walk_of(base@, query@),
            r@.ok(),
    {
        let all = split(query, '/');
        let ghost p = text::pieces(query@, '/');
        proof {
            text::join_pieces(query@, '/');
        }
        let n: usize = all.len();
        let mut segments: Vec<String> = Vec::new();
        let mut i: usize = 0;
        while i + 1 < n
            invariant
                1 <= n == all.len(),
                i <= n - 1,
                p == text::views(all@),
                text::views(segments@) == p.take(i as int),
            decreases n - i,
        {
            let ghost before = text::views(segments@);
            segments.push(all[i].clone());
            assert(text::views(segments@) == before.push(p[i as int]));
            assert(p.take(i as int + 1) == p.take(i as int).push(p[i as int]));
            i += 1;
        }
        assert(p.take(p.len() - 1) == p.drop_last());
        let last = all[n - 1].clone();
        QueryWalk { cwd: base.copy(), segments, walked: 0, last }
    }

    /// The next directory to look for, if the walk needs one.
    pub fn probe(&mut self) -> (r: Option<FilePath>)
        requires
            old(self)@.ok(),
        ensures
            final(self)@ == old(self)@.rested(),
            final(self)@.ok(),
            match r {
                Some(p) => final(self)@.walked < final(self)@.segments.len() && p@
                    == final(self)@.cwd.push(final(self)@.segments[final(self)@.walked]),
                None => final(self)@.walked == final(self)@.segments.len(),
            },
    {
        let ghost start = self@;
        while self.walked < self.segments.len()
            invariant
                start == old(self)@,
                self@.ok(),
                self@.rested() == start.rested(),
            decreases self.segments.len() - self.walked,
        {
            let ghost before = self@;
            let seg = self.segments[self.walked].clone();
            assert(seg@ == before.segments[before.walked]);
            if seg.as_str().is_empty() || same(seg.as_str(), ".") {
                self.walked = self.walked + 1;
                assert(self@ == (Walk { walked: before.walked + 1, ..before }));
            } else if same(seg.as_str(), "..") {
                if let Some(up) = self.cwd.parent() {
                    self.cwd = up;
                }
                self.walked = self.walked + 1;
                assert(self@ == (Walk {
                    cwd: above(before.cwd),
                    walked: before.walked + 1,
                    ..before
                }));
            } else {
                let next = self.cwd.join(seg.as_str());
                return Some(next);
            }
        }
        None
    }

    /// The directory that `probe` asked for is there.
    pub fn enter(&mut self)
        requires
            old(self)@.ok(),
            old(self)@.walked < old(self)@.segments.len(),
        ensures
            final(self)@ == old(self)@.entered(),
            final(self)@.ok(),
    {
        let next: usize = self.walked;
        let count: usize = self.segments.len();
        assert(next < count);
        let seg = self.segments[next].clone();
        self.cwd = self.cwd.join(seg.as_str());
        self.walked = next + 1;
        assert(self@ == old(self)@.entered());
    }

    /// What is left of the query to select by.
    pub fn filter(&self) -> (r: String)
        requires
            self@.ok(),
        ensures
            r@ == self@.filter(),
    {
        let mut rest: Vec<String> = Vec::new();
        let mut i: usize = self.walked;
        while i < self.segments.len()
            invariant
                self.walked <= i <= self.segments.len(),
                text::views(rest@) == self@.segments.subrange(self.walked as int, i as int),
            decreases self.segments.len() - i,
        {
            let ghost before = text::views(rest@);
            rest.push(self.segments[i].clone());
            assert(text::views(rest@) == before.push(self@.segments[i as int]));
            assert(self@.segments.subrange(self.walked as int, i + 1) == self@.segments.subrange(
                self.walked as int,
                i as int,
            ).push(self@.segments[i as int]));
            i += 1;
        }
        assert(self@.segments.subrange(self.walked as int, self@.segments.len() as int)
            == self@.segments.skip(self.walked as int));
        let mut out = join(&rest, "/");
        if !out.as_str().is_empty() {
            out.append("/");
        } else {
            assert(out@ + self.last@ == self.last@);
        }
        out.append(self.last.as_str());
        out
    }
}

/// The walk of a query from `base`, before its first step.
pub open spec fn walk_of(base: Seq<Seq<char>>, query: Seq<char>) -> Walk {
    let p = text::pieces(query, '/');
    Walk { cwd: base, segments: p.drop_last(), walked: 0, last: p.last() }
}

/// The browser menu of a token: what it lists, what is selected, and the
/// token it belongs to. The listing itself is read off the disk by the host.
#[derive(Debug, Clone, PartialEq, Eq)]
pub struct FileMenu {
    /// The directory that mentions are spelled against.
    pub base: FilePath,
    /// The directory on show.
    pub cwd: FilePath,
    /// The rows on show.
    pub files: Vec<FileEntry>,
    /// What the listing is narrowed by.
    pub filter: String,
    pub selected: usize,
    /// The draft row the token is on.
    pub row: usize,
    pub start: usize,
    pub end: usize,
    pub quoted: bool,
    /// The query the browser shows.
    pub applied_query: String,
}

#[verifier::ext_equal]
pub struct Menu {
    pub base: Seq<Seq<char>>,
    pub cwd: Seq<Seq<char>>,
    pub files: Seq<Entry>,
    pub filter: Seq<char>,
    pub selected: int,
    pub row: int,
    pub start: int,
    pub end: int,
    pub quoted: bool,
    pub applied_query: Seq<char>,
}

impl View for FileMenu {
    type V = Menu;

    open spec fn view(&self) -> Menu {
        Menu {
            base: self.base@,
            cwd: self.cwd@,
            files: listing(self.files@),
            filter: self.filter@,
            selected: self.selected as int,
            row: self.row as int,
            start: self.start as int,
            end: self.end as int,
            quoted: self.quoted,
            applied_query: self.applied_query@,
        }
    }
}

impl Menu {
    pub open spec fn opened(
        base: Seq<Seq<char>>,
        row: int,
        token: Token,
        files: Seq<Entry>,
    ) -> Menu {
        Menu {
            base,
            cwd: base,
            files,
            filter: Seq::empty(),
            selected: 0,
            row,
            start: token.start,
            end: token.end,
            quoted: token.quoted,
            applied_query: Seq::empty(),
        }
    }

    pub open spec fn retokened(self, row: int, token: Token) -> Menu {
        Menu {
            row,
            start: token.start,
            end: token.end,
            quoted: token.quoted,
            applied_query: Seq::empty(),
            ..self
        }
    }

    /// The browser shows a query already: it is the one applied, and an empty
    /// one narrows nothing.
    pub open spec fn shows(self, query: Seq<char>) -> bool {
        query == self.applied_query && (query.len() > 0 || self.filter.len() == 0)
    }

    /// Whether `next` is this menu with `all` on show in `cwd`, narrowed by a
    /// filter, and the selection on the best match; where nothing fits, on the
    /// row that was selected, and where that is gone, on the first.
    pub open spec fn narrows(
        self,
        cwd: Seq<Seq<char>>,
        all: Seq<Entry>,
        filter: Seq<char>,
        next: Menu,
    ) -> bool {
        let files = narrowed(all, filter, all.len() as int);
        &&& next == (Menu { cwd, files, filter, selected: next.selected, ..self })
        &&& if filter.len() > 0 && fits(files, filter) {
            is_best(files, lowercase(filter), next.selected)
        } else if 0 <= self.selected < self.files.len() {
            next.selected == row_at(files, self.files[self.selected].path, 0)
        } else {
            next.selected == 0
        }
    }

    /// Whether `next` is this menu once a query's walk has come to `cwd`, whose
    /// listing is `files`; where that could not be listed the menu stays where
    /// it is.
    pub open spec fn settles(
        self,
        cwd: Seq<Seq<char>>,
        files: Option<Seq<Entry>>,
        filter: Seq<char>,
        next: Menu,
    ) -> bool {
        match files {
            Some(files) => self.narrows(cwd, files, filter, next),
            None => self.narrows(self.cwd, self.files, filter, next),
        }
    }

    /// The directories to look in for a filter that nothing listed fits.
    pub open spec fn seeks(self, files: Option<Seq<Entry>>, filter: Seq<char>) -> Seq<
        Seq<Seq<char>>,
    > {
        match files {
            Some(files) => if filter.len() > 0 && !fits(files, filter) {
                subdirectories(files, files.len() as int)
            } else {
                Seq::empty()
            },
            None => Seq::empty(),
        }
    }

    /// The mention of the selected row.
    pub open spec fn pick(self) -> Option<Seq<char>> {
        if 0 <= self.selected < self.files.len() {
            let file = self.files[self.selected];
            mention(path::relative(self.base, file.path), file.is_dir, self.quoted)
        } else {
            None
        }
    }
}

impl FileMenu {
    /// The menu of a fresh token, at `base`; none where `base` could not be
    /// listed.
    pub fn open(
        base: &FilePath,
        row: usize,
        token: &AtToken,
        files: Option<Vec<FileEntry>>,
    ) -> (r: Option<Self>)
        ensures
            match files {
                Some(f) => r is Some && r->0@ == Menu::opened(
                    base@,
                    row as int,
                    token@,
                    listing(f@),
                ),
                None => r is None,
            },
    {
        match files {
            Some(files) => Some(
                FileMenu {
                    base: base.copy(),
                    cwd: base.copy(),
                    files,
                    filter: String::new(),
                    selected: 0,
                    row,
                    start: token.start,
                    end: token.end,
                    quoted: token.quoted,
                    applied_query: String::new(),
                },
            ),
            None => None,
        }
    }

    pub fn row(&self) -> (r: usize)
        ensures
            r == self@.row,
    {
        self.row
    }

    pub fn start(&self) -> (r: usize)
        ensures
            r == self@.start,
    {
        self.start
    }

    pub fn end(&self) -> (r: usize)
        ensures
            r == self@.end,
    {
        self.end
    }

    pub fn quoted(&self) -> (r: bool)
        ensures
            r == self@.quoted,
    {
        self.quoted
    }

    /// The query the browser shows.
    pub fn token_query(&self) -> (r: &str)
        ensures
            r@ == self@.applied_query,
    {
        self.applied_query.as_str()
    }

    pub fn base(&self) -> (r: &FilePath)
        ensures
            r@ == self@.base,
    {
        &self.base
    }

    /// Anchor the menu to a token that has moved.
    pub fn retoken(&mut self, row: usize, token: &AtToken)
        ensures
            final(self)@ == old(self)@.retokened(row as int, token@),
    {
        self.row = row;
        self.start = token.start;
        self.end = token.end;
        self.quoted = token.quoted;
        self.applied_query = String::new();
    }

    /// Take a query up. `None` where the browser shows it already, so that
    /// moving the selection is not undone; otherwise the walk to make.
    pub fn apply_query(&mut self, query: &str) -> (r: Option<QueryWalk>)
        ensures
            final(self)@ == (Menu { applied_query: query@, ..old(self)@ }),
            match r {
                Some(w) => !old(self)@.shows(query@) && w@ == walk_of(
                    old(self)@.base,
                    query@,
                ) && w@.ok(),
                None => old(self)@.shows(query@),
            },
    {
        if same(query, self.applied_query.as_str()) && (!query.is_empty()
            || self.filter.as_str().is_empty()) {
            return None;
        }
        self.applied_query = String::from_str(query);
        Some(QueryWalk::begin(&self.base, query))
    }

    fn narrow_to(&mut self, cwd: FilePath, all: Vec<FileEntry>, filter: String)
        ensures
            old(self)@.narrows(cwd@, listing(all@), filter@, final(self)@),
    {
        let ghost whole = listing(all@);
        let was: Option<FilePath> = if self.selected < self.files.len() {
            assert(self@.files[self.selected as int] == self.files@[self.selected as int]@);
            Some(self.files[self.selected].path.copy())
        } else {
            None
        };
        let files = narrow(all, filter.as_str());
        let ghost shown = listing(files@);
        let best: Option<usize> = if filter.as_str().is_empty() {
            None
        } else {
            best_match(&files, filter.as_str())
        };
        let selected: usize = match best {
            Some(i) => {
                assert(rank(shown[i as int], lowercase(filter@)) is Some);
                i
            },
            None => {
                assert(filter@.len() > 0 ==> !fits(shown, filter@));
                match &was {
                    Some(path) => find_row(&files, path),
                    None => 0,
                }
            },
        };
        self.cwd = cwd;
        self.files = files;
        self.filter = filter;
        self.selected = selected;
    }

    /// The walk of a query has ended; `files` lists the directory it came to,
    /// where that could be listed. The directories to look in are those handed
    /// back: all of them where nothing listed fits, else none.
    pub fn settle_query(&mut self, walk: &QueryWalk, files: Option<Vec<FileEntry>>) -> (r: Vec<
        FilePath,
    >)
        requires
            walk@.ok(),
        ensures
            ({
                let listed = match files {
                    Some(f) => Some(listing(f@)),
                    None => None,
                };
                &&& old(self)@.settles(walk@.cwd, listed, walk@.filter(), final(self)@)
                &&& paths(r@) == old(self)@.seeks(listed, walk@.filter())
            }),
    {
        let filter = walk.filter();
        match files {
            Some(files) => {
                let ghost all = listing(files@);
                let dirs = if !filter.as_str().is_empty() {
                    match best_match(&files, filter.as_str()) {
                        Some(i) => {
                            assert(rank(all[i as int], lowercase(filter@)) is Some);
                            Vec::new()
                        },
                        None => directories(&files),
                    }
                } else {
                    Vec::new()
                };
                assert(paths(dirs@) == old(self)@.seeks(Some(all), filter@));
                self.narrow_to(walk.cwd.copy(), files, filter);
                dirs
            },
            None => {
                let cwd = self.cwd.copy();
                let files = copy_entries(&self.files);
                self.narrow_to(cwd, files, filter);
                let none: Vec<FilePath> = Vec::new();
                assert(paths(none@) == Seq::<Seq<Seq<char>>>::empty());
                none
            },
        }
    }

    /// A directory that was looked in: the menu goes there where something in
    /// it fits.
    pub fn follow(&mut self, cwd: FilePath, files: Vec<FileEntry>) -> (r: bool)
        ensures
            r == (old(self)@.filter.len() > 0 && fits(listing(files@), old(self)@.filter)),
            if r {
                old(self)@.narrows(cwd@, listing(files@), old(self)@.filter, final(self)@)
            } else {
                final(self)@ == old(self)@
            },
    {
        if self.filter.as_str().is_empty() {
            return false;
        }
        let ghost all = listing(files@);
        match best_match(&files, self.filter.as_str()) {
            Some(i) => {
                assert(rank(all[i as int], lowercase(self.filter@)) is Some);
            },
            None => {
                return false;
            },
        }
        let filter = self.filter.clone();
        self.narrow_to(cwd, files, filter);
        true
    }

    /// The browser moved: what it shows now.
    pub fn show(&mut self, cwd: FilePath, files: Vec<FileEntry>, selected: usize)
        ensures
            final(self)@ == (Menu {
                cwd: cwd@,
                files: listing(files@),
                selected: selected as int,
                ..old(self)@
            }),
    {
        self.cwd = cwd;
        self.files = files;
        self.selected = selected;
    }

    /// The mention of the selected row, or `None` where nothing can be picked.
    pub fn current_mention(&self) -> (r: Option<String>)
        ensures
            text::view_opt(r) == self@.pick(),
    {
        if self.selected >= self.files.len() {
            return None;
        }
        let file = &self.files[self.selected];
        assert(self@.files[self.selected as int] == file@);
        let rel = relative_path(&self.base, &file.path);
        format_file_mention(rel.as_str(), file.is_dir, self.quoted)
    }

    /// Whether the selected row is a directory.
    pub fn on_directory(&self) -> (r: bool)
        ensures
            r == (self@.selected < self@.files.len() && self@.files[self@.selected].is_dir),
    {
        self.selected < self.files.len() && self.files[self.selected].is_dir
    }

    /// The menu's title: the directory on show, seen from the workspace.
    pub fn title(&self, workspace: &FilePath) -> (r: String)
        ensures
            r@ == " @"@ + path::relative(workspace@, self@.cwd) + " "@,
    {
        let rel = relative_path(workspace, &self.cwd);
        cat3(" @", rel.as_str(), " ")
    }
}

/// The line of keys under the menu.
pub fn menu_hint(locale: Locale) -> (r: &'static str)
    ensures
        r@ == locale::say(
            locale,
            " ↑↓ move · ← parent · →/tab open · ctrl+h hidden · enter pick · esc close "@,
            " ↑↓ 移动 · ← 上级 · →/tab 进入 · ctrl+h 隐藏项 · enter 选择 · esc 关闭 "@,
        ),
{
    locale.tr(
        " ↑↓ move · ← parent · →/tab open · ctrl+h hidden · enter pick · esc close ",
        " ↑↓ 移动 · ← 上级 · →/tab 进入 · ctrl+h 隐藏项 · enter 选择 · esc 关闭 ",
    )
}

/// The characters of the first `row` lines, each with its line break.
pub open spec fn lead(lines: Seq<Seq<char>>, row: int) -> int
    decreases row,
{
    if row <= 0 {
        0
    } else {
        lead(lines, row - 1) + (if row <= lines.len() {
            lines[row - 1].len() as int + 1
        } else {
            0
        })
    }
}

/// The draft with the characters `start..end` of a row replaced, and the caret
/// after what replaced them.
pub open spec fn respelled(
    c: Composer,
    row: int,
    start: int,
    end: int,
    text: Seq<char>,
) -> Composer {
    let line = layout::cap(lead(area::lines_of(c.area.text), row));
    let cut = c.cut_range(layout::cap(line + start), layout::cap(line + end));
    cut.edited(cut.area.inserted(area::unreturned(text)))
}

/// Replace the characters `start..end` of a draft row by `text`, and leave
/// the caret after it.
pub fn replace_span(
    editor: &mut ComposerEditor,
    row: usize,
    start: usize,
    end: usize,
    text: &str,
)
    ensures
        final(editor)@ == respelled(
            old(editor)@,
            row as int,
            start as int,
            end as int,
            text@,
        ),
{
    let lines = editor.lines();
    let ghost all = area::lines_of(editor@.area.text);
    let mut at: usize = 0;
    let mut i: usize = 0;
    while i < lines.len() && i < row
        invariant
            i <= row,
            i <= lines.len(),
            all == text::views(lines@),
            at == layout::cap(lead(all, i as int)),
            lead(all, i as int) >= 0,
        decreases lines.len() - i,
    {
        assert(all[i as int] == lines@[i as int]@);
        let n: usize = lines[i].as_str().unicode_len();
        at = at.saturating_add(n).saturating_add(1);
        i += 1;
    }
    proof {
        lead_is_whole(all, i as int, row as int);
    }
    editor.delete_char_range(at.saturating_add(start), at.saturating_add(end));
    editor.insert_str(text);
}

proof fn lead_is_whole(lines: Seq<Seq<char>>, i: int, row: int)
    requires
        0 <= i <= row,
        i == row || i >= lines.len(),
    ensures
        lead(lines, row) == lead(lines, i),
    decreases row,
{
    if i < row {
        lead_is_whole(lines, i, row - 1);
    }
}

} // verus!
