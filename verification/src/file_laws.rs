//! What mentions of files promise: which token the caret is in, what a listing
//! keeps, where a query leads, and what is written for a row.

use vstd::prelude::*;
use crate::app::Scene;
use crate::controller::Deed;
use crate::file_ref;
use crate::file_ref::{Entry, Menu, Token, Walk};
use crate::input::area;
use crate::input::composer;
use crate::input::composer::Composer;
use crate::path;
use crate::text;

verus! {

// --- tokens -----------------------------------------------------------------------

proof fn run_found(line: Seq<char>, i: int)
    requires
        0 <= i <= line.len(),
    ensures
        ({
            let e = file_ref::run_end(line, i);
            &&& i <= e <= line.len()
            &&& e == line.len() || text::space(line[e])
            &&& forall|k: int| i <= k < e ==> !text::space(#[trigger] line[k])
        }),
    decreases line.len() - i,
{
    if i < line.len() && !text::space(line[i]) {
        run_found(line, i + 1);
    }
}

/// A token runs from its sign to the next white space, and a quoted one to the
/// next quote; its query is what stands between.
pub proof fn a_token_runs_to_its_end(line: Seq<char>, i: int)
    requires
        0 <= i < line.len(),
    ensures
        ({
            let t = file_ref::token_at(line, i);
            let quoted = i + 1 < line.len() && line[i + 1] == '"';
            let body = if quoted { i + 2 } else { i + 1 };
            &&& t.start == i
            &&& t.quoted == quoted
            &&& body <= t.end <= line.len()
            &&& t.query == line.subrange(body, t.end)
            &&& !quoted ==> (t.end == line.len() || text::space(line[t.end])) && forall|k: int|
                body <= k < t.end ==> !text::space(#[trigger] line[k])
            &&& quoted ==> (t.end == line.len() || line[t.end] == '"') && forall|k: int|
                body <= k < t.end ==> #[trigger] line[k] != '"'
        }),
{
    let quoted = i + 1 < line.len() && line[i + 1] == '"';
    let t = file_ref::token_at(line, i);
    if quoted {
        let rest = line.skip(i + 2);
        text::position_is_first(rest, '"');
        let p = text::position(rest, '"');
        assert forall|k: int| i + 2 <= k < t.end implies #[trigger] line[k] != '"' by {
            assert(rest[k - (i + 2)] == line[k]);
        }
        if t.end < line.len() {
            assert(rest[p] == line[t.end]);
        }
    } else {
        run_found(line, i + 1);
    }
}

/// A sign opens a token at the start of the line and behind what is no part of
/// a word, so that addresses open none.
pub proof fn a_sign_behind_a_word_opens_nothing(line: Seq<char>, i: int)
    requires
        0 <= i < line.len(),
    ensures
        i > 0 && (file_ref::alphanumeric(line[i - 1]) || line[i - 1] == '_') ==> !file_ref::opens(
            line,
            i,
        ),
        line[i] != '@' ==> !file_ref::opens(line, i),
        line[i] == '@' && i == 0 ==> file_ref::opens(line, i),
        line[i] == '@' && i > 0 && !file_ref::alphanumeric(line[i - 1]) && line[i - 1] != '_'
            ==> file_ref::opens(line, i),
{
}

proof fn none_opens(line: Seq<char>, cursor: int, i: int)
    requires
        0 <= i,
        forall|j: int| i <= j < line.len() ==> !#[trigger] file_ref::opens(line, j),
    ensures
        file_ref::active_from(line, cursor, i) is None,
    decreases (if i < line.len() { line.len() - i } else { 0 }),
{
    if i < line.len() {
        assert(!file_ref::opens(line, i));
        none_opens(line, cursor, i + 1);
    }
}

proof fn only_one_opens(line: Seq<char>, cursor: int, i: int, k: int)
    requires
        0 <= i <= k < line.len(),
        file_ref::opens(line, k),
        forall|j: int| 0 <= j < line.len() && j != k ==> !#[trigger] file_ref::opens(line, j),
    ensures
        file_ref::active_from(line, cursor, i) == if k <= cursor <= file_ref::token_at(line, k).end {
            Some(file_ref::token_at(line, k))
        } else {
            None
        },
    decreases k - i,
{
    if i < k {
        assert(!file_ref::opens(line, i));
        only_one_opens(line, cursor, i + 1, k);
    } else {
        a_token_runs_to_its_end(line, k);
        none_opens(line, cursor, k + 1);
        none_opens(line, cursor, file_ref::token_at(line, k).end);
    }
}

/// The caret is in the token of a line where it stands from its sign to its end,
/// and nowhere else.
pub proof fn the_caret_is_in_its_token(line: Seq<char>, cursor: int, k: int)
    requires
        file_ref::opens(line, k),
        forall|j: int| 0 <= j < line.len() && j != k ==> !#[trigger] file_ref::opens(line, j),
    ensures
        k <= cursor <= file_ref::token_at(line, k).end ==> file_ref::active(line, cursor) == Some(
            file_ref::token_at(line, k),
        ),
        cursor < k || cursor > file_ref::token_at(line, k).end ==> file_ref::active(line, cursor)
            is None,
{
    only_one_opens(line, cursor, 0, k);
}

/// A line without a sign that opens has no token.
pub proof fn a_plain_line_has_no_token(line: Seq<char>, cursor: int)
    requires
        forall|j: int| 0 <= j < line.len() ==> !#[trigger] file_ref::opens(line, j),
    ensures
        file_ref::active(line, cursor) is None,
{
    none_opens(line, cursor, 0);
}

/// White space stands in a text.
pub open spec fn has_space(s: Seq<char>) -> bool {
    exists|i: int| 0 <= i < s.len() && text::space(#[trigger] s[i])
}

/// A quote or a control character stands in a text.
pub open spec fn has_unwritable(s: Seq<char>) -> bool {
    exists|i: int|
        0 <= i < s.len() && (#[trigger] s[i] == '"' || s[i] as u32 <= 0x1f || 0x7f <= s[i] as u32
            <= 0x9f)
}

/// A mention is the sign and the path, in quotes where the path holds white
/// space or the token was quoted; a directory ends in a slash, and its quote
/// stays open. A path that cannot be written has none.
pub proof fn a_mention_is_the_path(rel: Seq<char>, is_dir: bool, quoted: bool)
    requires
        rel.len() > 0,
    ensures
        ({
            let m = file_ref::mention(rel, is_dir, quoted);
            let path = if is_dir && rel.last() != '/' { rel.push('/') } else { rel };
            let spaced = has_space(path);
            let bad = has_unwritable(rel);
            &&& bad ==> m is None
            &&& !bad && !quoted && !spaced ==> m == Some("@"@ + path)
            &&& !bad && (quoted || spaced) && is_dir ==> m == Some("@\""@ + path)
            &&& !bad && (quoted || spaced) && !is_dir ==> m == Some("@\""@ + path + "\""@)
        }),
{
    let path = if is_dir && rel.last() != '/' { rel.push('/') } else { rel };
    assert(file_ref::mentionable(rel) == !has_unwritable(rel));
    assert(file_ref::slashed(rel, is_dir) == path);
    assert(file_ref::spaced(path) == has_space(path));
}

/// A dismissed token is told apart by its query and by whether it is quoted.
pub proof fn dismissed_tokens_are_told_apart(a: Seq<char>, b: Seq<char>)
    ensures
        file_ref::tag_of(false, a) == file_ref::tag_of(false, b) ==> a == b,
        file_ref::tag_of(true, a) == file_ref::tag_of(true, b) ==> a == b,
        a.len() == 0 || a[0] != '"' ==> file_ref::tag_of(false, a) != file_ref::tag_of(true, b),
{
    reveal_strlit("\"");
    assert(("\""@ + a).skip(1) =~= a);
    assert(("\""@ + b).skip(1) =~= b);
    assert(("\""@ + b)[0] == '"');
}

// --- listings ---------------------------------------------------------------------

/// A row stays under a filter where its name holds it, capitals aside; the way
/// up stays always, and without a filter every row does.
pub proof fn rows_that_hold_the_filter_stay(e: Entry, filter: Seq<char>)
    ensures
        filter.len() == 0 ==> file_ref::stays(e, filter),
        e.name == "../"@ ==> file_ref::stays(e, filter),
        filter.len() > 0 && e.name != "../"@ ==> file_ref::stays(e, filter) == text::occurs(
            file_ref::sought(e),
            file_ref::lowercase(filter),
        ),
{
    let name = file_ref::sought(e);
    let needle = file_ref::lowercase(filter);
    if needle.is_prefix_of(name) {
        assert(name.subrange(0, needle.len() as int) =~= needle);
        assert(text::stands_at(name, needle, 0));
    }
    assert(needle.is_prefix_of(needle));
}

/// A narrowed listing is the rows that stay, in order.
pub proof fn narrowing_is_in_order(files: Seq<Entry>, filter: Seq<char>, n: int)
    requires
        0 <= n <= files.len(),
    ensures
        file_ref::narrowed(files, filter, n) == files.take(n).filter(
            |e: Entry| file_ref::stays(e, filter),
        ),
    decreases n,
{
    reveal(Seq::filter);
    if n > 0 {
        narrowing_is_in_order(files, filter, n - 1);
        assert(files.take(n).drop_last() =~= files.take(n - 1));
    }
}

/// The directories of a listing are looked in.
pub proof fn directories_are_looked_in(files: Seq<Entry>, n: int, i: int)
    requires
        0 <= i < n <= files.len(),
        files[i].is_dir,
        files[i].name != "../"@,
    ensures
        file_ref::subdirectories(files, n).contains(files[i].path),
    decreases n,
{
    let d = file_ref::subdirectories(files, n);
    let r = file_ref::subdirectories(files, n - 1);
    if i < n - 1 {
        directories_are_looked_in(files, n - 1, i);
        let j = choose|j: int| 0 <= j < r.len() && r[j] == files[i].path;
        assert(d[j] == r[j]);
    } else {
        assert(d[d.len() - 1] == files[i].path);
    }
}

/// Nothing else is looked in: no file, and not the way up.
pub proof fn only_directories_are_looked_in(files: Seq<Entry>, n: int, k: int)
    requires
        0 <= n <= files.len(),
        0 <= k < file_ref::subdirectories(files, n).len(),
    ensures
        exists|j: int|
            0 <= j < n && (#[trigger] files[j]).is_dir && files[j].name != "../"@ && files[j].path
                == file_ref::subdirectories(files, n)[k],
    decreases n,
{
    if n > 0 {
        let r = file_ref::subdirectories(files, n - 1);
        if k < r.len() {
            only_directories_are_looked_in(files, n - 1, k);
            let j = choose|j: int|
                0 <= j < n - 1 && (#[trigger] files[j]).is_dir && files[j].name != "../"@
                    && files[j].path == r[k];
            assert(files[j].is_dir);
        } else {
            assert(files[n - 1].is_dir);
        }
    }
}

/// A row is found by its path, and without it the first is.
pub proof fn rows_are_found_by_path(files: Seq<Entry>, p: Seq<Seq<char>>, i: int, k: int)
    requires
        0 <= i <= k < files.len(),
        files[k].path == p,
    ensures
        ({
            let j = file_ref::row_at(files, p, i);
            i <= j <= k && files[j].path == p
        }),
    decreases k - i,
{
    if files[i].path != p {
        rows_are_found_by_path(files, p, i + 1, k);
    }
}

// --- walks ------------------------------------------------------------------------

/// A query is walked from the workspace: each part before its last slash is a
/// directory, and what follows is the filter.
pub proof fn a_query_is_split_at_its_slashes(base: Seq<Seq<char>>, query: Seq<char>)
    ensures
        ({
            let w = file_ref::walk_of(base, query);
            &&& w.cwd == base
            &&& w.walked == 0
            &&& text::joined(w.segments.push(w.last), "/"@) == query
            &&& !w.last.contains('/')
            &&& !query.contains('/') ==> w.segments.len() == 0 && w.last == query
        }),
{
    let p = text::pieces(query, '/');
    text::join_pieces(query, '/');
    reveal_strlit("/");
    assert("/"@ =~= seq!['/']);
    assert(p.drop_last().push(p.last()) =~= p);
    if !query.contains('/') {
        text::pieces_joined(seq![query], '/');
        reveal_with_fuel(text::joined, 2);
        assert(p =~= seq![query]);
    }
}

/// A walk goes into a directory that is there, up at two dots, and nowhere at
/// one or none; at a directory that is not there it ends.
pub proof fn a_walk_takes_its_steps(w: Walk, dirs: Set<Seq<Seq<char>>>)
    requires
        0 <= w.walked < w.segments.len(),
    ensures
        ({
            let seg = w.segments[w.walked];
            let e = w.ended(dirs);
            let plain = seg.len() > 0 && seg != "."@ && seg != ".."@;
            &&& plain && dirs.contains(w.cwd.push(seg)) ==> e == (Walk {
                cwd: w.cwd.push(seg),
                walked: w.walked + 1,
                segments: w.segments,
                last: w.last,
            }).ended(dirs)
            &&& plain && !dirs.contains(w.cwd.push(seg)) ==> e == w
            &&& seg == ".."@ && w.cwd.len() > 0 && w.cwd.last() != "/"@ ==> e == (Walk {
                cwd: w.cwd.drop_last(),
                walked: w.walked + 1,
                segments: w.segments,
                last: w.last,
            }).ended(dirs)
            &&& seg == ".."@ && w.cwd.len() > 0 && w.cwd.last() == "/"@ ==> e == (Walk {
                cwd: w.cwd,
                walked: w.walked + 1,
                segments: w.segments,
                last: w.last,
            }).ended(dirs)
            &&& seg.len() == 0 || seg == "."@ ==> e == (Walk {
                cwd: w.cwd,
                walked: w.walked + 1,
                segments: w.segments,
                last: w.last,
            }).ended(dirs)
        }),
{
    reveal_strlit(".");
    reveal_strlit("..");
}

/// A walk that has gone all the way filters by what follows the last slash, and
/// one that has not by the rest of the query as well.
pub proof fn what_was_not_walked_filters(w: Walk)
    requires
        0 <= w.walked <= w.segments.len(),
    ensures
        w.walked == w.segments.len() ==> w.filter() == w.last,
        w.walked == w.segments.len() - 1 && w.segments.last().len() > 0 ==> w.filter()
            == w.segments.last() + "/"@ + w.last,
{
    reveal_with_fuel(text::joined, 2);
    if w.walked == w.segments.len() {
        assert(w.segments.skip(w.walked) =~= Seq::<Seq<char>>::empty());
    }
    if w.walked == w.segments.len() - 1 {
        assert(w.segments.skip(w.walked) =~= seq![w.segments.last()]);
    }
}

// --- the menu ---------------------------------------------------------------------

/// A fresh menu shows the workspace, nothing filtered and its first row
/// selected; it belongs to its token.
pub proof fn a_fresh_menu_shows_the_workspace(base: Seq<Seq<char>>, row: int, t: Token, files: Seq<Entry>)
    ensures
        ({
            let m = Menu::opened(base, row, t, files);
            &&& m.base == base && m.cwd == base
            &&& m.files == files
            &&& m.filter.len() == 0
            &&& m.selected == 0
            &&& m.row == row && m.start == t.start && m.end == t.end && m.quoted == t.quoted
        }),
{
}

/// What is picked is the mention of the selected row, as it is spelled from the
/// workspace.
pub proof fn the_selected_row_is_mentioned(m: Menu)
    ensures
        0 <= m.selected < m.files.len() ==> m.pick() == file_ref::mention(
            path::relative(m.base, m.files[m.selected].path),
            m.files[m.selected].is_dir,
            m.quoted,
        ),
        !(0 <= m.selected < m.files.len()) ==> m.pick() is None,
{
}

/// What replaces a token stands in its place, the caret behind it, and the rest
/// of the line stays.
pub proof fn a_mention_replaces_its_token(c: Composer, start: int, end: int, m: Seq<char>)
    requires
        c.area.ok(),
        0 <= start <= end <= c.area.text.len() <= usize::MAX,
        composer::landing(c.area.text, start) == start,
        area::unreturned(m) == m,
        m.len() > 0,
    ensures
        ({
            let t = c.area.text;
            let d = file_ref::respelled(c, 0, start, end, m).area;
            &&& d.text == t.take(start) + m + t.skip(end)
            &&& d.cursor == start + m.len()
        }),
{
    let t = c.area.text;
    let cut = c.cut_range(start, end).area;
    if start < end {
        assert(cut.text.take(start) =~= t.take(start));
        assert(cut.text.skip(start) =~= t.skip(end));
    }
}

/// Enter on a row closes the menu and leaves the row's mention in the draft;
/// where it cannot be written nothing changes.
pub proof fn enter_settles_on_the_row(scene: Scene)
    ensures
        scene.draft.file_menu is None ==> scene.menu_settled() == scene,
        scene.draft.file_menu matches Some(m) ==> (m.pick() is None ==> scene.menu_settled()
            == scene),
        scene.draft.file_menu matches Some(m) ==> (m.pick() matches Some(x)
            ==> scene.menu_settled().draft.file_menu is None && scene.menu_settled().draft.input
            == file_ref::respelled(scene.draft.input, m.row, m.start, m.end, x)
            && scene.menu_settled().ctl == scene.ctl),
{
    reveal(Scene::menu_settled);
    reveal(Scene::tray_settled);
}

/// Esc closes the menu, and keeps it closed until the token changes.
pub proof fn a_dismissed_menu_stays_closed(scene: Scene)
    ensures
        scene.draft.file_menu matches Some(m) ==> scene.menu_dismissed().draft.file_menu is None
            && scene.menu_dismissed().draft.dismissed == Some(
            file_ref::tag_of(m.quoted, m.applied_query),
        ) && scene.menu_dismissed().draft.input == scene.draft.input,
        scene.draft.file_menu is None ==> scene.menu_dismissed() == scene,
{
    reveal(Scene::menu_dismissed);
}

/// The menu opens on a token that is new, stays closed on one that was
/// dismissed, and closes where there is none.
pub proof fn the_menu_opens_on_a_token(scene: Scene)
    requires
        scene.draft.vim.mode != crate::input::vim::VimMode::Normal,
        scene.menu().len() == 0,
    ensures
        ({
            let s = scene.menu_refreshed();
            let row = scene.cursor_cell().0;
            &&& scene.cursor_token() is None ==> s.draft.file_menu is None && s.draft.dismissed
                is None && s.ctl == scene.ctl
            &&& scene.cursor_token() matches Some(token) ==> (scene.draft.file_menu is None
                && scene.draft.dismissed != Some(file_ref::tag_of(token.quoted, token.query))
                ==> s.ctl.effects == scene.ctl.effects.push(Deed::OpenMenu { row, token }))
            &&& scene.cursor_token() matches Some(token) ==> (scene.draft.file_menu is None
                && scene.draft.dismissed == Some(file_ref::tag_of(token.quoted, token.query))
                ==> s == scene)
            &&& s.draft.input == scene.draft.input
        }),
{
    reveal(Scene::menu_refreshed);
    reveal(Scene::menu_followed);
}

/// The menu of another query walks it, and one whose query is shown already
/// leaves the browser where it is.
pub proof fn the_menu_follows_its_token(scene: Scene, m: Menu, row: int, token: Token)
    ensures
        ({
            let s = scene.menu_followed(m, row, token);
            let same = m.row == row && m.start == token.start && m.end == token.end;
            &&& s.draft.file_menu matches Some(n) && n.applied_query == token.query && n.row == row
                && n.start == token.start && n.end == token.end && n.files == m.files && n.selected
                == m.selected
            &&& same && token.query == m.applied_query && token.query.len() > 0 ==> s.ctl
                == scene.ctl
            &&& token.query != m.applied_query && token.query.len() > 0 ==> s.ctl.effects
                == scene.ctl.effects.push(
                Deed::WalkMenu(file_ref::walk_of(m.base, token.query)),
            )
        }),
{
    reveal(Scene::menu_followed);
}

// --- paths ------------------------------------------------------------------------

/// What two paths share ends where they part.
pub proof fn paths_part_where_they_differ(a: Seq<Seq<char>>, b: Seq<Seq<char>>)
    ensures
        ({
            let n = path::shared(a, b);
            &&& 0 <= n <= a.len() && n <= b.len()
            &&& forall|i: int| 0 <= i < n ==> #[trigger] a[i] == b[i]
            &&& n < a.len() && n < b.len() ==> a[n] != b[n]
        }),
    decreases a.len(),
{
    if a.len() > 0 && b.len() > 0 && a[0] == b[0] {
        paths_part_where_they_differ(a.skip(1), b.skip(1));
        let n = path::shared(a.skip(1), b.skip(1));
        assert forall|i: int| 0 <= i < n + 1 implies #[trigger] a[i] == b[i] by {
            if i > 0 {
                assert(a.skip(1)[i - 1] == b.skip(1)[i - 1]);
            }
        }
        if n < a.len() - 1 && n < b.len() - 1 {
            assert(a.skip(1)[n] != b.skip(1)[n]);
        }
    }
}

/// The directory above the workspace is two dots.
pub proof fn the_way_up_is_two_dots(base: Seq<Seq<char>>)
    requires
        base.len() >= 2,
    ensures
        path::relative(base, base.drop_last()) == ".."@,
{
    let up = base.drop_last();
    paths_part_where_they_differ(base, up);
    let n = path::shared(base, up);
    if n < up.len() {
        assert(base[n] == up[n]);
    }
    assert(path::ups(1) + up.skip(n) =~= seq![".."@]);
    reveal_with_fuel(text::joined, 2);
}

/// A path lies below a base where it goes on from it and never leads up again;
/// the base itself does not.
pub proof fn below_goes_on_from_the_base(base: Seq<Seq<char>>, rest: Seq<Seq<char>>)
    ensures
        !path::below(base, base),
        rest.len() > 0 && !rest.contains(".."@) ==> path::below(base + rest, base),
        rest.contains(".."@) ==> !path::below(base + rest, base),
{
    let p = base + rest;
    assert(base.is_prefix_of(p));
    if rest.contains(".."@) {
        let i = choose|i: int| 0 <= i < rest.len() && rest[i] == ".."@;
        assert(p[base.len() + i] == ".."@);
    } else {
        assert forall|i: int| base.len() <= i < p.len() implies #[trigger] p[i] != ".."@ by {
            assert(rest.contains(rest[i - base.len()]));
        }
    }
}

} // verus!
