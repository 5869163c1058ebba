//! What the read-only cards and the last words say.

use vstd::prelude::*;
use crate::app::cards;
use crate::app::Scene;
use crate::app::state::{RunState, SessionState};
use crate::bus::SkillInfo;
use crate::locale::Locale;
use crate::measure;
use crate::text;
use crate::transcript::{Stats, Usage};

verus! {

/// `part` stands somewhere in `whole`.
#[verifier::opaque]
pub open spec fn says(whole: Seq<char>, part: Seq<char>) -> bool {
    exists|i: int|
        0 <= i <= whole.len() - part.len() && #[trigger] whole.subrange(i, i + part.len()) == part
}

proof fn said_between(a: Seq<char>, part: Seq<char>, b: Seq<char>, whole: Seq<char>)
    requires
        whole == a + part + b,
    ensures
        says(whole, part),
{
    reveal(says);
    let i = a.len() as int;
    assert(whole.subrange(i, i + part.len()) =~= part);
}

proof fn said_within(a: Seq<char>, mid: Seq<char>, b: Seq<char>, whole: Seq<char>, part: Seq<char>)
    requires
        whole == a + mid + b,
        says(mid, part),
    ensures
        says(whole, part),
{
    reveal(says);
    let i = choose|i: int|
        0 <= i <= mid.len() - part.len() && #[trigger] mid.subrange(i, i + part.len()) == part;
    assert(whole.subrange(a.len() + i, a.len() + i + part.len()) =~= mid.subrange(
        i,
        i + part.len(),
    ));
}

/// What a text says, it says with more behind it.
proof fn said_on(t: Seq<char>, more: Seq<char>)
    ensures
        says(t + more, more),
        forall|x: Seq<char>| says(t, x) ==> #[trigger] says(t + more, x),
        forall|x: Seq<char>| says(more, x) ==> #[trigger] says(t + more, x),
{
    let none = Seq::<char>::empty();
    assert(t + more =~= t + more + none);
    said_between(t, more, none, t + more);
    assert forall|x: Seq<char>| says(t, x) implies #[trigger] says(t + more, x) by {
        assert(t + more =~= none + t + more);
        said_within(none, t, more, t + more, x);
    }
    assert forall|x: Seq<char>| says(more, x) implies #[trigger] says(t + more, x) by {
        said_within(t, more, none, t + more, x);
    }
}

/// A text with a mark and a value behind it says them together.
proof fn said_pair(t: Seq<char>, mark: Seq<char>, value: Seq<char>)
    ensures
        says(t + mark + value, mark + value),
        forall|x: Seq<char>| says(t, x) ==> #[trigger] says(t + mark + value, x),
{
    assert(t + mark + value =~= t + (mark + value));
    said_on(t, mark + value);
}

/// The counters say what went in and what came out, each behind its own arrow,
/// the share of the cache, the turns and the steps, and the time of the model
/// and of the tools.
pub proof fn counters_say_what_was_counted(u: Usage, s: Stats)
    ensures
        ({
            let t = cards::counters(u, s);
            &&& says(t, "\n- tokens · ↑"@ + measure::token_count(u.input as int))
            &&& says(t, " ↓"@ + measure::token_count(u.output as int))
            &&& says(t, " · cache "@ + text::decimal(cards::cache_share(u) as nat))
            &&& says(t, "%\n- turns · "@ + text::decimal(s.turns as nat))
            &&& says(t, " · steps · "@ + text::decimal(s.steps as nat))
            &&& says(t, " · tool · "@ + measure::duration(s.tool_millis as int))
            &&& s.turn_millis >= s.tool_millis ==> says(
                t,
                "\n- LLM · "@ + measure::duration(s.turn_millis - s.tool_millis),
            )
            &&& s.ttft_count > 0 ==> says(
                t,
                "\n- TTFT avg · "@ + measure::duration(
                    s.ttft_total_millis as int / s.ttft_count as int,
                ),
            )
        }),
{
    let llm = if s.turn_millis >= s.tool_millis {
        s.turn_millis - s.tool_millis
    } else {
        0
    };
    let t1 = "\n- tokens · ↑"@ + measure::token_count(u.input as int);
    said_between(Seq::empty(), t1, Seq::empty(), t1);
    let v2 = measure::token_count(u.output as int);
    let t2 = t1 + " ↓"@ + v2;
    said_pair(t1, " ↓"@, v2);
    let v3 = text::decimal(cards::cache_share(u) as nat);
    let t3 = t2 + " · cache "@ + v3;
    said_pair(t2, " · cache "@, v3);
    let v4 = text::decimal(s.turns as nat);
    let t4 = t3 + "%\n- turns · "@ + v4;
    said_pair(t3, "%\n- turns · "@, v4);
    let v5 = text::decimal(s.steps as nat);
    let t5 = t4 + " · steps · "@ + v5;
    said_pair(t4, " · steps · "@, v5);
    let v6 = measure::duration(llm);
    let t6 = t5 + "\n- LLM · "@ + v6;
    said_pair(t5, "\n- LLM · "@, v6);
    let v7 = measure::duration(s.tool_millis as int);
    let t7 = t6 + " · tool · "@ + v7;
    said_pair(t6, " · tool · "@, v7);
    if s.ttft_count > 0 {
        said_pair(
            t7,
            "\n- TTFT avg · "@,
            measure::duration(s.ttft_total_millis as int / s.ttft_count as int),
        );
    }
}

/// The status card says the state of the run, the session and its title, the
/// model, the effort, the permission and whether plan mode is on.
pub proof fn the_status_card_says_what_is(scene: Scene)
    requires
        scene.locale == Locale::En,
    ensures
        ({
            let t = scene.status_text();
            let r = scene.session;
            &&& r.state == RunState::Idle ==> says(t, "- state · "@ + "idle"@)
            &&& r.state == RunState::Starting ==> says(t, "- state · "@ + "starting"@)
            &&& r.state == RunState::Running ==> says(t, "- state · "@ + "running"@)
            &&& r.bound ==> says(t, "- session · "@ + r.id)
            &&& !r.bound ==> says(t, "- session · unbound\n"@)
            &&& r.bound && r.title is Some ==> says(t, r.id + (" · "@ + r.title->0))
            &&& says(t, "- model · "@ + r.cfg.model)
            &&& r.modes.effort is Some ==> says(t, "\n- effort · "@ + r.modes.effort->0)
            &&& r.server is Some ==> says(t, "- server · "@ + r.server->0)
            &&& r.modes.plan ==> says(t, "\n- plan · "@ + "on"@)
            &&& !r.modes.plan ==> says(t, "\n- plan · "@ + "off"@)
            &&& says(t, "- credentials · "@ + r.credentials())
            &&& says(
                t,
                "\n- permission · "@ + cards::permission_words(scene.locale, r.shown_permission()),
            )
            &&& says(t, cards::counters(scene.transcript.usage, scene.transcript.stats))
        }),
{
    reveal(Scene::status_text);
    let r = scene.session;
    let t1 = "- state · "@ + scene.state_words();
    said_on("- state · "@, scene.state_words());
    said_between(Seq::empty(), t1, Seq::empty(), t1);
    let t2 = t1 + "\n"@;
    said_on(t1, "\n"@);
    the_session_line_says_it(r);
    let t3 = t2 + r.session_line();
    said_on(t2, r.session_line());
    let t4 = t3 + "- credentials · "@ + r.credentials();
    said_pair(t3, "- credentials · "@, r.credentials());
    let t5 = t4 + "\n"@;
    said_on(t4, "\n"@);
    if r.server is Some {
        let x = "- server · "@ + r.server->0;
        said_between(Seq::empty(), x, "\n"@, r.server_line());
    }
    let t6 = t5 + r.server_line();
    said_on(t5, r.server_line());
    let t7 = t6 + "- model · "@ + r.cfg.model;
    said_pair(t6, "- model · "@, r.cfg.model);
    let t8 = t7 + r.effort_line();
    said_on(t7, r.effort_line());
    let words = cards::permission_words(scene.locale, r.shown_permission());
    let t9 = t8 + "\n- permission · "@ + words;
    said_pair(t8, "\n- permission · "@, words);
    let plan = if r.modes.plan {
        "on"@
    } else {
        "off"@
    };
    let t10 = t9 + "\n- plan · "@ + plan;
    said_pair(t9, "\n- plan · "@, plan);
    said_on(t10, cards::counters(scene.transcript.usage, scene.transcript.stats));
}

proof fn the_session_line_says_it(r: SessionState)
    ensures
        r.bound ==> says(r.session_line(), "- session · "@ + r.id),
        !r.bound ==> says(r.session_line(), "- session · unbound\n"@),
        r.bound && r.title is Some ==> says(r.session_line(), r.id + (" · "@ + r.title->0)),
{
    let line = r.session_line();
    let none = Seq::<char>::empty();
    if r.bound {
        let title = match r.title {
            Some(x) => " · "@ + x,
            None => ""@,
        };
        assert(line =~= none + ("- session · "@ + r.id) + (title + "\n"@));
        said_between(none, "- session · "@ + r.id, title + "\n"@, line);
        if r.title is Some {
            assert(line =~= "- session · "@ + (r.id + title) + "\n"@);
            said_between("- session · "@, r.id + title, "\n"@, line);
        }
    } else {
        assert(line =~= none + line + none);
        said_between(none, line, none, line);
    }
}

/// The permission shown is the preset that was reported, then the file policy,
/// then full access.
pub proof fn the_reported_permission_is_shown(r: SessionState)
    ensures
        r.modes.permission is Some ==> r.shown_permission() == r.modes.permission->0,
        r.modes.permission is None && r.modes.sandbox is Some ==> r.shown_permission()
            == r.modes.sandbox->0,
        r.modes.permission is None && r.modes.sandbox is None ==> r.shown_permission()
            == "danger-full-access"@,
{
}

/// Each skill has a line that says how it is called and what it does.
pub proof fn skills_are_listed(skills: Seq<SkillInfo>, n: int, i: int)
    requires
        0 <= i < n <= skills.len(),
    ensures
        says(cards::skill_lines(skills, n), "- `/"@ + skills[i].name@),
        says(cards::skill_lines(skills, n), "` · "@ + skills[i].description@),
        skills[i].input_hint is Some ==> says(
            cards::skill_lines(skills, n),
            skills[i].name@ + (" "@ + skills[i].input_hint->0@),
        ),
    decreases n,
{
    let t = cards::skill_lines(skills, n);
    let before = cards::skill_lines(skills, n - 1);
    let line = cards::skill_line(skills[n - 1]);
    let none = Seq::<char>::empty();
    if i == n - 1 {
        let s = skills[i];
        let hint = match s.input_hint {
            Some(h) => " "@ + h@,
            None => ""@,
        };
        let source = match s.source {
            Some(p) => "\n  `"@ + p@ + "`"@,
            None => ""@,
        };
        let name = "- `/"@ + s.name@;
        let does = "` · "@ + s.description@;
        assert(line =~= none + name + (hint + does + source + "\n"@));
        said_between(none, name, hint + does + source + "\n"@, line);
        assert(line =~= (name + hint) + does + (source + "\n"@));
        said_between(name + hint, does, source + "\n"@, line);
        assert(t =~= before + line + none);
        said_within(before, line, none, t, name);
        said_within(before, line, none, t, does);
        if s.input_hint is Some {
            let call = s.name@ + hint;
            assert(line =~= "- `/"@ + call + (does + source + "\n"@));
            said_between("- `/"@, call, does + source + "\n"@, line);
            said_within(before, line, none, t, call);
        }
    } else {
        skills_are_listed(skills, n - 1, i);
        assert(t =~= none + before + line);
        said_within(none, before, line, t, "- `/"@ + skills[i].name@);
        said_within(none, before, line, t, "` · "@ + skills[i].description@);
        if skills[i].input_hint is Some {
            said_within(
                none,
                before,
                line,
                t,
                skills[i].name@ + (" "@ + skills[i].input_hint->0@),
            );
        }
    }
}

/// The last words name the session and the flag that brings it back.
pub proof fn the_last_words_name_the_session(scene: Scene)
    ensures
        scene.locale == Locale::En ==> says(scene.farewell(), "Session id: "@ + scene.session.id)
            && says(scene.farewell(), "abylab --session-id "@ + scene.session.id),
        says(scene.farewell(), scene.session.id),
{
    let t = scene.farewell();
    let id = scene.session.id;
    let none = Seq::<char>::empty();
    let first = scene.tr("Session id: "@, "会话 id："@);
    let flag = scene.tr(
        "\nResume it later: abylab --session-id "@,
        "\n下次继续：abylab --session-id "@,
    );
    let last = scene.tr(" · or pick it with /resume"@, " · 也可以在程序里用 /resume 选择"@);
    assert(t =~= first + id + (flag + id + last));
    said_between(first, id, flag + id + last, t);
    if scene.locale == Locale::En {
        assert(t =~= none + ("Session id: "@ + id) + (flag + id + last));
        said_between(none, "Session id: "@ + id, flag + id + last, t);
        reveal_strlit("\nResume it later: abylab --session-id ");
        reveal_strlit("\nResume it later: ");
        reveal_strlit("abylab --session-id ");
        assert(flag =~= "\nResume it later: "@ + "abylab --session-id "@);
        assert(t =~= (first + id + "\nResume it later: "@) + ("abylab --session-id "@ + id) + last);
        said_between(first + id + "\nResume it later: "@, "abylab --session-id "@ + id, last, t);
    }
}

/// The model is named first, and the effort behind it where one is asked for.
pub proof fn the_model_is_named_with_its_effort(scene: Scene)
    ensures
        ({
            let m = scene.session.cfg.model;
            let e = scene.session.modes.effort;
            &&& m.is_prefix_of(scene.model_words())
            &&& e is Some && e->0.len() > 0 ==> e->0.is_suffix_of(scene.model_words())
            &&& e is None ==> scene.model_words() == m
        }),
{
}

} // verus!
