//! What commands and submitted lines promise: what is run, what goes out, what
//! is stored and what is said of it.

use vstd::prelude::*;
use crate::app::menu;
use crate::app::Scene;
use crate::app::slash;
use crate::app::state::{RunState, Switch};
use crate::appearance;
use crate::appearance::{Look, Mode};
use crate::bus::Order;
use crate::commands;
use crate::controller::Deed;
use crate::input::vim::VimMode;
use crate::locale;
use crate::locale::Locale;
use crate::runtime::KeyOrigin;
use crate::text;
use crate::transcript::{Note, NoticeLevel};

verus! {

// --- submitting -----------------------------------------------------------------

/// A plain line is sent without the white space around it; the history keeps
/// it, and the draft is empty. A blank one does nothing.
pub proof fn a_plain_line_is_sent(scene: Scene)
    requires
        scene.session.switch is None,
        scene.draft.images.items.len() == 0,
        !text::leads(text::trim(scene.draft.input.area.text), '/'),
    ensures
        ({
            let line = text::trim(scene.draft.input.area.text);
            let s = scene.submitted();
            let free = scene.session.state != RunState::Running && !scene.session.pending
                && scene.queue.waiting.len() == 0;
            &&& line.len() == 0 ==> s == scene
            &&& line.len() > 0 ==> s.draft.input.area.text.len() == 0 && s.draft.input.history
                == scene.draft.input.history.push(line)
            &&& line.len() > 0 && free ==> s.ctl.effects == scene.ctl.effects.push(
                Deed::Send(Order::Prompt { session_id: scene.session.id, text: line }),
            )
            &&& line.len() > 0 && !free ==> s.ctl == scene.ctl && s.queue.waiting.len()
                == scene.queue.waiting.len() + 1
        }),
{
    reveal(Scene::submitted);
    reveal(Scene::line_kept);
    reveal(Scene::text_sent);
    let t = scene.draft.input.area.text;
    assert(t.take(0) + t.skip(t.len() as int) =~= Seq::<char>::empty());
}

/// While a session switch is under way nothing is submitted, and the draft
/// stays. A command line with images in it is not run either.
pub proof fn what_cannot_be_sent_stays(scene: Scene)
    ensures
        scene.session.switch is Some ==> scene.submitted().draft == scene.draft
            && scene.submitted().ctl == scene.ctl && scene.submitted().queue == scene.queue,
        scene.session.switch is None && scene.draft.images.items.len() > 0 && text::leads(
            text::trim(scene.draft.input.area.text),
            '/',
        ) ==> scene.submitted().draft == scene.draft && scene.submitted().ctl == scene.ctl,
{
    reveal(Scene::submitted);
}

/// A draft with images is sent as the pieces that it reads as; the history keeps
/// its text, and the draft and the tray are empty.
pub proof fn a_draft_with_images_is_sent_as_pieces(scene: Scene)
    requires
        scene.session.switch is None,
        scene.draft.images.items.len() > 0,
        !text::leads(text::trim(scene.draft.input.area.text), '/'),
    ensures
        scene.submitted() == scene.images_submitted(),
        scene.images_submitted().draft.input.area.text.len() == 0,
        scene.images_submitted().draft.input.history == scene.draft.input.history.push(
            scene.draft.input.area.text,
        ),
        scene.images_submitted().draft.images.items.len() == 0,
{
    reveal(Scene::submitted);
    reveal(Scene::images_submitted);
    reveal(Scene::tray_settled);
    reveal(Scene::staged_sent);
    reveal(Scene::emitted);
    let t = scene.draft.input.area.text;
    assert(t.take(0) + t.skip(t.len() as int) =~= Seq::<char>::empty());
}

/// A line that begins with a slash is a command, or the line of a skill where no
/// command has that name; the history keeps it.
pub proof fn a_slash_line_is_run(scene: Scene, name: Seq<char>, rest: Seq<char>)
    requires
        text::cut_at(name + seq![' '] + rest, ' ') == Some((name, rest)),
    ensures
        ({
            let line = seq!['/'] + name + seq![' '] + rest;
            let s = scene.line_run(line);
            let skill = !commands::is_command(name) && exists|i: int|
                0 <= i < scene.session.skills.len() && (#[trigger] scene.session.skills[i]).name@
                    == name;
            &&& skill ==> s == scene.line_kept(line).text_sent(line)
            &&& !skill ==> s == scene.line_kept(line).commanded(name, text::trim(rest))
            &&& scene.line_kept(line).draft.input.area.text.len() == 0
            &&& scene.line_kept(line).draft.input.history == scene.draft.input.history.push(line)
        }),
{
    reveal(Scene::line_run);
    reveal(Scene::line_kept);
    let line = seq!['/'] + name + seq![' '] + rest;
    assert(line.skip(1) =~= name + seq![' '] + rest);
    let t = scene.draft.input.area.text;
    assert(t.take(0) + t.skip(t.len() as int) =~= Seq::<char>::empty());
}

// --- the commands ---------------------------------------------------------------

/// Each command does its own.
pub proof fn commands_do_their_own(scene: Scene, name: Seq<char>, arg: Seq<char>)
    ensures
        ({
            let s = scene.commanded(name, arg);
            &&& name == "help"@ ==> s == scene.helped()
            &&& name == "keys"@ ==> s == scene.keys_shown()
            &&& name == "lang"@ ==> s == scene.in_language(arg)
            &&& name == "login"@ ==> s == scene.logging_in(arg)
            &&& name == "logout"@ ==> s.ctl.effects == scene.ctl.effects.push(Deed::DeleteKey)
            &&& name == "compact"@ ==> s.ctl.effects == scene.ctl.effects.push(
                Deed::Send(Order::Compact),
            )
            &&& name == "goal"@ ==> s.ctl.effects == scene.ctl.effects.push(
                Deed::Send(Order::Goal { arg }),
            )
            &&& name == "clear"@ ==> s == scene.scrollback_cleared()
            &&& name == "quit"@ ==> s.quit
            &&& name == "theme"@ ==> s == scene.theme_set(arg)
            &&& name == "vim"@ ==> s == scene.vim_set(arg)
            &&& name == "model"@ && arg.len() == 0 ==> s == scene.models_opened()
            &&& name == "model"@ && arg.len() > 0 ==> s == scene.model_asked(arg)
            &&& name == "new"@ ==> s == scene.new_asked()
            &&& name == "status"@ ==> s == scene.status_shown()
            &&& name == "skill"@ ==> s == scene.skill_invoked(arg)
            &&& name == "resume"@ ==> s == scene.sessions_asked(arg)
            &&& name == "effort"@ ==> s == scene.effort_asked(arg)
            &&& name == "permission"@ ==> s == scene.permission_worded(arg)
            &&& name == "plan"@ && arg.len() == 0 ==> s == scene.text_sent("/plan"@)
            &&& name == "plan"@ && arg.len() > 0 ==> s == scene.text_sent("/plan "@ + arg)
            &&& name == "image"@ ==> s == scene.image_asked(arg)
            &&& name == "clip"@ ==> s.ctl.effects == scene.ctl.effects.push(
                Deed::ReadClipboard { caption: arg },
            )
        }),
{
    reveal(Scene::commanded);
    names_tell_apart();
}

/// The names of the commands differ in length or in their first letter.
proof fn names_tell_apart()
    ensures
        "help"@.len() == 4 && "help"@[0] == 'h',
        "keys"@.len() == 4 && "keys"@[0] == 'k',
        "lang"@.len() == 4 && "lang"@[0] == 'l',
        "goal"@.len() == 4 && "goal"@[0] == 'g',
        "quit"@.len() == 4 && "quit"@[0] == 'q',
        "plan"@.len() == 4 && "plan"@[0] == 'p',
        "clip"@.len() == 4 && "clip"@[0] == 'c',
        "login"@.len() == 5 && "login"@[0] == 'l',
        "clear"@.len() == 5 && "clear"@[0] == 'c',
        "theme"@.len() == 5 && "theme"@[0] == 't',
        "model"@.len() == 5 && "model"@[0] == 'm',
        "skill"@.len() == 5 && "skill"@[0] == 's',
        "image"@.len() == 5 && "image"@[0] == 'i',
        "new"@.len() == 3 && "new"@[0] == 'n',
        "vim"@.len() == 3 && "vim"@[0] == 'v',
        "resume"@.len() == 6 && "resume"@[0] == 'r',
        "logout"@.len() == 6 && "logout"@[0] == 'l',
        "status"@.len() == 6 && "status"@[0] == 's',
        "effort"@.len() == 6 && "effort"@[0] == 'e',
        "compact"@.len() == 7,
        "permission"@.len() == 10,
{
    reveal_strlit("help");
    reveal_strlit("keys");
    reveal_strlit("lang");
    reveal_strlit("goal");
    reveal_strlit("quit");
    reveal_strlit("plan");
    reveal_strlit("clip");
    reveal_strlit("login");
    reveal_strlit("clear");
    reveal_strlit("theme");
    reveal_strlit("model");
    reveal_strlit("skill");
    reveal_strlit("image");
    reveal_strlit("new");
    reveal_strlit("vim");
    reveal_strlit("resume");
    reveal_strlit("logout");
    reveal_strlit("status");
    reveal_strlit("effort");
    reveal_strlit("compact");
    reveal_strlit("permission");
}

/// A command that is not known is remarked on, and nothing goes out.
pub proof fn an_unknown_command_does_nothing(scene: Scene, name: Seq<char>, arg: Seq<char>)
    requires
        name.len() > 10,
    ensures
        ({
            let s = scene.commanded(name, arg);
            &&& s.ctl == scene.ctl
            &&& s.session == scene.session
            &&& s.queue == scene.queue
            &&& s.draft == scene.draft
            &&& s.transcript.cells.len() == scene.transcript.cells.len() + 1
        }),
{
    reveal(Scene::commanded);
    names_tell_apart();
}

// --- keys -----------------------------------------------------------------------

/// A key to be stored goes to the store without the white space around it, and
/// nowhere else yet; without one nothing is stored.
pub proof fn a_key_goes_to_the_store(scene: Scene, arg: Seq<char>)
    ensures
        text::trim(arg).len() > 0 ==> scene.logging_in(arg).ctl.effects == scene.ctl.effects.push(
            Deed::StoreKey(text::trim(arg)),
        ) && scene.logging_in(arg).session == scene.session && scene.logging_in(arg).transcript
            == scene.transcript,
        text::trim(arg).len() == 0 ==> scene.logging_in(arg).ctl == scene.ctl
            && scene.logging_in(arg).session == scene.session,
{
    reveal(Scene::logging_in);
}

/// A key that was stored is live, and the driver is told; one that was not
/// changes nothing but is remarked on as an error.
pub proof fn a_stored_key_is_live(scene: Scene, key: Seq<char>, why: Seq<char>)
    ensures
        ({
            let s = scene.logged_in(key, Ok(()));
            let f = scene.logged_in(key, Err(why));
            &&& s.session.cfg.api_key == Some(key)
            &&& s.session.cfg.key_origin == Some(KeyOrigin::Stored)
            &&& s.ctl.effects == scene.ctl.effects.push(
                Deed::Send(Order::SetApiKey { key: Some(key) }),
            )
            &&& f.session == scene.session
            &&& f.ctl == scene.ctl
            &&& f.transcript.cells.len() == scene.transcript.cells.len() + 1
            &&& f.transcript.cells.last().note matches Note::Notice { level, .. } && level
                == NoticeLevel::Error
        }),
{
    reveal(Scene::logged_in);
}

/// To log out drops a live key that came from the store, and tells the driver;
/// a key given by flag runs on. A failure changes nothing.
pub proof fn logging_out_drops_the_stored_key(scene: Scene, deleted: bool, why: Seq<char>)
    ensures
        ({
            let s = scene.logged_out(Ok(deleted));
            let stored = scene.session.cfg.key_origin == Some(KeyOrigin::Stored);
            &&& stored ==> s.session.cfg.api_key is None && s.session.cfg.key_origin is None
                && s.ctl.effects == scene.ctl.effects.push(
                Deed::Send(Order::SetApiKey { key: None }),
            )
            &&& !stored ==> s.session == scene.session && s.ctl == scene.ctl
            &&& scene.logged_out(Err(why)).session == scene.session
            &&& scene.logged_out(Err(why)).ctl == scene.ctl
        }),
{
    reveal(Scene::logged_out);
}

// --- languages, modes and sessions ----------------------------------------------

/// The language that is named is spoken from then on, in every timeline, and is
/// kept; without a name it is the other one, and an unknown name changes
/// nothing.
pub proof fn the_language_is_switched(scene: Scene, arg: Seq<char>, k: int)
    requires
        0 <= k < scene.subagents.len(),
    ensures
        ({
            let s = scene.in_language(arg);
            let to = if text::trim(arg).len() > 0 {
                locale::named(arg)
            } else if scene.locale == Locale::En {
                Some(Locale::Zh)
            } else {
                Some(Locale::En)
            };
            &&& to matches Some(l) ==> s.locale == l && s.transcript.locale == l
                && s.subagents.len() == scene.subagents.len() && s.subagents[k].transcript.locale
                == l && s.subagents[k].id == scene.subagents[k].id && s.transcript.cells
                == scene.transcript.cells && s.ctl.effects.len() == scene.ctl.effects.len() + 1
                && (s.ctl.effects.last() matches Deed::SaveSettings(p) && p.language == l)
            &&& to is None ==> s.locale == scene.locale && s.ctl == scene.ctl && s.transcript
                == scene.transcript
        }),
{
    reveal(Scene::in_language);
}

/// The words for a language, capitals and white space around them aside.
pub proof fn languages_have_names(word: Seq<char>)
    ensures
        text::small(text::trim(word)) == "en"@ ==> locale::named(word) == Some(Locale::En),
        text::small(text::trim(word)) == "zh"@ ==> locale::named(word) == Some(Locale::Zh),
        text::small(text::trim(word)) != "en"@ && text::small(text::trim(word)) != "zh"@
            ==> locale::named(word) is None,
        locale::say(Locale::En, word, Seq::empty()) == word,
        locale::say(Locale::Zh, Seq::empty(), word) == word,
{
    reveal_strlit("en");
    reveal_strlit("zh");
    assert("en"@[0] != "zh"@[0]);
}

/// To clear the scrollback empties the timeline but for the remark on it; the
/// queue and the draft stay, and nothing goes out.
pub proof fn clearing_leaves_a_remark(scene: Scene)
    ensures
        ({
            let s = scene.scrollback_cleared();
            &&& s.transcript.cells.len() == 1
            &&& s.transcript.cells[0].note is Notice
            &&& s.chat.sel is None
            &&& s.queue == scene.queue
            &&& s.draft == scene.draft
            &&& s.ctl == scene.ctl
            &&& s.session == scene.session
        }),
{
    reveal(Scene::scrollback_cleared);
}

/// Vim editing is turned on, in insert mode, or off; without a word it is turned
/// the other way. The draft stays.
pub proof fn vim_editing_is_turned(scene: Scene, arg: Seq<char>)
    ensures
        ({
            let s = scene.vim_set(arg);
            let was = scene.draft.vim.mode;
            &&& arg == "on"@ ==> s.draft.vim.mode == VimMode::Insert
            &&& arg == "off"@ ==> s.draft.vim.mode == VimMode::Off
            &&& arg.len() == 0 && was == VimMode::Off ==> s.draft.vim.mode == VimMode::Insert
            &&& arg.len() == 0 && was != VimMode::Off ==> s.draft.vim.mode == VimMode::Off
            &&& s.draft.vim.pending is None
            &&& s.draft.input == scene.draft.input
            &&& s.ctl == scene.ctl
        }),
{
    reveal(Scene::vim_set);
    reveal_strlit("on");
    reveal_strlit("off");
    reveal_strlit("1");
    reveal_strlit("0");
    assert("on"@.len() == 2 && "off"@.len() == 3 && "1"@.len() == 1 && "0"@.len() == 1);
}

/// A new session is asked for once; the one on show stays until it is bound.
pub proof fn a_new_session_is_asked_for_once(scene: Scene)
    ensures
        scene.session.switch is Some ==> scene.new_asked() == scene,
        scene.session.switch is None ==> scene.new_asked().ctl.effects == scene.ctl.effects.push(
            Deed::Send(Order::NewSession),
        ) && scene.new_asked().session.switch == Some(Switch::New)
            && scene.new_asked().session.id == scene.session.id && scene.new_asked().transcript
            == scene.transcript && scene.new_asked().queue == scene.queue,
{
    reveal(Scene::new_asked);
}

/// The stored sessions are asked for, those of a prefix where one is given.
pub proof fn sessions_are_asked_for(scene: Scene, arg: Seq<char>)
    ensures
        scene.sessions_asked(arg).ctl.effects == scene.ctl.effects.push(
            Deed::Send(
                Order::ListSessions {
                    prefix: if arg.len() == 0 {
                        None
                    } else {
                        Some(arg)
                    },
                },
            ),
        ),
        scene.sessions_asked(arg).session == scene.session,
{
    reveal(Scene::sessions_asked);
}

/// An effort that is named is asked for and remembered; without a name the
/// efforts of the model are asked for.
pub proof fn an_effort_is_asked_for(scene: Scene, arg: Seq<char>)
    ensures
        arg.len() == 0 ==> scene.effort_asked(arg).ctl.effects == scene.ctl.effects.push(
            Deed::Send(
                Order::FetchEfforts {
                    provider: scene.session.cfg.provider,
                    model: scene.session.cfg.model,
                },
            ),
        ) && scene.effort_asked(arg).session == scene.session,
        arg.len() > 0 ==> scene.effort_asked(arg).session.modes.effort == Some(arg)
            && scene.effort_asked(arg).session.cfg == scene.session.cfg && scene.effort_asked(
            arg,
        ).ctl.effects == scene.ctl.effects.push(
            Deed::Send(
                Order::SelectModel {
                    session_id: scene.session.id,
                    provider: None,
                    model: None,
                    effort: Some(arg),
                },
            ),
        ),
{
    reveal(Scene::effort_asked);
}

/// A preset can be asked for by its short names; any other word is passed on as
/// it is.
pub proof fn a_preset_has_short_names(scene: Scene, arg: Seq<char>)
    requires
        arg.len() > 0,
    ensures
        ({
            let w = text::small(text::trim(arg));
            let s = scene.permission_worded(arg);
            &&& w == "ro"@ || w == "read"@ || w == "readonly"@ || w == "read-only"@ ==> s
                == scene.permission_asked("read-only"@)
            &&& w == "ws"@ || w == "write"@ || w == "workspace"@ || w == "safe"@ || w == "sandbox"@
                || w == "workspace-write"@ ==> s == scene.permission_asked("workspace-write"@)
            &&& w == "full"@ || w == "yolo"@ || w == "danger"@ || w == "full-access"@ || w
                == "danger-full-access"@ ==> s == scene.permission_asked("danger-full-access"@)
            &&& commands::stock_preset(w) is None ==> s == scene.permission_asked(arg)
        }),
{
    reveal(Scene::permission_worded);
    reveal_strlit("ro");
    reveal_strlit("read");
    reveal_strlit("readonly");
    reveal_strlit("read-only");
    reveal_strlit("ws");
    reveal_strlit("write");
    reveal_strlit("workspace");
    reveal_strlit("safe");
    reveal_strlit("sandbox");
    reveal_strlit("workspace-write");
    reveal_strlit("full");
    reveal_strlit("yolo");
    reveal_strlit("danger");
    reveal_strlit("full-access");
    reveal_strlit("danger-full-access");
    assert("ro"@[0] == 'r' && "ws"@[0] == 'w');
    assert("read"@[0] == 'r' && "safe"@[0] == 's' && "full"@[0] == 'f' && "yolo"@[0] == 'y');
    assert("read-only"@[0] == 'r' && "workspace"@[0] == 'w');
    assert("ro"@.len() == 2 && "ws"@.len() == 2 && "read"@.len() == 4 && "safe"@.len() == 4);
    assert("full"@.len() == 4 && "yolo"@.len() == 4 && "write"@.len() == 5);
    assert("danger"@.len() == 6 && "sandbox"@.len() == 7 && "readonly"@.len() == 8);
    assert("read-only"@.len() == 9 && "workspace"@.len() == 9 && "full-access"@.len() == 11);
    assert("workspace-write"@.len() == 15 && "danger-full-access"@.len() == 18);
}

/// A skill that is on offer is invoked by its line, its argument with it; one
/// that is not is remarked on, and nothing is sent.
pub proof fn a_skill_is_invoked_by_its_line(scene: Scene, arg: Seq<char>)
    requires
        text::trim(arg).len() > 0,
    ensures
        ({
            let (name, rest) = slash::word_and_rest(text::trim(arg));
            let s = scene.skill_invoked(arg);
            let known = exists|i: int|
                0 <= i < scene.session.skills.len() && (#[trigger] scene.session.skills[i]).name@
                    == name;
            &&& known && rest.len() == 0 ==> s == scene.text_sent("/"@ + name)
            &&& known && rest.len() > 0 ==> s == scene.text_sent("/"@ + name + " "@ + rest)
            &&& !known ==> s.ctl == scene.ctl && s.queue == scene.queue && s.transcript.cells.len()
                == scene.transcript.cells.len() + 1
        }),
{
    reveal(Scene::skill_invoked);
}

proof fn space_found(s: Seq<char>, i: int)
    requires
        0 <= i <= s.len(),
        forall|k: int| 0 <= k < i ==> !text::space(#[trigger] s[k]),
    ensures
        ({
            let j = slash::first_space(s, i);
            &&& i <= j <= s.len()
            &&& j < s.len() ==> text::space(s[j])
            &&& forall|k: int| 0 <= k < j ==> !text::space(#[trigger] s[k])
        }),
    decreases s.len() - i,
{
    if i < s.len() && !text::space(s[i]) {
        space_found(s, i + 1);
    }
}

/// A text is cut at its first white space: the word before it holds none, and
/// what follows is trimmed.
pub proof fn a_word_is_cut_off(s: Seq<char>)
    ensures
        ({
            let (w, rest) = slash::word_and_rest(s);
            &&& w.is_prefix_of(s)
            &&& forall|k: int| 0 <= k < w.len() ==> !text::space(#[trigger] w[k])
            &&& w.len() == s.len() ==> rest.len() == 0
            &&& w.len() < s.len() ==> text::space(s[w.len() as int]) && rest == text::trim(
                s.skip(w.len() as int + 1),
            )
        }),
{
    space_found(s, 0);
}

/// An image is asked for by its path, its last part being its name; what
/// follows is its caption. A path of no image's is remarked on.
pub proof fn an_image_is_asked_for_by_path(scene: Scene, arg: Seq<char>)
    ensures
        ({
            let (path, caption) = slash::word_and_rest(arg);
            let s = scene.image_asked(arg);
            &&& path.len() > 0 ==> (commands::media_type(path) matches Some(media_type)
                ==> s.ctl.effects == scene.ctl.effects.push(
                Deed::ReadImage {
                    path,
                    media_type,
                    name: text::pieces(path, '/').last(),
                    caption,
                },
            ))
            &&& path.len() == 0 || commands::media_type(path) is None ==> s.ctl == scene.ctl
                && s.draft == scene.draft
        }),
{
    reveal(Scene::image_asked);
}

/// An image that was read is staged under its name with its bytes; one that was
/// not leaves the draft as it is.
pub proof fn an_image_that_was_read_is_staged(
    scene: Scene,
    path: Seq<char>,
    media_type: Seq<char>,
    name: Seq<char>,
    data: Seq<u8>,
    stored: Seq<char>,
    why: Seq<char>,
)
    ensures
        scene.image_brought(path, media_type, name, Seq::empty(), Ok((data, stored)))
            == scene.image_staged(name, stored, media_type, data, Seq::empty()),
        scene.image_brought(path, media_type, name, Seq::empty(), Err(why)).draft == scene.draft,
        scene.clip_brought(Seq::empty(), None).draft == scene.draft,
        scene.clip_brought(Seq::empty(), Some((data, media_type))) == scene.image_staged(
            "clipboard.png"@,
            "clipboard"@,
            media_type,
            data,
            Seq::empty(),
        ),
{
    reveal(Scene::image_brought);
    reveal(Scene::clip_brought);
}

// --- the menu -------------------------------------------------------------------

/// The rows of the commands are those whose name begins as the draft does, in
/// the order of the commands: the exact one, and the others.
pub proof fn the_menu_lists_what_begins_alike(scene: Scene, prefix: Seq<char>, exact: bool, n: int, i: int)
    requires
        0 <= n <= commands::commands().len(),
        0 <= i < scene.command_rows(prefix, exact, n).len(),
    ensures
        prefix.is_prefix_of(scene.command_rows(prefix, exact, n)[i].name),
        (scene.command_rows(prefix, exact, n)[i].name == prefix) == exact,
        exists|k: int|
            0 <= k < n && #[trigger] commands::commands()[k].0 == scene.command_rows(
                prefix,
                exact,
                n,
            )[i].name,
    decreases n,
{
    if n > 0 {
        let name = commands::commands()[n - 1].0;
        let rest = scene.command_rows(prefix, exact, n - 1);
        if i < rest.len() {
            the_menu_lists_what_begins_alike(scene, prefix, exact, n - 1, i);
        } else {
            assert(commands::commands()[n - 1].0 == scene.command_rows(prefix, exact, n)[i].name);
        }
    }
}

/// Every command that begins as the draft does is listed.
pub proof fn what_begins_alike_is_listed(scene: Scene, prefix: Seq<char>, n: int, k: int)
    requires
        0 <= k < n <= commands::commands().len(),
        prefix.is_prefix_of(commands::commands()[k].0),
    ensures
        ({
            let name = commands::commands()[k].0;
            let rows = scene.command_rows(prefix, name == prefix, n);
            exists|i: int| 0 <= i < rows.len() && (#[trigger] rows[i]).name == name
        }),
    decreases n,
{
    let name = commands::commands()[k].0;
    let rows = scene.command_rows(prefix, name == prefix, n);
    if k == n - 1 {
        assert(rows[rows.len() - 1].name == name);
    } else {
        what_begins_alike_is_listed(scene, prefix, n - 1, k);
        let rest = scene.command_rows(prefix, name == prefix, n - 1);
        let i = choose|i: int| 0 <= i < rest.len() && (#[trigger] rest[i]).name == name;
        assert(rows[i].name == name);
    }
}

/// The rows of a command's arguments are those that begin as the typed one
/// does, and stand for the whole line.
pub proof fn arguments_complete_the_line(scene: Scene, name: Seq<char>, prefix: Seq<char>, n: int, i: int)
    requires
        0 <= n <= scene.options(name).len(),
        0 <= i < scene.argument_rows(name, prefix, n).len(),
    ensures
        exists|k: int|
            0 <= k < n && prefix.is_prefix_of((#[trigger] scene.options(name)[k]).value)
                && scene.argument_rows(name, prefix, n)[i].completion == Some(
                "/"@ + name + " "@ + scene.options(name)[k].value,
            ) && scene.argument_rows(name, prefix, n)[i].name == name,
    decreases n,
{
    if n > 0 {
        let o = scene.options(name)[n - 1];
        let rest = scene.argument_rows(name, prefix, n - 1);
        if i < rest.len() {
            arguments_complete_the_line(scene, name, prefix, n - 1, i);
            let k = choose|k: int|
                0 <= k < n - 1 && prefix.is_prefix_of((#[trigger] scene.options(name)[k]).value)
                    && rest[i].completion == Some("/"@ + name + " "@ + scene.options(name)[k].value)
                    && rest[i].name == name;
            assert(scene.argument_rows(name, prefix, n)[i] == rest[i]);
            assert(prefix.is_prefix_of(scene.options(name)[k].value));
        } else {
            assert(prefix.is_prefix_of(scene.options(name)[n - 1].value));
        }
    }
}

/// The highlighted row is the one of its number, and the last where there are
/// fewer.
pub proof fn the_highlight_is_a_row(scene: Scene)
    ensures
        scene.menu().len() == 0 ==> scene.highlighted() is None,
        scene.draft.slash_sel < scene.menu().len() ==> scene.highlighted() == Some(
            scene.menu()[scene.draft.slash_sel as int],
        ),
        0 < scene.menu().len() <= scene.draft.slash_sel ==> scene.highlighted() == Some(
            scene.menu()[scene.menu().len() - 1],
        ),
{
}

/// What follows a command's name in its line is its argument.
pub proof fn an_argument_follows_the_name(name: Seq<char>, rest: Seq<char>)
    ensures
        slash::argument(seq!['/'] + name + rest, name) == text::trim(rest),
{
    let line = seq!['/'] + name + rest;
    assert(line.skip(1) =~= name + rest);
    assert(name.is_prefix_of(line.skip(1)));
    assert(line.skip(1 + name.len() as int) =~= rest);
}

// --- appearance -----------------------------------------------------------------

/// A committed pack is the one in force and on screen, and ends any trying on;
/// one that is not known is not committed.
pub proof fn a_committed_pack_is_on_screen(look: Look, id: Seq<char>, k: int)
    requires
        0 <= k < look.palettes.len(),
    ensures
        look.palettes[k].0 == id ==> look.committed(id).active == id && look.committed(id).painted
            == id && look.committed(id).preview is None && look.committed(id).mode == look.mode
            && look.committed(id).palettes == look.palettes,
        !(exists|i: int| 0 <= i < look.palettes.len() && #[trigger] look.palettes[i].0 == id)
            ==> look.committed(id) == look,
        look.palettes[k].0 == id && id != look.active ==> look.previewed(id).painted == id
            && look.previewed(id).preview == Some(id) && look.previewed(id).active == look.active,
{
}

/// To commit a pack or to set the mode keeps the preferences; both are said in a
/// remark.
pub proof fn a_chosen_look_is_kept(scene: Scene, id: Seq<char>, mode: Mode, k: int)
    requires
        0 <= k < scene.look.palettes.len(),
        scene.look.palettes[k].0 == id,
    ensures
        ({
            let s = scene.palette_activated(id);
            let m = scene.mode_set(mode);
            &&& s.look.active == id
            &&& s.ctl.effects.len() == scene.ctl.effects.len() + 1
            &&& s.ctl.effects.last() matches Deed::SaveSettings(p) && p.palette == Some(id)
                && p.language == scene.locale && p.effort == scene.session.modes.effort
                && p.permission == scene.session.modes.permission
            &&& m.look.mode == mode
            &&& m.look.active == scene.look.active
            &&& m.ctl.effects.len() == scene.ctl.effects.len() + 1
            &&& m.ctl.effects.last() matches Deed::SaveSettings(p) && p.theme == Some(
                match mode {
                    Mode::Dark => "dark"@,
                    Mode::Light => "light"@,
                },
            )
        }),
{
    reveal(Scene::palette_activated);
}

/// The words of the theme command: dark and light set the mode, a pack's id
/// commits it, and an unknown word is remarked on.
pub proof fn the_theme_command_sets_the_look(scene: Scene, arg: Seq<char>)
    ensures
        arg == "dark"@ ==> scene.theme_set(arg) == scene.mode_set(Mode::Dark),
        arg == "light"@ ==> scene.theme_set(arg) == scene.mode_set(Mode::Light),
        arg.len() == 0 ==> scene.theme_set(arg).panels.picker is Some && scene.theme_set(arg).ctl
            == scene.ctl && scene.theme_set(arg).look == scene.look,
        arg.len() > 0 && arg != "dark"@ && arg != "light"@ && appearance::known(
            scene.look.palettes,
            arg,
        ) ==> scene.theme_set(arg) == scene.palette_activated(arg),
        arg.len() > 0 && arg != "dark"@ && arg != "light"@ && !appearance::known(
            scene.look.palettes,
            arg,
        ) ==> scene.theme_set(arg).look == scene.look && scene.theme_set(arg).ctl == scene.ctl,
{
    reveal(Scene::theme_set);
    reveal_strlit("dark");
    reveal_strlit("light");
}

// --- time -----------------------------------------------------------------------

/// A remark fades after its time and not before, and so does a press of ctrl+c
/// that was not followed by another; the wash of a jump ends when it is due.
pub proof fn what_is_passing_fades(scene: Scene)
    ensures
        scene.tip matches Some((t, at)) ==> (scene.host.now >= at && scene.host.now - at > 4000
            ==> scene.tip_faded().tip is None) && (scene.host.now >= at && scene.host.now - at
            <= 4000 ==> scene.tip_faded() == scene),
        scene.ctrl_c matches Some(c) ==> (scene.host.now >= c.started && scene.host.now - c.started
            > 1500 ==> scene.chord_faded().ctrl_c is None) && (scene.host.now >= c.started
            && scene.host.now - c.started <= 1500 ==> scene.chord_faded().ctrl_c == scene.ctrl_c),
        scene.chat.flash matches Some((cell, due)) ==> (scene.host.now >= due
            ==> scene.flash_faded().chat.flash is None) && (scene.host.now < due
            ==> scene.flash_faded() == scene),
{
    reveal(Scene::tip_faded);
    reveal(Scene::chord_faded);
    reveal(Scene::flash_faded);
}

/// The branch is looked at when its time has come and not before, and taken over
/// as it is.
pub proof fn the_branch_is_looked_at_in_time(scene: Scene)
    requires
        scene.host.now >= scene.git_check_at,
    ensures
        scene.host.now - scene.git_check_at < 5000 ==> scene.branch_checked() == scene,
        scene.host.now - scene.git_check_at >= 5000 ==> scene.branch_checked().git_branch
            == scene.host.branch && scene.branch_checked().git_check_at == scene.host.now,
{
    reveal(Scene::branch_checked);
}

/// The indicator turns while something runs, and only then.
pub proof fn the_indicator_turns_while_something_runs(scene: Scene)
    requires
        scene.spinner_idx < usize::MAX,
        scene.subagents.len() == 0,
    ensures
        scene.session.state != RunState::Idle || scene.transcript.streaming
            ==> scene.spun().spinner_idx == scene.spinner_idx + 1,
        scene.session.state == RunState::Idle && !scene.transcript.streaming ==> scene.spun()
            == scene,
{
    reveal(Scene::spun);
}

} // verus!
