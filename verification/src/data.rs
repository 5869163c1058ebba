//! What the program saved under its home, and what a wipe of it comes to.
//!
//! Five entries of the home are the program's own: the interface preferences,
//! the per-workspace mode cache, the stored key, the session store and the
//! prompt queue. A plan lists those that are there, with what they hold,
//! before anything goes. Two things it reports as kept instead: a file written
//! by hand, and a session store that lies outside the home or is the home.

use vstd::prelude::*;
use vstd::string::*;
use crate::credentials::CREDENTIALS_FILENAME;
use crate::locale;
use crate::locale::Locale;
use crate::measure;
use crate::measure::decimal_of;
use crate::path;
use crate::path::FilePath;
use crate::text;
use crate::text::{cat, number};

verus! {

/// The hand-written file of the home. It is reported as kept, never deleted.
pub const INSTRUCTIONS_FILE: &'static str = "AGENTS.md";

/// The most files that one entry of a plan counts.
pub const MAX_WALK: u64 = 20_000;

/// What one removed entry is.
#[derive(Clone, Copy, Debug, PartialEq, Eq, Structural)]
pub enum DataWhat {
    Settings,
    Modes,
    Credentials,
    Sessions,
    Queue,
}

impl DataWhat {
    pub open spec fn spelled(self, locale: Locale) -> Seq<char> {
        match self {
            DataWhat::Settings => locale::say(locale, "settings"@, "设置"@),
            DataWhat::Modes => locale::say(locale, "mode cache"@, "模式缓存"@),
            DataWhat::Credentials => locale::say(locale, "api key"@, "api key"@),
            DataWhat::Sessions => locale::say(locale, "session logs"@, "会话日志"@),
            DataWhat::Queue => locale::say(locale, "queued prompts"@, "排队消息"@),
        }
    }

    pub fn label(self, locale: Locale) -> (r: &'static str)
        ensures
            r@ == self.spelled(locale),
    {
        match self {
            DataWhat::Settings => locale.tr("settings", "设置"),
            DataWhat::Modes => locale.tr("mode cache", "模式缓存"),
            DataWhat::Credentials => locale.tr("api key", "api key"),
            DataWhat::Sessions => locale.tr("session logs", "会话日志"),
            DataWhat::Queue => locale.tr("queued prompts", "排队消息"),
        }
    }
}

/// Why a path survives the wipe.
#[derive(Clone, Copy, Debug, PartialEq, Eq, Structural)]
pub enum DataKeepWhy {
    /// The session store lies outside the home.
    OutsideHome,
    /// The session store is the home itself.
    RootIsHome,
    /// The file was written by hand; the program only reads it.
    HandWritten,
}

impl DataKeepWhy {
    pub open spec fn spelled(self, locale: Locale) -> Seq<char> {
        match self {
            DataKeepWhy::OutsideHome => locale::say(
                locale,
                "session store outside the aby home (--session-root)"@,
                "会话库在 aby 主目录之外（--session-root）"@,
            ),
            DataKeepWhy::RootIsHome => locale::say(
                locale,
                "--session-root names the aby home itself"@,
                "--session-root 指的就是 aby 主目录"@,
            ),
            DataKeepWhy::HandWritten => locale::say(
                locale,
                "written by hand, not saved by abylab"@,
                "手写文件，不是本程序保存的"@,
            ),
        }
    }

    pub fn note(self, locale: Locale) -> (r: &'static str)
        ensures
            r@ == self.spelled(locale),
    {
        match self {
            DataKeepWhy::OutsideHome => locale.tr(
                "session store outside the aby home (--session-root)",
                "会话库在 aby 主目录之外（--session-root）",
            ),
            DataKeepWhy::RootIsHome => locale.tr(
                "--session-root names the aby home itself",
                "--session-root 指的就是 aby 主目录",
            ),
            DataKeepWhy::HandWritten => locale.tr(
                "written by hand, not saved by abylab",
                "手写文件，不是本程序保存的",
            ),
        }
    }
}

/// The files under a path and the bytes they take; a lower bound where the
/// count stopped at `MAX_WALK`. A symbolic link counts as the file it is.
#[derive(Clone, Copy, Debug, PartialEq, Eq, Structural)]
pub struct Sizing {
    pub files: u64,
    pub bytes: u64,
    pub truncated: bool,
}

impl Sizing {
    pub open spec fn nothing() -> Sizing {
        Sizing { files: 0, bytes: 0, truncated: false }
    }

    /// A directory before anything in it was counted.
    pub fn empty() -> (r: Self)
        ensures
            r == Sizing::nothing(),
    {
        Sizing { files: 0, bytes: 0, truncated: false }
    }

    /// A plain file of `len` bytes.
    pub fn file(len: u64) -> (r: Self)
        ensures
            r == (Sizing { files: 1, bytes: len, truncated: false }),
    {
        Sizing { files: 1, bytes: len, truncated: false }
    }

    /// One more file of a directory. False once the count has reached its
    /// bound, and the walk ends there.
    pub fn count(&mut self, len: u64) -> (more: bool)
        requires
            old(self).files < MAX_WALK,
            old(self).bytes + len <= u64::MAX,
        ensures
            final(self).files == old(self).files + 1,
            final(self).bytes == old(self).bytes + len,
            final(self).truncated == (old(self).truncated || final(self).files >= MAX_WALK),
            more == (final(self).files < MAX_WALK),
    {
        self.files = self.files + 1;
        self.bytes = self.bytes + len;
        if self.files >= MAX_WALK {
            self.truncated = true;
            return false;
        }
        true
    }
}

/// One entry of the home that the program creates.
#[derive(Clone, Copy, Debug, PartialEq, Eq)]
pub struct Owned {
    pub name: &'static str,
    pub what: DataWhat,
}

/// The names of the program's entries and what they are, in the order a plan
/// lists them.
pub open spec fn entries() -> Seq<(Seq<char>, DataWhat)> {
    seq![
        ("settings.json"@, DataWhat::Settings),
        ("abylab-modes.json"@, DataWhat::Modes),
        (CREDENTIALS_FILENAME@, DataWhat::Credentials),
        ("sessions"@, DataWhat::Sessions),
        ("queued"@, DataWhat::Queue),
    ]
}

/// The program's entries, in the order a plan lists them.
pub fn owned() -> (r: Vec<Owned>)
    ensures
        r@.map_values(|o: Owned| (o.name@, o.what)) == entries(),
{
    let r = vec![
        Owned { name: "settings.json", what: DataWhat::Settings },
        Owned { name: "abylab-modes.json", what: DataWhat::Modes },
        Owned { name: CREDENTIALS_FILENAME, what: DataWhat::Credentials },
        Owned { name: "sessions", what: DataWhat::Sessions },
        Owned { name: "queued", what: DataWhat::Queue },
    ];
    assert(r@.map_values(|o: Owned| (o.name@, o.what)) == entries());
    r
}

/// What the home was found to hold: the size of each of the program's entries
/// in their order, `None` for one that is absent; the same for the session
/// store; whether the store and the hand-written file are there.
#[derive(Clone, Debug, PartialEq, Eq)]
pub struct Found {
    pub entries: Vec<Option<Sizing>>,
    pub store: Option<Sizing>,
    pub store_exists: bool,
    pub instructions: bool,
}

/// One path a wipe removes, with what is in it.
#[derive(Clone, Debug, PartialEq, Eq)]
pub struct DataItem {
    pub what: DataWhat,
    pub path: FilePath,
    pub files: u64,
    pub bytes: u64,
    pub truncated: bool,
}

#[verifier::ext_equal]
pub struct Item {
    pub what: DataWhat,
    pub path: Seq<Seq<char>>,
    pub size: Sizing,
}

impl View for DataItem {
    type V = Item;

    open spec fn view(&self) -> Item {
        Item {
            what: self.what,
            path: self.path@,
            size: Sizing { files: self.files, bytes: self.bytes, truncated: self.truncated },
        }
    }
}

impl DataItem {
    /// The entry's name, as it reads in a one-line report.
    pub fn name(&self) -> (r: String)
        ensures
            r@ == if self.path@.len() == 0 || self.path@.last() == "/"@ || self.path@.last()
                == ".."@ || self.path@.last() == "."@ {
                crate::path::spelled(self.path@)
            } else {
                self.path@.last()
            },
    {
        let n: usize = self.path.parts.len();
        if n == 0 {
            return self.path.text();
        }
        let last = self.path.parts[n - 1].clone();
        if text::same(last.as_str(), "/") || text::same(last.as_str(), "..") || text::same(
            last.as_str(),
            ".",
        ) {
            return self.path.text();
        }
        last
    }
}

/// One path a wipe leaves alone, and why.
#[derive(Clone, Debug, PartialEq, Eq)]
pub struct DataKeep {
    pub path: FilePath,
    pub why: DataKeepWhy,
}

/// What a wipe would remove, and what it would not.
#[derive(Clone, Debug, PartialEq, Eq)]
pub struct DataPlan {
    pub home: FilePath,
    /// The entries that are there; absent ones are not listed.
    pub items: Vec<DataItem>,
    pub kept: Vec<DataKeep>,
}

#[verifier::ext_equal]
pub struct Plan {
    pub home: Seq<Seq<char>>,
    pub items: Seq<Item>,
    pub kept: Seq<(Seq<Seq<char>>, DataKeepWhy)>,
}

impl View for DataPlan {
    type V = Plan;

    open spec fn view(&self) -> Plan {
        Plan {
            home: self.home@,
            items: self.items@.map_values(|i: DataItem| i@),
            kept: self.kept@.map_values(|k: DataKeep| (k.path@, k.why)),
        }
    }
}

/// The files counted by a list of entries.
pub open spec fn file_sum(items: Seq<Item>) -> int
    decreases items.len(),
{
    if items.len() == 0 {
        0
    } else {
        file_sum(items.drop_last()) + items.last().size.files
    }
}

/// The bytes counted by a list of entries.
pub open spec fn byte_sum(items: Seq<Item>) -> int
    decreases items.len(),
{
    if items.len() == 0 {
        0
    } else {
        byte_sum(items.drop_last()) + items.last().size.bytes
    }
}

proof fn sums_grow(items: Seq<Item>, k: int)
    requires
        0 <= k <= items.len(),
    ensures
        0 <= file_sum(items.take(k)) <= file_sum(items),
        0 <= byte_sum(items.take(k)) <= byte_sum(items),
    decreases items.len(),
{
    if items.len() == 0 {
        assert(items.take(k) == items);
    } else if k == items.len() {
        assert(items.take(k) == items);
        sums_grow(items.drop_last(), 0);
        assert(items.drop_last().take(0) == Seq::<Item>::empty());
    } else {
        sums_grow(items.drop_last(), k);
        assert(items.drop_last().take(k) == items.take(k));
    }
}

impl DataPlan {
    /// Nothing the program saved is there.
    pub fn is_empty(&self) -> (r: bool)
        ensures
            r == (self@.items.len() == 0),
    {
        self.items.len() == 0
    }

    pub fn files(&self) -> (r: u64)
        requires
            file_sum(self@.items) <= u64::MAX,
        ensures
            r == file_sum(self@.items),
    {
        let mut sum: u64 = 0;
        let mut i: usize = 0;
        let ghost all = self@.items;
        assert(all.take(0) == Seq::<Item>::empty());
        while i < self.items.len()
            invariant
                i <= self.items.len(),
                all == self@.items,
                file_sum(all) <= u64::MAX,
                sum == file_sum(all.take(i as int)),
            decreases self.items.len() - i,
        {
            proof {
                sums_grow(all, i + 1);
                assert(all.take(i + 1).drop_last() == all.take(i as int));
            }
            sum = sum + self.items[i].files;
            i += 1;
        }
        assert(all.take(all.len() as int) == all);
        sum
    }

    pub fn bytes(&self) -> (r: u64)
        requires
            byte_sum(self@.items) <= u64::MAX,
        ensures
            r == byte_sum(self@.items),
    {
        let mut sum: u64 = 0;
        let mut i: usize = 0;
        let ghost all = self@.items;
        assert(all.take(0) == Seq::<Item>::empty());
        while i < self.items.len()
            invariant
                i <= self.items.len(),
                all == self@.items,
                byte_sum(all) <= u64::MAX,
                sum == byte_sum(all.take(i as int)),
            decreases self.items.len() - i,
        {
            proof {
                sums_grow(all, i + 1);
                assert(all.take(i + 1).drop_last() == all.take(i as int));
            }
            sum = sum + self.items[i].bytes;
            i += 1;
        }
        assert(all.take(all.len() as int) == all);
        sum
    }
}

/// Whether a path is on the list.
pub open spec fn listed(items: Seq<Item>, path: Seq<Seq<char>>) -> bool {
    exists|i: int| 0 <= i < items.len() && #[trigger] items[i].path == path
}

/// The list with one more path that is there. The home itself is never on it,
/// and no path is on it twice.
pub open spec fn with_path(
    items: Seq<Item>,
    home: Seq<Seq<char>>,
    what: DataWhat,
    path: Seq<Seq<char>>,
    size: Option<Sizing>,
) -> Seq<Item> {
    if path == home || listed(items, path) {
        items
    } else {
        match size {
            Some(size) => items.push(Item { what, path, size }),
            None => items,
        }
    }
}

/// The size found for an entry.
pub open spec fn size_at(found: Found, i: int) -> Option<Sizing> {
    if i < found.entries@.len() {
        found.entries@[i]
    } else {
        None
    }
}

/// The first `k` of the program's entries, those that are there.
pub open spec fn own_items(home: Seq<Seq<char>>, found: Found, k: int) -> Seq<Item>
    decreases k,
{
    if k <= 0 {
        Seq::empty()
    } else {
        let entry = entries()[k - 1];
        with_path(
            own_items(home, found, k - 1),
            home,
            entry.1,
            home.push(entry.0),
            size_at(found, k - 1),
        )
    }
}

/// The plan for a home and a session store of which `found` was found.
pub open spec fn planned(home: Seq<Seq<char>>, root: Seq<Seq<char>>, found: Found) -> Plan {
    let own = own_items(home, found, entries().len() as int);
    let inside = path::below(root, home);
    let store = if root == home {
        seq![(home, DataKeepWhy::RootIsHome)]
    } else if !inside && found.store_exists {
        seq![(root, DataKeepWhy::OutsideHome)]
    } else {
        Seq::empty()
    };
    Plan {
        home,
        items: if inside {
            with_path(own, home, DataWhat::Sessions, root, found.store)
        } else {
            own
        },
        kept: if found.instructions {
            store.push((home.push(INSTRUCTIONS_FILE@), DataKeepWhy::HandWritten))
        } else {
            store
        },
    }
}

/// Every listed path lies below the home, and none is on the list twice.
pub open spec fn confined(items: Seq<Item>, home: Seq<Seq<char>>) -> bool {
    &&& forall|i: int|
        0 <= i < items.len() ==> path::below(#[trigger] items[i].path, home)
    &&& forall|i: int, j: int|
        0 <= i < j < items.len() ==> #[trigger] items[i].path != #[trigger] items[j].path
}

proof fn entry_is_no_step_up(i: int)
    requires
        0 <= i < entries().len(),
    ensures
        entries()[i].0 != ".."@,
{
    reveal_strlit("..");
    reveal_strlit("settings.json");
    reveal_strlit("abylab-modes.json");
    reveal_strlit(".credentials.yaml");
    reveal_strlit("sessions");
    reveal_strlit("queued");
    assert(entries()[i].0.len() > 2);
}

proof fn own_items_are_confined(home: Seq<Seq<char>>, found: Found, k: int)
    requires
        k <= entries().len(),
    ensures
        confined(own_items(home, found, k), home),
    decreases k,
{
    if k > 0 {
        own_items_are_confined(home, found, k - 1);
        let path = home.push(entries()[k - 1].0);
        assert(path.subrange(0, home.len() as int) == home);
        entry_is_no_step_up(k - 1);
    }
}

/// A plan removes paths below the home only, each of them once: never the
/// home itself, never a session store outside it, never what it reports as
/// kept for lying outside or for being the home.
pub proof fn plan_stays_below_the_home(
    home: Seq<Seq<char>>,
    root: Seq<Seq<char>>,
    found: Found,
)
    ensures
        confined(planned(home, root, found).items, home),
        !path::below(root, home) ==> !listed(planned(home, root, found).items, root),
        !path::below(root, home) && root != home && found.store_exists ==> planned(
            home,
            root,
            found,
        ).kept.contains((root, DataKeepWhy::OutsideHome)),
        forall|i: int|
            0 <= i < planned(home, root, found).kept.len() && planned(home, root, found).kept[i].1
                != DataKeepWhy::HandWritten ==> !listed(
                planned(home, root, found).items,
                (#[trigger] planned(home, root, found).kept[i]).0,
            ),
{
    own_items_are_confined(home, found, entries().len() as int);
    if !path::below(root, home) && root != home && found.store_exists {
        assert(planned(home, root, found).kept[0] == (root, DataKeepWhy::OutsideHome));
    }
}

fn copy_size(found: &Found, i: usize) -> (r: Option<Sizing>)
    ensures
        r == size_at(*found, i as int),
{
    if i < found.entries.len() {
        found.entries[i]
    } else {
        None
    }
}

fn add_path(
    items: &mut Vec<DataItem>,
    home: &FilePath,
    what: DataWhat,
    path: FilePath,
    size: Option<Sizing>,
)
    ensures
        final(items)@.map_values(|i: DataItem| i@) == with_path(
            old(items)@.map_values(|i: DataItem| i@),
            home@,
            what,
            path@,
            size,
        ),
{
    let ghost all = items@.map_values(|i: DataItem| i@);
    if path.same_as(home) {
        return;
    }
    let mut i: usize = 0;
    while i < items.len()
        invariant
            i <= items.len(),
            items == old(items),
            all == items@.map_values(|i: DataItem| i@),
            forall|j: int| 0 <= j < i ==> #[trigger] all[j].path != path@,
        decreases items.len() - i,
    {
        assert(all[i as int] == items@[i as int]@);
        if items[i].path.same_as(&path) {
            assert(all[i as int].path == path@);
            return;
        }
        i += 1;
    }
    if let Some(s) = size {
        let item = DataItem {
            what,
            path,
            files: s.files,
            bytes: s.bytes,
            truncated: s.truncated,
        };
        let ghost new = item@;
        items.push(item);
        assert(items@.map_values(|i: DataItem| i@) == all.push(new));
    }
}

/// The plan for a home and the session store the launcher was pointed at.
pub fn scan(home: &FilePath, sessions_root: &FilePath, found: &Found) -> (r: DataPlan)
    ensures
        r@ == planned(home@, sessions_root@, *found),
{
    let entries = owned();
    let mut items: Vec<DataItem> = Vec::new();
    let mut i: usize = 0;
    assert(items@.map_values(|i: DataItem| i@) == own_items(home@, *found, 0));
    while i < entries.len()
        invariant
            i <= entries.len(),
            entries@.map_values(|o: Owned| (o.name@, o.what)) == self::entries(),
            items@.map_values(|i: DataItem| i@) == own_items(home@, *found, i as int),
        decreases entries.len() - i,
    {
        let path = home.join(entries[i].name);
        assert(self::entries()[i as int] == (entries@[i as int].name@, entries@[i as int].what));
        add_path(&mut items, home, entries[i].what, path, copy_size(found, i));
        i += 1;
    }
    let mut kept: Vec<DataKeep> = Vec::new();
    if sessions_root.same_as(home) {
        kept.push(DataKeep { path: home.copy(), why: DataKeepWhy::RootIsHome });
    } else if sessions_root.is_below(home) {
        add_path(&mut items, home, DataWhat::Sessions, sessions_root.copy(), found.store);
    } else if found.store_exists {
        kept.push(DataKeep { path: sessions_root.copy(), why: DataKeepWhy::OutsideHome });
    }
    let ghost store = kept@.map_values(|k: DataKeep| (k.path@, k.why));
    if found.instructions {
        kept.push(
            DataKeep { path: home.join(INSTRUCTIONS_FILE), why: DataKeepWhy::HandWritten },
        );
        assert(kept@.map_values(|k: DataKeep| (k.path@, k.why)) == store.push(
            (home@.push(INSTRUCTIONS_FILE@), DataKeepWhy::HandWritten),
        ));
    }
    let r = DataPlan { home: home.copy(), items, kept };
    assert(r@ == planned(home@, sessions_root@, *found));
    r
}

/// What a wipe did: the entries removed, with the size the plan promised, and
/// every path that refused to go with its reason.
#[derive(Clone, Debug, PartialEq, Eq)]
pub struct DataOutcome {
    pub removed: usize,
    pub files: u64,
    pub bytes: u64,
    pub failures: Vec<(FilePath, String)>,
}

impl Default for DataOutcome {
    fn default() -> (r: Self)
        ensures
            r.removed == 0 && r.files == 0 && r.bytes == 0 && r.failures@.len() == 0,
    {
        DataOutcome { removed: 0, files: 0, bytes: 0, failures: Vec::new() }
    }
}

/// The entries of the first `k` that went: those whose removal gave no reason.
pub open spec fn gone(items: Seq<Item>, reasons: Seq<Option<String>>, k: int) -> Seq<Item>
    decreases k,
{
    if k <= 0 {
        Seq::empty()
    } else if reasons[k - 1] is None {
        gone(items, reasons, k - 1).push(items[k - 1])
    } else {
        gone(items, reasons, k - 1)
    }
}

/// The paths of the first `k` entries that refused to go, with the reasons.
pub open spec fn refused(
    items: Seq<Item>,
    reasons: Seq<Option<String>>,
    k: int,
) -> Seq<(Seq<Seq<char>>, Seq<char>)>
    decreases k,
{
    if k <= 0 {
        Seq::empty()
    } else {
        match reasons[k - 1] {
            Some(reason) => refused(items, reasons, k - 1).push((items[k - 1].path, reason@)),
            None => refused(items, reasons, k - 1),
        }
    }
}

proof fn gone_is_bounded(items: Seq<Item>, reasons: Seq<Option<String>>, k: int)
    requires
        0 <= k <= items.len(),
    ensures
        gone(items, reasons, k).len() <= k,
        0 <= file_sum(gone(items, reasons, k)) <= file_sum(items.take(k)),
        0 <= byte_sum(gone(items, reasons, k)) <= byte_sum(items.take(k)),
    decreases k,
{
    if k > 0 {
        gone_is_bounded(items, reasons, k - 1);
        assert(items.take(k).drop_last() == items.take(k - 1));
        let before = gone(items, reasons, k - 1);
        assert(before.push(items[k - 1]).drop_last() == before);
    }
}

/// What a wipe of the plan comes to, given for each of its entries in order
/// the reason why it stayed, or `None` where it went or was no longer there.
pub fn wipe(plan: &DataPlan, reasons: &Vec<Option<String>>) -> (r: DataOutcome)
    requires
        reasons.len() == plan.items.len(),
        file_sum(plan@.items) <= u64::MAX,
        byte_sum(plan@.items) <= u64::MAX,
    ensures
        ({
            let n = reasons@.len() as int;
            let went = gone(plan@.items, reasons@, n);
            &&& r.removed == went.len()
            &&& r.files == file_sum(went)
            &&& r.bytes == byte_sum(went)
            &&& r.failures@.map_values(|f: (FilePath, String)| (f.0@, f.1@)) == refused(
                plan@.items,
                reasons@,
                n,
            )
        }),
{
    let mut outcome = DataOutcome::default();
    let ghost all = plan@.items;
    let mut i: usize = 0;
    assert(outcome.failures@.map_values(|f: (FilePath, String)| (f.0@, f.1@)) == refused(
        all,
        reasons@,
        0,
    ));
    while i < reasons.len()
        invariant
            i <= reasons.len(),
            reasons.len() == plan.items.len(),
            all == plan@.items,
            file_sum(all) <= u64::MAX,
            byte_sum(all) <= u64::MAX,
            outcome.removed == gone(all, reasons@, i as int).len(),
            outcome.files == file_sum(gone(all, reasons@, i as int)),
            outcome.bytes == byte_sum(gone(all, reasons@, i as int)),
            outcome.failures@.map_values(|f: (FilePath, String)| (f.0@, f.1@)) == refused(
                all,
                reasons@,
                i as int,
            ),
        decreases reasons.len() - i,
    {
        let item = &plan.items[i];
        proof {
            gone_is_bounded(all, reasons@, i as int);
            gone_is_bounded(all, reasons@, i + 1);
            sums_grow(all, i + 1);
            let before = gone(all, reasons@, i as int);
            assert(before.push(all[i as int]).drop_last() == before);
            assert(all[i as int] == item@);
        }
        match &reasons[i] {
            None => {
                outcome.removed = outcome.removed + 1;
                outcome.files = outcome.files + item.files;
                outcome.bytes = outcome.bytes + item.bytes;
            },
            Some(reason) => {
                let ghost before = outcome.failures@.map_values(
                    |f: (FilePath, String)| (f.0@, f.1@),
                );
                let said = reason.clone();
                outcome.failures.push((item.path.copy(), said));
                assert(outcome.failures@.map_values(|f: (FilePath, String)| (f.0@, f.1@))
                    == before.push((item@.path, reason@)));
            },
        }
        i += 1;
    }
    outcome
}

/// A wipe accounts for every entry of its plan: what went and what refused to
/// go are together all of it.
pub proof fn wipe_accounts_for_every_entry(
    items: Seq<Item>,
    reasons: Seq<Option<String>>,
    k: int,
)
    requires
        0 <= k <= items.len(),
        reasons.len() == items.len(),
    ensures
        gone(items, reasons, k).len() + refused(items, reasons, k).len() == k,
    decreases k,
{
    if k > 0 {
        wipe_accounts_for_every_entry(items, reasons, k - 1);
    }
}

/// A size in the units the installer prints: whole kilobytes, rounded up,
/// below a megabyte, one decimal above it.
pub open spec fn size(bytes: int) -> Seq<char> {
    if bytes >= 0x4000_0000 {
        measure::one_decimal(measure::tenths(bytes, 0x4000_0000)) + " GB"@
    } else if bytes >= 0x10_0000 {
        measure::one_decimal(measure::tenths(bytes, 0x10_0000)) + " MB"@
    } else if bytes >= 1024 {
        text::decimal(((bytes + 1023) / 1024) as nat) + " KB"@
    } else {
        text::decimal(bytes as nat) + " B"@
    }
}

pub fn human_bytes(bytes: u64) -> (r: String)
    ensures
        r@ == size(bytes as int),
{
    if bytes >= 0x4000_0000 {
        let s = decimal_of(bytes, 0x4000_0000);
        cat(s.as_str(), " GB")
    } else if bytes >= 0x10_0000 {
        let s = decimal_of(bytes, 0x10_0000);
        cat(s.as_str(), " MB")
    } else if bytes >= 1024 {
        let s = number((bytes + 1023) / 1024);
        cat(s.as_str(), " KB")
    } else {
        let s = number(bytes);
        cat(s.as_str(), " B")
    }
}


/// A file count as it reads in a plan: with a plus where the walk stopped
/// short.
pub fn human_files(files: u64, truncated: bool) -> (r: String)
    ensures
        r@ == if truncated {
            text::decimal(files as nat) + "+"@
        } else {
            text::decimal(files as nat)
        },
{
    let s = number(files);
    if truncated {
        cat(s.as_str(), "+")
    } else {
        s
    }
}

} // verus!
