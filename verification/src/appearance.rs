//! The appearance: dark or light, the committed palette pack, and a pack that
//! is only tried on.

use vstd::prelude::*;
use vstd::string::*;
use crate::text;
use crate::text::same;

verus! {

#[derive(Debug, Clone, Copy, PartialEq, Eq, Structural)]
pub enum Mode {
    Dark,
    Light,
}

impl Mode {
    pub open spec fn spelled(self) -> Seq<char> {
        match self {
            Mode::Dark => "dark"@,
            Mode::Light => "light"@,
        }
    }

    pub fn as_str(self) -> (r: &'static str)
        ensures
            r@ == self.spelled(),
    {
        match self {
            Mode::Dark => "dark",
            Mode::Light => "light",
        }
    }

    /// The other mode.
    pub open spec fn other(self) -> Mode {
        match self {
            Mode::Dark => Mode::Light,
            Mode::Light => Mode::Dark,
        }
    }

    pub fn toggled(self) -> (r: Self)
        ensures
            r == self.other(),
    {
        match self {
            Mode::Dark => Mode::Light,
            Mode::Light => Mode::Dark,
        }
    }
}

/// The pack of a fresh install.
pub const DEFAULT_PACK: &'static str = "one";

/// A palette pack: its colours are the painter's affair.
#[derive(Debug, Clone, PartialEq, Eq)]
pub struct PalettePack {
    pub id: String,
    pub label: String,
}

pub open spec fn packs(v: Seq<PalettePack>) -> Seq<(Seq<char>, Seq<char>)> {
    v.map_values(|p: PalettePack| (p.id@, p.label@))
}

/// The appearance. What is painted is the committed pack, or the one that is
/// tried on.
#[derive(Debug, Clone, PartialEq, Eq)]
pub struct Appearance {
    pub mode: Mode,
    pub palettes: Vec<PalettePack>,
    /// The committed pack.
    pub active_palette_id: String,
    /// The pack under a highlight, not confirmed yet.
    pub theme_preview: Option<String>,
    /// The pack on screen.
    pub painted: String,
}

#[verifier::ext_equal]
pub struct Look {
    pub mode: Mode,
    pub palettes: Seq<(Seq<char>, Seq<char>)>,
    pub active: Seq<char>,
    pub preview: Option<Seq<char>>,
    pub painted: Seq<char>,
}

impl View for Appearance {
    type V = Look;

    open spec fn view(&self) -> Look {
        Look {
            mode: self.mode,
            palettes: packs(self.palettes@),
            active: self.active_palette_id@,
            preview: text::view_opt(self.theme_preview),
            painted: self.painted@,
        }
    }
}

/// Whether there is a pack of an id.
pub open spec fn known(palettes: Seq<(Seq<char>, Seq<char>)>, id: Seq<char>) -> bool {
    exists|i: int| 0 <= i < palettes.len() && #[trigger] palettes[i].0 == id
}

impl Look {
    /// The committed pack painted, where there is such a pack.
    pub open spec fn synced(self) -> Look {
        if known(self.palettes, self.active) {
            Look { painted: self.active, ..self }
        } else {
            self
        }
    }

    /// A pack committed, which ends any trying on.
    pub open spec fn committed(self, id: Seq<char>) -> Look {
        if known(self.palettes, id) {
            (Look { preview: None, active: id, ..self }).synced()
        } else {
            self
        }
    }

    /// The committed pack painted again.
    pub open spec fn reverted(self) -> Look {
        if self.preview is Some {
            (Look { preview: None, ..self }).synced()
        } else {
            self
        }
    }

    /// A pack tried on.
    pub open spec fn previewed(self, id: Seq<char>) -> Look {
        if self.active == id {
            self.reverted()
        } else if known(self.palettes, id) {
            Look { painted: id, preview: Some(id), ..self }
        } else {
            self
        }
    }
}

/// The appearance of a launch: the pack kept from last time where there still
/// is such a pack, else the default.
pub open spec fn launched(
    palettes: Seq<(Seq<char>, Seq<char>)>,
    mode: Mode,
    painted: Seq<char>,
    wanted: Option<Seq<char>>,
) -> Look {
    (Look {
        mode,
        palettes,
        active: if wanted is Some && known(palettes, wanted->0) {
            wanted->0
        } else {
            DEFAULT_PACK@
        },
        preview: None,
        painted,
    }).synced()
}

/// To try a pack on, and to stop trying it on, commits nothing: the committed
/// pack, the mode and the packs to choose from stay, and after a revert the
/// committed pack is on screen again.
pub proof fn preview_commits_nothing(look: Look, id: Seq<char>)
    requires
        known(look.palettes, look.active),
    ensures
        look.previewed(id).active == look.active,
        look.previewed(id).mode == look.mode,
        look.previewed(id).palettes == look.palettes,
        look.previewed(id).preview is Some ==> look.previewed(id).reverted() == look.synced().but_no_preview(),
        look.previewed(id).reverted().active == look.active,
{
    if look.active != id && known(look.palettes, id) {
        assert(look.previewed(id).reverted() == look.synced().but_no_preview());
    } else if look.preview is Some && look.active != id {
        assert(look.previewed(id).reverted() == look.synced().but_no_preview());
    }
}

impl Look {
    /// The look with nothing tried on.
    pub open spec fn but_no_preview(self) -> Look {
        Look { preview: None, ..self }
    }
}

impl Appearance {
    /// The appearance of a launch.
    pub fn new(
        palettes: Vec<PalettePack>,
        mode: Mode,
        painted: String,
        wanted: &Option<String>,
    ) -> (r: Self)
        ensures
            r@ == launched(packs(palettes@), mode, painted@, text::view_opt(*wanted)),
    {
        let mut r = Appearance {
            mode,
            palettes,
            active_palette_id: String::from_str(DEFAULT_PACK),
            theme_preview: None,
            painted,
        };
        if let Some(id) = wanted {
            if r.has(id.as_str()) {
                r.active_palette_id = id.clone();
            }
        }
        r.sync_theme_from_active();
        r
    }

    /// Whether there is a pack of an id.
    pub fn has(&self, id: &str) -> (r: bool)
        ensures
            r == known(self@.palettes, id@),
    {
        let mut i: usize = 0;
        while i < self.palettes.len()
            invariant
                i <= self.palettes.len(),
                forall|j: int| 0 <= j < i ==> #[trigger] self@.palettes[j].0 != id@,
            decreases self.palettes.len() - i,
        {
            assert(self@.palettes[i as int] == (
                self.palettes@[i as int].id@,
                self.palettes@[i as int].label@,
            ));
            if same(self.palettes[i].id.as_str(), id) {
                assert(self@.palettes[i as int].0 == id@);
                return true;
            }
            i += 1;
        }
        false
    }

    /// Paint the committed pack.
    pub fn sync_theme_from_active(&mut self)
        ensures
            final(self)@ == old(self)@.synced(),
    {
        let id = self.active_palette_id.clone();
        if self.has(id.as_str()) {
            self.painted = id;
        }
    }

    /// Commit a pack. Tells whether there is such a pack.
    pub fn commit(&mut self, id: &str) -> (r: bool)
        ensures
            final(self)@ == old(self)@.committed(id@),
            r == known(old(self)@.palettes, id@),
    {
        if !self.has(id) {
            return false;
        }
        self.theme_preview = None;
        self.active_palette_id = String::from_str(id);
        self.sync_theme_from_active();
        true
    }

    /// Stop trying a pack on. Tells whether one was tried on.
    pub fn revert(&mut self) -> (r: bool)
        ensures
            final(self)@ == old(self)@.reverted(),
            r == (old(self)@.preview is Some),
    {
        if self.theme_preview.is_none() {
            return false;
        }
        self.theme_preview = None;
        self.sync_theme_from_active();
        true
    }

    /// Try a pack on. Tells whether the screen is to change.
    pub fn preview(&mut self, id: &str) -> (r: bool)
        ensures
            final(self)@ == old(self)@.previewed(id@),
            r == if old(self)@.active == id@ {
                old(self)@.preview is Some
            } else {
                known(old(self)@.palettes, id@)
            },
    {
        if same(self.active_palette_id.as_str(), id) {
            return self.revert();
        }
        if !self.has(id) {
            return false;
        }
        self.painted = String::from_str(id);
        self.theme_preview = Some(String::from_str(id));
        true
    }
}

} // verus!
