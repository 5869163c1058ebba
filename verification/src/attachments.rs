//! Images staged in the draft. Each of them owns a token of the form
//! `[image N]` that stands in the draft's text: the token is edited like any
//! other text, and the tray follows whatever tokens are left.

use vstd::prelude::*;
use vstd::string::*;
use crate::locale;
use crate::locale::Locale;
use crate::text;
use crate::text::{cat3, contains, number};

verus! {

/// The most images that can be staged at once.
pub const MAX_STAGED: usize = 8;

/// Preview thumbnails are numbered from here on, far above the timeline's.
pub const KITTY_ID_BASE: u32 = 0x4000_0000;

#[derive(Debug, Clone, PartialEq, Eq)]
pub struct Attachment {
    pub id: u32,
    /// The token that stands for the image in the draft. Its number is the
    /// staging number, and never changes.
    pub token: String,
    pub name: String,
    pub path: String,
    pub media_type: String,
    pub data: Vec<u8>,
}

#[verifier::ext_equal]
pub struct Image {
    pub id: u32,
    pub token: Seq<char>,
    pub name: Seq<char>,
    pub path: Seq<char>,
    pub media_type: Seq<char>,
    pub data: Seq<u8>,
}

impl View for Attachment {
    type V = Image;

    open spec fn view(&self) -> Image {
        Image {
            id: self.id,
            token: self.token@,
            name: self.name@,
            path: self.path@,
            media_type: self.media_type@,
            data: self.data@,
        }
    }
}

/// The eight bytes a PNG file begins with.
pub open spec fn png_magic() -> Seq<u8> {
    seq![0x89u8, 0x50u8, 0x4eu8, 0x47u8, 0x0du8, 0x0au8, 0x1au8, 0x0au8]
}

pub fn copy_bytes(v: &Vec<u8>) -> (r: Vec<u8>)
    ensures
        r@ == v@,
{
    let mut out: Vec<u8> = Vec::new();
    let mut i: usize = 0;
    while i < v.len()
        invariant
            i <= v.len(),
            out@ == v@.take(i as int),
        decreases v.len() - i,
    {
        out.push(v[i]);
        i += 1;
    }
    assert(v@.take(v@.len() as int) == v@);
    out
}

impl Attachment {
    /// Whether the payload is a PNG image, which is what thumbnails can show.
    pub fn is_png(&self) -> (r: bool)
        ensures
            r == png_magic().is_prefix_of(self@.data),
    {
        let d = &self.data;
        let r = d.len() >= 8 && d[0] == 0x89 && d[1] == 0x50 && d[2] == 0x4e && d[3] == 0x47 && d[4]
            == 0x0d && d[5] == 0x0a && d[6] == 0x1a && d[7] == 0x0a;
        proof {
            let m = png_magic();
            if r {
                assert(m == d@.subrange(0, 8));
            }
            if m.is_prefix_of(d@) {
                assert(d@.subrange(0, 8)[0] == m[0]);
                assert(d@.subrange(0, 8)[1] == m[1]);
                assert(d@.subrange(0, 8)[2] == m[2]);
                assert(d@.subrange(0, 8)[3] == m[3]);
                assert(d@.subrange(0, 8)[4] == m[4]);
                assert(d@.subrange(0, 8)[5] == m[5]);
                assert(d@.subrange(0, 8)[6] == m[6]);
                assert(d@.subrange(0, 8)[7] == m[7]);
            }
        }
        r
    }

    pub fn copy(&self) -> (r: Self)
        ensures
            r@ == self@,
    {
        Attachment {
            id: self.id,
            token: self.token.clone(),
            name: self.name.clone(),
            path: self.path.clone(),
            media_type: self.media_type.clone(),
            data: copy_bytes(&self.data),
        }
    }
}

pub open spec fn images(items: Seq<Attachment>) -> Seq<Image> {
    items.map_values(|a: Attachment| a@)
}

/// The staged images, in the order they were staged, and the number of the
/// last one.
#[derive(Debug, Clone, PartialEq, Eq)]
pub struct Staged {
    pub items: Vec<Attachment>,
    pub seq: u32,
}

#[verifier::ext_equal]
pub struct Tray {
    pub items: Seq<Image>,
    pub seq: u32,
}

impl View for Staged {
    type V = Tray;

    open spec fn view(&self) -> Tray {
        Tray { items: images(self.items@), seq: self.seq }
    }
}

/// The token of the `n`th staged image.
pub open spec fn token(n: u32) -> Seq<char> {
    "[image "@ + text::decimal(n as nat) + "]"@
}

/// The number after `n`.
pub open spec fn after(n: u32) -> u32 {
    if n == u32::MAX {
        0
    } else {
        (n + 1) as u32
    }
}

/// The images whose token is still in the text.
pub open spec fn kept(items: Seq<Image>, text: Seq<char>) -> Seq<Image>
    decreases items.len(),
{
    if items.len() == 0 {
        Seq::empty()
    } else if text::occurs(text, items.last().token) {
        kept(items.drop_last(), text).push(items.last())
    } else {
        kept(items.drop_last(), text)
    }
}

impl Tray {
    /// No image, and none staged yet.
    pub open spec fn fresh() -> Tray {
        Tray { items: Seq::empty(), seq: 0 }
    }

    /// The image that staging makes of the given parts.
    pub open spec fn next(
        self,
        name: Seq<char>,
        path: Seq<char>,
        media_type: Seq<char>,
        data: Seq<u8>,
    ) -> Image {
        let n = after(self.seq);
        Image {
            id: if KITTY_ID_BASE + n <= u32::MAX {
                (KITTY_ID_BASE + n) as u32
            } else {
                (KITTY_ID_BASE + n - 0x1_0000_0000) as u32
            },
            token: token(n),
            name,
            path,
            media_type,
            data,
        }
    }

    pub open spec fn staged(self, image: Image) -> Tray {
        Tray { items: self.items.push(image), seq: after(self.seq) }
    }

    pub open spec fn reconciled(self, text: Seq<char>) -> Tray {
        Tray { items: kept(self.items, text), ..self }
    }

    pub open spec fn emptied(self) -> Tray {
        Tray { items: Seq::empty(), ..self }
    }

    /// What every tray satisfies: at most as many images as fit, each with
    /// the token of its number, later ones with higher numbers, none beyond
    /// the last number given.
    pub open spec fn ok(self) -> bool {
        &&& self.items.len() <= MAX_STAGED
        &&& forall|i: int|
            0 <= i < self.items.len() ==> (#[trigger] self.items[i]).id > KITTY_ID_BASE
                && self.items[i].id <= KITTY_ID_BASE + self.seq && self.items[i].token == token(
                (self.items[i].id - KITTY_ID_BASE) as u32,
            )
        &&& forall|i: int, j: int|
            0 <= i < j < self.items.len() ==> (#[trigger] self.items[i]).id < (
            #[trigger] self.items[j]).id
    }
}

impl Default for Staged {
    fn default() -> (r: Self)
        ensures
            r@ == Tray::fresh(),
    {
        let r = Staged { items: Vec::new(), seq: 0 };
        assert(r@.items == Seq::<Image>::empty());
        r
    }
}

impl Staged {
    /// Stage one image, and give it its token. A full tray says so instead.
    pub fn add(
        &mut self,
        locale: Locale,
        name: String,
        path: String,
        media_type: String,
        data: Vec<u8>,
    ) -> (r: Result<&Attachment, &'static str>)
        ensures
            match r {
                Ok(a) => old(self)@.items.len() < MAX_STAGED && a@ == old(self)@.next(
                    name@,
                    path@,
                    media_type@,
                    data@,
                ) && final(self)@ == old(self)@.staged(a@),
                Err(full) => old(self)@.items.len() >= MAX_STAGED && final(self)@ == old(self)@
                    && full@ == locale::say(
                    locale,
                    "attachment tray is full — send or remove an [image] chip first"@,
                    "附件区已满 —— 先发送或删除一个 [image] 图片"@,
                ),
            },
    {
        if self.items.len() >= MAX_STAGED {
            return Err(
                locale.tr(
                    "attachment tray is full — send or remove an [image] chip first",
                    "附件区已满 —— 先发送或删除一个 [image] 图片",
                ),
            );
        }
        let n: u32 = self.seq.wrapping_add(1);
        self.seq = n;
        let digits = number(n as u64);
        let a = Attachment {
            id: KITTY_ID_BASE.wrapping_add(n),
            token: cat3("[image ", digits.as_str(), "]"),
            name,
            path,
            media_type,
            data,
        };
        let ghost image = a@;
        self.items.push(a);
        assert(images(self.items@) == old(self)@.items.push(image));
        let last: usize = self.items.len() - 1;
        Ok(&self.items[last])
    }

    pub fn remove(&mut self, idx: usize) -> (r: Option<Attachment>)
        ensures
            match r {
                Some(a) => idx < old(self)@.items.len() && a@ == old(self)@.items[idx as int]
                    && final(self)@ == (Tray {
                    items: old(self)@.items.remove(idx as int),
                    ..old(self)@
                }),
                None => idx >= old(self)@.items.len() && final(self)@ == old(self)@,
            },
    {
        if idx < self.items.len() {
            let a = self.items.remove(idx);
            assert(self@.items == old(self)@.items.remove(idx as int));
            Some(a)
        } else {
            None
        }
    }

    /// Drop every image whose token is no longer in the text. Tells how many
    /// were dropped.
    pub fn reconcile(&mut self, text: &str) -> (r: usize)
        ensures
            final(self)@ == old(self)@.reconciled(text@),
            r == old(self)@.items.len() - kept(old(self)@.items, text@).len(),
    {
        let ghost all = self@.items;
        let count: usize = self.items.len();
        let mut old_items: Vec<Attachment> = Vec::new();
        std::mem::swap(&mut old_items, &mut self.items);
        let mut out: Vec<Attachment> = Vec::new();
        let mut i: usize = 0;
        assert(all.take(0) == Seq::<Image>::empty());
        assert(images(out@) == Seq::<Image>::empty());
        while i < count
            invariant
                i <= count == old_items.len(),
                all == images(old_items@),
                images(out@) == kept(all.take(i as int), text@),
                out.len() <= i,
            decreases count - i,
        {
            let a = &old_items[i];
            let ghost before = images(out@);
            assert(all[i as int] == a@);
            assert(all.take(i + 1).drop_last() == all.take(i as int));
            if contains(text, a.token.as_str()) {
                out.push(a.copy());
                assert(images(out@) == before.push(a@));
            }
            i += 1;
        }
        assert(all.take(all.len() as int) == all);
        let left: usize = out.len();
        self.items = out;
        count - left
    }

    /// Drop every staged image.
    pub fn clear(&mut self)
        ensures
            final(self)@ == old(self)@.emptied(),
    {
        self.items.clear();
        assert(self@.items == Seq::<Image>::empty());
    }

    /// Hand every staged image out.
    pub fn drain(&mut self) -> (r: Vec<Attachment>)
        ensures
            images(r@) == old(self)@.items,
            final(self)@ == old(self)@.emptied(),
    {
        let mut out: Vec<Attachment> = Vec::new();
        std::mem::swap(&mut out, &mut self.items);
        assert(self@.items == Seq::<Image>::empty());
        out
    }

    pub fn len(&self) -> (r: usize)
        ensures
            r == self@.items.len(),
    {
        self.items.len()
    }

    pub fn is_empty(&self) -> (r: bool)
        ensures
            r == (self@.items.len() == 0),
    {
        self.items.len() == 0
    }

    /// The staged images, in order.
    pub fn iter(&self) -> (r: &Vec<Attachment>)
        ensures
            images(r@) == self@.items,
    {
        &self.items
    }

    pub fn get(&self, idx: usize) -> (r: Option<&Attachment>)
        ensures
            match r {
                Some(a) => idx < self@.items.len() && a@ == self@.items[idx as int],
                None => idx >= self@.items.len(),
            },
    {
        if idx < self.items.len() {
            assert(self@.items[idx as int] == self.items@[idx as int]@);
            Some(&self.items[idx])
        } else {
            None
        }
    }
}

proof fn kept_is_subsequence(items: Seq<Image>, text: Seq<char>) -> (at: Seq<int>)
    ensures
        at.len() == kept(items, text).len(),
        forall|i: int|
            0 <= i < at.len() ==> 0 <= #[trigger] at[i] < items.len() && kept(items, text)[i]
                == items[at[i]],
        forall|i: int, j: int| 0 <= i < j < at.len() ==> #[trigger] at[i] < #[trigger] at[j],
    decreases items.len(),
{
    if items.len() == 0 {
        Seq::empty()
    } else {
        let rest = kept_is_subsequence(items.drop_last(), text);
        if text::occurs(text, items.last().token) {
            rest.push(items.len() - 1)
        } else {
            rest
        }
    }
}

/// Following a text adds no image.
pub broadcast proof fn kept_len(items: Seq<Image>, text: Seq<char>)
    ensures
        (#[trigger] kept(items, text)).len() <= items.len(),
    decreases items.len(),
{
    if items.len() > 0 {
        kept_len(items.drop_last(), text);
    }
}

/// Tokens are unique and stable, and the tray is bounded: staging while there
/// is room, removing, following the text and emptying all keep it so. The
/// numbers last for as long as the preview ids do.
pub proof fn tray_stays_sound(
    tray: Tray,
    name: Seq<char>,
    path: Seq<char>,
    media_type: Seq<char>,
    data: Seq<u8>,
    idx: int,
    text: Seq<char>,
)
    requires
        tray.ok(),
        KITTY_ID_BASE + tray.seq < u32::MAX,
    ensures
        Tray::fresh().ok(),
        tray.items.len() < MAX_STAGED ==> tray.staged(
            tray.next(name, path, media_type, data),
        ).ok(),
        0 <= idx < tray.items.len() ==> (Tray { items: tray.items.remove(idx), ..tray }).ok(),
        tray.reconciled(text).ok(),
        tray.emptied().ok(),
{
    kept_len(tray.items, text);
    let at = kept_is_subsequence(tray.items, text);
    let left = tray.reconciled(text);
    assert forall|i: int, j: int| 0 <= i < j < left.items.len() implies (#[trigger] left.items[i]).id
        < (#[trigger] left.items[j]).id by {
        assert(at[i] < at[j]);
    }
    assert forall|i: int| 0 <= i < left.items.len() implies (#[trigger] left.items[i]).id
        > KITTY_ID_BASE && left.items[i].id <= KITTY_ID_BASE + left.seq && left.items[i].token
        == token((left.items[i].id - KITTY_ID_BASE) as u32) by {
        assert(left.items[i] == tray.items[at[i]]);
    }
}

/// After the tray has followed a text, every image's token is in the text.
pub proof fn reconciled_tokens_occur(items: Seq<Image>, text: Seq<char>)
    ensures
        forall|i: int|
            0 <= i < kept(items, text).len() ==> text::occurs(
                text,
                (#[trigger] kept(items, text)[i]).token,
            ),
    decreases items.len(),
{
    if items.len() > 0 {
        reconciled_tokens_occur(items.drop_last(), text);
        let rest = kept(items.drop_last(), text);
        assert forall|i: int| 0 <= i < kept(items, text).len() implies text::occurs(
            text,
            (#[trigger] kept(items, text)[i]).token,
        ) by {
            if i < rest.len() {
                assert(kept(items, text)[i] == rest[i]);
            }
        }
    }
}

} // verus!
