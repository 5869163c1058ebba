//! The interface language.

use vstd::prelude::*;
use crate::text;
use crate::text::{lowered, same, trimmed};

verus! {

/// The languages the interface speaks.
#[derive(Debug, Clone, Copy, PartialEq, Eq, Structural)]
pub enum Locale {
    En,
    Zh,
}

/// One phrase in the interface language.
pub open spec fn say(locale: Locale, en: Seq<char>, zh: Seq<char>) -> Seq<char> {
    match locale {
        Locale::En => en,
        Locale::Zh => zh,
    }
}

/// The language a word names.
pub open spec fn named(word: Seq<char>) -> Option<Locale> {
    let w = text::small(text::trim(word));
    if w == "en"@ {
        Some(Locale::En)
    } else if w == "zh"@ {
        Some(Locale::Zh)
    } else {
        None
    }
}

impl Locale {
    /// The phrase in this language.
    pub fn tr(self, en: &'static str, zh: &'static str) -> (r: &'static str)
        ensures
            r@ == say(self, en@, zh@),
    {
        match self {
            Locale::En => en,
            Locale::Zh => zh,
        }
    }

    /// The other language.
    pub fn alternate(self) -> (r: Self)
        ensures
            r != self,
    {
        match self {
            Locale::En => Locale::Zh,
            Locale::Zh => Locale::En,
        }
    }

    /// The language that `/lang`'s argument names.
    pub fn parse(arg: &str) -> (r: Option<Self>)
        ensures
            r == named(arg@),
    {
        let word = trimmed(arg);
        let word = lowered(word.as_str());
        if same(word.as_str(), "en") {
            Some(Locale::En)
        } else if same(word.as_str(), "zh") {
            Some(Locale::Zh)
        } else {
            None
        }
    }
}

} // verus!
