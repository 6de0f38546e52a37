//! Shared watch settings (number base and language). The
//! runtime keeps one [`Settings`] for all apps.
use vstd::prelude::*;

verus! {

pub const BASE_DEC: u8 = 0;
pub const BASE_HEX: u8 = 1;
pub const BASE_BIN: u8 = 2;

pub const LANG_EN: u8 = 0;
pub const LANG_DE: u8 = 1;
pub const LANG_FR: u8 = 2;

/// The number bases the time face can show the time in.
pub const BASE_CHOICES: [&'static str; 3] = ["de", "he", "bi"];

/// The weekday languages.
pub const LANG_CHOICES: [&'static str; 3] = ["en", "de", "fr"];

/// The number base and the weekday language, each one of three choices.
#[derive(Clone, Copy, Debug, PartialEq, Eq, Structural)]
pub struct Settings {
    base: u8,
    lang: u8,
}

impl Settings {
    /// The number base ([`BASE_DEC`], [`BASE_HEX`] or [`BASE_BIN`]).
    pub closed spec fn spec_base(self) -> u8 {
        self.base
    }

    /// The weekday language ([`LANG_EN`], [`LANG_DE`] or [`LANG_FR`]).
    pub closed spec fn spec_lang(self) -> u8 {
        self.lang
    }

    /// Decimal, English.
    pub open spec fn spec_default() -> Settings {
        Settings::new_spec(BASE_DEC, LANG_EN)
    }

    /// The settings with the given base and language.
    pub closed spec fn new_spec(base: u8, lang: u8) -> Settings {
        Settings { base, lang }
    }

    /// Settings are equal when their base and language are.
    pub proof fn lemma_ext(a: Settings, b: Settings)
        requires
            a.spec_base() == b.spec_base(),
            a.spec_lang() == b.spec_lang(),
        ensures
            a == b,
    {
    }

    /// The parts of [`Settings::new_spec`].
    pub proof fn lemma_new_spec(base: u8, lang: u8)
        ensures
            Settings::new_spec(base, lang).spec_base() == base,
            Settings::new_spec(base, lang).spec_lang() == lang,
    {
    }

    /// Decimal, English.
    pub fn new() -> (s: Settings)
        ensures
            s == Settings::spec_default(),
            s.spec_base() == BASE_DEC,
            s.spec_lang() == LANG_EN,
    {
        Settings { base: BASE_DEC, lang: LANG_EN }
    }

    pub fn base(&self) -> (b: u8)
        ensures
            b == self.spec_base(),
    {
        self.base
    }

    /// Choose the number base; values wrap around the three choices.
    pub fn set_base(&mut self, base: u8)
        ensures
            final(self).spec_base() == base % 3,
            final(self).spec_lang() == old(self).spec_lang(),
    {
        self.base = base % 3;
    }

    pub fn lang(&self) -> (l: u8)
        ensures
            l == self.spec_lang(),
    {
        self.lang
    }

    /// Choose the weekday language; values wrap around the three choices.
    pub fn set_lang(&mut self, lang: u8)
        ensures
            final(self).spec_lang() == lang % 3,
            final(self).spec_base() == old(self).spec_base(),
    {
        self.lang = lang % 3;
    }
}

} // verus!
