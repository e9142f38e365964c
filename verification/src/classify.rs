//! Character classes, the conversion direction, and the per-class
//! configuration toggles.

use vstd::prelude::*;

verus! {

/// The class a character belongs to for the purpose of width conversion.
///
/// A character participates in conversion only when the flag of its class is
/// enabled; a character of no class (`Unclassified`) never participates.
#[derive(Clone, Copy, Debug, PartialEq, Eq, Structural)]
pub enum CharClass {
    /// Katakana (both widths), including voiced forms and the voicing marks,
    /// and the prolonged sound mark.
    Kana,
    /// Latin letters and decimal digits, in both widths.
    AsciiDigitsAndLatin,
    /// Punctuation and other symbols with a counterpart in the other width,
    /// including the ideographic space and the half-width kana punctuation.
    Symbol,
    /// Everything else; such characters always pass through unchanged.
    Unclassified,
}

/// The direction of a conversion.
#[derive(Clone, Copy, Debug, PartialEq, Eq, Structural)]
pub enum Direction {
    /// Rewrite full-width characters into their half-width counterparts.
    FullToHalf,
    /// Rewrite half-width characters into their full-width counterparts.
    HalfToFull,
}

/// Which character classes participate in a conversion.
///
/// All eight flag combinations are legal; each flag independently enables the
/// class of the same name.
#[derive(Clone, Copy, Debug, PartialEq, Eq, Structural)]
pub struct Config {
    /// Convert characters of class `Kana`.
    pub kana: bool,
    /// Convert characters of class `AsciiDigitsAndLatin`.
    pub ascii: bool,
    /// Convert characters of class `Symbol`.
    pub symbol: bool,
}

impl Config {
    /// Whether characters of class `k` participate in conversion under this
    /// configuration.  `Unclassified` characters never do.
    pub open spec fn converts(self, k: CharClass) -> bool {
        match k {
            CharClass::Kana => self.kana,
            CharClass::AsciiDigitsAndLatin => self.ascii,
            CharClass::Symbol => self.symbol,
            CharClass::Unclassified => false,
        }
    }

    /// Executable counterpart of [`Config::converts`].
    pub fn converts_class(&self, k: CharClass) -> (r: bool)
        ensures
            r == self.converts(k),
    {
        match k {
            CharClass::Kana => self.kana,
            CharClass::AsciiDigitsAndLatin => self.ascii,
            CharClass::Symbol => self.symbol,
            CharClass::Unclassified => false,
        }
    }

    /// A configuration with every class enabled.
    pub fn all_enabled() -> (r: Config)
        ensures
            r == (Config { kana: true, ascii: true, symbol: true }),
    {
        Config { kana: true, ascii: true, symbol: true }
    }

    /// A configuration with every class disabled.
    pub fn none_enabled() -> (r: Config)
        ensures
            r == (Config { kana: false, ascii: false, symbol: false }),
    {
        Config { kana: false, ascii: false, symbol: false }
    }
}

impl Default for Config {
    /// Every class defaults to "convert".
    fn default() -> (r: Config)
        ensures
            r == (Config { kana: true, ascii: true, symbol: true }),
    {
        Config { kana: true, ascii: true, symbol: true }
    }
}

/// Code points of Latin letters and decimal digits, half- and full-width.
pub open spec fn is_latin_digit_cp(u: u32) -> bool {
    ||| (0x30 <= u && u <= 0x39)  // 0-9
    ||| (0x41 <= u && u <= 0x5A)  // A-Z
    ||| (0x61 <= u && u <= 0x7A)  // a-z
    ||| (0xFF10 <= u && u <= 0xFF19)  // full-width 0-9
    ||| (0xFF21 <= u && u <= 0xFF3A)  // full-width A-Z
    ||| (0xFF41 <= u && u <= 0xFF5A)  // full-width a-z
}

/// Code points of class `Kana`: the katakana with a counterpart in the other
/// width, the voicing marks, and the prolonged sound mark.
pub open spec fn is_kana_cp(u: u32) -> bool {
    ||| (0x30A1 <= u && u <= 0x30F4 && u != 0x30EE && u != 0x30F0 && u != 0x30F1)
    ||| u == 0x309B  // full-width dakuten
    ||| u == 0x309C  // full-width handakuten
    ||| u == 0x30FC  // prolonged sound mark
    ||| (0xFF66 <= u && u <= 0xFF9F)  // half-width katakana block
}

/// Code points of class `Symbol`: punctuation and symbols with a counterpart
/// in the other width, in both widths.
pub open spec fn is_symbol_cp(u: u32) -> bool {
    ||| (0x20 <= u && u <= 0x2F)  // space and ASCII punctuation
    ||| (0x3A <= u && u <= 0x40)
    ||| u == 0x5B || u == 0x5D || u == 0x5E || u == 0x5F || u == 0x60
    ||| (0x7B <= u && u <= 0x7E)
    ||| u == 0xA5  // yen sign
    ||| u == 0x2018 || u == 0x2019 || u == 0x201D  // quotation marks
    ||| (0x3000 <= u && u <= 0x3002)  // ideographic space, comma, full stop
    ||| u == 0x300C || u == 0x300D  // corner brackets
    ||| u == 0x30FB  // middle dot
    ||| (0xFF01 <= u && u <= 0xFF0F && u != 0xFF02 && u != 0xFF07)
    ||| (0xFF1A <= u && u <= 0xFF20)
    ||| u == 0xFF3B || (0xFF3D <= u && u <= 0xFF3F)
    ||| (0xFF5B <= u && u <= 0xFF5E)
    ||| u == 0xFFE5  // full-width yen sign
    ||| (0xFF61 <= u && u <= 0xFF65)  // half-width kana punctuation
}

/// The class of a character.
pub open spec fn class_of(c: char) -> CharClass {
    if is_latin_digit_cp(c as u32) {
        CharClass::AsciiDigitsAndLatin
    } else if is_kana_cp(c as u32) {
        CharClass::Kana
    } else if is_symbol_cp(c as u32) {
        CharClass::Symbol
    } else {
        CharClass::Unclassified
    }
}

/// Executable counterpart of [`class_of`].
pub fn classify(c: char) -> (r: CharClass)
    ensures
        r == class_of(c),
{
    let u: u32 = c as u32;
    if (0x30 <= u && u <= 0x39) || (0x41 <= u && u <= 0x5A) || (0x61 <= u && u <= 0x7A)
        || (0xFF10 <= u && u <= 0xFF19) || (0xFF21 <= u && u <= 0xFF3A)
        || (0xFF41 <= u && u <= 0xFF5A) {
        CharClass::AsciiDigitsAndLatin
    } else if (0x30A1 <= u && u <= 0x30F4 && u != 0x30EE && u != 0x30F0 && u != 0x30F1)
        || u == 0x309B || u == 0x309C || u == 0x30FC || (0xFF66 <= u && u <= 0xFF9F) {
        CharClass::Kana
    } else if (0x20 <= u && u <= 0x2F) || (0x3A <= u && u <= 0x40)
        || u == 0x5B || u == 0x5D || u == 0x5E || u == 0x5F || u == 0x60
        || (0x7B <= u && u <= 0x7E) || u == 0xA5
        || u == 0x2018 || u == 0x2019 || u == 0x201D
        || (0x3000 <= u && u <= 0x3002) || u == 0x300C || u == 0x300D || u == 0x30FB
        || (0xFF01 <= u && u <= 0xFF0F && u != 0xFF02 && u != 0xFF07)
        || (0xFF1A <= u && u <= 0xFF20)
        || u == 0xFF3B || (0xFF3D <= u && u <= 0xFF3F)
        || (0xFF5B <= u && u <= 0xFF5E)
        || u == 0xFFE5 || (0xFF61 <= u && u <= 0xFF65) {
        CharClass::Symbol
    } else {
        CharClass::Unclassified
    }
}

} // verus!
