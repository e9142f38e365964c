//! Known literal mappings, in both directions and under partial
//! configurations.

use zenhan::classify::{CharClass, Config, Direction};
use zenhan::convert::{convert, convert_chars, to_full_width, to_half_width};

fn all() -> Config {
    Config { kana: true, ascii: true, symbol: true }
}

#[test]
fn full_to_half_katakana() {
    assert_eq!(to_half_width("ア"), "ｱ");
    assert_eq!(to_half_width("カタカナ"), "ｶﾀｶﾅ");
    assert_eq!(to_half_width("アイウエオ"), "ｱｲｳｴｵ");
}

#[test]
fn full_to_half_voiced_katakana() {
    assert_eq!(to_half_width("ガギグゲゴ"), "ｶﾞｷﾞｸﾞｹﾞｺﾞ");
    assert_eq!(to_half_width("パピプペポ"), "ﾊﾟﾋﾟﾌﾟﾍﾟﾎﾟ");
    assert_eq!(to_half_width("ヴ"), "ｳﾞ");
}

#[test]
fn full_to_half_digits_and_letters() {
    assert_eq!(to_half_width("１２３ＡＢＣ"), "123ABC");
    assert_eq!(to_half_width("ａｂｃＸＹＺ０９"), "abcXYZ09");
}

#[test]
fn full_to_half_punctuation_symbol_enabled() {
    assert_eq!(to_half_width("。、！？"), "｡､!?");
    assert_eq!(to_half_width("＃？！￥"), "#?!¥");
    assert_eq!(to_half_width("「・」　"), "｢･｣ ");
}

#[test]
fn full_to_half_punctuation_symbol_disabled() {
    let cfg = Config { kana: true, ascii: true, symbol: false };
    assert_eq!(convert("。、！？", Direction::FullToHalf, cfg), "。、！？");
}

#[test]
fn half_to_full_katakana() {
    assert_eq!(to_full_width("ｱｲｳ"), "アイウ");
    assert_eq!(to_full_width("ｶﾞｷﾞｸﾞｹﾞｺﾞ"), "ガギグゲゴ");
    assert_eq!(to_full_width("ﾊﾟﾋﾟﾌﾟﾍﾟﾎﾟ"), "パピプペポ");
    assert_eq!(to_full_width("ｳﾞ"), "ヴ");
}

#[test]
fn half_to_full_letters_and_digits() {
    assert_eq!(to_full_width("abc123"), "ａｂｃ１２３");
    assert_eq!(to_full_width("ABC"), "ＡＢＣ");
}

#[test]
fn half_to_full_unpaired_voicing_mark() {
    // a mark after a base it cannot voice converts alone
    assert_eq!(to_full_width("ｱﾞｲﾞｳﾞｴﾞｵﾞ"), "ア゛イ゛ヴエ゛オ゛");
    // a mark with nothing before it converts alone
    assert_eq!(to_full_width("ﾞﾟ"), "゛゜");
}

#[test]
fn half_to_full_trailing_base() {
    // a voiceable base at the end of the string converts alone
    assert_eq!(to_full_width("ｶ"), "カ");
    assert_eq!(to_full_width("ｱｶﾞ"), "アガ");
}

#[test]
fn hiragana_passes_through() {
    assert_eq!(to_half_width("あいうえお"), "あいうえお");
    assert_eq!(to_full_width("あいうえお"), "あいうえお");
}

#[test]
fn unmapped_katakana_passes_through() {
    // these katakana have no half-width counterpart
    assert_eq!(to_half_width("ヮヰヱ"), "ヮヰヱ");
}

#[test]
fn backslash_and_straight_quotes_pass_through() {
    // the table pairs the full-width quotation marks with the curly quotes
    // and has no entry for the backslash
    assert_eq!(to_half_width("＼＂＇"), "＼＂＇");
    assert_eq!(to_full_width("\\"), "\\");
    assert_eq!(to_half_width("”’‘"), "\"'`");
}

#[test]
fn mixed_text_full_to_half() {
    assert_eq!(to_half_width("テスト１２３ＡＢＣ。"), "ﾃｽﾄ123ABC｡");
}

#[test]
fn convert_chars_matches_convert() {
    let text = "ガＡ1。ｱ";
    let chars: Vec<char> = text.chars().collect();
    let out = convert_chars(&chars, Direction::FullToHalf, all());
    let expected: Vec<char> = to_half_width(text).chars().collect();
    assert_eq!(out, expected);
}

#[test]
fn config_constructors() {
    assert_eq!(Config::all_enabled(), Config { kana: true, ascii: true, symbol: true });
    assert_eq!(Config::none_enabled(), Config { kana: false, ascii: false, symbol: false });
    assert_eq!(Config::default(), Config::all_enabled());
}

#[test]
fn classify_examples() {
    assert_eq!(zenhan::classify::classify('ア'), CharClass::Kana);
    assert_eq!(zenhan::classify::classify('ﾞ'), CharClass::Kana);
    assert_eq!(zenhan::classify::classify('Ａ'), CharClass::AsciiDigitsAndLatin);
    assert_eq!(zenhan::classify::classify('7'), CharClass::AsciiDigitsAndLatin);
    assert_eq!(zenhan::classify::classify('。'), CharClass::Symbol);
    assert_eq!(zenhan::classify::classify('　'), CharClass::Symbol);
    assert_eq!(zenhan::classify::classify('あ'), CharClass::Unclassified);
    assert_eq!(zenhan::classify::classify('😀'), CharClass::Unclassified);
}
