//! Concrete instances of the converter's general laws, and a comparison
//! against an independent implementation of the same table.

use zenhan::classify::{Config, Direction};
use zenhan::convert::{convert, to_full_width, to_half_width};

const SAMPLES: [&str; 10] = [
    "",
    "カタカナ",
    "ガギグゲゴパピプペポヴ",
    "１２３ＡＢＣａｂｃ",
    "。、！？「・」ー　",
    "ｱｲｳｦｶﾞﾊﾟﾞﾟ",
    "abc 123 ~^[]{}|;:@`",
    "あいうえお漢字ヮヰヱ",
    "😀\u{7}\u{378}e\u{301}",
    "ミックスNo.７：ｶﾞｰﾙ＆BOY￥¥",
];

#[test]
fn identity_when_all_classes_disabled() {
    let none = Config { kana: false, ascii: false, symbol: false };
    for s in SAMPLES {
        assert_eq!(convert(s, Direction::FullToHalf, none), s);
        assert_eq!(convert(s, Direction::HalfToFull, none), s);
    }
}

#[test]
fn full_to_half_is_idempotent() {
    for s in SAMPLES {
        let once = to_half_width(s);
        assert_eq!(to_half_width(&once), once);
    }
    // an already-half-width string admits no further collapsing
    assert_eq!(to_half_width("ｶﾞｷﾞ abc 123 ｡､"), "ｶﾞｷﾞ abc 123 ｡､");
}

#[test]
fn class_scoping_literal_case() {
    let only_ascii = Config { kana: false, ascii: true, symbol: false };
    // the full-width space is of the symbol class and stays untouched
    assert_eq!(convert("ABC　123", Direction::FullToHalf, only_ascii), "ABC　123");
    assert_eq!(convert("１２３", Direction::FullToHalf, only_ascii), "123");
    assert_eq!(convert("Ａ　１ア。", Direction::FullToHalf, only_ascii), "A　1ア。");
    let only_kana = Config { kana: true, ascii: false, symbol: false };
    assert_eq!(convert("ア１。", Direction::FullToHalf, only_kana), "ｱ１。");
    let only_symbol = Config { kana: false, ascii: false, symbol: true };
    assert_eq!(convert("ア１。", Direction::FullToHalf, only_symbol), "ア１｡");
}

#[test]
fn kana_flag_gates_pair_collapsing() {
    let no_kana = Config { kana: false, ascii: true, symbol: true };
    assert_eq!(convert("ｶﾞ", Direction::HalfToFull, no_kana), "ｶﾞ");
    assert_eq!(convert("ガ", Direction::FullToHalf, no_kana), "ガ");
}

#[test]
fn empty_input_stays_empty() {
    for kana in [false, true] {
        for ascii in [false, true] {
            for symbol in [false, true] {
                let cfg = Config { kana, ascii, symbol };
                assert_eq!(convert("", Direction::FullToHalf, cfg), "");
                assert_eq!(convert("", Direction::HalfToFull, cfg), "");
            }
        }
    }
}

#[test]
fn conversion_is_deterministic() {
    for s in SAMPLES {
        for direction in [Direction::FullToHalf, Direction::HalfToFull] {
            let first = convert(s, direction, Config::all_enabled());
            let second = convert(s, direction, Config::all_enabled());
            assert_eq!(first, second);
            assert_eq!(first.as_bytes(), second.as_bytes());
        }
    }
}

#[test]
fn arbitrary_unicode_passes_through() {
    // emoji, control characters, an unassigned code point, a combining mark
    let strange = "😀🎌\u{0}\u{7}\u{378}\u{301}\u{10FFFF}";
    assert_eq!(to_half_width(strange), strange);
    assert_eq!(to_full_width(strange), strange);
}

#[test]
fn matches_mojimoji_with_all_classes_enabled() {
    for s in SAMPLES {
        assert_eq!(
            convert(s, Direction::FullToHalf, Config::all_enabled()),
            mojimoji_rs::zen_to_han(s.to_string(), true, true, true),
            "full-to-half of {s:?}"
        );
        assert_eq!(
            convert(s, Direction::HalfToFull, Config::all_enabled()),
            mojimoji_rs::han_to_zen(s.to_string(), true, true, true),
            "half-to-full of {s:?}"
        );
    }
}

#[test]
fn matches_mojimoji_over_the_whole_table() {
    // every character either implementation might map, alone and in pairs
    let mut domain: Vec<char> = Vec::new();
    for u in 0x20..=0x7Eu32 {
        domain.push(char::from_u32(u).unwrap());
    }
    domain.push('¥');
    for u in 0x3000..=0x3002u32 {
        domain.push(char::from_u32(u).unwrap());
    }
    for u in 0x30A1..=0x30FCu32 {
        domain.push(char::from_u32(u).unwrap());
    }
    for u in 0xFF01..=0xFF9Fu32 {
        domain.push(char::from_u32(u).unwrap());
    }
    domain.push('￥');
    domain.extend(['‘', '’', '”', '「', '」', '゛', '゜']);
    let text: String = domain.iter().collect();
    assert_eq!(
        convert(&text, Direction::FullToHalf, Config::all_enabled()),
        mojimoji_rs::zen_to_han(text.clone(), true, true, true),
    );
    assert_eq!(
        convert(&text, Direction::HalfToFull, Config::all_enabled()),
        mojimoji_rs::han_to_zen(text.clone(), true, true, true),
    );
    // and each character followed by each voicing mark
    for &c in &domain {
        for mark in ['ﾞ', 'ﾟ'] {
            let pair: String = [c, mark].iter().collect();
            assert_eq!(
                convert(&pair, Direction::HalfToFull, Config::all_enabled()),
                mojimoji_rs::han_to_zen(pair.clone(), true, true, true),
                "half-to-full of {pair:?}"
            );
        }
    }
}
