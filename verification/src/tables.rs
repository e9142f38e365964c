//! The static mapping tables: one bidirectional association between
//! full-width and half-width representations, written out as one spec-level
//! and one executable lookup per direction so the two directions cannot
//! drift apart.
//!
//! Single characters map to single characters; a full-width voiced or
//! semi-voiced katakana corresponds to a two-character half-width sequence,
//! its base followed by a voicing mark, and is kept in the separate
//! split/combine tables.

use vstd::prelude::*;

verus! {

/// Half-width katakana voiced sound mark (dakuten), U+FF9E.
pub const HALF_DAKUTEN: char = '\u{FF9E}';

/// Half-width katakana semi-voiced sound mark (handakuten), U+FF9F.
pub const HALF_HANDAKUTEN: char = '\u{FF9F}';

/// The single-character table, full-width to half-width: letters, digits,
/// symbols, and the katakana without a voicing mark.
pub open spec fn full_to_half_single(c: char) -> Option<char> {
    match c {
        'ａ' => Some('a'),  // U+FF41 -> U+0061
        'ｂ' => Some('b'),  // U+FF42 -> U+0062
        'ｃ' => Some('c'),  // U+FF43 -> U+0063
        'ｄ' => Some('d'),  // U+FF44 -> U+0064
        'ｅ' => Some('e'),  // U+FF45 -> U+0065
        'ｆ' => Some('f'),  // U+FF46 -> U+0066
        'ｇ' => Some('g'),  // U+FF47 -> U+0067
        'ｈ' => Some('h'),  // U+FF48 -> U+0068
        'ｉ' => Some('i'),  // U+FF49 -> U+0069
        'ｊ' => Some('j'),  // U+FF4A -> U+006A
        'ｋ' => Some('k'),  // U+FF4B -> U+006B
        'ｌ' => Some('l'),  // U+FF4C -> U+006C
        'ｍ' => Some('m'),  // U+FF4D -> U+006D
        'ｎ' => Some('n'),  // U+FF4E -> U+006E
        'ｏ' => Some('o'),  // U+FF4F -> U+006F
        'ｐ' => Some('p'),  // U+FF50 -> U+0070
        'ｑ' => Some('q'),  // U+FF51 -> U+0071
        'ｒ' => Some('r'),  // U+FF52 -> U+0072
        'ｓ' => Some('s'),  // U+FF53 -> U+0073
        'ｔ' => Some('t'),  // U+FF54 -> U+0074
        'ｕ' => Some('u'),  // U+FF55 -> U+0075
        'ｖ' => Some('v'),  // U+FF56 -> U+0076
        'ｗ' => Some('w'),  // U+FF57 -> U+0077
        'ｘ' => Some('x'),  // U+FF58 -> U+0078
        'ｙ' => Some('y'),  // U+FF59 -> U+0079
        'ｚ' => Some('z'),  // U+FF5A -> U+007A
        'Ａ' => Some('A'),  // U+FF21 -> U+0041
        'Ｂ' => Some('B'),  // U+FF22 -> U+0042
        'Ｃ' => Some('C'),  // U+FF23 -> U+0043
        'Ｄ' => Some('D'),  // U+FF24 -> U+0044
        'Ｅ' => Some('E'),  // U+FF25 -> U+0045
        'Ｆ' => Some('F'),  // U+FF26 -> U+0046
        'Ｇ' => Some('G'),  // U+FF27 -> U+0047
        'Ｈ' => Some('H'),  // U+FF28 -> U+0048
        'Ｉ' => Some('I'),  // U+FF29 -> U+0049
        'Ｊ' => Some('J'),  // U+FF2A -> U+004A
        'Ｋ' => Some('K'),  // U+FF2B -> U+004B
        'Ｌ' => Some('L'),  // U+FF2C -> U+004C
        'Ｍ' => Some('M'),  // U+FF2D -> U+004D
        'Ｎ' => Some('N'),  // U+FF2E -> U+004E
        'Ｏ' => Some('O'),  // U+FF2F -> U+004F
        'Ｐ' => Some('P'),  // U+FF30 -> U+0050
        'Ｑ' => Some('Q'),  // U+FF31 -> U+0051
        'Ｒ' => Some('R'),  // U+FF32 -> U+0052
        'Ｓ' => Some('S'),  // U+FF33 -> U+0053
        'Ｔ' => Some('T'),  // U+FF34 -> U+0054
        'Ｕ' => Some('U'),  // U+FF35 -> U+0055
        'Ｖ' => Some('V'),  // U+FF36 -> U+0056
        'Ｗ' => Some('W'),  // U+FF37 -> U+0057
        'Ｘ' => Some('X'),  // U+FF38 -> U+0058
        'Ｙ' => Some('Y'),  // U+FF39 -> U+0059
        'Ｚ' => Some('Z'),  // U+FF3A -> U+005A
        '！' => Some('!'),  // U+FF01 -> U+0021
        '”' => Some('"'),  // U+201D -> U+0022
        '＃' => Some('#'),  // U+FF03 -> U+0023
        '＄' => Some('$'),  // U+FF04 -> U+0024
        '％' => Some('%'),  // U+FF05 -> U+0025
        '＆' => Some('&'),  // U+FF06 -> U+0026
        '’' => Some('\''),  // U+2019 -> U+0027
        '（' => Some('('),  // U+FF08 -> U+0028
        '）' => Some(')'),  // U+FF09 -> U+0029
        '＊' => Some('*'),  // U+FF0A -> U+002A
        '＋' => Some('+'),  // U+FF0B -> U+002B
        '，' => Some(','),  // U+FF0C -> U+002C
        '－' => Some('-'),  // U+FF0D -> U+002D
        '．' => Some('.'),  // U+FF0E -> U+002E
        '／' => Some('/'),  // U+FF0F -> U+002F
        '：' => Some(':'),  // U+FF1A -> U+003A
        '；' => Some(';'),  // U+FF1B -> U+003B
        '＜' => Some('<'),  // U+FF1C -> U+003C
        '＝' => Some('='),  // U+FF1D -> U+003D
        '＞' => Some('>'),  // U+FF1E -> U+003E
        '？' => Some('?'),  // U+FF1F -> U+003F
        '＠' => Some('@'),  // U+FF20 -> U+0040
        '［' => Some('['),  // U+FF3B -> U+005B
        '￥' => Some('¥'),  // U+FFE5 -> U+00A5
        '］' => Some(']'),  // U+FF3D -> U+005D
        '＾' => Some('^'),  // U+FF3E -> U+005E
        '＿' => Some('_'),  // U+FF3F -> U+005F
        '‘' => Some('`'),  // U+2018 -> U+0060
        '｛' => Some('{'),  // U+FF5B -> U+007B
        '｜' => Some('|'),  // U+FF5C -> U+007C
        '｝' => Some('}'),  // U+FF5D -> U+007D
        '～' => Some('~'),  // U+FF5E -> U+007E
        '　' => Some(' '),  // U+3000 -> U+0020
        '０' => Some('0'),  // U+FF10 -> U+0030
        '１' => Some('1'),  // U+FF11 -> U+0031
        '２' => Some('2'),  // U+FF12 -> U+0032
        '３' => Some('3'),  // U+FF13 -> U+0033
        '４' => Some('4'),  // U+FF14 -> U+0034
        '５' => Some('5'),  // U+FF15 -> U+0035
        '６' => Some('6'),  // U+FF16 -> U+0036
        '７' => Some('7'),  // U+FF17 -> U+0037
        '８' => Some('8'),  // U+FF18 -> U+0038
        '９' => Some('9'),  // U+FF19 -> U+0039
        'ア' => Some('ｱ'),  // U+30A2 -> U+FF71
        'イ' => Some('ｲ'),  // U+30A4 -> U+FF72
        'ウ' => Some('ｳ'),  // U+30A6 -> U+FF73
        'エ' => Some('ｴ'),  // U+30A8 -> U+FF74
        'オ' => Some('ｵ'),  // U+30AA -> U+FF75
        'カ' => Some('ｶ'),  // U+30AB -> U+FF76
        'キ' => Some('ｷ'),  // U+30AD -> U+FF77
        'ク' => Some('ｸ'),  // U+30AF -> U+FF78
        'ケ' => Some('ｹ'),  // U+30B1 -> U+FF79
        'コ' => Some('ｺ'),  // U+30B3 -> U+FF7A
        'サ' => Some('ｻ'),  // U+30B5 -> U+FF7B
        'シ' => Some('ｼ'),  // U+30B7 -> U+FF7C
        'ス' => Some('ｽ'),  // U+30B9 -> U+FF7D
        'セ' => Some('ｾ'),  // U+30BB -> U+FF7E
        'ソ' => Some('ｿ'),  // U+30BD -> U+FF7F
        'タ' => Some('ﾀ'),  // U+30BF -> U+FF80
        'チ' => Some('ﾁ'),  // U+30C1 -> U+FF81
        'ツ' => Some('ﾂ'),  // U+30C4 -> U+FF82
        'テ' => Some('ﾃ'),  // U+30C6 -> U+FF83
        'ト' => Some('ﾄ'),  // U+30C8 -> U+FF84
        'ナ' => Some('ﾅ'),  // U+30CA -> U+FF85
        'ニ' => Some('ﾆ'),  // U+30CB -> U+FF86
        'ヌ' => Some('ﾇ'),  // U+30CC -> U+FF87
        'ネ' => Some('ﾈ'),  // U+30CD -> U+FF88
        'ノ' => Some('ﾉ'),  // U+30CE -> U+FF89
        'ハ' => Some('ﾊ'),  // U+30CF -> U+FF8A
        'ヒ' => Some('ﾋ'),  // U+30D2 -> U+FF8B
        'フ' => Some('ﾌ'),  // U+30D5 -> U+FF8C
        'ヘ' => Some('ﾍ'),  // U+30D8 -> U+FF8D
        'ホ' => Some('ﾎ'),  // U+30DB -> U+FF8E
        'マ' => Some('ﾏ'),  // U+30DE -> U+FF8F
        'ミ' => Some('ﾐ'),  // U+30DF -> U+FF90
        'ム' => Some('ﾑ'),  // U+30E0 -> U+FF91
        'メ' => Some('ﾒ'),  // U+30E1 -> U+FF92
        'モ' => Some('ﾓ'),  // U+30E2 -> U+FF93
        'ヤ' => Some('ﾔ'),  // U+30E4 -> U+FF94
        'ユ' => Some('ﾕ'),  // U+30E6 -> U+FF95
        'ヨ' => Some('ﾖ'),  // U+30E8 -> U+FF96
        'ラ' => Some('ﾗ'),  // U+30E9 -> U+FF97
        'リ' => Some('ﾘ'),  // U+30EA -> U+FF98
        'ル' => Some('ﾙ'),  // U+30EB -> U+FF99
        'レ' => Some('ﾚ'),  // U+30EC -> U+FF9A
        'ロ' => Some('ﾛ'),  // U+30ED -> U+FF9B
        'ワ' => Some('ﾜ'),  // U+30EF -> U+FF9C
        'ヲ' => Some('ｦ'),  // U+30F2 -> U+FF66
        'ン' => Some('ﾝ'),  // U+30F3 -> U+FF9D
        'ァ' => Some('ｧ'),  // U+30A1 -> U+FF67
        'ィ' => Some('ｨ'),  // U+30A3 -> U+FF68
        'ゥ' => Some('ｩ'),  // U+30A5 -> U+FF69
        'ェ' => Some('ｪ'),  // U+30A7 -> U+FF6A
        'ォ' => Some('ｫ'),  // U+30A9 -> U+FF6B
        'ッ' => Some('ｯ'),  // U+30C3 -> U+FF6F
        'ャ' => Some('ｬ'),  // U+30E3 -> U+FF6C
        'ュ' => Some('ｭ'),  // U+30E5 -> U+FF6D
        'ョ' => Some('ｮ'),  // U+30E7 -> U+FF6E
        '。' => Some('｡'),  // U+3002 -> U+FF61
        '、' => Some('､'),  // U+3001 -> U+FF64
        '・' => Some('･'),  // U+30FB -> U+FF65
        '゛' => Some('ﾞ'),  // U+309B -> U+FF9E
        '゜' => Some('ﾟ'),  // U+309C -> U+FF9F
        '「' => Some('｢'),  // U+300C -> U+FF62
        '」' => Some('｣'),  // U+300D -> U+FF63
        'ー' => Some('ｰ'),  // U+30FC -> U+FF70
        _ => None,
    }
}

/// Executable counterpart of [`full_to_half_single`].
pub fn lookup_full_to_half_single(c: char) -> (r: Option<char>)
    ensures
        r == full_to_half_single(c),
{
    match c {
        'ａ' => Some('a'),  // U+FF41 -> U+0061
        'ｂ' => Some('b'),  // U+FF42 -> U+0062
        'ｃ' => Some('c'),  // U+FF43 -> U+0063
        'ｄ' => Some('d'),  // U+FF44 -> U+0064
        'ｅ' => Some('e'),  // U+FF45 -> U+0065
        'ｆ' => Some('f'),  // U+FF46 -> U+0066
        'ｇ' => Some('g'),  // U+FF47 -> U+0067
        'ｈ' => Some('h'),  // U+FF48 -> U+0068
        'ｉ' => Some('i'),  // U+FF49 -> U+0069
        'ｊ' => Some('j'),  // U+FF4A -> U+006A
        'ｋ' => Some('k'),  // U+FF4B -> U+006B
        'ｌ' => Some('l'),  // U+FF4C -> U+006C
        'ｍ' => Some('m'),  // U+FF4D -> U+006D
        'ｎ' => Some('n'),  // U+FF4E -> U+006E
        'ｏ' => Some('o'),  // U+FF4F -> U+006F
        'ｐ' => Some('p'),  // U+FF50 -> U+0070
        'ｑ' => Some('q'),  // U+FF51 -> U+0071
        'ｒ' => Some('r'),  // U+FF52 -> U+0072
        'ｓ' => Some('s'),  // U+FF53 -> U+0073
        'ｔ' => Some('t'),  // U+FF54 -> U+0074
        'ｕ' => Some('u'),  // U+FF55 -> U+0075
        'ｖ' => Some('v'),  // U+FF56 -> U+0076
        'ｗ' => Some('w'),  // U+FF57 -> U+0077
        'ｘ' => Some('x'),  // U+FF58 -> U+0078
        'ｙ' => Some('y'),  // U+FF59 -> U+0079
        'ｚ' => Some('z'),  // U+FF5A -> U+007A
        'Ａ' => Some('A'),  // U+FF21 -> U+0041
        'Ｂ' => Some('B'),  // U+FF22 -> U+0042
        'Ｃ' => Some('C'),  // U+FF23 -> U+0043
        'Ｄ' => Some('D'),  // U+FF24 -> U+0044
        'Ｅ' => Some('E'),  // U+FF25 -> U+0045
        'Ｆ' => Some('F'),  // U+FF26 -> U+0046
        'Ｇ' => Some('G'),  // U+FF27 -> U+0047
        'Ｈ' => Some('H'),  // U+FF28 -> U+0048
        'Ｉ' => Some('I'),  // U+FF29 -> U+0049
        'Ｊ' => Some('J'),  // U+FF2A -> U+004A
        'Ｋ' => Some('K'),  // U+FF2B -> U+004B
        'Ｌ' => Some('L'),  // U+FF2C -> U+004C
        'Ｍ' => Some('M'),  // U+FF2D -> U+004D
        'Ｎ' => Some('N'),  // U+FF2E -> U+004E
        'Ｏ' => Some('O'),  // U+FF2F -> U+004F
        'Ｐ' => Some('P'),  // U+FF30 -> U+0050
        'Ｑ' => Some('Q'),  // U+FF31 -> U+0051
        'Ｒ' => Some('R'),  // U+FF32 -> U+0052
        'Ｓ' => Some('S'),  // U+FF33 -> U+0053
        'Ｔ' => Some('T'),  // U+FF34 -> U+0054
        'Ｕ' => Some('U'),  // U+FF35 -> U+0055
        'Ｖ' => Some('V'),  // U+FF36 -> U+0056
        'Ｗ' => Some('W'),  // U+FF37 -> U+0057
        'Ｘ' => Some('X'),  // U+FF38 -> U+0058
        'Ｙ' => Some('Y'),  // U+FF39 -> U+0059
        'Ｚ' => Some('Z'),  // U+FF3A -> U+005A
        '！' => Some('!'),  // U+FF01 -> U+0021
        '”' => Some('"'),  // U+201D -> U+0022
        '＃' => Some('#'),  // U+FF03 -> U+0023
        '＄' => Some('$'),  // U+FF04 -> U+0024
        '％' => Some('%'),  // U+FF05 -> U+0025
        '＆' => Some('&'),  // U+FF06 -> U+0026
        '’' => Some('\''),  // U+2019 -> U+0027
        '（' => Some('('),  // U+FF08 -> U+0028
        '）' => Some(')'),  // U+FF09 -> U+0029
        '＊' => Some('*'),  // U+FF0A -> U+002A
        '＋' => Some('+'),  // U+FF0B -> U+002B
        '，' => Some(','),  // U+FF0C -> U+002C
        '－' => Some('-'),  // U+FF0D -> U+002D
        '．' => Some('.'),  // U+FF0E -> U+002E
        '／' => Some('/'),  // U+FF0F -> U+002F
        '：' => Some(':'),  // U+FF1A -> U+003A
        '；' => Some(';'),  // U+FF1B -> U+003B
        '＜' => Some('<'),  // U+FF1C -> U+003C
        '＝' => Some('='),  // U+FF1D -> U+003D
        '＞' => Some('>'),  // U+FF1E -> U+003E
        '？' => Some('?'),  // U+FF1F -> U+003F
        '＠' => Some('@'),  // U+FF20 -> U+0040
        '［' => Some('['),  // U+FF3B -> U+005B
        '￥' => Some('¥'),  // U+FFE5 -> U+00A5
        '］' => Some(']'),  // U+FF3D -> U+005D
        '＾' => Some('^'),  // U+FF3E -> U+005E
        '＿' => Some('_'),  // U+FF3F -> U+005F
        '‘' => Some('`'),  // U+2018 -> U+0060
        '｛' => Some('{'),  // U+FF5B -> U+007B
        '｜' => Some('|'),  // U+FF5C -> U+007C
        '｝' => Some('}'),  // U+FF5D -> U+007D
        '～' => Some('~'),  // U+FF5E -> U+007E
        '　' => Some(' '),  // U+3000 -> U+0020
        '０' => Some('0'),  // U+FF10 -> U+0030
        '１' => Some('1'),  // U+FF11 -> U+0031
        '２' => Some('2'),  // U+FF12 -> U+0032
        '３' => Some('3'),  // U+FF13 -> U+0033
        '４' => Some('4'),  // U+FF14 -> U+0034
        '５' => Some('5'),  // U+FF15 -> U+0035
        '６' => Some('6'),  // U+FF16 -> U+0036
        '７' => Some('7'),  // U+FF17 -> U+0037
        '８' => Some('8'),  // U+FF18 -> U+0038
        '９' => Some('9'),  // U+FF19 -> U+0039
        'ア' => Some('ｱ'),  // U+30A2 -> U+FF71
        'イ' => Some('ｲ'),  // U+30A4 -> U+FF72
        'ウ' => Some('ｳ'),  // U+30A6 -> U+FF73
        'エ' => Some('ｴ'),  // U+30A8 -> U+FF74
        'オ' => Some('ｵ'),  // U+30AA -> U+FF75
        'カ' => Some('ｶ'),  // U+30AB -> U+FF76
        'キ' => Some('ｷ'),  // U+30AD -> U+FF77
        'ク' => Some('ｸ'),  // U+30AF -> U+FF78
        'ケ' => Some('ｹ'),  // U+30B1 -> U+FF79
        'コ' => Some('ｺ'),  // U+30B3 -> U+FF7A
        'サ' => Some('ｻ'),  // U+30B5 -> U+FF7B
        'シ' => Some('ｼ'),  // U+30B7 -> U+FF7C
        'ス' => Some('ｽ'),  // U+30B9 -> U+FF7D
        'セ' => Some('ｾ'),  // U+30BB -> U+FF7E
        'ソ' => Some('ｿ'),  // U+30BD -> U+FF7F
        'タ' => Some('ﾀ'),  // U+30BF -> U+FF80
        'チ' => Some('ﾁ'),  // U+30C1 -> U+FF81
        'ツ' => Some('ﾂ'),  // U+30C4 -> U+FF82
        'テ' => Some('ﾃ'),  // U+30C6 -> U+FF83
        'ト' => Some('ﾄ'),  // U+30C8 -> U+FF84
        'ナ' => Some('ﾅ'),  // U+30CA -> U+FF85
        'ニ' => Some('ﾆ'),  // U+30CB -> U+FF86
        'ヌ' => Some('ﾇ'),  // U+30CC -> U+FF87
        'ネ' => Some('ﾈ'),  // U+30CD -> U+FF88
        'ノ' => Some('ﾉ'),  // U+30CE -> U+FF89
        'ハ' => Some('ﾊ'),  // U+30CF -> U+FF8A
        'ヒ' => Some('ﾋ'),  // U+30D2 -> U+FF8B
        'フ' => Some('ﾌ'),  // U+30D5 -> U+FF8C
        'ヘ' => Some('ﾍ'),  // U+30D8 -> U+FF8D
        'ホ' => Some('ﾎ'),  // U+30DB -> U+FF8E
        'マ' => Some('ﾏ'),  // U+30DE -> U+FF8F
        'ミ' => Some('ﾐ'),  // U+30DF -> U+FF90
        'ム' => Some('ﾑ'),  // U+30E0 -> U+FF91
        'メ' => Some('ﾒ'),  // U+30E1 -> U+FF92
        'モ' => Some('ﾓ'),  // U+30E2 -> U+FF93
        'ヤ' => Some('ﾔ'),  // U+30E4 -> U+FF94
        'ユ' => Some('ﾕ'),  // U+30E6 -> U+FF95
        'ヨ' => Some('ﾖ'),  // U+30E8 -> U+FF96
        'ラ' => Some('ﾗ'),  // U+30E9 -> U+FF97
        'リ' => Some('ﾘ'),  // U+30EA -> U+FF98
        'ル' => Some('ﾙ'),  // U+30EB -> U+FF99
        'レ' => Some('ﾚ'),  // U+30EC -> U+FF9A
        'ロ' => Some('ﾛ'),  // U+30ED -> U+FF9B
        'ワ' => Some('ﾜ'),  // U+30EF -> U+FF9C
        'ヲ' => Some('ｦ'),  // U+30F2 -> U+FF66
        'ン' => Some('ﾝ'),  // U+30F3 -> U+FF9D
        'ァ' => Some('ｧ'),  // U+30A1 -> U+FF67
        'ィ' => Some('ｨ'),  // U+30A3 -> U+FF68
        'ゥ' => Some('ｩ'),  // U+30A5 -> U+FF69
        'ェ' => Some('ｪ'),  // U+30A7 -> U+FF6A
        'ォ' => Some('ｫ'),  // U+30A9 -> U+FF6B
        'ッ' => Some('ｯ'),  // U+30C3 -> U+FF6F
        'ャ' => Some('ｬ'),  // U+30E3 -> U+FF6C
        'ュ' => Some('ｭ'),  // U+30E5 -> U+FF6D
        'ョ' => Some('ｮ'),  // U+30E7 -> U+FF6E
        '。' => Some('｡'),  // U+3002 -> U+FF61
        '、' => Some('､'),  // U+3001 -> U+FF64
        '・' => Some('･'),  // U+30FB -> U+FF65
        '゛' => Some('ﾞ'),  // U+309B -> U+FF9E
        '゜' => Some('ﾟ'),  // U+309C -> U+FF9F
        '「' => Some('｢'),  // U+300C -> U+FF62
        '」' => Some('｣'),  // U+300D -> U+FF63
        'ー' => Some('ｰ'),  // U+30FC -> U+FF70
        _ => None,
    }
}

/// The single-character table, half-width to full-width: the exact inverse of
/// [`full_to_half_single`].
pub open spec fn half_to_full_single(c: char) -> Option<char> {
    match c {
        'a' => Some('ａ'),  // U+0061 -> U+FF41
        'b' => Some('ｂ'),  // U+0062 -> U+FF42
        'c' => Some('ｃ'),  // U+0063 -> U+FF43
        'd' => Some('ｄ'),  // U+0064 -> U+FF44
        'e' => Some('ｅ'),  // U+0065 -> U+FF45
        'f' => Some('ｆ'),  // U+0066 -> U+FF46
        'g' => Some('ｇ'),  // U+0067 -> U+FF47
        'h' => Some('ｈ'),  // U+0068 -> U+FF48
        'i' => Some('ｉ'),  // U+0069 -> U+FF49
        'j' => Some('ｊ'),  // U+006A -> U+FF4A
        'k' => Some('ｋ'),  // U+006B -> U+FF4B
        'l' => Some('ｌ'),  // U+006C -> U+FF4C
        'm' => Some('ｍ'),  // U+006D -> U+FF4D
        'n' => Some('ｎ'),  // U+006E -> U+FF4E
        'o' => Some('ｏ'),  // U+006F -> U+FF4F
        'p' => Some('ｐ'),  // U+0070 -> U+FF50
        'q' => Some('ｑ'),  // U+0071 -> U+FF51
        'r' => Some('ｒ'),  // U+0072 -> U+FF52
        's' => Some('ｓ'),  // U+0073 -> U+FF53
        't' => Some('ｔ'),  // U+0074 -> U+FF54
        'u' => Some('ｕ'),  // U+0075 -> U+FF55
        'v' => Some('ｖ'),  // U+0076 -> U+FF56
        'w' => Some('ｗ'),  // U+0077 -> U+FF57
        'x' => Some('ｘ'),  // U+0078 -> U+FF58
        'y' => Some('ｙ'),  // U+0079 -> U+FF59
        'z' => Some('ｚ'),  // U+007A -> U+FF5A
        'A' => Some('Ａ'),  // U+0041 -> U+FF21
        'B' => Some('Ｂ'),  // U+0042 -> U+FF22
        'C' => Some('Ｃ'),  // U+0043 -> U+FF23
        'D' => Some('Ｄ'),  // U+0044 -> U+FF24
        'E' => Some('Ｅ'),  // U+0045 -> U+FF25
        'F' => Some('Ｆ'),  // U+0046 -> U+FF26
        'G' => Some('Ｇ'),  // U+0047 -> U+FF27
        'H' => Some('Ｈ'),  // U+0048 -> U+FF28
        'I' => Some('Ｉ'),  // U+0049 -> U+FF29
        'J' => Some('Ｊ'),  // U+004A -> U+FF2A
        'K' => Some('Ｋ'),  // U+004B -> U+FF2B
        'L' => Some('Ｌ'),  // U+004C -> U+FF2C
        'M' => Some('Ｍ'),  // U+004D -> U+FF2D
        'N' => Some('Ｎ'),  // U+004E -> U+FF2E
        'O' => Some('Ｏ'),  // U+004F -> U+FF2F
        'P' => Some('Ｐ'),  // U+0050 -> U+FF30
        'Q' => Some('Ｑ'),  // U+0051 -> U+FF31
        'R' => Some('Ｒ'),  // U+0052 -> U+FF32
        'S' => Some('Ｓ'),  // U+0053 -> U+FF33
        'T' => Some('Ｔ'),  // U+0054 -> U+FF34
        'U' => Some('Ｕ'),  // U+0055 -> U+FF35
        'V' => Some('Ｖ'),  // U+0056 -> U+FF36
        'W' => Some('Ｗ'),  // U+0057 -> U+FF37
        'X' => Some('Ｘ'),  // U+0058 -> U+FF38
        'Y' => Some('Ｙ'),  // U+0059 -> U+FF39
        'Z' => Some('Ｚ'),  // U+005A -> U+FF3A
        '!' => Some('！'),  // U+0021 -> U+FF01
        '"' => Some('”'),  // U+0022 -> U+201D
        '#' => Some('＃'),  // U+0023 -> U+FF03
        '$' => Some('＄'),  // U+0024 -> U+FF04
        '%' => Some('％'),  // U+0025 -> U+FF05
        '&' => Some('＆'),  // U+0026 -> U+FF06
        '\'' => Some('’'),  // U+0027 -> U+2019
        '(' => Some('（'),  // U+0028 -> U+FF08
        ')' => Some('）'),  // U+0029 -> U+FF09
        '*' => Some('＊'),  // U+002A -> U+FF0A
        '+' => Some('＋'),  // U+002B -> U+FF0B
        ',' => Some('，'),  // U+002C -> U+FF0C
        '-' => Some('－'),  // U+002D -> U+FF0D
        '.' => Some('．'),  // U+002E -> U+FF0E
        '/' => Some('／'),  // U+002F -> U+FF0F
        ':' => Some('：'),  // U+003A -> U+FF1A
        ';' => Some('；'),  // U+003B -> U+FF1B
        '<' => Some('＜'),  // U+003C -> U+FF1C
        '=' => Some('＝'),  // U+003D -> U+FF1D
        '>' => Some('＞'),  // U+003E -> U+FF1E
        '?' => Some('？'),  // U+003F -> U+FF1F
        '@' => Some('＠'),  // U+0040 -> U+FF20
        '[' => Some('［'),  // U+005B -> U+FF3B
        '¥' => Some('￥'),  // U+00A5 -> U+FFE5
        ']' => Some('］'),  // U+005D -> U+FF3D
        '^' => Some('＾'),  // U+005E -> U+FF3E
        '_' => Some('＿'),  // U+005F -> U+FF3F
        '`' => Some('‘'),  // U+0060 -> U+2018
        '{' => Some('｛'),  // U+007B -> U+FF5B
        '|' => Some('｜'),  // U+007C -> U+FF5C
        '}' => Some('｝'),  // U+007D -> U+FF5D
        '~' => Some('～'),  // U+007E -> U+FF5E
        ' ' => Some('　'),  // U+0020 -> U+3000
        '0' => Some('０'),  // U+0030 -> U+FF10
        '1' => Some('１'),  // U+0031 -> U+FF11
        '2' => Some('２'),  // U+0032 -> U+FF12
        '3' => Some('３'),  // U+0033 -> U+FF13
        '4' => Some('４'),  // U+0034 -> U+FF14
        '5' => Some('５'),  // U+0035 -> U+FF15
        '6' => Some('６'),  // U+0036 -> U+FF16
        '7' => Some('７'),  // U+0037 -> U+FF17
        '8' => Some('８'),  // U+0038 -> U+FF18
        '9' => Some('９'),  // U+0039 -> U+FF19
        'ｱ' => Some('ア'),  // U+FF71 -> U+30A2
        'ｲ' => Some('イ'),  // U+FF72 -> U+30A4
        'ｳ' => Some('ウ'),  // U+FF73 -> U+30A6
        'ｴ' => Some('エ'),  // U+FF74 -> U+30A8
        'ｵ' => Some('オ'),  // U+FF75 -> U+30AA
        'ｶ' => Some('カ'),  // U+FF76 -> U+30AB
        'ｷ' => Some('キ'),  // U+FF77 -> U+30AD
        'ｸ' => Some('ク'),  // U+FF78 -> U+30AF
        'ｹ' => Some('ケ'),  // U+FF79 -> U+30B1
        'ｺ' => Some('コ'),  // U+FF7A -> U+30B3
        'ｻ' => Some('サ'),  // U+FF7B -> U+30B5
        'ｼ' => Some('シ'),  // U+FF7C -> U+30B7
        'ｽ' => Some('ス'),  // U+FF7D -> U+30B9
        'ｾ' => Some('セ'),  // U+FF7E -> U+30BB
        'ｿ' => Some('ソ'),  // U+FF7F -> U+30BD
        'ﾀ' => Some('タ'),  // U+FF80 -> U+30BF
        'ﾁ' => Some('チ'),  // U+FF81 -> U+30C1
        'ﾂ' => Some('ツ'),  // U+FF82 -> U+30C4
        'ﾃ' => Some('テ'),  // U+FF83 -> U+30C6
        'ﾄ' => Some('ト'),  // U+FF84 -> U+30C8
        'ﾅ' => Some('ナ'),  // U+FF85 -> U+30CA
        'ﾆ' => Some('ニ'),  // U+FF86 -> U+30CB
        'ﾇ' => Some('ヌ'),  // U+FF87 -> U+30CC
        'ﾈ' => Some('ネ'),  // U+FF88 -> U+30CD
        'ﾉ' => Some('ノ'),  // U+FF89 -> U+30CE
        'ﾊ' => Some('ハ'),  // U+FF8A -> U+30CF
        'ﾋ' => Some('ヒ'),  // U+FF8B -> U+30D2
        'ﾌ' => Some('フ'),  // U+FF8C -> U+30D5
        'ﾍ' => Some('ヘ'),  // U+FF8D -> U+30D8
        'ﾎ' => Some('ホ'),  // U+FF8E -> U+30DB
        'ﾏ' => Some('マ'),  // U+FF8F -> U+30DE
        'ﾐ' => Some('ミ'),  // U+FF90 -> U+30DF
        'ﾑ' => Some('ム'),  // U+FF91 -> U+30E0
        'ﾒ' => Some('メ'),  // U+FF92 -> U+30E1
        'ﾓ' => Some('モ'),  // U+FF93 -> U+30E2
        'ﾔ' => Some('ヤ'),  // U+FF94 -> U+30E4
        'ﾕ' => Some('ユ'),  // U+FF95 -> U+30E6
        'ﾖ' => Some('ヨ'),  // U+FF96 -> U+30E8
        'ﾗ' => Some('ラ'),  // U+FF97 -> U+30E9
        'ﾘ' => Some('リ'),  // U+FF98 -> U+30EA
        'ﾙ' => Some('ル'),  // U+FF99 -> U+30EB
        'ﾚ' => Some('レ'),  // U+FF9A -> U+30EC
        'ﾛ' => Some('ロ'),  // U+FF9B -> U+30ED
        'ﾜ' => Some('ワ'),  // U+FF9C -> U+30EF
        'ｦ' => Some('ヲ'),  // U+FF66 -> U+30F2
        'ﾝ' => Some('ン'),  // U+FF9D -> U+30F3
        'ｧ' => Some('ァ'),  // U+FF67 -> U+30A1
        'ｨ' => Some('ィ'),  // U+FF68 -> U+30A3
        'ｩ' => Some('ゥ'),  // U+FF69 -> U+30A5
        'ｪ' => Some('ェ'),  // U+FF6A -> U+30A7
        'ｫ' => Some('ォ'),  // U+FF6B -> U+30A9
        'ｯ' => Some('ッ'),  // U+FF6F -> U+30C3
        'ｬ' => Some('ャ'),  // U+FF6C -> U+30E3
        'ｭ' => Some('ュ'),  // U+FF6D -> U+30E5
        'ｮ' => Some('ョ'),  // U+FF6E -> U+30E7
        '｡' => Some('。'),  // U+FF61 -> U+3002
        '､' => Some('、'),  // U+FF64 -> U+3001
        '･' => Some('・'),  // U+FF65 -> U+30FB
        'ﾞ' => Some('゛'),  // U+FF9E -> U+309B
        'ﾟ' => Some('゜'),  // U+FF9F -> U+309C
        '｢' => Some('「'),  // U+FF62 -> U+300C
        '｣' => Some('」'),  // U+FF63 -> U+300D
        'ｰ' => Some('ー'),  // U+FF70 -> U+30FC
        _ => None,
    }
}

/// Executable counterpart of [`half_to_full_single`].
pub fn lookup_half_to_full_single(c: char) -> (r: Option<char>)
    ensures
        r == half_to_full_single(c),
{
    match c {
        'a' => Some('ａ'),  // U+0061 -> U+FF41
        'b' => Some('ｂ'),  // U+0062 -> U+FF42
        'c' => Some('ｃ'),  // U+0063 -> U+FF43
        'd' => Some('ｄ'),  // U+0064 -> U+FF44
        'e' => Some('ｅ'),  // U+0065 -> U+FF45
        'f' => Some('ｆ'),  // U+0066 -> U+FF46
        'g' => Some('ｇ'),  // U+0067 -> U+FF47
        'h' => Some('ｈ'),  // U+0068 -> U+FF48
        'i' => Some('ｉ'),  // U+0069 -> U+FF49
        'j' => Some('ｊ'),  // U+006A -> U+FF4A
        'k' => Some('ｋ'),  // U+006B -> U+FF4B
        'l' => Some('ｌ'),  // U+006C -> U+FF4C
        'm' => Some('ｍ'),  // U+006D -> U+FF4D
        'n' => Some('ｎ'),  // U+006E -> U+FF4E
        'o' => Some('ｏ'),  // U+006F -> U+FF4F
        'p' => Some('ｐ'),  // U+0070 -> U+FF50
        'q' => Some('ｑ'),  // U+0071 -> U+FF51
        'r' => Some('ｒ'),  // U+0072 -> U+FF52
        's' => Some('ｓ'),  // U+0073 -> U+FF53
        't' => Some('ｔ'),  // U+0074 -> U+FF54
        'u' => Some('ｕ'),  // U+0075 -> U+FF55
        'v' => Some('ｖ'),  // U+0076 -> U+FF56
        'w' => Some('ｗ'),  // U+0077 -> U+FF57
        'x' => Some('ｘ'),  // U+0078 -> U+FF58
        'y' => Some('ｙ'),  // U+0079 -> U+FF59
        'z' => Some('ｚ'),  // U+007A -> U+FF5A
        'A' => Some('Ａ'),  // U+0041 -> U+FF21
        'B' => Some('Ｂ'),  // U+0042 -> U+FF22
        'C' => Some('Ｃ'),  // U+0043 -> U+FF23
        'D' => Some('Ｄ'),  // U+0044 -> U+FF24
        'E' => Some('Ｅ'),  // U+0045 -> U+FF25
        'F' => Some('Ｆ'),  // U+0046 -> U+FF26
        'G' => Some('Ｇ'),  // U+0047 -> U+FF27
        'H' => Some('Ｈ'),  // U+0048 -> U+FF28
        'I' => Some('Ｉ'),  // U+0049 -> U+FF29
        'J' => Some('Ｊ'),  // U+004A -> U+FF2A
        'K' => Some('Ｋ'),  // U+004B -> U+FF2B
        'L' => Some('Ｌ'),  // U+004C -> U+FF2C
        'M' => Some('Ｍ'),  // U+004D -> U+FF2D
        'N' => Some('Ｎ'),  // U+004E -> U+FF2E
        'O' => Some('Ｏ'),  // U+004F -> U+FF2F
        'P' => Some('Ｐ'),  // U+0050 -> U+FF30
        'Q' => Some('Ｑ'),  // U+0051 -> U+FF31
        'R' => Some('Ｒ'),  // U+0052 -> U+FF32
        'S' => Some('Ｓ'),  // U+0053 -> U+FF33
        'T' => Some('Ｔ'),  // U+0054 -> U+FF34
        'U' => Some('Ｕ'),  // U+0055 -> U+FF35
        'V' => Some('Ｖ'),  // U+0056 -> U+FF36
        'W' => Some('Ｗ'),  // U+0057 -> U+FF37
        'X' => Some('Ｘ'),  // U+0058 -> U+FF38
        'Y' => Some('Ｙ'),  // U+0059 -> U+FF39
        'Z' => Some('Ｚ'),  // U+005A -> U+FF3A
        '!' => Some('！'),  // U+0021 -> U+FF01
        '"' => Some('”'),  // U+0022 -> U+201D
        '#' => Some('＃'),  // U+0023 -> U+FF03
        '$' => Some('＄'),  // U+0024 -> U+FF04
        '%' => Some('％'),  // U+0025 -> U+FF05
        '&' => Some('＆'),  // U+0026 -> U+FF06
        '\'' => Some('’'),  // U+0027 -> U+2019
        '(' => Some('（'),  // U+0028 -> U+FF08
        ')' => Some('）'),  // U+0029 -> U+FF09
        '*' => Some('＊'),  // U+002A -> U+FF0A
        '+' => Some('＋'),  // U+002B -> U+FF0B
        ',' => Some('，'),  // U+002C -> U+FF0C
        '-' => Some('－'),  // U+002D -> U+FF0D
        '.' => Some('．'),  // U+002E -> U+FF0E
        '/' => Some('／'),  // U+002F -> U+FF0F
        ':' => Some('：'),  // U+003A -> U+FF1A
        ';' => Some('；'),  // U+003B -> U+FF1B
        '<' => Some('＜'),  // U+003C -> U+FF1C
        '=' => Some('＝'),  // U+003D -> U+FF1D
        '>' => Some('＞'),  // U+003E -> U+FF1E
        '?' => Some('？'),  // U+003F -> U+FF1F
        '@' => Some('＠'),  // U+0040 -> U+FF20
        '[' => Some('［'),  // U+005B -> U+FF3B
        '¥' => Some('￥'),  // U+00A5 -> U+FFE5
        ']' => Some('］'),  // U+005D -> U+FF3D
        '^' => Some('＾'),  // U+005E -> U+FF3E
        '_' => Some('＿'),  // U+005F -> U+FF3F
        '`' => Some('‘'),  // U+0060 -> U+2018
        '{' => Some('｛'),  // U+007B -> U+FF5B
        '|' => Some('｜'),  // U+007C -> U+FF5C
        '}' => Some('｝'),  // U+007D -> U+FF5D
        '~' => Some('～'),  // U+007E -> U+FF5E
        ' ' => Some('　'),  // U+0020 -> U+3000
        '0' => Some('０'),  // U+0030 -> U+FF10
        '1' => Some('１'),  // U+0031 -> U+FF11
        '2' => Some('２'),  // U+0032 -> U+FF12
        '3' => Some('３'),  // U+0033 -> U+FF13
        '4' => Some('４'),  // U+0034 -> U+FF14
        '5' => Some('５'),  // U+0035 -> U+FF15
        '6' => Some('６'),  // U+0036 -> U+FF16
        '7' => Some('７'),  // U+0037 -> U+FF17
        '8' => Some('８'),  // U+0038 -> U+FF18
        '9' => Some('９'),  // U+0039 -> U+FF19
        'ｱ' => Some('ア'),  // U+FF71 -> U+30A2
        'ｲ' => Some('イ'),  // U+FF72 -> U+30A4
        'ｳ' => Some('ウ'),  // U+FF73 -> U+30A6
        'ｴ' => Some('エ'),  // U+FF74 -> U+30A8
        'ｵ' => Some('オ'),  // U+FF75 -> U+30AA
        'ｶ' => Some('カ'),  // U+FF76 -> U+30AB
        'ｷ' => Some('キ'),  // U+FF77 -> U+30AD
        'ｸ' => Some('ク'),  // U+FF78 -> U+30AF
        'ｹ' => Some('ケ'),  // U+FF79 -> U+30B1
        'ｺ' => Some('コ'),  // U+FF7A -> U+30B3
        'ｻ' => Some('サ'),  // U+FF7B -> U+30B5
        'ｼ' => Some('シ'),  // U+FF7C -> U+30B7
        'ｽ' => Some('ス'),  // U+FF7D -> U+30B9
        'ｾ' => Some('セ'),  // U+FF7E -> U+30BB
        'ｿ' => Some('ソ'),  // U+FF7F -> U+30BD
        'ﾀ' => Some('タ'),  // U+FF80 -> U+30BF
        'ﾁ' => Some('チ'),  // U+FF81 -> U+30C1
        'ﾂ' => Some('ツ'),  // U+FF82 -> U+30C4
        'ﾃ' => Some('テ'),  // U+FF83 -> U+30C6
        'ﾄ' => Some('ト'),  // U+FF84 -> U+30C8
        'ﾅ' => Some('ナ'),  // U+FF85 -> U+30CA
        'ﾆ' => Some('ニ'),  // U+FF86 -> U+30CB
        'ﾇ' => Some('ヌ'),  // U+FF87 -> U+30CC
        'ﾈ' => Some('ネ'),  // U+FF88 -> U+30CD
        'ﾉ' => Some('ノ'),  // U+FF89 -> U+30CE
        'ﾊ' => Some('ハ'),  // U+FF8A -> U+30CF
        'ﾋ' => Some('ヒ'),  // U+FF8B -> U+30D2
        'ﾌ' => Some('フ'),  // U+FF8C -> U+30D5
        'ﾍ' => Some('ヘ'),  // U+FF8D -> U+30D8
        'ﾎ' => Some('ホ'),  // U+FF8E -> U+30DB
        'ﾏ' => Some('マ'),  // U+FF8F -> U+30DE
        'ﾐ' => Some('ミ'),  // U+FF90 -> U+30DF
        'ﾑ' => Some('ム'),  // U+FF91 -> U+30E0
        'ﾒ' => Some('メ'),  // U+FF92 -> U+30E1
        'ﾓ' => Some('モ'),  // U+FF93 -> U+30E2
        'ﾔ' => Some('ヤ'),  // U+FF94 -> U+30E4
        'ﾕ' => Some('ユ'),  // U+FF95 -> U+30E6
        'ﾖ' => Some('ヨ'),  // U+FF96 -> U+30E8
        'ﾗ' => Some('ラ'),  // U+FF97 -> U+30E9
        'ﾘ' => Some('リ'),  // U+FF98 -> U+30EA
        'ﾙ' => Some('ル'),  // U+FF99 -> U+30EB
        'ﾚ' => Some('レ'),  // U+FF9A -> U+30EC
        'ﾛ' => Some('ロ'),  // U+FF9B -> U+30ED
        'ﾜ' => Some('ワ'),  // U+FF9C -> U+30EF
        'ｦ' => Some('ヲ'),  // U+FF66 -> U+30F2
        'ﾝ' => Some('ン'),  // U+FF9D -> U+30F3
        'ｧ' => Some('ァ'),  // U+FF67 -> U+30A1
        'ｨ' => Some('ィ'),  // U+FF68 -> U+30A3
        'ｩ' => Some('ゥ'),  // U+FF69 -> U+30A5
        'ｪ' => Some('ェ'),  // U+FF6A -> U+30A7
        'ｫ' => Some('ォ'),  // U+FF6B -> U+30A9
        'ｯ' => Some('ッ'),  // U+FF6F -> U+30C3
        'ｬ' => Some('ャ'),  // U+FF6C -> U+30E3
        'ｭ' => Some('ュ'),  // U+FF6D -> U+30E5
        'ｮ' => Some('ョ'),  // U+FF6E -> U+30E7
        '｡' => Some('。'),  // U+FF61 -> U+3002
        '､' => Some('、'),  // U+FF64 -> U+3001
        '･' => Some('・'),  // U+FF65 -> U+30FB
        'ﾞ' => Some('゛'),  // U+FF9E -> U+309B
        'ﾟ' => Some('゜'),  // U+FF9F -> U+309C
        '｢' => Some('「'),  // U+FF62 -> U+300C
        '｣' => Some('」'),  // U+FF63 -> U+300D
        'ｰ' => Some('ー'),  // U+FF70 -> U+30FC
        _ => None,
    }
}

/// The half-width base of a full-width voiced katakana; the half-width form is
/// the base followed by [`HALF_DAKUTEN`].
pub open spec fn split_voiced(c: char) -> Option<char> {
    match c {
        'ガ' => Some('ｶ'),  // U+30AC -> U+FF76
        'ギ' => Some('ｷ'),  // U+30AE -> U+FF77
        'グ' => Some('ｸ'),  // U+30B0 -> U+FF78
        'ゲ' => Some('ｹ'),  // U+30B2 -> U+FF79
        'ゴ' => Some('ｺ'),  // U+30B4 -> U+FF7A
        'ザ' => Some('ｻ'),  // U+30B6 -> U+FF7B
        'ジ' => Some('ｼ'),  // U+30B8 -> U+FF7C
        'ズ' => Some('ｽ'),  // U+30BA -> U+FF7D
        'ゼ' => Some('ｾ'),  // U+30BC -> U+FF7E
        'ゾ' => Some('ｿ'),  // U+30BE -> U+FF7F
        'ダ' => Some('ﾀ'),  // U+30C0 -> U+FF80
        'ヂ' => Some('ﾁ'),  // U+30C2 -> U+FF81
        'ヅ' => Some('ﾂ'),  // U+30C5 -> U+FF82
        'デ' => Some('ﾃ'),  // U+30C7 -> U+FF83
        'ド' => Some('ﾄ'),  // U+30C9 -> U+FF84
        'バ' => Some('ﾊ'),  // U+30D0 -> U+FF8A
        'ビ' => Some('ﾋ'),  // U+30D3 -> U+FF8B
        'ブ' => Some('ﾌ'),  // U+30D6 -> U+FF8C
        'ベ' => Some('ﾍ'),  // U+30D9 -> U+FF8D
        'ボ' => Some('ﾎ'),  // U+30DC -> U+FF8E
        'ヴ' => Some('ｳ'),  // U+30F4 -> U+FF73
        _ => None,
    }
}

/// Executable counterpart of [`split_voiced`].
pub fn lookup_split_voiced(c: char) -> (r: Option<char>)
    ensures
        r == split_voiced(c),
{
    match c {
        'ガ' => Some('ｶ'),  // U+30AC -> U+FF76
        'ギ' => Some('ｷ'),  // U+30AE -> U+FF77
        'グ' => Some('ｸ'),  // U+30B0 -> U+FF78
        'ゲ' => Some('ｹ'),  // U+30B2 -> U+FF79
        'ゴ' => Some('ｺ'),  // U+30B4 -> U+FF7A
        'ザ' => Some('ｻ'),  // U+30B6 -> U+FF7B
        'ジ' => Some('ｼ'),  // U+30B8 -> U+FF7C
        'ズ' => Some('ｽ'),  // U+30BA -> U+FF7D
        'ゼ' => Some('ｾ'),  // U+30BC -> U+FF7E
        'ゾ' => Some('ｿ'),  // U+30BE -> U+FF7F
        'ダ' => Some('ﾀ'),  // U+30C0 -> U+FF80
        'ヂ' => Some('ﾁ'),  // U+30C2 -> U+FF81
        'ヅ' => Some('ﾂ'),  // U+30C5 -> U+FF82
        'デ' => Some('ﾃ'),  // U+30C7 -> U+FF83
        'ド' => Some('ﾄ'),  // U+30C9 -> U+FF84
        'バ' => Some('ﾊ'),  // U+30D0 -> U+FF8A
        'ビ' => Some('ﾋ'),  // U+30D3 -> U+FF8B
        'ブ' => Some('ﾌ'),  // U+30D6 -> U+FF8C
        'ベ' => Some('ﾍ'),  // U+30D9 -> U+FF8D
        'ボ' => Some('ﾎ'),  // U+30DC -> U+FF8E
        'ヴ' => Some('ｳ'),  // U+30F4 -> U+FF73
        _ => None,
    }
}

/// The half-width base of a full-width semi-voiced katakana; the half-width
/// form is the base followed by [`HALF_HANDAKUTEN`].
pub open spec fn split_semivoiced(c: char) -> Option<char> {
    match c {
        'パ' => Some('ﾊ'),  // U+30D1 -> U+FF8A
        'ピ' => Some('ﾋ'),  // U+30D4 -> U+FF8B
        'プ' => Some('ﾌ'),  // U+30D7 -> U+FF8C
        'ペ' => Some('ﾍ'),  // U+30DA -> U+FF8D
        'ポ' => Some('ﾎ'),  // U+30DD -> U+FF8E
        _ => None,
    }
}

/// Executable counterpart of [`split_semivoiced`].
pub fn lookup_split_semivoiced(c: char) -> (r: Option<char>)
    ensures
        r == split_semivoiced(c),
{
    match c {
        'パ' => Some('ﾊ'),  // U+30D1 -> U+FF8A
        'ピ' => Some('ﾋ'),  // U+30D4 -> U+FF8B
        'プ' => Some('ﾌ'),  // U+30D7 -> U+FF8C
        'ペ' => Some('ﾍ'),  // U+30DA -> U+FF8D
        'ポ' => Some('ﾎ'),  // U+30DD -> U+FF8E
        _ => None,
    }
}

/// The full-width voiced katakana formed by a half-width base followed by
/// [`HALF_DAKUTEN`]; the exact inverse of [`split_voiced`].
pub open spec fn combine_voiced(c: char) -> Option<char> {
    match c {
        'ｶ' => Some('ガ'),  // U+FF76 -> U+30AC
        'ｷ' => Some('ギ'),  // U+FF77 -> U+30AE
        'ｸ' => Some('グ'),  // U+FF78 -> U+30B0
        'ｹ' => Some('ゲ'),  // U+FF79 -> U+30B2
        'ｺ' => Some('ゴ'),  // U+FF7A -> U+30B4
        'ｻ' => Some('ザ'),  // U+FF7B -> U+30B6
        'ｼ' => Some('ジ'),  // U+FF7C -> U+30B8
        'ｽ' => Some('ズ'),  // U+FF7D -> U+30BA
        'ｾ' => Some('ゼ'),  // U+FF7E -> U+30BC
        'ｿ' => Some('ゾ'),  // U+FF7F -> U+30BE
        'ﾀ' => Some('ダ'),  // U+FF80 -> U+30C0
        'ﾁ' => Some('ヂ'),  // U+FF81 -> U+30C2
        'ﾂ' => Some('ヅ'),  // U+FF82 -> U+30C5
        'ﾃ' => Some('デ'),  // U+FF83 -> U+30C7
        'ﾄ' => Some('ド'),  // U+FF84 -> U+30C9
        'ﾊ' => Some('バ'),  // U+FF8A -> U+30D0
        'ﾋ' => Some('ビ'),  // U+FF8B -> U+30D3
        'ﾌ' => Some('ブ'),  // U+FF8C -> U+30D6
        'ﾍ' => Some('ベ'),  // U+FF8D -> U+30D9
        'ﾎ' => Some('ボ'),  // U+FF8E -> U+30DC
        'ｳ' => Some('ヴ'),  // U+FF73 -> U+30F4
        _ => None,
    }
}

/// Executable counterpart of [`combine_voiced`].
pub fn lookup_combine_voiced(c: char) -> (r: Option<char>)
    ensures
        r == combine_voiced(c),
{
    match c {
        'ｶ' => Some('ガ'),  // U+FF76 -> U+30AC
        'ｷ' => Some('ギ'),  // U+FF77 -> U+30AE
        'ｸ' => Some('グ'),  // U+FF78 -> U+30B0
        'ｹ' => Some('ゲ'),  // U+FF79 -> U+30B2
        'ｺ' => Some('ゴ'),  // U+FF7A -> U+30B4
        'ｻ' => Some('ザ'),  // U+FF7B -> U+30B6
        'ｼ' => Some('ジ'),  // U+FF7C -> U+30B8
        'ｽ' => Some('ズ'),  // U+FF7D -> U+30BA
        'ｾ' => Some('ゼ'),  // U+FF7E -> U+30BC
        'ｿ' => Some('ゾ'),  // U+FF7F -> U+30BE
        'ﾀ' => Some('ダ'),  // U+FF80 -> U+30C0
        'ﾁ' => Some('ヂ'),  // U+FF81 -> U+30C2
        'ﾂ' => Some('ヅ'),  // U+FF82 -> U+30C5
        'ﾃ' => Some('デ'),  // U+FF83 -> U+30C7
        'ﾄ' => Some('ド'),  // U+FF84 -> U+30C9
        'ﾊ' => Some('バ'),  // U+FF8A -> U+30D0
        'ﾋ' => Some('ビ'),  // U+FF8B -> U+30D3
        'ﾌ' => Some('ブ'),  // U+FF8C -> U+30D6
        'ﾍ' => Some('ベ'),  // U+FF8D -> U+30D9
        'ﾎ' => Some('ボ'),  // U+FF8E -> U+30DC
        'ｳ' => Some('ヴ'),  // U+FF73 -> U+30F4
        _ => None,
    }
}

/// The full-width semi-voiced katakana formed by a half-width base followed by
/// [`HALF_HANDAKUTEN`]; the exact inverse of [`split_semivoiced`].
pub open spec fn combine_semivoiced(c: char) -> Option<char> {
    match c {
        'ﾊ' => Some('パ'),  // U+FF8A -> U+30D1
        'ﾋ' => Some('ピ'),  // U+FF8B -> U+30D4
        'ﾌ' => Some('プ'),  // U+FF8C -> U+30D7
        'ﾍ' => Some('ペ'),  // U+FF8D -> U+30DA
        'ﾎ' => Some('ポ'),  // U+FF8E -> U+30DD
        _ => None,
    }
}

/// Executable counterpart of [`combine_semivoiced`].
pub fn lookup_combine_semivoiced(c: char) -> (r: Option<char>)
    ensures
        r == combine_semivoiced(c),
{
    match c {
        'ﾊ' => Some('パ'),  // U+FF8A -> U+30D1
        'ﾋ' => Some('ピ'),  // U+FF8B -> U+30D4
        'ﾌ' => Some('プ'),  // U+FF8C -> U+30D7
        'ﾍ' => Some('ペ'),  // U+FF8D -> U+30DA
        'ﾎ' => Some('ポ'),  // U+FF8E -> U+30DD
        _ => None,
    }
}

} // verus!
