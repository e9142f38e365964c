//! The general laws of the converter, proved once over every input:
//! identity when every class is disabled, idempotence of the full-to-half
//! direction, scoping of the conversion to the enabled classes, and the
//! bidirectional consistency of the mapping table.

use vstd::prelude::*;

use crate::classify::{class_of, CharClass, Config, Direction};
use crate::convert::{
    combine_pair, convert_spec, full_to_half_char, full_to_half_seq, half_to_full_char,
    half_to_full_seq,
};
use crate::tables::{
    combine_semivoiced, combine_voiced, full_to_half_single, half_to_full_single,
    split_semivoiced, split_voiced, HALF_DAKUTEN, HALF_HANDAKUTEN,
};

verus! {

/// Code points on the half-width side of the table: everything the
/// full-to-half direction can emit lies here, and nothing here is in the
/// domain of the full-to-half table.
spec fn half_side(c: char) -> bool {
    (c as u32) <= 0xFF || (0xFF61 <= c as u32 && c as u32 <= 0xFF9F)
}

/// Every character the full-to-half table can emit is on the half-width side.
proof fn lemma_full_to_half_output_half_side(c: char)
    ensures
        full_to_half_single(c) is Some ==> half_side(full_to_half_single(c)->0),
        split_voiced(c) is Some ==> half_side(split_voiced(c)->0),
        split_semivoiced(c) is Some ==> half_side(split_semivoiced(c)->0),
{
}

/// No character on the half-width side is in the domain of the full-to-half
/// table.
proof fn lemma_half_side_unmapped(c: char)
    requires
        half_side(c),
    ensures
        full_to_half_single(c) is None,
        split_voiced(c) is None,
        split_semivoiced(c) is None,
{
}

/// Unfolds the full-to-half conversion of a one-character sequence.
proof fn lemma_full_to_half_seq_singleton(c: char, cfg: Config)
    ensures
        full_to_half_seq(seq![c], cfg) == full_to_half_char(c, cfg),
{
    let s = seq![c];
    assert(s.drop_first() =~= Seq::<char>::empty());
    assert(full_to_half_seq(Seq::<char>::empty(), cfg) == Seq::<char>::empty());
    assert(full_to_half_seq(s, cfg) == full_to_half_char(c, cfg) + Seq::<char>::empty());
    assert(full_to_half_char(c, cfg) + Seq::<char>::empty() =~= full_to_half_char(c, cfg));
}

/// Unfolds the full-to-half conversion of a two-character sequence.
proof fn lemma_full_to_half_seq_two(x: char, y: char, cfg: Config)
    ensures
        full_to_half_seq(seq![x, y], cfg) == full_to_half_char(x, cfg) + full_to_half_char(
            y,
            cfg,
        ),
{
    let s = seq![x, y];
    assert(s.drop_first() =~= seq![y]);
    lemma_full_to_half_seq_singleton(y, cfg);
    assert(full_to_half_seq(s, cfg) == full_to_half_char(x, cfg) + full_to_half_seq(
        seq![y],
        cfg,
    ));
}

/// Unfolds the half-to-full conversion of a one-character sequence.
proof fn lemma_half_to_full_seq_singleton(c: char, cfg: Config)
    ensures
        half_to_full_seq(seq![c], cfg) == half_to_full_char(c, cfg),
{
    let s = seq![c];
    assert(s.drop_first() =~= Seq::<char>::empty());
    assert(half_to_full_seq(Seq::<char>::empty(), cfg) == Seq::<char>::empty());
    assert(half_to_full_seq(s, cfg) == half_to_full_char(c, cfg) + Seq::<char>::empty());
    assert(half_to_full_char(c, cfg) + Seq::<char>::empty() =~= half_to_full_char(c, cfg));
}

/// A single character's full-to-half conversion is itself unchanged by a
/// second full-to-half pass under the same configuration.
proof fn lemma_full_to_half_char_fixed(c: char, cfg: Config)
    ensures
        full_to_half_seq(full_to_half_char(c, cfg), cfg) == full_to_half_char(c, cfg),
{
    lemma_full_to_half_output_half_side(c);
    let r = full_to_half_char(c, cfg);
    if cfg.converts(class_of(c)) && full_to_half_single(c) is Some {
        let h = full_to_half_single(c)->0;
        lemma_half_side_unmapped(h);
        assert(r == seq![h]);
        assert(full_to_half_char(h, cfg) == seq![h]);
        lemma_full_to_half_seq_singleton(h, cfg);
    } else if cfg.converts(class_of(c)) && split_voiced(c) is Some {
        let b = split_voiced(c)->0;
        lemma_half_side_unmapped(b);
        lemma_half_side_unmapped(HALF_DAKUTEN);
        assert(r == seq![b, HALF_DAKUTEN]);
        assert(full_to_half_char(b, cfg) == seq![b]);
        assert(full_to_half_char(HALF_DAKUTEN, cfg) == seq![HALF_DAKUTEN]);
        lemma_full_to_half_seq_two(b, HALF_DAKUTEN, cfg);
        assert(seq![b] + seq![HALF_DAKUTEN] =~= r);
    } else if cfg.converts(class_of(c)) && split_semivoiced(c) is Some {
        let b = split_semivoiced(c)->0;
        lemma_half_side_unmapped(b);
        lemma_half_side_unmapped(HALF_HANDAKUTEN);
        assert(r == seq![b, HALF_HANDAKUTEN]);
        assert(full_to_half_char(b, cfg) == seq![b]);
        assert(full_to_half_char(HALF_HANDAKUTEN, cfg) == seq![HALF_HANDAKUTEN]);
        lemma_full_to_half_seq_two(b, HALF_HANDAKUTEN, cfg);
        assert(seq![b] + seq![HALF_HANDAKUTEN] =~= r);
    } else {
        assert(r == seq![c]);
        lemma_full_to_half_seq_singleton(c, cfg);
    }
}

/// Full-to-half conversion distributes over concatenation: the conversion of
/// `a + b` is the conversion of `a` followed by the conversion of `b`.
pub proof fn lemma_full_to_half_append(a: Seq<char>, b: Seq<char>, cfg: Config)
    ensures
        full_to_half_seq(a + b, cfg) == full_to_half_seq(a, cfg) + full_to_half_seq(b, cfg),
    decreases a.len(),
{
    if a.len() == 0 {
        assert(a + b =~= b);
        assert(full_to_half_seq(a, cfg) + full_to_half_seq(b, cfg) =~= full_to_half_seq(b, cfg));
    } else {
        assert((a + b)[0] == a[0]);
        assert((a + b).drop_first() =~= a.drop_first() + b);
        lemma_full_to_half_append(a.drop_first(), b, cfg);
        assert(full_to_half_seq(a + b, cfg) =~= full_to_half_seq(a, cfg) + full_to_half_seq(
            b,
            cfg,
        ));
    }
}

/// Converting a sequence full-to-half a second time, under the same
/// configuration, changes nothing: in particular an already-half-width
/// string admits no further collapsing.
pub proof fn lemma_full_to_half_idempotent(s: Seq<char>, cfg: Config)
    ensures
        full_to_half_seq(full_to_half_seq(s, cfg), cfg) == full_to_half_seq(s, cfg),
    decreases s.len(),
{
    if s.len() > 0 {
        let u = full_to_half_char(s[0], cfg);
        let rest = full_to_half_seq(s.drop_first(), cfg);
        lemma_full_to_half_append(u, rest, cfg);
        lemma_full_to_half_char_fixed(s[0], cfg);
        lemma_full_to_half_idempotent(s.drop_first(), cfg);
    }
}

/// When no character of `s` is of an enabled class, full-to-half conversion
/// is the identity.
proof fn lemma_full_to_half_no_enabled_chars(s: Seq<char>, cfg: Config)
    requires
        forall|i: int| 0 <= i < s.len() ==> !cfg.converts(class_of(s[i])),
    ensures
        full_to_half_seq(s, cfg) == s,
    decreases s.len(),
{
    if s.len() > 0 {
        assert forall|i: int| 0 <= i < s.drop_first().len() implies !cfg.converts(
            class_of(s.drop_first()[i]),
        ) by {
            assert(s.drop_first()[i] == s[i + 1]);
        }
        lemma_full_to_half_no_enabled_chars(s.drop_first(), cfg);
        assert(full_to_half_char(s[0], cfg) == seq![s[0]]);
        assert(seq![s[0]] + s.drop_first() =~= s);
    }
}

/// When no character of `s` is of an enabled class, half-to-full conversion
/// is the identity.
proof fn lemma_half_to_full_no_enabled_chars(s: Seq<char>, cfg: Config)
    requires
        forall|i: int| 0 <= i < s.len() ==> !cfg.converts(class_of(s[i])),
    ensures
        half_to_full_seq(s, cfg) == s,
    decreases s.len(),
{
    if s.len() > 0 {
        assert forall|i: int| 0 <= i < s.drop_first().len() implies !cfg.converts(
            class_of(s.drop_first()[i]),
        ) by {
            assert(s.drop_first()[i] == s[i + 1]);
        }
        lemma_half_to_full_no_enabled_chars(s.drop_first(), cfg);
        if s.len() >= 2 && cfg.kana && combine_pair(s[0], s[1]) is Some {
            lemma_combine_pair_classes(s[0], s[1]);
            assert(false);
        }
        assert(half_to_full_char(s[0], cfg) == seq![s[0]]);
        assert(seq![s[0]] + s.drop_first() =~= s);
    }
}

/// When no character of `s` is of an enabled class, conversion is the
/// identity in both directions.
pub proof fn lemma_no_enabled_chars_is_identity(s: Seq<char>, direction: Direction, cfg: Config)
    requires
        forall|i: int| 0 <= i < s.len() ==> !cfg.converts(class_of(s[i])),
    ensures
        convert_spec(s, direction, cfg) == s,
{
    lemma_full_to_half_no_enabled_chars(s, cfg);
    lemma_half_to_full_no_enabled_chars(s, cfg);
}

/// With every class disabled, conversion is the identity in both directions,
/// on every input.
pub proof fn lemma_all_disabled_is_identity(s: Seq<char>, direction: Direction)
    ensures
        convert_spec(s, direction, (Config { kana: false, ascii: false, symbol: false })) == s,
{
    lemma_no_enabled_chars_is_identity(
        s,
        direction,
        Config { kana: false, ascii: false, symbol: false },
    );
}

/// A sequence of unclassified characters passes through unchanged in either
/// direction, whatever the configuration: the converter never alters what
/// the table does not know.
pub proof fn lemma_unclassified_passthrough(s: Seq<char>, direction: Direction, cfg: Config)
    requires
        forall|i: int| 0 <= i < s.len() ==> class_of(s[i]) == CharClass::Unclassified,
    ensures
        convert_spec(s, direction, cfg) == s,
{
    lemma_no_enabled_chars_is_identity(s, direction, cfg);
}

/// The empty sequence converts to the empty sequence, in either direction and
/// under any configuration.
pub proof fn lemma_empty_input(direction: Direction, cfg: Config)
    ensures
        convert_spec(Seq::<char>::empty(), direction, cfg) == Seq::<char>::empty(),
{
}

/// A pair only combines when both its characters are of class `Kana`.
proof fn lemma_combine_pair_classes(b: char, m: char)
    ensures
        combine_pair(b, m) is Some ==> class_of(b) == CharClass::Kana && class_of(m)
            == CharClass::Kana,
{
}

/// Half-to-full conversion distributes over concatenation whenever no voiced
/// pair straddles the boundary.
pub proof fn lemma_half_to_full_append(a: Seq<char>, b: Seq<char>, cfg: Config)
    requires
        a.len() == 0 || b.len() == 0 || !cfg.kana || combine_pair(a.last(), b.first()) is None,
    ensures
        half_to_full_seq(a + b, cfg) == half_to_full_seq(a, cfg) + half_to_full_seq(b, cfg),
    decreases a.len(),
{
    if a.len() == 0 {
        assert(a + b =~= b);
        assert(half_to_full_seq(a, cfg) + half_to_full_seq(b, cfg) =~= half_to_full_seq(b, cfg));
    } else if b.len() == 0 {
        assert(a + b =~= a);
        assert(half_to_full_seq(a, cfg) + half_to_full_seq(b, cfg) =~= half_to_full_seq(a, cfg));
    } else if a.len() == 1 {
        assert((a + b)[0] == a[0]);
        assert((a + b)[1] == b[0]);
        assert(a[0] == a.last() && b[0] == b.first());
        assert(!((a + b).len() >= 2 && cfg.kana && combine_pair((a + b)[0], (a + b)[1]) is Some));
        assert((a + b).drop_first() =~= b);
        lemma_half_to_full_seq_singleton(a[0], cfg);
        assert(seq![a[0]] =~= a);
        assert(half_to_full_seq(a + b, cfg) =~= half_to_full_seq(a, cfg) + half_to_full_seq(
            b,
            cfg,
        ));
    } else {
        assert((a + b)[0] == a[0]);
        assert((a + b)[1] == a[1]);
        if cfg.kana && combine_pair(a[0], a[1]) is Some {
            assert((a + b).skip(2) =~= a.skip(2) + b);
            assert(a.skip(2).len() > 0 ==> a.skip(2).last() == a.last());
            lemma_half_to_full_append(a.skip(2), b, cfg);
            assert(half_to_full_seq(a + b, cfg) =~= half_to_full_seq(a, cfg) + half_to_full_seq(
                b,
                cfg,
            ));
        } else {
            assert((a + b).drop_first() =~= a.drop_first() + b);
            assert(a.drop_first().last() == a.last());
            lemma_half_to_full_append(a.drop_first(), b, cfg);
            assert(half_to_full_seq(a + b, cfg) =~= half_to_full_seq(a, cfg) + half_to_full_seq(
                b,
                cfg,
            ));
        }
    }
}

/// Class scoping: a character whose class is disabled is never altered, even
/// when the characters around it are converted.  The conversion of the whole
/// sequence is the conversion of what precedes the character, then the
/// character itself unchanged, then the conversion of what follows it.
pub proof fn lemma_class_scoping(s: Seq<char>, i: int, direction: Direction, cfg: Config)
    requires
        0 <= i < s.len(),
        !cfg.converts(class_of(s[i])),
    ensures
        convert_spec(s, direction, cfg) == convert_spec(s.take(i), direction, cfg) + seq![s[i]]
            + convert_spec(s.skip(i + 1), direction, cfg),
{
    let a = s.take(i);
    let m = seq![s[i]];
    let b = s.skip(i + 1);
    assert(s =~= a + m + b);
    match direction {
        Direction::FullToHalf => {
            lemma_full_to_half_append(a + m, b, cfg);
            lemma_full_to_half_append(a, m, cfg);
            lemma_full_to_half_seq_singleton(s[i], cfg);
            assert(full_to_half_char(s[i], cfg) == m);
        },
        Direction::HalfToFull => {
            assert((m + b).first() == s[i]);
            assert(a.len() == 0 || !cfg.kana || combine_pair(a.last(), (m + b).first())
                is None) by {
                if a.len() > 0 && cfg.kana && combine_pair(a.last(), s[i]) is Some {
                    lemma_combine_pair_classes(a.last(), s[i]);
                }
            }
            lemma_half_to_full_append(a, m + b, cfg);
            assert(b.len() == 0 || !cfg.kana || combine_pair(m.last(), b.first()) is None) by {
                if b.len() > 0 && cfg.kana && combine_pair(s[i], b.first()) is Some {
                    lemma_combine_pair_classes(s[i], b.first());
                }
            }
            lemma_half_to_full_append(m, b, cfg);
            lemma_half_to_full_seq_singleton(s[i], cfg);
            assert(half_to_full_char(s[i], cfg) == m);
            assert(half_to_full_seq(a + m + b, cfg) =~= half_to_full_seq(a + (m + b), cfg)) by {
                assert(a + m + b =~= a + (m + b));
            }
        },
    }
}

/// The two directions of the table are consistent with each other: a single
/// character maps full-to-half exactly to the character that maps back to it
/// half-to-full, and a voiced or semi-voiced katakana splits exactly into
/// the base that combines back into it.
pub proof fn lemma_table_bidirectional(c: char, h: char)
    ensures
        full_to_half_single(c) == Some(h) <==> half_to_full_single(h) == Some(c),
        split_voiced(c) == Some(h) <==> combine_voiced(h) == Some(c),
        split_semivoiced(c) == Some(h) <==> combine_semivoiced(h) == Some(c),
{
}

} // verus!
