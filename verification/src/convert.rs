//! The width converter: a pure function over sequences of Unicode scalar
//! values, defined one unit at a time.
//!
//! Full-to-half walks single characters; a voiced or semi-voiced full-width
//! katakana expands to its half-width base followed by a voicing mark.
//! Half-to-full walks units of one or two characters: a half-width base
//! followed by a matching voicing mark collapses to the single full-width
//! voiced character, and every other character is mapped alone.

use vstd::prelude::*;
use vstd::string::StrSliceExecFns;

use crate::classify::{class_of, classify, Config, Direction};
use crate::tables::{
    combine_semivoiced, combine_voiced, full_to_half_single, half_to_full_single,
    lookup_combine_semivoiced, lookup_combine_voiced, lookup_full_to_half_single,
    lookup_half_to_full_single, lookup_split_semivoiced, lookup_split_voiced, split_semivoiced,
    split_voiced, HALF_DAKUTEN, HALF_HANDAKUTEN,
};

verus! {

/// What a single full-width character becomes under `cfg`: its half-width
/// counterpart (one or, for voiced katakana, two characters) when its class
/// is enabled and the table knows it, else the character itself.
pub open spec fn full_to_half_char(c: char, cfg: Config) -> Seq<char> {
    if cfg.converts(class_of(c)) {
        match full_to_half_single(c) {
            Some(h) => seq![h],
            None => match split_voiced(c) {
                Some(b) => seq![b, HALF_DAKUTEN],
                None => match split_semivoiced(c) {
                    Some(b) => seq![b, HALF_HANDAKUTEN],
                    None => seq![c],
                },
            },
        }
    } else {
        seq![c]
    }
}

/// The full-to-half conversion of a whole sequence: the concatenation of the
/// conversions of its characters.
pub open spec fn full_to_half_seq(s: Seq<char>, cfg: Config) -> Seq<char>
    decreases s.len(),
{
    if s.len() == 0 {
        Seq::empty()
    } else {
        full_to_half_char(s[0], cfg) + full_to_half_seq(s.drop_first(), cfg)
    }
}

/// The full-width character formed by the two-character unit `b` then `m`,
/// if `m` is a voicing mark and `b` a base it combines with.
pub open spec fn combine_pair(b: char, m: char) -> Option<char> {
    if m == HALF_DAKUTEN {
        combine_voiced(b)
    } else if m == HALF_HANDAKUTEN {
        combine_semivoiced(b)
    } else {
        None
    }
}

/// What a single half-width character becomes under `cfg` when it does not
/// open a voiced pair: its full-width counterpart when its class is enabled
/// and the table knows it, else the character itself.
pub open spec fn half_to_full_char(c: char, cfg: Config) -> Seq<char> {
    if cfg.converts(class_of(c)) {
        match half_to_full_single(c) {
            Some(z) => seq![z],
            None => seq![c],
        }
    } else {
        seq![c]
    }
}

/// The half-to-full conversion of a whole sequence.  When kana conversion is
/// enabled, a base character followed by a matching voicing mark is one unit
/// and collapses to the single full-width voiced character; every other
/// character is one unit of its own.
pub open spec fn half_to_full_seq(s: Seq<char>, cfg: Config) -> Seq<char>
    decreases s.len(),
{
    if s.len() == 0 {
        Seq::empty()
    } else if s.len() >= 2 && cfg.kana && combine_pair(s[0], s[1]) is Some {
        seq![combine_pair(s[0], s[1])->0] + half_to_full_seq(s.skip(2), cfg)
    } else {
        half_to_full_char(s[0], cfg) + half_to_full_seq(s.drop_first(), cfg)
    }
}

/// The conversion of `s` in the given direction under `cfg`.
pub open spec fn convert_spec(s: Seq<char>, direction: Direction, cfg: Config) -> Seq<char> {
    match direction {
        Direction::FullToHalf => full_to_half_seq(s, cfg),
        Direction::HalfToFull => half_to_full_seq(s, cfg),
    }
}

/// Executable counterpart of [`combine_pair`].
pub fn lookup_combine_pair(b: char, m: char) -> (r: Option<char>)
    ensures
        r == combine_pair(b, m),
{
    if m == HALF_DAKUTEN {
        lookup_combine_voiced(b)
    } else if m == HALF_HANDAKUTEN {
        lookup_combine_semivoiced(b)
    } else {
        None
    }
}

/// Appends the full-to-half conversion of the single character `c` to `out`.
fn push_full_to_half_char(out: &mut Vec<char>, c: char, cfg: &Config)
    ensures
        final(out)@ == old(out)@ + full_to_half_char(c, *cfg),
{
    let k = classify(c);
    if cfg.converts_class(k) {
        match lookup_full_to_half_single(c) {
            Some(h) => {
                out.push(h);
                proof {
                    assert(out@ =~= old(out)@ + full_to_half_char(c, *cfg));
                }
            },
            None => {
                match lookup_split_voiced(c) {
                    Some(b) => {
                        out.push(b);
                        out.push(HALF_DAKUTEN);
                        proof {
                            assert(out@ =~= old(out)@ + full_to_half_char(c, *cfg));
                        }
                    },
                    None => {
                        match lookup_split_semivoiced(c) {
                            Some(b) => {
                                out.push(b);
                                out.push(HALF_HANDAKUTEN);
                                proof {
                                    assert(out@ =~= old(out)@ + full_to_half_char(c, *cfg));
                                }
                            },
                            None => {
                                out.push(c);
                                proof {
                                    assert(out@ =~= old(out)@ + full_to_half_char(c, *cfg));
                                }
                            },
                        }
                    },
                }
            },
        }
    } else {
        out.push(c);
        proof {
            assert(out@ =~= old(out)@ + full_to_half_char(c, *cfg));
        }
    }
}

/// Appends the half-to-full conversion of the single character `c` to `out`.
fn push_half_to_full_char(out: &mut Vec<char>, c: char, cfg: &Config)
    ensures
        final(out)@ == old(out)@ + half_to_full_char(c, *cfg),
{
    let k = classify(c);
    if cfg.converts_class(k) {
        match lookup_half_to_full_single(c) {
            Some(z) => {
                out.push(z);
                proof {
                    assert(out@ =~= old(out)@ + half_to_full_char(c, *cfg));
                }
            },
            None => {
                out.push(c);
                proof {
                    assert(out@ =~= old(out)@ + half_to_full_char(c, *cfg));
                }
            },
        }
    } else {
        out.push(c);
        proof {
            assert(out@ =~= old(out)@ + half_to_full_char(c, *cfg));
        }
    }
}

/// Full-to-half conversion of a character vector.
fn convert_chars_full_to_half(input: &Vec<char>, cfg: Config) -> (out: Vec<char>)
    ensures
        out@ == full_to_half_seq(input@, cfg),
{
    let ghost s: Seq<char> = input@;
    let mut out: Vec<char> = Vec::with_capacity(input.len());
    let mut i: usize = 0;
    proof {
        assert(s.skip(0) =~= s);
    }
    while i < input.len()
        invariant
            i <= input.len(),
            input@ == s,
            out@ + full_to_half_seq(s.skip(i as int), cfg) == full_to_half_seq(s, cfg),
        decreases input.len() - i,
    {
        let c = input[i];
        let ghost prev: Seq<char> = out@;
        proof {
            let t = s.skip(i as int);
            assert(t[0] == s[i as int]);
            assert(t.drop_first() =~= s.skip(i as int + 1));
        }
        push_full_to_half_char(&mut out, c, &cfg);
        i = i + 1;
        proof {
            assert(out@ + full_to_half_seq(s.skip(i as int), cfg) =~= prev + full_to_half_seq(
                s.skip(i as int - 1),
                cfg,
            ));
        }
    }
    proof {
        assert(s.skip(input.len() as int) =~= Seq::<char>::empty());
    }
    out
}

/// Half-to-full conversion of a character vector.
fn convert_chars_half_to_full(input: &Vec<char>, cfg: Config) -> (out: Vec<char>)
    ensures
        out@ == half_to_full_seq(input@, cfg),
{
    let ghost s: Seq<char> = input@;
    let mut out: Vec<char> = Vec::with_capacity(input.len());
    let mut i: usize = 0;
    proof {
        assert(s.skip(0) =~= s);
    }
    while i < input.len()
        invariant
            i <= input.len(),
            input@ == s,
            out@ + half_to_full_seq(s.skip(i as int), cfg) == half_to_full_seq(s, cfg),
        decreases input.len() - i,
    {
        let c = input[i];
        let ghost prev: Seq<char> = out@;
        let ghost t = s.skip(i as int);
        proof {
            assert(t[0] == s[i as int]);
            assert(t.drop_first() =~= s.skip(i as int + 1));
        }
        let mut paired: Option<char> = None;
        if cfg.kana && i + 1 < input.len() {
            proof {
                assert(t[1] == s[i as int + 1]);
            }
            paired = lookup_combine_pair(c, input[i + 1]);
        }
        match paired {
            Some(z) => {
                out.push(z);
                proof {
                    assert(t.skip(2) =~= s.skip(i as int + 2));
                    assert(half_to_full_seq(t, cfg) == seq![z] + half_to_full_seq(
                        s.skip(i as int + 2),
                        cfg,
                    ));
                    assert(out@ =~= prev + seq![z]);
                }
                i = i + 2;
                proof {
                    assert(out@ + half_to_full_seq(s.skip(i as int), cfg) =~= prev
                        + half_to_full_seq(s.skip(i as int - 2), cfg));
                }
            },
            None => {
                proof {
                    assert(!(t.len() >= 2 && cfg.kana && combine_pair(t[0], t[1]) is Some));
                }
                push_half_to_full_char(&mut out, c, &cfg);
                i = i + 1;
                proof {
                    assert(out@ + half_to_full_seq(s.skip(i as int), cfg) =~= prev
                        + half_to_full_seq(s.skip(i as int - 1), cfg));
                }
            },
        }
    }
    proof {
        assert(s.skip(input.len() as int) =~= Seq::<char>::empty());
    }
    out
}

/// Converts a vector of characters in the given direction under `config`.
///
/// The input is never mutated; the result is a fresh vector whose contents
/// are exactly the specified conversion of the input.
pub fn convert_chars(input: &Vec<char>, direction: Direction, config: Config) -> (out: Vec<char>)
    ensures
        out@ == convert_spec(input@, direction, config),
{
    match direction {
        Direction::FullToHalf => convert_chars_full_to_half(input, config),
        Direction::HalfToFull => convert_chars_half_to_full(input, config),
    }
}

/// Collects the characters of a string slice into a vector.
fn chars_of(input: &str) -> (r: Vec<char>)
    ensures
        r@ == input@,
{
    let n: usize = input.unicode_len();
    let mut v: Vec<char> = Vec::with_capacity(n);
    let mut i: usize = 0;
    while i < n
        invariant
            i <= n,
            n == input@.len(),
            v@ == input@.take(i as int),
        decreases n - i,
    {
        let c = input.get_char(i);
        v.push(c);
        i = i + 1;
        proof {
            assert(v@ =~= input@.take(i as int));
        }
    }
    proof {
        assert(input@.take(n as int) =~= input@);
    }
    v
}

/// Builds a string out of a vector of characters.
///
/// Relies on `String::from_iter` (reached through `Iterator::collect`): the
/// returned string holds exactly the characters of the iterator, in order.
#[verifier::external_body]
fn string_of_chars(v: &Vec<char>) -> (r: String)
    ensures
        r@ == v@,
{
    v.iter().collect()
}

/// Converts a string in the given direction under `config`.
///
/// Every sequence of Unicode scalar values is accepted, the empty string
/// included; characters of a disabled class and characters the table does
/// not know pass through unchanged, and the function never fails.
pub fn convert(input: &str, direction: Direction, config: Config) -> (out: String)
    ensures
        out@ == convert_spec(input@, direction, config),
{
    let v = chars_of(input);
    let w = convert_chars(&v, direction, config);
    string_of_chars(&w)
}

/// Converts a string to its half-width form with every class enabled.
pub fn to_half_width(input: &str) -> (out: String)
    ensures
        out@ == full_to_half_seq(input@, (Config { kana: true, ascii: true, symbol: true })),
{
    convert(input, Direction::FullToHalf, Config::all_enabled())
}

/// Converts a string to its full-width form with every class enabled.
pub fn to_full_width(input: &str) -> (out: String)
    ensures
        out@ == half_to_full_seq(input@, (Config { kana: true, ascii: true, symbol: true })),
{
    convert(input, Direction::HalfToFull, Config::all_enabled())
}

} // verus!
