//! Textual symbol lookup: one written-out symbol to one character.
//!
//! These take a symbol as the byte string of its dots and dashes (at most 7
//! of them), pack it with the key packer and look it up in the script's
//! reverse table.  Anything else — an empty string, other bytes, an overlong
//! run — yields the null character.  The standard lookup also accepts `/`,
//! the word separator, which decodes to a space; the Japanese and Korean
//! lookups also accept the two-symbol compounds of their code (a kana with
//! its dakuten or handakuten modifier, a compound SKATS vowel) written with
//! one space between the symbols.

use crate::packer::key_of;
use crate::packer::morse_to_binary;
use crate::reverse::spec_to_arabic;
use crate::reverse::spec_to_greek;
use crate::reverse::spec_to_hebrew;
use crate::reverse::spec_to_japanese;
use crate::reverse::spec_to_korean;
use crate::reverse::spec_to_russian;
use crate::reverse::spec_to_standard;
use crate::reverse::to_arabic;
use crate::reverse::to_greek;
use crate::reverse::to_hebrew;
use crate::reverse::to_japanese;
use crate::reverse::to_korean;
use crate::reverse::to_russian;
use crate::reverse::to_standard;
use vstd::prelude::*;
use vstd::slice::slice_subrange;

verus! {

/// A well-formed run of at most 7 dot/dash bytes.
pub open spec fn is_morse_run(s: Seq<u8>) -> bool {
    s.len() <= 7 && forall|i: int| 0 <= i < s.len() ==> ((#[trigger] s[i]) == 46 || s[i] == 45)
}

/// Whether `i` splits `s` into a two-symbol compound: a run, one space, and
/// another run.
pub open spec fn splits_compound(s: Seq<u8>, i: int) -> bool {
    &&& 1 <= i <= s.len() - 2
    &&& s[i] == 32
    &&& is_morse_run(s.subrange(0, i))
    &&& is_morse_run(s.subrange(i + 1, s.len() as int))
}

/// Whether `s` is a two-symbol compound, and at which index its space sits.
pub open spec fn compound_split(s: Seq<u8>) -> Option<int> {
    if exists|i: int| splits_compound(s, i) {
        Some(choose|i: int| splits_compound(s, i))
    } else {
        None
    }
}

/// A compound has only one space, so only one split.
proof fn lemma_compound_split_unique(s: Seq<u8>, i: int, j: int)
    requires
        splits_compound(s, i),
        splits_compound(s, j),
    ensures
        i == j,
{
    if i < j {
        assert(s.subrange(i + 1, s.len() as int)[j - i - 1] == 32);
    }
    if j < i {
        assert(s.subrange(j + 1, s.len() as int)[i - j - 1] == 32);
    }
}

/// Pack a symbol's byte string into its binary key, if it is a well-formed
/// run of at most 7 dots and dashes.
fn run_key(s: &[u8]) -> (r: Option<u8>)
    ensures
        match r {
            Some(k) => is_morse_run(s@) && k == key_of(s@),
            None => !is_morse_run(s@),
        },
{
    if s.len() > 7 {
        return None;
    }
    let mut i: usize = 0;
    while i < s.len()
        invariant
            i <= s@.len() <= 7,
            forall|j: int| 0 <= j < i ==> ((#[trigger] s@[j]) == 46 || s@[j] == 45),
        decreases s@.len() - i,
    {
        let b = s[i];
        if b != 46 && b != 45 {
            return None;
        }
        i = i + 1;
    }
    Some(morse_to_binary(s, s.len()))
}

/// Decode one symbol of the standard script, written out as text: the run
/// of its dots and dashes, or `/` for the word separator (a space).
pub fn morse_to_standard(s: &[u8]) -> (c: char)
    ensures
        c == spec_morse_to_standard(s@),
{
    if s.len() == 1 && s[0] == 47 {
        proof {
            assert(s@ =~= seq![47u8]);
        }
        return ' ';
    }
    proof {
        if s@ == seq![47u8] {
            assert(s@.len() == 1 && s@[0] == 47);
        }
    }
    match run_key(s) {
        Some(k) => to_standard(k),
        None => '\0',
    }
}

/// What [`morse_to_standard`] returns: the standard reverse table at the
/// run's key, a space for `/`, and the null character for anything else.
pub open spec fn spec_morse_to_standard(s: Seq<u8>) -> char {
    if s == seq![47u8] {
        ' '
    } else if is_morse_run(s) {
        spec_to_standard(key_of(s) as u8)
    } else {
        '\0'
    }
}

/// A two-symbol Wabun compound: a base kana followed by the dakuten or
/// handakuten modifier, given as the two symbols' binary keys.
pub open spec fn spec_japanese_compound(k1: u8, k2: u8) -> char {
    match k2 {
        0b100 => match k1 {
            0b10 => 'ベ',  // . ..
            0b101 => 'ダ',  // -. ..
            0b1001 => 'ボ',  // -.. ..
            0b10001 => 'バ',  // -... ..
            0b10010 => 'ガ',  // .-.. ..
            0b10011 => 'ブ',  // --.. ..
            0b10100 => 'ヂ',  // ..-. ..
            0b10110 => 'ヅ',  // .--. ..
            0b10111 => 'ゾ',  // ---. ..
            0b11000 => 'グ',  // ...- ..
            0b11101 => 'ゲ',  // -.-- ..
            0b11111 => 'ゴ',  // ---- ..
            0b100100 => 'ド',  // ..-.. ..
            0b100101 => 'ギ',  // -.-.. ..
            0b101011 => 'ジ',  // --.-. ..
            0b101110 => 'ゼ',  // .---. ..
            0b110011 => 'ビ',  // --..- ..
            0b110101 => 'ザ',  // -.-.- ..
            0b110111 => 'ズ',  // ---.- ..
            0b111010 => 'デ',  // .-.-- ..
            _ => '\0',
        },
        0b101100 => match k1 {
            0b10 => 'ペ',  // . ..--.
            0b1001 => 'ポ',  // -.. ..--.
            0b10001 => 'パ',  // -... ..--.
            0b10011 => 'プ',  // --.. ..--.
            0b110011 => 'ピ',  // --..- ..--.
            _ => '\0',
        },
        _ => '\0',
    }
}

/// A two-symbol Wabun compound, looked up by the two symbols' binary keys.
pub fn japanese_compound(k1: u8, k2: u8) -> (c: char)
    ensures
        c == spec_japanese_compound(k1, k2),
{
    match k2 {
        0b100 => match k1 {
            0b10 => 'ベ',  // . ..
            0b101 => 'ダ',  // -. ..
            0b1001 => 'ボ',  // -.. ..
            0b10001 => 'バ',  // -... ..
            0b10010 => 'ガ',  // .-.. ..
            0b10011 => 'ブ',  // --.. ..
            0b10100 => 'ヂ',  // ..-. ..
            0b10110 => 'ヅ',  // .--. ..
            0b10111 => 'ゾ',  // ---. ..
            0b11000 => 'グ',  // ...- ..
            0b11101 => 'ゲ',  // -.-- ..
            0b11111 => 'ゴ',  // ---- ..
            0b100100 => 'ド',  // ..-.. ..
            0b100101 => 'ギ',  // -.-.. ..
            0b101011 => 'ジ',  // --.-. ..
            0b101110 => 'ゼ',  // .---. ..
            0b110011 => 'ビ',  // --..- ..
            0b110101 => 'ザ',  // -.-.- ..
            0b110111 => 'ズ',  // ---.- ..
            0b111010 => 'デ',  // .-.-- ..
            _ => '\0',
        },
        0b101100 => match k1 {
            0b10 => 'ペ',  // . ..--.
            0b1001 => 'ポ',  // -.. ..--.
            0b10001 => 'パ',  // -... ..--.
            0b10011 => 'プ',  // --.. ..--.
            0b110011 => 'ピ',  // --..- ..--.
            _ => '\0',
        },
        _ => '\0',
    }
}

/// A two-symbol SKATS compound vowel, given as the two symbols' binary keys.
pub open spec fn spec_korean_compound(k1: u8, k2: u8) -> char {
    match k2 {
        0b1100 => match k1 {
            0b100 => 'ㅒ',  // .. ..-
            0b1000 => 'ㅖ',  // ... ..-
            _ => '\0',
        },
        _ => '\0',
    }
}

/// A two-symbol SKATS compound vowel, looked up by the two symbols' binary
/// keys.
pub fn korean_compound(k1: u8, k2: u8) -> (c: char)
    ensures
        c == spec_korean_compound(k1, k2),
{
    match k2 {
        0b1100 => match k1 {
            0b100 => 'ㅒ',  // .. ..-
            0b1000 => 'ㅖ',  // ... ..-
            _ => '\0',
        },
        _ => '\0',
    }
}

/// Decode one symbol of the Greek script, written out as text.
pub fn morse_to_greek(s: &[u8]) -> (c: char)
    ensures
        c == spec_morse_to_greek(s@),
{
    match run_key(s) {
        Some(k) => to_greek(k),
        None => '\0',
    }
}

/// What [`morse_to_greek`] returns.
pub open spec fn spec_morse_to_greek(s: Seq<u8>) -> char {
    if is_morse_run(s) {
        spec_to_greek(key_of(s) as u8)
    } else {
        '\0'
    }
}

/// Decode one symbol of the Russian script, written out as text.
pub fn morse_to_russian(s: &[u8]) -> (c: char)
    ensures
        c == spec_morse_to_russian(s@),
{
    match run_key(s) {
        Some(k) => to_russian(k),
        None => '\0',
    }
}

/// What [`morse_to_russian`] returns.
pub open spec fn spec_morse_to_russian(s: Seq<u8>) -> char {
    if is_morse_run(s) {
        spec_to_russian(key_of(s) as u8)
    } else {
        '\0'
    }
}

/// Decode one symbol of the Hebrew script, written out as text.
pub fn morse_to_hebrew(s: &[u8]) -> (c: char)
    ensures
        c == spec_morse_to_hebrew(s@),
{
    match run_key(s) {
        Some(k) => to_hebrew(k),
        None => '\0',
    }
}

/// What [`morse_to_hebrew`] returns.
pub open spec fn spec_morse_to_hebrew(s: Seq<u8>) -> char {
    if is_morse_run(s) {
        spec_to_hebrew(key_of(s) as u8)
    } else {
        '\0'
    }
}

/// Decode one symbol of the Arabic script, written out as text.
pub fn morse_to_arabic(s: &[u8]) -> (c: char)
    ensures
        c == spec_morse_to_arabic(s@),
{
    match run_key(s) {
        Some(k) => to_arabic(k),
        None => '\0',
    }
}

/// What [`morse_to_arabic`] returns.
pub open spec fn spec_morse_to_arabic(s: Seq<u8>) -> char {
    if is_morse_run(s) {
        spec_to_arabic(key_of(s) as u8)
    } else {
        '\0'
    }
}

/// Find the first space in `s`.
fn find_space(s: &[u8]) -> (r: Option<usize>)
    ensures
        match r {
            Some(i) => i < s@.len() && s@[i as int] == 32 && forall|j: int|
                0 <= j < i ==> s@[j] != 32,
            None => forall|j: int| 0 <= j < s@.len() ==> s@[j] != 32,
        },
{
    let mut i: usize = 0;
    while i < s.len()
        invariant
            i <= s@.len(),
            forall|j: int| 0 <= j < i ==> s@[j] != 32,
        decreases s@.len() - i,
    {
        if s[i] == 32 {
            return Some(i);
        }
        i = i + 1;
    }
    None
}

/// Find the split of a two-symbol compound and hand back the two keys.
fn compound_keys(s: &[u8]) -> (r: Option<(u8, u8)>)
    ensures
        match r {
            Some(ks) => {
                &&& compound_split(s@) is Some
                &&& ks.0 == key_of(s@.subrange(0, compound_split(s@)->Some_0))
                &&& ks.1 == key_of(
                    s@.subrange(compound_split(s@)->Some_0 + 1, s@.len() as int),
                )
            },
            None => compound_split(s@) is None,
        },
{
    // Only a split at the first space can be well formed: a run holds no
    // space, so a later split would leave this space inside its first run.
    let sp = find_space(s);
    proof {
        if exists|j: int| splits_compound(s@, j) {
            let j = choose|j: int| splits_compound(s@, j);
            assert(s@[j] == 32);
            match sp {
                Some(i) => {
                    if j > i {
                        assert(s@.subrange(0, j)[i as int] == 32);
                    }
                    assert(j == i);
                },
                None => {},
            }
        }
    }
    let i = match sp {
        Some(i) => i,
        None => {
            return None;
        },
    };
    if i < 1 || i > s.len() - 2 {
        return None;
    }
    let part1 = slice_subrange(s, 0, i);
    let part2 = slice_subrange(s, i + 1, s.len());
    let k1 = run_key(part1);
    let k2 = run_key(part2);
    match (k1, k2) {
        (Some(a), Some(b)) => {
            proof {
                assert(splits_compound(s@, i as int));
                let j = choose|j: int| splits_compound(s@, j);
                lemma_compound_split_unique(s@, i as int, j);
            }
            Some((a, b))
        },
        _ => None,
    }
}

/// Decode one symbol of the Japanese Wabun code, written out as text, or a
/// base kana and its dakuten or handakuten modifier with one space between
/// them.
pub fn morse_to_japanese(s: &[u8]) -> (c: char)
    ensures
        c == spec_morse_to_japanese(s@),
{
    match run_key(s) {
        Some(k) => to_japanese(k),
        None => match compound_keys(s) {
            Some((k1, k2)) => japanese_compound(k1, k2),
            None => '\0',
        },
    }
}

/// What [`morse_to_japanese`] returns.
pub open spec fn spec_morse_to_japanese(s: Seq<u8>) -> char {
    if is_morse_run(s) {
        spec_to_japanese(key_of(s) as u8)
    } else if compound_split(s) is Some {
        let i = compound_split(s)->Some_0;
        spec_japanese_compound(
            key_of(s.subrange(0, i)) as u8,
            key_of(s.subrange(i + 1, s.len() as int)) as u8,
        )
    } else {
        '\0'
    }
}

/// Decode one symbol of the Korean SKATS code, written out as text, or a
/// compound vowel written as two symbols with one space between them.
pub fn morse_to_korean(s: &[u8]) -> (c: char)
    ensures
        c == spec_morse_to_korean(s@),
{
    match run_key(s) {
        Some(k) => to_korean(k),
        None => match compound_keys(s) {
            Some((k1, k2)) => korean_compound(k1, k2),
            None => '\0',
        },
    }
}

/// What [`morse_to_korean`] returns.
pub open spec fn spec_morse_to_korean(s: Seq<u8>) -> char {
    if is_morse_run(s) {
        spec_to_korean(key_of(s) as u8)
    } else if compound_split(s) is Some {
        let i = compound_split(s)->Some_0;
        spec_korean_compound(
            key_of(s.subrange(0, i)) as u8,
            key_of(s.subrange(i + 1, s.len() as int)) as u8,
        )
    } else {
        '\0'
    }
}

/// The textual lookup and the streaming decoder agree: a well-formed run
/// decodes, as one terminated run of the stream, to exactly the character
/// [`morse_to_standard`] gives it, or to nothing where that is the null
/// character.
pub proof fn lemma_lookup_matches_decoder(r: Seq<u8>)
    requires
        is_morse_run(r),
        r.len() >= 1,
    ensures
        crate::decode::decode_run(crate::reverse::Script::Standard, r) == (
        if spec_morse_to_standard(r) == '\0' {
            Seq::<char>::empty()
        } else {
            seq![spec_morse_to_standard(r)]
        }),
{
    assert(r != seq![47u8]) by {
        assert(r[0] == 46 || r[0] == 45);
        assert(seq![47u8][0] == 47);
    }
}

} // verus!
