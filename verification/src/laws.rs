//! Laws of the codec, stated and proved over its specification folds.

use crate::decode::decode_bytes;
use crate::decode::decode_run;
use crate::decode::decode_from;
use crate::decode::lemma_decode_concat;
use crate::encode::encode_ascii;
use crate::encode::encode_ascii_from;
use crate::encode::encode_chars;
use crate::encode::encode_chars_from;
use crate::encode::encode_step;
use crate::encode::lemma_encode_ascii_concat;
use crate::encode::lemma_encode_chars_concat;
use crate::forward::is_verbatim;
use crate::forward::pattern_bytes;
use crate::forward::roundtrips;
use crate::forward::spec_ascii_to_morse;
use crate::forward::spec_from_unicode;
use crate::forward::upper_canon;
use crate::packer::key_of;
use crate::packer::key_of_range;
use crate::reverse::Script;
use vstd::prelude::*;

verus! {

/// A character the encoder drops: no pattern, and not one of the verbatim
/// control characters.
pub open spec fn is_unmappable(c: char) -> bool {
    !is_verbatim(c) && spec_from_unicode(c).len() == 0
}

/// An unmappable character is dropped silently: encoding a text with one
/// inserted anywhere emits exactly the text's own Morse, with no separator
/// artifact for the dropped position.
pub proof fn lemma_unmappable_dropped(a: Seq<char>, c: char, b: Seq<char>, w: bool)
    requires
        is_unmappable(c),
    ensures
        encode_chars_from(a + seq![c] + b, 0, w) == encode_chars_from(a + b, 0, w),
{
    let w1 = encode_chars_from(a, 0, w).1;
    lemma_encode_chars_concat(a, seq![c] + b, w);
    lemma_encode_chars_concat(seq![c], b, w1);
    lemma_encode_chars_concat(a, b, w);
    assert(a + seq![c] + b =~= a + (seq![c] + b));
    reveal_with_fuel(encode_chars_from, 3);
    assert(seq![c].len() == 1 && seq![c][0] == c);
    assert(encode_chars_from(seq![c], 0, w1).0 =~= Seq::<char>::empty());
    assert(encode_chars_from(seq![c], 0, w1).1 == w1);
    assert(encode_chars_from(a + seq![c] + b, 0, w).0 =~= encode_chars_from(a + b, 0, w).0);
}

/// An unknown symbol run decodes to nothing and does not corrupt what
/// follows: decoding it, its terminating space, and then a rest is decoding
/// the rest alone.
pub proof fn lemma_unknown_run_dropped(script: Script, r: Seq<u8>, rest: Seq<u8>)
    requires
        forall|i: int| 0 <= i < r.len() ==> 32 < #[trigger] r[i] < 128 && r[i] != 47,
        decode_run(script, r) == Seq::<char>::empty(),
    ensures
        decode_bytes(script, r + seq![32u8] + rest) == decode_bytes(script, rest),
{
    lemma_accumulates(script, r, Seq::empty());
    assert(r + seq![32u8] + rest =~= r + (seq![32u8] + rest));
    lemma_decode_concat(script, r, seq![32u8] + rest, Seq::empty());
    lemma_decode_concat(script, seq![32u8], rest, Seq::empty() + r);
    assert(Seq::<u8>::empty() + r =~= r);
    reveal_with_fuel(decode_from, 3);
    assert(seq![32u8].len() == 1 && seq![32u8][0] == 32u8);
    assert(decode_from(script, seq![32u8], 0, r).0 =~= decode_run(script, r));
    assert(decode_from(script, seq![32u8], 0, r).1 =~= Seq::<u8>::empty());
    assert(decode_bytes(script, r + seq![32u8] + rest) =~= decode_bytes(script, rest));
}

/// Bytes that neither terminate a run nor are ignored accumulate onto the
/// pending run without output.
proof fn lemma_accumulates(script: Script, r: Seq<u8>, run: Seq<u8>)
    requires
        forall|i: int| 0 <= i < r.len() ==> 32 < #[trigger] r[i] < 128 && r[i] != 47,
    ensures
        decode_from(script, r, 0, run).0 == Seq::<char>::empty(),
        decode_from(script, r, 0, run).1 == run + r,
    decreases r.len(),
{
    if r.len() == 0 {
        assert(run + r =~= run);
    } else {
        let tail = r.drop_first();
        assert(forall|i: int|
            0 <= i < tail.len() ==> 32 < #[trigger] tail[i] < 128 && tail[i] != 47) by {
            assert(forall|i: int|
                0 <= i < tail.len() ==> tail[i] == #[trigger] r[i + 1]);
        }
        lemma_accumulates(script, tail, run.push(r[0]));
        lemma_shift_one(script, r, run.push(r[0]));
        assert(run.push(r[0]) + tail =~= run + r);
        assert(decode_from(script, r, 0, run).0 =~= Seq::<char>::empty());
    }
}

/// Stepping past the first byte of a buffer is folding over the rest.
proof fn lemma_shift_one(script: Script, r: Seq<u8>, run: Seq<u8>)
    requires
        r.len() >= 1,
    ensures
        decode_from(script, r, 1, run) == decode_from(script, r.drop_first(), 0, run),
{
    lemma_shift_from(script, r, 1, run);
}

proof fn lemma_shift_from(script: Script, r: Seq<u8>, j: int, run: Seq<u8>)
    requires
        1 <= j <= r.len(),
    ensures
        decode_from(script, r, j, run) == decode_from(script, r.drop_first(), j - 1, run),
    decreases r.len() - j,
{
    if j < r.len() {
        assert(r[j] == r.drop_first()[j - 1]);
        let step = crate::decode::decode_step(script, r[j], run);
        lemma_shift_from(script, r, j + 1, step.1);
    }
}

/// Apply [`upper_canon`] to a whole text.
pub open spec fn canon(s: Seq<char>) -> Seq<char> {
    s.map_values(|c: char| upper_canon(c))
}

/// The bytes of an encoded text, which is ASCII.
pub open spec fn text_bytes(o: Seq<char>) -> Seq<u8> {
    o.map_values(|c: char| c as u8)
}

/// The round-trip law: a text of faithful characters, encoded to Morse and
/// decoded again under the standard script, comes back as its canonical
/// form — Latin letters uppercased, all whitespace (space, tab, newline,
/// carriage return) preserved exactly, a trailing space included.
pub proof fn lemma_round_trip(s: Seq<char>)
    requires
        forall|i: int| 0 <= i < s.len() ==> roundtrips(#[trigger] s[i]),
    ensures
        decode_bytes(Script::Standard, text_bytes(encode_chars(s))) == canon(s),
{
    lemma_round_trip_state(s);
    let o = encode_chars_from(s, 0, false);
    let d = decode_from(Script::Standard, text_bytes(o.0), 0, Seq::empty());
    if s.len() == 0 {
        assert(decode_run(Script::Standard, Seq::empty()) =~= Seq::<char>::empty()) by {
            reveal_with_fuel(key_of_range, 2);
        }
        assert(canon(s) =~= Seq::<char>::empty());
        assert(decode_bytes(Script::Standard, text_bytes(o.0)) =~= canon(s));
    } else if is_verbatim(s.last()) || s.last() == ' ' {
        assert(decode_run(Script::Standard, Seq::empty()) =~= Seq::<char>::empty()) by {
            reveal_with_fuel(key_of_range, 2);
        }
        assert(decode_bytes(Script::Standard, text_bytes(o.0)) =~= canon(s));
    } else {
        assert(canon(s) =~= canon(s.drop_last()) + seq![upper_canon(s.last())]);
        assert(decode_bytes(Script::Standard, text_bytes(o.0)) =~= canon(s));
    }
}

/// The decoder state left by an encoded text: everything up to the last
/// letter is decoded, and the last letter's run, if unterminated, is
/// pending with its character owed.
#[verifier::rlimit(100)]
#[verifier::spinoff_prover]
proof fn lemma_round_trip_state(s: Seq<char>)
    requires
        forall|i: int| 0 <= i < s.len() ==> roundtrips(#[trigger] s[i]),
    ensures
        ({
            let o = encode_chars_from(s, 0, false);
            let d = decode_from(Script::Standard, text_bytes(o.0), 0, Seq::empty());
            &&& o.1 == (s.len() > 0 && !is_verbatim(s.last()))
            &&& s.len() == 0 ==> d.0 == Seq::<char>::empty() && d.1 == Seq::<u8>::empty()
            &&& (s.len() > 0 && (is_verbatim(s.last()) || s.last() == ' ')) ==> d.0 == canon(s)
                && d.1 == Seq::<u8>::empty()
            &&& (s.len() > 0 && !is_verbatim(s.last()) && s.last() != ' ') ==> d.0 == canon(
                s.drop_last(),
            ) && d.1 == pattern_bytes(s.last()) && decode_run(Script::Standard, d.1) == seq![
                upper_canon(s.last()),
            ]
        }),
    decreases s.len(),
{
    reveal_with_fuel(encode_chars_from, 3);
    reveal_with_fuel(decode_from, 4);
    if s.len() == 0 {
        assert(text_bytes(encode_chars_from(s, 0, false).0) =~= Seq::<u8>::empty());
    } else {
        let s0 = s.drop_last();
        let c = s.last();
        assert(roundtrips(c));
        assert(forall|i: int| 0 <= i < s0.len() ==> roundtrips(#[trigger] s0[i])) by {
            assert(forall|i: int| 0 <= i < s0.len() ==> s0[i] == #[trigger] s[i]);
        }
        lemma_round_trip_state(s0);
        let e0 = encode_chars_from(s0, 0, false);
        let w0 = e0.1;
        let d0 = decode_from(Script::Standard, text_bytes(e0.0), 0, Seq::empty());
        assert(s =~= s0 + seq![c]);
        lemma_encode_chars_concat(s0, seq![c], false);
        assert(seq![c].len() == 1 && seq![c][0] == c);
        let step = encode_step(spec_from_unicode(c), is_verbatim(c), w0);
        assert(encode_chars_from(seq![c], 0, w0).0 =~= step.0);
        assert(encode_chars_from(seq![c], 0, w0).1 == step.1);
        let o = encode_chars_from(s, 0, false);
        assert(o.0 =~= e0.0 + step.0);
        assert(o.1 == step.1);
        assert(text_bytes(o.0) =~= text_bytes(e0.0) + text_bytes(step.0));
        lemma_decode_concat(Script::Standard, text_bytes(e0.0), text_bytes(step.0), Seq::empty());
        let d = decode_from(Script::Standard, text_bytes(o.0), 0, Seq::empty());
        let dc = decode_from(Script::Standard, text_bytes(step.0), 0, d0.1);
        assert(d.0 =~= d0.0 + dc.0);
        assert(d.1 == dc.1);
        assert(canon(s) =~= canon(s0) + seq![upper_canon(c)]);
        if is_verbatim(c) {
            lemma_step_verbatim(c, w0, d0.1, if s0.len() == 0 {
                Seq::empty()
            } else if is_verbatim(s0.last()) || s0.last() == ' ' {
                Seq::empty()
            } else {
                seq![upper_canon(s0.last())]
            });
            assert(upper_canon(c) == c);
            assert(d.0 =~= canon(s));
        } else if c == ' ' {
            lemma_step_space(w0, d0.1, if s0.len() == 0 {
                Seq::empty()
            } else if is_verbatim(s0.last()) || s0.last() == ' ' {
                Seq::empty()
            } else {
                seq![upper_canon(s0.last())]
            });
            assert(upper_canon(c) == c);
            assert(d.0 =~= canon(s));
        } else {
            lemma_step_pattern(c, w0, d0.1, if s0.len() == 0 {
                Seq::empty()
            } else if is_verbatim(s0.last()) || s0.last() == ' ' {
                Seq::empty()
            } else {
                seq![upper_canon(s0.last())]
            });
            assert(d.0 =~= canon(s0));
        }
    }
}

/// The empty run decodes to nothing: its key is 1, unmapped in every table.
proof fn lemma_decode_run_empty()
    ensures
        decode_run(Script::Standard, Seq::empty()) == Seq::<char>::empty(),
{
    reveal_with_fuel(key_of_range, 2);
    assert(key_of(Seq::<u8>::empty()) == 1);
}

/// Decoding what the encoder emits for a verbatim character: the pending
/// run is flushed and the character passes through.
proof fn lemma_step_verbatim(c: char, w0: bool, r: Seq<u8>, pend: Seq<char>)
    requires
        is_verbatim(c),
        decode_run(Script::Standard, r) == pend,
    ensures
        ({
            let step = encode_step(spec_from_unicode(c), true, w0);
            let dc = decode_from(Script::Standard, text_bytes(step.0), 0, r);
            &&& step.0 == seq![c]
            &&& step.1 == false
            &&& dc.0 == pend + seq![c]
            &&& dc.1 == Seq::<u8>::empty()
        }),
{
    crate::forward::lemma_pattern_shape(c);
    reveal_with_fuel(decode_from, 3);
    assert(spec_from_unicode(c) =~= seq![c]);
    let step = encode_step(spec_from_unicode(c), true, w0);
    let bs = text_bytes(step.0);
    assert(bs.len() == 1 && bs[0] == c as u8);
    assert(c as u8 == 9 || c as u8 == 10 || c as u8 == 13);
    assert((c as u8) as char == c);
    let dc = decode_from(Script::Standard, bs, 0, r);
    assert(dc.0 =~= pend + seq![c]);
}

/// Decoding what the encoder emits for a space: the pending run is flushed
/// by the separator, if one was owed, and the word mark decodes to a space.
proof fn lemma_step_space(w0: bool, r: Seq<u8>, pend: Seq<char>)
    requires
        decode_run(Script::Standard, r) == pend,
        !w0 ==> r == Seq::<u8>::empty() && pend == Seq::<char>::empty(),
    ensures
        ({
            let step = encode_step(spec_from_unicode(' '), false, w0);
            let dc = decode_from(Script::Standard, text_bytes(step.0), 0, r);
            &&& step.1 == true
            &&& dc.0 == pend + seq![' ']
            &&& dc.1 == Seq::<u8>::empty()
        }),
{
    crate::forward::lemma_space_pattern();
    reveal_with_fuel(decode_from, 4);
    let p = spec_from_unicode(' ');
    assert(p =~= seq!['/']);
    let step = encode_step(p, false, w0);
    let bs = text_bytes(step.0);
    if w0 {
        assert(step.0 =~= seq![' ', '/']);
        assert(bs.len() == 2 && bs[0] == 32 && bs[1] == 47);
        let dc = decode_from(Script::Standard, bs, 0, r);
        assert(dc.0 =~= pend + seq![' ']);
    } else {
        assert(step.0 =~= seq!['/']);
        assert(bs.len() == 1 && bs[0] == 47);
        let dc = decode_from(Script::Standard, bs, 0, r);
        assert(dc.0 =~= pend + seq![' ']);
    }
}

/// Decoding what the encoder emits for a pattern character: the pending run
/// is flushed by the separator, if one was owed, and the new pattern's run
/// is left pending with its character owed.
proof fn lemma_step_pattern(c: char, w0: bool, r: Seq<u8>, pend: Seq<char>)
    requires
        roundtrips(c),
        !is_verbatim(c),
        c != ' ',
        decode_run(Script::Standard, r) == pend,
        !w0 ==> r == Seq::<u8>::empty() && pend == Seq::<char>::empty(),
    ensures
        ({
            let step = encode_step(spec_from_unicode(c), false, w0);
            let dc = decode_from(Script::Standard, text_bytes(step.0), 0, r);
            &&& step.1 == true
            &&& dc.0 == pend
            &&& dc.1 == pattern_bytes(c)
            &&& decode_run(Script::Standard, pattern_bytes(c)) == seq![upper_canon(c)]
        }),
{
    let p = spec_from_unicode(c);
    let pb = pattern_bytes(c);
    assert(p.len() >= 1);
    assert(forall|i: int|
        0 <= i < pb.len() ==> 32 < #[trigger] pb[i] < 128 && pb[i] != 47) by {
        assert(forall|i: int| 0 <= i < p.len() ==> (#[trigger] p[i]) == '.' || p[i] == '-');
        assert('.' as u8 == 46 && '-' as u8 == 45);
    }
    let step = encode_step(p, false, w0);
    let bs = text_bytes(step.0);
    let dc = decode_from(Script::Standard, bs, 0, r);
    if w0 {
        assert(step.0 =~= seq![' '] + p);
        assert(bs =~= seq![32u8] + pb);
        assert(bs[0] == 32);
        lemma_shift_one(Script::Standard, bs, Seq::empty());
        assert(bs.drop_first() =~= pb);
        lemma_accumulates(Script::Standard, pb, Seq::empty());
        assert(Seq::<u8>::empty() + pb =~= pb);
        assert(dc.0 =~= pend + Seq::<char>::empty());
        assert(dc.0 =~= pend);
        assert(dc.1 =~= pb);
    } else {
        assert(step.0 =~= p);
        assert(bs =~= pb);
        lemma_accumulates(Script::Standard, pb, r);
        assert(r + pb =~= pb);
        assert(dc.0 =~= pend);
        assert(dc.1 =~= pb);
    }
    assert(pb.len() == p.len() <= 7);
    assert(decode_run(Script::Standard, pb) =~= seq![upper_canon(c)]);
}

/// A character patterns are made of: a dot, a dash or the word mark.
pub open spec fn is_pattern_char(c: char) -> bool {
    c == '.' || c == '-' || c == '/'
}

/// Separators are never doubled and never stand beside a verbatim control
/// character.
pub open spec fn spacing_ok(o: Seq<char>) -> bool {
    forall|i: int|
        0 <= i < o.len() - 1 ==> !((#[trigger] o[i]) == ' ' && (o[i + 1] == ' ' || is_verbatim(
            o[i + 1],
        ))) && !(is_verbatim(o[i]) && o[i + 1] == ' ')
}

/// No leading or trailing separator: the encoded text never starts or ends
/// with a space, and by [`spacing_ok`] never doubles one nor puts one
/// beside a verbatim control character.
pub proof fn lemma_encode_spacing(s: Seq<char>)
    ensures
        spacing_ok(encode_chars(s)),
        encode_chars(s).len() > 0 ==> encode_chars(s)[0] != ' ',
        encode_chars(s).len() > 0 ==> encode_chars(s)[encode_chars(s).len() - 1] != ' ',
{
    lemma_encode_shape_state(s, false);
}

/// The shape invariant of the encoding fold: well-spaced output that never
/// ends in a separator, whose last character tells whether one is owed.
#[verifier::rlimit(100)]
#[verifier::spinoff_prover]
proof fn lemma_encode_shape_state(s: Seq<char>, w: bool)
    ensures
        ({
            let o = encode_chars_from(s, 0, w).0;
            let w2 = encode_chars_from(s, 0, w).1;
            &&& spacing_ok(o)
            &&& (o.len() > 0 && o[0] == ' ') ==> w
            &&& o.len() == 0 ==> w2 == w
            &&& o.len() > 0 ==> (w2 ==> is_pattern_char(o[o.len() - 1]))
            &&& o.len() > 0 ==> (!w2 ==> is_verbatim(o[o.len() - 1]))
        }),
    decreases s.len(),
{
    reveal_with_fuel(encode_chars_from, 3);
    if s.len() == 0 {
    } else {
        let s0 = s.drop_last();
        let c = s.last();
        lemma_encode_shape_state(s0, w);
        crate::forward::lemma_pattern_shape(c);
        assert(s =~= s0 + seq![c]);
        lemma_encode_chars_concat(s0, seq![c], w);
        assert(seq![c].len() == 1 && seq![c][0] == c);
        let o0 = encode_chars_from(s0, 0, w).0;
        let w0 = encode_chars_from(s0, 0, w).1;
        let p = spec_from_unicode(c);
        let step = encode_step(p, is_verbatim(c), w0);
        assert(encode_chars_from(seq![c], 0, w0).0 =~= step.0);
        assert(encode_chars_from(seq![c], 0, w0).1 == step.1);
        let o = encode_chars_from(s, 0, w).0;
        assert(o =~= o0 + step.0);
        if is_verbatim(c) {
            assert(step.0 == seq![c]);
            assert(spacing_ok(o)) by {
                assert(forall|i: int| 0 <= i < o0.len() ==> o[i] == #[trigger] o0[i]);
                assert(o[o.len() - 1] == c);
            }
        } else if p.len() == 0 {
            assert(o =~= o0);
        } else {
            assert(spacing_ok(o)) by {
                assert(forall|i: int| 0 <= i < o0.len() ==> o[i] == #[trigger] o0[i]);
                if w0 {
                    assert(step.0 =~= seq![' '] + p);
                    assert(forall|i: int|
                        0 <= i < p.len() ==> o[o0.len() + 1 + i] == #[trigger] p[i]);
                    assert(o[o0.len() as int] == ' ');
                } else {
                    assert(step.0 =~= p);
                    assert(forall|i: int|
                        0 <= i < p.len() ==> o[o0.len() + i] == #[trigger] p[i]);
                }
            }
            assert(o[o.len() - 1] == p[p.len() - 1]);
        }
    }
}

/// No leading or trailing separator in ASCII-path encoding either.
pub proof fn lemma_encode_ascii_spacing(s: Seq<u8>)
    ensures
        spacing_ok(encode_ascii(s)),
        encode_ascii(s).len() > 0 ==> encode_ascii(s)[0] != ' ',
        encode_ascii(s).len() > 0 ==> encode_ascii(s)[encode_ascii(s).len() - 1] != ' ',
{
    lemma_encode_ascii_shape_state(s, false);
}

/// The shape invariant of the ASCII encoding fold.
#[verifier::rlimit(100)]
#[verifier::spinoff_prover]
proof fn lemma_encode_ascii_shape_state(s: Seq<u8>, w: bool)
    ensures
        ({
            let o = encode_ascii_from(s, 0, w).0;
            let w2 = encode_ascii_from(s, 0, w).1;
            &&& spacing_ok(o)
            &&& (o.len() > 0 && o[0] == ' ') ==> w
            &&& o.len() == 0 ==> w2 == w
            &&& o.len() > 0 ==> (w2 ==> is_pattern_char(o[o.len() - 1]))
            &&& o.len() > 0 ==> (!w2 ==> is_verbatim(o[o.len() - 1]))
        }),
    decreases s.len(),
{
    reveal_with_fuel(encode_ascii_from, 3);
    if s.len() == 0 {
    } else {
        let s0 = s.drop_last();
        let b = s.last();
        let c = b as char;
        lemma_encode_ascii_shape_state(s0, w);
        crate::forward::lemma_pattern_shape(c);
        assert(s =~= s0 + seq![b]);
        lemma_encode_ascii_concat(s0, seq![b], w);
        assert(seq![b].len() == 1 && seq![b][0] == b);
        let o0 = encode_ascii_from(s0, 0, w).0;
        let w0 = encode_ascii_from(s0, 0, w).1;
        let p = spec_ascii_to_morse(c);
        let verb = b == 9 || b == 10 || b == 13;
        let step = encode_step(p, verb, w0);
        assert(encode_ascii_from(seq![b], 0, w0).0 =~= step.0);
        assert(encode_ascii_from(seq![b], 0, w0).1 == step.1);
        let o = encode_ascii_from(s, 0, w).0;
        assert(o =~= o0 + step.0);
        if verb {
            assert(is_verbatim(c));
            assert(step.0 == seq![c]);
            assert(spacing_ok(o)) by {
                assert(forall|i: int| 0 <= i < o0.len() ==> o[i] == #[trigger] o0[i]);
                assert(o[o.len() - 1] == c);
            }
        } else if p.len() == 0 {
            assert(o =~= o0);
        } else {
            assert(!is_verbatim(c)) by {
                if c == '\t' {
                    assert(b == 9);
                }
                if c == '\n' {
                    assert(b == 10);
                }
                if c == '\r' {
                    assert(b == 13);
                }
            }
            assert(spacing_ok(o)) by {
                assert(forall|i: int| 0 <= i < o0.len() ==> o[i] == #[trigger] o0[i]);
                if w0 {
                    assert(step.0 =~= seq![' '] + p);
                    assert(forall|i: int|
                        0 <= i < p.len() ==> o[o0.len() + 1 + i] == #[trigger] p[i]);
                    assert(o[o0.len() as int] == ' ');
                } else {
                    assert(step.0 =~= p);
                    assert(forall|i: int|
                        0 <= i < p.len() ==> o[o0.len() + i] == #[trigger] p[i]);
                }
            }
            assert(o[o.len() - 1] == p[p.len() - 1]);
        }
    }
}

/// Whether every character of a text is one the standard-script round trip
/// is known to be faithful to: Latin letters and digits, the faithful
/// punctuation, the faithful uppercase Latin extensions, space, tab,
/// newline and carriage return.
pub open spec fn standard_text(s: Seq<char>) -> bool {
    forall|i: int|
        0 <= i < s.len() ==> {
            let c = #[trigger] s[i];
            ||| 97 <= c as u32 <= 122
            ||| 65 <= c as u32 <= 90
            ||| 48 <= c as u32 <= 57
            ||| c == '!' || c == '"' || c == '$' || c == '\'' || c == '(' || c == ')' || c
                == '+' || c == ',' || c == '-' || c == '.' || c == '/' || c == ':' || c == ';'
                || c == '=' || c == '?' || c == '@' || c == '_' || c == '`'
            ||| c == 'Ä' || c == 'Ö' || c == 'Ü' || c == 'É' || c == 'Á' || c == 'Ç' || c == 'Ñ'
            ||| c == ' ' || is_verbatim(c)
        }
}

/// The round-trip law on concrete text: encoding letters, digits, faithful
/// punctuation and whitespace to Morse and decoding again under the
/// standard script gives the text back with Latin letters uppercased and
/// all whitespace kept, a trailing space included.
pub proof fn lemma_round_trip_text(s: Seq<char>)
    requires
        standard_text(s),
    ensures
        decode_bytes(Script::Standard, text_bytes(encode_chars(s))) == canon(s),
{
    assert forall|i: int| 0 <= i < s.len() implies roundtrips(#[trigger] s[i]) by {
        let c = s[i];
        if 97 <= c as u32 <= 122 {
            crate::forward::lemma_lowercase_roundtrips(c);
        } else if 65 <= c as u32 <= 90 {
            crate::forward::lemma_uppercase_roundtrips(c);
        } else if 48 <= c as u32 <= 57 {
            crate::forward::lemma_digit_roundtrips(c);
        } else if c == ' ' || is_verbatim(c) {
        } else if c == 'Ä' || c == 'Ö' || c == 'Ü' || c == 'É' || c == 'Á' || c == 'Ç' || c
            == 'Ñ' {
            crate::forward::lemma_extension_roundtrips(c);
        } else {
            crate::forward::lemma_punctuation_roundtrips(c);
        }
    }
    lemma_round_trip(s);
}

/// On ASCII input the ASCII path and the Unicode path emit the same Morse
/// text.
pub proof fn lemma_ascii_encoder_agrees(s: Seq<u8>, w: bool)
    requires
        forall|i: int| 0 <= i < s.len() ==> #[trigger] s[i] < 128,
    ensures
        encode_ascii_from(s, 0, w) == encode_chars_from(byte_chars(s), 0, w),
{
    lemma_ascii_encoder_agrees_from(s, 0, w);
}

/// A byte sequence read as the characters of its bytes.
pub open spec fn byte_chars(s: Seq<u8>) -> Seq<char> {
    s.map_values(|b: u8| b as char)
}

proof fn lemma_ascii_encoder_agrees_from(s: Seq<u8>, i: int, w: bool)
    requires
        0 <= i <= s.len(),
        forall|j: int| 0 <= j < s.len() ==> #[trigger] s[j] < 128,
    ensures
        encode_ascii_from(s, i, w) == encode_chars_from(byte_chars(s), i, w),
    decreases s.len() - i,
{
    if i < s.len() {
        let b = s[i];
        let c = b as char;
        assert(byte_chars(s)[i] == c);
        crate::forward::lemma_tables_agree_on_ascii(c);
        assert(is_verbatim(c) == (b == 9 || b == 10 || b == 13)) by {
            if c == '\t' {
                assert(b == 9);
            }
            if c == '\n' {
                assert(b == 10);
            }
            if c == '\r' {
                assert(b == 13);
            }
        }
        let step = encode_step(spec_ascii_to_morse(c), b == 9 || b == 10 || b == 13, w);
        lemma_ascii_encoder_agrees_from(s, i + 1, step.1);
    }
}

/// The round-trip law for the ASCII path: encoding faithful ASCII bytes and
/// decoding again gives the text back, Latin letters uppercased.
pub proof fn lemma_round_trip_ascii(s: Seq<u8>)
    requires
        forall|i: int| 0 <= i < s.len() ==> #[trigger] s[i] < 128,
        standard_text(byte_chars(s)),
    ensures
        decode_bytes(Script::Standard, text_bytes(encode_ascii(s))) == canon(byte_chars(s)),
{
    lemma_ascii_encoder_agrees(s, false);
    lemma_round_trip_text(byte_chars(s));
}

} // verus!
