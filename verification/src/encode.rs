//! The encoder: characters in, Morse text out.
//!
//! Each mappable character's pattern is separated from the next by exactly
//! one space; a leading space never appears and no trailing space appears.
//! Tab, newline and carriage return pass through verbatim and absorb the
//! letter spacing around them.  The separator logic is a fold over the input
//! with one carried bit, the pending-separator flag, so that it can be
//! resumed chunk by chunk.

use crate::forward::ascii_to_morse;
use crate::forward::is_verbatim;
use crate::forward::spec_ascii_to_morse;
use crate::forward::from_unicode;
use crate::forward::spec_from_unicode;
use vstd::prelude::*;
use vstd::string::StringExecFns;

verus! {

broadcast use vstd::string::axiom_spec_iter;

/// One step of the encoding fold over the given pattern table: the output
/// emitted for one character and the new pending-separator flag.
pub open spec fn encode_step(p: Seq<char>, verbatim: bool, owed: bool) -> (Seq<char>, bool) {
    if verbatim {
        (p, false)
    } else if p.len() == 0 {
        (Seq::empty(), owed)
    } else if owed {
        (seq![' '] + p, true)
    } else {
        (p, true)
    }
}

/// The encoding fold over input bytes read as ASCII, from index `i` on,
/// starting with pending-separator flag `owed`.
pub open spec fn encode_ascii_from(s: Seq<u8>, i: int, owed: bool) -> (Seq<char>, bool)
    decreases s.len() - i,
{
    if i < 0 || i >= s.len() {
        (Seq::empty(), owed)
    } else {
        let b = s[i];
        let (o, w) = encode_step(
            spec_ascii_to_morse(b as char),
            b == 9 || b == 10 || b == 13,
            owed,
        );
        let (rest, w2) = encode_ascii_from(s, i + 1, w);
        (o + rest, w2)
    }
}

/// What encoding a whole byte sequence as ASCII emits, with no separator
/// owed at the start: the Morse text of `s`.
pub open spec fn encode_ascii(s: Seq<u8>) -> Seq<char> {
    encode_ascii_from(s, 0, false).0
}

/// Encode one buffer of ASCII bytes onto `output`, resuming from (and
/// handing back) the pending-separator flag.
fn encode_buffer_ascii(input: &[u8], output: &mut String, owed: bool) -> (w: bool)
    ensures
        final(output)@ == old(output)@ + encode_ascii_from(input@, 0, owed).0,
        w == encode_ascii_from(input@, 0, owed).1,
{
    let ghost orig = old(output)@;
    let mut w = owed;
    let mut i: usize = 0;
    while i < input.len()
        invariant
            i <= input@.len(),
            output@.len() >= orig.len(),
            output@.take(orig.len() as int) == orig,
            encode_ascii_from(input@, 0, owed).0 == output@.skip(orig.len() as int)
                + encode_ascii_from(input@, i as int, w).0,
            encode_ascii_from(input@, 0, owed).1 == encode_ascii_from(input@, i as int, w).1,
        decreases input@.len() - i,
    {
        let ghost pre = output@;
        let ghost w0 = w;
        let b = input[i];
        let p = ascii_to_morse(b as char);
        if b == 9 || b == 10 || b == 13 {
            output.append(p);
            w = false;
        } else if p.is_empty() {
        } else {
            if w {
                output.append(" ");
            }
            output.append(p);
            w = true;
        }
        proof {
            reveal_strlit(" ");
            assert(" "@ =~= seq![' ']);
            let step = encode_step(
                spec_ascii_to_morse(b as char),
                b == 9 || b == 10 || b == 13,
                w0,
            );
            assert(output@ =~= pre + step.0);
            assert(output@.take(orig.len() as int) =~= orig);
            assert(output@.skip(orig.len() as int) + encode_ascii_from(input@, i + 1, w).0
                =~= pre.skip(orig.len() as int) + (step.0 + encode_ascii_from(input@, i + 1, w).0));
        }
        i = i + 1;
    }
    proof {
        assert(output@ =~= orig + output@.skip(orig.len() as int));
        assert(encode_ascii_from(input@, i as int, w).0 =~= Seq::empty());
        assert(encode_ascii_from(input@, 0, owed).0 =~= output@.skip(orig.len() as int));
    }
    w
}

/// Encode ASCII bytes into Morse text.
///
/// Bytes are read as ASCII characters: every mappable character's pattern is
/// emitted with one space between patterns, a space maps to `/`, tab,
/// newline and carriage return pass through verbatim, and anything without a
/// mapping (control bytes, a few ASCII characters, bytes of 128 and above)
/// is dropped without a separator artifact.  The result has no leading or
/// trailing space.
pub fn encode_string_ascii(input: &[u8]) -> (r: String)
    ensures
        r@ == encode_ascii(input@),
{
    let mut output = String::new();
    encode_buffer_ascii(input, &mut output, false);
    output
}

/// A chunked ASCII encoding session.
///
/// Feeding chunks one by one produces, concatenated, exactly the text that
/// one [`encode_string_ascii`] call on the whole input would: the only state
/// carried across chunks is whether a letter separator is owed before the
/// next pattern.
pub struct AsciiEncoder {
    owed: bool,
}

impl AsciiEncoder {
    /// Whether a letter separator is owed before the next emitted pattern.
    pub closed spec fn pending_separator(&self) -> bool {
        self.owed
    }

    /// Start a session: no separator is owed.
    pub fn new() -> (r: AsciiEncoder)
        ensures
            !r.pending_separator(),
    {
        AsciiEncoder { owed: false }
    }

    /// Encode the next chunk of input and return its Morse text.
    pub fn push(&mut self, chunk: &[u8]) -> (out: String)
        ensures
            out@ == encode_ascii_from(chunk@, 0, old(self).pending_separator()).0,
            final(self).pending_separator() == encode_ascii_from(
                chunk@,
                0,
                old(self).pending_separator(),
            ).1,
    {
        let mut out = String::new();
        self.owed = encode_buffer_ascii(chunk, &mut out, self.owed);
        out
    }
}

/// The encoding fold over Unicode characters, from index `i` on, starting
/// with pending-separator flag `owed`.
pub open spec fn encode_chars_from(s: Seq<char>, i: int, owed: bool) -> (Seq<char>, bool)
    decreases s.len() - i,
{
    if i < 0 || i >= s.len() {
        (Seq::empty(), owed)
    } else {
        let c = s[i];
        let (o, w) = encode_step(spec_from_unicode(c), is_verbatim(c), owed);
        let (rest, w2) = encode_chars_from(s, i + 1, w);
        (o + rest, w2)
    }
}

/// What encoding a whole character sequence emits, with no separator owed at
/// the start: the Morse text of `s`.
pub open spec fn encode_chars(s: Seq<char>) -> Seq<char> {
    encode_chars_from(s, 0, false).0
}

/// Encode one buffer of text onto `output`, resuming from (and handing back)
/// the pending-separator flag.
pub(crate) fn encode_buffer_str(input: &str, output: &mut String, owed: bool) -> (w: bool)
    ensures
        final(output)@ == old(output)@ + encode_chars_from(input@, 0, owed).0,
        w == encode_chars_from(input@, 0, owed).1,
{
    let ghost orig = old(output)@;
    let mut w = owed;
    for c in it: input.chars()
        invariant
            it.seq() == input@,
            output@.len() >= orig.len(),
            output@.take(orig.len() as int) == orig,
            encode_chars_from(input@, 0, owed).0 == output@.skip(orig.len() as int)
                + encode_chars_from(input@, it.index(), w).0,
            encode_chars_from(input@, 0, owed).1 == encode_chars_from(input@, it.index(), w).1,
    {
        let ghost pre = output@;
        let ghost w0 = w;
        let ghost i = it.index();
        let p = from_unicode(c);
        if c == '\t' || c == '\n' || c == '\r' {
            output.append(p);
            w = false;
        } else if p.is_empty() {
        } else {
            if w {
                output.append(" ");
            }
            output.append(p);
            w = true;
        }
        proof {
            reveal_strlit(" ");
            assert(" "@ =~= seq![' ']);
            let step = encode_step(spec_from_unicode(c), is_verbatim(c), w0);
            assert(output@ =~= pre + step.0);
            assert(output@.take(orig.len() as int) =~= orig);
            assert(output@.skip(orig.len() as int) + encode_chars_from(input@, i + 1, w).0
                =~= pre.skip(orig.len() as int) + (step.0 + encode_chars_from(input@, i + 1, w).0));
        }
    }
    proof {
        assert(output@ =~= orig + output@.skip(orig.len() as int));
        assert(encode_chars_from(input@, input@.len() as int, w).0 =~= Seq::empty());
        assert(encode_chars_from(input@, 0, owed).0 =~= output@.skip(orig.len() as int));
    }
    w
}

/// Encode text into Morse text.
///
/// Every mappable character's pattern is emitted with one space between
/// patterns, a space maps to `/`, tab, newline and carriage return pass
/// through verbatim, and a character without a mapping is dropped without a
/// separator artifact.  The result has no leading or trailing space.
pub fn encode_string(input: &str) -> (r: String)
    ensures
        r@ == encode_chars(input@),
{
    let mut output = String::new();
    encode_buffer_str(input, &mut output, false);
    output
}

proof fn lemma_encode_ascii_shift(a: Seq<u8>, b: Seq<u8>, j: int, w: bool)
    requires
        0 <= j <= b.len(),
    ensures
        encode_ascii_from(a + b, a.len() + j, w) == encode_ascii_from(b, j, w),
    decreases b.len() - j,
{
    if j < b.len() {
        assert((a + b)[a.len() + j] == b[j]);
        let step = encode_step(
            spec_ascii_to_morse(b[j] as char),
            b[j] == 9 || b[j] == 10 || b[j] == 13,
            w,
        );
        lemma_encode_ascii_shift(a, b, j + 1, step.1);
        assert(a.len() + (j + 1) == (a.len() + j) + 1);
    }
}

proof fn lemma_encode_ascii_concat_from(a: Seq<u8>, b: Seq<u8>, i: int, w: bool)
    requires
        0 <= i <= a.len(),
    ensures
        encode_ascii_from(a + b, i, w).0 == encode_ascii_from(a, i, w).0 + encode_ascii_from(
            b,
            0,
            encode_ascii_from(a, i, w).1,
        ).0,
        encode_ascii_from(a + b, i, w).1 == encode_ascii_from(
            b,
            0,
            encode_ascii_from(a, i, w).1,
        ).1,
    decreases a.len() - i,
{
    if i == a.len() {
        lemma_encode_ascii_shift(a, b, 0, w);
        assert(encode_ascii_from(a + b, i, w).0 =~= encode_ascii_from(a, i, w).0
            + encode_ascii_from(b, 0, w).0);
    } else {
        assert((a + b)[i] == a[i]);
        let step = encode_step(
            spec_ascii_to_morse(a[i] as char),
            a[i] == 9 || a[i] == 10 || a[i] == 13,
            w,
        );
        lemma_encode_ascii_concat_from(a, b, i + 1, step.1);
        let wa = encode_ascii_from(a, i, w).1;
        assert(encode_ascii_from(a + b, i, w).0 =~= encode_ascii_from(a, i, w).0
            + encode_ascii_from(b, 0, wa).0);
    }
}

/// Encoding a concatenation is encoding the parts in sequence, handing the
/// pending-separator flag from the first part to the second.
pub proof fn lemma_encode_ascii_concat(a: Seq<u8>, b: Seq<u8>, w: bool)
    ensures
        encode_ascii_from(a + b, 0, w).0 == encode_ascii_from(a, 0, w).0 + encode_ascii_from(
            b,
            0,
            encode_ascii_from(a, 0, w).1,
        ).0,
        encode_ascii_from(a + b, 0, w).1 == encode_ascii_from(
            b,
            0,
            encode_ascii_from(a, 0, w).1,
        ).1,
{
    lemma_encode_ascii_concat_from(a, b, 0, w);
}

/// What a chunked ASCII encoding session emits over a sequence of chunks:
/// the concatenation of each chunk's output, and the final flag.
pub open spec fn ascii_session_out(chunks: Seq<Seq<u8>>, w: bool) -> (Seq<char>, bool)
    decreases chunks.len(),
{
    if chunks.len() == 0 {
        (Seq::empty(), w)
    } else {
        let (o, w1) = encode_ascii_from(chunks[0], 0, w);
        let (rest, w2) = ascii_session_out(chunks.drop_first(), w1);
        (o + rest, w2)
    }
}

/// Chunk-boundary invariance of the ASCII encoder: feeding any split of the
/// input chunk by chunk emits, concatenated, byte for byte the Morse text of
/// the whole input encoded in one call.
pub proof fn lemma_ascii_chunking(chunks: Seq<Seq<u8>>)
    ensures
        ascii_session_out(chunks, false).0 == encode_ascii(chunks.flatten()),
{
    lemma_ascii_session_flatten(chunks, false);
}

proof fn lemma_ascii_session_flatten(chunks: Seq<Seq<u8>>, w: bool)
    ensures
        ascii_session_out(chunks, w) == encode_ascii_from(chunks.flatten(), 0, w),
    decreases chunks.len(),
{
    if chunks.len() == 0 {
        assert(chunks.flatten() =~= Seq::<u8>::empty());
        assert(ascii_session_out(chunks, w).0 =~= encode_ascii_from(chunks.flatten(), 0, w).0);
    } else {
        let head = chunks[0];
        let tail = chunks.drop_first();
        assert(chunks.flatten() == head + tail.flatten());
        let w1 = encode_ascii_from(head, 0, w).1;
        lemma_encode_ascii_concat(head, tail.flatten(), w);
        lemma_ascii_session_flatten(tail, w1);
    }
}

proof fn lemma_encode_chars_shift(a: Seq<char>, b: Seq<char>, j: int, w: bool)
    requires
        0 <= j <= b.len(),
    ensures
        encode_chars_from(a + b, a.len() + j, w) == encode_chars_from(b, j, w),
    decreases b.len() - j,
{
    if j < b.len() {
        assert((a + b)[a.len() + j] == b[j]);
        let step = encode_step(spec_from_unicode(b[j]), is_verbatim(b[j]), w);
        lemma_encode_chars_shift(a, b, j + 1, step.1);
        assert(a.len() + (j + 1) == (a.len() + j) + 1);
    }
}

proof fn lemma_encode_chars_concat_from(a: Seq<char>, b: Seq<char>, i: int, w: bool)
    requires
        0 <= i <= a.len(),
    ensures
        encode_chars_from(a + b, i, w).0 == encode_chars_from(a, i, w).0 + encode_chars_from(
            b,
            0,
            encode_chars_from(a, i, w).1,
        ).0,
        encode_chars_from(a + b, i, w).1 == encode_chars_from(
            b,
            0,
            encode_chars_from(a, i, w).1,
        ).1,
    decreases a.len() - i,
{
    if i == a.len() {
        lemma_encode_chars_shift(a, b, 0, w);
        assert(encode_chars_from(a + b, i, w).0 =~= encode_chars_from(a, i, w).0
            + encode_chars_from(b, 0, w).0);
    } else {
        assert((a + b)[i] == a[i]);
        let step = encode_step(spec_from_unicode(a[i]), is_verbatim(a[i]), w);
        lemma_encode_chars_concat_from(a, b, i + 1, step.1);
        let wa = encode_chars_from(a, i, w).1;
        assert(encode_chars_from(a + b, i, w).0 =~= encode_chars_from(a, i, w).0
            + encode_chars_from(b, 0, wa).0);
    }
}

/// Encoding a concatenation of texts is encoding the parts in sequence,
/// handing the pending-separator flag from the first part to the second.
pub proof fn lemma_encode_chars_concat(a: Seq<char>, b: Seq<char>, w: bool)
    ensures
        encode_chars_from(a + b, 0, w).0 == encode_chars_from(a, 0, w).0 + encode_chars_from(
            b,
            0,
            encode_chars_from(a, 0, w).1,
        ).0,
        encode_chars_from(a + b, 0, w).1 == encode_chars_from(
            b,
            0,
            encode_chars_from(a, 0, w).1,
        ).1,
{
    lemma_encode_chars_concat_from(a, b, 0, w);
}

} // verus!
