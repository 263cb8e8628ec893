//! Streaming UTF-8 reassembly for the Unicode encoder.
//!
//! Raw byte chunks need not fall on character boundaries.  The session
//! encodes the longest valid UTF-8 prefix of what it has buffered and
//! retains the rest — normally at most the few bytes of one incomplete
//! character — until more bytes arrive; what never becomes valid is dropped
//! when the stream ends.

use crate::encode::encode_buffer_str;
use crate::encode::encode_chars_from;
use vstd::prelude::*;
use vstd::utf8::length_of_first_scalar;
use vstd::utf8::pop_first_scalar;
use vstd::utf8::valid_first_scalar;
use vstd::utf8::valid_utf8;
use vstd::utf8::decode_utf8;

verus! {

/// The length of the longest prefix of `bytes` that is valid UTF-8:
/// characters are read greedily until one is incomplete or malformed.
pub open spec fn utf8_prefix_len(bytes: Seq<u8>) -> int
    decreases bytes.len(),
{
    if valid_first_scalar(bytes) && length_of_first_scalar(bytes) >= 1 {
        length_of_first_scalar(bytes) + utf8_prefix_len(pop_first_scalar(bytes))
    } else {
        0
    }
}

/// The prefix so measured lies within the sequence and is valid UTF-8.
pub proof fn lemma_utf8_prefix_valid(bytes: Seq<u8>)
    ensures
        0 <= utf8_prefix_len(bytes) <= bytes.len(),
        valid_utf8(bytes.take(utf8_prefix_len(bytes))),
    decreases bytes.len(),
{
    if valid_first_scalar(bytes) && length_of_first_scalar(bytes) >= 1 {
        let w = length_of_first_scalar(bytes);
        let rest = pop_first_scalar(bytes);
        lemma_utf8_prefix_valid(rest);
        let n = utf8_prefix_len(bytes);
        let p = bytes.take(n);
        assert(valid_first_scalar(p)) by {
            lemma_first_scalar_extends(p, bytes);
        }
        assert(pop_first_scalar(p) =~= rest.take(utf8_prefix_len(rest)));
    }
}

/// Reading the first character looks only at its own bytes, so it agrees
/// between a sequence and any extension of its prefix.
proof fn lemma_first_scalar_extends(s: Seq<u8>, t: Seq<u8>)
    requires
        valid_first_scalar(s) || valid_first_scalar(t),
        s.len() <= t.len(),
        forall|i: int| 0 <= i < s.len() ==> s[i] == t[i],
        valid_first_scalar(s) ==> length_of_first_scalar(s) <= s.len(),
        valid_first_scalar(t) ==> length_of_first_scalar(t) <= s.len(),
    ensures
        valid_first_scalar(s) && valid_first_scalar(t),
        length_of_first_scalar(s) == length_of_first_scalar(t),
        vstd::utf8::decode_first_scalar(s) == vstd::utf8::decode_first_scalar(t),
{
}

/// Greedy reading composes across an extension: the prefix of `a + b`
/// is the prefix of `a`, then the prefix of what `a` left over joined with
/// `b`; and it decodes to the two parts' characters in order.
pub proof fn lemma_utf8_prefix_append(a: Seq<u8>, b: Seq<u8>)
    ensures
        utf8_prefix_len(a + b) == utf8_prefix_len(a) + utf8_prefix_len(
            a.skip(utf8_prefix_len(a)) + b,
        ),
        decode_utf8((a + b).take(utf8_prefix_len(a + b))) == decode_utf8(
            a.take(utf8_prefix_len(a)),
        ) + decode_utf8(
            (a.skip(utf8_prefix_len(a)) + b).take(utf8_prefix_len(a.skip(utf8_prefix_len(a)) + b)),
        ),
    decreases a.len(),
{
    let n = utf8_prefix_len(a);
    lemma_utf8_prefix_valid(a);
    if valid_first_scalar(a) && length_of_first_scalar(a) >= 1 {
        let w = length_of_first_scalar(a);
        let arest = pop_first_scalar(a);
        lemma_utf8_prefix_valid(arest);
        lemma_first_scalar_extends(a, a + b);
        assert(pop_first_scalar(a + b) =~= arest + b);
        lemma_utf8_prefix_append(arest, b);
        let n1 = utf8_prefix_len(arest);
        assert(arest.skip(n1) =~= a.skip(n));
        // The measured prefix of a + b
        let m = utf8_prefix_len(a.skip(n) + b);
        let total = utf8_prefix_len(a + b);
        assert(total == w + utf8_prefix_len(arest + b));
        assert(total == n + m);
        // Decoding: peel the first character off both sides.
        lemma_utf8_prefix_valid(a + b);
        lemma_utf8_prefix_valid(a.skip(n) + b);
        lemma_utf8_prefix_valid(arest + b);
        let p = (a + b).take(total);
        let pa = a.take(n);
        lemma_first_scalar_extends(p, a + b);
        lemma_first_scalar_extends(pa, a);
        assert(pop_first_scalar(p) =~= (arest + b).take(utf8_prefix_len(arest + b)));
        assert(pop_first_scalar(pa) =~= arest.take(n1));
        let c = vstd::utf8::decode_first_scalar(a) as char;
        assert(decode_utf8(p) == seq![c] + decode_utf8((arest + b).take(
            utf8_prefix_len(arest + b),
        )));
        assert(decode_utf8(pa) == seq![c] + decode_utf8(arest.take(n1)));
        assert(decode_utf8(p) =~= decode_utf8(pa) + decode_utf8((a.skip(n) + b).take(m)));
    } else {
        assert(n == 0);
        assert(a.skip(0) + b =~= a + b);
        assert(a.take(0) =~= Seq::<u8>::empty());
        assert(decode_utf8((a + b).take(utf8_prefix_len(a + b))) =~= decode_utf8(
            a.take(0),
        ) + decode_utf8((a.skip(0) + b).take(utf8_prefix_len(a.skip(0) + b))));
    }
}

/// Relies on simdutf8's `compat::from_utf8`: like `std::str::from_utf8`, it
/// accepts the whole input when it is valid UTF-8, and otherwise reports as
/// `valid_up_to` the length of the longest valid prefix, which is then
/// converted as a string slice.
#[verifier::external_body]
fn utf8_valid_prefix(bytes: &[u8]) -> (r: (&str, usize))
    ensures
        r.1 == utf8_prefix_len(bytes@),
        r.0@ == decode_utf8(bytes@.take(r.1 as int)),
{
    match simdutf8::compat::from_utf8(bytes) {
        Ok(s) => (s, bytes.len()),
        Err(e) => {
            let n = e.valid_up_to();
            (core::str::from_utf8(&bytes[..n]).unwrap(), n)
        },
    }
}

/// One push of the Unicode encoding session: the carried bytes joined with
/// the chunk, the longest valid UTF-8 prefix of that encoded from the
/// carried separator flag, and the rest carried on.
pub open spec fn stream_push(carry: Seq<u8>, owed: bool, chunk: Seq<u8>) -> (Seq<char>, bool, Seq<
    u8,
>) {
    let buf = carry + chunk;
    let n = utf8_prefix_len(buf);
    let (out, w) = encode_chars_from(decode_utf8(buf.take(n)), 0, owed);
    (out, w, buf.skip(n))
}

/// A chunked Unicode encoding session.
///
/// Raw byte chunks are reassembled into UTF-8 characters across chunk
/// boundaries and encoded as [`crate::encode_string`] would encode the whole
/// text: the state carried across chunks is the pending-separator flag and
/// the bytes not yet part of a complete character.
pub struct StreamEncoder {
    owed: bool,
    carry: Vec<u8>,
}

impl StreamEncoder {
    /// Whether a letter separator is owed before the next emitted pattern.
    pub closed spec fn pending_separator(&self) -> bool {
        self.owed
    }

    /// The bytes retained because they do not yet form a complete
    /// character.
    pub closed spec fn carried_bytes(&self) -> Seq<u8> {
        self.carry@
    }

    /// Start a session: no separator owed, no bytes carried.
    pub fn new() -> (r: StreamEncoder)
        ensures
            !r.pending_separator(),
            r.carried_bytes() == Seq::<u8>::empty(),
    {
        StreamEncoder { owed: false, carry: Vec::new() }
    }

    /// Encode the next chunk of raw bytes and return its Morse text.
    pub fn push(&mut self, chunk: &[u8]) -> (out: String)
        ensures
            out@ == stream_push(
                old(self).carried_bytes(),
                old(self).pending_separator(),
                chunk@,
            ).0,
            final(self).pending_separator() == stream_push(
                old(self).carried_bytes(),
                old(self).pending_separator(),
                chunk@,
            ).1,
            final(self).carried_bytes() == stream_push(
                old(self).carried_bytes(),
                old(self).pending_separator(),
                chunk@,
            ).2,
    {
        let ghost carry0 = self.carry@;
        let ghost owed0 = self.owed;
        let mut j: usize = 0;
        proof {
            assert(self.carry@ =~= carry0 + chunk@.take(0));
        }
        while j < chunk.len()
            invariant
                j <= chunk@.len(),
                self.owed == owed0,
                self.carry@ == carry0 + chunk@.take(j as int),
            decreases chunk@.len() - j,
        {
            self.carry.push(chunk[j]);
            proof {
                assert(self.carry@ =~= carry0 + chunk@.take(j + 1));
            }
            j = j + 1;
        }
        proof {
            assert(self.carry@ =~= carry0 + chunk@);
        }
        proof {
            lemma_utf8_prefix_valid(self.carry@);
        }
        let (prefix, n) = utf8_valid_prefix(self.carry.as_slice());
        let mut out = String::new();
        self.owed = encode_buffer_str(prefix, &mut out, self.owed);
        let rest = self.carry.split_off(n);
        self.carry = rest;
        proof {
            let buf = carry0 + chunk@;
            assert(buf =~= carry0 + chunk@);
            let spec_n = utf8_prefix_len(buf);
            assert(n == spec_n);
            assert(out@ =~= encode_chars_from(decode_utf8(buf.take(spec_n)), 0, owed0).0);
            assert(self.carry@ =~= buf.skip(spec_n));
        }
        out
    }

    /// End the stream: bytes that never became a complete character are
    /// dropped.
    pub fn finish(&mut self) -> (out: String)
        ensures
            out@ == Seq::<char>::empty(),
            final(self).carried_bytes() == Seq::<u8>::empty(),
            final(self).pending_separator() == old(self).pending_separator(),
    {
        self.carry.clear();
        String::new()
    }
}

/// What a chunked Unicode encoding session emits over a sequence of chunks:
/// the concatenation of each chunk's output, with the final flag and carry.
pub open spec fn stream_session(chunks: Seq<Seq<u8>>, owed: bool, carry: Seq<u8>) -> (
    Seq<char>,
    bool,
    Seq<u8>,
)
    decreases chunks.len(),
{
    if chunks.len() == 0 {
        (Seq::empty(), owed, carry)
    } else {
        let (o, w1, c1) = stream_push(carry, owed, chunks[0]);
        let (rest, w2, c2) = stream_session(chunks.drop_first(), w1, c1);
        (o + rest, w2, c2)
    }
}

/// What the greedy prefix leaves over has no valid prefix of its own.
pub proof fn lemma_utf8_prefix_leftover(bytes: Seq<u8>)
    ensures
        utf8_prefix_len(bytes.skip(utf8_prefix_len(bytes))) == 0,
{
    lemma_utf8_prefix_append(bytes, Seq::empty());
    assert(bytes + Seq::<u8>::empty() =~= bytes);
    assert(bytes.skip(utf8_prefix_len(bytes)) + Seq::<u8>::empty() =~= bytes.skip(
        utf8_prefix_len(bytes),
    ));
}

/// Chunk-boundary invariance of the Unicode encoder: feeding any split of
/// the input chunk by chunk emits, concatenated, byte for byte the Morse
/// text that one push of the whole input would emit.
pub proof fn lemma_stream_chunking(chunks: Seq<Seq<u8>>)
    ensures
        stream_session(chunks, false, Seq::empty()).0 == stream_push(
            Seq::empty(),
            false,
            chunks.flatten(),
        ).0,
{
    lemma_stream_session_flatten(chunks, false, Seq::empty());
}

proof fn lemma_stream_session_flatten(chunks: Seq<Seq<u8>>, owed: bool, carry: Seq<u8>)
    requires
        utf8_prefix_len(carry) == 0,
    ensures
        stream_session(chunks, owed, carry) == stream_push(carry, owed, chunks.flatten()),
    decreases chunks.len(),
{
    if chunks.len() == 0 {
        // No chunks: the session leaves the carry untouched, and a push of
        // the empty flattening finds no valid prefix to encode either.
        assert(chunks.flatten() =~= Seq::<u8>::empty());
        let buf = carry + chunks.flatten();
        assert(buf =~= carry);
        assert(buf.take(0) =~= Seq::<u8>::empty());
        assert(buf.skip(0) =~= carry);
        assert(decode_utf8(Seq::<u8>::empty()) =~= Seq::<char>::empty());
        assert(stream_push(carry, owed, chunks.flatten()).0 =~= Seq::<char>::empty());
    } else {
        let head = chunks[0];
        let tail = chunks.drop_first();
        let tf = tail.flatten();
        assert(chunks.flatten() == head + tf);
        let buf1 = carry + head;
        let n1 = utf8_prefix_len(buf1);
        let d1 = decode_utf8(buf1.take(n1));
        let (o1, w1, c1) = stream_push(carry, owed, head);
        lemma_utf8_prefix_leftover(buf1);
        lemma_stream_session_flatten(tail, w1, c1);
        lemma_utf8_prefix_append(buf1, tf);
        let m = utf8_prefix_len(c1 + tf);
        let d2 = decode_utf8((c1 + tf).take(m));
        // The one-shot push sees the same buffer and splits the same way.
        let buf = carry + (head + tf);
        assert(buf =~= buf1 + tf);
        assert(utf8_prefix_len(buf) == n1 + m);
        assert(decode_utf8(buf.take(n1 + m)) == d1 + d2);
        crate::encode::lemma_encode_chars_concat(d1, d2, owed);
        lemma_utf8_prefix_valid(buf1);
        lemma_utf8_prefix_valid(c1 + tf);
        assert(c1 + tf =~= buf.skip(n1));
        assert(buf.skip(n1 + m) =~= (c1 + tf).skip(m));
        assert(stream_session(chunks, owed, carry).0 =~= stream_push(
            carry,
            owed,
            chunks.flatten(),
        ).0);
    }
}

} // verus!
