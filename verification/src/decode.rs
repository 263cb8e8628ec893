//! The decoder: Morse text in, characters out.
//!
//! The input is scanned byte by byte.  Dot and dash bytes (and any other
//! printable ASCII byte, of which only the low bit matters) accumulate into
//! the current run; any byte of 32 or below terminates the run, which is
//! packed into its binary key and looked up in the chosen script's reverse
//! table; `/` emits a word space; tab, newline and carriage return pass
//! through verbatim; bytes of 128 and above (UTF-8 continuation bytes) are
//! ignored.  Unknown runs, and runs longer than 7 elements, decode to
//! nothing.  The run pending at a chunk boundary is carried to the next
//! chunk, or force-decoded when the stream ends.

use crate::packer::key_of;
use crate::packer::lemma_key_of_range_bounds;
use crate::packer::lemma_key_of_range_congruent;
use crate::packer::morse_to_binary_fast;
use crate::reverse::char_of_key;
use crate::reverse::spec_char_of_key;
use crate::reverse::Script;
use vstd::arithmetic::power2::lemma2_to64;
use vstd::prelude::*;
use vstd::string::StringExecFns;

verus! {

/// What one terminated run decodes to: the character its binary key maps to
/// in the script's reverse table, nothing if the key is unmapped, and
/// nothing for a run of more than 7 elements, which no table entry can hold.
pub open spec fn decode_run(script: Script, run: Seq<u8>) -> Seq<char> {
    if run.len() <= 7 {
        let c = spec_char_of_key(script, key_of(run) as u8);
        if c == '\0' {
            Seq::empty()
        } else {
            seq![c]
        }
    } else {
        Seq::empty()
    }
}

/// One step of the decoding fold: the output emitted for one input byte and
/// the new pending run.
pub open spec fn decode_step(script: Script, b: u8, run: Seq<u8>) -> (Seq<char>, Seq<u8>) {
    if b == 9 || b == 10 || b == 13 {
        (decode_run(script, run) + seq![b as char], Seq::empty())
    } else if b <= 32 {
        (decode_run(script, run), Seq::empty())
    } else if b == 47 {
        (seq![' '], Seq::empty())
    } else if b < 128 {
        (Seq::empty(), run.push(b))
    } else {
        (Seq::empty(), run)
    }
}

/// The decoding fold over input bytes from index `i` on, starting with the
/// pending run `run`.
pub open spec fn decode_from(script: Script, s: Seq<u8>, i: int, run: Seq<u8>) -> (
    Seq<char>,
    Seq<u8>,
)
    decreases s.len() - i,
{
    if i < 0 || i >= s.len() {
        (Seq::empty(), run)
    } else {
        let (o, r) = decode_step(script, s[i], run);
        let (rest, r2) = decode_from(script, s, i + 1, r);
        (o + rest, r2)
    }
}

/// What decoding a whole byte sequence emits: the fold over all bytes, then
/// the trailing unterminated run force-decoded.
pub open spec fn decode_bytes(script: Script, s: Seq<u8>) -> Seq<char> {
    let (o, run) = decode_from(script, s, 0, Seq::empty());
    o + decode_run(script, run)
}

/// A chunked decoding session.
///
/// Feeding chunks one by one and finishing produces, concatenated, exactly
/// the text that one [`decode_string`] call on the whole input would: the
/// only state carried across chunks is the unterminated trailing run.  Of
/// that run the session stores at most 8 bytes, enough to tell every
/// decodable run apart from every overlong one.
pub struct StreamDecoder {
    script: Script,
    /// Always 8 bytes, so that the packer's fast path has its runway; the
    /// first `len` bytes hold the start of the pending run.
    buf: Vec<u8>,
    len: usize,
    pending: Ghost<Seq<u8>>,
}

impl StreamDecoder {
    /// The script whose reverse table the session decodes with.
    pub closed spec fn script(&self) -> Script {
        self.script
    }

    /// The unterminated run carried from the chunks fed so far.
    pub closed spec fn pending_run(&self) -> Seq<u8> {
        self.pending@
    }

    /// The session's internal invariant: the buffer holds the first bytes
    /// of the pending run, up to 8 of them.
    pub closed spec fn wf(&self) -> bool {
        &&& self.buf@.len() == 8
        &&& self.len <= 8
        &&& (self.pending@.len() >= 8 ==> self.len == 8)
        &&& (self.pending@.len() < 8 ==> self.len == self.pending@.len())
        &&& forall|i: int| 0 <= i < self.len ==> self.buf@[i] == self.pending@[i]
    }

    /// Start a session for the given script: no run is pending.
    pub fn new(script: Script) -> (r: StreamDecoder)
        ensures
            r.wf(),
            r.script() == script,
            r.pending_run() == Seq::<u8>::empty(),
    {
        StreamDecoder { script, buf: vec![0u8; 8], len: 0, pending: Ghost(Seq::empty()) }
    }

    /// Decode the pending run, emit its character if any, and clear it.
    fn flush_run(&mut self, out: &mut String)
        requires
            old(self).wf(),
        ensures
            final(self).wf(),
            final(out)@ == old(out)@ + decode_run(old(self).script(), old(self).pending_run()),
            final(self).script() == old(self).script(),
            final(self).pending_run() == Seq::<u8>::empty(),
    {
        if self.len <= 7 {
            proof {
                lemma_key_of_range_congruent(self.pending@, self.buf@, 0, self.len as int, 0);
                lemma_key_of_range_bounds(self.buf@, 0, self.len as int);
                lemma2_to64();
            }
            let key = morse_to_binary_fast(self.buf.as_slice(), self.len);
            let c = char_of_key(self.script, key);
            if c != '\0' {
                push_char(out, c);
            }
        }
        self.len = 0;
        proof {
            self.pending@ = Seq::empty();
        }
    }

    /// Decode the next chunk of input and return its text; the trailing
    /// unterminated run stays pending.
    pub fn push(&mut self, chunk: &[u8]) -> (out: String)
        requires
            old(self).wf(),
        ensures
            final(self).wf(),
            out@ == decode_from(old(self).script(), chunk@, 0, old(self).pending_run()).0,
            final(self).pending_run() == decode_from(
                old(self).script(),
                chunk@,
                0,
                old(self).pending_run(),
            ).1,
            final(self).script() == old(self).script(),
    {
        let ghost script = self.script;
        let ghost run0 = self.pending@;
        let mut out = String::new();
        let mut i: usize = 0;
        while i < chunk.len()
            invariant
                self.wf(),
                i <= chunk@.len(),
                self.script == script,
                decode_from(script, chunk@, 0, run0).0 == out@ + decode_from(
                    script,
                    chunk@,
                    i as int,
                    self.pending@,
                ).0,
                decode_from(script, chunk@, 0, run0).1 == decode_from(
                    script,
                    chunk@,
                    i as int,
                    self.pending@,
                ).1,
            decreases chunk@.len() - i,
        {
            let ghost pre = out@;
            let ghost run_pre = self.pending@;
            let b = chunk[i];
            if b <= 32 {
                self.flush_run(&mut out);
                if b == 9 || b == 10 || b == 13 {
                    push_char(&mut out, b as char);
                }
            } else if b == 47 {
                self.flush_word_space(&mut out);
            } else if b < 128 {
                self.extend_run(b);
            }
            proof {
                let step = decode_step(script, b, run_pre);
                assert(out@ =~= pre + step.0);
                assert(decode_from(script, chunk@, 0, run0).0 =~= out@ + decode_from(
                    script,
                    chunk@,
                    i + 1,
                    self.pending@,
                ).0);
            }
            i = i + 1;
        }
        proof {
            assert(decode_from(script, chunk@, 0, run0).0 =~= out@);
        }
        out
    }

    /// Emit a word space and drop whatever run was pending: a slash is only
    /// valid right after a completed letter, so the bytes before it belong
    /// to no symbol.
    fn flush_word_space(&mut self, out: &mut String)
        requires
            old(self).wf(),
        ensures
            final(self).wf(),
            final(out)@ == old(out)@ + seq![' '],
            final(self).script() == old(self).script(),
            final(self).pending_run() == Seq::<u8>::empty(),
    {
        push_char(out, ' ');
        self.len = 0;
        proof {
            self.pending@ = Seq::empty();
        }
    }

    /// Add one byte to the pending run, keeping at most 8 bytes of it.
    fn extend_run(&mut self, b: u8)
        requires
            old(self).wf(),
        ensures
            final(self).wf(),
            final(self).script() == old(self).script(),
            final(self).pending_run() == old(self).pending_run().push(b),
    {
        if self.len < 8 {
            let n = self.len;
            self.buf[n] = b;
            self.len = n + 1;
        }
        proof {
            self.pending@ = self.pending@.push(b);
        }
    }

    /// End the stream: force-decode the pending run as if terminated.
    pub fn finish(&mut self) -> (out: String)
        requires
            old(self).wf(),
        ensures
            final(self).wf(),
            out@ == decode_run(old(self).script(), old(self).pending_run()),
            final(self).pending_run() == Seq::<u8>::empty(),
            final(self).script() == old(self).script(),
    {
        let mut out = String::new();
        self.flush_run(&mut out);
        out
    }
}

/// Relies on `String::push` of std: it appends one character.
#[verifier::external_body]
fn push_char(s: &mut String, c: char)
    ensures
        final(s)@ == old(s)@.push(c),
{
    s.push(c);
}

/// Decode Morse text into a string.
///
/// - a dot or dash byte extends the current run;
/// - a space terminates the run, which decodes through the script's reverse
///   table (an unknown or overlong run decodes to nothing), and is consumed;
/// - `/` marks a word boundary and decodes to one space;
/// - tab, newline and carriage return also terminate the run and pass
///   through verbatim;
/// - any other byte of 32 or below terminates the run and is consumed;
/// - bytes of 128 and above (UTF-8 continuation bytes) are ignored.
///
/// A trailing unterminated run is decoded as if terminated.
pub fn decode_string(input: &[u8], script: Script) -> (r: String)
    ensures
        r@ == decode_bytes(script, input@),
{
    let mut d = StreamDecoder::new(script);
    let mut out = d.push(input);
    let tail = d.finish();
    out.append(tail.as_str());
    out
}

proof fn lemma_decode_shift(script: Script, a: Seq<u8>, b: Seq<u8>, j: int, run: Seq<u8>)
    requires
        0 <= j <= b.len(),
    ensures
        decode_from(script, a + b, a.len() + j, run) == decode_from(script, b, j, run),
    decreases b.len() - j,
{
    if j < b.len() {
        assert((a + b)[a.len() + j] == b[j]);
        let step = decode_step(script, b[j], run);
        lemma_decode_shift(script, a, b, j + 1, step.1);
        assert(a.len() + (j + 1) == (a.len() + j) + 1);
    }
}

proof fn lemma_decode_concat_from(script: Script, a: Seq<u8>, b: Seq<u8>, i: int, run: Seq<u8>)
    requires
        0 <= i <= a.len(),
    ensures
        decode_from(script, a + b, i, run).0 == decode_from(script, a, i, run).0 + decode_from(
            script,
            b,
            0,
            decode_from(script, a, i, run).1,
        ).0,
        decode_from(script, a + b, i, run).1 == decode_from(
            script,
            b,
            0,
            decode_from(script, a, i, run).1,
        ).1,
    decreases a.len() - i,
{
    if i == a.len() {
        lemma_decode_shift(script, a, b, 0, run);
        assert(decode_from(script, a + b, i, run).0 =~= decode_from(script, a, i, run).0
            + decode_from(script, b, 0, run).0);
    } else {
        assert((a + b)[i] == a[i]);
        let step = decode_step(script, a[i], run);
        lemma_decode_concat_from(script, a, b, i + 1, step.1);
        let ra = decode_from(script, a, i, run).1;
        assert(decode_from(script, a + b, i, run).0 =~= decode_from(script, a, i, run).0
            + decode_from(script, b, 0, ra).0);
    }
}

/// Decoding a concatenation is decoding the parts in sequence, handing the
/// pending run from the first part to the second.
pub proof fn lemma_decode_concat(script: Script, a: Seq<u8>, b: Seq<u8>, run: Seq<u8>)
    ensures
        decode_from(script, a + b, 0, run).0 == decode_from(script, a, 0, run).0 + decode_from(
            script,
            b,
            0,
            decode_from(script, a, 0, run).1,
        ).0,
        decode_from(script, a + b, 0, run).1 == decode_from(
            script,
            b,
            0,
            decode_from(script, a, 0, run).1,
        ).1,
{
    lemma_decode_concat_from(script, a, b, 0, run);
}

/// What a chunked decoding session emits over a sequence of chunks before
/// the final flush: the concatenation of each chunk's output, and the run
/// still pending.
pub open spec fn decode_session_out(script: Script, chunks: Seq<Seq<u8>>, run: Seq<u8>) -> (
    Seq<char>,
    Seq<u8>,
)
    decreases chunks.len(),
{
    if chunks.len() == 0 {
        (Seq::empty(), run)
    } else {
        let (o, r1) = decode_from(script, chunks[0], 0, run);
        let (rest, r2) = decode_session_out(script, chunks.drop_first(), r1);
        (o + rest, r2)
    }
}

/// Chunk-boundary invariance of the decoder: feeding any split of the input
/// chunk by chunk and then finishing emits, concatenated, byte for byte the
/// text of the whole input decoded in one call.
pub proof fn lemma_decode_chunking(script: Script, chunks: Seq<Seq<u8>>)
    ensures
        decode_session_out(script, chunks, Seq::empty()).0 + decode_run(
            script,
            decode_session_out(script, chunks, Seq::empty()).1,
        ) == decode_bytes(script, chunks.flatten()),
{
    lemma_decode_session_flatten(script, chunks, Seq::empty());
}

proof fn lemma_decode_session_flatten(script: Script, chunks: Seq<Seq<u8>>, run: Seq<u8>)
    ensures
        decode_session_out(script, chunks, run) == decode_from(script, chunks.flatten(), 0, run),
    decreases chunks.len(),
{
    if chunks.len() == 0 {
        assert(chunks.flatten() =~= Seq::<u8>::empty());
        assert(decode_session_out(script, chunks, run).0 =~= decode_from(
            script,
            chunks.flatten(),
            0,
            run,
        ).0);
    } else {
        let head = chunks[0];
        let tail = chunks.drop_first();
        assert(chunks.flatten() == head + tail.flatten());
        let r1 = decode_from(script, head, 0, run).1;
        lemma_decode_concat(script, head, tail.flatten(), run);
        lemma_decode_session_flatten(script, tail, r1);
    }
}

} // verus!
