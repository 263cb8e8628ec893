//! The binary key packer.
//!
//! A run of up to 7 dot/dash bytes is packed into one `u8` key: element `i`
//! of the run contributes its low bit (`.` = 0, `-` = 1) at bit position `i`,
//! and a sentinel bit is set at the position just above the last element, so
//! that runs of different lengths or contents always get distinct keys.  The
//! empty run packs to key 1; every run of 1 to 7 elements packs into 2..=255.

use vstd::arithmetic::power2::lemma2_to64;
use vstd::arithmetic::power2::lemma_pow2_unfold;
use vstd::arithmetic::power2::pow2;
use vstd::prelude::*;

verus! {

/// The key of the run `s[start..end]`: 2^(end-start) plus, for each offset
/// `d` below `end - start`, the low bit of `s[start + d]` at bit position `d`.
pub open spec fn key_of_range(s: Seq<u8>, start: int, end: int) -> nat
    decreases end - start,
{
    if start >= end {
        1
    } else {
        2 * key_of_range(s, start + 1, end) + ((s[start] & 1) as nat)
    }
}

/// The key of a whole run.
pub open spec fn key_of(s: Seq<u8>) -> nat {
    key_of_range(s, 0, s.len() as int)
}

/// The key of an `n`-element run lies in [2^n, 2^(n+1)).
pub proof fn lemma_key_of_range_bounds(s: Seq<u8>, start: int, end: int)
    requires
        start <= end,
    ensures
        pow2((end - start) as nat) <= key_of_range(s, start, end) < pow2((end - start + 1) as nat),
    decreases end - start,
{
    if start >= end {
        lemma2_to64();
    } else {
        lemma_key_of_range_bounds(s, start + 1, end);
        let b = s[start];
        assert(b & 1 <= 1) by (bit_vector);
        lemma_pow2_unfold((end - start) as nat);
        lemma_pow2_unfold((end - start + 1) as nat);
    }
}

/// The key of a run depends only on the bytes of the run itself.
pub proof fn lemma_key_of_range_congruent(s: Seq<u8>, t: Seq<u8>, start: int, end: int, off: int)
    requires
        0 <= start <= end,
        forall|d: int| 0 <= d < end - start ==> #[trigger] s[start + d] == t[start + off + d],
    ensures
        key_of_range(s, start, end) == key_of_range(t, start + off, end + off),
    decreases end - start,
{
    if start < end {
        assert(s[start + 0] == t[start + off + 0]);
        assert forall|d: int| 0 <= d < end - (start + 1) implies #[trigger] s[start + 1 + d] == t[
            start + 1 + off + d] by {
            assert(s[start + (d + 1)] == t[start + off + (d + 1)]);
        }
        lemma_key_of_range_congruent(s, t, start + 1, end, off);
    }
}

proof fn lemma_pow2_small(n: nat)
    requires
        n <= 8,
    ensures
        pow2(n) <= 256,
        n <= 7 ==> pow2(n) <= 128,
{
    lemma2_to64();
}

/// Pack the first `len` bytes of `bytes`, folding bits one at a time from the
/// tail of the run backward.  Safe for any buffer holding at least `len`
/// bytes.
pub fn morse_to_binary_safe(bytes: &[u8], len: usize) -> (key: u8)
    requires
        len <= 7,
        len <= bytes@.len(),
    ensures
        key == key_of_range(bytes@, 0, len as int),
{
    let mut ret: u8 = 1;
    let mut i: usize = len;
    while i > 0
        invariant
            i <= len <= 7,
            len <= bytes@.len(),
            ret == key_of_range(bytes@, i as int, len as int),
        decreases i,
    {
        proof {
            lemma_key_of_range_bounds(bytes@, i as int, len as int);
            lemma_pow2_small((len - i + 1) as nat);
            let b = bytes@[i - 1];
            assert(b & 1 <= 1) by (bit_vector);
        }
        i = i - 1;
        ret = ret * 2 + (bytes[i] & 1);
    }
    ret
}

/// Pack the first `len` bytes of `bytes` using one wide read and a
/// bit-gathering multiply.  Requires 8 readable bytes of runway from the
/// start of the run, whatever `len` is.
pub fn morse_to_binary_fast(bytes: &[u8], len: usize) -> (key: u8)
    requires
        len <= 7,
        bytes@.len() >= 8,
    ensures
        key == key_of_range(bytes@, 0, len as int),
{
    let b0 = bytes[0];
    let b1 = bytes[1];
    let b2 = bytes[2];
    let b3 = bytes[3];
    let b4 = bytes[4];
    let b5 = bytes[5];
    let b6 = bytes[6];
    let b7 = bytes[7];
    // Interpret the next 8 bytes as one little-endian word.
    let a: u64 = (b0 as u64) | ((b1 as u64) << 8) | ((b2 as u64) << 16) | ((b3 as u64) << 24) | (
    (b4 as u64) << 32) | ((b5 as u64) << 40) | ((b6 as u64) << 48) | ((b7 as u64) << 56);
    // Only keep the least significant bit of each byte.
    let ones: u64 = 0x0101_0101_0101_0101;
    let masked: u64 = a & ones;
    // The multiply migrates the low bit of byte i to bit position 56 + i,
    // so the shift gathers all eight bits into the low byte.
    let gathered: u64 = masked.wrapping_mul(0x0102_0408_1020_4080) >> 56;
    // Truncate to the len least significant bits.
    let truncated: u64 = gathered & !(0xffu64 << len);
    // Set the sentinel bit just above the last element; the low byte of
    // `ones` is 0x01, so shifting it works like shifting a literal 1.
    let key64: u64 = truncated | (ones << len);
    let key = key64 as u8;
    proof {
        lemma_fast_pack(bytes@, b0, b1, b2, b3, b4, b5, b6, b7, a, masked, gathered, len, key);
    }
    key
}

proof fn lemma_fast_pack(
    s: Seq<u8>,
    b0: u8,
    b1: u8,
    b2: u8,
    b3: u8,
    b4: u8,
    b5: u8,
    b6: u8,
    b7: u8,
    a: u64,
    masked: u64,
    gathered: u64,
    len: usize,
    key: u8,
)
    requires
        len <= 7,
        s.len() >= 8,
        b0 == s[0] && b1 == s[1] && b2 == s[2] && b3 == s[3],
        b4 == s[4] && b5 == s[5] && b6 == s[6] && b7 == s[7],
        a == (b0 as u64) | ((b1 as u64) << 8) | ((b2 as u64) << 16) | ((b3 as u64) << 24) | ((
        b4 as u64) << 32) | ((b5 as u64) << 40) | ((b6 as u64) << 48) | ((b7 as u64) << 56),
        masked == a & 0x0101_0101_0101_0101u64,
        gathered == vstd::wrapping::u64_specs::wrapping_mul(masked, 0x0102_0408_1020_4080u64)
            >> 56,
        key == ((gathered & !(0xffu64 << len)) | (0x0101_0101_0101_0101u64 << len)) as u8,
    ensures
        key == key_of_range(s, 0, len as int),
{
    let prod = vstd::wrapping::u64_specs::wrapping_mul(masked, 0x0102_0408_1020_4080u64);
    assert(prod == ((masked * 0x0102_0408_1020_4080) % 0x1_0000_0000_0000_0000) as u64);
    // The gathered low byte holds the low bit of byte i at bit position i.
    let low: u64 = ((b0 & 1) as u64) | (((b1 & 1) as u64) << 1) | (((b2 & 1) as u64) << 2) | (((b3
        & 1) as u64) << 3) | (((b4 & 1) as u64) << 4) | (((b5 & 1) as u64) << 5) | (((b6
        & 1) as u64) << 6) | (((b7 & 1) as u64) << 7);
    assert(gathered == low) by (bit_vector)
        requires
            a == (b0 as u64) | ((b1 as u64) << 8) | ((b2 as u64) << 16) | ((b3 as u64) << 24) | ((
            b4 as u64) << 32) | ((b5 as u64) << 40) | ((b6 as u64) << 48) | ((b7 as u64) << 56),
            masked == a & 0x0101_0101_0101_0101u64,
            gathered == ((masked * 0x0102_0408_1020_4080) % 0x1_0000_0000_0000_0000) as u64 >> 56,
            low == ((b0 & 1) as u64) | (((b1 & 1) as u64) << 1) | (((b2 & 1) as u64) << 2) | (((b3
                & 1) as u64) << 3) | (((b4 & 1) as u64) << 4) | (((b5 & 1) as u64) << 5) | (((b6
                & 1) as u64) << 6) | (((b7 & 1) as u64) << 7),
    ;
    // Truncating to len bits and setting the sentinel yields the key.
    assert(((low & !(0xffu64 << len)) | (0x0101_0101_0101_0101u64 << len)) as u8 == ((1u64 << len)
        | (low & (((1u64 << len) - 1) as u64))) as u8) by (bit_vector)
        requires
            len <= 7,
    ;
    let form = ((1u64 << len) | (low & (((1u64 << len) - 1) as u64))) as u8;
    lemma_key_formula(s, b0, b1, b2, b3, b4, b5, b6, b7, low, len, form);
}

proof fn lemma_key_formula(
    s: Seq<u8>,
    b0: u8,
    b1: u8,
    b2: u8,
    b3: u8,
    b4: u8,
    b5: u8,
    b6: u8,
    b7: u8,
    low: u64,
    len: usize,
    form: u8,
)
    requires
        len <= 7,
        s.len() >= 8,
        b0 == s[0] && b1 == s[1] && b2 == s[2] && b3 == s[3],
        b4 == s[4] && b5 == s[5] && b6 == s[6] && b7 == s[7],
        low == ((b0 & 1) as u64) | (((b1 & 1) as u64) << 1) | (((b2 & 1) as u64) << 2) | (((b3
            & 1) as u64) << 3) | (((b4 & 1) as u64) << 4) | (((b5 & 1) as u64) << 5) | (((b6
            & 1) as u64) << 6) | (((b7 & 1) as u64) << 7),
        form == ((1u64 << len) | (low & (((1u64 << len) - 1) as u64))) as u8,
    ensures
        form == key_of_range(s, 0, len as int),
{
    reveal_with_fuel(key_of_range, 10);
    if len == 0 {
        assert(form == 1) by (bit_vector)
            requires
                len == 0usize && form == ((1u64 << len) | (low & (((1u64 << len) - 1) as u64))) as u8,
        ;
    } else if len == 1 {
        assert(form == 2 + (b0 & 1)) by (bit_vector)
            requires
                len == 1usize && form == ((1u64 << len) | (low & (((1u64 << len) - 1) as u64))) as u8 && low
                    == ((b0 & 1) as u64) | (((b1 & 1) as u64) << 1) | (((b2 & 1) as u64) << 2) | ((
                (b3 & 1) as u64) << 3) | (((b4 & 1) as u64) << 4) | (((b5 & 1) as u64) << 5) | (((
                b6 & 1) as u64) << 6) | (((b7 & 1) as u64) << 7),
        ;
    } else if len == 2 {
        assert(form == 4 + 2 * (b1 & 1) + (b0 & 1)) by (bit_vector)
            requires
                len == 2usize && form == ((1u64 << len) | (low & (((1u64 << len) - 1) as u64))) as u8 && low
                    == ((b0 & 1) as u64) | (((b1 & 1) as u64) << 1) | (((b2 & 1) as u64) << 2) | ((
                (b3 & 1) as u64) << 3) | (((b4 & 1) as u64) << 4) | (((b5 & 1) as u64) << 5) | (((
                b6 & 1) as u64) << 6) | (((b7 & 1) as u64) << 7),
        ;
    } else if len == 3 {
        assert(form == 8 + 4 * (b2 & 1) + 2 * (b1 & 1) + (b0 & 1)) by (bit_vector)
            requires
                len == 3usize && form == ((1u64 << len) | (low & (((1u64 << len) - 1) as u64))) as u8 && low
                    == ((b0 & 1) as u64) | (((b1 & 1) as u64) << 1) | (((b2 & 1) as u64) << 2) | ((
                (b3 & 1) as u64) << 3) | (((b4 & 1) as u64) << 4) | (((b5 & 1) as u64) << 5) | (((
                b6 & 1) as u64) << 6) | (((b7 & 1) as u64) << 7),
        ;
    } else if len == 4 {
        assert(form == 16 + 8 * (b3 & 1) + 4 * (b2 & 1) + 2 * (b1 & 1) + (b0 & 1)) by (bit_vector)
            requires
                len == 4usize && form == ((1u64 << len) | (low & (((1u64 << len) - 1) as u64))) as u8 && low
                    == ((b0 & 1) as u64) | (((b1 & 1) as u64) << 1) | (((b2 & 1) as u64) << 2) | ((
                (b3 & 1) as u64) << 3) | (((b4 & 1) as u64) << 4) | (((b5 & 1) as u64) << 5) | (((
                b6 & 1) as u64) << 6) | (((b7 & 1) as u64) << 7),
        ;
    } else if len == 5 {
        assert(form == 32 + 16 * (b4 & 1) + 8 * (b3 & 1) + 4 * (b2 & 1) + 2 * (b1 & 1) + (b0
            & 1)) by (bit_vector)
            requires
                len == 5usize && form == ((1u64 << len) | (low & (((1u64 << len) - 1) as u64))) as u8 && low
                    == ((b0 & 1) as u64) | (((b1 & 1) as u64) << 1) | (((b2 & 1) as u64) << 2) | ((
                (b3 & 1) as u64) << 3) | (((b4 & 1) as u64) << 4) | (((b5 & 1) as u64) << 5) | (((
                b6 & 1) as u64) << 6) | (((b7 & 1) as u64) << 7),
        ;
    } else if len == 6 {
        assert(form == 64 + 32 * (b5 & 1) + 16 * (b4 & 1) + 8 * (b3 & 1) + 4 * (b2 & 1) + 2 * (b1
            & 1) + (b0 & 1)) by (bit_vector)
            requires
                len == 6usize && form == ((1u64 << len) | (low & (((1u64 << len) - 1) as u64))) as u8 && low
                    == ((b0 & 1) as u64) | (((b1 & 1) as u64) << 1) | (((b2 & 1) as u64) << 2) | ((
                (b3 & 1) as u64) << 3) | (((b4 & 1) as u64) << 4) | (((b5 & 1) as u64) << 5) | (((
                b6 & 1) as u64) << 6) | (((b7 & 1) as u64) << 7),
        ;
    } else {
        assert(form == 128 + 64 * (b6 & 1) + 32 * (b5 & 1) + 16 * (b4 & 1) + 8 * (b3 & 1) + 4 * (b2
            & 1) + 2 * (b1 & 1) + (b0 & 1)) by (bit_vector)
            requires
                len == 7usize && form == ((1u64 << len) | (low & (((1u64 << len) - 1) as u64))) as u8 && low
                    == ((b0 & 1) as u64) | (((b1 & 1) as u64) << 1) | (((b2 & 1) as u64) << 2) | ((
                (b3 & 1) as u64) << 3) | (((b4 & 1) as u64) << 4) | (((b5 & 1) as u64) << 5) | (((
                b6 & 1) as u64) << 6) | (((b7 & 1) as u64) << 7),
        ;
    }
}

/// Pack the first `len` bytes of `bytes`, choosing the fast path whenever the
/// buffer guarantees 8 bytes of runway and the safe path otherwise.
pub fn morse_to_binary(bytes: &[u8], len: usize) -> (key: u8)
    requires
        len <= 7,
        len <= bytes@.len(),
    ensures
        key == key_of_range(bytes@, 0, len as int),
{
    if bytes.len() >= 8 {
        morse_to_binary_fast(bytes, len)
    } else {
        morse_to_binary_safe(bytes, len)
    }
}

/// Keys are collision-free: two runs with the same key have the same length
/// and the same elements, which is what lets the reverse table be one flat
/// array.
pub proof fn lemma_key_of_injective(r1: Seq<u8>, r2: Seq<u8>)
    requires
        key_of(r1) == key_of(r2),
    ensures
        r1.len() == r2.len(),
        forall|i: int| 0 <= i < r1.len() ==> #[trigger] (r1[i] & 1) == r2[i] & 1,
{
    lemma_key_of_range_injective(r1, r2, 0, r1.len() as int, 0, r2.len() as int);
    assert forall|i: int| 0 <= i < r1.len() implies #[trigger] (r1[i] & 1) == r2[i] & 1 by {
        assert(r1[0 + i] & 1 == r2[0 + i] & 1);
    }
}

proof fn lemma_key_of_range_injective(s1: Seq<u8>, s2: Seq<u8>, a1: int, b1: int, a2: int, b2: int)
    requires
        a1 <= b1,
        a2 <= b2,
        key_of_range(s1, a1, b1) == key_of_range(s2, a2, b2),
    ensures
        b1 - a1 == b2 - a2,
        forall|d: int| 0 <= d < b1 - a1 ==> #[trigger] (s1[a1 + d] & 1) == s2[a2 + d] & 1,
    decreases b1 - a1,
{
    lemma_key_of_range_bounds(s1, a1, b1);
    lemma_key_of_range_bounds(s2, a2, b2);
    if a1 == b1 || a2 == b2 {
        // An empty run's key is 1; a nonempty run's key is at least 2.
        lemma2_to64();
        if a1 == b1 && a2 != b2 {
            vstd::arithmetic::power2::lemma_pow2_strictly_increases(0, (b2 - a2) as nat);
            assert(false);
        }
        if a2 == b2 && a1 != b1 {
            vstd::arithmetic::power2::lemma_pow2_strictly_increases(0, (b1 - a1) as nat);
            assert(false);
        }
    } else {
        let x1 = s1[a1];
        let x2 = s2[a2];
        assert(x1 & 1 <= 1 && x2 & 1 <= 1) by (bit_vector);
        lemma_key_of_range_injective(s1, s2, a1 + 1, b1, a2 + 1, b2);
        assert forall|d: int| 0 <= d < b1 - a1 implies #[trigger] (s1[a1 + d] & 1) == s2[a2 + d]
            & 1 by {
            if d > 0 {
                assert(s1[a1 + 1 + (d - 1)] & 1 == s2[a2 + 1 + (d - 1)] & 1);
            }
        }
    }
}

} // verus!
