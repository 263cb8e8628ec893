//! Streaming Morse-code transcoding.
//!
//! Text is encoded into Morse symbol text (`.`, `-`, one space between
//! letters, `/` between words) and decoded back, for several scripts
//! (Latin/international, Greek, Russian, Japanese, Korean, Hebrew, Arabic).
//! The decoder packs each run of dot/dash symbols into a compact binary key
//! and looks the character up in a per-script table in constant time.
//! Encoding and decoding are also available as chunked sessions whose
//! output is byte-identical to a single whole-input call, whatever the
//! chunk sizes.

use vstd::prelude::*;

mod decode;
mod encode;
mod forward;
mod laws;
mod lookup;
mod packer;
mod reverse;
mod utf8_stream;

pub use decode::decode_bytes;
pub use decode::decode_from;
pub use decode::decode_run;
pub use decode::decode_session_out;
pub use decode::decode_step;
pub use decode::decode_string;
pub use decode::lemma_decode_chunking;
pub use decode::lemma_decode_concat;
pub use decode::StreamDecoder;
pub use encode::ascii_session_out;
pub use encode::encode_ascii;
pub use encode::encode_ascii_from;
pub use encode::encode_chars;
pub use encode::encode_chars_from;
pub use encode::encode_step;
pub use encode::encode_string;
pub use encode::encode_string_ascii;
pub use forward::is_verbatim;
pub use forward::lemma_digit_roundtrips;
pub use forward::lemma_extension_roundtrips;
pub use forward::lemma_lowercase_roundtrips;
pub use forward::lemma_pattern_shape;
pub use forward::lemma_punctuation_roundtrips;
pub use forward::lemma_space_pattern;
pub use forward::lemma_uppercase_roundtrips;
pub use forward::pattern_bytes;
pub use forward::pattern_wf;
pub use forward::roundtrips;
pub use forward::upper_canon;
pub use laws::byte_chars;
pub use laws::canon;
pub use laws::is_pattern_char;
pub use laws::is_unmappable;
pub use laws::lemma_encode_ascii_spacing;
pub use laws::lemma_encode_spacing;
pub use laws::lemma_ascii_encoder_agrees;
pub use laws::lemma_round_trip;
pub use laws::lemma_round_trip_ascii;
pub use laws::lemma_unknown_run_dropped;
pub use laws::lemma_unmappable_dropped;
pub use laws::lemma_round_trip_text;
pub use laws::spacing_ok;
pub use laws::standard_text;
pub use laws::text_bytes;
pub use encode::lemma_ascii_chunking;
pub use encode::lemma_encode_ascii_concat;
pub use encode::lemma_encode_chars_concat;
pub use encode::AsciiEncoder;
pub use forward::ascii_to_morse;
pub use forward::from_unicode;
pub use forward::spec_ascii_to_morse;
pub use forward::spec_from_unicode;
pub use forward::spec_standard_to_morse;
pub use forward::spec_unicode_to_morse;
pub use forward::standard_to_morse;
pub use forward::unicode_to_morse;
pub use lookup::is_morse_run;
pub use lookup::lemma_lookup_matches_decoder;
pub use lookup::morse_to_arabic;
pub use lookup::spec_morse_to_standard;
pub use lookup::morse_to_greek;
pub use lookup::morse_to_hebrew;
pub use lookup::morse_to_japanese;
pub use lookup::morse_to_korean;
pub use lookup::morse_to_russian;
pub use lookup::morse_to_standard;
pub use packer::key_of;
pub use packer::key_of_range;
pub use packer::lemma_key_of_injective;
pub use packer::morse_to_binary;
pub use packer::morse_to_binary_fast;
pub use packer::morse_to_binary_safe;
pub use reverse::char_of_key;
pub use reverse::spec_char_of_key;
pub use reverse::spec_to_standard;
pub use reverse::to_arabic;
pub use reverse::to_greek;
pub use reverse::to_hebrew;
pub use reverse::to_japanese;
pub use reverse::to_korean;
pub use reverse::to_russian;
pub use reverse::to_standard;
pub use reverse::Script;
pub use utf8_stream::lemma_stream_chunking;
pub use utf8_stream::lemma_utf8_prefix_valid;
pub use utf8_stream::lemma_utf8_prefix_leftover;
pub use utf8_stream::lemma_utf8_prefix_append;
pub use utf8_stream::stream_push;
pub use utf8_stream::stream_session;
pub use utf8_stream::utf8_prefix_len;
pub use utf8_stream::StreamEncoder;

verus! {

} // verus!
