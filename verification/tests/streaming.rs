use ripmors::decode_string;
use ripmors::encode_string;
use ripmors::encode_string_ascii;
use ripmors::AsciiEncoder;
use ripmors::Script;
use ripmors::StreamDecoder;
use ripmors::StreamEncoder;

fn ascii_chunked(input: &[u8], sizes: &[usize]) -> String {
    let mut enc = AsciiEncoder::new();
    let mut out = String::new();
    let mut start = 0;
    let mut i = 0;
    while start < input.len() {
        let size = sizes[i % sizes.len()].max(1);
        let end = (start + size).min(input.len());
        out.push_str(&enc.push(&input[start..end]));
        start = end;
        i += 1;
    }
    out
}

fn unicode_chunked(input: &str, sizes: &[usize]) -> String {
    let bytes = input.as_bytes();
    let mut enc = StreamEncoder::new();
    let mut out = String::new();
    let mut start = 0;
    let mut i = 0;
    while start < bytes.len() {
        let size = sizes[i % sizes.len()].max(1);
        let end = (start + size).min(bytes.len());
        out.push_str(&enc.push(&bytes[start..end]));
        start = end;
        i += 1;
    }
    out.push_str(&enc.finish());
    out
}

fn decode_chunked(input: &[u8], sizes: &[usize]) -> String {
    let mut dec = StreamDecoder::new(Script::Standard);
    let mut out = String::new();
    let mut start = 0;
    let mut i = 0;
    while start < input.len() {
        let size = sizes[i % sizes.len()].max(1);
        let end = (start + size).min(input.len());
        out.push_str(&dec.push(&input[start..end]));
        start = end;
        i += 1;
    }
    out.push_str(&dec.finish());
    out
}

// Chunk-boundary invariance: any split of the input gives the output of one
// whole-input call, byte for byte.
#[test]
fn test_ascii_encoder_chunking() {
    let input: &[u8] = b"Hello, World!\non two lines\twith tabs  and  runs";
    let whole = encode_string_ascii(input);
    for sizes in [&[1usize][..], &[2, 3][..], &[7][..], &[1, 5, 2][..], &[64][..]] {
        assert_eq!(ascii_chunked(input, sizes), whole);
    }
}

#[test]
fn test_unicode_encoder_chunking() {
    let input = "télégraphie でんしん تلغراف τηλεγραφία ёлка";
    let whole = encode_string(input);
    for sizes in [&[1usize][..], &[2][..], &[3, 1][..], &[5, 2, 9][..], &[64][..]] {
        assert_eq!(unicode_chunked(input, sizes), whole);
    }
}

#[test]
fn test_decoder_chunking() {
    let input: &[u8] = b".... . .-.. .-.. --- --..-- / .-- --- .-. .-.. -.. -.-.--\n.--. .- .-. .. ...";
    let whole = decode_string(input, Script::Standard);
    assert_eq!(whole, "HELLO, WORLD!\nPARIS");
    for sizes in [&[1usize][..], &[2, 5][..], &[3][..], &[13, 1][..], &[64][..]] {
        assert_eq!(decode_chunked(input, sizes), whole);
    }
}

// A multi-byte character split across chunks must be reassembled, not
// dropped: this fails if the UTF-8 prefix scan misreports the valid prefix.
#[test]
fn test_unicode_carry_across_chunks() {
    let bytes = "é".as_bytes();
    assert_eq!(bytes.len(), 2);
    let mut enc = StreamEncoder::new();
    let first = enc.push(&bytes[..1]);
    assert_eq!(first, "");
    let second = enc.push(&bytes[1..]);
    assert_eq!(second, "..-..");
    assert_eq!(enc.finish(), "");
}

// Malformed bytes stall the carry and are dropped at end of stream.
#[test]
fn test_unicode_malformed_dropped_at_end() {
    let mut enc = StreamEncoder::new();
    let out = enc.push(b"ab\xff");
    assert_eq!(out, ".- -...");
    assert_eq!(enc.finish(), "");
}

// The decoder's pending run survives a chunk boundary in the middle of a
// letter.
#[test]
fn test_decoder_pending_run() {
    let mut dec = StreamDecoder::new(Script::Standard);
    let first = dec.push(b".--. .-");
    assert_eq!(first, "P");
    let second = dec.push(b". .. ...");
    assert_eq!(second, "RI");
    assert_eq!(dec.finish(), "S");
}
