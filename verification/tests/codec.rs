use ripmors::decode_string;
use ripmors::encode_string;
use ripmors::encode_string_ascii;
use ripmors::morse_to_binary;
use ripmors::morse_to_binary_fast;
use ripmors::morse_to_binary_safe;
use ripmors::Script;

#[test]
fn test_morse_to_binary_fast() {
    // zero length
    assert_eq!(morse_to_binary_fast(b"________", 0), 1);
    assert_eq!(morse_to_binary_fast(b"..._____", 0), 1);
    assert_eq!(morse_to_binary_fast(b"---_____", 0), 1);

    // non-zero length
    assert_eq!(morse_to_binary_fast(b"._______", 1), 0b10);
    assert_eq!(morse_to_binary_fast(b"-_______", 1), 0b11);
    assert_eq!(morse_to_binary_fast(b"..-.____", 4), 0b10100);
}

#[test]
fn test_morse_to_binary_safe() {
    // zero length
    assert_eq!(morse_to_binary_safe(b"", 0), 1);
    assert_eq!(morse_to_binary_safe(b"...", 0), 1);
    assert_eq!(morse_to_binary_safe(b"---", 0), 1);

    // non-zero length
    assert_eq!(morse_to_binary_safe(b".", 1), 0b10);
    assert_eq!(morse_to_binary_safe(b"-", 1), 0b11);
    assert_eq!(morse_to_binary_safe(b"..-.", 4), 0b10100);
}

#[test]
fn test_morse_to_binary() {
    // fast-friendly
    // zero length
    assert_eq!(morse_to_binary(b"________", 0), 1);
    assert_eq!(morse_to_binary(b"..._____", 0), 1);
    assert_eq!(morse_to_binary(b"---_____", 0), 1);

    // non-zero length
    assert_eq!(morse_to_binary(b"._______", 1), 0b10);
    assert_eq!(morse_to_binary(b"-_______", 1), 0b11);
    assert_eq!(morse_to_binary(b"..-.____", 4), 0b10100);

    // fast-unfriendly
    // zero length
    assert_eq!(morse_to_binary(b"", 0), 1);
    assert_eq!(morse_to_binary(b"...", 0), 1);
    assert_eq!(morse_to_binary(b"---", 0), 1);

    // non-zero length
    assert_eq!(morse_to_binary(b".", 1), 0b10);
    assert_eq!(morse_to_binary(b"-", 1), 0b11);
    assert_eq!(morse_to_binary(b"..-.", 4), 0b10100);
}

// The packer equivalence law, checked exhaustively: for every run length
// 0..=7 and every dot/dash combination, the fast and the safe path agree.
#[test]
fn test_packer_equivalence() {
    for len in 0..=7usize {
        for bits in 0..(1u32 << len) {
            let mut buf = [b'_'; 8];
            let mut expected: u32 = 1;
            for i in (0..len).rev() {
                let dash = (bits >> i) & 1 == 1;
                buf[i] = if dash { b'-' } else { b'.' };
                expected = expected * 2 + if dash { 1 } else { 0 };
            }
            let fast = morse_to_binary_fast(&buf, len);
            let safe = morse_to_binary_safe(&buf[..len], len);
            assert_eq!(fast, safe);
            assert_eq!(fast as u32, expected);
            assert_eq!(morse_to_binary(&buf, len), fast);
        }
    }
}

#[test]
fn test_standard_decode() {
    let f = |s: &[u8]| decode_string(s, Script::Standard);
    assert_eq!(f(b".--. .- .-. .. ..."), "PARIS");
    assert_eq!(
        f(b".... . .-.. .-.. --- --..-- / .-- --- .-. .-.. -.. -.-.--"),
        "HELLO, WORLD!",
    );
}

#[test]
fn test_ascii_encode_simple() {
    assert_eq!(encode_string_ascii(b"PARIS"), ".--. .- .-. .. ...");
    assert_eq!(
        encode_string_ascii(b"Hello, World!"),
        ".... . .-.. .-.. --- --..-- / .-- --- .-. .-.. -.. -.-.--"
    );
    assert_eq!(
        encode_string_ascii(b"one line\nand  another\tline"),
        "--- -. . / .-.. .. -. .\n.- -. -.. / / .- -. --- - .... . .-.\t.-.. .. -. ."
    );
}

#[test]
fn test_unicode_encode() {
    assert_eq!(
        encode_string("télégraphie"),
        "- ..-.. .-.. ..-.. --. .-. .- .--. .... .. ."
    );
    assert_eq!(encode_string("でんしん"), ".-.-- .. .-.-. --.-. .-.-.");
    assert_eq!(encode_string("تلغراف"), "- .-.. --. .-. .- ..-.");
    assert_eq!(
        encode_string("телеграфия"),
        "- . .-.. . --. .-. .- ..-. .. .-.-"
    );
    assert_eq!(
        encode_string("τηλεγραφία"),
        "- .... .-.. . --. .-. .- ..-. .. .-"
    );
    assert_eq!(
        encode_string("one line\nand  another\tline"),
        "--- -. . / .-.. .. -. .\n.- -. -.. / / .- -. --- - .... . .-.\t.-.. .. -. ."
    );
}

#[test]
fn test_unicode_round_trip() {
    let f = |s| decode_string(encode_string(s).as_bytes(), Script::Standard);
    assert_eq!(f("paris"), "PARIS");
    assert_eq!(f("Hello, World!"), "HELLO, WORLD!");
    assert_eq!(
        f("one line\nand  another\tline"),
        "ONE LINE\nAND  ANOTHER\tLINE"
    );
    assert_eq!(f("trailing SPACE "), "TRAILING SPACE ");
}

// No leading or trailing separator appears, and one space stands between
// letters.
#[test]
fn test_no_leading_trailing_separator() {
    assert_eq!(encode_string_ascii(b""), "");
    assert_eq!(encode_string_ascii(b"A"), ".-");
    assert_eq!(encode_string_ascii(b"AB"), ".- -...");
    assert_eq!(encode_string(""), "");
    assert_eq!(encode_string("A"), ".-");
    assert_eq!(encode_string("AB"), ".- -...");
}

// Letter spacing is absorbed by the verbatim control characters rather than
// doubled around them.
#[test]
fn test_separator_suppression() {
    let encoded = encode_string_ascii(b"A\tB");
    assert_eq!(encoded, ".-\t-...");
    assert!(!encoded.contains(" \t"));
    assert!(!encoded.contains("\t "));
    let encoded = encode_string("A\nB\rC");
    assert_eq!(encoded, ".-\n-...\r-.-.");
}

// Characters without a mapping vanish without a separator artifact, and an
// unknown or overlong run decodes to nothing without corrupting the rest.
#[test]
fn test_unmappable_dropped() {
    assert_eq!(encode_string_ascii(b"a~b"), ".- -...");
    assert_eq!(encode_string_ascii(b"a\x01b"), ".- -...");
    assert_eq!(encode_string("a\u{2603}b"), ".- -...");
    assert_eq!(decode_string(b"...---... .-", Script::Standard), "A");
    assert_eq!(decode_string(b"....... .-", Script::Standard), "A");
    assert_eq!(decode_string(b"...--- .-", Script::Standard), "A");
}

#[test]
fn test_decode_ignores_high_bytes() {
    // UTF-8 continuation bytes neither terminate nor extend a run.
    assert_eq!(decode_string(".\u{00e9}-".as_bytes(), Script::Standard), "A");
    assert_eq!(decode_string(b".-", Script::Standard), "A");
}

#[test]
fn test_decode_other_scripts() {
    assert_eq!(
        decode_string(b"- .... .-.. . --. .-. .- ..-. .. .-", Script::Greek),
        "ΤΗΛΕΓΡΑΦΙΑ"
    );
    assert_eq!(
        decode_string(b"- . .-.. . --. .-. .- ..-. .. .-.-", Script::Russian),
        "ТЕЛЕГРАФИЯ"
    );
    assert_eq!(
        decode_string(b".-.-- .. .-.-. --.-. .-.-.", Script::Japanese),
        "テ゛ンシン"
    );
    assert_eq!(decode_string(b"- .-.. --. .-. .- ..-.", Script::Arabic), "تلغراف");
    assert_eq!(decode_string(b"-.-. --- .-.. --- --", Script::Hebrew), "סהלהמ");
    assert_eq!(decode_string(b"-.-- .- --.", Script::Korean), "ㅔㅗㅅ");
}

#[test]
fn test_decode_word_separator() {
    assert_eq!(decode_string(b"-- --- .-. ... . / -.-. --- -.. .", Script::Standard), "MORSE CODE");
    // A double word space decodes to two spaces.
    assert_eq!(decode_string(b".- / / -...", Script::Standard), "A  B");
}

// The largest symbols (7 elements) and characters that share a pattern with
// another character, which decode to that character's canonical form.
#[test]
fn test_edge_symbols() {
    assert_eq!(encode_string_ascii(b"$"), "...-..-");
    assert_eq!(decode_string(b"...-..-", Script::Standard), "$");
    assert_eq!(encode_string_ascii(b"`"), ".-----.");
    assert_eq!(decode_string(b".-----.", Script::Standard), "`");
    assert_eq!(encode_string_ascii(b"*"), "-..-");
    assert_eq!(decode_string(b"-..-", Script::Standard), "X");
    assert_eq!(encode_string_ascii(b"<"), "-.--.");
    assert_eq!(decode_string(b"-.--.", Script::Standard), "(");
    assert_eq!(encode_string_ascii(b"%"), "----- -..-. -----");
    assert_eq!(decode_string(b"----- -..-. -----", Script::Standard), "0/0");
}
