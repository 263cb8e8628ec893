use ripmors::ascii_to_morse;
use ripmors::char_of_key;
use ripmors::from_unicode;
use ripmors::morse_to_arabic;
use ripmors::morse_to_greek;
use ripmors::morse_to_hebrew;
use ripmors::morse_to_japanese;
use ripmors::morse_to_korean;
use ripmors::morse_to_russian;
use ripmors::morse_to_standard;
use ripmors::standard_to_morse;
use ripmors::to_standard;
use ripmors::Script;

#[test]
fn test_forward_tables() {
    assert_eq!(ascii_to_morse('A'), ".-");
    assert_eq!(ascii_to_morse('a'), ".-");
    assert_eq!(ascii_to_morse('0'), "-----");
    assert_eq!(ascii_to_morse('!'), "-.-.--");
    assert_eq!(ascii_to_morse(' '), "/");
    assert_eq!(ascii_to_morse('\t'), "\t");
    assert_eq!(ascii_to_morse('%'), "----- -..-. -----");
    assert_eq!(ascii_to_morse('~'), "");
    assert_eq!(from_unicode('é'), "..-..");
    assert_eq!(from_unicode('ヰ'), ".-..-");
    assert_eq!(from_unicode('п'), ".--.");
    assert_eq!(from_unicode('\u{2603}'), "");
    assert_eq!(standard_to_morse('x'), "-..-");
    assert_eq!(standard_to_morse('é'), "..-..");
    assert_eq!(standard_to_morse('\u{2603}'), "?");
}

#[test]
fn test_reverse_key_tables() {
    assert_eq!(to_standard(0b110), 'A');
    assert_eq!(to_standard(0b10), 'E');
    assert_eq!(to_standard(0), '\0');
    assert_eq!(to_standard(1), '\0');
    assert_eq!(to_standard(0b1110101), '!');
    assert_eq!(char_of_key(Script::Greek, 0b11111), 'Χ');
    assert_eq!(char_of_key(Script::Standard, 0b11111), '\0');
}

#[test]
fn test_symbol_lookup_standard() {
    assert_eq!(morse_to_standard(b".-"), 'A');
    assert_eq!(morse_to_standard(b"-.-.--"), '!');
    assert_eq!(morse_to_standard(b"/"), ' ');
    assert_eq!(morse_to_standard(b""), '\0');
    assert_eq!(morse_to_standard(b"ab"), '\0');
    assert_eq!(morse_to_standard(b"........"), '\0');
    assert_eq!(morse_to_standard(b".- "), '\0');
}

#[test]
fn test_symbol_lookup_scripts() {
    assert_eq!(morse_to_greek(b"----"), 'Χ');
    assert_eq!(morse_to_russian(b"..-.."), 'Ѣ');
    assert_eq!(morse_to_hebrew(b"-"), 'ת');
    assert_eq!(morse_to_arabic(b"."), 'ء');
    assert_eq!(morse_to_japanese(b".-.--"), 'テ');
    assert_eq!(morse_to_korean(b"...."), 'ㅜ');
}

#[test]
fn test_symbol_lookup_compounds() {
    assert_eq!(morse_to_japanese(b".-.. .."), 'ガ');
    assert_eq!(morse_to_japanese(b"-... ..--."), 'パ');
    assert_eq!(morse_to_japanese(b".-.. .. "), '\0');
    assert_eq!(morse_to_japanese(b".-.. ..-"), '\0');
    assert_eq!(morse_to_korean(b".. ..-"), 'ㅒ');
    assert_eq!(morse_to_korean(b"... ..-"), 'ㅖ');
    assert_eq!(morse_to_korean(b".. .. ..-"), '\0');
}
