//! Per-script reverse tables: binary key to character.
//!
//! Each table maps the binary key of a run of 1 to 7 dot/dash elements to the
//! character it decodes to, and the null character where no symbol of that
//! script packs to the key.  Key 0 is reserved (no data) and key 1, the empty
//! run, is unmapped in every script.

use vstd::prelude::*;

verus! {

/// Selects which script a Morse text decodes into.
#[derive(Clone, Copy, PartialEq, Eq, Structural, Debug)]
pub enum Script {
    Standard,
    Greek,
    Russian,
    Japanese,
    Korean,
    Hebrew,
    Arabic,
}

/// International Morse code and Latin extensions (ITU-R M.1677-1 and ARRL handbook).
pub open spec fn spec_to_standard(key: u8) -> char {
    match key {
        0b10 => 'E',  // .
        0b11 => 'T',  // -
        0b100 => 'I',  // ..
        0b101 => 'N',  // -.
        0b110 => 'A',  // .-
        0b111 => 'M',  // --
        0b1000 => 'S',  // ...
        0b1001 => 'D',  // -..
        0b1010 => 'R',  // .-.
        0b1011 => 'G',  // --.
        0b1100 => 'U',  // ..-
        0b1101 => 'K',  // -.-
        0b1110 => 'W',  // .--
        0b1111 => 'O',  // ---
        0b10000 => 'H',  // ....
        0b10001 => 'B',  // -...
        0b10010 => 'L',  // .-..
        0b10011 => 'Z',  // --..
        0b10100 => 'F',  // ..-.
        0b10101 => 'C',  // -.-.
        0b10110 => 'P',  // .--.
        0b10111 => 'Ö',  // ---.
        0b11000 => 'V',  // ...-
        0b11001 => 'X',  // -..-
        0b11010 => 'Ä',  // .-.-
        0b11011 => 'Q',  // --.-
        0b11100 => 'Ü',  // ..--
        0b11101 => 'Y',  // -.--
        0b11110 => 'J',  // .---
        0b100000 => '5',  // .....
        0b100001 => '6',  // -....
        0b100011 => '7',  // --...
        0b100100 => 'É',  // ..-..
        0b100101 => 'Ç',  // -.-..
        0b100111 => '8',  // ---..
        0b101001 => '/',  // -..-.
        0b101010 => '+',  // .-.-.
        0b101100 => '!',  // ..--.
        0b101101 => '(',  // -.--.
        0b101111 => '9',  // ----.
        0b110000 => '4',  // ....-
        0b110001 => '=',  // -...-
        0b110011 => 'Ź',  // --..-
        0b110110 => 'Á',  // .--.-
        0b111000 => '3',  // ...--
        0b111011 => 'Ñ',  // --.--
        0b111100 => '2',  // ..---
        0b111110 => '1',  // .----
        0b111111 => '0',  // -----
        0b1000111 => ':',  // ---...
        0b1001100 => '?',  // ..--..
        0b1010010 => '"',  // .-..-.
        0b1010101 => ';',  // -.-.-.
        0b1010110 => '@',  // .--.-.
        0b1011110 => '\'',  // .----.
        0b1100001 => '-',  // -....-
        0b1101010 => '.',  // .-.-.-
        0b1101100 => '_',  // ..--.-
        0b1101101 => ')',  // -.--.-
        0b1110011 => ',',  // --..--
        0b1110101 => '!',  // -.-.--
        0b10111110 => '`',  // .-----.
        0b11001000 => '$',  // ...-..-
        _ => '\0',
    }
}

/// International Morse code and Latin extensions (ITU-R M.1677-1 and ARRL handbook).
///
/// The key packs up to 7 Morse elements: one bit per element (0 for dot, 1
/// for dash, the first element at the least significant bit) and a leading
/// sentinel bit above the last element.  Keys that no symbol of the script
/// packs to yield the null character.
pub fn to_standard(key: u8) -> (c: char)
    ensures
        c == spec_to_standard(key),
{
    match key {
        0b10 => 'E',  // .
        0b11 => 'T',  // -
        0b100 => 'I',  // ..
        0b101 => 'N',  // -.
        0b110 => 'A',  // .-
        0b111 => 'M',  // --
        0b1000 => 'S',  // ...
        0b1001 => 'D',  // -..
        0b1010 => 'R',  // .-.
        0b1011 => 'G',  // --.
        0b1100 => 'U',  // ..-
        0b1101 => 'K',  // -.-
        0b1110 => 'W',  // .--
        0b1111 => 'O',  // ---
        0b10000 => 'H',  // ....
        0b10001 => 'B',  // -...
        0b10010 => 'L',  // .-..
        0b10011 => 'Z',  // --..
        0b10100 => 'F',  // ..-.
        0b10101 => 'C',  // -.-.
        0b10110 => 'P',  // .--.
        0b10111 => 'Ö',  // ---.
        0b11000 => 'V',  // ...-
        0b11001 => 'X',  // -..-
        0b11010 => 'Ä',  // .-.-
        0b11011 => 'Q',  // --.-
        0b11100 => 'Ü',  // ..--
        0b11101 => 'Y',  // -.--
        0b11110 => 'J',  // .---
        0b100000 => '5',  // .....
        0b100001 => '6',  // -....
        0b100011 => '7',  // --...
        0b100100 => 'É',  // ..-..
        0b100101 => 'Ç',  // -.-..
        0b100111 => '8',  // ---..
        0b101001 => '/',  // -..-.
        0b101010 => '+',  // .-.-.
        0b101100 => '!',  // ..--.
        0b101101 => '(',  // -.--.
        0b101111 => '9',  // ----.
        0b110000 => '4',  // ....-
        0b110001 => '=',  // -...-
        0b110011 => 'Ź',  // --..-
        0b110110 => 'Á',  // .--.-
        0b111000 => '3',  // ...--
        0b111011 => 'Ñ',  // --.--
        0b111100 => '2',  // ..---
        0b111110 => '1',  // .----
        0b111111 => '0',  // -----
        0b1000111 => ':',  // ---...
        0b1001100 => '?',  // ..--..
        0b1010010 => '"',  // .-..-.
        0b1010101 => ';',  // -.-.-.
        0b1010110 => '@',  // .--.-.
        0b1011110 => '\'',  // .----.
        0b1100001 => '-',  // -....-
        0b1101010 => '.',  // .-.-.-
        0b1101100 => '_',  // ..--.-
        0b1101101 => ')',  // -.--.-
        0b1110011 => ',',  // --..--
        0b1110101 => '!',  // -.-.--
        0b10111110 => '`',  // .-----.
        0b11001000 => '$',  // ...-..-
        _ => '\0',
    }
}

/// Greek Morse code.
pub open spec fn spec_to_greek(key: u8) -> char {
    match key {
        0b10 => 'Ε',  // .
        0b11 => 'Τ',  // -
        0b100 => 'Ι',  // ..
        0b101 => 'Ν',  // -.
        0b110 => 'Α',  // .-
        0b111 => 'Μ',  // --
        0b1000 => 'Σ',  // ...
        0b1001 => 'Δ',  // -..
        0b1010 => 'Ρ',  // .-.
        0b1011 => 'Γ',  // --.
        0b1101 => 'Κ',  // -.-
        0b1111 => 'Ο',  // ---
        0b10000 => 'Η',  // ....
        0b10001 => 'Β',  // -...
        0b10010 => 'Λ',  // .-..
        0b10011 => 'Ζ',  // --..
        0b10100 => 'Φ',  // ..-.
        0b10101 => 'Θ',  // -.-.
        0b10110 => 'Π',  // .--.
        0b11001 => 'Ξ',  // -..-
        0b11011 => 'Ψ',  // --.-
        0b11101 => 'Υ',  // -.--
        0b11111 => 'Χ',  // ----
        _ => '\0',
    }
}

/// Greek Morse code.
///
/// The key packs up to 7 Morse elements: one bit per element (0 for dot, 1
/// for dash, the first element at the least significant bit) and a leading
/// sentinel bit above the last element.  Keys that no symbol of the script
/// packs to yield the null character.
pub fn to_greek(key: u8) -> (c: char)
    ensures
        c == spec_to_greek(key),
{
    match key {
        0b10 => 'Ε',  // .
        0b11 => 'Τ',  // -
        0b100 => 'Ι',  // ..
        0b101 => 'Ν',  // -.
        0b110 => 'Α',  // .-
        0b111 => 'Μ',  // --
        0b1000 => 'Σ',  // ...
        0b1001 => 'Δ',  // -..
        0b1010 => 'Ρ',  // .-.
        0b1011 => 'Γ',  // --.
        0b1101 => 'Κ',  // -.-
        0b1111 => 'Ο',  // ---
        0b10000 => 'Η',  // ....
        0b10001 => 'Β',  // -...
        0b10010 => 'Λ',  // .-..
        0b10011 => 'Ζ',  // --..
        0b10100 => 'Φ',  // ..-.
        0b10101 => 'Θ',  // -.-.
        0b10110 => 'Π',  // .--.
        0b11001 => 'Ξ',  // -..-
        0b11011 => 'Ψ',  // --.-
        0b11101 => 'Υ',  // -.--
        0b11111 => 'Χ',  // ----
        _ => '\0',
    }
}

/// Russian Morse code (Cyrillic).
pub open spec fn spec_to_russian(key: u8) -> char {
    match key {
        0b10 => 'Е',  // .
        0b11 => 'Т',  // -
        0b100 => 'И',  // ..
        0b101 => 'Н',  // -.
        0b110 => 'А',  // .-
        0b111 => 'М',  // --
        0b1000 => 'С',  // ...
        0b1001 => 'Д',  // -..
        0b1010 => 'Р',  // .-.
        0b1011 => 'Г',  // --.
        0b1100 => 'У',  // ..-
        0b1101 => 'К',  // -.-
        0b1110 => 'В',  // .--
        0b1111 => 'О',  // ---
        0b10000 => 'Х',  // ....
        0b10001 => 'Б',  // -...
        0b10010 => 'Л',  // .-..
        0b10011 => 'З',  // --..
        0b10100 => 'Ф',  // ..-.
        0b10101 => 'Ц',  // -.-.
        0b10110 => 'П',  // .--.
        0b10111 => 'Ч',  // ---.
        0b11000 => 'Ж',  // ...-
        0b11001 => 'Ъ',  // -..-
        0b11010 => 'Я',  // .-.-
        0b11011 => 'Щ',  // --.-
        0b11100 => 'Ю',  // ..--
        0b11101 => 'Ы',  // -.--
        0b11110 => 'Й',  // .---
        0b11111 => 'Ш',  // ----
        0b100100 => 'Ѣ',  // ..-..
        _ => '\0',
    }
}

/// Russian Morse code (Cyrillic).
///
/// The key packs up to 7 Morse elements: one bit per element (0 for dot, 1
/// for dash, the first element at the least significant bit) and a leading
/// sentinel bit above the last element.  Keys that no symbol of the script
/// packs to yield the null character.
pub fn to_russian(key: u8) -> (c: char)
    ensures
        c == spec_to_russian(key),
{
    match key {
        0b10 => 'Е',  // .
        0b11 => 'Т',  // -
        0b100 => 'И',  // ..
        0b101 => 'Н',  // -.
        0b110 => 'А',  // .-
        0b111 => 'М',  // --
        0b1000 => 'С',  // ...
        0b1001 => 'Д',  // -..
        0b1010 => 'Р',  // .-.
        0b1011 => 'Г',  // --.
        0b1100 => 'У',  // ..-
        0b1101 => 'К',  // -.-
        0b1110 => 'В',  // .--
        0b1111 => 'О',  // ---
        0b10000 => 'Х',  // ....
        0b10001 => 'Б',  // -...
        0b10010 => 'Л',  // .-..
        0b10011 => 'З',  // --..
        0b10100 => 'Ф',  // ..-.
        0b10101 => 'Ц',  // -.-.
        0b10110 => 'П',  // .--.
        0b10111 => 'Ч',  // ---.
        0b11000 => 'Ж',  // ...-
        0b11001 => 'Ъ',  // -..-
        0b11010 => 'Я',  // .-.-
        0b11011 => 'Щ',  // --.-
        0b11100 => 'Ю',  // ..--
        0b11101 => 'Ы',  // -.--
        0b11110 => 'Й',  // .---
        0b11111 => 'Ш',  // ----
        0b100100 => 'Ѣ',  // ..-..
        _ => '\0',
    }
}

/// Wabun code (Japanese Katakana).
pub open spec fn spec_to_japanese(key: u8) -> char {
    match key {
        0b10 => 'ヘ',  // .
        0b11 => 'ム',  // -
        0b100 => '゛',  // ..
        0b101 => 'タ',  // -.
        0b110 => 'イ',  // .-
        0b111 => 'ヨ',  // --
        0b1000 => 'ラ',  // ...
        0b1001 => 'ホ',  // -..
        0b1010 => 'ナ',  // .-.
        0b1011 => 'リ',  // --.
        0b1100 => 'ウ',  // ..-
        0b1101 => 'ワ',  // -.-
        0b1110 => 'ヤ',  // .--
        0b1111 => 'レ',  // ---
        0b10000 => 'ヌ',  // ....
        0b10001 => 'ハ',  // -...
        0b10010 => 'カ',  // .-..
        0b10011 => 'フ',  // --..
        0b10100 => 'チ',  // ..-.
        0b10101 => 'ニ',  // -.-.
        0b10110 => 'ツ',  // .--.
        0b10111 => 'ソ',  // ---.
        0b11000 => 'ク',  // ...-
        0b11001 => 'マ',  // -..-
        0b11010 => 'ロ',  // .-.-
        0b11011 => 'ネ',  // --.-
        0b11100 => 'ノ',  // ..--
        0b11101 => 'ケ',  // -.--
        0b11110 => 'ヲ',  // .---
        0b11111 => 'コ',  // ----
        0b100010 => 'オ',  // .-...
        0b100100 => 'ト',  // ..-..
        0b100101 => 'キ',  // -.-..
        0b100110 => 'ヱ',  // .--..
        0b101001 => 'モ',  // -..-.
        0b101010 => 'ン',  // .-.-.
        0b101011 => 'シ',  // --.-.
        0b101100 => '゜',  // ..--.
        0b101101 => 'ル',  // -.--.
        0b101110 => 'セ',  // .---.
        0b110001 => 'メ',  // -...-
        0b110010 => 'ヰ',  // .-..-
        0b110011 => 'ヒ',  // --..-
        0b110100 => 'ミ',  // ..-.-
        0b110101 => 'サ',  // -.-.-
        0b110110 => 'ー',  // .--.-
        0b110111 => 'ス',  // ---.-
        0b111001 => 'ユ',  // -..--
        0b111010 => 'テ',  // .-.--
        0b111011 => 'ア',  // --.--
        0b111101 => 'エ',  // -.---
        0b1001010 => '。',  // .-.-..
        0b1010010 => '）',  // .-..-.
        0b1101010 => '、',  // .-.-.-
        0b1101101 => '（',  // -.--.-
        _ => '\0',
    }
}

/// Wabun code (Japanese Katakana).
///
/// The key packs up to 7 Morse elements: one bit per element (0 for dot, 1
/// for dash, the first element at the least significant bit) and a leading
/// sentinel bit above the last element.  Keys that no symbol of the script
/// packs to yield the null character.
pub fn to_japanese(key: u8) -> (c: char)
    ensures
        c == spec_to_japanese(key),
{
    match key {
        0b10 => 'ヘ',  // .
        0b11 => 'ム',  // -
        0b100 => '゛',  // ..
        0b101 => 'タ',  // -.
        0b110 => 'イ',  // .-
        0b111 => 'ヨ',  // --
        0b1000 => 'ラ',  // ...
        0b1001 => 'ホ',  // -..
        0b1010 => 'ナ',  // .-.
        0b1011 => 'リ',  // --.
        0b1100 => 'ウ',  // ..-
        0b1101 => 'ワ',  // -.-
        0b1110 => 'ヤ',  // .--
        0b1111 => 'レ',  // ---
        0b10000 => 'ヌ',  // ....
        0b10001 => 'ハ',  // -...
        0b10010 => 'カ',  // .-..
        0b10011 => 'フ',  // --..
        0b10100 => 'チ',  // ..-.
        0b10101 => 'ニ',  // -.-.
        0b10110 => 'ツ',  // .--.
        0b10111 => 'ソ',  // ---.
        0b11000 => 'ク',  // ...-
        0b11001 => 'マ',  // -..-
        0b11010 => 'ロ',  // .-.-
        0b11011 => 'ネ',  // --.-
        0b11100 => 'ノ',  // ..--
        0b11101 => 'ケ',  // -.--
        0b11110 => 'ヲ',  // .---
        0b11111 => 'コ',  // ----
        0b100010 => 'オ',  // .-...
        0b100100 => 'ト',  // ..-..
        0b100101 => 'キ',  // -.-..
        0b100110 => 'ヱ',  // .--..
        0b101001 => 'モ',  // -..-.
        0b101010 => 'ン',  // .-.-.
        0b101011 => 'シ',  // --.-.
        0b101100 => '゜',  // ..--.
        0b101101 => 'ル',  // -.--.
        0b101110 => 'セ',  // .---.
        0b110001 => 'メ',  // -...-
        0b110010 => 'ヰ',  // .-..-
        0b110011 => 'ヒ',  // --..-
        0b110100 => 'ミ',  // ..-.-
        0b110101 => 'サ',  // -.-.-
        0b110110 => 'ー',  // .--.-
        0b110111 => 'ス',  // ---.-
        0b111001 => 'ユ',  // -..--
        0b111010 => 'テ',  // .-.--
        0b111011 => 'ア',  // --.--
        0b111101 => 'エ',  // -.---
        0b1001010 => '。',  // .-.-..
        0b1010010 => '）',  // .-..-.
        0b1101010 => '、',  // .-.-.-
        0b1101101 => '（',  // -.--.-
        _ => '\0',
    }
}

/// SKATS (Korean Hangul).
pub open spec fn spec_to_korean(key: u8) -> char {
    match key {
        0b10 => 'ㅏ',  // .
        0b11 => 'ㅓ',  // -
        0b100 => 'ㅑ',  // ..
        0b101 => 'ㅛ',  // -.
        0b110 => 'ㅗ',  // .-
        0b111 => 'ㅁ',  // --
        0b1000 => 'ㅕ',  // ...
        0b1001 => 'ㅡ',  // -..
        0b1010 => 'ㅠ',  // .-.
        0b1011 => 'ㅅ',  // --.
        0b1100 => 'ㅣ',  // ..-
        0b1101 => 'ㅇ',  // -.-
        0b1110 => 'ㅂ',  // .--
        0b1111 => 'ㅍ',  // ---
        0b10000 => 'ㅜ',  // ....
        0b10001 => 'ㄷ',  // -...
        0b10010 => 'ㄱ',  // .-..
        0b10011 => 'ㅌ',  // --..
        0b10100 => 'ㄴ',  // ..-.
        0b10101 => 'ㅊ',  // -.-.
        0b10110 => 'ㅈ',  // .--.
        0b11000 => 'ㄹ',  // ...-
        0b11001 => 'ㅋ',  // -..-
        0b11011 => 'ㅐ',  // --.-
        0b11101 => 'ㅔ',  // -.--
        0b11110 => 'ㅎ',  // .---
        _ => '\0',
    }
}

/// SKATS (Korean Hangul).
///
/// The key packs up to 7 Morse elements: one bit per element (0 for dot, 1
/// for dash, the first element at the least significant bit) and a leading
/// sentinel bit above the last element.  Keys that no symbol of the script
/// packs to yield the null character.
pub fn to_korean(key: u8) -> (c: char)
    ensures
        c == spec_to_korean(key),
{
    match key {
        0b10 => 'ㅏ',  // .
        0b11 => 'ㅓ',  // -
        0b100 => 'ㅑ',  // ..
        0b101 => 'ㅛ',  // -.
        0b110 => 'ㅗ',  // .-
        0b111 => 'ㅁ',  // --
        0b1000 => 'ㅕ',  // ...
        0b1001 => 'ㅡ',  // -..
        0b1010 => 'ㅠ',  // .-.
        0b1011 => 'ㅅ',  // --.
        0b1100 => 'ㅣ',  // ..-
        0b1101 => 'ㅇ',  // -.-
        0b1110 => 'ㅂ',  // .--
        0b1111 => 'ㅍ',  // ---
        0b10000 => 'ㅜ',  // ....
        0b10001 => 'ㄷ',  // -...
        0b10010 => 'ㄱ',  // .-..
        0b10011 => 'ㅌ',  // --..
        0b10100 => 'ㄴ',  // ..-.
        0b10101 => 'ㅊ',  // -.-.
        0b10110 => 'ㅈ',  // .--.
        0b11000 => 'ㄹ',  // ...-
        0b11001 => 'ㅋ',  // -..-
        0b11011 => 'ㅐ',  // --.-
        0b11101 => 'ㅔ',  // -.--
        0b11110 => 'ㅎ',  // .---
        _ => '\0',
    }
}

/// Hebrew Morse code.
pub open spec fn spec_to_hebrew(key: u8) -> char {
    match key {
        0b10 => 'ו',  // .
        0b11 => 'ת',  // -
        0b100 => 'י',  // ..
        0b101 => 'נ',  // -.
        0b110 => 'א',  // .-
        0b111 => 'מ',  // --
        0b1000 => 'ש',  // ...
        0b1001 => 'ד',  // -..
        0b1010 => 'ר',  // .-.
        0b1011 => 'ג',  // --.
        0b1100 => 'ט',  // ..-
        0b1101 => 'כ',  // -.-
        0b1110 => 'צ',  // .--
        0b1111 => 'ה',  // ---
        0b10000 => 'ח',  // ....
        0b10001 => 'ב',  // -...
        0b10010 => 'ל',  // .-..
        0b10011 => 'ז',  // --..
        0b10101 => 'ס',  // -.-.
        0b10110 => 'פ',  // .--.
        0b11011 => 'ק',  // --.-
        0b11110 => 'ע',  // .---
        _ => '\0',
    }
}

/// Hebrew Morse code.
///
/// The key packs up to 7 Morse elements: one bit per element (0 for dot, 1
/// for dash, the first element at the least significant bit) and a leading
/// sentinel bit above the last element.  Keys that no symbol of the script
/// packs to yield the null character.
pub fn to_hebrew(key: u8) -> (c: char)
    ensures
        c == spec_to_hebrew(key),
{
    match key {
        0b10 => 'ו',  // .
        0b11 => 'ת',  // -
        0b100 => 'י',  // ..
        0b101 => 'נ',  // -.
        0b110 => 'א',  // .-
        0b111 => 'מ',  // --
        0b1000 => 'ש',  // ...
        0b1001 => 'ד',  // -..
        0b1010 => 'ר',  // .-.
        0b1011 => 'ג',  // --.
        0b1100 => 'ט',  // ..-
        0b1101 => 'כ',  // -.-
        0b1110 => 'צ',  // .--
        0b1111 => 'ה',  // ---
        0b10000 => 'ח',  // ....
        0b10001 => 'ב',  // -...
        0b10010 => 'ל',  // .-..
        0b10011 => 'ז',  // --..
        0b10101 => 'ס',  // -.-.
        0b10110 => 'פ',  // .--.
        0b11011 => 'ק',  // --.-
        0b11110 => 'ע',  // .---
        _ => '\0',
    }
}

/// Arabic Morse code.
pub open spec fn spec_to_arabic(key: u8) -> char {
    match key {
        0b10 => 'ء',  // .
        0b11 => 'ت',  // -
        0b100 => 'ے',  // ..
        0b101 => 'ن',  // -.
        0b110 => 'ا',  // .-
        0b111 => 'م',  // --
        0b1000 => 'س',  // ...
        0b1001 => 'د',  // -..
        0b1010 => 'ر',  // .-.
        0b1011 => 'غ',  // --.
        0b1100 => 'ط',  // ..-
        0b1101 => 'ڪ',  // -.-
        0b1110 => 'و',  // .--
        0b1111 => 'خ',  // ---
        0b10000 => 'ح',  // ....
        0b10001 => 'ب',  // -...
        0b10010 => 'ل',  // .-..
        0b10011 => 'ذ',  // --..
        0b10100 => 'ف',  // ..-.
        0b10101 => 'ث',  // -.-.
        0b10111 => 'ز',  // ---.
        0b11000 => 'ض',  // ...-
        0b11001 => 'ص',  // -..-
        0b11010 => 'ع',  // .-.-
        0b11011 => 'ق',  // --.-
        0b11101 => 'ظ',  // -.--
        0b11110 => 'ج',  // .---
        0b11111 => 'ش',  // ----
        0b100100 => 'ه',  // ..-..
        _ => '\0',
    }
}

/// Arabic Morse code.
///
/// The key packs up to 7 Morse elements: one bit per element (0 for dot, 1
/// for dash, the first element at the least significant bit) and a leading
/// sentinel bit above the last element.  Keys that no symbol of the script
/// packs to yield the null character.
pub fn to_arabic(key: u8) -> (c: char)
    ensures
        c == spec_to_arabic(key),
{
    match key {
        0b10 => 'ء',  // .
        0b11 => 'ت',  // -
        0b100 => 'ے',  // ..
        0b101 => 'ن',  // -.
        0b110 => 'ا',  // .-
        0b111 => 'م',  // --
        0b1000 => 'س',  // ...
        0b1001 => 'د',  // -..
        0b1010 => 'ر',  // .-.
        0b1011 => 'غ',  // --.
        0b1100 => 'ط',  // ..-
        0b1101 => 'ڪ',  // -.-
        0b1110 => 'و',  // .--
        0b1111 => 'خ',  // ---
        0b10000 => 'ح',  // ....
        0b10001 => 'ب',  // -...
        0b10010 => 'ل',  // .-..
        0b10011 => 'ذ',  // --..
        0b10100 => 'ف',  // ..-.
        0b10101 => 'ث',  // -.-.
        0b10111 => 'ز',  // ---.
        0b11000 => 'ض',  // ...-
        0b11001 => 'ص',  // -..-
        0b11010 => 'ع',  // .-.-
        0b11011 => 'ق',  // --.-
        0b11101 => 'ظ',  // -.--
        0b11110 => 'ج',  // .---
        0b11111 => 'ش',  // ----
        0b100100 => 'ه',  // ..-..
        _ => '\0',
    }
}

/// The reverse table of the given script.
pub open spec fn spec_char_of_key(script: Script, key: u8) -> char {
    match script {
        Script::Standard => spec_to_standard(key),
        Script::Greek => spec_to_greek(key),
        Script::Russian => spec_to_russian(key),
        Script::Japanese => spec_to_japanese(key),
        Script::Korean => spec_to_korean(key),
        Script::Hebrew => spec_to_hebrew(key),
        Script::Arabic => spec_to_arabic(key),
    }
}

/// Look a binary key up in the reverse table of the given script.
pub fn char_of_key(script: Script, key: u8) -> (c: char)
    ensures
        c == spec_char_of_key(script, key),
{
    match script {
        Script::Standard => to_standard(key),
        Script::Greek => to_greek(key),
        Script::Russian => to_russian(key),
        Script::Japanese => to_japanese(key),
        Script::Korean => to_korean(key),
        Script::Hebrew => to_hebrew(key),
        Script::Arabic => to_arabic(key),
    }
}

} // verus!
