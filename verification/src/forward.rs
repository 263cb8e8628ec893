//! Forward tables: character to Morse pattern.
//!
//! A pattern is a short ASCII string over dot, dash, `/` (the word
//! separator, for the space character) and, for a few characters, an internal
//! letter space; tab, newline and carriage return map to themselves; an empty
//! pattern means the character has no Morse mapping and is dropped.

use crate::packer::key_of;
use crate::reverse::spec_to_standard;
use vstd::prelude::*;

verus! {

/// The pattern of an ASCII character (International Morse, ITU-R M.1677-1,
/// with the usual non-standard extensions for the remaining ASCII
/// punctuation).
pub closed spec fn spec_ascii_to_morse(c: char) -> Seq<char> {
    match c {
        '\t' => "\t"@,
        '\n' => "\n"@,
        '\r' => "\r"@,
        ' ' => "/"@,
        '!' => "-.-.--"@,
        '"' => ".-..-."@,
        '$' => "...-..-"@,
        '%' => "----- -..-. -----"@,
        '&' => ". ..."@,
        '\'' => ".----."@,
        '(' => "-.--."@,
        ')' => "-.--.-"@,
        '*' => "-..-"@,
        '+' => ".-.-."@,
        ',' => "--..--"@,
        '-' => "-....-"@,
        '.' => ".-.-.-"@,
        '/' => "-..-."@,
        '0' => "-----"@,
        '1' => ".----"@,
        '2' => "..---"@,
        '3' => "...--"@,
        '4' => "....-"@,
        '5' => "....."@,
        '6' => "-...."@,
        '7' => "--..."@,
        '8' => "---.."@,
        '9' => "----."@,
        ':' => "---..."@,
        ';' => "-.-.-."@,
        '<' => "-.--."@,
        '=' => "-...-"@,
        '>' => "-.--.-"@,
        '?' => "..--.."@,
        '@' => ".--.-."@,
        'A' => ".-"@,
        'B' => "-..."@,
        'C' => "-.-."@,
        'D' => "-.."@,
        'E' => "."@,
        'F' => "..-."@,
        'G' => "--."@,
        'H' => "...."@,
        'I' => ".."@,
        'J' => ".---"@,
        'K' => "-.-"@,
        'L' => ".-.."@,
        'M' => "--"@,
        'N' => "-."@,
        'O' => "---"@,
        'P' => ".--."@,
        'Q' => "--.-"@,
        'R' => ".-."@,
        'S' => "..."@,
        'T' => "-"@,
        'U' => "..-"@,
        'V' => "...-"@,
        'W' => ".--"@,
        'X' => "-..-"@,
        'Y' => "-.--"@,
        'Z' => "--.."@,
        '[' => "-.--."@,
        '\\' => "-..-."@,
        ']' => "-.--.-"@,
        '_' => "..--.-"@,
        '`' => ".-----."@,
        'a' => ".-"@,
        'b' => "-..."@,
        'c' => "-.-."@,
        'd' => "-.."@,
        'e' => "."@,
        'f' => "..-."@,
        'g' => "--."@,
        'h' => "...."@,
        'i' => ".."@,
        'j' => ".---"@,
        'k' => "-.-"@,
        'l' => ".-.."@,
        'm' => "--"@,
        'n' => "-."@,
        'o' => "---"@,
        'p' => ".--."@,
        'q' => "--.-"@,
        'r' => ".-."@,
        's' => "..."@,
        't' => "-"@,
        'u' => "..-"@,
        'v' => "...-"@,
        'w' => ".--"@,
        'x' => "-..-"@,
        'y' => "-.--"@,
        'z' => "--.."@,
        '{' => "-.--."@,
        '|' => "-..-."@,
        '}' => "-.--.-"@,
        _ => ""@,
    }
}

/// Map an ASCII character to its Morse pattern; the empty string where the
/// character has none.  Characters above the ASCII range have no entry here:
/// see [`from_unicode`].
pub fn ascii_to_morse(c: char) -> (r: &'static str)
    ensures
        r@ == spec_ascii_to_morse(c),
{
    match c {
        '\t' => "\t",
        '\n' => "\n",
        '\r' => "\r",
        ' ' => "/",
        '!' => "-.-.--",
        '"' => ".-..-.",
        '$' => "...-..-",
        '%' => "----- -..-. -----",
        '&' => ". ...",
        '\'' => ".----.",
        '(' => "-.--.",
        ')' => "-.--.-",
        '*' => "-..-",
        '+' => ".-.-.",
        ',' => "--..--",
        '-' => "-....-",
        '.' => ".-.-.-",
        '/' => "-..-.",
        '0' => "-----",
        '1' => ".----",
        '2' => "..---",
        '3' => "...--",
        '4' => "....-",
        '5' => ".....",
        '6' => "-....",
        '7' => "--...",
        '8' => "---..",
        '9' => "----.",
        ':' => "---...",
        ';' => "-.-.-.",
        '<' => "-.--.",
        '=' => "-...-",
        '>' => "-.--.-",
        '?' => "..--..",
        '@' => ".--.-.",
        'A' => ".-",
        'B' => "-...",
        'C' => "-.-.",
        'D' => "-..",
        'E' => ".",
        'F' => "..-.",
        'G' => "--.",
        'H' => "....",
        'I' => "..",
        'J' => ".---",
        'K' => "-.-",
        'L' => ".-..",
        'M' => "--",
        'N' => "-.",
        'O' => "---",
        'P' => ".--.",
        'Q' => "--.-",
        'R' => ".-.",
        'S' => "...",
        'T' => "-",
        'U' => "..-",
        'V' => "...-",
        'W' => ".--",
        'X' => "-..-",
        'Y' => "-.--",
        'Z' => "--..",
        '[' => "-.--.",
        '\\' => "-..-.",
        ']' => "-.--.-",
        '_' => "..--.-",
        '`' => ".-----.",
        'a' => ".-",
        'b' => "-...",
        'c' => "-.-.",
        'd' => "-..",
        'e' => ".",
        'f' => "..-.",
        'g' => "--.",
        'h' => "....",
        'i' => "..",
        'j' => ".---",
        'k' => "-.-",
        'l' => ".-..",
        'm' => "--",
        'n' => "-.",
        'o' => "---",
        'p' => ".--.",
        'q' => "--.-",
        'r' => ".-.",
        's' => "...",
        't' => "-",
        'u' => "..-",
        'v' => "...-",
        'w' => ".--",
        'x' => "-..-",
        'y' => "-.--",
        'z' => "--..",
        '{' => "-.--.",
        '|' => "-..-.",
        '}' => "-.--.-",
        _ => "",
    }
}

/// The pattern of a character beyond the ASCII range: Latin extensions,
/// Greek, Cyrillic, Japanese kana, Korean jamo, Hebrew and Arabic letters.
pub closed spec fn spec_unicode_to_morse(c: char) -> Seq<char> {
    match c {
        'Á' | 'á' => ".--.-"@,
        'À' | 'à' => ".--.-"@,
        'Ä' | 'ä' => ".-.-"@,
        'Å' | 'å' => ".--.-"@,
        'Ą' | 'ą' => ".-.-"@,
        'Æ' | 'æ' => ".-.-"@,
        'Ć' | 'ć' => "-.-.."@,
        'Ĉ' | 'ĉ' => "-.-.."@,
        'Ç' | 'ç' => "-.-.."@,
        'Đ' | 'đ' => "..-.."@,
        'Ð' | 'ð' => "..-."@,
        'É' | 'é' => "..-.."@,
        'È' | 'è' => ".-..-"@,
        'Ę' | 'ę' => "..-.."@,
        'Ĝ' | 'ĝ' => "--.-."@,
        'Ĥ' | 'ĥ' => "----"@,
        'Ĵ' | 'ĵ' => ".---."@,
        'Ł' | 'ł' => ".-..-"@,
        'Ń' | 'ń' => "--.--"@,
        'Ñ' | 'ñ' => "--.--"@,
        'Ó' | 'ó' => "---."@,
        'Ö' | 'ö' => "---."@,
        'Ø' | 'ø' => "---."@,
        'Ś' | 'ś' => "...-..."@,
        'Ŝ' | 'ŝ' => "...-."@,
        'Š' | 'š' => "----"@,
        'Þ' | 'þ' => ".--.."@,
        'Ü' | 'ü' => "..--"@,
        'Ŭ' | 'ŭ' => "..--"@,
        'Ź' | 'ź' => "--..-."@,
        'Ż' | 'ż' => "--..-."@,
        'ß' => "...--.."@,
        'Œ' | 'œ' => "---."@,
        'Ì' | 'ì' => ".---."@,
        '“' | '”' | '«' | '»' => ".-..-."@,
        '×' => "-..-"@,
        '‰' => "----- -..-. ----- -----"@,
        '′' => ".----."@,
        '″' => ".----. .----."@,
        'Â' | 'â' => ".-"@,
        'Ã' | 'ã' => ".-"@,
        'Ā' | 'ā' => ".-"@,
        'Ă' | 'ă' => ".-"@,
        'Ċ' | 'ċ' => "-.-."@,
        'Č' | 'č' => "-.-."@,
        'Ď' | 'ď' => "-.."@,
        'Ê' | 'ê' => "."@,
        'Ë' | 'ë' => "."@,
        'Ē' | 'ē' => "."@,
        'Ĕ' | 'ĕ' => "."@,
        'Ė' | 'ė' => "."@,
        'Ě' | 'ě' => "."@,
        'Ğ' | 'ğ' => "--."@,
        'Ġ' | 'ġ' => "--."@,
        'Ģ' | 'ģ' => "--."@,
        'Ħ' | 'ħ' => "...."@,
        'ı' => ".."@,
        'Í' | 'í' => ".."@,
        'Î' | 'î' => ".."@,
        'Ï' | 'ï' => ".."@,
        'Ĩ' | 'ĩ' => ".."@,
        'Ī' | 'ī' => ".."@,
        'Ĭ' | 'ĭ' => ".."@,
        'Į' | 'į' => ".."@,
        'Ĳ' | 'ĳ' => ".. .---"@,
        'Ķ' | 'ķ' => "-.-"@,
        'ĸ' => "-.-"@,
        'Ĺ' | 'ĺ' => ".-.."@,
        'Ļ' | 'ļ' => ".-.."@,
        'Ľ' | 'ľ' => ".-.."@,
        'Ŀ' | 'ŀ' => ".-.."@,
        'Ņ' | 'ņ' => "-."@,
        'Ň' | 'ň' => "-."@,
        'ŉ' => "-."@,
        'Ŋ' | 'ŋ' => "-."@,
        'Ò' | 'ò' => "---"@,
        'Ô' | 'ô' => "---"@,
        'Õ' | 'õ' => "---"@,
        'Ō' | 'ō' => "---"@,
        'Ŏ' | 'ŏ' => "---"@,
        'Ő' | 'ő' => "---"@,
        'Ŕ' | 'ŕ' => ".-."@,
        'Ŗ' | 'ŗ' => ".-."@,
        'Ř' | 'ř' => ".-."@,
        'Ş' | 'ş' => "..."@,
        'Ţ' | 'ţ' => "-"@,
        'Ť' | 'ť' => "-"@,
        'Ŧ' | 'ŧ' => "-"@,
        'Ù' | 'ù' => "..-"@,
        'Ú' | 'ú' => "..-"@,
        'Û' | 'û' => "..-"@,
        'Ũ' | 'ũ' => "..-"@,
        'Ū' | 'ū' => "..-"@,
        'Ů' | 'ů' => "..-"@,
        'Ű' | 'ű' => "..-"@,
        'Ų' | 'ų' => "..-"@,
        'Ŵ' | 'ŵ' => ".--"@,
        'Ý' | 'ý' => "-.--"@,
        'Ŷ' | 'ŷ' => "-.--"@,
        'Ÿ' | 'ÿ' => "-.--"@,
        'Ž' | 'ž' => "--.."@,
        'Α' | 'α' => ".-"@,
        'Β' | 'β' => "-..."@,
        'Γ' | 'γ' => "--."@,
        'Δ' | 'δ' => "-.."@,
        'Ε' | 'ε' => "."@,
        'Ζ' | 'ζ' => "--.."@,
        'Η' | 'η' => "...."@,
        'Θ' | 'θ' => "-.-."@,
        'Ι' | 'ι' | 'Ί' | 'ί' => ".."@,
        'Κ' | 'κ' => "-.-"@,
        'Λ' | 'λ' => ".-.."@,
        'Μ' | 'μ' => "--"@,
        'Ν' | 'ν' => "-."@,
        'Ξ' | 'ξ' => "-..-"@,
        'Ο' | 'ο' => "---"@,
        'Π' | 'π' => ".--."@,
        'Ρ' | 'ρ' => ".-."@,
        'Σ' | 'σ' | 'ς' => "..."@,
        'Τ' | 'τ' => "-"@,
        'Υ' | 'υ' => "-.--"@,
        'Φ' | 'φ' => "..-."@,
        'Χ' | 'χ' => "----"@,
        'Ψ' | 'ψ' => "--.-"@,
        'А' | 'а' => ".-"@,
        'Б' | 'б' => "-..."@,
        'В' | 'в' => ".--"@,
        'Г' | 'г' => "--."@,
        'Д' | 'д' => "-.."@,
        'Е' | 'е' => "."@,
        'Ж' | 'ж' => "...-"@,
        'З' | 'з' => "--.."@,
        'И' | 'и' => ".."@,
        'Й' | 'й' => ".---"@,
        'К' | 'к' => "-.-"@,
        'Л' | 'л' => ".-.."@,
        'М' | 'м' => "--"@,
        'Н' | 'н' => "-."@,
        'О' | 'о' => "---"@,
        'П' | 'п' => ".--."@,
        'Р' | 'р' => ".-."@,
        'С' | 'с' => "..."@,
        'Т' | 'т' => "-"@,
        'У' | 'у' => "..-"@,
        'Ф' | 'ф' => "..-."@,
        'Х' | 'х' => "...."@,
        'Ц' | 'ц' => "-.-."@,
        'Ч' | 'ч' => "---."@,
        'Ш' | 'ш' => "----"@,
        'Щ' | 'щ' => "--.-"@,
        'Ъ' | 'ъ' => "-..-"@,
        'Ы' | 'ы' => "-.--"@,
        'Ь' | 'ь' => "-..-"@,
        'Ѣ' | 'ѣ' => "..-.."@,
        'Э' | 'э' => "..-.."@,
        'Ю' | 'ю' => "..--"@,
        'Я' | 'я' => ".-.-"@,
        'Ѐ' | 'ѐ' => "."@,
        'Ё' | 'ё' => "."@,
        'Є' | 'є' => "."@,
        'І' | 'і' => ".."@,
        'Ї' | 'ї' => ".."@,
        'Ј' | 'ј' => ".---"@,
        'Ћ' | 'ћ' => "-.-."@,
        'Ѝ' | 'ѝ' => ".."@,
        'Ў' | 'ў' => "..-"@,
        'Ђ' | 'ђ' => "-.. .---"@,
        'Ѓ' | 'ѓ' => "--. .---"@,
        'Ѕ' | 'ѕ' => "-.. --.."@,
        'Љ' | 'љ' => ".-.. .---"@,
        'Њ' | 'њ' => "-. .---"@,
        'Ќ' | 'ќ' => "-.- .---"@,
        'Џ' | 'џ' => "-.. --.."@,
        'イ' | 'い' => ".-"@,
        'ロ' | 'ろ' => ".-.-"@,
        'ハ' | 'は' => "-..."@,
        'ニ' | 'に' => "-.-."@,
        'ホ' | 'ほ' => "-.."@,
        'ヘ' | 'へ' => "."@,
        'ト' | 'と' => "..-.."@,
        'チ' | 'ち' => "..-."@,
        'リ' | 'り' => "--."@,
        'ヌ' | 'ぬ' => "...."@,
        'ル' | 'る' => "-.--."@,
        'ヲ' | 'を' => ".---"@,
        'ワ' | 'わ' => "-.-"@,
        'カ' | 'か' => ".-.."@,
        'ヨ' | 'よ' => "--"@,
        'ョ' | 'ょ' => "--"@,
        'タ' | 'た' => "-."@,
        'レ' | 'れ' => "---"@,
        'ソ' | 'そ' => "---."@,
        'ツ' | 'つ' => ".--."@,
        'ッ' | 'っ' => ".--."@,
        'ネ' | 'ね' => "--.-"@,
        'ナ' | 'な' => ".-."@,
        'ラ' | 'ら' => "..."@,
        'ム' | 'む' => "-"@,
        'ウ' | 'う' => "..-"@,
        'ヰ' | 'ゐ' => ".-..-"@,
        'ノ' | 'の' => "..--"@,
        'オ' | 'お' => ".-..."@,
        'ク' | 'く' => "...-"@,
        'ヤ' | 'や' => ".--"@,
        'ャ' | 'ゃ' => ".--"@,
        'マ' | 'ま' => "-..-"@,
        'ケ' | 'け' => "-.--"@,
        'フ' | 'ふ' => "--.."@,
        'コ' | 'こ' => "----"@,
        'エ' | 'え' => "-.---"@,
        'テ' | 'て' => ".-.--"@,
        'ア' | 'あ' => "--.--"@,
        'サ' | 'さ' => "-.-.-"@,
        'キ' | 'き' => "-.-.."@,
        'ユ' | 'ゆ' => "-..--"@,
        'ュ' | 'ゅ' => "-..--"@,
        'メ' | 'め' => "-...-"@,
        'ミ' | 'み' => "..-.-"@,
        'シ' | 'し' => "--.-."@,
        'ヱ' | 'ゑ' => ".--.."@,
        'ヒ' | 'ひ' => "--..-"@,
        'モ' | 'も' => "-..-."@,
        'セ' | 'せ' => ".---."@,
        'ス' | 'す' => "---.-"@,
        'ン' | 'ん' => ".-.-."@,
        '゛' => ".."@,
        'ガ' | 'が' => ".-.. .."@,
        'ギ' | 'ぎ' => "-.-.. .."@,
        'グ' | 'ぐ' => "...- .."@,
        'ゲ' | 'げ' => "-.-- .."@,
        'ゴ' | 'ご' => "---- .."@,
        'ザ' | 'ざ' => "-.-.- .."@,
        'ジ' | 'じ' => "--.-. .."@,
        'ズ' | 'ず' => "---.- .."@,
        'ゼ' | 'ぜ' => ".---. .."@,
        'ゾ' | 'ぞ' => "---. .."@,
        'ダ' | 'だ' => "-. .."@,
        'ヂ' | 'ぢ' => "..-. .."@,
        'ヅ' | 'づ' => ".--. .."@,
        'デ' | 'で' => ".-.-- .."@,
        'ド' | 'ど' => "..-.. .."@,
        'バ' | 'ば' => "-... .."@,
        'ビ' | 'び' => "--..- .."@,
        'ブ' | 'ぶ' => "--.. .."@,
        'ベ' | 'べ' => ". .."@,
        'ボ' | 'ぼ' => "-.. .."@,
        '゜' => "..--."@,
        'パ' | 'ぱ' => "-... ..--."@,
        'ピ' | 'ぴ' => "--..- ..--."@,
        'プ' | 'ぷ' => "--.. ..--."@,
        'ペ' | 'ぺ' => ". ..--."@,
        'ポ' | 'ぽ' => "-.. ..--."@,
        '－' => ".--.-"@,
        'ー' => ".--.-"@,
        '（' => "-.--.-"@,
        '）' => ".-..-."@,
        '、' => ".-.-.-"@,
        '。' => ".-.-.."@,
        'ㄱ' => ".-.."@,
        'ㄴ' => "..-."@,
        'ㄷ' => "-..."@,
        'ㄹ' => "...-"@,
        'ㅁ' => "--"@,
        'ㅂ' => ".--"@,
        'ㅅ' => "--."@,
        'ㅇ' => "-.-"@,
        'ㅈ' => ".--."@,
        'ㅊ' => "-.-."@,
        'ㅋ' => "-..-"@,
        'ㅌ' => "--.."@,
        'ㅍ' => "---"@,
        'ㅎ' => ".---"@,
        'ㅏ' => "."@,
        'ㅐ' => "--.-"@,
        'ㅑ' => ".."@,
        'ㅒ' => ".. ..-"@,
        'ㅓ' => "-"@,
        'ㅔ' => "-.--"@,
        'ㅕ' => "..."@,
        'ㅖ' => "... ..-"@,
        'ㅗ' => ".-"@,
        'ㅛ' => "-."@,
        'ㅜ' => "...."@,
        'ㅠ' => ".-."@,
        'ㅡ' => "-.."@,
        'ㅣ' => "..-"@,
        'א' => ".-"@,
        'ב' => "-..."@,
        'ג' => "--."@,
        'ד' => "-.."@,
        'ה' => "---"@,
        'ו' => "."@,
        'ז' => "--.."@,
        'ח' => "...."@,
        'ט' => "..-"@,
        'י' => ".."@,
        'ך' => "-.-"@,
        'כ' => "-.-"@,
        'ל' => ".-.."@,
        'ם' => "--"@,
        'מ' => "--"@,
        'ן' => "-."@,
        'נ' => "-."@,
        'ס' => "-.-."@,
        'ע' => ".---"@,
        'ף' => ".--."@,
        'פ' => ".--."@,
        'ץ' => ".--"@,
        'צ' => ".--"@,
        'ק' => "--.-"@,
        'ר' => ".-."@,
        'ש' => "..."@,
        'ת' => "-"@,
        'ا' => ".-"@,
        'ب' => "-..."@,
        'ت' => "-"@,
        'ث' => "-.-."@,
        'ج' => ".---"@,
        'ح' => "...."@,
        'خ' => "---"@,
        'د' => "-.."@,
        'ذ' => "--.."@,
        'ر' => ".-."@,
        'ز' => "---."@,
        'س' => "..."@,
        'ش' => "----"@,
        'ص' => "-..-"@,
        'ض' => "...-"@,
        'ط' => "..-"@,
        'ظ' => "-.--"@,
        'ع' => ".-.-"@,
        'غ' => "--."@,
        'ف' => "..-."@,
        'ق' => "--.-"@,
        'ڪ' => "-.-"@,
        'ك' => "-.-"@,
        'ل' => ".-.."@,
        'م' => "--"@,
        'ن' => "-."@,
        'ه' => "..-.."@,
        'و' => ".--"@,
        'ے' => ".."@,
        'ي' => ".."@,
        'ء' => "."@,
        _ => ""@,
    }
}

/// Map a character beyond the ASCII range to its Morse pattern; the empty
/// string where it has none.
pub fn unicode_to_morse(c: char) -> (r: &'static str)
    ensures
        r@ == spec_unicode_to_morse(c),
{
    match c {
        'Á' | 'á' => ".--.-",
        'À' | 'à' => ".--.-",
        'Ä' | 'ä' => ".-.-",
        'Å' | 'å' => ".--.-",
        'Ą' | 'ą' => ".-.-",
        'Æ' | 'æ' => ".-.-",
        'Ć' | 'ć' => "-.-..",
        'Ĉ' | 'ĉ' => "-.-..",
        'Ç' | 'ç' => "-.-..",
        'Đ' | 'đ' => "..-..",
        'Ð' | 'ð' => "..-.",
        'É' | 'é' => "..-..",
        'È' | 'è' => ".-..-",
        'Ę' | 'ę' => "..-..",
        'Ĝ' | 'ĝ' => "--.-.",
        'Ĥ' | 'ĥ' => "----",
        'Ĵ' | 'ĵ' => ".---.",
        'Ł' | 'ł' => ".-..-",
        'Ń' | 'ń' => "--.--",
        'Ñ' | 'ñ' => "--.--",
        'Ó' | 'ó' => "---.",
        'Ö' | 'ö' => "---.",
        'Ø' | 'ø' => "---.",
        'Ś' | 'ś' => "...-...",
        'Ŝ' | 'ŝ' => "...-.",
        'Š' | 'š' => "----",
        'Þ' | 'þ' => ".--..",
        'Ü' | 'ü' => "..--",
        'Ŭ' | 'ŭ' => "..--",
        'Ź' | 'ź' => "--..-.",
        'Ż' | 'ż' => "--..-.",
        'ß' => "...--..",
        'Œ' | 'œ' => "---.",
        'Ì' | 'ì' => ".---.",
        '“' | '”' | '«' | '»' => ".-..-.",
        '×' => "-..-",
        '‰' => "----- -..-. ----- -----",
        '′' => ".----.",
        '″' => ".----. .----.",
        'Â' | 'â' => ".-",
        'Ã' | 'ã' => ".-",
        'Ā' | 'ā' => ".-",
        'Ă' | 'ă' => ".-",
        'Ċ' | 'ċ' => "-.-.",
        'Č' | 'č' => "-.-.",
        'Ď' | 'ď' => "-..",
        'Ê' | 'ê' => ".",
        'Ë' | 'ë' => ".",
        'Ē' | 'ē' => ".",
        'Ĕ' | 'ĕ' => ".",
        'Ė' | 'ė' => ".",
        'Ě' | 'ě' => ".",
        'Ğ' | 'ğ' => "--.",
        'Ġ' | 'ġ' => "--.",
        'Ģ' | 'ģ' => "--.",
        'Ħ' | 'ħ' => "....",
        'ı' => "..",
        'Í' | 'í' => "..",
        'Î' | 'î' => "..",
        'Ï' | 'ï' => "..",
        'Ĩ' | 'ĩ' => "..",
        'Ī' | 'ī' => "..",
        'Ĭ' | 'ĭ' => "..",
        'Į' | 'į' => "..",
        'Ĳ' | 'ĳ' => ".. .---",
        'Ķ' | 'ķ' => "-.-",
        'ĸ' => "-.-",
        'Ĺ' | 'ĺ' => ".-..",
        'Ļ' | 'ļ' => ".-..",
        'Ľ' | 'ľ' => ".-..",
        'Ŀ' | 'ŀ' => ".-..",
        'Ņ' | 'ņ' => "-.",
        'Ň' | 'ň' => "-.",
        'ŉ' => "-.",
        'Ŋ' | 'ŋ' => "-.",
        'Ò' | 'ò' => "---",
        'Ô' | 'ô' => "---",
        'Õ' | 'õ' => "---",
        'Ō' | 'ō' => "---",
        'Ŏ' | 'ŏ' => "---",
        'Ő' | 'ő' => "---",
        'Ŕ' | 'ŕ' => ".-.",
        'Ŗ' | 'ŗ' => ".-.",
        'Ř' | 'ř' => ".-.",
        'Ş' | 'ş' => "...",
        'Ţ' | 'ţ' => "-",
        'Ť' | 'ť' => "-",
        'Ŧ' | 'ŧ' => "-",
        'Ù' | 'ù' => "..-",
        'Ú' | 'ú' => "..-",
        'Û' | 'û' => "..-",
        'Ũ' | 'ũ' => "..-",
        'Ū' | 'ū' => "..-",
        'Ů' | 'ů' => "..-",
        'Ű' | 'ű' => "..-",
        'Ų' | 'ų' => "..-",
        'Ŵ' | 'ŵ' => ".--",
        'Ý' | 'ý' => "-.--",
        'Ŷ' | 'ŷ' => "-.--",
        'Ÿ' | 'ÿ' => "-.--",
        'Ž' | 'ž' => "--..",
        'Α' | 'α' => ".-",
        'Β' | 'β' => "-...",
        'Γ' | 'γ' => "--.",
        'Δ' | 'δ' => "-..",
        'Ε' | 'ε' => ".",
        'Ζ' | 'ζ' => "--..",
        'Η' | 'η' => "....",
        'Θ' | 'θ' => "-.-.",
        'Ι' | 'ι' | 'Ί' | 'ί' => "..",
        'Κ' | 'κ' => "-.-",
        'Λ' | 'λ' => ".-..",
        'Μ' | 'μ' => "--",
        'Ν' | 'ν' => "-.",
        'Ξ' | 'ξ' => "-..-",
        'Ο' | 'ο' => "---",
        'Π' | 'π' => ".--.",
        'Ρ' | 'ρ' => ".-.",
        'Σ' | 'σ' | 'ς' => "...",
        'Τ' | 'τ' => "-",
        'Υ' | 'υ' => "-.--",
        'Φ' | 'φ' => "..-.",
        'Χ' | 'χ' => "----",
        'Ψ' | 'ψ' => "--.-",
        'А' | 'а' => ".-",
        'Б' | 'б' => "-...",
        'В' | 'в' => ".--",
        'Г' | 'г' => "--.",
        'Д' | 'д' => "-..",
        'Е' | 'е' => ".",
        'Ж' | 'ж' => "...-",
        'З' | 'з' => "--..",
        'И' | 'и' => "..",
        'Й' | 'й' => ".---",
        'К' | 'к' => "-.-",
        'Л' | 'л' => ".-..",
        'М' | 'м' => "--",
        'Н' | 'н' => "-.",
        'О' | 'о' => "---",
        'П' | 'п' => ".--.",
        'Р' | 'р' => ".-.",
        'С' | 'с' => "...",
        'Т' | 'т' => "-",
        'У' | 'у' => "..-",
        'Ф' | 'ф' => "..-.",
        'Х' | 'х' => "....",
        'Ц' | 'ц' => "-.-.",
        'Ч' | 'ч' => "---.",
        'Ш' | 'ш' => "----",
        'Щ' | 'щ' => "--.-",
        'Ъ' | 'ъ' => "-..-",
        'Ы' | 'ы' => "-.--",
        'Ь' | 'ь' => "-..-",
        'Ѣ' | 'ѣ' => "..-..",
        'Э' | 'э' => "..-..",
        'Ю' | 'ю' => "..--",
        'Я' | 'я' => ".-.-",
        'Ѐ' | 'ѐ' => ".",
        'Ё' | 'ё' => ".",
        'Є' | 'є' => ".",
        'І' | 'і' => "..",
        'Ї' | 'ї' => "..",
        'Ј' | 'ј' => ".---",
        'Ћ' | 'ћ' => "-.-.",
        'Ѝ' | 'ѝ' => "..",
        'Ў' | 'ў' => "..-",
        'Ђ' | 'ђ' => "-.. .---",
        'Ѓ' | 'ѓ' => "--. .---",
        'Ѕ' | 'ѕ' => "-.. --..",
        'Љ' | 'љ' => ".-.. .---",
        'Њ' | 'њ' => "-. .---",
        'Ќ' | 'ќ' => "-.- .---",
        'Џ' | 'џ' => "-.. --..",
        'イ' | 'い' => ".-",
        'ロ' | 'ろ' => ".-.-",
        'ハ' | 'は' => "-...",
        'ニ' | 'に' => "-.-.",
        'ホ' | 'ほ' => "-..",
        'ヘ' | 'へ' => ".",
        'ト' | 'と' => "..-..",
        'チ' | 'ち' => "..-.",
        'リ' | 'り' => "--.",
        'ヌ' | 'ぬ' => "....",
        'ル' | 'る' => "-.--.",
        'ヲ' | 'を' => ".---",
        'ワ' | 'わ' => "-.-",
        'カ' | 'か' => ".-..",
        'ヨ' | 'よ' => "--",
        'ョ' | 'ょ' => "--",
        'タ' | 'た' => "-.",
        'レ' | 'れ' => "---",
        'ソ' | 'そ' => "---.",
        'ツ' | 'つ' => ".--.",
        'ッ' | 'っ' => ".--.",
        'ネ' | 'ね' => "--.-",
        'ナ' | 'な' => ".-.",
        'ラ' | 'ら' => "...",
        'ム' | 'む' => "-",
        'ウ' | 'う' => "..-",
        'ヰ' | 'ゐ' => ".-..-",
        'ノ' | 'の' => "..--",
        'オ' | 'お' => ".-...",
        'ク' | 'く' => "...-",
        'ヤ' | 'や' => ".--",
        'ャ' | 'ゃ' => ".--",
        'マ' | 'ま' => "-..-",
        'ケ' | 'け' => "-.--",
        'フ' | 'ふ' => "--..",
        'コ' | 'こ' => "----",
        'エ' | 'え' => "-.---",
        'テ' | 'て' => ".-.--",
        'ア' | 'あ' => "--.--",
        'サ' | 'さ' => "-.-.-",
        'キ' | 'き' => "-.-..",
        'ユ' | 'ゆ' => "-..--",
        'ュ' | 'ゅ' => "-..--",
        'メ' | 'め' => "-...-",
        'ミ' | 'み' => "..-.-",
        'シ' | 'し' => "--.-.",
        'ヱ' | 'ゑ' => ".--..",
        'ヒ' | 'ひ' => "--..-",
        'モ' | 'も' => "-..-.",
        'セ' | 'せ' => ".---.",
        'ス' | 'す' => "---.-",
        'ン' | 'ん' => ".-.-.",
        '゛' => "..",
        'ガ' | 'が' => ".-.. ..",
        'ギ' | 'ぎ' => "-.-.. ..",
        'グ' | 'ぐ' => "...- ..",
        'ゲ' | 'げ' => "-.-- ..",
        'ゴ' | 'ご' => "---- ..",
        'ザ' | 'ざ' => "-.-.- ..",
        'ジ' | 'じ' => "--.-. ..",
        'ズ' | 'ず' => "---.- ..",
        'ゼ' | 'ぜ' => ".---. ..",
        'ゾ' | 'ぞ' => "---. ..",
        'ダ' | 'だ' => "-. ..",
        'ヂ' | 'ぢ' => "..-. ..",
        'ヅ' | 'づ' => ".--. ..",
        'デ' | 'で' => ".-.-- ..",
        'ド' | 'ど' => "..-.. ..",
        'バ' | 'ば' => "-... ..",
        'ビ' | 'び' => "--..- ..",
        'ブ' | 'ぶ' => "--.. ..",
        'ベ' | 'べ' => ". ..",
        'ボ' | 'ぼ' => "-.. ..",
        '゜' => "..--.",
        'パ' | 'ぱ' => "-... ..--.",
        'ピ' | 'ぴ' => "--..- ..--.",
        'プ' | 'ぷ' => "--.. ..--.",
        'ペ' | 'ぺ' => ". ..--.",
        'ポ' | 'ぽ' => "-.. ..--.",
        '－' => ".--.-",
        'ー' => ".--.-",
        '（' => "-.--.-",
        '）' => ".-..-.",
        '、' => ".-.-.-",
        '。' => ".-.-..",
        'ㄱ' => ".-..",
        'ㄴ' => "..-.",
        'ㄷ' => "-...",
        'ㄹ' => "...-",
        'ㅁ' => "--",
        'ㅂ' => ".--",
        'ㅅ' => "--.",
        'ㅇ' => "-.-",
        'ㅈ' => ".--.",
        'ㅊ' => "-.-.",
        'ㅋ' => "-..-",
        'ㅌ' => "--..",
        'ㅍ' => "---",
        'ㅎ' => ".---",
        'ㅏ' => ".",
        'ㅐ' => "--.-",
        'ㅑ' => "..",
        'ㅒ' => ".. ..-",
        'ㅓ' => "-",
        'ㅔ' => "-.--",
        'ㅕ' => "...",
        'ㅖ' => "... ..-",
        'ㅗ' => ".-",
        'ㅛ' => "-.",
        'ㅜ' => "....",
        'ㅠ' => ".-.",
        'ㅡ' => "-..",
        'ㅣ' => "..-",
        'א' => ".-",
        'ב' => "-...",
        'ג' => "--.",
        'ד' => "-..",
        'ה' => "---",
        'ו' => ".",
        'ז' => "--..",
        'ח' => "....",
        'ט' => "..-",
        'י' => "..",
        'ך' => "-.-",
        'כ' => "-.-",
        'ל' => ".-..",
        'ם' => "--",
        'מ' => "--",
        'ן' => "-.",
        'נ' => "-.",
        'ס' => "-.-.",
        'ע' => ".---",
        'ף' => ".--.",
        'פ' => ".--.",
        'ץ' => ".--",
        'צ' => ".--",
        'ק' => "--.-",
        'ר' => ".-.",
        'ש' => "...",
        'ת' => "-",
        'ا' => ".-",
        'ب' => "-...",
        'ت' => "-",
        'ث' => "-.-.",
        'ج' => ".---",
        'ح' => "....",
        'خ' => "---",
        'د' => "-..",
        'ذ' => "--..",
        'ر' => ".-.",
        'ز' => "---.",
        'س' => "...",
        'ش' => "----",
        'ص' => "-..-",
        'ض' => "...-",
        'ط' => "..-",
        'ظ' => "-.--",
        'ع' => ".-.-",
        'غ' => "--.",
        'ف' => "..-.",
        'ق' => "--.-",
        'ڪ' => "-.-",
        'ك' => "-.-",
        'ل' => ".-..",
        'م' => "--",
        'ن' => "-.",
        'ه' => "..-..",
        'و' => ".--",
        'ے' => "..",
        'ي' => "..",
        'ء' => ".",
        _ => "",
    }
}

/// The pattern of any character: the ASCII table below 128, the Unicode
/// table above it.
pub closed spec fn spec_from_unicode(c: char) -> Seq<char> {
    if (c as u32) < 128 {
        spec_ascii_to_morse(c)
    } else {
        spec_unicode_to_morse(c)
    }
}

/// Map any character to its Morse pattern; the empty string where it has
/// none.
pub fn from_unicode(c: char) -> (r: &'static str)
    ensures
        r@ == spec_from_unicode(c),
{
    if (c as u32) < 128 {
        ascii_to_morse(c)
    } else {
        unicode_to_morse(c)
    }
}

/// The pattern of a character under the standard script, where a character
/// without a mapping shows as a question mark rather than vanishing.
pub closed spec fn spec_standard_to_morse(c: char) -> Seq<char> {
    if (c as u32) < 128 {
        spec_ascii_to_morse(c)
    } else if spec_unicode_to_morse(c).len() == 0 {
        "?"@
    } else {
        spec_unicode_to_morse(c)
    }
}

/// Map a character to its Morse pattern as [`from_unicode`] does, except
/// that a character beyond the ASCII range with no mapping yields `"?"`.
pub fn standard_to_morse(c: char) -> (r: &'static str)
    ensures
        r@ == spec_standard_to_morse(c),
{
    if (c as u32) < 128 {
        ascii_to_morse(c)
    } else {
        let p = unicode_to_morse(c);
        if p.is_empty() {
            "?"
        } else {
            p
        }
    }
}

/// Patterns are well shaped: only dots, dashes, the word mark and single
/// internal spaces, with no space at either end.
pub open spec fn pattern_wf(p: Seq<char>) -> bool {
    &&& (forall|i: int|
        0 <= i < p.len() ==> ((#[trigger] p[i]) == '.' || p[i] == '-' || p[i] == '/' || p[i]
            == ' '))
    &&& (p.len() > 0 ==> p[0] != ' ')
    &&& (p.len() > 0 ==> p[p.len() - 1] != ' ')
    &&& (forall|i: int| 0 <= i < p.len() - 1 ==> !((#[trigger] p[i]) == ' ' && p[i + 1] == ' '))
}

/// Every entry of the forward tables is a well-shaped pattern, and the
/// verbatim control characters map to themselves alone.
#[verifier::rlimit(100)]
#[verifier::spinoff_prover]
pub proof fn lemma_pattern_shape(c: char)
    ensures
        c != '\t' && c != '\n' && c != '\r' ==> pattern_wf(spec_from_unicode(c)) && pattern_wf(
            spec_ascii_to_morse(c),
        ),
        c == '\t' || c == '\n' || c == '\r' ==> spec_from_unicode(c) == seq![c]
            && spec_ascii_to_morse(c) == seq![c],
{
    reveal_strlit("");
    reveal_strlit("\t");
    reveal_strlit("\n");
    reveal_strlit("\r");
    reveal_strlit("-");
    reveal_strlit("--");
    reveal_strlit("---");
    reveal_strlit("----");
    reveal_strlit("---- ..");
    reveal_strlit("-----");
    reveal_strlit("----- -..-. -----");
    reveal_strlit("----- -..-. ----- -----");
    reveal_strlit("----.");
    reveal_strlit("---.");
    reveal_strlit("---. ..");
    reveal_strlit("---.-");
    reveal_strlit("---.- ..");
    reveal_strlit("---..");
    reveal_strlit("---...");
    reveal_strlit("--.");
    reveal_strlit("--. .---");
    reveal_strlit("--.-");
    reveal_strlit("--.--");
    reveal_strlit("--.-.");
    reveal_strlit("--.-. ..");
    reveal_strlit("--..");
    reveal_strlit("--.. ..");
    reveal_strlit("--.. ..--.");
    reveal_strlit("--..-");
    reveal_strlit("--..- ..");
    reveal_strlit("--..- ..--.");
    reveal_strlit("--..--");
    reveal_strlit("--..-.");
    reveal_strlit("--...");
    reveal_strlit("-.");
    reveal_strlit("-. .---");
    reveal_strlit("-. ..");
    reveal_strlit("-.-");
    reveal_strlit("-.- .---");
    reveal_strlit("-.--");
    reveal_strlit("-.-- ..");
    reveal_strlit("-.---");
    reveal_strlit("-.--.");
    reveal_strlit("-.--.-");
    reveal_strlit("-.-.");
    reveal_strlit("-.-.-");
    reveal_strlit("-.-.- ..");
    reveal_strlit("-.-.--");
    reveal_strlit("-.-.-.");
    reveal_strlit("-.-..");
    reveal_strlit("-.-.. ..");
    reveal_strlit("-..");
    reveal_strlit("-.. --..");
    reveal_strlit("-.. .---");
    reveal_strlit("-.. ..");
    reveal_strlit("-.. ..--.");
    reveal_strlit("-..-");
    reveal_strlit("-..--");
    reveal_strlit("-..-.");
    reveal_strlit("-...");
    reveal_strlit("-... ..");
    reveal_strlit("-... ..--.");
    reveal_strlit("-...-");
    reveal_strlit("-....");
    reveal_strlit("-....-");
    reveal_strlit(".");
    reveal_strlit(". ..");
    reveal_strlit(". ..--.");
    reveal_strlit(". ...");
    reveal_strlit(".-");
    reveal_strlit(".--");
    reveal_strlit(".---");
    reveal_strlit(".----");
    reveal_strlit(".-----.");
    reveal_strlit(".----.");
    reveal_strlit(".----. .----.");
    reveal_strlit(".---.");
    reveal_strlit(".---. ..");
    reveal_strlit(".--.");
    reveal_strlit(".--. ..");
    reveal_strlit(".--.-");
    reveal_strlit(".--.-.");
    reveal_strlit(".--..");
    reveal_strlit(".-.");
    reveal_strlit(".-.-");
    reveal_strlit(".-.--");
    reveal_strlit(".-.-- ..");
    reveal_strlit(".-.-.");
    reveal_strlit(".-.-.-");
    reveal_strlit(".-.-..");
    reveal_strlit(".-..");
    reveal_strlit(".-.. .---");
    reveal_strlit(".-.. ..");
    reveal_strlit(".-..-");
    reveal_strlit(".-..-.");
    reveal_strlit(".-...");
    reveal_strlit("..");
    reveal_strlit(".. .---");
    reveal_strlit(".. ..-");
    reveal_strlit("..-");
    reveal_strlit("..--");
    reveal_strlit("..---");
    reveal_strlit("..--.");
    reveal_strlit("..--.-");
    reveal_strlit("..--..");
    reveal_strlit("..-.");
    reveal_strlit("..-. ..");
    reveal_strlit("..-.-");
    reveal_strlit("..-..");
    reveal_strlit("..-.. ..");
    reveal_strlit("...");
    reveal_strlit("... ..-");
    reveal_strlit("...-");
    reveal_strlit("...- ..");
    reveal_strlit("...--");
    reveal_strlit("...--..");
    reveal_strlit("...-.");
    reveal_strlit("...-..-");
    reveal_strlit("...-...");
    reveal_strlit("....");
    reveal_strlit("....-");
    reveal_strlit(".....");
    reveal_strlit("/");
    reveal_strlit("?");
    reveal_strlit("\n");
    reveal_strlit("\r");
    reveal_strlit("\t");
}

/// Tab, newline and carriage return pass through the codec verbatim.
pub open spec fn is_verbatim(c: char) -> bool {
    c == '\t' || c == '\n' || c == '\r'
}

/// The canonical form a round trip restores: Latin lowercase letters come
/// back uppercase, every other character as itself.
pub open spec fn upper_canon(c: char) -> char {
    if 97 <= c as u32 <= 122 {
        ((c as u32) - 32) as char
    } else {
        c
    }
}

/// A character's pattern as the bytes the encoder emits for it.
pub open spec fn pattern_bytes(c: char) -> Seq<u8> {
    spec_from_unicode(c).map_values(|ch: char| ch as u8)
}

/// A character the round trip is faithful to: whitespace that the codec
/// carries through, or a character whose pattern is one run of at most 7
/// dots and dashes whose key the standard reverse table maps back to the
/// character's canonical form.
pub open spec fn roundtrips(c: char) -> bool {
    ||| is_verbatim(c)
    ||| c == ' '
    ||| {
        let p = spec_from_unicode(c);
        &&& 1 <= p.len() <= 7
        &&& (forall|i: int| 0 <= i < p.len() ==> (#[trigger] p[i]) == '.' || p[i] == '-')
        &&& spec_to_standard(key_of(pattern_bytes(c)) as u8) == upper_canon(c)
        &&& upper_canon(c) != '\0'
    }
}

/// Below the ASCII range the two forward tables are one table.
pub proof fn lemma_tables_agree_on_ascii(c: char)
    requires
        (c as u32) < 128,
    ensures
        spec_from_unicode(c) == spec_ascii_to_morse(c),
{
}

/// The space character maps to the word mark.
pub proof fn lemma_space_pattern()
    ensures
        spec_from_unicode(' ') == seq!['/'],
        spec_ascii_to_morse(' ') == seq!['/'],
{
    reveal_strlit("/");
    assert(spec_ascii_to_morse(' ') =~= seq!['/']);
}

/// Every Latin letter's symbol decodes back to the letter, uppercased.
#[verifier::rlimit(100)]
#[verifier::spinoff_prover]
pub proof fn lemma_lowercase_roundtrips(c: char)
    requires
        97 <= c as u32 <= 122,
    ensures
        roundtrips(c),
{
    let u = c as u32;
    reveal_with_fuel(crate::packer::key_of_range, 9);
    assert(46u8 & 1 == 0 && 45u8 & 1 == 1 && 32u8 & 1 == 0) by (bit_vector);
    reveal_strlit("-");
    reveal_strlit("--");
    reveal_strlit("---");
    reveal_strlit("-----");
    reveal_strlit("----.");
    reveal_strlit("---.");
    reveal_strlit("---..");
    reveal_strlit("---...");
    reveal_strlit("--.");
    reveal_strlit("--.-");
    reveal_strlit("--.--");
    reveal_strlit("--..");
    reveal_strlit("--..--");
    reveal_strlit("--...");
    reveal_strlit("-.");
    reveal_strlit("-.-");
    reveal_strlit("-.--");
    reveal_strlit("-.--.");
    reveal_strlit("-.--.-");
    reveal_strlit("-.-.");
    reveal_strlit("-.-.--");
    reveal_strlit("-.-.-.");
    reveal_strlit("-.-..");
    reveal_strlit("-..");
    reveal_strlit("-..-");
    reveal_strlit("-..-.");
    reveal_strlit("-...");
    reveal_strlit("-...-");
    reveal_strlit("-....");
    reveal_strlit("-....-");
    reveal_strlit(".");
    reveal_strlit(".-");
    reveal_strlit(".--");
    reveal_strlit(".---");
    reveal_strlit(".----");
    reveal_strlit(".-----.");
    reveal_strlit(".----.");
    reveal_strlit(".--.");
    reveal_strlit(".--.-");
    reveal_strlit(".--.-.");
    reveal_strlit(".-.");
    reveal_strlit(".-.-");
    reveal_strlit(".-.-.");
    reveal_strlit(".-.-.-");
    reveal_strlit(".-..");
    reveal_strlit(".-..-.");
    reveal_strlit("..");
    reveal_strlit("..-");
    reveal_strlit("..--");
    reveal_strlit("..---");
    reveal_strlit("..--.-");
    reveal_strlit("..--..");
    reveal_strlit("..-.");
    reveal_strlit("..-..");
    reveal_strlit("...");
    reveal_strlit("...-");
    reveal_strlit("...--");
    reveal_strlit("...-..-");
    reveal_strlit("....");
    reveal_strlit("....-");
    reveal_strlit(".....");

    if u == 97 {
        vstd::utf8::char_u32_cast(c, u);
        assert('a' as u32 == 97);
        assert(c == 'a');
        assert('A' as u32 == 65);
        vstd::utf8::char_u32_cast('A', 65);
        assert(spec_from_unicode(c) == ".-"@);
        assert(pattern_bytes(c) =~= seq![46u8, 45u8]);
        assert(key_of(pattern_bytes(c)) == 6);
        assert(spec_to_standard(6u8) == 'A');
        assert(upper_canon(c) == 'A');
        assert(roundtrips(c));
    }
    else if u == 98 {
        vstd::utf8::char_u32_cast(c, u);
        assert('b' as u32 == 98);
        assert(c == 'b');
        assert('B' as u32 == 66);
        vstd::utf8::char_u32_cast('B', 66);
        assert(spec_from_unicode(c) == "-..."@);
        assert(pattern_bytes(c) =~= seq![45u8, 46u8, 46u8, 46u8]);
        assert(key_of(pattern_bytes(c)) == 17);
        assert(spec_to_standard(17u8) == 'B');
        assert(upper_canon(c) == 'B');
        assert(roundtrips(c));
    }
    else if u == 99 {
        vstd::utf8::char_u32_cast(c, u);
        assert('c' as u32 == 99);
        assert(c == 'c');
        assert('C' as u32 == 67);
        vstd::utf8::char_u32_cast('C', 67);
        assert(spec_from_unicode(c) == "-.-."@);
        assert(pattern_bytes(c) =~= seq![45u8, 46u8, 45u8, 46u8]);
        assert(key_of(pattern_bytes(c)) == 21);
        assert(spec_to_standard(21u8) == 'C');
        assert(upper_canon(c) == 'C');
        assert(roundtrips(c));
    }
    else if u == 100 {
        vstd::utf8::char_u32_cast(c, u);
        assert('d' as u32 == 100);
        assert(c == 'd');
        assert('D' as u32 == 68);
        vstd::utf8::char_u32_cast('D', 68);
        assert(spec_from_unicode(c) == "-.."@);
        assert(pattern_bytes(c) =~= seq![45u8, 46u8, 46u8]);
        assert(key_of(pattern_bytes(c)) == 9);
        assert(spec_to_standard(9u8) == 'D');
        assert(upper_canon(c) == 'D');
        assert(roundtrips(c));
    }
    else if u == 101 {
        vstd::utf8::char_u32_cast(c, u);
        assert('e' as u32 == 101);
        assert(c == 'e');
        assert('E' as u32 == 69);
        vstd::utf8::char_u32_cast('E', 69);
        assert(spec_from_unicode(c) == "."@);
        assert(pattern_bytes(c) =~= seq![46u8]);
        assert(key_of(pattern_bytes(c)) == 2);
        assert(spec_to_standard(2u8) == 'E');
        assert(upper_canon(c) == 'E');
        assert(roundtrips(c));
    }
    else if u == 102 {
        vstd::utf8::char_u32_cast(c, u);
        assert('f' as u32 == 102);
        assert(c == 'f');
        assert('F' as u32 == 70);
        vstd::utf8::char_u32_cast('F', 70);
        assert(spec_from_unicode(c) == "..-."@);
        assert(pattern_bytes(c) =~= seq![46u8, 46u8, 45u8, 46u8]);
        assert(key_of(pattern_bytes(c)) == 20);
        assert(spec_to_standard(20u8) == 'F');
        assert(upper_canon(c) == 'F');
        assert(roundtrips(c));
    }
    else if u == 103 {
        vstd::utf8::char_u32_cast(c, u);
        assert('g' as u32 == 103);
        assert(c == 'g');
        assert('G' as u32 == 71);
        vstd::utf8::char_u32_cast('G', 71);
        assert(spec_from_unicode(c) == "--."@);
        assert(pattern_bytes(c) =~= seq![45u8, 45u8, 46u8]);
        assert(key_of(pattern_bytes(c)) == 11);
        assert(spec_to_standard(11u8) == 'G');
        assert(upper_canon(c) == 'G');
        assert(roundtrips(c));
    }
    else if u == 104 {
        vstd::utf8::char_u32_cast(c, u);
        assert('h' as u32 == 104);
        assert(c == 'h');
        assert('H' as u32 == 72);
        vstd::utf8::char_u32_cast('H', 72);
        assert(spec_from_unicode(c) == "...."@);
        assert(pattern_bytes(c) =~= seq![46u8, 46u8, 46u8, 46u8]);
        assert(key_of(pattern_bytes(c)) == 16);
        assert(spec_to_standard(16u8) == 'H');
        assert(upper_canon(c) == 'H');
        assert(roundtrips(c));
    }
    else if u == 105 {
        vstd::utf8::char_u32_cast(c, u);
        assert('i' as u32 == 105);
        assert(c == 'i');
        assert('I' as u32 == 73);
        vstd::utf8::char_u32_cast('I', 73);
        assert(spec_from_unicode(c) == ".."@);
        assert(pattern_bytes(c) =~= seq![46u8, 46u8]);
        assert(key_of(pattern_bytes(c)) == 4);
        assert(spec_to_standard(4u8) == 'I');
        assert(upper_canon(c) == 'I');
        assert(roundtrips(c));
    }
    else if u == 106 {
        vstd::utf8::char_u32_cast(c, u);
        assert('j' as u32 == 106);
        assert(c == 'j');
        assert('J' as u32 == 74);
        vstd::utf8::char_u32_cast('J', 74);
        assert(spec_from_unicode(c) == ".---"@);
        assert(pattern_bytes(c) =~= seq![46u8, 45u8, 45u8, 45u8]);
        assert(key_of(pattern_bytes(c)) == 30);
        assert(spec_to_standard(30u8) == 'J');
        assert(upper_canon(c) == 'J');
        assert(roundtrips(c));
    }
    else if u == 107 {
        vstd::utf8::char_u32_cast(c, u);
        assert('k' as u32 == 107);
        assert(c == 'k');
        assert('K' as u32 == 75);
        vstd::utf8::char_u32_cast('K', 75);
        assert(spec_from_unicode(c) == "-.-"@);
        assert(pattern_bytes(c) =~= seq![45u8, 46u8, 45u8]);
        assert(key_of(pattern_bytes(c)) == 13);
        assert(spec_to_standard(13u8) == 'K');
        assert(upper_canon(c) == 'K');
        assert(roundtrips(c));
    }
    else if u == 108 {
        vstd::utf8::char_u32_cast(c, u);
        assert('l' as u32 == 108);
        assert(c == 'l');
        assert('L' as u32 == 76);
        vstd::utf8::char_u32_cast('L', 76);
        assert(spec_from_unicode(c) == ".-.."@);
        assert(pattern_bytes(c) =~= seq![46u8, 45u8, 46u8, 46u8]);
        assert(key_of(pattern_bytes(c)) == 18);
        assert(spec_to_standard(18u8) == 'L');
        assert(upper_canon(c) == 'L');
        assert(roundtrips(c));
    }
    else if u == 109 {
        vstd::utf8::char_u32_cast(c, u);
        assert('m' as u32 == 109);
        assert(c == 'm');
        assert('M' as u32 == 77);
        vstd::utf8::char_u32_cast('M', 77);
        assert(spec_from_unicode(c) == "--"@);
        assert(pattern_bytes(c) =~= seq![45u8, 45u8]);
        assert(key_of(pattern_bytes(c)) == 7);
        assert(spec_to_standard(7u8) == 'M');
        assert(upper_canon(c) == 'M');
        assert(roundtrips(c));
    }
    else if u == 110 {
        vstd::utf8::char_u32_cast(c, u);
        assert('n' as u32 == 110);
        assert(c == 'n');
        assert('N' as u32 == 78);
        vstd::utf8::char_u32_cast('N', 78);
        assert(spec_from_unicode(c) == "-."@);
        assert(pattern_bytes(c) =~= seq![45u8, 46u8]);
        assert(key_of(pattern_bytes(c)) == 5);
        assert(spec_to_standard(5u8) == 'N');
        assert(upper_canon(c) == 'N');
        assert(roundtrips(c));
    }
    else if u == 111 {
        vstd::utf8::char_u32_cast(c, u);
        assert('o' as u32 == 111);
        assert(c == 'o');
        assert('O' as u32 == 79);
        vstd::utf8::char_u32_cast('O', 79);
        assert(spec_from_unicode(c) == "---"@);
        assert(pattern_bytes(c) =~= seq![45u8, 45u8, 45u8]);
        assert(key_of(pattern_bytes(c)) == 15);
        assert(spec_to_standard(15u8) == 'O');
        assert(upper_canon(c) == 'O');
        assert(roundtrips(c));
    }
    else if u == 112 {
        vstd::utf8::char_u32_cast(c, u);
        assert('p' as u32 == 112);
        assert(c == 'p');
        assert('P' as u32 == 80);
        vstd::utf8::char_u32_cast('P', 80);
        assert(spec_from_unicode(c) == ".--."@);
        assert(pattern_bytes(c) =~= seq![46u8, 45u8, 45u8, 46u8]);
        assert(key_of(pattern_bytes(c)) == 22);
        assert(spec_to_standard(22u8) == 'P');
        assert(upper_canon(c) == 'P');
        assert(roundtrips(c));
    }
    else if u == 113 {
        vstd::utf8::char_u32_cast(c, u);
        assert('q' as u32 == 113);
        assert(c == 'q');
        assert('Q' as u32 == 81);
        vstd::utf8::char_u32_cast('Q', 81);
        assert(spec_from_unicode(c) == "--.-"@);
        assert(pattern_bytes(c) =~= seq![45u8, 45u8, 46u8, 45u8]);
        assert(key_of(pattern_bytes(c)) == 27);
        assert(spec_to_standard(27u8) == 'Q');
        assert(upper_canon(c) == 'Q');
        assert(roundtrips(c));
    }
    else if u == 114 {
        vstd::utf8::char_u32_cast(c, u);
        assert('r' as u32 == 114);
        assert(c == 'r');
        assert('R' as u32 == 82);
        vstd::utf8::char_u32_cast('R', 82);
        assert(spec_from_unicode(c) == ".-."@);
        assert(pattern_bytes(c) =~= seq![46u8, 45u8, 46u8]);
        assert(key_of(pattern_bytes(c)) == 10);
        assert(spec_to_standard(10u8) == 'R');
        assert(upper_canon(c) == 'R');
        assert(roundtrips(c));
    }
    else if u == 115 {
        vstd::utf8::char_u32_cast(c, u);
        assert('s' as u32 == 115);
        assert(c == 's');
        assert('S' as u32 == 83);
        vstd::utf8::char_u32_cast('S', 83);
        assert(spec_from_unicode(c) == "..."@);
        assert(pattern_bytes(c) =~= seq![46u8, 46u8, 46u8]);
        assert(key_of(pattern_bytes(c)) == 8);
        assert(spec_to_standard(8u8) == 'S');
        assert(upper_canon(c) == 'S');
        assert(roundtrips(c));
    }
    else if u == 116 {
        vstd::utf8::char_u32_cast(c, u);
        assert('t' as u32 == 116);
        assert(c == 't');
        assert('T' as u32 == 84);
        vstd::utf8::char_u32_cast('T', 84);
        assert(spec_from_unicode(c) == "-"@);
        assert(pattern_bytes(c) =~= seq![45u8]);
        assert(key_of(pattern_bytes(c)) == 3);
        assert(spec_to_standard(3u8) == 'T');
        assert(upper_canon(c) == 'T');
        assert(roundtrips(c));
    }
    else if u == 117 {
        vstd::utf8::char_u32_cast(c, u);
        assert('u' as u32 == 117);
        assert(c == 'u');
        assert('U' as u32 == 85);
        vstd::utf8::char_u32_cast('U', 85);
        assert(spec_from_unicode(c) == "..-"@);
        assert(pattern_bytes(c) =~= seq![46u8, 46u8, 45u8]);
        assert(key_of(pattern_bytes(c)) == 12);
        assert(spec_to_standard(12u8) == 'U');
        assert(upper_canon(c) == 'U');
        assert(roundtrips(c));
    }
    else if u == 118 {
        vstd::utf8::char_u32_cast(c, u);
        assert('v' as u32 == 118);
        assert(c == 'v');
        assert('V' as u32 == 86);
        vstd::utf8::char_u32_cast('V', 86);
        assert(spec_from_unicode(c) == "...-"@);
        assert(pattern_bytes(c) =~= seq![46u8, 46u8, 46u8, 45u8]);
        assert(key_of(pattern_bytes(c)) == 24);
        assert(spec_to_standard(24u8) == 'V');
        assert(upper_canon(c) == 'V');
        assert(roundtrips(c));
    }
    else if u == 119 {
        vstd::utf8::char_u32_cast(c, u);
        assert('w' as u32 == 119);
        assert(c == 'w');
        assert('W' as u32 == 87);
        vstd::utf8::char_u32_cast('W', 87);
        assert(spec_from_unicode(c) == ".--"@);
        assert(pattern_bytes(c) =~= seq![46u8, 45u8, 45u8]);
        assert(key_of(pattern_bytes(c)) == 14);
        assert(spec_to_standard(14u8) == 'W');
        assert(upper_canon(c) == 'W');
        assert(roundtrips(c));
    }
    else if u == 120 {
        vstd::utf8::char_u32_cast(c, u);
        assert('x' as u32 == 120);
        assert(c == 'x');
        assert('X' as u32 == 88);
        vstd::utf8::char_u32_cast('X', 88);
        assert(spec_from_unicode(c) == "-..-"@);
        assert(pattern_bytes(c) =~= seq![45u8, 46u8, 46u8, 45u8]);
        assert(key_of(pattern_bytes(c)) == 25);
        assert(spec_to_standard(25u8) == 'X');
        assert(upper_canon(c) == 'X');
        assert(roundtrips(c));
    }
    else if u == 121 {
        vstd::utf8::char_u32_cast(c, u);
        assert('y' as u32 == 121);
        assert(c == 'y');
        assert('Y' as u32 == 89);
        vstd::utf8::char_u32_cast('Y', 89);
        assert(spec_from_unicode(c) == "-.--"@);
        assert(pattern_bytes(c) =~= seq![45u8, 46u8, 45u8, 45u8]);
        assert(key_of(pattern_bytes(c)) == 29);
        assert(spec_to_standard(29u8) == 'Y');
        assert(upper_canon(c) == 'Y');
        assert(roundtrips(c));
    }
    else if u == 122 {
        vstd::utf8::char_u32_cast(c, u);
        assert('z' as u32 == 122);
        assert(c == 'z');
        assert('Z' as u32 == 90);
        vstd::utf8::char_u32_cast('Z', 90);
        assert(spec_from_unicode(c) == "--.."@);
        assert(pattern_bytes(c) =~= seq![45u8, 45u8, 46u8, 46u8]);
        assert(key_of(pattern_bytes(c)) == 19);
        assert(spec_to_standard(19u8) == 'Z');
        assert(upper_canon(c) == 'Z');
        assert(roundtrips(c));
    }
    else {
        assert(false);
    }
}

/// Every uppercase Latin letter's symbol decodes back to itself.
#[verifier::rlimit(100)]
#[verifier::spinoff_prover]
pub proof fn lemma_uppercase_roundtrips(c: char)
    requires
        65 <= c as u32 <= 90,
    ensures
        roundtrips(c),
{
    let u = c as u32;
    reveal_with_fuel(crate::packer::key_of_range, 9);
    assert(46u8 & 1 == 0 && 45u8 & 1 == 1 && 32u8 & 1 == 0) by (bit_vector);
    reveal_strlit("-");
    reveal_strlit("--");
    reveal_strlit("---");
    reveal_strlit("-----");
    reveal_strlit("----.");
    reveal_strlit("---.");
    reveal_strlit("---..");
    reveal_strlit("---...");
    reveal_strlit("--.");
    reveal_strlit("--.-");
    reveal_strlit("--.--");
    reveal_strlit("--..");
    reveal_strlit("--..--");
    reveal_strlit("--...");
    reveal_strlit("-.");
    reveal_strlit("-.-");
    reveal_strlit("-.--");
    reveal_strlit("-.--.");
    reveal_strlit("-.--.-");
    reveal_strlit("-.-.");
    reveal_strlit("-.-.--");
    reveal_strlit("-.-.-.");
    reveal_strlit("-.-..");
    reveal_strlit("-..");
    reveal_strlit("-..-");
    reveal_strlit("-..-.");
    reveal_strlit("-...");
    reveal_strlit("-...-");
    reveal_strlit("-....");
    reveal_strlit("-....-");
    reveal_strlit(".");
    reveal_strlit(".-");
    reveal_strlit(".--");
    reveal_strlit(".---");
    reveal_strlit(".----");
    reveal_strlit(".-----.");
    reveal_strlit(".----.");
    reveal_strlit(".--.");
    reveal_strlit(".--.-");
    reveal_strlit(".--.-.");
    reveal_strlit(".-.");
    reveal_strlit(".-.-");
    reveal_strlit(".-.-.");
    reveal_strlit(".-.-.-");
    reveal_strlit(".-..");
    reveal_strlit(".-..-.");
    reveal_strlit("..");
    reveal_strlit("..-");
    reveal_strlit("..--");
    reveal_strlit("..---");
    reveal_strlit("..--.-");
    reveal_strlit("..--..");
    reveal_strlit("..-.");
    reveal_strlit("..-..");
    reveal_strlit("...");
    reveal_strlit("...-");
    reveal_strlit("...--");
    reveal_strlit("...-..-");
    reveal_strlit("....");
    reveal_strlit("....-");
    reveal_strlit(".....");

    if u == 65 {
        vstd::utf8::char_u32_cast(c, u);
        assert('A' as u32 == 65);
        assert(c == 'A');
        assert(spec_from_unicode(c) == ".-"@);
        assert(pattern_bytes(c) =~= seq![46u8, 45u8]);
        assert(key_of(pattern_bytes(c)) == 6);
        assert(spec_to_standard(6u8) == 'A');
        assert(upper_canon(c) == 'A');
        assert(roundtrips(c));
    }
    else if u == 66 {
        vstd::utf8::char_u32_cast(c, u);
        assert('B' as u32 == 66);
        assert(c == 'B');
        assert(spec_from_unicode(c) == "-..."@);
        assert(pattern_bytes(c) =~= seq![45u8, 46u8, 46u8, 46u8]);
        assert(key_of(pattern_bytes(c)) == 17);
        assert(spec_to_standard(17u8) == 'B');
        assert(upper_canon(c) == 'B');
        assert(roundtrips(c));
    }
    else if u == 67 {
        vstd::utf8::char_u32_cast(c, u);
        assert('C' as u32 == 67);
        assert(c == 'C');
        assert(spec_from_unicode(c) == "-.-."@);
        assert(pattern_bytes(c) =~= seq![45u8, 46u8, 45u8, 46u8]);
        assert(key_of(pattern_bytes(c)) == 21);
        assert(spec_to_standard(21u8) == 'C');
        assert(upper_canon(c) == 'C');
        assert(roundtrips(c));
    }
    else if u == 68 {
        vstd::utf8::char_u32_cast(c, u);
        assert('D' as u32 == 68);
        assert(c == 'D');
        assert(spec_from_unicode(c) == "-.."@);
        assert(pattern_bytes(c) =~= seq![45u8, 46u8, 46u8]);
        assert(key_of(pattern_bytes(c)) == 9);
        assert(spec_to_standard(9u8) == 'D');
        assert(upper_canon(c) == 'D');
        assert(roundtrips(c));
    }
    else if u == 69 {
        vstd::utf8::char_u32_cast(c, u);
        assert('E' as u32 == 69);
        assert(c == 'E');
        assert(spec_from_unicode(c) == "."@);
        assert(pattern_bytes(c) =~= seq![46u8]);
        assert(key_of(pattern_bytes(c)) == 2);
        assert(spec_to_standard(2u8) == 'E');
        assert(upper_canon(c) == 'E');
        assert(roundtrips(c));
    }
    else if u == 70 {
        vstd::utf8::char_u32_cast(c, u);
        assert('F' as u32 == 70);
        assert(c == 'F');
        assert(spec_from_unicode(c) == "..-."@);
        assert(pattern_bytes(c) =~= seq![46u8, 46u8, 45u8, 46u8]);
        assert(key_of(pattern_bytes(c)) == 20);
        assert(spec_to_standard(20u8) == 'F');
        assert(upper_canon(c) == 'F');
        assert(roundtrips(c));
    }
    else if u == 71 {
        vstd::utf8::char_u32_cast(c, u);
        assert('G' as u32 == 71);
        assert(c == 'G');
        assert(spec_from_unicode(c) == "--."@);
        assert(pattern_bytes(c) =~= seq![45u8, 45u8, 46u8]);
        assert(key_of(pattern_bytes(c)) == 11);
        assert(spec_to_standard(11u8) == 'G');
        assert(upper_canon(c) == 'G');
        assert(roundtrips(c));
    }
    else if u == 72 {
        vstd::utf8::char_u32_cast(c, u);
        assert('H' as u32 == 72);
        assert(c == 'H');
        assert(spec_from_unicode(c) == "...."@);
        assert(pattern_bytes(c) =~= seq![46u8, 46u8, 46u8, 46u8]);
        assert(key_of(pattern_bytes(c)) == 16);
        assert(spec_to_standard(16u8) == 'H');
        assert(upper_canon(c) == 'H');
        assert(roundtrips(c));
    }
    else if u == 73 {
        vstd::utf8::char_u32_cast(c, u);
        assert('I' as u32 == 73);
        assert(c == 'I');
        assert(spec_from_unicode(c) == ".."@);
        assert(pattern_bytes(c) =~= seq![46u8, 46u8]);
        assert(key_of(pattern_bytes(c)) == 4);
        assert(spec_to_standard(4u8) == 'I');
        assert(upper_canon(c) == 'I');
        assert(roundtrips(c));
    }
    else if u == 74 {
        vstd::utf8::char_u32_cast(c, u);
        assert('J' as u32 == 74);
        assert(c == 'J');
        assert(spec_from_unicode(c) == ".---"@);
        assert(pattern_bytes(c) =~= seq![46u8, 45u8, 45u8, 45u8]);
        assert(key_of(pattern_bytes(c)) == 30);
        assert(spec_to_standard(30u8) == 'J');
        assert(upper_canon(c) == 'J');
        assert(roundtrips(c));
    }
    else if u == 75 {
        vstd::utf8::char_u32_cast(c, u);
        assert('K' as u32 == 75);
        assert(c == 'K');
        assert(spec_from_unicode(c) == "-.-"@);
        assert(pattern_bytes(c) =~= seq![45u8, 46u8, 45u8]);
        assert(key_of(pattern_bytes(c)) == 13);
        assert(spec_to_standard(13u8) == 'K');
        assert(upper_canon(c) == 'K');
        assert(roundtrips(c));
    }
    else if u == 76 {
        vstd::utf8::char_u32_cast(c, u);
        assert('L' as u32 == 76);
        assert(c == 'L');
        assert(spec_from_unicode(c) == ".-.."@);
        assert(pattern_bytes(c) =~= seq![46u8, 45u8, 46u8, 46u8]);
        assert(key_of(pattern_bytes(c)) == 18);
        assert(spec_to_standard(18u8) == 'L');
        assert(upper_canon(c) == 'L');
        assert(roundtrips(c));
    }
    else if u == 77 {
        vstd::utf8::char_u32_cast(c, u);
        assert('M' as u32 == 77);
        assert(c == 'M');
        assert(spec_from_unicode(c) == "--"@);
        assert(pattern_bytes(c) =~= seq![45u8, 45u8]);
        assert(key_of(pattern_bytes(c)) == 7);
        assert(spec_to_standard(7u8) == 'M');
        assert(upper_canon(c) == 'M');
        assert(roundtrips(c));
    }
    else if u == 78 {
        vstd::utf8::char_u32_cast(c, u);
        assert('N' as u32 == 78);
        assert(c == 'N');
        assert(spec_from_unicode(c) == "-."@);
        assert(pattern_bytes(c) =~= seq![45u8, 46u8]);
        assert(key_of(pattern_bytes(c)) == 5);
        assert(spec_to_standard(5u8) == 'N');
        assert(upper_canon(c) == 'N');
        assert(roundtrips(c));
    }
    else if u == 79 {
        vstd::utf8::char_u32_cast(c, u);
        assert('O' as u32 == 79);
        assert(c == 'O');
        assert(spec_from_unicode(c) == "---"@);
        assert(pattern_bytes(c) =~= seq![45u8, 45u8, 45u8]);
        assert(key_of(pattern_bytes(c)) == 15);
        assert(spec_to_standard(15u8) == 'O');
        assert(upper_canon(c) == 'O');
        assert(roundtrips(c));
    }
    else if u == 80 {
        vstd::utf8::char_u32_cast(c, u);
        assert('P' as u32 == 80);
        assert(c == 'P');
        assert(spec_from_unicode(c) == ".--."@);
        assert(pattern_bytes(c) =~= seq![46u8, 45u8, 45u8, 46u8]);
        assert(key_of(pattern_bytes(c)) == 22);
        assert(spec_to_standard(22u8) == 'P');
        assert(upper_canon(c) == 'P');
        assert(roundtrips(c));
    }
    else if u == 81 {
        vstd::utf8::char_u32_cast(c, u);
        assert('Q' as u32 == 81);
        assert(c == 'Q');
        assert(spec_from_unicode(c) == "--.-"@);
        assert(pattern_bytes(c) =~= seq![45u8, 45u8, 46u8, 45u8]);
        assert(key_of(pattern_bytes(c)) == 27);
        assert(spec_to_standard(27u8) == 'Q');
        assert(upper_canon(c) == 'Q');
        assert(roundtrips(c));
    }
    else if u == 82 {
        vstd::utf8::char_u32_cast(c, u);
        assert('R' as u32 == 82);
        assert(c == 'R');
        assert(spec_from_unicode(c) == ".-."@);
        assert(pattern_bytes(c) =~= seq![46u8, 45u8, 46u8]);
        assert(key_of(pattern_bytes(c)) == 10);
        assert(spec_to_standard(10u8) == 'R');
        assert(upper_canon(c) == 'R');
        assert(roundtrips(c));
    }
    else if u == 83 {
        vstd::utf8::char_u32_cast(c, u);
        assert('S' as u32 == 83);
        assert(c == 'S');
        assert(spec_from_unicode(c) == "..."@);
        assert(pattern_bytes(c) =~= seq![46u8, 46u8, 46u8]);
        assert(key_of(pattern_bytes(c)) == 8);
        assert(spec_to_standard(8u8) == 'S');
        assert(upper_canon(c) == 'S');
        assert(roundtrips(c));
    }
    else if u == 84 {
        vstd::utf8::char_u32_cast(c, u);
        assert('T' as u32 == 84);
        assert(c == 'T');
        assert(spec_from_unicode(c) == "-"@);
        assert(pattern_bytes(c) =~= seq![45u8]);
        assert(key_of(pattern_bytes(c)) == 3);
        assert(spec_to_standard(3u8) == 'T');
        assert(upper_canon(c) == 'T');
        assert(roundtrips(c));
    }
    else if u == 85 {
        vstd::utf8::char_u32_cast(c, u);
        assert('U' as u32 == 85);
        assert(c == 'U');
        assert(spec_from_unicode(c) == "..-"@);
        assert(pattern_bytes(c) =~= seq![46u8, 46u8, 45u8]);
        assert(key_of(pattern_bytes(c)) == 12);
        assert(spec_to_standard(12u8) == 'U');
        assert(upper_canon(c) == 'U');
        assert(roundtrips(c));
    }
    else if u == 86 {
        vstd::utf8::char_u32_cast(c, u);
        assert('V' as u32 == 86);
        assert(c == 'V');
        assert(spec_from_unicode(c) == "...-"@);
        assert(pattern_bytes(c) =~= seq![46u8, 46u8, 46u8, 45u8]);
        assert(key_of(pattern_bytes(c)) == 24);
        assert(spec_to_standard(24u8) == 'V');
        assert(upper_canon(c) == 'V');
        assert(roundtrips(c));
    }
    else if u == 87 {
        vstd::utf8::char_u32_cast(c, u);
        assert('W' as u32 == 87);
        assert(c == 'W');
        assert(spec_from_unicode(c) == ".--"@);
        assert(pattern_bytes(c) =~= seq![46u8, 45u8, 45u8]);
        assert(key_of(pattern_bytes(c)) == 14);
        assert(spec_to_standard(14u8) == 'W');
        assert(upper_canon(c) == 'W');
        assert(roundtrips(c));
    }
    else if u == 88 {
        vstd::utf8::char_u32_cast(c, u);
        assert('X' as u32 == 88);
        assert(c == 'X');
        assert(spec_from_unicode(c) == "-..-"@);
        assert(pattern_bytes(c) =~= seq![45u8, 46u8, 46u8, 45u8]);
        assert(key_of(pattern_bytes(c)) == 25);
        assert(spec_to_standard(25u8) == 'X');
        assert(upper_canon(c) == 'X');
        assert(roundtrips(c));
    }
    else if u == 89 {
        vstd::utf8::char_u32_cast(c, u);
        assert('Y' as u32 == 89);
        assert(c == 'Y');
        assert(spec_from_unicode(c) == "-.--"@);
        assert(pattern_bytes(c) =~= seq![45u8, 46u8, 45u8, 45u8]);
        assert(key_of(pattern_bytes(c)) == 29);
        assert(spec_to_standard(29u8) == 'Y');
        assert(upper_canon(c) == 'Y');
        assert(roundtrips(c));
    }
    else if u == 90 {
        vstd::utf8::char_u32_cast(c, u);
        assert('Z' as u32 == 90);
        assert(c == 'Z');
        assert(spec_from_unicode(c) == "--.."@);
        assert(pattern_bytes(c) =~= seq![45u8, 45u8, 46u8, 46u8]);
        assert(key_of(pattern_bytes(c)) == 19);
        assert(spec_to_standard(19u8) == 'Z');
        assert(upper_canon(c) == 'Z');
        assert(roundtrips(c));
    }
    else {
        assert(false);
    }
}

/// Every digit's symbol decodes back to itself.
#[verifier::rlimit(100)]
#[verifier::spinoff_prover]
pub proof fn lemma_digit_roundtrips(c: char)
    requires
        48 <= c as u32 <= 57,
    ensures
        roundtrips(c),
{
    let u = c as u32;
    reveal_with_fuel(crate::packer::key_of_range, 9);
    assert(46u8 & 1 == 0 && 45u8 & 1 == 1 && 32u8 & 1 == 0) by (bit_vector);
    reveal_strlit("-");
    reveal_strlit("--");
    reveal_strlit("---");
    reveal_strlit("-----");
    reveal_strlit("----.");
    reveal_strlit("---.");
    reveal_strlit("---..");
    reveal_strlit("---...");
    reveal_strlit("--.");
    reveal_strlit("--.-");
    reveal_strlit("--.--");
    reveal_strlit("--..");
    reveal_strlit("--..--");
    reveal_strlit("--...");
    reveal_strlit("-.");
    reveal_strlit("-.-");
    reveal_strlit("-.--");
    reveal_strlit("-.--.");
    reveal_strlit("-.--.-");
    reveal_strlit("-.-.");
    reveal_strlit("-.-.--");
    reveal_strlit("-.-.-.");
    reveal_strlit("-.-..");
    reveal_strlit("-..");
    reveal_strlit("-..-");
    reveal_strlit("-..-.");
    reveal_strlit("-...");
    reveal_strlit("-...-");
    reveal_strlit("-....");
    reveal_strlit("-....-");
    reveal_strlit(".");
    reveal_strlit(".-");
    reveal_strlit(".--");
    reveal_strlit(".---");
    reveal_strlit(".----");
    reveal_strlit(".-----.");
    reveal_strlit(".----.");
    reveal_strlit(".--.");
    reveal_strlit(".--.-");
    reveal_strlit(".--.-.");
    reveal_strlit(".-.");
    reveal_strlit(".-.-");
    reveal_strlit(".-.-.");
    reveal_strlit(".-.-.-");
    reveal_strlit(".-..");
    reveal_strlit(".-..-.");
    reveal_strlit("..");
    reveal_strlit("..-");
    reveal_strlit("..--");
    reveal_strlit("..---");
    reveal_strlit("..--.-");
    reveal_strlit("..--..");
    reveal_strlit("..-.");
    reveal_strlit("..-..");
    reveal_strlit("...");
    reveal_strlit("...-");
    reveal_strlit("...--");
    reveal_strlit("...-..-");
    reveal_strlit("....");
    reveal_strlit("....-");
    reveal_strlit(".....");

    if u == 48 {
        vstd::utf8::char_u32_cast(c, u);
        assert('0' as u32 == 48);
        assert(c == '0');
        assert(spec_from_unicode(c) == "-----"@);
        assert(pattern_bytes(c) =~= seq![45u8, 45u8, 45u8, 45u8, 45u8]);
        assert(key_of(pattern_bytes(c)) == 63);
        assert(spec_to_standard(63u8) == '0');
        assert(upper_canon(c) == '0');
        assert(roundtrips(c));
    }
    else if u == 49 {
        vstd::utf8::char_u32_cast(c, u);
        assert('1' as u32 == 49);
        assert(c == '1');
        assert(spec_from_unicode(c) == ".----"@);
        assert(pattern_bytes(c) =~= seq![46u8, 45u8, 45u8, 45u8, 45u8]);
        assert(key_of(pattern_bytes(c)) == 62);
        assert(spec_to_standard(62u8) == '1');
        assert(upper_canon(c) == '1');
        assert(roundtrips(c));
    }
    else if u == 50 {
        vstd::utf8::char_u32_cast(c, u);
        assert('2' as u32 == 50);
        assert(c == '2');
        assert(spec_from_unicode(c) == "..---"@);
        assert(pattern_bytes(c) =~= seq![46u8, 46u8, 45u8, 45u8, 45u8]);
        assert(key_of(pattern_bytes(c)) == 60);
        assert(spec_to_standard(60u8) == '2');
        assert(upper_canon(c) == '2');
        assert(roundtrips(c));
    }
    else if u == 51 {
        vstd::utf8::char_u32_cast(c, u);
        assert('3' as u32 == 51);
        assert(c == '3');
        assert(spec_from_unicode(c) == "...--"@);
        assert(pattern_bytes(c) =~= seq![46u8, 46u8, 46u8, 45u8, 45u8]);
        assert(key_of(pattern_bytes(c)) == 56);
        assert(spec_to_standard(56u8) == '3');
        assert(upper_canon(c) == '3');
        assert(roundtrips(c));
    }
    else if u == 52 {
        vstd::utf8::char_u32_cast(c, u);
        assert('4' as u32 == 52);
        assert(c == '4');
        assert(spec_from_unicode(c) == "....-"@);
        assert(pattern_bytes(c) =~= seq![46u8, 46u8, 46u8, 46u8, 45u8]);
        assert(key_of(pattern_bytes(c)) == 48);
        assert(spec_to_standard(48u8) == '4');
        assert(upper_canon(c) == '4');
        assert(roundtrips(c));
    }
    else if u == 53 {
        vstd::utf8::char_u32_cast(c, u);
        assert('5' as u32 == 53);
        assert(c == '5');
        assert(spec_from_unicode(c) == "....."@);
        assert(pattern_bytes(c) =~= seq![46u8, 46u8, 46u8, 46u8, 46u8]);
        assert(key_of(pattern_bytes(c)) == 32);
        assert(spec_to_standard(32u8) == '5');
        assert(upper_canon(c) == '5');
        assert(roundtrips(c));
    }
    else if u == 54 {
        vstd::utf8::char_u32_cast(c, u);
        assert('6' as u32 == 54);
        assert(c == '6');
        assert(spec_from_unicode(c) == "-...."@);
        assert(pattern_bytes(c) =~= seq![45u8, 46u8, 46u8, 46u8, 46u8]);
        assert(key_of(pattern_bytes(c)) == 33);
        assert(spec_to_standard(33u8) == '6');
        assert(upper_canon(c) == '6');
        assert(roundtrips(c));
    }
    else if u == 55 {
        vstd::utf8::char_u32_cast(c, u);
        assert('7' as u32 == 55);
        assert(c == '7');
        assert(spec_from_unicode(c) == "--..."@);
        assert(pattern_bytes(c) =~= seq![45u8, 45u8, 46u8, 46u8, 46u8]);
        assert(key_of(pattern_bytes(c)) == 35);
        assert(spec_to_standard(35u8) == '7');
        assert(upper_canon(c) == '7');
        assert(roundtrips(c));
    }
    else if u == 56 {
        vstd::utf8::char_u32_cast(c, u);
        assert('8' as u32 == 56);
        assert(c == '8');
        assert(spec_from_unicode(c) == "---.."@);
        assert(pattern_bytes(c) =~= seq![45u8, 45u8, 45u8, 46u8, 46u8]);
        assert(key_of(pattern_bytes(c)) == 39);
        assert(spec_to_standard(39u8) == '8');
        assert(upper_canon(c) == '8');
        assert(roundtrips(c));
    }
    else if u == 57 {
        vstd::utf8::char_u32_cast(c, u);
        assert('9' as u32 == 57);
        assert(c == '9');
        assert(spec_from_unicode(c) == "----."@);
        assert(pattern_bytes(c) =~= seq![45u8, 45u8, 45u8, 45u8, 46u8]);
        assert(key_of(pattern_bytes(c)) == 47);
        assert(spec_to_standard(47u8) == '9');
        assert(upper_canon(c) == '9');
        assert(roundtrips(c));
    }
    else {
        assert(false);
    }
}

/// The punctuation whose symbol decodes back to itself.
#[verifier::rlimit(100)]
#[verifier::spinoff_prover]
pub proof fn lemma_punctuation_roundtrips(c: char)
    requires
        c == '!' || c == '"' || c == '$' || c == '\'' || c == '(' || c == ')' || c == '+' || c
            == ',' || c == '-' || c == '.' || c == '/' || c == ':' || c == ';' || c == '=' || c
            == '?' || c == '@' || c == '_' || c == '`',
    ensures
        roundtrips(c),
{
    reveal_with_fuel(crate::packer::key_of_range, 9);
    assert(46u8 & 1 == 0 && 45u8 & 1 == 1 && 32u8 & 1 == 0) by (bit_vector);
    reveal_strlit("-");
    reveal_strlit("--");
    reveal_strlit("---");
    reveal_strlit("-----");
    reveal_strlit("----.");
    reveal_strlit("---.");
    reveal_strlit("---..");
    reveal_strlit("---...");
    reveal_strlit("--.");
    reveal_strlit("--.-");
    reveal_strlit("--.--");
    reveal_strlit("--..");
    reveal_strlit("--..--");
    reveal_strlit("--...");
    reveal_strlit("-.");
    reveal_strlit("-.-");
    reveal_strlit("-.--");
    reveal_strlit("-.--.");
    reveal_strlit("-.--.-");
    reveal_strlit("-.-.");
    reveal_strlit("-.-.--");
    reveal_strlit("-.-.-.");
    reveal_strlit("-.-..");
    reveal_strlit("-..");
    reveal_strlit("-..-");
    reveal_strlit("-..-.");
    reveal_strlit("-...");
    reveal_strlit("-...-");
    reveal_strlit("-....");
    reveal_strlit("-....-");
    reveal_strlit(".");
    reveal_strlit(".-");
    reveal_strlit(".--");
    reveal_strlit(".---");
    reveal_strlit(".----");
    reveal_strlit(".-----.");
    reveal_strlit(".----.");
    reveal_strlit(".--.");
    reveal_strlit(".--.-");
    reveal_strlit(".--.-.");
    reveal_strlit(".-.");
    reveal_strlit(".-.-");
    reveal_strlit(".-.-.");
    reveal_strlit(".-.-.-");
    reveal_strlit(".-..");
    reveal_strlit(".-..-.");
    reveal_strlit("..");
    reveal_strlit("..-");
    reveal_strlit("..--");
    reveal_strlit("..---");
    reveal_strlit("..--.-");
    reveal_strlit("..--..");
    reveal_strlit("..-.");
    reveal_strlit("..-..");
    reveal_strlit("...");
    reveal_strlit("...-");
    reveal_strlit("...--");
    reveal_strlit("...-..-");
    reveal_strlit("....");
    reveal_strlit("....-");
    reveal_strlit(".....");

    if c == '!' {
        assert(spec_from_unicode(c) == "-.-.--"@);
        assert(pattern_bytes(c) =~= seq![45u8, 46u8, 45u8, 46u8, 45u8, 45u8]);
        assert(key_of(pattern_bytes(c)) == 117);
        assert(spec_to_standard(117u8) == '!');
        assert(upper_canon(c) == '!');
        assert(roundtrips(c));
    }
    else if c == '"' {
        assert(spec_from_unicode(c) == ".-..-."@);
        assert(pattern_bytes(c) =~= seq![46u8, 45u8, 46u8, 46u8, 45u8, 46u8]);
        assert(key_of(pattern_bytes(c)) == 82);
        assert(spec_to_standard(82u8) == '"');
        assert(upper_canon(c) == '"');
        assert(roundtrips(c));
    }
    else if c == '$' {
        assert(spec_from_unicode(c) == "...-..-"@);
        assert(pattern_bytes(c) =~= seq![46u8, 46u8, 46u8, 45u8, 46u8, 46u8, 45u8]);
        assert(key_of(pattern_bytes(c)) == 200);
        assert(spec_to_standard(200u8) == '$');
        assert(upper_canon(c) == '$');
        assert(roundtrips(c));
    }
    else if c == '\'' {
        assert(spec_from_unicode(c) == ".----."@);
        assert(pattern_bytes(c) =~= seq![46u8, 45u8, 45u8, 45u8, 45u8, 46u8]);
        assert(key_of(pattern_bytes(c)) == 94);
        assert(spec_to_standard(94u8) == '\'');
        assert(upper_canon(c) == '\'');
        assert(roundtrips(c));
    }
    else if c == '(' {
        assert(spec_from_unicode(c) == "-.--."@);
        assert(pattern_bytes(c) =~= seq![45u8, 46u8, 45u8, 45u8, 46u8]);
        assert(key_of(pattern_bytes(c)) == 45);
        assert(spec_to_standard(45u8) == '(');
        assert(upper_canon(c) == '(');
        assert(roundtrips(c));
    }
    else if c == ')' {
        assert(spec_from_unicode(c) == "-.--.-"@);
        assert(pattern_bytes(c) =~= seq![45u8, 46u8, 45u8, 45u8, 46u8, 45u8]);
        assert(key_of(pattern_bytes(c)) == 109);
        assert(spec_to_standard(109u8) == ')');
        assert(upper_canon(c) == ')');
        assert(roundtrips(c));
    }
    else if c == '+' {
        assert(spec_from_unicode(c) == ".-.-."@);
        assert(pattern_bytes(c) =~= seq![46u8, 45u8, 46u8, 45u8, 46u8]);
        assert(key_of(pattern_bytes(c)) == 42);
        assert(spec_to_standard(42u8) == '+');
        assert(upper_canon(c) == '+');
        assert(roundtrips(c));
    }
    else if c == ',' {
        assert(spec_from_unicode(c) == "--..--"@);
        assert(pattern_bytes(c) =~= seq![45u8, 45u8, 46u8, 46u8, 45u8, 45u8]);
        assert(key_of(pattern_bytes(c)) == 115);
        assert(spec_to_standard(115u8) == ',');
        assert(upper_canon(c) == ',');
        assert(roundtrips(c));
    }
    else if c == '-' {
        assert(spec_from_unicode(c) == "-....-"@);
        assert(pattern_bytes(c) =~= seq![45u8, 46u8, 46u8, 46u8, 46u8, 45u8]);
        assert(key_of(pattern_bytes(c)) == 97);
        assert(spec_to_standard(97u8) == '-');
        assert(upper_canon(c) == '-');
        assert(roundtrips(c));
    }
    else if c == '.' {
        assert(spec_from_unicode(c) == ".-.-.-"@);
        assert(pattern_bytes(c) =~= seq![46u8, 45u8, 46u8, 45u8, 46u8, 45u8]);
        assert(key_of(pattern_bytes(c)) == 106);
        assert(spec_to_standard(106u8) == '.');
        assert(upper_canon(c) == '.');
        assert(roundtrips(c));
    }
    else if c == '/' {
        assert(spec_from_unicode(c) == "-..-."@);
        assert(pattern_bytes(c) =~= seq![45u8, 46u8, 46u8, 45u8, 46u8]);
        assert(key_of(pattern_bytes(c)) == 41);
        assert(spec_to_standard(41u8) == '/');
        assert(upper_canon(c) == '/');
        assert(roundtrips(c));
    }
    else if c == ':' {
        assert(spec_from_unicode(c) == "---..."@);
        assert(pattern_bytes(c) =~= seq![45u8, 45u8, 45u8, 46u8, 46u8, 46u8]);
        assert(key_of(pattern_bytes(c)) == 71);
        assert(spec_to_standard(71u8) == ':');
        assert(upper_canon(c) == ':');
        assert(roundtrips(c));
    }
    else if c == ';' {
        assert(spec_from_unicode(c) == "-.-.-."@);
        assert(pattern_bytes(c) =~= seq![45u8, 46u8, 45u8, 46u8, 45u8, 46u8]);
        assert(key_of(pattern_bytes(c)) == 85);
        assert(spec_to_standard(85u8) == ';');
        assert(upper_canon(c) == ';');
        assert(roundtrips(c));
    }
    else if c == '=' {
        assert(spec_from_unicode(c) == "-...-"@);
        assert(pattern_bytes(c) =~= seq![45u8, 46u8, 46u8, 46u8, 45u8]);
        assert(key_of(pattern_bytes(c)) == 49);
        assert(spec_to_standard(49u8) == '=');
        assert(upper_canon(c) == '=');
        assert(roundtrips(c));
    }
    else if c == '?' {
        assert(spec_from_unicode(c) == "..--.."@);
        assert(pattern_bytes(c) =~= seq![46u8, 46u8, 45u8, 45u8, 46u8, 46u8]);
        assert(key_of(pattern_bytes(c)) == 76);
        assert(spec_to_standard(76u8) == '?');
        assert(upper_canon(c) == '?');
        assert(roundtrips(c));
    }
    else if c == '@' {
        assert(spec_from_unicode(c) == ".--.-."@);
        assert(pattern_bytes(c) =~= seq![46u8, 45u8, 45u8, 46u8, 45u8, 46u8]);
        assert(key_of(pattern_bytes(c)) == 86);
        assert(spec_to_standard(86u8) == '@');
        assert(upper_canon(c) == '@');
        assert(roundtrips(c));
    }
    else if c == '_' {
        assert(spec_from_unicode(c) == "..--.-"@);
        assert(pattern_bytes(c) =~= seq![46u8, 46u8, 45u8, 45u8, 46u8, 45u8]);
        assert(key_of(pattern_bytes(c)) == 108);
        assert(spec_to_standard(108u8) == '_');
        assert(upper_canon(c) == '_');
        assert(roundtrips(c));
    }
    else if c == '`' {
        assert(spec_from_unicode(c) == ".-----."@);
        assert(pattern_bytes(c) =~= seq![46u8, 45u8, 45u8, 45u8, 45u8, 45u8, 46u8]);
        assert(key_of(pattern_bytes(c)) == 190);
        assert(spec_to_standard(190u8) == '`');
        assert(upper_canon(c) == '`');
        assert(roundtrips(c));
    }
}

/// The uppercase Latin-extension letters whose symbol decodes back to
/// itself.
#[verifier::rlimit(100)]
#[verifier::spinoff_prover]
pub proof fn lemma_extension_roundtrips(c: char)
    requires
        c == 'Ä' || c == 'Ö' || c == 'Ü' || c == 'É' || c == 'Á' || c == 'Ç' || c == 'Ñ',
    ensures
        roundtrips(c),
{
    reveal_with_fuel(crate::packer::key_of_range, 9);
    assert(46u8 & 1 == 0 && 45u8 & 1 == 1 && 32u8 & 1 == 0) by (bit_vector);
    reveal_strlit("-");
    reveal_strlit("--");
    reveal_strlit("---");
    reveal_strlit("-----");
    reveal_strlit("----.");
    reveal_strlit("---.");
    reveal_strlit("---..");
    reveal_strlit("---...");
    reveal_strlit("--.");
    reveal_strlit("--.-");
    reveal_strlit("--.--");
    reveal_strlit("--..");
    reveal_strlit("--..--");
    reveal_strlit("--...");
    reveal_strlit("-.");
    reveal_strlit("-.-");
    reveal_strlit("-.--");
    reveal_strlit("-.--.");
    reveal_strlit("-.--.-");
    reveal_strlit("-.-.");
    reveal_strlit("-.-.--");
    reveal_strlit("-.-.-.");
    reveal_strlit("-.-..");
    reveal_strlit("-..");
    reveal_strlit("-..-");
    reveal_strlit("-..-.");
    reveal_strlit("-...");
    reveal_strlit("-...-");
    reveal_strlit("-....");
    reveal_strlit("-....-");
    reveal_strlit(".");
    reveal_strlit(".-");
    reveal_strlit(".--");
    reveal_strlit(".---");
    reveal_strlit(".----");
    reveal_strlit(".-----.");
    reveal_strlit(".----.");
    reveal_strlit(".--.");
    reveal_strlit(".--.-");
    reveal_strlit(".--.-.");
    reveal_strlit(".-.");
    reveal_strlit(".-.-");
    reveal_strlit(".-.-.");
    reveal_strlit(".-.-.-");
    reveal_strlit(".-..");
    reveal_strlit(".-..-.");
    reveal_strlit("..");
    reveal_strlit("..-");
    reveal_strlit("..--");
    reveal_strlit("..---");
    reveal_strlit("..--.-");
    reveal_strlit("..--..");
    reveal_strlit("..-.");
    reveal_strlit("..-..");
    reveal_strlit("...");
    reveal_strlit("...-");
    reveal_strlit("...--");
    reveal_strlit("...-..-");
    reveal_strlit("....");
    reveal_strlit("....-");
    reveal_strlit(".....");

    if c == 'Ä' {
        assert(spec_from_unicode(c) == ".-.-"@);
        assert(pattern_bytes(c) =~= seq![46u8, 45u8, 46u8, 45u8]);
        assert(key_of(pattern_bytes(c)) == 26);
        assert(spec_to_standard(26u8) == 'Ä');
        assert(upper_canon(c) == 'Ä');
        assert(roundtrips(c));
    }
    else if c == 'Ö' {
        assert(spec_from_unicode(c) == "---."@);
        assert(pattern_bytes(c) =~= seq![45u8, 45u8, 45u8, 46u8]);
        assert(key_of(pattern_bytes(c)) == 23);
        assert(spec_to_standard(23u8) == 'Ö');
        assert(upper_canon(c) == 'Ö');
        assert(roundtrips(c));
    }
    else if c == 'Ü' {
        assert(spec_from_unicode(c) == "..--"@);
        assert(pattern_bytes(c) =~= seq![46u8, 46u8, 45u8, 45u8]);
        assert(key_of(pattern_bytes(c)) == 28);
        assert(spec_to_standard(28u8) == 'Ü');
        assert(upper_canon(c) == 'Ü');
        assert(roundtrips(c));
    }
    else if c == 'É' {
        assert(spec_from_unicode(c) == "..-.."@);
        assert(pattern_bytes(c) =~= seq![46u8, 46u8, 45u8, 46u8, 46u8]);
        assert(key_of(pattern_bytes(c)) == 36);
        assert(spec_to_standard(36u8) == 'É');
        assert(upper_canon(c) == 'É');
        assert(roundtrips(c));
    }
    else if c == 'Á' {
        assert(spec_from_unicode(c) == ".--.-"@);
        assert(pattern_bytes(c) =~= seq![46u8, 45u8, 45u8, 46u8, 45u8]);
        assert(key_of(pattern_bytes(c)) == 54);
        assert(spec_to_standard(54u8) == 'Á');
        assert(upper_canon(c) == 'Á');
        assert(roundtrips(c));
    }
    else if c == 'Ç' {
        assert(spec_from_unicode(c) == "-.-.."@);
        assert(pattern_bytes(c) =~= seq![45u8, 46u8, 45u8, 46u8, 46u8]);
        assert(key_of(pattern_bytes(c)) == 37);
        assert(spec_to_standard(37u8) == 'Ç');
        assert(upper_canon(c) == 'Ç');
        assert(roundtrips(c));
    }
    else if c == 'Ñ' {
        assert(spec_from_unicode(c) == "--.--"@);
        assert(pattern_bytes(c) =~= seq![45u8, 45u8, 46u8, 45u8, 45u8]);
        assert(key_of(pattern_bytes(c)) == 59);
        assert(spec_to_standard(59u8) == 'Ñ');
        assert(upper_canon(c) == 'Ñ');
        assert(roundtrips(c));
    }
}

} // verus!
