use cckeyboard::morse::{decode_morse, MorseDecoder, Symbol};

fn decode(code: &str) -> Option<char> {
    let mut d = MorseDecoder::new();
    for c in code.chars() {
        d.push(if c == '-' { Symbol::Dash } else { Symbol::Dot });
    }
    d.take_char()
}

const TABLE: [(&str, char); 36] = [
    (".", 'E'), ("-", 'T'), ("..", 'I'), (".-", 'A'), ("-.", 'N'), ("--", 'M'),
    ("...", 'S'), ("..-", 'U'), (".-.", 'R'), (".--", 'W'), ("-..", 'D'), ("-.-", 'K'),
    ("--.", 'G'), ("---", 'O'), ("....", 'H'), ("...-", 'V'), ("..-.", 'F'), (".-..", 'L'),
    (".--.", 'P'), (".---", 'J'), ("-...", 'B'), ("-..-", 'X'), ("-.-.", 'C'), ("-.--", 'Y'),
    ("--..", 'Z'), ("--.-", 'Q'), (".....", '5'), ("....-", '4'), ("...--", '3'),
    ("..---", '2'), (".----", '1'), ("-----", '0'), ("----.", '9'), ("---..", '8'),
    ("--...", '7'), ("-....", '6'),
];

#[test]
fn every_letter_and_digit_decodes() {
    for (code, ch) in TABLE.iter() {
        assert_eq!(decode(code), Some(*ch), "code {}", code);
    }
}

#[test]
fn unknown_codes_decode_to_nothing() {
    assert_eq!(decode(""), None);
    assert_eq!(decode(".-.-"), None);
    assert_eq!(decode("..--"), None);
    assert_eq!(decode("-.-.-"), None);
}

#[test]
fn sixth_symbol_discards_the_code() {
    let mut d = MorseDecoder::new();
    for _ in 0..5 {
        d.push(Symbol::Dot);
    }
    assert!(d.has_symbols());
    d.push(Symbol::Dot);
    assert!(!d.has_symbols());
    assert_eq!(d.take_char(), None);
    d.push(Symbol::Dash);
    assert_eq!(d.take_char(), Some('T'));
}

#[test]
fn take_char_clears_the_decoder() {
    let mut d = MorseDecoder::new();
    assert!(!d.has_symbols());
    d.push(Symbol::Dash);
    d.push(Symbol::Dot);
    assert!(d.has_symbols());
    assert_eq!(d.take_char(), Some('N'));
    assert!(!d.has_symbols());
    assert_eq!(d.take_char(), None);
}

#[test]
fn morse_timing_constants() {
    assert_eq!(cckeyboard::morse::DOT_DASH_THRESHOLD_MS, 400);
    assert_eq!(cckeyboard::morse::LETTER_GAP_MS, 600);
    assert_eq!(cckeyboard::morse::WORD_GAP_MS, 1400);
}

#[test]
fn decode_morse_rejects_out_of_range_codes() {
    assert_eq!(decode_morse(0, 0), None);
    assert_eq!(decode_morse(6, 0), None);
    assert_eq!(decode_morse(255, 31), None);
    assert_eq!(decode_morse(1, 0b10), None);
    assert_eq!(decode_morse(2, 0b100), None);
    assert_eq!(decode_morse(5, 0b100000), None);
    assert_eq!(decode_morse(3, 0b010), Some('R'));
    assert_eq!(decode_morse(5, 0b11110), Some('9'));
}

#[test]
fn exactly_thirty_six_codes_decode() {
    let mut found = Vec::new();
    for len in 0..=255u8 {
        for bits in 0..=255u8 {
            if let Some(c) = decode_morse(len, bits) {
                assert!(c.is_ascii_uppercase() || c.is_ascii_digit());
                found.push(c);
            }
        }
    }
    assert_eq!(found.len(), 36);
    found.sort();
    found.dedup();
    assert_eq!(found.len(), 36);
}
