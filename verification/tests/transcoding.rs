use lz_string::alphabet::Alphabet;
use lz_string::bytes::padded;
use lz_string::error::Error;
use lz_string::utf16::from_utf16;
use lz_string::{compress_to_base64, compress_to_encoded_uri_component, compress_to_utf16};

#[test]
fn from_utf16_decodes_plain_units() {
    assert_eq!(from_utf16(&vec![]), Ok(String::new()));
    assert_eq!(from_utf16(&vec![0x48, 0x69, 0x21]), Ok("Hi!".to_string()));
    assert_eq!(from_utf16(&vec![0xe9, 0x20ac, 0x4e2d]), Ok("\u{e9}\u{20ac}\u{4e2d}".to_string()));
    assert_eq!(from_utf16(&vec![0, 0xd7ff, 0xe000, 0xffff]), Ok("\0\u{d7ff}\u{e000}\u{ffff}".to_string()));
}

#[test]
fn from_utf16_decodes_surrogate_pairs() {
    assert_eq!(from_utf16(&vec![0xd800, 0xdc00]), Ok("\u{10000}".to_string()));
    assert_eq!(from_utf16(&vec![0xd83d, 0xde00]), Ok("\u{1F600}".to_string()));
    assert_eq!(from_utf16(&vec![0xdbff, 0xdfff]), Ok("\u{10FFFF}".to_string()));
    assert_eq!(from_utf16(&vec![0x61, 0xd834, 0xdd1e, 0x62]), Ok("a\u{1D11E}b".to_string()));
}

#[test]
fn from_utf16_refuses_unpaired_surrogates() {
    assert_eq!(from_utf16(&vec![0xd800]), Err(Error::InvalidEncoding));
    assert_eq!(from_utf16(&vec![0xdc00]), Err(Error::InvalidEncoding));
    assert_eq!(from_utf16(&vec![0x61, 0xd800, 0x62]), Err(Error::InvalidEncoding));
    assert_eq!(from_utf16(&vec![0xdc00, 0xd800]), Err(Error::InvalidEncoding));
    assert_eq!(from_utf16(&vec![0xd800, 0xd800, 0xdc00]), Err(Error::InvalidEncoding));
    assert_eq!(from_utf16(&vec![0x61, 0x62, 0xdbff]), Err(Error::InvalidEncoding));
}

#[test]
fn from_utf16_agrees_with_the_standard_library() {
    let mut units: Vec<u16> = Vec::new();
    let mut seed: u32 = 12345;
    for round in 0..2000 {
        seed = seed.wrapping_mul(1664525).wrapping_add(1013904223);
        let pick = (seed >> 16) % 8;
        let unit = match pick {
            0 => 0xd800 + ((seed >> 8) % 0x400) as u16,
            1 => 0xdc00 + ((seed >> 8) % 0x400) as u16,
            _ => (seed >> 4) as u16,
        };
        units.push(unit);
        if round % 5 == 4 {
            match String::from_utf16(&units) {
                Ok(text) => assert_eq!(from_utf16(&units), Ok(text)),
                Err(_) => assert_eq!(from_utf16(&units), Err(Error::InvalidEncoding)),
            }
            units.clear();
        }
    }
}

#[test]
fn from_utf16_gives_back_every_text() {
    for text in ["", "plain", "caf\u{e9}", "\u{1F600}\u{10000}\u{10FFFF}", "\u{ffff}\u{e000}\u{d7ff}"] {
        let units: Vec<u16> = text.encode_utf16().collect();
        assert_eq!(from_utf16(&units), Ok(text.to_string()));
    }
}

#[test]
fn alphabets_hold_their_symbols() {
    for c in ('A'..='Z').chain('a'..='z').chain('0'..='9') {
        assert!(Alphabet::Uri.has_symbol(c));
        assert!(Alphabet::Base64.has_symbol(c));
        assert!(Alphabet::Utf16.has_symbol(c));
    }
    for c in ['+', '-', '$'] {
        assert!(Alphabet::Uri.has_symbol(c));
    }
    for c in ['+', '/', '='] {
        assert!(Alphabet::Base64.has_symbol(c));
    }
    for c in ['/', '=', ' ', '@', '[', '`', '{', ':', '\u{e9}', '_', '.', '~'] {
        assert!(!Alphabet::Uri.has_symbol(c));
    }
    for c in ['-', '$', ' ', '@', '[', '`', '{', ':', '\u{e9}', '_', '.', '~'] {
        assert!(!Alphabet::Base64.has_symbol(c));
    }
    assert!(Alphabet::Utf16.has_symbol(' '));
    assert!(Alphabet::Utf16.has_symbol('\u{801f}'));
    assert!(!Alphabet::Utf16.has_symbol('\u{1f}'));
    assert!(!Alphabet::Utf16.has_symbol('\u{8020}'));
    assert!(!Alphabet::Utf16.has_symbol('\u{1F600}'));
}

#[test]
fn alphabets_spell_whole_texts_only() {
    assert!(Alphabet::Base64.can_spell(""));
    assert!(Alphabet::Base64.can_spell("BIUwNmD2A0AEDqkBOYAmBCIA=="));
    assert!(!Alphabet::Base64.can_spell("not-valid-base64!!"));
    assert!(!Alphabet::Base64.can_spell("BIUw NmD2"));
    assert!(!Alphabet::Base64.can_spell("BIUwNmD2-"));
    assert!(Alphabet::Uri.can_spell("BIUwNmD2A0AEDqkBOYAmBCIA+-$"));
    assert!(!Alphabet::Uri.can_spell("BIUwNmD2/"));
    assert!(!Alphabet::Uri.can_spell("!BIUwNmD2"));
    assert!(Alphabet::Utf16.can_spell("\u{2020} \u{801f}"));
    assert!(!Alphabet::Utf16.can_spell("\u{2020}\t"));
    assert!(!Alphabet::Utf16.can_spell("\u{9000}\u{2020}"));
}

#[test]
fn compressed_text_stays_in_its_alphabet() {
    let mut long = String::new();
    for i in 0..5000u32 {
        long.push(char::from_u32(0x20 + (i * 31) % 0x3000).unwrap());
    }
    for sample in ["", "a", "Hello, World!", "test string with spaces", "\u{1F600}", long.as_str()] {
        let base64 = compress_to_base64(sample);
        assert!(!base64.is_empty());
        assert!(base64.chars().all(|c| c.is_ascii_alphanumeric() || "+/=".contains(c)));
        assert!(Alphabet::Base64.can_spell(&base64));
        let uri = compress_to_encoded_uri_component(sample);
        assert!(!uri.is_empty());
        assert!(uri.chars().all(|c| c.is_ascii_alphanumeric() || "+-$".contains(c)));
        assert!(Alphabet::Uri.can_spell(&uri));
        let utf16 = compress_to_utf16(sample);
        assert!(utf16.ends_with(' '));
        assert!(utf16.chars().all(|c| (' '..='\u{801f}').contains(&c)));
        assert!(Alphabet::Utf16.can_spell(&utf16));
    }
}

#[test]
fn padded_fills_an_odd_count_with_zero() {
    assert_eq!(padded(&[]), Vec::<u8>::new());
    assert_eq!(padded(&[7]), vec![7, 0]);
    assert_eq!(padded(&[7, 9]), vec![7, 9]);
    assert_eq!(padded(&[1, 2, 3]), vec![1, 2, 3, 0]);
    assert_eq!(padded(&[1, 2, 3, 4]), vec![1, 2, 3, 4]);
}
