use lz_string::{compress, compress_to_encoded_uri_component, compress_to_utf16, decompress};

/// The bits that the coder writes for a text of `n` distinct characters
/// below U+0100: the k-th character is a literal of eight bits behind a code
/// whose width is the smallest that holds the dictionary at that moment, and
/// the terminator follows at the width reached after the last character.
fn bits_for_distinct(n: u32) -> u32 {
    let mut bits = 0;
    for k in 1..=n {
        bits += 2 + k.ilog2() + 8;
    }
    bits + 2 + (n + 1).ilog2()
}

fn distinct(n: u32) -> String {
    (0..n).map(|i| char::from_u32(0x21 + i).unwrap()).collect()
}

#[test]
fn code_width_starts_at_two_bits() {
    assert_eq!(bits_for_distinct(0), 2);
    assert_eq!(bits_for_distinct(1), 13);
    assert_eq!(bits_for_distinct(7), 85);
    assert_eq!(compress("").len(), 1);
    assert_eq!(compress("abcdefg").len(), 6);
    assert_eq!(compress("abcdefg"), vec![8578, 12486, 608, 42502, 24806, 16384]);
}

#[test]
fn code_width_grows_with_the_dictionary() {
    for n in [0, 1, 2, 3, 4, 7, 8, 15, 16, 31, 32, 40, 63, 64, 100, 127, 128, 200] {
        let text = distinct(n);
        let bits = bits_for_distinct(n) as usize;
        assert_eq!(compress(&text).len(), bits / 16 + 1);
        assert_eq!(compress_to_encoded_uri_component(&text).chars().count(), bits / 6 + 1);
        assert_eq!(compress_to_utf16(&text).chars().count(), bits / 15 + 2);
    }
}

#[test]
fn stream_cut_at_a_wider_code_is_corrupt() {
    for n in [3, 7, 15, 31, 63] {
        let text = distinct(n);
        let expected: Vec<u16> = text.encode_utf16().collect();
        let mut stream = compress(&text);
        assert_eq!(decompress(&stream), Ok(expected));
        stream.pop();
        assert!(decompress(&stream).is_err());
    }
}
