//! Transcoding between UTF-16 code units and text.

use crate::error::Error;
use vstd::prelude::*;

verus! {

/// `char::from_u32` gives the character with the given scalar value, and
/// nothing for a surrogate or a value past U+10FFFF.
pub assume_specification[ char::from_u32 ](i: u32) -> (c: Option<char>)
    ensures
        c == (if is_scalar_value(i as int) {
            Some(i as char)
        } else {
            None
        }),
;

/// `String::push` appends one character.
pub assume_specification[ String::push ](s: &mut String, ch: char)
    ensures
        final(s)@ == old(s)@.push(ch),
;

/// Whether `v` is a Unicode scalar value: a code point that is no surrogate.
pub open spec fn is_scalar_value(v: int) -> bool {
    0 <= v <= 0xD7FF || 0xE000 <= v <= 0x10FFFF
}

/// Whether `u` is the first half of a surrogate pair.
pub open spec fn is_high_surrogate(u: u16) -> bool {
    0xD800 <= u <= 0xDBFF
}

/// Whether `u` is the second half of a surrogate pair.
pub open spec fn is_low_surrogate(u: u16) -> bool {
    0xDC00 <= u <= 0xDFFF
}

/// The scalar value that a surrogate pair stands for.
pub open spec fn pair_value(high: u16, low: u16) -> int {
    0x10000 + (high - 0xD800) * 0x400 + (low - 0xDC00)
}

/// The text that a sequence of UTF-16 code units encodes, or `None` where a
/// surrogate stands without its partner.
pub open spec fn decode_utf16(units: Seq<u16>) -> Option<Seq<char>>
    decreases units.len(),
{
    if units.len() == 0 {
        Some(Seq::empty())
    } else if is_high_surrogate(units[0]) {
        if units.len() >= 2 && is_low_surrogate(units[1]) {
            match decode_utf16(units.skip(2)) {
                Some(rest) => Some(seq![pair_value(units[0], units[1]) as char] + rest),
                None => None,
            }
        } else {
            None
        }
    } else if is_low_surrogate(units[0]) {
        None
    } else {
        match decode_utf16(units.skip(1)) {
            Some(rest) => Some(seq![units[0] as char] + rest),
            None => None,
        }
    }
}

/// The UTF-16 code units of one character: the character itself below
/// U+10000, a surrogate pair from there on.
pub open spec fn encode_char(c: char) -> Seq<u16> {
    let value = c as int;
    if value < 0x10000 {
        seq![value as u16]
    } else {
        seq![
            (0xD800 + (value - 0x10000) / 0x400) as u16,
            (0xDC00 + (value - 0x10000) % 0x400) as u16,
        ]
    }
}

/// The UTF-16 code units of a text.
pub open spec fn encode_utf16(text: Seq<char>) -> Seq<u16>
    decreases text.len(),
{
    if text.len() == 0 {
        Seq::empty()
    } else {
        encode_char(text[0]) + encode_utf16(text.skip(1))
    }
}

/// A character is its scalar value.
pub proof fn lemma_char_value(c: char)
    ensures
        is_scalar_value(c as int),
        (c as int) as char == c,
{
}

/// Text survives transcoding: the UTF-16 code units of any text are
/// well-formed, and decoding them gives the text back.
pub proof fn law_decode_encode(text: Seq<char>)
    ensures
        decode_utf16(encode_utf16(text)) == Some(text),
    decreases text.len(),
{
    if text.len() > 0 {
        let c = text[0];
        let rest = text.skip(1);
        let units = encode_utf16(text);
        law_decode_encode(rest);
        let value = c as int;
        lemma_char_value(c);
        assert(units == encode_char(c) + encode_utf16(rest));
        if value < 0x10000 {
            assert(units[0] == encode_char(c)[0]);
            assert(units[0] == value);
            assert(units.skip(1) =~= encode_utf16(rest));
        } else {
            let high = units[0];
            let low = units[1];
            assert(high == encode_char(c)[0] && low == encode_char(c)[1]);
            assert(high == 0xD800 + (value - 0x10000) / 0x400);
            assert(low == 0xDC00 + (value - 0x10000) % 0x400);
            assert(pair_value(high, low) == value);
            assert(units.skip(2) =~= encode_utf16(rest));
        }
        assert(seq![c] + rest =~= text);
    } else {
        assert(text =~= Seq::<char>::empty());
    }
}

/// Decoding loses nothing: code units that decode are the UTF-16 code units
/// of their text, so no two well-formed sequences stand for one text.
pub proof fn law_encode_decode(units: Seq<u16>)
    requires
        decode_utf16(units) is Some,
    ensures
        encode_utf16(decode_utf16(units).unwrap()) == units,
    decreases units.len(),
{
    if units.len() > 0 {
        let step: int = if is_high_surrogate(units[0]) {
            2
        } else {
            1
        };
        let rest = units.skip(step);
        law_encode_decode(rest);
        let text = decode_utf16(units).unwrap();
        let tail = decode_utf16(rest).unwrap();
        let value: int = if step == 2 {
            pair_value(units[0], units[1])
        } else {
            units[0] as int
        };
        assert(is_scalar_value(value));
        assert(text == seq![value as char] + tail);
        assert(text[0] == value as char);
        assert((value as char) as int == value);
        assert(text.skip(1) =~= tail);
        assert(encode_char(text[0]) =~= units.take(step));
        assert(units.take(step) + rest =~= units);
    } else {
        assert(units =~= Seq::<u16>::empty());
    }
}

/// Decodes UTF-16 code units into text.
///
/// Fails with `InvalidEncoding` exactly when the units are not well-formed
/// UTF-16, that is when some surrogate is unpaired.
pub fn from_utf16(units: &Vec<u16>) -> (result: Result<String, Error>)
    ensures
        match decode_utf16(units@) {
            Some(chars) => result matches Ok(text) && text@ == chars,
            None => result == Err::<String, Error>(Error::InvalidEncoding),
        },
{
    let mut text = String::new();
    let mut i: usize = 0;
    assert(units@.skip(0) =~= units@);
    assert(forall|rest: Seq<char>| text@ + rest =~= rest);
    while i < units.len()
        invariant
            i <= units.len(),
            decode_utf16(units@) == (match decode_utf16(units@.skip(i as int)) {
                Some(rest) => Some(text@ + rest),
                None => None,
            }),
        decreases units.len() - i,
    {
        let unit: u16 = units[i];
        let ghost tail = units@.skip(i as int);
        assert(tail.len() == units.len() - i);
        assert(tail[0] == unit);
        if 0xD800 <= unit && unit <= 0xDBFF {
            if i + 1 >= units.len() {
                return Err(Error::InvalidEncoding);
            }
            let low: u16 = units[i + 1];
            assert(tail[1] == low);
            if !(0xDC00 <= low && low <= 0xDFFF) {
                return Err(Error::InvalidEncoding);
            }
            let value: u32 = 0x10000 + ((unit - 0xD800) as u32) * 0x400 + ((low - 0xDC00) as u32);
            match char::from_u32(value) {
                Some(c) => {
                    text.push(c);
                },
                None => {
                    // Not reached: the value is a scalar value.
                    return Err(Error::InvalidEncoding);
                },
            }
            assert(tail.skip(2) =~= units@.skip(i + 2));
            i = i + 2;
        } else if 0xDC00 <= unit && unit <= 0xDFFF {
            return Err(Error::InvalidEncoding);
        } else {
            match char::from_u32(unit as u32) {
                Some(c) => {
                    text.push(c);
                },
                None => {
                    // Not reached: the value is a scalar value.
                    return Err(Error::InvalidEncoding);
                },
            }
            assert(tail.skip(1) =~= units@.skip(i + 1));
            i = i + 1;
        }
    }
    Ok(text)
}

} // verus!
