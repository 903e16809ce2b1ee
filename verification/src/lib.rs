//! LZ-based text compression into constrained alphabets.
//!
//! A text is compressed into 16-bit code units, or into one of four forms
//! that are safe to store or send where arbitrary binary data is not: text
//! that is valid UTF-16, text for a URI component, Base64 text, or bytes.
//!
//! The dictionary coder itself is the `lz-str` crate (see [`engine`]). This
//! library puts in front of each decoder the checks that the coder does not
//! make (an empty stream, a symbol outside the alphabet, a byte left over),
//! names the reason of every failure, and turns the decompressed code units
//! into text.
//!
//! Every function takes inputs up to a fixed length, [`engine::MAX_TEXT_CHARS`]
//! characters to compress and [`engine::MAX_STREAM_UNITS`] code units to
//! decompress: beyond them the coder runs out of dictionary numbers or of
//! code width.

pub use crate::alphabet::Alphabet;
use crate::bytes::{join_bytes, pad_to_units, padded, split_units};
use crate::engine::{
    base64_compressed, base64_decompressed, compressed_units, decoded_view, decompressed_units,
    lz_compress, lz_compress_to_base64, lz_compress_to_encoded_uri_component,
    lz_compress_to_uint8_array, lz_compress_to_utf16, lz_decompress, lz_decompress_from_base64,
    lz_decompress_from_encoded_uri_component, lz_decompress_from_uint8_array,
    lz_decompress_from_utf16, uri_compressed, uri_decompressed, utf16_compressed,
    utf16_decompressed, MAX_STREAM_UNITS, MAX_TEXT_CHARS,
};
pub use crate::error::Error;
use crate::utf16::decode_utf16;
pub use crate::utf16::from_utf16;
use vstd::prelude::*;

pub mod alphabet;
pub mod bytes;
pub mod engine;
pub mod error;
pub mod laws;
pub mod utf16;

verus! {

/// What a text adapter's coder gives for a text.
pub open spec fn adapter_compressed(alphabet: Alphabet, text: Seq<char>) -> Seq<char> {
    match alphabet {
        Alphabet::Utf16 => utf16_compressed(text),
        Alphabet::Uri => uri_compressed(text),
        Alphabet::Base64 => base64_compressed(text),
    }
}

/// What a text adapter's decoder gives for a compressed text.
pub open spec fn adapter_decompressed(alphabet: Alphabet, compressed: Seq<char>) -> Option<
    Seq<u16>,
> {
    match alphabet {
        Alphabet::Utf16 => utf16_decompressed(compressed),
        Alphabet::Uri => uri_decompressed(compressed),
        Alphabet::Base64 => base64_decompressed(compressed),
    }
}

/// The outcome of decompressing a stream of code units, given what the
/// decoder makes of it: an empty stream is corrupt whatever the decoder says.
pub open spec fn stream_outcome(stream: Seq<u16>, decoded: Option<Seq<u16>>) -> Result<
    Seq<u16>,
    Error,
> {
    if stream.len() == 0 {
        Err(Error::CorruptStream)
    } else {
        match decoded {
            Some(units) => Ok(units),
            None => Err(Error::CorruptStream),
        }
    }
}

/// The text that decoded code units stand for: a failed decoding is a
/// corrupt stream, and code units that are not well-formed UTF-16 are an
/// invalid encoding.
pub open spec fn decoded_text(decoded: Option<Seq<u16>>) -> Result<Seq<char>, Error> {
    match decoded {
        None => Err(Error::CorruptStream),
        Some(units) => match decode_utf16(units) {
            Some(text) => Ok(text),
            None => Err(Error::InvalidEncoding),
        },
    }
}

/// The outcome of decompressing a text written in `alphabet`, given what
/// the decoder makes of it. A character outside the alphabet is refused
/// before the decoder is asked, and so is an empty text.
pub open spec fn text_outcome(
    alphabet: Alphabet,
    compressed: Seq<char>,
    decoded: Option<Seq<u16>>,
) -> Result<Seq<char>, Error> {
    if !alphabet.spells(compressed) {
        Err(Error::InvalidEncoding)
    } else if compressed.len() == 0 {
        Err(Error::CorruptStream)
    } else {
        decoded_text(decoded)
    }
}

/// The outcome of decompressing bytes, given what the decoder makes of the
/// code units that they spell.
pub open spec fn bytes_outcome(compressed: Seq<u8>, decoded: Option<Seq<u16>>) -> Result<
    Seq<char>,
    Error,
> {
    if compressed.len() == 0 {
        Err(Error::CorruptStream)
    } else {
        decoded_text(decoded)
    }
}

/// A result with its text seen as a sequence of characters.
pub open spec fn text_view(result: Result<String, Error>) -> Result<Seq<char>, Error> {
    match result {
        Ok(text) => Ok(text@),
        Err(error) => Err(error),
    }
}

/// A result with its code units seen as a sequence.
pub open spec fn units_view(result: Result<Vec<u16>, Error>) -> Result<Seq<u16>, Error> {
    match result {
        Ok(units) => Ok(units@),
        Err(error) => Err(error),
    }
}

/// Compresses a text into 16-bit code units. There is always at least one.
pub fn compress(input: &str) -> (units: Vec<u16>)
    requires
        input@.len() <= MAX_TEXT_CHARS,
    ensures
        units@ == compressed_units(input@),
        units@.len() > 0,
{
    lz_compress(input)
}

/// Compresses a text into text in the alphabet `alphabet`: every character
/// of the result is a symbol of that alphabet, and there is at least one.
pub fn compress_to_text(alphabet: Alphabet, input: &str) -> (text: String)
    requires
        input@.len() <= MAX_TEXT_CHARS,
    ensures
        text@ == adapter_compressed(alphabet, input@),
        text@.len() > 0,
        alphabet.spells(text@),
{
    match alphabet {
        Alphabet::Utf16 => lz_compress_to_utf16(input),
        Alphabet::Uri => lz_compress_to_encoded_uri_component(input),
        Alphabet::Base64 => lz_compress_to_base64(input),
    }
}

/// Compresses a text into text that is valid UTF-16: every character lies
/// between U+0020 and U+801F.
pub fn compress_to_utf16(input: &str) -> (text: String)
    requires
        input@.len() <= MAX_TEXT_CHARS,
    ensures
        text@ == utf16_compressed(input@),
        text@.len() > 0,
        Alphabet::Utf16.spells(text@),
{
    compress_to_text(Alphabet::Utf16, input)
}

/// Compresses a text into text that can stand in a URI component
/// unescaped: every character is a letter, a digit, `+`, `-` or `$`.
pub fn compress_to_encoded_uri_component(input: &str) -> (text: String)
    requires
        input@.len() <= MAX_TEXT_CHARS,
    ensures
        text@ == uri_compressed(input@),
        text@.len() > 0,
        Alphabet::Uri.spells(text@),
{
    compress_to_text(Alphabet::Uri, input)
}

/// Compresses a text into Base64 text: every character is a letter, a
/// digit, `+`, `/` or `=`.
pub fn compress_to_base64(input: &str) -> (text: String)
    requires
        input@.len() <= MAX_TEXT_CHARS,
    ensures
        text@ == base64_compressed(input@),
        text@.len() > 0,
        Alphabet::Base64.spells(text@),
{
    compress_to_text(Alphabet::Base64, input)
}

/// Compresses a text into bytes: the code units of [`compress`], each as
/// its high byte and then its low byte.
pub fn compress_to_uint8_array(input: &str) -> (bytes: Vec<u8>)
    requires
        input@.len() <= MAX_TEXT_CHARS,
    ensures
        bytes@ == split_units(compressed_units(input@)),
        bytes@.len() > 0,
        bytes@.len() % 2 == 0,
{
    lz_compress_to_uint8_array(input)
}

/// Says what a decoded stream amounts to: the code units, or a corrupt
/// stream where the decoder gave nothing.
pub fn units_or_corrupt(decoded: Option<Vec<u16>>) -> (result: Result<Vec<u16>, Error>)
    ensures
        result == (match decoded {
            Some(units) => Ok::<Vec<u16>, Error>(units),
            None => Err::<Vec<u16>, Error>(Error::CorruptStream),
        }),
{
    match decoded {
        Some(units) => Ok(units),
        None => Err(Error::CorruptStream),
    }
}

/// Says what a decoded stream amounts to as text: the text that the code
/// units encode, a corrupt stream where the decoder gave nothing, or an
/// invalid encoding where the code units are not well-formed UTF-16.
pub fn text_or_error(decoded: Option<Vec<u16>>) -> (result: Result<String, Error>)
    ensures
        text_view(result) == decoded_text(decoded_view(decoded)),
{
    match decoded {
        Some(units) => from_utf16(&units),
        None => Err(Error::CorruptStream),
    }
}

/// Decompresses a stream of 16-bit code units into the UTF-16 code units of
/// the text.
///
/// An empty stream is corrupt. For any other stream the decoder decides: a
/// stream that it cannot decode is corrupt, and nothing is returned of it.
pub fn decompress(compressed: &[u16]) -> (result: Result<Vec<u16>, Error>)
    requires
        compressed@.len() <= MAX_STREAM_UNITS,
    ensures
        units_view(result) == stream_outcome(compressed@, decompressed_units(compressed@)),
        compressed@.len() == 0 ==> result == Err::<Vec<u16>, Error>(Error::CorruptStream),
        decompressed_units(compressed@) is None ==> result == Err::<Vec<u16>, Error>(
            Error::CorruptStream,
        ),
{
    if compressed.len() == 0 {
        return Err(Error::CorruptStream);
    }
    units_or_corrupt(lz_decompress(compressed))
}

/// Decompresses a text written in the alphabet `alphabet`.
///
/// A text with a character outside the alphabet is an invalid encoding, and
/// the decoder is not asked. An empty text is a corrupt stream. For any other
/// text the decoder decides, and its code units are read as UTF-16.
pub fn decompress_from_text(alphabet: Alphabet, compressed: &str) -> (result: Result<
    String,
    Error,
>)
    requires
        compressed@.len() <= MAX_STREAM_UNITS,
    ensures
        text_view(result) == text_outcome(
            alphabet,
            compressed@,
            adapter_decompressed(alphabet, compressed@),
        ),
{
    if !alphabet.can_spell(compressed) {
        return Err(Error::InvalidEncoding);
    }
    if compressed.is_empty() {
        return Err(Error::CorruptStream);
    }
    let decoded = match alphabet {
        Alphabet::Utf16 => lz_decompress_from_utf16(compressed),
        Alphabet::Uri => lz_decompress_from_encoded_uri_component(compressed),
        Alphabet::Base64 => lz_decompress_from_base64(compressed),
    };
    text_or_error(decoded)
}

/// Decompresses a text that [`compress_to_utf16`] made.
pub fn decompress_from_utf16(compressed: &str) -> (result: Result<String, Error>)
    requires
        compressed@.len() <= MAX_STREAM_UNITS,
    ensures
        text_view(result) == text_outcome(
            Alphabet::Utf16,
            compressed@,
            utf16_decompressed(compressed@),
        ),
{
    decompress_from_text(Alphabet::Utf16, compressed)
}

/// Decompresses a text that [`compress_to_encoded_uri_component`] made.
pub fn decompress_from_encoded_uri_component(compressed: &str) -> (result: Result<
    String,
    Error,
>)
    requires
        compressed@.len() <= MAX_STREAM_UNITS,
    ensures
        text_view(result) == text_outcome(
            Alphabet::Uri,
            compressed@,
            uri_decompressed(compressed@),
        ),
{
    decompress_from_text(Alphabet::Uri, compressed)
}

/// Decompresses a text that [`compress_to_base64`] made.
pub fn decompress_from_base64(compressed: &str) -> (result: Result<String, Error>)
    requires
        compressed@.len() <= MAX_STREAM_UNITS,
    ensures
        text_view(result) == text_outcome(
            Alphabet::Base64,
            compressed@,
            base64_decompressed(compressed@),
        ),
{
    decompress_from_text(Alphabet::Base64, compressed)
}

/// Decompresses bytes that [`compress_to_uint8_array`] made.
///
/// Each pair of bytes is one code unit, the high byte first. Where the
/// number of bytes is odd, the last byte is the high byte of a unit whose
/// low byte is zero. No bytes at all are a corrupt stream.
pub fn decompress_from_uint8_array(compressed: &[u8]) -> (result: Result<String, Error>)
    requires
        compressed@.len() <= 2 * MAX_STREAM_UNITS,
    ensures
        text_view(result) == bytes_outcome(
            compressed@,
            decompressed_units(join_bytes(pad_to_units(compressed@))),
        ),
{
    if compressed.len() == 0 {
        return Err(Error::CorruptStream);
    }
    let whole = padded(compressed);
    text_or_error(lz_decompress_from_uint8_array(whole.as_slice()))
}

} // verus!


