//! The dictionary coder and its adapters, as the `lz-str` crate supplies them.
//!
//! Nothing in this module is proved. Each function here makes one call into
//! `lz-str`, and its contract records what that crate's source shows of the
//! call. What a call returns is a function of its argument alone, so each
//! result has a name that the contracts of the rest of the library speak of.

use crate::alphabet::Alphabet;
use crate::bytes::{join_bytes, split_units};
use vstd::prelude::*;

verus! {

/// The longest text, in characters, that can be compressed. The coder gives
/// each dictionary entry a 32-bit number and adds at most two entries for
/// each UTF-16 code unit of the text, of which a character has at most two.
pub const MAX_TEXT_CHARS: usize = 0x3FFF_FFFF;

/// The longest stream, in code units, that can be decompressed. The decoder
/// reads codes of up to 31 bits; every dictionary entry costs at least three
/// bits of the stream, so within this length the code width stays below 32.
pub const MAX_STREAM_UNITS: usize = 0x1000_0000;

/// The code units that `lz_str::compress` gives for a text.
pub uninterp spec fn compressed_units(text: Seq<char>) -> Seq<u16>;

/// What `lz_str::decompress` gives for a stream of code units: the UTF-16
/// code units of the text, or nothing where it cannot decode the stream.
pub uninterp spec fn decompressed_units(stream: Seq<u16>) -> Option<Seq<u16>>;

/// The text that `lz_str::compress_to_utf16` gives for a text.
pub uninterp spec fn utf16_compressed(text: Seq<char>) -> Seq<char>;

/// What `lz_str::decompress_from_utf16` gives for a compressed text.
pub uninterp spec fn utf16_decompressed(compressed: Seq<char>) -> Option<Seq<u16>>;

/// The text that `lz_str::compress_to_encoded_uri_component` gives for a
/// text.
pub uninterp spec fn uri_compressed(text: Seq<char>) -> Seq<char>;

/// What `lz_str::decompress_from_encoded_uri_component` gives for a
/// compressed text.
pub uninterp spec fn uri_decompressed(compressed: Seq<char>) -> Option<Seq<u16>>;

/// The text that `lz_str::compress_to_base64` gives for a text.
pub uninterp spec fn base64_compressed(text: Seq<char>) -> Seq<char>;

/// What `lz_str::decompress_from_base64` gives for a compressed text.
pub uninterp spec fn base64_decompressed(compressed: Seq<char>) -> Option<Seq<u16>>;

/// What a decoder returned, with its code units seen as a sequence.
pub open spec fn decoded_view(decoded: Option<Vec<u16>>) -> Option<Seq<u16>> {
    match decoded {
        Some(units) => Some(units@),
        None => None,
    }
}

/// Calls `lz_str::compress`. The result is never empty: after the terminator
/// the coder always completes one more code unit.
#[verifier::external_body]
pub(crate) fn lz_compress(input: &str) -> (units: Vec<u16>)
    requires
        input@.len() <= MAX_TEXT_CHARS,
    ensures
        units@ == compressed_units(input@),
        units@.len() > 0,
{
    lz_str::compress(input)
}

/// Calls `lz_str::compress_to_utf16`. Each character of the result is a
/// 15-bit code unit plus 32, and the result ends with a space.
#[verifier::external_body]
pub(crate) fn lz_compress_to_utf16(input: &str) -> (text: String)
    requires
        input@.len() <= MAX_TEXT_CHARS,
    ensures
        text@ == utf16_compressed(input@),
        text@.len() > 0,
        Alphabet::Utf16.spells(text@),
{
    lz_str::compress_to_utf16(input)
}

/// Calls `lz_str::compress_to_encoded_uri_component`. Each character of the
/// result is taken from the crate's URI table by a 6-bit code unit.
#[verifier::external_body]
pub(crate) fn lz_compress_to_encoded_uri_component(input: &str) -> (text: String)
    requires
        input@.len() <= MAX_TEXT_CHARS,
    ensures
        text@ == uri_compressed(input@),
        text@.len() > 0,
        Alphabet::Uri.spells(text@),
{
    lz_str::compress_to_encoded_uri_component(input)
}

/// Calls `lz_str::compress_to_base64`. Each character of the result is taken
/// from the crate's Base64 table by a 6-bit code unit, or is a `=` added at
/// the end.
#[verifier::external_body]
pub(crate) fn lz_compress_to_base64(input: &str) -> (text: String)
    requires
        input@.len() <= MAX_TEXT_CHARS,
    ensures
        text@ == base64_compressed(input@),
        text@.len() > 0,
        Alphabet::Base64.spells(text@),
{
    lz_str::compress_to_base64(input)
}

/// Calls `lz_str::compress_to_uint8_array`, which splits each code unit of
/// `lz_str::compress` into its big-endian bytes. As there is always a code
/// unit, there is always a byte.
#[verifier::external_body]
pub(crate) fn lz_compress_to_uint8_array(input: &str) -> (bytes: Vec<u8>)
    requires
        input@.len() <= MAX_TEXT_CHARS,
    ensures
        bytes@ == split_units(compressed_units(input@)),
        bytes@.len() > 0,
{
    lz_str::compress_to_uint8_array(input)
}

/// Calls `lz_str::decompress`.
#[verifier::external_body]
pub(crate) fn lz_decompress(compressed: &[u16]) -> (decoded: Option<Vec<u16>>)
    requires
        compressed@.len() <= MAX_STREAM_UNITS,
    ensures
        decoded_view(decoded) == decompressed_units(compressed@),
{
    lz_str::decompress(compressed)
}

/// Calls `lz_str::decompress_from_utf16`, which takes 32 from each code unit
/// of the text: no character of the text may lie below the space.
#[verifier::external_body]
pub(crate) fn lz_decompress_from_utf16(compressed: &str) -> (decoded: Option<Vec<u16>>)
    requires
        compressed@.len() <= MAX_STREAM_UNITS,
        Alphabet::Utf16.spells(compressed@),
    ensures
        decoded_view(decoded) == utf16_decompressed(compressed@),
{
    lz_str::decompress_from_utf16(compressed)
}

/// Calls `lz_str::decompress_from_encoded_uri_component`.
#[verifier::external_body]
pub(crate) fn lz_decompress_from_encoded_uri_component(compressed: &str) -> (decoded: Option<
    Vec<u16>,
>)
    requires
        compressed@.len() <= MAX_STREAM_UNITS,
    ensures
        decoded_view(decoded) == uri_decompressed(compressed@),
{
    lz_str::decompress_from_encoded_uri_component(compressed)
}

/// Calls `lz_str::decompress_from_base64`.
#[verifier::external_body]
pub(crate) fn lz_decompress_from_base64(compressed: &str) -> (decoded: Option<Vec<u16>>)
    requires
        compressed@.len() <= MAX_STREAM_UNITS,
    ensures
        decoded_view(decoded) == base64_decompressed(compressed@),
{
    lz_str::decompress_from_base64(compressed)
}

/// Calls `lz_str::decompress_from_uint8_array`, which reads each pair of
/// bytes as a big-endian code unit and hands the units to
/// `lz_str::decompress`. The crate refuses an odd number of bytes.
#[verifier::external_body]
pub(crate) fn lz_decompress_from_uint8_array(compressed: &[u8]) -> (decoded: Option<Vec<u16>>)
    requires
        compressed@.len() % 2 == 0,
        compressed@.len() <= 2 * MAX_STREAM_UNITS,
    ensures
        decoded_view(decoded) == decompressed_units(join_bytes(compressed@)),
{
    lz_str::decompress_from_uint8_array(compressed)
}

} // verus!
