//! What holds of the library's functions taken together.

use crate::alphabet::Alphabet;
use crate::bytes::{join_bytes, lemma_join_split, pad_to_units, split_units};
use crate::engine::decompressed_units;
use crate::error::Error;
use crate::utf16::{encode_utf16, law_decode_encode};
use crate::{bytes_outcome, decoded_text, stream_outcome, text_outcome};
use vstd::prelude::*;

verus! {

/// Decompressing nothing fails: a stream without a single code unit, a text
/// without a character and an array without a byte are corrupt streams,
/// whatever the decoder would make of them.
pub proof fn law_empty_input_is_corrupt(alphabet: Alphabet, decoded: Option<Seq<u16>>)
    ensures
        stream_outcome(Seq::empty(), decoded) == Err::<Seq<u16>, Error>(Error::CorruptStream),
        text_outcome(alphabet, Seq::empty(), decoded) == Err::<Seq<char>, Error>(
            Error::CorruptStream,
        ),
        bytes_outcome(Seq::empty(), decoded) == Err::<Seq<char>, Error>(Error::CorruptStream),
{
}

/// A stream that the decoder cannot decode gives no result: the outcome is
/// a corrupt stream, for code units, for bytes, and for text in the
/// adapter's alphabet.
pub proof fn law_failed_decoding_is_corrupt(
    alphabet: Alphabet,
    stream: Seq<u16>,
    text: Seq<char>,
    bytes: Seq<u8>,
)
    requires
        alphabet.spells(text),
    ensures
        stream_outcome(stream, None) == Err::<Seq<u16>, Error>(Error::CorruptStream),
        text_outcome(alphabet, text, None) == Err::<Seq<char>, Error>(Error::CorruptStream),
        bytes_outcome(bytes, None) == Err::<Seq<char>, Error>(Error::CorruptStream),
{
}

/// A text with a character outside the adapter's alphabet is an invalid
/// encoding, whatever the decoder would make of it.
pub proof fn law_foreign_symbol_is_invalid(
    alphabet: Alphabet,
    text: Seq<char>,
    at: int,
    decoded: Option<Seq<u16>>,
)
    requires
        0 <= at < text.len(),
        !alphabet.contains(text[at]),
    ensures
        text_outcome(alphabet, text, decoded) == Err::<Seq<char>, Error>(Error::InvalidEncoding),
{
}

/// Nothing that this library puts around the decoder stands in the way of a
/// round trip. What the compressing functions give is never empty and, for a
/// text adapter, written in its alphabet; of such an input, where the decoder
/// gives back the UTF-16 code units of a text, the outcome is that text.
pub proof fn law_round_trip_rests_on_decoder(
    alphabet: Alphabet,
    text: Seq<char>,
    stream: Seq<u16>,
    compressed: Seq<char>,
    bytes: Seq<u8>,
)
    requires
        stream.len() > 0,
        compressed.len() > 0,
        alphabet.spells(compressed),
        bytes.len() > 0,
    ensures
        stream_outcome(stream, Some(encode_utf16(text))) == Ok::<Seq<u16>, Error>(
            encode_utf16(text),
        ),
        decoded_text(Some(encode_utf16(text))) == Ok::<Seq<char>, Error>(text),
        text_outcome(alphabet, compressed, Some(encode_utf16(text))) == Ok::<Seq<char>, Error>(
            text,
        ),
        bytes_outcome(bytes, Some(encode_utf16(text))) == Ok::<Seq<char>, Error>(text),
{
    law_decode_encode(text);
}

/// The byte adapter follows the code units: decompressing the bytes of a
/// stream gives the text of what decompressing the stream itself gives, and
/// fails as that does.
pub proof fn law_bytes_follow_units(stream: Seq<u16>)
    ensures
        bytes_outcome(
            split_units(stream),
            decompressed_units(join_bytes(pad_to_units(split_units(stream)))),
        ) == (match stream_outcome(stream, decompressed_units(stream)) {
            Ok(units) => decoded_text(Some(units)),
            Err(error) => Err(error),
        }),
{
    lemma_join_split(stream);
}

} // verus!
