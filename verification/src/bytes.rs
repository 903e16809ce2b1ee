//! Code units as bytes: each unit is two bytes, the high byte first.

use vstd::prelude::*;
use vstd::slice::slice_to_vec;

verus! {

/// The bytes that spell `units`: for each unit its high byte, then its low
/// byte.
pub open spec fn split_units(units: Seq<u16>) -> Seq<u8> {
    Seq::new(
        2 * units.len(),
        |i: int|
            if i % 2 == 0 {
                (units[i / 2] / 256) as u8
            } else {
                (units[i / 2] % 256) as u8
            },
    )
}

/// The code units that an even number of bytes spells: each pair of bytes is
/// one unit, the first byte its high half.
pub open spec fn join_bytes(bytes: Seq<u8>) -> Seq<u16> {
    Seq::new(bytes.len() / 2, |i: int| (bytes[2 * i] * 256 + bytes[2 * i + 1]) as u16)
}

/// `bytes` made even in number: a byte that is left over at the end is the
/// high byte of a unit whose low byte is zero.
pub open spec fn pad_to_units(bytes: Seq<u8>) -> Seq<u8> {
    if bytes.len() % 2 == 1 {
        bytes.push(0u8)
    } else {
        bytes
    }
}

/// Copies `bytes`, adding a zero byte where their number is odd.
pub fn padded(bytes: &[u8]) -> (whole: Vec<u8>)
    ensures
        whole@ == pad_to_units(bytes@),
{
    let mut whole: Vec<u8> = slice_to_vec(bytes);
    if bytes.len() % 2 == 1 {
        whole.push(0u8);
    }
    whole
}

/// Joining undoes splitting: the bytes of a unit sequence spell that
/// sequence, and their number is even, so nothing is added to them.
pub proof fn lemma_join_split(units: Seq<u16>)
    ensures
        split_units(units).len() == 2 * units.len(),
        pad_to_units(split_units(units)) == split_units(units),
        join_bytes(split_units(units)) == units,
{
    let bytes = split_units(units);
    assert forall|i: int| 0 <= i < units.len() implies #[trigger] join_bytes(bytes)[i]
        == units[i] by {
        let unit = units[i];
        assert(bytes[2 * i] == (unit / 256) as u8);
        assert(bytes[2 * i + 1] == (unit % 256) as u8);
    }
    assert(join_bytes(bytes) =~= units);
}

/// A byte left over reads as the high half of a last unit: the units of an
/// odd number of bytes are those of the bytes before the last, then the last
/// byte times 256.
pub proof fn law_trailing_byte(bytes: Seq<u8>)
    requires
        bytes.len() % 2 == 1,
    ensures
        join_bytes(pad_to_units(bytes)) == join_bytes(bytes.drop_last()).push(
            (bytes.last() * 256) as u16,
        ),
{
    let whole = pad_to_units(bytes);
    let front = bytes.drop_last();
    assert(join_bytes(whole) =~= join_bytes(front).push((bytes.last() * 256) as u16));
}

} // verus!
