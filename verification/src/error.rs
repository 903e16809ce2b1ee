//! The ways a decompression can fail.

use vstd::prelude::*;

verus! {

/// Why a decompression gave no text.
#[derive(Clone, Copy, Debug, PartialEq, Eq, Structural)]
pub enum Error {
    /// The code-unit stream is empty, truncated, lacks its terminator or
    /// refers to a dictionary entry that does not exist.
    CorruptStream,
    /// The input holds a symbol outside the adapter's alphabet, or the
    /// decompressed code units are not well-formed UTF-16.
    InvalidEncoding,
}

impl Error {
    /// A short description of the failure, for display to a caller.
    pub fn message(&self) -> (text: &'static str)
        ensures
            text@ == (match *self {
                Error::CorruptStream => "Decompression failed !"@,
                Error::InvalidEncoding => "Invalid encoding !"@,
            }),
    {
        match self {
            Error::CorruptStream => "Decompression failed !",
            Error::InvalidEncoding => "Invalid encoding !",
        }
    }
}

} // verus!
