//! The alphabets of the three text adapters.

use vstd::prelude::*;

verus! {

/// One of the alphabets that compressed text is written in.
#[derive(Clone, Copy, Debug, PartialEq, Eq, Structural)]
pub enum Alphabet {
    /// Fifteen bits per symbol, each moved up by 32: the characters from
    /// U+0020 to U+801F, which lie above the ASCII control characters and
    /// below the surrogates.
    Utf16,
    /// Six bits per symbol: the ASCII letters and digits, `+` and `-`, and
    /// the filler `$`. All of them can stand in a URI component unescaped.
    Uri,
    /// Six bits per symbol: the ASCII letters and digits, `+` and `/`, and
    /// the filler `=`.
    Base64,
}

/// Whether `c` is an ASCII letter or digit.
pub open spec fn is_alphanumeric(c: char) -> bool {
    ('A' <= c <= 'Z') || ('a' <= c <= 'z') || ('0' <= c <= '9')
}

impl Alphabet {
    /// Whether `c` is a symbol of this alphabet.
    pub open spec fn contains(self, c: char) -> bool {
        match self {
            Alphabet::Utf16 => '\u{20}' <= c <= '\u{801F}',
            Alphabet::Uri => is_alphanumeric(c) || c == '+' || c == '-' || c == '$',
            Alphabet::Base64 => is_alphanumeric(c) || c == '+' || c == '/' || c == '=',
        }
    }

    /// Whether every character of `text` is a symbol of this alphabet.
    pub open spec fn spells(self, text: Seq<char>) -> bool {
        forall|i: int| 0 <= i < text.len() ==> self.contains(#[trigger] text[i])
    }

    /// Tells whether `c` is a symbol of this alphabet.
    pub fn has_symbol(&self, c: char) -> (found: bool)
        ensures
            found == self.contains(c),
    {
        let alphanumeric = ('A' <= c && c <= 'Z') || ('a' <= c && c <= 'z') || ('0' <= c && c
            <= '9');
        match self {
            Alphabet::Utf16 => '\u{20}' <= c && c <= '\u{801F}',
            Alphabet::Uri => alphanumeric || c == '+' || c == '-' || c == '$',
            Alphabet::Base64 => alphanumeric || c == '+' || c == '/' || c == '=',
        }
    }

    /// Tells whether `text` is written in this alphabet alone.
    pub fn can_spell(&self, text: &str) -> (whole: bool)
        ensures
            whole == self.spells(text@),
    {
        let mut whole = true;
        for c in it: text.chars()
            invariant
                it.seq() == text@,
                whole == (forall|i: int| 0 <= i < it.index() ==> self.contains(#[trigger] text@[i])),
        {
            if !self.has_symbol(c) {
                whole = false;
            }
        }
        whole
    }
}

} // verus!
