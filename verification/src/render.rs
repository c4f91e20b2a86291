//! Text forms of a code: the four characters, bare or in single quotes.

use crate::code::FourCC;
use vstd::prelude::*;

verus! {

/// The standard library's `String::push`, taken on trust and not proved
/// here: it appends the given character to the end of the string and leaves
/// what was there before untouched.
pub assume_specification[ String::push ](s: &mut String, ch: char)
    ensures
        final(s)@ == old(s)@.push(ch),
;

/// The character that stands for a byte: the one whose code point is the
/// byte's value. Bytes above 0x7f map to U+0080 to U+00FF; nothing is decoded
/// as UTF-8.
pub open spec fn char_of(b: u8) -> char {
    b as char
}

impl FourCC {
    /// The code as four characters, one for each byte.
    pub open spec fn text(self) -> Seq<char> {
        Seq::new(4, |i: int| char_of(self@[i]))
    }

    /// The code as four characters between single quotes.
    pub open spec fn quoted_text(self) -> Seq<char> {
        seq!['\''] + self.text() + seq!['\'']
    }

    /// Renders the code as a string of its four characters, with nothing
    /// between them. Every code has such a form, valid or not.
    pub fn to_string(&self) -> (out: String)
        ensures
            out@ == self.text(),
            out@.len() == 4,
    {
        let mut out = String::new();
        let mut i: usize = 0;
        while i < 4
            invariant
                i <= 4,
                out@ == self.text().subrange(0, i as int),
            decreases 4 - i,
        {
            out.push(self.0[i] as char);
            i += 1;
            assert(out@ =~= self.text().subrange(0, i as int));
        }
        assert(out@ =~= self.text());
        out
    }

    /// Renders the code for diagnostics: its four characters in single
    /// quotes, which sets it apart from an ordinary string.
    pub fn to_debug_string(&self) -> (out: String)
        ensures
            out@ == self.quoted_text(),
            out@.len() == 6,
    {
        let mut out = String::new();
        out.push('\'');
        let mut i: usize = 0;
        while i < 4
            invariant
                i <= 4,
                out@ == seq!['\''] + self.text().subrange(0, i as int),
            decreases 4 - i,
        {
            out.push(self.0[i] as char);
            i += 1;
            assert(out@ =~= seq!['\''] + self.text().subrange(0, i as int));
        }
        out.push('\'');
        assert(out@ =~= self.quoted_text());
        out
    }
}

} // verus!
