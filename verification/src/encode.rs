//! The bytes that part the fields of a written object, and what can go wrong
//! when one is written.

use vstd::prelude::*;

verus! {

/// The byte that ends the name of a tree entry.
pub const NUL: u8 = 0;

/// The byte that ends a header line.
pub const LF: u8 = 10;

/// The byte that parts a header's word from its value.
pub const SPACE: u8 = 32;

/// Why an object could not be written.
#[derive(PartialEq, Eq, Structural, Debug, Clone, Copy)]
pub enum WriteError {
    /// The name of a tree entry holds a NUL byte, so the name would end early.
    NulInName,
    /// The value of a header holds a line feed, so the header would end early.
    LineFeedInHeader,
}

/// Appends `bytes` to `out`.
pub fn append(out: &mut Vec<u8>, bytes: &[u8])
    ensures
        final(out)@ == old(out)@ + bytes@,
{
    out.extend_from_slice(bytes);
}

/// One header line: the word, a space, the value and a line feed.
pub open spec fn header(word: Seq<u8>, value: Seq<u8>) -> Seq<u8> {
    word + seq![SPACE] + value + seq![LF]
}

/// Appends one header line to `out`.
pub fn write_header(out: &mut Vec<u8>, word: &[u8], value: &[u8])
    ensures
        final(out)@ == old(out)@ + header(word@, value@),
{
    append(out, word);
    out.push(SPACE);
    append(out, value);
    out.push(LF);
}

/// Tells whether `byte` occurs in `bytes`.
pub fn contains_byte(bytes: &[u8], byte: u8) -> (r: bool)
    ensures
        r == bytes@.contains(byte),
{
    let mut i: usize = 0;
    while i < bytes.len()
        invariant
            i <= bytes@.len(),
            forall|k: int| 0 <= k < i ==> bytes@[k] != byte,
        decreases bytes@.len() - i,
    {
        if bytes[i] == byte {
            return true;
        }
        i += 1;
    }
    false
}

} // verus!
