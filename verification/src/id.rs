//! The ids by which objects name each other.

use crate::order::{
    compare_slices, lemma_lex_chained, lemma_lex_equal_bytes, lemma_lex_reverse, lex_order, Compare,
    Order,
};
use std::cmp::Ordering;
use vstd::prelude::*;
use vstd::std_specs::cmp::{PartialEqSpecImpl, PartialOrdSpecImpl};

verus! {

/// The address of an object: the twenty bytes of the hash of its content.
#[derive(Eq, Debug, Hash, Ord, Clone, Copy)]
pub struct Id {
    pub bytes: [u8; 20],
}

/// The lower-case hexadecimal digit for a value below sixteen.
pub open spec fn hex_digit(n: u8) -> u8 {
    if n < 10 {
        (48 + n) as u8
    } else {
        (87 + n) as u8
    }
}

/// A byte string in hexadecimal: two lower-case digits for each byte, the
/// high half first.
pub open spec fn hex(bytes: Seq<u8>) -> Seq<u8> {
    Seq::new(
        2 * bytes.len(),
        |i: int|
            if i % 2 == 0 {
                hex_digit(bytes[i / 2] / 16)
            } else {
                hex_digit(bytes[i / 2] % 16)
            },
    )
}

fn digit(n: u8) -> (r: u8)
    requires
        n < 16,
    ensures
        r == hex_digit(n),
{
    if n < 10 {
        48 + n
    } else {
        87 + n
    }
}

impl View for Id {
    type V = Seq<u8>;

    open spec fn view(&self) -> Seq<u8> {
        self.bytes@
    }
}

impl Id {
    /// Appends the id to `out` in hexadecimal.
    pub fn write_hex(&self, out: &mut Vec<u8>)
        ensures
            final(out)@ == old(out)@ + hex(self@),
    {
        let mut i: usize = 0;
        while i < 20
            invariant
                i <= 20,
                out@ == old(out)@ + hex(self.bytes@.take(i as int)),
            decreases 20 - i,
        {
            let byte = self.bytes[i];
            out.push(digit(byte / 16));
            out.push(digit(byte % 16));
            assert(hex(self.bytes@.take(i + 1)) =~= hex(self.bytes@.take(i as int)).push(
                hex_digit(byte / 16),
            ).push(hex_digit(byte % 16)));
            i += 1;
        }
    }

    /// Returns the id in hexadecimal.
    pub fn to_hex(&self) -> (r: Vec<u8>)
        ensures
            r@ == hex(self@),
    {
        let mut r: Vec<u8> = Vec::new();
        self.write_hex(&mut r);
        r
    }
}

impl Compare for Id {
    open spec fn order(&self, other: &Self) -> Order {
        lex_order(self.bytes@, other.bytes@)
    }

    fn compare(&self, other: &Self) -> (r: Order) {
        compare_slices(self.bytes.as_slice(), other.bytes.as_slice())
    }

    proof fn lemma_equal(&self, other: &Self) {
        lemma_lex_equal_bytes(self.bytes@, other.bytes@);
    }

    proof fn lemma_reverse(&self, other: &Self) {
        lemma_lex_reverse(self.bytes@, other.bytes@);
    }

    proof fn lemma_chained(&self, middle: &Self, last: &Self) {
        lemma_lex_chained(self.bytes@, middle.bytes@, last.bytes@);
    }
}

impl PartialEq for Id {
    fn eq(&self, other: &Self) -> (r: bool)
        ensures
            r == (self@ == other@),
    {
        proof {
            self.lemma_equal(other);
        }
        self.compare(other) == Order::Equal
    }
}

impl PartialEqSpecImpl for Id {
    open spec fn obeys_eq_spec() -> bool {
        true
    }

    open spec fn eq_spec(&self, other: &Self) -> bool {
        self@ == other@
    }
}

impl PartialOrd for Id {
    fn partial_cmp(&self, other: &Self) -> (r: Option<Ordering>)
        ensures
            r == Some(self.order(other).ordering()),
    {
        Some(self.compare(other).to_ordering())
    }
}

impl PartialOrdSpecImpl for Id {
    open spec fn obeys_partial_cmp_spec() -> bool {
        true
    }

    open spec fn partial_cmp_spec(&self, other: &Self) -> Option<Ordering> {
        Some(self.order(other).ordering())
    }
}

} // verus!
