//! Blobs: the content of files.

use crate::encode::{append, WriteError};
use crate::order::{
    compare_slices, lemma_lex_chained, lemma_lex_equal_bytes, lemma_lex_reverse, lex_order, Compare,
    Order,
};
use std::cmp::Ordering;
use vstd::prelude::*;
use vstd::std_specs::cmp::{PartialEqSpecImpl, PartialOrdSpecImpl};

verus! {

/// The content of a file: bytes without structure.
#[derive(Eq, Debug, Hash, Ord, Clone)]
pub struct Blob {
    pub data: Vec<u8>,
}

/// What a blob holds.
pub struct BlobView {
    pub data: Seq<u8>,
}

impl BlobView {
    /// What writing the blob returns: a blob can always be written.
    pub open spec fn check(self) -> Result<(), WriteError> {
        Ok(())
    }

    /// The blob as it is written: its bytes.
    pub open spec fn encoding(self) -> Seq<u8> {
        self.data
    }
}

impl View for Blob {
    type V = BlobView;

    open spec fn view(&self) -> BlobView {
        BlobView { data: self.data@ }
    }
}

impl Blob {
    /// Appends the blob to `out` as it is written.
    pub fn write_to(&self, out: &mut Vec<u8>) -> (r: Result<(), WriteError>)
        ensures
            r == self@.check(),
            r is Ok ==> final(out)@ == old(out)@ + self@.encoding(),
            r is Err ==> final(out)@ == old(out)@,
    {
        append(out, self.data.as_slice());
        Ok(())
    }
}

impl Compare for Blob {
    open spec fn order(&self, other: &Self) -> Order {
        lex_order(self.data@, other.data@)
    }

    fn compare(&self, other: &Self) -> (r: Order) {
        compare_slices(self.data.as_slice(), other.data.as_slice())
    }

    proof fn lemma_equal(&self, other: &Self) {
        lemma_lex_equal_bytes(self.data@, other.data@);
    }

    proof fn lemma_reverse(&self, other: &Self) {
        lemma_lex_reverse(self.data@, other.data@);
    }

    proof fn lemma_chained(&self, middle: &Self, last: &Self) {
        lemma_lex_chained(self.data@, middle.data@, last.data@);
    }
}

impl PartialEq for Blob {
    fn eq(&self, other: &Self) -> (r: bool)
        ensures
            r == (self@ == other@),
    {
        let r = self.data == other.data;
        proof {
            assert(r == (self.data@ =~= other.data@));
        }
        r
    }
}

impl PartialEqSpecImpl for Blob {
    open spec fn obeys_eq_spec() -> bool {
        true
    }

    open spec fn eq_spec(&self, other: &Self) -> bool {
        self@ == other@
    }
}

impl PartialOrd for Blob {
    fn partial_cmp(&self, other: &Self) -> (r: Option<Ordering>)
        ensures
            r == Some(self.order(other).ordering()),
    {
        Some(self.compare(other).to_ordering())
    }
}

impl PartialOrdSpecImpl for Blob {
    open spec fn obeys_partial_cmp_spec() -> bool {
        true
    }

    open spec fn partial_cmp_spec(&self, other: &Self) -> Option<Ordering> {
        Some(self.order(other).ordering())
    }
}

} // verus!
