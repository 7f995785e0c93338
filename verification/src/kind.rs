//! The kinds of object.

use crate::order::{int_order, Compare, Order};
use std::cmp::Ordering;
use vstd::prelude::*;
use vstd::std_specs::cmp::{PartialEqSpecImpl, PartialOrdSpecImpl};
use vstd::string::StringSliceAdditionalSpecFns;

verus! {

/// The four kinds of object that a store holds, in their fixed order:
/// `Tree < Blob < Commit < Tag`.
#[derive(Eq, Debug, Hash, Ord, Clone, Copy)]
pub enum Kind {
    Tree,
    Blob,
    Commit,
    Tag,
}

impl View for Kind {
    type V = Kind;

    open spec fn view(&self) -> Kind {
        *self
    }
}

impl Kind {
    /// The place of a kind in the fixed order, counted from zero.
    pub open spec fn rank(self) -> int {
        match self {
            Kind::Tree => 0,
            Kind::Blob => 1,
            Kind::Commit => 2,
            Kind::Tag => 3,
        }
    }

    /// Returns the place of the kind in the fixed order.
    pub fn position(&self) -> (r: u8)
        ensures
            r == self.rank(),
    {
        match self {
            Kind::Tree => 0,
            Kind::Blob => 1,
            Kind::Commit => 2,
            Kind::Tag => 3,
        }
    }

    /// The name of a kind as it is written in a header.
    pub open spec fn name(self) -> Seq<u8> {
        match self {
            Kind::Tree => "tree".spec_bytes(),
            Kind::Blob => "blob".spec_bytes(),
            Kind::Commit => "commit".spec_bytes(),
            Kind::Tag => "tag".spec_bytes(),
        }
    }

    /// Returns the name of the kind as it is written in a header.
    pub fn as_bytes(&self) -> (r: &'static [u8])
        ensures
            r@ == self.name(),
    {
        match self {
            Kind::Tree => "tree".as_bytes(),
            Kind::Blob => "blob".as_bytes(),
            Kind::Commit => "commit".as_bytes(),
            Kind::Tag => "tag".as_bytes(),
        }
    }
}

impl Compare for Kind {
    open spec fn order(&self, other: &Self) -> Order {
        int_order(self.rank(), other.rank())
    }

    fn compare(&self, other: &Self) -> (r: Order) {
        self.position().compare(&other.position())
    }

    proof fn lemma_equal(&self, other: &Self) {
    }

    proof fn lemma_reverse(&self, other: &Self) {
    }

    proof fn lemma_chained(&self, middle: &Self, last: &Self) {
    }
}

impl PartialEq for Kind {
    fn eq(&self, other: &Self) -> (r: bool)
        ensures
            r == (self@ == other@),
    {
        self.compare(other) == Order::Equal
    }
}

impl PartialEqSpecImpl for Kind {
    open spec fn obeys_eq_spec() -> bool {
        true
    }

    open spec fn eq_spec(&self, other: &Self) -> bool {
        self@ == other@
    }
}

impl PartialOrd for Kind {
    fn partial_cmp(&self, other: &Self) -> (r: Option<Ordering>)
        ensures
            r == Some(self.order(other).ordering()),
    {
        Some(self.compare(other).to_ordering())
    }
}

impl PartialOrdSpecImpl for Kind {
    open spec fn obeys_partial_cmp_spec() -> bool {
        true
    }

    open spec fn partial_cmp_spec(&self, other: &Self) -> Option<Ordering> {
        Some(self.order(other).ordering())
    }
}

} // verus!
