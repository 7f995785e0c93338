//! Tags: names given to objects.

use crate::encode::{append, contains_byte, header, write_header, WriteError, LF};
use crate::id::{hex, Id};
use crate::kind::Kind;
use crate::order::{
    compare_slices, lemma_lex_chained, lemma_lex_equal_bytes, lemma_lex_reverse,
    lex_order, Compare, Order,
};
use std::cmp::Ordering;
use vstd::prelude::*;
use vstd::std_specs::cmp::{PartialEqSpecImpl, PartialOrdSpecImpl};
use vstd::string::StringSliceAdditionalSpecFns;

verus! {

/// A name given to an object: the object it points to and that object's
/// kind, the name, who gave it (as the one line that stands in the tag), and
/// a message. Tags are ordered by these fields in turn.
#[derive(Eq, Debug, Hash, Ord, Clone)]
pub struct Tag {
    pub target: Id,
    pub target_kind: Kind,
    pub name: Vec<u8>,
    pub tagger: Vec<u8>,
    pub message: Vec<u8>,
}

/// What a tag holds.
pub struct TagView {
    pub target: Seq<u8>,
    pub target_kind: Kind,
    pub name: Seq<u8>,
    pub tagger: Seq<u8>,
    pub message: Seq<u8>,
}

impl TagView {
    /// A tag can be written when neither its name nor the tagger's line holds
    /// a line feed.
    pub open spec fn valid(self) -> bool {
        !self.name.contains(LF) && !self.tagger.contains(LF)
    }

    /// What writing the tag returns.
    pub open spec fn check(self) -> Result<(), WriteError> {
        if self.valid() {
            Ok(())
        } else {
            Err(WriteError::LineFeedInHeader)
        }
    }

    /// The tag as it is written: the headers `object`, `type`, `tag` and
    /// `tagger`, an empty line, and the message.
    pub open spec fn encoding(self) -> Seq<u8> {
        header("object".spec_bytes(), hex(self.target)) + header(
            "type".spec_bytes(),
            self.target_kind.name(),
        ) + header("tag".spec_bytes(), self.name) + header("tagger".spec_bytes(), self.tagger)
            + seq![LF] + self.message
    }
}

impl View for Tag {
    type V = TagView;

    open spec fn view(&self) -> TagView {
        TagView {
            target: self.target@,
            target_kind: self.target_kind,
            name: self.name@,
            tagger: self.tagger@,
            message: self.message@,
        }
    }
}

impl Tag {
    /// Tells whether the tag can be written.
    pub fn is_valid(&self) -> (r: bool)
        ensures
            r == self@.valid(),
    {
        !contains_byte(self.name.as_slice(), LF) && !contains_byte(self.tagger.as_slice(), LF)
    }

    /// Appends the tag to `out` as it is written, or leaves `out` as it is
    /// where the tag cannot be written.
    pub fn write_to(&self, out: &mut Vec<u8>) -> (r: Result<(), WriteError>)
        ensures
            r == self@.check(),
            r is Ok ==> final(out)@ == old(out)@ + self@.encoding(),
            r is Err ==> final(out)@ == old(out)@,
    {
        if !self.is_valid() {
            return Err(WriteError::LineFeedInHeader);
        }
        write_header(out, "object".as_bytes(), self.target.to_hex().as_slice());
        write_header(out, "type".as_bytes(), self.target_kind.as_bytes());
        write_header(out, "tag".as_bytes(), self.name.as_slice());
        write_header(out, "tagger".as_bytes(), self.tagger.as_slice());
        out.push(LF);
        append(out, self.message.as_slice());
        Ok(())
    }
}

impl Compare for Tag {
    open spec fn order(&self, other: &Self) -> Order {
        self.target.order(&other.target).then_order(
            self.target_kind.order(&other.target_kind),
        ).then_order(lex_order(self.name@, other.name@)).then_order(
            lex_order(self.tagger@, other.tagger@),
        ).then_order(lex_order(self.message@, other.message@))
    }

    fn compare(&self, other: &Self) -> (r: Order) {
        match self.target.compare(&other.target) {
            Order::Equal => {},
            o => {
                return o;
            },
        }
        match self.target_kind.compare(&other.target_kind) {
            Order::Equal => {},
            o => {
                return o;
            },
        }
        match compare_slices(self.name.as_slice(), other.name.as_slice()) {
            Order::Equal => {},
            o => {
                return o;
            },
        }
        match compare_slices(self.tagger.as_slice(), other.tagger.as_slice()) {
            Order::Equal => {},
            o => {
                return o;
            },
        }
        compare_slices(self.message.as_slice(), other.message.as_slice())
    }

    proof fn lemma_equal(&self, other: &Self) {
        self.target.lemma_equal(&other.target);
        self.target_kind.lemma_equal(&other.target_kind);
        lemma_lex_equal_bytes(self.name@, other.name@);
        lemma_lex_equal_bytes(self.tagger@, other.tagger@);
        lemma_lex_equal_bytes(self.message@, other.message@);
    }

    proof fn lemma_reverse(&self, other: &Self) {
        self.target.lemma_reverse(&other.target);
        self.target_kind.lemma_reverse(&other.target_kind);
        lemma_lex_reverse(self.name@, other.name@);
        lemma_lex_reverse(self.tagger@, other.tagger@);
        lemma_lex_reverse(self.message@, other.message@);
    }

    proof fn lemma_chained(&self, middle: &Self, last: &Self) {
        self.target.lemma_chained(&middle.target, &last.target);
        self.target_kind.lemma_chained(&middle.target_kind, &last.target_kind);
        lemma_lex_chained(self.name@, middle.name@, last.name@);
        lemma_lex_chained(self.tagger@, middle.tagger@, last.tagger@);
        lemma_lex_chained(self.message@, middle.message@, last.message@);
    }
}

impl PartialEq for Tag {
    fn eq(&self, other: &Self) -> (r: bool)
        ensures
            r == (self@ == other@),
    {
        proof {
            self.lemma_equal(other);
        }
        self.compare(other) == Order::Equal
    }
}

impl PartialEqSpecImpl for Tag {
    open spec fn obeys_eq_spec() -> bool {
        true
    }

    open spec fn eq_spec(&self, other: &Self) -> bool {
        self@ == other@
    }
}

impl PartialOrd for Tag {
    fn partial_cmp(&self, other: &Self) -> (r: Option<Ordering>)
        ensures
            r == Some(self.order(other).ordering()),
    {
        Some(self.compare(other).to_ordering())
    }
}

impl PartialOrdSpecImpl for Tag {
    open spec fn obeys_partial_cmp_spec() -> bool {
        true
    }

    open spec fn partial_cmp_spec(&self, other: &Self) -> Option<Ordering> {
        Some(self.order(other).ordering())
    }
}

} // verus!
