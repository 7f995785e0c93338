//! Commits: snapshots and where they come from.

use crate::encode::{append, contains_byte, header, write_header, WriteError, LF};
use crate::id::{hex, Id};
use crate::order::{
    compare_slices, lemma_lex_chained, lemma_lex_equal, lemma_lex_equal_bytes, lemma_lex_reverse,
    lex_order, views, Compare, Order,
};
use std::cmp::Ordering;
use vstd::prelude::*;
use vstd::std_specs::cmp::{PartialEqSpecImpl, PartialOrdSpecImpl};
use vstd::string::StringSliceAdditionalSpecFns;

verus! {

/// A snapshot and where it comes from: the tree it records, the commits it
/// follows, who wrote it and who committed it (each as the one line that
/// stands in the commit), and a message. Commits are ordered by these fields
/// in turn.
#[derive(Eq, Debug, Hash, Ord, Clone)]
pub struct Commit {
    pub tree: Id,
    pub parents: Vec<Id>,
    pub author: Vec<u8>,
    pub committer: Vec<u8>,
    pub message: Vec<u8>,
}

/// What a commit holds.
pub struct CommitView {
    pub tree: Seq<u8>,
    pub parents: Seq<Seq<u8>>,
    pub author: Seq<u8>,
    pub committer: Seq<u8>,
    pub message: Seq<u8>,
}

/// The `parent` headers of a commit, one for each parent in turn.
pub open spec fn parents_encoding(parents: Seq<Seq<u8>>) -> Seq<u8>
    decreases parents.len(),
{
    if parents.len() == 0 {
        Seq::empty()
    } else {
        parents_encoding(parents.drop_last()) + header("parent".spec_bytes(), hex(parents.last()))
    }
}

impl CommitView {
    /// A commit can be written when neither the author's line nor the
    /// committer's holds a line feed.
    pub open spec fn valid(self) -> bool {
        !self.author.contains(LF) && !self.committer.contains(LF)
    }

    /// What writing the commit returns.
    pub open spec fn check(self) -> Result<(), WriteError> {
        if self.valid() {
            Ok(())
        } else {
            Err(WriteError::LineFeedInHeader)
        }
    }

    /// The commit as it is written: the headers `tree`, `parent` (one for
    /// each parent), `author` and `committer`, an empty line, and the message.
    pub open spec fn encoding(self) -> Seq<u8> {
        header("tree".spec_bytes(), hex(self.tree)) + parents_encoding(self.parents) + header(
            "author".spec_bytes(),
            self.author,
        ) + header("committer".spec_bytes(), self.committer) + seq![LF] + self.message
    }
}

impl View for Commit {
    type V = CommitView;

    open spec fn view(&self) -> CommitView {
        CommitView {
            tree: self.tree@,
            parents: views(self.parents@),
            author: self.author@,
            committer: self.committer@,
            message: self.message@,
        }
    }
}

impl Commit {
    /// Tells whether the commit can be written.
    pub fn is_valid(&self) -> (r: bool)
        ensures
            r == self@.valid(),
    {
        !contains_byte(self.author.as_slice(), LF) && !contains_byte(self.committer.as_slice(), LF)
    }

    /// Appends the commit to `out` as it is written, or leaves `out` as it is
    /// where the commit cannot be written.
    pub fn write_to(&self, out: &mut Vec<u8>) -> (r: Result<(), WriteError>)
        ensures
            r == self@.check(),
            r is Ok ==> final(out)@ == old(out)@ + self@.encoding(),
            r is Err ==> final(out)@ == old(out)@,
    {
        if !self.is_valid() {
            return Err(WriteError::LineFeedInHeader);
        }
        write_header(out, "tree".as_bytes(), self.tree.to_hex().as_slice());
        let ghost start = out@;
        let mut i: usize = 0;
        while i < self.parents.len()
            invariant
                i <= self.parents@.len(),
                out@ == start + parents_encoding(self@.parents.take(i as int)),
            decreases self.parents@.len() - i,
        {
            write_header(out, "parent".as_bytes(), self.parents[i].to_hex().as_slice());
            assert(self@.parents.take(i + 1).drop_last() =~= self@.parents.take(i as int));
            i += 1;
        }
        assert(self@.parents.take(i as int) =~= self@.parents);
        write_header(out, "author".as_bytes(), self.author.as_slice());
        write_header(out, "committer".as_bytes(), self.committer.as_slice());
        out.push(LF);
        append(out, self.message.as_slice());
        Ok(())
    }
}

impl Compare for Commit {
    open spec fn order(&self, other: &Self) -> Order {
        self.tree.order(&other.tree).then_order(
            lex_order(self.parents@, other.parents@),
        ).then_order(lex_order(self.author@, other.author@)).then_order(
            lex_order(self.committer@, other.committer@),
        ).then_order(lex_order(self.message@, other.message@))
    }

    fn compare(&self, other: &Self) -> (r: Order) {
        match self.tree.compare(&other.tree) {
            Order::Equal => {},
            o => {
                return o;
            },
        }
        match compare_slices(self.parents.as_slice(), other.parents.as_slice()) {
            Order::Equal => {},
            o => {
                return o;
            },
        }
        match compare_slices(self.author.as_slice(), other.author.as_slice()) {
            Order::Equal => {},
            o => {
                return o;
            },
        }
        match compare_slices(self.committer.as_slice(), other.committer.as_slice()) {
            Order::Equal => {},
            o => {
                return o;
            },
        }
        compare_slices(self.message.as_slice(), other.message.as_slice())
    }

    proof fn lemma_equal(&self, other: &Self) {
        self.tree.lemma_equal(&other.tree);
        lemma_lex_equal(self.parents@, other.parents@);
        lemma_lex_equal_bytes(self.author@, other.author@);
        lemma_lex_equal_bytes(self.committer@, other.committer@);
        lemma_lex_equal_bytes(self.message@, other.message@);
    }

    proof fn lemma_reverse(&self, other: &Self) {
        self.tree.lemma_reverse(&other.tree);
        lemma_lex_reverse(self.parents@, other.parents@);
        lemma_lex_reverse(self.author@, other.author@);
        lemma_lex_reverse(self.committer@, other.committer@);
        lemma_lex_reverse(self.message@, other.message@);
    }

    proof fn lemma_chained(&self, middle: &Self, last: &Self) {
        self.tree.lemma_chained(&middle.tree, &last.tree);
        lemma_lex_chained(self.parents@, middle.parents@, last.parents@);
        lemma_lex_chained(self.author@, middle.author@, last.author@);
        lemma_lex_chained(self.committer@, middle.committer@, last.committer@);
        lemma_lex_chained(self.message@, middle.message@, last.message@);
    }
}

impl PartialEq for Commit {
    fn eq(&self, other: &Self) -> (r: bool)
        ensures
            r == (self@ == other@),
    {
        proof {
            self.lemma_equal(other);
        }
        self.compare(other) == Order::Equal
    }
}

impl PartialEqSpecImpl for Commit {
    open spec fn obeys_eq_spec() -> bool {
        true
    }

    open spec fn eq_spec(&self, other: &Self) -> bool {
        self@ == other@
    }
}

impl PartialOrd for Commit {
    fn partial_cmp(&self, other: &Self) -> (r: Option<Ordering>)
        ensures
            r == Some(self.order(other).ordering()),
    {
        Some(self.compare(other).to_ordering())
    }
}

impl PartialOrdSpecImpl for Commit {
    open spec fn obeys_partial_cmp_spec() -> bool {
        true
    }

    open spec fn partial_cmp_spec(&self, other: &Self) -> Option<Ordering> {
        Some(self.order(other).ordering())
    }
}

} // verus!
