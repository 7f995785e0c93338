//! Trees: directories and their entries.

use crate::encode::{append, contains_byte, WriteError, NUL, SPACE};
use crate::id::Id;
use crate::order::{
    compare_slices, int_order, lemma_lex_chained, lemma_lex_equal, lemma_lex_equal_bytes,
    lemma_lex_reverse, lex_order, views, Compare, Order,
};
use std::cmp::Ordering;
use vstd::prelude::*;
use vstd::std_specs::cmp::{PartialEqSpecImpl, PartialOrdSpecImpl};
use vstd::string::StringSliceAdditionalSpecFns;

verus! {

/// What an entry of a tree names, in the fixed order
/// `Tree < Blob < BlobExecutable < Link < Commit`.
#[derive(Eq, Debug, Hash, Ord, Clone, Copy)]
pub enum EntryMode {
    /// A directory.
    Tree,
    /// A file.
    Blob,
    /// A file that may be run.
    BlobExecutable,
    /// A symbolic link.
    Link,
    /// A commit of another repository.
    Commit,
}

impl View for EntryMode {
    type V = EntryMode;

    open spec fn view(&self) -> EntryMode {
        *self
    }
}

impl EntryMode {
    /// The place of a mode in the fixed order, counted from zero.
    pub open spec fn rank(self) -> int {
        match self {
            EntryMode::Tree => 0,
            EntryMode::Blob => 1,
            EntryMode::BlobExecutable => 2,
            EntryMode::Link => 3,
            EntryMode::Commit => 4,
        }
    }

    /// Returns the place of the mode in the fixed order.
    pub fn position(&self) -> (r: u8)
        ensures
            r == self.rank(),
    {
        match self {
            EntryMode::Tree => 0,
            EntryMode::Blob => 1,
            EntryMode::BlobExecutable => 2,
            EntryMode::Link => 3,
            EntryMode::Commit => 4,
        }
    }

    /// The mode as it is written in a tree: octal digits without a leading zero.
    pub open spec fn octal(self) -> Seq<u8> {
        match self {
            EntryMode::Tree => "40000".spec_bytes(),
            EntryMode::Blob => "100644".spec_bytes(),
            EntryMode::BlobExecutable => "100755".spec_bytes(),
            EntryMode::Link => "120000".spec_bytes(),
            EntryMode::Commit => "160000".spec_bytes(),
        }
    }

    /// Returns the mode as it is written in a tree.
    pub fn as_bytes(&self) -> (r: &'static [u8])
        ensures
            r@ == self.octal(),
    {
        match self {
            EntryMode::Tree => "40000".as_bytes(),
            EntryMode::Blob => "100644".as_bytes(),
            EntryMode::BlobExecutable => "100755".as_bytes(),
            EntryMode::Link => "120000".as_bytes(),
            EntryMode::Commit => "160000".as_bytes(),
        }
    }
}

impl Compare for EntryMode {
    open spec fn order(&self, other: &Self) -> Order {
        int_order(self.rank(), other.rank())
    }

    fn compare(&self, other: &Self) -> (r: Order) {
        self.position().compare(&other.position())
    }

    proof fn lemma_equal(&self, other: &Self) {
    }

    proof fn lemma_reverse(&self, other: &Self) {
    }

    proof fn lemma_chained(&self, middle: &Self, last: &Self) {
    }
}

impl PartialEq for EntryMode {
    fn eq(&self, other: &Self) -> (r: bool)
        ensures
            r == (self@ == other@),
    {
        self.compare(other) == Order::Equal
    }
}

impl PartialEqSpecImpl for EntryMode {
    open spec fn obeys_eq_spec() -> bool {
        true
    }

    open spec fn eq_spec(&self, other: &Self) -> bool {
        self@ == other@
    }
}

impl PartialOrd for EntryMode {
    fn partial_cmp(&self, other: &Self) -> (r: Option<Ordering>)
        ensures
            r == Some(self.order(other).ordering()),
    {
        Some(self.compare(other).to_ordering())
    }
}

impl PartialOrdSpecImpl for EntryMode {
    open spec fn obeys_partial_cmp_spec() -> bool {
        true
    }

    open spec fn partial_cmp_spec(&self, other: &Self) -> Option<Ordering> {
        Some(self.order(other).ordering())
    }
}

/// One line of a directory: what it names, under which name, and the id of
/// the object that it names. Entries are ordered by mode, then by name, then
/// by id.
#[derive(Eq, Debug, Hash, Ord, Clone)]
pub struct Entry {
    pub mode: EntryMode,
    pub filename: Vec<u8>,
    pub oid: Id,
}

/// What an entry holds.
pub struct EntryView {
    pub mode: EntryMode,
    pub filename: Seq<u8>,
    pub oid: Seq<u8>,
}

impl EntryView {
    /// An entry can be written when its name holds no NUL byte.
    pub open spec fn valid(self) -> bool {
        !self.filename.contains(NUL)
    }

    /// The entry as it is written: the mode, a space, the name, a NUL byte
    /// and the twenty bytes of the id.
    pub open spec fn encoding(self) -> Seq<u8> {
        self.mode.octal() + seq![SPACE] + self.filename + seq![NUL] + self.oid
    }
}

impl View for Entry {
    type V = EntryView;

    open spec fn view(&self) -> EntryView {
        EntryView { mode: self.mode, filename: self.filename@, oid: self.oid@ }
    }
}

impl Entry {
    /// Tells whether the entry can be written.
    pub fn is_valid(&self) -> (r: bool)
        ensures
            r == self@.valid(),
    {
        !contains_byte(self.filename.as_slice(), NUL)
    }

    /// Appends the entry to `out` as it is written in a tree. This does not
    /// ask whether the entry is valid: a name is written as it stands.
    pub fn write_to(&self, out: &mut Vec<u8>)
        ensures
            final(out)@ == old(out)@ + self@.encoding(),
    {
        append(out, self.mode.as_bytes());
        out.push(SPACE);
        append(out, self.filename.as_slice());
        out.push(NUL);
        append(out, self.oid.bytes.as_slice());
    }
}

impl Compare for Entry {
    open spec fn order(&self, other: &Self) -> Order {
        self.mode.order(&other.mode).then_order(
            lex_order(self.filename@, other.filename@),
        ).then_order(self.oid.order(&other.oid))
    }

    fn compare(&self, other: &Self) -> (r: Order) {
        match self.mode.compare(&other.mode) {
            Order::Equal => {},
            o => {
                return o;
            },
        }
        match compare_slices(self.filename.as_slice(), other.filename.as_slice()) {
            Order::Equal => {},
            o => {
                return o;
            },
        }
        self.oid.compare(&other.oid)
    }

    proof fn lemma_equal(&self, other: &Self) {
        self.mode.lemma_equal(&other.mode);
        lemma_lex_equal_bytes(self.filename@, other.filename@);
        self.oid.lemma_equal(&other.oid);
    }

    proof fn lemma_reverse(&self, other: &Self) {
        self.mode.lemma_reverse(&other.mode);
        lemma_lex_reverse(self.filename@, other.filename@);
        self.oid.lemma_reverse(&other.oid);
    }

    proof fn lemma_chained(&self, middle: &Self, last: &Self) {
        self.mode.lemma_chained(&middle.mode, &last.mode);
        lemma_lex_chained(self.filename@, middle.filename@, last.filename@);
        self.oid.lemma_chained(&middle.oid, &last.oid);
    }
}

impl PartialEq for Entry {
    fn eq(&self, other: &Self) -> (r: bool)
        ensures
            r == (self@ == other@),
    {
        proof {
            self.lemma_equal(other);
        }
        self.compare(other) == Order::Equal
    }
}

impl PartialEqSpecImpl for Entry {
    open spec fn obeys_eq_spec() -> bool {
        true
    }

    open spec fn eq_spec(&self, other: &Self) -> bool {
        self@ == other@
    }
}

impl PartialOrd for Entry {
    fn partial_cmp(&self, other: &Self) -> (r: Option<Ordering>)
        ensures
            r == Some(self.order(other).ordering()),
    {
        Some(self.compare(other).to_ordering())
    }
}

impl PartialOrdSpecImpl for Entry {
    open spec fn obeys_partial_cmp_spec() -> bool {
        true
    }

    open spec fn partial_cmp_spec(&self, other: &Self) -> Option<Ordering> {
        Some(self.order(other).ordering())
    }
}

/// A directory: its entries in the order in which they are written. Trees
/// are ordered as their lists of entries are, lexicographically.
#[derive(Eq, Debug, Hash, Ord, Clone)]
pub struct Tree {
    pub entries: Vec<Entry>,
}

/// What a tree holds.
pub struct TreeView {
    pub entries: Seq<EntryView>,
}

/// Entries one after another, each as it is written.
pub open spec fn entries_encoding(entries: Seq<EntryView>) -> Seq<u8>
    decreases entries.len(),
{
    if entries.len() == 0 {
        Seq::empty()
    } else {
        entries_encoding(entries.drop_last()) + entries.last().encoding()
    }
}

impl TreeView {
    /// A tree can be written when each of its entries can.
    pub open spec fn valid(self) -> bool {
        forall|i: int| 0 <= i < self.entries.len() ==> (#[trigger] self.entries[i]).valid()
    }

    /// What writing the tree returns.
    pub open spec fn check(self) -> Result<(), WriteError> {
        if self.valid() {
            Ok(())
        } else {
            Err(WriteError::NulInName)
        }
    }

    /// The tree as it is written: its entries one after another.
    pub open spec fn encoding(self) -> Seq<u8> {
        entries_encoding(self.entries)
    }
}

impl View for Tree {
    type V = TreeView;

    open spec fn view(&self) -> TreeView {
        TreeView { entries: views(self.entries@) }
    }
}

impl Tree {
    /// Tells whether the tree can be written.
    pub fn is_valid(&self) -> (r: bool)
        ensures
            r == self@.valid(),
    {
        let mut i: usize = 0;
        while i < self.entries.len()
            invariant
                i <= self.entries@.len(),
                forall|k: int| 0 <= k < i ==> (#[trigger] self@.entries[k]).valid(),
            decreases self.entries@.len() - i,
        {
            if !self.entries[i].is_valid() {
                assert(!self@.entries[i as int].valid());
                return false;
            }
            i += 1;
        }
        true
    }

    /// Appends the tree to `out` as it is written, or leaves `out` as it is
    /// where the tree cannot be written.
    pub fn write_to(&self, out: &mut Vec<u8>) -> (r: Result<(), WriteError>)
        ensures
            r == self@.check(),
            r is Ok ==> final(out)@ == old(out)@ + self@.encoding(),
            r is Err ==> final(out)@ == old(out)@,
    {
        if !self.is_valid() {
            return Err(WriteError::NulInName);
        }
        let mut i: usize = 0;
        while i < self.entries.len()
            invariant
                i <= self.entries@.len(),
                out@ == old(out)@ + entries_encoding(self@.entries.take(i as int)),
            decreases self.entries@.len() - i,
        {
            self.entries[i].write_to(out);
            assert(self@.entries.take(i + 1).drop_last() =~= self@.entries.take(i as int));
            i += 1;
        }
        assert(self@.entries.take(i as int) =~= self@.entries);
        Ok(())
    }
}

impl Compare for Tree {
    open spec fn order(&self, other: &Self) -> Order {
        lex_order(self.entries@, other.entries@)
    }

    fn compare(&self, other: &Self) -> (r: Order) {
        compare_slices(self.entries.as_slice(), other.entries.as_slice())
    }

    proof fn lemma_equal(&self, other: &Self) {
        lemma_lex_equal(self.entries@, other.entries@);
    }

    proof fn lemma_reverse(&self, other: &Self) {
        lemma_lex_reverse(self.entries@, other.entries@);
    }

    proof fn lemma_chained(&self, middle: &Self, last: &Self) {
        lemma_lex_chained(self.entries@, middle.entries@, last.entries@);
    }
}

impl PartialEq for Tree {
    fn eq(&self, other: &Self) -> (r: bool)
        ensures
            r == (self@ == other@),
    {
        proof {
            self.lemma_equal(other);
        }
        self.compare(other) == Order::Equal
    }
}

impl PartialEqSpecImpl for Tree {
    open spec fn obeys_eq_spec() -> bool {
        true
    }

    open spec fn eq_spec(&self, other: &Self) -> bool {
        self@ == other@
    }
}

impl PartialOrd for Tree {
    fn partial_cmp(&self, other: &Self) -> (r: Option<Ordering>)
        ensures
            r == Some(self.order(other).ordering()),
    {
        Some(self.compare(other).to_ordering())
    }
}

impl PartialOrdSpecImpl for Tree {
    open spec fn obeys_partial_cmp_spec() -> bool {
        true
    }

    open spec fn partial_cmp_spec(&self, other: &Self) -> Option<Ordering> {
        Some(self.order(other).ordering())
    }
}

} // verus!
