//! The handle that holds an object of any kind.

use crate::blob::{Blob, BlobView};
use crate::commit::{Commit, CommitView};
use crate::encode::WriteError;
use crate::kind::Kind;
use crate::order::{Compare, Order};
use crate::tag::{Tag, TagView};
use crate::tree::{Tree, TreeView};
use std::cmp::Ordering;
use vstd::prelude::*;
use vstd::std_specs::cmp::{PartialEqSpecImpl, PartialOrdSpecImpl};

verus! {

/// Any one object of a store: a [`Tree`], a [`Blob`], a [`Commit`] or a
/// [`Tag`]. The value owns the object it holds, and holds exactly one.
///
/// Objects are ordered by kind first, `Tree < Blob < Commit < Tag`; two
/// objects of one kind are ordered, and are equal, as the values that they
/// hold are.
#[derive(Eq, Debug, Hash, Ord, Clone)]
pub enum Object {
    /// A directory.
    Tree(Tree),
    /// The content of a file.
    Blob(Blob),
    /// A snapshot and where it comes from.
    Commit(Commit),
    /// A name given to an object.
    Tag(Tag),
}

/// What an object holds: its kind, and what the value of that kind holds.
pub enum ObjectView {
    Tree(TreeView),
    Blob(BlobView),
    Commit(CommitView),
    Tag(TagView),
}

impl ObjectView {
    /// What writing the object returns: what writing the value held returns.
    pub open spec fn check(self) -> Result<(), WriteError> {
        match self {
            ObjectView::Tree(v) => v.check(),
            ObjectView::Blob(v) => v.check(),
            ObjectView::Commit(v) => v.check(),
            ObjectView::Tag(v) => v.check(),
        }
    }

    /// The object as it is written: the value held as it is written, with
    /// nothing before or after.
    pub open spec fn encoding(self) -> Seq<u8> {
        match self {
            ObjectView::Tree(v) => v.encoding(),
            ObjectView::Blob(v) => v.encoding(),
            ObjectView::Commit(v) => v.encoding(),
            ObjectView::Tag(v) => v.encoding(),
        }
    }
}

impl View for Object {
    type V = ObjectView;

    open spec fn view(&self) -> ObjectView {
        match self {
            Object::Tree(v) => ObjectView::Tree(v@),
            Object::Blob(v) => ObjectView::Blob(v@),
            Object::Commit(v) => ObjectView::Commit(v@),
            Object::Tag(v) => ObjectView::Tag(v@),
        }
    }
}

/// Typed access to the object held.
impl Object {
    /// The blob held, if a blob is held.
    pub open spec fn spec_as_blob(&self) -> Option<&Blob> {
        match self {
            Object::Blob(v) => Some(v),
            _ => None,
        }
    }

    /// The commit held, if a commit is held.
    pub open spec fn spec_as_commit(&self) -> Option<&Commit> {
        match self {
            Object::Commit(v) => Some(v),
            _ => None,
        }
    }

    /// The tree held, if a tree is held.
    pub open spec fn spec_as_tree(&self) -> Option<&Tree> {
        match self {
            Object::Tree(v) => Some(v),
            _ => None,
        }
    }

    /// The tag held, if a tag is held.
    pub open spec fn spec_as_tag(&self) -> Option<&Tag> {
        match self {
            Object::Tag(v) => Some(v),
            _ => None,
        }
    }

    /// The kind of the object held.
    pub open spec fn spec_kind(&self) -> Kind {
        match self {
            Object::Tree(_) => Kind::Tree,
            Object::Blob(_) => Kind::Blob,
            Object::Commit(_) => Kind::Commit,
            Object::Tag(_) => Kind::Tag,
        }
    }

    /// Returns a [`Blob`] if it is one.
    #[must_use]
    #[verifier::when_used_as_spec(spec_as_blob)]
    pub fn as_blob(&self) -> (r: Option<&Blob>)
        ensures
            r == self.spec_as_blob(),
    {
        match self {
            Self::Blob(v) => Some(v),
            _ => None,
        }
    }

    /// Returns a [`Commit`] if it is one.
    #[must_use]
    #[verifier::when_used_as_spec(spec_as_commit)]
    pub fn as_commit(&self) -> (r: Option<&Commit>)
        ensures
            r == self.spec_as_commit(),
    {
        match self {
            Self::Commit(v) => Some(v),
            _ => None,
        }
    }

    /// Returns a [`Tree`] if it is one.
    #[must_use]
    #[verifier::when_used_as_spec(spec_as_tree)]
    pub fn as_tree(&self) -> (r: Option<&Tree>)
        ensures
            r == self.spec_as_tree(),
    {
        match self {
            Self::Tree(v) => Some(v),
            _ => None,
        }
    }

    /// Returns a [`Tag`] if it is one.
    #[must_use]
    #[verifier::when_used_as_spec(spec_as_tag)]
    pub fn as_tag(&self) -> (r: Option<&Tag>)
        ensures
            r == self.spec_as_tag(),
    {
        match self {
            Self::Tag(v) => Some(v),
            _ => None,
        }
    }

    /// Returns the kind of object stored in this instance.
    #[must_use]
    #[verifier::when_used_as_spec(spec_kind)]
    pub fn kind(&self) -> (r: Kind)
        ensures
            r == self.spec_kind(),
    {
        match self {
            Self::Tree(_) => Kind::Tree,
            Self::Blob(_) => Kind::Blob,
            Self::Commit(_) => Kind::Commit,
            Self::Tag(_) => Kind::Tag,
        }
    }
}

/// Serialization.
impl Object {
    /// Writes the contained object to `out`, and returns what writing that
    /// object returned.
    pub fn write_to(&self, out: &mut Vec<u8>) -> (r: Result<(), WriteError>)
        ensures
            r == self@.check(),
            r is Ok ==> final(out)@ == old(out)@ + self@.encoding(),
            r is Err ==> final(out)@ == old(out)@,
    {
        match self {
            Object::Tree(v) => v.write_to(out),
            Object::Blob(v) => v.write_to(out),
            Object::Commit(v) => v.write_to(out),
            Object::Tag(v) => v.write_to(out),
        }
    }
}

impl Compare for Object {
    open spec fn order(&self, other: &Self) -> Order {
        match (self, other) {
            (Object::Tree(a), Object::Tree(b)) => a.order(b),
            (Object::Blob(a), Object::Blob(b)) => a.order(b),
            (Object::Commit(a), Object::Commit(b)) => a.order(b),
            (Object::Tag(a), Object::Tag(b)) => a.order(b),
            _ => self.spec_kind().order(&other.spec_kind()),
        }
    }

    fn compare(&self, other: &Self) -> (r: Order) {
        match (self, other) {
            (Object::Tree(a), Object::Tree(b)) => a.compare(b),
            (Object::Blob(a), Object::Blob(b)) => a.compare(b),
            (Object::Commit(a), Object::Commit(b)) => a.compare(b),
            (Object::Tag(a), Object::Tag(b)) => a.compare(b),
            _ => self.kind().compare(&other.kind()),
        }
    }

    proof fn lemma_equal(&self, other: &Self) {
        match (self, other) {
            (Object::Tree(a), Object::Tree(b)) => a.lemma_equal(b),
            (Object::Blob(a), Object::Blob(b)) => a.lemma_equal(b),
            (Object::Commit(a), Object::Commit(b)) => a.lemma_equal(b),
            (Object::Tag(a), Object::Tag(b)) => a.lemma_equal(b),
            _ => {},
        }
    }

    proof fn lemma_reverse(&self, other: &Self) {
        match (self, other) {
            (Object::Tree(a), Object::Tree(b)) => a.lemma_reverse(b),
            (Object::Blob(a), Object::Blob(b)) => a.lemma_reverse(b),
            (Object::Commit(a), Object::Commit(b)) => a.lemma_reverse(b),
            (Object::Tag(a), Object::Tag(b)) => a.lemma_reverse(b),
            _ => {},
        }
    }

    proof fn lemma_chained(&self, middle: &Self, last: &Self) {
        match (self, middle, last) {
            (Object::Tree(a), Object::Tree(b), Object::Tree(c)) => a.lemma_chained(b, c),
            (Object::Blob(a), Object::Blob(b), Object::Blob(c)) => a.lemma_chained(b, c),
            (Object::Commit(a), Object::Commit(b), Object::Commit(c)) => a.lemma_chained(b, c),
            (Object::Tag(a), Object::Tag(b), Object::Tag(c)) => a.lemma_chained(b, c),
            _ => {},
        }
    }
}

impl PartialEq for Object {
    fn eq(&self, other: &Self) -> (r: bool)
        ensures
            r == (self@ == other@),
    {
        match (self, other) {
            (Object::Tree(a), Object::Tree(b)) => a == b,
            (Object::Blob(a), Object::Blob(b)) => a == b,
            (Object::Commit(a), Object::Commit(b)) => a == b,
            (Object::Tag(a), Object::Tag(b)) => a == b,
            _ => false,
        }
    }
}

impl PartialEqSpecImpl for Object {
    open spec fn obeys_eq_spec() -> bool {
        true
    }

    open spec fn eq_spec(&self, other: &Self) -> bool {
        self@ == other@
    }
}

impl PartialOrd for Object {
    fn partial_cmp(&self, other: &Self) -> (r: Option<Ordering>)
        ensures
            r == Some(self.order(other).ordering()),
    {
        Some(self.compare(other).to_ordering())
    }
}

impl PartialOrdSpecImpl for Object {
    open spec fn obeys_partial_cmp_spec() -> bool {
        true
    }

    open spec fn partial_cmp_spec(&self, other: &Self) -> Option<Ordering> {
        Some(self.order(other).ordering())
    }
}

} // verus!
