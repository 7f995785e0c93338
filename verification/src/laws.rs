//! What holds of [`Object`] whatever it holds: each law is proved from the
//! contracts of the functions that it speaks of.

use crate::blob::Blob;
use crate::commit::Commit;
use crate::kind::Kind;
use crate::object::Object;
use crate::order::Compare;
use crate::tag::Tag;
use crate::tree::Tree;
use std::cmp::Ordering;
use vstd::prelude::*;
use vstd::std_specs::cmp::{PartialEqSpec, PartialOrdSpec};
use vstd::std_specs::convert::{FromSpec, TryFromSpec};

verus! {

/// Wrapping a value and then borrowing it as its own kind gives that value;
/// borrowing it as any other kind gives nothing.
pub proof fn law_wrap_then_borrow(tree: Tree, blob: Blob, commit: Commit, tag: Tag)
    ensures
        Object::from_spec(tree).as_tree() == Some(&tree),
        Object::from_spec(tree).as_blob() is None,
        Object::from_spec(tree).as_commit() is None,
        Object::from_spec(tree).as_tag() is None,
        Object::from_spec(blob).as_blob() == Some(&blob),
        Object::from_spec(blob).as_tree() is None,
        Object::from_spec(blob).as_commit() is None,
        Object::from_spec(blob).as_tag() is None,
        Object::from_spec(commit).as_commit() == Some(&commit),
        Object::from_spec(commit).as_tree() is None,
        Object::from_spec(commit).as_blob() is None,
        Object::from_spec(commit).as_tag() is None,
        Object::from_spec(tag).as_tag() == Some(&tag),
        Object::from_spec(tag).as_tree() is None,
        Object::from_spec(tag).as_blob() is None,
        Object::from_spec(tag).as_commit() is None,
{
}

/// Wrapping a value gives an object of that value's kind.
pub proof fn law_wrap_then_kind(tree: Tree, blob: Blob, commit: Commit, tag: Tag)
    ensures
        Object::from_spec(tree).kind() == Kind::Tree,
        Object::from_spec(blob).kind() == Kind::Blob,
        Object::from_spec(commit).kind() == Kind::Commit,
        Object::from_spec(tag).kind() == Kind::Tag,
{
}

/// Wrapping a value and then unwrapping it as its own kind gives the value
/// back, whole.
pub proof fn law_round_trip(tree: Tree, blob: Blob, commit: Commit, tag: Tag)
    ensures
        Tree::try_from_spec(Object::from_spec(tree)) == Ok::<Tree, Object>(tree),
        Blob::try_from_spec(Object::from_spec(blob)) == Ok::<Blob, Object>(blob),
        Commit::try_from_spec(Object::from_spec(commit)) == Ok::<Commit, Object>(commit),
        Tag::try_from_spec(Object::from_spec(tag)) == Ok::<Tag, Object>(tag),
{
}

/// Wrapping a value and then unwrapping it as any other kind fails, and hands
/// back the object as it was passed in.
pub proof fn law_wrong_kind_hands_back(tree: Tree, blob: Blob, commit: Commit, tag: Tag)
    ensures
        Blob::try_from_spec(Object::from_spec(tree)) == Err::<Blob, Object>(Object::from_spec(tree)),
        Commit::try_from_spec(Object::from_spec(tree)) == Err::<Commit, Object>(
            Object::from_spec(tree),
        ),
        Tag::try_from_spec(Object::from_spec(tree)) == Err::<Tag, Object>(Object::from_spec(tree)),
        Tree::try_from_spec(Object::from_spec(blob)) == Err::<Tree, Object>(Object::from_spec(blob)),
        Commit::try_from_spec(Object::from_spec(blob)) == Err::<Commit, Object>(
            Object::from_spec(blob),
        ),
        Tag::try_from_spec(Object::from_spec(blob)) == Err::<Tag, Object>(Object::from_spec(blob)),
        Tree::try_from_spec(Object::from_spec(commit)) == Err::<Tree, Object>(
            Object::from_spec(commit),
        ),
        Blob::try_from_spec(Object::from_spec(commit)) == Err::<Blob, Object>(
            Object::from_spec(commit),
        ),
        Tag::try_from_spec(Object::from_spec(commit)) == Err::<Tag, Object>(
            Object::from_spec(commit),
        ),
        Tree::try_from_spec(Object::from_spec(tag)) == Err::<Tree, Object>(Object::from_spec(tag)),
        Blob::try_from_spec(Object::from_spec(tag)) == Err::<Blob, Object>(Object::from_spec(tag)),
        Commit::try_from_spec(Object::from_spec(tag)) == Err::<Commit, Object>(
            Object::from_spec(tag),
        ),
{
}

/// Writing an object returns what writing the value it holds returns, and
/// writes the same bytes.
pub proof fn law_write_delegates(tree: Tree, blob: Blob, commit: Commit, tag: Tag)
    ensures
        Object::from_spec(tree)@.check() == tree@.check(),
        Object::from_spec(tree)@.encoding() == tree@.encoding(),
        Object::from_spec(blob)@.check() == blob@.check(),
        Object::from_spec(blob)@.encoding() == blob@.encoding(),
        Object::from_spec(commit)@.check() == commit@.check(),
        Object::from_spec(commit)@.encoding() == commit@.encoding(),
        Object::from_spec(tag)@.check() == tag@.check(),
        Object::from_spec(tag)@.encoding() == tag@.encoding(),
{
}

/// Two objects of different kinds are never equal, whatever they hold.
pub proof fn law_different_kinds_differ(a: Object, b: Object)
    requires
        a.kind() != b.kind(),
    ensures
        !a.eq_spec(&b),
        !b.eq_spec(&a),
{
}

/// Two objects of one kind are equal exactly when the values that they hold
/// are equal.
pub proof fn law_same_kind_equal_as_held(
    trees: (Tree, Tree),
    blobs: (Blob, Blob),
    commits: (Commit, Commit),
    tags: (Tag, Tag),
)
    ensures
        Object::Tree(trees.0).eq_spec(&Object::Tree(trees.1)) <==> trees.0.eq_spec(&trees.1),
        Object::Blob(blobs.0).eq_spec(&Object::Blob(blobs.1)) <==> blobs.0.eq_spec(&blobs.1),
        Object::Commit(commits.0).eq_spec(&Object::Commit(commits.1)) <==> commits.0.eq_spec(
            &commits.1,
        ),
        Object::Tag(tags.0).eq_spec(&Object::Tag(tags.1)) <==> tags.0.eq_spec(&tags.1),
{
}

/// Of two objects of different kinds, the one whose kind comes first in
/// `Tree < Blob < Commit < Tag` comes first, whatever they hold.
pub proof fn law_ordered_by_kind_first(a: Object, b: Object)
    requires
        a.kind().rank() < b.kind().rank(),
    ensures
        a.partial_cmp_spec(&b) == Some(Ordering::Less),
        b.partial_cmp_spec(&a) == Some(Ordering::Greater),
{
}

/// Two objects of one kind are ordered as the values that they hold are.
pub proof fn law_same_kind_ordered_as_held(
    trees: (Tree, Tree),
    blobs: (Blob, Blob),
    commits: (Commit, Commit),
    tags: (Tag, Tag),
)
    ensures
        Object::Tree(trees.0).partial_cmp_spec(&Object::Tree(trees.1)) == trees.0.partial_cmp_spec(
            &trees.1,
        ),
        Object::Blob(blobs.0).partial_cmp_spec(&Object::Blob(blobs.1)) == blobs.0.partial_cmp_spec(
            &blobs.1,
        ),
        Object::Commit(commits.0).partial_cmp_spec(&Object::Commit(commits.1))
            == commits.0.partial_cmp_spec(&commits.1),
        Object::Tag(tags.0).partial_cmp_spec(&Object::Tag(tags.1)) == tags.0.partial_cmp_spec(
            &tags.1,
        ),
{
}

/// Two objects are equal exactly when neither comes before the other.
pub proof fn law_equal_where_ordered_equal(a: Object, b: Object)
    ensures
        a.eq_spec(&b) <==> a.partial_cmp_spec(&b) == Some(Ordering::Equal),
{
    a.lemma_equal(&b);
}

/// Any two objects can be compared, and turned round they stand the other
/// way round.
pub proof fn law_order_turns_round(a: Object, b: Object)
    ensures
        a.partial_cmp_spec(&b) is Some,
        a.partial_cmp_spec(&b) == Some(Ordering::Less) <==> b.partial_cmp_spec(&a) == Some(
            Ordering::Greater,
        ),
        a.partial_cmp_spec(&b) == Some(Ordering::Equal) <==> b.partial_cmp_spec(&a) == Some(
            Ordering::Equal,
        ),
{
    a.lemma_reverse(&b);
}

/// The order of objects is transitive: an object that stands `Equal` to
/// another stands to any third as the other does, and where a first comes
/// before a second and the second before a third, the first comes before the
/// third.
pub proof fn law_order_is_transitive(a: Object, b: Object, c: Object)
    ensures
        a.partial_cmp_spec(&b) == Some(Ordering::Equal) ==> a.partial_cmp_spec(&c)
            == b.partial_cmp_spec(&c),
        b.partial_cmp_spec(&c) == Some(Ordering::Equal) ==> a.partial_cmp_spec(&c)
            == a.partial_cmp_spec(&b),
        a.partial_cmp_spec(&b) == Some(Ordering::Less) && b.partial_cmp_spec(&c) == Some(
            Ordering::Less,
        ) ==> a.partial_cmp_spec(&c) == Some(Ordering::Less),
{
    a.lemma_chained(&b, &c);
}

} // verus!
