//! Wrapping a value of one kind into an [`Object`], and unwrapping it again.

use crate::blob::Blob;
use crate::commit::Commit;
use crate::object::Object;
use crate::tag::Tag;
use crate::tree::Tree;
use vstd::prelude::*;
use vstd::std_specs::convert::{FromSpecImpl, TryFromSpecImpl};

verus! {

impl From<Tag> for Object {
    /// Wraps a tag. This cannot fail.
    fn from(v: Tag) -> (r: Self)
        ensures
            r == Object::Tag(v),
    {
        Self::Tag(v)
    }
}

impl FromSpecImpl<Tag> for Object {
    open spec fn obeys_from_spec() -> bool {
        true
    }

    open spec fn from_spec(v: Tag) -> Self {
        Object::Tag(v)
    }
}

impl From<Commit> for Object {
    /// Wraps a commit. This cannot fail.
    fn from(v: Commit) -> (r: Self)
        ensures
            r == Object::Commit(v),
    {
        Self::Commit(v)
    }
}

impl FromSpecImpl<Commit> for Object {
    open spec fn obeys_from_spec() -> bool {
        true
    }

    open spec fn from_spec(v: Commit) -> Self {
        Object::Commit(v)
    }
}

impl From<Tree> for Object {
    /// Wraps a tree. This cannot fail.
    fn from(v: Tree) -> (r: Self)
        ensures
            r == Object::Tree(v),
    {
        Self::Tree(v)
    }
}

impl FromSpecImpl<Tree> for Object {
    open spec fn obeys_from_spec() -> bool {
        true
    }

    open spec fn from_spec(v: Tree) -> Self {
        Object::Tree(v)
    }
}

impl From<Blob> for Object {
    /// Wraps a blob. This cannot fail.
    fn from(v: Blob) -> (r: Self)
        ensures
            r == Object::Blob(v),
    {
        Self::Blob(v)
    }
}

impl FromSpecImpl<Blob> for Object {
    open spec fn obeys_from_spec() -> bool {
        true
    }

    open spec fn from_spec(v: Blob) -> Self {
        Object::Blob(v)
    }
}

impl TryFrom<Object> for Tag {
    type Error = Object;

    /// Unwraps the tag that `value` holds, or hands `value` back as it was
    /// where it holds something else.
    fn try_from(value: Object) -> (r: Result<Self, Object>)
        ensures
            value is Tag ==> r == Ok::<Tag, Object>(value->Tag_0),
            !(value is Tag) ==> r == Err::<Tag, Object>(value),
    {
        Ok(
            match value {
                Object::Tag(v) => v,
                _ => return Err(value),
            },
        )
    }
}

impl TryFromSpecImpl<Object> for Tag {
    open spec fn obeys_try_from_spec() -> bool {
        true
    }

    open spec fn try_from_spec(value: Object) -> Result<Self, Object> {
        match value {
            Object::Tag(v) => Ok(v),
            _ => Err(value),
        }
    }
}

impl TryFrom<Object> for Commit {
    type Error = Object;

    /// Unwraps the commit that `value` holds, or hands `value` back as it was
    /// where it holds something else.
    fn try_from(value: Object) -> (r: Result<Self, Object>)
        ensures
            value is Commit ==> r == Ok::<Commit, Object>(value->Commit_0),
            !(value is Commit) ==> r == Err::<Commit, Object>(value),
    {
        Ok(
            match value {
                Object::Commit(v) => v,
                _ => return Err(value),
            },
        )
    }
}

impl TryFromSpecImpl<Object> for Commit {
    open spec fn obeys_try_from_spec() -> bool {
        true
    }

    open spec fn try_from_spec(value: Object) -> Result<Self, Object> {
        match value {
            Object::Commit(v) => Ok(v),
            _ => Err(value),
        }
    }
}

impl TryFrom<Object> for Tree {
    type Error = Object;

    /// Unwraps the tree that `value` holds, or hands `value` back as it was
    /// where it holds something else.
    fn try_from(value: Object) -> (r: Result<Self, Object>)
        ensures
            value is Tree ==> r == Ok::<Tree, Object>(value->Tree_0),
            !(value is Tree) ==> r == Err::<Tree, Object>(value),
    {
        Ok(
            match value {
                Object::Tree(v) => v,
                _ => return Err(value),
            },
        )
    }
}

impl TryFromSpecImpl<Object> for Tree {
    open spec fn obeys_try_from_spec() -> bool {
        true
    }

    open spec fn try_from_spec(value: Object) -> Result<Self, Object> {
        match value {
            Object::Tree(v) => Ok(v),
            _ => Err(value),
        }
    }
}

impl TryFrom<Object> for Blob {
    type Error = Object;

    /// Unwraps the blob that `value` holds, or hands `value` back as it was
    /// where it holds something else.
    fn try_from(value: Object) -> (r: Result<Self, Object>)
        ensures
            value is Blob ==> r == Ok::<Blob, Object>(value->Blob_0),
            !(value is Blob) ==> r == Err::<Blob, Object>(value),
    {
        Ok(
            match value {
                Object::Blob(v) => v,
                _ => return Err(value),
            },
        )
    }
}

impl TryFromSpecImpl<Object> for Blob {
    open spec fn obeys_try_from_spec() -> bool {
        true
    }

    open spec fn try_from_spec(value: Object) -> Result<Self, Object> {
        match value {
            Object::Blob(v) => Ok(v),
            _ => Err(value),
        }
    }
}

} // verus!
