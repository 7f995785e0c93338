use git_object::{Blob, Commit, Entry, EntryMode, Id, Kind, Object, Tag, Tree, WriteError};
use std::collections::hash_map::DefaultHasher;
use std::hash::{Hash, Hasher};

fn id(fill: u8) -> Id {
    Id { bytes: [fill; 20] }
}

fn sample_blob() -> Blob {
    Blob { data: b"hello".to_vec() }
}

fn sample_tree() -> Tree {
    Tree {
        entries: vec![
            Entry { mode: EntryMode::Blob, filename: b"a.txt".to_vec(), oid: id(0x11) },
            Entry { mode: EntryMode::Tree, filename: b"src".to_vec(), oid: id(0xab) },
        ],
    }
}

fn sample_commit() -> Commit {
    Commit {
        tree: id(0x01),
        parents: vec![id(0x02), id(0x03)],
        author: b"A U Thor <author@example.com> 1600000000 +0200".to_vec(),
        committer: b"C O Mitter <committer@example.com> 1600000001 -0130".to_vec(),
        message: b"subject\n\nbody\n".to_vec(),
    }
}

fn sample_tag() -> Tag {
    Tag {
        target: id(0x0f),
        target_kind: Kind::Commit,
        name: b"v1.0".to_vec(),
        tagger: b"T Agger <tagger@example.com> 1600000002 +0000".to_vec(),
        message: b"release\n".to_vec(),
    }
}

fn all_objects() -> Vec<Object> {
    vec![
        Object::Tree(sample_tree()),
        Object::Blob(sample_blob()),
        Object::Commit(sample_commit()),
        Object::Tag(sample_tag()),
    ]
}

fn hash_of(object: &Object) -> u64 {
    let mut hasher = DefaultHasher::new();
    object.hash(&mut hasher);
    hasher.finish()
}

#[test]
fn wrapped_blob_is_a_blob_and_nothing_else() {
    let object = Object::from(Blob { data: b"hello".to_vec() });
    assert_eq!(object.kind(), Kind::Blob);
    assert_eq!(object.as_blob().map(|b| b.data.as_slice()), Some(&b"hello"[..]));
    assert!(object.as_tree().is_none());
    assert!(object.as_commit().is_none());
    assert!(object.as_tag().is_none());
}

#[test]
fn wrapped_commit_refuses_to_be_a_tag_and_comes_back_whole() {
    let commit = sample_commit();
    let object = Object::from(commit.clone());
    let object = match Tag::try_from(object) {
        Ok(_) => panic!("a commit was unwrapped as a tag"),
        Err(handed_back) => handed_back,
    };
    assert_eq!(object, Object::Commit(commit.clone()));
    assert_eq!(object.as_commit(), Some(&commit));
    assert_eq!(Commit::try_from(object), Ok(commit));
}

#[test]
fn wrapped_tree_writes_what_the_tree_writes() {
    let tree = sample_tree();
    let mut alone = Vec::new();
    assert_eq!(tree.write_to(&mut alone), Ok(()));
    let mut wrapped = Vec::new();
    assert_eq!(Object::from(tree).write_to(&mut wrapped), Ok(()));
    assert_eq!(wrapped, alone);
    let mut expected = Vec::new();
    expected.extend_from_slice(b"100644 a.txt\0");
    expected.extend_from_slice(&[0x11; 20]);
    expected.extend_from_slice(b"40000 src\0");
    expected.extend_from_slice(&[0xab; 20]);
    assert_eq!(wrapped, expected);
}

#[test]
fn wrap_then_borrow_tree() {
    let value = sample_tree();
    let object = Object::from(value.clone());
    assert_eq!(object.as_tree(), Some(&value));
    assert_eq!(object.as_blob(), None);
    assert_eq!(object.as_commit(), None);
    assert_eq!(object.as_tag(), None);
}

#[test]
fn wrap_then_borrow_blob() {
    let value = sample_blob();
    let object = Object::from(value.clone());
    assert_eq!(object.as_blob(), Some(&value));
    assert_eq!(object.as_tree(), None);
    assert_eq!(object.as_commit(), None);
    assert_eq!(object.as_tag(), None);
}

#[test]
fn wrap_then_borrow_commit() {
    let value = sample_commit();
    let object = Object::from(value.clone());
    assert_eq!(object.as_commit(), Some(&value));
    assert_eq!(object.as_tree(), None);
    assert_eq!(object.as_blob(), None);
    assert_eq!(object.as_tag(), None);
}

#[test]
fn wrap_then_borrow_tag() {
    let value = sample_tag();
    let object = Object::from(value.clone());
    assert_eq!(object.as_tag(), Some(&value));
    assert_eq!(object.as_tree(), None);
    assert_eq!(object.as_blob(), None);
    assert_eq!(object.as_commit(), None);
}

#[test]
fn borrowing_leaves_the_object_as_it_was() {
    let object = Object::from(sample_tag());
    let before = object.clone();
    let _ = object.as_tag();
    let _ = object.as_blob();
    let _ = object.kind();
    assert_eq!(object, before);
}

#[test]
fn wrap_then_kind() {
    assert_eq!(Object::from(sample_tree()).kind(), Kind::Tree);
    assert_eq!(Object::from(sample_blob()).kind(), Kind::Blob);
    assert_eq!(Object::from(sample_commit()).kind(), Kind::Commit);
    assert_eq!(Object::from(sample_tag()).kind(), Kind::Tag);
}

#[test]
fn wrapping_picks_the_variant_of_the_value() {
    assert_eq!(Object::from(sample_tree()), Object::Tree(sample_tree()));
    assert_eq!(Object::from(sample_blob()), Object::Blob(sample_blob()));
    assert_eq!(Object::from(sample_commit()), Object::Commit(sample_commit()));
    assert_eq!(Object::from(sample_tag()), Object::Tag(sample_tag()));
    let through_into: Object = sample_blob().into();
    assert_eq!(through_into, Object::Blob(sample_blob()));
}

#[test]
fn round_trip_gives_the_value_back() {
    assert_eq!(Tree::try_from(Object::from(sample_tree())), Ok(sample_tree()));
    assert_eq!(Blob::try_from(Object::from(sample_blob())), Ok(sample_blob()));
    assert_eq!(Commit::try_from(Object::from(sample_commit())), Ok(sample_commit()));
    assert_eq!(Tag::try_from(Object::from(sample_tag())), Ok(sample_tag()));
}

#[test]
fn round_trip_keeps_every_field() {
    let commit = Commit::try_from(Object::from(sample_commit())).unwrap();
    assert_eq!(commit.tree, id(0x01));
    assert_eq!(commit.parents, vec![id(0x02), id(0x03)]);
    assert_eq!(commit.author, b"A U Thor <author@example.com> 1600000000 +0200".to_vec());
    assert_eq!(commit.committer, b"C O Mitter <committer@example.com> 1600000001 -0130".to_vec());
    assert_eq!(commit.message, b"subject\n\nbody\n".to_vec());
    let tag = Tag::try_from(Object::from(sample_tag())).unwrap();
    assert_eq!(tag.target, id(0x0f));
    assert_eq!(tag.target_kind, Kind::Commit);
    assert_eq!(tag.name, b"v1.0".to_vec());
    assert_eq!(tag.tagger, b"T Agger <tagger@example.com> 1600000002 +0000".to_vec());
    assert_eq!(tag.message, b"release\n".to_vec());
}

#[test]
fn round_trip_of_empty_values() {
    let blob = Blob { data: Vec::new() };
    assert_eq!(Blob::try_from(Object::from(blob.clone())), Ok(blob));
    let tree = Tree { entries: Vec::new() };
    assert_eq!(Tree::try_from(Object::from(tree.clone())), Ok(tree));
}

#[test]
fn unwrapping_a_tree_as_another_kind_hands_it_back() {
    let object = Object::from(sample_tree());
    assert_eq!(Blob::try_from(object.clone()), Err(object.clone()));
    assert_eq!(Commit::try_from(object.clone()), Err(object.clone()));
    assert_eq!(Tag::try_from(object.clone()), Err(object));
}

#[test]
fn unwrapping_a_blob_as_another_kind_hands_it_back() {
    let object = Object::from(sample_blob());
    assert_eq!(Tree::try_from(object.clone()), Err(object.clone()));
    assert_eq!(Commit::try_from(object.clone()), Err(object.clone()));
    assert_eq!(Tag::try_from(object.clone()), Err(object));
}

#[test]
fn unwrapping_a_commit_as_another_kind_hands_it_back() {
    let object = Object::from(sample_commit());
    assert_eq!(Tree::try_from(object.clone()), Err(object.clone()));
    assert_eq!(Blob::try_from(object.clone()), Err(object.clone()));
    assert_eq!(Tag::try_from(object.clone()), Err(object));
}

#[test]
fn unwrapping_a_tag_as_another_kind_hands_it_back() {
    let object = Object::from(sample_tag());
    assert_eq!(Tree::try_from(object.clone()), Err(object.clone()));
    assert_eq!(Blob::try_from(object.clone()), Err(object.clone()));
    assert_eq!(Commit::try_from(object.clone()), Err(object));
}

#[test]
fn failed_unwrapping_can_be_tried_again_without_a_copy() {
    let object = Object::from(sample_tag());
    let object = Tree::try_from(object).unwrap_err();
    let object = Blob::try_from(object).unwrap_err();
    let object = Commit::try_from(object).unwrap_err();
    assert_eq!(object.kind(), Kind::Tag);
    assert_eq!(Tag::try_from(object), Ok(sample_tag()));
}

#[test]
fn writing_an_object_writes_what_the_value_held_writes() {
    let mut alone = Vec::new();
    let mut wrapped = Vec::new();

    assert_eq!(sample_blob().write_to(&mut alone), Ok(()));
    assert_eq!(Object::from(sample_blob()).write_to(&mut wrapped), Ok(()));
    assert_eq!(wrapped, alone);
    assert_eq!(wrapped, b"hello".to_vec());

    alone.clear();
    wrapped.clear();
    assert_eq!(sample_commit().write_to(&mut alone), Ok(()));
    assert_eq!(Object::from(sample_commit()).write_to(&mut wrapped), Ok(()));
    assert_eq!(wrapped, alone);
    assert!(!wrapped.is_empty());

    alone.clear();
    wrapped.clear();
    assert_eq!(sample_tag().write_to(&mut alone), Ok(()));
    assert_eq!(Object::from(sample_tag()).write_to(&mut wrapped), Ok(()));
    assert_eq!(wrapped, alone);
    assert!(!wrapped.is_empty());
}

#[test]
fn writing_an_object_adds_nothing_around_the_value() {
    let mut out = b"before".to_vec();
    assert_eq!(Object::from(sample_blob()).write_to(&mut out), Ok(()));
    assert_eq!(out, b"beforehello".to_vec());
    assert_eq!(Object::from(Blob { data: Vec::new() }).write_to(&mut out), Ok(()));
    assert_eq!(out, b"beforehello".to_vec());
}

#[test]
fn writing_an_object_fails_as_the_value_held_fails() {
    let tree = Tree {
        entries: vec![Entry { mode: EntryMode::Blob, filename: b"a\0b".to_vec(), oid: id(1) }],
    };
    let mut alone = b"kept".to_vec();
    let mut wrapped = b"kept".to_vec();
    assert_eq!(tree.write_to(&mut alone), Err(WriteError::NulInName));
    assert_eq!(Object::from(tree).write_to(&mut wrapped), Err(WriteError::NulInName));
    assert_eq!(wrapped, alone);
    assert_eq!(wrapped, b"kept".to_vec());

    let mut commit = sample_commit();
    commit.author = b"two\nlines".to_vec();
    assert_eq!(commit.write_to(&mut alone), Err(WriteError::LineFeedInHeader));
    assert_eq!(Object::from(commit).write_to(&mut wrapped), Err(WriteError::LineFeedInHeader));
    assert_eq!(wrapped, b"kept".to_vec());

    let mut tag = sample_tag();
    tag.name = b"v1\n".to_vec();
    assert_eq!(tag.write_to(&mut alone), Err(WriteError::LineFeedInHeader));
    assert_eq!(Object::from(tag).write_to(&mut wrapped), Err(WriteError::LineFeedInHeader));
    assert_eq!(wrapped, b"kept".to_vec());
}

#[test]
fn objects_of_different_kinds_are_never_equal() {
    let objects = all_objects();
    for (i, a) in objects.iter().enumerate() {
        for (j, b) in objects.iter().enumerate() {
            assert_eq!(a == b, i == j);
            assert_eq!(a != b, i != j);
        }
    }
}

#[test]
fn objects_of_different_kinds_differ_even_where_they_hold_nothing() {
    let empty_tree = Object::Tree(Tree { entries: Vec::new() });
    let empty_blob = Object::Blob(Blob { data: Vec::new() });
    assert_ne!(empty_tree, empty_blob);
    assert_ne!(empty_blob, empty_tree);
}

#[test]
fn objects_of_one_kind_are_equal_as_the_values_held() {
    let hello = Blob { data: b"hello".to_vec() };
    let again = Blob { data: b"hello".to_vec() };
    let other = Blob { data: b"hellp".to_vec() };
    assert!(hello == again);
    assert!(Object::Blob(hello.clone()) == Object::Blob(again));
    assert!(hello != other);
    assert!(Object::Blob(hello) != Object::Blob(other));

    let mut changed = sample_commit();
    changed.parents.pop();
    assert!(sample_commit() != changed);
    assert!(Object::Commit(sample_commit()) != Object::Commit(changed));
    assert!(Object::Commit(sample_commit()) == Object::Commit(sample_commit()));

    let mut renamed = sample_tag();
    renamed.target_kind = Kind::Tree;
    assert!(Object::Tag(sample_tag()) != Object::Tag(renamed));
    assert!(Object::Tag(sample_tag()) == Object::Tag(sample_tag()));

    let mut regrown = sample_tree();
    regrown.entries[1].mode = EntryMode::Commit;
    assert!(Object::Tree(sample_tree()) != Object::Tree(regrown));
    assert!(Object::Tree(sample_tree()) == Object::Tree(sample_tree()));
}

#[test]
fn equal_objects_hash_alike() {
    for object in all_objects() {
        assert_eq!(hash_of(&object), hash_of(&object.clone()));
    }
    assert_ne!(
        hash_of(&Object::Tree(Tree { entries: Vec::new() })),
        hash_of(&Object::Blob(Blob { data: Vec::new() }))
    );
}

#[test]
fn objects_are_ordered_by_kind_first() {
    let objects = all_objects();
    for (i, a) in objects.iter().enumerate() {
        for (j, b) in objects.iter().enumerate() {
            assert_eq!(a.partial_cmp(b), Some(i.cmp(&j)));
            assert_eq!(a.cmp(b), i.cmp(&j));
            assert_eq!(a < b, i < j);
            assert_eq!(a >= b, i >= j);
        }
    }
}

#[test]
fn kind_decides_before_what_is_held() {
    let large_tree = Object::Tree(Tree {
        entries: vec![Entry { mode: EntryMode::Commit, filename: vec![0xff; 8], oid: id(0xff) }],
    });
    let small_blob = Object::Blob(Blob { data: Vec::new() });
    let small_commit = Object::Commit(Commit {
        tree: id(0),
        parents: Vec::new(),
        author: Vec::new(),
        committer: Vec::new(),
        message: Vec::new(),
    });
    let small_tag = Object::Tag(Tag {
        target: id(0),
        target_kind: Kind::Tree,
        name: Vec::new(),
        tagger: Vec::new(),
        message: Vec::new(),
    });
    assert!(large_tree < small_blob);
    assert!(small_blob < small_commit);
    assert!(small_commit < small_tag);
    assert!(large_tree < small_tag);
    assert!(small_tag > large_tree);
}

#[test]
fn objects_of_one_kind_are_ordered_as_the_values_held() {
    let a = Blob { data: b"abc".to_vec() };
    let b = Blob { data: b"abd".to_vec() };
    assert_eq!(a.partial_cmp(&b), Some(std::cmp::Ordering::Less));
    assert_eq!(
        Object::Blob(a.clone()).partial_cmp(&Object::Blob(b.clone())),
        Some(std::cmp::Ordering::Less)
    );
    assert_eq!(
        Object::Blob(b.clone()).partial_cmp(&Object::Blob(a.clone())),
        Some(std::cmp::Ordering::Greater)
    );
    assert_eq!(
        Object::Blob(a.clone()).partial_cmp(&Object::Blob(a.clone())),
        Some(std::cmp::Ordering::Equal)
    );
    assert_eq!(Object::Blob(a.clone()).cmp(&Object::Blob(b.clone())), a.cmp(&b));
}

#[test]
fn sorting_puts_kinds_in_their_fixed_order() {
    let mut objects = all_objects();
    objects.reverse();
    objects.push(Object::Blob(Blob { data: b"a".to_vec() }));
    objects.sort();
    let kinds: Vec<Kind> = objects.iter().map(|o| o.kind()).collect();
    assert_eq!(kinds, vec![Kind::Tree, Kind::Blob, Kind::Blob, Kind::Commit, Kind::Tag]);
    assert_eq!(objects[1], Object::Blob(Blob { data: b"a".to_vec() }));
    assert_eq!(objects[2], Object::Blob(sample_blob()));
}

#[test]
fn kinds_stand_in_their_fixed_order() {
    let kinds = [Kind::Tree, Kind::Blob, Kind::Commit, Kind::Tag];
    for (i, a) in kinds.iter().enumerate() {
        assert_eq!(a.position() as usize, i);
        for (j, b) in kinds.iter().enumerate() {
            assert_eq!(a.partial_cmp(b), Some(i.cmp(&j)));
            assert_eq!(a.cmp(b), i.cmp(&j));
            assert_eq!(a == b, i == j);
        }
    }
}
