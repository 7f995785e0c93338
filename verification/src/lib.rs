//! The objects of a content-addressed version-control store (trees, blobs,
//! commits and tags) and [`Object`], one handle that holds any of them.

pub mod blob;
pub mod commit;
mod convert;
pub mod encode;
pub mod id;
pub mod kind;
pub mod laws;
pub mod object;
pub mod order;
pub mod tag;
pub mod tree;

pub use blob::Blob;
pub use commit::Commit;
pub use encode::WriteError;
pub use id::Id;
pub use kind::Kind;
pub use object::Object;
pub use tag::Tag;
pub use tree::{Entry, EntryMode, Tree};
