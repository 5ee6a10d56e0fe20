//! Error kinds reported by the store's entry points.

use vstd::prelude::*;

verus! {

/// A field-validation failure: some supplied title or content text is
/// empty or exceeds its maximum byte length.
#[derive(Clone, Copy, Debug, PartialEq, Eq, Structural)]
pub enum BlogError {
    /// The title exceeds its maximum byte length.
    TitleTooLong,
    /// The content exceeds its maximum byte length.
    ContentTooLong,
    /// The title is empty.
    TitleEmpty,
    /// The content is empty.
    ContentEmpty,
    /// Reserved for arithmetic overflow in numeric fields; no current
    /// operation reports it.
    Overflow,
}

impl BlogError {
    /// The human-readable description of this error kind.
    pub fn message(&self) -> (m: &'static str)
        ensures
            m@ == match *self {
                BlogError::TitleTooLong => "Title is too long (max 100 characters)"@,
                BlogError::ContentTooLong => "Content is too long (max 1000 characters)"@,
                BlogError::TitleEmpty => "Title cannot be empty"@,
                BlogError::ContentEmpty => "Content cannot be empty"@,
                BlogError::Overflow => "Overflow occurred"@,
            },
    {
        match *self {
            BlogError::TitleTooLong => "Title is too long (max 100 characters)",
            BlogError::ContentTooLong => "Content is too long (max 1000 characters)",
            BlogError::TitleEmpty => "Title cannot be empty",
            BlogError::ContentEmpty => "Content cannot be empty",
            BlogError::Overflow => "Overflow occurred",
        }
    }
}

/// A failure of one of the store's entry points: either the storage layer
/// refuses the request (missing or occupied location, ownership mismatch)
/// or the supplied fields fail validation.
#[derive(Clone, Copy, Debug, PartialEq, Eq, Structural)]
pub enum StoreError {
    /// The derived storage location already holds a record.
    AlreadyExists,
    /// The addressed storage location holds no record.
    NotFound,
    /// The caller is not the record's authority.
    Unauthorized,
    /// A title or content field failed validation.
    Validation(BlogError),
}

} // verus!
