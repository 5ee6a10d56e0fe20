//! Notification events, one emitted by each successful state transition.

use vstd::prelude::*;
use crate::state::{PostAddress, Pubkey};

verus! {

/// Emitted when a post is created.
#[derive(Debug)]
pub struct CreatePostEvent {
    /// The storage address of the new record.
    pub post: PostAddress,
    /// The identity that created and owns the record.
    pub authority: Pubkey,
    /// The numeric id assigned to the record.
    pub post_id: u64,
    /// The title the record was created with.
    pub title: String,
    /// The creation time, seconds since epoch.
    pub created_at: i64,
}

/// Emitted when a post is updated.
#[derive(Debug)]
pub struct UpdatePostEvent {
    /// The storage address of the updated record.
    pub post: PostAddress,
    /// The identity that owns the record.
    pub authority: Pubkey,
    /// The title the record now carries.
    pub title: String,
    /// The update time, seconds since epoch.
    pub updated_at: i64,
}

/// Emitted when a post is deleted, carrying the removed record's id.
#[derive(Debug)]
pub struct DeletePostEvent {
    /// The storage address the record was removed from.
    pub post: PostAddress,
    /// The identity that owned the record.
    pub authority: Pubkey,
    /// The numeric id of the removed record.
    pub post_id: u64,
}

} // verus!
