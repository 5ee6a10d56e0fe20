//! The post record, the identities that own records, the derived storage
//! address, and the field-validation rules shared by create and update.

use vstd::prelude::*;
use vstd::utf8::encode_utf8;
use crate::errors::BlogError;

verus! {

broadcast use vstd::array::group_array_axioms, vstd::slice::group_slice_axioms;

/// Maximum byte length of a post title.
pub const MAX_TITLE_LEN: usize = 100;

/// Maximum byte length of a post's content.
pub const MAX_CONTENT_LEN: usize = 1000;

/// The identity of a principal, as its raw key bytes.
#[derive(Clone, Copy, Debug)]
pub struct Pubkey {
    pub bytes: [u8; 32],
}

impl PartialEq for Pubkey {
    fn eq(&self, other: &Pubkey) -> (r: bool) {
        let mut i: usize = 0;
        while i < 32
            invariant
                i <= 32,
                forall|j: int| 0 <= j < i ==> self.bytes@[j] == other.bytes@[j],
            decreases 32 - i,
        {
            if self.bytes[i] != other.bytes[i] {
                proof {
                    assert(self.bytes@[i as int] != other.bytes@[i as int]);
                }
                return false;
            }
            i += 1;
        }
        proof {
            assert(self.bytes =~= other.bytes);
        }
        true
    }
}

impl vstd::std_specs::cmp::PartialEqSpecImpl for Pubkey {
    open spec fn obeys_eq_spec() -> bool {
        true
    }

    open spec fn eq_spec(&self, other: &Pubkey) -> bool {
        self.bytes == other.bytes
    }
}

/// The length in bytes of the UTF-8 encoding of a text.
pub open spec fn byte_len(t: Seq<char>) -> nat {
    encode_utf8(t).len()
}

/// A text is empty exactly when its UTF-8 encoding is: every character
/// encodes to at least one byte.
pub proof fn lemma_byte_len_empty(t: Seq<char>)
    ensures
        (byte_len(t) == 0) <==> (t.len() == 0),
    decreases t.len(),
{
    if t.len() > 0 {
        lemma_byte_len_empty(t.drop_first());
    }
}

/// A title passes validation: non-empty and at most `MAX_TITLE_LEN` bytes.
pub open spec fn valid_title(t: Seq<char>) -> bool {
    1 <= byte_len(t) && byte_len(t) <= MAX_TITLE_LEN
}

/// A content text passes validation: non-empty and at most
/// `MAX_CONTENT_LEN` bytes.
pub open spec fn valid_content(c: Seq<char>) -> bool {
    1 <= byte_len(c) && byte_len(c) <= MAX_CONTENT_LEN
}

/// The validation verdict over a title and a content text: the first check
/// that fails, in the fixed order empty title, empty content, long title,
/// long content; `None` when both fields pass.
pub open spec fn validate_spec(t: Seq<char>, c: Seq<char>) -> Option<BlogError> {
    if byte_len(t) == 0 {
        Some(BlogError::TitleEmpty)
    } else if byte_len(c) == 0 {
        Some(BlogError::ContentEmpty)
    } else if byte_len(t) > MAX_TITLE_LEN {
        Some(BlogError::TitleTooLong)
    } else if byte_len(c) > MAX_CONTENT_LEN {
        Some(BlogError::ContentTooLong)
    } else {
        None
    }
}

/// Checks a title and a content text against the field rules, reporting the
/// first violation in the fixed order that `validate_spec` gives. Both
/// fields pass exactly when the title is 1 to `MAX_TITLE_LEN` bytes and the
/// content is 1 to `MAX_CONTENT_LEN` bytes.
pub fn validate_fields(title: &str, content: &str) -> (r: Result<(), BlogError>)
    ensures
        match r {
            Ok(()) => validate_spec(title@, content@) is None,
            Err(e) => validate_spec(title@, content@) == Some(e),
        },
        r is Ok <==> valid_title(title@) && valid_content(content@),
{
    proof {
        lemma_byte_len_empty(title@);
        lemma_byte_len_empty(content@);
    }
    if title.is_empty() {
        return Err(BlogError::TitleEmpty);
    }
    if content.is_empty() {
        return Err(BlogError::ContentEmpty);
    }
    if title.as_bytes().len() > MAX_TITLE_LEN {
        return Err(BlogError::TitleTooLong);
    }
    if content.as_bytes().len() > MAX_CONTENT_LEN {
        return Err(BlogError::ContentTooLong);
    }
    Ok(())
}

/// A post record.
#[derive(Debug)]
pub struct Post {
    /// The identity of the principal who created and owns this post.
    pub authority: Pubkey,
    /// Numeric identifier, assigned at creation from the creation time.
    pub post_id: u64,
    /// Display title, 1 to `MAX_TITLE_LEN` bytes, mutable via update.
    pub title: String,
    /// Body text, 1 to `MAX_CONTENT_LEN` bytes, mutable via update.
    pub content: String,
    /// Seconds since epoch when the post was created; immutable.
    pub created_at: i64,
    /// Seconds since epoch of the last successful create or update.
    pub updated_at: i64,
}

/// The mathematical value of a post record.
pub ghost struct PostView {
    pub authority: Pubkey,
    pub post_id: u64,
    pub title: Seq<char>,
    pub content: Seq<char>,
    pub created_at: i64,
    pub updated_at: i64,
}

impl View for Post {
    type V = PostView;

    open spec fn view(&self) -> PostView {
        PostView {
            authority: self.authority,
            post_id: self.post_id,
            title: self.title@,
            content: self.content@,
            created_at: self.created_at,
            updated_at: self.updated_at,
        }
    }
}

/// The record a successful create stores: owned by `authority`, both
/// timestamps and the numeric id taken from the creation time.
pub open spec fn created_view(authority: Pubkey, t: Seq<char>, c: Seq<char>, now: i64) -> PostView {
    PostView {
        authority: authority,
        post_id: now as u64,
        title: t,
        content: c,
        created_at: now,
        updated_at: now,
    }
}

/// The record a successful update leaves behind: new title, content and
/// update time; authority, numeric id and creation time unchanged.
pub open spec fn updated_view(v: PostView, t: Seq<char>, c: Seq<char>, now: i64) -> PostView {
    PostView {
        authority: v.authority,
        post_id: v.post_id,
        title: t,
        content: c,
        created_at: v.created_at,
        updated_at: now,
    }
}

/// The record left by a whole sequence of updates, applied in order.
pub open spec fn apply_updates(v: PostView, updates: Seq<(Seq<char>, Seq<char>, i64)>) -> PostView
    decreases updates.len(),
{
    if updates.len() == 0 {
        v
    } else {
        apply_updates(
            updated_view(v, updates[0].0, updates[0].1, updates[0].2),
            updates.drop_first(),
        )
    }
}

/// However many updates a record goes through, its authority, numeric id
/// and creation time stay what creation set them to; updates touch only the
/// title, the content and the update time.
pub proof fn lemma_updates_preserve_identity(v: PostView, updates: Seq<(Seq<char>, Seq<char>, i64)>)
    ensures
        apply_updates(v, updates).authority == v.authority,
        apply_updates(v, updates).post_id == v.post_id,
        apply_updates(v, updates).created_at == v.created_at,
    decreases updates.len(),
{
    if updates.len() > 0 {
        lemma_updates_preserve_identity(
            updated_view(v, updates[0].0, updates[0].1, updates[0].2),
            updates.drop_first(),
        );
    }
}

/// The storage address of a post: derived once, at creation, from the
/// owner's identity and the title the post was created under. Renaming a
/// post later never moves it; the record stays addressable only by this
/// original pair.
#[derive(Debug)]
pub struct PostAddress {
    /// The identity the address was derived for.
    pub authority: Pubkey,
    /// The title at creation time, baked into the address.
    pub seed_title: String,
}

impl PostAddress {
    /// An independent copy of this address.
    pub fn dup(&self) -> (r: PostAddress)
        ensures
            r@ == self@,
    {
        PostAddress { authority: self.authority, seed_title: self.seed_title.clone() }
    }
}

impl View for PostAddress {
    type V = (Pubkey, Seq<char>);

    open spec fn view(&self) -> (Pubkey, Seq<char>) {
        (self.authority, self.seed_title@)
    }
}

} // verus!
