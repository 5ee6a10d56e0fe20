//! The post store: records held at addresses derived from their owner and
//! creation-time title, with validated create, update and delete
//! transitions that each yield one notification event.

use vstd::prelude::*;
use crate::errors::{BlogError, StoreError};
use crate::events::{CreatePostEvent, DeletePostEvent, UpdatePostEvent};
use crate::state::{
    created_view, updated_view, validate_fields, validate_spec, Post, PostAddress, PostView,
    Pubkey,
};

verus! {

/// The key a storage address stands for.
pub type AddressKey = (Pubkey, Seq<char>);

spec fn has_key(s: Seq<(PostAddress, Post)>, k: AddressKey) -> bool {
    exists|i: int| 0 <= i < s.len() && s[i].0@ == k
}

spec fn key_index(s: Seq<(PostAddress, Post)>, k: AddressKey) -> int {
    choose|i: int| 0 <= i < s.len() && s[i].0@ == k
}

spec fn entries_distinct(s: Seq<(PostAddress, Post)>) -> bool {
    forall|i: int, j: int| 0 <= i < j < s.len() ==> s[i].0@ != s[j].0@
}

spec fn entries_map(s: Seq<(PostAddress, Post)>) -> Map<AddressKey, PostView> {
    Map::new(|k: AddressKey| has_key(s, k), |k: AddressKey| s[key_index(s, k)].1@)
}

proof fn lemma_key_index(s: Seq<(PostAddress, Post)>, k: AddressKey)
    requires
        entries_distinct(s),
        has_key(s, k),
    ensures
        0 <= key_index(s, k) < s.len(),
        s[key_index(s, k)].0@ == k,
        forall|j: int| 0 <= j < s.len() && s[j].0@ == k ==> j == key_index(s, k),
{
    let i = key_index(s, k);
    assert(0 <= i < s.len() && s[i].0@ == k);
    assert forall|j: int| 0 <= j < s.len() && s[j].0@ == k implies j == i by {
        if j < i {
            assert(s[j].0@ != s[i].0@);
        } else if i < j {
            assert(s[i].0@ != s[j].0@);
        }
    }
}

proof fn lemma_map_push(s: Seq<(PostAddress, Post)>, e: (PostAddress, Post))
    requires
        entries_distinct(s),
        !has_key(s, e.0@),
    ensures
        entries_distinct(s.push(e)),
        entries_map(s.push(e)) == entries_map(s).insert(e.0@, e.1@),
{
    let t = s.push(e);
    assert forall|i: int, j: int| 0 <= i < j < t.len() implies t[i].0@ != t[j].0@ by {
        if j < s.len() {
            assert(s[i].0@ != s[j].0@);
        } else {
            assert(t[j] == e);
            assert(t[i] == s[i]);
            assert(s[i].0@ != e.0@);
        }
    }
    assert forall|k: AddressKey| #[trigger] has_key(t, k) implies has_key(s, k) || k == e.0@ by {
        let i = choose|i: int| 0 <= i < t.len() && t[i].0@ == k;
        if i < s.len() {
            assert(s[i].0@ == k);
        } else {
            assert(t[i] == e);
        }
    }
    assert forall|k: AddressKey| has_key(s, k) implies #[trigger] has_key(t, k) by {
        let i = choose|i: int| 0 <= i < s.len() && s[i].0@ == k;
        assert(t[i].0@ == k);
    }
    assert(has_key(t, e.0@)) by {
        assert(t[s.len() as int].0@ == e.0@);
    }
    assert forall|k: AddressKey| has_key(t, k) implies #[trigger] entries_map(t)[k]
        == entries_map(s).insert(e.0@, e.1@)[k] by {
        lemma_key_index(t, k);
        let i = key_index(t, k);
        if k == e.0@ {
            assert(t[s.len() as int].0@ == k);
            assert(i == s.len());
            assert(t[i].1@ == e.1@);
        } else {
            assert(t[i] == s[i]);
            lemma_key_index(s, k);
            assert(key_index(s, k) == i);
        }
    }
    assert(entries_map(t) =~= entries_map(s).insert(e.0@, e.1@));
}

proof fn lemma_map_remove_at(s: Seq<(PostAddress, Post)>, i: int)
    requires
        entries_distinct(s),
        0 <= i < s.len(),
    ensures
        entries_distinct(s.remove(i)),
        !has_key(s.remove(i), s[i].0@),
        entries_map(s.remove(i)) == entries_map(s).remove(s[i].0@),
{
    let t = s.remove(i);
    s.remove_ensures(i);
    let k0 = s[i].0@;
    assert forall|a: int, b: int| 0 <= a < b < t.len() implies t[a].0@ != t[b].0@ by {
        let a0: int = if a < i { a } else { a + 1 };
        let b0: int = if b < i { b } else { b + 1 };
        assert(t[a] == s[a0]);
        assert(t[b] == s[b0]);
        assert(s[a0].0@ != s[b0].0@);
    }
    assert forall|j: int| 0 <= j < t.len() implies t[j].0@ != k0 by {
        let j0: int = if j < i { j } else { j + 1 };
        assert(t[j] == s[j0]);
        assert(j0 != i);
        if j0 < i {
            assert(s[j0].0@ != s[i].0@);
        } else {
            assert(s[i].0@ != s[j0].0@);
        }
    }
    assert forall|k: AddressKey| #[trigger] has_key(t, k) implies has_key(s, k) && k != k0 by {
        let j = choose|j: int| 0 <= j < t.len() && t[j].0@ == k;
        let j0: int = if j < i { j } else { j + 1 };
        assert(t[j] == s[j0]);
        assert(s[j0].0@ == k);
    }
    assert forall|k: AddressKey| has_key(s, k) && k != k0 implies #[trigger] has_key(t, k) by {
        let j = choose|j: int| 0 <= j < s.len() && s[j].0@ == k;
        assert(j != i);
        let j1: int = if j < i { j } else { j - 1 };
        assert(t[j1] == s[j]);
        assert(t[j1].0@ == k);
    }
    assert forall|k: AddressKey| has_key(t, k) implies #[trigger] entries_map(t)[k]
        == entries_map(s)[k] by {
        lemma_key_index(t, k);
        lemma_key_index(s, k);
        let j = key_index(t, k);
        let j0: int = if j < i { j } else { j + 1 };
        assert(t[j] == s[j0]);
        assert(s[j0].0@ == k);
        assert(key_index(s, k) == j0);
    }
    assert(entries_map(t) =~= entries_map(s).remove(k0));
}

/// The accounts a create request names: the signing identity that will own
/// the new record and pay for its storage.
pub struct CreatePost {
    /// The caller; becomes the record's authority.
    pub authority: Pubkey,
}

/// The accounts an update request names: the signing caller and the
/// address of the record to rewrite.
pub struct UpdatePost {
    /// The caller; must equal the stored record's authority.
    pub authority: Pubkey,
    /// The address of the record to update.
    pub post: PostAddress,
}

/// The accounts a delete request names: the signing caller and the
/// address of the record to remove.
pub struct DeletePost {
    /// The caller; must equal the stored record's authority.
    pub authority: Pubkey,
    /// The address of the record to remove.
    pub post: PostAddress,
}

/// A store of post records, one per derived address. Each operation is a
/// single all-or-nothing transition: it either applies in full and returns
/// the event it emits, or changes nothing and returns the error.
pub struct PostStore {
    entries: Vec<(PostAddress, Post)>,
}

impl View for PostStore {
    type V = Map<AddressKey, PostView>;

    closed spec fn view(&self) -> Map<AddressKey, PostView> {
        entries_map(self.entries@)
    }
}

impl PostStore {
    /// The store's records sit at pairwise-distinct addresses.
    pub closed spec fn wf(&self) -> bool {
        entries_distinct(self.entries@)
    }

    /// An empty store.
    pub fn new() -> (s: PostStore)
        ensures
            s.wf(),
            s@ == Map::<AddressKey, PostView>::empty(),
    {
        let s = PostStore { entries: Vec::new() };
        proof {
            assert(s@ =~= Map::<AddressKey, PostView>::empty());
        }
        s
    }

    fn find_index(&self, authority: &Pubkey, seed_title: &String) -> (r: Option<usize>)
        ensures
            match r {
                Some(i) => 0 <= i < self.entries@.len() && self.entries@[i as int].0@ == (
                    *authority,
                    seed_title@,
                ),
                None => !has_key(self.entries@, (*authority, seed_title@)),
            },
    {
        let n = self.entries.len();
        let mut i: usize = 0;
        while i < n
            invariant
                i <= n,
                n == self.entries@.len(),
                forall|j: int| 0 <= j < i ==> self.entries@[j].0@ != (*authority, seed_title@),
            decreases n - i,
        {
            let e = &self.entries[i];
            if e.0.authority == *authority && e.0.seed_title == *seed_title {
                return Some(i);
            }
            i += 1;
        }
        None
    }

    /// The record at the given address, if that address resolves to one.
    pub fn get_post(&self, address: &PostAddress) -> (r: Option<&Post>)
        requires
            self.wf(),
        ensures
            match r {
                Some(p) => self@.dom().contains(address@) && p@ == self@[address@],
                None => !self@.dom().contains(address@),
            },
    {
        match self.find_index(&address.authority, &address.seed_title) {
            Some(i) => {
                proof {
                    lemma_key_index(self.entries@, address@);
                }
                Some(&self.entries[i].1)
            },
            None => None,
        }
    }

    /// Creates a record at the address derived from the caller and the
    /// title. Fails, writing nothing, when that address already holds a
    /// record or when a field fails validation; otherwise stores the new
    /// record and returns the creation event.
    pub fn create_post(&mut self, ctx: CreatePost, title: String, content: String, now: i64) -> (r:
        Result<CreatePostEvent, StoreError>)
        requires
            old(self).wf(),
            0 <= now,
        ensures
            final(self).wf(),
            ({
                let k = (ctx.authority, title@);
                match r {
                    Ok(ev) => {
                        &&& !old(self)@.dom().contains(k)
                        &&& validate_spec(title@, content@) is None
                        &&& final(self)@ == old(self)@.insert(
                            k,
                            created_view(ctx.authority, title@, content@, now),
                        )
                        &&& ev.post@ == k
                        &&& ev.authority == ctx.authority
                        &&& ev.post_id == now as u64
                        &&& ev.title@ == title@
                        &&& ev.created_at == now
                    },
                    Err(StoreError::AlreadyExists) => final(self)@ == old(self)@ && old(
                        self,
                    )@.dom().contains(k),
                    Err(StoreError::Validation(e)) => final(self)@ == old(self)@ && !old(
                        self,
                    )@.dom().contains(k) && validate_spec(title@, content@) == Some(e),
                    Err(_) => false,
                }
            }),
    {
        if self.find_index(&ctx.authority, &title).is_some() {
            return Err(StoreError::AlreadyExists);
        }
        match validate_fields(title.as_str(), content.as_str()) {
            Err(e) => {
                return Err(StoreError::Validation(e));
            },
            Ok(()) => {},
        }
        let post_id = now as u64;
        let addr = PostAddress { authority: ctx.authority, seed_title: title.clone() };
        let event_addr = addr.dup();
        let post = Post {
            authority: ctx.authority,
            post_id,
            title: title.clone(),
            content,
            created_at: now,
            updated_at: now,
        };
        proof {
            lemma_map_push(self.entries@, (addr, post));
        }
        self.entries.push((addr, post));
        Ok(
            CreatePostEvent {
                post: event_addr,
                authority: ctx.authority,
                post_id,
                title,
                created_at: now,
            },
        )
    }

    /// Rewrites the title, content and update time of the record at the
    /// addressed location, leaving its authority, numeric id and creation
    /// time untouched; the record stays at its address even when the title
    /// changes. Fails, changing nothing, when the address holds no record,
    /// the caller is not the record's authority, or a field fails
    /// validation.
    pub fn update_post(&mut self, ctx: UpdatePost, title: String, content: String, now: i64) -> (r:
        Result<UpdatePostEvent, StoreError>)
        requires
            old(self).wf(),
        ensures
            final(self).wf(),
            ({
                let k = ctx.post@;
                match r {
                    Ok(ev) => {
                        &&& old(self)@.dom().contains(k)
                        &&& old(self)@[k].authority == ctx.authority
                        &&& validate_spec(title@, content@) is None
                        &&& final(self)@ == old(self)@.insert(
                            k,
                            updated_view(old(self)@[k], title@, content@, now),
                        )
                        &&& ev.post@ == k
                        &&& ev.authority == ctx.authority
                        &&& ev.title@ == title@
                        &&& ev.updated_at == now
                    },
                    Err(StoreError::NotFound) => final(self)@ == old(self)@ && !old(
                        self,
                    )@.dom().contains(k),
                    Err(StoreError::Unauthorized) => final(self)@ == old(self)@ && old(
                        self,
                    )@.dom().contains(k) && old(self)@[k].authority != ctx.authority,
                    Err(StoreError::Validation(e)) => final(self)@ == old(self)@ && old(
                        self,
                    )@.dom().contains(k) && old(self)@[k].authority == ctx.authority
                        && validate_spec(title@, content@) == Some(e),
                    Err(_) => false,
                }
            }),
    {
        let idx = match self.find_index(&ctx.post.authority, &ctx.post.seed_title) {
            None => {
                return Err(StoreError::NotFound);
            },
            Some(i) => i,
        };
        proof {
            lemma_key_index(self.entries@, ctx.post@);
        }
        if !(self.entries[idx].1.authority == ctx.authority) {
            return Err(StoreError::Unauthorized);
        }
        match validate_fields(title.as_str(), content.as_str()) {
            Err(e) => {
                return Err(StoreError::Validation(e));
            },
            Ok(()) => {},
        }
        let ghost old_entries = self.entries@;
        let (addr, old_post) = self.entries.remove(idx);
        let new_post = Post {
            authority: old_post.authority,
            post_id: old_post.post_id,
            title: title.clone(),
            content,
            created_at: old_post.created_at,
            updated_at: now,
        };
        proof {
            lemma_map_remove_at(old_entries, idx as int);
            lemma_map_push(self.entries@, (addr, new_post));
            assert(entries_map(old_entries).remove(ctx.post@).insert(ctx.post@, new_post@)
                =~= entries_map(old_entries).insert(ctx.post@, new_post@));
        }
        self.entries.push((addr, new_post));
        Ok(
            UpdatePostEvent {
                post: ctx.post,
                authority: ctx.authority,
                title,
                updated_at: now,
            },
        )
    }

    /// Removes the record at the addressed location for good: afterwards
    /// the address no longer resolves to a record, and the deletion event
    /// carries the removed record's numeric id. Fails, changing nothing,
    /// when the address holds no record or the caller is not the record's
    /// authority.
    pub fn delete_post(&mut self, ctx: DeletePost) -> (r: Result<DeletePostEvent, StoreError>)
        requires
            old(self).wf(),
        ensures
            final(self).wf(),
            ({
                let k = ctx.post@;
                match r {
                    Ok(ev) => {
                        &&& old(self)@.dom().contains(k)
                        &&& old(self)@[k].authority == ctx.authority
                        &&& final(self)@ == old(self)@.remove(k)
                        &&& !final(self)@.dom().contains(k)
                        &&& ev.post@ == k
                        &&& ev.authority == ctx.authority
                        &&& ev.post_id == old(self)@[k].post_id
                    },
                    Err(StoreError::NotFound) => final(self)@ == old(self)@ && !old(
                        self,
                    )@.dom().contains(k),
                    Err(StoreError::Unauthorized) => final(self)@ == old(self)@ && old(
                        self,
                    )@.dom().contains(k) && old(self)@[k].authority != ctx.authority,
                    Err(_) => false,
                }
            }),
    {
        let idx = match self.find_index(&ctx.post.authority, &ctx.post.seed_title) {
            None => {
                return Err(StoreError::NotFound);
            },
            Some(i) => i,
        };
        proof {
            lemma_key_index(self.entries@, ctx.post@);
        }
        if !(self.entries[idx].1.authority == ctx.authority) {
            return Err(StoreError::Unauthorized);
        }
        // The event is assembled before the record is removed, as the
        // notification order has it.
        let event = DeletePostEvent {
            post: ctx.post,
            authority: ctx.authority,
            post_id: self.entries[idx].1.post_id,
        };
        proof {
            lemma_map_remove_at(self.entries@, idx as int);
        }
        let _ = self.entries.remove(idx);
        Ok(event)
    }
}

} // verus!
