//! What holds of a store over any run of additions and deletions.
//!
//! `Database::add_post` and `Database::delete_post` change a store's posts as `apply`
//! says of `Change::Add` and `Change::Delete`, so what is proved here of `replay` holds of
//! every store after every run of calls.

use crate::database::{
    distinct, find, first_position, holds, lemma_first_position, lemma_first_position_unique,
    without, PostView,
};
use vstd::prelude::*;

verus! {

/// One change to a store.
pub enum Change {
    /// A post is added behind the others.
    Add(PostView),
    /// The first post that carries the identifier is deleted, if there is one.
    Delete(u128),
}

/// The posts of a store that held `posts`, after `change`.
pub open spec fn apply(posts: Seq<PostView>, change: Change) -> Seq<PostView> {
    match change {
        Change::Add(post) => posts.push(post),
        Change::Delete(uuid) => without(posts, uuid),
    }
}

/// The posts of a store that held `posts`, after `changes` in their order.
pub open spec fn replay(posts: Seq<PostView>, changes: Seq<Change>) -> Seq<PostView>
    decreases changes.len(),
{
    if changes.len() == 0 {
        posts
    } else {
        apply(replay(posts, changes.drop_last()), changes.last())
    }
}

/// How many of `changes` add a post.
pub open spec fn additions(changes: Seq<Change>) -> nat
    decreases changes.len(),
{
    if changes.len() == 0 {
        0
    } else {
        additions(changes.drop_last()) + if changes.last() is Add {
            1nat
        } else {
            0nat
        }
    }
}

/// How many of `changes`, made in their order to a store that held `posts`, delete a
/// post: the deletions that find the identifier they look for.
pub open spec fn deletions(posts: Seq<PostView>, changes: Seq<Change>) -> nat
    decreases changes.len(),
{
    if changes.len() == 0 {
        0
    } else {
        deletions(posts, changes.drop_last()) + match changes.last() {
            Change::Delete(uuid) if holds(replay(posts, changes.drop_last()), uuid) => 1nat,
            _ => 0nat,
        }
    }
}

/// Whether `change` adds a post that carries `uuid`.
pub open spec fn adds(change: Change, uuid: u128) -> bool {
    change matches Change::Add(post) && post.uuid == uuid
}

/// Whether none of `changes` adds a post that carries `uuid`.
pub open spec fn never_added(changes: Seq<Change>, uuid: u128) -> bool {
    forall|i: int| 0 <= i < changes.len() ==> !adds(#[trigger] changes[i], uuid)
}

/// Whether at most one post of `posts` carries `uuid`.
pub open spec fn at_most_once(posts: Seq<PostView>, uuid: u128) -> bool {
    forall|i: int, j: int|
        0 <= i < j < posts.len() && posts[i].uuid == uuid ==> posts[j].uuid != uuid
}

/// Whether none of `changes` deletes by `uuid`.
pub open spec fn never_deleted(changes: Seq<Change>, uuid: u128) -> bool {
    forall|i: int| 0 <= i < changes.len() ==> changes[i] != Change::Delete(uuid)
}

/// A deletion that finds its post leaves one post fewer, and one that finds none leaves
/// the posts as they were.
pub proof fn lemma_without_len(posts: Seq<PostView>, uuid: u128)
    ensures
        holds(posts, uuid) ==> without(posts, uuid).len() == posts.len() - 1,
        !holds(posts, uuid) ==> without(posts, uuid) == posts,
{
    lemma_first_position(posts, uuid);
}

/// After any run of changes a store holds as many posts as it held before, plus the
/// additions, less the deletions that found their post. For a store that was made empty,
/// the count is the number of additions less the number of such deletions.
pub proof fn lemma_count(posts: Seq<PostView>, changes: Seq<Change>)
    ensures
        replay(posts, changes).len() == posts.len() + additions(changes) - deletions(
            posts,
            changes,
        ),
        replay(Seq::empty(), changes).len() == additions(changes) - deletions(
            Seq::empty(),
            changes,
        ),
    decreases changes.len(),
{
    if changes.len() > 0 {
        let before = changes.drop_last();
        lemma_count(posts, before);
        lemma_count(Seq::empty(), before);
        match changes.last() {
            Change::Add(_) => {},
            Change::Delete(uuid) => {
                lemma_without_len(replay(posts, before), uuid);
                lemma_without_len(replay(Seq::empty(), before), uuid);
            },
        }
    }
}

/// Adding a post does not change what is found under an identifier that the store
/// already holds.
pub proof fn lemma_find_after_add(posts: Seq<PostView>, post: PostView, uuid: u128)
    requires
        holds(posts, uuid),
    ensures
        find(posts.push(post), uuid) == find(posts, uuid),
{
    lemma_first_position(posts, uuid);
    let p = first_position(posts, uuid);
    assert(posts.push(post)[p] == posts[p]);
    assert forall|j: int| 0 <= j < p implies posts.push(post)[j].uuid != uuid by {
        assert(posts.push(post)[j] == posts[j]);
    }
    lemma_first_position_unique(posts.push(post), uuid, p);
}

/// Deleting by one identifier does not change what is found under another.
pub proof fn lemma_find_after_delete(posts: Seq<PostView>, deleted: u128, uuid: u128)
    requires
        deleted != uuid,
    ensures
        find(without(posts, deleted), uuid) == find(posts, uuid),
{
    lemma_first_position(posts, deleted);
    lemma_first_position(posts, uuid);
    if holds(posts, deleted) {
        let k = first_position(posts, deleted);
        let rest = posts.remove(k);
        assert(forall|j: int| 0 <= j < k ==> rest[j] == posts[j]);
        assert(forall|j: int| k <= j < rest.len() ==> rest[j] == posts[j + 1]);
        if holds(posts, uuid) {
            let p = first_position(posts, uuid);
            let q = if p < k {
                p
            } else {
                p - 1
            };
            assert(rest[q] == posts[p]);
            lemma_first_position_unique(rest, uuid, q);
        } else {
            if holds(rest, uuid) {
                let j = choose|j: int| 0 <= j < rest.len() && rest[j].uuid == uuid;
                assert(posts[if j < k {
                    j
                } else {
                    j + 1
                }].uuid == uuid);
            }
        }
    }
}

/// What is found under an identifier that a store holds stays the same through any
/// changes that do not delete by that identifier.
pub proof fn lemma_found_post_stays(posts: Seq<PostView>, later: Seq<Change>, uuid: u128)
    requires
        holds(posts, uuid),
        never_deleted(later, uuid),
    ensures
        holds(replay(posts, later), uuid),
        find(replay(posts, later), uuid) == find(posts, uuid),
    decreases later.len(),
{
    if later.len() > 0 {
        let before = later.drop_last();
        assert forall|i: int| 0 <= i < before.len() implies before[i] != Change::Delete(uuid) by {
            assert(before[i] == later[i]);
        }
        lemma_found_post_stays(posts, before, uuid);
        match later.last() {
            Change::Add(other) => {
                lemma_find_after_add(replay(posts, before), other, uuid);
            },
            Change::Delete(deleted) => {
                assert(later[later.len() - 1] != Change::Delete(uuid));
                lemma_find_after_delete(replay(posts, before), deleted, uuid);
            },
        }
    }
}

/// A post that has been added is found under its identifier, equal in every part, after
/// any later changes that do not delete by that identifier. This holds of a store that
/// held no post under the identifier before, or held an equal one first.
pub proof fn lemma_added_post_is_found(
    posts: Seq<PostView>,
    post: PostView,
    later: Seq<Change>,
)
    requires
        holds(posts, post.uuid) ==> find(posts, post.uuid) == Some(post),
        never_deleted(later, post.uuid),
    ensures
        find(replay(posts.push(post), later), post.uuid) == Some(post),
{
    let added = posts.push(post);
    if holds(posts, post.uuid) {
        lemma_find_after_add(posts, post, post.uuid);
    } else {
        assert(added[posts.len() as int] == post);
        assert forall|j: int| 0 <= j < posts.len() implies added[j].uuid != post.uuid by {
            assert(added[j] == posts[j]);
        }
        lemma_first_position_unique(added, post.uuid, posts.len() as int);
    }
    lemma_found_post_stays(added, later, post.uuid);
}

/// Once `uuid` has been deleted from a store in which at most one post carried it,
/// nothing is found under it.
pub proof fn lemma_deleted_post_is_gone(posts: Seq<PostView>, uuid: u128)
    requires
        at_most_once(posts, uuid),
    ensures
        !holds(without(posts, uuid), uuid),
        find(without(posts, uuid), uuid) is None,
{
    lemma_first_position(posts, uuid);
    if holds(posts, uuid) {
        let k = first_position(posts, uuid);
        let rest = posts.remove(k);
        if holds(rest, uuid) {
            let j = choose|j: int| 0 <= j < rest.len() && rest[j].uuid == uuid;
            if j < k {
                assert(rest[j] == posts[j]);
            } else {
                assert(rest[j] == posts[j + 1]);
            }
        }
    }
}

/// Where no two posts share an identifier, each identifier is carried at most once.
pub proof fn lemma_distinct_at_most_once(posts: Seq<PostView>, uuid: u128)
    requires
        distinct(posts),
    ensures
        at_most_once(posts, uuid),
{
}

/// A store holds no post under an identifier that it did not hold at the start and that
/// no change has added since; deleting by such an identifier finds nothing and leaves the
/// posts, and so their count, as they were.
pub proof fn lemma_never_added_is_absent(posts: Seq<PostView>, changes: Seq<Change>, uuid: u128)
    requires
        !holds(posts, uuid),
        never_added(changes, uuid),
    ensures
        !holds(replay(posts, changes), uuid),
        without(replay(posts, changes), uuid) == replay(posts, changes),
    decreases changes.len(),
{
    if changes.len() > 0 {
        let before = changes.drop_last();
        assert forall|i: int| 0 <= i < before.len() implies !adds(#[trigger] before[i], uuid) by {
            assert(before[i] == changes[i]);
        }
        lemma_never_added_is_absent(posts, before, uuid);
        let held = replay(posts, before);
        match changes.last() {
            Change::Add(post) => {
                assert(!adds(changes[changes.len() - 1], uuid));
                let now = held.push(post);
                if holds(now, uuid) {
                    let j = choose|j: int| 0 <= j < now.len() && now[j].uuid == uuid;
                    if j < held.len() {
                        assert(now[j] == held[j]);
                    }
                }
            },
            Change::Delete(deleted) => {
                if deleted != uuid {
                    lemma_find_after_delete(held, deleted, uuid);
                }
            },
        }
    }
}

/// Adding a post under an identifier that the store does not hold keeps the identifiers
/// of its posts distinct.
pub proof fn lemma_add_keeps_distinct(posts: Seq<PostView>, post: PostView)
    requires
        distinct(posts),
        !holds(posts, post.uuid),
    ensures
        distinct(posts.push(post)),
{
    let now = posts.push(post);
    assert forall|i: int, j: int| 0 <= i < j < now.len() implies now[i].uuid != now[j].uuid by {
        assert(now[i] == posts[i]);
        if j < posts.len() {
            assert(now[j] == posts[j]);
        }
    }
}

/// Deleting keeps the identifiers of a store's posts distinct.
pub proof fn lemma_delete_keeps_distinct(posts: Seq<PostView>, uuid: u128)
    requires
        distinct(posts),
    ensures
        distinct(without(posts, uuid)),
{
    lemma_first_position(posts, uuid);
    if holds(posts, uuid) {
        let k = first_position(posts, uuid);
        let rest = posts.remove(k);
        assert forall|i: int, j: int| 0 <= i < j < rest.len() implies rest[i].uuid
            != rest[j].uuid by {
            let a = if i < k {
                i
            } else {
                i + 1
            };
            let b = if j < k {
                j
            } else {
                j + 1
            };
            assert(rest[i] == posts[a]);
            assert(rest[j] == posts[b]);
        }
    }
}

} // verus!
