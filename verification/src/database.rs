//! Posts and the store that holds them.

use crate::identifier::{generate, hyphenated, marked_random, to_text};
use crate::text::{decimal, flag, flag_str, to_decimal};
use vstd::prelude::*;

verus! {

/// What a post is: its identifier, its texts, and whether it has been published.
pub struct PostView {
    pub uuid: u128,
    pub title: Seq<char>,
    pub content: Seq<char>,
    pub published: bool,
}

/// A blog post. Nothing but `publish` changes it once it is made.
#[derive(Debug)]
pub struct Post {
    uuid: u128,
    title: String,
    content: String,
    published: bool,
}

impl View for Post {
    type V = PostView;

    closed spec fn view(&self) -> PostView {
        PostView {
            uuid: self.uuid,
            title: self.title@,
            content: self.content@,
            published: self.published,
        }
    }
}

/// `post` once it has been published: the flag is set, the rest is as it was.
pub open spec fn published(post: PostView) -> PostView {
    PostView { published: true, ..post }
}

/// Publishing twice is publishing once: the flag is set after the first time, and the
/// second changes nothing.
pub proof fn lemma_publish_idempotent(post: PostView)
    ensures
        published(post).published,
        published(published(post)) == published(post),
{
}

/// The one-line rendering of a post: identifier, title and published flag, in that order.
pub open spec fn description(post: PostView) -> Seq<char> {
    "Post(uuid="@ + hyphenated(post.uuid) + ", title="@ + post.title + ", published="@ + flag(
        post.published,
    ) + ")"@
}

impl Post {
    /// Makes an unpublished post with a freshly generated identifier. The identifier comes
    /// from the operating system's random source, so no two calls need agree on it.
    pub fn new(title: String, content: String) -> (post: Post)
        ensures
            marked_random(post@.uuid),
            post@.title == title@,
            post@.content == content@,
            !post@.published,
    {
        Post::with_uuid(generate(), title, content)
    }

    /// Makes an unpublished post that carries the identifier `uuid`.
    pub fn with_uuid(uuid: u128, title: String, content: String) -> (post: Post)
        ensures
            post@ == (PostView { uuid, title: title@, content: content@, published: false }),
    {
        Post { uuid, title, content, published: false }
    }

    /// The post's identifier.
    pub fn uuid(&self) -> (uuid: u128)
        ensures
            uuid == self@.uuid,
    {
        self.uuid
    }

    /// The post's title.
    pub fn title(&self) -> (title: &str)
        ensures
            title@ == self@.title,
    {
        self.title.as_str()
    }

    /// The post's content.
    pub fn content(&self) -> (content: &str)
        ensures
            content@ == self@.content,
    {
        self.content.as_str()
    }

    /// Whether the post has been published.
    pub fn is_published(&self) -> (flag: bool)
        ensures
            flag == self@.published,
    {
        self.published
    }

    /// Marks the post as published. A published post stays published.
    pub fn publish(&mut self)
        ensures
            final(self)@ == published(old(self)@),
    {
        self.published = true;
    }

    /// Renders the post on one line, for people to read.
    pub fn describe(&self) -> (text: String)
        ensures
            text@ == description(self@),
    {
        let mut text = String::from_str("Post(uuid=");
        let uuid = to_text(self.uuid);
        text.append(uuid.as_str());
        text.append(", title=");
        text.append(self.title.as_str());
        text.append(", published=");
        text.append(flag_str(self.published));
        text.append(")");
        text
    }
}

impl Clone for Post {
    fn clone(&self) -> (post: Post)
        ensures
            post@ == self@,
    {
        Post {
            uuid: self.uuid,
            title: self.title.clone(),
            content: self.content.clone(),
            published: self.published,
        }
    }
}

/// Whether some post of `posts` carries the identifier `uuid`.
pub open spec fn holds(posts: Seq<PostView>, uuid: u128) -> bool {
    exists|i: int| 0 <= i < posts.len() && posts[i].uuid == uuid
}

/// Whether no two posts of `posts` carry the same identifier.
pub open spec fn distinct(posts: Seq<PostView>) -> bool {
    forall|i: int, j: int| 0 <= i < j < posts.len() ==> posts[i].uuid != posts[j].uuid
}

/// The position of the first post of `posts` that carries `uuid`, and the length of
/// `posts` where none does.
pub open spec fn first_position(posts: Seq<PostView>, uuid: u128) -> int
    decreases posts.len(),
{
    if posts.len() == 0 || posts[0].uuid == uuid {
        0
    } else {
        1 + first_position(posts.drop_first(), uuid)
    }
}

/// The first post of `posts` that carries `uuid`, if there is one.
pub open spec fn find(posts: Seq<PostView>, uuid: u128) -> Option<PostView> {
    if holds(posts, uuid) {
        Some(posts[first_position(posts, uuid)])
    } else {
        None
    }
}

/// `posts` without the first post that carries `uuid`; the others keep their order. Where
/// no post carries `uuid`, this is `posts`.
pub open spec fn without(posts: Seq<PostView>, uuid: u128) -> Seq<PostView> {
    if holds(posts, uuid) {
        posts.remove(first_position(posts, uuid))
    } else {
        posts
    }
}

/// One line of a listing: the post's position, counted from one, and its rendering.
pub open spec fn line(position: nat, post: PostView) -> Seq<char> {
    "Post "@ + decimal(position) + ": "@ + description(post)
}

/// `first_position` is the least position at which `uuid` stands: it lies within `posts`
/// exactly where some post carries `uuid`, the post there carries it, and no post before
/// it does.
pub proof fn lemma_first_position(posts: Seq<PostView>, uuid: u128)
    ensures
        0 <= first_position(posts, uuid) <= posts.len(),
        first_position(posts, uuid) < posts.len() <==> holds(posts, uuid),
        holds(posts, uuid) ==> posts[first_position(posts, uuid)].uuid == uuid,
        forall|j: int| 0 <= j < first_position(posts, uuid) ==> posts[j].uuid != uuid,
    decreases posts.len(),
{
    if posts.len() == 0 || posts[0].uuid == uuid {
    } else {
        let rest = posts.drop_first();
        lemma_first_position(rest, uuid);
        let p = first_position(rest, uuid);
        if holds(rest, uuid) {
            assert(posts[p + 1] == rest[p]);
        }
        if holds(posts, uuid) {
            let i = choose|i: int| 0 <= i < posts.len() && posts[i].uuid == uuid;
            assert(rest[i - 1] == posts[i]);
        }
        assert forall|j: int| 0 <= j < 1 + p implies posts[j].uuid != uuid by {
            if j > 0 {
                assert(rest[j - 1] == posts[j]);
            }
        }
    }
}

/// A position that carries `uuid` and has no such position before it is the first.
pub proof fn lemma_first_position_unique(posts: Seq<PostView>, uuid: u128, i: int)
    requires
        0 <= i < posts.len(),
        posts[i].uuid == uuid,
        forall|j: int| 0 <= j < i ==> posts[j].uuid != uuid,
    ensures
        holds(posts, uuid),
        first_position(posts, uuid) == i,
{
    lemma_first_position(posts, uuid);
}

/// An in-memory store of posts, in the order in which they were added.
///
/// The store does not look at the identifiers of the posts it is given: two posts may
/// carry the same one, and then `find_post_by_uuid` and `delete_post` act on the one that
/// was added first.
#[derive(Debug)]
pub struct Database {
    posts: Vec<Post>,
}

impl View for Database {
    type V = Seq<PostView>;

    closed spec fn view(&self) -> Seq<PostView> {
        self.posts@.map_values(|post: Post| post@)
    }
}

impl Database {
    /// Makes an empty store.
    pub fn new() -> (database: Database)
        ensures
            database@ == Seq::<PostView>::empty(),
    {
        Database { posts: Vec::new() }
    }

    /// Adds `post` behind the posts that the store holds.
    pub fn add_post(&mut self, post: Post)
        ensures
            final(self)@ == old(self)@.push(post@),
    {
        self.posts.push(post);
    }

    /// The lines of a listing: one for each post, in the store's order.
    pub fn list_posts(&self) -> (lines: Vec<String>)
        ensures
            lines@.len() == self@.len(),
            forall|i: int|
                0 <= i < self@.len() ==> (#[trigger] lines@[i])@ == line(
                    (i + 1) as nat,
                    self@[i],
                ),
    {
        let mut lines: Vec<String> = Vec::new();
        let mut index: usize = 0;
        while index < self.posts.len()
            invariant
                index <= self.posts.len(),
                lines@.len() == index,
                forall|i: int|
                    0 <= i < index ==> (#[trigger] lines@[i])@ == line((i + 1) as nat, self@[i]),
            decreases self.posts.len() - index,
        {
            let mut text = String::from_str("Post ");
            let number = to_decimal(index + 1);
            text.append(number.as_str());
            text.append(": ");
            let post = self.posts[index].describe();
            text.append(post.as_str());
            lines.push(text);
            index += 1;
        }
        lines
    }

    /// The place of the first post that carries `uuid`, if there is one.
    fn position(&self, uuid: u128) -> (place: Option<usize>)
        ensures
            place is Some <==> holds(self@, uuid),
            place matches Some(index) ==> index == first_position(self@, uuid),
    {
        let mut index: usize = 0;
        while index < self.posts.len()
            invariant
                index <= self.posts.len(),
                forall|j: int| 0 <= j < index ==> self@[j].uuid != uuid,
            decreases self.posts.len() - index,
        {
            if self.posts[index].uuid == uuid {
                proof {
                    lemma_first_position_unique(self@, uuid, index as int);
                }
                return Some(index);
            }
            index += 1;
        }
        None
    }

    /// Looks for the first post that carries `uuid`.
    pub fn find_post_by_uuid(&self, uuid: u128) -> (found: Option<&Post>)
        ensures
            match found {
                Some(post) => find(self@, uuid) == Some(post@),
                None => find(self@, uuid) is None,
            },
    {
        match self.position(uuid) {
            Some(index) => {
                proof {
                    lemma_first_position(self@, uuid);
                }
                Some(&self.posts[index])
            },
            None => None,
        }
    }

    /// Deletes the first post that carries `uuid`, and says whether there was one. The
    /// posts behind it move up by one place.
    pub fn delete_post(&mut self, uuid: u128) -> (deleted: bool)
        ensures
            deleted == holds(old(self)@, uuid),
            final(self)@ == without(old(self)@, uuid),
    {
        match self.position(uuid) {
            Some(index) => {
                proof {
                    lemma_first_position(self@, uuid);
                }
                self.posts.remove(index);
                assert(self@ =~= old(self)@.remove(index as int));
                true
            },
            None => false,
        }
    }

    /// The number of posts in the store.
    pub fn post_count(&self) -> (count: usize)
        ensures
            count == self@.len(),
    {
        self.posts.len()
    }
}

impl Clone for Database {
    fn clone(&self) -> (database: Database)
        ensures
            database@ == self@,
    {
        let mut posts: Vec<Post> = Vec::new();
        let mut index: usize = 0;
        while index < self.posts.len()
            invariant
                index <= self.posts.len(),
                posts@.len() == index,
                forall|i: int| 0 <= i < index ==> (#[trigger] posts@[i])@ == self.posts@[i]@,
            decreases self.posts.len() - index,
        {
            posts.push(self.posts[index].clone());
            index += 1;
        }
        let database = Database { posts };
        assert(database@ =~= self@);
        database
    }
}

} // verus!
