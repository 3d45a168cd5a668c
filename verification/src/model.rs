//! A post with an author and the instant at which it was written.

use chrono::NaiveDateTime;
use vstd::prelude::*;

verus! {

/// `chrono::NaiveDateTime`, a calendar date and time of day without a time zone. A post
/// carries one, read as Coordinated Universal Time, and never looks inside it.
#[verifier::external_type_specification]
#[verifier::external_body]
pub struct ExNaiveDateTime(chrono::NaiveDateTime);

/// What a post is: its texts, the instant at which it was written, and its identifier.
pub struct PostView {
    pub title: Seq<char>,
    pub body: Seq<char>,
    pub author: Seq<char>,
    pub datetime: NaiveDateTime,
    pub uuid: u128,
}

/// A post by a named author. It does not change once it is made.
#[derive(Debug)]
pub struct Post {
    title: String,
    body: String,
    author: String,
    datetime: NaiveDateTime,
    uuid: u128,
}

impl View for Post {
    type V = PostView;

    closed spec fn view(&self) -> PostView {
        PostView {
            title: self.title@,
            body: self.body@,
            author: self.author@,
            datetime: self.datetime,
            uuid: self.uuid,
        }
    }
}

impl Post {
    /// Makes a post from its texts, the instant at which it was written, and an
    /// identifier that the caller has generated.
    pub fn new(
        title: &str,
        body: &str,
        author: &str,
        datetime: NaiveDateTime,
        uuid: u128,
    ) -> (post: Post)
        ensures
            post@ == (PostView { title: title@, body: body@, author: author@, datetime, uuid }),
    {
        Post {
            title: String::from_str(title),
            body: String::from_str(body),
            author: String::from_str(author),
            datetime,
            uuid,
        }
    }

    /// The post's identifier.
    pub fn uuid(&self) -> (uuid: u128)
        ensures
            uuid == self@.uuid,
    {
        self.uuid
    }
}

impl Clone for Post {
    fn clone(&self) -> (post: Post)
        ensures
            post@ == self@,
    {
        Post {
            title: self.title.clone(),
            body: self.body.clone(),
            author: self.author.clone(),
            datetime: self.datetime,
            uuid: self.uuid,
        }
    }
}

} // verus!
