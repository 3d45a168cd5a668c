use chrono::{DateTime, NaiveDateTime};
use post_store::model::Post;
use uuid::Uuid;

fn instant(seconds: i64) -> NaiveDateTime {
    DateTime::from_timestamp(seconds, 0).expect("the instant is in range").naive_utc()
}

#[test]
fn model_post_keeps_its_uuid() {
    let uuid = Uuid::from_u128(0xa1a2a3a4_b1b2_c1c2_d1d2_d3d4d5d6d7d8);
    let post = Post::new("Title", "Body", "Author", instant(1_700_000_000), uuid.as_u128());
    assert_eq!(post.uuid(), 0xa1a2a3a4_b1b2_c1c2_d1d2_d3d4d5d6d7d8);
    assert_eq!(Uuid::from_u128(post.uuid()), uuid);
}

#[test]
fn model_post_keeps_every_part() {
    let post = Post::new("Title", "Body", "Author", instant(1_700_000_000), 5);
    assert_eq!(
        format!("{:?}", post),
        "Post { title: \"Title\", body: \"Body\", author: \"Author\", \
         datetime: 2023-11-14T22:13:20, uuid: 5 }"
    );
}

#[test]
fn model_post_accepts_empty_texts() {
    let post = Post::new("", "", "", instant(0), 0);
    assert_eq!(post.uuid(), 0);
    assert_eq!(
        format!("{:?}", post),
        "Post { title: \"\", body: \"\", author: \"\", datetime: 1970-01-01T00:00:00, uuid: 0 }"
    );
}

#[test]
fn clone_of_a_model_post_is_equal_in_every_part() {
    let post = Post::new("Title", "Body", "Author", instant(86_400), 9);
    let copy = post.clone();
    assert_eq!(copy.uuid(), 9);
    assert_eq!(format!("{:?}", copy), format!("{:?}", post));
}
