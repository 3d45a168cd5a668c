//! An in-memory store of blog posts.
//!
//! [`database::Database`] keeps posts in the order in which they were added and finds or
//! deletes them by identifier. Identifiers are 128-bit values; the `uuid` crate generates
//! them and gives them their text form.

pub mod database;
pub mod history;
pub mod identifier;
pub mod model;
pub mod text;
