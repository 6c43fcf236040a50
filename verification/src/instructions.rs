//! The two operations of the store: creating a record and deleting one.

pub mod delete_tweet;
pub mod send_tweet;
