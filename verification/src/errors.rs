//! Everything that can go wrong during a record operation.
//!
//! The first three kinds are raised by the validator itself, before any
//! mutation; the last two stand for conditions that the host store reports
//! (a failed or impossible allocation, a requester who is not the author).

use vstd::prelude::*;

verus! {

/// One error kind per way an operation can fail.
///
/// - `TopicTooLong` — the topic is 50 bytes or more.
/// - `ContentTooLong` — the content is 280 bytes or more.
/// - `AccountSizeTooLarge` — the declared space is 10,000,000 bytes or more.
/// - `AllocationFailure` — the host store cannot complete a storage action:
///   the funder's balance does not cover the deposit, the slot is already
///   occupied, or the slot to release does not exist.
/// - `AuthorizationFailure` — the requester of a deletion is not the
///   record's author.
#[derive(Clone, Copy, Debug, PartialEq, Eq, Structural)]
pub enum ErrorCode {
    TopicTooLong,
    ContentTooLong,
    AccountSizeTooLarge,
    AllocationFailure,
    AuthorizationFailure,
}

} // verus!
