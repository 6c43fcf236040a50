//! The tweet record and the ledger accounts it lives among.

use vstd::prelude::*;

use crate::constants::DISCRIMINATOR_LENGTH;
use crate::constants::MAX_ACCOUNT_SIZE;
use crate::constants::MAX_CONTENT_LENGTH;
use crate::constants::MAX_TOPIC_LENGTH;
use crate::constants::PUBLIC_KEY_LENGTH;
use crate::constants::TIMESTAMP_LENGTH;
use crate::validate::byte_len;

verus! {

/// A 32-byte public key identifying an author.
///
/// The host verifies signatures against such a key; the core only ever
/// compares keys for equality, so the raw bytes are all it keeps.
#[derive(Clone, Copy, Debug)]
pub struct Pubkey {
    pub bytes: [u8; 32],
}

impl View for Pubkey {
    type V = Seq<u8>;

    open spec fn view(&self) -> Seq<u8> {
        self.bytes@
    }
}

impl Pubkey {
    /// Two identities are the same exactly when their 32 bytes agree.
    pub fn key_eq(&self, other: &Pubkey) -> (r: bool)
        ensures
            r == (self@ == other@),
    {
        let mut i: usize = 0;
        while i < 32
            invariant
                i <= 32,
                forall|j: int| 0 <= j < i ==> self.bytes@[j] == other.bytes@[j],
            decreases 32 - i,
        {
            if self.bytes[i] != other.bytes[i] {
                return false;
            }
            i += 1;
        }
        proof {
            assert(self@ =~= other@);
        }
        true
    }
}

/// One tweet record: who wrote it, when, on what topic, and the body.
///
/// `author` and `timestamp` are set once at creation and never change;
/// `topic` and `content` are write-once as well, since no update operation
/// exists.
#[derive(Debug)]
pub struct Tweet {
    pub author: Pubkey,
    pub timestamp: i64,
    pub topic: String,
    pub content: String,
}

impl Tweet {
    /// Fixed per-record overhead beyond the two variable-length text fields:
    /// the record-type tag, the author key, and the timestamp.
    pub const TWEET_BAGGAGE: usize = DISCRIMINATOR_LENGTH + PUBLIC_KEY_LENGTH + TIMESTAMP_LENGTH;

    /// The fixed baggage as a computed size: the same constant on every
    /// call, 48 bytes (an 8-byte tag, a 32-byte key, an 8-byte timestamp).
    pub fn fixed_baggage() -> (n: usize)
        ensures
            n == Tweet::TWEET_BAGGAGE,
            n == 48,
    {
        DISCRIMINATOR_LENGTH + PUBLIC_KEY_LENGTH + TIMESTAMP_LENGTH
    }

    /// The field-length invariant of every record the store admits: the
    /// topic stays under 50 bytes and the content under 280 bytes.
    pub open spec fn well_formed(self) -> bool {
        byte_len(self.topic@) < MAX_TOPIC_LENGTH as nat && byte_len(self.content@)
            < MAX_CONTENT_LENGTH as nat
    }
}

/// The storage slot that backs one record: the deposit locked against it,
/// the byte size it was allocated with, and the record data itself.
#[derive(Debug)]
pub struct TweetAccount {
    /// Deposit currently locked against the slot, refunded on deletion.
    pub lamports: u64,
    /// Bytes the slot was allocated with: fixed baggage plus declared space.
    pub space: usize,
    /// The record stored in the slot.
    pub tweet: Tweet,
}

impl TweetAccount {
    /// What holds of every slot the create operation fills: a well-formed
    /// record in a slot sized at the fixed baggage plus a declared space
    /// under the 10,000,000-byte ceiling.
    pub open spec fn well_formed(self) -> bool {
        self.tweet.well_formed() && self.space < Tweet::TWEET_BAGGAGE + MAX_ACCOUNT_SIZE as nat
    }
}

/// The funding side of an operation: the identity that signed it and the
/// balance that pays for — or receives back — a storage deposit.
#[derive(Debug)]
pub struct SignerAccount {
    pub key: Pubkey,
    pub lamports: u64,
}

} // verus!
