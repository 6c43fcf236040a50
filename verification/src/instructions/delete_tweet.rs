//! Deleting a record: authorization, deposit refund and slot release as one
//! atomic transition.

use vstd::prelude::*;

use crate::errors::ErrorCode;
use crate::instructions::send_tweet::send_tweet_spec;
use crate::instructions::send_tweet::SendTweet;
use crate::state::tweet::SignerAccount;
use crate::state::tweet::TweetAccount;

verus! {

/// Everything a delete operation touches: the storage slot of the record
/// to remove (empty once the operation has succeeded) and the account of
/// the requester asking for it.
#[derive(Debug)]
pub struct DeleteTweet {
    pub account: Option<TweetAccount>,
    pub author: SignerAccount,
}

/// The whole delete transition as a function of its input state: the state
/// the operation leaves behind, paired with its result.
///
/// A slot that no longer exists is a host-side storage failure.  A
/// requester whose key differs from the record's author is refused without
/// any effect.  Otherwise the entire deposit moves from the slot to the
/// requester and the slot is released, in one step: afterwards the record
/// is gone and the refund is exactly the deposit that was locked.
pub open spec fn delete_tweet_spec(ctx: DeleteTweet) -> (DeleteTweet, Result<(), ErrorCode>) {
    match ctx.account {
        None => (ctx, Err(ErrorCode::AllocationFailure)),
        Some(acc) => if acc.tweet.author@ != ctx.author.key@ {
            (ctx, Err(ErrorCode::AuthorizationFailure))
        } else {
            (
                DeleteTweet {
                    account: None,
                    author: SignerAccount {
                        key: ctx.author.key,
                        lamports: (ctx.author.lamports + acc.lamports) as u64,
                    },
                },
                Ok(()),
            )
        },
    }
}

/// The refund that a delete on `ctx` would move fits the requester's
/// balance; a machine limit, not a rule of the store.
pub open spec fn refund_fits(ctx: DeleteTweet) -> bool {
    match ctx.account {
        None => true,
        Some(acc) => acc.tweet.author@ == ctx.author.key@ ==> ctx.author.lamports + acc.lamports
            <= u64::MAX,
    }
}

/// Destroys an existing record and returns its storage deposit.
///
/// Only the record's author may delete it; anyone else is refused with the
/// state untouched.  On success the two balance moves and the slot release
/// happen together — the record ceases to exist and the requester receives
/// exactly the deposit that was locked against it.
pub fn delete_tweet(ctx: &mut DeleteTweet) -> (r: Result<(), ErrorCode>)
    requires
        refund_fits(*old(ctx)),
    ensures
        *final(ctx) == delete_tweet_spec(*old(ctx)).0,
        r == delete_tweet_spec(*old(ctx)).1,
        r is Ok <==> (old(ctx).account matches Some(acc)
            && acc.tweet.author@ == old(ctx).author.key@),
        r is Err ==> *final(ctx) == *old(ctx),
        r is Ok ==> (old(ctx).account matches Some(acc)
            && final(ctx).account is None
            && final(ctx).author.lamports == old(ctx).author.lamports + acc.lamports),
{
    let lamports_to_return: u64 = match &ctx.account {
        None => {
            return Err(ErrorCode::AllocationFailure);
        },
        Some(acc) => {
            if !ctx.author.key.key_eq(&acc.tweet.author) {
                return Err(ErrorCode::AuthorizationFailure);
            }
            acc.lamports
        },
    };
    ctx.account = None;
    ctx.author.lamports = ctx.author.lamports + lamports_to_return;
    Ok(())
}

/// Create-then-delete round trip: a record created by an author and
/// immediately deleted by the same author refunds the deposit in full, so
/// the author's balance returns exactly to its pre-create value — and no
/// record is left behind.
pub proof fn lemma_create_then_delete_round_trip(
    ctx: SendTweet,
    space_required: u32,
    topic: String,
    content: String,
    now: i64,
    deposit: u64,
)
    requires
        send_tweet_spec(ctx, space_required, topic, content, now, deposit).1 is Ok,
    ensures
        ({
            let created = send_tweet_spec(ctx, space_required, topic, content, now, deposit).0;
            let after = delete_tweet_spec(
                DeleteTweet { account: created.tweet, author: created.author },
            );
            &&& refund_fits(DeleteTweet { account: created.tweet, author: created.author })
            &&& after.1 is Ok
            &&& after.0.account is None
            &&& after.0.author.lamports == ctx.author.lamports
            &&& after.0.author.key == ctx.author.key
        }),
{
}

} // verus!
