//! Creating a record: sizing, validation, allocation and field population
//! as one atomic transition.

use vstd::prelude::*;

use crate::errors::ErrorCode;
use crate::state::tweet::SignerAccount;
use crate::state::tweet::Tweet;
use crate::state::tweet::TweetAccount;
use crate::validate::validate;
use crate::validate::validate_spec;

verus! {

/// Everything a create operation touches: the storage slot the new record
/// will occupy (empty until the operation succeeds) and the author's
/// account, which signs the request and funds the deposit.
#[derive(Debug)]
pub struct SendTweet {
    pub tweet: Option<TweetAccount>,
    pub author: SignerAccount,
}

/// The whole create transition as a function of its inputs: the state the
/// operation leaves behind, paired with its result.
///
/// A request the validator refuses is returned verbatim with the state
/// untouched.  The host can then still refuse the allocation — the slot is
/// already occupied, or the author's balance does not cover the deposit —
/// again leaving the state untouched.  Otherwise the deposit moves from the
/// author into the new slot and the record appears fully populated: author
/// identity, clock reading, topic and content, sized at the fixed baggage
/// plus the declared space.
pub open spec fn send_tweet_spec(
    ctx: SendTweet,
    space_required: u32,
    topic: String,
    content: String,
    now: i64,
    deposit: u64,
) -> (SendTweet, Result<(), ErrorCode>) {
    match validate_spec(space_required, topic@, content@) {
        Err(e) => (ctx, Err(e)),
        Ok(_) => if ctx.tweet is Some {
            (ctx, Err(ErrorCode::AllocationFailure))
        } else if ctx.author.lamports < deposit {
            (ctx, Err(ErrorCode::AllocationFailure))
        } else {
            (
                SendTweet {
                    tweet: Some(
                        TweetAccount {
                            lamports: deposit,
                            space: (Tweet::TWEET_BAGGAGE + space_required as nat) as usize,
                            tweet: Tweet {
                                author: ctx.author.key,
                                timestamp: now,
                                topic: topic,
                                content: content,
                            },
                        },
                    ),
                    author: SignerAccount {
                        key: ctx.author.key,
                        lamports: (ctx.author.lamports - deposit) as u64,
                    },
                },
                Ok(()),
            )
        },
    }
}

/// Brings a new record into existence.
///
/// Inputs beyond the request fields are the host collaborators made
/// explicit: `now` is the trusted clock reading, and `deposit` is what the
/// host charges the author for a slot of `fixed_baggage + space_required`
/// bytes.  The operation validates first and mutates nothing on any
/// failure; on success the slot and both balances change together, so no
/// partially-initialized record is ever visible.
pub fn send_tweet(
    ctx: &mut SendTweet,
    space_required: u32,
    topic: String,
    content: String,
    now: i64,
    deposit: u64,
) -> (r: Result<(), ErrorCode>)
    ensures
        *final(ctx) == send_tweet_spec(*old(ctx), space_required, topic, content, now, deposit).0,
        r == send_tweet_spec(*old(ctx), space_required, topic, content, now, deposit).1,
        r is Ok <==> validate_spec(space_required, topic@, content@) is Ok && old(ctx).tweet
            is None && old(ctx).author.lamports >= deposit,
        r is Err ==> *final(ctx) == *old(ctx),
        r is Ok ==> (final(ctx).tweet matches Some(acc) && acc.well_formed() && acc.lamports
            == deposit && final(ctx).author.lamports + deposit == old(ctx).author.lamports),
{
    if let Err(e) = validate(space_required, topic.as_str(), content.as_str()) {
        return Err(e);
    }
    if ctx.tweet.is_some() {
        return Err(ErrorCode::AllocationFailure);
    }
    if ctx.author.lamports < deposit {
        return Err(ErrorCode::AllocationFailure);
    }
    let space: usize = Tweet::fixed_baggage() + space_required as usize;
    ctx.author.lamports = ctx.author.lamports - deposit;
    ctx.tweet = Some(
        TweetAccount {
            lamports: deposit,
            space,
            tweet: Tweet { author: ctx.author.key, timestamp: now, topic, content },
        },
    );
    Ok(())
}

} // verus!
