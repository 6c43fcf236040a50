//! The validation gate every create request passes before any mutation.

use vstd::prelude::*;

use crate::constants::MAX_ACCOUNT_SIZE;
use crate::constants::MAX_CONTENT_LENGTH;
use crate::constants::MAX_TOPIC_LENGTH;
use crate::errors::ErrorCode;
use vstd::utf8::encode_utf8;

verus! {

/// Byte length of a text once UTF-8 encoded; the limits below are byte
/// limits, not character counts.
pub open spec fn byte_len(s: Seq<char>) -> nat {
    encode_utf8(s).len()
}

/// What `validate` returns, as a function of the three inputs.
///
/// The declared size is judged first, then the topic, then the content;
/// the first rule to fail names the error, and only fully admissible
/// requests pass.
pub open spec fn validate_spec(space_required: u32, topic: Seq<char>, content: Seq<char>) -> Result<
    (),
    ErrorCode,
> {
    if space_required >= MAX_ACCOUNT_SIZE {
        Err(ErrorCode::AccountSizeTooLarge)
    } else if byte_len(topic) >= MAX_TOPIC_LENGTH as nat {
        Err(ErrorCode::TopicTooLong)
    } else if byte_len(content) >= MAX_CONTENT_LENGTH as nat {
        Err(ErrorCode::ContentTooLong)
    } else {
        Ok(())
    }
}

/// Rejects a malformed create request before any mutation occurs.
///
/// A side-effect-free gate: the declared space must stay under
/// 10,000,000 bytes, the topic under 50 bytes, the content under 280
/// bytes; the result is exactly `validate_spec` on the inputs.
pub fn validate(space_required: u32, topic: &str, content: &str) -> (r: Result<(), ErrorCode>)
    ensures
        r == validate_spec(space_required, topic@, content@),
{
    if space_required >= MAX_ACCOUNT_SIZE {
        return Err(ErrorCode::AccountSizeTooLarge);
    }
    if topic.as_bytes().len() >= MAX_TOPIC_LENGTH {
        return Err(ErrorCode::TopicTooLong);
    }
    if content.as_bytes().len() >= MAX_CONTENT_LENGTH {
        return Err(ErrorCode::ContentTooLong);
    }
    Ok(())
}

/// An oversized declared space is refused as `AccountSizeTooLarge`, no
/// matter whether the topic and the content are themselves admissible.
pub proof fn lemma_validate_oversized_space(space_required: u32, topic: Seq<char>, content: Seq<char>)
    requires
        space_required >= MAX_ACCOUNT_SIZE,
    ensures
        validate_spec(space_required, topic, content) == Err::<(), ErrorCode>(
            ErrorCode::AccountSizeTooLarge,
        ),
{
}

/// A topic of 50 bytes or more is refused as `TopicTooLong` whenever the
/// declared space itself passes; an oversized declaration is reported
/// first, as `AccountSizeTooLarge`.
pub proof fn lemma_validate_long_topic(space_required: u32, topic: Seq<char>, content: Seq<char>)
    requires
        space_required < MAX_ACCOUNT_SIZE,
        byte_len(topic) >= MAX_TOPIC_LENGTH as nat,
    ensures
        validate_spec(space_required, topic, content) == Err::<(), ErrorCode>(
            ErrorCode::TopicTooLong,
        ),
{
}

/// A content body of 280 bytes or more is refused as `ContentTooLong`
/// whenever the declared space and the topic themselves pass; an earlier
/// failing rule is reported first.
pub proof fn lemma_validate_long_content(space_required: u32, topic: Seq<char>, content: Seq<char>)
    requires
        space_required < MAX_ACCOUNT_SIZE,
        byte_len(topic) < MAX_TOPIC_LENGTH as nat,
        byte_len(content) >= MAX_CONTENT_LENGTH as nat,
    ensures
        validate_spec(space_required, topic, content) == Err::<(), ErrorCode>(
            ErrorCode::ContentTooLong,
        ),
{
}

/// Every fully admissible request passes: a declared space under
/// 10,000,000 bytes, a topic under 50 bytes and a content body under 280
/// bytes are accepted.
pub proof fn lemma_validate_admissible(space_required: u32, topic: Seq<char>, content: Seq<char>)
    requires
        space_required < MAX_ACCOUNT_SIZE,
        byte_len(topic) < MAX_TOPIC_LENGTH as nat,
        byte_len(content) < MAX_CONTENT_LENGTH as nat,
    ensures
        validate_spec(space_required, topic, content) == Ok::<(), ErrorCode>(()),
{
}

} // verus!
