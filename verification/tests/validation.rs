use solana_twitter::errors::ErrorCode;
use solana_twitter::validate::validate;

#[test]
fn admissible_request_passes() {
    assert_eq!(validate(100, "hello", "world"), Ok(()));
    assert_eq!(validate(0, "", ""), Ok(()));
    assert_eq!(validate(9_999_999, &"t".repeat(49), &"c".repeat(279)), Ok(()));
}

#[test]
fn long_topic_rejected() {
    assert_eq!(validate(100, &"x".repeat(50), "ok"), Err(ErrorCode::TopicTooLong));
    assert_eq!(validate(100, &"x".repeat(500), ""), Err(ErrorCode::TopicTooLong));
}

#[test]
fn long_content_rejected() {
    assert_eq!(validate(100, "ok", &"y".repeat(280)), Err(ErrorCode::ContentTooLong));
    assert_eq!(validate(100, "", &"y".repeat(1000)), Err(ErrorCode::ContentTooLong));
}

#[test]
fn oversized_space_rejected() {
    assert_eq!(validate(10_000_000, "t", "c"), Err(ErrorCode::AccountSizeTooLarge));
    assert_eq!(validate(u32::MAX, "t", "c"), Err(ErrorCode::AccountSizeTooLarge));
}

#[test]
fn oversized_space_reported_first() {
    // The size ceiling is judged before the field lengths, so it names the
    // error even when topic and content are oversized as well.
    let r = validate(10_000_000, &"x".repeat(50), &"y".repeat(280));
    assert_eq!(r, Err(ErrorCode::AccountSizeTooLarge));
}

#[test]
fn long_topic_reported_before_long_content() {
    let r = validate(100, &"x".repeat(50), &"y".repeat(280));
    assert_eq!(r, Err(ErrorCode::TopicTooLong));
}
