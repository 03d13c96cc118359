use splash::message::{payload_text, validate_payload};
use splash::{Splash, SplashError, MAX_MESSAGE_SIZE};

#[test]
fn limit_is_300_kib() {
    assert_eq!(MAX_MESSAGE_SIZE, 307200);
}

#[test]
fn empty_message_is_valid() {
    assert_eq!(Splash::validate_message(""), Ok(()));
}

#[test]
fn short_message_is_valid() {
    assert_eq!(Splash::validate_message("offer1xyz"), Ok(()));
}

#[test]
fn message_at_the_limit_is_valid() {
    let message = "a".repeat(300 * 1024);
    assert_eq!(Splash::validate_message(&message), Ok(()));
}

#[test]
fn message_over_the_limit_is_too_large() {
    let message = "a".repeat(300 * 1024 + 1);
    assert_eq!(
        Splash::validate_message(&message),
        Err(SplashError::MessageTooLarge(307200))
    );
}

#[test]
fn length_is_counted_in_bytes_not_characters() {
    // 102400 characters of three bytes each: exactly at the limit.
    let at_limit = "\u{20ac}".repeat(102400);
    assert_eq!(at_limit.len(), 307200);
    assert_eq!(Splash::validate_message(&at_limit), Ok(()));
    // One more byte is too much, though the text has far fewer than 307200 characters.
    let over = format!("{}a", at_limit);
    assert_eq!(
        Splash::validate_message(&over),
        Err(SplashError::MessageTooLarge(307200))
    );
}

#[test]
fn broadcast_gives_the_bytes_of_the_message() {
    let node = Splash::new();
    assert_eq!(
        node.broadcast_message("offer1xyz"),
        Ok(vec![b'o', b'f', b'f', b'e', b'r', b'1', b'x', b'y', b'z'])
    );
}

#[test]
fn broadcast_of_non_ascii_text_gives_its_utf8_bytes() {
    let node = Splash::new();
    assert_eq!(
        node.broadcast_message("\u{e9}\u{20ac}"),
        Ok(vec![0xc3, 0xa9, 0xe2, 0x82, 0xac])
    );
}

#[test]
fn broadcast_of_too_large_message_fails_and_gives_no_payload() {
    let node = Splash::new();
    let message = "x".repeat(300 * 1024 + 1);
    assert_eq!(
        node.broadcast_message(&message),
        Err(SplashError::MessageTooLarge(307200))
    );
}

#[test]
fn broadcast_at_the_limit_gives_the_whole_payload() {
    let node = Splash::new();
    let message = "x".repeat(300 * 1024);
    let payload = node.broadcast_message(&message).unwrap();
    assert_eq!(payload.len(), 307200);
    assert!(payload.iter().all(|b| *b == b'x'));
}

#[test]
fn submission_outcome_reports_a_lost_queue() {
    assert_eq!(Splash::submission_outcome(true), Ok(()));
    assert_eq!(Splash::submission_outcome(false), Err(SplashError::SendError));
}

#[test]
fn payload_text_of_valid_utf8_is_the_text() {
    assert_eq!(payload_text(&"offer1xyz".as_bytes().to_vec()), "offer1xyz");
    assert_eq!(payload_text(&vec![0xe2, 0x82, 0xac]), "\u{20ac}");
    assert_eq!(payload_text(&Vec::new()), "");
}

#[test]
fn payload_text_of_invalid_utf8_marks_the_damage() {
    assert_eq!(payload_text(&vec![b'a', 0xff, b'b']), "a\u{fffd}b");
}

#[test]
fn error_texts() {
    assert_eq!(
        SplashError::MessageTooLarge(307200).to_string(),
        "Message exceeds maximum size of 307200 bytes"
    );
    assert_eq!(
        SplashError::MessageTooLarge(0).to_string(),
        "Message exceeds maximum size of 0 bytes"
    );
    assert_eq!(
        SplashError::InvalidMessageFormat.to_string(),
        "Invalid message format: not a valid bech32 string"
    );
    assert_eq!(
        SplashError::SendError.to_string(),
        "Failed to send message to network"
    );
}

#[test]
fn payload_is_valid_up_to_the_limit() {
    assert_eq!(validate_payload(&[]), Ok(()));
    assert_eq!(validate_payload(&[0xff, 0x00, 0x80]), Ok(()));
    assert_eq!(validate_payload(&vec![0u8; 300 * 1024]), Ok(()));
    assert_eq!(validate_payload(&vec![0xffu8; 300 * 1024]), Ok(()));
}

#[test]
fn payload_over_the_limit_is_too_large() {
    assert_eq!(
        validate_payload(&vec![0u8; 300 * 1024 + 1]),
        Err(SplashError::MessageTooLarge(307200))
    );
    assert_eq!(
        validate_payload(&vec![0xffu8; 1024 * 1024]),
        Err(SplashError::MessageTooLarge(307200))
    );
}

#[test]
fn text_is_validated_as_the_payload_it_travels_as() {
    let text = "\u{20ac}".repeat(102400);
    assert_eq!(
        Splash::validate_message(&text),
        validate_payload(text.as_bytes())
    );
    let longer = format!("{}a", text);
    assert_eq!(
        Splash::validate_message(&longer),
        validate_payload(longer.as_bytes())
    );
}
