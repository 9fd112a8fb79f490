use base64::Engine;
use base64::engine::general_purpose::STANDARD;
use khan_academy_extractor::decode::{decode_base64, decode_quiz_parent, decode_test_parent};
use khan_academy_extractor::error::AppError;

#[test]
fn quiz_token_round_trip() {
    let token = STANDARD.encode("\u{11}ABC\u{c}rest".as_bytes());
    assert_eq!(decode_quiz_parent(&token).unwrap(), "ABC");
}

#[test]
fn unit_test_token_round_trip() {
    let token = STANDARD.encode("prefix:XYZ\u{c}suffix".as_bytes());
    assert_eq!(decode_test_parent(&token).unwrap(), "XYZ");
}

#[test]
fn decode_base64_recovers_text() {
    let token = STANDARD.encode("hello world".as_bytes());
    assert_eq!(decode_base64(&token).unwrap(), "hello world");
}

#[test]
fn unpadded_token_is_padded_before_decoding() {
    let token = STANDARD.encode("\u{11}A\u{c}b".as_bytes());
    let unpadded = token.trim_end_matches('=').to_string();
    assert_ne!(unpadded.len() % 4, 0);
    assert_eq!(decode_quiz_parent(&unpadded).unwrap(), "A");
}

#[test]
fn invalid_base64_is_a_decode_error() {
    match decode_base64("!!!!") {
        Err(AppError::Decode(_)) => {}
        other => panic!("expected a decode error, got {:?}", other),
    }
    match decode_quiz_parent("!!!!") {
        Err(AppError::Decode(_)) => {}
        other => panic!("expected a decode error, got {:?}", other),
    }
}

#[test]
fn missing_delimiter_is_a_decode_error() {
    let token = STANDARD.encode("no delimiters here".as_bytes());
    match decode_quiz_parent(&token) {
        Err(AppError::Decode(_)) => {}
        other => panic!("expected a decode error, got {:?}", other),
    }
    // The first delimiter alone is not enough.
    let token2 = STANDARD.encode("\u{11}only-start".as_bytes());
    match decode_quiz_parent(&token2) {
        Err(AppError::Decode(_)) => {}
        other => panic!("expected a decode error, got {:?}", other),
    }
}

#[test]
fn second_delimiter_must_follow_the_first() {
    // A form-feed before the start marker does not count.
    let token = STANDARD.encode("\u{c}early\u{11}PID\u{c}tail".as_bytes());
    assert_eq!(decode_quiz_parent(&token).unwrap(), "PID");
}

#[test]
fn empty_token_decodes_to_empty_text() {
    assert_eq!(decode_base64("").unwrap(), "");
}
