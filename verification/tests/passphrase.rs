//! Pre-shared key validation: ASCII only, length within 8..=64.

use wifi_connect::security::{validate_pre_shared_key, PskFault};

#[test]
fn length_seven_is_rejected() {
    assert_eq!(validate_pre_shared_key("1234567"), Err(PskFault::TooShort));
}

#[test]
fn length_eight_is_accepted() {
    assert_eq!(validate_pre_shared_key("12345678"), Ok(()));
}

#[test]
fn length_sixty_four_is_accepted() {
    let key = "a".repeat(64);
    assert_eq!(validate_pre_shared_key(&key), Ok(()));
}

#[test]
fn length_sixty_five_is_rejected() {
    let key = "a".repeat(65);
    assert_eq!(validate_pre_shared_key(&key), Err(PskFault::TooLong));
}

#[test]
fn non_ascii_is_rejected() {
    assert_eq!(
        validate_pre_shared_key("pässwörter"),
        Err(PskFault::NotAscii)
    );
}

#[test]
fn empty_key_is_too_short() {
    assert_eq!(validate_pre_shared_key(""), Err(PskFault::TooShort));
}
