use asset_rules::account::AccountId;
use asset_rules::error::{AccessControlError, Error, LockError, OwnableError};
use asset_rules::text::{bytes_text, copy_bytes, decimal_string, same_bytes, text_bytes};

#[test]
fn decimal_numerals() {
    assert_eq!(decimal_string(0), "0");
    assert_eq!(decimal_string(9), "9");
    assert_eq!(decimal_string(10), "10");
    assert_eq!(decimal_string(1005), "1005");
    assert_eq!(decimal_string(u64::MAX), "18446744073709551615");
    for n in [1u64, 42, 99, 100, 999_999, 1 << 40] {
        assert_eq!(decimal_string(n), n.to_string());
    }
}

#[test]
fn bytes_that_are_text_are_decoded() {
    assert_eq!(bytes_text(&Vec::new()), Some(String::new()));
    assert_eq!(bytes_text(&b"plain".to_vec()), Some(String::from("plain")));
    assert_eq!(bytes_text(&vec![0xc5, 0xbe, 0x21]), Some(String::from("ž!")));
    assert_eq!(bytes_text(&vec![0xf0, 0x9f, 0x90, 0x8e]), Some(String::from("🐎")));
}

#[test]
fn bytes_that_are_no_text_are_refused() {
    assert_eq!(bytes_text(&vec![0xff]), None);
    assert_eq!(bytes_text(&vec![0xc5]), None);
    assert_eq!(bytes_text(&vec![0x61, 0x80]), None);
    // an encoded surrogate and an overlong form
    assert_eq!(bytes_text(&vec![0xed, 0xa0, 0x80]), None);
    assert_eq!(bytes_text(&vec![0xc0, 0xaf]), None);
}

#[test]
fn text_goes_to_bytes_and_back() {
    for text in ["", "a", "baseURI", "žluťoučký", "日本語", "🐎🐎"] {
        let bytes = text_bytes(&String::from(text));
        assert_eq!(bytes, text.as_bytes().to_vec());
        assert_eq!(bytes_text(&bytes), Some(String::from(text)));
    }
}

#[test]
fn byte_strings_are_compared_byte_for_byte() {
    assert!(same_bytes(&Vec::new(), &Vec::new()));
    assert!(same_bytes(&vec![1, 2, 3], &vec![1, 2, 3]));
    assert!(!same_bytes(&vec![1, 2, 3], &vec![1, 2]));
    assert!(!same_bytes(&vec![1, 2], &vec![1, 2, 3]));
    assert!(!same_bytes(&vec![1, 2, 3], &vec![1, 2, 4]));
    assert!(!same_bytes(&vec![0, 2, 3], &vec![1, 2, 3]));
    assert_eq!(copy_bytes(&vec![5, 6]), vec![5, 6]);
}

#[test]
fn accounts_are_compared_byte_for_byte() {
    let a = AccountId { bytes: [7; 32] };
    let mut bytes = [7u8; 32];
    assert_eq!(a, AccountId { bytes });
    bytes[0] = 8;
    assert_ne!(a, AccountId { bytes });
    bytes[0] = 7;
    bytes[31] = 0;
    assert_ne!(a, AccountId { bytes });
}

#[test]
fn errors_convert() {
    assert_eq!(Error::from(LockError::Locked), Error::Custom(String::from("O::Locked")));
    assert_eq!(Error::from(LockError::NotLocked), Error::Custom(String::from("O::NotLocked")));
    assert_eq!(
        Error::from(OwnableError::CallerIsNotOwner),
        Error::OwnableError(OwnableError::CallerIsNotOwner)
    );
    assert_eq!(
        Error::from(OwnableError::NewOwnerIsZero),
        Error::OwnableError(OwnableError::NewOwnerIsZero)
    );
    assert_eq!(
        Error::from(AccessControlError::MissingRole),
        Error::AccessControlError(AccessControlError::MissingRole)
    );
}
