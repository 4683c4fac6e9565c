use qna::credentials::{hash_password, verify_password};
use qna::error::Error;

#[test]
fn verify_accepts_hash_of_same_password() {
    let hash = hash_password(b"secret1");
    assert_eq!(verify_password(&hash, b"secret1").unwrap(), true);
}

#[test]
fn verify_rejects_other_password() {
    let hash = hash_password(b"secret1");
    assert_eq!(verify_password(&hash, b"other").unwrap(), false);
}

#[test]
fn hashing_twice_differs() {
    let first = hash_password(b"secret1");
    let second = hash_password(b"secret1");
    assert_ne!(first, second);
}

#[test]
fn empty_password_round_trips() {
    let hash = hash_password(b"");
    assert_eq!(verify_password(&hash, b"").unwrap(), true);
    assert_eq!(verify_password(&hash, b"x").unwrap(), false);
}

#[test]
fn malformed_hash_is_an_error_not_a_mismatch() {
    let r = verify_password("not-an-encoded-hash", b"secret1");
    assert!(matches!(r, Err(Error::ArgonLibraryError)));
}
