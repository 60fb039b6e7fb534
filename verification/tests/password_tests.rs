use vaultchat::password::{hash_password, verify_password};

#[test]
fn hashed_password_verifies() {
    let h = hash_password("correct horse").unwrap();
    assert!(h.starts_with("$argon2id$"));
    assert!(verify_password(&h, "correct horse"));
    assert!(!verify_password(&h, "wrong horse"));
}

#[test]
fn two_hashes_differ_by_salt() {
    let a = hash_password("pw").unwrap();
    let b = hash_password("pw").unwrap();
    assert_ne!(a, b);
    assert!(verify_password(&a, "pw") && verify_password(&b, "pw"));
}

#[test]
fn malformed_hash_never_verifies() {
    assert!(!verify_password("not a hash", "pw"));
    assert!(!verify_password("", ""));
}

#[test]
fn empty_password_is_hashable() {
    let h = hash_password("").unwrap();
    assert!(verify_password(&h, ""));
    assert!(!verify_password(&h, " "));
}

#[test]
fn hash_records_default_parameters() {
    let h = hash_password("pw").unwrap();
    assert!(h.starts_with("$argon2id$v=19$m=19456,t=2,p=1$"));
}

#[test]
fn text_without_phc_start_never_verifies() {
    assert!(!verify_password("not-a-hash", "not-a-hash"));
    assert!(!verify_password("argon2id$v=19$", "pw"));
}
