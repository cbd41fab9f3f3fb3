use guild_access::error::AuthError;
use guild_access::password::{hash_password, verify_password};

#[test]
fn hash_then_verify_accepts_the_same_password() {
    let hash = hash_password("correct horse battery staple").unwrap();
    assert!(verify_password("correct horse battery staple", &hash).unwrap());
}

#[test]
fn hash_is_not_the_password() {
    let hash = hash_password("hunter2").unwrap();
    assert_ne!(hash, "hunter2");
    assert!(hash.starts_with("$2b$12$"));
    assert_eq!(hash.len(), 60);
}

#[test]
fn verify_rejects_another_password() {
    let hash = hash_password("hunter2").unwrap();
    assert!(!verify_password("hunter3", &hash).unwrap());
    assert!(!verify_password("", &hash).unwrap());
}

#[test]
fn two_hashes_of_one_password_differ_and_both_verify() {
    let first = hash_password("same").unwrap();
    let second = hash_password("same").unwrap();
    assert_ne!(first, second);
    assert!(verify_password("same", &first).unwrap());
    assert!(verify_password("same", &second).unwrap());
}

#[test]
fn verify_accepts_a_known_hash() {
    let hash = "$2y$05$bvIG6Nmid91Mu9RcmmWZfO5HJIMCT8riNW0hEp8f6/FuA2/mHZFpe";
    assert!(verify_password("password", hash).unwrap());
    assert!(!verify_password("passw0rd", hash).unwrap());
}

#[test]
fn verify_fails_on_an_unreadable_hash() {
    assert!(matches!(verify_password("hunter2", "not a hash"), Err(AuthError::PasswordHash(_))));
    assert!(matches!(verify_password("hunter2", ""), Err(AuthError::PasswordHash(_))));
    assert!(matches!(
        verify_password("hunter2", "$2b$12$tooshort"),
        Err(AuthError::PasswordHash(bcrypt::BcryptError::InvalidHash(_)))
    ));
}

#[test]
fn empty_password_round_trips() {
    let hash = hash_password("").unwrap();
    assert!(verify_password("", &hash).unwrap());
    assert!(!verify_password("x", &hash).unwrap());
}
