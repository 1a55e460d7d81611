use auth_core::errors::AuthError;
use auth_core::password::{
    check_outcome, hash_outcome, hash_password, hash_with_drawn_salt, hash_with_salt,
    verify_password, SALT_CHARS,
};

const KNOWN_HASH: &str =
    "$argon2id$v=19$m=256,t=2,p=1$c29tZXNhbHQ$nf65EOgLrQMR/uIPnA4rEsF5h7TKyQwu9U1bMCHGi/4";

#[test]
fn hashed_password_verifies() {
    let hash = hash_password("secret123").unwrap();
    assert_eq!(verify_password("secret123", &hash), Ok(true));
}

#[test]
fn other_password_does_not_verify() {
    let hash = hash_password("secret123").unwrap();
    assert_eq!(verify_password("secret124", &hash), Ok(false));
    assert_eq!(verify_password("", &hash), Ok(false));
}

#[test]
fn hash_is_a_phc_string_with_the_default_costs() {
    let hash = hash_password("secret123").unwrap();
    assert!(hash.starts_with("$argon2id$v=19$m=19456,t=2,p=1$"));
    assert_eq!(hash.split('$').count(), 6);
    assert!(!hash.contains("secret123"));
}

#[test]
fn two_hashes_of_one_password_differ_and_both_verify() {
    let first = hash_password("secret123").unwrap();
    let second = hash_password("secret123").unwrap();
    assert_ne!(first, second);
    assert_eq!(verify_password("secret123", &first), Ok(true));
    assert_eq!(verify_password("secret123", &second), Ok(true));
}

#[test]
fn empty_password_can_be_hashed() {
    let hash = hash_password("").unwrap();
    assert_eq!(verify_password("", &hash), Ok(true));
    assert_eq!(verify_password(" ", &hash), Ok(false));
}

#[test]
fn hash_with_given_salt_is_determined_by_password_and_salt() {
    let first = hash_with_salt("password", "c29tZXNhbHQ").unwrap();
    let second = hash_with_salt("password", "c29tZXNhbHQ").unwrap();
    let other_salt = hash_with_salt("password", "ZGlmZnNhbHQ").unwrap();
    let other_password = hash_with_salt("differentpassword", "c29tZXNhbHQ").unwrap();
    assert_eq!(first, second);
    assert_ne!(first, other_salt);
    assert_ne!(first, other_password);
    assert!(first.starts_with("$argon2id$v=19$m=19456,t=2,p=1$c29tZXNhbHQ$"));
    assert!(other_salt.starts_with("$argon2id$v=19$m=19456,t=2,p=1$ZGlmZnNhbHQ$"));
    assert_eq!(verify_password("password", &first), Ok(true));
    assert_eq!(verify_password("password", &other_password), Ok(false));
}

#[test]
fn hash_with_a_refused_salt_is_a_hashing_error() {
    for salt in ["", "abc", "not base64!", "c29tZXNhbHQ="] {
        assert_eq!(hash_with_salt("password", salt), Err(AuthError::PasswordHashingError));
    }
}

#[test]
fn hashing_that_gave_nothing_is_a_hashing_error() {
    assert_eq!(hash_outcome(None), Err(AuthError::PasswordHashingError));
    assert_eq!(hash_outcome(Some("$argon2id$x".to_string())), Ok("$argon2id$x".to_string()));
}

#[test]
fn known_hash_verifies_its_password_only() {
    assert_eq!(verify_password("password", KNOWN_HASH), Ok(true));
    assert_eq!(verify_password("differentpassword", KNOWN_HASH), Ok(false));
    assert_eq!(verify_password("Password", KNOWN_HASH), Ok(false));
}

#[test]
fn hash_with_changed_digest_does_not_verify() {
    let changed =
        "$argon2id$v=19$m=256,t=2,p=1$c29tZXNhbHQ$of65EOgLrQMR/uIPnA4rEsF5h7TKyQwu9U1bMCHGi/4";
    assert_eq!(verify_password("password", changed), Ok(false));
}

#[test]
fn hash_of_another_algorithm_is_well_formed_but_not_accepted() {
    let foreign = "$pbkdf2-sha256$i=1000$c29tZXNhbHQ$nf65EOgLrQMR/uIPnA4rEsF5h7TKyQwu9U1bMCHGi/4";
    assert_eq!(verify_password("password", foreign), Ok(false));
}

#[test]
fn malformed_hash_is_a_hashing_error() {
    assert_eq!(verify_password("secret123", "not a hash"), Err(AuthError::PasswordHashingError));
    assert_eq!(verify_password("secret123", ""), Err(AuthError::PasswordHashingError));
    assert_eq!(verify_password("secret123", "secret123"), Err(AuthError::PasswordHashingError));
    assert_eq!(
        verify_password("password", "$argon2id$v=19$m=256,t=2,p=1$c29tZXNhbHQ$not base64!"),
        Err(AuthError::PasswordHashingError)
    );
}

#[test]
fn check_of_a_hash_that_is_no_phc_string_is_a_hashing_error() {
    assert_eq!(check_outcome(None), Err(AuthError::PasswordHashingError));
    assert_eq!(check_outcome(Some(true)), Ok(true));
    assert_eq!(check_outcome(Some(false)), Ok(false));
}

#[test]
fn drawn_salt_has_22_characters() {
    assert_eq!(SALT_CHARS, 22);
    let hash = hash_password("secret123").unwrap();
    let fields: Vec<&str> = hash.split('$').collect();
    assert_eq!(fields[4].len(), 22);
    assert!(fields[4].chars().all(|c| c.is_ascii_alphanumeric() || c == '+' || c == '/'));
}

#[test]
fn hashing_without_a_salt_is_a_hashing_error() {
    assert_eq!(hash_with_drawn_salt("password", None), Err(AuthError::PasswordHashingError));
}

#[test]
fn hashing_with_a_drawn_salt_is_hashing_with_that_salt() {
    let drawn = hash_with_drawn_salt("password", Some("c29tZXNhbHRzb21lc2FsdA".to_string()));
    let given = hash_with_salt("password", "c29tZXNhbHRzb21lc2FsdA");
    assert_eq!(drawn, given);
    let hash = drawn.unwrap();
    assert!(hash.starts_with("$argon2id$v=19$m=19456,t=2,p=1$c29tZXNhbHRzb21lc2FsdA$"));
    assert_eq!(verify_password("password", &hash), Ok(true));
}
