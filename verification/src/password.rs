//! Hashing passwords and checking them, with Argon2 and a fresh salt for
//! every hash. A hash is kept as a PHC string, which names the algorithm, its
//! cost parameters, the salt and the digest.

use crate::errors::{AuthError, AuthErrorView};
use crate::model::{option_view, result_view};
use argon2::password_hash::rand_core::{OsRng, RngCore};
use argon2::password_hash::{Salt, SaltString};
use argon2::{Argon2, PasswordHash, PasswordHasher, PasswordVerifier};
use vstd::prelude::*;

verus! {

/// The PHC string that `hash_password` of `Argon2::default()` gives for the
/// password under the salt that `SaltString::from_b64` reads from `salt`;
/// `None` where the salt is refused or the hashing fails.
pub uninterp spec fn argon2_phc(password: Seq<char>, salt: Seq<char>) -> Option<Seq<char>>;

/// Whether `PasswordHash::new` of the `password-hash` crate takes `hash` for a
/// PHC string.
pub uninterp spec fn phc_parses(hash: Seq<char>) -> bool;

/// Whether `verify_password` of `Argon2::default()` accepts `password` for the
/// parsed PHC string `hash`: whether the digest recomputed from the password
/// under the string's own parameters and salt is the one the string holds.
pub uninterp spec fn argon2_accepts(password: Seq<char>, hash: Seq<char>) -> bool;

/// How many characters a drawn salt has: sixteen random bytes, written in B64
/// without padding.
pub const SALT_CHARS: usize = 22;

/// A salt drawn from the operating system's random source:
/// `OsRng.try_fill_bytes` on `Salt::RECOMMENDED_LENGTH` bytes, which are
/// sixteen, and `SaltString::encode_b64` of them, as text. `None` where the
/// random source fails or the encoding does. Trusted: a salt that comes out
/// has 22 characters, the length of sixteen bytes in B64 without padding.
/// The salt is random, so nothing else is said of it.
#[verifier::external_body]
fn fresh_salt() -> (salt: Option<String>)
    ensures
        salt matches Some(s) ==> s@.len() == SALT_CHARS,
{
    let mut bytes = [0u8; Salt::RECOMMENDED_LENGTH];
    match OsRng.try_fill_bytes(&mut bytes) {
        Ok(()) => match SaltString::encode_b64(&bytes) {
            Ok(salt) => Some(salt.as_str().to_owned()),
            Err(_) => None,
        },
        Err(_) => None,
    }
}

/// `hash_password` of `Argon2::default()` under the salt that
/// `SaltString::from_b64` reads, and the hash written out as a PHC string.
/// Trusted: the outcome is a function of password and salt; and a string that
/// comes out parses as a PHC string again, and verifying the same password
/// against it succeeds, since verification recomputes the digest from the
/// algorithm, parameters and salt that the string carries.
#[verifier::external_body]
fn argon2_hash(password: &str, salt: &str) -> (hash: Option<String>)
    ensures
        option_view(hash) == argon2_phc(password@, salt@),
        hash matches Some(h) ==> phc_parses(h@) && argon2_accepts(password@, h@),
{
    match SaltString::from_b64(salt) {
        Ok(salt) => match Argon2::default().hash_password(password.as_bytes(), &salt) {
            Ok(hash) => Some(hash.to_string()),
            Err(_) => None,
        },
        Err(_) => None,
    }
}

/// `PasswordHash::new`: whether the text is a PHC string.
#[verifier::external_body]
fn phc_well_formed(hash: &str) -> (ok: bool)
    ensures
        ok == phc_parses(hash@),
{
    PasswordHash::new(hash).is_ok()
}

/// `verify_password` of `Argon2::default()` on the parsed hash. Any error of
/// the call (another algorithm, parameters out of range, a digest that
/// differs) counts as not accepted.
#[verifier::external_body]
fn argon2_verify(password: &str, hash: &str) -> (ok: bool)
    requires
        phc_parses(hash@),
    ensures
        ok == argon2_accepts(password@, hash@),
{
    match PasswordHash::new(hash) {
        Ok(parsed) => Argon2::default().verify_password(password.as_bytes(), &parsed).is_ok(),
        Err(_) => false,
    }
}

/// What hashing comes to, given what the hashing function gave: its string, or
/// a failure of hashing where it gave none.
pub open spec fn spec_hash_outcome(hash: Option<Seq<char>>) -> Result<Seq<char>, AuthErrorView> {
    match hash {
        Some(h) => Ok(h),
        None => Err(AuthErrorView::PasswordHashingError),
    }
}

/// What hashing `password` under `salt` gives.
pub open spec fn spec_hash_with_salt(password: Seq<char>, salt: Seq<char>) -> Result<
    Seq<char>,
    AuthErrorView,
> {
    spec_hash_outcome(argon2_phc(password, salt))
}

/// What hashing `password` gives, given the salt that was drawn for it, or
/// `None` where none could be drawn, which is a failure of hashing.
pub open spec fn spec_hash_with_drawn_salt(password: Seq<char>, salt: Option<Seq<char>>) -> Result<
    Seq<char>,
    AuthErrorView,
> {
    match salt {
        Some(salt) => spec_hash_with_salt(password, salt),
        None => Err(AuthErrorView::PasswordHashingError),
    }
}

/// What a check comes to, given whether the password was accepted for the
/// hash, or `None` where the hash is no PHC string.
pub open spec fn spec_check_outcome(accepted: Option<bool>) -> Result<bool, AuthErrorView> {
    match accepted {
        Some(accepted) => Ok(accepted),
        None => Err(AuthErrorView::PasswordHashingError),
    }
}

/// What checking `password` against the stored `hash` gives: a failure of
/// hashing where `hash` is no PHC string, else whether the password is the one
/// that was hashed.
pub open spec fn spec_verify_password(password: Seq<char>, hash: Seq<char>) -> Result<
    bool,
    AuthErrorView,
> {
    spec_check_outcome(
        if phc_parses(hash) {
            Some(argon2_accepts(password, hash))
        } else {
            None
        },
    )
}

/// What hashing comes to, given what the hashing function gave.
pub fn hash_outcome(hash: Option<String>) -> (hashed: Result<String, AuthError>)
    ensures
        result_view(hashed) == spec_hash_outcome(option_view(hash)),
{
    match hash {
        Some(h) => Ok(h),
        None => Err(AuthError::PasswordHashingError),
    }
}

/// Hashes `password` under the salt `salt`, a salt in the B64 text that PHC
/// strings use. The hash is a function of the two. A hash that comes out is a
/// PHC string, and checking the same password against it succeeds. The only
/// failure is `PasswordHashingError`: the salt is refused or the hashing
/// itself fails.
pub fn hash_with_salt(password: &str, salt: &str) -> (hashed: Result<String, AuthError>)
    ensures
        result_view(hashed) == spec_hash_with_salt(password@, salt@),
        hashed matches Ok(h) ==> spec_verify_password(password@, h@) == Ok::<bool, AuthErrorView>(
            true,
        ),
{
    hash_outcome(argon2_hash(password, salt))
}

/// Hashes `password`, given the salt that was drawn for it, or `None` where
/// none could be drawn, which is a `PasswordHashingError`.
pub fn hash_with_drawn_salt(password: &str, salt: Option<String>) -> (hashed: Result<
    String,
    AuthError,
>)
    ensures
        result_view(hashed) == spec_hash_with_drawn_salt(password@, option_view(salt)),
        hashed matches Ok(h) ==> spec_verify_password(password@, h@) == Ok::<bool, AuthErrorView>(
            true,
        ),
{
    match salt {
        Some(salt) => hash_with_salt(password, salt.as_str()),
        None => Err(AuthError::PasswordHashingError),
    }
}

/// Hashes `password` under a salt drawn for this call: sixteen bytes from the
/// operating system's random source, 22 characters in B64. Whatever the salt
/// is, the hash is the one that `hash_with_salt` gives for it: a hash that
/// comes out is a PHC string, and checking the same password against it
/// succeeds. The only failure is `PasswordHashingError`, and it does not
/// depend on the password's shape: no salt could be drawn, or the hashing
/// itself failed.
pub fn hash_password(password: &str) -> (hashed: Result<String, AuthError>)
    ensures
        exists|salt: Option<Seq<char>>|
            (salt matches Some(s) ==> s.len() == SALT_CHARS) && result_view(hashed)
                == #[trigger] spec_hash_with_drawn_salt(password@, salt),
        hashed matches Ok(h) ==> spec_verify_password(password@, h@) == Ok::<bool, AuthErrorView>(
            true,
        ),
        hashed matches Err(e) ==> e@ is PasswordHashingError,
{
    let salt = fresh_salt();
    let ghost drawn = option_view(salt);
    let hashed = hash_with_drawn_salt(password, salt);
    proof {
        assert(result_view(hashed) == spec_hash_with_drawn_salt(password@, drawn));
    }
    hashed
}

/// What a check comes to, given whether the password was accepted for the
/// hash, or `None` where the hash is no PHC string.
pub fn check_outcome(accepted: Option<bool>) -> (checked: Result<bool, AuthError>)
    ensures
        result_view(checked) == spec_check_outcome(accepted),
{
    match accepted {
        Some(accepted) => Ok(accepted),
        None => Err(AuthError::PasswordHashingError),
    }
}

/// Checks `password` against the stored `hash`. A `hash` that is no PHC string
/// is a `PasswordHashingError`; a password that does not match is `Ok(false)`,
/// not an error.
pub fn verify_password(password: &str, hash: &str) -> (checked: Result<bool, AuthError>)
    ensures
        result_view(checked) == spec_verify_password(password@, hash@),
{
    let accepted = if phc_well_formed(hash) {
        Some(argon2_verify(password, hash))
    } else {
        None
    };
    check_outcome(accepted)
}

} // verus!
