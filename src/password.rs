//! Password hashing: the salted one-way scheme that stored credentials use
//! (Argon2 in its encoded text form).
use vstd::prelude::*;

use crate::config::Config;

verus! {

/// What `argon2::verify_encoded` answers for an encoded hash and a password:
/// whether they match, or nothing where it fails.
pub uninterp spec fn argon2_verified(encoded: Seq<char>, password: Seq<char>) -> Option<bool>;

/// What `argon2::hash_encoded` with the default configuration makes of a
/// password and a salt: an encoded hash, or nothing where it fails.
pub uninterp spec fn argon2_hashed(password: Seq<char>, salt: Seq<char>) -> Option<Seq<char>>;

#[verifier::external_type_specification]
#[verifier::external_body]
pub struct ExArgon2Error(argon2::Error);

/// Relies on `argon2::verify_encoded` on the password's bytes: the answer
/// depends on the encoded hash and the password alone.
#[verifier::external_body]
fn argon2_verify(encoded: &str, password: &str) -> (r: Result<bool, argon2::Error>)
    ensures
        r is Ok <==> argon2_verified(encoded@, password@) is Some,
        r is Ok ==> argon2_verified(encoded@, password@) == Some(r->Ok_0),
{
    argon2::verify_encoded(encoded, password.as_bytes())
}

/// Relies on `argon2::hash_encoded` with `argon2::Config::default()`, on the
/// bytes of the password and of the salt: the outcome depends on those alone.
#[verifier::external_body]
fn argon2_hash(password: &str, salt: &str) -> (r: Result<String, argon2::Error>)
    ensures
        r is Ok <==> argon2_hashed(password@, salt@) is Some,
        r is Ok ==> argon2_hashed(password@, salt@) == Some(r->Ok_0@),
{
    argon2::hash_encoded(password.as_bytes(), salt.as_bytes(), &argon2::Config::default())
}

/// Whether a presented password matches a stored hash. A hash that cannot be
/// checked counts as a mismatch.
pub open spec fn password_matches(encoded: Seq<char>, password: Seq<char>) -> bool {
    argon2_verified(encoded, password) == Some(true)
}

/// Checks a presented password against a stored hash.
pub fn verify_password(encoded: &str, password: &str) -> (r: bool)
    ensures
        r == password_matches(encoded@, password@),
{
    match argon2_verify(encoded, password) {
        Ok(ok) => ok,
        Err(_) => false,
    }
}

/// Hashes a password, salted with the configured secret key; nothing where
/// the hashing fails (a secret shorter than eight bytes, for one).
pub fn hash_password(password: &str, config: &Config) -> (r: Option<String>)
    ensures
        match argon2_hashed(password@, config.secret_key@) {
            Some(h) => r is Some && r->0@ == h,
            None => r is None,
        },
{
    match argon2_hash(password, config.secret_key.as_str()) {
        Ok(h) => Some(h),
        Err(_) => None,
    }
}

} // verus!
