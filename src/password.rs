//! Password hashing with a memory-hard function and a per-registration salt.
use vstd::prelude::*;

use argon2::password_hash::rand_core::{OsRng, RngCore};
use argon2::password_hash::{Salt, SaltString};
use argon2::PasswordHasher;

verus! {

/// The PHC string that Argon2id with its default parameters renders for a
/// password and a salt; none where argon2 refuses the salt.
pub uninterp spec fn argon2_phc(password: Seq<char>, salt: Seq<char>) -> Option<Seq<char>>;

pub open spec fn text_view(r: Option<String>) -> Option<Seq<char>> {
    match r {
        Some(s) => Some(s@),
        None => None,
    }
}

/// Relies on argon2's `Argon2::default()` and `PasswordHasher::hash_password`,
/// rendered with `to_string`: the result depends on the password and the salt alone.
#[verifier::external_body]
fn argon2_hash(password: &str, salt: &str) -> (r: Option<String>)
    ensures
        text_view(r) == argon2_phc(password@, salt@),
{
    argon2::Argon2::default().hash_password(password.as_bytes(), salt).ok().map(|h| h.to_string())
}

/// Relies on `OsRng::try_fill_bytes` (the operating system's random source)
/// for the recommended number of salt bytes, and on `SaltString::b64_encode`
/// to encode them: a fresh random salt, or none where the random source fails.
/// Nothing else is promised of it.
#[verifier::external_body]
pub(crate) fn fresh_salt() -> (r: Option<String>) {
    let mut bytes = [0u8; Salt::RECOMMENDED_LENGTH];
    OsRng.try_fill_bytes(&mut bytes).ok()?;
    SaltString::b64_encode(&bytes).ok().map(|s| s.as_str().to_string())
}

/// Hashes a password with the given salt; `None` when the salt is refused.
pub fn hash_password(password: &str, salt: &str) -> (r: Option<String>)
    ensures
        text_view(r) == argon2_phc(password@, salt@),
{
    argon2_hash(password, salt)
}

} // verus!
