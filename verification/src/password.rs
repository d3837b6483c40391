use vstd::prelude::*;

use argon2::password_hash::{PasswordHash, PasswordHasher, PasswordVerifier, SaltString};
use argon2::Argon2;

verus! {

/// Whether `password` verifies against the PHC hash string `hash` under
/// Argon2 with default parameters. The outcome is a function of the two
/// strings alone: the salt and the parameters travel inside the hash
/// string.
pub uninterp spec fn password_verifies(password: Seq<char>, hash: Seq<char>) -> bool;

/// Relies on argon2's PasswordHasher::hash_password with a freshly drawn
/// random salt: the returned PHC string verifies against the same
/// password. argon2 refuses a password over 0xFFFF_FFFF bytes; a char is
/// at most four bytes in UTF-8, so the bound on the char count keeps the
/// input under that limit, and for such an input — with a generated salt
/// and the default parameters, valid by construction — the call cannot
/// fail, so the hash is returned outright.
#[verifier::external_body]
pub(crate) fn hash_password(password: &str) -> (r: String)
    requires
        password@.len() <= 0x3FFF_FFFF,
    ensures
        password_verifies(password@, r@),
{
    let salt = SaltString::generate(&mut argon2::password_hash::rand_core::OsRng);
    let hash = Argon2::default()
        .hash_password(password.as_bytes(), &salt)
        .expect("a generated salt and default parameters are always valid");
    hash.to_string()
}

/// Relies on argon2's PasswordVerifier::verify_password: it recomputes
/// the hash from the salt and parameters carried in the PHC string and
/// compares, so the answer depends on the password and the hash string
/// alone. A string that does not parse as a PHC hash verifies nothing.
#[verifier::external_body]
pub(crate) fn verify_password(password: &str, hash: &str) -> (r: bool)
    ensures
        r == password_verifies(password@, hash@),
{
    match PasswordHash::new(hash) {
        Ok(parsed) => Argon2::default().verify_password(password.as_bytes(), &parsed).is_ok(),
        Err(_) => false,
    }
}

} // verus!
