//! Password hashing and session tokens.

use argon2::PasswordHasher;
use argon2::PasswordVerifier;
use vstd::prelude::*;

verus! {

/// The PHC string that Argon2, with its default parameters, gives for
/// `password` under `salt`.
pub uninterp spec fn argon2_phc(password: Seq<char>, salt: Seq<char>) -> Seq<char>;

/// Whether `password` hashes to the PHC string `phc`.
pub uninterp spec fn argon2_accepts(password: Seq<char>, phc: Seq<char>) -> bool;

/// A digit of the B64 encoding that password-hash uses: `[A-Za-z0-9+/]`.
pub open spec fn is_b64_digit(c: char) -> bool {
    ||| 'A' <= c <= 'Z'
    ||| 'a' <= c <= 'z'
    ||| '0' <= c <= '9'
    ||| c == '+'
    ||| c == '/'
}

/// The shape of a generated salt: 16 bytes as 22 unpadded B64 digits, the last
/// of which carries only two bits of data.
pub open spec fn generated_salt(s: Seq<char>) -> bool {
    &&& s.len() == 22
    &&& forall|i: int| 0 <= i < s.len() ==> is_b64_digit(#[trigger] s[i])
    &&& (s[21] == 'A' || s[21] == 'Q' || s[21] == 'g' || s[21] == 'w')
}

/// Relies on password-hash's `SaltString::generate` fed by rand's `OsRng`: a
/// fresh random salt, 16 random bytes written by `SaltString::encode_b64` as 22
/// unpadded B64 digits. Also serves as an opaque session token.
#[verifier::external_body]
pub(crate) fn random_salt() -> (r: String)
    ensures
        generated_salt(r@),
{
    argon2::password_hash::SaltString::generate(&mut rand::rngs::OsRng).to_string()
}

/// Relies on `SaltString::from_b64` and `Argon2::default().hash_password`: the
/// PHC string of `password` hashed under `salt`, which depends on the two alone;
/// `None` where the salt is refused or hashing fails. A generated salt decodes
/// to 16 bytes, above Argon2's minimum of 8, and Argon2 refuses only passwords
/// over 0xFFFF_FFFF bytes (a character takes at most 4), so then it succeeds.
#[verifier::external_body]
pub(crate) fn hash_password(password: &str, salt: &str) -> (r: Option<String>)
    ensures
        r matches Some(h) ==> h@ == argon2_phc(password@, salt@),
        generated_salt(salt@) && 4 * password@.len() <= 0xFFFF_FFFF ==> r is Some,
{
    let salt = argon2::password_hash::SaltString::from_b64(salt).ok()?;
    argon2::Argon2::default().hash_password(password.as_bytes(), &salt).ok().map(|h| h.to_string())
}

/// Relies on `PasswordHash::new` and `Argon2::default().verify_password`:
/// whether `password` hashes to the PHC string `phc` (false where `phc` does not
/// parse). The answer depends on the two strings alone.
#[verifier::external_body]
pub(crate) fn verify_password(password: &str, phc: &str) -> (r: bool)
    ensures
        r == argon2_accepts(password@, phc@),
{
    match argon2::PasswordHash::new(phc) {
        Ok(hash) => argon2::Argon2::default().verify_password(password.as_bytes(), &hash).is_ok(),
        Err(_) => false,
    }
}

} // verus!
