//! Passwords and the claims of an access token.

use vstd::prelude::*;

verus! {

/// Hours for which an issued token is valid.
pub const JWT_EXPIRATION_HOURS: i64 = 24;

/// What an access token states of its bearer.
#[derive(Debug)]
pub struct Claims {
    pub user_id: i32,
    pub username: String,
    /// Expiry, in seconds since the Unix epoch.
    pub exp: i64,
}

impl Clone for Claims {
    fn clone(&self) -> (copy: Claims)
        ensures
            copy == *self,
    {
        Claims { user_id: self.user_id, username: self.username.clone(), exp: self.exp }
    }
}

impl Claims {
    /// The claims of a token issued to a user at `now`, in seconds since the
    /// Unix epoch: it expires `JWT_EXPIRATION_HOURS` later. The expiry has to
    /// fit the integer type.
    pub fn issue(user_id: i32, username: String, now: i64) -> (claims: Claims)
        requires
            now + JWT_EXPIRATION_HOURS * 3600 <= i64::MAX,
        ensures
            claims.user_id == user_id,
            claims.username == username,
            claims.exp == now + JWT_EXPIRATION_HOURS * 3600,
    {
        Claims { user_id, username, exp: now + JWT_EXPIRATION_HOURS * 3600 }
    }
}

/// `bcrypt::BcryptError`, handed on as it comes; nothing is known of its
/// content.
#[verifier::external_type_specification]
#[verifier::external_body]
pub struct ExBcryptError(bcrypt::BcryptError);

/// What `bcrypt::verify` makes of a password and a stored hash: whether the
/// password is the hashed one, or nothing when it reports an error.
pub uninterp spec fn bcrypt_verdict(password: Seq<char>, hash: Seq<char>) -> Option<bool>;

/// Hashes a password for storage.
///
/// Calls `bcrypt::hash` with `bcrypt::DEFAULT_COST`. The salt is drawn at
/// random, so nothing is promised of the result.
#[verifier::external_body]
pub fn hash_password(password: &str) -> (hashed: Result<String, bcrypt::BcryptError>) {
    bcrypt::hash(password, bcrypt::DEFAULT_COST)
}

/// Checks a password against a stored hash.
///
/// Calls `bcrypt::verify`. Assumed, not proved: the answer, and whether
/// there is one, depends on the password and the hash alone; it is named
/// `bcrypt_verdict`.
#[verifier::external_body]
pub fn verify_password(password: &str, hash: &str) -> (verdict: Result<bool, bcrypt::BcryptError>)
    ensures
        match verdict {
            Ok(matches) => bcrypt_verdict(password@, hash@) == Some(matches),
            Err(_) => bcrypt_verdict(password@, hash@) is None,
        },
{
    bcrypt::verify(password, hash)
}

} // verus!
