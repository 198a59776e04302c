//! Checking a secret against the password hash of a stored user.

use vstd::prelude::*;

verus! {

#[verifier::external_type_specification]
#[verifier::external_body]
pub struct ExBcryptError(bcrypt::BcryptError);

/// Whether bcrypt accepts `password` for `hash`, or `None` where `hash` is not
/// a well-formed bcrypt hash.
pub uninterp spec fn bcrypt_verdict(password: Seq<char>, hash: Seq<char>) -> Option<bool>;

/// Relies on `bcrypt::verify`: it fails only on a malformed hash, and otherwise
/// tells whether the password matches; the outcome depends on its two
/// arguments alone (the salt and cost are read from the hash).
#[verifier::external_body]
fn bcrypt_verify(password: &str, hash: &str) -> (r: Result<bool, bcrypt::BcryptError>)
    ensures
        match r {
            Ok(matched) => bcrypt_verdict(password@, hash@) == Some(matched),
            Err(_) => bcrypt_verdict(password@, hash@) is None,
        },
{
    bcrypt::verify(password, hash)
}

/// The user store could not answer.
#[derive(Clone, Copy, Debug, PartialEq, Eq, Structural)]
pub struct StoreFailure;

/// A failure of credential verification: the store was unreachable, or the
/// stored hash is corrupt.
#[derive(Clone, Copy, Debug, PartialEq, Eq, Structural)]
pub enum VerifyError {
    Store,
    Hash,
}

/// What the user store holds of a user for verification.
#[derive(Clone, Debug)]
pub struct StoredUser {
    pub id: i64,
    pub password_hash: String,
}

/// The result of a verification that reached a conclusion.
#[derive(Clone, Copy, Debug, PartialEq, Eq, Structural)]
pub enum Verification {
    /// No user has the given name.
    UnknownUser,
    /// The user exists but the secret does not match the stored hash.
    WrongPassword,
    /// The secret matches: the user with this id is the principal.
    Matched(i64),
}

impl Verification {
    /// The verified principal, if any.
    pub fn principal(&self) -> (r: Option<i64>)
        ensures
            r == match *self {
                Verification::Matched(id) => Some(id),
                _ => None,
            },
    {
        match self {
            Verification::Matched(id) => Some(*id),
            _ => None,
        }
    }
}

/// The verdict of checking `secret` against `hash`.
pub open spec fn password_check_spec(secret: Seq<char>, hash: Seq<char>) -> Result<bool, VerifyError> {
    match bcrypt_verdict(secret, hash) {
        Some(matched) => Ok(matched),
        None => Err(VerifyError::Hash),
    }
}

/// The outcome of verifying `secret` against what the store answered for the
/// identifier.
pub open spec fn verification_spec(
    secret: Seq<char>,
    lookup: Result<Option<StoredUser>, StoreFailure>,
) -> Result<Verification, VerifyError> {
    match lookup {
        Err(_) => Err(VerifyError::Store),
        Ok(None) => Ok(Verification::UnknownUser),
        Ok(Some(user)) => match password_check_spec(secret, user.password_hash@) {
            Err(e) => Err(e),
            Ok(true) => Ok(Verification::Matched(user.id)),
            Ok(false) => Ok(Verification::WrongPassword),
        },
    }
}

/// Checks `secret` against a bcrypt `hash`. A mismatch is `Ok(false)`; only a
/// malformed hash is an error.
pub fn verify_password(secret: &str, hash: &str) -> (r: Result<bool, VerifyError>)
    ensures
        r == password_check_spec(secret@, hash@),
{
    match bcrypt_verify(secret, hash) {
        Ok(matched) => Ok(matched),
        Err(_) => Err(VerifyError::Hash),
    }
}

/// Verifies `secret` for the user that the store returned for the identifier.
/// An absent user and a wrong secret are ordinary outcomes; only a store
/// failure or a malformed hash is an error. At most one hash comparison is made.
pub fn verify_credentials(
    secret: &str,
    lookup: Result<Option<StoredUser>, StoreFailure>,
) -> (r: Result<Verification, VerifyError>)
    ensures
        r == verification_spec(secret@, lookup),
{
    match lookup {
        Err(_) => Err(VerifyError::Store),
        Ok(None) => Ok(Verification::UnknownUser),
        Ok(Some(user)) => match verify_password(secret, user.password_hash.as_str()) {
            Err(e) => Err(e),
            Ok(true) => Ok(Verification::Matched(user.id)),
            Ok(false) => Ok(Verification::WrongPassword),
        },
    }
}

} // verus!
