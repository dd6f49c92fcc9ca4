//! Hashing and checking the passwords of stored accounts.
//!
//! A password is stored as a PHC string: algorithm, version, cost parameters,
//! salt and digest in one self-describing text. The hashing itself is Argon2id
//! with the default cost parameters, done by `argon2`.

use crate::error::{text_of, AuthError};
use argon2::password_hash::rand_core::{OsRng, RngCore};
use argon2::password_hash::{PasswordHash, PasswordHasher, PasswordVerifier, Salt, SaltString};
use argon2::Argon2;
use vstd::prelude::*;

verus! {

/// The error type of `password_hash`, carried through unopened.
#[verifier::external_type_specification]
#[verifier::external_body]
pub struct ExHashError(argon2::password_hash::Error);

/// What parsing an encoded hash and checking a password against it gave.
#[derive(Clone, Copy, Debug, PartialEq, Eq, Structural)]
pub enum PhcCheck {
    /// The text does not parse as a PHC string.
    Unparsed,
    /// The recomputed digest equals the one in the string.
    Matches,
    /// The recomputed digest differs, or the string holds no salt or no digest.
    Differs,
    /// The string parses, but the hasher cannot work with what it names.
    Unusable,
}

/// The PHC string that `Argon2::default().hash_password` derives from a
/// password and a B64 salt, or `None` where the salt is refused or the hasher
/// reports an error.
pub uninterp spec fn argon2id_encoding(password: Seq<char>, salt: Seq<char>) -> Option<Seq<char>>;

/// What `PasswordHash::new` and `Argon2::default().verify_password` make of
/// an encoded hash and a password.
pub uninterp spec fn phc_check(password: Seq<char>, encoded: Seq<char>) -> PhcCheck;

/// A random salt of the recommended length, drawn from the operating
/// system's generator with `try_fill_bytes` and rendered by
/// `SaltString::encode_b64`; `None` where the generator or the encoder
/// reports an error. Nothing is claimed of the salt.
#[verifier::external_body]
pub(crate) fn fresh_salt() -> (salt: Option<String>) {
    let mut bytes = [0u8; Salt::RECOMMENDED_LENGTH];
    OsRng.try_fill_bytes(&mut bytes).ok()?;
    Some(SaltString::encode_b64(&bytes).ok()?.as_str().to_owned())
}

/// Hashes with `Argon2::default().hash_password` and renders the PHC string.
///
/// Trusted: the call is a function of the password and the salt. A string it
/// returns names the algorithm, the parameters and the salt it was made with,
/// so it parses, and `verify_password` recomputes the same digest from the
/// same password.
#[verifier::external_body]
fn argon2id_hash(password: &str, salt: &str) -> (encoded: Result<
    String,
    argon2::password_hash::Error,
>)
    ensures
        match encoded {
            Ok(h) => argon2id_encoding(password@, salt@) == Some(h@),
            Err(_) => argon2id_encoding(password@, salt@) is None,
        },
        encoded matches Ok(h) ==> phc_check(password@, h@) == PhcCheck::Matches,
{
    let salt = SaltString::from_b64(salt)?;
    Ok(Argon2::default().hash_password(password.as_bytes(), &salt)?.to_string())
}

/// Parses with `PasswordHash::new` and checks with
/// `Argon2::default().verify_password`.
///
/// Trusted: the call is a function of the password and the encoded hash. The
/// outcome is handed on as it came: of an error only whether it is the parse
/// that failed, `Error::Password`, or another.
#[verifier::external_body]
fn argon2_check(password: &str, encoded: &str) -> (outcome: PhcCheck)
    ensures
        outcome == phc_check(password@, encoded@),
{
    match PasswordHash::new(encoded) {
        Err(_) => PhcCheck::Unparsed,
        Ok(parsed) => match Argon2::default().verify_password(password.as_bytes(), &parsed) {
            Ok(()) => PhcCheck::Matches,
            Err(argon2::password_hash::Error::Password) => PhcCheck::Differs,
            Err(_) => PhcCheck::Unusable,
        },
    }
}

/// The outcome of hashing `password` with `salt`.
pub open spec fn spec_hash(password: Seq<char>, salt: Seq<char>) -> Result<Seq<char>, AuthError> {
    match argon2id_encoding(password, salt) {
        Some(encoded) => Ok(encoded),
        None => Err(AuthError::HashingFailed),
    }
}

/// The verdict on a check: whether the password matches. An encoded hash that
/// parses but cannot be worked with counts as a mismatch; only one that does
/// not parse at all is an `InvalidHashFormat`.
pub open spec fn spec_judge(outcome: PhcCheck) -> Result<bool, AuthError> {
    match outcome {
        PhcCheck::Matches => Ok(true),
        PhcCheck::Differs => Ok(false),
        PhcCheck::Unusable => Ok(false),
        PhcCheck::Unparsed => Err(AuthError::InvalidHashFormat),
    }
}

/// The outcome of checking `password` against `encoded`.
pub open spec fn spec_verify(password: Seq<char>, encoded: Seq<char>) -> Result<bool, AuthError> {
    spec_judge(phc_check(password, encoded))
}

/// Hashes `password` with the given B64 salt.
///
/// A hash that comes back verifies the password it was made from.
pub fn hash_with_salt(password: &str, salt: &str) -> (result: Result<String, AuthError>)
    ensures
        text_of(result) == spec_hash(password@, salt@),
        result matches Ok(encoded) ==> spec_verify(password@, encoded@) == Ok::<bool, AuthError>(
            true,
        ),
{
    match argon2id_hash(password, salt) {
        Ok(encoded) => Ok(encoded),
        Err(_) => Err(AuthError::HashingFailed),
    }
}

/// Hashes `password` under a fresh random salt.
///
/// A hash that comes back is the hash of the password under some salt, and
/// verifies the password. A generator that gives no salt fails the hashing
/// like the hasher itself.
pub fn encrypt_password(password: &str) -> (result: Result<String, AuthError>)
    ensures
        result matches Ok(encoded) ==> exists|salt: Seq<char>| #[trigger]
            spec_hash(password@, salt) == Ok::<Seq<char>, AuthError>(encoded@),
        result matches Ok(encoded) ==> spec_verify(password@, encoded@) == Ok::<bool, AuthError>(
            true,
        ),
        result matches Err(e) ==> e == AuthError::HashingFailed,
{
    match fresh_salt() {
        None => Err(AuthError::HashingFailed),
        Some(salt) => {
            let result = hash_with_salt(password, salt.as_str());
            assert(text_of(result) == spec_hash(password@, salt@));
            result
        },
    }
}

/// Decides on the outcome of a check.
pub fn judge(outcome: PhcCheck) -> (result: Result<bool, AuthError>)
    ensures
        result == spec_judge(outcome),
{
    match outcome {
        PhcCheck::Matches => Ok(true),
        PhcCheck::Differs => Ok(false),
        PhcCheck::Unusable => Ok(false),
        PhcCheck::Unparsed => Err(AuthError::InvalidHashFormat),
    }
}

/// Checks `password` against an encoded hash, with the parameters and the
/// salt that the hash itself names.
pub fn verify_password(password: &str, encoded: &str) -> (result: Result<bool, AuthError>)
    ensures
        result == spec_verify(password@, encoded@),
{
    judge(argon2_check(password, encoded))
}

} // verus!
