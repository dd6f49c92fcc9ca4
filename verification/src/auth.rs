//! The request guard of every protected endpoint.
//!
//! The guard sees the `Authorization` header of a request, or its absence,
//! and yields the authenticated principal or the reason for turning the
//! request away. A handler behind the guard is reached only with a principal.

use crate::bearer::{bearer_token, spec_bearer_token};
use crate::error::AuthError;
use crate::jwt::{
    hs256_reading, is_clock_instant, spec_validate, unix_now, validate_at, TokenConfig, UserDto,
};
use vstd::prelude::*;

verus! {

/// The principal of an authenticated request.
#[derive(Clone, Debug, PartialEq, Eq)]
pub struct Auth(pub UserDto);

/// The header as a sequence of characters, if there is one.
pub open spec fn header_view(authorization: Option<&str>) -> Option<Seq<char>> {
    match authorization {
        Some(header) => Some(header@),
        None => None,
    }
}

/// The email behind a passed guard, the error of a failed one.
pub open spec fn guarded_of(result: Result<Auth, AuthError>) -> Result<Seq<char>, AuthError> {
    match result {
        Ok(auth) => Ok(auth.0.email@),
        Err(e) => Err(e),
    }
}

/// Whether the header, if any, carries a bearer value at all.
pub open spec fn carries_token(authorization: Option<Seq<char>>) -> bool {
    authorization matches Some(header) && spec_bearer_token(header) is Some
}

/// The guard's verdict at the instant `now`.
///
/// A missing header, and a header without a second piece, give
/// `NoTokenProvided`. Any other header gives what the validation of its
/// second piece gives, unchanged.
pub open spec fn spec_guard(authorization: Option<Seq<char>>, secret: Seq<char>, now: int) -> Result<
    Seq<char>,
    AuthError,
> {
    match authorization {
        None => Err(AuthError::NoTokenProvided),
        Some(header) => match spec_bearer_token(header) {
            None => Err(AuthError::NoTokenProvided),
            Some(token) => spec_validate(token, secret, now),
        },
    }
}

impl Auth {
    /// Guards a request as if the current instant were `now`.
    pub fn from_request_at(authorization: Option<&str>, config: &TokenConfig, now: i64) -> (result:
        Result<Auth, AuthError>)
        ensures
            guarded_of(result) == spec_guard(header_view(authorization), config.secret@, now as int),
    {
        let token = match authorization {
            Some(header) => bearer_token(header),
            None => None,
        };
        match token {
            None => Err(AuthError::NoTokenProvided),
            Some(token) => match validate_at(token, config, now) {
                Ok(user) => Ok(Auth(user)),
                Err(e) => Err(e),
            },
        }
    }

    /// Guards a request at the current instant.
    ///
    /// Without a header, or without a bearer value in it, the verdict is
    /// `NoTokenProvided` whatever the clock says.
    pub fn from_request(authorization: Option<&str>, config: &TokenConfig) -> (result: Result<
        Auth,
        AuthError,
    >)
        ensures
            exists|now: i64|
                #![trigger is_clock_instant(now)]
                is_clock_instant(now) && guarded_of(result) == spec_guard(
                    header_view(authorization),
                    config.secret@,
                    now as int,
                ),
            authorization is None ==> result matches Err(AuthError::NoTokenProvided),
            !carries_token(header_view(authorization)) ==> result matches Err(
                AuthError::NoTokenProvided,
            ),
            authorization matches Some(header) && spec_bearer_token(header@) matches Some(token)
                && hs256_reading(token, config.secret@) is BadSignature ==> result matches Err(
                AuthError::InvalidSignature,
            ),
    {
        let now = unix_now();
        let result = Auth::from_request_at(authorization, config, now);
        assert(is_clock_instant(now) && guarded_of(result) == spec_guard(
            header_view(authorization),
            config.secret@,
            now as int,
        ));
        result
    }
}

} // verus!
