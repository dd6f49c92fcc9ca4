//! The failures of the authentication core and how they surface over HTTP.

use vstd::prelude::*;
use vstd::string::*;

verus! {

/// Every way in which a login, a registration or a guarded request can fail.
#[derive(Clone, Copy, Debug, PartialEq, Eq, Structural)]
pub enum AuthError {
    /// The request carried no usable `Authorization` header.
    NoTokenProvided,
    /// The token could not be read as a signed claim set.
    Malformed,
    /// The token's signature does not belong to the configured secret.
    InvalidSignature,
    /// The token's expiration instant is at or before the current instant.
    Expired,
    /// No token could be produced for the claims.
    SigningFailed,
    /// The password could not be hashed.
    HashingFailed,
    /// The stored hash is not a PHC string.
    InvalidHashFormat,
    /// No account is stored under the given email.
    NoSuchAccount,
    /// The username is already taken.
    DuplicateUsername,
    /// The account store could not be reached or failed.
    BackendUnavailable,
}

impl AuthError {
    /// Whether the failure comes from checking a bearer token.
    pub open spec fn is_token_failure(self) -> bool {
        self == AuthError::NoTokenProvided || self == AuthError::Malformed || self
            == AuthError::InvalidSignature || self == AuthError::Expired
    }

    /// The HTTP status under which the failure is reported.
    pub open spec fn spec_status_code(self) -> u16 {
        match self {
            AuthError::NoTokenProvided => 401,
            AuthError::Malformed => 401,
            AuthError::InvalidSignature => 401,
            AuthError::Expired => 401,
            AuthError::SigningFailed => 400,
            AuthError::HashingFailed => 500,
            AuthError::InvalidHashFormat => 400,
            AuthError::NoSuchAccount => 404,
            AuthError::DuplicateUsername => 409,
            AuthError::BackendUnavailable => 500,
        }
    }

    /// The fixed text of the failure. For `NoSuchAccount` it is the opening
    /// of a sentence that `spec_message_for` closes with the email.
    pub open spec fn spec_message(self) -> Seq<char> {
        match self {
            AuthError::NoTokenProvided => "No token provided"@,
            AuthError::Malformed => "InvalidToken"@,
            AuthError::InvalidSignature => "InvalidSignature"@,
            AuthError::Expired => "ExpiredSignature"@,
            AuthError::SigningFailed => "Token could not be signed"@,
            AuthError::HashingFailed => "Password could not be hashed"@,
            AuthError::InvalidHashFormat => "Stored password hash is not readable"@,
            AuthError::NoSuchAccount => "No user found with email "@,
            AuthError::DuplicateUsername => "Username is already taken"@,
            AuthError::BackendUnavailable => "Account store is unavailable"@,
        }
    }

    /// The text placed in the `message` field of the response to a request
    /// that named `email`: a missing account is reported with the email that
    /// was looked up, every other failure with its fixed text.
    pub open spec fn spec_message_for(self, email: Seq<char>) -> Seq<char> {
        if self == AuthError::NoSuchAccount {
            self.spec_message() + email
        } else {
            self.spec_message()
        }
    }

    /// The HTTP status under which the failure is reported.
    #[verifier::when_used_as_spec(spec_status_code)]
    pub fn status_code(self) -> (code: u16)
        ensures
            code == self.spec_status_code(),
            self.is_token_failure() <==> code == 401,
    {
        match self {
            AuthError::NoTokenProvided => 401,
            AuthError::Malformed => 401,
            AuthError::InvalidSignature => 401,
            AuthError::Expired => 401,
            AuthError::SigningFailed => 400,
            AuthError::HashingFailed => 500,
            AuthError::InvalidHashFormat => 400,
            AuthError::NoSuchAccount => 404,
            AuthError::DuplicateUsername => 409,
            AuthError::BackendUnavailable => 500,
        }
    }

    /// The fixed text of the failure, placed in the `message` field of the
    /// response body. No secret, hash or diagnostic detail is part of it. For
    /// `NoSuchAccount` use `message_for`, which names the email.
    pub fn message(self) -> (text: String)
        ensures
            text@ == self.spec_message(),
    {
        let text: &str = match self {
            AuthError::NoTokenProvided => "No token provided",
            AuthError::Malformed => "InvalidToken",
            AuthError::InvalidSignature => "InvalidSignature",
            AuthError::Expired => "ExpiredSignature",
            AuthError::SigningFailed => "Token could not be signed",
            AuthError::HashingFailed => "Password could not be hashed",
            AuthError::InvalidHashFormat => "Stored password hash is not readable",
            AuthError::NoSuchAccount => "No user found with email ",
            AuthError::DuplicateUsername => "Username is already taken",
            AuthError::BackendUnavailable => "Account store is unavailable",
        };
        String::from_str(text)
    }

    /// The text placed in the `message` field of the response to a request
    /// that named `email`.
    pub fn message_for(self, email: &str) -> (text: String)
        ensures
            text@ == self.spec_message_for(email@),
            self == AuthError::NoSuchAccount ==> text@ == "No user found with email "@ + email@,
    {
        let fixed = self.message();
        match self {
            AuthError::NoSuchAccount => fixed.concat(email),
            _ => fixed,
        }
    }
}

/// The text that reports that no account is stored under `email`.
pub fn no_account_message(email: &str) -> (text: String)
    ensures
        text@ == "No user found with email "@ + email@,
{
    AuthError::NoSuchAccount.message_for(email)
}

/// The text inside a successful result, the error of a failed one.
pub open spec fn text_of(result: Result<String, AuthError>) -> Result<Seq<char>, AuthError> {
    match result {
        Ok(text) => Ok(text@),
        Err(e) => Err(e),
    }
}

} // verus!
