//! Login and registration, as far as they are decisions.
//!
//! The account store is someone else's: a caller looks an account up or
//! inserts one, and tells this module what the store answered. The module
//! decides what follows from the answer.

use crate::auth::{carries_token, header_view, spec_guard, Auth};
use crate::error::AuthError;
use crate::jwt::{
    expires_at, is_clock_instant, issue_at, spec_issue, unix_now, TokenConfig, UserDto,
    LONGEST_TTL_SECONDS,
};
use crate::models::{bson_now_millis, new_account, AccountView, CreateUserSchema, UserModel};
use crate::password::{fresh_salt, hash_with_salt, spec_hash, spec_verify};
use vstd::prelude::*;

verus! {

/// What the store answered to a lookup by email.
#[derive(Clone, Debug, PartialEq, Eq)]
pub enum AccountLookup {
    /// Exactly this account is stored under the email.
    Found(UserModel),
    /// No account is stored under the email.
    Missing,
    /// The store could not answer.
    Failed,
}

/// What the store answered to the insertion of a new account.
#[derive(Clone, Copy, Debug, PartialEq, Eq)]
pub enum InsertOutcome {
    /// The account is stored, under the identifier given if the store named one.
    Stored { id: Option<[u8; 12]> },
    /// The store holds another account with the same username, and is unchanged.
    DuplicateKey,
    /// The store could not answer.
    Failed,
}

/// The code under which the store reports a write that breaks a unique index.
pub const DUPLICATE_KEY_CODE: i32 = 11000;

/// A successful login: the account's email and a token issued for it.
#[derive(Clone, Debug, PartialEq, Eq)]
pub struct TokenGrant {
    pub email: String,
    pub token: String,
}

/// Email and token of a successful login, the error of a failed one.
pub open spec fn grant_of(result: Result<TokenGrant, AuthError>) -> Result<
    (Seq<char>, Seq<char>),
    AuthError,
> {
    match result {
        Ok(grant) => Ok((grant.email@, grant.token@)),
        Err(e) => Err(e),
    }
}

/// The account inside a successful result, the error of a failed one.
pub open spec fn account_of(result: Result<UserModel, AuthError>) -> Result<AccountView, AuthError> {
    match result {
        Ok(account) => Ok(account@),
        Err(e) => Err(e),
    }
}

/// The outcome of a login at the instant `now`.
///
/// An email without an account gives `NoSuchAccount`, a store that failed
/// gives `BackendUnavailable`. For an account that was found, a token is
/// issued on its email.
pub open spec fn spec_login(lookup: AccountLookup, config: TokenConfig, now: int) -> Result<
    (Seq<char>, Seq<char>),
    AuthError,
> {
    match lookup {
        AccountLookup::Missing => Err(AuthError::NoSuchAccount),
        AccountLookup::Failed => Err(AuthError::BackendUnavailable),
        AccountLookup::Found(account) => match spec_issue(account.email@, config, now) {
            Ok(token) => Ok((account.email@, token)),
            Err(e) => Err(e),
        },
    }
}

/// The account to insert for a request that has passed the guard, with
/// `salt` for the password hash and `now_millis` as the instant of creation;
/// `HashingFailed` where the password cannot be hashed.
pub open spec fn spec_prepare(body: CreateUserSchema, salt: Seq<char>, now_millis: i64) -> Result<
    AccountView,
    AuthError,
> {
    match spec_hash(body.password@, salt) {
        Err(e) => Err(e),
        Ok(encoded) => Ok(new_account(body, encoded, now_millis)),
    }
}

/// The outcome of preparing a registration at the instant `now` (seconds) and
/// `now_millis` (milliseconds), with `salt` for the password hash.
///
/// The guard comes first: without a valid token nothing else happens. Then
/// the password is hashed, and the account to insert is made of the request
/// and the hash.
pub open spec fn spec_register(
    authorization: Option<Seq<char>>,
    body: CreateUserSchema,
    config: TokenConfig,
    now: int,
    salt: Seq<char>,
    now_millis: i64,
) -> Result<AccountView, AuthError> {
    match spec_guard(authorization, config.secret@, now) {
        Err(e) => Err(e),
        Ok(_) => spec_prepare(body, salt, now_millis),
    }
}

/// Whether a registration may end in `result` once the guard has given
/// `verdict`. A request that the guard turns away fails with the guard's own
/// error. One that passes gets its account or fails at the hashing.
pub open spec fn follows_guard(
    result: Result<AccountView, AuthError>,
    verdict: Result<Seq<char>, AuthError>,
) -> bool {
    match verdict {
        Err(e) => result == Err::<AccountView, AuthError>(e),
        Ok(_) => result is Ok || result == Err::<AccountView, AuthError>(AuthError::HashingFailed),
    }
}

/// What the store's answer to a failed insertion means: a write error with
/// the code of a broken unique index is a duplicate, every other failure is
/// a failure of the store.
pub open spec fn spec_insert_failure(write_error_code: Option<i32>) -> InsertOutcome {
    if write_error_code == Some(DUPLICATE_KEY_CODE) {
        InsertOutcome::DuplicateKey
    } else {
        InsertOutcome::Failed
    }
}

/// The outcome of a registration once the store has answered.
pub open spec fn spec_confirm(account: AccountView, outcome: InsertOutcome) -> Result<
    AccountView,
    AuthError,
> {
    match outcome {
        InsertOutcome::Stored { id: Some(id) } => Ok(AccountView { id: Some(id), ..account }),
        InsertOutcome::Stored { id: None } => Ok(account),
        InsertOutcome::DuplicateKey => Err(AuthError::DuplicateUsername),
        InsertOutcome::Failed => Err(AuthError::BackendUnavailable),
    }
}

/// Decides a login as if the current instant were `now`.
///
/// The login is keyed on the email alone: the lookup has found the account,
/// and no password is compared at this step. A token that is granted is
/// valid for the account's email until `now + ttl`.
pub fn login_at(lookup: AccountLookup, config: &TokenConfig, now: i64) -> (result: Result<
    TokenGrant,
    AuthError,
>)
    ensures
        grant_of(result) == spec_login(lookup, *config, now as int),
        result matches Ok(grant) ==> expires_at(
            grant.token@,
            config.secret@,
            grant.email@,
            now + config.ttl_seconds,
        ),
{
    match lookup {
        AccountLookup::Missing => Err(AuthError::NoSuchAccount),
        AccountLookup::Failed => Err(AuthError::BackendUnavailable),
        AccountLookup::Found(account) => {
            let user = UserDto { email: account.email };
            match issue_at(&user, config, now) {
                Ok(token) => Ok(TokenGrant { email: user.email, token }),
                Err(e) => Err(e),
            }
        },
    }
}

/// Decides a login at the current instant.
///
/// For an account that was found, and a lifetime of at most
/// `LONGEST_TTL_SECONDS`, a token is always granted.
pub fn login(lookup: AccountLookup, config: &TokenConfig) -> (result: Result<TokenGrant, AuthError>)
    ensures
        exists|now: i64|
            #![trigger is_clock_instant(now)]
            is_clock_instant(now) && grant_of(result) == spec_login(lookup, *config, now as int)
                && (result matches Ok(grant) ==> expires_at(
                grant.token@,
                config.secret@,
                grant.email@,
                now + config.ttl_seconds,
            )),
        lookup is Missing ==> result matches Err(AuthError::NoSuchAccount),
        lookup is Failed ==> result matches Err(AuthError::BackendUnavailable),
        lookup is Found && config.ttl_seconds <= LONGEST_TTL_SECONDS ==> result is Ok,
{
    let now = unix_now();
    let result = login_at(lookup, config, now);
    assert(is_clock_instant(now) && grant_of(result) == spec_login(lookup, *config, now as int));
    result
}

/// Makes the account to insert for a request that has passed the guard.
///
/// Its password field holds a hash that verifies the password of the request.
pub fn prepare_account(body: &CreateUserSchema, salt: &str, now_millis: i64) -> (result: Result<
    UserModel,
    AuthError,
>)
    ensures
        account_of(result) == spec_prepare(*body, salt@, now_millis),
        result matches Ok(account) ==> spec_verify(body.password@, account.password@) == Ok::<
            bool,
            AuthError,
        >(true),
{
    match hash_with_salt(body.password.as_str(), salt) {
        Err(e) => Err(e),
        Ok(encoded) => Ok(UserModel::from_schema(body, encoded, now_millis)),
    }
}

/// Prepares a registration from given instants and a given salt.
///
/// The account that comes back is the one to insert. Its password field
/// holds a hash that verifies the password of the request.
pub fn register_with(
    authorization: Option<&str>,
    body: &CreateUserSchema,
    config: &TokenConfig,
    now: i64,
    salt: &str,
    now_millis: i64,
) -> (result: Result<UserModel, AuthError>)
    ensures
        account_of(result) == spec_register(
            header_view(authorization),
            *body,
            *config,
            now as int,
            salt@,
            now_millis,
        ),
        result matches Ok(account) ==> spec_verify(body.password@, account.password@) == Ok::<
            bool,
            AuthError,
        >(true),
{
    match Auth::from_request_at(authorization, config, now) {
        Err(e) => Err(e),
        Ok(_) => prepare_account(body, salt, now_millis),
    }
}

/// Prepares a registration at the current instant, with a fresh random salt.
///
/// Whatever the clock and the salt, a request that does not pass the guard
/// is turned away with the guard's own error, and no salt is drawn and
/// nothing is hashed for it. An account that comes back is made of the
/// request, the hash of its password under some salt, and some instant.
pub fn register(authorization: Option<&str>, body: &CreateUserSchema, config: &TokenConfig) -> (result:
    Result<UserModel, AuthError>)
    ensures
        exists|now: i64|
            #![trigger is_clock_instant(now)]
            is_clock_instant(now) && follows_guard(
                account_of(result),
                spec_guard(header_view(authorization), config.secret@, now as int),
            ),
        result matches Ok(account) ==> exists|salt: Seq<char>, now_millis: i64| #[trigger]
            spec_prepare(*body, salt, now_millis) == Ok::<AccountView, AuthError>(account@),
        result matches Ok(account) ==> spec_verify(body.password@, account.password@) == Ok::<
            bool,
            AuthError,
        >(true),
        result matches Err(e) ==> e.is_token_failure() || e == AuthError::HashingFailed,
        !carries_token(header_view(authorization)) ==> result matches Err(
            AuthError::NoTokenProvided,
        ),
{
    let now = unix_now();
    match Auth::from_request_at(authorization, config, now) {
        Err(e) => {
            assert(is_clock_instant(now));
            Err(e)
        },
        Ok(_) => {
            assert(is_clock_instant(now));
            match fresh_salt() {
                None => Err(AuthError::HashingFailed),
                Some(salt) => {
                    let now_millis = bson_now_millis();
                    let result = prepare_account(body, salt.as_str(), now_millis);
                    assert(account_of(result) == spec_prepare(*body, salt@, now_millis));
                    result
                },
            }
        },
    }
}

/// Reads the store's answer to a failed insertion: the code of the write
/// error, if the failure is one.
pub fn insert_failure(write_error_code: Option<i32>) -> (outcome: InsertOutcome)
    ensures
        outcome == spec_insert_failure(write_error_code),
        outcome is DuplicateKey <==> write_error_code == Some(DUPLICATE_KEY_CODE),
        !(outcome is Stored),
{
    match write_error_code {
        Some(code) => if code == DUPLICATE_KEY_CODE {
            InsertOutcome::DuplicateKey
        } else {
            InsertOutcome::Failed
        },
        None => InsertOutcome::Failed,
    }
}

/// Closes a registration once the store has answered the insertion.
///
/// A username that is already taken gives `DuplicateUsername`; the store has
/// then kept the account it had.
pub fn confirm_registration(account: UserModel, outcome: InsertOutcome) -> (result: Result<
    UserModel,
    AuthError,
>)
    ensures
        account_of(result) == spec_confirm(account@, outcome),
{
    match outcome {
        InsertOutcome::Stored { id: Some(id) } => {
            let mut stored = account;
            stored._id = Some(id);
            Ok(stored)
        },
        InsertOutcome::Stored { id: None } => Ok(account),
        InsertOutcome::DuplicateKey => Err(AuthError::DuplicateUsername),
        InsertOutcome::Failed => Err(AuthError::BackendUnavailable),
    }
}

} // verus!
