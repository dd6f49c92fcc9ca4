//! Issuing and validating signed, expiring tokens.
//!
//! A token carries three claims: the account's email, a fixed issuer tag and
//! an absolute expiration instant in whole seconds since the Unix epoch. It is
//! signed with HMAC-SHA256 under a secret shared by every process of the
//! service. Signing and signature checking are done by `jsonwebtoken`; whether
//! a signed token is still alive is decided here.

use crate::error::{text_of, AuthError};
use jsonwebtoken::errors::ErrorKind;
use jsonwebtoken::{decode, encode, DecodingKey, EncodingKey, Header, Validation};
use serde_json::Value;
use vstd::prelude::*;
use vstd::string::*;

verus! {

/// Lifetime of a token, in seconds, when the configuration names none.
pub const DEFAULT_TTL_SECONDS: i64 = 60;

/// The first instant that the clock cannot give, in seconds since the Unix
/// epoch: `chrono` counts the days of a date in an `i32`, and this is the
/// number of seconds in 2^31 days.
pub const CLOCK_END: i64 = 185_542_587_187_200;

/// The longest lifetime, in seconds, with which an expiration instant fits an
/// `i64` at every instant of the clock.
pub const LONGEST_TTL_SECONDS: i64 = 9_223_186_494_267_588_607;

/// The identity a token is issued for, and the identity a valid token yields.
#[derive(Clone, Debug, PartialEq, Eq)]
pub struct UserDto {
    pub email: String,
}

/// The claim set signed inside a token.
#[derive(Clone, Debug, PartialEq, Eq)]
pub struct Claims {
    pub email: String,
    pub company: String,
    pub exp: i64,
}

/// The mathematical content of a claim set.
pub struct ClaimsView {
    pub email: Seq<char>,
    pub company: Seq<char>,
    pub exp: int,
}

impl View for Claims {
    type V = ClaimsView;

    open spec fn view(&self) -> ClaimsView {
        ClaimsView { email: self.email@, company: self.company@, exp: self.exp as int }
    }
}

/// Process-wide settings of the token codec, built once at startup.
#[derive(Clone)]
pub struct TokenConfig {
    pub secret: String,
    pub ttl_seconds: i64,
}

/// What the signature check and the payload of a presented token gave.
#[derive(Clone, Debug, PartialEq, Eq)]
pub enum TokenReading {
    /// The signature belongs to the secret. The two claims are given as far as
    /// the payload holds them with the right type.
    Signed { email: Option<String>, exp: Option<i64> },
    /// The token has the shape of a token, but another signature.
    BadSignature,
    /// The token's header names an algorithm other than HMAC-SHA256.
    WrongAlgorithm,
    /// The token could not be taken apart.
    Unreadable,
}

/// The mathematical content of a `TokenReading`.
pub enum TokenReadingView {
    Signed { email: Option<Seq<char>>, exp: Option<int> },
    BadSignature,
    WrongAlgorithm,
    Unreadable,
}

impl View for TokenReading {
    type V = TokenReadingView;

    open spec fn view(&self) -> TokenReadingView {
        match self {
            TokenReading::Signed { email, exp } => TokenReadingView::Signed {
                email: match email {
                    Some(e) => Some(e@),
                    None => None,
                },
                exp: match exp {
                    Some(x) => Some(*x as int),
                    None => None,
                },
            },
            TokenReading::BadSignature => TokenReadingView::BadSignature,
            TokenReading::WrongAlgorithm => TokenReadingView::WrongAlgorithm,
            TokenReading::Unreadable => TokenReadingView::Unreadable,
        }
    }
}

/// The error type of `jsonwebtoken`, carried through unopened.
#[verifier::external_type_specification]
#[verifier::external_body]
pub struct ExTokenError(jsonwebtoken::errors::Error);

/// The token that `jsonwebtoken::encode` produces for a claim set under a
/// secret with the default header.
pub uninterp spec fn hs256_token(claims: ClaimsView, secret: Seq<char>) -> Seq<char>;

/// What `jsonwebtoken::decode` makes of a token under a secret when only
/// HS256 is admitted and its own expiry rule is switched off.
pub uninterp spec fn hs256_reading(token: Seq<char>, secret: Seq<char>) -> TokenReadingView;

/// Signs a claim set with `jsonwebtoken::encode`: default header, the claims
/// as a JSON object with one member for each field, HMAC key made of the
/// secret's bytes.
///
/// Trusted: the call is a function of the claims and the secret. It does not
/// fail: the key is of the header's family, a header and an object of strings
/// and an integer always serialise, and an HMAC is always computed. The token
/// is the two encoded parts and the HMAC over them, so `decode` finds the same
/// HMAC under the same secret and reads the payload as it was written: as
/// signed, with the same email and the same expiration.
#[verifier::external_body]
fn hs256_sign(claims: &Claims, secret: &str) -> (token: Result<
    String,
    jsonwebtoken::errors::Error,
>)
    ensures
        token is Ok,
        token matches Ok(t) ==> t@ == hs256_token(claims@, secret@),
        token matches Ok(t) ==> hs256_reading(t@, secret@) == (TokenReadingView::Signed {
            email: Some(claims@.email),
            exp: Some(claims@.exp),
        }),
{
    let mut payload = serde_json::Map::new();
    payload.insert("email".to_owned(), Value::from(claims.email.as_str()));
    payload.insert("company".to_owned(), Value::from(claims.company.as_str()));
    payload.insert("exp".to_owned(), Value::from(claims.exp));
    encode(&Header::default(), &payload, &EncodingKey::from_secret(secret.as_bytes()))
}

/// Takes a token apart with `jsonwebtoken::decode` under the default
/// validation (HS256 only, signature checked against the secret's bytes), with
/// the expiry rule and the list of required claims switched off. That rule
/// grants a leeway and reads the clock; expiry is decided by `check_reading`.
///
/// Trusted: the call is a function of the token and the secret. The outcome is
/// handed on as it came: the `email` claim where it is a string, the `exp`
/// claim where it is an integer, and of an error only whether it is
/// `InvalidSignature`, `InvalidAlgorithm` or another.
#[verifier::external_body]
fn hs256_read(token: &str, secret: &str) -> (reading: TokenReading)
    ensures
        reading@ == hs256_reading(token@, secret@),
{
    let mut rules = Validation::default();
    rules.validate_exp = false;
    rules.required_spec_claims.clear();
    match decode::<Value>(token, &DecodingKey::from_secret(secret.as_bytes()), &rules) {
        Ok(data) => TokenReading::Signed {
            email: data.claims.get("email").and_then(Value::as_str).map(str::to_owned),
            exp: data.claims.get("exp").and_then(Value::as_i64),
        },
        Err(e) => match e.kind() {
            ErrorKind::InvalidSignature => TokenReading::BadSignature,
            ErrorKind::InvalidAlgorithm => TokenReading::WrongAlgorithm,
            _ => TokenReading::Unreadable,
        },
    }
}

/// The current instant from `chrono::Utc::now`, in whole seconds since the
/// Unix epoch.
///
/// Trusted: `now` takes the time since the epoch and makes a date of it with
/// `DateTime::from_timestamp`, which refuses a count of days beyond an `i32`;
/// so an instant that comes back is none before the epoch and none from
/// `CLOCK_END` on.
#[verifier::external_body]
pub(crate) fn unix_now() -> (now: i64)
    ensures
        is_clock_instant(now),
{
    chrono::Utc::now().timestamp()
}

/// Whether the clock can give the instant `now`.
pub open spec fn is_clock_instant(now: i64) -> bool {
    0 <= now < CLOCK_END
}

/// The issuer tag written into every token.
pub open spec fn issuer_tag() -> Seq<char> {
    "softrek"@
}

/// The claim set of a token issued for `email` at `now` with lifetime `ttl`.
pub open spec fn issued_claims(email: Seq<char>, now: int, ttl: int) -> ClaimsView {
    ClaimsView { email, company: issuer_tag(), exp: now + ttl }
}

/// The verdict on a token reading at the instant `now`: the email of the
/// principal, or the reason for the rejection.
///
/// A token is alive strictly before its expiration instant and expired from
/// that instant on. A signed payload without a textual email or without an
/// integer expiration is malformed. A token of another algorithm is not
/// signed as this service signs, and is rejected for its signature.
pub open spec fn spec_check_reading(reading: TokenReadingView, now: int) -> Result<
    Seq<char>,
    AuthError,
> {
    match reading {
        TokenReadingView::Unreadable => Err(AuthError::Malformed),
        TokenReadingView::BadSignature => Err(AuthError::InvalidSignature),
        TokenReadingView::WrongAlgorithm => Err(AuthError::InvalidSignature),
        TokenReadingView::Signed { email: Some(email), exp: Some(exp) } => if exp <= now {
            Err(AuthError::Expired)
        } else {
            Ok(email)
        },
        TokenReadingView::Signed { .. } => Err(AuthError::Malformed),
    }
}

/// The verdict on `token` under `secret` at the instant `now`.
pub open spec fn spec_validate(token: Seq<char>, secret: Seq<char>, now: int) -> Result<
    Seq<char>,
    AuthError,
> {
    spec_check_reading(hs256_reading(token, secret), now)
}

/// Whether `token` is valid for `email` under `secret` at every instant
/// strictly before `exp`, and expired at `exp` and at every later instant.
pub open spec fn expires_at(token: Seq<char>, secret: Seq<char>, email: Seq<char>, exp: int) -> bool {
    forall|at: int|
        #[trigger] spec_validate(token, secret, at) == if at < exp {
            Ok::<Seq<char>, AuthError>(email)
        } else {
            Err(AuthError::Expired)
        }
}

/// The outcome of issuing a token for `email` at the instant `now`: the
/// signed token of the issued claims, or `SigningFailed` where the expiration
/// instant does not fit an `i64`.
pub open spec fn spec_issue(email: Seq<char>, config: TokenConfig, now: int) -> Result<
    Seq<char>,
    AuthError,
> {
    let exp = now + config.ttl_seconds;
    if exp < i64::MIN || exp > i64::MAX {
        Err(AuthError::SigningFailed)
    } else {
        Ok(hs256_token(issued_claims(email, now, config.ttl_seconds as int), config.secret@))
    }
}

/// The email inside a successful result, the error of a failed one.
pub open spec fn principal_of(result: Result<UserDto, AuthError>) -> Result<Seq<char>, AuthError> {
    match result {
        Ok(user) => Ok(user.email@),
        Err(e) => Err(e),
    }
}

/// A token that reads as signed and carries the claims issued for `email` at
/// `issue_time` with lifetime `ttl` is valid at every instant strictly before
/// `issue_time + ttl`, and expired at that instant and at every later one.
pub proof fn lemma_valid_until_expiry(
    token: Seq<char>,
    secret: Seq<char>,
    email: Seq<char>,
    issue_time: int,
    ttl: int,
)
    requires
        hs256_reading(token, secret) == (TokenReadingView::Signed {
            email: Some(email),
            exp: Some(issued_claims(email, issue_time, ttl).exp),
        }),
    ensures
        expires_at(token, secret, email, issue_time + ttl),
        forall|now: int|
            now < issue_time + ttl ==> #[trigger] spec_validate(token, secret, now) == Ok::<
                Seq<char>,
                AuthError,
            >(email),
        forall|now: int|
            now >= issue_time + ttl ==> #[trigger] spec_validate(token, secret, now) == Err::<
                Seq<char>,
                AuthError,
            >(AuthError::Expired),
{
}

/// What the signature check says of a token does not depend on the clock: a
/// token is rejected for its signature at one instant exactly if the check
/// found another signature or another algorithm, two verdicts on one token
/// differ only where one of them is `Expired`, and a token that has expired
/// stays expired.
pub proof fn lemma_signature_verdict_is_timeless(
    token: Seq<char>,
    secret: Seq<char>,
    now: int,
    later: int,
)
    ensures
        (hs256_reading(token, secret) is BadSignature || hs256_reading(token, secret)
            is WrongAlgorithm) <==> spec_validate(token, secret, now) == Err::<
            Seq<char>,
            AuthError,
        >(AuthError::InvalidSignature),
        spec_validate(token, secret, now) != spec_validate(token, secret, later) ==> (
        spec_validate(token, secret, now) == Err::<Seq<char>, AuthError>(AuthError::Expired)
            || spec_validate(token, secret, later) == Err::<Seq<char>, AuthError>(
            AuthError::Expired,
        )),
        now <= later && spec_validate(token, secret, now) == Err::<Seq<char>, AuthError>(
            AuthError::Expired,
        ) ==> spec_validate(token, secret, later) == Err::<Seq<char>, AuthError>(
            AuthError::Expired,
        ),
{
}

impl TokenConfig {
    /// Settings with the given secret. Without a lifetime the default of
    /// `DEFAULT_TTL_SECONDS` applies.
    pub fn new(secret: String, ttl_seconds: Option<i64>) -> (config: TokenConfig)
        ensures
            config.secret@ == secret@,
            config.ttl_seconds == match ttl_seconds {
                Some(ttl) => ttl,
                None => DEFAULT_TTL_SECONDS,
            },
    {
        let ttl_seconds = match ttl_seconds {
            Some(ttl) => ttl,
            None => DEFAULT_TTL_SECONDS,
        };
        TokenConfig { secret, ttl_seconds }
    }
}

impl Claims {
    /// The claims of a token issued for `email` at `now` with lifetime `ttl`.
    /// There are none where the expiration instant does not fit an `i64`: no
    /// claim set is ever built without one.
    pub fn issued(email: String, now: i64, ttl: i64) -> (claims: Option<Claims>)
        ensures
            claims is Some <==> i64::MIN <= now + ttl <= i64::MAX,
            claims matches Some(c) ==> c@ == issued_claims(email@, now as int, ttl as int),
    {
        match now.checked_add(ttl) {
            Some(exp) => Some(Claims { email, company: String::from_str("softrek"), exp }),
            None => None,
        }
    }
}

/// Decides on a token reading at the instant `now`.
pub fn check_reading(reading: TokenReading, now: i64) -> (result: Result<UserDto, AuthError>)
    ensures
        principal_of(result) == spec_check_reading(reading@, now as int),
{
    match reading {
        TokenReading::Unreadable => Err(AuthError::Malformed),
        TokenReading::BadSignature => Err(AuthError::InvalidSignature),
        TokenReading::WrongAlgorithm => Err(AuthError::InvalidSignature),
        TokenReading::Signed { email: Some(email), exp: Some(exp) } => {
            if exp <= now {
                Err(AuthError::Expired)
            } else {
                Ok(UserDto { email })
            }
        },
        TokenReading::Signed { .. } => Err(AuthError::Malformed),
    }
}

/// Issues a token for `user` as if the current instant were `now`.
///
/// There is a token exactly if the expiration instant fits an `i64`. It is
/// valid under the same secret at every instant strictly before `now + ttl`,
/// and expired at every instant from then on.
pub fn issue_at(user: &UserDto, config: &TokenConfig, now: i64) -> (result: Result<
    String,
    AuthError,
>)
    ensures
        text_of(result) == spec_issue(user.email@, *config, now as int),
        result matches Ok(token) ==> expires_at(
            token@,
            config.secret@,
            user.email@,
            now + config.ttl_seconds,
        ),
{
    match Claims::issued(user.email.clone(), now, config.ttl_seconds) {
        None => Err(AuthError::SigningFailed),
        Some(claims) => match hs256_sign(&claims, config.secret.as_str()) {
            Ok(token) => {
                proof {
                    lemma_valid_until_expiry(
                        token@,
                        config.secret@,
                        user.email@,
                        now as int,
                        config.ttl_seconds as int,
                    );
                }
                Ok(token)
            },
            // the signer has no failure for these claims
            Err(_) => Err(AuthError::SigningFailed),
        },
    }
}

/// Validates `token` as if the current instant were `now`.
pub fn validate_at(token: &str, config: &TokenConfig, now: i64) -> (result: Result<
    UserDto,
    AuthError,
>)
    ensures
        principal_of(result) == spec_validate(token@, config.secret@, now as int),
{
    check_reading(hs256_read(token, config.secret.as_str()), now)
}

/// Issues a token for `user` that expires `config.ttl_seconds` after the
/// current instant.
///
/// With a lifetime of at most `LONGEST_TTL_SECONDS` there is always a token.
pub fn get_jwt(user: UserDto, config: &TokenConfig) -> (result: Result<String, AuthError>)
    ensures
        exists|now: i64|
            #![trigger is_clock_instant(now)]
            is_clock_instant(now) && text_of(result) == spec_issue(
                user.email@,
                *config,
                now as int,
            ) && (result matches Ok(token) ==> expires_at(
                token@,
                config.secret@,
                user.email@,
                now + config.ttl_seconds,
            )),
        config.ttl_seconds <= LONGEST_TTL_SECONDS ==> result is Ok,
        result matches Err(e) ==> e == AuthError::SigningFailed,
{
    let now = unix_now();
    let result = issue_at(&user, config, now);
    assert(is_clock_instant(now) && text_of(result) == spec_issue(
        user.email@,
        *config,
        now as int,
    ));
    result
}

/// Validates `token` at the current instant and yields the principal.
///
/// The signature and the shape of the token are judged the same at every
/// instant; only the expiry depends on the clock.
pub fn decode_jwt(token: &str, config: &TokenConfig) -> (result: Result<UserDto, AuthError>)
    ensures
        exists|now: i64|
            #![trigger is_clock_instant(now)]
            is_clock_instant(now) && principal_of(result) == spec_validate(
                token@,
                config.secret@,
                now as int,
            ),
        hs256_reading(token@, config.secret@) is BadSignature ==> result matches Err(
            AuthError::InvalidSignature,
        ),
        hs256_reading(token@, config.secret@) is WrongAlgorithm ==> result matches Err(
            AuthError::InvalidSignature,
        ),
        hs256_reading(token@, config.secret@) is Unreadable ==> result matches Err(
            AuthError::Malformed,
        ),
{
    let now = unix_now();
    let result = validate_at(token, config, now);
    assert(is_clock_instant(now) && principal_of(result) == spec_validate(
        token@,
        config.secret@,
        now as int,
    ));
    result
}

} // verus!
