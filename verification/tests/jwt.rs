use actix_auth::error::AuthError;
use actix_auth::jwt::{
    check_reading, decode_jwt, get_jwt, issue_at, validate_at, Claims, TokenConfig, TokenReading,
    UserDto, CLOCK_END, DEFAULT_TTL_SECONDS, LONGEST_TTL_SECONDS,
};
use std::time::{SystemTime, UNIX_EPOCH};

fn config(secret: &str, ttl: i64) -> TokenConfig {
    TokenConfig::new(secret.to_string(), Some(ttl))
}

fn user(email: &str) -> UserDto {
    UserDto { email: email.to_string() }
}

fn clock() -> i64 {
    SystemTime::now().duration_since(UNIX_EPOCH).unwrap().as_secs() as i64
}

fn flip_lowest_bit(token: &str, at: usize) -> String {
    let mut bytes = token.as_bytes().to_vec();
    bytes[at] ^= 1;
    String::from_utf8(bytes).unwrap()
}

#[test]
fn config_defaults_to_sixty_seconds() {
    assert_eq!(DEFAULT_TTL_SECONDS, 60);
    let c = TokenConfig::new("s".to_string(), None);
    assert_eq!(c.ttl_seconds, 60);
    assert_eq!(c.secret, "s");
    assert_eq!(config("s", 5).ttl_seconds, 5);
}

#[test]
fn issued_claims_expire_after_the_lifetime() {
    let claims = Claims::issued("a@x.com".to_string(), 1_000, 60).unwrap();
    assert_eq!(
        claims,
        Claims { email: "a@x.com".to_string(), company: "softrek".to_string(), exp: 1_060 }
    );
}

#[test]
fn no_claims_without_an_expiration() {
    assert_eq!(Claims::issued("a@x.com".to_string(), i64::MAX, 1), None);
    assert_eq!(Claims::issued("a@x.com".to_string(), i64::MIN, -1), None);
    assert_eq!(Claims::issued("a@x.com".to_string(), i64::MAX, 0).unwrap().exp, i64::MAX);
}

#[test]
fn reading_is_alive_strictly_before_expiry() {
    let reading =
        TokenReading::Signed { email: Some("a@x.com".to_string()), exp: Some(1_060) };
    assert_eq!(check_reading(reading.clone(), 1_000), Ok(user("a@x.com")));
    assert_eq!(check_reading(reading.clone(), 1_059), Ok(user("a@x.com")));
    assert_eq!(check_reading(reading.clone(), 1_060), Err(AuthError::Expired));
    assert_eq!(check_reading(reading, 1_061), Err(AuthError::Expired));
}

#[test]
fn reading_without_a_claim_is_malformed() {
    let no_email = TokenReading::Signed { email: None, exp: Some(1_060) };
    let no_exp = TokenReading::Signed { email: Some("a@x.com".to_string()), exp: None };
    let neither = TokenReading::Signed { email: None, exp: None };
    assert_eq!(check_reading(no_email, 0), Err(AuthError::Malformed));
    assert_eq!(check_reading(no_exp, 0), Err(AuthError::Malformed));
    assert_eq!(check_reading(neither, 0), Err(AuthError::Malformed));
}

#[test]
fn rejected_readings_keep_their_reason() {
    assert_eq!(check_reading(TokenReading::BadSignature, 0), Err(AuthError::InvalidSignature));
    assert_eq!(check_reading(TokenReading::WrongAlgorithm, 0), Err(AuthError::InvalidSignature));
    assert_eq!(check_reading(TokenReading::Unreadable, 0), Err(AuthError::Malformed));
}

#[test]
fn issued_token_is_valid_until_it_expires() {
    let c = config("secret", 60);
    let token = issue_at(&user("a@x.com"), &c, 1_000).unwrap();
    assert_eq!(validate_at(&token, &c, 1_000), Ok(user("a@x.com")));
    assert_eq!(validate_at(&token, &c, 1_059), Ok(user("a@x.com")));
    assert_eq!(validate_at(&token, &c, 1_060), Err(AuthError::Expired));
    assert_eq!(validate_at(&token, &c, 5_000), Err(AuthError::Expired));
    assert_eq!(validate_at(&token, &c, -5), Ok(user("a@x.com")));
}

#[test]
fn validation_is_repeatable() {
    let c = config("secret", 60);
    let token = issue_at(&user("a@x.com"), &c, 1_000).unwrap();
    for _ in 0..5 {
        assert_eq!(validate_at(&token, &c, 1_030), Ok(user("a@x.com")));
    }
}

#[test]
fn issuing_is_a_function_of_claims_and_secret() {
    let c = config("secret", 60);
    let first = issue_at(&user("a@x.com"), &c, 1_000).unwrap();
    let second = issue_at(&user("a@x.com"), &c, 1_000).unwrap();
    assert_eq!(first, second);
    assert_ne!(first, issue_at(&user("a@x.com"), &c, 1_001).unwrap());
    assert_ne!(first, issue_at(&user("b@x.com"), &c, 1_000).unwrap());
    assert_ne!(first, issue_at(&user("a@x.com"), &config("other", 60), 1_000).unwrap());
}

#[test]
fn token_has_three_pieces_and_is_not_the_email() {
    let token = issue_at(&user("a@x.com"), &config("secret", 60), 1_000).unwrap();
    assert_eq!(token.split('.').count(), 3);
    assert_ne!(token, "a@x.com");
    assert!(!token.contains("a@x.com"));
    assert!(!token.contains("secret"));
}

#[test]
fn token_carries_email_issuer_and_expiration() {
    let token = issue_at(&user("a@x.com"), &config("secret", 60), 1_000).unwrap();
    let mut rules = jsonwebtoken::Validation::new(jsonwebtoken::Algorithm::HS256);
    rules.validate_exp = false;
    let data = jsonwebtoken::decode::<serde_json::Value>(
        &token,
        &jsonwebtoken::DecodingKey::from_secret(b"secret"),
        &rules,
    )
    .unwrap();
    assert_eq!(data.header.alg, jsonwebtoken::Algorithm::HS256);
    assert_eq!(data.claims.get("email").and_then(|v| v.as_str()), Some("a@x.com"));
    assert_eq!(data.claims.get("company").and_then(|v| v.as_str()), Some("softrek"));
    assert_eq!(data.claims.get("exp").and_then(|v| v.as_i64()), Some(1_060));
    assert_eq!(data.claims.as_object().map(|o| o.len()), Some(3));
}

#[test]
fn token_for_known_claims() {
    let token = issue_at(&user("a@x.com"), &config("secret", 60), 1_999_999_940).unwrap();
    // header {"typ":"JWT","alg":"HS256"},
    // payload {"email":"a@x.com","company":"softrek","exp":2000000000}
    assert_eq!(
        token,
        "eyJ0eXAiOiJKV1QiLCJhbGciOiJIUzI1NiJ9.\
         eyJlbWFpbCI6ImFAeC5jb20iLCJjb21wYW55Ijoic29mdHJlayIsImV4cCI6MjAwMDAwMDAwMH0.\
         Oym7DnqoCNHhT0C5uB6_I6aGkeLlKGpGbNFSF4kzR4c"
    );
}

#[test]
fn other_secret_gives_invalid_signature() {
    let token = issue_at(&user("a@x.com"), &config("first secret", 60), 1_000).unwrap();
    let other = config("second secret", 60);
    assert_eq!(validate_at(&token, &other, 1_000), Err(AuthError::InvalidSignature));
    assert_eq!(validate_at(&token, &other, 2_000), Err(AuthError::InvalidSignature));
    assert_eq!(decode_jwt(&token, &other), Err(AuthError::InvalidSignature));
}

#[test]
fn secrets_are_compared_as_hmac_keys() {
    // HMAC fills a short key with zero bytes, so a trailing zero byte makes
    // another secret but the same key.
    let token = issue_at(&user("a@x.com"), &config("k", 60), 1_000).unwrap();
    assert_eq!(validate_at(&token, &config("k\0", 60), 1_000), Ok(user("a@x.com")));
    assert_eq!(validate_at(&token, &config("k0", 60), 1_000), Err(AuthError::InvalidSignature));
    assert_eq!(validate_at(&token, &config("K", 60), 1_000), Err(AuthError::InvalidSignature));
    assert_eq!(validate_at(&token, &config("", 60), 1_000), Err(AuthError::InvalidSignature));
}

#[test]
fn flipped_signature_bit_gives_invalid_signature() {
    let c = config("secret", 60);
    let token = issue_at(&user("a@x.com"), &c, 1_000).unwrap();
    let signature_start = token.rfind('.').unwrap() + 1;
    for at in [signature_start, signature_start + 7, token.len() - 1] {
        let tampered = flip_lowest_bit(&token, at);
        assert_ne!(tampered, token);
        assert_eq!(validate_at(&tampered, &c, 1_000), Err(AuthError::InvalidSignature));
    }
}

#[test]
fn flipped_bit_that_makes_a_dot_breaks_the_shape() {
    let c = config("secret", 60);
    let token = issue_at(&user("a@x.com"), &c, 1_999_999_940).unwrap();
    let signature_start = token.rfind('.').unwrap() + 1;
    let at = signature_start + token[signature_start..].find('n').unwrap();
    let mut bytes = token.into_bytes();
    bytes[at] ^= 0x40;
    assert_eq!(bytes[at], b'.');
    let tampered = String::from_utf8(bytes).unwrap();
    assert_eq!(tampered.split('.').count(), 4);
    assert_eq!(validate_at(&tampered, &c, 1_000), Err(AuthError::Malformed));
}

#[test]
fn changed_payload_gives_invalid_signature() {
    let c = config("secret", 60);
    let ours = issue_at(&user("a@x.com"), &c, 1_000).unwrap();
    let theirs = issue_at(&user("root@x.com"), &c, 1_000).unwrap();
    let ours: Vec<&str> = ours.split('.').collect();
    let theirs: Vec<&str> = theirs.split('.').collect();
    let forged = format!("{}.{}.{}", ours[0], theirs[1], ours[2]);
    assert_eq!(validate_at(&forged, &c, 1_000), Err(AuthError::InvalidSignature));
}

#[test]
fn text_that_is_no_token_is_malformed() {
    let c = config("secret", 60);
    for text in ["", "abc", "a.b", "a.b.c", "a.b.c.d", "..", "not a token at all"] {
        assert_eq!(validate_at(text, &c, 1_000), Err(AuthError::Malformed), "text {:?}", text);
    }
}

#[test]
fn unsigned_token_is_rejected() {
    // header {"alg":"none","typ":"JWT"}, payload {"email":"a@x.com","exp":9999999999}
    let token = "eyJhbGciOiJub25lIiwidHlwIjoiSldUIn0.eyJlbWFpbCI6ImFAeC5jb20iLCJleHAiOjk5OTk5OTk5OTl9.";
    let verdict = validate_at(token, &config("secret", 60), 1_000);
    assert_eq!(verdict, Err(AuthError::Malformed));
}

#[test]
fn token_of_another_algorithm_is_rejected() {
    let mut claims = serde_json::Map::new();
    claims.insert("email".to_string(), serde_json::Value::from("a@x.com"));
    claims.insert("exp".to_string(), serde_json::Value::from(9_999_999_999i64));
    let token = jsonwebtoken::encode(
        &jsonwebtoken::Header::new(jsonwebtoken::Algorithm::HS512),
        &claims,
        &jsonwebtoken::EncodingKey::from_secret(b"secret"),
    )
    .unwrap();
    assert_eq!(
        validate_at(&token, &config("secret", 60), 1_000),
        Err(AuthError::InvalidSignature)
    );
}

#[test]
fn signed_token_without_expiration_is_malformed() {
    let mut claims = serde_json::Map::new();
    claims.insert("email".to_string(), serde_json::Value::from("a@x.com"));
    let token = jsonwebtoken::encode(
        &jsonwebtoken::Header::default(),
        &claims,
        &jsonwebtoken::EncodingKey::from_secret(b"secret"),
    )
    .unwrap();
    assert_eq!(validate_at(&token, &config("secret", 60), 1_000), Err(AuthError::Malformed));
}

#[test]
fn signed_token_without_email_is_malformed() {
    let mut claims = serde_json::Map::new();
    claims.insert("exp".to_string(), serde_json::Value::from(9_999_999_999i64));
    claims.insert("email".to_string(), serde_json::Value::from(17));
    let token = jsonwebtoken::encode(
        &jsonwebtoken::Header::default(),
        &claims,
        &jsonwebtoken::EncodingKey::from_secret(b"secret"),
    )
    .unwrap();
    assert_eq!(validate_at(&token, &config("secret", 60), 1_000), Err(AuthError::Malformed));
}

#[test]
fn token_signed_elsewhere_with_the_secret_is_accepted() {
    let mut claims = serde_json::Map::new();
    claims.insert("exp".to_string(), serde_json::Value::from(2_000));
    claims.insert("email".to_string(), serde_json::Value::from("a@x.com"));
    claims.insert("role".to_string(), serde_json::Value::from("admin"));
    let token = jsonwebtoken::encode(
        &jsonwebtoken::Header::default(),
        &claims,
        &jsonwebtoken::EncodingKey::from_secret(b"secret"),
    )
    .unwrap();
    let c = config("secret", 60);
    assert_eq!(validate_at(&token, &c, 1_999), Ok(user("a@x.com")));
    assert_eq!(validate_at(&token, &c, 2_000), Err(AuthError::Expired));
}

#[test]
fn expiration_that_does_not_fit_is_a_signing_failure() {
    let c = config("secret", 60);
    assert_eq!(issue_at(&user("a@x.com"), &c, i64::MAX), Err(AuthError::SigningFailed));
    assert_eq!(issue_at(&user("a@x.com"), &c, i64::MAX - 59), Err(AuthError::SigningFailed));
    assert!(issue_at(&user("a@x.com"), &c, i64::MAX - 60).is_ok());
}

#[test]
fn expiration_before_the_epoch_round_trips() {
    let c = config("secret", 10);
    let token = issue_at(&user("a@x.com"), &c, -100).unwrap();
    assert_eq!(validate_at(&token, &c, -91), Ok(user("a@x.com")));
    assert_eq!(validate_at(&token, &c, -90), Err(AuthError::Expired));
}

#[test]
fn email_with_unusual_characters_round_trips() {
    let c = config("", 60);
    let email = "\"quoted\"\\\n\u{0}ü日本@x.com";
    let token = issue_at(&user(email), &c, 1_000).unwrap();
    assert_eq!(validate_at(&token, &c, 1_000), Ok(user(email)));
}

#[test]
fn token_with_one_second_to_live_expires() {
    let c = config("secret", 1);
    let two_seconds_ago = clock() - 2;
    let stale = issue_at(&user("a@x.com"), &c, two_seconds_ago).unwrap();
    assert_eq!(decode_jwt(&stale, &c), Err(AuthError::Expired));
    let fresh = get_jwt(user("a@x.com"), &config("secret", 30)).unwrap();
    let principal = decode_jwt(&fresh, &config("secret", 30)).unwrap();
    assert_eq!(principal.email, "a@x.com");
}

#[test]
fn token_expires_at_the_current_instant_of_the_clock() {
    let c = config("secret", 3_600);
    let before = clock();
    let token = get_jwt(user("a@x.com"), &c).unwrap();
    let after = clock();
    assert_eq!(validate_at(&token, &c, before + 3_599), Ok(user("a@x.com")));
    assert_eq!(validate_at(&token, &c, after + 3_600), Err(AuthError::Expired));
}

#[test]
fn zero_lifetime_gives_a_token_that_is_already_expired() {
    let c = config("secret", 0);
    let token = get_jwt(user("a@x.com"), &c).unwrap();
    assert_eq!(decode_jwt(&token, &c), Err(AuthError::Expired));
}

#[test]
fn clock_is_within_its_bounds() {
    assert_eq!(CLOCK_END, 86_400 * (1i64 << 31));
    assert_eq!(LONGEST_TTL_SECONDS, i64::MAX - CLOCK_END);
    let now = clock();
    assert!(0 <= now && now < CLOCK_END);
}

#[test]
fn longest_lifetime_still_gives_a_token() {
    let c = config("secret", LONGEST_TTL_SECONDS);
    let token = get_jwt(user("a@x.com"), &c).unwrap();
    assert_eq!(decode_jwt(&token, &c), Ok(user("a@x.com")));
    assert!(issue_at(&user("a@x.com"), &c, CLOCK_END - 1).is_ok());
    assert_eq!(issue_at(&user("a@x.com"), &c, CLOCK_END + 1), Err(AuthError::SigningFailed));
}

#[test]
fn lifetime_beyond_the_longest_fails_the_signing() {
    let c = config("secret", i64::MAX);
    assert_eq!(get_jwt(user("a@x.com"), &c), Err(AuthError::SigningFailed));
    assert!(issue_at(&user("a@x.com"), &c, 0).is_ok());
}
