use rustle::types::config::{BaseConfig, ConfigInitializer};
use rustle::utils::hmac::{hmac_signature, hmac_verify, CredentialConfig};
use rustle::utils::paseto::{
    access_token_at, generate_access_token, token_expiry, token_key, user_of_claim,
    verify_access_token, AuthTokenConfig, TokenInternalError, ACCESS_TOKEN_EXPIRE_TIME,
};
use std::time::{SystemTime, UNIX_EPOCH};
use rustle::utils::password_salt::{
    compare_password, generate_password, password_from_hashed, PasswordSaltConfig,
    PasswordSaltInternalError, PasswordTooLong,
};
use rustle::types::err::GlobalUserError;

const KEY_TEXT: &str = "AAECAwQFBgcICQoLDA0ODxAREhMUFRYXGBkaGxwdHh8=";

#[test]
fn signature_is_hmac_sha256_in_base64() {
    assert_eq!(
        hmac_signature("key", "The quick brown fox jumps over the lazy dog"),
        "97yD9DBThCSxMpjmqm+xQ+9NWaFJRhdZl0edvC0aPNg="
    );
    assert_eq!(hmac_signature("secret", "42"), "k8Eh56pDeh4B48USxvDOPIIag5Al3KRAj4VhbeSq7nA=");
    assert_eq!(hmac_signature("", ""), "thNnmggU2ex3L5XXeMNfxf8Wl8STcVZTxscSFEKSxa0=");
}

#[test]
fn verify_accepts_the_signature_only() {
    let sig = hmac_signature("secret", "42");
    assert!(hmac_verify("secret", "42", &sig));
    assert!(!hmac_verify("secret", "43", &sig));
    assert!(!hmac_verify("other", "42", &sig));
    assert!(!hmac_verify("secret", "42", ""));
    assert!(!hmac_verify("secret", "42", "42"));
    assert!(!hmac_verify("secret", "42", &sig.to_lowercase()));
}

#[test]
fn short_credential_secret_is_replaced() {
    for short in ["", "abc", "0123456789012345678901234567890"] {
        let mut c = BaseConfig::default();
        c.security.credential_secret = String::from(short);
        c.security.password_salt = String::from("keepme");
        assert_eq!(CredentialConfig::initialize(&mut c), Ok(true));
        assert_eq!(c.security.credential_secret.len(), 32);
        assert!(c.security.credential_secret.chars().all(|ch| ch.is_ascii_alphanumeric()));
        assert_eq!(c.security.password_salt, "keepme");
    }
}

#[test]
fn long_credential_secret_stays() {
    let secret = "01234567890123456789012345678901";
    let mut c = BaseConfig::default();
    c.security.credential_secret = String::from(secret);
    assert_eq!(CredentialConfig::initialize(&mut c), Ok(false));
    assert_eq!(c.security.credential_secret, secret);
    let mut c = BaseConfig::default();
    c.security.credential_secret = String::from("ääääääääääääääää");
    assert_eq!(CredentialConfig::initialize(&mut c), Ok(false));
}

#[test]
fn two_generated_secrets_differ() {
    let mut a = BaseConfig::default();
    let mut b = BaseConfig::default();
    assert_eq!(CredentialConfig::initialize(&mut a), Ok(true));
    assert_eq!(CredentialConfig::initialize(&mut b), Ok(true));
    assert_ne!(a.security.credential_secret, b.security.credential_secret);
}

#[test]
fn empty_salt_is_replaced_by_a_valid_one() {
    let mut c = BaseConfig::default();
    assert_eq!(PasswordSaltConfig::initialize(&mut c), Ok(true));
    let salt = c.security.password_salt.clone();
    assert!(salt.len() >= 4 && salt.len() <= 64);
    assert!(salt.chars().all(|ch| ch.is_ascii_alphanumeric() || "/+.-".contains(ch)));
    assert_eq!(PasswordSaltConfig::initialize(&mut c), Ok(false));
    assert_eq!(c.security.password_salt, salt);
}

#[test]
fn unusable_salt_is_an_error() {
    for bad in ["abc", "has space", "semi;colon", &"a".repeat(65)] {
        let mut c = BaseConfig::default();
        c.security.password_salt = String::from(bad);
        assert_eq!(PasswordSaltConfig::initialize(&mut c), Err(()));
        assert_eq!(c.security.password_salt, bad);
    }
    for good in ["abcd", "a/b+c.d-e", &"a".repeat(64)] {
        let mut c = BaseConfig::default();
        c.security.password_salt = String::from(good);
        assert_eq!(PasswordSaltConfig::initialize(&mut c), Ok(false));
    }
}

#[test]
fn password_hash_is_checked_by_compare() {
    let hash = generate_password("correct horse", "c29tZXNhbHRzb21lc2FsdA").unwrap();
    assert!(hash.starts_with("$argon2id$"));
    assert!(compare_password(&hash, "correct horse"));
    assert!(!compare_password(&hash, "wrong horse"));
    assert!(!compare_password(&hash, ""));
    assert!(!compare_password("not a hash", "correct horse"));
    assert!(!compare_password("", ""));
    let again = generate_password("correct horse", "c29tZXNhbHRzb21lc2FsdA").unwrap();
    assert_eq!(hash, again);
    let other = generate_password("correct horse", "b3RoZXJzYWx0b3RoZXJzYWx0").unwrap();
    assert_ne!(hash, other);
}

#[test]
fn too_short_salt_bytes_fail_inside_the_hash() {
    let r = generate_password("password", "abcd");
    assert_eq!(r, Err(PasswordSaltInternalError.to_error()));
}

#[test]
fn hashing_outcomes_map_to_errors() {
    assert_eq!(password_from_hashed(Ok(String::from("h"))), Ok(String::from("h")));
    assert_eq!(password_from_hashed(Err(true)), Err(PasswordTooLong.to_error()));
    assert_eq!(password_from_hashed(Err(false)), Err(PasswordSaltInternalError.to_error()));
}

#[test]
fn token_key_is_32_bytes_in_base64() {
    assert_eq!(token_key(KEY_TEXT), Some((0u8..32).collect::<Vec<u8>>()));
    assert_eq!(token_key(""), None);
    assert_eq!(token_key("AAECAw=="), None);
    assert_eq!(token_key("not base64!"), None);
    assert_eq!(token_key(&KEY_TEXT[..43]), None);
}

#[test]
fn empty_token_secret_is_replaced_by_a_key() {
    let mut c = BaseConfig::default();
    assert_eq!(AuthTokenConfig::initialize(&mut c), Ok(true));
    let secret = c.security.auth_token_secret.clone();
    assert_eq!(token_key(&secret).map(|k| k.len()), Some(32));
    assert_eq!(AuthTokenConfig::initialize(&mut c), Ok(false));
    assert_eq!(c.security.auth_token_secret, secret);
}

#[test]
fn unusable_token_secret_is_an_error() {
    for bad in ["short", "AAECAw==", "***"] {
        let mut c = BaseConfig::default();
        c.security.auth_token_secret = String::from(bad);
        assert_eq!(AuthTokenConfig::initialize(&mut c), Err(()));
        assert_eq!(c.security.auth_token_secret, bad);
    }
}

#[test]
fn access_token_names_its_user() {
    for user in [1, 0, -5, i32::MAX, i32::MIN] {
        let token = generate_access_token(KEY_TEXT, user).unwrap();
        assert!(token.starts_with("v4.local."));
        assert_eq!(verify_access_token(KEY_TEXT, &token), Ok(user));
    }
}

#[test]
fn tokens_differ_from_call_to_call() {
    let a = generate_access_token(KEY_TEXT, 1).unwrap();
    let b = generate_access_token(KEY_TEXT, 1).unwrap();
    assert_ne!(a, b);
}

#[test]
fn token_is_refused_under_another_key_or_when_changed() {
    let unauthorized = Err(GlobalUserError::StatusUnauthorized.to_error());
    let token = generate_access_token(KEY_TEXT, 1).unwrap();
    let other = "Hx4dHBsaGRgXFhUUExIREA8ODQwLCgkIBwYFBAMCAQA=";
    assert_eq!(verify_access_token(other, &token), unauthorized);
    assert_eq!(verify_access_token(KEY_TEXT, &token[..token.len() - 2]), unauthorized);
    assert_eq!(verify_access_token(KEY_TEXT, ""), unauthorized);
    assert_eq!(verify_access_token(KEY_TEXT, "v4.local.AAAA"), unauthorized);
    assert_eq!(verify_access_token("bad secret", &token), unauthorized);
}

#[test]
fn token_needs_a_key() {
    assert_eq!(generate_access_token("", 1), Err(TokenInternalError.to_error()));
    assert_eq!(generate_access_token("AAECAw==", 1), Err(TokenInternalError.to_error()));
}

#[test]
fn user_claim_is_cut_to_32_bits() {
    assert_eq!(user_of_claim(Some(5)), Ok(5));
    assert_eq!(user_of_claim(Some(-5)), Ok(-5));
    assert_eq!(user_of_claim(Some(4294967296 + 7)), Ok(7));
    assert_eq!(user_of_claim(Some(2147483648)), Ok(i32::MIN));
    assert_eq!(user_of_claim(None), Err(GlobalUserError::StatusUnauthorized.to_error()));
}

fn now() -> i64 {
    SystemTime::now().duration_since(UNIX_EPOCH).unwrap().as_secs() as i64
}

#[test]
fn token_ends_five_minutes_after_it_was_issued() {
    assert_eq!(ACCESS_TOKEN_EXPIRE_TIME, 300);
    assert_eq!(token_expiry(0), Some(300));
    assert_eq!(token_expiry(1700000000), Some(1700000300));
    assert_eq!(token_expiry(-300), Some(0));
    assert_eq!(token_expiry(i64::MIN), Some(i64::MIN + 300));
    assert_eq!(token_expiry(i64::MAX - 300), Some(i64::MAX));
    assert_eq!(token_expiry(i64::MAX - 299), None);
    assert_eq!(token_expiry(i64::MAX), None);
}

#[test]
fn token_issued_now_is_accepted() {
    let token = access_token_at(KEY_TEXT, 9, now()).unwrap();
    assert_eq!(verify_access_token(KEY_TEXT, &token), Ok(9));
    let nearly_over = access_token_at(KEY_TEXT, 9, now() - 240).unwrap();
    assert_eq!(verify_access_token(KEY_TEXT, &nearly_over), Ok(9));
}

#[test]
fn token_is_refused_outside_its_five_minutes() {
    let unauthorized = Err(GlobalUserError::StatusUnauthorized.to_error());
    let old = access_token_at(KEY_TEXT, 9, now() - 301).unwrap();
    assert_eq!(verify_access_token(KEY_TEXT, &old), unauthorized);
    let from_1970 = access_token_at(KEY_TEXT, 9, 0).unwrap();
    assert_eq!(verify_access_token(KEY_TEXT, &from_1970), unauthorized);
    let not_yet = access_token_at(KEY_TEXT, 9, now() + 3600).unwrap();
    assert_eq!(verify_access_token(KEY_TEXT, &not_yet), unauthorized);
}

#[test]
fn token_at_a_time_without_end_is_an_error() {
    let failed = Err(TokenInternalError.to_error());
    assert_eq!(access_token_at(KEY_TEXT, 9, i64::MAX), failed);
    assert_eq!(access_token_at(KEY_TEXT, 9, i64::MAX - 299), failed);
    assert_eq!(access_token_at(KEY_TEXT, 9, i64::MAX - 300), failed);
    assert_eq!(access_token_at(KEY_TEXT, 9, i64::MIN), failed);
    assert_eq!(access_token_at("", 9, 0), failed);
}
