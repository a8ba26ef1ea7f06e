use vstd::prelude::*;
use chrono::{DateTime, Utc};
use pasetors::claims::{Claims, ClaimsValidationRules};
use pasetors::keys::{Generate, SymmetricKey};
use pasetors::token::UntrustedToken;
use pasetors::version4::V4;
use pasetors::Local;
use crate::types::config::{BaseConfig, ConfigInitializer, SecurityConfig};
use crate::types::err::{AppError, AppResult, GlobalUserError, StatusCode};
use crate::utils::encoding::{
    base64_decode, base64_encode, base64_standard, base64_standard_decoded, bytes_view,
};

verus! {

/// `pasetors::claims::Claims`, the claims of a token. Nothing of its inside
/// is known here.
#[verifier::external_type_specification]
#[verifier::external_body]
pub struct ExClaims(Claims);

/// The length of the key of an access token, in bytes.
pub const TOKEN_KEY_LEN: usize = 32;

/// The time that an access token is valid for, in seconds: five minutes.
pub const ACCESS_TOKEN_EXPIRE_TIME: i64 = 60 * 5;

/// Who issues access tokens.
pub const TOKEN_ISSUER: &'static str = "rustle_backend";

/// Whom access tokens are issued to.
pub const TOKEN_AUDIENCE: &'static str = "rustle_frontend";

/// What access tokens are about.
pub const TOKEN_SUBJECT: &'static str = "auth_access";

/// The name of the claim that holds the user's id.
pub const TOKEN_USER_CLAIM: &'static str = "user";

/// `SymmetricKey::<V4>::generate` asks the system for random bytes and may
/// fail; a key that it gives has `TOKEN_KEY_LEN` bytes.
#[verifier::external_body]
fn generate_key() -> (key: Option<Vec<u8>>)
    ensures
        key matches Some(bytes) ==> bytes@.len() == TOKEN_KEY_LEN,
{
    match SymmetricKey::<V4>::generate() {
        Ok(key) => Some(key.as_bytes().to_vec()),
        Err(_) => None,
    }
}

/// `Claims::new` and the setters of issuer, audience and subject: claims
/// with these three set, or `None` where one of the calls failed.
#[verifier::external_body]
fn claims_new(issuer: &str, audience: &str, subject: &str) -> (claims: Option<Claims>) {
    let mut claims = Claims::new().ok()?;
    claims.issuer(issuer).ok()?;
    claims.audience(audience).ok()?;
    claims.subject(subject).ok()?;
    Some(claims)
}

/// `Claims::add_additional` with a number as the value. `false` says that
/// the claim was refused.
#[verifier::external_body]
fn claims_add_number(claims: &mut Claims, name: &str, value: i32) -> (ok: bool) {
    claims.add_additional(name, value).is_ok()
}

/// `Utc::now` and `DateTime::timestamp`: the present time in seconds since
/// 1970. Two calls may differ.
#[verifier::external_body]
fn now_seconds() -> (now: i64) {
    Utc::now().timestamp()
}

/// `DateTime::from_timestamp` makes the two instants from their seconds
/// since 1970, `DateTime::to_rfc3339` writes them, and `Claims::issued_at`
/// and `Claims::expiration` take them up. `false` says that an instant
/// could not be made or that a time was refused.
#[verifier::external_body]
fn claims_set_times(claims: &mut Claims, issued_at: i64, expires_at: i64) -> (ok: bool) {
    let issued = DateTime::<Utc>::from_timestamp(issued_at, 0);
    let expires = DateTime::<Utc>::from_timestamp(expires_at, 0);
    match (issued, expires) {
        (Some(issued), Some(expires)) => claims.expiration(&expires.to_rfc3339()).is_ok()
            && claims.issued_at(&issued.to_rfc3339()).is_ok(),
        _ => false,
    }
}

/// `pasetors::local::encrypt` under the key `key`, without footer and
/// without assertion. `None` says that the key or the claims were refused.
#[verifier::external_body]
fn local_encrypt(key: &Vec<u8>, claims: &Claims) -> (token: Option<String>) {
    let key = SymmetricKey::<V4>::from(key).ok()?;
    pasetors::local::encrypt(&key, claims, None, None).ok()
}

/// `pasetors::local::decrypt` under the key `key`, with claims that must
/// name the given issuer, audience and subject and must be valid at the
/// present time. `None` says that the token was refused.
#[verifier::external_body]
fn local_decrypt(key: &Vec<u8>, token: &str, issuer: &str, audience: &str, subject: &str) -> (claims:
    Option<Claims>) {
    let key = SymmetricKey::<V4>::from(key).ok()?;
    let mut rules = ClaimsValidationRules::new();
    rules.validate_issuer_with(issuer);
    rules.validate_audience_with(audience);
    rules.validate_subject_with(subject);
    let untrusted = UntrustedToken::<Local, V4>::try_from(token).ok()?;
    let trusted = pasetors::local::decrypt(&key, &untrusted, &rules, None, None).ok()?;
    trusted.payload_claims().cloned()
}

/// `Claims::get_claim` and the value read as a number.
#[verifier::external_body]
fn claims_number(claims: &Claims, name: &str) -> (value: Option<i64>) {
    claims.get_claim(name)?.as_i64()
}

/// The key that the secret `secret` stands for: its bytes in base64, which
/// must be `TOKEN_KEY_LEN` in number.
pub open spec fn token_key_of(secret: Seq<char>) -> Option<Seq<u8>> {
    match base64_standard_decoded(secret) {
        Some(bytes) => if bytes.len() == TOKEN_KEY_LEN {
            Some(bytes)
        } else {
            None
        },
        None => None,
    }
}

/// The key of access tokens from the secret of the settings.
pub fn token_key(secret: &str) -> (key: Option<Vec<u8>>)
    ensures
        bytes_view(key) == token_key_of(secret@),
{
    match base64_decode(secret) {
        Some(bytes) => {
            if bytes.len() == TOKEN_KEY_LEN {
                Some(bytes)
            } else {
                None
            }
        },
        None => None,
    }
}

/// The settings step that makes sure there is a key for access tokens.
pub struct AuthTokenConfig;

impl ConfigInitializer for AuthTokenConfig {
    /// An empty secret is replaced by a new random key, written in base64,
    /// with `Ok(true)`; where no key could be made, the answer is an error
    /// and the settings stay. A secret that stands for a key stays, with
    /// `Ok(false)`. Any other secret is an error. Nothing else changes.
    open spec fn initialized(before: BaseConfig, after: BaseConfig, answer: Result<bool, ()>) -> bool {
        if before.security.auth_token_secret@.len() == 0 {
            ||| answer == Err::<bool, ()>(()) && after == before
            ||| {
                &&& answer == Ok::<bool, ()>(true)
                &&& exists|key: Seq<u8>|
                    key.len() == TOKEN_KEY_LEN && after.security.auth_token_secret@
                        == base64_standard(key)
                &&& after == BaseConfig {
                    security: SecurityConfig {
                        auth_token_secret: after.security.auth_token_secret,
                        ..before.security
                    },
                    ..before
                }
            }
        } else {
            &&& after == before
            &&& answer == if token_key_of(before.security.auth_token_secret@) is Some {
                Ok::<bool, ()>(false)
            } else {
                Err(())
            }
        }
    }

    fn initialize(c: &mut BaseConfig) -> (answer: Result<bool, ()>) {
        if c.security.auth_token_secret.as_str().is_empty() {
            return match generate_key() {
                Some(key) => {
                    c.security.auth_token_secret = base64_encode(&key);
                    Ok(true)
                },
                None => Err(()),
            };
        }
        match token_key(c.security.auth_token_secret.as_str()) {
            Some(_) => Ok(false),
            None => Err(()),
        }
    }
}

/// A token could not be made.
#[derive(Debug, Clone, Copy, PartialEq, Eq)]
pub struct TokenInternalError;

impl TokenInternalError {
    /// The error as a handler answers it.
    pub open spec fn error(self) -> AppError {
        AppError::Internal(StatusCode::of(500), "error.token")
    }

    pub fn to_error(self) -> (e: AppError)
        ensures
            e == self.error(),
    {
        AppError::new_internal(StatusCode::from_u16(500).unwrap(), "error.token")
    }
}

/// What a handler answers for what making a token came to.
pub fn token_or_error(token: Option<String>) -> (r: AppResult<String>)
    ensures
        r == match token {
            Some(t) => Ok::<String, AppError>(t),
            None => Err(TokenInternalError.error()),
        },
{
    match token {
        Some(t) => Ok(t),
        None => Err(TokenInternalError.to_error()),
    }
}

/// The time at which a token issued at `now` ends: `ACCESS_TOKEN_EXPIRE_TIME`
/// seconds later. `None` where that time is beyond what an `i64` holds.
pub open spec fn token_end(now: i64) -> Option<i64> {
    if now + ACCESS_TOKEN_EXPIRE_TIME <= i64::MAX {
        Some((now + ACCESS_TOKEN_EXPIRE_TIME) as i64)
    } else {
        None
    }
}

/// The time at which a token issued at `now` ends, both in seconds since
/// 1970.
pub fn token_expiry(now: i64) -> (end: Option<i64>)
    ensures
        end == token_end(now),
{
    now.checked_add(ACCESS_TOKEN_EXPIRE_TIME)
}

/// Makes an access token for the user `user`, valid from now for
/// `ACCESS_TOKEN_EXPIRE_TIME` seconds. The token differs from call to call.
/// A secret that stands for no key gives the token error.
pub fn generate_access_token(secret: &str, user: i32) -> (r: AppResult<String>)
    ensures
        r matches Err(e) ==> e == TokenInternalError.error(),
        token_key_of(secret@) is None ==> r is Err,
{
    access_token_at(secret, user, now_seconds())
}

/// Makes an access token for the user `user`, issued at the time `now` and
/// valid for `ACCESS_TOKEN_EXPIRE_TIME` seconds from then. The token
/// differs from call to call. A secret that stands for no key, and a time
/// whose end no `i64` holds, give the token error.
pub fn access_token_at(secret: &str, user: i32, now: i64) -> (r: AppResult<String>)
    ensures
        r matches Err(e) ==> e == TokenInternalError.error(),
        token_key_of(secret@) is None || token_end(now) is None ==> r is Err,
{
    let key = match token_key(secret) {
        Some(key) => key,
        None => {
            return Err(TokenInternalError.to_error());
        },
    };
    let mut claims = match claims_new(TOKEN_ISSUER, TOKEN_AUDIENCE, TOKEN_SUBJECT) {
        Some(claims) => claims,
        None => {
            return Err(TokenInternalError.to_error());
        },
    };
    if !claims_add_number(&mut claims, TOKEN_USER_CLAIM, user) {
        return Err(TokenInternalError.to_error());
    }
    let end = match token_expiry(now) {
        Some(end) => end,
        None => {
            return Err(TokenInternalError.to_error());
        },
    };
    if !claims_set_times(&mut claims, now, end) {
        return Err(TokenInternalError.to_error());
    }
    token_or_error(local_encrypt(&key, &claims))
}

/// The user that a token names, from the number found under its user
/// claim: the number cut to 32 bits. A token without such a number is not
/// accepted.
pub fn user_of_claim(claim: Option<i64>) -> (r: AppResult<i32>)
    ensures
        r == match claim {
            Some(user) => Ok::<i32, AppError>(user as i32),
            None => Err(GlobalUserError::StatusUnauthorized.error()),
        },
{
    match claim {
        Some(user) => Ok(#[verifier::truncate] (user as i32)),
        None => Err(GlobalUserError::StatusUnauthorized.to_error()),
    }
}

/// Checks an access token and gives the user that it names. Whether a
/// token is accepted depends on the present time. Every refusal, and a
/// secret that stands for no key, is answered alike.
pub fn verify_access_token(secret: &str, token: &str) -> (r: AppResult<i32>)
    ensures
        r matches Err(e) ==> e == GlobalUserError::StatusUnauthorized.error(),
        token_key_of(secret@) is None ==> r is Err,
{
    let key = match token_key(secret) {
        Some(key) => key,
        None => {
            return Err(GlobalUserError::StatusUnauthorized.to_error());
        },
    };
    match local_decrypt(&key, token, TOKEN_ISSUER, TOKEN_AUDIENCE, TOKEN_SUBJECT) {
        Some(claims) => user_of_claim(claims_number(&claims, TOKEN_USER_CLAIM)),
        None => Err(GlobalUserError::StatusUnauthorized.to_error()),
    }
}

} // verus!
