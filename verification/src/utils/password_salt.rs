use vstd::prelude::*;
use argon2::password_hash::rand_core::OsRng;
use argon2::password_hash::{PasswordHash, PasswordHasher, PasswordVerifier, SaltString};
use argon2::{password_hash, Argon2};
use crate::types::config::{BaseConfig, ConfigInitializer, SecurityConfig};
use crate::types::err::{AppError, AppResult, StatusCode};

verus! {

/// `c` may stand in a salt: an ASCII letter or digit, or one of `/ + . -`.
pub open spec fn is_salt_char(c: char) -> bool {
    ('a' <= c <= 'z') || ('A' <= c <= 'Z') || ('0' <= c <= '9') || c == '/' || c == '+' || c == '.'
        || c == '-'
}

/// `s` can serve as a password salt: 4 to 64 bytes, all of them salt
/// characters.
pub open spec fn valid_salt(s: Seq<char>) -> bool {
    4 <= s.len() <= 64 && forall|i: int| 0 <= i < s.len() ==> is_salt_char(#[trigger] s[i])
}

/// Whether the Argon2 hash string `hash` reads as a hash and was made from
/// the password `password`.
pub uninterp spec fn argon2_accepts(hash: Seq<char>, password: Seq<u8>) -> bool;

/// The Argon2 hash string of `password` with the salt `salt` and the
/// default parameters; or that none could be made, `Err(true)` where the
/// output size was the reason and `Err(false)` for any other reason.
pub uninterp spec fn argon2_hashed(password: Seq<u8>, salt: Seq<char>) -> Result<Seq<char>, bool>;

/// The view of what hashing came to.
pub open spec fn hashed_view(r: Result<String, bool>) -> Result<Seq<char>, bool> {
    match r {
        Ok(hash) => Ok(hash@),
        Err(size) => Err(size),
    }
}

/// `SaltString::generate` with the system's random generator: 16 random
/// bytes written in base64 without padding, which is a valid salt. Which one
/// is left open.
#[verifier::external_body]
fn random_salt() -> (salt: String)
    ensures
        valid_salt(salt@),
{
    SaltString::generate(&mut OsRng).to_string()
}

/// `SaltString::from_b64` takes exactly the valid salts.
#[verifier::external_body]
fn salt_accepted(salt: &str) -> (ok: bool)
    ensures
        ok == valid_salt(salt@),
{
    SaltString::from_b64(salt).is_ok()
}

/// `PasswordHash::new` reads the hash string and `Argon2::verify_password`
/// checks the password against it; a string that does not read is never
/// accepted.
#[verifier::external_body]
fn argon2_verify(hash: &str, password: &[u8]) -> (ok: bool)
    ensures
        ok == argon2_accepts(hash@, password@),
{
    match PasswordHash::new(hash) {
        Ok(parsed) => Argon2::default().verify_password(password, &parsed).is_ok(),
        Err(_) => false,
    }
}

/// `Argon2::hash_password` with the default parameters. The salt must be
/// valid: `SaltString::from_b64` is unwrapped.
#[verifier::external_body]
fn argon2_hash(password: &[u8], salt: &str) -> (r: Result<String, bool>)
    requires
        valid_salt(salt@),
    ensures
        hashed_view(r) == argon2_hashed(password@, salt@),
{
    let salt = SaltString::from_b64(salt).unwrap();
    match Argon2::default().hash_password(password, &salt) {
        Ok(hash) => Ok(hash.to_string()),
        Err(password_hash::Error::OutputSize { .. }) => Err(true),
        Err(_) => Err(false),
    }
}

/// The settings step that makes sure there is a usable password salt.
pub struct PasswordSaltConfig;

impl ConfigInitializer for PasswordSaltConfig {
    /// An empty salt is replaced by a random valid one, with `Ok(true)`.
    /// A valid salt stays, with `Ok(false)`. Any other salt is an error.
    /// Nothing else changes.
    open spec fn initialized(before: BaseConfig, after: BaseConfig, answer: Result<bool, ()>) -> bool {
        if before.security.password_salt@.len() == 0 {
            &&& answer == Ok::<bool, ()>(true)
            &&& valid_salt(after.security.password_salt@)
            &&& after == BaseConfig {
                security: SecurityConfig {
                    password_salt: after.security.password_salt,
                    ..before.security
                },
                ..before
            }
        } else {
            &&& after == before
            &&& answer == if valid_salt(before.security.password_salt@) {
                Ok::<bool, ()>(false)
            } else {
                Err(())
            }
        }
    }

    fn initialize(c: &mut BaseConfig) -> (answer: Result<bool, ()>) {
        if c.security.password_salt.as_str().is_empty() {
            c.security.password_salt = random_salt();
            return Ok(true);
        }
        if check_salt(c.security.password_salt.as_str()) {
            Ok(false)
        } else {
            Err(())
        }
    }
}

/// Whether `salt` can serve as a password salt.
pub fn check_salt(salt: &str) -> (ok: bool)
    ensures
        ok == valid_salt(salt@),
{
    salt_accepted(salt)
}

/// Whether `password` is the password that the hash string `hash` was
/// made from.
pub fn compare_password(hash: &str, password: &str) -> (same: bool)
    ensures
        same == argon2_accepts(hash@, vstd::utf8::encode_utf8(password@)),
{
    argon2_verify(hash, password.as_bytes())
}

/// Hashing failed inside the hash function.
#[derive(Debug, Clone, Copy, PartialEq, Eq)]
pub struct PasswordSaltInternalError;

impl PasswordSaltInternalError {
    /// The error as a handler answers it.
    pub open spec fn error(self) -> AppError {
        AppError::Internal(StatusCode::of(500), "error.password.salt")
    }

    pub fn to_error(self) -> (e: AppError)
        ensures
            e == self.error(),
    {
        AppError::new_internal(StatusCode::from_u16(500).unwrap(), "error.password.salt")
    }
}

/// The password is too long to be hashed.
#[derive(Debug, Clone, Copy, PartialEq, Eq)]
pub struct PasswordTooLong;

impl PasswordTooLong {
    /// The error as a handler answers it.
    pub open spec fn error(self) -> AppError {
        AppError::User(StatusCode::of(200), "password too long")
    }

    pub fn to_error(self) -> (e: AppError)
        ensures
            e == self.error(),
    {
        AppError::new_user(StatusCode::from_u16(200).unwrap(), "password too long")
    }
}

/// What a handler answers for what hashing came to: the hash string, or
/// the error that belongs to the reason why there is none.
pub fn password_from_hashed(hashed: Result<String, bool>) -> (r: AppResult<String>)
    ensures
        match hashed {
            Ok(hash) => r == Ok::<String, AppError>(hash),
            Err(size) => r == Err::<String, AppError>(
                if size {
                    PasswordTooLong.error()
                } else {
                    PasswordSaltInternalError.error()
                },
            ),
        },
{
    match hashed {
        Ok(hash) => Ok(hash),
        Err(true) => Err(PasswordTooLong.to_error()),
        Err(false) => Err(PasswordSaltInternalError.to_error()),
    }
}

/// The hash string to store for `password`, made with the salt `salt`.
pub fn generate_password(password: &str, salt: &str) -> (r: AppResult<String>)
    requires
        valid_salt(salt@),
    ensures
        match argon2_hashed(vstd::utf8::encode_utf8(password@), salt@) {
            Ok(hash) => r is Ok && r.unwrap()@ == hash,
            Err(size) => r == Err::<String, AppError>(
                if size {
                    PasswordTooLong.error()
                } else {
                    PasswordSaltInternalError.error()
                },
            ),
        },
{
    password_from_hashed(argon2_hash(password.as_bytes(), salt))
}

} // verus!
