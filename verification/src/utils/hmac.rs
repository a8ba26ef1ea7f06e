use vstd::prelude::*;
use hmac::{Hmac, Mac};
use rand::distributions::{Alphanumeric, DistString};
use sha2::Sha256;
use crate::types::config::{BaseConfig, ConfigInitializer, SecurityConfig};
use crate::utils::encoding::{base64_encode, base64_standard, is_base64_text};
use crate::utils::text::same_text;

verus! {

/// The shortest credential secret that is accepted, in bytes.
pub const CREDENTIAL_SECRET_LEN: usize = 32;

/// `c` is an ASCII letter or an ASCII digit.
pub open spec fn is_alphanumeric(c: char) -> bool {
    ('a' <= c <= 'z') || ('A' <= c <= 'Z') || ('0' <= c <= '9')
}

/// `s` has `len` characters, each an ASCII letter or digit.
pub open spec fn alphanumeric_text(s: Seq<char>, len: nat) -> bool {
    s.len() == len && forall|i: int| 0 <= i < s.len() ==> is_alphanumeric(#[trigger] s[i])
}

/// The HMAC-SHA256 tag of the message `msg` under the key `key`.
pub uninterp spec fn hmac_sha256_tag(key: Seq<u8>, msg: Seq<u8>) -> Seq<u8>;

/// `Alphanumeric.sample_string` draws `len` characters from the thread's
/// random generator, each an ASCII letter or digit. Which ones is left
/// open: two calls may differ.
#[verifier::external_body]
fn random_alphanumeric(len: usize) -> (s: String)
    ensures
        alphanumeric_text(s@, len as nat),
{
    Alphanumeric.sample_string(&mut rand::thread_rng(), len)
}

/// `Hmac::<Sha256>` keyed with `key` (a key of any length is taken), fed
/// `msg` once and finalized: the tag, which has 32 bytes.
#[verifier::external_body]
fn hmac_sha256(key: &[u8], msg: &[u8]) -> (tag: Vec<u8>)
    ensures
        tag@ == hmac_sha256_tag(key@, msg@),
        tag@.len() == 32,
{
    let mut mac = Hmac::<Sha256>::new_from_slice(key).unwrap();
    mac.update(msg);
    mac.finalize().into_bytes().to_vec()
}

/// The settings step that makes sure there is a credential secret.
pub struct CredentialConfig;

impl ConfigInitializer for CredentialConfig {
    /// A secret of fewer than `CREDENTIAL_SECRET_LEN` bytes is replaced by
    /// that many random letters and digits, and the answer is `Ok(true)`.
    /// A longer secret stays, with `Ok(false)`. Nothing else changes.
    open spec fn initialized(before: BaseConfig, after: BaseConfig, answer: Result<bool, ()>) -> bool {
        if vstd::utf8::encode_utf8(before.security.credential_secret@).len() < CREDENTIAL_SECRET_LEN {
            &&& answer == Ok::<bool, ()>(true)
            &&& alphanumeric_text(after.security.credential_secret@, CREDENTIAL_SECRET_LEN as nat)
            &&& after == BaseConfig {
                security: SecurityConfig {
                    credential_secret: after.security.credential_secret,
                    ..before.security
                },
                ..before
            }
        } else {
            answer == Ok::<bool, ()>(false) && after == before
        }
    }

    fn initialize(c: &mut BaseConfig) -> (answer: Result<bool, ()>) {
        if c.security.credential_secret.as_str().as_bytes().len() < CREDENTIAL_SECRET_LEN {
            c.security.credential_secret = random_alphanumeric(CREDENTIAL_SECRET_LEN);
            return Ok(true);
        }
        Ok(false)
    }
}

/// The signature of `msg` under `key`: the HMAC-SHA256 tag of the UTF-8
/// bytes of `msg`, keyed with the UTF-8 bytes of `key`, written in base64.
pub open spec fn signature_text(key: Seq<char>, msg: Seq<char>) -> Seq<char> {
    base64_standard(hmac_sha256_tag(vstd::utf8::encode_utf8(key), vstd::utf8::encode_utf8(msg)))
}

/// Signs `msg` with `key`.
pub fn hmac_signature(key: &str, msg: &str) -> (signature: String)
    ensures
        signature@ == signature_text(key@, msg@),
        is_base64_text(signature@),
{
    let tag = hmac_sha256(key.as_bytes(), msg.as_bytes());
    base64_encode(&tag)
}

/// Whether `received` is the signature of `msg` under `key`.
pub fn hmac_verify(key: &str, msg: &str, received: &str) -> (genuine: bool)
    ensures
        genuine == (received@ == signature_text(key@, msg@)),
{
    let expected = hmac_signature(key, msg);
    same_text(expected.as_str(), received)
}

} // verus!
