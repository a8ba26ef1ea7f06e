use vstd::prelude::*;
use base64::engine::general_purpose;
use base64::Engine;

verus! {

/// The writing of `bytes` in base64, standard alphabet, with padding.
pub uninterp spec fn base64_standard(bytes: Seq<u8>) -> Seq<char>;

/// The bytes that the base64 text `text` stands for, standard alphabet with
/// padding, or `None` where the text is not base64.
pub uninterp spec fn base64_standard_decoded(text: Seq<char>) -> Option<Seq<u8>>;

/// `c` is a character of base64 texts with the standard alphabet: an ASCII
/// letter or digit, `+`, `/`, or the padding `=`.
pub open spec fn is_base64_char(c: char) -> bool {
    ('a' <= c <= 'z') || ('A' <= c <= 'Z') || ('0' <= c <= '9') || c == '+' || c == '/' || c == '='
}

/// Every character of `s` is a character of base64 texts.
pub open spec fn is_base64_text(s: Seq<char>) -> bool {
    forall|i: int| 0 <= i < s.len() ==> is_base64_char(#[trigger] s[i])
}

/// The longest input that `base64_encode` takes.
pub const BASE64_INPUT_MAX: usize = 0x3fff_ffff;

/// The view of bytes that may be absent.
pub open spec fn bytes_view(bytes: Option<Vec<u8>>) -> Option<Seq<u8>> {
    match bytes {
        Some(b) => Some(b@),
        None => None,
    }
}

/// `general_purpose::STANDARD.encode`, which fails only where the length of
/// its output does not fit in `usize`. What it writes is made of the
/// characters of the standard alphabet and of the padding.
#[verifier::external_body]
pub(crate) fn base64_encode(bytes: &Vec<u8>) -> (text: String)
    requires
        bytes@.len() <= BASE64_INPUT_MAX,
    ensures
        text@ == base64_standard(bytes@),
        is_base64_text(text@),
{
    general_purpose::STANDARD.encode(bytes)
}

/// `general_purpose::STANDARD.decode`.
#[verifier::external_body]
pub(crate) fn base64_decode(text: &str) -> (bytes: Option<Vec<u8>>)
    ensures
        bytes_view(bytes) == base64_standard_decoded(text@),
{
    general_purpose::STANDARD.decode(text).ok()
}

} // verus!
