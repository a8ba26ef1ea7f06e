use vstd::prelude::*;
use trie_rs::{Trie, TrieBuilder};
use crate::middlewares::auth::UserIdentity;
use crate::types::err::{AppError, AppResult, GlobalUserError};
use crate::utils::decimal::{parse_usize, parse_usize_chars};
use crate::utils::text::str_chars;

verus! {

/// `trie_rs::TrieBuilder`, which takes up words for a trie. Nothing of its
/// inside is known here.
#[verifier::external_type_specification]
#[verifier::external_body]
#[verifier::reject_recursive_types(Label)]
pub struct ExTrieBuilder<Label>(TrieBuilder<Label>);

/// `trie_rs::Trie`, a set of words. Nothing of its inside is known here.
#[verifier::external_type_specification]
#[verifier::external_body]
#[verifier::reject_recursive_types(Label)]
pub struct ExTrie<Label>(Trie<Label>);

/// The words that were given to a builder of a trie of bytes.
pub uninterp spec fn builder_words(builder: TrieBuilder<u8>) -> Set<Seq<u8>>;

/// The words that a trie of bytes holds.
pub uninterp spec fn trie_words(trie: Trie<u8>) -> Set<Seq<u8>>;

/// `TrieBuilder::new` makes a builder without words.
#[verifier::external_body]
fn builder_new() -> (builder: TrieBuilder<u8>)
    ensures
        builder_words(builder) =~= Set::empty(),
{
    TrieBuilder::new()
}

/// `TrieBuilder::push` adds the bytes of `word` to the words of the
/// builder.
#[verifier::external_body]
fn builder_push(builder: &mut TrieBuilder<u8>, word: &str)
    requires
        word@.len() > 0,
    ensures
        builder_words(*final(builder)) == builder_words(*old(builder)).insert(
            vstd::utf8::encode_utf8(word@),
        ),
{
    builder.push(word);
}

/// `TrieBuilder::build` makes the trie that holds the words of the builder.
#[verifier::external_body]
fn builder_build(builder: TrieBuilder<u8>) -> (trie: Trie<u8>)
    ensures
        trie_words(trie) == builder_words(builder),
{
    builder.build()
}

/// `Trie::exact_match` says whether the bytes of `query` are one of the
/// words of the trie.
#[verifier::external_body]
fn trie_exact_match(trie: &Trie<u8>, query: &str) -> (found: bool)
    ensures
        found == trie_words(*trie).contains(vstd::utf8::encode_utf8(query@)),
{
    trie.exact_match(query)
}

/// The id that stands for a caller whose identity is not known.
pub const UNKNOWN_USER_ID: i32 = 0;

/// The id of the caller of a request: the id of the identity that was
/// attached to the request, or `UNKNOWN_USER_ID` where none was.
pub fn get_user_id(identity: Option<&UserIdentity>) -> (id: i32)
    ensures
        id == match identity {
            Some(known) => known.id,
            None => UNKNOWN_USER_ID,
        },
{
    match identity {
        Some(known) => known.id,
        None => UNKNOWN_USER_ID,
    }
}

/// Checks the announced length of a request's body against the most that
/// is taken. `length_header` is the value of the `content-length` header,
/// `None` where the request has no such header that is text. The header
/// must be there and must read as a number; the number must not be above
/// `required_size`.
pub fn check_content_length(length_header: Option<&str>, required_size: usize) -> (r: AppResult<()>)
    ensures
        r == match length_header {
            None => Err::<(), AppError>(GlobalUserError::PayloadLengthRequired.error()),
            Some(text) => match parse_usize(text@) {
                None => Err(GlobalUserError::PayloadLengthRequired.error()),
                Some(size) => if size > required_size {
                    Err(GlobalUserError::PayloadTooLarge.error())
                } else {
                    Ok(())
                },
            },
        },
{
    let text = match length_header {
        Some(text) => text,
        None => {
            return Err(GlobalUserError::PayloadLengthRequired.to_error());
        },
    };
    let chars = str_chars(text);
    match parse_usize_chars(&chars) {
        None => Err(GlobalUserError::PayloadLengthRequired.to_error()),
        Some(size) => {
            if size > required_size {
                Err(GlobalUserError::PayloadTooLarge.to_error())
            } else {
                Ok(())
            }
        },
    }
}

/// The content types of the images that are taken, as bytes.
pub open spec fn image_mime_words() -> Set<Seq<u8>> {
    Set::<Seq<u8>>::empty().insert(vstd::utf8::encode_utf8("image/jpeg"@)).insert(
        vstd::utf8::encode_utf8("image/png"@),
    ).insert(vstd::utf8::encode_utf8("image/gif"@)).insert(
        vstd::utf8::encode_utf8("image/bmp"@),
    ).insert(vstd::utf8::encode_utf8("image/webp"@)).insert(vstd::utf8::encode_utf8("image/tiff"@))
}

/// The trie of the content types of the images that are taken.
pub fn allowed_image_mime() -> (trie: Trie<u8>)
    ensures
        trie_words(trie) == image_mime_words(),
{
    proof {
        reveal_strlit("image/jpeg");
        reveal_strlit("image/png");
        reveal_strlit("image/gif");
        reveal_strlit("image/bmp");
        reveal_strlit("image/webp");
        reveal_strlit("image/tiff");
    }
    let mut builder = builder_new();
    builder_push(&mut builder, "image/jpeg");
    builder_push(&mut builder, "image/png");
    builder_push(&mut builder, "image/gif");
    builder_push(&mut builder, "image/bmp");
    builder_push(&mut builder, "image/webp");
    builder_push(&mut builder, "image/tiff");
    builder_build(builder)
}

/// Checks the content type of a request against the content types that
/// are taken. `content_type` is the value of the `content-type` header,
/// `None` where the request has no such header that is text. The header
/// must be there and must be one of the words of `mimes`, byte for byte.
pub fn check_mime<'a>(content_type: Option<&'a str>, mimes: &Trie<u8>) -> (r: AppResult<&'a str>)
    ensures
        r == match content_type {
            None => Err::<&'a str, AppError>(GlobalUserError::InvalidMime.error()),
            Some(mime) => if trie_words(*mimes).contains(vstd::utf8::encode_utf8(mime@)) {
                Ok(mime)
            } else {
                Err(GlobalUserError::InvalidMime.error())
            },
        },
{
    match content_type {
        None => Err(GlobalUserError::InvalidMime.to_error()),
        Some(mime) => {
            if trie_exact_match(mimes, mime) {
                Ok(mime)
            } else {
                Err(GlobalUserError::InvalidMime.to_error())
            }
        },
    }
}

} // verus!
