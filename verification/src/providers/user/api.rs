use vstd::prelude::*;
use unic_langid::LanguageIdentifier;
use crate::db::rbac::RoleSimple;
use crate::db::user::User;
use crate::providers::user::service::link_code_text;
use crate::types::err::{AppError, AppResult, GlobalUserError};
use crate::types::join::Joinable;
use crate::utils::decimal::{int_text, lemma_parse_int_text, parse_i32, parse_i32_chars};
use crate::utils::hmac::{hmac_verify, signature_text};
use crate::utils::password_salt::{argon2_accepts, compare_password};
use crate::utils::sniffer::ImageExt;
use crate::utils::text::{
    chars_to_string, lemma_split_after_sep, lemma_split_one, part_views, split, split_chars,
    str_chars,
};

verus! {

/// The permission that listing all users asks for.
pub const MANAGE_USER: &'static str = "MANAGE_USER";

/// The path under which a user's avatar is kept.
pub const AVATAR_PATH: &'static str = "__user/avatar";

/// The language that the tag `text` names, written in the usual way, such
/// as `en-US`; `None` where the text is no language tag.
pub uninterp spec fn language_tag(text: Seq<char>) -> Option<Seq<char>>;

/// The view of a text that may be absent.
pub open spec fn text_view(text: Option<String>) -> Option<Seq<char>> {
    match text {
        Some(t) => Some(t@),
        None => None,
    }
}

/// `LanguageIdentifier::from_str` reads the tag, and its `to_string` writes
/// it in the usual way.
#[verifier::external_body]
fn parse_language(text: &str) -> (tag: Option<String>)
    ensures
        text_view(tag) == language_tag(text@),
{
    match text.parse::<LanguageIdentifier>() {
        Ok(tag) => Some(tag.to_string()),
        Err(_) => None,
    }
}

/// The language that a request asks for, or the error for a text that
/// names none.
pub fn request_language(lang: &str) -> (r: AppResult<String>)
    ensures
        match language_tag(lang@) {
            Some(tag) => r is Ok && r.unwrap()@ == tag,
            None => r == Err::<String, AppError>(GlobalUserError::UnknownLang.error()),
        },
{
    match parse_language(lang) {
        Some(tag) => Ok(tag),
        None => Err(GlobalUserError::UnknownLang.to_error()),
    }
}

/// The pending check that the code `code` of a link proves under
/// `secret`: the code must be a signature, a dot and an id; the signature
/// must be that of the id; and the id must read as a number.
pub open spec fn verified_id(secret: Seq<char>, code: Seq<char>) -> Option<i32> {
    let parts = split(code, '.');
    if parts.len() == 2 && parts[0] == signature_text(secret, parts[1]) {
        parse_i32(parts[1])
    } else {
        None
    }
}

/// The id of the pending check that the code of a link proves, or the
/// error for a code that proves none.
pub fn verify_email(secret: &str, code: &str) -> (r: AppResult<i32>)
    ensures
        r == match verified_id(secret@, code@) {
            Some(id) => Ok::<i32, AppError>(id),
            None => Err(GlobalUserError::CredentialUnauthorized.error()),
        },
{
    let chars = str_chars(code);
    let parts = split_chars(&chars, '.');
    if parts.len() != 2 {
        return Err(GlobalUserError::CredentialUnauthorized.to_error());
    }
    let signature = chars_to_string(&parts[0]);
    let id_text = chars_to_string(&parts[1]);
    assert(part_views(parts@)[0] == parts[0]@);
    assert(part_views(parts@)[1] == parts[1]@);
    if !hmac_verify(secret, id_text.as_str(), signature.as_str()) {
        return Err(GlobalUserError::CredentialUnauthorized.to_error());
    }
    assert(parts[1]@.subrange(0, parts[1]@.len() as int) =~= parts[1]@);
    match parse_i32_chars(&parts[1], 0, parts[1].len()) {
        Some(id) => Ok(id),
        None => Err(GlobalUserError::CredentialUnauthorized.to_error()),
    }
}

/// The code of the link for a pending check proves that check, as long as
/// the signature holds no dot.
pub proof fn lemma_link_code_verifies(secret: Seq<char>, verification: i32)
    requires
        !signature_text(secret, int_text(verification as int)).contains('.'),
    ensures
        verified_id(secret, link_code_text(secret, verification)) == Some(verification),
{
    let id = int_text(verification as int);
    let sig = signature_text(secret, id);
    lemma_parse_int_text(verification as int);
    assert forall|i: int| 0 <= i < id.len() implies id[i] != '.' by {
        crate::utils::decimal::lemma_int_text_chars(verification as int, i);
    }
    assert(!id.contains('.'));
    lemma_split_one(sig, '.');
    lemma_split_after_sep(sig, id, '.');
    assert(sig.push('.') + id =~= link_code_text(secret, verification));
}

/// May the user go on, who gave `password`? `user` is the user as the
/// store holds it, with password, `None` where there is no such user.
pub fn check_password(user: Option<&User>, password: &str) -> (r: AppResult<()>)
    requires
        user matches Some(u) ==> u.password is Some,
    ensures
        r == match user {
            None => Err::<(), AppError>(GlobalUserError::NotFound.error()),
            Some(u) => if argon2_accepts(u.password.unwrap()@, vstd::utf8::encode_utf8(password@)) {
                Ok(())
            } else {
                Err(GlobalUserError::CredentialUnauthorized.error())
            },
        },
{
    let u = match user {
        Some(u) => u,
        None => {
            return Err(GlobalUserError::NotFound.to_error());
        },
    };
    let hash: &String = match &u.password {
        Some(hash) => hash,
        None => {
            return Err(GlobalUserError::NotFound.to_error());
        },
    };
    if compare_password(hash.as_str(), password) {
        Ok(())
    } else {
        Err(GlobalUserError::CredentialUnauthorized.to_error())
    }
}

/// One user of the list of all users, with the names of the user's roles.
#[derive(Debug, Clone)]
pub struct ListRes {
    pub user: User,
    pub role_infos: Vec<RoleSimple>,
}

impl Joinable<Option<Vec<i32>>, Vec<RoleSimple>> for ListRes {
    open spec fn key(&self) -> Option<Vec<i32>> {
        self.user.roles
    }

    open spec fn object(&self) -> Vec<RoleSimple> {
        self.role_infos
    }

    fn get_ref(&mut self) -> (r: (&Option<Vec<i32>>, &mut Vec<RoleSimple>)) {
        (&self.user.roles, &mut self.role_infos)
    }
}

/// The eight bytes that the number `first` was read from, the first of
/// them first: the number's bytes from the highest to the lowest.
pub open spec fn header_bytes(first: i64) -> Seq<u8> {
    Seq::new(8, |i: int| (((first as u64) >> ((8 * (7 - i)) as u64)) & 0xff) as u8)
}

/// The first eight bytes of a file from the number that was read from
/// them.
pub fn avatar_header(first: i64) -> (header: [u8; 8])
    ensures
        header@ == header_bytes(first),
{
    let x: u64 = first as u64;
    let header: [u8; 8] = [
        ((x >> 56) & 0xff) as u8,
        ((x >> 48) & 0xff) as u8,
        ((x >> 40) & 0xff) as u8,
        ((x >> 32) & 0xff) as u8,
        ((x >> 24) & 0xff) as u8,
        ((x >> 16) & 0xff) as u8,
        ((x >> 8) & 0xff) as u8,
        (x & 0xff) as u8,
    ];
    assert(x >> 0 == x) by (bit_vector);
    assert(header@ =~= header_bytes(first));
    header
}

/// The content type of an image of the kind `ext`.
pub fn avatar_content_type(ext: ImageExt) -> (content_type: String)
    ensures
        content_type@ == "image/"@ + ext.name()@,
{
    let mut content_type = "image/".to_owned();
    let name: &'static str = ext.into();
    content_type.append(name);
    content_type
}

} // verus!
