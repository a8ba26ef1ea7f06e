use vstd::prelude::*;
use rand::Rng;
use crate::external::mail::{MailQueueError, MailToLinkTemplate, MailVerifyTemplate};
use crate::types::config::InfoConfig;
use crate::types::err::{AppError, AppResult, GlobalUserError, StatusCode};
use crate::utils::decimal::{int_text, push_i32_text};
use crate::utils::hmac::{hmac_signature, signature_text};

verus! {

/// Why a mail could not be sent, as a handler answers it.
#[derive(Debug, Clone, Copy, PartialEq, Eq)]
pub enum MailInternalError {
    Render,
    Busy,
    Parse,
}

impl MailInternalError {
    pub open spec fn code(self) -> u16 {
        500
    }

    pub open spec fn msg(self) -> &'static str {
        match self {
            MailInternalError::Render => "error.mail.render",
            MailInternalError::Busy => "error.mail.busy",
            MailInternalError::Parse => "error.mail.parse",
        }
    }

    /// The error as a handler answers it.
    pub open spec fn error(self) -> AppError {
        AppError::Internal(StatusCode::of(self.code()), self.msg())
    }

    pub fn to_error(self) -> (e: AppError)
        ensures
            e == self.error(),
    {
        let msg: &'static str = match self {
            MailInternalError::Render => "error.mail.render",
            MailInternalError::Busy => "error.mail.busy",
            MailInternalError::Parse => "error.mail.parse",
        };
        AppError::new_internal(StatusCode::from_u16(500).unwrap(), msg)
    }
}

impl From<MailInternalError> for AppError {
    fn from(value: MailInternalError) -> (e: AppError) {
        value.to_error()
    }
}

impl vstd::std_specs::convert::FromSpecImpl<MailInternalError> for AppError {
    open spec fn obeys_from_spec() -> bool {
        true
    }

    open spec fn from_spec(value: MailInternalError) -> AppError {
        value.error()
    }
}

/// The number of characters of the code of a mail with a code.
pub const VERIFY_CODE_LEN: usize = 6;

/// The first of the characters that a code is drawn from.
pub const VERIFY_CODE_FIRST: char = '0';

/// The character after the last that a code is drawn from.
pub const VERIFY_CODE_END: char = '9';

/// `s` is a code of a mail with a code: `VERIFY_CODE_LEN` characters, each
/// from `VERIFY_CODE_FIRST` up to, but without, `VERIFY_CODE_END`: one of
/// the digits `0` to `8`.
pub open spec fn is_verify_code(s: Seq<char>) -> bool {
    s.len() == VERIFY_CODE_LEN && forall|i: int|
        0 <= i < s.len() ==> VERIFY_CODE_FIRST <= #[trigger] s[i] < VERIFY_CODE_END
}

/// `Rng::gen_range` over the characters from `low` up to, but without,
/// `high`, with the thread's random generator; an empty range is not
/// taken. Which character is drawn is left open.
#[verifier::external_body]
fn random_char_between(low: char, high: char) -> (c: char)
    requires
        low < high,
    ensures
        low <= c < high,
{
    rand::thread_rng().gen_range(low..high)
}

/// The answer to a request for a mail where mails are switched off.
pub fn require_mailer(mailer_enabled: bool) -> (r: AppResult<()>)
    ensures
        r == if mailer_enabled {
            Ok::<(), AppError>(())
        } else {
            Err(GlobalUserError::FeatureNotEnabled.error())
        },
{
    if mailer_enabled {
        Ok(())
    } else {
        Err(GlobalUserError::FeatureNotEnabled.to_error())
    }
}

/// The error that a handler answers with where a mail was not queued.
pub fn mail_error(e: MailQueueError) -> (r: MailInternalError)
    ensures
        r == match e {
            MailQueueError::MailBusy => MailInternalError::Busy,
            MailQueueError::ParseError => MailInternalError::Parse,
        },
{
    match e {
        MailQueueError::MailBusy => MailInternalError::Busy,
        MailQueueError::ParseError => MailInternalError::Parse,
    }
}

/// The code of the link that proves the pending check `verification`: the
/// signature of the id's decimal writing under `secret`, a dot, and that
/// writing.
pub open spec fn link_code_text(secret: Seq<char>, verification: i32) -> Seq<char> {
    signature_text(secret, int_text(verification as int)) + seq!['.'] + int_text(
        verification as int,
    )
}

/// The code of the link that proves the pending check `verification`.
/// The code has one dot only, the one before the id.
pub fn link_code(secret: &str, verification: i32) -> (code: String)
    ensures
        code@ == link_code_text(secret@, verification),
        !signature_text(secret@, int_text(verification as int)).contains('.'),
{
    let mut id = String::new();
    push_i32_text(&mut id, verification);
    assert(id@ =~= int_text(verification as int));
    let mut code = hmac_signature(secret, id.as_str());
    proof {
        if code@.contains('.') {
            let i = choose|i: int| 0 <= i < code@.len() && code@[i] == '.';
            assert(crate::utils::encoding::is_base64_char(code@[i]));
        }
    }
    code.push('.');
    code.append(id.as_str());
    code
}

/// A new random code for a mail with a code.
pub fn verify_code() -> (code: String)
    ensures
        is_verify_code(code@),
{
    let mut code = String::new();
    let mut i: usize = 0;
    while i < VERIFY_CODE_LEN
        invariant
            i <= VERIFY_CODE_LEN,
            code@.len() == i,
            forall|j: int|
                0 <= j < code@.len() ==> VERIFY_CODE_FIRST <= #[trigger] code@[j] < VERIFY_CODE_END,
        decreases VERIFY_CODE_LEN - i,
    {
        code.push(random_char_between(VERIFY_CODE_FIRST, VERIFY_CODE_END));
        i = i + 1;
    }
    code
}

/// What the mail with the link for the pending check `verification` is
/// filled with. `action` is the name of what the link does, in the
/// language `lang`.
pub fn send_tolink_email(
    secret: &str,
    verification: i32,
    site_info: &InfoConfig,
    user_name: &str,
    action: String,
    lang: String,
) -> (mail: MailToLinkTemplate)
    ensures
        mail.site_name@ == site_info.name@,
        mail.site_link@ == site_info.link@,
        mail.user@ == user_name@,
        mail.link@ == link_code_text(secret@, verification),
        mail.action == action,
        mail.lang == lang,
{
    MailToLinkTemplate {
        site_name: site_info.name.clone(),
        site_link: site_info.link.clone(),
        user: user_name.to_owned(),
        link: link_code(secret, verification),
        action,
        lang,
    }
}

/// What the mail with a code is filled with. `code` is the code that was
/// stored with the pending check.
pub fn send_verify_email(
    code: String,
    site_info: &InfoConfig,
    user_name: &str,
    action: String,
    lang: String,
) -> (mail: MailVerifyTemplate)
    ensures
        mail.site_name@ == site_info.name@,
        mail.site_link@ == site_info.link@,
        mail.user@ == user_name@,
        mail.code == code,
        mail.action == action,
        mail.lang == lang,
{
    MailVerifyTemplate {
        site_name: site_info.name.clone(),
        site_link: site_info.link.clone(),
        user: user_name.to_owned(),
        code,
        action,
        lang,
    }
}

} // verus!
