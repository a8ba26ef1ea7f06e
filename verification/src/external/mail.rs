use vstd::prelude::*;
use lettre::message::Mailbox;
use lettre::SmtpTransport;
use crate::types::config::{BaseConfig, ConfigInitializer, MailEnum};
use crate::types::service::AppService;
use crate::utils::decimal::{nat_text, push_nat_text};

verus! {

/// Whether `text` reads as a mailbox: an address, or a name and an address
/// in angle brackets.
pub uninterp spec fn mailbox_parses(text: Seq<char>) -> bool;

/// Whether `url` reads as the address of an SMTP server: a URL with a
/// host and with a scheme that is known for mail.
pub uninterp spec fn smtp_url_parses(url: Seq<char>) -> bool;

/// `Mailbox::from_str` reads `text` as a mailbox.
#[verifier::external_body]
fn mailbox_accepted(text: &str) -> (ok: bool)
    ensures
        ok == mailbox_parses(text@),
{
    text.parse::<Mailbox>().is_ok()
}

/// `SmtpTransport::from_url` reads `url` as the address of a server and
/// makes the TLS settings for it. A URL that does not read is never
/// accepted. One that reads may still be refused: the TLS settings are
/// made with what the process holds for TLS.
#[verifier::external_body]
fn smtp_url_accepted(url: &str) -> (ok: bool)
    ensures
        ok ==> smtp_url_parses(url@),
{
    SmtpTransport::from_url(url).is_ok()
}

/// The address of the SMTP server at `host` and `port`, over TLS.
pub open spec fn smtps_url(host: Seq<char>, port: u32) -> Seq<char> {
    "smtps://"@ + host + seq![':'] + nat_text(port as nat)
}

/// The address of the SMTP server at `host` and `port`, over TLS.
pub fn make_smtps_url(host: &str, port: u32) -> (url: String)
    ensures
        url@ == smtps_url(host@, port),
{
    let mut url = "smtps://".to_owned();
    url.append(host);
    url.push(':');
    push_nat_text(&mut url, port);
    url
}

/// The settings step that checks the mail settings.
pub struct MailConfig;

impl ConfigInitializer for MailConfig {
    /// The settings never change. With mail switched off there is nothing
    /// to check. Else the sender must read as a mailbox and the server's
    /// address must read as one: where either does not, the answer is an
    /// error. Where both do, the answer is `Ok(false)`, or an error where
    /// the TLS settings for the server could not be made.
    open spec fn initialized(before: BaseConfig, after: BaseConfig, answer: Result<bool, ()>) -> bool {
        &&& after == before
        &&& match before.mail {
            MailEnum::Disabled => answer == Ok::<bool, ()>(false),
            MailEnum::Enable(config) => if mailbox_parses(config.from@) && smtp_url_parses(
                smtps_url(config.host@, config.port),
            ) {
                answer == Ok::<bool, ()>(false) || answer == Err::<bool, ()>(())
            } else {
                answer == Err::<bool, ()>(())
            },
        }
    }

    fn initialize(c: &mut BaseConfig) -> (answer: Result<bool, ()>) {
        match &c.mail {
            MailEnum::Enable(config) => {
                let sender = mailbox_accepted(config.from.as_str());
                let url = make_smtps_url(config.host.as_str(), config.port);
                let server = smtp_url_accepted(url.as_str());
                mail_settings_answer(sender, server)
            },
            MailEnum::Disabled => Ok(false),
        }
    }
}

/// The answer of the check of the mail settings, from whether the sender
/// was accepted and whether the server's address was.
pub fn mail_settings_answer(sender_accepted: bool, server_accepted: bool) -> (answer: Result<
    bool,
    (),
>)
    ensures
        answer == if sender_accepted && server_accepted {
            Ok::<bool, ()>(false)
        } else {
            Err(())
        },
{
    if sender_accepted && server_accepted {
        Ok(false)
    } else {
        Err(())
    }
}

/// What the mail with a link is filled with.
#[derive(Debug, Clone)]
pub struct MailToLinkTemplate {
    pub site_name: String,
    pub site_link: String,
    pub user: String,
    pub link: String,
    pub action: String,
    pub lang: String,
}

/// What the mail with a code is filled with.
#[derive(Debug, Clone)]
pub struct MailVerifyTemplate {
    pub site_name: String,
    pub site_link: String,
    pub user: String,
    pub code: String,
    pub action: String,
    pub lang: String,
}

/// The service that sends mails.
pub struct MailService;

impl AppService for MailService {
    open spec fn service_name() -> &'static str {
        "MailService"
    }

    fn name() -> (name: &'static str) {
        "MailService"
    }
}

/// Why a mail was not put into the queue.
#[derive(Debug, Clone, Copy, PartialEq, Eq)]
pub enum MailQueueError {
    /// The queue is full.
    MailBusy,
    /// The recipient does not read as a mailbox.
    ParseError,
}

/// The recipient of a mail to the person `object` at the address `email`.
pub open spec fn recipient_text(object: Seq<char>, email: Seq<char>) -> Seq<char> {
    object + " <"@ + email + ">"@
}

/// The recipient of a mail, checked: the name and, in angle brackets, the
/// address, which together must read as a mailbox.
pub fn mail_recipient(object: &str, email: &str) -> (r: Result<String, MailQueueError>)
    ensures
        match r {
            Ok(to) => to@ == recipient_text(object@, email@) && mailbox_parses(to@),
            Err(e) => e == MailQueueError::ParseError && !mailbox_parses(
                recipient_text(object@, email@),
            ),
        },
{
    let mut to = object.to_owned();
    to.append(" <");
    to.append(email);
    to.append(">");
    if mailbox_accepted(to.as_str()) {
        Ok(to)
    } else {
        Err(MailQueueError::ParseError)
    }
}

/// What sending came to, from whether the queue took the mail.
pub fn try_send(queued: bool) -> (r: Result<(), MailQueueError>)
    ensures
        r == if queued {
            Ok::<(), MailQueueError>(())
        } else {
            Err(MailQueueError::MailBusy)
        },
{
    if queued {
        Ok(())
    } else {
        Err(MailQueueError::MailBusy)
    }
}

} // verus!
