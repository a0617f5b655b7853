//! The provider-facing data model: the canonical received-email record,
//! the reply template, the provider handle with its shared key, and the
//! provider-side error kinds.

use vstd::prelude::*;
use vstd::string::StringExecFns;

use crate::headers::{HeaderError, extract_outcome, extract_message_id, header_doc_of};
use crate::signature::{VerifyError, verify, verify_outcome};

verus! {

/// The outbound reply template: who receives it, under which subject,
/// which provider template renders it, and which message it answers.
#[derive(Debug, Clone, PartialEq, Eq)]
pub struct EmailTemplate {
    pub recipient: String,
    pub subject: String,
    pub template: String,
    pub in_reply_to: String,
    pub references: String,
}

/// The mathematical image of an `EmailTemplate`.
pub struct EmailTemplateV {
    pub recipient: Seq<char>,
    pub subject: Seq<char>,
    pub template: Seq<char>,
    pub in_reply_to: Seq<char>,
    pub references: Seq<char>,
}

impl View for EmailTemplate {
    type V = EmailTemplateV;

    open spec fn view(&self) -> EmailTemplateV {
        EmailTemplateV {
            recipient: self.recipient@,
            subject: self.subject@,
            template: self.template@,
            in_reply_to: self.in_reply_to@,
            references: self.references@,
        }
    }
}

/// A failure inside the provider-facing steps: the header blob could not
/// yield a message id, the signature did not verify, or the outbound send
/// failed with the given reason.
#[derive(Debug, Clone, PartialEq, Eq)]
pub enum MailgunError {
    JsonError(HeaderError),
    HmacError(VerifyError),
    MailgunError(String),
}

/// The canonical record of one received email. All eight fields are
/// present by construction: the normalizer refuses to build a partial
/// record.
#[derive(Debug, Clone, PartialEq, Eq)]
pub struct MailgunEmailReceived {
    pub sender: String,
    pub from: String,
    pub subject: String,
    pub body_plain: String,
    pub timestamp: i64,
    pub token: String,
    pub signature: String,
    pub message_headers: String,
}

/// The mathematical image of a `MailgunEmailReceived`.
pub struct MailgunEmailReceivedV {
    pub sender: Seq<char>,
    pub from: Seq<char>,
    pub subject: Seq<char>,
    pub body_plain: Seq<char>,
    pub timestamp: int,
    pub token: Seq<char>,
    pub signature: Seq<char>,
    pub message_headers: Seq<char>,
}

impl View for MailgunEmailReceived {
    type V = MailgunEmailReceivedV;

    open spec fn view(&self) -> MailgunEmailReceivedV {
        MailgunEmailReceivedV {
            sender: self.sender@,
            from: self.from@,
            subject: self.subject@,
            body_plain: self.body_plain@,
            timestamp: self.timestamp as int,
            token: self.token@,
            signature: self.signature@,
            message_headers: self.message_headers@,
        }
    }
}

impl MailgunEmailReceived {
    /// Extracts the message id from this record's header blob.
    pub fn get_message_id(&self) -> (r: Result<String, MailgunError>)
        ensures
            ({
                let o = extract_outcome(header_doc_of(self.message_headers@));
                match r {
                    Ok(v) => o is Ok && v@ == o->Ok_0,
                    Err(e) => match e {
                        MailgunError::JsonError(he) => o == Err::<Seq<char>, HeaderError>(he),
                        _ => false,
                    },
                }
            }),
    {
        match extract_message_id(self.message_headers.as_str()) {
            Ok(v) => Ok(v),
            Err(he) => Err(MailgunError::JsonError(he)),
        }
    }
}

/// The provider handle: the shared API key (also the HMAC verification
/// key), the sending domain, and the reply-from address.
#[derive(Debug, Clone, PartialEq, Eq)]
pub struct Mailgun {
    pub api_key: String,
    pub domain: String,
    pub from: String,
}

/// The provider's message-send endpoint for a domain.
pub open spec fn send_url_chars(domain: Seq<char>) -> Seq<char> {
    "https://api.mailgun.net/v3/"@ + domain + "/messages"@
}

impl Mailgun {
    /// Verifies a received record's signature against the shared key.
    pub fn verify_hmac(&self, email: &MailgunEmailReceived) -> (r: Result<(), MailgunError>)
        ensures
            ({
                let o = verify_outcome(
                    self.api_key@,
                    email.timestamp as int,
                    email.token@,
                    email.signature@,
                );
                match r {
                    Ok(u) => o is Ok,
                    Err(e) => match e {
                        MailgunError::HmacError(ve) => o == Err::<(), VerifyError>(ve),
                        _ => false,
                    },
                }
            }),
    {
        match verify(
            self.api_key.as_str(),
            email.timestamp,
            email.token.as_str(),
            email.signature.as_str(),
        ) {
            Ok(u) => Ok(u),
            Err(ve) => Err(MailgunError::HmacError(ve)),
        }
    }

    /// Builds the outbound send request for a reply template: the endpoint
    /// URL and the form fields the provider expects, in order — sender,
    /// recipient, subject, template, the auto-reply marker, and the two
    /// threading headers.
    pub fn send_email_request(&self, email: &EmailTemplate) -> (r: (String, Vec<(String, String)>))
        ensures
            r.0@ == send_url_chars(self.domain@),
            r.1@.len() == 7,
            r.1@[0].0@ == "from"@ && r.1@[0].1@ == self.from@,
            r.1@[1].0@ == "to"@ && r.1@[1].1@ == email.recipient@,
            r.1@[2].0@ == "subject"@ && r.1@[2].1@ == email.subject@,
            r.1@[3].0@ == "template"@ && r.1@[3].1@ == email.template@,
            r.1@[4].0@ == "h:X-Autoreply"@ && r.1@[4].1@ == "yes"@,
            r.1@[5].0@ == "h:In-Reply-To"@ && r.1@[5].1@ == email.in_reply_to@,
            r.1@[6].0@ == "h:References"@ && r.1@[6].1@ == email.references@,
    {
        let mut url = String::from_str("https://api.mailgun.net/v3/");
        url.append(self.domain.as_str());
        url.append("/messages");
        let mut params: Vec<(String, String)> = Vec::new();
        params.push((String::from_str("from"), self.from.clone()));
        params.push((String::from_str("to"), email.recipient.clone()));
        params.push((String::from_str("subject"), email.subject.clone()));
        params.push((String::from_str("template"), email.template.clone()));
        params.push((String::from_str("h:X-Autoreply"), String::from_str("yes")));
        params.push((String::from_str("h:In-Reply-To"), email.in_reply_to.clone()));
        params.push((String::from_str("h:References"), email.references.clone()));
        (url, params)
    }
}

} // verus!
