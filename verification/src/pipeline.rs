//! The per-request pipeline, as decision functions from plain values to
//! plain values: normalize, verify, extract, build the outbound action,
//! and map the collaborator's answer to the final response. The hosting
//! shell performs the outbound calls and feeds their results back in;
//! every decision between two calls is made here.

use vstd::prelude::*;
use vstd::string::StringExecFns;

use crate::headers::{extract_message_id, extract_outcome, header_doc_of};
use crate::mailgun::{EmailTemplate, EmailTemplateV, Mailgun, MailgunEmailReceived, MailgunEmailReceivedV};
use crate::respond::Failure;
use crate::signature::{verify, verify_outcome};
use crate::slack::{MessageResponse, SlackError, SlackMessage, SlackMessageV};

verus! {

/// The reply's subject: the received subject under a reply prefix.
pub open spec fn reply_subject_chars(subject: Seq<char>) -> Seq<char> {
    "Re: "@ + subject
}

/// The reply route's decision on a verified-or-not record: reject on a
/// bad signature, then on a missing message id; otherwise answer the
/// sender with the named template, threading the reply onto the received
/// message.
pub open spec fn no_reply_decision(
    key: Seq<char>,
    email: MailgunEmailReceivedV,
    template: Seq<char>,
) -> Result<EmailTemplateV, Failure> {
    match verify_outcome(key, email.timestamp, email.token, email.signature) {
        Err(ve) => Err(Failure::Verify(ve)),
        Ok(u) => match extract_outcome(header_doc_of(email.message_headers)) {
            Err(he) => Err(Failure::Header(he)),
            Ok(mid) => Ok(
                EmailTemplateV {
                    recipient: email.from,
                    subject: reply_subject_chars(email.subject),
                    template: template,
                    in_reply_to: mid,
                    references: mid,
                },
            ),
        },
    }
}

/// Runs the reply route up to its outbound call: verifies the signature,
/// extracts the message id, and builds the outbound reply template.
pub fn prepare_no_reply(mailgun: &Mailgun, email: &MailgunEmailReceived, template: String) -> (r:
    Result<EmailTemplate, Failure>)
    ensures
        match r {
            Ok(t) => no_reply_decision(mailgun.api_key@, email@, template@) == Ok::<
                EmailTemplateV,
                Failure,
            >(t@),
            Err(f) => no_reply_decision(mailgun.api_key@, email@, template@) == Err::<
                EmailTemplateV,
                Failure,
            >(f),
        },
{
    if let Err(ve) = verify(
        mailgun.api_key.as_str(),
        email.timestamp,
        email.token.as_str(),
        email.signature.as_str(),
    ) {
        return Err(Failure::Verify(ve));
    }
    match extract_message_id(email.message_headers.as_str()) {
        Err(he) => Err(Failure::Header(he)),
        Ok(mid) => {
            let mut subject = String::from_str("Re: ");
            subject.append(email.subject.as_str());
            Ok(
                EmailTemplate {
                    recipient: email.from.clone(),
                    subject,
                    template,
                    in_reply_to: mid.clone(),
                    references: mid,
                },
            )
        },
    }
}

/// Ends the reply route on the sender's answer: a delivered reply is
/// confirmed, a failed send is a delivery failure.
pub fn finish_no_reply(sent: Result<(), String>) -> (r: Result<String, Failure>)
    ensures
        match sent {
            Ok(u) => r is Ok && r->Ok_0@ == "Message Processed"@,
            Err(m) => r == Err::<String, Failure>(Failure::Delivery),
        },
{
    match sent {
        Ok(u) => Ok(String::from_str("Message Processed")),
        Err(m) => Err(Failure::Delivery),
    }
}

/// The first forwarded message's text: a received-email note with the
/// subject line.
pub open spec fn forward_first_text_chars(subject: Seq<char>) -> Seq<char> {
    "Email Received: "@ + subject
}

/// The second forwarded message's text: the plaintext body fenced as
/// code, then the envelope sender.
pub open spec fn forward_second_text_chars(body: Seq<char>, sender: Seq<char>) -> Seq<char> {
    "```"@ + body + "```\n(from: "@ + sender + ")"@
}

/// The forward route's decision up to its first outbound call: reject on
/// a bad signature, otherwise post the subject line to the channel as a
/// fresh message.
pub open spec fn forward_decision(
    key: Seq<char>,
    email: MailgunEmailReceivedV,
    channel_id: Seq<char>,
) -> Result<SlackMessageV, Failure> {
    match verify_outcome(key, email.timestamp, email.token, email.signature) {
        Err(ve) => Err(Failure::Verify(ve)),
        Ok(u) => Ok(
            SlackMessageV {
                channel: channel_id,
                text: forward_first_text_chars(email.subject),
                thread_ts: None,
                as_user: true,
            },
        ),
    }
}

/// Runs the forward route up to its first outbound call: verifies the
/// signature and builds the fresh channel message.
pub fn prepare_forward(mailgun: &Mailgun, email: &MailgunEmailReceived, channel_id: String) -> (r:
    Result<SlackMessage, Failure>)
    ensures
        match r {
            Ok(m) => forward_decision(mailgun.api_key@, email@, channel_id@) == Ok::<
                SlackMessageV,
                Failure,
            >(m@),
            Err(f) => forward_decision(mailgun.api_key@, email@, channel_id@) == Err::<
                SlackMessageV,
                Failure,
            >(f),
        },
{
    if let Err(ve) = verify(
        mailgun.api_key.as_str(),
        email.timestamp,
        email.token.as_str(),
        email.signature.as_str(),
    ) {
        return Err(Failure::Verify(ve));
    }
    let mut text = String::from_str("Email Received: ");
    text.append(email.subject.as_str());
    Ok(SlackMessage { channel: channel_id, text, thread_ts: None, as_user: true })
}

/// Decides what follows the first forwarded message: if it was not
/// posted, the whole operation fails as a delivery failure and no second
/// message is attempted; if it was, the body is posted as a threaded
/// reply under the returned identifier.
pub fn forward_after_first(
    email: &MailgunEmailReceived,
    channel_id: String,
    first: Result<MessageResponse, SlackError>,
) -> (r: Result<SlackMessage, Failure>)
    ensures
        match first {
            Err(e) => r == Err::<SlackMessage, Failure>(Failure::Delivery),
            Ok(resp) => match r {
                Ok(m) => m@ == (SlackMessageV {
                    channel: channel_id@,
                    text: forward_second_text_chars(email.body_plain@, email.sender@),
                    thread_ts: Some(resp.ts@),
                    as_user: true,
                }),
                Err(f) => false,
            },
        },
{
    match first {
        Err(e) => Err(Failure::Delivery),
        Ok(resp) => {
            let mut text = String::from_str("```");
            text.append(email.body_plain.as_str());
            text.append("```\n(from: ");
            text.append(email.sender.as_str());
            text.append(")");
            proof {
                assert(text@ =~= forward_second_text_chars(email.body_plain@, email.sender@));
            }
            Ok(
                SlackMessage {
                    channel: channel_id,
                    text,
                    thread_ts: Some(resp.ts),
                    as_user: true,
                },
            )
        },
    }
}

/// Ends the forward route on the second post's answer: a posted thread
/// reply confirms the forward, a failed post is a delivery failure —
/// even though the first message already went out.
pub fn forward_outcome(second: Result<MessageResponse, SlackError>) -> (r: Result<String, Failure>)
    ensures
        match second {
            Ok(resp) => r is Ok && r->Ok_0@ == "Sent"@,
            Err(e) => r == Err::<String, Failure>(Failure::Delivery),
        },
{
    match second {
        Ok(resp) => Ok(String::from_str("Sent")),
        Err(e) => Err(Failure::Delivery),
    }
}

/// The pipeline keeps no state between requests: two runs of the reply
/// decision on one and the same key, record and template reach one and
/// the same outcome, success or failure alike.
pub proof fn lemma_no_reply_idempotent(
    key: Seq<char>,
    email: MailgunEmailReceivedV,
    template: Seq<char>,
    r1: Result<EmailTemplateV, Failure>,
    r2: Result<EmailTemplateV, Failure>,
)
    requires
        r1 == no_reply_decision(key, email, template),
        r2 == no_reply_decision(key, email, template),
    ensures
        r1 == r2,
{
}

/// The pipeline keeps no state between requests: two runs of the forward
/// decision on one and the same key, record and channel reach one and
/// the same outcome.
pub proof fn lemma_forward_idempotent(
    key: Seq<char>,
    email: MailgunEmailReceivedV,
    channel_id: Seq<char>,
    r1: Result<SlackMessageV, Failure>,
    r2: Result<SlackMessageV, Failure>,
)
    requires
        r1 == forward_decision(key, email, channel_id),
        r2 == forward_decision(key, email, channel_id),
    ensures
        r1 == r2,
{
}

} // verus!
