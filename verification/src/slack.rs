//! The chat-side data model: the chat handle with its token, the message
//! to post, the provider's response, and the chat-side error kind.

use vstd::prelude::*;
use vstd::string::StringExecFns;

verus! {

/// A failed chat call, with the transport's reason.
#[derive(Debug, Clone, PartialEq, Eq)]
pub enum SlackError {
    HttpError(String),
}

/// The chat handle: the bearer token for the chat API.
#[derive(Debug, Clone, PartialEq, Eq)]
pub struct Slack {
    pub api_key: String,
}

/// The chat API's answer to a posted message: whether it was accepted,
/// and the posted message's thread identifier.
#[derive(Debug, Clone, PartialEq, Eq)]
pub struct MessageResponse {
    pub ok: bool,
    pub ts: String,
}

/// The mathematical image of a `MessageResponse`.
pub struct MessageResponseV {
    pub ok: bool,
    pub ts: Seq<char>,
}

impl View for MessageResponse {
    type V = MessageResponseV;

    open spec fn view(&self) -> MessageResponseV {
        MessageResponseV { ok: self.ok, ts: self.ts@ }
    }
}

/// One message to post: the channel, the text, the thread to answer (none
/// for a fresh message), and whether to post as the authenticated user.
#[derive(Debug, Clone, PartialEq, Eq)]
pub struct SlackMessage {
    pub channel: String,
    pub text: String,
    pub thread_ts: Option<String>,
    pub as_user: bool,
}

/// The mathematical image of a `SlackMessage`.
pub struct SlackMessageV {
    pub channel: Seq<char>,
    pub text: Seq<char>,
    pub thread_ts: Option<Seq<char>>,
    pub as_user: bool,
}

impl View for SlackMessage {
    type V = SlackMessageV;

    open spec fn view(&self) -> SlackMessageV {
        SlackMessageV {
            channel: self.channel@,
            text: self.text@,
            thread_ts: match self.thread_ts {
                Some(t) => Some(t@),
                None => None,
            },
            as_user: self.as_user,
        }
    }
}

/// The chat API's message-post endpoint, written as the base URL followed
/// by the method path.
pub open spec fn post_message_url_chars() -> Seq<char> {
    "https://slack.com/api/"@ + "/chat.postMessage"@
}

impl Slack {
    /// The URL a message is posted to.
    pub fn post_message_url(&self) -> (r: String)
        ensures
            r@ == post_message_url_chars(),
    {
        let mut url = String::from_str("https://slack.com/api/");
        url.append("/chat.postMessage");
        url
    }

    /// The authorization header value for chat calls: the bearer token.
    pub fn auth_header(&self) -> (r: String)
        ensures
            r@ == "Bearer "@ + self.api_key@,
    {
        let mut h = String::from_str("Bearer ");
        h.append(self.api_key.as_str());
        h
    }
}

} // verus!
