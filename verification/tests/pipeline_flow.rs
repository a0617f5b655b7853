//! End-to-end pipeline scenarios, with the outbound calls simulated.

use limail::mailgun::{Mailgun, MailgunEmailReceived};
use limail::pipeline::{
    finish_no_reply, forward_after_first, forward_outcome, prepare_forward, prepare_no_reply,
};
use limail::respond::{recover_error, Failure};
use limail::signature::VerifyError;
use limail::slack::{MessageResponse, Slack, SlackError};

fn signed_email(key: &str) -> MailgunEmailReceived {
    let timestamp: i64 = 1571666400;
    let token = "tok-abc123";
    let mut mac = <hmac::Hmac<sha2::Sha256> as hmac::KeyInit>::new_from_slice(key.as_bytes())
        .expect("HMAC accepts keys of any length");
    hmac::Mac::update(&mut mac, format!("{}{}", timestamp, token).as_bytes());
    let signature = hex::encode(hmac::Mac::finalize(mac).into_bytes());
    MailgunEmailReceived {
        sender: String::from("bounce@mg.example"),
        from: String::from("alice@example.com"),
        subject: String::from("Need help"),
        body_plain: String::from("My account is stuck."),
        timestamp,
        token: token.to_string(),
        signature,
        message_headers: String::from(r#"[["Message-Id","<abc@x>"]]"#),
    }
}

fn mailgun() -> Mailgun {
    Mailgun {
        api_key: String::from("key-SECRET-REDACTED"),
        domain: String::from("mg.example"),
        from: String::from("no-reply@mg.example"),
    }
}

#[test]
fn responder_replies_in_thread_with_the_template() {
    let mg = mailgun();
    let email = signed_email(&mg.api_key);
    let template = prepare_no_reply(&mg, &email, String::from("welcome")).unwrap();
    assert_eq!(template.recipient, "alice@example.com");
    assert_eq!(template.subject, "Re: Need help");
    assert_eq!(template.template, "welcome");
    assert_eq!(template.in_reply_to, "<abc@x>");
    assert_eq!(template.references, "<abc@x>");
    assert_eq!(finish_no_reply(Ok(())), Ok(String::from("Message Processed")));
}

#[test]
fn responder_rejects_a_tampered_signature_before_any_send() {
    let mg = mailgun();
    let mut email = signed_email(&mg.api_key);
    let mut sig = email.signature.into_bytes();
    sig[0] = if sig[0] == b'0' { b'1' } else { b'0' };
    email.signature = String::from_utf8(sig).unwrap();
    let failure = prepare_no_reply(&mg, &email, String::from("welcome")).unwrap_err();
    assert_eq!(failure, Failure::Verify(VerifyError::SignatureMismatch));
    let response = recover_error(&failure);
    assert_eq!(response.code, 400);
    assert_eq!(response.message, "bad signature");
}

#[test]
fn responder_without_message_id_is_a_header_failure() {
    let mg = mailgun();
    let mut email = signed_email(&mg.api_key);
    email.message_headers = String::from(r#"[["Other","y"]]"#);
    // The signature no longer needs to change: headers are not signed.
    let failure = prepare_no_reply(&mg, &email, String::from("welcome")).unwrap_err();
    assert!(matches!(failure, Failure::Header(_)));
    let response = recover_error(&failure);
    assert_eq!(response.code, 400);
    assert_eq!(response.message, "unable to extract message id");
}

#[test]
fn failed_reply_send_maps_to_delivery() {
    let outcome = finish_no_reply(Err(String::from("connection refused")));
    assert_eq!(outcome, Err(Failure::Delivery));
    let response = recover_error(&Failure::Delivery);
    assert_eq!(response.code, 500);
    assert_eq!(response.message, "unable to send message");
}

#[test]
fn forward_posts_subject_then_threads_the_body() {
    let mg = mailgun();
    let email = signed_email(&mg.api_key);
    let first = prepare_forward(&mg, &email, String::from("general")).unwrap();
    assert_eq!(first.channel, "general");
    assert_eq!(first.text, "Email Received: Need help");
    assert_eq!(first.thread_ts, None);
    assert!(first.as_user);
    let second = forward_after_first(
        &email,
        String::from("general"),
        Ok(MessageResponse { ok: true, ts: String::from("162.1") }),
    )
    .unwrap();
    assert_eq!(second.channel, "general");
    assert_eq!(second.text, "```My account is stuck.```\n(from: bounce@mg.example)");
    assert_eq!(second.thread_ts, Some(String::from("162.1")));
    assert!(second.as_user);
    assert_eq!(
        forward_outcome(Ok(MessageResponse { ok: true, ts: String::from("162.2") })),
        Ok(String::from("Sent"))
    );
}

#[test]
fn forward_with_failed_second_post_is_a_delivery_failure() {
    let mg = mailgun();
    let email = signed_email(&mg.api_key);
    let first = prepare_forward(&mg, &email, String::from("general")).unwrap();
    assert_eq!(first.thread_ts, None);
    let second = forward_after_first(
        &email,
        String::from("general"),
        Ok(MessageResponse { ok: true, ts: String::from("162.1") }),
    )
    .unwrap();
    assert_eq!(second.thread_ts, Some(String::from("162.1")));
    let outcome = forward_outcome(Err(SlackError::HttpError(String::from("boom"))));
    assert_eq!(outcome, Err(Failure::Delivery));
    assert_eq!(recover_error(&Failure::Delivery).code, 500);
}

#[test]
fn forward_with_failed_first_post_never_builds_the_second() {
    let mg = mailgun();
    let email = signed_email(&mg.api_key);
    let after = forward_after_first(
        &email,
        String::from("general"),
        Err(SlackError::HttpError(String::from("down"))),
    );
    assert_eq!(after, Err(Failure::Delivery));
}

#[test]
fn forward_rejects_a_tampered_signature() {
    let mg = mailgun();
    let mut email = signed_email(&mg.api_key);
    email.token = String::from("tok-other");
    let failure = prepare_forward(&mg, &email, String::from("general")).unwrap_err();
    assert_eq!(failure, Failure::Verify(VerifyError::SignatureMismatch));
}

#[test]
fn identical_requests_are_processed_identically() {
    let mg = mailgun();
    let email = signed_email(&mg.api_key);
    let first_run = prepare_no_reply(&mg, &email, String::from("welcome"));
    let second_run = prepare_no_reply(&mg, &email, String::from("welcome"));
    assert_eq!(first_run, second_run);
    let f1 = prepare_forward(&mg, &email, String::from("general"));
    let f2 = prepare_forward(&mg, &email, String::from("general"));
    assert_eq!(f1, f2);
}

#[test]
fn missing_fields_failure_renders_as_bad_request() {
    let response = recover_error(&Failure::MissingFields);
    assert_eq!(response.code, 400);
    assert_eq!(response.message, "missing required field(s)");
}

#[test]
fn undecodable_signature_renders_as_bad_request() {
    let response = recover_error(&Failure::Verify(VerifyError::DecodeError));
    assert_eq!(response.code, 400);
    assert_eq!(response.message, "unable to decode signature");
}

#[test]
fn outbound_email_request_carries_all_seven_fields() {
    let mg = mailgun();
    let email = signed_email(&mg.api_key);
    let template = prepare_no_reply(&mg, &email, String::from("welcome")).unwrap();
    let (url, params) = mg.send_email_request(&template);
    assert_eq!(url, "https://api.mailgun.net/v3/mg.example/messages");
    assert_eq!(
        params,
        vec![
            ("from".to_string(), "no-reply@mg.example".to_string()),
            ("to".to_string(), "alice@example.com".to_string()),
            ("subject".to_string(), "Re: Need help".to_string()),
            ("template".to_string(), "welcome".to_string()),
            ("h:X-Autoreply".to_string(), "yes".to_string()),
            ("h:In-Reply-To".to_string(), "<abc@x>".to_string()),
            ("h:References".to_string(), "<abc@x>".to_string()),
        ]
    );
}

#[test]
fn chat_requests_use_bearer_auth_on_the_post_endpoint() {
    let slack = Slack { api_key: String::from("SECRET-REDACTED") };
    assert_eq!(slack.post_message_url(), "https://slack.com/api//chat.postMessage");
    assert_eq!(slack.auth_header(), "Bearer SECRET-REDACTED");
}
