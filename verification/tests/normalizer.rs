//! The payload normalizer, on both encodings.

use limail::mailgun::MailgunEmailReceived;
use limail::normalize::{
    form_to_mailgun, multipart_to_mailgun, normalize_form, FormError, MultipartError,
};

fn parts_for(fields: &[(&str, &str)]) -> Vec<(String, Vec<u8>)> {
    fields
        .iter()
        .map(|(k, v)| (k.to_string(), v.as_bytes().to_vec()))
        .collect()
}

fn pairs_for(fields: &[(&str, &str)]) -> Vec<(String, String)> {
    fields
        .iter()
        .map(|(k, v)| (k.to_string(), v.to_string()))
        .collect()
}

const FULL: &[(&str, &str)] = &[
    ("sender", "bounce@mg.example"),
    ("from", "Alice <alice@example.com>"),
    ("subject", "Hi there"),
    ("body-plain", "How are you?"),
    ("timestamp", "1571666400"),
    ("token", "tok-abc123"),
    ("signature", "deadbeef"),
    ("message-headers", r#"[["Message-Id","<abc@x>"]]"#),
];

#[test]
fn multipart_builds_the_record() {
    let rec = multipart_to_mailgun(&parts_for(FULL)).unwrap();
    assert_eq!(rec.sender, "bounce@mg.example");
    assert_eq!(rec.from, "Alice <alice@example.com>");
    assert_eq!(rec.subject, "Hi there");
    assert_eq!(rec.body_plain, "How are you?");
    assert_eq!(rec.timestamp, 1571666400);
    assert_eq!(rec.token, "tok-abc123");
    assert_eq!(rec.signature, "deadbeef");
    assert_eq!(rec.message_headers, r#"[["Message-Id","<abc@x>"]]"#);
}

#[test]
fn multipart_missing_any_field_fails() {
    for skip in 0..FULL.len() {
        let fields: Vec<(&str, &str)> = FULL
            .iter()
            .enumerate()
            .filter(|(i, _)| *i != skip)
            .map(|(_, f)| *f)
            .collect();
        assert_eq!(
            multipart_to_mailgun(&parts_for(&fields)),
            Err(MultipartError::MissingFields)
        );
    }
}

#[test]
fn multipart_ignores_unknown_parts() {
    let mut fields = FULL.to_vec();
    fields.push(("attachment-count", "3"));
    assert!(multipart_to_mailgun(&parts_for(&fields)).is_ok());
}

#[test]
fn multipart_part_with_invalid_utf8_is_absent() {
    let mut parts = parts_for(FULL);
    parts.push(("subject".to_string(), vec![0xff, 0xfe]));
    // The later unreadable part does not clear the earlier good subject.
    let rec = multipart_to_mailgun(&parts).unwrap();
    assert_eq!(rec.subject, "Hi there");
    // A record whose only subject part is unreadable has no subject.
    let fields: Vec<(&str, &str)> = FULL.iter().filter(|(k, _)| *k != "subject").copied().collect();
    let mut parts = parts_for(&fields);
    parts.push(("subject".to_string(), vec![0xff, 0xfe]));
    assert_eq!(multipart_to_mailgun(&parts), Err(MultipartError::MissingFields));
}

#[test]
fn multipart_unparsable_timestamp_clears_the_slot() {
    let mut parts = parts_for(FULL);
    parts.push(("timestamp".to_string(), b"not-a-number".to_vec()));
    assert_eq!(multipart_to_mailgun(&parts), Err(MultipartError::MissingFields));
}

#[test]
fn multipart_later_part_overrides_earlier() {
    let mut parts = parts_for(FULL);
    parts.push(("subject".to_string(), b"Newer subject".to_vec()));
    assert_eq!(multipart_to_mailgun(&parts).unwrap().subject, "Newer subject");
}

#[test]
fn multipart_keeps_non_ascii_text() {
    let mut fields: Vec<(&str, &str)> = FULL.iter().filter(|(k, _)| *k != "subject").copied().collect();
    fields.push(("subject", "héllo wörld"));
    assert_eq!(multipart_to_mailgun(&parts_for(&fields)).unwrap().subject, "héllo wörld");
}

#[test]
fn form_builds_the_record() {
    let rec = form_to_mailgun(&pairs_for(FULL)).unwrap();
    assert_eq!(rec.timestamp, 1571666400);
    assert_eq!(rec.token, "tok-abc123");
}

#[test]
fn form_missing_any_field_fails() {
    for skip in 0..FULL.len() {
        let fields: Vec<(&str, &str)> = FULL
            .iter()
            .enumerate()
            .filter(|(i, _)| *i != skip)
            .map(|(_, f)| *f)
            .collect();
        assert_eq!(
            form_to_mailgun(&pairs_for(&fields)),
            Err(FormError::MissingFields)
        );
    }
}

#[test]
fn form_unparsable_timestamp_is_its_own_error() {
    let fields: Vec<(&str, &str)> = FULL
        .iter()
        .map(|&(k, v)| if k == "timestamp" { (k, "soon") } else { (k, v) })
        .collect();
    assert_eq!(form_to_mailgun(&pairs_for(&fields)), Err(FormError::InvalidTimestamp));
}

#[test]
fn form_tolerates_unknown_extra_fields() {
    let mut fields = FULL.to_vec();
    fields.push(("X-extra", "ignored"));
    assert!(form_to_mailgun(&pairs_for(&fields)).is_ok());
}

#[test]
fn both_encodings_build_the_same_record() {
    let by_form: MailgunEmailReceived = form_to_mailgun(&pairs_for(FULL)).unwrap();
    let by_multipart: MailgunEmailReceived = multipart_to_mailgun(&parts_for(FULL)).unwrap();
    assert_eq!(by_form, by_multipart);
}

#[test]
fn raw_form_body_decodes_percent_escapes() {
    let body = b"sender=bounce%40mg.example&from=alice%40example.com&subject=Hi+there&\
body-plain=How%20are%20you%3F&timestamp=1571666400&token=tok-abc123&\
signature=deadbeef&message-headers=%5B%5D";
    let rec = normalize_form(body).unwrap();
    assert_eq!(rec.sender, "bounce@mg.example");
    assert_eq!(rec.subject, "Hi there");
    assert_eq!(rec.body_plain, "How are you?");
    assert_eq!(rec.message_headers, "[]");
}

#[test]
fn raw_form_body_with_invalid_bytes_decodes_leniently() {
    // The form decoder replaces invalid byte sequences instead of failing,
    // so such a body is short of its required fields rather than rejected
    // outright.
    assert_eq!(normalize_form(&[0xff, 0xfe]), Err(FormError::MissingFields));
}

#[test]
fn raw_form_body_missing_fields_is_rejected() {
    assert_eq!(
        normalize_form(b"sender=a&from=b"),
        Err(FormError::MissingFields)
    );
}
