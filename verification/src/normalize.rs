//! The payload normalizer: both inbound encodings — URL-encoded form data
//! and multipart form data — converge on the same canonical record, so the
//! rest of the pipeline is encoding-agnostic.
//!
//! The multipart path folds the parts in order into eight named slots; a
//! part whose body is not UTF-8 text is treated as absent, and unknown
//! part names are ignored. The form path reads each of the eight fields by
//! key, tolerating unknown extra fields. Either way, a record is built
//! only when all eight slots are filled.

use vstd::prelude::*;
use vstd::utf8::{decode_utf8, valid_utf8};

use crate::mailgun::{MailgunEmailReceived, MailgunEmailReceivedV};
use crate::text::{parse_i64, parse_i64_chars, str_eq};

verus! {

/// The multipart path's failure: some of the eight required fields were
/// absent once all parts were consumed.
#[derive(Clone, Copy, Debug, PartialEq, Eq, Structural)]
pub enum MultipartError {
    MissingFields,
}

/// The form path's failure: a required field was absent, the timestamp
/// did not read as an integer, or the body was not form-encoded text.
#[derive(Clone, Copy, Debug, PartialEq, Eq, Structural)]
pub enum FormError {
    MissingFields,
    InvalidTimestamp,
    BadEncoding,
}

/// The eight field slots while a payload is being read.
pub struct SlotsV {
    pub sender: Option<Seq<char>>,
    pub from: Option<Seq<char>>,
    pub subject: Option<Seq<char>>,
    pub body_plain: Option<Seq<char>>,
    pub timestamp: Option<i64>,
    pub token: Option<Seq<char>>,
    pub signature: Option<Seq<char>>,
    pub message_headers: Option<Seq<char>>,
}

pub open spec fn empty_slots() -> SlotsV {
    SlotsV {
        sender: None,
        from: None,
        subject: None,
        body_plain: None,
        timestamp: None,
        token: None,
        signature: None,
        message_headers: None,
    }
}

/// The text of a part body: its UTF-8 reading, or nothing when the bytes
/// are not UTF-8.
pub open spec fn part_text(body: Seq<u8>) -> Option<Seq<char>> {
    if valid_utf8(body) {
        Some(decode_utf8(body))
    } else {
        None
    }
}

/// One part applied to the slots: a recognized name assigns its slot, an
/// unrecognized name and an unreadable body change nothing. A timestamp
/// part assigns what its text reads as, clearing the slot when it does
/// not read as an integer.
pub open spec fn apply_part(s: SlotsV, name: Seq<char>, body: Seq<u8>) -> SlotsV {
    match part_text(body) {
        None => s,
        Some(text) => {
            if name == "sender"@ {
                SlotsV { sender: Some(text), ..s }
            } else if name == "from"@ {
                SlotsV { from: Some(text), ..s }
            } else if name == "subject"@ {
                SlotsV { subject: Some(text), ..s }
            } else if name == "body-plain"@ {
                SlotsV { body_plain: Some(text), ..s }
            } else if name == "timestamp"@ {
                SlotsV { timestamp: parse_i64_chars(text), ..s }
            } else if name == "token"@ {
                SlotsV { token: Some(text), ..s }
            } else if name == "signature"@ {
                SlotsV { signature: Some(text), ..s }
            } else if name == "message-headers"@ {
                SlotsV { message_headers: Some(text), ..s }
            } else {
                s
            }
        },
    }
}

/// All parts folded into the slots, in order.
pub open spec fn fold_parts(parts: Seq<(String, Vec<u8>)>) -> SlotsV
    decreases parts.len(),
{
    if parts.len() == 0 {
        empty_slots()
    } else {
        apply_part(fold_parts(parts.drop_last()), parts.last().0@, parts.last().1@)
    }
}

pub open spec fn slots_filled(s: SlotsV) -> bool {
    s.sender is Some && s.from is Some && s.subject is Some && s.body_plain is Some && s.timestamp
        is Some && s.token is Some && s.signature is Some && s.message_headers is Some
}

/// The record filled slots stand for.
pub open spec fn record_of_slots(s: SlotsV) -> MailgunEmailReceivedV {
    MailgunEmailReceivedV {
        sender: s.sender->Some_0,
        from: s.from->Some_0,
        subject: s.subject->Some_0,
        body_plain: s.body_plain->Some_0,
        timestamp: s.timestamp->Some_0 as int,
        token: s.token->Some_0,
        signature: s.signature->Some_0,
        message_headers: s.message_headers->Some_0,
    }
}

/// What the multipart path produces: the record of the folded slots, or a
/// missing-fields failure exactly when some slot stayed empty.
pub open spec fn multipart_outcome(parts: Seq<(String, Vec<u8>)>) -> Result<
    MailgunEmailReceivedV,
    MultipartError,
> {
    if slots_filled(fold_parts(parts)) {
        Ok(record_of_slots(fold_parts(parts)))
    } else {
        Err(MultipartError::MissingFields)
    }
}

/// The multipart path fails with its missing-fields error if and only if
/// at least one of the eight required fields is absent after all parts
/// are read.
pub proof fn lemma_multipart_missing_fields_iff(parts: Seq<(String, Vec<u8>)>)
    ensures
        multipart_outcome(parts) == Err::<MailgunEmailReceivedV, MultipartError>(
            MultipartError::MissingFields,
        ) <==> !slots_filled(fold_parts(parts)),
{
}

/// Relies on `core::str::from_utf8`: it succeeds exactly on UTF-8 bytes
/// and reads them as the text they encode.
#[verifier::external_body]
fn utf8_to_string(body: &[u8]) -> (r: Option<String>)
    ensures
        r is Some <==> valid_utf8(body@),
        r is Some ==> r->Some_0@ == decode_utf8(body@),
{
    match core::str::from_utf8(body) {
        Ok(s) => Some(s.to_owned()),
        Err(_) => None,
    }
}

pub open spec fn opt_string_view(o: Option<String>) -> Option<Seq<char>> {
    match o {
        Some(s) => Some(s@),
        None => None,
    }
}

/// Builds the canonical record from multipart parts, each given as its
/// field name and raw body bytes. Parts are folded in order into the
/// eight slots; the record exists exactly when every slot is filled.
pub fn multipart_to_mailgun(parts: &Vec<(String, Vec<u8>)>) -> (r: Result<
    MailgunEmailReceived,
    MultipartError,
>)
    ensures
        match r {
            Ok(rec) => multipart_outcome(parts@) is Ok && rec@ == multipart_outcome(parts@)->Ok_0,
            Err(e) => multipart_outcome(parts@) == Err::<MailgunEmailReceivedV, MultipartError>(e),
        },
{
    let mut sender: Option<String> = None;
    let mut from: Option<String> = None;
    let mut subject: Option<String> = None;
    let mut body_plain: Option<String> = None;
    let mut timestamp: Option<i64> = None;
    let mut token: Option<String> = None;
    let mut signature: Option<String> = None;
    let mut message_headers: Option<String> = None;
    let n: usize = parts.len();
    let mut i: usize = 0;
    proof {
        assert(parts@.take(0) =~= Seq::<(String, Vec<u8>)>::empty());
    }
    while i < n
        invariant
            0 <= i <= n,
            n == parts@.len(),
            ({
                let s = fold_parts(parts@.take(i as int));
                opt_string_view(sender) == s.sender && opt_string_view(from) == s.from
                    && opt_string_view(subject) == s.subject && opt_string_view(body_plain)
                    == s.body_plain && timestamp == s.timestamp && opt_string_view(token) == s.token
                    && opt_string_view(signature) == s.signature && opt_string_view(
                    message_headers,
                ) == s.message_headers
            }),
        decreases n - i,
    {
        let part = &parts[i];
        proof {
            assert(parts@.take(i + 1).drop_last() =~= parts@.take(i as int));
            assert(parts@.take(i + 1).last() == parts@[i as int]);
        }
        match utf8_to_string(part.1.as_slice()) {
            None => {},
            Some(text) => {
                if str_eq(part.0.as_str(), "sender") {
                    sender = Some(text);
                } else if str_eq(part.0.as_str(), "from") {
                    from = Some(text);
                } else if str_eq(part.0.as_str(), "subject") {
                    subject = Some(text);
                } else if str_eq(part.0.as_str(), "body-plain") {
                    body_plain = Some(text);
                } else if str_eq(part.0.as_str(), "timestamp") {
                    timestamp = parse_i64(text.as_str());
                } else if str_eq(part.0.as_str(), "token") {
                    token = Some(text);
                } else if str_eq(part.0.as_str(), "signature") {
                    signature = Some(text);
                } else if str_eq(part.0.as_str(), "message-headers") {
                    message_headers = Some(text);
                }
            },
        }
        i = i + 1;
    }
    proof {
        assert(parts@.take(n as int) =~= parts@);
    }
    match (sender, from, subject, body_plain, timestamp, token, signature, message_headers) {
        (
            Some(sender),
            Some(from),
            Some(subject),
            Some(body_plain),
            Some(timestamp),
            Some(token),
            Some(signature),
            Some(message_headers),
        ) => Ok(
            MailgunEmailReceived {
                sender,
                from,
                subject,
                body_plain,
                timestamp,
                token,
                signature,
                message_headers,
            },
        ),
        _ => Err(MultipartError::MissingFields),
    }
}

/// The value under the first occurrence of a key among decoded form
/// pairs.
pub open spec fn first_value(pairs: Seq<(String, String)>, key: Seq<char>) -> Option<Seq<char>>
    decreases pairs.len(),
{
    if pairs.len() == 0 {
        None
    } else if pairs[0].0@ == key {
        Some(pairs[0].1@)
    } else {
        first_value(pairs.drop_first(), key)
    }
}

/// The eight slots as the form path reads them by key.
pub open spec fn form_slots(pairs: Seq<(String, String)>) -> SlotsV {
    SlotsV {
        sender: first_value(pairs, "sender"@),
        from: first_value(pairs, "from"@),
        subject: first_value(pairs, "subject"@),
        body_plain: first_value(pairs, "body-plain"@),
        timestamp: match first_value(pairs, "timestamp"@) {
            Some(t) => parse_i64_chars(t),
            None => None,
        },
        token: first_value(pairs, "token"@),
        signature: first_value(pairs, "signature"@),
        message_headers: first_value(pairs, "message-headers"@),
    }
}

/// What the form path produces: a missing-fields failure exactly when one
/// of the eight keys is absent; a timestamp failure when the key is there
/// but its value does not read as an integer; otherwise the record.
pub open spec fn form_outcome(pairs: Seq<(String, String)>) -> Result<
    MailgunEmailReceivedV,
    FormError,
> {
    if first_value(pairs, "sender"@) is None || first_value(pairs, "from"@) is None || first_value(
        pairs,
        "subject"@,
    ) is None || first_value(pairs, "body-plain"@) is None || first_value(pairs, "timestamp"@)
        is None || first_value(pairs, "token"@) is None || first_value(pairs, "signature"@) is None
        || first_value(pairs, "message-headers"@) is None {
        Err(FormError::MissingFields)
    } else if parse_i64_chars(first_value(pairs, "timestamp"@)->Some_0) is None {
        Err(FormError::InvalidTimestamp)
    } else {
        Ok(record_of_slots(form_slots(pairs)))
    }
}

/// The form path fails with its missing-fields error if and only if at
/// least one of the eight required keys is absent from the decoded pairs.
pub proof fn lemma_form_missing_fields_iff(pairs: Seq<(String, String)>)
    ensures
        form_outcome(pairs) == Err::<MailgunEmailReceivedV, FormError>(FormError::MissingFields)
            <==> (first_value(pairs, "sender"@) is None || first_value(pairs, "from"@) is None
            || first_value(pairs, "subject"@) is None || first_value(pairs, "body-plain"@) is None
            || first_value(pairs, "timestamp"@) is None || first_value(pairs, "token"@) is None
            || first_value(pairs, "signature"@) is None || first_value(pairs, "message-headers"@)
            is None),
{
}

proof fn lemma_first_value_skip(pairs: Seq<(String, String)>, key: Seq<char>, i: int)
    requires
        0 <= i < pairs.len(),
        pairs[i].0@ != key,
    ensures
        first_value(pairs.skip(i), key) == first_value(pairs.skip(i + 1), key),
{
    assert(pairs.skip(i)[0] == pairs[i]);
    assert(pairs.skip(i).drop_first() =~= pairs.skip(i + 1));
}

/// Finds the first value under a key among decoded form pairs.
fn find_first(pairs: &Vec<(String, String)>, key: &str) -> (r: Option<String>)
    ensures
        opt_string_view(r) == first_value(pairs@, key@),
{
    let n: usize = pairs.len();
    let mut i: usize = 0;
    proof {
        assert(pairs@.skip(0) =~= pairs@);
    }
    while i < n
        invariant
            0 <= i <= n,
            n == pairs@.len(),
            first_value(pairs@, key@) == first_value(pairs@.skip(i as int), key@),
        decreases n - i,
    {
        let pair = &pairs[i];
        if str_eq(pair.0.as_str(), key) {
            proof {
                assert(pairs@.skip(i as int)[0] == pairs@[i as int]);
            }
            return Some(pair.1.clone());
        }
        proof {
            lemma_first_value_skip(pairs@, key@, i as int);
        }
        i = i + 1;
    }
    proof {
        assert(pairs@.skip(n as int).len() == 0);
    }
    None
}

/// Builds the canonical record from decoded form pairs: each of the eight
/// fields is read directly by key, unknown extra pairs are tolerated, and
/// the timestamp must read as an integer.
pub fn form_to_mailgun(pairs: &Vec<(String, String)>) -> (r: Result<
    MailgunEmailReceived,
    FormError,
>)
    ensures
        match r {
            Ok(rec) => form_outcome(pairs@) is Ok && rec@ == form_outcome(pairs@)->Ok_0,
            Err(e) => form_outcome(pairs@) == Err::<MailgunEmailReceivedV, FormError>(e),
        },
{
    let sender = find_first(pairs, "sender");
    let from = find_first(pairs, "from");
    let subject = find_first(pairs, "subject");
    let body_plain = find_first(pairs, "body-plain");
    let timestamp_text = find_first(pairs, "timestamp");
    let token = find_first(pairs, "token");
    let signature = find_first(pairs, "signature");
    let message_headers = find_first(pairs, "message-headers");
    match (sender, from, subject, body_plain, timestamp_text, token, signature, message_headers) {
        (
            Some(sender),
            Some(from),
            Some(subject),
            Some(body_plain),
            Some(timestamp_text),
            Some(token),
            Some(signature),
            Some(message_headers),
        ) => {
            match parse_i64(timestamp_text.as_str()) {
                None => Err(FormError::InvalidTimestamp),
                Some(timestamp) => Ok(
                    MailgunEmailReceived {
                        sender,
                        from,
                        subject,
                        body_plain,
                        timestamp,
                        token,
                        signature,
                        message_headers,
                    },
                ),
            }
        },
        _ => Err(FormError::MissingFields),
    }
}

/// The pairs a form-encoded body decodes to, or nothing when the body is
/// not form-encoded text. Decoding is a pure function of the bytes; its
/// value is not written out here.
pub uninterp spec fn form_pairs_of(body: Seq<u8>) -> Option<Vec<(String, String)>>;

/// Relies on `serde_urlencoded::from_bytes`: the key/value pairs read
/// from a URL-encoded body are a function of the bytes alone.
#[verifier::external_body]
fn form_pairs(body: &[u8]) -> (r: Option<Vec<(String, String)>>)
    ensures
        r == form_pairs_of(body@),
{
    serde_urlencoded::from_bytes::<Vec<(String, String)>>(body).ok()
}

/// Builds the canonical record straight from a form-encoded request body.
pub fn normalize_form(body: &[u8]) -> (r: Result<MailgunEmailReceived, FormError>)
    ensures
        match form_pairs_of(body@) {
            None => r == Err::<MailgunEmailReceived, FormError>(FormError::BadEncoding),
            Some(pairs) => match r {
                Ok(rec) => form_outcome(pairs@) is Ok && rec@ == form_outcome(pairs@)->Ok_0,
                Err(e) => e != FormError::BadEncoding && form_outcome(pairs@) == Err::<
                    MailgunEmailReceivedV,
                    FormError,
                >(e),
            },
        },
{
    match form_pairs(body) {
        None => Err(FormError::BadEncoding),
        Some(pairs) => {
            let r = form_to_mailgun(&pairs);
            proof {
                assert(form_outcome(pairs@) is Ok || form_outcome(pairs@) == Err::<
                    MailgunEmailReceivedV,
                    FormError,
                >(FormError::MissingFields) || form_outcome(pairs@) == Err::<
                    MailgunEmailReceivedV,
                    FormError,
                >(FormError::InvalidTimestamp));
            }
            r
        },
    }
}

/// Both encodings are one normalizer: form pairs and multipart parts that
/// carry the same eight field values both succeed and yield the very same
/// record.
pub proof fn lemma_encodings_agree(pairs: Seq<(String, String)>, parts: Seq<(String, Vec<u8>)>)
    requires
        fold_parts(parts) == form_slots(pairs),
        slots_filled(fold_parts(parts)),
    ensures
        multipart_outcome(parts) is Ok,
        form_outcome(pairs) is Ok,
        form_outcome(pairs)->Ok_0 == multipart_outcome(parts)->Ok_0,
{
}

} // verus!
