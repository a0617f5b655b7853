//! Keyed-hash signature verification for inbound webhook calls.
//!
//! The provider signs each notification by an HMAC over the decimal
//! timestamp followed by the per-message token, keyed with the shared API
//! key, and sends the tag hex-encoded. Verification decodes the hex and
//! compares it against the recomputed tag in constant time.

use vstd::prelude::*;
use vstd::string::StringExecFns;

use crate::text::dec_int_chars;

verus! {

/// A failed verification: the signature field was not valid hex, or the
/// decoded bytes differ from the recomputed tag.
#[derive(Clone, Copy, Debug, PartialEq, Eq, Structural)]
pub enum VerifyError {
    DecodeError,
    SignatureMismatch,
}

pub open spec fn is_hex_digit_char(c: char) -> bool {
    (48 <= c as u32 && c as u32 <= 57) || (97 <= c as u32 && c as u32 <= 102) || (65 <= c as u32
        && c as u32 <= 70)
}

pub open spec fn hex_digit_val(c: char) -> nat {
    if 48 <= c as u32 && c as u32 <= 57 {
        (c as u32 - 48) as nat
    } else if 97 <= c as u32 && c as u32 <= 102 {
        (c as u32 - 87) as nat
    } else {
        (c as u32 - 55) as nat
    }
}

/// A string that hex-decodes: an even count of hexadecimal digits.
pub open spec fn valid_hex_chars(s: Seq<char>) -> bool {
    s.len() % 2 == 0 && forall|i: int| 0 <= i < s.len() ==> is_hex_digit_char(#[trigger] s[i])
}

/// The bytes a hex digit string stands for, one byte per digit pair.
pub open spec fn hex_bytes_of(s: Seq<char>) -> Seq<u8>
    decreases s.len(),
{
    if s.len() < 2 {
        seq![]
    } else {
        seq![(hex_digit_val(s[0]) * 16 + hex_digit_val(s[1])) as u8] + hex_bytes_of(s.skip(2))
    }
}

/// Relies on `hex::decode`: it succeeds exactly on an even-length string of
/// hexadecimal digits (upper or lower case), and then yields one byte per
/// digit pair; otherwise it reports an odd length or an invalid character.
#[verifier::external_body]
fn hex_decode(s: &str) -> (r: Option<Vec<u8>>)
    ensures
        r is Some <==> valid_hex_chars(s@),
        r is Some ==> r->Some_0@ == hex_bytes_of(s@),
{
    hex::decode(s).ok()
}

/// The HMAC-SHA256 tag over the UTF-8 bytes of a key and a message. The tag
/// is a pure function of the two; its value is not written out here.
pub uninterp spec fn hmac_sha256_of(key: Seq<char>, msg: Seq<char>) -> Seq<u8>;

/// Relies on `hmac::Hmac<sha2::Sha256>`: `verify_slice` accepts exactly the
/// tag of the keyed hash over the fed data, comparing in constant time, and
/// `new_from_slice` accepts keys of any length.
#[verifier::external_body]
fn hmac_sha256_matches(key: &str, msg: &str, candidate: &[u8]) -> (r: bool)
    ensures
        r == (candidate@ == hmac_sha256_of(key@, msg@)),
{
    match <hmac::Hmac<sha2::Sha256> as hmac::KeyInit>::new_from_slice(key.as_bytes()) {
        Ok(mut mac) => {
            hmac::Mac::update(&mut mac, msg.as_bytes());
            hmac::Mac::verify_slice(mac, candidate).is_ok()
        },
        Err(_) => false,
    }
}

/// The text the provider signs: the decimal timestamp, then the token.
pub open spec fn signed_message(timestamp: int, token: Seq<char>) -> Seq<char> {
    dec_int_chars(timestamp) + token
}

/// What verification returns on each input: a signature that is not hex
/// fails to decode; decoded bytes that differ from the recomputed tag are a
/// mismatch; only the exact tag passes.
pub open spec fn verify_outcome(
    key: Seq<char>,
    timestamp: int,
    token: Seq<char>,
    signature_hex: Seq<char>,
) -> Result<(), VerifyError> {
    if !valid_hex_chars(signature_hex) {
        Err(VerifyError::DecodeError)
    } else if hex_bytes_of(signature_hex) == hmac_sha256_of(
        key,
        signed_message(timestamp, token),
    ) {
        Ok(())
    } else {
        Err(VerifyError::SignatureMismatch)
    }
}

/// Verifies a webhook signature: recomputes the keyed hash over the decimal
/// timestamp followed by the token, decodes the claimed signature from hex,
/// and compares the two in constant time.
pub fn verify(key: &str, timestamp: i64, token: &str, signature_hex: &str) -> (r: Result<
    (),
    VerifyError,
>)
    ensures
        r == verify_outcome(key@, timestamp as int, token@, signature_hex@),
{
    let mut msg = crate::text::i64_to_string(timestamp);
    msg.append(token);
    match hex_decode(signature_hex) {
        None => Err(VerifyError::DecodeError),
        Some(candidate) => {
            if hmac_sha256_matches(key, msg.as_str(), candidate.as_slice()) {
                Ok(())
            } else {
                Err(VerifyError::SignatureMismatch)
            }
        },
    }
}

/// The lower-case hex digit for a value below sixteen.
pub open spec fn hex_char_of(d: nat) -> char {
    if d < 10 {
        crate::text::digit_char_of(d)
    } else if d == 10 {
        'a'
    } else if d == 11 {
        'b'
    } else if d == 12 {
        'c'
    } else if d == 13 {
        'd'
    } else if d == 14 {
        'e'
    } else {
        'f'
    }
}

/// The lower-case hex encoding of a byte string, two digits per byte.
pub open spec fn hex_encode_chars(b: Seq<u8>) -> Seq<char>
    decreases b.len(),
{
    if b.len() == 0 {
        seq![]
    } else {
        seq![hex_char_of((b[0] / 16) as nat), hex_char_of((b[0] % 16) as nat)] + hex_encode_chars(
            b.drop_first(),
        )
    }
}

proof fn lemma_hex_digit_roundtrip(d: nat)
    requires
        d < 16,
    ensures
        is_hex_digit_char(hex_char_of(d)),
        hex_digit_val(hex_char_of(d)) == d,
{
}

/// Hex encoding and decoding are inverse: the encoding of any byte string
/// is valid hex, and decodes back to the same bytes.
pub proof fn lemma_hex_roundtrip(b: Seq<u8>)
    ensures
        valid_hex_chars(hex_encode_chars(b)),
        hex_bytes_of(hex_encode_chars(b)) == b,
    decreases b.len(),
{
    if b.len() == 0 {
        assert(hex_bytes_of(hex_encode_chars(b)) =~= b);
    } else {
        let s = hex_encode_chars(b);
        let rest = hex_encode_chars(b.drop_first());
        lemma_hex_roundtrip(b.drop_first());
        lemma_hex_digit_roundtrip((b[0] / 16) as nat);
        lemma_hex_digit_roundtrip((b[0] % 16) as nat);
        assert(s.len() == 2 + rest.len());
        assert forall|i: int| 0 <= i < s.len() implies is_hex_digit_char(#[trigger] s[i]) by {
            if i >= 2 {
                assert(s[i] == rest[i - 2]);
            }
        }
        assert(s.skip(2) =~= rest);
        assert(hex_digit_val(s[0]) * 16 + hex_digit_val(s[1]) == b[0]);
        assert(hex_bytes_of(s) =~= b);
    }
}

/// A signature that hex-encodes exactly the keyed hash of the signed
/// message is accepted.
pub proof fn lemma_verify_accepts_genuine(key: Seq<char>, timestamp: int, token: Seq<char>)
    ensures
        verify_outcome(
            key,
            timestamp,
            token,
            hex_encode_chars(hmac_sha256_of(key, signed_message(timestamp, token))),
        ) == Ok::<(), VerifyError>(()),
{
    lemma_hex_roundtrip(hmac_sha256_of(key, signed_message(timestamp, token)));
}

/// A signature whose decoded bytes differ anywhere from the keyed hash of
/// the signed message — any flipped byte — is rejected as a mismatch.
pub proof fn lemma_verify_rejects_forged(
    key: Seq<char>,
    timestamp: int,
    token: Seq<char>,
    forged: Seq<u8>,
)
    requires
        forged != hmac_sha256_of(key, signed_message(timestamp, token)),
    ensures
        verify_outcome(key, timestamp, token, hex_encode_chars(forged)) == Err::<
            (),
            VerifyError,
        >(VerifyError::SignatureMismatch),
{
    lemma_hex_roundtrip(forged);
}

} // verus!
