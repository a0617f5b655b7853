//! The error mapper: every internal failure kind converts to one stable
//! client-visible response, a status code and a message. Nothing escapes
//! the pipeline boundary unmapped.

use vstd::prelude::*;
use vstd::string::StringExecFns;

use crate::headers::HeaderError;
use crate::signature::VerifyError;

verus! {

/// Every failure kind a request can end in: the normalizer could not fill
/// all eight fields, the header blob yielded no message id, the signature
/// did not verify, or an outbound call failed.
#[derive(Clone, Copy, Debug, PartialEq, Eq, Structural)]
pub enum Failure {
    MissingFields,
    Header(HeaderError),
    Verify(VerifyError),
    Delivery,
}

/// The client response a failed request renders to.
#[derive(Debug, Clone, PartialEq, Eq)]
pub struct ErrorResponse {
    pub code: u16,
    pub message: String,
}

/// The status code of each failure kind: every rejected request is a bad
/// request, a failed outbound call is the server's own error.
pub open spec fn failure_code(f: Failure) -> u16 {
    match f {
        Failure::MissingFields => 400,
        Failure::Header(he) => 400,
        Failure::Verify(ve) => 400,
        Failure::Delivery => 500,
    }
}

/// The user-visible message of each failure kind.
pub open spec fn failure_message(f: Failure) -> Seq<char> {
    match f {
        Failure::MissingFields => "missing required field(s)"@,
        Failure::Header(he) => "unable to extract message id"@,
        Failure::Verify(VerifyError::DecodeError) => "unable to decode signature"@,
        Failure::Verify(VerifyError::SignatureMismatch) => "bad signature"@,
        Failure::Delivery => "unable to send message"@,
    }
}

/// Converts an internal failure into its client response.
pub fn recover_error(f: &Failure) -> (r: ErrorResponse)
    ensures
        r.code == failure_code(*f),
        r.message@ == failure_message(*f),
{
    match f {
        Failure::MissingFields => ErrorResponse {
            code: 400,
            message: String::from_str("missing required field(s)"),
        },
        Failure::Header(he) => ErrorResponse {
            code: 400,
            message: String::from_str("unable to extract message id"),
        },
        Failure::Verify(VerifyError::DecodeError) => ErrorResponse {
            code: 400,
            message: String::from_str("unable to decode signature"),
        },
        Failure::Verify(VerifyError::SignatureMismatch) => ErrorResponse {
            code: 400,
            message: String::from_str("bad signature"),
        },
        Failure::Delivery => ErrorResponse {
            code: 500,
            message: String::from_str("unable to send message"),
        },
    }
}

} // verus!
