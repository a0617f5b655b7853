//! Verified core of an email-webhook relay.
//!
//! The crate receives a provider's inbound-email notification as plain
//! values, normalizes it into one canonical record, checks its keyed-hash
//! signature, extracts the message id from an embedded header blob, and
//! builds the outbound action (an automated reply, or a two-step chat
//! forward). Every failure kind maps to one stable client response.
//! The HTTP shell around this pipeline lives outside the library.

pub mod headers;
pub mod mailgun;
pub mod normalize;
pub mod pipeline;
pub mod respond;
pub mod signature;
pub mod slack;
pub mod text;
