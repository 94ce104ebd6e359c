//! The WIMSE HTTP Message Signatures binding (`draft-ietf-wimse-http-signature`),
//! a profile of RFC 9421.
//!
//! A workload signs its outgoing request — including the header that carries
//! its WIT — with its proof-of-possession key; the receiver recovers that key
//! from the WIT's `cnf` claim and verifies the signature. [`message`] derives
//! covered-component values from a request or a response; [`signature`] builds
//! the signature base, signs, parses the `Signature-Input` and `Signature`
//! fields and verifies.

pub mod fields;
pub mod message;
pub mod params;
pub mod signature;

pub use message::{
    content_digest_sha256, verify_content_digest, Component, ComponentSource, HttpExchange,
    HttpRequest, HttpResponse, HttpSigError,
};
pub use params::{
    check_request_profile, check_response_profile, SignatureParams, ALG, WIMSE_LABEL, WIMSE_TAG,
};
pub use signature::{sign, signature_base, verify, SignedSignature, VerifiedSignature, VerifyConfig};
pub mod round_trip;
