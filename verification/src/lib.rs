//! WIMSE workload identity: identifiers, JOSE keys, tokens and HTTP message signatures.

pub mod command;
pub mod compact;
pub mod conformance;
pub mod crypto;
pub mod httpsig;
pub mod identifier;
pub mod input;
pub mod issuer;
pub mod jose;
pub mod keyfile;
pub mod mtls;
pub mod text;
pub mod wit;
pub mod wpt;
