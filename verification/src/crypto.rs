//! The cryptographic primitives this crate takes from outside crates:
//! Ed25519 (`ed25519-dalek`), ECDSA P-256 (`p256`), Base64 (`base64`) and
//! SHA-256 (`sha2`).
//!
//! Every function here is a thin wrapper over one outside call, from plain
//! bytes to plain bytes. What each primitive computes is named by a spec
//! function without a body; the wrappers tie their results to those names and
//! state the few facts the outside documentation promises (a signature made
//! with a key verifies under its public half, a decoding undoes an encoding).

use vstd::prelude::*;

use base64::Engine as _;
use ed25519_dalek::Signer as _;
use p256::ecdsa::signature::Signer as _;
use p256::ecdsa::signature::Verifier as _;

verus! {

broadcast use vstd::slice::group_slice_axioms;

// ---------------------------------------------------------------------------
// Names for what the primitives compute.
// ---------------------------------------------------------------------------

/// The 32-byte Ed25519 public key derived from a 32-byte seed (RFC 8032).
pub uninterp spec fn ed25519_public_key(seed: Seq<u8>) -> Seq<u8>;

/// The 64-byte Ed25519 signature of `msg` under the key with `seed`.
pub uninterp spec fn ed25519_signature(seed: Seq<u8>, msg: Seq<u8>) -> Seq<u8>;

/// Whether 32 bytes decompress to an Ed25519 point.
pub uninterp spec fn ed25519_point_valid(public: Seq<u8>) -> bool;

/// Whether `sig` is a valid strict Ed25519 signature of `msg` under `public`.
pub uninterp spec fn ed25519_verifies(public: Seq<u8>, msg: Seq<u8>, sig: Seq<u8>) -> bool;

/// The uncompressed SEC1 encoding of the P-256 public key for `scalar`.
pub uninterp spec fn p256_public_key(scalar: Seq<u8>) -> Seq<u8>;

/// The 64-byte `r || s` ECDSA P-256/SHA-256 signature of `msg` with the RFC
/// 6979 nonce, under `scalar`.
pub uninterp spec fn p256_signature(scalar: Seq<u8>, msg: Seq<u8>) -> Seq<u8>;

/// The uncompressed SEC1 encoding of the point a SEC1 byte string decodes to,
/// if it decodes to a point other than the identity.
pub uninterp spec fn p256_decoded_point(sec1: Seq<u8>) -> Option<Seq<u8>>;

/// Whether `sig` (`r || s`) is a valid ES256 signature of `msg` under the
/// SEC1-encoded `public`.
pub uninterp spec fn p256_verifies(public: Seq<u8>, msg: Seq<u8>, sig: Seq<u8>) -> bool;

/// The unpadded Base64url (RFC 4648 Section 5) encoding of `bytes`.
pub uninterp spec fn base64url_encoded(bytes: Seq<u8>) -> Seq<char>;

/// The bytes an unpadded Base64url text decodes to, if it is canonical.
pub uninterp spec fn base64url_decoded(text: Seq<char>) -> Option<Seq<u8>>;

/// The padded standard Base64 (RFC 4648 Section 4) encoding of `bytes`.
pub uninterp spec fn base64_encoded(bytes: Seq<u8>) -> Seq<char>;

/// The bytes a padded standard Base64 text decodes to, if it is canonical.
pub uninterp spec fn base64_decoded(text: Seq<char>) -> Option<Seq<u8>>;

/// The SHA-256 digest of `bytes`.
pub uninterp spec fn sha256_digest(bytes: Seq<u8>) -> Seq<u8>;

// ---------------------------------------------------------------------------
// Plain facts about the alphabets and the P-256 group order.
// ---------------------------------------------------------------------------

/// The Base64url alphabet, `[A-Za-z0-9_-]`.
pub open spec fn is_base64url_char(c: char) -> bool {
    ('A' <= c && c <= 'Z') || ('a' <= c && c <= 'z') || ('0' <= c && c <= '9') || c == '-'
        || c == '_'
}

/// The standard Base64 alphabet with padding, `[A-Za-z0-9+/=]`.
pub open spec fn is_base64_char(c: char) -> bool {
    ('A' <= c && c <= 'Z') || ('a' <= c && c <= 'z') || ('0' <= c && c <= '9') || c == '+'
        || c == '/' || c == '='
}

/// The length of the unpadded Base64 encoding of `n` bytes: four characters
/// for each whole group of three, and two or three for a final one or two.
pub open spec fn unpadded_len(n: nat) -> nat {
    4 * (n / 3) + if n % 3 == 0 {
        0nat
    } else if n % 3 == 1 {
        2nat
    } else {
        3nat
    }
}

/// The length of the padded Base64 encoding of `n` bytes: four characters for
/// each group of three, the last one padded with `=`.
pub open spec fn padded_len(n: nat) -> nat {
    4 * (n / 3) + if n % 3 == 0 {
        0nat
    } else {
        4nat
    }
}

/// The big-endian integer a byte string spells.
pub open spec fn be_value(bytes: Seq<u8>) -> nat
    decreases bytes.len(),
{
    if bytes.len() == 0 {
        0
    } else {
        be_value(bytes.drop_last()) * 256 + bytes.last() as nat
    }
}

/// The order of the P-256 group.
pub open spec fn p256_order() -> nat {
    0xffffffff00000000ffffffffffffffffbce6faada7179e84f3b9cac2fc632551nat
}

/// Whether 32 bytes are a valid P-256 private scalar: non-zero and below the
/// group order.
pub open spec fn p256_scalar_valid(scalar: Seq<u8>) -> bool {
    0 < be_value(scalar) < p256_order()
}

// ---------------------------------------------------------------------------
// Ed25519 (`ed25519-dalek`).
// ---------------------------------------------------------------------------

/// `ed25519_dalek::SigningKey::from_bytes(seed).verifying_key()`: the public key
/// for a seed. It is always a valid point.
#[verifier::external_body]
pub(crate) fn ed25519_public(seed: &[u8; 32]) -> (r: [u8; 32])
    ensures
        r@ == ed25519_public_key(seed@),
        ed25519_point_valid(r@),
{
    ed25519_dalek::SigningKey::from_bytes(seed).verifying_key().to_bytes()
}

/// `ed25519_dalek::SigningKey::sign`: deterministic by construction (RFC
/// 8032), and the signature verifies strictly under the key's public half.
#[verifier::external_body]
pub(crate) fn ed25519_sign(seed: &[u8; 32], msg: &[u8]) -> (r: [u8; 64])
    ensures
        r@ == ed25519_signature(seed@, msg@),
        ed25519_verifies(ed25519_public_key(seed@), msg@, r@),
{
    ed25519_dalek::SigningKey::from_bytes(seed).sign(msg).to_bytes()
}

/// `ed25519_dalek::VerifyingKey::from_bytes(bytes).is_ok()`.
#[verifier::external_body]
pub(crate) fn ed25519_point_ok(bytes: &[u8; 32]) -> (r: bool)
    ensures
        r == ed25519_point_valid(bytes@),
{
    ed25519_dalek::VerifyingKey::from_bytes(bytes).is_ok()
}

/// `ed25519_dalek::VerifyingKey::verify_strict`, which rejects small-order and
/// torsion components that plain `verify` would accept.
#[verifier::external_body]
pub(crate) fn ed25519_verify(public: &[u8; 32], msg: &[u8], sig: &[u8; 64]) -> (r: bool)
    ensures
        r == ed25519_verifies(public@, msg@, sig@),
{
    match ed25519_dalek::VerifyingKey::from_bytes(public) {
        Ok(key) => key.verify_strict(msg, &ed25519_dalek::Signature::from_bytes(sig)).is_ok(),
        Err(_) => false,
    }
}

// ---------------------------------------------------------------------------
// ECDSA P-256 (`p256`).
// ---------------------------------------------------------------------------

/// `p256::ecdsa::SigningKey::from_bytes(scalar).is_ok()`: whether the bytes are
/// a non-zero scalar below the group order (`elliptic_curve::SecretKey`).
#[verifier::external_body]
pub(crate) fn p256_scalar_ok(scalar: &[u8; 32]) -> (r: bool)
    ensures
        r == p256_scalar_valid(scalar@),
{
    p256::ecdsa::SigningKey::from_bytes(scalar.into()).is_ok()
}

/// The uncompressed SEC1 encoding of the public key for a valid scalar
/// (`to_encoded_point(false)`). It decodes back to itself.
#[verifier::external_body]
pub(crate) fn p256_public(scalar: &[u8; 32]) -> (r: [u8; 65])
    requires
        p256_scalar_valid(scalar@),
    ensures
        r@ == p256_public_key(scalar@),
        r@[0] == 4,
        p256_decoded_point(r@) == Some(r@),
{
    let key = p256::ecdsa::SigningKey::from_bytes(scalar.into()).unwrap();
    let mut out = [0u8; 65];
    out.copy_from_slice(key.verifying_key().to_encoded_point(false).as_bytes());
    out
}

/// `p256::ecdsa::SigningKey::sign`: ECDSA with the RFC 6979 deterministic
/// nonce, so the same key and message give the same bytes; the signature
/// verifies under the key's public half.
#[verifier::external_body]
pub(crate) fn p256_sign(scalar: &[u8; 32], msg: &[u8]) -> (r: [u8; 64])
    requires
        p256_scalar_valid(scalar@),
    ensures
        r@ == p256_signature(scalar@, msg@),
        p256_verifies(p256_public_key(scalar@), msg@, r@),
{
    let key = p256::ecdsa::SigningKey::from_bytes(scalar.into()).unwrap();
    let signature: p256::ecdsa::Signature = key.sign(msg);
    signature.to_bytes().into()
}

/// `p256::ecdsa::VerifyingKey::from_sec1_bytes`, re-encoded uncompressed. A
/// point that was given uncompressed comes back as the same bytes.
#[verifier::external_body]
pub(crate) fn p256_decode(sec1: &[u8]) -> (r: Option<[u8; 65]>)
    ensures
        match r {
            Some(x) => p256_decoded_point(sec1@) == Some(x@),
            None => p256_decoded_point(sec1@) is None,
        },
        r matches Some(x) ==> x@[0] == 4 && p256_decoded_point(x@) == Some(x@),
        sec1@.len() == 65 ==> (r matches Some(x) ==> x@ == sec1@),
{
    let key = p256::ecdsa::VerifyingKey::from_sec1_bytes(sec1).ok()?;
    let mut out = [0u8; 65];
    out.copy_from_slice(key.to_encoded_point(false).as_bytes());
    Some(out)
}

/// `p256::ecdsa::VerifyingKey::verify` over a SEC1 key and an `r || s`
/// signature; a key or signature that does not decode does not verify.
#[verifier::external_body]
pub(crate) fn p256_verify(public: &[u8], msg: &[u8], sig: &[u8; 64]) -> (r: bool)
    ensures
        r == p256_verifies(public@, msg@, sig@),
{
    match (
        p256::ecdsa::VerifyingKey::from_sec1_bytes(public),
        p256::ecdsa::Signature::from_slice(sig),
    ) {
        (Ok(key), Ok(signature)) => key.verify(msg, &signature).is_ok(),
        _ => false,
    }
}

// ---------------------------------------------------------------------------
// Base64 (`base64`).
// ---------------------------------------------------------------------------

/// `URL_SAFE_NO_PAD.encode`: the output has the unpadded length
/// (`encoded_len`), is in the Base64url alphabet and decodes back to the
/// input. The length computation cannot overflow for a slice, whose length is
/// at most `isize::MAX`.
#[verifier::external_body]
pub(crate) fn b64url_encode(bytes: &[u8]) -> (r: String)
    ensures
        r@ == base64url_encoded(bytes@),
        r@.len() == unpadded_len(bytes@.len()),
        forall|i: int| 0 <= i < r@.len() ==> is_base64url_char(#[trigger] r@[i]),
        base64url_decoded(r@) == Some(bytes@),
{
    base64::engine::general_purpose::URL_SAFE_NO_PAD.encode(bytes)
}

/// `URL_SAFE_NO_PAD.decode`.
#[verifier::external_body]
pub(crate) fn b64url_decode(text: &str) -> (r: Option<Vec<u8>>)
    ensures
        match r {
            Some(v) => base64url_decoded(text@) == Some(v@),
            None => base64url_decoded(text@) is None,
        },
{
    base64::engine::general_purpose::URL_SAFE_NO_PAD.decode(text).ok()
}

/// `STANDARD.encode`: the output has the padded length (`encoded_len`), is in
/// the padded standard alphabet and decodes back to the input. The length
/// computation cannot overflow for a slice, whose length is at most
/// `isize::MAX`.
#[verifier::external_body]
pub(crate) fn b64_encode(bytes: &[u8]) -> (r: String)
    ensures
        r@ == base64_encoded(bytes@),
        r@.len() == padded_len(bytes@.len()),
        forall|i: int| 0 <= i < r@.len() ==> is_base64_char(#[trigger] r@[i]),
        base64_decoded(r@) == Some(bytes@),
{
    base64::engine::general_purpose::STANDARD.encode(bytes)
}

/// `STANDARD.decode`.
#[verifier::external_body]
pub(crate) fn b64_decode(text: &str) -> (r: Option<Vec<u8>>)
    ensures
        match r {
            Some(v) => base64_decoded(text@) == Some(v@),
            None => base64_decoded(text@) is None,
        },
{
    base64::engine::general_purpose::STANDARD.decode(text).ok()
}

// ---------------------------------------------------------------------------
// SHA-256 (`sha2`).
// ---------------------------------------------------------------------------

/// `sha2::Sha256::digest`.
#[verifier::external_body]
pub(crate) fn sha256(bytes: &[u8]) -> (r: [u8; 32])
    ensures
        r@ == sha256_digest(bytes@),
{
    <sha2::Sha256 as sha2::Digest>::digest(bytes).into()
}

} // verus!
