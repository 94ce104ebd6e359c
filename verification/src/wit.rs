//! Workload Identity Tokens (`draft-ietf-wimse-workload-creds`): a compact
//! JWS with header `typ: wit+jwt`, signed by an issuer, carrying the
//! workload's identifier in `sub` and a proof-of-possession key in `cnf`.
//!
//! Only `sub`, `exp` and `cnf` are mandatory; `iss`, `iat` and `jti` are
//! optional. The `cnf` JWK must carry an `alg` member, which pins the
//! algorithm the proof of possession has to be produced with. The header's
//! `alg` follows the signing key, and verification requires it to match the
//! key presented.
//!
//! The JSON inside the header and claim segments is read by the caller; this
//! module checks what it says.

use vstd::prelude::*;
use vstd::utf8::encode_utf8;

use crate::compact::{
    CompactParts, FrameFailure, HeaderFields, decode_segment, frame_spec, signing_input_spec,
    split_compact, verify_segments,
};
use crate::crypto::base64url_decoded;
use crate::identifier::{IdentifierView, WorkloadIdentifier};
use crate::jose::{
    Algorithm, JoseError, JoseFailure, Jwk, JwkView, VerifyingKey, VerifyingKeyView,
    opt_view, spec_jwk_key, spec_parse_alg, verifies,
};
use crate::text::{owned, push_str, str_eq};

verus! {

broadcast use vstd::string::group_string_axioms, vstd::slice::group_slice_axioms;

/// The JOSE `typ` of a Workload Identity Token.
pub const TYP: &'static str = "wit+jwt";

/// The signature algorithm this crate prefers for issuing.
pub const ALG: &'static str = "EdDSA";

/// Why a token was refused, as a value.
pub enum WitFailure {
    MalformedToken,
    TokenTooLong,
    UnsupportedCritical,
    Base64,
    Json(Seq<char>),
    WrongType(Seq<char>),
    UnsupportedAlg(Seq<char>),
    InvalidSignature,
    Expired,
    IssuedInFuture,
    IssuerMismatch,
    InvalidKey,
    AlgorithmMismatch,
    MissingConfirmationAlg,
    ForbiddenConfirmationAlg(Seq<char>),
    UnsupportedConfirmationAlg(Seq<char>),
}

/// An error returned while issuing or verifying a Workload Identity Token.
#[derive(Debug, Clone, PartialEq, Eq)]
pub enum WitError {
    /// The compact serialization did not have exactly three parts, or a part
    /// was not the expected size.
    MalformedToken,
    /// The token is larger than the accepted maximum.
    TokenTooLong,
    /// The JOSE header marked an extension critical (RFC 7515 Section 4.1.11).
    UnsupportedCritical,
    /// A Base64url component could not be decoded.
    Base64,
    /// A JSON component could not be parsed or serialized.
    Json(String),
    /// The JOSE header `typ` was not `wit+jwt`.
    WrongType {
        /// The `typ` value that was found.
        found: String,
    },
    /// The JOSE header `alg` was not a supported algorithm.
    UnsupportedAlg {
        /// The `alg` value that was found.
        found: String,
    },
    /// The signature did not verify against the supplied key.
    InvalidSignature,
    /// The token has expired.
    Expired,
    /// The token was issued in the future.
    IssuedInFuture,
    /// The token issuer did not match the expected issuer.
    IssuerMismatch,
    /// A key could not be decoded.
    InvalidKey,
    /// The header named an algorithm the verifying key does not use.
    AlgorithmMismatch,
    /// The `cnf` JWK omitted the `alg` member, which the draft requires.
    MissingConfirmationAlg,
    /// The `cnf` JWK named `none`, a symmetric, or an encryption algorithm.
    ForbiddenConfirmationAlg {
        /// The `alg` value that was found.
        found: String,
    },
    /// The `cnf` JWK named a legal algorithm this crate cannot verify with.
    UnsupportedConfirmationAlg {
        /// The `alg` value that was found.
        found: String,
    },
}

impl View for WitError {
    type V = WitFailure;

    open spec fn view(&self) -> WitFailure {
        match self {
            WitError::MalformedToken => WitFailure::MalformedToken,
            WitError::TokenTooLong => WitFailure::TokenTooLong,
            WitError::UnsupportedCritical => WitFailure::UnsupportedCritical,
            WitError::Base64 => WitFailure::Base64,
            WitError::Json(s) => WitFailure::Json(s@),
            WitError::WrongType { found } => WitFailure::WrongType(found@),
            WitError::UnsupportedAlg { found } => WitFailure::UnsupportedAlg(found@),
            WitError::InvalidSignature => WitFailure::InvalidSignature,
            WitError::Expired => WitFailure::Expired,
            WitError::IssuedInFuture => WitFailure::IssuedInFuture,
            WitError::IssuerMismatch => WitFailure::IssuerMismatch,
            WitError::InvalidKey => WitFailure::InvalidKey,
            WitError::AlgorithmMismatch => WitFailure::AlgorithmMismatch,
            WitError::MissingConfirmationAlg => WitFailure::MissingConfirmationAlg,
            WitError::ForbiddenConfirmationAlg { found } => WitFailure::ForbiddenConfirmationAlg(
                found@,
            ),
            WitError::UnsupportedConfirmationAlg { found } => WitFailure::UnsupportedConfirmationAlg(
                found@,
            ),
        }
    }
}

/// The message a [`WitError`] is reported with.
pub open spec fn wit_message(e: WitError) -> Seq<char> {
    match e {
        WitError::MalformedToken => "malformed token"@,
        WitError::TokenTooLong => "token exceeds the maximum accepted size"@,
        WitError::UnsupportedCritical => "unsupported critical header parameter(s)"@,
        WitError::Base64 => "invalid base64url"@,
        WitError::Json(s) => "invalid json: "@ + s@,
        WitError::WrongType { found } => "unexpected token type `"@ + found@ + "`, expected `wit+jwt`"@,
        WitError::UnsupportedAlg { found } => "unsupported algorithm `"@ + found@ + "`, expected `EdDSA` or `ES256`"@,
        WitError::InvalidSignature => "signature verification failed"@,
        WitError::Expired => "token has expired"@,
        WitError::IssuedInFuture => "token issued in the future"@,
        WitError::IssuerMismatch => "issuer mismatch"@,
        WitError::InvalidKey => "invalid key"@,
        WitError::AlgorithmMismatch => "the token's `alg` does not match the verifying key's algorithm"@,
        WitError::MissingConfirmationAlg => "the confirmation key is missing the required `alg` member"@,
        WitError::ForbiddenConfirmationAlg { found } => "the confirmation key algorithm `"@ + found@ + "` is forbidden for a proof of possession"@,
        WitError::UnsupportedConfirmationAlg { found } => "unsupported confirmation key algorithm `"@ + found@ + "`, expected `EdDSA` or `ES256`"@,
    }
}

impl WitError {
    /// The message this error is reported with.
    pub fn message(&self) -> (r: String)
        ensures
            r@ == wit_message(*self),
    {
        match self {
            WitError::MalformedToken => owned("malformed token"),
            WitError::TokenTooLong => owned("token exceeds the maximum accepted size"),
            WitError::UnsupportedCritical => owned("unsupported critical header parameter(s)"),
            WitError::Base64 => owned("invalid base64url"),
            WitError::Json(s) => {
                let mut m: String = owned("invalid json: ");
                push_str(&mut m, s.as_str());
                m
            },
            WitError::WrongType { found } => {
                let mut m: String = owned("unexpected token type `");
                push_str(&mut m, found.as_str());
                push_str(&mut m, "`, expected `wit+jwt`");
                m
            },
            WitError::UnsupportedAlg { found } => {
                let mut m: String = owned("unsupported algorithm `");
                push_str(&mut m, found.as_str());
                push_str(&mut m, "`, expected `EdDSA` or `ES256`");
                m
            },
            WitError::InvalidSignature => owned("signature verification failed"),
            WitError::Expired => owned("token has expired"),
            WitError::IssuedInFuture => owned("token issued in the future"),
            WitError::IssuerMismatch => owned("issuer mismatch"),
            WitError::InvalidKey => owned("invalid key"),
            WitError::AlgorithmMismatch => owned("the token's `alg` does not match the verifying key's algorithm"),
            WitError::MissingConfirmationAlg => owned("the confirmation key is missing the required `alg` member"),
            WitError::ForbiddenConfirmationAlg { found } => {
                let mut m: String = owned("the confirmation key algorithm `");
                push_str(&mut m, found.as_str());
                push_str(&mut m, "` is forbidden for a proof of possession");
                m
            },
            WitError::UnsupportedConfirmationAlg { found } => {
                let mut m: String = owned("unsupported confirmation key algorithm `");
                push_str(&mut m, found.as_str());
                push_str(&mut m, "`, expected `EdDSA` or `ES256`");
                m
            },
        }
    }
}

/// How a refused confirmation key is reported: the JOSE reasons about its
/// `alg` keep their meaning, every other refusal is an unusable key.
pub open spec fn jose_to_wit(f: JoseFailure) -> WitFailure {
    match f {
        JoseFailure::MissingAlg => WitFailure::MissingConfirmationAlg,
        JoseFailure::ForbiddenAlg(found) => WitFailure::ForbiddenConfirmationAlg(found),
        JoseFailure::UnsupportedAlg(found) => WitFailure::UnsupportedConfirmationAlg(found),
        JoseFailure::InvalidSignature => WitFailure::InvalidSignature,
        _ => WitFailure::InvalidKey,
    }
}

impl WitError {
    /// The WIT error a JOSE key or algorithm error stands for.
    pub fn from_jose(error: JoseError) -> (r: WitError)
        ensures
            r@ == jose_to_wit(error@),
    {
        match error {
            JoseError::MissingAlg => WitError::MissingConfirmationAlg,
            JoseError::ForbiddenAlg { found } => WitError::ForbiddenConfirmationAlg { found },
            JoseError::UnsupportedAlg { found } => WitError::UnsupportedConfirmationAlg { found },
            JoseError::InvalidSignature => WitError::InvalidSignature,
            _ => WitError::InvalidKey,
        }
    }
}

pub open spec fn unit_result(r: Result<(), WitError>) -> Result<(), WitFailure> {
    match r {
        Ok(()) => Ok(()),
        Err(e) => Err(e@),
    }
}

// ---------------------------------------------------------------------------
// Claims and validation.
// ---------------------------------------------------------------------------

/// The `cnf` (confirmation) claim binding a proof-of-possession key to the
/// WIT.
#[derive(Debug, Clone, PartialEq, Eq)]
pub struct Confirmation {
    /// The proof-of-possession public key.
    pub jwk: Jwk,
}

/// The registered claims of a Workload Identity Token.
#[derive(Debug, Clone, PartialEq, Eq)]
pub struct WitClaims {
    /// The issuer of the token; recommended, but a conforming WIT may omit it.
    pub iss: Option<String>,
    /// The subject: the workload's identifier.
    pub sub: WorkloadIdentifier,
    /// Issued-at time, in seconds since the Unix epoch.
    pub iat: Option<u64>,
    /// Expiry time, in seconds since the Unix epoch.
    pub exp: u64,
    /// A unique token identifier, optional.
    pub jti: Option<String>,
    /// The confirmation (proof-of-possession) key.
    pub cnf: Confirmation,
}

/// Claims, by value.
pub struct WitClaimsView {
    pub iss: Option<Seq<char>>,
    pub sub: IdentifierView,
    pub iat: Option<u64>,
    pub exp: u64,
    pub jti: Option<Seq<char>>,
    pub cnf: JwkView,
}

impl View for WitClaims {
    type V = WitClaimsView;

    open spec fn view(&self) -> WitClaimsView {
        WitClaimsView {
            iss: opt_view(self.iss),
            sub: self.sub@,
            iat: self.iat,
            exp: self.exp,
            jti: opt_view(self.jti),
            cnf: self.cnf.jwk@,
        }
    }
}

/// Parameters controlling WIT verification; `now` is injected so time checks
/// are deterministic.
#[derive(Debug, Clone)]
pub struct Validation {
    /// The current time, in seconds since the Unix epoch.
    pub now: u64,
    /// Clock-skew tolerance, in seconds, applied to `exp` and `iat`.
    pub leeway: u64,
    /// If set, the token's `iss` must equal this value.
    pub expected_issuer: Option<String>,
}

/// A validation, by value.
pub struct ValidationView {
    pub now: u64,
    pub leeway: u64,
    pub expected_issuer: Option<Seq<char>>,
}

impl View for Validation {
    type V = ValidationView;

    open spec fn view(&self) -> ValidationView {
        ValidationView {
            now: self.now,
            leeway: self.leeway,
            expected_issuer: opt_view(self.expected_issuer),
        }
    }
}

impl Validation {
    /// A validation that checks only the signature and time, with no clock
    /// skew and no issuer check.
    pub fn at(now: u64) -> (r: Validation)
        ensures
            r@ == (ValidationView { now, leeway: 0, expected_issuer: None }),
    {
        Validation { now, leeway: 0, expected_issuer: None }
    }

    /// Sets the clock-skew tolerance, in seconds.
    pub fn with_leeway(self, leeway: u64) -> (r: Validation)
        ensures
            r@ == (ValidationView { leeway, ..self@ }),
    {
        let mut r = self;
        r.leeway = leeway;
        r
    }

    /// Requires the token's issuer to equal `issuer`.
    pub fn expect_issuer(self, issuer: String) -> (r: Validation)
        ensures
            r@ == (ValidationView { expected_issuer: Some(issuer@), ..self@ }),
    {
        let mut r = self;
        r.expected_issuer = Some(issuer);
        r
    }
}

/// A WIT whose signature and time claims have been verified.
#[derive(Debug, Clone)]
pub struct VerifiedWit {
    /// The verified claim set.
    pub claims: WitClaims,
    /// The `kid` from the JOSE header, if present.
    pub kid: Option<String>,
    /// The validated proof-of-possession key from the `cnf` claim; a proof is
    /// later checked against it.
    pub pop_key: VerifyingKey,
}

// ---------------------------------------------------------------------------
// Checks.
// ---------------------------------------------------------------------------

/// The header rules: `typ` pinned, a supported `alg` that is the verifying
/// key's, and no critical extensions.
pub open spec fn header_check(typ: Seq<char>, alg: Seq<char>, has_crit: bool, key: VerifyingKeyView) -> Result<
    (),
    WitFailure,
> {
    if typ != TYP@ {
        Err(WitFailure::WrongType(typ))
    } else {
        match spec_parse_alg(alg) {
            Err(_) => Err(WitFailure::UnsupportedAlg(alg)),
            Ok(a) => if a != key.alg {
                Err(WitFailure::AlgorithmMismatch)
            } else if has_crit {
                Err(WitFailure::UnsupportedCritical)
            } else {
                Ok(())
            },
        }
    }
}

/// Checks the decoded JOSE header of a token against the issuer key.
pub fn check_header(typ: &str, alg: &str, has_crit: bool, verifying_key: &VerifyingKey) -> (r: Result<
    (),
    WitError,
>)
    ensures
        unit_result(r) == header_check(typ@, alg@, has_crit, verifying_key@),
{
    // `typ` is pinned to the exact draft value.
    if !str_eq(typ, TYP) {
        return Err(WitError::WrongType { found: owned(typ) });
    }
    match Algorithm::parse(alg) {
        Err(_) => Err(WitError::UnsupportedAlg { found: owned(alg) }),
        Ok(a) => {
            if a != verifying_key.algorithm() {
                Err(WitError::AlgorithmMismatch)
            } else if has_crit {
                // No critical extensions are understood, so any `crit` is fatal.
                Err(WitError::UnsupportedCritical)
            } else {
                Ok(())
            }
        },
    }
}

/// The signature rule: the third segment is Base64url for exactly 64 bytes
/// that verify over the first two.
pub open spec fn signature_check(header: Seq<char>, claims: Seq<char>, signature: Seq<char>, key: VerifyingKeyView) -> Result<
    (),
    WitFailure,
> {
    match base64url_decoded(signature) {
        None => Err(WitFailure::Base64),
        Some(sig) => if sig.len() != 64 {
            Err(WitFailure::MalformedToken)
        } else if !verifies(key, encode_utf8(signing_input_spec(header, claims)), sig) {
            Err(WitFailure::InvalidSignature)
        } else {
            Ok(())
        },
    }
}

/// Checks the signature segment of a token under the issuer key.
pub fn check_signature(parts: &CompactParts, verifying_key: &VerifyingKey) -> (r: Result<(), WitError>)
    ensures
        unit_result(r) == signature_check(
            parts.header@,
            parts.claims@,
            parts.signature@,
            verifying_key@,
        ),
{
    let sig: Vec<u8> = match decode_segment(parts.signature.as_str()) {
        Some(s) => s,
        None => return Err(WitError::Base64),
    };
    if sig.len() != 64 {
        return Err(WitError::MalformedToken);
    }
    if !verify_segments(parts.header.as_str(), parts.claims.as_str(), sig.as_slice(), verifying_key) {
        return Err(WitError::InvalidSignature);
    }
    Ok(())
}

/// `a + b`, saturating at `u64::MAX`.
pub open spec fn sat_add(a: u64, b: u64) -> u64 {
    if a + b > u64::MAX {
        u64::MAX
    } else {
        (a + b) as u64
    }
}

/// The claim rules, in order: expiry (strictly before `exp`), issue time,
/// issuer; then the confirmation key must decode.
pub open spec fn claims_check(c: WitClaimsView, v: ValidationView) -> Result<VerifyingKeyView, WitFailure> {
    if v.now >= sat_add(c.exp, v.leeway) {
        Err(WitFailure::Expired)
    } else if c.iat is Some && c.iat->0 > sat_add(v.now, v.leeway) {
        Err(WitFailure::IssuedInFuture)
    } else if v.expected_issuer is Some && c.iss != v.expected_issuer {
        Err(WitFailure::IssuerMismatch)
    } else {
        match spec_jwk_key(c.cnf) {
            Ok(k) => Ok(k),
            Err(f) => Err(jose_to_wit(f)),
        }
    }
}

fn saturating_add(a: u64, b: u64) -> (r: u64)
    ensures
        r == sat_add(a, b),
{
    if a > u64::MAX - b {
        u64::MAX
    } else {
        a + b
    }
}

/// Checks a token's claims against `validation` and returns the
/// proof-of-possession key its `cnf` carries.
pub fn check_claims(claims: &WitClaims, validation: &Validation) -> (r: Result<VerifyingKey, WitError>)
    ensures
        match r {
            Ok(k) => claims_check(claims@, validation@) == Ok::<VerifyingKeyView, WitFailure>(k@),
            Err(e) => claims_check(claims@, validation@) == Err::<VerifyingKeyView, WitFailure>(e@),
        },
{
    // Per RFC 7519 the current time must be strictly before `exp`.
    if validation.now >= saturating_add(claims.exp, validation.leeway) {
        return Err(WitError::Expired);
    }
    match claims.iat {
        Some(iat) => {
            if iat > saturating_add(validation.now, validation.leeway) {
                return Err(WitError::IssuedInFuture);
            }
        },
        None => {},
    }
    match &validation.expected_issuer {
        Some(expected) => {
            let same: bool = match &claims.iss {
                Some(iss) => str_eq(iss.as_str(), expected.as_str()),
                None => false,
            };
            if !same {
                return Err(WitError::IssuerMismatch);
            }
        },
        None => {},
    }
    // A verified WIT must carry a usable confirmation key.
    match claims.cnf.jwk.to_verifying_key() {
        Ok(k) => Ok(k),
        Err(e) => Err(WitError::from_jose(e)),
    }
}


/// What the caller's decoding of the header segment gave, as values.
pub open spec fn header_outcome(h: Result<HeaderFields, WitError>) -> Result<(Seq<char>, Seq<char>, bool), WitFailure> {
    match h {
        Ok(f) => Ok((f.typ@, f.alg@, f.has_crit)),
        Err(e) => Err(e@),
    }
}

/// What the caller's decoding of the claim segment gave, as values.
pub open spec fn claims_outcome(c: Result<WitClaims, WitError>) -> Result<WitClaimsView, WitFailure> {
    match c {
        Ok(cl) => Ok(cl@),
        Err(e) => Err(e@),
    }
}

/// Verification of a WIT, in order: the size and structure of `token`, the
/// decoded header, its `typ`, `alg` and `crit`, the signature, the decoded
/// claim set, then the time and issuer rules and the confirmation key. The
/// first failure is the answer; on success, the claims and the key.
pub open spec fn verify_spec(
    token: Seq<char>,
    header: Result<(Seq<char>, Seq<char>, bool), WitFailure>,
    claims: Result<WitClaimsView, WitFailure>,
    key: VerifyingKeyView,
    v: ValidationView,
) -> Result<(WitClaimsView, VerifyingKeyView), WitFailure> {
    match frame_spec(token) {
        Err(FrameFailure::TooLong) => Err(WitFailure::TokenTooLong),
        Err(FrameFailure::Malformed) => Err(WitFailure::MalformedToken),
        Ok((h, c, s)) => match header {
            Err(e) => Err(e),
            Ok((typ, alg, has_crit)) => match header_check(typ, alg, has_crit, key) {
                Err(e) => Err(e),
                Ok(_) => match signature_check(h, c, s, key) {
                    Err(e) => Err(e),
                    Ok(_) => match claims {
                        Err(e) => Err(e),
                        Ok(cl) => match claims_check(cl, v) {
                            Err(e) => Err(e),
                            Ok(k) => Ok((cl, k)),
                        },
                    },
                },
            },
        },
    }
}

/// Verifies a Workload Identity Token against `verifying_key` and
/// `validation`, given what decoding its header and claim segments gave.
///
/// The segments' JSON is read by the caller; a decoding failure is reported
/// only when verification reaches that segment, so a forged token with an
/// unreadable claim set fails on its signature.
pub fn verify_parsed(
    token: &str,
    header: Result<HeaderFields, WitError>,
    claims: Result<WitClaims, WitError>,
    verifying_key: &VerifyingKey,
    validation: &Validation,
) -> (r: Result<VerifiedWit, WitError>)
    ensures
        match r {
            Ok(w) => verify_spec(
                token@,
                header_outcome(header),
                claims_outcome(claims),
                verifying_key@,
                validation@,
            ) == Ok::<(WitClaimsView, VerifyingKeyView), WitFailure>((w.claims@, w.pop_key@))
                && (header matches Ok(h) && w.kid == h.kid),
            Err(e) => verify_spec(
                token@,
                header_outcome(header),
                claims_outcome(claims),
                verifying_key@,
                validation@,
            ) == Err::<(WitClaimsView, VerifyingKeyView), WitFailure>(e@),
        },
{
    let parts = match split_compact(token) {
        Ok(p) => p,
        Err(FrameFailure::TooLong) => return Err(WitError::TokenTooLong),
        Err(FrameFailure::Malformed) => return Err(WitError::MalformedToken),
    };
    let fields = match header {
        Ok(f) => f,
        Err(e) => return Err(e),
    };
    match check_header(fields.typ.as_str(), fields.alg.as_str(), fields.has_crit, verifying_key) {
        Ok(_) => {},
        Err(e) => return Err(e),
    }
    match check_signature(&parts, verifying_key) {
        Ok(_) => {},
        Err(e) => return Err(e),
    }
    let claims = match claims {
        Ok(c) => c,
        Err(e) => return Err(e),
    };
    match check_claims(&claims, validation) {
        Ok(pop_key) => Ok(VerifiedWit { claims, kid: fields.kid, pop_key }),
        Err(e) => Err(e),
    }
}

/// What an accepted claim set satisfies: `now` is strictly before `exp` plus
/// the leeway, any `iat` is no later than `now` plus the leeway, the token
/// names the expected issuer whenever one is set (a token without `iss` never
/// does), and the key returned is the one its `cnf` JWK encodes. So with an
/// expected issuer set, a token naming another issuer, or none, is refused
/// whatever its times.
pub proof fn lemma_accepted_claims(c: WitClaimsView, v: ValidationView)
    ensures
        claims_check(c, v) matches Ok(k) ==> {
            &&& v.now < c.exp + v.leeway
            &&& c.iat matches Some(i) ==> i <= v.now + v.leeway
            &&& v.expected_issuer matches Some(x) ==> c.iss == Some(x)
            &&& spec_jwk_key(c.cnf) == Ok::<VerifyingKeyView, JoseFailure>(k)
        },
        v.expected_issuer is Some && c.iss != v.expected_issuer ==> claims_check(c, v) is Err,
{
}

/// A verified WIT's claims are the ones read from it, and they meet every
/// claim rule of [`lemma_accepted_claims`], the key returned among them.
pub proof fn lemma_verified_token_claims(
    token: Seq<char>,
    header: Result<(Seq<char>, Seq<char>, bool), WitFailure>,
    claims: Result<WitClaimsView, WitFailure>,
    key: VerifyingKeyView,
    v: ValidationView,
)
    ensures
        verify_spec(token, header, claims, key, v) matches Ok((c, k)) ==> claims
            == Ok::<WitClaimsView, WitFailure>(c) && claims_check(c, v) == Ok::<VerifyingKeyView, WitFailure>(k),
{
}

/// A token that is in its validity window and names the expected issuer
/// yields exactly the key its `cnf` JWK encodes — in particular the key a
/// JWK built with [`Jwk::from_verifying_key`] came from.
pub proof fn lemma_confirmation_key_recovered(c: WitClaimsView, v: ValidationView, k: VerifyingKeyView)
    requires
        v.now < sat_add(c.exp, v.leeway),
        c.iat matches Some(i) ==> i <= sat_add(v.now, v.leeway),
        v.expected_issuer is Some ==> c.iss == v.expected_issuer,
        spec_jwk_key(c.cnf) == Ok::<VerifyingKeyView, JoseFailure>(k),
    ensures
        claims_check(c, v) == Ok::<VerifyingKeyView, WitFailure>(k),
{
}

} // verus!
