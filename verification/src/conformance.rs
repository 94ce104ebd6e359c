//! The cross-implementation conformance vectors: their format, the
//! language-neutral reasons a negative case must be rejected with, and the
//! report a run produces.
//!
//! A vector is a contract: an implementation reproduces the recorded bytes,
//! accepts the positive cases, and rejects every negative case with the
//! recorded [`ErrorCode`] — "rejected" alone is not good enough.

use vstd::prelude::*;

pub mod generate;
pub mod signatures;
pub mod token_runs;
pub mod token_vectors;
pub mod wic_vector;

use crate::httpsig::message::{HttpRequest, HttpSigError, HttpSigFailure};
use crate::identifier::{
    ParseError, Scheme, WorkloadIdentifier, authority_end, scheme_name, scheme_prefix, spec_parse,
};
use crate::crypto::{b64url_decode, base64url_decoded};
use crate::jose::{opt_view, Jwk, PrivateJwk};
use crate::mtls::{verify as verify_wic, wic_outcome, MtlsError, MtlsFailure};
use crate::text::{owned, push_char, push_str, str_eq};
use crate::wit::{WitError, WitFailure};
use crate::wpt::{WptError, WptFailure};

verus! {

broadcast use vstd::string::group_string_axioms;

/// The format identifier written into every vector file and the manifest.
pub const FORMAT: &'static str = "wimse-conformance/v2";

/// The index of every vector in the suite.
#[derive(Debug, Clone)]
pub struct Manifest {
    /// Always [`FORMAT`].
    pub format: String,
    /// Every vector file, in run order.
    pub vectors: Vec<ManifestEntry>,
}

/// One entry in the [`Manifest`].
#[derive(Debug, Clone)]
pub struct ManifestEntry {
    /// Which suite the file belongs to.
    pub suite: String,
    /// The file path, relative to the directory holding the manifest.
    pub path: String,
    /// The Internet-Draft revision the vector was generated against.
    pub spec: String,
}

/// The fields every vector file carries, whatever its suite.
#[derive(Debug, Clone)]
pub struct Header {
    /// Always [`FORMAT`].
    pub format: String,
    /// Which suite the file belongs to.
    pub suite: String,
    /// A stable identifier for this vector, unique within its suite.
    pub id: String,
    /// The Internet-Draft revision the vector was generated against.
    pub spec: String,
    /// What the vector exercises, in prose.
    pub description: String,
}

/// The reason a negative case must be rejected, independent of any
/// implementation's error type.
#[derive(Debug, Clone, Copy, PartialEq, Eq, Structural)]
pub enum ErrorCode {
    MalformedToken,
    TokenTooLong,
    UnsupportedCritical,
    InvalidEncoding,
    WrongType,
    UnsupportedAlg,
    InvalidSignature,
    Expired,
    IssuedInFuture,
    IssuerMismatch,
    InvalidKey,
    AudienceMismatch,
    WitBindingMismatch,
    AccessTokenBindingMismatch,
    LifetimeTooLong,
    MissingComponent,
    UnsupportedComponent,
    InvalidComponentValue,
    MissingRequiredComponent,
    InvalidTimeWindow,
    TooOld,
    ParseError,
    LabelMismatch,
    MalformedSignature,
    CreatedInFuture,
    ContentDigestMismatch,
    MissingParameter,
    ForbiddenParameter,
    WrongTag,
    RequestNonceMismatch,
    MissingConfirmationAlg,
    ForbiddenConfirmationAlg,
    UnsupportedConfirmationAlg,
    IdentifierTooLong,
    UnsupportedScheme,
    HasQuery,
    HasFragment,
    HasUserInfo,
    HasPort,
    EmptyTrustDomain,
    TrustDomainTooLong,
    InvalidTrustDomainChar,
    EmptyPathSegment,
    DotSegment,
    InvalidPathChar,
    BadPercentEncoding,
    NonNormalizedPercentEncoding,
    CertificateParseError,
    CertificateNotValid,
    MissingIdentifier,
    MultipleIdentifiers,
    /// The implementation rejected the input for a reason this table does not
    /// name. Never written into a vector.
    Unmapped,
}

/// The name a code is reported under: its variant name.
pub open spec fn code_name(c: ErrorCode) -> Seq<char> {
    match c {
        ErrorCode::MalformedToken => "MalformedToken"@,
        ErrorCode::TokenTooLong => "TokenTooLong"@,
        ErrorCode::UnsupportedCritical => "UnsupportedCritical"@,
        ErrorCode::InvalidEncoding => "InvalidEncoding"@,
        ErrorCode::WrongType => "WrongType"@,
        ErrorCode::UnsupportedAlg => "UnsupportedAlg"@,
        ErrorCode::InvalidSignature => "InvalidSignature"@,
        ErrorCode::Expired => "Expired"@,
        ErrorCode::IssuedInFuture => "IssuedInFuture"@,
        ErrorCode::IssuerMismatch => "IssuerMismatch"@,
        ErrorCode::InvalidKey => "InvalidKey"@,
        ErrorCode::AudienceMismatch => "AudienceMismatch"@,
        ErrorCode::WitBindingMismatch => "WitBindingMismatch"@,
        ErrorCode::AccessTokenBindingMismatch => "AccessTokenBindingMismatch"@,
        ErrorCode::LifetimeTooLong => "LifetimeTooLong"@,
        ErrorCode::MissingComponent => "MissingComponent"@,
        ErrorCode::UnsupportedComponent => "UnsupportedComponent"@,
        ErrorCode::InvalidComponentValue => "InvalidComponentValue"@,
        ErrorCode::MissingRequiredComponent => "MissingRequiredComponent"@,
        ErrorCode::InvalidTimeWindow => "InvalidTimeWindow"@,
        ErrorCode::TooOld => "TooOld"@,
        ErrorCode::ParseError => "ParseError"@,
        ErrorCode::LabelMismatch => "LabelMismatch"@,
        ErrorCode::MalformedSignature => "MalformedSignature"@,
        ErrorCode::CreatedInFuture => "CreatedInFuture"@,
        ErrorCode::ContentDigestMismatch => "ContentDigestMismatch"@,
        ErrorCode::MissingParameter => "MissingParameter"@,
        ErrorCode::ForbiddenParameter => "ForbiddenParameter"@,
        ErrorCode::WrongTag => "WrongTag"@,
        ErrorCode::RequestNonceMismatch => "RequestNonceMismatch"@,
        ErrorCode::MissingConfirmationAlg => "MissingConfirmationAlg"@,
        ErrorCode::ForbiddenConfirmationAlg => "ForbiddenConfirmationAlg"@,
        ErrorCode::UnsupportedConfirmationAlg => "UnsupportedConfirmationAlg"@,
        ErrorCode::IdentifierTooLong => "IdentifierTooLong"@,
        ErrorCode::UnsupportedScheme => "UnsupportedScheme"@,
        ErrorCode::HasQuery => "HasQuery"@,
        ErrorCode::HasFragment => "HasFragment"@,
        ErrorCode::HasUserInfo => "HasUserInfo"@,
        ErrorCode::HasPort => "HasPort"@,
        ErrorCode::EmptyTrustDomain => "EmptyTrustDomain"@,
        ErrorCode::TrustDomainTooLong => "TrustDomainTooLong"@,
        ErrorCode::InvalidTrustDomainChar => "InvalidTrustDomainChar"@,
        ErrorCode::EmptyPathSegment => "EmptyPathSegment"@,
        ErrorCode::DotSegment => "DotSegment"@,
        ErrorCode::InvalidPathChar => "InvalidPathChar"@,
        ErrorCode::BadPercentEncoding => "BadPercentEncoding"@,
        ErrorCode::NonNormalizedPercentEncoding => "NonNormalizedPercentEncoding"@,
        ErrorCode::CertificateParseError => "CertificateParseError"@,
        ErrorCode::CertificateNotValid => "CertificateNotValid"@,
        ErrorCode::MissingIdentifier => "MissingIdentifier"@,
        ErrorCode::MultipleIdentifiers => "MultipleIdentifiers"@,
        ErrorCode::Unmapped => "Unmapped"@,
    }
}

impl ErrorCode {
    /// The name this code is reported under.
    pub fn name(&self) -> (r: &'static str)
        ensures
            r@ == code_name(*self),
    {
        match self {
            ErrorCode::MalformedToken => "MalformedToken",
            ErrorCode::TokenTooLong => "TokenTooLong",
            ErrorCode::UnsupportedCritical => "UnsupportedCritical",
            ErrorCode::InvalidEncoding => "InvalidEncoding",
            ErrorCode::WrongType => "WrongType",
            ErrorCode::UnsupportedAlg => "UnsupportedAlg",
            ErrorCode::InvalidSignature => "InvalidSignature",
            ErrorCode::Expired => "Expired",
            ErrorCode::IssuedInFuture => "IssuedInFuture",
            ErrorCode::IssuerMismatch => "IssuerMismatch",
            ErrorCode::InvalidKey => "InvalidKey",
            ErrorCode::AudienceMismatch => "AudienceMismatch",
            ErrorCode::WitBindingMismatch => "WitBindingMismatch",
            ErrorCode::AccessTokenBindingMismatch => "AccessTokenBindingMismatch",
            ErrorCode::LifetimeTooLong => "LifetimeTooLong",
            ErrorCode::MissingComponent => "MissingComponent",
            ErrorCode::UnsupportedComponent => "UnsupportedComponent",
            ErrorCode::InvalidComponentValue => "InvalidComponentValue",
            ErrorCode::MissingRequiredComponent => "MissingRequiredComponent",
            ErrorCode::InvalidTimeWindow => "InvalidTimeWindow",
            ErrorCode::TooOld => "TooOld",
            ErrorCode::ParseError => "ParseError",
            ErrorCode::LabelMismatch => "LabelMismatch",
            ErrorCode::MalformedSignature => "MalformedSignature",
            ErrorCode::CreatedInFuture => "CreatedInFuture",
            ErrorCode::ContentDigestMismatch => "ContentDigestMismatch",
            ErrorCode::MissingParameter => "MissingParameter",
            ErrorCode::ForbiddenParameter => "ForbiddenParameter",
            ErrorCode::WrongTag => "WrongTag",
            ErrorCode::RequestNonceMismatch => "RequestNonceMismatch",
            ErrorCode::MissingConfirmationAlg => "MissingConfirmationAlg",
            ErrorCode::ForbiddenConfirmationAlg => "ForbiddenConfirmationAlg",
            ErrorCode::UnsupportedConfirmationAlg => "UnsupportedConfirmationAlg",
            ErrorCode::IdentifierTooLong => "IdentifierTooLong",
            ErrorCode::UnsupportedScheme => "UnsupportedScheme",
            ErrorCode::HasQuery => "HasQuery",
            ErrorCode::HasFragment => "HasFragment",
            ErrorCode::HasUserInfo => "HasUserInfo",
            ErrorCode::HasPort => "HasPort",
            ErrorCode::EmptyTrustDomain => "EmptyTrustDomain",
            ErrorCode::TrustDomainTooLong => "TrustDomainTooLong",
            ErrorCode::InvalidTrustDomainChar => "InvalidTrustDomainChar",
            ErrorCode::EmptyPathSegment => "EmptyPathSegment",
            ErrorCode::DotSegment => "DotSegment",
            ErrorCode::InvalidPathChar => "InvalidPathChar",
            ErrorCode::BadPercentEncoding => "BadPercentEncoding",
            ErrorCode::NonNormalizedPercentEncoding => "NonNormalizedPercentEncoding",
            ErrorCode::CertificateParseError => "CertificateParseError",
            ErrorCode::CertificateNotValid => "CertificateNotValid",
            ErrorCode::MissingIdentifier => "MissingIdentifier",
            ErrorCode::MultipleIdentifiers => "MultipleIdentifiers",
            ErrorCode::Unmapped => "Unmapped",
        }
    }
}

/// The code an identifier parse error is recorded as.
pub open spec fn parse_error_code(e: ParseError) -> ErrorCode {
    match e {
        ParseError::TooLong => ErrorCode::IdentifierTooLong,
        ParseError::UnsupportedScheme => ErrorCode::UnsupportedScheme,
        ParseError::HasQuery => ErrorCode::HasQuery,
        ParseError::HasFragment => ErrorCode::HasFragment,
        ParseError::HasUserInfo => ErrorCode::HasUserInfo,
        ParseError::HasPort => ErrorCode::HasPort,
        ParseError::EmptyTrustDomain => ErrorCode::EmptyTrustDomain,
        ParseError::TrustDomainTooLong => ErrorCode::TrustDomainTooLong,
        ParseError::InvalidTrustDomainChar(_) => ErrorCode::InvalidTrustDomainChar,
        ParseError::EmptyPathSegment => ErrorCode::EmptyPathSegment,
        ParseError::DotSegment => ErrorCode::DotSegment,
        ParseError::InvalidPathChar(_) => ErrorCode::InvalidPathChar,
        ParseError::BadPercentEncoding => ErrorCode::BadPercentEncoding,
        ParseError::NonNormalizedPercentEncoding(_) => ErrorCode::NonNormalizedPercentEncoding,
    }
}

impl ErrorCode {
    /// The code an identifier parse error is recorded as.
    pub fn from_parse_error(error: &ParseError) -> (r: ErrorCode)
        ensures
            r == parse_error_code(*error),
    {
        match error {
            ParseError::TooLong => ErrorCode::IdentifierTooLong,
            ParseError::UnsupportedScheme => ErrorCode::UnsupportedScheme,
            ParseError::HasQuery => ErrorCode::HasQuery,
            ParseError::HasFragment => ErrorCode::HasFragment,
            ParseError::HasUserInfo => ErrorCode::HasUserInfo,
            ParseError::HasPort => ErrorCode::HasPort,
            ParseError::EmptyTrustDomain => ErrorCode::EmptyTrustDomain,
            ParseError::TrustDomainTooLong => ErrorCode::TrustDomainTooLong,
            ParseError::InvalidTrustDomainChar(_) => ErrorCode::InvalidTrustDomainChar,
            ParseError::EmptyPathSegment => ErrorCode::EmptyPathSegment,
            ParseError::DotSegment => ErrorCode::DotSegment,
            ParseError::InvalidPathChar(_) => ErrorCode::InvalidPathChar,
            ParseError::BadPercentEncoding => ErrorCode::BadPercentEncoding,
            ParseError::NonNormalizedPercentEncoding(_) => ErrorCode::NonNormalizedPercentEncoding,
        }
    }

    /// The code an HTTP message signature error is recorded as.
    pub fn from_httpsig_error(error: &HttpSigError) -> (r: ErrorCode)
        ensures
            r == httpsig_error_code(error@),
    {
        match error {
            HttpSigError::MissingComponent(_) => ErrorCode::MissingComponent,
            HttpSigError::UnsupportedComponent(_) => ErrorCode::UnsupportedComponent,
            HttpSigError::InvalidComponentValue(_) => ErrorCode::InvalidComponentValue,
            HttpSigError::MissingRequiredComponent(_) => ErrorCode::MissingRequiredComponent,
            HttpSigError::UnsupportedAlg { .. } => ErrorCode::UnsupportedAlg,
            HttpSigError::InvalidTimeWindow => ErrorCode::InvalidTimeWindow,
            HttpSigError::TooOld => ErrorCode::TooOld,
            HttpSigError::Parse(_) => ErrorCode::ParseError,
            HttpSigError::LabelMismatch => ErrorCode::LabelMismatch,
            HttpSigError::MalformedSignature => ErrorCode::MalformedSignature,
            HttpSigError::InvalidSignature => ErrorCode::InvalidSignature,
            HttpSigError::Expired => ErrorCode::Expired,
            HttpSigError::CreatedInFuture => ErrorCode::CreatedInFuture,
            HttpSigError::MissingParameter(_) => ErrorCode::MissingParameter,
            HttpSigError::ForbiddenParameter(_) => ErrorCode::ForbiddenParameter,
            HttpSigError::WrongTag { .. } => ErrorCode::WrongTag,
            HttpSigError::AudienceMismatch => ErrorCode::AudienceMismatch,
            HttpSigError::RequestNonceMismatch => ErrorCode::RequestNonceMismatch,
        }
    }

    /// The code a WPT error is recorded as; one the table does not name is
    /// [`ErrorCode::Unmapped`].
    pub fn from_wpt_error(error: &WptError) -> (r: ErrorCode)
        ensures
            r == wpt_error_code(error@),
    {
        match error {
            WptError::MalformedToken => ErrorCode::MalformedToken,
            WptError::TokenTooLong => ErrorCode::TokenTooLong,
            WptError::Base64 | WptError::Json(_) => ErrorCode::InvalidEncoding,
            WptError::WrongType { .. } => ErrorCode::WrongType,
            WptError::UnsupportedAlg { .. } => ErrorCode::UnsupportedAlg,
            WptError::UnsupportedCritical => ErrorCode::UnsupportedCritical,
            WptError::InvalidSignature => ErrorCode::InvalidSignature,
            WptError::Expired => ErrorCode::Expired,
            WptError::AudienceMismatch => ErrorCode::AudienceMismatch,
            WptError::WitBindingMismatch => ErrorCode::WitBindingMismatch,
            WptError::AccessTokenBindingMismatch => ErrorCode::AccessTokenBindingMismatch,
            WptError::LifetimeTooLong => ErrorCode::LifetimeTooLong,
            _ => ErrorCode::Unmapped,
        }
    }

    /// The code a WIT error is recorded as; one the table does not name is
    /// [`ErrorCode::Unmapped`].
    pub fn from_wit_error(error: &WitError) -> (r: ErrorCode)
        ensures
            r == wit_error_code(error@),
    {
        match error {
            WitError::MalformedToken => ErrorCode::MalformedToken,
            WitError::TokenTooLong => ErrorCode::TokenTooLong,
            WitError::UnsupportedCritical => ErrorCode::UnsupportedCritical,
            WitError::Base64 | WitError::Json(_) => ErrorCode::InvalidEncoding,
            WitError::WrongType { .. } => ErrorCode::WrongType,
            WitError::UnsupportedAlg { .. } => ErrorCode::UnsupportedAlg,
            WitError::InvalidSignature => ErrorCode::InvalidSignature,
            WitError::Expired => ErrorCode::Expired,
            WitError::IssuedInFuture => ErrorCode::IssuedInFuture,
            WitError::IssuerMismatch => ErrorCode::IssuerMismatch,
            WitError::InvalidKey => ErrorCode::InvalidKey,
            WitError::MissingConfirmationAlg => ErrorCode::MissingConfirmationAlg,
            WitError::ForbiddenConfirmationAlg { .. } => ErrorCode::ForbiddenConfirmationAlg,
            WitError::UnsupportedConfirmationAlg { .. } => ErrorCode::UnsupportedConfirmationAlg,
            _ => ErrorCode::Unmapped,
        }
    }
}

/// The code an HTTP message signature failure is recorded as.
pub open spec fn httpsig_error_code(f: HttpSigFailure) -> ErrorCode {
    match f {
        HttpSigFailure::MissingComponent(_) => ErrorCode::MissingComponent,
        HttpSigFailure::UnsupportedComponent(_) => ErrorCode::UnsupportedComponent,
        HttpSigFailure::InvalidComponentValue(_) => ErrorCode::InvalidComponentValue,
        HttpSigFailure::MissingRequiredComponent(_) => ErrorCode::MissingRequiredComponent,
        HttpSigFailure::UnsupportedAlg(_) => ErrorCode::UnsupportedAlg,
        HttpSigFailure::InvalidTimeWindow => ErrorCode::InvalidTimeWindow,
        HttpSigFailure::TooOld => ErrorCode::TooOld,
        HttpSigFailure::Parse(_) => ErrorCode::ParseError,
        HttpSigFailure::LabelMismatch => ErrorCode::LabelMismatch,
        HttpSigFailure::MalformedSignature => ErrorCode::MalformedSignature,
        HttpSigFailure::InvalidSignature => ErrorCode::InvalidSignature,
        HttpSigFailure::Expired => ErrorCode::Expired,
        HttpSigFailure::CreatedInFuture => ErrorCode::CreatedInFuture,
        HttpSigFailure::MissingParameter(_) => ErrorCode::MissingParameter,
        HttpSigFailure::ForbiddenParameter(_) => ErrorCode::ForbiddenParameter,
        HttpSigFailure::WrongTag(_) => ErrorCode::WrongTag,
        HttpSigFailure::AudienceMismatch => ErrorCode::AudienceMismatch,
        HttpSigFailure::RequestNonceMismatch => ErrorCode::RequestNonceMismatch,
    }
}

/// The code a WPT failure is recorded as.
pub open spec fn wpt_error_code(f: WptFailure) -> ErrorCode {
    match f {
        WptFailure::MalformedToken => ErrorCode::MalformedToken,
        WptFailure::TokenTooLong => ErrorCode::TokenTooLong,
        WptFailure::Base64 | WptFailure::Json(_) => ErrorCode::InvalidEncoding,
        WptFailure::WrongType(_) => ErrorCode::WrongType,
        WptFailure::UnsupportedAlg(_) => ErrorCode::UnsupportedAlg,
        WptFailure::UnsupportedCritical => ErrorCode::UnsupportedCritical,
        WptFailure::InvalidSignature => ErrorCode::InvalidSignature,
        WptFailure::Expired => ErrorCode::Expired,
        WptFailure::AudienceMismatch => ErrorCode::AudienceMismatch,
        WptFailure::WitBindingMismatch => ErrorCode::WitBindingMismatch,
        WptFailure::AccessTokenBindingMismatch => ErrorCode::AccessTokenBindingMismatch,
        WptFailure::LifetimeTooLong => ErrorCode::LifetimeTooLong,
        _ => ErrorCode::Unmapped,
    }
}

/// The code a WIT failure is recorded as.
pub open spec fn wit_error_code(f: WitFailure) -> ErrorCode {
    match f {
        WitFailure::MalformedToken => ErrorCode::MalformedToken,
        WitFailure::TokenTooLong => ErrorCode::TokenTooLong,
        WitFailure::UnsupportedCritical => ErrorCode::UnsupportedCritical,
        WitFailure::Base64 | WitFailure::Json(_) => ErrorCode::InvalidEncoding,
        WitFailure::WrongType(_) => ErrorCode::WrongType,
        WitFailure::UnsupportedAlg(_) => ErrorCode::UnsupportedAlg,
        WitFailure::InvalidSignature => ErrorCode::InvalidSignature,
        WitFailure::Expired => ErrorCode::Expired,
        WitFailure::IssuedInFuture => ErrorCode::IssuedInFuture,
        WitFailure::IssuerMismatch => ErrorCode::IssuerMismatch,
        WitFailure::InvalidKey => ErrorCode::InvalidKey,
        WitFailure::MissingConfirmationAlg => ErrorCode::MissingConfirmationAlg,
        WitFailure::ForbiddenConfirmationAlg(_) => ErrorCode::ForbiddenConfirmationAlg,
        WitFailure::UnsupportedConfirmationAlg(_) => ErrorCode::UnsupportedConfirmationAlg,
        _ => ErrorCode::Unmapped,
    }
}

// ---------------------------------------------------------------------------
// Vector shapes.
// ---------------------------------------------------------------------------

/// The HTTP request a signature covers: method, authority, path, query and
/// header fields, in wire order. It is exactly the request the signature code
/// reads.
pub type VectorRequest = HttpRequest;

/// The signature parameters recorded alongside an httpsig vector.
#[derive(Debug, Clone)]
pub struct VectorParams {
    /// The `created` parameter.
    pub created: u64,
    /// The `expires` parameter.
    pub expires: u64,
    /// The `nonce` parameter.
    pub nonce: String,
    /// The `tag` parameter.
    pub tag: String,
    /// The `wimse-aud` parameter.
    pub wimse_aud: String,
    /// The `wimse-sign-response` parameter, when the client requires a signed
    /// response.
    pub wimse_sign_response: Option<bool>,
    /// The `wimse-req-nonce` parameter, carried on a response signature.
    pub wimse_req_nonce: Option<String>,
}

/// A response verification input that must fail, and the reason it must fail.
#[derive(Debug, Clone)]
pub struct ResponseNegative {
    pub id: String,
    pub description: String,
    pub expect: ErrorCode,
    pub signature_input: Option<String>,
    pub signature: Option<String>,
    pub request: Option<VectorRequest>,
    pub expected_req_nonce: Option<String>,
}

/// A signed response, and the request-bound checks a client applies to it.
#[derive(Debug, Clone)]
pub struct VectorResponse {
    pub status: u16,
    pub headers: Vec<(String, String)>,
    pub body: String,
    pub components: Vec<String>,
    pub params: VectorParams,
    pub signature_input: String,
    pub signature: String,
    pub expected_req_nonce: String,
    pub negative: Vec<ResponseNegative>,
}

/// An httpsig verification input that must fail, and the reason it must fail
/// with.
#[derive(Debug, Clone)]
pub struct HttpSigNegative {
    pub id: String,
    pub description: String,
    pub expect: ErrorCode,
    pub request: Option<VectorRequest>,
    pub body: Option<String>,
    pub signature_input: Option<String>,
    pub signature: Option<String>,
    pub verify_now: Option<u64>,
    pub accept_label: Option<String>,
    pub accept_audience: Option<String>,
    pub max_age: Option<u64>,
    pub required_components: Option<Vec<String>>,
}

/// A WPT verification input that must fail, and the reason it must fail with.
#[derive(Debug, Clone)]
pub struct WptNegative {
    pub id: String,
    pub description: String,
    pub expect: ErrorCode,
    pub proof: Option<String>,
    pub verify_now: Option<u64>,
    pub audience: Option<String>,
    pub wit: Option<String>,
}

/// A WIT verification input that must fail, and the reason it must fail with.
#[derive(Debug)]
pub struct WitNegative {
    pub id: String,
    pub description: String,
    pub expect: ErrorCode,
    /// Replaces the positive case's token.
    pub token: Option<String>,
    /// Replaces the positive case's `verify_now`.
    pub verify_now: Option<u64>,
    /// Replaces the issuer's key the token is verified with.
    pub issuer_verifying_key: Option<Jwk>,
    /// An issuer the verifier requires.
    pub expected_iss: Option<String>,
}

/// A WIC verification input that must fail, and the reason it must fail with.
#[derive(Debug, Clone)]
pub struct MtlsNegative {
    pub id: String,
    pub description: String,
    pub expect: ErrorCode,
    pub wic_der_b64u: Option<String>,
    pub ca_certificate_der_b64u: Option<String>,
    pub verify_now: Option<u64>,
}

/// A workload identifier parsing vector.
#[derive(Debug, Clone)]
pub struct IdentifierVector {
    /// The common header fields.
    pub header: Header,
    /// Identifiers that must parse, with the decomposition they must yield.
    pub accept: Vec<IdentifierAccept>,
    /// Identifiers that must be rejected, and why.
    pub reject: Vec<IdentifierReject>,
}

/// An identifier that must parse, and the components it must decompose into.
#[derive(Debug, Clone)]
pub struct IdentifierAccept {
    pub id: String,
    pub description: String,
    /// The identifier under test.
    pub identifier: String,
    /// The scheme name, without `://`.
    pub scheme: String,
    /// The authority component.
    pub trust_domain: String,
    /// The path including its leading `/`, or `""` when there is none.
    pub path: String,
    /// The scheme and trust domain with the path omitted.
    pub origin: String,
}

/// An identifier that must be rejected, and the reason it must be rejected
/// for.
#[derive(Debug, Clone)]
pub struct IdentifierReject {
    pub id: String,
    pub description: String,
    /// The identifier under test.
    pub identifier: String,
    /// The reason parsing must report.
    pub expect: ErrorCode,
}

// ---------------------------------------------------------------------------
// The report.
// ---------------------------------------------------------------------------

/// One assertion, and whether this implementation satisfied it.
#[derive(Debug, Clone)]
pub struct Check {
    /// The vector the check came from, as `suite/id`.
    pub vector: String,
    /// What was asserted.
    pub name: String,
    /// Whether the assertion held.
    pub passed: bool,
    /// What went wrong, when it did not.
    pub detail: Option<String>,
}

/// A check, by value.
pub struct CheckView {
    pub vector: Seq<char>,
    pub name: Seq<char>,
    pub passed: bool,
    pub detail: Option<Seq<char>>,
}

impl View for Check {
    type V = CheckView;

    open spec fn view(&self) -> CheckView {
        CheckView {
            vector: self.vector@,
            name: self.name@,
            passed: self.passed,
            detail: crate::jose::opt_view(self.detail),
        }
    }
}

/// The outcome of a whole run.
#[derive(Debug, Clone)]
pub struct Report {
    /// Every check, in run order.
    pub checks: Vec<Check>,
}

impl View for Report {
    type V = Seq<CheckView>;

    open spec fn view(&self) -> Seq<CheckView> {
        self.checks@.map_values(|c: Check| c@)
    }
}

/// How many checks held.
pub open spec fn count_passed(checks: Seq<CheckView>) -> nat
    decreases checks.len(),
{
    if checks.len() == 0 {
        0
    } else {
        count_passed(checks.drop_last()) + if checks.last().passed {
            1nat
        } else {
            0nat
        }
    }
}

proof fn lemma_count_bound(checks: Seq<CheckView>)
    ensures
        count_passed(checks) <= checks.len(),
    decreases checks.len(),
{
    if checks.len() > 0 {
        lemma_count_bound(checks.drop_last());
    }
}

/// The check a run records for an outcome.
pub open spec fn check_of(vector: Seq<char>, name: Seq<char>, outcome: Result<(), Seq<char>>) -> CheckView {
    CheckView {
        vector,
        name,
        passed: outcome is Ok,
        detail: match outcome {
            Ok(_) => None,
            Err(d) => Some(d),
        },
    }
}

impl Report {
    /// An empty report.
    pub fn new() -> (r: Report)
        ensures
            r@ == Seq::<CheckView>::empty(),
    {
        let r = Report { checks: Vec::new() };
        assert(r@ =~= Seq::<CheckView>::empty());
        r
    }

    /// Records a check that held.
    pub fn pass(&mut self, vector: &str, name: &str)
        ensures
            final(self)@ == old(self)@.push(check_of(vector@, name@, Ok(()))),
    {
        self.checks.push(Check { vector: owned(vector), name: owned(name), passed: true, detail: None });
        assert(self@ =~= old(self)@.push(check_of(vector@, name@, Ok(()))));
    }

    /// Records a check that did not hold, and why.
    pub fn fail(&mut self, vector: &str, name: &str, detail: String)
        ensures
            final(self)@ == old(self)@.push(check_of(vector@, name@, Err(detail@))),
    {
        let ghost d: Seq<char> = detail@;
        self.checks.push(
            Check { vector: owned(vector), name: owned(name), passed: false, detail: Some(detail) },
        );
        assert(self@ =~= old(self)@.push(check_of(vector@, name@, Err(d))));
    }

    /// Records a check from its outcome.
    pub fn record(&mut self, vector: &str, name: &str, outcome: Result<(), String>)
        ensures
            final(self)@ == old(self)@.push(
                check_of(
                    vector@,
                    name@,
                    match outcome {
                        Ok(_) => Ok(()),
                        Err(d) => Err(d@),
                    },
                ),
            ),
    {
        match outcome {
            Ok(()) => self.pass(vector, name),
            Err(detail) => self.fail(vector, name, detail),
        }
    }

    /// The number of checks that held.
    pub fn passed(&self) -> (r: usize)
        ensures
            r == count_passed(self@),
    {
        let ghost v: Seq<CheckView> = self@;
        let mut n: usize = 0;
        let mut i: usize = 0;
        assert(v.take(0) =~= Seq::<CheckView>::empty());
        while i < self.checks.len()
            invariant
                i <= self.checks@.len(),
                v == self@,
                n == count_passed(v.take(i as int)),
                n <= i,
            decreases self.checks@.len() - i,
        {
            assert(v.take(i + 1).drop_last() =~= v.take(i as int));
            assert(v.take(i + 1).last() == self.checks@[i as int]@);
            if self.checks[i].passed {
                n = n + 1;
            }
            i = i + 1;
        }
        assert(v.take(v.len() as int) =~= v);
        n
    }

    /// The number of checks that did not hold.
    pub fn failed(&self) -> (r: usize)
        ensures
            r == self@.len() - count_passed(self@),
    {
        proof {
            lemma_count_bound(self@);
        }
        self.checks.len() - self.passed()
    }

    /// Whether every check held.
    pub fn is_green(&self) -> (r: bool)
        ensures
            r == (count_passed(self@) == self@.len()),
    {
        self.failed() == 0
    }
}

/// How a negative case fares: it passes only when refused, and for the
/// reason its vector names.
pub open spec fn reject_outcome(expected: ErrorCode, actual: Result<(), ErrorCode>) -> Result<
    (),
    Seq<char>,
> {
    match actual {
        Ok(()) => Err("accepted; it must be rejected as "@ + code_name(expected)),
        Err(found) => if found == expected {
            Ok(())
        } else {
            Err("rejected as "@ + code_name(found) + ", expected "@ + code_name(expected))
        },
    }
}

/// Turns a negative case's outcome into a check outcome.
pub fn expect_reject(expected: ErrorCode, actual: Result<(), ErrorCode>) -> (r: Result<(), String>)
    ensures
        match r {
            Ok(_) => reject_outcome(expected, actual) == Ok::<(), Seq<char>>(()),
            Err(d) => reject_outcome(expected, actual) == Err::<(), Seq<char>>(d@),
        },
{
    match actual {
        Ok(()) => {
            let mut d: String = owned("accepted; it must be rejected as ");
            push_str(&mut d, expected.name());
            Err(d)
        },
        Err(found) => {
            if found == expected {
                Ok(())
            } else {
                let mut d: String = owned("rejected as ");
                push_str(&mut d, found.name());
                push_str(&mut d, ", expected ");
                push_str(&mut d, expected.name());
                Err(d)
            }
        },
    }
}

// ---------------------------------------------------------------------------
// The identifier suite.
// ---------------------------------------------------------------------------

/// Whether an `accept` case holds: the identifier parses, and decomposes into
/// exactly the recorded scheme, trust domain, path and origin.
pub open spec fn accept_holds(c: IdentifierAccept) -> bool {
    let s = c.identifier@;
    match spec_parse(s) {
        Err(_) => false,
        Ok(scheme) => {
            let end = authority_end(scheme, s);
            &&& scheme_name(scheme) == c.scheme@
            &&& s.subrange(scheme_prefix(scheme).len() as int, end) == c.trust_domain@
            &&& s.subrange(end, s.len() as int) == c.path@
            &&& s.take(end) == c.origin@
        },
    }
}

/// The check an `accept` case records.
pub open spec fn accept_check(vector: Seq<char>, c: IdentifierAccept) -> CheckView {
    check_of(
        vector,
        "accept/"@ + c.id@,
        match spec_parse(c.identifier@) {
            Err(_) => Err("must parse, but was rejected"@),
            Ok(_) => if accept_holds(c) {
                Ok(())
            } else {
                Err("decomposed differently than recorded"@)
            },
        },
    )
}

/// The check a `reject` case records.
pub open spec fn reject_check(vector: Seq<char>, c: IdentifierReject) -> CheckView {
    check_of(
        vector,
        "reject/"@ + c.id@,
        reject_outcome(
            c.expect,
            match spec_parse(c.identifier@) {
                Ok(_) => Ok(()),
                Err(e) => Err(parse_error_code(e)),
            },
        ),
    )
}

/// A run of the identifier vector passes a case exactly when the parser
/// agrees with it: an `accept` case when its identifier parses and decomposes
/// as recorded, a `reject` case when its identifier is refused for the
/// recorded reason.
pub proof fn lemma_identifier_case_passes(vector: Seq<char>, a: IdentifierAccept, r: IdentifierReject)
    ensures
        accept_check(vector, a).passed == accept_holds(a),
        reject_check(vector, r).passed == (spec_parse(r.identifier@) matches Err(e)
            && parse_error_code(e) == r.expect),
{
}

/// The name a vector's checks are recorded under: `suite/id`.
pub open spec fn vector_name(h: Header) -> Seq<char> {
    h.suite@ + seq!['/'] + h.id@
}

fn joined(a: &str, sep: &str, b: &str) -> (r: String)
    ensures
        r@ == a@ + sep@ + b@,
{
    let mut s: String = owned(a);
    push_str(&mut s, sep);
    push_str(&mut s, b);
    s
}

fn accept_outcome(c: &IdentifierAccept) -> (r: Result<(), String>)
    ensures
        match r {
            Ok(_) => accept_check(seq![], *c).passed,
            Err(d) => !accept_check(seq![], *c).passed && accept_check(seq![], *c).detail == Some(
                d@,
            ),
        },
{
    match WorkloadIdentifier::parse(c.identifier.as_str()) {
        Err(_) => Err(owned("must parse, but was rejected")),
        Ok(parsed) => {
            let same: bool = str_eq(parsed.scheme().as_str(), c.scheme.as_str()) && str_eq(
                parsed.trust_domain(),
                c.trust_domain.as_str(),
            ) && str_eq(parsed.path(), c.path.as_str()) && str_eq(
                parsed.origin(),
                c.origin.as_str(),
            );
            if same {
                Ok(())
            } else {
                Err(owned("decomposed differently than recorded"))
            }
        },
    }
}

/// Runs the workload identifier vector: every `accept` case must parse and
/// decompose exactly as recorded, and every `reject` case must be refused
/// for the recorded reason. One check per case is appended, accepts first.
pub fn run_identifier(vector: &IdentifierVector, report: &mut Report)
    ensures
        final(report)@ == old(report)@ + vector.accept@.map_values(
            |c: IdentifierAccept| accept_check(vector_name(vector.header), c),
        ) + vector.reject@.map_values(
            |c: IdentifierReject| reject_check(vector_name(vector.header), c),
        ),
{
    let name: String = joined(vector.header.suite.as_str(), "/", vector.header.id.as_str());
    proof {
        reveal_strlit("/");
    }
    let ghost vn: Seq<char> = vector_name(vector.header);
    assert(name@ =~= vn);
    let ghost start: Seq<CheckView> = report@;
    let ghost accepts: Seq<CheckView> = vector.accept@.map_values(
        |c: IdentifierAccept| accept_check(vn, c),
    );
    let ghost rejects: Seq<CheckView> = vector.reject@.map_values(
        |c: IdentifierReject| reject_check(vn, c),
    );
    let mut i: usize = 0;
    assert(accepts.take(0) =~= Seq::<CheckView>::empty());
    assert(report@ =~= start + accepts.take(0));
    while i < vector.accept.len()
        invariant
            i <= vector.accept@.len(),
            name@ == vn,
            vn == vector_name(vector.header),
            accepts == vector.accept@.map_values(|c: IdentifierAccept| accept_check(vn, c)),
            report@ == start + accepts.take(i as int),
        decreases vector.accept@.len() - i,
    {
        let case: &IdentifierAccept = &vector.accept[i];
        let check: String = joined("accept", "/", case.id.as_str());
        proof {
            reveal_strlit("/");
            reveal_strlit("accept");
            reveal_strlit("accept/");
            assert(check@ =~= "accept/"@ + case.id@);
        }
        let outcome: Result<(), String> = accept_outcome(case);
        report.record(name.as_str(), check.as_str(), outcome);
        assert(accepts.take(i + 1) =~= accepts.take(i as int).push(accepts[i as int]));
        i = i + 1;
        assert(report@ =~= start + accepts.take(i as int));
    }
    assert(accepts.take(accepts.len() as int) =~= accepts);
    let ghost mid: Seq<CheckView> = report@;
    let mut j: usize = 0;
    assert(rejects.take(0) =~= Seq::<CheckView>::empty());
    assert(report@ =~= mid + rejects.take(0));
    while j < vector.reject.len()
        invariant
            j <= vector.reject@.len(),
            name@ == vn,
            rejects == vector.reject@.map_values(|c: IdentifierReject| reject_check(vn, c)),
            report@ == mid + rejects.take(j as int),
        decreases vector.reject@.len() - j,
    {
        let case: &IdentifierReject = &vector.reject[j];
        let check: String = joined("reject", "/", case.id.as_str());
        proof {
            reveal_strlit("/");
            reveal_strlit("reject");
            reveal_strlit("reject/");
            assert(check@ =~= "reject/"@ + case.id@);
        }
        let actual: Result<(), ErrorCode> = match WorkloadIdentifier::parse(case.identifier.as_str()) {
            Ok(_) => Ok(()),
            Err(e) => Err(ErrorCode::from_parse_error(&e)),
        };
        let outcome: Result<(), String> = expect_reject(case.expect, actual);
        report.record(name.as_str(), check.as_str(), outcome);
        assert(rejects.take(j + 1) =~= rejects.take(j as int).push(rejects[j as int]));
        j = j + 1;
        assert(report@ =~= mid + rejects.take(j as int));
    }
    assert(rejects.take(rejects.len() as int) =~= rejects);
}

// ---------------------------------------------------------------------------
// The WIC suite.
// ---------------------------------------------------------------------------

/// The code a WIC failure is recorded as.
pub open spec fn mtls_error_code(f: MtlsFailure) -> ErrorCode {
    match f {
        MtlsFailure::Parse => ErrorCode::CertificateParseError,
        MtlsFailure::UnsupportedAlgorithm => ErrorCode::UnsupportedAlg,
        MtlsFailure::InvalidKey => ErrorCode::InvalidKey,
        MtlsFailure::InvalidSignature => ErrorCode::InvalidSignature,
        MtlsFailure::NotValid => ErrorCode::CertificateNotValid,
        MtlsFailure::MissingIdentifier => ErrorCode::MissingIdentifier,
        MtlsFailure::MultipleIdentifiers => ErrorCode::MultipleIdentifiers,
        MtlsFailure::Identifier(e) => parse_error_code(e),
        _ => ErrorCode::Unmapped,
    }
}

impl ErrorCode {
    /// The code a WIC error is recorded as.
    pub fn from_mtls_error(error: &MtlsError) -> (r: ErrorCode)
        ensures
            r == mtls_error_code(error@),
    {
        match error {
            MtlsError::Parse => ErrorCode::CertificateParseError,
            MtlsError::UnsupportedAlgorithm => ErrorCode::UnsupportedAlg,
            MtlsError::InvalidKey => ErrorCode::InvalidKey,
            MtlsError::InvalidSignature => ErrorCode::InvalidSignature,
            MtlsError::NotValid => ErrorCode::CertificateNotValid,
            MtlsError::MissingIdentifier => ErrorCode::MissingIdentifier,
            MtlsError::MultipleIdentifiers => ErrorCode::MultipleIdentifiers,
            MtlsError::Identifier(e) => ErrorCode::from_parse_error(e),
            _ => ErrorCode::Unmapped,
        }
    }
}

/// A Workload Identity Certificate vector.
#[derive(Debug)]
pub struct MtlsVector {
    /// The common header fields.
    pub header: Header,
    /// The CA's private key, so the CA certificate can be rebuilt.
    pub ca_signing_key: PrivateJwk,
    /// The CA certificate's validity window, in seconds since the Unix epoch.
    pub ca_not_before: u64,
    /// The end of the CA certificate's validity window.
    pub ca_not_after: u64,
    /// The workload's private key; only its public half is certified.
    pub workload_signing_key: PrivateJwk,
    /// The workload identifier the WIC must carry in its URI SAN.
    pub identifier: String,
    /// The WIC's validity window, in seconds since the Unix epoch.
    pub not_before: u64,
    /// The end of the WIC's validity window.
    pub not_after: u64,
    /// The expected CA certificate, DER-encoded, in Base64url.
    pub ca_certificate_der_b64u: String,
    /// The expected WIC, DER-encoded, in Base64url.
    pub wic_der_b64u: String,
    /// The time at which the positive case must verify.
    pub verify_now: u64,
    /// Inputs that must be rejected, and why.
    pub negative: Vec<MtlsNegative>,
}

/// DER recorded in Base64url, or why it is not.
pub open spec fn der_of(b64u: Seq<char>) -> Result<Seq<u8>, Seq<char>> {
    match base64url_decoded(b64u) {
        Some(b) => Ok(b),
        None => Err("DER is not base64url"@),
    }
}

/// The check the positive WIC case records: the recorded WIC verifies against
/// the recorded CA at `verify_now`, as the recorded identifier.
pub open spec fn mtls_verify_check(v: MtlsVector) -> CheckView {
    check_of(
        vector_name(v.header),
        "verify"@,
        match (der_of(v.wic_der_b64u@), der_of(v.ca_certificate_der_b64u@)) {
            (Err(d), _) => Err(d),
            (_, Err(d)) => Err(d),
            (Ok(wic), Ok(ca)) => match wic_outcome(wic, ca, v.verify_now) {
                Err(_) => Err("the recorded WIC did not verify"@),
                Ok(uri) => if uri == v.identifier@ {
                    Ok(())
                } else {
                    Err("verified as "@ + uri + ", expected "@ + v.identifier@)
                },
            },
        },
    )
}

/// The check a negative WIC case records: the case's inputs, falling back to
/// the positive case's, are refused for the recorded reason.
pub open spec fn mtls_reject_check(v: MtlsVector, c: MtlsNegative) -> CheckView {
    let wic = match c.wic_der_b64u {
        Some(w) => w@,
        None => v.wic_der_b64u@,
    };
    let ca = match c.ca_certificate_der_b64u {
        Some(x) => x@,
        None => v.ca_certificate_der_b64u@,
    };
    let now = match c.verify_now {
        Some(n) => n,
        None => v.verify_now,
    };
    check_of(
        vector_name(v.header),
        "reject/"@ + c.id@,
        match (der_of(wic), der_of(ca)) {
            (Err(d), _) => Err(d),
            (_, Err(d)) => Err(d),
            (Ok(wic), Ok(ca)) => reject_outcome(
                c.expect,
                match wic_outcome(wic, ca, now) {
                    Ok(_) => Ok(()),
                    Err(f) => Err(mtls_error_code(f)),
                },
            ),
        },
    )
}

fn der(b64u: &str) -> (r: Result<Vec<u8>, String>)
    ensures
        match r {
            Ok(b) => der_of(b64u@) == Ok::<Seq<u8>, Seq<char>>(b@),
            Err(d) => der_of(b64u@) == Err::<Seq<u8>, Seq<char>>(d@),
        },
{
    match b64url_decode(b64u) {
        Some(b) => Ok(b),
        None => Err(owned("DER is not base64url")),
    }
}

fn mtls_verify_outcome(v: &MtlsVector) -> (r: Result<(), String>)
    ensures
        match r {
            Ok(_) => mtls_verify_check(*v).passed,
            Err(d) => !mtls_verify_check(*v).passed && mtls_verify_check(*v).detail == Some(d@),
        },
{
    let wic: Vec<u8> = match der(v.wic_der_b64u.as_str()) {
        Ok(b) => b,
        Err(d) => return Err(d),
    };
    let ca: Vec<u8> = match der(v.ca_certificate_der_b64u.as_str()) {
        Ok(b) => b,
        Err(d) => return Err(d),
    };
    match verify_wic(wic.as_slice(), ca.as_slice(), v.verify_now) {
        Err(_) => Err(owned("the recorded WIC did not verify")),
        Ok(got) => {
            if str_eq(got.as_str(), v.identifier.as_str()) {
                Ok(())
            } else {
                let mut d: String = owned("verified as ");
                push_str(&mut d, got.as_str());
                push_str(&mut d, ", expected ");
                push_str(&mut d, v.identifier.as_str());
                Err(d)
            }
        },
    }
}

fn mtls_reject_outcome(v: &MtlsVector, c: &MtlsNegative) -> (r: Result<(), String>)
    ensures
        match r {
            Ok(_) => mtls_reject_check(*v, *c).passed,
            Err(d) => !mtls_reject_check(*v, *c).passed && mtls_reject_check(*v, *c).detail
                == Some(d@),
        },
{
    let wic_text: &String = match &c.wic_der_b64u {
        Some(w) => w,
        None => &v.wic_der_b64u,
    };
    let ca_text: &String = match &c.ca_certificate_der_b64u {
        Some(x) => x,
        None => &v.ca_certificate_der_b64u,
    };
    let now: u64 = match c.verify_now {
        Some(n) => n,
        None => v.verify_now,
    };
    let wic: Vec<u8> = match der(wic_text.as_str()) {
        Ok(b) => b,
        Err(d) => return Err(d),
    };
    let ca: Vec<u8> = match der(ca_text.as_str()) {
        Ok(b) => b,
        Err(d) => return Err(d),
    };
    let actual: Result<(), ErrorCode> = match verify_wic(wic.as_slice(), ca.as_slice(), now) {
        Ok(_) => Ok(()),
        Err(e) => Err(ErrorCode::from_mtls_error(&e)),
    };
    expect_reject(c.expect, actual)
}

/// Runs the verification half of a WIC vector: the recorded WIC must verify
/// as the recorded identifier, and every negative case must be refused for
/// its recorded reason. The issuance half (re-issuing the WIC and the CA
/// certificate byte for byte) belongs to whoever holds a certificate
/// generator. One check for the positive case is appended, then one per
/// negative case.
pub fn run_mtls_verification(vector: &MtlsVector, report: &mut Report)
    ensures
        final(report)@ == old(report)@.push(mtls_verify_check(*vector)) + vector.negative@.map_values(
            |c: MtlsNegative| mtls_reject_check(*vector, c),
        ),
{
    let name: String = joined(vector.header.suite.as_str(), "/", vector.header.id.as_str());
    proof {
        reveal_strlit("/");
    }
    let ghost vn: Seq<char> = vector_name(vector.header);
    assert(name@ =~= vn);
    let outcome: Result<(), String> = mtls_verify_outcome(vector);
    proof {
        reveal_strlit("verify");
    }
    report.record(name.as_str(), "verify", outcome);
    let ghost start: Seq<CheckView> = report@;
    assert(start == old(report)@.push(mtls_verify_check(*vector)));
    let ghost rejects: Seq<CheckView> = vector.negative@.map_values(
        |c: MtlsNegative| mtls_reject_check(*vector, c),
    );
    let mut j: usize = 0;
    assert(rejects.take(0) =~= Seq::<CheckView>::empty());
    assert(report@ =~= start + rejects.take(0));
    while j < vector.negative.len()
        invariant
            j <= vector.negative@.len(),
            name@ == vn,
            vn == vector_name(vector.header),
            rejects == vector.negative@.map_values(|c: MtlsNegative| mtls_reject_check(*vector, c)),
            report@ == start + rejects.take(j as int),
        decreases vector.negative@.len() - j,
    {
        let case: &MtlsNegative = &vector.negative[j];
        let check: String = joined("reject", "/", case.id.as_str());
        proof {
            reveal_strlit("/");
            reveal_strlit("reject");
            reveal_strlit("reject/");
            assert(check@ =~= "reject/"@ + case.id@);
        }
        let outcome: Result<(), String> = mtls_reject_outcome(vector, case);
        report.record(name.as_str(), check.as_str(), outcome);
        assert(rejects.take(j + 1) =~= rejects.take(j as int).push(rejects[j as int]));
        j = j + 1;
        assert(report@ =~= start + rejects.take(j as int));
    }
    assert(rejects.take(rejects.len() as int) =~= rejects);
}

// ---------------------------------------------------------------------------
// Running a directory of vectors.
// ---------------------------------------------------------------------------

/// The suites a runner has checks for.
#[derive(Debug, Clone, Copy, PartialEq, Eq, Structural)]
pub enum Suite {
    Identifier,
    Mtls,
    Wit,
    Wpt,
    Httpsig,
}

/// The suite a manifest entry names, if the runner has checks for it.
pub open spec fn suite_spec(name: Seq<char>) -> Option<Suite> {
    if name == "identifier"@ {
        Some(Suite::Identifier)
    } else if name == "mtls"@ {
        Some(Suite::Mtls)
    } else if name == "wit"@ {
        Some(Suite::Wit)
    } else if name == "wpt"@ {
        Some(Suite::Wpt)
    } else if name == "httpsig"@ {
        Some(Suite::Httpsig)
    } else {
        None
    }
}

/// The suite a manifest entry names; `None` for one this runner cannot run.
pub fn suite_of(name: &str) -> (r: Option<Suite>)
    ensures
        r == suite_spec(name@),
{
    if str_eq(name, "identifier") {
        Some(Suite::Identifier)
    } else if str_eq(name, "mtls") {
        Some(Suite::Mtls)
    } else if str_eq(name, "wit") {
        Some(Suite::Wit)
    } else if str_eq(name, "wpt") {
        Some(Suite::Wpt)
    } else if str_eq(name, "httpsig") {
        Some(Suite::Httpsig)
    } else {
        None
    }
}

/// Whether a file declares the format this runner speaks.
pub fn is_current_format(found: &str) -> (r: bool)
    ensures
        r == (found@ == FORMAT@),
{
    str_eq(found, FORMAT)
}

/// The manifest's paths, by value.
pub open spec fn listed_paths(m: Seq<ManifestEntry>) -> Seq<Seq<char>> {
    m.map_values(|e: ManifestEntry| e.path@)
}

/// The first of the files found that the manifest does not list, so a vector
/// cannot be added and quietly never run.
pub open spec fn first_unlisted(listed: Seq<Seq<char>>, found: Seq<Seq<char>>) -> Option<Seq<char>>
    decreases found.len(),
{
    if found.len() == 0 {
        None
    } else if !listed.contains(found[0]) {
        Some(found[0])
    } else {
        first_unlisted(listed, found.drop_first())
    }
}

fn is_listed(manifest: &Manifest, path: &str) -> (r: bool)
    ensures
        r == listed_paths(manifest.vectors@).contains(path@),
{
    let ghost listed = listed_paths(manifest.vectors@);
    let mut i: usize = 0;
    while i < manifest.vectors.len()
        invariant
            i <= manifest.vectors@.len(),
            listed == listed_paths(manifest.vectors@),
            forall|j: int| 0 <= j < i ==> listed[j] != path@,
        decreases manifest.vectors@.len() - i,
    {
        if str_eq(manifest.vectors[i].path.as_str(), path) {
            assert(listed[i as int] == path@);
            return true;
        }
        i = i + 1;
    }
    false
}

/// The first file found (as `suite/name.json`) that the manifest does not
/// list.
pub fn unlisted(manifest: &Manifest, found: &Vec<String>) -> (r: Option<String>)
    ensures
        opt_view(r) == first_unlisted(
            listed_paths(manifest.vectors@),
            found@.map_values(|f: String| f@),
        ),
{
    let ghost listed = listed_paths(manifest.vectors@);
    let ghost all = found@.map_values(|f: String| f@);
    let mut i: usize = 0;
    assert(all.skip(0) =~= all);
    while i < found.len()
        invariant
            i <= found@.len(),
            listed == listed_paths(manifest.vectors@),
            all == found@.map_values(|f: String| f@),
            first_unlisted(listed, all) == first_unlisted(listed, all.skip(i as int)),
        decreases found@.len() - i,
    {
        assert(all.skip(i as int)[0] == found@[i as int]@);
        if !is_listed(manifest, found[i].as_str()) {
            return Some(found[i].clone());
        }
        assert(all.skip(i as int).drop_first() =~= all.skip(i + 1));
        i = i + 1;
    }
    assert(all.skip(i as int).len() == 0);
    None
}

// ---------------------------------------------------------------------------
// The manifest.
// ---------------------------------------------------------------------------

fn entry(suite: &str, path: &str, spec: &str) -> (r: ManifestEntry)
    ensures
        r.suite@ == suite@ && r.path@ == path@ && r.spec@ == spec@,
{
    ManifestEntry { suite: owned(suite), path: owned(path), spec: owned(spec) }
}

/// The suite, path and draft revision of every vector the suite ships, in
/// run order.
pub open spec fn shipped_vectors() -> Seq<(Seq<char>, Seq<char>, Seq<char>)> {
    seq![
        ("identifier"@, "identifier/parse-basic.json"@, "draft-ietf-wimse-identifier-03"@),
        ("wit"@, "wit/issue-eddsa.json"@, "draft-ietf-wimse-workload-creds-02"@),
        ("wit"@, "wit/issue-es256.json"@, "draft-ietf-wimse-workload-creds-02"@),
        ("wpt"@, "wpt/proof-eddsa.json"@, "draft-ietf-wimse-wpt-01"@),
        ("wpt"@, "wpt/proof-es256.json"@, "draft-ietf-wimse-wpt-01"@),
        ("httpsig"@, "httpsig/sign-eddsa.json"@, "draft-ietf-wimse-http-signature-06"@),
        ("httpsig"@, "httpsig/sign-es256.json"@, "draft-ietf-wimse-http-signature-06"@),
        ("mtls"@, "mtls/wic-basic.json"@, "draft-ietf-wimse-mutual-tls-02"@),
    ]
}

/// The manifest that indexes every vector the suite ships, in run order.
pub fn manifest() -> (r: Manifest)
    ensures
        r.format@ == FORMAT@,
        r.vectors@.len() == shipped_vectors().len(),
        forall|i: int|
            0 <= i < r.vectors@.len() ==> ((#[trigger] r.vectors@[i]).suite@, r.vectors@[i].path@,
            r.vectors@[i].spec@) == shipped_vectors()[i],
{
    let mut vectors: Vec<ManifestEntry> = Vec::new();
    vectors.push(entry("identifier", "identifier/parse-basic.json", "draft-ietf-wimse-identifier-03"));
    vectors.push(entry("wit", "wit/issue-eddsa.json", "draft-ietf-wimse-workload-creds-02"));
    vectors.push(entry("wit", "wit/issue-es256.json", "draft-ietf-wimse-workload-creds-02"));
    vectors.push(entry("wpt", "wpt/proof-eddsa.json", "draft-ietf-wimse-wpt-01"));
    vectors.push(entry("wpt", "wpt/proof-es256.json", "draft-ietf-wimse-wpt-01"));
    vectors.push(entry("httpsig", "httpsig/sign-eddsa.json", "draft-ietf-wimse-http-signature-06"));
    vectors.push(entry("httpsig", "httpsig/sign-es256.json", "draft-ietf-wimse-http-signature-06"));
    vectors.push(entry("mtls", "mtls/wic-basic.json", "draft-ietf-wimse-mutual-tls-02"));
    Manifest { format: owned(FORMAT), vectors }
}


// ---------------------------------------------------------------------------
// The identifier vector.
// ---------------------------------------------------------------------------

/// The draft revision the identifier vector follows.
pub const IDENTIFIER_SPEC: &'static str = "draft-ietf-wimse-identifier-03";

/// The identifiers a parser must accept: id, description and identifier.
pub open spec fn identifier_accepts() -> Seq<(Seq<char>, Seq<char>, Seq<char>)> {
    seq![
        ("spiffe-basic"@, "the SPIFFE scheme the architecture draft cites as a conforming identifier"@, "spiffe://example.org/workload/api"@),
        ("wimse-basic"@, "the wimse scheme defined in Section 4.4"@, "wimse://trust.example.com/service/payment"@),
        ("trust-domain-only"@, "the path is optional; an identifier may be a bare trust domain"@, "spiffe://prod.trust.domain"@),
        ("wimse-pchar-path"@, "Section 4.4 leaves the wimse path to the generic RFC 3986 pchar set"@, "wimse://example.org/a~b!c$d&e'f(g)h*i+j,k;l=m:n@o"@),
        ("wimse-encoded-reserved"@, "a reserved character stays encodable: %2F is a `/` that is data, not a delimiter"@, "wimse://example.org/a%2Fb"@),
        ("deep-path"@, "the path may encode structured information within the trust domain"@, "spiffe://prod.trust.domain/ns/prod-01/sa/foo-service"@),
    ]
}

/// The identifiers a parser must reject: id, description, identifier and the
/// reason it must report.
pub open spec fn identifier_rejects() -> Seq<(Seq<char>, Seq<char>, Seq<char>, ErrorCode)> {
    seq![
        ("unsupported-scheme"@, "an https URI is not a workload identifier"@, "https://example.org/x"@, ErrorCode::UnsupportedScheme),
        ("has-query"@, "Section 4.1 forbids a query component"@, "wimse://example.org/a?b=c"@, ErrorCode::HasQuery),
        ("has-fragment"@, "Section 4.1 forbids a fragment component"@, "wimse://example.org/a#frag"@, ErrorCode::HasFragment),
        ("has-user-info"@, "Section 4.1 forbids user information"@, "wimse://user@example.org/a"@, ErrorCode::HasUserInfo),
        ("has-port"@, "Section 4.1 forbids a port component"@, "wimse://example.org:8443/a"@, ErrorCode::HasPort),
        ("empty-trust-domain"@, "Section 4.1 requires a non-empty authority"@, "spiffe:///path"@, ErrorCode::EmptyTrustDomain),
        ("uppercase-trust-domain"@, "the authority is case-insensitive, so mixed case is a second spelling"@, "spiffe://Example.org/x"@, ErrorCode::InvalidTrustDomainChar),
        ("trailing-slash"@, "a trailing slash is an empty final segment"@, "spiffe://example.org/x/"@, ErrorCode::EmptyPathSegment),
        ("empty-path-segment"@, "`//` in a path is an empty segment normalization would collapse"@, "spiffe://example.org/x//y"@, ErrorCode::EmptyPathSegment),
        ("dot-segment"@, "`..` is removed by RFC 3986 Section 6 dot-segment removal"@, "spiffe://example.org/a/../b"@, ErrorCode::DotSegment),
        ("encoded-dot-segment"@, "%2E%2E decodes to `..`, so it must not slip past the dot-segment check"@, "wimse://example.org/%2E%2E/api"@, ErrorCode::NonNormalizedPercentEncoding),
        ("encoded-unreserved"@, "%61 decodes to `a`, making this a second spelling of /api"@, "wimse://example.org/%61pi"@, ErrorCode::NonNormalizedPercentEncoding),
        ("lowercase-escape-hex"@, "RFC 3986 Section 6.2.2.1 uppercases the hex digits of an escape"@, "wimse://example.org/a%2fb"@, ErrorCode::NonNormalizedPercentEncoding),
        ("malformed-escape"@, "a percent-escape must be `%` followed by two hex digits"@, "wimse://example.org/a%zz"@, ErrorCode::BadPercentEncoding),
        ("invalid-path-char"@, "a space is outside the pchar set"@, "wimse://example.org/a b"@, ErrorCode::InvalidPathChar),
        ("spiffe-path-charset-is-narrower"@, "`~` is a legal pchar but outside the SPIFFE ID path charset"@, "spiffe://example.org/a~b"@, ErrorCode::InvalidPathChar),
    ]
}

/// An `accept` case records what the parser makes of its identifier.
pub open spec fn accept_sound(c: IdentifierAccept) -> bool {
    spec_parse(c.identifier@) is Ok ==> accept_holds(c)
}

pub open spec fn accept_fields(cases: Seq<IdentifierAccept>) -> Seq<(Seq<char>, Seq<char>, Seq<char>)> {
    cases.map_values(|c: IdentifierAccept| (c.id@, c.description@, c.identifier@))
}

pub open spec fn reject_fields(cases: Seq<IdentifierReject>) -> Seq<(Seq<char>, Seq<char>, Seq<char>, ErrorCode)> {
    cases.map_values(|c: IdentifierReject| (c.id@, c.description@, c.identifier@, c.expect))
}

/// An `accept` case for `identifier`, decomposed by the parser. Where the
/// identifier does not parse, the decomposition is left empty, and a run of
/// the vector reports the case as failed.
fn accept(id: &str, description: &str, identifier: &str) -> (r: IdentifierAccept)
    ensures
        r.id@ == id@,
        r.description@ == description@,
        r.identifier@ == identifier@,
        accept_sound(r),
{
    match WorkloadIdentifier::parse(identifier) {
        Ok(parsed) => IdentifierAccept {
            id: owned(id),
            description: owned(description),
            identifier: owned(identifier),
            scheme: owned(parsed.scheme().as_str()),
            trust_domain: owned(parsed.trust_domain()),
            path: owned(parsed.path()),
            origin: owned(parsed.origin()),
        },
        Err(_) => IdentifierAccept {
            id: owned(id),
            description: owned(description),
            identifier: owned(identifier),
            scheme: owned(""),
            trust_domain: owned(""),
            path: owned(""),
            origin: owned(""),
        },
    }
}

fn reject(id: &str, description: &str, identifier: &str, expect: ErrorCode) -> (r: IdentifierReject)
    ensures
        (r.id@, r.description@, r.identifier@, r.expect) == (id@, description@, identifier@, expect),
{
    IdentifierReject { id: owned(id), description: owned(description), identifier: owned(identifier), expect }
}

/// The workload identifier vector: the identifiers a parser must accept,
/// each with the decomposition this parser gives it, and those it must
/// reject, each with the reason it must report.
pub fn identifier_vector() -> (r: IdentifierVector)
    ensures
        r.header.format@ == FORMAT@,
        r.header.suite@ == "identifier"@,
        r.header.id@ == "parse-basic"@,
        r.header.spec@ == IDENTIFIER_SPEC@,
        r.header.description@
            == "Workload identifier syntax for the spiffe and wimse schemes, plus the inputs a parser must reject"@,
        accept_fields(r.accept@) == identifier_accepts(),
        forall|i: int| 0 <= i < r.accept@.len() ==> accept_sound(#[trigger] r.accept@[i]),
        reject_fields(r.reject@) == identifier_rejects(),
{
    let header: Header = Header {
        format: owned(FORMAT),
        suite: owned("identifier"),
        id: owned("parse-basic"),
        spec: owned(IDENTIFIER_SPEC),
        description: owned(
            "Workload identifier syntax for the spiffe and wimse schemes, plus the inputs a parser must reject",
        ),
    };
    let accept: Vec<IdentifierAccept> = vec![
        accept("spiffe-basic", "the SPIFFE scheme the architecture draft cites as a conforming identifier", "spiffe://example.org/workload/api"),
        accept("wimse-basic", "the wimse scheme defined in Section 4.4", "wimse://trust.example.com/service/payment"),
        accept("trust-domain-only", "the path is optional; an identifier may be a bare trust domain", "spiffe://prod.trust.domain"),
        accept("wimse-pchar-path", "Section 4.4 leaves the wimse path to the generic RFC 3986 pchar set", "wimse://example.org/a~b!c$d&e'f(g)h*i+j,k;l=m:n@o"),
        accept("wimse-encoded-reserved", "a reserved character stays encodable: %2F is a `/` that is data, not a delimiter", "wimse://example.org/a%2Fb"),
        accept("deep-path", "the path may encode structured information within the trust domain", "spiffe://prod.trust.domain/ns/prod-01/sa/foo-service"),
    ];
    let reject: Vec<IdentifierReject> = vec![
        reject("unsupported-scheme", "an https URI is not a workload identifier", "https://example.org/x", ErrorCode::UnsupportedScheme),
        reject("has-query", "Section 4.1 forbids a query component", "wimse://example.org/a?b=c", ErrorCode::HasQuery),
        reject("has-fragment", "Section 4.1 forbids a fragment component", "wimse://example.org/a#frag", ErrorCode::HasFragment),
        reject("has-user-info", "Section 4.1 forbids user information", "wimse://user@example.org/a", ErrorCode::HasUserInfo),
        reject("has-port", "Section 4.1 forbids a port component", "wimse://example.org:8443/a", ErrorCode::HasPort),
        reject("empty-trust-domain", "Section 4.1 requires a non-empty authority", "spiffe:///path", ErrorCode::EmptyTrustDomain),
        reject("uppercase-trust-domain", "the authority is case-insensitive, so mixed case is a second spelling", "spiffe://Example.org/x", ErrorCode::InvalidTrustDomainChar),
        reject("trailing-slash", "a trailing slash is an empty final segment", "spiffe://example.org/x/", ErrorCode::EmptyPathSegment),
        reject("empty-path-segment", "`//` in a path is an empty segment normalization would collapse", "spiffe://example.org/x//y", ErrorCode::EmptyPathSegment),
        reject("dot-segment", "`..` is removed by RFC 3986 Section 6 dot-segment removal", "spiffe://example.org/a/../b", ErrorCode::DotSegment),
        reject("encoded-dot-segment", "%2E%2E decodes to `..`, so it must not slip past the dot-segment check", "wimse://example.org/%2E%2E/api", ErrorCode::NonNormalizedPercentEncoding),
        reject("encoded-unreserved", "%61 decodes to `a`, making this a second spelling of /api", "wimse://example.org/%61pi", ErrorCode::NonNormalizedPercentEncoding),
        reject("lowercase-escape-hex", "RFC 3986 Section 6.2.2.1 uppercases the hex digits of an escape", "wimse://example.org/a%2fb", ErrorCode::NonNormalizedPercentEncoding),
        reject("malformed-escape", "a percent-escape must be `%` followed by two hex digits", "wimse://example.org/a%zz", ErrorCode::BadPercentEncoding),
        reject("invalid-path-char", "a space is outside the pchar set", "wimse://example.org/a b", ErrorCode::InvalidPathChar),
        reject("spiffe-path-charset-is-narrower", "`~` is a legal pchar but outside the SPIFFE ID path charset", "spiffe://example.org/a~b", ErrorCode::InvalidPathChar),
    ];
    assert(accept_fields(accept@) =~= identifier_accepts());
    assert(reject_fields(reject@) =~= identifier_rejects());
    IdentifierVector { header, accept, reject }
}

} // verus!
