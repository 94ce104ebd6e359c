//! Workload Proof Tokens (`draft-ietf-wimse-wpt`): a compact JWS signed with
//! the workload's proof-of-possession key, carrying `aud`, `exp`, `jti` and
//! `wth` (a hash of the bound WIT), and optionally `tth` and `oth` binding
//! the end-user context tokens that accompany the request.
//!
//! The JSON inside the header and claim segments is read by the caller; this
//! module checks what it says: the header, the signature over the segments,
//! and every claim against a [`Validation`].

use vstd::prelude::*;
use vstd::utf8::encode_utf8;

use crate::compact::{
    CompactParts, FrameFailure, HeaderFields, decode_segment, frame_spec, signing_input_spec,
    split_compact, verify_segments,
};
use crate::crypto::{
    b64url_encode, base64url_decoded, base64url_encoded, is_base64url_char, sha256, sha256_digest,
};
use crate::jose::{Algorithm, VerifyingKey, VerifyingKeyView, spec_parse_alg, verifies};
use crate::text::{
    chars_of, owned, push_str, spec_lower_seq, str_eq, string_from_range, to_lower,
};

verus! {

broadcast use vstd::string::group_string_axioms, vstd::slice::group_slice_axioms;

/// The JOSE `typ` of a Workload Proof Token.
pub const TYP: &'static str = "wpt+jwt";

/// The signature algorithm this crate prefers. Not the only one: the proof is
/// produced with whatever the bound WIT's `cnf` JWK names.
pub const ALG: &'static str = "EdDSA";

/// Why a proof was refused, as a value.
pub enum WptFailure {
    MalformedToken,
    TokenTooLong,
    Base64,
    Json(Seq<char>),
    WrongType(Seq<char>),
    UnsupportedAlg(Seq<char>),
    AlgorithmMismatch,
    UnsupportedCritical,
    InvalidSignature,
    Expired,
    AudienceMismatch,
    WitBindingMismatch,
    TxnTokenBindingMismatch,
    OtherTokenBindingMismatch(Seq<char>),
    AccessTokenBindingMismatch,
    LifetimeTooLong,
}

/// An error returned while issuing or verifying a Workload Proof Token.
#[derive(Debug, Clone, PartialEq, Eq)]
pub enum WptError {
    /// The compact serialization did not have exactly three parts, or a part
    /// was not the expected size.
    MalformedToken,
    /// The token is larger than the accepted maximum.
    TokenTooLong,
    /// A Base64url component could not be decoded.
    Base64,
    /// A JSON component could not be parsed or serialized.
    Json(String),
    /// The JOSE header `typ` was not `wpt+jwt`.
    WrongType {
        /// The `typ` value that was found.
        found: String,
    },
    /// The JOSE header `alg` was not a supported algorithm.
    UnsupportedAlg {
        /// The `alg` value that was found.
        found: String,
    },
    /// The header named an algorithm other than the proof-of-possession key's.
    AlgorithmMismatch,
    /// The JOSE header marked an extension critical (RFC 7515 Section 4.1.11).
    UnsupportedCritical,
    /// The signature did not verify against the confirmation key.
    InvalidSignature,
    /// The proof has expired.
    Expired,
    /// The `aud` claim did not match the expected audience.
    AudienceMismatch,
    /// The `wth` claim did not match the hash of the presented WIT.
    WitBindingMismatch,
    /// The `tth` claim and the presented Txn-Token did not agree.
    TxnTokenBindingMismatch,
    /// An `oth` entry named a context token the request did not carry, or one
    /// whose hash did not match.
    OtherTokenBindingMismatch {
        /// The header field name the entry is keyed by.
        name: String,
    },
    /// The `ath` claim and the presented access token did not agree.
    AccessTokenBindingMismatch,
    /// The proof's remaining lifetime exceeds the configured maximum.
    LifetimeTooLong,
}

impl View for WptError {
    type V = WptFailure;

    open spec fn view(&self) -> WptFailure {
        match self {
            WptError::MalformedToken => WptFailure::MalformedToken,
            WptError::TokenTooLong => WptFailure::TokenTooLong,
            WptError::Base64 => WptFailure::Base64,
            WptError::Json(s) => WptFailure::Json(s@),
            WptError::WrongType { found } => WptFailure::WrongType(found@),
            WptError::UnsupportedAlg { found } => WptFailure::UnsupportedAlg(found@),
            WptError::AlgorithmMismatch => WptFailure::AlgorithmMismatch,
            WptError::UnsupportedCritical => WptFailure::UnsupportedCritical,
            WptError::InvalidSignature => WptFailure::InvalidSignature,
            WptError::Expired => WptFailure::Expired,
            WptError::AudienceMismatch => WptFailure::AudienceMismatch,
            WptError::WitBindingMismatch => WptFailure::WitBindingMismatch,
            WptError::TxnTokenBindingMismatch => WptFailure::TxnTokenBindingMismatch,
            WptError::OtherTokenBindingMismatch { name } => WptFailure::OtherTokenBindingMismatch(
                name@,
            ),
            WptError::AccessTokenBindingMismatch => WptFailure::AccessTokenBindingMismatch,
            WptError::LifetimeTooLong => WptFailure::LifetimeTooLong,
        }
    }
}

/// The message a [`WptError`] is reported with.
pub open spec fn wpt_message(e: WptError) -> Seq<char> {
    match e {
        WptError::MalformedToken => "malformed token"@,
        WptError::TokenTooLong => "token exceeds the maximum accepted size"@,
        WptError::Base64 => "invalid base64url"@,
        WptError::Json(s) => "invalid json: "@ + s@,
        WptError::WrongType { found } => "unexpected token type `"@ + found@ + "`, expected `wpt+jwt`"@,
        WptError::UnsupportedAlg { found } => "unsupported algorithm `"@ + found@ + "`, expected `EdDSA` or `ES256`"@,
        WptError::AlgorithmMismatch => "the proof's `alg` does not match the verifying key's algorithm"@,
        WptError::UnsupportedCritical => "unsupported critical header parameter(s)"@,
        WptError::InvalidSignature => "signature verification failed"@,
        WptError::Expired => "proof has expired"@,
        WptError::AudienceMismatch => "audience mismatch"@,
        WptError::WitBindingMismatch => "WIT binding mismatch"@,
        WptError::TxnTokenBindingMismatch => "Txn-Token binding mismatch"@,
        WptError::OtherTokenBindingMismatch { name } => "binding mismatch for the `"@ + name@ + "` token"@,
        WptError::AccessTokenBindingMismatch => "access token binding mismatch"@,
        WptError::LifetimeTooLong => "proof lifetime exceeds the configured maximum"@,
    }
}

impl WptError {
    /// The message this error is reported with.
    pub fn message(&self) -> (r: String)
        ensures
            r@ == wpt_message(*self),
    {
        match self {
            WptError::MalformedToken => owned("malformed token"),
            WptError::TokenTooLong => owned("token exceeds the maximum accepted size"),
            WptError::Base64 => owned("invalid base64url"),
            WptError::Json(s) => {
                let mut m: String = owned("invalid json: ");
                push_str(&mut m, s.as_str());
                m
            },
            WptError::WrongType { found } => {
                let mut m: String = owned("unexpected token type `");
                push_str(&mut m, found.as_str());
                push_str(&mut m, "`, expected `wpt+jwt`");
                m
            },
            WptError::UnsupportedAlg { found } => {
                let mut m: String = owned("unsupported algorithm `");
                push_str(&mut m, found.as_str());
                push_str(&mut m, "`, expected `EdDSA` or `ES256`");
                m
            },
            WptError::AlgorithmMismatch => owned("the proof's `alg` does not match the verifying key's algorithm"),
            WptError::UnsupportedCritical => owned("unsupported critical header parameter(s)"),
            WptError::InvalidSignature => owned("signature verification failed"),
            WptError::Expired => owned("proof has expired"),
            WptError::AudienceMismatch => owned("audience mismatch"),
            WptError::WitBindingMismatch => owned("WIT binding mismatch"),
            WptError::TxnTokenBindingMismatch => owned("Txn-Token binding mismatch"),
            WptError::OtherTokenBindingMismatch { name } => {
                let mut m: String = owned("binding mismatch for the `");
                push_str(&mut m, name.as_str());
                push_str(&mut m, "` token");
                m
            },
            WptError::AccessTokenBindingMismatch => owned("access token binding mismatch"),
            WptError::LifetimeTooLong => owned("proof lifetime exceeds the configured maximum"),
        }
    }
}

pub open spec fn unit_result(r: Result<(), WptError>) -> Result<(), WptFailure> {
    match r {
        Ok(()) => Ok(()),
        Err(e) => Err(e@),
    }
}

// ---------------------------------------------------------------------------
// Thumbprints.
// ---------------------------------------------------------------------------

/// The Base64url-encoded SHA-256 hash of a token's value, as the `wth`,
/// `tth` and `oth` claims carry it.
pub open spec fn thumbprint(value: Seq<char>) -> Seq<char> {
    base64url_encoded(sha256_digest(encode_utf8(value)))
}

/// The form of every thumbprint: 43 Base64url characters, the unpadded
/// encoding of a 32-byte digest.
pub open spec fn thumbprint_shaped(t: Seq<char>) -> bool {
    t.len() == 43 && forall|i: int| 0 <= i < t.len() ==> is_base64url_char(#[trigger] t[i])
}

fn sha256_b64u(value: &str) -> (r: String)
    ensures
        r@ == thumbprint(value@),
        thumbprint_shaped(r@),
{
    let digest: [u8; 32] = sha256(value.as_bytes());
    b64url_encode(&digest)
}

/// The `wth` value for a WIT: the Base64url-encoded SHA-256 hash of the WIT's
/// ASCII value.
pub fn wit_thumbprint(wit: &str) -> (r: String)
    ensures
        r@ == thumbprint(wit@),
        thumbprint_shaped(r@),
{
    sha256_b64u(wit)
}

/// The `tth` value for a Txn-Token: the Base64url-encoded SHA-256 hash of the
/// token's ASCII value.
pub fn txn_token_thumbprint(txn_token: &str) -> (r: String)
    ensures
        r@ == thumbprint(txn_token@),
        thumbprint_shaped(r@),
{
    sha256_b64u(txn_token)
}

/// `s` without leading and trailing ASCII spaces (`str::trim_matches(' ')`).
pub open spec fn trim_spaces(s: Seq<char>) -> Seq<char>
    decreases s.len(),
{
    if s.len() > 0 && s[0] == ' ' {
        trim_spaces(s.drop_first())
    } else if s.len() > 0 && s.last() == ' ' {
        trim_spaces(s.drop_last())
    } else {
        s
    }
}

proof fn lemma_trim_spaces_window(s: Seq<char>, a: int, b: int)
    requires
        0 <= a <= b <= s.len(),
        forall|i: int| 0 <= i < a ==> s[i] == ' ',
        forall|i: int| b <= i < s.len() ==> s[i] == ' ',
        a < b ==> s[a] != ' ' && s[b - 1] != ' ',
    ensures
        trim_spaces(s) == s.subrange(a, b),
    decreases s.len(),
{
    if s.len() > 0 && s[0] == ' ' {
        if a == 0 {
            // Nothing but spaces: the window is empty and at the front.
            assert(b == 0 || s[0] != ' ');
            assert(b == 0);
            lemma_trim_spaces_window(s.drop_first(), 0, 0);
            assert(s.drop_first().subrange(0, 0) =~= s.subrange(a, b));
        } else {
            lemma_trim_spaces_window(s.drop_first(), a - 1, b - 1);
            assert(s.drop_first().subrange(a - 1, b - 1) =~= s.subrange(a, b));
        }
    } else if s.len() > 0 && s.last() == ' ' {
        assert(b < s.len());
        lemma_trim_spaces_window(s.drop_last(), a, b);
        assert(s.drop_last().subrange(a, b) =~= s.subrange(a, b));
    } else {
        if s.len() > 0 {
            assert(a == 0);
            assert(b == s.len());
        } else {
            assert(a == 0 && b == 0);
        }
        assert(s.subrange(a, b) =~= s);
    }
}

fn trim_space_chars(s: &str) -> (r: String)
    ensures
        r@ == trim_spaces(s@),
{
    let v: Vec<char> = chars_of(s);
    let mut a: usize = 0;
    while a < v.len() && v[a] == ' '
        invariant
            a <= v@.len(),
            forall|i: int| 0 <= i < a ==> v@[i] == ' ',
        decreases v@.len() - a,
    {
        a = a + 1;
    }
    let mut b: usize = v.len();
    while b > a && v[b - 1] == ' '
        invariant
            a <= b <= v@.len(),
            forall|i: int| b <= i < v@.len() ==> v@[i] == ' ',
        decreases b,
    {
        b = b - 1;
    }
    proof {
        lemma_trim_spaces_window(v@, a as int, b as int);
    }
    string_from_range(&v, a, b)
}

/// An `oth` entry for a context token carried in an HTTP header field: the
/// lowercased field name and the hash of the field value with leading and
/// trailing spaces removed (draft Section 2).
pub fn other_token_entry(header_name: &str, header_value: &str) -> (r: (String, String))
    ensures
        r.0@ == spec_lower_seq(header_name@),
        r.1@ == thumbprint(trim_spaces(header_value@)),
        thumbprint_shaped(r.1@),
{
    let trimmed: String = trim_space_chars(header_value);
    (to_lower(header_name), sha256_b64u(trimmed.as_str()))
}

// ---------------------------------------------------------------------------
// Claims and validation.
// ---------------------------------------------------------------------------

/// The claims of a Workload Proof Token.
///
/// `aud`, `exp`, `jti` and `wth` are mandatory. `tth` and `oth` bind tokens
/// that convey end-user identity or authorization context, each mandatory
/// exactly when the corresponding token is in the request. `oth` is keyed by
/// lowercased header field name, in key order.
#[derive(Debug, Clone, PartialEq, Eq)]
pub struct WptClaims {
    /// The audience: the HTTP target URI of the request, without query or
    /// fragment.
    pub aud: String,
    /// Expiry time, in seconds since the Unix epoch.
    pub exp: u64,
    /// A unique proof identifier, for replay detection by the recipient.
    pub jti: String,
    /// The Base64url-encoded SHA-256 hash of the bound WIT.
    pub wth: String,
    /// The hash of an accompanying Txn-Token, if one is in the request.
    pub tth: Option<String>,
    /// Hashes of other context tokens, keyed by lowercased header name.
    pub oth: Option<Vec<(String, String)>>,
}

/// Header pairs, by value.
pub open spec fn pairs_view(v: Seq<(String, String)>) -> Seq<(Seq<char>, Seq<char>)> {
    v.map_values(|p: (String, String)| (p.0@, p.1@))
}

/// Claims, by value.
pub struct ClaimsView {
    pub aud: Seq<char>,
    pub exp: u64,
    pub jti: Seq<char>,
    pub wth: Seq<char>,
    pub tth: Option<Seq<char>>,
    pub oth: Option<Seq<(Seq<char>, Seq<char>)>>,
}

impl View for WptClaims {
    type V = ClaimsView;

    open spec fn view(&self) -> ClaimsView {
        ClaimsView {
            aud: self.aud@,
            exp: self.exp,
            jti: self.jti@,
            wth: self.wth@,
            tth: crate::jose::opt_view(self.tth),
            oth: match self.oth {
                Some(v) => Some(pairs_view(v@)),
                None => None,
            },
        }
    }
}

/// A WPT whose signature, audience, time and bindings have been verified.
#[derive(Debug, Clone)]
pub struct VerifiedWpt {
    /// The verified claim set.
    pub claims: WptClaims,
}

/// Parameters controlling WPT verification.
///
/// A proof is only meaningful against a specific audience and a specific
/// WIT, so both are required; `now` is injected for deterministic time
/// checks.
#[derive(Debug, Clone)]
pub struct Validation<'a> {
    /// The current time, in seconds since the Unix epoch.
    pub now: u64,
    /// Clock-skew tolerance, in seconds, applied to `exp`.
    pub leeway: u64,
    /// The audience the proof must be addressed to.
    pub audience: &'a str,
    /// The WIT value the proof must be bound to (its `wth`).
    pub wit: &'a str,
    /// The Txn-Token accompanying the request, if any.
    pub txn_token: Option<&'a str>,
    /// Other context tokens the request carried, as raw header field values
    /// keyed by lowercased field name. [`Validation::with_other_token`] keeps
    /// one entry per name; were a name listed twice, the later entry would
    /// count.
    pub other_tokens: Vec<(String, &'a str)>,
    /// If set, the proof's remaining lifetime (`exp - now`) must not exceed
    /// this many seconds.
    pub max_lifetime: Option<u64>,
}

/// A validation, by value.
pub struct ValidationView {
    pub now: u64,
    pub leeway: u64,
    pub audience: Seq<char>,
    pub wit: Seq<char>,
    pub txn_token: Option<Seq<char>>,
    pub other_tokens: Seq<(Seq<char>, Seq<char>)>,
    pub max_lifetime: Option<u64>,
}

impl<'a> View for Validation<'a> {
    type V = ValidationView;

    open spec fn view(&self) -> ValidationView {
        ValidationView {
            now: self.now,
            leeway: self.leeway,
            audience: self.audience@,
            wit: self.wit@,
            txn_token: match self.txn_token {
                Some(t) => Some(t@),
                None => None,
            },
            other_tokens: self.other_tokens@.map_values(|p: (String, &'a str)| (p.0@, p.1@)),
            max_lifetime: self.max_lifetime,
        }
    }
}

impl<'a> Validation<'a> {
    /// A validation for `audience` and `wit` at time `now`, with no clock-skew
    /// tolerance, no context-token bindings and no lifetime cap.
    pub fn new(now: u64, audience: &'a str, wit: &'a str) -> (r: Validation<'a>)
        ensures
            r@ == (ValidationView {
                now,
                leeway: 0,
                audience: audience@,
                wit: wit@,
                txn_token: None,
                other_tokens: seq![],
                max_lifetime: None,
            }),
    {
        let r = Validation {
            now,
            leeway: 0,
            audience,
            wit,
            txn_token: None,
            other_tokens: Vec::new(),
            max_lifetime: None,
        };
        assert(r@.other_tokens =~= Seq::<(Seq<char>, Seq<char>)>::empty());
        r
    }

    /// Sets the clock-skew tolerance, in seconds.
    pub fn with_leeway(self, leeway: u64) -> (r: Validation<'a>)
        ensures
            r@ == (ValidationView { leeway, ..self@ }),
    {
        let mut r = self;
        r.leeway = leeway;
        r
    }

    /// Requires the proof to be bound (via `tth`) to `txn_token`.
    pub fn with_txn_token(self, txn_token: &'a str) -> (r: Validation<'a>)
        ensures
            r@ == (ValidationView { txn_token: Some(txn_token@), ..self@ }),
    {
        let mut r = self;
        r.txn_token = Some(txn_token);
        r
    }

    /// Records a context token the request carried, under its lowercased
    /// header name, replacing any token recorded under that name before.
    pub fn with_other_token(self, header_name: &str, header_value: &'a str) -> (r: Validation<'a>)
        ensures
            r@ == (ValidationView {
                other_tokens: recorded(self@.other_tokens, spec_lower_seq(header_name@), header_value@),
                ..self@
            }),
    {
        let name: String = to_lower(header_name);
        let ghost n: Seq<char> = name@;
        let ghost old_view: Seq<(Seq<char>, Seq<char>)> = self@.other_tokens;
        let Validation { now, leeway, audience, wit, txn_token, other_tokens, max_lifetime } = self;
        let entries: Vec<(String, &'a str)> = other_tokens;
        assert(entries@.map_values(|p: (String, &'a str)| (p.0@, p.1@)) == old_view);
        let mut kept: Vec<(String, &'a str)> = Vec::new();
        let mut i: usize = 0;
        while i < entries.len()
            invariant
                i <= entries@.len(),
                n == name@,
                old_view == entries@.map_values(|p: (String, &'a str)| (p.0@, p.1@)),
                kept@.map_values(|p: (String, &'a str)| (p.0@, p.1@)) == without(
                    old_view.take(i as int),
                    n,
                ),
            decreases entries@.len() - i,
        {
            let ghost before: Seq<(Seq<char>, Seq<char>)> = kept@.map_values(
                |p: (String, &'a str)| (p.0@, p.1@),
            );
            assert(old_view.take(i + 1).drop_last() =~= old_view.take(i as int));
            assert(old_view.take(i + 1).last() == old_view[i as int]);
            if !str_eq(entries[i].0.as_str(), name.as_str()) {
                kept.push((owned(entries[i].0.as_str()), entries[i].1));
                assert(kept@.map_values(|p: (String, &'a str)| (p.0@, p.1@)) =~= before.push(
                    old_view[i as int],
                ));
            }
            i = i + 1;
        }
        assert(old_view.take(entries@.len() as int) =~= old_view);
        let ghost base: Seq<(Seq<char>, Seq<char>)> = kept@.map_values(
            |p: (String, &'a str)| (p.0@, p.1@),
        );
        kept.push((name, header_value));
        assert(kept@.map_values(|p: (String, &'a str)| (p.0@, p.1@)) =~= base.push(
            (n, header_value@),
        ));
        Validation { now, leeway, audience, wit, txn_token, other_tokens: kept, max_lifetime }
    }

    /// Rejects proofs whose remaining lifetime exceeds `seconds`.
    pub fn with_max_lifetime(self, seconds: u64) -> (r: Validation<'a>)
        ensures
            r@ == (ValidationView { max_lifetime: Some(seconds), ..self@ }),
    {
        let mut r = self;
        r.max_lifetime = Some(seconds);
        r
    }
}

// ---------------------------------------------------------------------------
// Checks.
// ---------------------------------------------------------------------------

/// The header rules: `typ` pinned, a supported `alg` that is the
/// proof-of-possession key's, and no critical extensions.
pub open spec fn header_check(typ: Seq<char>, alg: Seq<char>, has_crit: bool, key: VerifyingKeyView) -> Result<
    (),
    WptFailure,
> {
    if typ != TYP@ {
        Err(WptFailure::WrongType(typ))
    } else {
        match spec_parse_alg(alg) {
            Err(_) => Err(WptFailure::UnsupportedAlg(alg)),
            Ok(a) => if a != key.alg {
                Err(WptFailure::AlgorithmMismatch)
            } else if has_crit {
                Err(WptFailure::UnsupportedCritical)
            } else {
                Ok(())
            },
        }
    }
}

/// Checks the decoded JOSE header of a proof against the key it must verify
/// under.
pub fn check_header(typ: &str, alg: &str, has_crit: bool, pop_key: &VerifyingKey) -> (r: Result<
    (),
    WptError,
>)
    ensures
        unit_result(r) == header_check(typ@, alg@, has_crit, pop_key@),
{
    // `typ` is pinned to the exact draft value.
    if !str_eq(typ, TYP) {
        return Err(WptError::WrongType { found: owned(typ) });
    }
    // The proof must be produced with the algorithm the WIT's `cnf` JWK names,
    // and `pop_key` came out of that JWK.
    match Algorithm::parse(alg) {
        Err(_) => Err(WptError::UnsupportedAlg { found: owned(alg) }),
        Ok(a) => {
            if a != pop_key.algorithm() {
                Err(WptError::AlgorithmMismatch)
            } else if has_crit {
                Err(WptError::UnsupportedCritical)
            } else {
                Ok(())
            }
        },
    }
}

/// The signature rule: the third segment decodes to exactly 64 bytes that
/// verify over the first two.
pub open spec fn signature_check(header: Seq<char>, claims: Seq<char>, signature: Seq<char>, key: VerifyingKeyView) -> Result<
    (),
    WptFailure,
> {
    match base64url_decoded(signature) {
        None => Err(WptFailure::MalformedToken),
        Some(sig) => if sig.len() != 64 {
            Err(WptFailure::MalformedToken)
        } else if !verifies(key, encode_utf8(signing_input_spec(header, claims)), sig) {
            Err(WptFailure::InvalidSignature)
        } else {
            Ok(())
        },
    }
}

/// Checks the signature segment of a proof under the proof-of-possession key.
pub fn check_signature(parts: &CompactParts, pop_key: &VerifyingKey) -> (r: Result<(), WptError>)
    ensures
        unit_result(r) == signature_check(
            parts.header@,
            parts.claims@,
            parts.signature@,
            pop_key@,
        ),
{
    let sig: Vec<u8> = match decode_segment(parts.signature.as_str()) {
        Some(s) => s,
        None => return Err(WptError::MalformedToken),
    };
    if sig.len() != 64 {
        return Err(WptError::MalformedToken);
    }
    if !verify_segments(parts.header.as_str(), parts.claims.as_str(), sig.as_slice(), pop_key) {
        return Err(WptError::InvalidSignature);
    }
    Ok(())
}

/// The token the request carried under `name`, the last one given winning.
pub open spec fn presented(others: Seq<(Seq<char>, Seq<char>)>, name: Seq<char>) -> Option<Seq<char>>
    decreases others.len(),
{
    if others.len() == 0 {
        None
    } else if others.last().0 == name {
        Some(others.last().1)
    } else {
        presented(others.drop_last(), name)
    }
}

/// `others` without the entries recorded under `name`.
pub open spec fn without(others: Seq<(Seq<char>, Seq<char>)>, name: Seq<char>) -> Seq<
    (Seq<char>, Seq<char>),
>
    decreases others.len(),
{
    if others.len() == 0 {
        others
    } else if others.last().0 == name {
        without(others.drop_last(), name)
    } else {
        without(others.drop_last(), name).push(others.last())
    }
}

/// The context tokens after `value` is recorded under `name`: any earlier
/// entry for `name` is dropped and the new one comes last.
pub open spec fn recorded(others: Seq<(Seq<char>, Seq<char>)>, name: Seq<char>, value: Seq<char>) -> Seq<
    (Seq<char>, Seq<char>),
> {
    without(others, name).push((name, value))
}

/// No header name is recorded twice.
pub open spec fn names_distinct(others: Seq<(Seq<char>, Seq<char>)>) -> bool {
    forall|i: int, j: int|
        0 <= i < j < others.len() ==> (#[trigger] others[i]).0 != (#[trigger] others[j]).0
}

proof fn lemma_without(others: Seq<(Seq<char>, Seq<char>)>, name: Seq<char>, other: Seq<char>)
    ensures
        presented(without(others, name), name) is None,
        other != name ==> presented(without(others, name), other) == presented(others, other),
        forall|i: int|
            0 <= i < without(others, name).len() ==> (#[trigger] without(others, name)[i]).0
                != name && exists|j: int| 0 <= j < others.len() && others[j] == without(others, name)[i],
        names_distinct(others) ==> names_distinct(without(others, name)),
    decreases others.len(),
{
    if others.len() > 0 {
        let init = others.drop_last();
        lemma_without(init, name, other);
        let w = without(init, name);
        if others.last().0 != name {
            let wp = w.push(others.last());
            assert(wp.drop_last() =~= w);
            assert forall|i: int| 0 <= i < wp.len() implies (#[trigger] wp[i]).0 != name
                && exists|j: int| 0 <= j < others.len() && others[j] == wp[i] by {
                if i < w.len() {
                    let j = choose|j: int| 0 <= j < init.len() && init[j] == w[i];
                    assert(others[j] == wp[i]);
                } else {
                    assert(others[others.len() - 1] == wp[i]);
                }
            }
            if names_distinct(others) {
                assert forall|i: int, k: int| 0 <= i < k < wp.len() implies (#[trigger] wp[i]).0
                    != (#[trigger] wp[k]).0 by {
                    if k < w.len() {
                        assert(init[0] == others[0]);
                        assert(names_distinct(init)) by {
                            assert forall|a: int, b: int| 0 <= a < b < init.len() implies (
                            #[trigger] init[a]).0 != (#[trigger] init[b]).0 by {
                                assert(init[a] == others[a] && init[b] == others[b]);
                            }
                        }
                    } else {
                        let j = choose|j: int| 0 <= j < init.len() && init[j] == w[i];
                        assert(others[j] == init[j]);
                        assert(others[j] == wp[i]);
                        assert(wp[k] == others[others.len() - 1]);
                    }
                }
            }
        } else {
            if names_distinct(others) {
                assert(names_distinct(init)) by {
                    assert forall|a: int, b: int| 0 <= a < b < init.len() implies (
                    #[trigger] init[a]).0 != (#[trigger] init[b]).0 by {
                        assert(init[a] == others[a] && init[b] == others[b]);
                    }
                }
            }
            assert forall|i: int| 0 <= i < w.len() implies (#[trigger] w[i]).0 != name
                && exists|j: int| 0 <= j < others.len() && others[j] == w[i] by {
                let j = choose|j: int| 0 <= j < init.len() && init[j] == w[i];
                assert(others[j] == init[j]);
            }
        }
    }
}

/// Recording a context token works as a map keyed by header name: the name
/// just recorded looks up the value just given, every other name looks up
/// what it did before, and no name is ever recorded twice.
pub proof fn lemma_other_tokens_map(
    others: Seq<(Seq<char>, Seq<char>)>,
    name: Seq<char>,
    value: Seq<char>,
    other: Seq<char>,
)
    ensures
        presented(recorded(others, name, value), name) == Some(value),
        other != name ==> presented(recorded(others, name, value), other) == presented(
            others,
            other,
        ),
        names_distinct(others) ==> names_distinct(recorded(others, name, value)),
{
    lemma_without(others, name, other);
    let w = without(others, name);
    let r = recorded(others, name, value);
    assert(r.drop_last() =~= w);
    if names_distinct(others) {
        assert forall|i: int, k: int| 0 <= i < k < r.len() implies (#[trigger] r[i]).0
            != (#[trigger] r[k]).0 by {
            if k < w.len() {
                assert(r[i] == w[i] && r[k] == w[k]);
            } else {
                assert(r[i] == w[i]);
            }
        }
    }
}

/// Every `oth` entry names a token the request carried and hashes to it; the
/// first that does not is reported.
pub open spec fn oth_check(entries: Seq<(Seq<char>, Seq<char>)>, others: Seq<(Seq<char>, Seq<char>)>) -> Result<
    (),
    WptFailure,
>
    decreases entries.len(),
{
    if entries.len() == 0 {
        Ok(())
    } else {
        match oth_check(entries.drop_last(), others) {
            Err(e) => Err(e),
            Ok(_) => {
                let name = entries.last().0;
                match presented(others, name) {
                    None => Err(WptFailure::OtherTokenBindingMismatch(name)),
                    Some(v) => if entries.last().1 != thumbprint(trim_spaces(v)) {
                        Err(WptFailure::OtherTokenBindingMismatch(name))
                    } else {
                        Ok(())
                    },
                }
            },
        }
    }
}

/// `a + b`, saturating at `u64::MAX`.
pub open spec fn sat_add(a: u64, b: u64) -> u64 {
    if a + b > u64::MAX {
        u64::MAX
    } else {
        (a + b) as u64
    }
}

/// `a - b`, saturating at zero.
pub open spec fn sat_sub(a: u64, b: u64) -> u64 {
    if a >= b {
        (a - b) as u64
    } else {
        0
    }
}

/// The claim rules, in order: expiry (strictly before `exp`, RFC 7519), the
/// lifetime cap, the audience, the WIT binding, the Txn-Token binding, and
/// every context-token binding.
pub open spec fn claims_check(c: ClaimsView, v: ValidationView) -> Result<(), WptFailure> {
    if v.now >= sat_add(c.exp, v.leeway) {
        Err(WptFailure::Expired)
    } else if v.max_lifetime is Some && sat_sub(c.exp, v.now) > v.max_lifetime->0 {
        Err(WptFailure::LifetimeTooLong)
    } else if c.aud != v.audience {
        Err(WptFailure::AudienceMismatch)
    } else if c.wth != thumbprint(v.wit) {
        Err(WptFailure::WitBindingMismatch)
    } else if !(match (v.txn_token, c.tth) {
        (None, None) => true,
        (Some(t), Some(h)) => h == thumbprint(t),
        _ => false,
    }) {
        Err(WptFailure::TxnTokenBindingMismatch)
    } else {
        match c.oth {
            None => Ok(()),
            Some(entries) => oth_check(entries, v.other_tokens),
        }
    }
}

fn lookup<'a>(others: &Vec<(String, &'a str)>, name: &str) -> (r: Option<&'a str>)
    ensures
        match r {
            Some(v) => presented(others@.map_values(|p: (String, &'a str)| (p.0@, p.1@)), name@)
                == Some(v@),
            None => presented(others@.map_values(|p: (String, &'a str)| (p.0@, p.1@)), name@)
                is None,
        },
{
    let ghost ov: Seq<(Seq<char>, Seq<char>)> = others@.map_values(
        |p: (String, &'a str)| (p.0@, p.1@),
    );
    let mut i: usize = others.len();
    assert(ov.take(i as int) =~= ov);
    while i > 0
        invariant
            i <= others@.len(),
            ov == others@.map_values(|p: (String, &'a str)| (p.0@, p.1@)),
            presented(ov, name@) == presented(ov.take(i as int), name@),
        decreases i,
    {
        assert(ov.take(i as int).drop_last() =~= ov.take(i - 1));
        assert(ov.take(i as int).last() == ov[i - 1]);
        if str_eq(others[i - 1].0.as_str(), name) {
            return Some(others[i - 1].1);
        }
        i = i - 1;
    }
    assert(ov.take(0) =~= Seq::<(Seq<char>, Seq<char>)>::empty());
    None
}

fn check_oth<'a>(entries: &Vec<(String, String)>, others: &Vec<(String, &'a str)>) -> (r: Result<
    (),
    WptError,
>)
    ensures
        unit_result(r) == oth_check(
            pairs_view(entries@),
            others@.map_values(|p: (String, &'a str)| (p.0@, p.1@)),
        ),
{
    let ghost ev: Seq<(Seq<char>, Seq<char>)> = pairs_view(entries@);
    let ghost ov: Seq<(Seq<char>, Seq<char>)> = others@.map_values(
        |p: (String, &'a str)| (p.0@, p.1@),
    );
    let mut i: usize = 0;
    assert(ev.take(0) =~= Seq::<(Seq<char>, Seq<char>)>::empty());
    while i < entries.len()
        invariant
            i <= entries@.len(),
            ev == pairs_view(entries@),
            ov == others@.map_values(|p: (String, &'a str)| (p.0@, p.1@)),
            oth_check(ev.take(i as int), ov) == Ok::<(), WptFailure>(()),
        decreases entries@.len() - i,
    {
        assert(ev.take(i + 1).drop_last() =~= ev.take(i as int));
        assert(ev.take(i + 1).last() == ev[i as int]);
        let (name, hash) = &entries[i];
        let ok: bool = match lookup(others, name.as_str()) {
            None => false,
            Some(value) => {
                let (_, expected) = other_token_entry(name.as_str(), value);
                str_eq(hash.as_str(), expected.as_str())
            },
        };
        if !ok {
            proof {
                lemma_oth_err(ev, ov, i + 1, ev.len() as int);
                assert(ev.take(ev.len() as int) =~= ev);
            }
            return Err(WptError::OtherTokenBindingMismatch { name: name.clone() });
        }
        i = i + 1;
    }
    assert(ev.take(ev.len() as int) =~= ev);
    Ok(())
}

proof fn lemma_oth_err(
    es: Seq<(Seq<char>, Seq<char>)>,
    os: Seq<(Seq<char>, Seq<char>)>,
    i: int,
    j: int,
)
    requires
        0 <= i <= j <= es.len(),
        oth_check(es.take(i), os) is Err,
    ensures
        oth_check(es.take(j), os) == oth_check(es.take(i), os),
    decreases j - i,
{
    if i < j {
        lemma_oth_err(es, os, i, j - 1);
        assert(es.take(j).drop_last() =~= es.take(j - 1));
    }
}

fn saturating_add(a: u64, b: u64) -> (r: u64)
    ensures
        r == sat_add(a, b),
{
    if a > u64::MAX - b {
        u64::MAX
    } else {
        a + b
    }
}

/// Checks a proof's claims against `validation`: expiry, the lifetime cap,
/// the audience, and the WIT, Txn-Token and context-token bindings, reporting
/// the first that fails.
///
/// A context token the request carried that `oth` does not name is left
/// unbound rather than rejected; the caller must not rely on it.
pub fn check_claims(claims: &WptClaims, validation: &Validation) -> (r: Result<(), WptError>)
    ensures
        unit_result(r) == claims_check(claims@, validation@),
{
    // Per RFC 7519 the current time must be strictly before `exp`.
    if validation.now >= saturating_add(claims.exp, validation.leeway) {
        return Err(WptError::Expired);
    }
    match validation.max_lifetime {
        Some(max) => {
            let remaining: u64 = if claims.exp >= validation.now {
                claims.exp - validation.now
            } else {
                0
            };
            if remaining > max {
                return Err(WptError::LifetimeTooLong);
            }
        },
        None => {},
    }
    if !str_eq(claims.aud.as_str(), validation.audience) {
        return Err(WptError::AudienceMismatch);
    }
    let wth: String = wit_thumbprint(validation.wit);
    if !str_eq(claims.wth.as_str(), wth.as_str()) {
        return Err(WptError::WitBindingMismatch);
    }
    // `tth` must be present exactly when a Txn-Token is, and hash to it.
    let bound: bool = match (validation.txn_token, &claims.tth) {
        (None, None) => true,
        (Some(txn_token), Some(tth)) => {
            let expected: String = txn_token_thumbprint(txn_token);
            str_eq(tth.as_str(), expected.as_str())
        },
        _ => false,
    };
    if !bound {
        return Err(WptError::TxnTokenBindingMismatch);
    }
    match &claims.oth {
        None => Ok(()),
        Some(entries) => check_oth(entries, &validation.other_tokens),
    }
}


/// What the caller's decoding of the header segment gave, as values.
pub open spec fn header_outcome(h: Result<HeaderFields, WptError>) -> Result<(Seq<char>, Seq<char>, bool), WptFailure> {
    match h {
        Ok(f) => Ok((f.typ@, f.alg@, f.has_crit)),
        Err(e) => Err(e@),
    }
}

/// What the caller's decoding of the claim segment gave, as values.
pub open spec fn claims_outcome(c: Result<WptClaims, WptError>) -> Result<ClaimsView, WptFailure> {
    match c {
        Ok(cl) => Ok(cl@),
        Err(e) => Err(e@),
    }
}

/// Verification of a WPT, in order: the size and structure of `proof`, the
/// decoded header, its `typ`, `alg` and `crit`, the signature, the decoded
/// claim set, then expiry, lifetime, audience and the bindings. The first
/// failure is the answer; on success, the claims.
pub open spec fn verify_spec(
    proof: Seq<char>,
    header: Result<(Seq<char>, Seq<char>, bool), WptFailure>,
    claims: Result<ClaimsView, WptFailure>,
    key: VerifyingKeyView,
    v: ValidationView,
) -> Result<ClaimsView, WptFailure> {
    match frame_spec(proof) {
        Err(FrameFailure::TooLong) => Err(WptFailure::TokenTooLong),
        Err(FrameFailure::Malformed) => Err(WptFailure::MalformedToken),
        Ok((h, c, s)) => match header {
            Err(e) => Err(e),
            Ok((typ, alg, has_crit)) => match header_check(typ, alg, has_crit, key) {
                Err(e) => Err(e),
                Ok(_) => match signature_check(h, c, s, key) {
                    Err(e) => Err(e),
                    Ok(_) => match claims {
                        Err(e) => Err(e),
                        Ok(cl) => match claims_check(cl, v) {
                            Err(e) => Err(e),
                            Ok(_) => Ok(cl),
                        },
                    },
                },
            },
        },
    }
}

/// Verifies a Workload Proof Token against the confirmation key of the WIT
/// it is bound to, given what decoding its header and claim segments gave.
///
/// The segments' JSON is read by the caller; a decoding failure is reported
/// only when verification reaches that segment. This is a stateless check:
/// single use of `jti` is the recipient's to enforce.
pub fn verify_parsed(
    proof: &str,
    header: Result<HeaderFields, WptError>,
    claims: Result<WptClaims, WptError>,
    pop_key: &VerifyingKey,
    validation: &Validation,
) -> (r: Result<VerifiedWpt, WptError>)
    ensures
        match r {
            Ok(w) => verify_spec(
                proof@,
                header_outcome(header),
                claims_outcome(claims),
                pop_key@,
                validation@,
            ) == Ok::<ClaimsView, WptFailure>(w.claims@),
            Err(e) => verify_spec(
                proof@,
                header_outcome(header),
                claims_outcome(claims),
                pop_key@,
                validation@,
            ) == Err::<ClaimsView, WptFailure>(e@),
        },
{
    let parts = match split_compact(proof) {
        Ok(p) => p,
        Err(FrameFailure::TooLong) => return Err(WptError::TokenTooLong),
        Err(FrameFailure::Malformed) => return Err(WptError::MalformedToken),
    };
    let fields = match header {
        Ok(f) => f,
        Err(e) => return Err(e),
    };
    match check_header(fields.typ.as_str(), fields.alg.as_str(), fields.has_crit, pop_key) {
        Ok(_) => {},
        Err(e) => return Err(e),
    }
    match check_signature(&parts, pop_key) {
        Ok(_) => {},
        Err(e) => return Err(e),
    }
    let claims = match claims {
        Ok(c) => c,
        Err(e) => return Err(e),
    };
    match check_claims(&claims, validation) {
        Ok(_) => Ok(VerifiedWpt { claims }),
        Err(e) => Err(e),
    }
}

/// The token-hash bindings decide: a proof that passes the time and audience
/// checks is refused for its WIT binding when `wth` is not the hash of the
/// WIT presented, and otherwise for its Txn-Token binding when `tth` is
/// present without a Txn-Token, missing beside one, or not its hash.
pub proof fn lemma_bindings_refused(c: ClaimsView, v: ValidationView)
    requires
        v.now < sat_add(c.exp, v.leeway),
        v.max_lifetime matches Some(m) ==> sat_sub(c.exp, v.now) <= m,
        c.aud == v.audience,
    ensures
        c.wth != thumbprint(v.wit) ==> claims_check(c, v) == Err::<(), WptFailure>(
            WptFailure::WitBindingMismatch,
        ),
        c.wth == thumbprint(v.wit) && (v.txn_token is Some != c.tth is Some || (v.txn_token
            matches Some(t) && c.tth matches Some(h) && h != thumbprint(t))) ==> claims_check(c, v)
            == Err::<(), WptFailure>(WptFailure::TxnTokenBindingMismatch),
{
}

/// Once a proof's frame, header and signature pass, verification answers
/// exactly what its claim checks answer.
pub proof fn lemma_verify_answers_the_claims(
    proof: Seq<char>,
    header: (Seq<char>, Seq<char>, bool),
    claims: ClaimsView,
    key: VerifyingKeyView,
    v: ValidationView,
)
    requires
        frame_spec(proof) is Ok,
        header_check(header.0, header.1, header.2, key) is Ok,
        signature_check(
            frame_spec(proof)->Ok_0.0,
            frame_spec(proof)->Ok_0.1,
            frame_spec(proof)->Ok_0.2,
            key,
        ) is Ok,
    ensures
        verify_spec(proof, Ok(header), Ok(claims), key, v) == (match claims_check(claims, v) {
            Ok(_) => Ok::<ClaimsView, WptFailure>(claims),
            Err(e) => Err(e),
        }),
{
}

/// The Txn-Token binding: a proof addressed to this audience, bound to this
/// WIT, binding no other context token and within its time limits verifies
/// exactly when it carries no `tth` and no Txn-Token is presented, or carries
/// the hash of the Txn-Token presented; otherwise it is refused for its
/// Txn-Token binding.
pub proof fn lemma_txn_token_binding(c: ClaimsView, v: ValidationView)
    requires
        v.now < sat_add(c.exp, v.leeway),
        v.max_lifetime matches Some(m) ==> sat_sub(c.exp, v.now) <= m,
        c.aud == v.audience,
        c.wth == thumbprint(v.wit),
        c.oth is None,
    ensures
        claims_check(c, v) is Ok <==> ((v.txn_token is None && c.tth is None) || (
        v.txn_token matches Some(t) && c.tth == Some(thumbprint(t)))),
        claims_check(c, v) is Err ==> claims_check(c, v) == Err::<(), WptFailure>(
            WptFailure::TxnTokenBindingMismatch,
        ),
{
}

/// Every `oth` entry is bound: the check passes exactly when, for every
/// entry, the request carried a token under the entry's name and the entry
/// holds that token's hash (spaces around the value ignored); otherwise it
/// names an entry that is not bound.
pub proof fn lemma_every_oth_entry_bound(
    entries: Seq<(Seq<char>, Seq<char>)>,
    others: Seq<(Seq<char>, Seq<char>)>,
)
    ensures
        oth_check(entries, others) is Ok <==> forall|i: int|
            0 <= i < entries.len() ==> (presented(others, #[trigger] entries[i].0) matches Some(v)
                && entries[i].1 == thumbprint(trim_spaces(v))),
        oth_check(entries, others) matches Err(e) ==> exists|i: int|
            0 <= i < entries.len() && !(presented(others, #[trigger] entries[i].0) matches Some(v)
                && entries[i].1 == thumbprint(trim_spaces(v)))
                && e == WptFailure::OtherTokenBindingMismatch(entries[i].0),
    decreases entries.len(),
{
    if entries.len() > 0 {
        let init = entries.drop_last();
        lemma_every_oth_entry_bound(init, others);
        let last = entries.len() - 1;
        assert(entries.last() == entries[last]);
        assert forall|i: int| 0 <= i < init.len() implies init[i] == entries[i] by {}
        if oth_check(init, others) is Ok {
            assert forall|i: int| 0 <= i < last implies (presented(others, #[trigger] entries[i].0) matches Some(v)
                && entries[i].1 == thumbprint(trim_spaces(v))) by {
                assert(init[i] == entries[i]);
            }
        } else {
            let e = oth_check(init, others)->Err_0;
            let i = choose|i: int|
                0 <= i < init.len() && !(presented(others, #[trigger] init[i].0) matches Some(v)
                    && init[i].1 == thumbprint(trim_spaces(v)))
                    && e == WptFailure::OtherTokenBindingMismatch(init[i].0);
            assert(init[i] == entries[i]);
        }
    }
}

/// What an accepted proof satisfies: it has not expired (`now` strictly
/// before `exp` plus the leeway), its remaining lifetime is within any cap,
/// it is addressed to the audience, `wth` is the hash of the WIT presented,
/// `tth` is present exactly when a Txn-Token is and is its hash, and every
/// `oth` entry is bound to a token the request carried.
pub proof fn lemma_accepted_claims(c: ClaimsView, v: ValidationView)
    ensures
        claims_check(c, v) is Ok ==> {
            &&& v.now < c.exp + v.leeway
            &&& v.max_lifetime matches Some(m) ==> c.exp - v.now <= m
            &&& c.aud == v.audience
            &&& c.wth == thumbprint(v.wit)
            &&& (v.txn_token is None <==> c.tth is None)
            &&& v.txn_token matches Some(t) ==> c.tth == Some(thumbprint(t))
            &&& c.oth matches Some(entries) ==> forall|i: int|
                0 <= i < entries.len() ==> (presented(v.other_tokens, #[trigger] entries[i].0) matches Some(p)
                    && entries[i].1 == thumbprint(trim_spaces(p)))
        },
{
    if let Some(entries) = c.oth {
        lemma_every_oth_entry_bound(entries, v.other_tokens);
    }
}

/// A verified proof's claims are the ones read from it, and they meet every
/// claim rule of [`lemma_accepted_claims`] under the validation used.
pub proof fn lemma_verified_proof_claims(
    proof: Seq<char>,
    header: Result<(Seq<char>, Seq<char>, bool), WptFailure>,
    claims: Result<ClaimsView, WptFailure>,
    key: VerifyingKeyView,
    v: ValidationView,
)
    ensures
        verify_spec(proof, header, claims, key, v) matches Ok(c) ==> claims == Ok::<ClaimsView, WptFailure>(c)
            && claims_check(c, v) is Ok,
{
    if let Ok(c) = claims {
        lemma_accepted_claims(c, v);
    }
}

/// A proof whose claims were made for this validation — addressed to its
/// audience, bound to its WIT and Txn-Token (if any), binding no other
/// context token, and not yet expired or longer-lived than allowed — passes
/// every claim check.
pub proof fn lemma_bound_claims_accepted(c: ClaimsView, v: ValidationView)
    requires
        v.now < sat_add(c.exp, v.leeway),
        v.max_lifetime matches Some(m) ==> sat_sub(c.exp, v.now) <= m,
        c.aud == v.audience,
        c.wth == thumbprint(v.wit),
        c.tth == (match v.txn_token {
            Some(t) => Some(thumbprint(t)),
            None => None,
        }),
        c.oth is None,
    ensures
        claims_check(c, v) == Ok::<(), WptFailure>(()),
{
}

/// A context token bound under its lowercased header name is accepted when
/// the request carried it under that name, whatever spaces surround the
/// value.
pub proof fn lemma_context_token_accepted(
    c: ClaimsView,
    v: ValidationView,
    name: Seq<char>,
    value: Seq<char>,
)
    requires
        v.now < sat_add(c.exp, v.leeway),
        v.max_lifetime matches Some(m) ==> sat_sub(c.exp, v.now) <= m,
        c.aud == v.audience,
        c.wth == thumbprint(v.wit),
        c.tth == (match v.txn_token {
            Some(t) => Some(thumbprint(t)),
            None => None,
        }),
        c.oth == Some(seq![(spec_lower_seq(name), thumbprint(trim_spaces(value)))]),
        presented(v.other_tokens, spec_lower_seq(name)) matches Some(p) && trim_spaces(p)
            == trim_spaces(value),
    ensures
        claims_check(c, v) == Ok::<(), WptFailure>(()),
{
    let e = seq![(spec_lower_seq(name), thumbprint(trim_spaces(value)))];
    assert(e.drop_last() =~= Seq::<(Seq<char>, Seq<char>)>::empty());
    assert(oth_check(e.drop_last(), v.other_tokens) == Ok::<(), WptFailure>(()));
    assert(e.last() == (spec_lower_seq(name), thumbprint(trim_spaces(value))));
    assert(oth_check(e, v.other_tokens) == Ok::<(), WptFailure>(()));
}

} // verus!
