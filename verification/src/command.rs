//! What the command line decides when it signs or verifies an HTTP request
//! under the WIMSE profile: which headers the request carries, which
//! components must be covered, the signature parameters, and — on the
//! receiving side — that the WIT the signature covers is the one that was
//! verified and that the body matches its digest.
//!
//! Reading files, the clock and the random source is the caller's; it hands
//! in the bytes, the time and the nonce.

use vstd::prelude::*;

use crate::httpsig::message::{
    content_digest_spec, headers_view, request_component, verify_content_digest,
    content_digest_sha256, Component, ComponentView, HttpRequest, HttpSigError, HttpSigFailure,
    RequestView,
};
use crate::httpsig::params::{components_view, ParamsView, SignatureParams, WIMSE_TAG};
use crate::httpsig::signature::{
    base_lines, base_spec, sign, sign_spec, signed_result, verified_result, verify, verify_spec,
    ConfigView, SignedSignature, VerifiedSignature, VerifyConfig,
};
use crate::input::{
    build_request, checked_label, components_spec, covers_check, ensure_covers, has_header,
    has_header_spec, header_spec, label_spec, mandatory_components, mandatory_spec,
    parse_components, parse_header, request_spec, InputError, InputFailure,
};
use crate::identifier::{spec_parse, ParseError, WorkloadIdentifier};
use crate::jose::{spec_jwk_of, Jwk, SigningKey, VerifyingKey, VerifyingKeyView};
use crate::wit::{Confirmation, WitClaims, WitClaimsView};
use crate::wpt::{thumbprint, wit_thumbprint, ClaimsView, WptClaims};
use crate::text::{owned, str_eq, trim, trim_str};

verus! {

broadcast use vstd::string::group_string_axioms;

/// Why a request could not be signed or verified, as a value.
pub enum CommandFailure {
    Input(InputFailure),
    DigestHeaderConflict,
    WitHeaderConflict,
    EmptyAudience,
    ExpiryOverflow,
    WitHeaderMissing,
    WitHeaderMismatch,
    DigestHeaderMissing,
    DigestMismatch,
    Signature(HttpSigFailure),
    Identifier(ParseError),
}

/// Why the command line refuses to sign or verify a request.
#[derive(Debug, Clone, PartialEq, Eq)]
pub enum CommandError {
    /// An argument is malformed.
    Input(InputError),
    /// A `Content-Digest` header was given together with a body to digest.
    DigestHeaderConflict,
    /// A `Workload-Identity-Token` header was given together with a WIT.
    WitHeaderConflict,
    /// The audience is empty.
    EmptyAudience,
    /// The expiry time overflows.
    ExpiryOverflow,
    /// The request carries no `Workload-Identity-Token` header.
    WitHeaderMissing,
    /// The `Workload-Identity-Token` the signature covers is not the WIT that
    /// was verified.
    WitHeaderMismatch,
    /// A body was given, but the request carries no `Content-Digest` header.
    DigestHeaderMissing,
    /// The `Content-Digest` the signature covers does not match the body.
    DigestMismatch,
    /// Signing or verifying the message signature failed.
    Signature(HttpSigError),
    /// The subject is not a workload identifier.
    Identifier(ParseError),
}

impl View for CommandError {
    type V = CommandFailure;

    open spec fn view(&self) -> CommandFailure {
        match self {
            CommandError::Input(e) => CommandFailure::Input(e@),
            CommandError::DigestHeaderConflict => CommandFailure::DigestHeaderConflict,
            CommandError::WitHeaderConflict => CommandFailure::WitHeaderConflict,
            CommandError::EmptyAudience => CommandFailure::EmptyAudience,
            CommandError::ExpiryOverflow => CommandFailure::ExpiryOverflow,
            CommandError::WitHeaderMissing => CommandFailure::WitHeaderMissing,
            CommandError::WitHeaderMismatch => CommandFailure::WitHeaderMismatch,
            CommandError::DigestHeaderMissing => CommandFailure::DigestHeaderMissing,
            CommandError::DigestMismatch => CommandFailure::DigestMismatch,
            CommandError::Signature(e) => CommandFailure::Signature(e@),
            CommandError::Identifier(e) => CommandFailure::Identifier(*e),
        }
    }
}

/// Signing and verifying a request depends on its contents only: two requests
/// with the same method, authority, path, query and headers have the same
/// signature base over any components.
pub proof fn lemma_request_contents_decide(a: HttpRequest, b: HttpRequest)
    requires
        a@ == b@,
    ensures
        forall|cs: Seq<ComponentView>, pv: Seq<char>| #[trigger] base_spec(&a, cs, pv) == base_spec(&b, cs, pv),
{
    assert forall|cs: Seq<ComponentView>, pv: Seq<char>| #[trigger] base_spec(&a, cs, pv) == base_spec(&b, cs, pv) by {
        lemma_request_base_lines(a, b, cs);
    }
}

proof fn lemma_request_base_lines(a: HttpRequest, b: HttpRequest, cs: Seq<ComponentView>)
    requires
        a@ == b@,
    ensures
        base_lines(&a, cs) == base_lines(&b, cs),
    decreases cs.len(),
{
    if cs.len() > 0 {
        lemma_request_base_lines(a, b, cs.drop_last());
    }
}

// ---------------------------------------------------------------------------
// Headers.
// ---------------------------------------------------------------------------

/// The `Name: Value` arguments parsed, in order; or the first refused.
pub open spec fn headers_of(specs: Seq<String>) -> Result<Seq<(Seq<char>, Seq<char>)>, InputFailure>
    decreases specs.len(),
{
    if specs.len() == 0 {
        Ok(Seq::empty())
    } else {
        match headers_of(specs.drop_last()) {
            Err(e) => Err(e),
            Ok(h) => match header_spec(specs.last()@) {
                Err(e) => Err(e),
                Ok(p) => Ok(h.push(p)),
            },
        }
    }
}

proof fn lemma_headers_err(specs: Seq<String>, i: int, j: int)
    requires
        0 <= i <= j <= specs.len(),
        headers_of(specs.take(i)) is Err,
    ensures
        headers_of(specs.take(j)) == headers_of(specs.take(i)),
    decreases j - i,
{
    if j > i {
        lemma_headers_err(specs, i, j - 1);
        assert(specs.take(j).drop_last() =~= specs.take(j - 1));
    }
}

fn parse_headers(specs: &Vec<String>) -> (r: Result<Vec<(String, String)>, InputError>)
    ensures
        match r {
            Ok(h) => headers_of(specs@) == Ok::<Seq<(Seq<char>, Seq<char>)>, InputFailure>(
                headers_view(h@),
            ),
            Err(e) => headers_of(specs@) == Err::<Seq<(Seq<char>, Seq<char>)>, InputFailure>(e@),
        },
{
    let mut out: Vec<(String, String)> = Vec::new();
    let mut i: usize = 0;
    assert(specs@.take(0) =~= Seq::<String>::empty());
    assert(headers_view(out@) =~= Seq::<(Seq<char>, Seq<char>)>::empty());
    while i < specs.len()
        invariant
            i <= specs@.len(),
            headers_of(specs@.take(i as int)) == Ok::<Seq<(Seq<char>, Seq<char>)>, InputFailure>(
                headers_view(out@),
            ),
        decreases specs@.len() - i,
    {
        assert(specs@.take(i + 1).drop_last() =~= specs@.take(i as int));
        assert(specs@.take(i + 1).last() == specs@[i as int]);
        match parse_header(specs[i].as_str()) {
            Ok(p) => {
                let ghost before = out@;
                let ghost pv = (p.0@, p.1@);
                out.push(p);
                assert(headers_view(out@) =~= headers_view(before).push(pv));
            },
            Err(e) => {
                proof {
                    lemma_headers_err(specs@, i + 1, specs@.len() as int);
                    assert(specs@.take(specs@.len() as int) =~= specs@);
                }
                return Err(e);
            },
        }
        i = i + 1;
    }
    assert(specs@.take(specs@.len() as int) =~= specs@);
    Ok(out)
}

// ---------------------------------------------------------------------------
// Signing.
// ---------------------------------------------------------------------------

/// What to sign, as the command line was given it: the request pieces, the
/// `Name: Value` headers, the body to digest and the WIT to carry (each if
/// any), the covered-component list (the profile's set if none), and the
/// signature parameters' inputs.
pub struct SignArguments {
    pub method: String,
    pub authority: String,
    pub path: String,
    pub query: Option<String>,
    pub headers: Vec<String>,
    pub body: Option<Vec<u8>>,
    pub wit: Option<String>,
    pub cover: Option<String>,
    pub aud: String,
    pub nonce: String,
    pub created: u64,
    pub expires_in: u64,
    pub sign_response: bool,
    pub label: String,
}

pub open spec fn opt_chars(o: Option<String>) -> Option<Seq<char>> {
    match o {
        Some(s) => Some(s@),
        None => None,
    }
}

/// The headers a signed request carries: those given, then a `Content-Digest`
/// of the body and the WIT, neither of which may also be given as a header.
pub open spec fn sign_headers(a: SignArguments) -> Result<Seq<(Seq<char>, Seq<char>)>, CommandFailure> {
    match headers_of(a.headers@) {
        Err(e) => Err(CommandFailure::Input(e)),
        Ok(h) => {
            let with_digest = match a.body {
                None => Ok(h),
                Some(b) => if has_header_spec(h, "content-digest"@) {
                    Err(CommandFailure::DigestHeaderConflict)
                } else {
                    Ok(h.push(("Content-Digest"@, content_digest_spec(b@))))
                },
            };
            match with_digest {
                Err(e) => Err(e),
                Ok(h) => match a.wit {
                    None => Ok(h),
                    Some(w) => if has_header_spec(h, "workload-identity-token"@) {
                        Err(CommandFailure::WitHeaderConflict)
                    } else {
                        Ok(h.push(("Workload-Identity-Token"@, trim(w@))))
                    },
                },
            }
        },
    }
}

/// The components to cover: the given list, which must include every one
/// the profile requires of this message, or the required set itself.
pub open spec fn covered_spec(list: Option<Seq<char>>, mandatory: Seq<ComponentView>) -> Result<
    Seq<ComponentView>,
    InputFailure,
> {
    match list {
        None => Ok(mandatory),
        Some(l) => match components_spec(l) {
            Err(e) => Err(e),
            Ok(cs) => match covers_check(cs, mandatory) {
                Err(e) => Err(e),
                Ok(_) => Ok(cs),
            },
        },
    }
}

/// The request, covered components, parameters and label a signature is
/// made with; or why there is none. `keyid` and `alg` are absent: the profile
/// forbids them, since the key travels in the WIT.
pub open spec fn signing_plan(a: SignArguments) -> Result<
    (RequestView, Seq<ComponentView>, ParamsView, Seq<char>),
    CommandFailure,
> {
    match sign_headers(a) {
        Err(e) => Err(e),
        Ok(h) => match request_spec(a.method@, a.authority@, a.path@, opt_chars(a.query), h) {
            Err(e) => Err(CommandFailure::Input(e)),
            Ok(rv) => match covered_spec(opt_chars(a.cover), mandatory_spec(h)) {
                Err(e) => Err(CommandFailure::Input(e)),
                Ok(cs) => if trim(a.aud@).len() == 0 {
                    Err(CommandFailure::EmptyAudience)
                } else if a.created + a.expires_in > u64::MAX {
                    Err(CommandFailure::ExpiryOverflow)
                } else {
                    match label_spec(a.label@) {
                        Err(e) => Err(CommandFailure::Input(e)),
                        Ok(label) => Ok(
                            (
                                rv,
                                cs,
                                ParamsView {
                                    created: Some(a.created),
                                    expires: Some((a.created + a.expires_in) as u64),
                                    keyid: None,
                                    alg: None,
                                    nonce: Some(a.nonce@),
                                    tag: Some(WIMSE_TAG@),
                                    wimse_aud: Some(trim(a.aud@)),
                                    wimse_sign_response: if a.sign_response {
                                        Some(true)
                                    } else {
                                        None
                                    },
                                    wimse_req_nonce: None,
                                },
                                label,
                            ),
                        ),
                    }
                },
            },
        },
    }
}

fn clone_bytes(b: &Vec<u8>) -> (r: Vec<u8>)
    ensures
        r@ == b@,
{
    vstd::slice::slice_to_vec(b.as_slice())
}

fn signing_headers(a: &SignArguments) -> (r: Result<Vec<(String, String)>, CommandError>)
    ensures
        match r {
            Ok(h) => sign_headers(*a) == Ok::<Seq<(Seq<char>, Seq<char>)>, CommandFailure>(
                headers_view(h@),
            ),
            Err(e) => sign_headers(*a) == Err::<Seq<(Seq<char>, Seq<char>)>, CommandFailure>(e@),
        },
{
    let mut headers: Vec<(String, String)> = match parse_headers(&a.headers) {
        Ok(h) => h,
        Err(e) => return Err(CommandError::Input(e)),
    };
    match &a.body {
        Some(body) => {
            if has_header(&headers, "content-digest") {
                return Err(CommandError::DigestHeaderConflict);
            }
            let ghost before = headers@;
            let digest: String = content_digest_sha256(body.as_slice());
            headers.push((owned("Content-Digest"), digest));
            assert(headers_view(headers@) =~= headers_view(before).push(
                ("Content-Digest"@, content_digest_spec(body@)),
            ));
        },
        None => {},
    }
    match &a.wit {
        Some(wit) => {
            if has_header(&headers, "workload-identity-token") {
                return Err(CommandError::WitHeaderConflict);
            }
            let ghost before = headers@;
            headers.push((owned("Workload-Identity-Token"), trim_str(wit.as_str())));
            assert(headers_view(headers@) =~= headers_view(before).push(
                ("Workload-Identity-Token"@, trim(wit@)),
            ));
        },
        None => {},
    }
    Ok(headers)
}

fn covered_components(list: &Option<String>, mandatory: Vec<Component>) -> (r: Result<
    Vec<Component>,
    InputError,
>)
    ensures
        match r {
            Ok(cs) => covered_spec(opt_chars(*list), components_view(mandatory@)) == Ok::<
                Seq<ComponentView>,
                InputFailure,
            >(components_view(cs@)),
            Err(e) => covered_spec(opt_chars(*list), components_view(mandatory@)) == Err::<
                Seq<ComponentView>,
                InputFailure,
            >(e@),
        },
{
    match list {
        None => Ok(mandatory),
        Some(l) => {
            let cs: Vec<Component> = match parse_components(l.as_str()) {
                Ok(cs) => cs,
                Err(e) => return Err(e),
            };
            match ensure_covers(&cs, &mandatory) {
                Ok(()) => Ok(cs),
                Err(e) => Err(e),
            }
        },
    }
}

/// Signs a request as the command line was asked to. The signature is over
/// the request [`signing_plan`] describes (any request with those contents:
/// see [`lemma_request_contents_decide`]).
pub fn sign_request(a: &SignArguments, key: &SigningKey) -> (r: Result<SignedSignature, CommandError>)
    ensures
        match signing_plan(*a) {
            Err(e) => r matches Err(f) && f@ == e,
            Ok((rv, cs, p, label)) => exists|req: HttpRequest|
                req@ == rv && match sign_spec(&req, cs, p, label, key@) {
                    Ok((input, sig)) => r matches Ok(s) && s.signature_input@ == input
                        && s.signature@ == sig,
                    Err(e) => r matches Err(f) && f@ == CommandFailure::Signature(e),
                },
        },
{
    let headers: Vec<(String, String)> = match signing_headers(a) {
        Ok(h) => h,
        Err(e) => return Err(e),
    };
    let mandatory: Vec<Component> = mandatory_components(&headers);
    let query: Option<&str> = match &a.query {
        Some(q) => Some(q.as_str()),
        None => None,
    };
    let request: HttpRequest = match build_request(
        a.method.as_str(),
        a.authority.as_str(),
        a.path.as_str(),
        query,
        headers,
    ) {
        Ok(r) => r,
        Err(e) => return Err(CommandError::Input(e)),
    };
    let components: Vec<Component> = match covered_components(&a.cover, mandatory) {
        Ok(cs) => cs,
        Err(e) => return Err(CommandError::Input(e)),
    };
    let aud: String = trim_str(a.aud.as_str());
    if aud.as_str().is_empty() {
        return Err(CommandError::EmptyAudience);
    }
    let expires: u64 = match a.created.checked_add(a.expires_in) {
        Some(e) => e,
        None => return Err(CommandError::ExpiryOverflow),
    };
    let label: String = match checked_label(a.label.as_str()) {
        Ok(l) => l,
        Err(e) => return Err(CommandError::Input(e)),
    };
    let params: SignatureParams = SignatureParams {
        created: Some(a.created),
        expires: Some(expires),
        keyid: None,
        alg: None,
        nonce: Some(a.nonce.clone()),
        tag: Some(owned(WIMSE_TAG)),
        wimse_aud: Some(aud),
        wimse_sign_response: if a.sign_response {
            Some(true)
        } else {
            None
        },
        wimse_req_nonce: None,
    };
    match sign(&request, components.as_slice(), &params, label.as_str(), key) {
        Ok(s) => Ok(s),
        Err(e) => Err(CommandError::Signature(e)),
    }
}

// ---------------------------------------------------------------------------
// Verifying.
// ---------------------------------------------------------------------------

/// What to verify, as the command line was given it: the request pieces, the
/// `Name: Value` headers, the body to bind (if any), the WIT that was
/// verified, the two signature fields, and the receiver's settings.
pub struct VerifyArguments {
    pub method: String,
    pub authority: String,
    pub path: String,
    pub query: Option<String>,
    pub headers: Vec<String>,
    pub body: Option<Vec<u8>>,
    pub wit: String,
    pub signature_input: String,
    pub signature: String,
    pub aud: String,
    pub require: Option<String>,
    pub max_age: Option<u64>,
    pub leeway: u64,
    pub label: String,
    pub now: u64,
}

/// The headers a received request carries: those given, plus the verified
/// WIT and a digest of the body when the given headers lack them.
pub open spec fn verify_headers(a: VerifyArguments) -> Result<Seq<(Seq<char>, Seq<char>)>, CommandFailure> {
    match headers_of(a.headers@) {
        Err(e) => Err(CommandFailure::Input(e)),
        Ok(h) => {
            let with_wit = if has_header_spec(h, "workload-identity-token"@) {
                h
            } else {
                h.push(("Workload-Identity-Token"@, trim(a.wit@)))
            };
            Ok(
                match a.body {
                    Some(b) => if has_header_spec(with_wit, "content-digest"@) {
                        with_wit
                    } else {
                        with_wit.push(("Content-Digest"@, content_digest_spec(b@)))
                    },
                    None => with_wit,
                },
            )
        },
    }
}

/// The request a receiver rebuilds and the verifier settings it applies; or
/// why it refuses before verifying. The WIT the signature covers — every
/// `Workload-Identity-Token` value, joined — must be the one that was
/// verified, so a second, unverified token cannot ride along.
pub open spec fn verification_plan(a: VerifyArguments) -> Result<(RequestView, ConfigView), CommandFailure> {
    match verify_headers(a) {
        Err(e) => Err(e),
        Ok(h) => match request_spec(a.method@, a.authority@, a.path@, opt_chars(a.query), h) {
            Err(e) => Err(CommandFailure::Input(e)),
            Ok(rv) => match request_component(
                rv,
                ComponentView::Header(crate::text::spec_lower_seq("workload-identity-token"@)),
            ) {
                Err(_) => Err(CommandFailure::WitHeaderMissing),
                Ok(v) => if v != trim(a.wit@) {
                    Err(CommandFailure::WitHeaderMismatch)
                } else {
                    match covered_spec(opt_chars(a.require), mandatory_spec(h)) {
                        Err(e) => Err(CommandFailure::Input(e)),
                        Ok(required) => match label_spec(a.label@) {
                            Err(e) => Err(CommandFailure::Input(e)),
                            Ok(label) => Ok(
                                (
                                    rv,
                                    ConfigView {
                                        now: Some(a.now),
                                        leeway: a.leeway,
                                        label: Some(label),
                                        required,
                                        max_age: a.max_age,
                                        wimse_profile: true,
                                        wimse_response_profile: false,
                                        expected_audience: Some(trim(a.aud@)),
                                        expected_req_nonce: None,
                                    },
                                ),
                            ),
                        },
                    }
                },
            },
        },
    }
}

/// Whether a verified signature answers the verification: same label,
/// components and parameters.
pub open spec fn is_verified(v: VerifiedSignature, t: (Seq<char>, Seq<ComponentView>, ParamsView)) -> bool {
    v.label@ == t.0 && components_view(v.components@) == t.1 && v.params@ == t.2
}

fn verifying_headers(a: &VerifyArguments) -> (r: Result<Vec<(String, String)>, CommandError>)
    ensures
        match r {
            Ok(h) => verify_headers(*a) == Ok::<Seq<(Seq<char>, Seq<char>)>, CommandFailure>(
                headers_view(h@),
            ),
            Err(e) => verify_headers(*a) == Err::<Seq<(Seq<char>, Seq<char>)>, CommandFailure>(
                e@,
            ),
        },
{
    let mut headers: Vec<(String, String)> = match parse_headers(&a.headers) {
        Ok(h) => h,
        Err(e) => return Err(CommandError::Input(e)),
    };
    if !has_header(&headers, "workload-identity-token") {
        let ghost before = headers@;
        headers.push((owned("Workload-Identity-Token"), trim_str(a.wit.as_str())));
        assert(headers_view(headers@) =~= headers_view(before).push(
            ("Workload-Identity-Token"@, trim(a.wit@)),
        ));
    }
    match &a.body {
        Some(body) => {
            if !has_header(&headers, "content-digest") {
                let ghost before = headers@;
                let digest: String = content_digest_sha256(body.as_slice());
                headers.push((owned("Content-Digest"), digest));
                assert(headers_view(headers@) =~= headers_view(before).push(
                    ("Content-Digest"@, content_digest_spec(body@)),
                ));
            }
        },
        None => {},
    }
    Ok(headers)
}

/// Verifies a received request's signature under the proof-of-possession key
/// of the WIT that was verified, then binds the body to the `Content-Digest`
/// value the signature covers.
pub fn verify_request(a: &VerifyArguments, key: &VerifyingKey) -> (r: Result<
    VerifiedSignature,
    CommandError,
>)
    ensures
        match verification_plan(*a) {
            Err(e) => r matches Err(f) && f@ == e,
            Ok((rv, cfg)) => exists|req: HttpRequest|
                req@ == rv && match verify_spec(
                    &req,
                    trim(a.signature_input@),
                    trim(a.signature@),
                    key@,
                    cfg,
                ) {
                    Err(e) => r matches Err(f) && f@ == CommandFailure::Signature(e),
                    Ok(t) => match a.body {
                        None => r matches Ok(v) && is_verified(v, t),
                        Some(b) => match request_component(
                            rv,
                            ComponentView::Header(crate::text::spec_lower_seq("content-digest"@)),
                        ) {
                            Err(_) => r matches Err(f) && f@ == CommandFailure::DigestHeaderMissing,
                            Ok(d) => if d == content_digest_spec(b@) {
                                r matches Ok(v) && is_verified(v, t)
                            } else {
                                r matches Err(f) && f@ == CommandFailure::DigestMismatch
                            },
                        },
                    },
                },
        },
{
    let headers: Vec<(String, String)> = match verifying_headers(a) {
        Ok(h) => h,
        Err(e) => return Err(e),
    };
    let mandatory: Vec<Component> = mandatory_components(&headers);
    let query: Option<&str> = match &a.query {
        Some(q) => Some(q.as_str()),
        None => None,
    };
    let request: HttpRequest = match build_request(
        a.method.as_str(),
        a.authority.as_str(),
        a.path.as_str(),
        query,
        headers,
    ) {
        Ok(r) => r,
        Err(e) => return Err(CommandError::Input(e)),
    };
    let wit_component: Component = Component::header("workload-identity-token");
    let covered_wit: String = match request.component_value(&wit_component) {
        Ok(v) => v,
        Err(_) => return Err(CommandError::WitHeaderMissing),
    };
    let wit: String = trim_str(a.wit.as_str());
    if !str_eq(covered_wit.as_str(), wit.as_str()) {
        return Err(CommandError::WitHeaderMismatch);
    }
    let required: Vec<Component> = match covered_components(&a.require, mandatory) {
        Ok(cs) => cs,
        Err(e) => return Err(CommandError::Input(e)),
    };
    let label: String = match checked_label(a.label.as_str()) {
        Ok(l) => l,
        Err(e) => return Err(CommandError::Input(e)),
    };
    let config: VerifyConfig = VerifyConfig {
        now: Some(a.now),
        leeway: a.leeway,
        label: Some(label),
        required_components: required,
        max_age: a.max_age,
        wimse_profile: true,
        wimse_response_profile: false,
        expected_audience: Some(trim_str(a.aud.as_str())),
        expected_req_nonce: None,
    };
    let input: String = trim_str(a.signature_input.as_str());
    let signature: String = trim_str(a.signature.as_str());
    let verified: VerifiedSignature = match verify(
        &request,
        input.as_str(),
        signature.as_str(),
        key,
        &config,
    ) {
        Ok(v) => v,
        Err(e) => return Err(CommandError::Signature(e)),
    };
    match &a.body {
        Some(body) => {
            let digest_component: Component = Component::header("content-digest");
            let digest: String = match request.component_value(&digest_component) {
                Ok(d) => d,
                Err(_) => return Err(CommandError::DigestHeaderMissing),
            };
            if !verify_content_digest(digest.as_str(), body.as_slice()) {
                return Err(CommandError::DigestMismatch);
            }
        },
        None => {},
    }
    Ok(verified)
}

// ---------------------------------------------------------------------------
// Token claims.
// ---------------------------------------------------------------------------

/// The claims of a WIT issued at `iat` for `ttl` seconds: the trimmed issuer,
/// the trimmed and parsed subject, and the confirmation key's JWK. An expiry
/// past the clock is refused first, then a subject that is not an identifier.
pub open spec fn wit_claims_spec(
    iss: Seq<char>,
    sub: Seq<char>,
    cnf: VerifyingKeyView,
    iat: u64,
    ttl: u64,
    jti: Seq<char>,
) -> Result<(WitClaimsView, Seq<char>), CommandFailure> {
    if iat + ttl > u64::MAX {
        Err(CommandFailure::ExpiryOverflow)
    } else {
        match spec_parse(trim(sub)) {
            Err(e) => Err(CommandFailure::Identifier(e)),
            Ok(_) => Ok(
                (
                    WitClaimsView {
                        iss: Some(trim(iss)),
                        sub: arbitrary(),
                        iat: Some(iat),
                        exp: (iat + ttl) as u64,
                        jti: Some(jti),
                        cnf: spec_jwk_of(cnf),
                    },
                    trim(sub),
                ),
            ),
        }
    }
}

/// The claims a WIT is issued with.
pub fn wit_claims(iss: &str, sub: &str, cnf: &VerifyingKey, iat: u64, ttl: u64, jti: String) -> (r:
    Result<WitClaims, CommandError>)
    ensures
        match wit_claims_spec(iss@, sub@, cnf@, iat, ttl, jti@) {
            Err(e) => r matches Err(f) && f@ == e,
            Ok((c, uri)) => r matches Ok(w) && w@ == (WitClaimsView { sub: w@.sub, ..c })
                && w@.sub.uri == uri,
        },
{
    let exp: u64 = match iat.checked_add(ttl) {
        Some(e) => e,
        None => return Err(CommandError::ExpiryOverflow),
    };
    let sub: WorkloadIdentifier = match WorkloadIdentifier::parse(trim_str(sub).as_str()) {
        Ok(id) => id,
        Err(e) => return Err(CommandError::Identifier(e)),
    };
    Ok(
        WitClaims {
            iss: Some(trim_str(iss)),
            sub,
            iat: Some(iat),
            exp,
            jti: Some(jti),
            cnf: Confirmation { jwk: Jwk::from_verifying_key(cnf) },
        },
    )
}

/// The claims of a WPT made at `iat` for `ttl` seconds, bound to a WIT: the
/// trimmed audience and the thumbprint of the trimmed WIT.
pub open spec fn wpt_claims_spec(aud: Seq<char>, wit: Seq<char>, iat: u64, ttl: u64, jti: Seq<char>) -> Result<
    ClaimsView,
    CommandFailure,
> {
    if iat + ttl > u64::MAX {
        Err(CommandFailure::ExpiryOverflow)
    } else {
        Ok(
            ClaimsView {
                aud: trim(aud),
                exp: (iat + ttl) as u64,
                jti,
                wth: thumbprint(trim(wit)),
                tth: None,
                oth: None,
            },
        )
    }
}

/// The claims a WPT is made with.
pub fn wpt_claims(aud: &str, wit: &str, iat: u64, ttl: u64, jti: String) -> (r: Result<
    WptClaims,
    CommandError,
>)
    ensures
        match wpt_claims_spec(aud@, wit@, iat, ttl, jti@) {
            Err(e) => r matches Err(f) && f@ == e,
            Ok(c) => r matches Ok(w) && w@ == c,
        },
{
    let exp: u64 = match iat.checked_add(ttl) {
        Some(e) => e,
        None => return Err(CommandError::ExpiryOverflow),
    };
    let trimmed: String = trim_str(wit);
    Ok(
        WptClaims {
            aud: trim_str(aud),
            exp,
            jti,
            wth: wit_thumbprint(trimmed.as_str()),
            tth: None,
            oth: None,
        },
    )
}

} // verus!
