//! Generating the HTTP message signature vector: the golden request, signed
//! under the proof-of-possession key; the negative cases a verifier must
//! refuse, each genuinely signed where the rule under test is one the signer
//! could break; and the signed response. The WIT the request carries is issued
//! by the caller and handed in.

use vstd::prelude::*;

use crate::conformance::signatures::{
    components_of, exchange_of, httpsig_checks, lemma_exchange_same, lemma_reproduce_is_first,
    lemma_response_reproduce_is_first, request_params, response_checks, response_of, response_params,
    HttpSigVector,
};
use crate::conformance::{check_of, vector_name};
use crate::httpsig::round_trip::{component_ok, header_name_ok, lemma_quoted_id_round_trip};
use crate::jose::VerifyingKeyView;
use crate::conformance::{
    ErrorCode, Header, HttpSigNegative, ResponseNegative, VectorParams, VectorResponse, FORMAT,
};
use crate::httpsig::message::{
    content_digest_sha256, content_digest_spec, headers_view, Component, ComponentView, HttpExchange,
    HttpRequest, HttpResponse, HttpSigError, HttpSigFailure, RequestView, ResponseView, component_view,
    quoted_id_spec,
};
use crate::text::spec_lower_seq;
use vstd::utf8::encode_utf8;
use crate::httpsig::params::{clone_params, components_view, ParamsView, SignatureParams, WIMSE_TAG};
use crate::httpsig::signature::{sign, sign_spec};
use crate::jose::{
    alg_name, opt_view, public_of, spec_jwk_of, spec_private_jwk_of, spec_private_key, Algorithm, Jwk,
    JoseFailure, PrivateJwk, SigningKey, SigningKeyView,
};
use crate::text::{owned, push_str};

verus! {

broadcast use vstd::string::group_string_axioms;

// ---------------------------------------------------------------------------
// The fixed inputs.
// ---------------------------------------------------------------------------

/// When the golden request (and its response) were signed.
pub const IAT: u64 = 1_700_000_000;
/// The request signature's nonce, which the response carries back.
pub const NONCE: &'static str = "abcd1111";
/// The response signature's own nonce.
pub const RESPONSE_NONCE: &'static str = "abcd2222";
/// The service the request signature is minted for.
pub const AUDIENCE: &'static str = "https://service.example/transfer";
/// The key id a profile case smuggles into the signature parameters.
pub const KID: &'static str = "issuer-key-1";
/// The host an intermediary rewrites `@authority` to.
pub const REWRITTEN_AUTHORITY: &'static str = "attacker.example.net";
/// The signature label.
pub const LABEL: &'static str = "wimse";

// ---------------------------------------------------------------------------
// Negative cases, by value.
// ---------------------------------------------------------------------------

/// A request negative case, by value.
pub struct NegativeView {
    pub id: Seq<char>,
    pub description: Seq<char>,
    pub expect: ErrorCode,
    pub request: Option<RequestView>,
    pub body: Option<Seq<char>>,
    pub signature_input: Option<Seq<char>>,
    pub signature: Option<Seq<char>>,
    pub verify_now: Option<u64>,
    pub accept_label: Option<Seq<char>>,
    pub accept_audience: Option<Seq<char>>,
    pub max_age: Option<u64>,
    pub required_components: Option<Seq<Seq<char>>>,
}

pub open spec fn request_view(r: Option<HttpRequest>) -> Option<RequestView> {
    match r {
        Some(q) => Some(q@),
        None => None,
    }
}

/// Strings, by value.
pub open spec fn strings_of(q: Seq<String>) -> Seq<Seq<char>> {
    q.map_values(|s: String| s@)
}

pub open spec fn strings_view(v: Option<Vec<String>>) -> Option<Seq<Seq<char>>> {
    match v {
        Some(l) => Some(strings_of(l@)),
        None => None,
    }
}

impl View for HttpSigNegative {
    type V = NegativeView;

    open spec fn view(&self) -> NegativeView {
        NegativeView {
            id: self.id@,
            description: self.description@,
            expect: self.expect,
            request: request_view(self.request),
            body: opt_view(self.body),
            signature_input: opt_view(self.signature_input),
            signature: opt_view(self.signature),
            verify_now: self.verify_now,
            accept_label: opt_view(self.accept_label),
            accept_audience: opt_view(self.accept_audience),
            max_age: self.max_age,
            required_components: strings_view(self.required_components),
        }
    }
}

/// A case that differs from the vector only in what the verifier is told.
pub open spec fn plain_negative(id: Seq<char>, description: Seq<char>, expect: ErrorCode) -> NegativeView {
    NegativeView {
        id,
        description,
        expect,
        request: None,
        body: None,
        signature_input: None,
        signature: None,
        verify_now: None,
        accept_label: None,
        accept_audience: None,
        max_age: None,
        required_components: None,
    }
}

/// The signature fields of a signing outcome, where it succeeded.
pub open spec fn fields_of(r: Result<(Seq<char>, Seq<char>), HttpSigFailure>) -> (Seq<char>, Seq<char>) {
    match r {
        Ok(f) => f,
        Err(_) => (seq![], seq![]),
    }
}

/// A case carrying its own signature fields.
pub open spec fn signed_negative(
    id: Seq<char>,
    description: Seq<char>,
    expect: ErrorCode,
    signed: Result<(Seq<char>, Seq<char>), HttpSigFailure>,
) -> NegativeView {
    NegativeView {
        signature_input: Some(fields_of(signed).0),
        signature: Some(fields_of(signed).1),
        ..plain_negative(id, description, expect)
    }
}

fn httpsig_neg(id: &str, description: &str, expect: ErrorCode) -> (r: HttpSigNegative)
    ensures
        r@ == plain_negative(id@, description@, expect),
{
    HttpSigNegative {
        id: owned(id),
        description: owned(description),
        expect,
        request: None,
        body: None,
        signature_input: None,
        signature: None,
        verify_now: None,
        accept_label: None,
        accept_audience: None,
        max_age: None,
        required_components: None,
    }
}

// ---------------------------------------------------------------------------
// The request profile cases.
// ---------------------------------------------------------------------------

/// The request profile rules a signer can break, one per case: id,
/// description and the reason a verifier must give.
pub open spec fn request_profile_cases() -> Seq<(Seq<char>, Seq<char>, ErrorCode)> {
    seq![
        ("forbidden-alg-parameter"@, "the signature carries the `alg` parameter, which the profile forbids"@, ErrorCode::ForbiddenParameter),
        ("forbidden-keyid-parameter"@, "the signature carries the `keyid` parameter, which the profile forbids"@, ErrorCode::ForbiddenParameter),
        ("missing-nonce"@, "the signature omits the mandatory `nonce` parameter"@, ErrorCode::MissingParameter),
        ("missing-created"@, "the signature omits the mandatory `created` parameter"@, ErrorCode::MissingParameter),
        ("missing-expires"@, "the signature omits the mandatory `expires` parameter"@, ErrorCode::MissingParameter),
        ("missing-wimse-aud"@, "the request signature omits the mandatory `wimse-aud` parameter"@, ErrorCode::MissingParameter),
        ("wrong-tag"@, "the signature's `tag` is not `wimse-workload-to-workload`"@, ErrorCode::WrongTag),
    ]
}

/// The parameters the request profile case `i` is signed with: the golden
/// ones, with one rule broken.
pub open spec fn request_profile_params(i: int, p: ParamsView) -> ParamsView {
    if i == 0 {
        ParamsView { alg: Some("ed25519"@), ..p }
    } else if i == 1 {
        ParamsView { keyid: Some(KID@), ..p }
    } else if i == 2 {
        ParamsView { nonce: None, ..p }
    } else if i == 3 {
        ParamsView { created: None, ..p }
    } else if i == 4 {
        ParamsView { expires: None, ..p }
    } else if i == 5 {
        ParamsView { wimse_aud: None, ..p }
    } else {
        ParamsView { tag: Some("some-other-protocol"@), ..p }
    }
}

/// Signing the golden request under the request profile case `i`.
pub open spec fn request_profile_signed(
    request: &HttpRequest,
    cs: Seq<ComponentView>,
    p: ParamsView,
    key: crate::jose::SigningKeyView,
    i: int,
) -> Result<(Seq<char>, Seq<char>), HttpSigFailure> {
    sign_spec(request, cs, request_profile_params(i, p), LABEL@, key)
}

/// The request profile case `i`.
pub open spec fn request_profile_negative(
    request: &HttpRequest,
    cs: Seq<ComponentView>,
    p: ParamsView,
    key: crate::jose::SigningKeyView,
    i: int,
) -> NegativeView {
    let (id, description, expect) = request_profile_cases()[i];
    signed_negative(id, description, expect, request_profile_signed(request, cs, p, key, i))
}

fn request_case(
    request: &HttpRequest,
    components: &[Component],
    altered: &SignatureParams,
    key: &SigningKey,
    id: &str,
    description: &str,
    expect: ErrorCode,
) -> (r: Result<HttpSigNegative, HttpSigError>)
    ensures
        match sign_spec(request, components_view(components@), altered@, LABEL@, key@) {
            Ok(f) => r matches Ok(n) && n@ == signed_negative(id@, description@, expect, Ok(f)),
            Err(e) => r matches Err(f) && f@ == e,
        },
{
    match sign(request, components, altered, LABEL, key) {
        Ok(signed) => {
            let mut case: HttpSigNegative = httpsig_neg(id, description, expect);
            case.signature_input = Some(signed.signature_input);
            case.signature = Some(signed.signature);
            Ok(case)
        },
        Err(e) => Err(e),
    }
}

/// The request profile rules, one broken in each case; every case is
/// genuinely signed, so what refuses it is the rule. Succeeds exactly when
/// every case can be signed.
pub fn httpsig_profile_negatives(
    request: &HttpRequest,
    components: &[Component],
    params: &SignatureParams,
    key: &SigningKey,
) -> (r: Result<Vec<HttpSigNegative>, HttpSigError>)
    ensures
        match r {
            Ok(cases) => cases@.len() == request_profile_cases().len() && forall|i: int|
                0 <= i < cases@.len() ==> (#[trigger] cases@[i])@ == request_profile_negative(
                    request,
                    components_view(components@),
                    params@,
                    key@,
                    i,
                ),
            Err(e) => exists|i: int|
                0 <= i < request_profile_cases().len() && #[trigger] request_profile_signed(
                    request,
                    components_view(components@),
                    params@,
                    key@,
                    i,
                ) == Err::<(Seq<char>, Seq<char>), HttpSigFailure>(e@),
        },
{
    let ghost cs = components_view(components@);
    let ghost p = params@;
    let p0: SignatureParams = SignatureParams { alg: Some(owned("ed25519")), ..clone_params(params) };
    let p1: SignatureParams = SignatureParams { keyid: Some(owned(KID)), ..clone_params(params) };
    let p2: SignatureParams = SignatureParams { nonce: None, ..clone_params(params) };
    let p3: SignatureParams = SignatureParams { created: None, ..clone_params(params) };
    let p4: SignatureParams = SignatureParams { expires: None, ..clone_params(params) };
    let p5: SignatureParams = SignatureParams { wimse_aud: None, ..clone_params(params) };
    let p6: SignatureParams = SignatureParams { tag: Some(owned("some-other-protocol")), ..clone_params(params) };
    assert(p0@ == request_profile_params(0, p));
    assert(p1@ == request_profile_params(1, p));
    assert(p2@ == request_profile_params(2, p));
    assert(p3@ == request_profile_params(3, p));
    assert(p4@ == request_profile_params(4, p));
    assert(p5@ == request_profile_params(5, p));
    assert(p6@ == request_profile_params(6, p));
    let c0 = match request_case(request, components, &p0, key, "forbidden-alg-parameter", "the signature carries the `alg` parameter, which the profile forbids", ErrorCode::ForbiddenParameter) {
        Ok(c) => c,
        Err(e) => {
            assert(request_profile_signed(request, cs, p, key@, 0) == Err::<(Seq<char>, Seq<char>), HttpSigFailure>(e@));
            return Err(e);
        },
    };
    let c1 = match request_case(request, components, &p1, key, "forbidden-keyid-parameter", "the signature carries the `keyid` parameter, which the profile forbids", ErrorCode::ForbiddenParameter) {
        Ok(c) => c,
        Err(e) => {
            assert(request_profile_signed(request, cs, p, key@, 1) == Err::<(Seq<char>, Seq<char>), HttpSigFailure>(e@));
            return Err(e);
        },
    };
    let c2 = match request_case(request, components, &p2, key, "missing-nonce", "the signature omits the mandatory `nonce` parameter", ErrorCode::MissingParameter) {
        Ok(c) => c,
        Err(e) => {
            assert(request_profile_signed(request, cs, p, key@, 2) == Err::<(Seq<char>, Seq<char>), HttpSigFailure>(e@));
            return Err(e);
        },
    };
    let c3 = match request_case(request, components, &p3, key, "missing-created", "the signature omits the mandatory `created` parameter", ErrorCode::MissingParameter) {
        Ok(c) => c,
        Err(e) => {
            assert(request_profile_signed(request, cs, p, key@, 3) == Err::<(Seq<char>, Seq<char>), HttpSigFailure>(e@));
            return Err(e);
        },
    };
    let c4 = match request_case(request, components, &p4, key, "missing-expires", "the signature omits the mandatory `expires` parameter", ErrorCode::MissingParameter) {
        Ok(c) => c,
        Err(e) => {
            assert(request_profile_signed(request, cs, p, key@, 4) == Err::<(Seq<char>, Seq<char>), HttpSigFailure>(e@));
            return Err(e);
        },
    };
    let c5 = match request_case(request, components, &p5, key, "missing-wimse-aud", "the request signature omits the mandatory `wimse-aud` parameter", ErrorCode::MissingParameter) {
        Ok(c) => c,
        Err(e) => {
            assert(request_profile_signed(request, cs, p, key@, 5) == Err::<(Seq<char>, Seq<char>), HttpSigFailure>(e@));
            return Err(e);
        },
    };
    let c6 = match request_case(request, components, &p6, key, "wrong-tag", "the signature's `tag` is not `wimse-workload-to-workload`", ErrorCode::WrongTag) {
        Ok(c) => c,
        Err(e) => {
            assert(request_profile_signed(request, cs, p, key@, 6) == Err::<(Seq<char>, Seq<char>), HttpSigFailure>(e@));
            return Err(e);
        },
    };
    let cases: Vec<HttpSigNegative> = vec![c0, c1, c2, c3, c4, c5, c6];
    assert forall|i: int| 0 <= i < cases@.len() implies (#[trigger] cases@[i])@ == request_profile_negative(
        request,
        cs,
        p,
        key@,
        i,
    ) by {
        if i == 0 {
        } else if i == 1 {
        } else if i == 2 {
        } else if i == 3 {
        } else if i == 4 {
        } else if i == 5 {
        } else {
        }
    }
    Ok(cases)
}

// ---------------------------------------------------------------------------
// The other request cases.
// ---------------------------------------------------------------------------

/// The golden request with `@path` changed after signing.
pub open spec fn rerouted(rv: RequestView) -> RequestView {
    RequestView { path: "/admin"@, ..rv }
}

/// The golden request with its host rewritten.
pub open spec fn rehosted(rv: RequestView) -> RequestView {
    RequestView { authority: REWRITTEN_AUTHORITY@, ..rv }
}

/// Signing the golden request over the golden components and `@authority`.
pub open spec fn authority_signed(
    request: &HttpRequest,
    cs: Seq<ComponentView>,
    p: ParamsView,
    key: crate::jose::SigningKeyView,
) -> Result<(Seq<char>, Seq<char>), HttpSigFailure> {
    sign_spec(request, cs.push(ComponentView::Authority), p, LABEL@, key)
}

/// The cases a verifier must refuse for what it is told, or for what an
/// intermediary changed: every one but the rewritten host uses the vector's
/// own signature.
pub open spec fn request_other_negatives(
    rv: RequestView,
    over_authority: Result<(Seq<char>, Seq<char>), HttpSigFailure>,
) -> Seq<NegativeView> {
    seq![
        NegativeView {
            accept_audience: Some("https://other.example/inbox"@),
            ..plain_negative("audience-mismatch"@, "the signature was minted for a different service than the one verifying it"@, ErrorCode::AudienceMismatch)
        },
        NegativeView {
            body: Some("{\"amount\":999}"@),
            ..plain_negative("tampered-body"@, "the body no longer hashes to the signed `Content-Digest`"@, ErrorCode::ContentDigestMismatch)
        },
        NegativeView {
            request: Some(rerouted(rv)),
            ..plain_negative("rerouted-path"@, "an intermediary changed `@path` after the signature was made"@, ErrorCode::InvalidSignature)
        },
        NegativeView {
            request: Some(rehosted(rv)),
            ..signed_negative(
                "authority-rewritten-inside-the-covered-set"@,
                "this signature covers `@authority`, so a rewritten host breaks it"@,
                ErrorCode::InvalidSignature,
                over_authority,
            )
        },
        NegativeView {
            verify_now: Some((IAT - 1) as u64),
            ..plain_negative("created-in-future"@, "the signature's `created` is ahead of the verifier's clock"@, ErrorCode::CreatedInFuture)
        },
        NegativeView {
            verify_now: Some((IAT + 120) as u64),
            max_age: Some(30),
            ..plain_negative("too-old"@, "the signature is still unexpired but older than the verifier's `max_age`"@, ErrorCode::TooOld)
        },
        NegativeView {
            accept_label: Some("other"@),
            ..plain_negative("label-mismatch"@, "the verifier only accepts a label the request does not carry"@, ErrorCode::LabelMismatch)
        },
        NegativeView {
            required_components: Some(seq!["\"authorization\""@]),
            ..plain_negative("missing-required-component"@, "the verifier requires a component the signature does not cover"@, ErrorCode::MissingRequiredComponent)
        },
    ]
}

pub(crate) fn clone_request(r: &HttpRequest) -> (c: HttpRequest)
    ensures
        c@ == r@,
{
    HttpRequest {
        method: r.method.clone(),
        authority: r.authority.clone(),
        path: r.path.clone(),
        query: match &r.query {
            Some(q) => Some(q.clone()),
            None => None,
        },
        headers: crate::conformance::signatures::clone_headers(&r.headers),
    }
}

fn components_with(components: &[Component], extra: Component) -> (r: Vec<Component>)
    ensures
        components_view(r@) == components_view(components@).push(extra@),
{
    let mut out: Vec<Component> = Vec::new();
    let mut i: usize = 0;
    while i < components.len()
        invariant
            i <= components@.len(),
            components_view(out@) == components_view(components@.take(i as int)),
        decreases components@.len() - i,
    {
        let ghost before = out@;
        out.push(components[i].clone());
        assert(components_view(out@) =~= components_view(before).push(components@[i as int]@));
        assert(components@.take(i + 1) =~= components@.take(i as int).push(components@[i as int]));
        assert(components_view(components@.take(i + 1)) =~= components_view(
            components@.take(i as int),
        ).push(components@[i as int]@));
        i = i + 1;
    }
    assert(components@.take(components@.len() as int) =~= components@);
    let ghost before = out@;
    out.push(extra);
    assert(components_view(out@) =~= components_view(before).push(extra@));
    out
}

/// Every case an httpsig verifier must refuse for the golden request: the
/// profile cases, then the cases of [`request_other_negatives`]. Succeeds
/// exactly when every signature the cases carry can be made.
pub fn httpsig_negatives(
    request: &HttpRequest,
    components: &[Component],
    params: &SignatureParams,
    key: &SigningKey,
) -> (r: Result<Vec<HttpSigNegative>, HttpSigError>)
    ensures
        match r {
            Ok(cases) => {
                &&& cases@.len() == request_profile_cases().len() + 8
                &&& forall|i: int|
                    0 <= i < request_profile_cases().len() ==> (#[trigger] cases@[i])@
                        == request_profile_negative(request, components_view(components@), params@, key@, i)
                &&& forall|i: int|
                    0 <= i < 8 ==> (#[trigger] cases@[request_profile_cases().len() + i])@
                        == request_other_negatives(
                        request@,
                        authority_signed(request, components_view(components@), params@, key@),
                    )[i]
            },
            Err(e) => authority_signed(request, components_view(components@), params@, key@) == Err::<
                (Seq<char>, Seq<char>),
                HttpSigFailure,
            >(e@) || exists|i: int|
                0 <= i < request_profile_cases().len() && #[trigger] request_profile_signed(
                    request,
                    components_view(components@),
                    params@,
                    key@,
                    i,
                ) == Err::<(Seq<char>, Seq<char>), HttpSigFailure>(e@),
        },
{
    let ghost cs = components_view(components@);
    let covering: Vec<Component> = components_with(components, Component::Authority);
    let over_authority = match sign(request, covering.as_slice(), params, LABEL, key) {
        Ok(s) => s,
        Err(e) => return Err(e),
    };
    let ghost signed_fields = (over_authority.signature_input@, over_authority.signature@);
    assert(authority_signed(request, cs, params@, key@) == Ok::<(Seq<char>, Seq<char>), HttpSigFailure>(signed_fields));
    let mut cases: Vec<HttpSigNegative> = match httpsig_profile_negatives(request, components, params, key) {
        Ok(c) => c,
        Err(e) => return Err(e),
    };
    let ghost profile = cases@;
    let ghost rv = request@;
    let ghost others = request_other_negatives(rv, Ok(signed_fields));

    let mut audience = httpsig_neg("audience-mismatch", "the signature was minted for a different service than the one verifying it", ErrorCode::AudienceMismatch);
    audience.accept_audience = Some(owned("https://other.example/inbox"));
    let mut body = httpsig_neg("tampered-body", "the body no longer hashes to the signed `Content-Digest`", ErrorCode::ContentDigestMismatch);
    body.body = Some(owned("{\"amount\":999}"));
    let mut reroute = httpsig_neg("rerouted-path", "an intermediary changed `@path` after the signature was made", ErrorCode::InvalidSignature);
    let mut rerouted_request = clone_request(request);
    rerouted_request.path = owned("/admin");
    reroute.request = Some(rerouted_request);
    let mut rehost = httpsig_neg("authority-rewritten-inside-the-covered-set", "this signature covers `@authority`, so a rewritten host breaks it", ErrorCode::InvalidSignature);
    let mut rehosted_request = clone_request(request);
    rehosted_request.authority = owned(REWRITTEN_AUTHORITY);
    rehost.request = Some(rehosted_request);
    rehost.signature_input = Some(over_authority.signature_input);
    rehost.signature = Some(over_authority.signature);
    let mut future = httpsig_neg("created-in-future", "the signature's `created` is ahead of the verifier's clock", ErrorCode::CreatedInFuture);
    future.verify_now = Some(IAT - 1);
    let mut old = httpsig_neg("too-old", "the signature is still unexpired but older than the verifier's `max_age`", ErrorCode::TooOld);
    old.verify_now = Some(IAT + 120);
    old.max_age = Some(30);
    let mut label = httpsig_neg("label-mismatch", "the verifier only accepts a label the request does not carry", ErrorCode::LabelMismatch);
    label.accept_label = Some(owned("other"));
    let mut required = httpsig_neg("missing-required-component", "the verifier requires a component the signature does not cover", ErrorCode::MissingRequiredComponent);
    let names: Vec<String> = vec![owned("\"authorization\"")];
    assert(strings_of(names@) =~= seq!["\"authorization\""@]);
    required.required_components = Some(names);

    assert(audience@ == others[0]);
    assert(body@ == others[1]);
    assert(reroute@ == others[2]);
    assert(rehost@ == others[3]);
    assert(future@ == others[4]);
    assert(old@ == others[5]);
    assert(label@ == others[6]);
    assert(required@ == others[7]);
    cases.push(audience);
    cases.push(body);
    cases.push(reroute);
    cases.push(rehost);
    cases.push(future);
    cases.push(old);
    cases.push(label);
    cases.push(required);
    assert forall|i: int| 0 <= i < request_profile_cases().len() implies (#[trigger] cases@[i])@
        == request_profile_negative(request, cs, params@, key@, i) by {
        assert(cases@[i] == profile[i]);
    }
    Ok(cases)
}

// ---------------------------------------------------------------------------
// The response.
// ---------------------------------------------------------------------------

/// A response negative case, by value.
pub struct ResponseNegativeView {
    pub id: Seq<char>,
    pub description: Seq<char>,
    pub expect: ErrorCode,
    pub signature_input: Option<Seq<char>>,
    pub signature: Option<Seq<char>>,
    pub request: Option<RequestView>,
    pub expected_req_nonce: Option<Seq<char>>,
}

impl View for ResponseNegative {
    type V = ResponseNegativeView;

    open spec fn view(&self) -> ResponseNegativeView {
        ResponseNegativeView {
            id: self.id@,
            description: self.description@,
            expect: self.expect,
            signature_input: opt_view(self.signature_input),
            signature: opt_view(self.signature),
            request: request_view(self.request),
            expected_req_nonce: opt_view(self.expected_req_nonce),
        }
    }
}

pub open spec fn plain_response_negative(id: Seq<char>, description: Seq<char>, expect: ErrorCode) -> ResponseNegativeView {
    ResponseNegativeView {
        id,
        description,
        expect,
        signature_input: None,
        signature: None,
        request: None,
        expected_req_nonce: None,
    }
}

fn response_neg(id: &str, description: &str, expect: ErrorCode) -> (r: ResponseNegative)
    ensures
        r@ == plain_response_negative(id@, description@, expect),
{
    ResponseNegative {
        id: owned(id),
        description: owned(description),
        expect,
        signature_input: None,
        signature: None,
        request: None,
        expected_req_nonce: None,
    }
}

/// The response profile rules a signer can break, one per case.
pub open spec fn response_profile_cases() -> Seq<(Seq<char>, Seq<char>, ErrorCode)> {
    seq![
        ("response-carries-wimse-aud"@, "the response signature carries `wimse-aud`, which is forbidden coming back"@, ErrorCode::ForbiddenParameter),
        ("response-missing-req-nonce"@, "the response must carry back the request's `wimse-req-nonce`"@, ErrorCode::MissingParameter),
        ("response-forbidden-alg-parameter"@, "the response signature carries the `alg` parameter, which the profile forbids"@, ErrorCode::ForbiddenParameter),
        ("response-forbidden-keyid-parameter"@, "the response signature carries the `keyid` parameter, which the profile forbids"@, ErrorCode::ForbiddenParameter),
        ("response-missing-created"@, "the response signature omits the mandatory `created` parameter"@, ErrorCode::MissingParameter),
        ("response-missing-expires"@, "the response signature omits the mandatory `expires` parameter"@, ErrorCode::MissingParameter),
        ("response-missing-nonce"@, "the response signature omits the mandatory `nonce` parameter"@, ErrorCode::MissingParameter),
        ("response-wrong-tag"@, "the response signature's `tag` is not `wimse-workload-to-workload`"@, ErrorCode::WrongTag),
    ]
}

/// The parameters the response profile case `i` is signed with.
pub open spec fn response_profile_params(i: int, p: ParamsView) -> ParamsView {
    if i == 0 {
        ParamsView { wimse_aud: Some(AUDIENCE@), ..p }
    } else if i == 1 {
        ParamsView { wimse_req_nonce: None, ..p }
    } else if i == 2 {
        ParamsView { alg: Some("ed25519"@), ..p }
    } else if i == 3 {
        ParamsView { keyid: Some(KID@), ..p }
    } else if i == 4 {
        ParamsView { created: None, ..p }
    } else if i == 5 {
        ParamsView { expires: None, ..p }
    } else if i == 6 {
        ParamsView { nonce: None, ..p }
    } else {
        ParamsView { tag: Some("some-other-protocol"@), ..p }
    }
}

pub open spec fn response_profile_signed(
    exchange: &HttpExchange,
    cs: Seq<ComponentView>,
    p: ParamsView,
    key: crate::jose::SigningKeyView,
    i: int,
) -> Result<(Seq<char>, Seq<char>), HttpSigFailure> {
    sign_spec(exchange, cs, response_profile_params(i, p), LABEL@, key)
}

/// The response profile case `i`.
pub open spec fn response_profile_negative(
    exchange: &HttpExchange,
    cs: Seq<ComponentView>,
    p: ParamsView,
    key: crate::jose::SigningKeyView,
    i: int,
) -> ResponseNegativeView {
    let (id, description, expect) = response_profile_cases()[i];
    let signed = response_profile_signed(exchange, cs, p, key, i);
    ResponseNegativeView {
        signature_input: Some(fields_of(signed).0),
        signature: Some(fields_of(signed).1),
        ..plain_response_negative(id, description, expect)
    }
}

fn response_case(
    exchange: &HttpExchange,
    components: &[Component],
    altered: &SignatureParams,
    key: &SigningKey,
    id: &str,
    description: &str,
    expect: ErrorCode,
) -> (r: Result<ResponseNegative, HttpSigError>)
    ensures
        match sign_spec(exchange, components_view(components@), altered@, LABEL@, key@) {
            Ok(f) => r matches Ok(n) && n@ == (ResponseNegativeView {
                signature_input: Some(f.0),
                signature: Some(f.1),
                ..plain_response_negative(id@, description@, expect)
            }),
            Err(e) => r matches Err(f) && f@ == e,
        },
{
    match sign(exchange, components, altered, LABEL, key) {
        Ok(signed) => {
            let mut case: ResponseNegative = response_neg(id, description, expect);
            case.signature_input = Some(signed.signature_input);
            case.signature = Some(signed.signature);
            Ok(case)
        },
        Err(e) => Err(e),
    }
}

/// The response profile rules, one broken in each case, every case genuinely
/// signed. Succeeds exactly when every case can be signed.
pub fn response_profile_negatives(
    exchange: &HttpExchange,
    components: &[Component],
    params: &SignatureParams,
    key: &SigningKey,
) -> (r: Result<Vec<ResponseNegative>, HttpSigError>)
    ensures
        match r {
            Ok(cases) => cases@.len() == response_profile_cases().len() && forall|i: int|
                0 <= i < cases@.len() ==> (#[trigger] cases@[i])@ == response_profile_negative(
                    exchange,
                    components_view(components@),
                    params@,
                    key@,
                    i,
                ),
            Err(e) => exists|i: int|
                0 <= i < response_profile_cases().len() && #[trigger] response_profile_signed(
                    exchange,
                    components_view(components@),
                    params@,
                    key@,
                    i,
                ) == Err::<(Seq<char>, Seq<char>), HttpSigFailure>(e@),
        },
{
    let ghost cs = components_view(components@);
    let ghost p = params@;
    let p0: SignatureParams = SignatureParams { wimse_aud: Some(owned(AUDIENCE)), ..clone_params(params) };
    let p1: SignatureParams = SignatureParams { wimse_req_nonce: None, ..clone_params(params) };
    let p2: SignatureParams = SignatureParams { alg: Some(owned("ed25519")), ..clone_params(params) };
    let p3: SignatureParams = SignatureParams { keyid: Some(owned(KID)), ..clone_params(params) };
    let p4: SignatureParams = SignatureParams { created: None, ..clone_params(params) };
    let p5: SignatureParams = SignatureParams { expires: None, ..clone_params(params) };
    let p6: SignatureParams = SignatureParams { nonce: None, ..clone_params(params) };
    let p7: SignatureParams = SignatureParams { tag: Some(owned("some-other-protocol")), ..clone_params(params) };
    assert(p0@ == response_profile_params(0, p));
    assert(p1@ == response_profile_params(1, p));
    assert(p2@ == response_profile_params(2, p));
    assert(p3@ == response_profile_params(3, p));
    assert(p4@ == response_profile_params(4, p));
    assert(p5@ == response_profile_params(5, p));
    assert(p6@ == response_profile_params(6, p));
    assert(p7@ == response_profile_params(7, p));
    let c0 = match response_case(exchange, components, &p0, key, "response-carries-wimse-aud", "the response signature carries `wimse-aud`, which is forbidden coming back", ErrorCode::ForbiddenParameter) {
        Ok(c) => c,
        Err(e) => {
            assert(response_profile_signed(exchange, cs, p, key@, 0) == Err::<(Seq<char>, Seq<char>), HttpSigFailure>(e@));
            return Err(e);
        },
    };
    let c1 = match response_case(exchange, components, &p1, key, "response-missing-req-nonce", "the response must carry back the request's `wimse-req-nonce`", ErrorCode::MissingParameter) {
        Ok(c) => c,
        Err(e) => {
            assert(response_profile_signed(exchange, cs, p, key@, 1) == Err::<(Seq<char>, Seq<char>), HttpSigFailure>(e@));
            return Err(e);
        },
    };
    let c2 = match response_case(exchange, components, &p2, key, "response-forbidden-alg-parameter", "the response signature carries the `alg` parameter, which the profile forbids", ErrorCode::ForbiddenParameter) {
        Ok(c) => c,
        Err(e) => {
            assert(response_profile_signed(exchange, cs, p, key@, 2) == Err::<(Seq<char>, Seq<char>), HttpSigFailure>(e@));
            return Err(e);
        },
    };
    let c3 = match response_case(exchange, components, &p3, key, "response-forbidden-keyid-parameter", "the response signature carries the `keyid` parameter, which the profile forbids", ErrorCode::ForbiddenParameter) {
        Ok(c) => c,
        Err(e) => {
            assert(response_profile_signed(exchange, cs, p, key@, 3) == Err::<(Seq<char>, Seq<char>), HttpSigFailure>(e@));
            return Err(e);
        },
    };
    let c4 = match response_case(exchange, components, &p4, key, "response-missing-created", "the response signature omits the mandatory `created` parameter", ErrorCode::MissingParameter) {
        Ok(c) => c,
        Err(e) => {
            assert(response_profile_signed(exchange, cs, p, key@, 4) == Err::<(Seq<char>, Seq<char>), HttpSigFailure>(e@));
            return Err(e);
        },
    };
    let c5 = match response_case(exchange, components, &p5, key, "response-missing-expires", "the response signature omits the mandatory `expires` parameter", ErrorCode::MissingParameter) {
        Ok(c) => c,
        Err(e) => {
            assert(response_profile_signed(exchange, cs, p, key@, 5) == Err::<(Seq<char>, Seq<char>), HttpSigFailure>(e@));
            return Err(e);
        },
    };
    let c6 = match response_case(exchange, components, &p6, key, "response-missing-nonce", "the response signature omits the mandatory `nonce` parameter", ErrorCode::MissingParameter) {
        Ok(c) => c,
        Err(e) => {
            assert(response_profile_signed(exchange, cs, p, key@, 6) == Err::<(Seq<char>, Seq<char>), HttpSigFailure>(e@));
            return Err(e);
        },
    };
    let c7 = match response_case(exchange, components, &p7, key, "response-wrong-tag", "the response signature's `tag` is not `wimse-workload-to-workload`", ErrorCode::WrongTag) {
        Ok(c) => c,
        Err(e) => {
            assert(response_profile_signed(exchange, cs, p, key@, 7) == Err::<(Seq<char>, Seq<char>), HttpSigFailure>(e@));
            return Err(e);
        },
    };
    let cases: Vec<ResponseNegative> = vec![c0, c1, c2, c3, c4, c5, c6, c7];
    assert forall|i: int| 0 <= i < cases@.len() implies (#[trigger] cases@[i])@ == response_profile_negative(
        exchange,
        cs,
        p,
        key@,
        i,
    ) by {
        if i == 0 {
        } else if i == 1 {
        } else if i == 2 {
        } else if i == 3 {
        } else if i == 4 {
        } else if i == 5 {
        } else if i == 6 {
        } else {
        }
    }
    Ok(cases)
}

/// The body of the golden response.
pub open spec fn response_body() -> Seq<char> {
    "{\"status\":\"accepted\"}"@
}

/// The golden response: `200`, JSON, with the digest of its body.
pub open spec fn golden_response() -> ResponseView {
    ResponseView {
        status: 200,
        headers: seq![
            ("Content-Type"@, "application/json"@),
            ("Content-Digest"@, content_digest_spec(encode_utf8(response_body()))),
        ],
    }
}

/// The components the response signature covers: its status and headers, and
/// the request's method and target (`;req`), which tie it to the request.
pub open spec fn response_components() -> Seq<ComponentView> {
    seq![
        ComponentView::Status,
        ComponentView::Header(spec_lower_seq("content-type"@)),
        ComponentView::Header(spec_lower_seq("content-digest"@)),
        ComponentView::Req(Box::new(ComponentView::Method)),
        ComponentView::Req(Box::new(ComponentView::RequestTarget)),
    ]
}

/// The response signature's parameters: no `wimse-aud`, and the request's
/// nonce carried back as `wimse-req-nonce`.
pub open spec fn golden_response_params() -> ParamsView {
    ParamsView {
        created: Some(IAT),
        expires: Some((IAT + 300) as u64),
        keyid: None,
        alg: None,
        nonce: Some(RESPONSE_NONCE@),
        tag: Some(WIMSE_TAG@),
        wimse_aud: None,
        wimse_sign_response: None,
        wimse_req_nonce: Some(NONCE@),
    }
}

/// The cases that reuse the response's own signature.
pub open spec fn response_other_negatives(rv: RequestView) -> Seq<ResponseNegativeView> {
    seq![
        ResponseNegativeView {
            request: Some(rerouted(rv)),
            ..plain_response_negative("lifted-onto-another-request"@, "the same signed response, verified against a different request"@, ErrorCode::InvalidSignature)
        },
        ResponseNegativeView {
            expected_req_nonce: Some("some-other-nonce"@),
            ..plain_response_negative("wrong-req-nonce"@, "the client's nonce is not the one the response carries back"@, ErrorCode::RequestNonceMismatch)
        },
    ]
}

/// The quoted identifiers of components, in order.
pub open spec fn quoted_ids_spec(cs: Seq<ComponentView>) -> Seq<Seq<char>> {
    cs.map_values(|c: ComponentView| quoted_id_spec(c))
}

fn quoted_ids(cs: &Vec<Component>) -> (r: Vec<String>)
    ensures
        strings_of(r@) == quoted_ids_spec(components_view(cs@)),
{
    let mut out: Vec<String> = Vec::new();
    let mut i: usize = 0;
    while i < cs.len()
        invariant
            i <= cs@.len(),
            strings_of(out@) == quoted_ids_spec(components_view(cs@.take(i as int))),
        decreases cs@.len() - i,
    {
        let ghost before = out@;
        let q: String = cs[i].quoted_id();
        out.push(q);
        assert(strings_of(out@) =~= strings_of(before).push(q@));
        assert(cs@.take(i + 1) =~= cs@.take(i as int).push(cs@[i as int]));
        assert(quoted_ids_spec(components_view(cs@.take(i + 1))) =~= quoted_ids_spec(
            components_view(cs@.take(i as int)),
        ).push(quoted_id_spec(cs@[i as int]@)));
        i = i + 1;
    }
    assert(cs@.take(cs@.len() as int) =~= cs@);
    out
}

/// What the recorded response of a vector holds, for the exchange `x` it was
/// signed in.
pub open spec fn response_vector_holds(
    v: VectorResponse,
    x: &HttpExchange,
    rv: RequestView,
    key: crate::jose::SigningKeyView,
) -> bool {
    &&& v.status == 200
    &&& headers_view(v.headers@) == golden_response().headers
    &&& v.body@ == response_body()
    &&& strings_of(v.components@) == quoted_ids_spec(response_components())
    &&& v.params.created == IAT
    &&& v.params.expires == IAT + 300
    &&& v.params.nonce@ == RESPONSE_NONCE@
    &&& v.params.tag@ == WIMSE_TAG@
    &&& v.params.wimse_aud@ == Seq::<char>::empty()
    &&& v.params.wimse_sign_response is None
    &&& opt_view(v.params.wimse_req_nonce) == Some(NONCE@)
    &&& sign_spec(x, response_components(), golden_response_params(), LABEL@, key) == Ok::<
        (Seq<char>, Seq<char>),
        HttpSigFailure,
    >((v.signature_input@, v.signature@))
    &&& v.expected_req_nonce@ == NONCE@
    &&& v.negative@.len() == response_profile_cases().len() + 2
    &&& forall|i: int|
        0 <= i < response_profile_cases().len() ==> (#[trigger] v.negative@[i])@
            == response_profile_negative(x, response_components(), golden_response_params(), key, i)
    &&& forall|i: int|
        0 <= i < 2 ==> (#[trigger] v.negative@[response_profile_cases().len() + i])@
            == response_other_negatives(rv)[i]
}

/// Why the response could not be made in the exchange `x`: its own signature,
/// or one of its profile cases, could not be signed.
pub open spec fn response_refused(
    e: HttpSigFailure,
    x: &HttpExchange,
    key: crate::jose::SigningKeyView,
) -> bool {
    ||| sign_spec(x, response_components(), golden_response_params(), LABEL@, key) == Err::<
        (Seq<char>, Seq<char>),
        HttpSigFailure,
    >(e)
    ||| exists|i: int|
        0 <= i < response_profile_cases().len() && #[trigger] response_profile_signed(
            x,
            response_components(),
            golden_response_params(),
            key,
            i,
        ) == Err::<(Seq<char>, Seq<char>), HttpSigFailure>(e)
}

/// The signed response to `request`: covered `;req` components tie it to the
/// request, and `wimse-req-nonce` carries the request's nonce back; with the
/// cases a verifier must refuse.
pub fn httpsig_response(request: &HttpRequest, key: &SigningKey) -> (r: Result<
    VectorResponse,
    HttpSigError,
>)
    ensures
        match r {
            Ok(v) => exists|x: HttpExchange|
                #![trigger response_vector_holds(v, &x, request@, key@)]
                x.response@ == golden_response() && x.request@ == request@ && response_vector_holds(
                    v,
                    &x,
                    request@,
                    key@,
                ),
            Err(e) => exists|x: HttpExchange|
                #![trigger response_refused(e@, &x, key@)]
                x.response@ == golden_response() && x.request@ == request@ && response_refused(
                    e@,
                    &x,
                    key@,
                ),
        },
{
    let body: &str = "{\"status\":\"accepted\"}";
    let digest: String = content_digest_sha256(body.as_bytes());
    let headers: Vec<(String, String)> = vec![
        (owned("Content-Type"), owned("application/json")),
        (owned("Content-Digest"), digest),
    ];
    let response: HttpResponse = HttpResponse { status: 200, headers };
    assert(response@ == golden_response()) by {
        assert(headers_view(response.headers@) =~= golden_response().headers);
    }
    let exchange: HttpExchange = HttpExchange { response: &response, request };
    let ct: Component = Component::header("content-type");
    let cd: Component = Component::header("content-digest");
    let rm: Component = Component::Req(Box::new(Component::Method));
    let rt: Component = Component::Req(Box::new(Component::RequestTarget));
    assert(rm@ == ComponentView::Req(Box::new(ComponentView::Method))) by {
        reveal_with_fuel(component_view, 2);
    }
    assert(rt@ == ComponentView::Req(Box::new(ComponentView::RequestTarget))) by {
        reveal_with_fuel(component_view, 2);
    }
    let components: Vec<Component> = vec![Component::Status, ct, cd, rm, rt];
    assert(components_view(components@) =~= response_components());
    let params: SignatureParams = SignatureParams {
        created: Some(IAT),
        expires: Some(IAT + 300),
        keyid: None,
        alg: None,
        nonce: Some(owned(RESPONSE_NONCE)),
        tag: Some(owned(WIMSE_TAG)),
        wimse_aud: None,
        wimse_sign_response: None,
        wimse_req_nonce: Some(owned(NONCE)),
    };
    assert(params@ == golden_response_params());
    let signed = match sign(&exchange, components.as_slice(), &params, LABEL, key) {
        Ok(s) => s,
        Err(e) => {
            assert(response_refused(e@, &exchange, key@));
            return Err(e);
        },
    };
    let mut negative: Vec<ResponseNegative> = match response_profile_negatives(
        &exchange,
        components.as_slice(),
        &params,
        key,
    ) {
        Ok(n) => n,
        Err(e) => {
            assert(response_refused(e@, &exchange, key@));
            return Err(e);
        },
    };
    let ghost profile = negative@;
    let mut lifted = response_neg("lifted-onto-another-request", "the same signed response, verified against a different request", ErrorCode::InvalidSignature);
    let mut moved = clone_request(request);
    moved.path = owned("/admin");
    lifted.request = Some(moved);
    let mut nonce = response_neg("wrong-req-nonce", "the client's nonce is not the one the response carries back", ErrorCode::RequestNonceMismatch);
    nonce.expected_req_nonce = Some(owned("some-other-nonce"));
    assert(lifted@ == response_other_negatives(request@)[0]);
    assert(nonce@ == response_other_negatives(request@)[1]);
    negative.push(lifted);
    negative.push(nonce);
    assert forall|i: int| 0 <= i < response_profile_cases().len() implies (#[trigger] negative@[i])@
        == response_profile_negative(&exchange, response_components(), golden_response_params(), key@, i) by {
        assert(negative@[i] == profile[i]);
    }
    let names: Vec<String> = quoted_ids(&components);
    let v: VectorResponse = VectorResponse {
        status: 200,
        headers: crate::conformance::signatures::clone_headers(&response.headers),
        body: owned(body),
        components: names,
        params: VectorParams {
            created: IAT,
            expires: IAT + 300,
            nonce: owned(RESPONSE_NONCE),
            tag: owned(WIMSE_TAG),
            wimse_aud: owned(""),
            wimse_sign_response: None,
            wimse_req_nonce: Some(owned(NONCE)),
        },
        signature_input: signed.signature_input,
        signature: signed.signature,
        expected_req_nonce: owned(NONCE),
        negative,
    };
    assert(headers_view(v.headers@) == golden_response().headers);
    assert(strings_of(v.components@) == quoted_ids_spec(response_components()));
    assert(sign_spec(&exchange, response_components(), golden_response_params(), LABEL@, key@) == Ok::<
        (Seq<char>, Seq<char>),
        HttpSigFailure,
    >((v.signature_input@, v.signature@)));
    assert(v.negative@.len() == response_profile_cases().len() + 2);
    assert(forall|i: int|
        0 <= i < 2 ==> (#[trigger] v.negative@[response_profile_cases().len() + i])@
            == response_other_negatives(request@)[i]);
    assert(forall|i: int|
        0 <= i < response_profile_cases().len() ==> (#[trigger] v.negative@[i])@
            == response_profile_negative(&exchange, response_components(), golden_response_params(), key@, i));
    assert(v.params.wimse_aud@ == Seq::<char>::empty()) by {
        reveal_strlit("");
    }
    assert(opt_view(v.params.wimse_req_nonce) == Some(NONCE@));
    assert(v.body@ == response_body());
    assert(response_vector_holds(v, &exchange, request@, key@));
    Ok(v)
}

// ---------------------------------------------------------------------------
// The vector.
// ---------------------------------------------------------------------------

/// The draft revision the httpsig vector follows.
pub const HTTPSIG_SPEC: &'static str = "draft-ietf-wimse-http-signature-06";

/// The body of the golden request.
pub open spec fn golden_body() -> Seq<char> {
    "{\"amount\":100}"@
}

/// The golden request: a JSON `POST` carrying the digest of its body and the
/// WIT.
pub open spec fn golden_request(wit: Seq<char>) -> RequestView {
    RequestView {
        method: "POST"@,
        authority: "service.example"@,
        path: "/transfer"@,
        query: None,
        headers: seq![
            ("Content-Type"@, "application/json"@),
            ("Content-Digest"@, content_digest_spec(encode_utf8(golden_body()))),
            ("Workload-Identity-Token"@, wit),
        ],
    }
}

/// The components the request signature covers: the ones the profile
/// requires of a request with a body and a WIT.
pub open spec fn request_components() -> Seq<ComponentView> {
    seq![
        ComponentView::Method,
        ComponentView::RequestTarget,
        ComponentView::Header(spec_lower_seq("content-type"@)),
        ComponentView::Header(spec_lower_seq("content-digest"@)),
        ComponentView::Header(spec_lower_seq("workload-identity-token"@)),
    ]
}

/// The request signature's parameters, which ask for a signed response.
pub open spec fn golden_request_params() -> ParamsView {
    ParamsView {
        created: Some(IAT),
        expires: Some((IAT + 300) as u64),
        keyid: None,
        alg: None,
        nonce: Some(NONCE@),
        tag: Some(WIMSE_TAG@),
        wimse_aud: Some(AUDIENCE@),
        wimse_sign_response: Some(true),
        wimse_req_nonce: None,
    }
}

/// The vector's id: `sign-` and the algorithm, lowercased.
pub open spec fn httpsig_vector_id(alg: Algorithm) -> Seq<char> {
    match alg {
        Algorithm::EdDsa => "sign-eddsa"@,
        Algorithm::Es256 => "sign-es256"@,
    }
}

pub open spec fn httpsig_description(alg: Algorithm) -> Seq<char> {
    "WIMSE HTTP Message Signature (RFC 9421, "@ + alg_name(alg)
        + ") carrying a WIT, plus the inputs a verifier must reject"@
}

/// What an httpsig vector for `wit` holds, under the issuer key and the
/// proof-of-possession key.
pub open spec fn httpsig_vector_holds(
    v: HttpSigVector,
    issuer: SigningKeyView,
    pop: SigningKeyView,
    wit: Seq<char>,
) -> bool {
    &&& v.header.format@ == FORMAT@
    &&& v.header.suite@ == "httpsig"@
    &&& v.header.id@ == httpsig_vector_id(pop.alg)
    &&& v.header.spec@ == HTTPSIG_SPEC@
    &&& v.header.description@ == httpsig_description(pop.alg)
    &&& v.pop_signing_key@ == spec_private_jwk_of(pop)
    &&& spec_private_key(v.pop_signing_key@) == Ok::<SigningKeyView, JoseFailure>(pop)
    &&& v.issuer_verifying_key@ == spec_jwk_of(public_of(issuer))
    &&& v.verify_now == IAT + 100
    &&& v.label@ == LABEL@
    &&& strings_of(v.components@) == quoted_ids_spec(request_components())
    &&& v.params.created == IAT
    &&& v.params.expires == IAT + 300
    &&& v.params.nonce@ == NONCE@
    &&& v.params.tag@ == WIMSE_TAG@
    &&& v.params.wimse_aud@ == AUDIENCE@
    &&& v.params.wimse_sign_response == Some(true)
    &&& v.params.wimse_req_nonce is None
    &&& v.request@ == golden_request(wit)
    &&& v.body@ == golden_body()
    &&& v.wit@ == wit
    &&& sign_spec(&v.request, request_components(), golden_request_params(), LABEL@, pop) == Ok::<
        (Seq<char>, Seq<char>),
        HttpSigFailure,
    >((v.signature_input@, v.signature@))
    &&& v.negative@.len() == request_profile_cases().len() + 8
    &&& forall|i: int|
        0 <= i < request_profile_cases().len() ==> (#[trigger] v.negative@[i])@
            == request_profile_negative(&v.request, request_components(), golden_request_params(), pop, i)
    &&& forall|i: int|
        0 <= i < 8 ==> (#[trigger] v.negative@[request_profile_cases().len() + i])@
            == request_other_negatives(
            golden_request(wit),
            authority_signed(&v.request, request_components(), golden_request_params(), pop),
        )[i]
    &&& v.response matches Some(resp) && exists|x: HttpExchange|
        #![trigger response_vector_holds(resp, &x, golden_request(wit), pop)]
        x.response@ == golden_response() && x.request@ == golden_request(wit) && response_vector_holds(
            resp,
            &x,
            golden_request(wit),
            pop,
        )
}

/// Why an httpsig vector for the golden request `q` could not be made: a
/// signature it carries could not be made.
pub open spec fn httpsig_vector_refused(e: HttpSigFailure, q: &HttpRequest, pop: SigningKeyView) -> bool {
    ||| sign_spec(q, request_components(), golden_request_params(), LABEL@, pop) == Err::<
        (Seq<char>, Seq<char>),
        HttpSigFailure,
    >(e)
    ||| authority_signed(q, request_components(), golden_request_params(), pop) == Err::<
        (Seq<char>, Seq<char>),
        HttpSigFailure,
    >(e)
    ||| exists|i: int|
        0 <= i < request_profile_cases().len() && #[trigger] request_profile_signed(
            q,
            request_components(),
            golden_request_params(),
            pop,
            i,
        ) == Err::<(Seq<char>, Seq<char>), HttpSigFailure>(e)
    ||| exists|x: HttpExchange|
        #![trigger response_refused(e, &x, pop)]
        x.response@ == golden_response() && x.request@ == q@ && response_refused(e, &x, pop)
}

/// The httpsig vector for a request carrying `wit`: the golden request signed
/// under `pop_key`, the cases a verifier must refuse, and the signed response;
/// with the issuer's public key, which recovers the proof-of-possession key
/// from the WIT.
pub fn httpsig_vector(issuer_key: &SigningKey, pop_key: &SigningKey, wit: String) -> (r: Result<
    HttpSigVector,
    HttpSigError,
>)
    ensures
        match r {
            Ok(v) => httpsig_vector_holds(v, issuer_key@, pop_key@, wit@),
            Err(e) => exists|q: HttpRequest|
                #![trigger httpsig_vector_refused(e@, &q, pop_key@)]
                q@ == golden_request(wit@) && httpsig_vector_refused(e@, &q, pop_key@),
        },
{
    let body: &str = "{\"amount\":100}";
    let headers: Vec<(String, String)> = vec![
        (owned("Content-Type"), owned("application/json")),
        (owned("Content-Digest"), content_digest_sha256(body.as_bytes())),
        (owned("Workload-Identity-Token"), wit.clone()),
    ];
    let request: HttpRequest = HttpRequest {
        method: owned("POST"),
        authority: owned("service.example"),
        path: owned("/transfer"),
        query: None,
        headers,
    };
    assert(request@ == golden_request(wit@)) by {
        assert(headers_view(request.headers@) =~= golden_request(wit@).headers);
    }
    let components: Vec<Component> = vec![
        Component::Method,
        Component::RequestTarget,
        Component::header("content-type"),
        Component::header("content-digest"),
        Component::header("workload-identity-token"),
    ];
    assert(components_view(components@) =~= request_components());
    let params: SignatureParams = SignatureParams {
        created: Some(IAT),
        expires: Some(IAT + 300),
        keyid: None,
        alg: None,
        nonce: Some(owned(NONCE)),
        tag: Some(owned(WIMSE_TAG)),
        wimse_aud: Some(owned(AUDIENCE)),
        wimse_sign_response: Some(true),
        wimse_req_nonce: None,
    };
    assert(params@ == golden_request_params());
    let signed = match sign(&request, components.as_slice(), &params, LABEL, pop_key) {
        Ok(s) => s,
        Err(e) => {
            assert(httpsig_vector_refused(e@, &request, pop_key@));
            return Err(e);
        },
    };
    let negative: Vec<HttpSigNegative> = match httpsig_negatives(&request, components.as_slice(), &params, pop_key) {
        Ok(n) => n,
        Err(e) => {
            assert(httpsig_vector_refused(e@, &request, pop_key@));
            return Err(e);
        },
    };
    let response: VectorResponse = match httpsig_response(&request, pop_key) {
        Ok(resp) => resp,
        Err(e) => {
            assert(httpsig_vector_refused(e@, &request, pop_key@));
            return Err(e);
        },
    };
    let header: Header = Header {
        format: owned(FORMAT),
        suite: owned("httpsig"),
        id: match pop_key.algorithm() {
            Algorithm::EdDsa => owned("sign-eddsa"),
            Algorithm::Es256 => owned("sign-es256"),
        },
        spec: owned(HTTPSIG_SPEC),
        description: description_for(pop_key.algorithm()),
    };
    let names: Vec<String> = quoted_ids(&components);
    let v: HttpSigVector = HttpSigVector {
        header,
        pop_signing_key: PrivateJwk::from_signing_key(pop_key),
        issuer_verifying_key: Jwk::from_verifying_key(&issuer_key.verifying_key()),
        verify_now: IAT + 100,
        label: owned(LABEL),
        components: names,
        params: VectorParams {
            created: IAT,
            expires: IAT + 300,
            nonce: owned(NONCE),
            tag: owned(WIMSE_TAG),
            wimse_aud: owned(AUDIENCE),
            wimse_sign_response: Some(true),
            wimse_req_nonce: None,
        },
        request,
        body: owned(body),
        wit,
        signature_input: signed.signature_input,
        signature: signed.signature,
        negative,
        response: Some(response),
    };
    assert(httpsig_vector_holds(v, issuer_key@, pop_key@, wit@));
    Ok(v)
}

fn description_for(alg: Algorithm) -> (r: String)
    ensures
        r@ == httpsig_description(alg),
{
    let mut d: String = owned("WIMSE HTTP Message Signature (RFC 9421, ");
    push_str(&mut d, alg.as_str());
    push_str(&mut d, ") carrying a WIT, plus the inputs a verifier must reject");
    d
}

// ---------------------------------------------------------------------------
// What a generated vector does in a run.
// ---------------------------------------------------------------------------

/// A header name of lowercase letters, digits and `-` reads back as itself.
proof fn lemma_plain_name_ok(n: Seq<char>)
    requires
        n.len() > 0,
        forall|i: int|
            0 <= i < n.len() ==> ('a' <= #[trigger] n[i] <= 'z' || '0' <= n[i] <= '9' || n[i] == '-'),
    ensures
        header_name_ok(spec_lower_seq(n)),
        spec_lower_seq(n) == n,
{
    assert(spec_lower_seq(n) =~= n);
}

proof fn lemma_request_components_ok()
    ensures
        forall|i: int| 0 <= i < request_components().len() ==> component_ok(#[trigger] request_components()[i]),
{
    reveal_strlit("content-type");
    reveal_strlit("content-digest");
    reveal_strlit("workload-identity-token");
    lemma_plain_name_ok("content-type"@);
    lemma_plain_name_ok("content-digest"@);
    lemma_plain_name_ok("workload-identity-token"@);
}

proof fn lemma_response_components_ok()
    ensures
        forall|i: int| 0 <= i < response_components().len() ==> component_ok(#[trigger] response_components()[i]),
{
    reveal_strlit("content-type");
    reveal_strlit("content-digest");
    lemma_plain_name_ok("content-type"@);
    lemma_plain_name_ok("content-digest"@);
    assert(component_ok(ComponentView::Req(Box::new(ComponentView::Method)))) by {
        reveal_with_fuel(component_ok, 2);
    }
    assert(component_ok(ComponentView::Req(Box::new(ComponentView::RequestTarget)))) by {
        reveal_with_fuel(component_ok, 2);
    }
}

/// Recorded quoted identifiers of components that read back parse to those
/// components.
proof fn lemma_components_read_back(quoted: Seq<String>, cs: Seq<ComponentView>)
    requires
        strings_of(quoted) == quoted_ids_spec(cs),
        forall|i: int| 0 <= i < cs.len() ==> component_ok(#[trigger] cs[i]),
    ensures
        components_of(quoted) == Ok::<Seq<ComponentView>, Seq<char>>(cs),
    decreases quoted.len(),
{
    assert(quoted.len() == strings_of(quoted).len());
    if quoted.len() > 0 {
        let n = (quoted.len() - 1) as int;
        assert(cs.len() == quoted.len());
        assert forall|i: int| 0 <= i < n implies #[trigger] strings_of(quoted.drop_last())[i]
            == quoted_ids_spec(cs.drop_last())[i] by {
            assert(quoted.drop_last()[i] == quoted[i]);
            assert(strings_of(quoted)[i] == quoted_ids_spec(cs)[i]);
        }
        assert(strings_of(quoted.drop_last()) =~= quoted_ids_spec(cs.drop_last()));
        lemma_components_read_back(quoted.drop_last(), cs.drop_last());
        assert(quoted.last()@ == strings_of(quoted)[n]);
        assert(quoted.last()@ == quoted_id_spec(cs[n]));
        lemma_quoted_id_round_trip(cs[n]);
        assert(cs.drop_last().push(cs[n]) =~= cs);
    } else {
        assert(cs =~= Seq::<ComponentView>::empty());
    }
}

/// A generated httpsig vector reproduces: a run that re-signs the request from
/// what the vector records (its key, covered components, parameters and
/// label) gets back the recorded `Signature-Input` and `Signature`, whatever
/// key the WIT yields.
pub proof fn lemma_generated_vector_reproduces(
    v: HttpSigVector,
    issuer: SigningKeyView,
    pop: SigningKeyView,
    wit: Seq<char>,
    wit_key: Result<VerifyingKeyView, Seq<char>>,
)
    requires
        httpsig_vector_holds(v, issuer, pop, wit),
    ensures
        httpsig_checks(v, wit_key).len() > 0,
        httpsig_checks(v, wit_key)[0] == check_of(vector_name(v.header), "reproduce"@, Ok(())),
{
    assert(spec_private_key(v.pop_signing_key@) == Ok::<SigningKeyView, JoseFailure>(pop));
    assert(strings_of(v.components@) == quoted_ids_spec(request_components()));
    lemma_request_components_ok();
    lemma_components_read_back(v.components@, request_components());
    lemma_reproduce_is_first(v, wit_key, pop, request_components());
    assert(request_params(v.params) == golden_request_params());
}

/// The response a generated httpsig vector records reproduces as well: once
/// the key is recovered from the WIT, re-signing the recorded response over
/// the recorded request gives back its recorded fields.
pub proof fn lemma_generated_response_reproduces(
    v: HttpSigVector,
    issuer: SigningKeyView,
    pop: SigningKeyView,
    wit: Seq<char>,
    k: VerifyingKeyView,
)
    requires
        httpsig_vector_holds(v, issuer, pop, wit),
    ensures
        v.response matches Some(r) && response_checks(v, r, Ok(k)).len() > 0 && response_checks(v, r, Ok(k))[0]
            == check_of(vector_name(v.header), "response/reproduce"@, Ok(())),
{
    let r = v.response->0;
    let x = choose|x: HttpExchange|
        #![trigger response_vector_holds(r, &x, golden_request(wit), pop)]
        x.response@ == golden_response() && x.request@ == golden_request(wit) && response_vector_holds(
            r,
            &x,
            golden_request(wit),
            pop,
        );
    assert(strings_of(r.components@) == quoted_ids_spec(response_components()));
    lemma_response_components_ok();
    lemma_components_read_back(r.components@, response_components());
    assert(response_params(r.params) == golden_response_params());
    let y = exchange_of(&response_of(r), &v.request);
    assert(y.response@ == x.response@);
    lemma_exchange_same(y, x);
    lemma_response_reproduce_is_first(v, r, k, pop, response_components());
}

} // verus!
