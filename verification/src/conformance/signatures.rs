//! The HTTP message signature suite: a vector records a signed request (and,
//! when the request asks for one, the signed response to it), and an
//! implementation must re-sign both byte for byte, verify them, bind their
//! bodies, and refuse every negative case for its recorded reason.
//!
//! Section 3 of the binding requires validating the WIT before the message
//! signature, so the verifying key is the one recovered from the WIT the
//! request carries; that recovery (a token with JSON inside) is the caller's,
//! and its outcome is handed in.

use vstd::prelude::*;
use vstd::utf8::encode_utf8;

use crate::conformance::{
    check_of, expect_reject, httpsig_error_code, reject_outcome, vector_name, CheckView, ErrorCode,
    Header, HttpSigNegative, Report, ResponseNegative, VectorParams, VectorRequest, VectorResponse,
};
use crate::httpsig::message::{
    content_digest_spec, from_quoted_id_spec, headers_view, verify_content_digest, Component,
    ComponentView, HttpExchange, HttpRequest, HttpResponse,
};
use crate::httpsig::params::{components_view, ParamsView, SignatureParams};
use crate::httpsig::signature::{
    base_lines, base_spec, sign, sign_spec, signed_result, verified_result, verify, verify_spec,
    ConfigView, VerifyConfig,
};
use crate::jose::{
    opt_view, spec_private_key, Jwk, PrivateJwk, SigningKey, SigningKeyView, VerifyingKey,
    VerifyingKeyView,
};
use crate::text::{eq_ignore_case, owned, push_str, str_eq, str_eq_ignore_case};

verus! {

broadcast use vstd::string::group_string_axioms;

/// An HTTP message signature vector.
#[derive(Debug)]
pub struct HttpSigVector {
    /// The common header fields.
    pub header: Header,
    /// The workload's proof-of-possession private key.
    pub pop_signing_key: PrivateJwk,
    /// The issuer's public key, the trust anchor for `wit`.
    pub issuer_verifying_key: Jwk,
    /// The time at which the positive case must verify.
    pub verify_now: u64,
    /// The signature label.
    pub label: String,
    /// The covered component identifiers, quoted as they appear on the wire.
    pub components: Vec<String>,
    /// The signature parameters.
    pub params: VectorParams,
    /// The request being signed.
    pub request: VectorRequest,
    /// The request body the `Content-Digest` header covers.
    pub body: String,
    /// The WIT carried in the `Workload-Identity-Token` header.
    pub wit: String,
    /// The expected `Signature-Input` field value, byte for byte.
    pub signature_input: String,
    /// The expected `Signature` field value, byte for byte.
    pub signature: String,
    /// Inputs that must be rejected, and why.
    pub negative: Vec<HttpSigNegative>,
    /// The signed response to this request, when the request asked for one.
    pub response: Option<VectorResponse>,
}

// ---------------------------------------------------------------------------
// Reading a vector.
// ---------------------------------------------------------------------------

/// The recorded covered components, parsed; or the first that does not parse.
pub open spec fn components_of(quoted: Seq<String>) -> Result<Seq<ComponentView>, Seq<char>>
    decreases quoted.len(),
{
    if quoted.len() == 0 {
        Ok(Seq::empty())
    } else {
        match components_of(quoted.drop_last()) {
            Err(d) => Err(d),
            Ok(cs) => match from_quoted_id_spec(quoted.last()@) {
                Ok(c) => Ok(cs.push(c)),
                Err(_) => Err("component `"@ + quoted.last()@ + "` does not parse"@),
            },
        }
    }
}

proof fn lemma_components_err(quoted: Seq<String>, i: int, j: int)
    requires
        0 <= i <= j <= quoted.len(),
        components_of(quoted.take(i)) is Err,
    ensures
        components_of(quoted.take(j)) == components_of(quoted.take(i)),
    decreases j - i,
{
    if j > i {
        lemma_components_err(quoted, i, j - 1);
        assert(quoted.take(j).drop_last() =~= quoted.take(j - 1));
    }
}

fn components(quoted: &Vec<String>) -> (r: Result<Vec<Component>, String>)
    ensures
        match r {
            Ok(cs) => components_of(quoted@) == Ok::<Seq<ComponentView>, Seq<char>>(
                components_view(cs@),
            ),
            Err(d) => components_of(quoted@) == Err::<Seq<ComponentView>, Seq<char>>(d@),
        },
{
    let mut out: Vec<Component> = Vec::new();
    let mut i: usize = 0;
    assert(quoted@.take(0) =~= Seq::<String>::empty());
    assert(components_view(out@) =~= Seq::<ComponentView>::empty());
    while i < quoted.len()
        invariant
            i <= quoted@.len(),
            components_of(quoted@.take(i as int)) == Ok::<Seq<ComponentView>, Seq<char>>(
                components_view(out@),
            ),
        decreases quoted@.len() - i,
    {
        assert(quoted@.take(i + 1).drop_last() =~= quoted@.take(i as int));
        assert(quoted@.take(i + 1).last() == quoted@[i as int]);
        match Component::from_quoted_id(quoted[i].as_str()) {
            Ok(c) => {
                let ghost before = out@;
                out.push(c);
                assert(components_view(out@) =~= components_view(before).push(c@));
            },
            Err(_) => {
                let mut d: String = owned("component `");
                push_str(&mut d, quoted[i].as_str());
                push_str(&mut d, "` does not parse");
                proof {
                    lemma_components_err(quoted@, i + 1, quoted@.len() as int);
                    assert(quoted@.take(quoted@.len() as int) =~= quoted@);
                }
                return Err(d);
            },
        }
        i = i + 1;
    }
    assert(quoted@.take(quoted@.len() as int) =~= quoted@);
    Ok(out)
}

/// The parameters a request signature is made with: those recorded, and no
/// `keyid` or `alg`, which the profile forbids.
pub open spec fn request_params(p: VectorParams) -> ParamsView {
    ParamsView {
        created: Some(p.created),
        expires: Some(p.expires),
        keyid: None,
        alg: None,
        nonce: Some(p.nonce@),
        tag: Some(p.tag@),
        wimse_aud: Some(p.wimse_aud@),
        wimse_sign_response: p.wimse_sign_response,
        wimse_req_nonce: opt_view(p.wimse_req_nonce),
    }
}

/// The parameters a response signature is made with: no `wimse-aud`, which
/// names the service a request is for and means nothing coming back.
pub open spec fn response_params(p: VectorParams) -> ParamsView {
    ParamsView {
        created: Some(p.created),
        expires: Some(p.expires),
        keyid: None,
        alg: None,
        nonce: Some(p.nonce@),
        tag: Some(p.tag@),
        wimse_aud: None,
        wimse_sign_response: None,
        wimse_req_nonce: opt_view(p.wimse_req_nonce),
    }
}

fn clone_opt(o: &Option<String>) -> (r: Option<String>)
    ensures
        opt_view(r) == opt_view(*o),
{
    match o {
        Some(s) => Some(s.clone()),
        None => None,
    }
}

fn request_signature_params(p: &VectorParams) -> (r: SignatureParams)
    ensures
        r@ == request_params(*p),
{
    SignatureParams {
        created: Some(p.created),
        expires: Some(p.expires),
        keyid: None,
        alg: None,
        nonce: Some(p.nonce.clone()),
        tag: Some(p.tag.clone()),
        wimse_aud: Some(p.wimse_aud.clone()),
        wimse_sign_response: p.wimse_sign_response,
        wimse_req_nonce: clone_opt(&p.wimse_req_nonce),
    }
}

fn response_signature_params(p: &VectorParams) -> (r: SignatureParams)
    ensures
        r@ == response_params(*p),
{
    SignatureParams {
        created: Some(p.created),
        expires: Some(p.expires),
        keyid: None,
        alg: None,
        nonce: Some(p.nonce.clone()),
        tag: Some(p.tag.clone()),
        wimse_aud: None,
        wimse_sign_response: None,
        wimse_req_nonce: clone_opt(&p.wimse_req_nonce),
    }
}

/// How a receiver verifies a request: under the WIMSE request profile, for
/// the audience it serves.
pub open spec fn request_config(
    now: u64,
    required: Seq<ComponentView>,
    label: Option<Seq<char>>,
    max_age: Option<u64>,
    audience: Seq<char>,
) -> ConfigView {
    ConfigView {
        now: Some(now),
        leeway: 0,
        label,
        required,
        max_age,
        wimse_profile: true,
        wimse_response_profile: false,
        expected_audience: Some(audience),
        expected_req_nonce: None,
    }
}

/// How a client verifies the response to its request: under the WIMSE
/// response profile, expecting its own nonce back.
pub open spec fn response_config(
    now: u64,
    required: Seq<ComponentView>,
    label: Seq<char>,
    nonce: Seq<char>,
) -> ConfigView {
    ConfigView {
        now: Some(now),
        leeway: 0,
        label: Some(label),
        required,
        max_age: None,
        wimse_profile: false,
        wimse_response_profile: true,
        expected_audience: None,
        expected_req_nonce: Some(nonce),
    }
}

fn clone_components(cs: &Vec<Component>) -> (r: Vec<Component>)
    ensures
        components_view(r@) == components_view(cs@),
{
    let mut out: Vec<Component> = Vec::new();
    let mut i: usize = 0;
    while i < cs.len()
        invariant
            i <= cs@.len(),
            components_view(out@) == components_view(cs@.take(i as int)),
        decreases cs@.len() - i,
    {
        let ghost before = out@;
        out.push(cs[i].clone());
        assert(components_view(out@) =~= components_view(before).push(cs@[i as int]@));
        assert(cs@.take(i + 1) =~= cs@.take(i as int).push(cs@[i as int]));
        assert(components_view(cs@.take(i + 1)) =~= components_view(cs@.take(i as int)).push(
            cs@[i as int]@,
        ));
        i = i + 1;
    }
    assert(cs@.take(cs@.len() as int) =~= cs@);
    out
}

fn request_verify_config(
    now: u64,
    required: Vec<Component>,
    label: Option<String>,
    max_age: Option<u64>,
    audience: String,
) -> (r: VerifyConfig)
    ensures
        r@ == request_config(now, components_view(required@), opt_view(label), max_age, audience@),
{
    VerifyConfig {
        now: Some(now),
        leeway: 0,
        label,
        required_components: required,
        max_age,
        wimse_profile: true,
        wimse_response_profile: false,
        expected_audience: Some(audience),
        expected_req_nonce: None,
    }
}

fn response_verify_config(now: u64, required: Vec<Component>, label: String, nonce: String) -> (r:
    VerifyConfig)
    ensures
        r@ == response_config(now, components_view(required@), label@, nonce@),
{
    VerifyConfig {
        now: Some(now),
        leeway: 0,
        label: Some(label),
        required_components: required,
        max_age: None,
        wimse_profile: false,
        wimse_response_profile: true,
        expected_audience: None,
        expected_req_nonce: Some(nonce),
    }
}

// ---------------------------------------------------------------------------
// Bodies.
// ---------------------------------------------------------------------------

/// The value of the first header field named `name`, in any case.
pub open spec fn first_value(h: Seq<(Seq<char>, Seq<char>)>, name: Seq<char>) -> Option<Seq<char>>
    decreases h.len(),
{
    if h.len() == 0 {
        None
    } else if eq_ignore_case(h[0].0, name) {
        Some(h[0].1)
    } else {
        first_value(h.drop_first(), name)
    }
}

fn content_digest_of(headers: &Vec<(String, String)>) -> (r: Option<&String>)
    ensures
        match r {
            Some(v) => first_value(headers_view(headers@), "content-digest"@) == Some(v@),
            None => first_value(headers_view(headers@), "content-digest"@) is None,
        },
{
    let ghost h = headers_view(headers@);
    let mut i: usize = 0;
    assert(h.skip(0) =~= h);
    while i < headers.len()
        invariant
            i <= headers@.len(),
            h == headers_view(headers@),
            first_value(h, "content-digest"@) == first_value(h.skip(i as int), "content-digest"@),
        decreases headers@.len() - i,
    {
        assert(h.skip(i as int)[0] == (headers@[i as int].0@, headers@[i as int].1@));
        if str_eq_ignore_case(headers[i].0.as_str(), "content-digest") {
            return Some(&headers[i].1);
        }
        assert(h.skip(i as int).drop_first() =~= h.skip(i + 1));
        i = i + 1;
    }
    assert(h.skip(i as int).len() == 0);
    None
}

/// Whether a message binds its body: its `Content-Digest` header is the
/// SHA-256 digest of the recorded body. `missing` says which message lacks
/// the header.
pub open spec fn digest_outcome(
    headers: Seq<(Seq<char>, Seq<char>)>,
    body: Seq<char>,
    missing: Seq<char>,
) -> Result<(), Seq<char>> {
    match first_value(headers, "content-digest"@) {
        None => Err(missing),
        Some(d) => if d == content_digest_spec(encode_utf8(body)) {
            Ok(())
        } else {
            Err("`Content-Digest` does not match the recorded body"@)
        },
    }
}

fn check_digest(headers: &Vec<(String, String)>, body: &String, missing: &str) -> (r: Result<
    (),
    String,
>)
    ensures
        match r {
            Ok(_) => digest_outcome(headers_view(headers@), body@, missing@) == Ok::<(), Seq<char>>(
                (),
            ),
            Err(d) => digest_outcome(headers_view(headers@), body@, missing@) == Err::<
                (),
                Seq<char>,
            >(d@),
        },
{
    match content_digest_of(headers) {
        None => Err(owned(missing)),
        Some(d) => {
            if verify_content_digest(d.as_str(), body.as_str().as_bytes()) {
                Ok(())
            } else {
                Err(owned("`Content-Digest` does not match the recorded body"))
            }
        },
    }
}

// ---------------------------------------------------------------------------
// Outcomes.
// ---------------------------------------------------------------------------

/// Whether re-signing reproduced the recorded fields; `response` picks the
/// wording of the details.
pub open spec fn reproduce_outcome(
    signed: Result<(Seq<char>, Seq<char>), crate::httpsig::message::HttpSigFailure>,
    input: Seq<char>,
    sig: Seq<char>,
    response: bool,
) -> Result<(), Seq<char>> {
    match signed {
        Err(_) => Err(
            if response {
                "re-signing the response failed"@
            } else {
                "re-signing failed"@
            },
        ),
        Ok((i, s)) => if i != input {
            Err(
                if response {
                    "re-signed response `Signature-Input` differs"@
                } else {
                    "re-signed `Signature-Input` differs from the recorded one"@
                },
            )
        } else if s != sig {
            Err(
                if response {
                    "re-signed response `Signature` differs"@
                } else {
                    "re-signed `Signature` differs from the recorded one"@
                },
            )
        } else {
            Ok(())
        },
    }
}

/// The code a verification outcome is recorded as.
pub open spec fn verify_code(
    r: Result<(Seq<char>, Seq<ComponentView>, ParamsView), crate::httpsig::message::HttpSigFailure>,
) -> Result<(), ErrorCode> {
    match r {
        Ok(_) => Ok(()),
        Err(f) => Err(httpsig_error_code(f)),
    }
}

fn verified_code(r: Result<crate::httpsig::signature::VerifiedSignature, crate::httpsig::message::HttpSigError>) -> (c: Result<(), ErrorCode>)
    ensures
        c == verify_code(verified_result(r)),
{
    match r {
        Ok(_) => Ok(()),
        Err(e) => Err(ErrorCode::from_httpsig_error(&e)),
    }
}

// ---------------------------------------------------------------------------
// The request.
// ---------------------------------------------------------------------------

/// The key the WIT handed over, by value, or why there is none.
pub open spec fn key_view(k: Result<VerifyingKey, String>) -> Result<VerifyingKeyView, Seq<char>> {
    match k {
        Ok(k) => Ok(k@),
        Err(d) => Err(d@),
    }
}

/// A check's outcome, by value.
pub open spec fn outcome_of(r: Result<(), String>) -> Result<(), Seq<char>> {
    match r {
        Ok(_) => Ok(()),
        Err(d) => Err(d@),
    }
}

/// The positive request case: the recorded fields verify under the key the
/// WIT carries, under the request profile and for the recorded audience, as
/// the recorded label.
pub open spec fn request_verify_outcome(
    v: HttpSigVector,
    covered: Seq<ComponentView>,
    wit_key: Result<VerifyingKeyView, Seq<char>>,
) -> Result<(), Seq<char>> {
    match wit_key {
        Err(d) => Err(d),
        Ok(k) => match verify_spec(
            &v.request,
            v.signature_input@,
            v.signature@,
            k,
            request_config(v.verify_now, covered, None, None, v.params.wimse_aud@),
        ) {
            Err(_) => Err("the signature did not verify"@),
            Ok(t) => if t.0 == v.label@ {
                Ok(())
            } else {
                Err("verified label differs from the recorded one"@)
            },
        },
    }
}

/// A negative request case: the case's request, body, fields and receiver
/// settings, each falling back to the positive case's, are refused for the
/// recorded reason. A case expecting a digest mismatch is decided by the
/// body check alone: the signature still covers the original header verbatim.
pub open spec fn httpsig_reject_result(
    v: HttpSigVector,
    covered: Seq<ComponentView>,
    k: VerifyingKeyView,
    c: HttpSigNegative,
) -> Result<(), Seq<char>> {
    let req = match c.request {
        Some(r) => r,
        None => v.request,
    };
    let body = match c.body {
        Some(b) => b@,
        None => v.body@,
    };
    let input = match c.signature_input {
        Some(s) => s@,
        None => v.signature_input@,
    };
    let sig = match c.signature {
        Some(s) => s@,
        None => v.signature@,
    };
    let now = match c.verify_now {
        Some(n) => n,
        None => v.verify_now,
    };
    let audience = match c.accept_audience {
        Some(a) => a@,
        None => v.params.wimse_aud@,
    };
    if c.expect == ErrorCode::ContentDigestMismatch {
            reject_outcome(
                c.expect,
                match first_value(headers_view(req.headers@), "content-digest"@) {
                    None => Err(ErrorCode::MissingComponent),
                    Some(d) => if d == content_digest_spec(encode_utf8(body)) {
                        Ok(())
                    } else {
                        Err(ErrorCode::ContentDigestMismatch)
                    },
                },
            )
        } else {
            match (match c.required_components {
                Some(q) => components_of(q@),
                None => Ok(covered),
            }) {
                Err(d) => Err(d),
                Ok(required) => reject_outcome(
                    c.expect,
                    verify_code(
                        verify_spec(
                            &req,
                            input,
                            sig,
                            k,
                            request_config(
                                now,
                                required,
                                opt_view(c.accept_label),
                                c.max_age,
                                audience,
                            ),
                        ),
                    ),
                ),
            }
        }
}

/// The check a negative request case records.
pub open spec fn httpsig_reject_check(
    v: HttpSigVector,
    covered: Seq<ComponentView>,
    k: VerifyingKeyView,
    c: HttpSigNegative,
) -> CheckView {
    check_of(vector_name(v.header), "reject/"@ + c.id@, httpsig_reject_result(v, covered, k, c))
}

/// The negative request cases, each refused under the key the WIT carries;
/// without that key, the one failed attempt to recover it.
pub open spec fn negative_checks(
    v: HttpSigVector,
    covered: Seq<ComponentView>,
    wit_key: Result<VerifyingKeyView, Seq<char>>,
) -> Seq<CheckView> {
    match wit_key {
        Err(d) => seq![
            check_of(
                vector_name(v.header),
                "recover the proof-of-possession key from the WIT"@,
                Err(d),
            ),
        ],
        Ok(k) => v.negative@.map_values(|c: HttpSigNegative| httpsig_reject_check(v, covered, k, c)),
    }
}

fn request_reproduce(v: &HttpSigVector, covered: &Vec<Component>, pop: &SigningKey) -> (r: Result<
    (),
    String,
>)
    ensures
        outcome_of(r) == (
            reproduce_outcome(
                sign_spec(
                    &v.request,
                    components_view(covered@),
                    request_params(v.params),
                    v.label@,
                    pop@,
                ),
                v.signature_input@,
                v.signature@,
                false,
            )
        ),
{
    let params: SignatureParams = request_signature_params(&v.params);
    match sign(&v.request, covered.as_slice(), &params, v.label.as_str(), pop) {
        Err(_) => Err(owned("re-signing failed")),
        Ok(signed) => {
            if !str_eq(signed.signature_input.as_str(), v.signature_input.as_str()) {
                Err(owned("re-signed `Signature-Input` differs from the recorded one"))
            } else if !str_eq(signed.signature.as_str(), v.signature.as_str()) {
                Err(owned("re-signed `Signature` differs from the recorded one"))
            } else {
                Ok(())
            }
        },
    }
}

fn request_verify(
    v: &HttpSigVector,
    covered: &Vec<Component>,
    wit_key: &Result<VerifyingKey, String>,
) -> (r: Result<(), String>)
    ensures
        outcome_of(r) == request_verify_outcome(*v, components_view(covered@), key_view(*wit_key)),
{
    let key: &VerifyingKey = match wit_key {
        Ok(k) => k,
        Err(d) => return Err(d.clone()),
    };
    let config: VerifyConfig = request_verify_config(
        v.verify_now,
        clone_components(covered),
        None,
        None,
        v.params.wimse_aud.clone(),
    );
    match verify(&v.request, v.signature_input.as_str(), v.signature.as_str(), key, &config) {
        Err(_) => Err(owned("the signature did not verify")),
        Ok(verified) => {
            if str_eq(verified.label.as_str(), v.label.as_str()) {
                Ok(())
            } else {
                Err(owned("verified label differs from the recorded one"))
            }
        },
    }
}

fn httpsig_reject_outcome(
    v: &HttpSigVector,
    covered: &Vec<Component>,
    k: &VerifyingKey,
    c: &HttpSigNegative,
) -> (r: Result<(), String>)
    ensures
        outcome_of(r) == httpsig_reject_result(*v, components_view(covered@), k@, *c),
{
    let req: &HttpRequest = match &c.request {
        Some(r) => r,
        None => &v.request,
    };
    let body: &String = match &c.body {
        Some(b) => b,
        None => &v.body,
    };
    if c.expect == ErrorCode::ContentDigestMismatch {
        let outcome: Result<(), ErrorCode> = match content_digest_of(&req.headers) {
            None => Err(ErrorCode::MissingComponent),
            Some(d) => {
                if verify_content_digest(d.as_str(), body.as_str().as_bytes()) {
                    Ok(())
                } else {
                    Err(ErrorCode::ContentDigestMismatch)
                }
            },
        };
        return expect_reject(c.expect, outcome);
    }
    let required: Vec<Component> = match &c.required_components {
        Some(q) => match components(q) {
            Ok(cs) => cs,
            Err(d) => return Err(d),
        },
        None => clone_components(covered),
    };
    let now: u64 = match c.verify_now {
        Some(n) => n,
        None => v.verify_now,
    };
    let audience: String = match &c.accept_audience {
        Some(a) => a.clone(),
        None => v.params.wimse_aud.clone(),
    };
    let input: &String = match &c.signature_input {
        Some(s) => s,
        None => &v.signature_input,
    };
    let sig: &String = match &c.signature {
        Some(s) => s,
        None => &v.signature,
    };
    let config: VerifyConfig = request_verify_config(
        now,
        required,
        clone_opt(&c.accept_label),
        c.max_age,
        audience,
    );
    let actual: Result<(), ErrorCode> = verified_code(
        verify(req, input.as_str(), sig.as_str(), k, &config),
    );
    expect_reject(c.expect, actual)
}

// ---------------------------------------------------------------------------
// The response.
// ---------------------------------------------------------------------------

/// The recorded response message.
pub open spec fn response_of(r: VectorResponse) -> HttpResponse {
    HttpResponse { status: r.status, headers: r.headers }
}

/// The recorded response together with a request it claims to answer.
pub open spec fn exchange_of<'a>(response: &'a HttpResponse, request: &'a HttpRequest) -> HttpExchange<'a> {
    HttpExchange { response, request }
}

/// A negative response case: the response, verified against the case's
/// request, fields and expected nonce (each falling back to the positive
/// case's), is refused for the recorded reason.
pub open spec fn response_reject_result(
    v: HttpSigVector,
    r: VectorResponse,
    covered: Seq<ComponentView>,
    k: VerifyingKeyView,
    c: ResponseNegative,
) -> Result<(), Seq<char>> {
    let req = match c.request {
        Some(q) => q,
        None => v.request,
    };
    let nonce = match c.expected_req_nonce {
        Some(n) => n@,
        None => r.expected_req_nonce@,
    };
    let input = match c.signature_input {
        Some(s) => s@,
        None => r.signature_input@,
    };
    let sig = match c.signature {
        Some(s) => s@,
        None => r.signature@,
    };
    reject_outcome(
        c.expect,
        verify_code(
            verify_spec(
                &exchange_of(&response_of(r), &req),
                input,
                sig,
                k,
                response_config(v.verify_now, covered, v.label@, nonce),
            ),
        ),
    )
}

/// The check a negative response case records.
pub open spec fn response_reject_check(
    v: HttpSigVector,
    r: VectorResponse,
    covered: Seq<ComponentView>,
    k: VerifyingKeyView,
    c: ResponseNegative,
) -> CheckView {
    check_of(
        vector_name(v.header),
        "response/reject/"@ + c.id@,
        response_reject_result(v, r, covered, k, c),
    )
}

/// The checks of a signed response: re-signing reproduces it, it verifies
/// under the key the WIT carries and the response profile, expecting the
/// request's nonce back, its body is bound, and every negative case is
/// refused. A missing key, an unparsable component or a signing key that
/// does not load stops the response checks at one failed check.
pub open spec fn response_checks(
    v: HttpSigVector,
    r: VectorResponse,
    wit_key: Result<VerifyingKeyView, Seq<char>>,
) -> Seq<CheckView> {
    let name = vector_name(v.header);
    match wit_key {
        Err(d) => seq![check_of(name, "response/recover the key from the WIT"@, Err(d))],
        Ok(k) => match components_of(r.components@) {
            Err(d) => seq![check_of(name, "response/parse covered components"@, Err(d))],
            Ok(cs) => match spec_private_key(v.pop_signing_key@) {
                Err(_) => seq![
                    check_of(
                        name,
                        "response/load the signing key"@,
                        Err("the proof-of-possession key does not load"@),
                    ),
                ],
                Ok(pop) => seq![
                    check_of(
                        name,
                        "response/reproduce"@,
                        reproduce_outcome(
                            sign_spec(
                                &exchange_of(&response_of(r), &v.request),
                                cs,
                                response_params(r.params),
                                v.label@,
                                pop,
                            ),
                            r.signature_input@,
                            r.signature@,
                            true,
                        ),
                    ),
                    check_of(
                        name,
                        "response/verify"@,
                        match verify_spec(
                            &exchange_of(&response_of(r), &v.request),
                            r.signature_input@,
                            r.signature@,
                            k,
                            response_config(v.verify_now, cs, v.label@, r.expected_req_nonce@),
                        ) {
                            Ok(_) => Ok(()),
                            Err(_) => Err("the response signature did not verify"@),
                        },
                    ),
                    check_of(
                        name,
                        "response/content-digest"@,
                        digest_outcome(
                            headers_view(r.headers@),
                            r.body@,
                            "the response carries no `Content-Digest` header"@,
                        ),
                    ),
                ] + r.negative@.map_values(
                    |c: ResponseNegative| response_reject_check(v, r, cs, k, c),
                ),
            },
        },
    }
}

/// The signature base of an exchange depends on its two messages' contents
/// only.
proof fn lemma_exchange_base_lines(
    a: HttpExchange,
    b: HttpExchange,
    cs: Seq<ComponentView>,
)
    requires
        a.response@ == b.response@,
        a.request@ == b.request@,
    ensures
        base_lines(&a, cs) == base_lines(&b, cs),
    decreases cs.len(),
{
    if cs.len() > 0 {
        lemma_exchange_base_lines(a, b, cs.drop_last());
    }
}

pub(crate) proof fn lemma_exchange_same(a: HttpExchange, b: HttpExchange)
    requires
        a.response@ == b.response@,
        a.request@ == b.request@,
    ensures
        forall|cs: Seq<ComponentView>, pv: Seq<char>| #[trigger] base_spec(&a, cs, pv) == base_spec(&b, cs, pv),
{
    assert forall|cs: Seq<ComponentView>, pv: Seq<char>| #[trigger] base_spec(&a, cs, pv) == base_spec(&b, cs, pv) by {
        lemma_exchange_base_lines(a, b, cs);
    }
}

pub(crate) fn clone_headers(h: &Vec<(String, String)>) -> (r: Vec<(String, String)>)
    ensures
        headers_view(r@) == headers_view(h@),
{
    let mut out: Vec<(String, String)> = Vec::new();
    let mut i: usize = 0;
    while i < h.len()
        invariant
            i <= h@.len(),
            headers_view(out@) == headers_view(h@.take(i as int)),
        decreases h@.len() - i,
    {
        let ghost before = out@;
        let pair: (String, String) = (h[i].0.clone(), h[i].1.clone());
        out.push(pair);
        assert(headers_view(out@) =~= headers_view(before).push((h@[i as int].0@, h@[i as int].1@)));
        assert(h@.take(i + 1) =~= h@.take(i as int).push(h@[i as int]));
        assert(headers_view(h@.take(i + 1)) =~= headers_view(h@.take(i as int)).push(
            (h@[i as int].0@, h@[i as int].1@),
        ));
        i = i + 1;
    }
    assert(h@.take(h@.len() as int) =~= h@);
    out
}

fn response_reject_outcome(
    v: &HttpSigVector,
    r: &VectorResponse,
    http_response: &HttpResponse,
    covered: &Vec<Component>,
    k: &VerifyingKey,
    c: &ResponseNegative,
) -> (res: Result<(), String>)
    requires
        http_response@ == response_of(*r)@,
    ensures
        outcome_of(res) == response_reject_result(*v, *r, components_view(covered@), k@, *c),
{
    let req: &HttpRequest = match &c.request {
        Some(q) => q,
        None => &v.request,
    };
    let exchange: HttpExchange = HttpExchange { response: http_response, request: req };
    proof {
        lemma_exchange_same(exchange, exchange_of(&response_of(*r), req));
    }
    let nonce: String = match &c.expected_req_nonce {
        Some(n) => n.clone(),
        None => r.expected_req_nonce.clone(),
    };
    let input: &String = match &c.signature_input {
        Some(s) => s,
        None => &r.signature_input,
    };
    let sig: &String = match &c.signature {
        Some(s) => s,
        None => &r.signature,
    };
    let config: VerifyConfig = response_verify_config(
        v.verify_now,
        clone_components(covered),
        v.label.clone(),
        nonce,
    );
    let actual: Result<(), ErrorCode> = verified_code(
        verify(&exchange, input.as_str(), sig.as_str(), k, &config),
    );
    expect_reject(c.expect, actual)
}

fn run_response(
    v: &HttpSigVector,
    r: &VectorResponse,
    wit_key: &Result<VerifyingKey, String>,
    name: &String,
    report: &mut Report,
)
    requires
        name@ == vector_name(v.header),
    ensures
        final(report)@ == old(report)@ + response_checks(*v, *r, key_view(*wit_key)),
{
    let ghost start = report@;
    let k: &VerifyingKey = match wit_key {
        Ok(k) => k,
        Err(d) => {
            report.fail(name.as_str(), "response/recover the key from the WIT", d.clone());
            assert(report@ =~= start + response_checks(*v, *r, key_view(*wit_key)));
            return;
        },
    };
    let covered: Vec<Component> = match components(&r.components) {
        Ok(cs) => cs,
        Err(d) => {
            report.fail(name.as_str(), "response/parse covered components", d);
            assert(report@ =~= start + response_checks(*v, *r, key_view(*wit_key)));
            return;
        },
    };
    let ghost cs = components_view(covered@);
    let http_response: HttpResponse = HttpResponse {
        status: r.status,
        headers: clone_headers(&r.headers),
    };
    let exchange: HttpExchange = HttpExchange { response: &http_response, request: &v.request };
    proof {
        lemma_exchange_same(exchange, exchange_of(&response_of(*r), &v.request));
    }
    let params: SignatureParams = response_signature_params(&r.params);
    let signing: SigningKey = match v.pop_signing_key.to_signing_key() {
        Ok(key) => key,
        Err(_) => {
            report.fail(
                name.as_str(),
                "response/load the signing key",
                owned("the proof-of-possession key does not load"),
            );
            assert(report@ =~= start + response_checks(*v, *r, key_view(*wit_key)));
            return;
        },
    };
    let reproduced: Result<(), String> = match sign(
        &exchange,
        covered.as_slice(),
        &params,
        v.label.as_str(),
        &signing,
    ) {
        Err(_) => Err(owned("re-signing the response failed")),
        Ok(signed) => {
            if !str_eq(signed.signature_input.as_str(), r.signature_input.as_str()) {
                Err(owned("re-signed response `Signature-Input` differs"))
            } else if !str_eq(signed.signature.as_str(), r.signature.as_str()) {
                Err(owned("re-signed response `Signature` differs"))
            } else {
                Ok(())
            }
        },
    };
    report.record(name.as_str(), "response/reproduce", reproduced);
    let config: VerifyConfig = response_verify_config(
        v.verify_now,
        clone_components(&covered),
        v.label.clone(),
        r.expected_req_nonce.clone(),
    );
    let verified: Result<(), String> = match verify(
        &exchange,
        r.signature_input.as_str(),
        r.signature.as_str(),
        k,
        &config,
    ) {
        Ok(_) => Ok(()),
        Err(_) => Err(owned("the response signature did not verify")),
    };
    report.record(name.as_str(), "response/verify", verified);
    let digest: Result<(), String> = check_digest(
        &r.headers,
        &r.body,
        "the response carries no `Content-Digest` header",
    );
    report.record(name.as_str(), "response/content-digest", digest);
    let ghost firsts = report@;
    let ghost rejects: Seq<CheckView> = r.negative@.map_values(
        |c: ResponseNegative| response_reject_check(*v, *r, cs, k@, c),
    );
    assert(firsts =~= start + response_checks(*v, *r, key_view(*wit_key)).take(3));
    let mut j: usize = 0;
    assert(rejects.take(0) =~= Seq::<CheckView>::empty());
    assert(report@ =~= firsts + rejects.take(0));
    while j < r.negative.len()
        invariant
            j <= r.negative@.len(),
            name@ == vector_name(v.header),
            http_response@ == response_of(*r)@,
            cs == components_view(covered@),
            rejects == r.negative@.map_values(
                |c: ResponseNegative| response_reject_check(*v, *r, cs, k@, c),
            ),
            report@ == firsts + rejects.take(j as int),
        decreases r.negative@.len() - j,
    {
        let case: &ResponseNegative = &r.negative[j];
        let mut check: String = owned("response/reject/");
        push_str(&mut check, case.id.as_str());
        let outcome: Result<(), String> = response_reject_outcome(
            v,
            r,
            &http_response,
            &covered,
            k,
            case,
        );
        report.record(name.as_str(), check.as_str(), outcome);
        assert(rejects.take(j + 1) =~= rejects.take(j as int).push(rejects[j as int]));
        j = j + 1;
        assert(report@ =~= firsts + rejects.take(j as int));
    }
    assert(rejects.take(rejects.len() as int) =~= rejects);
    assert(report@ =~= start + response_checks(*v, *r, key_view(*wit_key)));
}

// ---------------------------------------------------------------------------
// The whole vector.
// ---------------------------------------------------------------------------

/// Every check an httpsig vector records: loading the key and the covered
/// components (either failing stops the run at one failed check), then
/// reproducing, verifying and binding the body of the request, its negative
/// cases, and, when there is one, the response's checks.
pub open spec fn httpsig_checks(v: HttpSigVector, wit_key: Result<VerifyingKeyView, Seq<char>>) -> Seq<
    CheckView,
> {
    let name = vector_name(v.header);
    match spec_private_key(v.pop_signing_key@) {
        Err(_) => seq![
            check_of(
                name,
                "load proof-of-possession key"@,
                Err("the proof-of-possession key does not load"@),
            ),
        ],
        Ok(pop) => match components_of(v.components@) {
            Err(d) => seq![check_of(name, "parse covered components"@, Err(d))],
            Ok(covered) => seq![
                check_of(
                    name,
                    "reproduce"@,
                    reproduce_outcome(
                        sign_spec(&v.request, covered, request_params(v.params), v.label@, pop),
                        v.signature_input@,
                        v.signature@,
                        false,
                    ),
                ),
                check_of(name, "verify"@, request_verify_outcome(v, covered, wit_key)),
                check_of(
                    name,
                    "content-digest"@,
                    digest_outcome(
                        headers_view(v.request.headers@),
                        v.body@,
                        "the request carries no `Content-Digest` header"@,
                    ),
                ),
            ] + negative_checks(v, covered, wit_key) + match v.response {
                None => Seq::empty(),
                Some(r) => response_checks(v, r, wit_key),
            },
        },
    }
}

/// The first check of a run whose key and covered components load: whether
/// re-signing reproduces the recorded fields.
pub proof fn lemma_reproduce_is_first(
    v: HttpSigVector,
    wit_key: Result<VerifyingKeyView, Seq<char>>,
    pop: SigningKeyView,
    covered: Seq<ComponentView>,
)
    requires
        spec_private_key(v.pop_signing_key@) == Ok::<SigningKeyView, crate::jose::JoseFailure>(pop),
        components_of(v.components@) == Ok::<Seq<ComponentView>, Seq<char>>(covered),
    ensures
        httpsig_checks(v, wit_key).len() > 0,
        httpsig_checks(v, wit_key)[0] == check_of(
            vector_name(v.header),
            "reproduce"@,
            reproduce_outcome(
                sign_spec(&v.request, covered, request_params(v.params), v.label@, pop),
                v.signature_input@,
                v.signature@,
                false,
            ),
        ),
{
}

/// The first check on a recorded response, once the key is recovered and its
/// covered components and the signing key load: whether re-signing the
/// response reproduces its recorded fields.
pub proof fn lemma_response_reproduce_is_first(
    v: HttpSigVector,
    r: VectorResponse,
    k: VerifyingKeyView,
    pop: SigningKeyView,
    covered: Seq<ComponentView>,
)
    requires
        spec_private_key(v.pop_signing_key@) == Ok::<SigningKeyView, crate::jose::JoseFailure>(pop),
        components_of(r.components@) == Ok::<Seq<ComponentView>, Seq<char>>(covered),
    ensures
        response_checks(v, r, Ok(k)).len() > 0,
        response_checks(v, r, Ok(k))[0] == check_of(
            vector_name(v.header),
            "response/reproduce"@,
            reproduce_outcome(
                sign_spec(
                    &exchange_of(&response_of(r), &v.request),
                    covered,
                    response_params(r.params),
                    v.label@,
                    pop,
                ),
                r.signature_input@,
                r.signature@,
                true,
            ),
        ),
{
}

fn run_negatives(
    v: &HttpSigVector,
    covered: &Vec<Component>,
    wit_key: &Result<VerifyingKey, String>,
    name: &String,
    report: &mut Report,
)
    requires
        name@ == vector_name(v.header),
    ensures
        final(report)@ == old(report)@ + negative_checks(*v, components_view(covered@), key_view(*wit_key)),
{
    let ghost start = report@;
    let ghost cs = components_view(covered@);
    let k: &VerifyingKey = match wit_key {
        Ok(k) => k,
        Err(d) => {
            report.fail(
                name.as_str(),
                "recover the proof-of-possession key from the WIT",
                d.clone(),
            );
            assert(report@ =~= start + negative_checks(*v, cs, key_view(*wit_key)));
            return;
        },
    };
    let ghost rejects: Seq<CheckView> = v.negative@.map_values(
        |c: HttpSigNegative| httpsig_reject_check(*v, cs, k@, c),
    );
    let mut j: usize = 0;
    assert(rejects.take(0) =~= Seq::<CheckView>::empty());
    assert(report@ =~= start + rejects.take(0));
    while j < v.negative.len()
        invariant
            j <= v.negative@.len(),
            name@ == vector_name(v.header),
            cs == components_view(covered@),
            rejects == v.negative@.map_values(|c: HttpSigNegative| httpsig_reject_check(*v, cs, k@, c)),
            report@ == start + rejects.take(j as int),
        decreases v.negative@.len() - j,
    {
        let case: &HttpSigNegative = &v.negative[j];
        let mut check: String = owned("reject/");
        push_str(&mut check, case.id.as_str());
        let outcome: Result<(), String> = httpsig_reject_outcome(v, covered, k, case);
        report.record(name.as_str(), check.as_str(), outcome);
        assert(rejects.take(j + 1) =~= rejects.take(j as int).push(rejects[j as int]));
        j = j + 1;
        assert(report@ =~= start + rejects.take(j as int));
    }
    assert(rejects.take(rejects.len() as int) =~= rejects);
}

/// Runs an httpsig vector. `wit_key` is the proof-of-possession key recovered
/// from the WIT the vector's request carries, verified against the vector's
/// issuer key at `verify_now`, or the reason it could not be; Section 3 of the
/// binding verifies the WIT first, so every signature here is checked under
/// that key rather than under the recorded private key's public half.
pub fn run_httpsig(vector: &HttpSigVector, wit_key: &Result<VerifyingKey, String>, report: &mut Report)
    ensures
        final(report)@ == old(report)@ + httpsig_checks(*vector, key_view(*wit_key)),
{
    let ghost start = report@;
    let mut name: String = owned(vector.header.suite.as_str());
    push_str(&mut name, "/");
    push_str(&mut name, vector.header.id.as_str());
    proof {
        reveal_strlit("/");
        assert(name@ =~= vector_name(vector.header));
    }
    let pop: SigningKey = match vector.pop_signing_key.to_signing_key() {
        Ok(k) => k,
        Err(_) => {
            report.fail(
                name.as_str(),
                "load proof-of-possession key",
                owned("the proof-of-possession key does not load"),
            );
            assert(report@ =~= start + httpsig_checks(*vector, key_view(*wit_key)));
            return;
        },
    };
    let covered: Vec<Component> = match components(&vector.components) {
        Ok(cs) => cs,
        Err(d) => {
            report.fail(name.as_str(), "parse covered components", d);
            assert(report@ =~= start + httpsig_checks(*vector, key_view(*wit_key)));
            return;
        },
    };
    let reproduced: Result<(), String> = request_reproduce(vector, &covered, &pop);
    report.record(name.as_str(), "reproduce", reproduced);
    let verified: Result<(), String> = request_verify(vector, &covered, wit_key);
    report.record(name.as_str(), "verify", verified);
    let digest: Result<(), String> = check_digest(
        &vector.request.headers,
        &vector.body,
        "the request carries no `Content-Digest` header",
    );
    report.record(name.as_str(), "content-digest", digest);
    let ghost firsts = report@;
    run_negatives(vector, &covered, wit_key, &name, report);
    let ghost mid = report@;
    match &vector.response {
        Some(r) => run_response(vector, r, wit_key, &name, report),
        None => {},
    }
    assert(report@ =~= start + httpsig_checks(*vector, key_view(*wit_key)));
}

} // verus!
