//! The signature base (RFC 9421 Section 2.5), signing and verification.

use vstd::prelude::*;
use vstd::utf8::encode_utf8;

use crate::crypto::{b64_encode, base64_encoded};
use crate::httpsig::fields::{
    input_result, parse_input_spec, parse_sig_spec, parse_signature, parse_signature_input,
    sig_result,
};
use crate::httpsig::message::{
    Component, ComponentSource, ComponentView, HttpRequest, HttpSigError, HttpSigFailure,
    component_eq, component_equiv, quoted_id_spec, str_result,
};
use crate::httpsig::params::{
    ALG, ParamsView, SignatureParams, check_request_profile, check_response_profile,
    components_view, params_value_spec, request_profile_spec, response_profile_spec,
    serialize_params_value, unit_result,
};
use crate::httpsig::round_trip::{
    component_ok, label_ok, lemma_signature_field_round_trip, lemma_signature_input_round_trip,
};
use crate::jose::{
    SigningKey, VerifyingKey, VerifyingKeyView, opt_view, public_of, signature_of, verifies,
};
use crate::text::{chars_of, contains_char, owned, push_char, push_str, str_eq};

verus! {

broadcast use vstd::string::group_string_axioms, vstd::slice::group_slice_axioms;

/// The header field values produced by [`sign`].
#[derive(Debug, Clone)]
pub struct SignedSignature {
    /// The `Signature-Input` field value (for example `sig1=(...);created=...`).
    pub signature_input: String,
    /// The `Signature` field value (for example `sig1=:<base64>:`).
    pub signature: String,
}

/// The outcome of a successful [`verify`].
#[derive(Debug, Clone)]
pub struct VerifiedSignature {
    /// The signature label.
    pub label: String,
    /// The covered components, in order.
    pub components: Vec<Component>,
    /// The parsed signature parameters.
    pub params: SignatureParams,
}

/// Options controlling [`verify`].
///
/// A bare successful [`verify`] proves only that some set of components was
/// signed with the key. To bind the request, set `required_components` to the
/// components that must be covered.
#[derive(Debug, Clone, Default)]
pub struct VerifyConfig {
    /// The current time, in seconds since the Unix epoch. When set, `created`
    /// and `expires` are checked against it.
    pub now: Option<u64>,
    /// Clock-skew tolerance, in seconds.
    pub leeway: u64,
    /// If set, only this signature label is accepted.
    pub label: Option<String>,
    /// Components that must be covered by the signature.
    pub required_components: Vec<Component>,
    /// If set (together with `now`), the signature's `created` must be present
    /// and within this many seconds of `now`.
    pub max_age: Option<u64>,
    /// Enforce the WIMSE request-signature profile ([`check_request_profile`]).
    pub wimse_profile: bool,
    /// Enforce the WIMSE response-signature profile ([`check_response_profile`]).
    pub wimse_response_profile: bool,
    /// If set, the signature's `wimse-aud` must equal this value.
    pub expected_audience: Option<String>,
    /// If set, the signature's `wimse-req-nonce` must equal this value: the
    /// nonce the client put on the request a signed response answers.
    pub expected_req_nonce: Option<String>,
}

/// A verifier configuration, by value.
pub struct ConfigView {
    pub now: Option<u64>,
    pub leeway: u64,
    pub label: Option<Seq<char>>,
    pub required: Seq<ComponentView>,
    pub max_age: Option<u64>,
    pub wimse_profile: bool,
    pub wimse_response_profile: bool,
    pub expected_audience: Option<Seq<char>>,
    pub expected_req_nonce: Option<Seq<char>>,
}

impl View for VerifyConfig {
    type V = ConfigView;

    open spec fn view(&self) -> ConfigView {
        ConfigView {
            now: self.now,
            leeway: self.leeway,
            label: opt_view(self.label),
            required: components_view(self.required_components@),
            max_age: self.max_age,
            wimse_profile: self.wimse_profile,
            wimse_response_profile: self.wimse_response_profile,
            expected_audience: opt_view(self.expected_audience),
            expected_req_nonce: opt_view(self.expected_req_nonce),
        }
    }
}

// ---------------------------------------------------------------------------
// The signature base.
// ---------------------------------------------------------------------------

/// Whether `s` holds a CR or an LF, either of which would forge extra
/// signature-base lines.
pub open spec fn has_crlf(s: Seq<char>) -> bool {
    s.contains('\r') || s.contains('\n')
}

fn crlf_in(s: &str) -> (r: bool)
    ensures
        r == has_crlf(s@),
{
    let v: Vec<char> = chars_of(s);
    assert(v@.subrange(0, v@.len() as int) =~= v@);
    contains_char(&v, 0, v.len(), '\r') || contains_char(&v, 0, v.len(), '\n')
}

/// The component lines of the signature base: `"<id>": <value>` and a newline
/// for each covered component, in order. The first component without a value,
/// or with a CR or LF in it, stops it.
pub open spec fn base_lines<S: ComponentSource>(src: &S, cs: Seq<ComponentView>) -> Result<
    Seq<char>,
    HttpSigFailure,
>
    decreases cs.len(),
{
    if cs.len() == 0 {
        Ok(seq![])
    } else {
        match base_lines(src, cs.drop_last()) {
            Err(e) => Err(e),
            Ok(prefix) => match src.component_spec(cs.last()) {
                Err(e) => Err(e),
                Ok(v) => if has_crlf(v) {
                    Err(HttpSigFailure::InvalidComponentValue(quoted_id_spec(cs.last())))
                } else {
                    Ok(prefix + quoted_id_spec(cs.last()) + seq![':', ' '] + v + seq!['\n'])
                },
            },
        }
    }
}

/// The signature base over `cs`, closed by the `@signature-params` line whose
/// value is `pv`.
pub open spec fn base_spec<S: ComponentSource>(src: &S, cs: Seq<ComponentView>, pv: Seq<char>) -> Result<
    Seq<char>,
    HttpSigFailure,
> {
    if has_crlf(pv) {
        Err(HttpSigFailure::Parse("signature parameters contain CR or LF"@))
    } else {
        match base_lines(src, cs) {
            Ok(lines) => Ok(lines + "\"@signature-params\": "@ + pv),
            Err(e) => Err(e),
        }
    }
}

/// Whether component `c` has a value in `src` that holds no CR or LF.
pub open spec fn line_ok<S: ComponentSource>(src: &S, c: ComponentView) -> bool {
    src.component_spec(c) matches Ok(v) && !has_crlf(v)
}

/// Why component `c` gives no base line: its value's own failure, or a CR or
/// LF in the value.
pub open spec fn line_failure<S: ComponentSource>(src: &S, c: ComponentView) -> HttpSigFailure {
    match src.component_spec(c) {
        Err(e) => e,
        Ok(_) => HttpSigFailure::InvalidComponentValue(quoted_id_spec(c)),
    }
}

/// The component lines exist exactly when every covered component has a
/// value free of CR and LF; otherwise the failure is that of the first
/// component that has none.
pub proof fn lemma_base_lines_outcome<S: ComponentSource>(src: &S, cs: Seq<ComponentView>)
    ensures
        base_lines(src, cs) is Ok <==> forall|i: int| 0 <= i < cs.len() ==> line_ok(src, #[trigger] cs[i]),
        base_lines(src, cs) matches Err(e) ==> exists|i: int|
            0 <= i < cs.len() && (forall|j: int| 0 <= j < i ==> line_ok(src, #[trigger] cs[j]))
                && !line_ok(src, #[trigger] cs[i]) && e == line_failure(src, cs[i]),
    decreases cs.len(),
{
    if cs.len() > 0 {
        let init = cs.drop_last();
        lemma_base_lines_outcome(src, init);
        assert forall|i: int| 0 <= i < init.len() implies init[i] == cs[i] by {}
        if base_lines(src, init) is Ok {
            assert(forall|i: int| 0 <= i < init.len() ==> line_ok(src, #[trigger] init[i]));
            if !line_ok(src, cs.last()) {
                assert(forall|j: int| 0 <= j < cs.len() - 1 ==> line_ok(src, #[trigger] cs[j])) by {
                    assert forall|j: int| 0 <= j < cs.len() - 1 implies line_ok(src, #[trigger] cs[j]) by {
                        assert(init[j] == cs[j]);
                    }
                }
                assert(!line_ok(src, cs[cs.len() - 1]));
            } else {
                assert forall|i: int| 0 <= i < cs.len() implies line_ok(src, #[trigger] cs[i]) by {
                    if i < cs.len() - 1 {
                        assert(init[i] == cs[i]);
                    }
                }
            }
        } else {
            let e = base_lines(src, init)->Err_0;
            let i = choose|i: int|
                0 <= i < init.len() && (forall|j: int| 0 <= j < i ==> line_ok(src, #[trigger] init[j]))
                    && !line_ok(src, #[trigger] init[i]) && e == line_failure(src, init[i]);
            assert(init[i] == cs[i]);
            assert forall|j: int| 0 <= j < i implies line_ok(src, #[trigger] cs[j]) by {
                assert(init[j] == cs[j]);
            }
            assert(!(forall|k: int| 0 <= k < cs.len() ==> line_ok(src, #[trigger] cs[k])));
        }
    }
}

/// The signature base exists exactly when the parameters' value holds no CR
/// or LF and every covered component has a value free of them.
pub proof fn lemma_base_outcome<S: ComponentSource>(src: &S, cs: Seq<ComponentView>, pv: Seq<char>)
    ensures
        base_spec(src, cs, pv) is Ok <==> (!has_crlf(pv) && forall|i: int|
            0 <= i < cs.len() ==> line_ok(src, #[trigger] cs[i])),
{
    lemma_base_lines_outcome(src, cs);
}

proof fn lemma_base_lines_err<S: ComponentSource>(src: &S, cs: Seq<ComponentView>, i: int, j: int)
    requires
        0 <= i <= j <= cs.len(),
        base_lines(src, cs.take(i)) is Err,
    ensures
        base_lines(src, cs.take(j)) == base_lines(src, cs.take(i)),
    decreases j - i,
{
    if i < j {
        lemma_base_lines_err(src, cs, i, j - 1);
        assert(cs.take(j).drop_last() =~= cs.take(j - 1));
    }
}

fn base_from_params_value<S: ComponentSource>(
    source: &S,
    components: &[Component],
    params_value: &str,
) -> (r: Result<String, HttpSigError>)
    ensures
        str_result(r) == base_spec(source, components_view(components@), params_value@),
{
    // The received parameter substring is untrusted; a bare CR or LF in it would
    // forge extra signature-base lines.
    if crlf_in(params_value) {
        return Err(HttpSigError::Parse(owned("signature parameters contain CR or LF")));
    }
    let ghost cs: Seq<ComponentView> = components_view(components@);
    let mut base: String = String::new();
    let mut i: usize = 0;
    assert(cs.take(0) =~= Seq::<ComponentView>::empty());
    while i < components.len()
        invariant
            i <= components@.len(),
            cs == components_view(components@),
            !has_crlf(params_value@),
            base_lines(source, cs.take(i as int)) == Ok::<Seq<char>, HttpSigFailure>(base@),
        decreases components@.len() - i,
    {
        assert(cs.take(i + 1).drop_last() =~= cs.take(i as int));
        assert(cs.take(i + 1).last() == components@[i as int]@);
        let component: &Component = &components[i];
        let value: String = match source.component_value(component) {
            Ok(v) => v,
            Err(e) => {
                proof {
                    lemma_base_lines_err(source, cs, i + 1, cs.len() as int);
                    assert(cs.take(cs.len() as int) =~= cs);
                }
                return Err(e);
            },
        };
        // A bare CR or LF in a value would forge extra signature-base lines.
        if crlf_in(value.as_str()) {
            proof {
                lemma_base_lines_err(source, cs, i + 1, cs.len() as int);
                assert(cs.take(cs.len() as int) =~= cs);
            }
            return Err(HttpSigError::InvalidComponentValue(component.quoted_id()));
        }
        let id: String = component.quoted_id();
        let ghost before: Seq<char> = base@;
        push_str(&mut base, id.as_str());
        push_char(&mut base, ':');
        push_char(&mut base, ' ');
        push_str(&mut base, value.as_str());
        push_char(&mut base, '\n');
        assert(base@ =~= before + quoted_id_spec(component@) + seq![':', ' '] + value@ + seq![
            '\n',
        ]);
        i = i + 1;
    }
    assert(cs.take(cs.len() as int) =~= cs);
    push_str(&mut base, "\"@signature-params\": ");
    push_str(&mut base, params_value);
    Ok(base)
}

/// Builds the RFC 9421 signature base for `request` over `components` with
/// `params`.
pub fn signature_base(
    request: &HttpRequest,
    components: &[Component],
    params: &SignatureParams,
) -> (r: Result<String, HttpSigError>)
    ensures
        str_result(r) == base_spec(
            request,
            components_view(components@),
            params_value_spec(components_view(components@), params@),
        ),
{
    let params_value: String = serialize_params_value(components, params);
    base_from_params_value(request, components, params_value.as_str())
}

// ---------------------------------------------------------------------------
// Signing.
// ---------------------------------------------------------------------------

/// The verifier's policy over a signature that is genuine: the label it
/// accepts, the parameter rules, the components it requires, and the clock.
pub open spec fn policy_check(
    label: Seq<char>,
    cs: Seq<ComponentView>,
    p: ParamsView,
    cfg: ConfigView,
) -> Result<(), HttpSigFailure> {
    match label_check(label, label, cfg.label) {
        Err(e) => Err(e),
        Ok(_) => match param_check(p, cfg) {
            Err(e) => Err(e),
            Ok(_) => match required_check(cs, cfg.required) {
                Err(e) => Err(e),
                Ok(_) => time_check(p, cfg),
            },
        },
    }
}

/// What verifying a genuine signature over `cs` and `p` under `label` gives:
/// exactly what was signed, unless the verifier's policy refuses it.
pub open spec fn policy_outcome(
    label: Seq<char>,
    cs: Seq<ComponentView>,
    p: ParamsView,
    cfg: ConfigView,
) -> Result<(Seq<char>, Seq<ComponentView>, ParamsView), HttpSigFailure> {
    match policy_check(label, cs, p, cfg) {
        Ok(_) => Ok((label, cs, p)),
        Err(e) => Err(e),
    }
}

/// A verifier with no policy of its own: no clock, no leeway, any label, no
/// required components, no age limit, neither WIMSE profile, no expected
/// audience or request nonce (what `VerifyConfig::default()` holds).
pub open spec fn default_config() -> ConfigView {
    ConfigView {
        now: None,
        leeway: 0,
        label: None,
        required: Seq::empty(),
        max_age: None,
        wimse_profile: false,
        wimse_response_profile: false,
        expected_audience: None,
        expected_req_nonce: None,
    }
}

/// Parameters a verifier without policy accepts: no `alg` other than
/// `ed25519`, and no `expires` before `created`.
pub open spec fn params_admissible(p: ParamsView) -> bool {
    &&& (p.alg is None || p.alg == Some(ALG@))
    &&& !(p.created is Some && p.expires is Some && p.expires->0 < p.created->0)
}

/// A verifier with no policy of its own gives back exactly what was signed:
/// the label, the covered components and the parameters.
pub proof fn lemma_default_policy_accepts(label: Seq<char>, cs: Seq<ComponentView>, p: ParamsView)
    requires
        params_admissible(p),
    ensures
        policy_outcome(label, cs, p, default_config()) == Ok::<
            (Seq<char>, Seq<ComponentView>, ParamsView),
            HttpSigFailure,
        >((label, cs, p)),
{
}

/// The `Signature-Input` and `Signature` values [`sign`] produces under
/// `label`, or why it cannot.
pub open spec fn sign_spec<S: ComponentSource>(
    src: &S,
    cs: Seq<ComponentView>,
    p: ParamsView,
    label: Seq<char>,
    key: crate::jose::SigningKeyView,
) -> Result<(Seq<char>, Seq<char>), HttpSigFailure> {
    let pv = params_value_spec(cs, p);
    match base_spec(src, cs, pv) {
        Err(e) => Err(e),
        Ok(base) => Ok(
            (
                label + seq!['='] + pv,
                label + seq!['=', ':'] + base64_encoded(signature_of(key, encode_utf8(base)))
                    + seq![':'],
            ),
        ),
    }
}

pub open spec fn signed_result(r: Result<SignedSignature, HttpSigError>) -> Result<
    (Seq<char>, Seq<char>),
    HttpSigFailure,
> {
    match r {
        Ok(s) => Ok((s.signature_input@, s.signature@)),
        Err(e) => Err(e@),
    }
}

/// Signs `source` over `components`, producing `Signature-Input` and
/// `Signature` field values under `label`.
///
/// Deterministic: both signature algorithms sign deterministically, so the
/// same inputs give the same field values. What it writes, [`verify`] reads
/// back: under the public half of `signing_key` and the same message, the
/// fields verify to the label, components and parameters that were signed,
/// unless the verifier's own policy (accepted label, profiles, audience,
/// required components, clock) refuses them — provided the label and the
/// header names are ones the field syntax can carry back unchanged.
pub fn sign<S: ComponentSource>(
    source: &S,
    components: &[Component],
    params: &SignatureParams,
    label: &str,
    signing_key: &SigningKey,
) -> (r: Result<SignedSignature, HttpSigError>)
    ensures
        signed_result(r) == sign_spec(
            source,
            components_view(components@),
            params@,
            label@,
            signing_key@,
        ),
        r matches Ok(s) ==> (label_ok(label@) && (forall|i: int|
            0 <= i < components@.len() ==> component_ok(#[trigger] components_view(components@)[i])))
            ==> (forall|cfg: ConfigView|
            #[trigger] verify_spec(
                source,
                s.signature_input@,
                s.signature@,
                public_of(signing_key@),
                cfg,
            ) == policy_outcome(label@, components_view(components@), params@, cfg)),
        r matches Ok(s) ==> (label_ok(label@) && (forall|i: int|
            0 <= i < components@.len() ==> component_ok(#[trigger] components_view(components@)[i]))
            && params_admissible(params@)) ==> verify_spec(
            source,
            s.signature_input@,
            s.signature@,
            public_of(signing_key@),
            default_config(),
        ) == Ok::<(Seq<char>, Seq<ComponentView>, ParamsView), HttpSigFailure>(
            (label@, components_view(components@), params@),
        ),
{
    let params_value: String = serialize_params_value(components, params);
    let base: String = match base_from_params_value(source, components, params_value.as_str()) {
        Ok(b) => b,
        Err(e) => return Err(e),
    };
    let signature: Vec<u8> = signing_key.sign(base.as_str().as_bytes());
    let encoded: String = b64_encode(signature.as_slice());
    let mut signature_input: String = owned(label);
    push_char(&mut signature_input, '=');
    push_str(&mut signature_input, params_value.as_str());
    let mut signature_field: String = owned(label);
    push_char(&mut signature_field, '=');
    push_char(&mut signature_field, ':');
    push_str(&mut signature_field, encoded.as_str());
    push_char(&mut signature_field, ':');
    assert(signature_input@ =~= label@ + seq!['='] + params_value@);
    assert(signature_field@ =~= label@ + seq!['=', ':'] + encoded@ + seq![':']);
    proof {
        let cv = components_view(components@);
        if label_ok(label@) && (forall|i: int| 0 <= i < cv.len() ==> component_ok(#[trigger] cv[i])) {
            lemma_signature_input_round_trip(cv, params@, label@);
            lemma_signature_field_round_trip(label@, encoded@, signature@);
            assert forall|cfg: ConfigView|
                #[trigger] verify_spec(
                    source,
                    signature_input@,
                    signature_field@,
                    public_of(signing_key@),
                    cfg,
                ) == policy_outcome(label@, cv, params@, cfg) by {}
            if params_admissible(params@) {
                lemma_default_policy_accepts(label@, cv, params@);
                assert(verify_spec(
                    source,
                    signature_input@,
                    signature_field@,
                    public_of(signing_key@),
                    default_config(),
                ) == policy_outcome(label@, cv, params@, default_config()));
            }
        }
    }
    Ok(SignedSignature { signature_input, signature: signature_field })
}

// ---------------------------------------------------------------------------
// Verification.
// ---------------------------------------------------------------------------

/// The labels of the two fields must agree, and match the one the verifier
/// accepts, if it names one.
pub open spec fn label_check(input_label: Seq<char>, sig_label: Seq<char>, accepted: Option<Seq<char>>) -> Result<
    (),
    HttpSigFailure,
> {
    if input_label != sig_label {
        Err(HttpSigFailure::LabelMismatch)
    } else {
        match accepted {
            Some(l) => if l != input_label {
                Err(HttpSigFailure::LabelMismatch)
            } else {
                Ok(())
            },
            None => Ok(()),
        }
    }
}

/// The checks on the received parameters that need no signature work: the
/// profiles the verifier enforces, the `alg` value, the audience and the
/// request nonce.
pub open spec fn param_check(p: ParamsView, cfg: ConfigView) -> Result<(), HttpSigFailure> {
    if cfg.wimse_profile && request_profile_spec(p) is Err {
        request_profile_spec(p)
    } else if cfg.wimse_response_profile && response_profile_spec(p) is Err {
        response_profile_spec(p)
    } else if p.alg is Some && p.alg->0 != ALG@ {
        Err(HttpSigFailure::UnsupportedAlg(p.alg->0))
    } else if cfg.expected_audience is Some && p.wimse_aud != cfg.expected_audience {
        Err(HttpSigFailure::AudienceMismatch)
    } else if cfg.expected_req_nonce is Some && p.wimse_req_nonce != cfg.expected_req_nonce {
        Err(HttpSigFailure::RequestNonceMismatch)
    } else {
        Ok(())
    }
}

/// Whether a component equal to `c` is covered.
pub open spec fn covers(cs: Seq<ComponentView>, c: ComponentView) -> bool {
    exists|i: int| 0 <= i < cs.len() && #[trigger] component_equiv(cs[i], c)
}

/// Every required component must be covered; the first that is not is named.
pub open spec fn required_check(cs: Seq<ComponentView>, required: Seq<ComponentView>) -> Result<
    (),
    HttpSigFailure,
>
    decreases required.len(),
{
    if required.len() == 0 {
        Ok(())
    } else {
        match required_check(cs, required.drop_last()) {
            Err(e) => Err(e),
            Ok(()) => if covers(cs, required.last()) {
                Ok(())
            } else {
                Err(HttpSigFailure::MissingRequiredComponent(quoted_id_spec(required.last())))
            },
        }
    }
}

/// The required-components rule: it passes exactly when every required
/// component is covered by one of the signed components (header names
/// compared without regard to case), and otherwise names a required
/// component that is not covered.
pub proof fn lemma_required_components_covered(cs: Seq<ComponentView>, rs: Seq<ComponentView>)
    ensures
        required_check(cs, rs) is Ok <==> forall|i: int|
            0 <= i < rs.len() ==> exists|j: int| 0 <= j < cs.len() && component_equiv(cs[j], #[trigger] rs[i]),
        required_check(cs, rs) matches Err(e) ==> exists|i: int|
            0 <= i < rs.len() && !(exists|j: int| 0 <= j < cs.len() && component_equiv(cs[j], #[trigger] rs[i]))
                && e == HttpSigFailure::MissingRequiredComponent(quoted_id_spec(rs[i])),
    decreases rs.len(),
{
    if rs.len() > 0 {
        let init = rs.drop_last();
        lemma_required_components_covered(cs, init);
        assert forall|i: int| 0 <= i < init.len() implies init[i] == rs[i] by {}
        let last = rs.len() - 1;
        assert(rs.last() == rs[last]);
        if required_check(cs, init) is Ok {
            if covers(cs, rs.last()) {
                assert forall|i: int| 0 <= i < rs.len() implies exists|j: int|
                    0 <= j < cs.len() && component_equiv(cs[j], #[trigger] rs[i]) by {
                    if i < last {
                        assert(init[i] == rs[i]);
                    }
                }
            } else {
                assert(!(exists|j: int| 0 <= j < cs.len() && component_equiv(cs[j], rs[last])));
            }
        } else {
            let e = required_check(cs, init)->Err_0;
            let i = choose|i: int|
                0 <= i < init.len() && !(exists|j: int| 0 <= j < cs.len() && component_equiv(cs[j], #[trigger] init[i]))
                    && e == HttpSigFailure::MissingRequiredComponent(quoted_id_spec(init[i]));
            assert(init[i] == rs[i]);
        }
    }
}

/// A signature verifies only if it covers every component the verifier
/// requires: whatever the request, fields, key and settings, an accepted
/// signature's components cover each required one.
pub proof fn lemma_verified_covers_required<S: ComponentSource>(
    src: &S,
    input: Seq<char>,
    sig: Seq<char>,
    key: VerifyingKeyView,
    cfg: ConfigView,
)
    ensures
        verify_spec(src, input, sig, key, cfg) matches Ok((label, cs, p)) ==> forall|i: int|
            0 <= i < cfg.required.len() ==> exists|j: int|
                0 <= j < cs.len() && component_equiv(cs[j], #[trigger] cfg.required[i]),
{
    if let Ok(pi) = parse_input_spec(input) {
        lemma_required_components_covered(pi.1, cfg.required);
        if verify_spec(src, input, sig, key, cfg) is Ok {
            assert(required_check(pi.1, cfg.required) is Ok);
            assert(verify_spec(src, input, sig, key, cfg)->Ok_0.1 == pi.1);
        }
    }
}

/// What an accepted signature satisfies, whatever the request, fields, key
/// and settings: the `Signature-Input` and `Signature` members carry the same
/// label, the accepted label if one is set; the signature verifies under the
/// key over the signature base rebuilt from the request; every required
/// component is covered; the parameters name no other algorithm, and carry
/// the expected audience and request nonce where those are set; `expires` is
/// not before `created`; and at the verifier's clock the signature has not
/// expired and was not created in the future (both up to the leeway).
pub proof fn lemma_accepted_signature<S: ComponentSource>(
    src: &S,
    input: Seq<char>,
    sig: Seq<char>,
    key: VerifyingKeyView,
    cfg: ConfigView,
)
    ensures
        verify_spec(src, input, sig, key, cfg) matches Ok((label, cs, p)) ==> {
            &&& parse_input_spec(input) matches Ok(pi)
            &&& pi.0 == label && pi.1 == cs && pi.2 == p
            &&& parse_sig_spec(sig) matches Ok(ps)
            &&& ps.0 == label
            &&& cfg.label matches Some(l) ==> l == label
            &&& base_spec(src, cs, pi.3) matches Ok(base)
            &&& verifies(key, encode_utf8(base), ps.1)
            &&& forall|i: int|
                0 <= i < cfg.required.len() ==> exists|j: int|
                    0 <= j < cs.len() && component_equiv(cs[j], #[trigger] cfg.required[i])
            &&& p.alg matches Some(a) ==> a == ALG@
            &&& cfg.expected_audience is Some ==> p.wimse_aud == cfg.expected_audience
            &&& cfg.expected_req_nonce is Some ==> p.wimse_req_nonce == cfg.expected_req_nonce
            &&& (p.created is Some && p.expires is Some) ==> p.created->0 <= p.expires->0
            &&& cfg.now matches Some(now) ==> (p.expires matches Some(e) ==> now <= e + cfg.leeway)
            &&& cfg.now matches Some(now) ==> (p.created matches Some(c) ==> c <= now + cfg.leeway)
        },
{
    lemma_verified_covers_required(src, input, sig, key, cfg);
}

/// `a + b`, saturating at `u64::MAX`.
pub open spec fn sat_add(a: u64, b: u64) -> u64 {
    if a + b > u64::MAX {
        u64::MAX
    } else {
        (a + b) as u64
    }
}

/// `a - b`, saturating at zero.
pub open spec fn sat_sub(a: u64, b: u64) -> u64 {
    if a >= b {
        (a - b) as u64
    } else {
        0
    }
}

/// The time checks: a window that ends before it starts, a `max_age` with no
/// clock to check it against, expiry, a creation time in the future, and age.
pub open spec fn time_check(p: ParamsView, cfg: ConfigView) -> Result<(), HttpSigFailure> {
    if p.created is Some && p.expires is Some && p.expires->0 < p.created->0 {
        Err(HttpSigFailure::InvalidTimeWindow)
    } else if cfg.max_age is Some && cfg.now is None {
        Err(HttpSigFailure::TooOld)
    } else {
        match cfg.now {
            None => Ok(()),
            Some(now) => if p.expires is Some && now > sat_add(p.expires->0, cfg.leeway) {
                Err(HttpSigFailure::Expired)
            } else if p.created is Some && p.created->0 > sat_add(now, cfg.leeway) {
                Err(HttpSigFailure::CreatedInFuture)
            } else {
                match cfg.max_age {
                    None => Ok(()),
                    Some(m) => match p.created {
                        None => Err(HttpSigFailure::TooOld),
                        Some(c) => if sat_sub(now, c) > m {
                            Err(HttpSigFailure::TooOld)
                        } else {
                            Ok(())
                        },
                    },
                }
            },
        }
    }
}

/// What [`verify`] decides: the label, components and parameters of a valid
/// signature, or the first reason it is refused.
pub open spec fn verify_spec<S: ComponentSource>(
    src: &S,
    input: Seq<char>,
    sig: Seq<char>,
    key: VerifyingKeyView,
    cfg: ConfigView,
) -> Result<(Seq<char>, Seq<ComponentView>, ParamsView), HttpSigFailure> {
    match parse_input_spec(input) {
        Err(e) => Err(e),
        Ok(pi) => match parse_sig_spec(sig) {
            Err(e) => Err(e),
            Ok(ps) => match label_check(pi.0, ps.0, cfg.label) {
                Err(e) => Err(e),
                Ok(_) => match param_check(pi.2, cfg) {
                    Err(e) => Err(e),
                    Ok(_) => match base_spec(src, pi.1, pi.3) {
                        Err(e) => Err(e),
                        Ok(base) => if !verifies(key, encode_utf8(base), ps.1) {
                            Err(HttpSigFailure::InvalidSignature)
                        } else {
                            match required_check(pi.1, cfg.required) {
                                Err(e) => Err(e),
                                Ok(_) => match time_check(pi.2, cfg) {
                                    Err(e) => Err(e),
                                    Ok(_) => Ok((pi.0, pi.1, pi.2)),
                                },
                            }
                        },
                    },
                },
            },
        },
    }
}

pub open spec fn verified_result(r: Result<VerifiedSignature, HttpSigError>) -> Result<
    (Seq<char>, Seq<ComponentView>, ParamsView),
    HttpSigFailure,
> {
    match r {
        Ok(v) => Ok((v.label@, components_view(v.components@), v.params@)),
        Err(e) => Err(e@),
    }
}

fn check_labels(input_label: &String, sig_label: &String, accepted: &Option<String>) -> (r: Result<
    (),
    HttpSigError,
>)
    ensures
        unit_result(r) == label_check(input_label@, sig_label@, opt_view(*accepted)),
{
    if !str_eq(input_label.as_str(), sig_label.as_str()) {
        return Err(HttpSigError::LabelMismatch);
    }
    match accepted {
        Some(expected) => {
            if !str_eq(expected.as_str(), input_label.as_str()) {
                return Err(HttpSigError::LabelMismatch);
            }
        },
        None => {},
    }
    Ok(())
}

fn same_opt(a: &Option<String>, b: &String) -> (r: bool)
    ensures
        r == (opt_view(*a) == Some(b@)),
{
    match a {
        Some(x) => str_eq(x.as_str(), b.as_str()),
        None => false,
    }
}

fn check_params(p: &SignatureParams, config: &VerifyConfig) -> (r: Result<(), HttpSigError>)
    ensures
        unit_result(r) == param_check(p@, config@),
{
    if config.wimse_profile {
        match check_request_profile(p) {
            Err(e) => return Err(e),
            Ok(()) => {},
        }
    }
    if config.wimse_response_profile {
        match check_response_profile(p) {
            Err(e) => return Err(e),
            Ok(()) => {},
        }
    }
    match &p.alg {
        Some(alg) => {
            if !str_eq(alg.as_str(), ALG) {
                return Err(HttpSigError::UnsupportedAlg { found: alg.clone() });
            }
        },
        None => {},
    }
    // The audience is checked before the signature so a misdirected signature
    // costs no verification work; both checks must pass.
    match &config.expected_audience {
        Some(expected) => {
            if !same_opt(&p.wimse_aud, expected) {
                return Err(HttpSigError::AudienceMismatch);
            }
        },
        None => {},
    }
    match &config.expected_req_nonce {
        Some(expected) => {
            if !same_opt(&p.wimse_req_nonce, expected) {
                return Err(HttpSigError::RequestNonceMismatch);
            }
        },
        None => {},
    }
    Ok(())
}

fn covers_exec(cs: &Vec<Component>, c: &Component) -> (r: bool)
    ensures
        r == covers(components_view(cs@), c@),
{
    let ghost v: Seq<ComponentView> = components_view(cs@);
    let mut j: usize = 0;
    while j < cs.len()
        invariant
            j <= cs@.len(),
            v == components_view(cs@),
            forall|k: int| 0 <= k < j ==> !component_equiv(#[trigger] v[k], c@),
        decreases cs@.len() - j,
    {
        if component_eq(&cs[j], c) {
            assert(component_equiv(v[j as int], c@));
            return true;
        }
        j = j + 1;
    }
    false
}

fn check_required(cs: &Vec<Component>, required: &Vec<Component>) -> (r: Result<(), HttpSigError>)
    ensures
        unit_result(r) == required_check(components_view(cs@), components_view(required@)),
{
    let ghost rv: Seq<ComponentView> = components_view(required@);
    let ghost cv: Seq<ComponentView> = components_view(cs@);
    let mut i: usize = 0;
    assert(rv.take(0) =~= Seq::<ComponentView>::empty());
    while i < required.len()
        invariant
            i <= required@.len(),
            rv == components_view(required@),
            cv == components_view(cs@),
            required_check(cv, rv.take(i as int)) == Ok::<(), HttpSigFailure>(()),
        decreases required@.len() - i,
    {
        assert(rv.take(i + 1).drop_last() =~= rv.take(i as int));
        assert(rv.take(i + 1).last() == required@[i as int]@);
        if !covers_exec(cs, &required[i]) {
            proof {
                lemma_required_err(cv, rv, i + 1, rv.len() as int);
                assert(rv.take(rv.len() as int) =~= rv);
            }
            return Err(HttpSigError::MissingRequiredComponent(required[i].quoted_id()));
        }
        i = i + 1;
    }
    assert(rv.take(rv.len() as int) =~= rv);
    Ok(())
}

proof fn lemma_required_err(cs: Seq<ComponentView>, rs: Seq<ComponentView>, i: int, j: int)
    requires
        0 <= i <= j <= rs.len(),
        required_check(cs, rs.take(i)) is Err,
    ensures
        required_check(cs, rs.take(j)) == required_check(cs, rs.take(i)),
    decreases j - i,
{
    if i < j {
        lemma_required_err(cs, rs, i, j - 1);
        assert(rs.take(j).drop_last() =~= rs.take(j - 1));
    }
}

fn saturating_add(a: u64, b: u64) -> (r: u64)
    ensures
        r == sat_add(a, b),
{
    if a > u64::MAX - b {
        u64::MAX
    } else {
        a + b
    }
}

fn check_time(p: &SignatureParams, config: &VerifyConfig) -> (r: Result<(), HttpSigError>)
    ensures
        unit_result(r) == time_check(p@, config@),
{
    match (p.created, p.expires) {
        (Some(created), Some(expires)) => {
            if expires < created {
                return Err(HttpSigError::InvalidTimeWindow);
            }
        },
        _ => {},
    }
    // A `max_age` without a `now` would silently skip the freshness check; fail
    // closed rather than give a false sense of enforcement.
    if config.max_age.is_some() && config.now.is_none() {
        return Err(HttpSigError::TooOld);
    }
    match config.now {
        None => Ok(()),
        Some(now) => {
            match p.expires {
                Some(expires) => {
                    if now > saturating_add(expires, config.leeway) {
                        return Err(HttpSigError::Expired);
                    }
                },
                None => {},
            }
            match p.created {
                Some(created) => {
                    if created > saturating_add(now, config.leeway) {
                        return Err(HttpSigError::CreatedInFuture);
                    }
                },
                None => {},
            }
            match config.max_age {
                None => Ok(()),
                Some(max_age) => match p.created {
                    None => Err(HttpSigError::TooOld),
                    Some(created) => {
                        let age: u64 = if now >= created {
                            now - created
                        } else {
                            0
                        };
                        if age > max_age {
                            Err(HttpSigError::TooOld)
                        } else {
                            Ok(())
                        }
                    },
                },
            }
        },
    }
}

/// Verifies an HTTP message signature on `source`.
///
/// Reconstructs the signature base from the components named in
/// `signature_input` (using the received parameter string verbatim, so the
/// base is byte-exact), verifies it against `verifying_key`, and applies the
/// checks in `config`. Fails closed on any deviation.
///
/// A successful return proves only that the covered components were signed
/// with `verifying_key`; use `required_components` to demand particular ones,
/// and [`crate::httpsig::message::verify_content_digest`] to bind the body.
/// Replay defense (remembering nonces) is the caller's.
pub fn verify<S: ComponentSource>(
    source: &S,
    signature_input: &str,
    signature: &str,
    verifying_key: &VerifyingKey,
    config: &VerifyConfig,
) -> (r: Result<VerifiedSignature, HttpSigError>)
    ensures
        verified_result(r) == verify_spec(
            source,
            signature_input@,
            signature@,
            verifying_key@,
            config@,
        ),
{
    let (input_label, components, params, params_value) = match parse_signature_input(
        signature_input,
    ) {
        Ok(t) => t,
        Err(e) => return Err(e),
    };
    let (sig_label, sig_bytes) = match parse_signature(signature) {
        Ok(t) => t,
        Err(e) => return Err(e),
    };
    match check_labels(&input_label, &sig_label, &config.label) {
        Err(e) => return Err(e),
        Ok(()) => {},
    }
    match check_params(&params, config) {
        Err(e) => return Err(e),
        Ok(()) => {},
    }
    let base: String = match base_from_params_value(
        source,
        components.as_slice(),
        params_value.as_str(),
    ) {
        Ok(b) => b,
        Err(e) => return Err(e),
    };
    match verifying_key.verify(base.as_str().as_bytes(), sig_bytes.as_slice()) {
        Ok(()) => {},
        Err(_) => return Err(HttpSigError::InvalidSignature),
    }
    match check_required(&components, &config.required_components) {
        Err(e) => return Err(e),
        Ok(()) => {},
    }
    match check_time(&params, config) {
        Err(e) => return Err(e),
        Ok(()) => {},
    }
    Ok(VerifiedSignature { label: input_label, components, params })
}

} // verus!
