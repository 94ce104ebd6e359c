//! RFC 9421 signature parameters: the WIMSE profile rules over them and their
//! serialization after the covered-component list (RFC 8941 inner list).

use vstd::prelude::*;

use crate::httpsig::message::{
    Component, ComponentView, HttpSigError, HttpSigFailure, join, lemma_join_push, quoted_id_spec,
};
use crate::jose::opt_view;
use crate::text::{chars_of, push_char, push_decimal, push_str, str_eq, decimal};

verus! {

broadcast use vstd::string::group_string_axioms;

/// The signature algorithm name accepted in an `alg` parameter (RFC 9421
/// Section 3.3.6). The WIMSE profile forbids the parameter outright — the
/// algorithm is pinned by the `cnf` JWK in the WIT — so this only matters when
/// the crate is driven as a plain RFC 9421 implementation.
pub const ALG: &'static str = "ed25519";

/// The `tag` value identifying a WIMSE workload-to-workload signature.
pub const WIMSE_TAG: &'static str = "wimse-workload-to-workload";

/// The signature label the draft recommends when a message carries a single
/// signature.
pub const WIMSE_LABEL: &'static str = "wimse";

/// RFC 9421 signature parameters, serialized after the covered-component list.
///
/// The last three are the signature metadata parameters registered by
/// `draft-ietf-wimse-http-signature`; the rest are the RFC 9421 originals.
/// Field order is the serialization order.
#[derive(Debug, Clone, Default, PartialEq, Eq)]
pub struct SignatureParams {
    /// Creation time, in seconds since the Unix epoch (`created`).
    pub created: Option<u64>,
    /// Expiry time, in seconds since the Unix epoch (`expires`).
    pub expires: Option<u64>,
    /// The key identifier (`keyid`). Forbidden by the WIMSE profile.
    pub keyid: Option<String>,
    /// The signature algorithm (`alg`). Forbidden by the WIMSE profile.
    pub alg: Option<String>,
    /// A unique nonce (`nonce`).
    pub nonce: Option<String>,
    /// An application-specific tag (`tag`); [`WIMSE_TAG`] under the profile.
    pub tag: Option<String>,
    /// The audience the request is intended for (`wimse-aud`). Required on a
    /// WIMSE request signature, forbidden on a response.
    pub wimse_aud: Option<String>,
    /// Whether the client requires the response to be signed
    /// (`wimse-sign-response`). A Boolean parameter: `true` serializes as a bare
    /// parameter name, per RFC 8941 Section 4.1.1.2.
    pub wimse_sign_response: Option<bool>,
    /// On a response signature, the `nonce` from the request being answered
    /// (`wimse-req-nonce`), which binds the response to that request.
    pub wimse_req_nonce: Option<String>,
}

/// Signature parameters, by value.
pub struct ParamsView {
    pub created: Option<u64>,
    pub expires: Option<u64>,
    pub keyid: Option<Seq<char>>,
    pub alg: Option<Seq<char>>,
    pub nonce: Option<Seq<char>>,
    pub tag: Option<Seq<char>>,
    pub wimse_aud: Option<Seq<char>>,
    pub wimse_sign_response: Option<bool>,
    pub wimse_req_nonce: Option<Seq<char>>,
}

impl View for SignatureParams {
    type V = ParamsView;

    open spec fn view(&self) -> ParamsView {
        ParamsView {
            created: self.created,
            expires: self.expires,
            keyid: opt_view(self.keyid),
            alg: opt_view(self.alg),
            nonce: opt_view(self.nonce),
            tag: opt_view(self.tag),
            wimse_aud: opt_view(self.wimse_aud),
            wimse_sign_response: self.wimse_sign_response,
            wimse_req_nonce: opt_view(self.wimse_req_nonce),
        }
    }
}

/// No parameters at all.
pub open spec fn no_params() -> ParamsView {
    ParamsView {
        created: None,
        expires: None,
        keyid: None,
        alg: None,
        nonce: None,
        tag: None,
        wimse_aud: None,
        wimse_sign_response: None,
        wimse_req_nonce: None,
    }
}

pub fn empty_params() -> (p: SignatureParams)
    ensures
        p@ == no_params(),
{
    SignatureParams {
        created: None,
        expires: None,
        keyid: None,
        alg: None,
        nonce: None,
        tag: None,
        wimse_aud: None,
        wimse_sign_response: None,
        wimse_req_nonce: None,
    }
}

fn clone_opt(o: &Option<String>) -> (r: Option<String>)
    ensures
        opt_view(r) == opt_view(*o),
{
    match o {
        Some(s) => Some(s.clone()),
        None => None,
    }
}

/// A copy of `p`.
pub fn clone_params(p: &SignatureParams) -> (r: SignatureParams)
    ensures
        r@ == p@,
{
    SignatureParams {
        created: p.created,
        expires: p.expires,
        keyid: clone_opt(&p.keyid),
        alg: clone_opt(&p.alg),
        nonce: clone_opt(&p.nonce),
        tag: clone_opt(&p.tag),
        wimse_aud: clone_opt(&p.wimse_aud),
        wimse_sign_response: p.wimse_sign_response,
        wimse_req_nonce: clone_opt(&p.wimse_req_nonce),
    }
}

/// A unit result, by its view.
pub open spec fn unit_result(r: Result<(), HttpSigError>) -> Result<(), HttpSigFailure> {
    match r {
        Ok(()) => Ok(()),
        Err(e) => Err(e@),
    }
}

/// The rules the tag and the common mandatory parameters obey on every WIMSE
/// message: `keyid` and `alg` absent; `created`, `expires`, `nonce` and `tag`
/// present; `tag` equal to [`WIMSE_TAG`].
pub open spec fn tag_check(p: ParamsView) -> Result<(), HttpSigFailure> {
    match p.tag {
        None => Err(HttpSigFailure::MissingParameter("tag"@)),
        Some(t) => if t == WIMSE_TAG@ {
            Ok(())
        } else {
            Err(HttpSigFailure::WrongTag(t))
        },
    }
}

/// What [`check_request_profile`] decides: the first rule of the request
/// profile that `p` breaks.
pub open spec fn request_profile_spec(p: ParamsView) -> Result<(), HttpSigFailure> {
    if p.keyid is Some {
        Err(HttpSigFailure::ForbiddenParameter("keyid"@))
    } else if p.alg is Some {
        Err(HttpSigFailure::ForbiddenParameter("alg"@))
    } else if p.created is None {
        Err(HttpSigFailure::MissingParameter("created"@))
    } else if p.expires is None {
        Err(HttpSigFailure::MissingParameter("expires"@))
    } else if p.nonce is None {
        Err(HttpSigFailure::MissingParameter("nonce"@))
    } else if tag_check(p) is Err {
        tag_check(p)
    } else if p.wimse_aud is None {
        Err(HttpSigFailure::MissingParameter("wimse-aud"@))
    } else {
        Ok(())
    }
}

/// What [`check_response_profile`] decides: the first rule of the response
/// profile that `p` breaks. On a response `wimse-aud` is forbidden rather than
/// required, and `wimse-req-nonce` takes its place.
pub open spec fn response_profile_spec(p: ParamsView) -> Result<(), HttpSigFailure> {
    if p.keyid is Some {
        Err(HttpSigFailure::ForbiddenParameter("keyid"@))
    } else if p.alg is Some {
        Err(HttpSigFailure::ForbiddenParameter("alg"@))
    } else if p.wimse_aud is Some {
        Err(HttpSigFailure::ForbiddenParameter("wimse-aud"@))
    } else if p.created is None {
        Err(HttpSigFailure::MissingParameter("created"@))
    } else if p.expires is None {
        Err(HttpSigFailure::MissingParameter("expires"@))
    } else if p.nonce is None {
        Err(HttpSigFailure::MissingParameter("nonce"@))
    } else if tag_check(p) is Err {
        tag_check(p)
    } else if p.wimse_req_nonce is None {
        Err(HttpSigFailure::MissingParameter("wimse-req-nonce"@))
    } else {
        Ok(())
    }
}

fn check_tag(params: &SignatureParams) -> (r: Result<(), HttpSigError>)
    ensures
        unit_result(r) == tag_check(params@),
{
    match &params.tag {
        None => Err(HttpSigError::MissingParameter("tag")),
        Some(tag) => {
            if str_eq(tag.as_str(), WIMSE_TAG) {
                Ok(())
            } else {
                Err(HttpSigError::WrongTag { found: tag.clone() })
            }
        },
    }
}

/// Errors unless `params` satisfies the WIMSE profile for a request signature
/// (Section 3 of `draft-ietf-wimse-http-signature`).
///
/// The profile makes `created`, `expires`, `nonce` and `tag` mandatory on every
/// message and `wimse-aud` mandatory on requests, and forbids `keyid` and `alg`
/// — the signing key travels in the WIT and the algorithm is pinned by that
/// WIT's `cnf` JWK. The first rule broken, in that order, is reported.
pub fn check_request_profile(params: &SignatureParams) -> (r: Result<(), HttpSigError>)
    ensures
        unit_result(r) == request_profile_spec(params@),
{
    if params.keyid.is_some() {
        return Err(HttpSigError::ForbiddenParameter("keyid"));
    }
    if params.alg.is_some() {
        return Err(HttpSigError::ForbiddenParameter("alg"));
    }
    if params.created.is_none() {
        return Err(HttpSigError::MissingParameter("created"));
    }
    if params.expires.is_none() {
        return Err(HttpSigError::MissingParameter("expires"));
    }
    if params.nonce.is_none() {
        return Err(HttpSigError::MissingParameter("nonce"));
    }
    match check_tag(params) {
        Err(e) => return Err(e),
        Ok(()) => {},
    }
    if params.wimse_aud.is_none() {
        return Err(HttpSigError::MissingParameter("wimse-aud"));
    }
    Ok(())
}

/// Errors unless `params` satisfies the WIMSE profile for a response
/// signature: as for a request, except that `wimse-aud` is forbidden and
/// `wimse-req-nonce` is required.
pub fn check_response_profile(params: &SignatureParams) -> (r: Result<(), HttpSigError>)
    ensures
        unit_result(r) == response_profile_spec(params@),
{
    if params.keyid.is_some() {
        return Err(HttpSigError::ForbiddenParameter("keyid"));
    }
    if params.alg.is_some() {
        return Err(HttpSigError::ForbiddenParameter("alg"));
    }
    if params.wimse_aud.is_some() {
        return Err(HttpSigError::ForbiddenParameter("wimse-aud"));
    }
    if params.created.is_none() {
        return Err(HttpSigError::MissingParameter("created"));
    }
    if params.expires.is_none() {
        return Err(HttpSigError::MissingParameter("expires"));
    }
    if params.nonce.is_none() {
        return Err(HttpSigError::MissingParameter("nonce"));
    }
    match check_tag(params) {
        Err(e) => return Err(e),
        Ok(()) => {},
    }
    if params.wimse_req_nonce.is_none() {
        return Err(HttpSigError::MissingParameter("wimse-req-nonce"));
    }
    Ok(())
}

// ---------------------------------------------------------------------------
// Serialization.
// ---------------------------------------------------------------------------

/// One character inside an RFC 8941 string: `\` and `"` are escaped.
pub open spec fn escape_char(c: char) -> Seq<char> {
    if c == '\\' || c == '"' {
        seq!['\\', c]
    } else {
        seq![c]
    }
}

/// The body of an RFC 8941 string.
pub open spec fn escape(s: Seq<char>) -> Seq<char>
    decreases s.len(),
{
    if s.len() == 0 {
        seq![]
    } else {
        escape_char(s[0]) + escape(s.drop_first())
    }
}

/// An RFC 8941 string: the escaped body between double quotes.
pub open spec fn sf_string_spec(s: Seq<char>) -> Seq<char> {
    seq!['"'] + escape(s) + seq!['"']
}

/// Escaping distributes over concatenation.
pub proof fn lemma_escape_concat(a: Seq<char>, b: Seq<char>)
    ensures
        escape(a + b) == escape(a) + escape(b),
    decreases a.len(),
{
    if a.len() == 0 {
        assert(a + b =~= b);
        assert(escape(a) + escape(b) =~= escape(b));
    } else {
        assert((a + b).drop_first() =~= a.drop_first() + b);
        lemma_escape_concat(a.drop_first(), b);
        assert((a + b)[0] == a[0]);
        assert(escape_char(a[0]) + (escape(a.drop_first()) + escape(b)) =~= (escape_char(a[0])
            + escape(a.drop_first())) + escape(b));
    }
}

/// Appends `value` as an RFC 8941 string.
pub fn push_sf_string(out: &mut String, value: &str)
    ensures
        final(out)@ == old(out)@ + sf_string_spec(value@),
{
    let v: Vec<char> = chars_of(value);
    let ghost start: Seq<char> = out@;
    push_char(out, '"');
    let mut i: usize = 0;
    assert(v@.take(0) =~= Seq::<char>::empty());
    assert(escape(Seq::<char>::empty()) =~= Seq::<char>::empty());
    while i < v.len()
        invariant
            v@ == value@,
            i <= v@.len(),
            out@ == start + seq!['"'] + escape(v@.take(i as int)),
        decreases v@.len() - i,
    {
        let c: char = v[i];
        proof {
            assert(v@.take(i + 1) =~= v@.take(i as int) + seq![c]);
            lemma_escape_concat(v@.take(i as int), seq![c]);
            assert(seq![c].drop_first() =~= Seq::<char>::empty());
            assert(escape(Seq::<char>::empty()) =~= Seq::<char>::empty());
            assert(escape(seq![c]) =~= escape_char(c));
        }
        if c == '\\' || c == '"' {
            push_char(out, '\\');
        }
        push_char(out, c);
        i = i + 1;
        assert(out@ =~= start + seq!['"'] + escape(v@.take(i as int)));
    }
    push_char(out, '"');
    assert(v@.take(v@.len() as int) =~= v@);
    assert(out@ =~= start + sf_string_spec(value@));
}

/// Components, by value.
pub open spec fn components_view(cs: Seq<Component>) -> Seq<ComponentView> {
    cs.map_values(|c: Component| c@)
}

/// The covered components as an RFC 8941 inner list body: their quoted
/// identifiers, space-separated.
pub open spec fn inner_list_spec(cs: Seq<ComponentView>) -> Seq<char> {
    join(cs.map_values(|c: ComponentView| quoted_id_spec(c)), seq![' '])
}

/// `;name=value` for an integer parameter, or nothing.
pub open spec fn int_param(name: Seq<char>, v: Option<u64>) -> Seq<char> {
    match v {
        Some(n) => name + decimal(n as nat),
        None => seq![],
    }
}

/// `;name="value"` for a string parameter, or nothing.
pub open spec fn str_param(name: Seq<char>, v: Option<Seq<char>>) -> Seq<char> {
    match v {
        Some(s) => name + sf_string_spec(s),
        None => seq![],
    }
}

/// `wimse-sign-response`: a Boolean `true` is written bare (RFC 8941 Section
/// 4.1.1.2), `false` as `=?0`.
pub open spec fn sign_response_param(v: Option<bool>) -> Seq<char> {
    match v {
        Some(true) => ";wimse-sign-response"@,
        Some(false) => ";wimse-sign-response=?0"@,
        None => seq![],
    }
}

/// The parameters after the inner list, in field order.
pub open spec fn params_suffix(p: ParamsView) -> Seq<char> {
    int_param(";created="@, p.created) + int_param(";expires="@, p.expires) + str_param(
        ";keyid="@,
        p.keyid,
    ) + str_param(";alg="@, p.alg) + str_param(";nonce="@, p.nonce) + str_param(";tag="@, p.tag)
        + str_param(";wimse-aud="@, p.wimse_aud) + sign_response_param(p.wimse_sign_response)
        + str_param(";wimse-req-nonce="@, p.wimse_req_nonce)
}

/// The `@signature-params` value: the inner list, then the parameters.
pub open spec fn params_value_spec(cs: Seq<ComponentView>, p: ParamsView) -> Seq<char> {
    seq!['('] + inner_list_spec(cs) + seq![')'] + params_suffix(p)
}

fn push_int_param(out: &mut String, name: &str, v: Option<u64>)
    ensures
        final(out)@ == old(out)@ + int_param(name@, v),
{
    match v {
        Some(n) => {
            push_str(out, name);
            push_decimal(out, n);
        },
        None => {},
    }
}

fn push_str_param(out: &mut String, name: &str, v: &Option<String>)
    ensures
        final(out)@ == old(out)@ + str_param(name@, opt_view(*v)),
{
    match v {
        Some(s) => {
            push_str(out, name);
            push_sf_string(out, s.as_str());
        },
        None => {},
    }
}

fn push_inner_list(s: &mut String, components: &[Component])
    ensures
        final(s)@ == old(s)@ + inner_list_spec(components_view(components@)),
{
    let ghost ids: Seq<Seq<char>> = components_view(components@).map_values(
        |c: ComponentView| quoted_id_spec(c),
    );
    let ghost start: Seq<char> = s@;
    let mut i: usize = 0;
    assert(ids.take(0) =~= Seq::<Seq<char>>::empty());
    assert(s@ =~= start + join(ids.take(0), seq![' ']));
    while i < components.len()
        invariant
            i <= components@.len(),
            ids == components_view(components@).map_values(|c: ComponentView| quoted_id_spec(c)),
            s@ == start + join(ids.take(i as int), seq![' ']),
        decreases components@.len() - i,
    {
        let id: String = components[i].quoted_id();
        proof {
            assert(ids.take(i + 1) =~= ids.take(i as int).push(id@));
            lemma_join_push(ids.take(i as int), id@, seq![' ']);
        }
        if i > 0 {
            push_char(s, ' ');
        }
        push_str(s, id.as_str());
        i = i + 1;
        assert(s@ =~= start + join(ids.take(i as int), seq![' ']));
    }
    assert(ids.take(components@.len() as int) =~= ids);
}

fn push_params_suffix(s: &mut String, params: &SignatureParams)
    ensures
        final(s)@ == old(s)@ + params_suffix(params@),
{
    let ghost p: ParamsView = params@;
    let ghost start: Seq<char> = s@;
    push_int_param(s, ";created=", params.created);
    push_int_param(s, ";expires=", params.expires);
    push_str_param(s, ";keyid=", &params.keyid);
    push_str_param(s, ";alg=", &params.alg);
    let ghost a: Seq<char> = int_param(";created="@, p.created) + int_param(";expires="@, p.expires)
        + str_param(";keyid="@, p.keyid) + str_param(";alg="@, p.alg);
    assert(s@ =~= start + a);
    push_str_param(s, ";nonce=", &params.nonce);
    push_str_param(s, ";tag=", &params.tag);
    push_str_param(s, ";wimse-aud=", &params.wimse_aud);
    let ghost b: Seq<char> = a + str_param(";nonce="@, p.nonce) + str_param(";tag="@, p.tag)
        + str_param(";wimse-aud="@, p.wimse_aud);
    assert(s@ =~= start + b);
    match params.wimse_sign_response {
        // RFC 8941 Section 4.1.1.2: a Boolean `true` parameter omits its value.
        Some(true) => push_str(s, ";wimse-sign-response"),
        Some(false) => push_str(s, ";wimse-sign-response=?0"),
        None => {},
    }
    push_str_param(s, ";wimse-req-nonce=", &params.wimse_req_nonce);
    assert(s@ =~= start + (b + sign_response_param(p.wimse_sign_response) + str_param(
        ";wimse-req-nonce="@,
        p.wimse_req_nonce,
    )));
}

/// The serialized inner list and parameters: `("@method" ...);created=...`.
pub fn serialize_params_value(components: &[Component], params: &SignatureParams) -> (r: String)
    ensures
        r@ == params_value_spec(components_view(components@), params@),
{
    let mut s: String = String::new();
    push_char(&mut s, '(');
    push_inner_list(&mut s, components);
    push_char(&mut s, ')');
    push_params_suffix(&mut s, params);
    assert(s@ =~= params_value_spec(components_view(components@), params@));
    s
}

} // verus!
