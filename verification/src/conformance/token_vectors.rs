//! Generating the WIT and WPT vectors: the negative cases a verifier must
//! refuse, with the reason each must be refused for, and the vectors around
//! them. Writing a token's claims as JSON is the caller's: the tokens that
//! need it (the golden token, and the reissues with an altered `cnf`) are
//! handed in; re-signing under another header and tampering with the claims
//! are done here.

use vstd::prelude::*;
use vstd::utf8::encode_utf8;

use crate::compact::{frame_spec, resign_compact, resigned_spec, tamper_claims, tampered_spec};
use crate::conformance::{ErrorCode, Header, WitNegative, WptNegative, FORMAT};
use crate::jose::{
    alg_name, opt_view, public_of, spec_jwk_of, spec_private_jwk_of, Algorithm, Jwk, JwkView,
    PrivateJwk, PrivateJwkView, SigningKey, SigningKeyView,
};
use crate::text::{owned, push_str};
use crate::wit::{WitClaims, WitClaimsView};
use crate::wpt::{ClaimsView, WptClaims};

verus! {

broadcast use vstd::string::group_string_axioms;

/// The key id the WIT vector's issuer stamps.
pub const KID: &'static str = "issuer-key-1";
/// The draft revision the WIT vector follows.
pub const WIT_SPEC: &'static str = "draft-ietf-wimse-workload-creds-02";
/// The draft revision the WPT vector follows.
pub const WPT_SPEC: &'static str = "draft-ietf-wimse-wpt-01";

// ---------------------------------------------------------------------------
// The vectors.
// ---------------------------------------------------------------------------

/// A WIT vector: the issuer's key, the claims and the token issued from them,
/// and the inputs a verifier must reject.
#[derive(Debug)]
pub struct WitVector {
    pub header: Header,
    pub alg: String,
    pub issuer_signing_key: PrivateJwk,
    pub kid: Option<String>,
    pub verify_now: u64,
    pub claims: WitClaims,
    pub token: String,
    pub negative: Vec<WitNegative>,
}

/// A WPT vector: the proof-of-possession key, the WIT the proof is bound to
/// and the issuer key that verifies it, the claims and the proof, and the
/// inputs a verifier must reject.
#[derive(Debug)]
pub struct WptVector {
    pub header: Header,
    pub alg: String,
    pub pop_signing_key: PrivateJwk,
    pub issuer_verifying_key: Jwk,
    pub verify_now: u64,
    pub audience: String,
    pub wit: String,
    pub claims: WptClaims,
    pub proof: String,
    pub negative: Vec<WptNegative>,
}

/// The golden token reissued with its `cnf` JWK's `alg` altered: omitted,
/// `HS256`, and `none`.
pub struct WitReissued {
    pub missing_alg: String,
    pub symmetric_alg: String,
    pub unsecured_alg: String,
}

// ---------------------------------------------------------------------------
// Negative cases, by value.
// ---------------------------------------------------------------------------

pub struct WitNegativeView {
    pub id: Seq<char>,
    pub description: Seq<char>,
    pub expect: ErrorCode,
    pub token: Option<Seq<char>>,
    pub verify_now: Option<u64>,
    pub issuer_verifying_key: Option<JwkView>,
    pub expected_iss: Option<Seq<char>>,
}

pub open spec fn jwk_view(j: Option<Jwk>) -> Option<JwkView> {
    match j {
        Some(k) => Some(k@),
        None => None,
    }
}

impl View for WitNegative {
    type V = WitNegativeView;

    open spec fn view(&self) -> WitNegativeView {
        WitNegativeView {
            id: self.id@,
            description: self.description@,
            expect: self.expect,
            token: opt_view(self.token),
            verify_now: self.verify_now,
            issuer_verifying_key: jwk_view(self.issuer_verifying_key),
            expected_iss: opt_view(self.expected_iss),
        }
    }
}

pub struct WptNegativeView {
    pub id: Seq<char>,
    pub description: Seq<char>,
    pub expect: ErrorCode,
    pub proof: Option<Seq<char>>,
    pub verify_now: Option<u64>,
    pub audience: Option<Seq<char>>,
    pub wit: Option<Seq<char>>,
}

impl View for WptNegative {
    type V = WptNegativeView;

    open spec fn view(&self) -> WptNegativeView {
        WptNegativeView {
            id: self.id@,
            description: self.description@,
            expect: self.expect,
            proof: opt_view(self.proof),
            verify_now: self.verify_now,
            audience: opt_view(self.audience),
            wit: opt_view(self.wit),
        }
    }
}

pub open spec fn plain_wit_negative(id: Seq<char>, description: Seq<char>, expect: ErrorCode) -> WitNegativeView {
    WitNegativeView {
        id,
        description,
        expect,
        token: None,
        verify_now: None,
        issuer_verifying_key: None,
        expected_iss: None,
    }
}

pub open spec fn plain_wpt_negative(id: Seq<char>, description: Seq<char>, expect: ErrorCode) -> WptNegativeView {
    WptNegativeView { id, description, expect, proof: None, verify_now: None, audience: None, wit: None }
}

fn wit_neg(id: &str, description: &str, expect: ErrorCode) -> (r: WitNegative)
    ensures
        r@ == plain_wit_negative(id@, description@, expect),
{
    WitNegative {
        id: owned(id),
        description: owned(description),
        expect,
        token: None,
        verify_now: None,
        issuer_verifying_key: None,
        expected_iss: None,
    }
}

fn wpt_neg(id: &str, description: &str, expect: ErrorCode) -> (r: WptNegative)
    ensures
        r@ == plain_wpt_negative(id@, description@, expect),
{
    WptNegative {
        id: owned(id),
        description: owned(description),
        expect,
        proof: None,
        verify_now: None,
        audience: None,
        wit: None,
    }
}

// ---------------------------------------------------------------------------
// Altered headers.
// ---------------------------------------------------------------------------

/// A JOSE header naming the plain `jwt` type instead of the token's own, with
/// the key's algorithm and, for a WIT, the key id.
pub open spec fn wrong_typ_header(alg: Algorithm, kid: Option<Seq<char>>) -> Seq<char> {
    "{\"typ\":\"jwt\",\"alg\":\""@ + alg_name(alg) + match kid {
        Some(k) => "\",\"kid\":\""@ + k + "\"}"@,
        None => "\"}"@,
    }
}

fn wrong_typ_header_text(alg: Algorithm, kid: Option<&str>) -> (r: String)
    ensures
        r@ == wrong_typ_header(
            alg,
            match kid {
                Some(k) => Some(k@),
                None => None,
            },
        ),
{
    let mut h: String = owned("{\"typ\":\"jwt\",\"alg\":\"");
    push_str(&mut h, alg.as_str());
    match kid {
        Some(k) => {
            push_str(&mut h, "\",\"kid\":\"");
            push_str(&mut h, k);
            push_str(&mut h, "\"}");
        },
        None => {
            push_str(&mut h, "\"}");
        },
    }
    h
}

// ---------------------------------------------------------------------------
// The WIT cases.
// ---------------------------------------------------------------------------

/// The token with the golden claims, `jti` altered after signing.
pub open spec fn wit_tampered(token: Seq<char>) -> Option<Seq<char>> {
    tampered_spec(token, encode_utf8("a1b2c3"@), encode_utf8("a1b2c4"@))
}

/// The cases a WIT verifier must refuse, given the golden token (issued at
/// `iat`, expiring at `exp`), its reissues with an altered `cnf`, the issuer
/// key and another issuer's key; `None` when the token cannot be re-signed
/// or tampered with.
pub open spec fn wit_negatives_spec(
    token: Seq<char>,
    missing_alg: Seq<char>,
    symmetric_alg: Seq<char>,
    unsecured_alg: Seq<char>,
    iat: u64,
    exp: u64,
    issuer: SigningKeyView,
    other_issuer: SigningKeyView,
) -> Option<Seq<WitNegativeView>> {
    match frame_spec(token) {
        Err(_) => None,
        Ok((h, c, s)) => match wit_tampered(token) {
            None => None,
            Some(tampered) => Some(
                seq![
                    WitNegativeView {
                        verify_now: Some((exp + 1) as u64),
                        ..plain_wit_negative("expired"@, "verified one second after `exp`"@, ErrorCode::Expired)
                    },
                    WitNegativeView {
                        verify_now: Some((iat - 1) as u64),
                        ..plain_wit_negative("issued-in-future"@, "verified one second before `iat`"@, ErrorCode::IssuedInFuture)
                    },
                    WitNegativeView {
                        token: Some(resigned_spec(encode_utf8(wrong_typ_header(issuer.alg, Some(KID@))), c, issuer)),
                        ..plain_wit_negative("wrong-typ"@, "validly signed, but the JOSE `typ` is `jwt` and not `wit+jwt`"@, ErrorCode::WrongType)
                    },
                    WitNegativeView {
                        token: Some(tampered),
                        ..plain_wit_negative("tampered-payload"@, "`jti` was altered after signing; the payload is still valid JSON"@, ErrorCode::InvalidSignature)
                    },
                    WitNegativeView {
                        issuer_verifying_key: Some(spec_jwk_of(public_of(other_issuer))),
                        ..plain_wit_negative("wrong-issuer-key"@, "verified against an issuer key that did not sign the token"@, ErrorCode::InvalidSignature)
                    },
                    WitNegativeView {
                        expected_iss: Some("https://other-issuer.example"@),
                        ..plain_wit_negative("issuer-mismatch"@, "the verifier expects a different `iss` than the token carries"@, ErrorCode::IssuerMismatch)
                    },
                    WitNegativeView {
                        token: Some(missing_alg),
                        ..plain_wit_negative("cnf-missing-alg"@, "the `cnf` JWK omits the `alg` member the draft requires"@, ErrorCode::MissingConfirmationAlg)
                    },
                    WitNegativeView {
                        token: Some(symmetric_alg),
                        ..plain_wit_negative("cnf-symmetric-alg"@, "the `cnf` JWK names a symmetric algorithm, which cannot prove possession"@, ErrorCode::ForbiddenConfirmationAlg)
                    },
                    WitNegativeView {
                        token: Some(unsecured_alg),
                        ..plain_wit_negative("cnf-unsecured-alg"@, "the `cnf` JWK names `none`, which the draft forbids outright"@, ErrorCode::ForbiddenConfirmationAlg)
                    },
                ],
            ),
        },
    }
}

pub open spec fn negatives_view<T: View>(v: Option<Vec<T>>) -> Option<Seq<T::V>> {
    match v {
        Some(l) => Some(l@.map_values(|n: T| n@)),
        None => None,
    }
}

/// The cases a WIT verifier must refuse (see [`wit_negatives_spec`]).
pub fn wit_negatives(
    token: &str,
    reissued: &WitReissued,
    iat: u64,
    exp: u64,
    issuer_key: &SigningKey,
    other_issuer: &SigningKey,
) -> (r: Option<Vec<WitNegative>>)
    requires
        iat > 0,
        exp < u64::MAX,
    ensures
        negatives_view(r) == wit_negatives_spec(
            token@,
            reissued.missing_alg@,
            reissued.symmetric_alg@,
            reissued.unsecured_alg@,
            iat,
            exp,
            issuer_key@,
            other_issuer@,
        ),
{
    let header: String = wrong_typ_header_text(issuer_key.algorithm(), Some(KID));
    let resigned: String = match resign_compact(token, header.as_str().as_bytes(), issuer_key) {
        Some(t) => t,
        None => return None,
    };
    let tampered: String = match tamper_claims(token, "a1b2c3", "a1b2c4") {
        Some(t) => t,
        None => {
            assert(wit_tampered(token@) is None);
            return None;
        },
    };
    let mut expired = wit_neg("expired", "verified one second after `exp`", ErrorCode::Expired);
    expired.verify_now = Some(exp + 1);
    let mut future = wit_neg("issued-in-future", "verified one second before `iat`", ErrorCode::IssuedInFuture);
    future.verify_now = Some(iat - 1);
    let mut typ = wit_neg("wrong-typ", "validly signed, but the JOSE `typ` is `jwt` and not `wit+jwt`", ErrorCode::WrongType);
    typ.token = Some(resigned);
    let mut tamper = wit_neg("tampered-payload", "`jti` was altered after signing; the payload is still valid JSON", ErrorCode::InvalidSignature);
    tamper.token = Some(tampered);
    let mut other = wit_neg("wrong-issuer-key", "verified against an issuer key that did not sign the token", ErrorCode::InvalidSignature);
    other.issuer_verifying_key = Some(Jwk::from_verifying_key(&other_issuer.verifying_key()));
    let mut iss = wit_neg("issuer-mismatch", "the verifier expects a different `iss` than the token carries", ErrorCode::IssuerMismatch);
    iss.expected_iss = Some(owned("https://other-issuer.example"));
    let mut missing = wit_neg("cnf-missing-alg", "the `cnf` JWK omits the `alg` member the draft requires", ErrorCode::MissingConfirmationAlg);
    missing.token = Some(reissued.missing_alg.clone());
    let mut symmetric = wit_neg("cnf-symmetric-alg", "the `cnf` JWK names a symmetric algorithm, which cannot prove possession", ErrorCode::ForbiddenConfirmationAlg);
    symmetric.token = Some(reissued.symmetric_alg.clone());
    let mut unsecured = wit_neg("cnf-unsecured-alg", "the `cnf` JWK names `none`, which the draft forbids outright", ErrorCode::ForbiddenConfirmationAlg);
    unsecured.token = Some(reissued.unsecured_alg.clone());
    let cases: Vec<WitNegative> = vec![expired, future, typ, tamper, other, iss, missing, symmetric, unsecured];
    let ghost expected = wit_negatives_spec(
        token@,
        reissued.missing_alg@,
        reissued.symmetric_alg@,
        reissued.unsecured_alg@,
        iat,
        exp,
        issuer_key@,
        other_issuer@,
    );
    assert(cases@.map_values(|n: WitNegative| n@) =~= expected->0);
    Some(cases)
}

/// The WIT vector id: `issue-` and the algorithm, lowercased.
pub open spec fn wit_vector_id(alg: Algorithm) -> Seq<char> {
    match alg {
        Algorithm::EdDsa => "issue-eddsa"@,
        Algorithm::Es256 => "issue-es256"@,
    }
}

pub open spec fn wit_description(alg: Algorithm) -> Seq<char> {
    "WIT issuance with "@ + alg_name(alg) + ", plus the inputs a verifier must reject"@
}

/// The WIT vector for `claims` and the `token` issued from them under
/// `issuer_key` at `verify_now`; `None` where [`wit_negatives`] gives none.
pub fn wit_vector(
    issuer_key: &SigningKey,
    other_issuer: &SigningKey,
    claims: WitClaims,
    token: String,
    reissued: &WitReissued,
    verify_now: u64,
) -> (r: Option<WitVector>)
    requires
        verify_now > 0,
        claims.exp < u64::MAX,
    ensures
        match wit_negatives_spec(
            token@,
            reissued.missing_alg@,
            reissued.symmetric_alg@,
            reissued.unsecured_alg@,
            verify_now,
            claims.exp,
            issuer_key@,
            other_issuer@,
        ) {
            None => r is None,
            Some(negs) => r matches Some(v) && {
                &&& v.header.format@ == FORMAT@
                &&& v.header.suite@ == "wit"@
                &&& v.header.id@ == wit_vector_id(issuer_key@.alg)
                &&& v.header.spec@ == WIT_SPEC@
                &&& v.header.description@ == wit_description(issuer_key@.alg)
                &&& v.alg@ == alg_name(issuer_key@.alg)
                &&& v.issuer_signing_key@ == spec_private_jwk_of(issuer_key@)
                &&& opt_view(v.kid) == Some(KID@)
                &&& v.verify_now == verify_now
                &&& v.claims@ == claims@
                &&& v.token@ == token@
                &&& v.negative@.map_values(|n: WitNegative| n@) == negs
            },
        },
{
    let negative: Vec<WitNegative> = match wit_negatives(
        token.as_str(),
        reissued,
        verify_now,
        claims.exp,
        issuer_key,
        other_issuer,
    ) {
        Some(n) => n,
        None => return None,
    };
    let alg: Algorithm = issuer_key.algorithm();
    let mut description: String = owned("WIT issuance with ");
    push_str(&mut description, alg.as_str());
    push_str(&mut description, ", plus the inputs a verifier must reject");
    let header: Header = Header {
        format: owned(FORMAT),
        suite: owned("wit"),
        id: match alg {
            Algorithm::EdDsa => owned("issue-eddsa"),
            Algorithm::Es256 => owned("issue-es256"),
        },
        spec: owned(WIT_SPEC),
        description,
    };
    Some(
        WitVector {
            header,
            alg: owned(alg.as_str()),
            issuer_signing_key: PrivateJwk::from_signing_key(issuer_key),
            kid: Some(owned(KID)),
            verify_now,
            claims,
            token,
            negative,
        },
    )
}

// ---------------------------------------------------------------------------
// The WPT cases.
// ---------------------------------------------------------------------------

/// The proof with the golden claims, `jti` altered after signing.
pub open spec fn wpt_tampered(proof: Seq<char>) -> Option<Seq<char>> {
    tampered_spec(proof, encode_utf8("0123456789abcdef"@), encode_utf8("0123456789abcdee"@))
}

/// The cases a WPT verifier must refuse, given the golden proof (expiring at
/// `exp`), a second WIT for the same key, and the proof-of-possession key;
/// `None` when the proof cannot be re-signed or tampered with.
pub open spec fn wpt_negatives_spec(
    proof: Seq<char>,
    exp: u64,
    other_wit: Seq<char>,
    pop: SigningKeyView,
) -> Option<Seq<WptNegativeView>> {
    match frame_spec(proof) {
        Err(_) => None,
        Ok((h, c, s)) => match wpt_tampered(proof) {
            None => None,
            Some(tampered) => Some(
                seq![
                    WptNegativeView {
                        verify_now: Some((exp + 1) as u64),
                        ..plain_wpt_negative("expired"@, "verified one second after `exp`"@, ErrorCode::Expired)
                    },
                    WptNegativeView {
                        audience: Some("https://other.example.com/path"@),
                        ..plain_wpt_negative("audience-mismatch"@, "presented to a service other than the one named in `aud`"@, ErrorCode::AudienceMismatch)
                    },
                    WptNegativeView {
                        wit: Some(other_wit),
                        ..plain_wpt_negative("wit-binding-mismatch"@, "replayed alongside a different, otherwise valid WIT"@, ErrorCode::WitBindingMismatch)
                    },
                    WptNegativeView {
                        proof: Some(resigned_spec(encode_utf8(wrong_typ_header(pop.alg, None)), c, pop)),
                        ..plain_wpt_negative("wrong-typ"@, "validly signed, but the JOSE `typ` is `jwt` and not `wpt+jwt`"@, ErrorCode::WrongType)
                    },
                    WptNegativeView {
                        proof: Some(tampered),
                        ..plain_wpt_negative("tampered-payload"@, "`jti` was altered after signing; the payload is still valid JSON"@, ErrorCode::InvalidSignature)
                    },
                ],
            ),
        },
    }
}

/// The cases a WPT verifier must refuse (see [`wpt_negatives_spec`]).
pub fn wpt_negatives(proof: &str, exp: u64, other_wit: &str, pop_key: &SigningKey) -> (r: Option<
    Vec<WptNegative>,
>)
    requires
        exp < u64::MAX,
    ensures
        negatives_view(r) == wpt_negatives_spec(proof@, exp, other_wit@, pop_key@),
{
    let header: String = wrong_typ_header_text(pop_key.algorithm(), None);
    let resigned: String = match resign_compact(proof, header.as_str().as_bytes(), pop_key) {
        Some(t) => t,
        None => return None,
    };
    let tampered: String = match tamper_claims(proof, "0123456789abcdef", "0123456789abcdee") {
        Some(t) => t,
        None => {
            assert(wpt_tampered(proof@) is None);
            return None;
        },
    };
    let mut expired = wpt_neg("expired", "verified one second after `exp`", ErrorCode::Expired);
    expired.verify_now = Some(exp + 1);
    let mut audience = wpt_neg("audience-mismatch", "presented to a service other than the one named in `aud`", ErrorCode::AudienceMismatch);
    audience.audience = Some(owned("https://other.example.com/path"));
    let mut binding = wpt_neg("wit-binding-mismatch", "replayed alongside a different, otherwise valid WIT", ErrorCode::WitBindingMismatch);
    binding.wit = Some(owned(other_wit));
    let mut typ = wpt_neg("wrong-typ", "validly signed, but the JOSE `typ` is `jwt` and not `wpt+jwt`", ErrorCode::WrongType);
    typ.proof = Some(resigned);
    let mut tamper = wpt_neg("tampered-payload", "`jti` was altered after signing; the payload is still valid JSON", ErrorCode::InvalidSignature);
    tamper.proof = Some(tampered);
    let cases: Vec<WptNegative> = vec![expired, audience, binding, typ, tamper];
    let ghost expected = wpt_negatives_spec(proof@, exp, other_wit@, pop_key@);
    assert(cases@.map_values(|n: WptNegative| n@) =~= expected->0);
    Some(cases)
}

/// The WPT vector id: `proof-` and the algorithm, lowercased.
pub open spec fn wpt_vector_id(alg: Algorithm) -> Seq<char> {
    match alg {
        Algorithm::EdDsa => "proof-eddsa"@,
        Algorithm::Es256 => "proof-es256"@,
    }
}

/// The WPT vector for `claims` and the `proof` made from them under
/// `pop_key`, bound to `wit` (issued by `issuer_key`), verified at
/// `verify_now` and presented to `audience`; `None` where [`wpt_negatives`]
/// gives none.
pub fn wpt_vector(
    issuer_key: &SigningKey,
    pop_key: &SigningKey,
    wit: String,
    other_wit: &str,
    audience: String,
    claims: WptClaims,
    proof: String,
    verify_now: u64,
) -> (r: Option<WptVector>)
    requires
        claims.exp < u64::MAX,
    ensures
        match wpt_negatives_spec(proof@, claims.exp, other_wit@, pop_key@) {
            None => r is None,
            Some(negs) => r matches Some(v) && {
                &&& v.header.format@ == FORMAT@
                &&& v.header.suite@ == "wpt"@
                &&& v.header.id@ == wpt_vector_id(pop_key@.alg)
                &&& v.header.spec@ == WPT_SPEC@
                &&& v.header.description@
                    == "WPT bound to a WIT via `wth`, plus the inputs a verifier must reject"@
                &&& v.alg@ == alg_name(pop_key@.alg)
                &&& v.pop_signing_key@ == spec_private_jwk_of(pop_key@)
                &&& v.issuer_verifying_key@ == spec_jwk_of(public_of(issuer_key@))
                &&& v.verify_now == verify_now
                &&& v.audience@ == audience@
                &&& v.wit@ == wit@
                &&& v.claims@ == claims@
                &&& v.proof@ == proof@
                &&& v.negative@.map_values(|n: WptNegative| n@) == negs
            },
        },
{
    let negative: Vec<WptNegative> = match wpt_negatives(proof.as_str(), claims.exp, other_wit, pop_key) {
        Some(n) => n,
        None => return None,
    };
    let alg: Algorithm = pop_key.algorithm();
    let header: Header = Header {
        format: owned(FORMAT),
        suite: owned("wpt"),
        id: match alg {
            Algorithm::EdDsa => owned("proof-eddsa"),
            Algorithm::Es256 => owned("proof-es256"),
        },
        spec: owned(WPT_SPEC),
        description: owned("WPT bound to a WIT via `wth`, plus the inputs a verifier must reject"),
    };
    Some(
        WptVector {
            header,
            alg: owned(alg.as_str()),
            pop_signing_key: PrivateJwk::from_signing_key(pop_key),
            issuer_verifying_key: Jwk::from_verifying_key(&issuer_key.verifying_key()),
            verify_now,
            audience,
            wit,
            claims,
            proof,
            negative,
        },
    )
}

} // verus!
