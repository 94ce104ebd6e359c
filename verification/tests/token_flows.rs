//! WITs and WPTs end to end: issued and verified through the library's framing
//! and checks, with the JOSE header and the claims written and read as JSON
//! here.

use base64::engine::general_purpose::URL_SAFE_NO_PAD;
use base64::Engine;
use serde_json::Value;
use wimsey::compact::{decode_segment, sign_compact, split_compact, HeaderFields, MAX_TOKEN_LEN};
use wimsey::identifier::WorkloadIdentifier;
use wimsey::jose::{Jwk, SigningKey, VerifyingKey};
use wimsey::wit::{self, Confirmation, VerifiedWit, WitClaims, WitError};
use wimsey::wpt::{
    self, other_token_entry, txn_token_thumbprint, wit_thumbprint, VerifiedWpt, WptClaims, WptError,
};

// ---------------------------------------------------------------------------
// JSON for the header and the claims.
// ---------------------------------------------------------------------------

fn put(map: &mut serde_json::Map<String, Value>, name: &str, value: Value) {
    map.insert(name.to_owned(), value);
}

fn text(value: &str) -> Value {
    Value::String(value.to_owned())
}

fn header_json(typ: &str, alg: &str, kid: Option<&str>) -> Vec<u8> {
    let mut map = serde_json::Map::new();
    put(&mut map, "typ", text(typ));
    put(&mut map, "alg", text(alg));
    if let Some(kid) = kid {
        put(&mut map, "kid", text(kid));
    }
    serde_json::to_vec(&Value::Object(map)).unwrap()
}

fn jwk_json(jwk: &Jwk) -> Value {
    let mut map = serde_json::Map::new();
    if let Some(alg) = &jwk.alg {
        put(&mut map, "alg", text(alg));
    }
    put(&mut map, "kty", text(&jwk.kty));
    put(&mut map, "crv", text(&jwk.crv));
    put(&mut map, "x", text(&jwk.x));
    if let Some(y) = &jwk.y {
        put(&mut map, "y", text(y));
    }
    Value::Object(map)
}

fn field<'v>(value: &'v Value, name: &str) -> Option<&'v Value> {
    value.as_object().and_then(|m| m.get(name))
}

fn opt_text(value: &Value, name: &str) -> Option<String> {
    field(value, name).and_then(Value::as_str).map(str::to_owned)
}

fn jwk_from(value: &Value) -> Option<Jwk> {
    Some(Jwk {
        alg: opt_text(value, "alg"),
        kty: opt_text(value, "kty")?,
        crv: opt_text(value, "crv")?,
        x: opt_text(value, "x")?,
        y: opt_text(value, "y"),
    })
}

fn wit_claims_json(claims: &WitClaims) -> Vec<u8> {
    let mut map = serde_json::Map::new();
    if let Some(iss) = &claims.iss {
        put(&mut map, "iss", text(iss));
    }
    put(&mut map, "sub", text(claims.sub.as_str()));
    if let Some(iat) = claims.iat {
        put(&mut map, "iat", Value::from(iat));
    }
    put(&mut map, "exp", Value::from(claims.exp));
    if let Some(jti) = &claims.jti {
        put(&mut map, "jti", text(jti));
    }
    let mut cnf = serde_json::Map::new();
    put(&mut cnf, "jwk", jwk_json(&claims.cnf.jwk));
    put(&mut map, "cnf", Value::Object(cnf));
    serde_json::to_vec(&Value::Object(map)).unwrap()
}

fn wit_claims_from(value: &Value) -> Option<WitClaims> {
    let sub = WorkloadIdentifier::parse(&opt_text(value, "sub")?).ok()?;
    Some(WitClaims {
        iss: opt_text(value, "iss"),
        sub,
        iat: field(value, "iat").and_then(Value::as_u64),
        exp: field(value, "exp").and_then(Value::as_u64)?,
        jti: opt_text(value, "jti"),
        cnf: Confirmation { jwk: jwk_from(field(field(value, "cnf")?, "jwk")?)? },
    })
}

fn wpt_claims_json(claims: &WptClaims) -> Vec<u8> {
    let mut map = serde_json::Map::new();
    put(&mut map, "aud", text(&claims.aud));
    put(&mut map, "exp", Value::from(claims.exp));
    put(&mut map, "jti", text(&claims.jti));
    put(&mut map, "wth", text(&claims.wth));
    if let Some(tth) = &claims.tth {
        put(&mut map, "tth", text(tth));
    }
    if let Some(oth) = &claims.oth {
        let mut entries = serde_json::Map::new();
        for (name, hash) in oth {
            put(&mut entries, name, text(hash));
        }
        put(&mut map, "oth", Value::Object(entries));
    }
    serde_json::to_vec(&Value::Object(map)).unwrap()
}

fn wpt_claims_from(value: &Value) -> Option<WptClaims> {
    let oth = match field(value, "oth") {
        None => None,
        Some(entries) => Some(
            entries
                .as_object()?
                .iter()
                .map(|(name, hash)| Some((name.clone(), hash.as_str()?.to_owned())))
                .collect::<Option<Vec<_>>>()?,
        ),
    };
    Some(WptClaims {
        aud: opt_text(value, "aud")?,
        exp: field(value, "exp").and_then(Value::as_u64)?,
        jti: opt_text(value, "jti")?,
        wth: opt_text(value, "wth")?,
        tth: opt_text(value, "tth"),
        oth,
    })
}

fn json_segment(segment: &str) -> Option<Value> {
    serde_json::from_slice(&decode_segment(segment)?).ok()
}

// ---------------------------------------------------------------------------
// Issue and verify, composed from the library's framing and checks.
// ---------------------------------------------------------------------------

fn issue_wit(claims: &WitClaims, kid: Option<&str>, key: &SigningKey) -> String {
    let header = header_json(wit::TYP, key.algorithm().as_str(), kid);
    sign_compact(&header, &wit_claims_json(claims), key)
}

fn header_fields(segment: &str) -> Option<HeaderFields> {
    let header = json_segment(segment)?;
    Some(HeaderFields {
        typ: opt_text(&header, "typ").unwrap_or_default(),
        alg: opt_text(&header, "alg").unwrap_or_default(),
        kid: opt_text(&header, "kid"),
        has_crit: field(&header, "crit").is_some(),
    })
}

fn verify_wit(token: &str, key: &VerifyingKey, validation: &wit::Validation) -> Result<VerifiedWit, WitError> {
    let (header, claims) = match split_compact(token) {
        Ok(parts) => (
            header_fields(&parts.header).ok_or(WitError::Json("header".to_owned())),
            json_segment(&parts.claims)
                .as_ref()
                .and_then(wit_claims_from)
                .ok_or(WitError::Json("claims".to_owned())),
        ),
        Err(_) => (Err(WitError::MalformedToken), Err(WitError::MalformedToken)),
    };
    wit::verify_parsed(token, header, claims, key, validation)
}

fn issue_wpt(claims: &WptClaims, key: &SigningKey) -> String {
    let header = header_json(wpt::TYP, key.algorithm().as_str(), None);
    sign_compact(&header, &wpt_claims_json(claims), key)
}

fn verify_wpt(proof: &str, key: &VerifyingKey, validation: &wpt::Validation<'_>) -> Result<VerifiedWpt, WptError> {
    let (header, claims) = match split_compact(proof) {
        Ok(parts) => (
            header_fields(&parts.header).ok_or(WptError::Json("header".to_owned())),
            json_segment(&parts.claims)
                .as_ref()
                .and_then(wpt_claims_from)
                .ok_or(WptError::Json("claims".to_owned())),
        ),
        Err(_) => (Err(WptError::MalformedToken), Err(WptError::MalformedToken)),
    };
    wpt::verify_parsed(proof, header, claims, key, validation)
}

/// A token under `key` whose header marks an extension critical.
fn with_critical_header(typ: &str, claims_json: &[u8], key: &SigningKey) -> String {
    let header = format!(r#"{{"typ":"{typ}","alg":"EdDSA","crit":["exp"]}}"#);
    sign_compact(header.as_bytes(), claims_json, key)
}

fn flip_last_payload_char(token: &str) -> String {
    let mut parts: Vec<&str> = token.split('.').collect();
    let mut payload = parts[1].to_owned();
    let last = payload.pop().unwrap();
    payload.push(if last == 'A' { 'B' } else { 'A' });
    parts[1] = &payload;
    parts.join(".")
}

// ---------------------------------------------------------------------------
// The WIT confirmation key.
// ---------------------------------------------------------------------------

fn cnf_jwk() -> Jwk {
    Jwk::from_verifying_key(&SigningKey::from_ed25519_seed(&[7u8; 32]).verifying_key())
}

fn cnf_error(jwk: &Jwk) -> WitError {
    WitError::from_jose(jwk.to_verifying_key().err().expect("the key must be refused"))
}

#[test]
fn sets_alg_when_built_from_a_key() {
    assert_eq!(cnf_jwk().alg.as_deref(), Some(wit::ALG));
}

#[test]
fn rejects_a_missing_alg() {
    let mut jwk = cnf_jwk();
    jwk.alg = None;
    assert!(matches!(cnf_error(&jwk), WitError::MissingConfirmationAlg));
}

#[test]
fn rejects_the_unsecured_alg() {
    let mut jwk = cnf_jwk();
    jwk.alg = Some("none".to_owned());
    assert!(matches!(cnf_error(&jwk), WitError::ForbiddenConfirmationAlg { .. }));
}

#[test]
fn rejects_a_symmetric_alg() {
    let mut jwk = cnf_jwk();
    jwk.alg = Some("HS256".to_owned());
    assert!(matches!(cnf_error(&jwk), WitError::ForbiddenConfirmationAlg { .. }));
}

#[test]
fn rejects_an_encryption_alg() {
    let mut jwk = cnf_jwk();
    jwk.alg = Some("ECDH-ES+A128KW".to_owned());
    assert!(matches!(cnf_error(&jwk), WitError::ForbiddenConfirmationAlg { .. }));
}

#[test]
fn rejects_an_invalid_key_even_with_a_good_alg() {
    let mut jwk = cnf_jwk();
    jwk.x = "not-a-valid-key".to_owned();
    assert!(matches!(cnf_error(&jwk), WitError::InvalidKey));
}

// ---------------------------------------------------------------------------
// WITs.
// ---------------------------------------------------------------------------

fn sample_wit_claims() -> WitClaims {
    WitClaims {
        iss: Some("https://issuer.example".to_owned()),
        sub: WorkloadIdentifier::parse("spiffe://example.org/workload/api").unwrap(),
        iat: Some(1_700_000_000),
        exp: 1_700_003_600,
        jti: Some("a1b2c3".to_owned()),
        cnf: Confirmation { jwk: cnf_jwk() },
    }
}

fn issuer() -> SigningKey {
    SigningKey::from_ed25519_seed(&[1u8; 32])
}

#[test]
fn token_round_trips() {
    let key = issuer();
    let claims = sample_wit_claims();
    let token = issue_wit(&claims, Some("issuer-key-1"), &key);

    let verified = verify_wit(&token, &key.verifying_key(), &wit::Validation::at(1_700_000_000)).unwrap();
    assert_eq!(verified.claims, claims);
    assert_eq!(verified.kid.as_deref(), Some("issuer-key-1"));
}

#[test]
fn token_rejects_a_tampered_payload() {
    let key = issuer();
    let token = issue_wit(&sample_wit_claims(), None, &key);
    let tampered = flip_last_payload_char(&token);

    let err = verify_wit(&tampered, &key.verifying_key(), &wit::Validation::at(1_700_000_000));
    assert!(matches!(err, Err(WitError::InvalidSignature)));
}

#[test]
fn token_rejects_the_wrong_key() {
    let key = issuer();
    let other = SigningKey::from_ed25519_seed(&[2u8; 32]);
    let token = issue_wit(&sample_wit_claims(), None, &key);

    let err = verify_wit(&token, &other.verifying_key(), &wit::Validation::at(1_700_000_000));
    assert!(matches!(err, Err(WitError::InvalidSignature)));
}

#[test]
fn rejects_an_expired_token() {
    let key = issuer();
    let token = issue_wit(&sample_wit_claims(), None, &key);

    let err = verify_wit(&token, &key.verifying_key(), &wit::Validation::at(1_700_003_601));
    assert!(matches!(err, Err(WitError::Expired)));
}

#[test]
fn honours_leeway_on_expiry() {
    let key = issuer();
    let token = issue_wit(&sample_wit_claims(), None, &key);

    let validation = wit::Validation::at(1_700_003_601).with_leeway(30);
    assert!(verify_wit(&token, &key.verifying_key(), &validation).is_ok());
}

#[test]
fn rejects_a_token_issued_in_the_future() {
    let key = issuer();
    let token = issue_wit(&sample_wit_claims(), None, &key);

    let err = verify_wit(&token, &key.verifying_key(), &wit::Validation::at(1_699_999_999));
    assert!(matches!(err, Err(WitError::IssuedInFuture)));
}

#[test]
fn enforces_the_expected_issuer() {
    let key = issuer();
    let token = issue_wit(&sample_wit_claims(), None, &key);

    let validation = wit::Validation::at(1_700_000_000).expect_issuer("https://other.example".to_owned());
    let err = verify_wit(&token, &key.verifying_key(), &validation);
    assert!(matches!(err, Err(WitError::IssuerMismatch)));
}

#[test]
fn rejects_a_token_with_too_few_parts() {
    let key = issuer();
    let err = verify_wit("only.two", &key.verifying_key(), &wit::Validation::at(1_700_000_000));
    assert!(matches!(err, Err(WitError::MalformedToken)));
}

#[test]
fn token_is_deterministic() {
    let key = issuer();
    let claims = sample_wit_claims();
    let a = issue_wit(&claims, Some("k"), &key);
    let b = issue_wit(&claims, Some("k"), &key);
    assert_eq!(a, b);
}

#[test]
fn rejects_at_exactly_expiry() {
    let key = issuer();
    let token = issue_wit(&sample_wit_claims(), None, &key);

    let err = verify_wit(&token, &key.verifying_key(), &wit::Validation::at(1_700_003_600));
    assert!(matches!(err, Err(WitError::Expired)));
}

#[test]
fn exposes_the_validated_pop_key() {
    let key = issuer();
    let pop_key = SigningKey::from_ed25519_seed(&[7u8; 32]);
    let token = issue_wit(&sample_wit_claims(), None, &key);

    let verified = verify_wit(&token, &key.verifying_key(), &wit::Validation::at(1_700_000_000)).unwrap();
    assert_eq!(verified.pop_key, pop_key.verifying_key());
}

#[test]
fn token_rejects_an_invalid_confirmation_key() {
    let key = issuer();
    let mut claims = sample_wit_claims();
    claims.cnf.jwk = Jwk {
        alg: Some(wit::ALG.to_owned()),
        kty: "OKP".to_owned(),
        crv: "Ed25519".to_owned(),
        x: "not-a-valid-key".to_owned(),
        y: None,
    };
    let token = issue_wit(&claims, None, &key);

    let err = verify_wit(&token, &key.verifying_key(), &wit::Validation::at(1_700_000_000));
    assert!(matches!(err, Err(WitError::InvalidKey)));
}

#[test]
fn token_rejects_an_oversized_token() {
    let key = issuer();
    let oversized = "a".repeat(MAX_TOKEN_LEN + 1);

    let err = verify_wit(&oversized, &key.verifying_key(), &wit::Validation::at(1_700_000_000));
    assert!(matches!(err, Err(WitError::TokenTooLong)));
}

#[test]
fn token_rejects_a_critical_header() {
    let key = issuer();
    let token = with_critical_header(wit::TYP, &wit_claims_json(&sample_wit_claims()), &key);

    let err = verify_wit(&token, &key.verifying_key(), &wit::Validation::at(1_700_000_000));
    assert!(matches!(err, Err(WitError::UnsupportedCritical)));
}

// ---------------------------------------------------------------------------
// WPTs.
// ---------------------------------------------------------------------------

const WIT: &str = "eyJ0eXAiOiJ3aXQrand0In0.payload.signature";
const AUD: &str = "https://workload.example.com/path";
const TXN_TOKEN: &str = "txn-token-abcdef";
const CTX_HEADER: &str = "Ctx-Token";
const CTX_VALUE: &str = "ctx-token-abcdef";

fn sample_wpt_claims() -> WptClaims {
    WptClaims {
        aud: AUD.to_owned(),
        exp: 1_700_000_300,
        jti: "0123456789abcdef".to_owned(),
        wth: wit_thumbprint(WIT),
        tth: None,
        oth: None,
    }
}

fn valid_at(now: u64) -> wpt::Validation<'static> {
    wpt::Validation::new(now, AUD, WIT)
}

fn pop() -> SigningKey {
    SigningKey::from_ed25519_seed(&[9u8; 32])
}

fn claims_with_tth() -> WptClaims {
    WptClaims { tth: Some(txn_token_thumbprint(TXN_TOKEN)), ..sample_wpt_claims() }
}

fn claims_with_oth(name: &str, value: &str) -> WptClaims {
    WptClaims { oth: Some(vec![other_token_entry(name, value)]), ..sample_wpt_claims() }
}

#[test]
fn wpt_token_round_trips() {
    let key = pop();
    let claims = sample_wpt_claims();
    let proof = issue_wpt(&claims, &key);

    let verified = verify_wpt(&proof, &key.verifying_key(), &valid_at(1_700_000_000)).unwrap();
    assert_eq!(verified.claims, claims);
}

#[test]
fn wpt_token_rejects_a_tampered_payload() {
    let key = pop();
    let tampered = flip_last_payload_char(&issue_wpt(&sample_wpt_claims(), &key));

    let err = verify_wpt(&tampered, &key.verifying_key(), &valid_at(1_700_000_000));
    assert!(matches!(err, Err(WptError::InvalidSignature)));
}

#[test]
fn rejects_the_wrong_pop_key() {
    let key = pop();
    let other = SigningKey::from_ed25519_seed(&[8u8; 32]);
    let proof = issue_wpt(&sample_wpt_claims(), &key);

    let err = verify_wpt(&proof, &other.verifying_key(), &valid_at(1_700_000_000));
    assert!(matches!(err, Err(WptError::InvalidSignature)));
}

#[test]
fn rejects_an_expired_proof() {
    let key = pop();
    let proof = issue_wpt(&sample_wpt_claims(), &key);

    let err = verify_wpt(&proof, &key.verifying_key(), &valid_at(1_700_000_300));
    assert!(matches!(err, Err(WptError::Expired)));
}

#[test]
fn rejects_a_wrong_audience() {
    let key = pop();
    let proof = issue_wpt(&sample_wpt_claims(), &key);

    let validation = wpt::Validation::new(1_700_000_000, "https://evil.example/path", WIT);
    let err = verify_wpt(&proof, &key.verifying_key(), &validation);
    assert!(matches!(err, Err(WptError::AudienceMismatch)));
}

#[test]
fn rejects_a_mismatched_wit_binding() {
    let key = pop();
    let proof = issue_wpt(&sample_wpt_claims(), &key);

    let validation = wpt::Validation::new(1_700_000_000, AUD, "a.different.wit");
    let err = verify_wpt(&proof, &key.verifying_key(), &validation);
    assert!(matches!(err, Err(WptError::WitBindingMismatch)));
}

#[test]
fn wpt_token_rejects_an_oversized_token() {
    let key = pop();
    let oversized = "a".repeat(MAX_TOKEN_LEN + 1);

    let err = verify_wpt(&oversized, &key.verifying_key(), &valid_at(1_700_000_000));
    assert!(matches!(err, Err(WptError::TokenTooLong)));
}

#[test]
fn rejects_too_few_parts() {
    let key = pop();
    let err = verify_wpt("only.two", &key.verifying_key(), &valid_at(1_700_000_000));
    assert!(matches!(err, Err(WptError::MalformedToken)));
}

#[test]
fn token_rejects_a_wrong_length_signature() {
    let key = pop();
    let proof = issue_wpt(&sample_wpt_claims(), &key);

    let mut parts: Vec<&str> = proof.split('.').collect();
    let short = URL_SAFE_NO_PAD.encode([0u8; 32]);
    parts[2] = &short;
    let bad = parts.join(".");

    let err = verify_wpt(&bad, &key.verifying_key(), &valid_at(1_700_000_000));
    assert!(matches!(err, Err(WptError::MalformedToken)));
}

#[test]
fn wpt_token_rejects_a_critical_header() {
    let key = pop();
    let proof = with_critical_header(wpt::TYP, &wpt_claims_json(&sample_wpt_claims()), &key);

    let err = verify_wpt(&proof, &key.verifying_key(), &valid_at(1_700_000_000));
    assert!(matches!(err, Err(WptError::UnsupportedCritical)));
}

#[test]
fn wpt_token_is_deterministic() {
    let key = pop();
    let claims = sample_wpt_claims();
    assert_eq!(issue_wpt(&claims, &key), issue_wpt(&claims, &key));
}

#[test]
fn binds_to_the_matching_txn_token() {
    let key = pop();
    let proof = issue_wpt(&claims_with_tth(), &key);

    let validation = valid_at(1_700_000_000).with_txn_token(TXN_TOKEN);
    assert!(verify_wpt(&proof, &key.verifying_key(), &validation).is_ok());
}

#[test]
fn rejects_a_different_txn_token() {
    let key = pop();
    let proof = issue_wpt(&claims_with_tth(), &key);

    let validation = valid_at(1_700_000_000).with_txn_token("a-different-token");
    let err = verify_wpt(&proof, &key.verifying_key(), &validation);
    assert!(matches!(err, Err(WptError::TxnTokenBindingMismatch)));
}

#[test]
fn rejects_tth_present_but_no_txn_token_in_request() {
    let key = pop();
    let proof = issue_wpt(&claims_with_tth(), &key);

    let err = verify_wpt(&proof, &key.verifying_key(), &valid_at(1_700_000_000));
    assert!(matches!(err, Err(WptError::TxnTokenBindingMismatch)));
}

#[test]
fn rejects_txn_token_in_request_but_no_tth() {
    let key = pop();
    let proof = issue_wpt(&sample_wpt_claims(), &key);

    let validation = valid_at(1_700_000_000).with_txn_token(TXN_TOKEN);
    let err = verify_wpt(&proof, &key.verifying_key(), &validation);
    assert!(matches!(err, Err(WptError::TxnTokenBindingMismatch)));
}

#[test]
fn binds_to_a_context_token_by_header_name() {
    let key = pop();
    let proof = issue_wpt(&claims_with_oth(CTX_HEADER, CTX_VALUE), &key);

    let validation = valid_at(1_700_000_000).with_other_token(CTX_HEADER, CTX_VALUE);
    assert!(verify_wpt(&proof, &key.verifying_key(), &validation).is_ok());
}

#[test]
fn matches_a_context_token_header_name_case_insensitively() {
    let key = pop();
    let proof = issue_wpt(&claims_with_oth("CTX-TOKEN", CTX_VALUE), &key);

    let validation = valid_at(1_700_000_000).with_other_token("ctx-token", CTX_VALUE);
    assert!(verify_wpt(&proof, &key.verifying_key(), &validation).is_ok());
}

#[test]
fn ignores_surrounding_spaces_in_a_context_token_value() {
    let key = pop();
    let proof = issue_wpt(&claims_with_oth(CTX_HEADER, CTX_VALUE), &key);

    let padded = format!("  {CTX_VALUE}  ");
    let validation = valid_at(1_700_000_000).with_other_token(CTX_HEADER, &padded);
    assert!(verify_wpt(&proof, &key.verifying_key(), &validation).is_ok());
}

#[test]
fn rejects_a_different_context_token() {
    let key = pop();
    let proof = issue_wpt(&claims_with_oth(CTX_HEADER, CTX_VALUE), &key);

    let validation = valid_at(1_700_000_000).with_other_token(CTX_HEADER, "a-different-token");
    let err = verify_wpt(&proof, &key.verifying_key(), &validation);
    assert!(matches!(err, Err(WptError::OtherTokenBindingMismatch { ref name }) if name == "ctx-token"));
}

#[test]
fn rejects_an_oth_entry_the_request_did_not_carry() {
    let key = pop();
    let proof = issue_wpt(&claims_with_oth(CTX_HEADER, CTX_VALUE), &key);

    let err = verify_wpt(&proof, &key.verifying_key(), &valid_at(1_700_000_000));
    assert!(matches!(err, Err(WptError::OtherTokenBindingMismatch { ref name }) if name == "ctx-token"));
}

#[test]
fn leaves_a_context_token_oth_does_not_name_unbound() {
    let key = pop();
    let proof = issue_wpt(&sample_wpt_claims(), &key);

    let validation = valid_at(1_700_000_000).with_other_token(CTX_HEADER, CTX_VALUE);
    let verified = verify_wpt(&proof, &key.verifying_key(), &validation).unwrap();
    assert!(verified.claims.oth.is_none());
}

#[test]
fn rejects_a_lifetime_over_the_cap() {
    let key = pop();
    let proof = issue_wpt(&sample_wpt_claims(), &key);

    let validation = valid_at(1_700_000_000).with_max_lifetime(120);
    let err = verify_wpt(&proof, &key.verifying_key(), &validation);
    assert!(matches!(err, Err(WptError::LifetimeTooLong)));
}

#[test]
fn accepts_a_lifetime_within_the_cap() {
    let key = pop();
    let proof = issue_wpt(&sample_wpt_claims(), &key);

    let validation = valid_at(1_700_000_000).with_max_lifetime(600);
    assert!(verify_wpt(&proof, &key.verifying_key(), &validation).is_ok());
}

// ---------------------------------------------------------------------------
// A WIT and the proof bound to it.
// ---------------------------------------------------------------------------

#[test]
fn a_wit_and_its_bound_proof_verify() {
    let issuer_key = issuer();
    let pop_key = SigningKey::from_ed25519_seed(&[7u8; 32]);
    let token = issue_wit(&sample_wit_claims(), Some("issuer-key-1"), &issuer_key);
    let verified_wit =
        verify_wit(&token, &issuer_key.verifying_key(), &wit::Validation::at(1_700_000_000)).unwrap();

    let claims = WptClaims { wth: wit_thumbprint(&token), ..sample_wpt_claims() };
    let proof = issue_wpt(&claims, &pop_key);
    let validation = wpt::Validation::new(1_700_000_000, AUD, &token);
    let verified = verify_wpt(&proof, &verified_wit.pop_key, &validation).unwrap();
    assert_eq!(verified.claims.wth, wit_thumbprint(&token));
}

#[test]
fn a_proof_is_refused_for_another_wit() {
    let issuer_key = issuer();
    let pop_key = SigningKey::from_ed25519_seed(&[7u8; 32]);
    let token = issue_wit(&sample_wit_claims(), None, &issuer_key);
    let other = issue_wit(
        &WitClaims { jti: Some("other".to_owned()), ..sample_wit_claims() },
        None,
        &issuer_key,
    );

    let claims = WptClaims { wth: wit_thumbprint(&token), ..sample_wpt_claims() };
    let proof = issue_wpt(&claims, &pop_key);
    let validation = wpt::Validation::new(1_700_000_000, AUD, &other);
    let err = verify_wpt(&proof, &pop_key.verifying_key(), &validation);
    assert!(matches!(err, Err(WptError::WitBindingMismatch)));
}

// ---------------------------------------------------------------------------
// The generated WIT and WPT vectors.
// ---------------------------------------------------------------------------

use wimsey::compact::{resign_compact, tamper_claims};
use wimsey::conformance::token_vectors::{wit_vector, wpt_vector, WitReissued};
use wimsey::conformance::token_runs::{
    run_wit_negatives, run_wpt_negatives, wit_case_token, wpt_case_proof, ParsedWit, ParsedWpt,
};
use wimsey::conformance::{ErrorCode, Report, FORMAT};

fn wit_code(e: &WitError) -> ErrorCode {
    ErrorCode::from_wit_error(e)
}

#[test]
fn resigning_keeps_the_claims_and_swaps_the_header() {
    let key = issuer();
    let token = issue_wit(&sample_wit_claims(), None, &key);
    let resigned = resign_compact(&token, br#"{"typ":"jwt","alg":"EdDSA"}"#, &key).unwrap();
    assert_eq!(resigned.split('.').nth(1), token.split('.').nth(1));
    assert_ne!(resigned.split('.').next(), token.split('.').next());
    let err = verify_wit(&resigned, &key.verifying_key(), &wit::Validation::at(1_700_000_000));
    assert!(matches!(err, Err(WitError::WrongType { .. })));
    assert!(resign_compact("only.two", b"{}", &key).is_none());
}

#[test]
fn tampering_rewrites_the_claims_and_keeps_the_signature() {
    let key = issuer();
    let token = issue_wit(&sample_wit_claims(), None, &key);
    let tampered = tamper_claims(&token, "a1b2c3", "a1b2c4").unwrap();
    assert_eq!(tampered.split('.').next(), token.split('.').next());
    assert_eq!(tampered.split('.').nth(2), token.split('.').nth(2));
    let claims = json_segment(tampered.split('.').nth(1).unwrap()).unwrap();
    assert_eq!(opt_text(&claims, "jti").as_deref(), Some("a1b2c4"));
    assert!(matches!(
        verify_wit(&tampered, &key.verifying_key(), &wit::Validation::at(1_700_000_000)),
        Err(WitError::InvalidSignature)
    ));
    // Nothing to replace, a length change, or an empty pattern: no token.
    assert!(tamper_claims(&token, "zzzzzz", "yyyyyy").is_none());
    assert!(tamper_claims(&token, "a1b2c3", "a1b2").is_none());
    assert!(tamper_claims(&token, "", "").is_none());
}

#[test]
fn every_case_of_the_generated_wit_vector_is_refused_for_its_reason() {
    let issuer_key = issuer();
    let other = SigningKey::from_ed25519_seed(&[2u8; 32]);
    let claims = sample_wit_claims();
    let token = issue_wit(&claims, Some("issuer-key-1"), &issuer_key);
    let reissue = |alg: Option<&str>| {
        let mut altered = claims.clone();
        altered.cnf.jwk.alg = alg.map(str::to_owned);
        issue_wit(&altered, Some("issuer-key-1"), &issuer_key)
    };
    let reissued = WitReissued {
        missing_alg: reissue(None),
        symmetric_alg: reissue(Some("HS256")),
        unsecured_alg: reissue(Some("none")),
    };
    let vector = wit_vector(&issuer_key, &other, claims.clone(), token.clone(), &reissued, 1_700_000_000).unwrap();
    assert_eq!(vector.header.format, FORMAT);
    assert_eq!(vector.header.id, "issue-eddsa");
    assert_eq!(vector.negative.len(), 9);
    assert!(verify_wit(&vector.token, &issuer_key.verifying_key(), &wit::Validation::at(vector.verify_now)).is_ok());
    for case in &vector.negative {
        let token = case.token.as_deref().unwrap_or(&vector.token);
        let now = case.verify_now.unwrap_or(vector.verify_now);
        let key = match &case.issuer_verifying_key {
            Some(jwk) => jwk.to_verifying_key().unwrap(),
            None => issuer_key.verifying_key(),
        };
        let mut validation = wit::Validation::at(now);
        if let Some(iss) = &case.expected_iss {
            validation = validation.expect_issuer(iss.clone());
        }
        let err = verify_wit(token, &key, &validation).expect_err(&case.id);
        assert_eq!(wit_code(&err), case.expect, "{}", case.id);
    }
}

#[test]
fn every_case_of_the_generated_wpt_vector_is_refused_for_its_reason() {
    let issuer_key = issuer();
    let pop_key = pop();
    let wit = issue_wit(&sample_wit_claims(), Some("issuer-key-1"), &issuer_key);
    let other_wit = issue_wit(
        &WitClaims { jti: Some("other".to_owned()), ..sample_wit_claims() },
        Some("issuer-key-1"),
        &issuer_key,
    );
    let claims = WptClaims { wth: wit_thumbprint(&wit), ..sample_wpt_claims() };
    let proof = issue_wpt(&claims, &pop_key);
    let vector = wpt_vector(&issuer_key, &pop_key, wit.clone(), &other_wit, AUD.to_owned(), claims, proof, 1_700_000_000)
        .unwrap();
    assert_eq!(vector.header.id, "proof-eddsa");
    assert_eq!(vector.negative.len(), 5);
    let valid = wpt::Validation::new(vector.verify_now, &vector.audience, &vector.wit);
    assert!(verify_wpt(&vector.proof, &pop_key.verifying_key(), &valid).is_ok());
    for case in &vector.negative {
        let proof = case.proof.as_deref().unwrap_or(&vector.proof);
        let now = case.verify_now.unwrap_or(vector.verify_now);
        let audience = case.audience.as_deref().unwrap_or(&vector.audience);
        let wit = case.wit.as_deref().unwrap_or(&vector.wit);
        let err = verify_wpt(proof, &pop_key.verifying_key(), &wpt::Validation::new(now, audience, wit))
            .expect_err(&case.id);
        assert_eq!(ErrorCode::from_wpt_error(&err), case.expect, "{}", case.id);
    }
}

#[test]
fn a_later_context_token_under_the_same_name_replaces_the_earlier() {
    let key = pop();
    let proof = issue_wpt(&claims_with_oth(CTX_HEADER, CTX_VALUE), &key);

    let validation = valid_at(1_700_000_000)
        .with_other_token(CTX_HEADER, "an-earlier-token")
        .with_other_token("CTX-TOKEN", CTX_VALUE);
    assert_eq!(validation.other_tokens.len(), 1);
    assert!(verify_wpt(&proof, &key.verifying_key(), &validation).is_ok());
}

#[test]
fn a_forged_token_fails_on_its_signature_before_its_claims_are_read() {
    let key = issuer();
    let token = issue_wit(&sample_wit_claims(), None, &key);
    let Ok(parts) = split_compact(&token) else { panic!("a three-segment token") };
    let header = header_fields(&parts.header).ok_or(WitError::Json("header".to_owned()));
    let unreadable = Err(WitError::Json("claims".to_owned()));

    let other = SigningKey::from_ed25519_seed(&[2u8; 32]);
    let err = wit::verify_parsed(&token, header.clone(), unreadable.clone(), &other.verifying_key(), &wit::Validation::at(1_700_000_000));
    assert_eq!(err.unwrap_err(), WitError::InvalidSignature);
    let err = wit::verify_parsed(&token, header, unreadable, &key.verifying_key(), &wit::Validation::at(1_700_000_000));
    assert_eq!(err.unwrap_err(), WitError::Json("claims".to_owned()));
}

#[test]
fn a_wrong_header_is_reported_before_the_frame_of_the_claims_matters() {
    let key = issuer();
    let token = issue_wit(&sample_wit_claims(), None, &key);
    let header = Ok(HeaderFields {
        typ: "jwt".to_owned(),
        alg: "EdDSA".to_owned(),
        kid: None,
        has_crit: false,
    });
    let err = wit::verify_parsed(&token, header, Err(WitError::Base64), &key.verifying_key(), &wit::Validation::at(1_700_000_000));
    assert_eq!(err.unwrap_err(), WitError::WrongType { found: "jwt".to_owned() });
    let err = wit::verify_parsed("a.b", Err(WitError::Base64), Err(WitError::Base64), &key.verifying_key(), &wit::Validation::at(1_700_000_000));
    assert_eq!(err.unwrap_err(), WitError::MalformedToken);
}

#[test]
fn thumbprints_are_forty_three_base64url_characters() {
    for value in ["", WIT, TXN_TOKEN, "a much longer token value than the others, with spaces"] {
        for t in [wit_thumbprint(value), txn_token_thumbprint(value), other_token_entry("X", value).1] {
            assert_eq!(t.len(), 43);
            assert!(t.chars().all(|c| c.is_ascii_alphanumeric() || c == '-' || c == '_'));
        }
    }
    assert_ne!(wit_thumbprint("a"), wit_thumbprint("b"));
}

fn parsed_wit(token: &str) -> ParsedWit {
    match split_compact(token) {
        Ok(parts) => ParsedWit {
            header: header_fields(&parts.header).ok_or(WitError::Json("header".to_owned())),
            claims: json_segment(&parts.claims)
                .as_ref()
                .and_then(wit_claims_from)
                .ok_or(WitError::Json("claims".to_owned())),
        },
        Err(_) => ParsedWit { header: Err(WitError::MalformedToken), claims: Err(WitError::MalformedToken) },
    }
}

fn parsed_wpt(proof: &str) -> ParsedWpt {
    match split_compact(proof) {
        Ok(parts) => ParsedWpt {
            header: header_fields(&parts.header).ok_or(WptError::Json("header".to_owned())),
            claims: json_segment(&parts.claims)
                .as_ref()
                .and_then(wpt_claims_from)
                .ok_or(WptError::Json("claims".to_owned())),
        },
        Err(_) => ParsedWpt { header: Err(WptError::MalformedToken), claims: Err(WptError::MalformedToken) },
    }
}

#[test]
fn the_library_runner_passes_every_case_of_the_generated_wit_vector() {
    let issuer_key = issuer();
    let other = SigningKey::from_ed25519_seed(&[2u8; 32]);
    let claims = sample_wit_claims();
    let token = issue_wit(&claims, Some("issuer-key-1"), &issuer_key);
    let reissue = |alg: Option<&str>| {
        let mut altered = claims.clone();
        altered.cnf.jwk.alg = alg.map(str::to_owned);
        issue_wit(&altered, Some("issuer-key-1"), &issuer_key)
    };
    let reissued = WitReissued {
        missing_alg: reissue(None),
        symmetric_alg: reissue(Some("HS256")),
        unsecured_alg: reissue(Some("none")),
    };
    let vector = wit_vector(&issuer_key, &other, claims.clone(), token, &reissued, 1_700_000_000).unwrap();
    let parsed = vector.negative.iter().map(|c| parsed_wit(wit_case_token(&vector.token, c))).collect();
    let mut report = Report::new();
    run_wit_negatives(&vector.header, &vector.token, vector.verify_now, &issuer_key.verifying_key(), &vector.negative, parsed, &mut report);
    assert_eq!(report.passed(), vector.negative.len());
    assert_eq!(report.failed(), 0);

    // Under the other issuer's key every case fails on its signature, which
    // only the wrong-key case expects.
    let parsed = vector.negative.iter().map(|c| parsed_wit(wit_case_token(&vector.token, c))).collect();
    let mut report = Report::new();
    run_wit_negatives(&vector.header, &vector.token, vector.verify_now, &other.verifying_key(), &vector.negative, parsed, &mut report);
    assert!(report.failed() > 0);
}

#[test]
fn the_library_runner_passes_every_case_of_the_generated_wpt_vector() {
    let issuer_key = issuer();
    let pop_key = pop();
    let wit = issue_wit(&sample_wit_claims(), Some("issuer-key-1"), &issuer_key);
    let other_wit = issue_wit(
        &WitClaims { jti: Some("other".to_owned()), ..sample_wit_claims() },
        Some("issuer-key-1"),
        &issuer_key,
    );
    let claims = WptClaims { wth: wit_thumbprint(&wit), ..sample_wpt_claims() };
    let proof = issue_wpt(&claims, &pop_key);
    let vector = wpt_vector(&issuer_key, &pop_key, wit, &other_wit, AUD.to_owned(), claims, proof, 1_700_000_000)
        .unwrap();
    let parsed = vector.negative.iter().map(|c| parsed_wpt(wpt_case_proof(&vector.proof, c))).collect();
    let mut report = Report::new();
    run_wpt_negatives(
        &vector.header,
        &vector.proof,
        vector.verify_now,
        &vector.audience,
        &vector.wit,
        &pop_key.verifying_key(),
        &vector.negative,
        parsed,
        &mut report,
    );
    assert_eq!(report.passed(), vector.negative.len());
    assert_eq!(report.failed(), 0);
}
