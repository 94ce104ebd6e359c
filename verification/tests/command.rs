//! The command line's signing, verifying and claim-building decisions.

use wimsey::command::{
    sign_request, verify_request, wit_claims, wpt_claims, CommandError, SignArguments,
    VerifyArguments,
};
use wimsey::httpsig::{content_digest_sha256, WIMSE_LABEL};
use wimsey::identifier::ParseError;
use wimsey::jose::{Jwk, SigningKey};
use wimsey::wpt::wit_thumbprint;

const WIT: &str = "eyJ0eXAiOiJ3aXQrand0In0.payload.signature";
const BODY: &[u8] = br#"{"amount":100}"#;

fn pop() -> SigningKey {
    SigningKey::from_ed25519_seed(&[9u8; 32])
}

fn sign_args() -> SignArguments {
    SignArguments {
        method: "POST".to_owned(),
        authority: "service.example".to_owned(),
        path: "/transfer".to_owned(),
        query: None,
        headers: vec!["Content-Type: application/json".to_owned()],
        body: Some(BODY.to_vec()),
        wit: Some(WIT.to_owned()),
        cover: None,
        aud: "https://service.example/transfer".to_owned(),
        nonce: "nonce-1".to_owned(),
        created: 1_700_000_000,
        expires_in: 300,
        sign_response: false,
        label: WIMSE_LABEL.to_owned(),
    }
}

fn verify_args(signature_input: &str, signature: &str) -> VerifyArguments {
    VerifyArguments {
        method: "POST".to_owned(),
        authority: "service.example".to_owned(),
        path: "/transfer".to_owned(),
        query: None,
        headers: vec!["Content-Type: application/json".to_owned()],
        body: Some(BODY.to_vec()),
        wit: WIT.to_owned(),
        signature_input: signature_input.to_owned(),
        signature: signature.to_owned(),
        aud: "https://service.example/transfer".to_owned(),
        require: None,
        max_age: None,
        leeway: 0,
        label: WIMSE_LABEL.to_owned(),
        now: 1_700_000_100,
    }
}

#[test]
fn a_signed_request_verifies_with_its_body() {
    let key = pop();
    let signed = sign_request(&sign_args(), &key).unwrap();
    assert!(signed.signature_input.starts_with("wimse=("));
    assert!(signed.signature_input.contains("\"content-digest\""));
    assert!(signed.signature_input.contains("\"workload-identity-token\""));

    let verified = verify_request(&verify_args(&signed.signature_input, &signed.signature), &key.verifying_key())
        .unwrap();
    assert_eq!(verified.label, "wimse");
    assert_eq!(verified.params.created, Some(1_700_000_000));
    assert_eq!(verified.params.expires, Some(1_700_000_300));
    assert_eq!(verified.params.wimse_aud.as_deref(), Some("https://service.example/transfer"));
}

#[test]
fn signing_twice_gives_the_same_fields() {
    let key = pop();
    let a = sign_request(&sign_args(), &key).unwrap();
    let b = sign_request(&sign_args(), &key).unwrap();
    assert_eq!(a.signature_input, b.signature_input);
    assert_eq!(a.signature, b.signature);
}

#[test]
fn a_tampered_body_does_not_verify() {
    let key = pop();
    let signed = sign_request(&sign_args(), &key).unwrap();

    let mut args = verify_args(&signed.signature_input, &signed.signature);
    args.body = Some(br#"{"amount":999}"#.to_vec());
    assert!(matches!(verify_request(&args, &key.verifying_key()), Err(CommandError::Signature(_))));

    // With the signed digest carried as a header, the signature holds and the
    // body is what fails.
    args.headers.push(format!("Content-Digest: {}", content_digest_sha256(BODY)));
    assert_eq!(verify_request(&args, &key.verifying_key()).unwrap_err(), CommandError::DigestMismatch);
}

#[test]
fn a_signature_under_another_key_does_not_verify() {
    let signed = sign_request(&sign_args(), &pop()).unwrap();
    let other = SigningKey::from_ed25519_seed(&[8u8; 32]);
    let args = verify_args(&signed.signature_input, &signed.signature);
    assert!(matches!(verify_request(&args, &other.verifying_key()), Err(CommandError::Signature(_))));
}

#[test]
fn refuses_a_digest_header_beside_a_body() {
    let mut args = sign_args();
    args.headers.push("Content-Digest: sha-256=:AAAA:".to_owned());
    assert_eq!(sign_request(&args, &pop()).unwrap_err(), CommandError::DigestHeaderConflict);
}

#[test]
fn refuses_a_wit_header_beside_a_wit() {
    let mut args = sign_args();
    args.headers.push(format!("Workload-Identity-Token: {WIT}"));
    assert_eq!(sign_request(&args, &pop()).unwrap_err(), CommandError::WitHeaderConflict);
}

#[test]
fn refuses_an_empty_audience() {
    let mut args = sign_args();
    args.aud = "   ".to_owned();
    assert_eq!(sign_request(&args, &pop()).unwrap_err(), CommandError::EmptyAudience);
}

#[test]
fn refuses_an_expiry_that_overflows() {
    let mut args = sign_args();
    args.expires_in = u64::MAX;
    assert_eq!(sign_request(&args, &pop()).unwrap_err(), CommandError::ExpiryOverflow);
}

#[test]
fn refuses_a_malformed_header_argument() {
    let mut args = sign_args();
    args.headers.push("no colon here".to_owned());
    assert!(matches!(sign_request(&args, &pop()), Err(CommandError::Input(_))));
}

#[test]
fn refuses_a_covered_wit_that_is_not_the_verified_one() {
    let key = pop();
    let signed = sign_request(&sign_args(), &key).unwrap();
    let mut args = verify_args(&signed.signature_input, &signed.signature);
    args.headers.push("Workload-Identity-Token: another.wit.value".to_owned());
    assert_eq!(verify_request(&args, &key.verifying_key()).unwrap_err(), CommandError::WitHeaderMismatch);
}

#[test]
fn builds_wit_claims_from_the_arguments() {
    let cnf = pop().verifying_key();
    let claims = wit_claims(
        " https://issuer.example ",
        "spiffe://example.org/api",
        &cnf,
        1_700_000_000,
        3600,
        "a1b2c3".to_owned(),
    )
    .unwrap();
    assert_eq!(claims.iss.as_deref(), Some("https://issuer.example"));
    assert_eq!(claims.sub.as_str(), "spiffe://example.org/api");
    assert_eq!(claims.iat, Some(1_700_000_000));
    assert_eq!(claims.exp, 1_700_003_600);
    assert_eq!(claims.jti.as_deref(), Some("a1b2c3"));
    assert_eq!(claims.cnf.jwk, Jwk::from_verifying_key(&cnf));
}

#[test]
fn wit_claims_refuse_a_ttl_that_overflows() {
    let cnf = pop().verifying_key();
    let err = wit_claims("https://issuer.example", "spiffe://example.org/api", &cnf, 1000, u64::MAX, "j".to_owned());
    assert_eq!(err.unwrap_err(), CommandError::ExpiryOverflow);
}

#[test]
fn wit_claims_refuse_a_subject_that_is_not_an_identifier() {
    let cnf = pop().verifying_key();
    let err = wit_claims("https://issuer.example", "https://example.org/api", &cnf, 1000, 60, "j".to_owned());
    assert!(matches!(err, Err(CommandError::Identifier(ParseError::UnsupportedScheme))));
}

#[test]
fn builds_wpt_claims_bound_to_the_trimmed_wit() {
    let claims = wpt_claims(
        "https://service.example/path",
        &format!("  {WIT}\n"),
        1_700_000_000,
        300,
        "0123456789abcdef".to_owned(),
    )
    .unwrap();
    assert_eq!(claims.aud, "https://service.example/path");
    assert_eq!(claims.exp, 1_700_000_300);
    assert_eq!(claims.jti, "0123456789abcdef");
    assert_eq!(claims.wth, wit_thumbprint(WIT));
    assert!(claims.tth.is_none() && claims.oth.is_none());
}

#[test]
fn wpt_claims_refuse_a_ttl_that_overflows() {
    let err = wpt_claims("https://service.example/path", WIT, 10, u64::MAX, "j".to_owned());
    assert_eq!(err.unwrap_err(), CommandError::ExpiryOverflow);
}
