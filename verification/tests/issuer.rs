use wimsey::identifier::ParseError;
use wimsey::issuer::{hex_id, random_id, IssueError, IssueRequest, IssueResponse, Issuer};
use wimsey::jose::{Jwk, SigningKey};

const ISS: &str = "https://issuer.example";

fn issuer() -> Issuer {
    Issuer::new(
        SigningKey::from_ed25519_seed(&[1u8; 32]),
        ISS.to_owned(),
        Some("issuer-key-1".to_owned()),
        3600,
    )
}

fn request(sub: &str, ttl: Option<u64>) -> IssueRequest {
    let pop = SigningKey::from_ed25519_seed(&[9u8; 32]);
    IssueRequest { sub: sub.to_owned(), cnf_jwk: Jwk::from_verifying_key(&pop.verifying_key()), ttl }
}

#[test]
fn issues_a_verifiable_wit() {
    let claims = issuer()
        .claims_for(&request("spiffe://example.org/api", None), 1_700_000_000, "a1b2".to_owned())
        .unwrap();
    assert_eq!(claims.sub.as_str(), "spiffe://example.org/api");
    assert_eq!(claims.iss.as_deref(), Some(ISS));
    assert_eq!(claims.iat, Some(1_700_000_000));
    assert_eq!(claims.exp, 1_700_003_600);
    assert_eq!(claims.jti.as_deref(), Some("a1b2"));
    let pop = SigningKey::from_ed25519_seed(&[9u8; 32]);
    assert_eq!(claims.cnf.jwk, Jwk::from_verifying_key(&pop.verifying_key()));
}

#[test]
fn trims_the_requested_subject() {
    let claims = issuer()
        .claims_for(&request("  spiffe://example.org/api\n", Some(60)), 100, "x".to_owned())
        .unwrap();
    assert_eq!(claims.sub.as_str(), "spiffe://example.org/api");
    assert_eq!(claims.exp, 160);
}

#[test]
fn rejects_a_bad_subject() {
    let err = issuer().claims_for(&request("not-a-spiffe-id", None), 100, "x".to_owned());
    assert_eq!(
        err,
        Err(IssueError::BadRequest(format!("invalid sub: {}", ParseError::UnsupportedScheme.message())))
    );
    assert_eq!(
        ParseError::UnsupportedScheme.message(),
        "identifier must start with `spiffe://` or `wimse://`"
    );
}

#[test]
fn issuer_rejects_an_invalid_confirmation_key() {
    let mut req = request("spiffe://example.org/api", None);
    req.cnf_jwk = Jwk {
        alg: None,
        kty: "OKP".to_owned(),
        crv: "Ed25519".to_owned(),
        x: "not-a-key".to_owned(),
        y: None,
    };
    let err = issuer().claims_for(&req, 100, "x".to_owned());
    assert_eq!(err, Err(IssueError::BadRequest("invalid cnf_jwk".to_owned())));
}

#[test]
fn rejects_an_excessive_ttl() {
    let err = issuer().claims_for(&request("spiffe://example.org/api", Some(100_000)), 100, "x".to_owned());
    assert_eq!(
        err,
        Err(IssueError::BadRequest("requested ttl 100000s exceeds the maximum of 3600s".to_owned()))
    );
}

#[test]
fn rejects_a_zero_ttl() {
    let err = issuer().claims_for(&request("spiffe://example.org/api", Some(0)), 100, "x".to_owned());
    assert_eq!(err, Err(IssueError::BadRequest("ttl must be greater than 0".to_owned())));
}

#[test]
fn rejects_an_expiry_past_the_clock() {
    let err = issuer().claims_for(&request("spiffe://example.org/api", Some(10)), u64::MAX - 5, "x".to_owned());
    assert_eq!(err, Err(IssueError::BadRequest("ttl overflows the expiry time".to_owned())));
}

#[test]
fn healthz_and_jwks() {
    let issuer = issuer();
    let jwk = issuer.public_jwk();
    assert_eq!(jwk.kty, "OKP");
    assert_eq!(jwk, Jwk::from_verifying_key(&SigningKey::from_ed25519_seed(&[1u8; 32]).verifying_key()));
    assert_eq!(issuer.kid(), Some("issuer-key-1"));
}

#[test]
fn formats_token_ids_as_lowercase_hex() {
    assert_eq!(hex_id(&[0x00, 0x0f, 0xa0, 0xff]), "000fa0ff");
    assert_eq!(hex_id(&[]), "");
    let id = random_id().unwrap();
    assert_eq!(id.len(), 32);
    assert!(id.chars().all(|c| c.is_ascii_hexdigit() && !c.is_ascii_uppercase()));
    let response = IssueResponse { wit: id.clone() };
    assert_eq!(response.wit, id);
}

#[test]
fn a_fresh_wit_gets_a_random_token_id() {
    let issuer = issuer();
    let req = request("spiffe://example.org/api", Some(60));
    let a = issuer.claims_with_fresh_id(&req, 1_700_000_000).unwrap();
    let b = issuer.claims_with_fresh_id(&req, 1_700_000_000).unwrap();
    assert_eq!(a.exp, 1_700_000_060);
    assert_eq!(a.iat, Some(1_700_000_000));
    let (ja, jb) = (a.jti.unwrap(), b.jti.unwrap());
    assert_eq!(ja.len(), 32);
    assert!(ja.chars().all(|c| c.is_ascii_hexdigit() && !c.is_ascii_uppercase()));
    assert_ne!(ja, jb, "two draws of 128 random bits should differ");
}

#[test]
fn a_refused_request_is_refused_before_any_token_id_is_drawn() {
    let err = issuer().claims_with_fresh_id(&request("spiffe://example.org/api", Some(7200)), 100);
    assert_eq!(
        err,
        Err(IssueError::BadRequest("requested ttl 7200s exceeds the maximum of 3600s".to_owned()))
    );
}
