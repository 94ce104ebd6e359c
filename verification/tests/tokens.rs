//! WIT and WPT checks, compact framing, and the conformance report.

use base64::engine::general_purpose::URL_SAFE_NO_PAD;
use base64::Engine;
use wimsey::compact::{sign_compact, split_compact, CompactParts, FrameFailure, MAX_TOKEN_LEN};
use wimsey::conformance::{
    expect_reject, manifest, run_identifier, ErrorCode, Header, IdentifierAccept,
    IdentifierReject, IdentifierVector, Report, FORMAT,
};
use wimsey::identifier::{ParseError, WorkloadIdentifier};
use wimsey::jose::{JoseError, Jwk, SigningKey};
use wimsey::wit::{self, Confirmation, WitClaims, WitError};
use wimsey::wpt::{
    self, other_token_entry, txn_token_thumbprint, wit_thumbprint, Validation, WptClaims,
    WptError,
};

const WIT: &str = "eyJ0eXAiOiJ3aXQrand0In0.payload.signature";
const AUD: &str = "https://workload.example.com/path";

fn sample_wpt_claims() -> WptClaims {
    WptClaims {
        aud: AUD.to_owned(),
        exp: 1_700_000_300,
        jti: "0123456789abcdef".to_owned(),
        wth: wit_thumbprint(WIT),
        tth: None,
        oth: None,
    }
}

#[test]
fn splits_a_compact_token_into_three_segments() {
    let parts = split_compact("a.b.c").ok().unwrap();
    assert_eq!(
        (parts.header.as_str(), parts.claims.as_str(), parts.signature.as_str()),
        ("a", "b", "c")
    );
    assert!(matches!(split_compact("only.two"), Err(FrameFailure::Malformed)));
    assert!(matches!(split_compact("a.b.c.d"), Err(FrameFailure::Malformed)));
    let oversized = "a".repeat(MAX_TOKEN_LEN + 1);
    assert!(matches!(split_compact(&oversized), Err(FrameFailure::TooLong)));
}

#[test]
fn a_signed_compact_token_verifies_under_either_algorithm() {
    for key in [
        SigningKey::from_ed25519_seed(&[9u8; 32]),
        SigningKey::from_p256_scalar(&[9u8; 32]).unwrap(),
    ] {
        let token = sign_compact(b"{\"typ\":\"wpt+jwt\"}", b"{}", &key);
        let parts = split_compact(&token).ok().unwrap();
        assert_eq!(
            URL_SAFE_NO_PAD.decode(&parts.header).unwrap(),
            b"{\"typ\":\"wpt+jwt\"}"
        );
        assert!(wpt::check_signature(&parts, &key.verifying_key()).is_ok());
        assert!(wit::check_signature(&parts, &key.verifying_key()).is_ok());
        // Deterministic.
        assert_eq!(token, sign_compact(b"{\"typ\":\"wpt+jwt\"}", b"{}", &key));
    }
}

#[test]
fn rejects_a_tampered_or_truncated_signature() {
    let key = SigningKey::from_ed25519_seed(&[9u8; 32]);
    let token = sign_compact(b"{}", b"{\"a\":1}", &key);
    let parts = split_compact(&token).ok().unwrap();
    let tampered = CompactParts {
        claims: URL_SAFE_NO_PAD.encode(b"{\"a\":2}"),
        ..parts.clone()
    };
    assert_eq!(
        wpt::check_signature(&tampered, &key.verifying_key()),
        Err(WptError::InvalidSignature)
    );
    let short = CompactParts {
        signature: URL_SAFE_NO_PAD.encode([0u8; 32]),
        ..parts.clone()
    };
    assert_eq!(
        wpt::check_signature(&short, &key.verifying_key()),
        Err(WptError::MalformedToken)
    );
    let garbage = CompactParts {
        signature: "***".to_owned(),
        ..parts
    };
    assert_eq!(wit::check_signature(&garbage, &key.verifying_key()), Err(WitError::Base64));
}

#[test]
fn wpt_header_rules() {
    let key = SigningKey::from_ed25519_seed(&[9u8; 32]).verifying_key();
    assert!(wpt::check_header("wpt+jwt", "EdDSA", false, &key).is_ok());
    assert_eq!(
        wpt::check_header("application/wpt+jwt", "EdDSA", false, &key),
        Err(WptError::WrongType {
            found: "application/wpt+jwt".to_owned()
        })
    );
    assert_eq!(
        wpt::check_header("wpt+jwt", "HS256", false, &key),
        Err(WptError::UnsupportedAlg {
            found: "HS256".to_owned()
        })
    );
    assert_eq!(
        wpt::check_header("wpt+jwt", "ES256", false, &key),
        Err(WptError::AlgorithmMismatch)
    );
    assert_eq!(
        wpt::check_header("wpt+jwt", "EdDSA", true, &key),
        Err(WptError::UnsupportedCritical)
    );
}

#[test]
fn wpt_claim_checks() {
    let claims = sample_wpt_claims();
    assert!(wpt::check_claims(&claims, &Validation::new(1_700_000_000, AUD, WIT)).is_ok());
    // Strictly before `exp`.
    assert_eq!(
        wpt::check_claims(&claims, &Validation::new(1_700_000_300, AUD, WIT)),
        Err(WptError::Expired)
    );
    assert_eq!(
        wpt::check_claims(
            &claims,
            &Validation::new(1_700_000_000, AUD, WIT).with_max_lifetime(120)
        ),
        Err(WptError::LifetimeTooLong)
    );
    assert!(wpt::check_claims(
        &claims,
        &Validation::new(1_700_000_000, AUD, WIT).with_max_lifetime(600)
    )
    .is_ok());
    assert_eq!(
        wpt::check_claims(
            &claims,
            &Validation::new(1_700_000_000, "https://evil.example/path", WIT)
        ),
        Err(WptError::AudienceMismatch)
    );
    assert_eq!(
        wpt::check_claims(&claims, &Validation::new(1_700_000_000, AUD, "a.different.wit")),
        Err(WptError::WitBindingMismatch)
    );
    assert!(wpt::check_claims(
        &claims,
        &Validation::new(1_700_000_310, AUD, WIT).with_leeway(30)
    )
    .is_ok());
}

#[test]
fn wpt_txn_token_binding() {
    let bound = WptClaims {
        tth: Some(txn_token_thumbprint("txn-token-abcdef")),
        ..sample_wpt_claims()
    };
    let at = Validation::new(1_700_000_000, AUD, WIT);
    assert!(wpt::check_claims(&bound, &at.clone().with_txn_token("txn-token-abcdef")).is_ok());
    assert_eq!(
        wpt::check_claims(&bound, &at.clone().with_txn_token("a-different-token")),
        Err(WptError::TxnTokenBindingMismatch)
    );
    assert_eq!(wpt::check_claims(&bound, &at), Err(WptError::TxnTokenBindingMismatch));
    assert_eq!(
        wpt::check_claims(&sample_wpt_claims(), &at.with_txn_token("txn-token-abcdef")),
        Err(WptError::TxnTokenBindingMismatch)
    );
}

#[test]
fn wpt_context_token_binding() {
    let (name, hash) = other_token_entry("CTX-TOKEN", "ctx-token-abcdef");
    assert_eq!(name, "ctx-token");
    let claims = WptClaims {
        oth: Some(vec![(name, hash)]),
        ..sample_wpt_claims()
    };
    let at = Validation::new(1_700_000_000, AUD, WIT);
    assert!(wpt::check_claims(
        &claims,
        &at.clone().with_other_token("Ctx-Token", "  ctx-token-abcdef  ")
    )
    .is_ok());
    assert_eq!(
        wpt::check_claims(&claims, &at.clone().with_other_token("ctx-token", "other")),
        Err(WptError::OtherTokenBindingMismatch {
            name: "ctx-token".to_owned()
        })
    );
    assert_eq!(
        wpt::check_claims(&claims, &at.clone()),
        Err(WptError::OtherTokenBindingMismatch {
            name: "ctx-token".to_owned()
        })
    );
    // A token `oth` does not name is left unbound, not rejected.
    assert!(wpt::check_claims(
        &sample_wpt_claims(),
        &at.with_other_token("ctx-token", "ctx-token-abcdef")
    )
    .is_ok());
}

#[test]
fn thumbprints_are_base64url_sha256() {
    // SHA-256 of the empty string.
    assert_eq!(
        wit_thumbprint(""),
        "47DEQpj8HBSa-_TImW-5JCeuQeRkm5NMpJWZG3hSuFU"
    );
    assert_eq!(txn_token_thumbprint(""), wit_thumbprint(""));
    assert_eq!(other_token_entry("A", "  ").1, wit_thumbprint(""));
}

fn sample_wit_claims(pop: &SigningKey) -> WitClaims {
    WitClaims {
        iss: Some("https://issuer.example".to_owned()),
        sub: WorkloadIdentifier::parse("spiffe://example.org/workload/api").unwrap(),
        iat: Some(1_700_000_000),
        exp: 1_700_003_600,
        jti: Some("a1b2c3".to_owned()),
        cnf: Confirmation {
            jwk: Jwk::from_verifying_key(&pop.verifying_key()),
        },
    }
}

#[test]
fn wit_claim_checks_recover_the_pop_key() {
    let pop = SigningKey::from_p256_scalar(&[7u8; 32]).unwrap();
    let claims = sample_wit_claims(&pop);
    let key = wit::check_claims(&claims, &wit::Validation::at(1_700_000_000)).unwrap();
    assert_eq!(key, pop.verifying_key());
    assert_eq!(
        wit::check_claims(&claims, &wit::Validation::at(1_700_003_600)),
        Err(WitError::Expired)
    );
    assert!(wit::check_claims(&claims, &wit::Validation::at(1_700_003_601).with_leeway(30)).is_ok());
    assert_eq!(
        wit::check_claims(&claims, &wit::Validation::at(1_699_999_999)),
        Err(WitError::IssuedInFuture)
    );
    assert_eq!(
        wit::check_claims(
            &claims,
            &wit::Validation::at(1_700_000_000).expect_issuer("https://other.example".to_owned())
        ),
        Err(WitError::IssuerMismatch)
    );
    let mut no_alg = claims.clone();
    no_alg.cnf.jwk.alg = None;
    assert_eq!(
        wit::check_claims(&no_alg, &wit::Validation::at(1_700_000_000)),
        Err(WitError::MissingConfirmationAlg)
    );
    let mut symmetric = claims;
    symmetric.cnf.jwk.alg = Some("HS256".to_owned());
    assert_eq!(
        wit::check_claims(&symmetric, &wit::Validation::at(1_700_000_000)),
        Err(WitError::ForbiddenConfirmationAlg {
            found: "HS256".to_owned()
        })
    );
}

#[test]
fn wit_header_rules_and_jose_errors() {
    let key = SigningKey::from_ed25519_seed(&[1u8; 32]).verifying_key();
    assert!(wit::check_header("wit+jwt", "EdDSA", false, &key).is_ok());
    assert_eq!(
        wit::check_header("wit+jwt", "none", false, &key),
        Err(WitError::UnsupportedAlg {
            found: "none".to_owned()
        })
    );
    assert_eq!(
        wit::check_header("wit+jwt", "EdDSA", true, &key),
        Err(WitError::UnsupportedCritical)
    );
    assert_eq!(WitError::from_jose(JoseError::InvalidEncoding), WitError::InvalidKey);
    assert_eq!(WitError::from_jose(JoseError::MissingAlg), WitError::MissingConfirmationAlg);
}

#[test]
fn the_report_counts_checks() {
    let mut report = Report::new();
    assert!(report.is_green());
    report.pass("wit/a", "reproduce");
    report.record("wit/a", "verify", Err("bad".to_owned()));
    assert_eq!(report.passed(), 1);
    assert_eq!(report.failed(), 1);
    assert!(!report.is_green());
    assert_eq!(report.checks[1].detail.as_deref(), Some("bad"));
}

#[test]
fn expect_reject_demands_the_recorded_reason() {
    assert!(expect_reject(ErrorCode::Expired, Err(ErrorCode::Expired)).is_ok());
    assert!(expect_reject(ErrorCode::Expired, Err(ErrorCode::InvalidSignature)).is_err());
    assert!(expect_reject(ErrorCode::Expired, Ok(())).is_err());
    assert_eq!(
        expect_reject(ErrorCode::Expired, Err(ErrorCode::InvalidSignature)),
        Err("rejected as InvalidSignature, expected Expired".to_owned())
    );
    assert_eq!(
        expect_reject(ErrorCode::WrongTag, Ok(())),
        Err("accepted; it must be rejected as WrongTag".to_owned())
    );
    assert_eq!(ErrorCode::NonNormalizedPercentEncoding.name(), "NonNormalizedPercentEncoding");
}

fn header() -> Header {
    Header {
        format: FORMAT.to_owned(),
        suite: "identifier".to_owned(),
        id: "parse-basic".to_owned(),
        spec: "draft".to_owned(),
        description: "d".to_owned(),
    }
}

#[test]
fn runs_an_identifier_vector() {
    let vector = IdentifierVector {
        header: header(),
        accept: vec![
            IdentifierAccept {
                id: "spiffe-basic".to_owned(),
                description: String::new(),
                identifier: "spiffe://example.org/workload/api".to_owned(),
                scheme: "spiffe".to_owned(),
                trust_domain: "example.org".to_owned(),
                path: "/workload/api".to_owned(),
                origin: "spiffe://example.org".to_owned(),
            },
            IdentifierAccept {
                id: "wrong-path".to_owned(),
                description: String::new(),
                identifier: "spiffe://example.org/workload/api".to_owned(),
                scheme: "spiffe".to_owned(),
                trust_domain: "example.org".to_owned(),
                path: "/other".to_owned(),
                origin: "spiffe://example.org".to_owned(),
            },
        ],
        reject: vec![
            IdentifierReject {
                id: "has-port".to_owned(),
                description: String::new(),
                identifier: "wimse://example.org:8443/a".to_owned(),
                expect: ErrorCode::HasPort,
            },
            IdentifierReject {
                id: "mislabelled".to_owned(),
                description: String::new(),
                identifier: "wimse://example.org/a?b=c".to_owned(),
                expect: ErrorCode::HasFragment,
            },
        ],
    };
    let mut report = Report::new();
    run_identifier(&vector, &mut report);
    let outcome: Vec<(&str, bool)> = report
        .checks
        .iter()
        .map(|c| (c.name.as_str(), c.passed))
        .collect();
    assert_eq!(
        outcome,
        vec![
            ("accept/spiffe-basic", true),
            ("accept/wrong-path", false),
            ("reject/has-port", true),
            ("reject/mislabelled", false),
        ]
    );
    assert!(report.checks.iter().all(|c| c.vector == "identifier/parse-basic"));
    assert_eq!(
        ErrorCode::from_parse_error(&ParseError::NonNormalizedPercentEncoding(b'a')),
        ErrorCode::NonNormalizedPercentEncoding
    );
}

#[test]
fn the_manifest_lists_every_vector() {
    let m = manifest();
    assert_eq!(m.format, "wimse-conformance/v2");
    assert_eq!(m.vectors.len(), 8);
    assert_eq!(m.vectors[0].suite, "identifier");
    assert_eq!(m.vectors[7].path, "mtls/wic-basic.json");
}

#[test]
fn token_errors_read_as_messages() {
    assert_eq!(WitError::Expired.message(), "token has expired");
    assert_eq!(
        WitError::WrongType { found: "jwt".to_owned() }.message(),
        "unexpected token type `jwt`, expected `wit+jwt`"
    );
    assert_eq!(WitError::Json("eof".to_owned()).message(), "invalid json: eof");
    assert_eq!(WptError::WitBindingMismatch.message(), "WIT binding mismatch");
    assert_eq!(
        WptError::OtherTokenBindingMismatch { name: "ctx-token".to_owned() }.message(),
        "binding mismatch for the `ctx-token` token"
    );
    assert_eq!(JoseError::MissingAlg.message(), "the key is missing the required `alg` member");
    assert_eq!(
        JoseError::ForbiddenAlg { found: "none".to_owned() }.message(),
        "the algorithm `none` is forbidden for a proof of possession"
    );
}
