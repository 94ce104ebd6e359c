//! Keys, signatures, algorithms and JSON Web Keys.

use base64::engine::general_purpose::URL_SAFE_NO_PAD;
use base64::Engine;
use wimsey::jose::{is_forbidden_alg, Algorithm, JoseError, Jwk, SigningKey, VerifyingKey};

fn keys() -> [SigningKey; 2] {
    [
        SigningKey::from_ed25519_seed(&[7u8; 32]),
        SigningKey::from_p256_scalar(&[7u8; 32]).unwrap(),
    ]
}

#[test]
fn round_trips_for_both_algorithms() {
    for key in keys() {
        let signature = key.sign(b"payload");
        assert!(key.verifying_key().verify(b"payload", &signature).is_ok());
        assert!(key.verifying_key().verify(b"other", &signature).is_err());
    }
}

// The whole conformance-vector design rests on this: a recorded signature is
// only a contract if signing is reproducible.
#[test]
fn signing_is_deterministic_for_both_algorithms() {
    for key in keys() {
        assert_eq!(key.sign(b"payload"), key.sign(b"payload"));
    }
}

#[test]
fn a_signature_does_not_verify_under_the_other_algorithm() {
    let [ed, p256] = keys();
    let signature = ed.sign(b"payload");
    assert!(p256.verifying_key().verify(b"payload", &signature).is_err());
}

#[test]
fn key_rejects_a_wrong_length_signature() {
    for key in keys() {
        let err = key.verifying_key().verify(b"payload", &[0u8; 32]);
        assert!(matches!(err, Err(JoseError::InvalidSignature)));
    }
}

#[test]
fn parses_the_supported_algorithms() {
    assert_eq!(Algorithm::parse("EdDSA").unwrap(), Algorithm::EdDsa);
    assert_eq!(Algorithm::parse("ES256").unwrap(), Algorithm::Es256);
    assert_eq!(Algorithm::EdDsa.as_str(), "EdDSA");
    assert_eq!(Algorithm::Es256.as_str(), "ES256");
}

// A forbidden algorithm and an unimplemented one are different failures: one
// is a spec violation, the other is this crate's limit.
#[test]
fn separates_forbidden_from_merely_unsupported() {
    for forbidden in ["none", "HS256", "ECDH-ES+A128KW"] {
        assert!(
            matches!(
                Algorithm::parse(forbidden),
                Err(JoseError::ForbiddenAlg { .. })
            ),
            "{forbidden} must be forbidden"
        );
    }
    assert!(matches!(
        Algorithm::parse("ES384"),
        Err(JoseError::UnsupportedAlg { .. })
    ));
}

#[test]
fn rejects_an_invalid_p256_scalar() {
    assert!(matches!(
        SigningKey::from_p256_scalar(&[0u8; 32]),
        Err(JoseError::InvalidKey)
    ));
}

#[test]
fn reports_its_algorithm() {
    let [ed, p256] = keys();
    assert_eq!(ed.algorithm(), Algorithm::EdDsa);
    assert_eq!(p256.algorithm(), Algorithm::Es256);
    assert_eq!(ed.verifying_key().algorithm(), Algorithm::EdDsa);
    assert_eq!(p256.verifying_key().algorithm(), Algorithm::Es256);
}

#[test]
fn keys_round_trip_through_their_bytes() {
    let [ed, p256] = keys();
    assert_eq!(
        SigningKey::from_ed25519_seed(&ed.to_bytes()).verifying_key(),
        ed.verifying_key()
    );
    assert_eq!(
        SigningKey::from_p256_scalar(&p256.to_bytes())
            .unwrap()
            .verifying_key(),
        p256.verifying_key()
    );
}

#[test]
fn raw_public_key_bytes_round_trip() {
    for key in keys() {
        let public = key.verifying_key();
        let raw = public.to_raw_bytes();
        assert_eq!(
            VerifyingKey::from_raw_bytes(public.algorithm(), &raw).unwrap(),
            public
        );
    }
    // The encodings are different lengths, which is why the algorithm has
    // to be supplied rather than inferred.
    let [ed, p256] = keys();
    assert_eq!(ed.verifying_key().to_raw_bytes().len(), 32);
    assert_eq!(p256.verifying_key().to_raw_bytes().len(), 65);
}

#[test]
fn rejects_raw_bytes_of_the_wrong_length() {
    assert!(matches!(
        VerifyingKey::from_raw_bytes(Algorithm::EdDsa, &[0u8; 65]),
        Err(JoseError::InvalidKey)
    ));
    assert!(matches!(
        VerifyingKey::from_raw_bytes(Algorithm::Es256, &[0u8; 32]),
        Err(JoseError::InvalidKey)
    ));
}

#[test]
fn verifying_keys_compare_by_value() {
    let [ed, _] = keys();
    let same: VerifyingKey = SigningKey::from_ed25519_seed(&[7u8; 32]).verifying_key();
    assert_eq!(ed.verifying_key(), same);
    assert!(ed.verifying_key().same_key(&same));
}

// --- JSON Web Keys ---

fn ed25519() -> SigningKey {
    SigningKey::from_ed25519_seed(&[7u8; 32])
}

fn p256() -> SigningKey {
    SigningKey::from_p256_scalar(&[7u8; 32]).unwrap()
}

#[test]
fn round_trips_both_key_types() {
    for key in [ed25519(), p256()] {
        let jwk = Jwk::from_verifying_key(&key.verifying_key());
        assert_eq!(jwk.to_verifying_key().unwrap(), key.verifying_key());
    }
}

#[test]
fn builds_the_expected_members() {
    let ed = Jwk::from_verifying_key(&ed25519().verifying_key());
    assert_eq!(ed.alg.as_deref(), Some("EdDSA"));
    assert_eq!(ed.kty, "OKP");
    assert_eq!(ed.crv, "Ed25519");
    assert_eq!(ed.y, None);
    let ec = Jwk::from_verifying_key(&p256().verifying_key());
    assert_eq!(ec.alg.as_deref(), Some("ES256"));
    assert_eq!(ec.kty, "EC");
    assert_eq!(ec.crv, "P-256");
    assert!(ec.y.is_some());
}

#[test]
fn requires_the_alg_member() {
    let mut jwk = Jwk::from_verifying_key(&ed25519().verifying_key());
    jwk.alg = None;
    assert!(matches!(jwk.to_verifying_key(), Err(JoseError::MissingAlg)));
}

#[test]
fn rejects_a_key_type_that_contradicts_alg() {
    let mut jwk = Jwk::from_verifying_key(&ed25519().verifying_key());
    jwk.alg = Some("ES256".to_owned());
    assert!(matches!(jwk.to_verifying_key(), Err(JoseError::InvalidKey)));

    let mut jwk = Jwk::from_verifying_key(&p256().verifying_key());
    jwk.alg = Some("EdDSA".to_owned());
    assert!(matches!(jwk.to_verifying_key(), Err(JoseError::InvalidKey)));
}

#[test]
fn rejects_an_ec_key_without_y() {
    let mut jwk = Jwk::from_verifying_key(&p256().verifying_key());
    jwk.y = None;
    assert!(matches!(jwk.to_verifying_key(), Err(JoseError::InvalidKey)));
}

#[test]
fn rejects_an_okp_key_carrying_y() {
    let mut jwk = Jwk::from_verifying_key(&ed25519().verifying_key());
    jwk.y = Some("AAAA".to_owned());
    assert!(matches!(jwk.to_verifying_key(), Err(JoseError::InvalidKey)));
}

#[test]
fn rejects_a_short_coordinate() {
    let mut jwk = Jwk::from_verifying_key(&p256().verifying_key());
    jwk.x = URL_SAFE_NO_PAD.encode([1u8; 31]);
    assert!(matches!(jwk.to_verifying_key(), Err(JoseError::InvalidKey)));
}

#[test]
fn rejects_a_point_that_is_not_on_the_curve() {
    let mut jwk = Jwk::from_verifying_key(&p256().verifying_key());
    jwk.y = Some(URL_SAFE_NO_PAD.encode([9u8; 32]));
    assert!(matches!(jwk.to_verifying_key(), Err(JoseError::InvalidKey)));
}

#[test]
fn rejects_a_forbidden_alg() {
    let mut jwk = Jwk::from_verifying_key(&ed25519().verifying_key());
    jwk.alg = Some("HS256".to_owned());
    assert!(matches!(
        jwk.to_verifying_key(),
        Err(JoseError::ForbiddenAlg { .. })
    ));
}

#[test]
fn rejects_an_undecodable_coordinate() {
    let mut jwk = Jwk::from_verifying_key(&ed25519().verifying_key());
    jwk.x = "not base64!".to_owned();
    assert!(matches!(jwk.to_verifying_key(), Err(JoseError::InvalidEncoding)));
}

#[test]
fn forbidden_algorithms_match_case_insensitively() {
    assert!(is_forbidden_alg("hs256"));
    assert!(is_forbidden_alg("None"));
    assert!(!is_forbidden_alg("EdDSA"));
}

fn unhex(s: &str) -> Vec<u8> {
    (0..s.len()).step_by(2).map(|i| u8::from_str_radix(&s[i..i + 2], 16).unwrap()).collect()
}

#[test]
fn matches_the_rfc_8032_ed25519_test_vector() {
    // RFC 8032, Section 7.1, TEST 1: the empty message.
    let seed: [u8; 32] = unhex("9d61b19deffd5a60ba844af492ec2cc44449c5697b326919703bac031cae7f60")
        .try_into()
        .unwrap();
    let key = SigningKey::from_ed25519_seed(&seed);
    assert_eq!(
        key.verifying_key().to_raw_bytes(),
        unhex("d75a980182b10ab7d54bfed3c964073a0ee172f3daa62325af021a68f707511a")
    );
    let signature = key.sign(b"");
    assert_eq!(
        signature,
        unhex(
            "e5564300c360ac729086e2cc806e828a84877f1eb8e5d974d873e065224901555fb8821590a33bacc61e39701cf9b46bd25bf5f0595bbe24655141438e7a100b"
        )
    );
    assert!(key.verifying_key().verify(b"", &signature).is_ok());
}
