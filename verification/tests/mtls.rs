use rcgen::{
    BasicConstraints, CertificateParams, IsCa, KeyPair, SanType, SignatureAlgorithm,
    PKCS_ECDSA_P256_SHA256, PKCS_ED25519,
};
use wimsey::identifier::{ParseError, WorkloadIdentifier};
use wimsey::jose::SigningKey;
use wimsey::mtls::{
    ecdsa_signature_from_der, ecdsa_signature_to_der, ed25519_seed_from_pkcs8, read_certificate,
    san_workload_identifier, subject_public_key_info, verify, verify_certificate,
    workload_identifier, AltName, AltNames, MtlsError,
};

const NBF: u64 = 1_700_000_000;
const NAF: u64 = 1_700_086_400;
/// The CA's validity, which outlives the certificates it issues.
const CA_NBF: u64 = 1_600_000_000;
const CA_NAF: u64 = 1_900_000_000;
const ID: &str = "spiffe://example.org/workload/api";

fn at(unix: u64) -> time::OffsetDateTime {
    time::OffsetDateTime::from_unix_timestamp(i64::try_from(unix).unwrap()).unwrap()
}

/// A self-signed workload CA for the tests, built directly with rcgen.
struct TestCa {
    key: KeyPair,
    cert: rcgen::Certificate,
}

impl TestCa {
    fn new(alg: &'static SignatureAlgorithm) -> TestCa {
        let key = KeyPair::generate_for(alg).unwrap();
        let mut params = CertificateParams::new(Vec::new()).unwrap();
        params.is_ca = IsCa::Ca(BasicConstraints::Unconstrained);
        params.not_before = at(CA_NBF);
        params.not_after = at(CA_NAF);
        let cert = params.self_signed(&key).unwrap();
        TestCa { key, cert }
    }

    fn der(&self) -> &[u8] {
        self.cert.der().as_ref()
    }

    fn issue_with(&self, names: Vec<SanType>) -> Vec<u8> {
        let leaf_key = KeyPair::generate_for(&PKCS_ED25519).unwrap();
        let mut params = CertificateParams::new(Vec::new()).unwrap();
        params.subject_alt_names = names;
        params.not_before = at(NBF);
        params.not_after = at(NAF);
        params
            .signed_by(&leaf_key, &self.cert, &self.key)
            .unwrap()
            .der()
            .to_vec()
    }

    fn issue(&self) -> Vec<u8> {
        self.issue_with(vec![SanType::URI(ID.try_into().unwrap())])
    }
}

fn ca() -> TestCa {
    TestCa::new(&PKCS_ED25519)
}

fn id() -> WorkloadIdentifier {
    WorkloadIdentifier::parse(ID).unwrap()
}

#[test]
fn issue_verify_round_trip() {
    let ca = ca();
    let wic = ca.issue();

    let verified = verify(&wic, ca.der(), NBF + 100).unwrap();
    assert_eq!(verified, id());
}

#[test]
fn verifies_a_wic_from_an_es256_ca() {
    let ca = TestCa::new(&PKCS_ECDSA_P256_SHA256);
    let wic = ca.issue();
    assert_eq!(verify(&wic, ca.der(), NBF + 1).unwrap(), id());
}

#[test]
fn rejects_a_certificate_signed_by_the_other_algorithm() {
    let ed = TestCa::new(&PKCS_ED25519);
    let ec = TestCa::new(&PKCS_ECDSA_P256_SHA256);
    let wic = ed.issue();
    let err = verify(&wic, ec.der(), NBF + 1);
    assert!(matches!(err, Err(MtlsError::UnsupportedAlgorithm)), "{err:?}");
}

#[test]
fn round_trips_an_ecdsa_signature_through_der() {
    // A leading zero on either half is the case a hand-rolled encoder gets
    // wrong: DER INTEGERs are signed and minimally encoded.
    for raw in [[0u8; 64], [0xffu8; 64], {
        let mut v = [0x7fu8; 64];
        v[0] = 0x00;
        v[32] = 0x80;
        v
    }] {
        let der = ecdsa_signature_to_der(&raw);
        assert_eq!(ecdsa_signature_from_der(&der).unwrap(), raw, "{raw:02x?}");
    }
}

#[test]
fn rejects_malformed_ecdsa_der() {
    for bad in [
        &b""[..],
        &[0x30, 0x00][..],
        &[0x31, 0x06, 0x02, 0x01, 0x01, 0x02, 0x01, 0x01][..],
        // A non-minimal leading zero.
        &[0x30, 0x07, 0x02, 0x02, 0x00, 0x01, 0x02, 0x01, 0x01][..],
    ] {
        assert!(ecdsa_signature_from_der(bad).is_err(), "{bad:02x?}");
    }
}

#[test]
fn encodes_ecdsa_integers_minimally() {
    // r = 1, s = 0x80 followed by zeros: r shrinks to one octet, s gains a
    // sign octet.
    let mut raw = [0u8; 64];
    raw[31] = 1;
    raw[32] = 0x80;
    let der = ecdsa_signature_to_der(&raw);
    let mut expected = vec![0x30, 3 + 2 + 33, 0x02, 0x01, 0x01, 0x02, 0x21, 0x00, 0x80];
    expected.extend_from_slice(&[0u8; 31]);
    assert_eq!(der, expected);
    assert_eq!(ecdsa_signature_to_der(&[0u8; 64]), vec![0x30, 0x06, 0x02, 0x01, 0x00, 0x02, 0x01, 0x00]);
}

#[test]
fn rejects_ecdsa_der_with_trailing_bytes() {
    let mut der = ecdsa_signature_to_der(&[1u8; 64]);
    der.push(0);
    assert_eq!(ecdsa_signature_from_der(&der), Err(MtlsError::InvalidSignature));
    let der = vec![0x30, 0x09, 0x02, 0x01, 0x01, 0x02, 0x01, 0x01, 0x02, 0x01, 0x01];
    assert_eq!(ecdsa_signature_from_der(&der), Err(MtlsError::InvalidSignature));
}

/// Encodes a 32-byte seed as a PKCS#8 v1 Ed25519 key.
fn ed25519_pkcs8(seed: &[u8; 32]) -> Vec<u8> {
    let mut der = vec![0x30, 0x2e, 0x02, 0x01, 0x00];
    der.extend_from_slice(&[0x30, 0x05, 0x06, 0x03, 0x2b, 0x65, 0x70, 0x04, 0x22, 0x04, 0x20]);
    der.extend_from_slice(seed);
    der
}

#[test]
fn loads_a_ca_from_pkcs8() {
    let key = SigningKey::from_ed25519_seed(&[3u8; 32]);
    let seed = ed25519_seed_from_pkcs8(&ed25519_pkcs8(&key.to_bytes())).unwrap();
    assert_eq!(seed, key.to_bytes());
    // rcgen emits PKCS#8 v2, which carries the public key after the seed.
    let generated = KeyPair::generate_for(&PKCS_ED25519).unwrap().serialize_der();
    assert!(ed25519_seed_from_pkcs8(&generated).is_ok());
}

#[test]
fn rejects_a_ca_key_that_is_not_ed25519() {
    let err = ed25519_seed_from_pkcs8(b"not a key at all");
    assert!(matches!(err, Err(MtlsError::InvalidKey)));
}

#[test]
fn refuses_a_pkcs8_key_of_another_algorithm() {
    // A well-formed PKCS#8 header around an X25519 (1.3.101.110) key.
    let mut x25519 = vec![0x30, 0x2e, 0x02, 0x01, 0x00];
    x25519.extend_from_slice(&[0x30, 0x05, 0x06, 0x03, 0x2b, 0x65, 0x6e, 0x04, 0x22, 0x04, 0x20]);
    x25519.extend_from_slice(&[5u8; 32]);
    assert_eq!(ed25519_seed_from_pkcs8(&x25519), Err(MtlsError::UnsupportedAlgorithm));
    // An EC key's header does not even have the shape.
    let p256 = KeyPair::generate_for(&PKCS_ECDSA_P256_SHA256).unwrap().serialize_der();
    assert_eq!(ed25519_seed_from_pkcs8(&p256), Err(MtlsError::InvalidKey));
    let mut short = ed25519_pkcs8(&[9u8; 32]);
    short.truncate(40);
    assert_eq!(ed25519_seed_from_pkcs8(&short), Err(MtlsError::InvalidKey));
}

#[test]
fn wraps_a_public_key_as_spki() {
    let ed = SigningKey::from_ed25519_seed(&[7u8; 32]).verifying_key();
    let spki = subject_public_key_info(&ed);
    assert_eq!(spki.len(), 44);
    assert_eq!(&spki[..12], &[0x30, 0x2a, 0x30, 0x05, 0x06, 0x03, 0x2b, 0x65, 0x70, 0x03, 0x21, 0x00]);
    assert_eq!(&spki[12..], &ed.to_raw_bytes()[..]);
    let ec = SigningKey::from_p256_scalar(&[6u8; 32]).unwrap().verifying_key();
    let spki = subject_public_key_info(&ec);
    assert_eq!(spki.len(), 91);
    assert_eq!(&spki[..4], &[0x30, 0x59, 0x30, 0x13]);
    assert_eq!(&spki[26..], &ec.to_raw_bytes()[..]);
}

#[test]
fn extracts_identifier_without_verifying() {
    let ca = ca();
    let wic = ca.issue();
    assert_eq!(workload_identifier(&wic).unwrap(), id());
}

#[test]
fn rejects_a_different_ca() {
    let ca = ca();
    let wic = ca.issue();
    let other = TestCa::new(&PKCS_ED25519);

    let err = verify(&wic, other.der(), NBF + 100);
    assert!(matches!(err, Err(MtlsError::InvalidSignature)));
}

#[test]
fn rejects_an_expired_certificate() {
    let ca = ca();
    let wic = ca.issue();

    let err = verify(&wic, ca.der(), NAF + 1);
    assert!(matches!(err, Err(MtlsError::NotValid)));
}

#[test]
fn rejects_a_time_it_cannot_represent() {
    let ca = ca();
    let wic = ca.issue();
    assert_eq!(verify(&wic, ca.der(), u64::MAX), Err(MtlsError::Time));
}

#[test]
fn rejects_bytes_that_are_not_a_certificate() {
    let ca = ca();
    let mut wic = ca.issue();
    assert_eq!(verify(b"junk", ca.der(), NBF), Err(MtlsError::Parse));
    wic.push(0);
    assert_eq!(verify(&wic, ca.der(), NBF), Err(MtlsError::Parse));
    assert_eq!(workload_identifier(&wic), Err(MtlsError::Parse));
}

#[test]
fn rejects_a_certificate_without_a_uri_san() {
    // The CA certificate carries no subjectAltName.
    let ca = ca();
    let err = workload_identifier(ca.der());
    assert!(matches!(err, Err(MtlsError::MissingIdentifier)));
}

#[test]
fn rejects_multiple_uri_sans() {
    let ca = ca();
    let wic = ca.issue_with(vec![
        SanType::URI("spiffe://example.org/a".try_into().unwrap()),
        SanType::URI("spiffe://example.org/b".try_into().unwrap()),
    ]);
    let err = workload_identifier(&wic);
    assert!(matches!(err, Err(MtlsError::MultipleIdentifiers)));
}

#[test]
fn accepts_a_uri_san_alongside_other_san_types() {
    // SPIFFE permits a single URI SAN together with other SAN types.
    let ca = ca();
    let wic = ca.issue_with(vec![
        SanType::URI(ID.try_into().unwrap()),
        SanType::DnsName("example.org".try_into().unwrap()),
    ]);
    assert_eq!(workload_identifier(&wic).unwrap(), id());
}

#[test]
fn reports_an_invalid_uri_san() {
    let names = AltNames::Present(vec![AltName::Other, AltName::Uri("https://example.org/".to_string())]);
    assert_eq!(
        san_workload_identifier(&names),
        Err(MtlsError::Identifier(ParseError::UnsupportedScheme))
    );
    assert_eq!(san_workload_identifier(&AltNames::Unreadable), Err(MtlsError::Parse));
    assert_eq!(san_workload_identifier(&AltNames::Absent), Err(MtlsError::MissingIdentifier));
    assert_eq!(
        san_workload_identifier(&AltNames::Present(vec![AltName::Other])),
        Err(MtlsError::MissingIdentifier)
    );
}

#[test]
fn checks_a_certificate_field_by_field() {
    let ca_pki = TestCa::new(&PKCS_ED25519);
    let wic = ca_pki.issue();
    let leaf = read_certificate(&wic).unwrap();
    let ca = read_certificate(ca_pki.der()).unwrap();
    assert_eq!(leaf.not_before, i128::from(NBF) * 1_000_000_000);
    assert_eq!(leaf.signature.algorithm, vec![0x2b, 0x65, 0x70]);
    let at_nbf = Some(i128::from(NBF) * 1_000_000_000);

    assert_eq!(verify_certificate(&leaf, &ca, at_nbf).unwrap(), id());
    assert_eq!(verify_certificate(&leaf, &ca, None), Err(MtlsError::Time));
    assert_eq!(verify_certificate(&leaf, &ca, Some(at_nbf.unwrap() - 1)), Err(MtlsError::NotValid));

    let mut odd = read_certificate(ca_pki.der()).unwrap();
    odd.public_key.unused_bits = 1;
    assert_eq!(verify_certificate(&leaf, &odd, at_nbf), Err(MtlsError::InvalidKey));

    let mut unknown = read_certificate(ca_pki.der()).unwrap();
    unknown.public_key.algorithm = vec![0x2a, 0x86, 0x48, 0x86, 0xf7, 0x0d, 0x01, 0x01, 0x01];
    assert_eq!(verify_certificate(&leaf, &unknown, at_nbf), Err(MtlsError::UnsupportedAlgorithm));

    let mut tampered = read_certificate(&wic).unwrap();
    tampered.signature.tbs[10] ^= 1;
    assert_eq!(verify_certificate(&tampered, &ca, at_nbf), Err(MtlsError::InvalidSignature));

    let mut relabelled = read_certificate(&wic).unwrap();
    relabelled.signature.tbs_algorithm = vec![0x2a, 0x86, 0x48, 0xce, 0x3d, 0x04, 0x03, 0x02];
    assert_eq!(verify_certificate(&relabelled, &ca, at_nbf), Err(MtlsError::UnsupportedAlgorithm));
}

#[test]
fn mtls_errors_read_as_messages() {
    assert_eq!(MtlsError::NotValid.message(), "certificate is not valid at the given time");
    assert_eq!(
        MtlsError::Identifier(wimsey::identifier::ParseError::HasPort).message(),
        format!("invalid workload identifier: {}", wimsey::identifier::ParseError::HasPort.message())
    );
}
