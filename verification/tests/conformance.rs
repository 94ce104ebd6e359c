use base64::engine::general_purpose::URL_SAFE_NO_PAD;
use base64::Engine;
use rcgen::{BasicConstraints, CertificateParams, IsCa, KeyPair, SanType, PKCS_ED25519};
use wimsey::conformance::generate::httpsig_vector as generated_httpsig_vector;
use wimsey::conformance::signatures::{run_httpsig, HttpSigVector};
use wimsey::conformance::wic_vector::{mtls_vector as build_mtls_vector, MTLS_SPEC};
use wimsey::conformance::{
    identifier_vector, is_current_format, manifest, run_identifier, run_mtls_verification, suite_of, unlisted, ErrorCode, Suite, FORMAT, Header, HttpSigNegative, MtlsNegative, MtlsVector, Report,
    ResponseNegative, VectorParams, VectorRequest, VectorResponse,
};
use wimsey::httpsig::{
    content_digest_sha256, sign, Component, HttpExchange, HttpRequest, HttpResponse,
    SignatureParams, WIMSE_TAG,
};
use wimsey::jose::{Algorithm, Jwk, PrivateJwk, SigningKey};

const IAT: u64 = 1_700_000_000;
const AUDIENCE: &str = "https://service.example/transfer";
const NONCE: &str = "abcd1111";
const RESPONSE_NONCE: &str = "abcd2222";

fn header(suite: &str, id: &str) -> Header {
    Header {
        format: "wimse-conformance/v2".to_owned(),
        suite: suite.to_owned(),
        id: id.to_owned(),
        spec: "draft".to_owned(),
        description: "test vector".to_owned(),
    }
}

fn pop_key() -> SigningKey {
    SigningKey::from_ed25519_seed(&[9u8; 32])
}

fn request() -> HttpRequest {
    HttpRequest {
        method: "POST".to_owned(),
        authority: "service.example".to_owned(),
        path: "/transfer".to_owned(),
        query: None,
        headers: vec![
            ("Content-Type".to_owned(), "application/json".to_owned()),
            ("Content-Digest".to_owned(), content_digest_sha256(br#"{"amount":100}"#)),
            ("Workload-Identity-Token".to_owned(), "a.b.c".to_owned()),
        ],
    }
}

fn components() -> Vec<Component> {
    vec![
        Component::Method,
        Component::RequestTarget,
        Component::header("content-type"),
        Component::header("content-digest"),
        Component::header("workload-identity-token"),
    ]
}

fn request_params() -> SignatureParams {
    SignatureParams {
        created: Some(IAT),
        expires: Some(IAT + 300),
        nonce: Some(NONCE.to_owned()),
        tag: Some(WIMSE_TAG.to_owned()),
        wimse_aud: Some(AUDIENCE.to_owned()),
        wimse_sign_response: Some(true),
        ..SignatureParams::default()
    }
}

fn neg(id: &str, expect: ErrorCode) -> HttpSigNegative {
    HttpSigNegative {
        id: id.to_owned(),
        description: String::new(),
        expect,
        request: None,
        body: None,
        signature_input: None,
        signature: None,
        verify_now: None,
        accept_label: None,
        accept_audience: None,
        max_age: None,
        required_components: None,
    }
}

fn response_neg(id: &str, expect: ErrorCode) -> ResponseNegative {
    ResponseNegative {
        id: id.to_owned(),
        description: String::new(),
        expect,
        signature_input: None,
        signature: None,
        request: None,
        expected_req_nonce: None,
    }
}

fn response(req: &HttpRequest) -> VectorResponse {
    let body = r#"{"status":"accepted"}"#;
    let message = HttpResponse {
        status: 200,
        headers: vec![
            ("Content-Type".to_owned(), "application/json".to_owned()),
            ("Content-Digest".to_owned(), content_digest_sha256(body.as_bytes())),
        ],
    };
    let covered = vec![
        Component::Status,
        Component::header("content-type"),
        Component::header("content-digest"),
        Component::Req(Box::new(Component::Method)),
        Component::Req(Box::new(Component::RequestTarget)),
    ];
    let params = SignatureParams {
        created: Some(IAT),
        expires: Some(IAT + 300),
        nonce: Some(RESPONSE_NONCE.to_owned()),
        tag: Some(WIMSE_TAG.to_owned()),
        wimse_req_nonce: Some(NONCE.to_owned()),
        ..SignatureParams::default()
    };
    let exchange = HttpExchange { response: &message, request: req };
    let signed = sign(&exchange, &covered, &params, "wimse", &pop_key()).unwrap();
    VectorResponse {
        status: message.status,
        headers: message.headers.clone(),
        body: body.to_owned(),
        components: covered.iter().map(Component::quoted_id).collect(),
        params: VectorParams {
            created: IAT,
            expires: IAT + 300,
            nonce: RESPONSE_NONCE.to_owned(),
            tag: WIMSE_TAG.to_owned(),
            wimse_aud: String::new(),
            wimse_sign_response: None,
            wimse_req_nonce: Some(NONCE.to_owned()),
        },
        signature_input: signed.signature_input,
        signature: signed.signature,
        expected_req_nonce: NONCE.to_owned(),
        negative: vec![
            ResponseNegative {
                request: Some(VectorRequest { path: "/admin".to_owned(), ..req.clone() }),
                ..response_neg("lifted-onto-another-request", ErrorCode::InvalidSignature)
            },
            ResponseNegative {
                expected_req_nonce: Some("some-other-nonce".to_owned()),
                ..response_neg("wrong-req-nonce", ErrorCode::RequestNonceMismatch)
            },
        ],
    }
}

fn httpsig_vector() -> HttpSigVector {
    let pop = pop_key();
    let req = request();
    let signed = sign(&req, &components(), &request_params(), "wimse", &pop).unwrap();
    let with_keyid = SignatureParams { keyid: Some("issuer-key-1".to_owned()), ..request_params() };
    let keyid_signed = sign(&req, &components(), &with_keyid, "wimse", &pop).unwrap();
    HttpSigVector {
        header: header("httpsig", "sign-eddsa"),
        pop_signing_key: PrivateJwk::from_signing_key(&pop),
        issuer_verifying_key: Jwk::from_verifying_key(
            &SigningKey::from_ed25519_seed(&[1u8; 32]).verifying_key(),
        ),
        verify_now: IAT + 100,
        label: "wimse".to_owned(),
        components: components().iter().map(Component::quoted_id).collect(),
        params: VectorParams {
            created: IAT,
            expires: IAT + 300,
            nonce: NONCE.to_owned(),
            tag: WIMSE_TAG.to_owned(),
            wimse_aud: AUDIENCE.to_owned(),
            wimse_sign_response: Some(true),
            wimse_req_nonce: None,
        },
        request: req.clone(),
        body: r#"{"amount":100}"#.to_owned(),
        wit: "a.b.c".to_owned(),
        signature_input: signed.signature_input,
        signature: signed.signature,
        negative: vec![
            HttpSigNegative {
                signature_input: Some(keyid_signed.signature_input),
                signature: Some(keyid_signed.signature),
                ..neg("forbidden-keyid-parameter", ErrorCode::ForbiddenParameter)
            },
            HttpSigNegative {
                accept_audience: Some("https://other.example/inbox".to_owned()),
                ..neg("audience-mismatch", ErrorCode::AudienceMismatch)
            },
            HttpSigNegative {
                body: Some(r#"{"amount":999}"#.to_owned()),
                ..neg("tampered-body", ErrorCode::ContentDigestMismatch)
            },
            HttpSigNegative {
                request: Some(VectorRequest { path: "/admin".to_owned(), ..req.clone() }),
                ..neg("rerouted-path", ErrorCode::InvalidSignature)
            },
            HttpSigNegative {
                verify_now: Some(IAT - 1),
                ..neg("created-in-future", ErrorCode::CreatedInFuture)
            },
            HttpSigNegative {
                verify_now: Some(IAT + 120),
                max_age: Some(30),
                ..neg("too-old", ErrorCode::TooOld)
            },
            HttpSigNegative {
                accept_label: Some("other".to_owned()),
                ..neg("label-mismatch", ErrorCode::LabelMismatch)
            },
            HttpSigNegative {
                required_components: Some(vec![r#""authorization""#.to_owned()]),
                ..neg("missing-required-component", ErrorCode::MissingRequiredComponent)
            },
        ],
        response: Some(response(&req)),
    }
}

#[test]
fn an_httpsig_vector_passes_under_the_wit_key() {
    let vector = httpsig_vector();
    let mut report = Report::new();
    run_httpsig(&vector, &Ok(pop_key().verifying_key()), &mut report);
    for check in &report.checks {
        assert!(check.passed, "{} {}: {:?}", check.vector, check.name, check.detail);
    }
    assert_eq!(report.checks.len(), 3 + 8 + 3 + 2);
    assert_eq!(report.checks[0].name, "reproduce");
    assert_eq!(report.checks[3].name, "reject/forbidden-keyid-parameter");
    assert_eq!(report.checks[11].name, "response/reproduce");
    assert_eq!(report.checks[15].name, "response/reject/wrong-req-nonce");
    assert_eq!(report.checks[0].vector, "httpsig/sign-eddsa");
    assert!(report.is_green());
}

#[test]
fn an_httpsig_vector_without_its_wit_key_fails_the_key_checks() {
    let vector = httpsig_vector();
    let mut report = Report::new();
    run_httpsig(&vector, &Err("the carried WIT did not verify".to_owned()), &mut report);
    let names: Vec<&str> = report.checks.iter().map(|c| c.name.as_str()).collect();
    assert_eq!(
        names,
        vec![
            "reproduce",
            "verify",
            "content-digest",
            "recover the proof-of-possession key from the WIT",
            "response/recover the key from the WIT",
        ]
    );
    assert!(report.checks[0].passed && report.checks[2].passed);
    assert_eq!(report.checks[1].detail.as_deref(), Some("the carried WIT did not verify"));
    assert_eq!(report.failed(), 3);
}

#[test]
fn an_httpsig_vector_signed_with_another_key_fails() {
    let vector = httpsig_vector();
    let mut report = Report::new();
    let other = SigningKey::from_ed25519_seed(&[10u8; 32]).verifying_key();
    run_httpsig(&vector, &Ok(other), &mut report);
    assert!(report.checks[0].passed);
    assert_eq!(report.checks[1].detail.as_deref(), Some("the signature did not verify"));
    // The negative cases expecting a rule, not a signature, to refuse them now
    // fail for the wrong reason.
    let rerouted = report.checks.iter().find(|c| c.name == "reject/rerouted-path").unwrap();
    assert!(rerouted.passed);
    let future = report.checks.iter().find(|c| c.name == "reject/created-in-future").unwrap();
    assert_eq!(future.detail.as_deref(), Some("rejected as InvalidSignature, expected CreatedInFuture"));
}

#[test]
fn a_tampered_httpsig_vector_is_caught() {
    let mut vector = httpsig_vector();
    vector.body = r#"{"amount":101}"#.to_owned();
    vector.components.push("\"@status".to_owned());
    let mut report = Report::new();
    run_httpsig(&vector, &Ok(pop_key().verifying_key()), &mut report);
    assert_eq!(report.checks.len(), 1);
    assert_eq!(report.checks[0].name, "parse covered components");
    assert_eq!(report.checks[0].detail.as_deref(), Some("component `\"@status` does not parse"));

    let mut vector = httpsig_vector();
    vector.body = r#"{"amount":101}"#.to_owned();
    vector.response = None;
    let mut report = Report::new();
    run_httpsig(&vector, &Ok(pop_key().verifying_key()), &mut report);
    assert_eq!(report.checks.len(), 3 + 8);
    assert!(!report.checks[2].passed);
    assert_eq!(
        report.checks[2].detail.as_deref(),
        Some("`Content-Digest` does not match the recorded body")
    );
}

fn at(unix: u64) -> time::OffsetDateTime {
    time::OffsetDateTime::from_unix_timestamp(i64::try_from(unix).unwrap()).unwrap()
}

fn mtls_vector() -> MtlsVector {
    let ca_key = KeyPair::generate_for(&PKCS_ED25519).unwrap();
    let mut ca_params = CertificateParams::new(Vec::new()).unwrap();
    ca_params.is_ca = IsCa::Ca(BasicConstraints::Unconstrained);
    ca_params.not_before = at(1_600_000_000);
    ca_params.not_after = at(1_900_000_000);
    let ca = ca_params.self_signed(&ca_key).unwrap();

    let leaf_key = KeyPair::generate_for(&PKCS_ED25519).unwrap();
    let mut params = CertificateParams::new(Vec::new()).unwrap();
    params.subject_alt_names =
        vec![SanType::URI("spiffe://example.org/workload/api".try_into().unwrap())];
    params.not_before = at(IAT);
    params.not_after = at(IAT + 86_400);
    let wic = params.signed_by(&leaf_key, &ca, &ca_key).unwrap();

    let key = PrivateJwk::from_signing_key(&SigningKey::from_ed25519_seed(&[3u8; 32]));
    let neg = |id: &str, expect| MtlsNegative {
        id: id.to_owned(),
        description: String::new(),
        expect,
        wic_der_b64u: None,
        ca_certificate_der_b64u: None,
        verify_now: None,
    };
    MtlsVector {
        header: header("mtls", "wic-basic"),
        ca_signing_key: key,
        ca_not_before: 1_600_000_000,
        ca_not_after: 1_900_000_000,
        workload_signing_key: PrivateJwk::from_signing_key(&pop_key()),
        identifier: "spiffe://example.org/workload/api".to_owned(),
        not_before: IAT,
        not_after: IAT + 86_400,
        ca_certificate_der_b64u: URL_SAFE_NO_PAD.encode(ca.der()),
        wic_der_b64u: URL_SAFE_NO_PAD.encode(wic.der()),
        verify_now: IAT + 100,
        negative: vec![
            MtlsNegative { verify_now: Some(IAT + 86_401), ..neg("expired", ErrorCode::CertificateNotValid) },
            MtlsNegative { verify_now: Some(IAT - 1), ..neg("not-yet-valid", ErrorCode::CertificateNotValid) },
            MtlsNegative {
                wic_der_b64u: Some(URL_SAFE_NO_PAD.encode(ca.der())),
                ..neg("no-uri-san", ErrorCode::MissingIdentifier)
            },
            MtlsNegative {
                wic_der_b64u: Some(URL_SAFE_NO_PAD.encode(b"not a certificate")),
                ..neg("not-a-certificate", ErrorCode::CertificateParseError)
            },
            MtlsNegative {
                ca_certificate_der_b64u: Some("%%%".to_owned()),
                ..neg("ca-not-base64url", ErrorCode::CertificateParseError)
            },
        ],
    }
}

#[test]
fn a_wic_vector_verifies_and_refuses_its_negatives() {
    let vector = mtls_vector();
    let mut report = Report::new();
    run_mtls_verification(&vector, &mut report);
    let names: Vec<&str> = report.checks.iter().map(|c| c.name.as_str()).collect();
    assert_eq!(
        names,
        vec![
            "verify",
            "reject/expired",
            "reject/not-yet-valid",
            "reject/no-uri-san",
            "reject/not-a-certificate",
            "reject/ca-not-base64url",
        ]
    );
    for check in &report.checks[..5] {
        assert!(check.passed, "{}: {:?}", check.name, check.detail);
    }
    assert_eq!(report.checks[5].detail.as_deref(), Some("DER is not base64url"));
    assert_eq!(report.passed(), 5);
}

#[test]
fn a_wic_vector_for_another_identifier_fails() {
    let mut vector = mtls_vector();
    vector.identifier = "spiffe://example.org/other".to_owned();
    vector.negative.clear();
    let mut report = Report::new();
    run_mtls_verification(&vector, &mut report);
    assert_eq!(
        report.checks[0].detail.as_deref(),
        Some("verified as spiffe://example.org/workload/api, expected spiffe://example.org/other")
    );
}

#[test]
fn names_the_suites_it_can_run() {
    assert!(matches!(suite_of("identifier"), Some(Suite::Identifier)));
    assert!(matches!(suite_of("mtls"), Some(Suite::Mtls)));
    assert!(matches!(suite_of("wit"), Some(Suite::Wit)));
    assert!(matches!(suite_of("wpt"), Some(Suite::Wpt)));
    assert!(matches!(suite_of("httpsig"), Some(Suite::Httpsig)));
    assert!(suite_of("WIT").is_none());
    assert!(suite_of("txn").is_none());
}

#[test]
fn accepts_only_the_current_format() {
    assert!(is_current_format(FORMAT));
    assert!(is_current_format("wimse-conformance/v2"));
    assert!(!is_current_format("wimse-conformance/v1"));
    assert!(!is_current_format(""));
}

#[test]
fn finds_the_first_file_the_manifest_does_not_list() {
    let index = manifest();
    let listed: Vec<String> = index.vectors.iter().map(|e| e.path.clone()).collect();
    assert_eq!(unlisted(&index, &listed), None);
    assert_eq!(unlisted(&index, &Vec::new()), None);

    let found = vec![
        "wit/issue-eddsa.json".to_owned(),
        "wit/issue-extra.json".to_owned(),
        "wpt/stray.json".to_owned(),
    ];
    assert_eq!(unlisted(&index, &found).as_deref(), Some("wit/issue-extra.json"));
}

#[test]
fn the_shipped_manifest_runs_every_suite_in_order() {
    let index = manifest();
    let suites: Vec<&str> = index.vectors.iter().map(|e| e.suite.as_str()).collect();
    assert_eq!(suites, ["identifier", "wit", "wit", "wpt", "wpt", "httpsig", "httpsig", "mtls"]);
    assert!(index.vectors.iter().all(|e| suite_of(&e.suite).is_some()));
    assert_eq!(index.vectors[5].path, "httpsig/sign-eddsa.json");
    assert_eq!(index.vectors[5].spec, "draft-ietf-wimse-http-signature-06");
}

#[test]
fn the_shipped_identifier_vector_passes() {
    let vector = identifier_vector();
    assert_eq!(vector.header.format, FORMAT);
    assert_eq!(vector.accept.len(), 6);
    assert_eq!(vector.reject.len(), 16);

    let wimse = &vector.accept[1];
    assert_eq!(wimse.scheme, "wimse");
    assert_eq!(wimse.trust_domain, "trust.example.com");
    assert_eq!(wimse.path, "/service/payment");
    assert_eq!(wimse.origin, "wimse://trust.example.com");
    let bare = &vector.accept[2];
    assert_eq!(bare.path, "");
    assert_eq!(bare.origin, "spiffe://prod.trust.domain");

    let mut report = Report::new();
    run_identifier(&vector, &mut report);
    assert_eq!(report.checks.len(), 22);
    assert!(report.is_green(), "{:?}", report.checks.iter().filter(|c| !c.passed).collect::<Vec<_>>());
    assert_eq!(report.checks[0].vector, "identifier/parse-basic");
    assert_eq!(report.checks[6].name, "reject/unsupported-scheme");
}

fn generation_key(algorithm: Algorithm, seed: [u8; 32]) -> SigningKey {
    match algorithm {
        Algorithm::EdDsa => SigningKey::from_ed25519_seed(&seed),
        Algorithm::Es256 => SigningKey::from_p256_scalar(&seed).unwrap(),
    }
}

#[test]
fn the_generated_httpsig_vector_passes_under_either_algorithm() {
    for (algorithm, id) in [(Algorithm::EdDsa, "sign-eddsa"), (Algorithm::Es256, "sign-es256")] {
        let issuer = generation_key(algorithm, [1u8; 32]);
        let pop = generation_key(algorithm, [9u8; 32]);
        let wit = "eyJ0eXAiOiJ3aXQrand0In0.payload.signature".to_owned();
        let vector = generated_httpsig_vector(&issuer, &pop, wit.clone()).unwrap();
        assert_eq!(vector.header.id, id);
        assert_eq!(vector.wit, wit);
        assert_eq!(vector.negative.len(), 15);
        assert_eq!(vector.negative[3].id, "missing-created");
        assert!(vector.negative[3].signature.is_some());
        assert_eq!(vector.negative[10].id, "authority-rewritten-inside-the-covered-set");
        assert_eq!(vector.response.as_ref().unwrap().negative.len(), 10);
        assert!(vector.signature_input.starts_with("wimse=(\"@method\" \"@request-target\""));

        let mut report = Report::new();
        run_httpsig(&vector, &Ok(pop.verifying_key()), &mut report);
        for check in &report.checks {
            assert!(check.passed, "{} {}: {:?}", check.vector, check.name, check.detail);
        }
        assert_eq!(report.checks.len(), 3 + 15 + 3 + 10);

        // Under another key, every check that needs the signature fails.
        let mut report = Report::new();
        run_httpsig(&vector, &Ok(issuer.verifying_key()), &mut report);
        assert!(!report.is_green());
    }
}

#[test]
fn generating_twice_gives_the_same_httpsig_vector() {
    let issuer = generation_key(Algorithm::EdDsa, [1u8; 32]);
    let pop = generation_key(Algorithm::EdDsa, [9u8; 32]);
    let a = generated_httpsig_vector(&issuer, &pop, "w.i.t".to_owned()).unwrap();
    let b = generated_httpsig_vector(&issuer, &pop, "w.i.t".to_owned()).unwrap();
    assert_eq!(a.signature, b.signature);
    assert_eq!(a.negative[0].signature, b.negative[0].signature);
    assert_eq!(a.response.unwrap().signature, b.response.unwrap().signature);
}

#[test]
fn the_wic_vector_presents_each_negative_case() {
    let ca_key = SigningKey::from_ed25519_seed(&[3u8; 32]);
    let workload_key = SigningKey::from_ed25519_seed(&[9u8; 32]);
    let vector = build_mtls_vector(
        &ca_key,
        1_600_000_000,
        1_900_000_000,
        &workload_key,
        "spiffe://example.org/workload/api",
        1_700_000_000,
        1_700_086_400,
        b"ca certificate",
        b"workload certificate",
        b"other ca certificate",
    );
    assert_eq!(vector.header.spec, MTLS_SPEC);
    assert_eq!(vector.header.id, "wic-basic");
    assert_eq!(vector.verify_now, 1_700_000_100);
    assert_eq!(vector.wic_der_b64u, URL_SAFE_NO_PAD.encode(b"workload certificate"));
    assert_eq!(vector.ca_certificate_der_b64u, URL_SAFE_NO_PAD.encode(b"ca certificate"));
    let ids: Vec<&str> = vector.negative.iter().map(|c| c.id.as_str()).collect();
    assert_eq!(ids, ["wrong-ca", "expired", "not-yet-valid", "no-uri-san", "not-a-certificate"]);
    assert_eq!(vector.negative[0].ca_certificate_der_b64u.as_deref(), Some(URL_SAFE_NO_PAD.encode(b"other ca certificate").as_str()));
    assert_eq!(vector.negative[0].expect, ErrorCode::InvalidSignature);
    assert_eq!(vector.negative[1].verify_now, Some(1_700_086_401));
    assert_eq!(vector.negative[2].verify_now, Some(1_699_999_999));
    assert_eq!(vector.negative[3].wic_der_b64u.as_deref(), Some(URL_SAFE_NO_PAD.encode(b"ca certificate").as_str()));
    assert_eq!(vector.negative[3].expect, ErrorCode::MissingIdentifier);
    assert_eq!(vector.negative[4].wic_der_b64u.as_deref(), Some("bm90IGEgY2VydGlmaWNhdGU"));
    assert_eq!(vector.negative[4].expect, ErrorCode::CertificateParseError);
}
