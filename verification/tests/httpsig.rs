//! HTTP message signatures: component derivation, the signature base, signing,
//! verification and the WIMSE profile.

use base64::engine::general_purpose::STANDARD;
use base64::Engine;
use wimsey::httpsig::{
    ComponentSource, check_request_profile, check_response_profile, content_digest_sha256, sign, signature_base,
    verify, verify_content_digest, Component, HttpExchange, HttpRequest, HttpResponse,
    HttpSigError, SignatureParams, SignedSignature, VerifyConfig, ALG, WIMSE_TAG,
};
use wimsey::jose::SigningKey;

// --- Components -------------------------------------------------------------

#[test]
fn parses_header_identifiers_case_insensitively() {
    // RFC 9421 identifiers are lowercase; a mixed-case one normalizes so it
    // matches a component built with `Component::header`.
    let parsed = Component::from_quoted_id("\"Content-Type\"").unwrap();
    assert_eq!(parsed, Component::header("content-type"));
}

#[test]
fn joins_repeated_headers_and_trims() {
    let request = HttpRequest {
        method: "GET".to_owned(),
        authority: "EXAMPLE.com".to_owned(),
        path: String::new(),
        query: None,
        headers: vec![
            ("Accept".to_owned(), "  text/plain ".to_owned()),
            ("accept".to_owned(), "application/json".to_owned()),
        ],
    };
    assert_eq!(
        request
            .component_value(&Component::header("accept"))
            .unwrap(),
        "text/plain, application/json"
    );
    // `@authority` is lowercased; an empty `@path` becomes `/`.
    assert_eq!(
        request.component_value(&Component::Authority).unwrap(),
        "example.com"
    );
    assert_eq!(request.component_value(&Component::Path).unwrap(), "/");
}

// `@request-target` is origin-form: path plus `?query` only when a query is
// actually present, unlike `@query`, which always emits the `?`.
#[test]
fn derives_the_request_target() {
    let mut request = HttpRequest {
        method: "POST".to_owned(),
        authority: "example.com".to_owned(),
        path: "/foo".to_owned(),
        query: Some("param=Value&Pet=dog".to_owned()),
        headers: vec![],
    };
    assert_eq!(
        request.component_value(&Component::RequestTarget).unwrap(),
        "/foo?param=Value&Pet=dog"
    );

    request.query = None;
    assert_eq!(
        request.component_value(&Component::RequestTarget).unwrap(),
        "/foo"
    );

    request.path = String::new();
    assert_eq!(
        request.component_value(&Component::RequestTarget).unwrap(),
        "/"
    );

    // An empty-but-present query keeps its delimiter.
    request.query = Some(String::new());
    assert_eq!(
        request.component_value(&Component::RequestTarget).unwrap(),
        "/?"
    );
}

#[test]
fn parses_the_request_target_identifier() {
    assert_eq!(
        Component::from_quoted_id("\"@request-target\"").unwrap(),
        Component::RequestTarget
    );
    assert_eq!(Component::RequestTarget.quoted_id(), "\"@request-target\"");
}

#[test]
fn content_digest_round_trips() {
    let body = b"payload";
    assert!(verify_content_digest(&content_digest_sha256(body), body));
}

#[test]
fn header_components_compare_case_insensitively() {
    assert_eq!(
        Component::Header("Content-Type".to_owned()),
        Component::header("content-type")
    );
    assert_ne!(Component::header("a"), Component::header("b"));
}

#[test]
fn quoted_ids_round_trip_through_the_parser() {
    for component in [
        Component::Method,
        Component::Authority,
        Component::Path,
        Component::Query,
        Component::RequestTarget,
        Component::Status,
        Component::header("x-custom"),
        Component::Req(Box::new(Component::Method)),
        Component::Req(Box::new(Component::header("content-digest"))),
    ] {
        let id = component.quoted_id();
        assert_eq!(Component::from_quoted_id(&id).unwrap(), component);
    }
    assert_eq!(
        Component::Req(Box::new(Component::Path)).quoted_id(),
        "\"@path\";req"
    );
}

#[test]
fn rejects_unknown_and_unquoted_identifiers() {
    assert!(matches!(
        Component::from_quoted_id("\"@target-uri\""),
        Err(HttpSigError::UnsupportedComponent(name)) if name == "@target-uri"
    ));
    assert!(matches!(
        Component::from_quoted_id("@method"),
        Err(HttpSigError::Parse(_))
    ));
    assert!(matches!(
        Component::from_quoted_id("\""),
        Err(HttpSigError::Parse(_))
    ));
    // A parameter other than `;req` is not modelled: unsupported, not unparsable.
    assert!(matches!(
        Component::from_quoted_id("\"@method\";sf"),
        Err(HttpSigError::UnsupportedComponent(t)) if t == "\"@method\";sf"
    ));
    assert!(matches!(
        Component::from_quoted_id("\"content-type\";bs;req"),
        Err(HttpSigError::UnsupportedComponent(_))
    ));
    assert!(matches!(Component::from_quoted_id("method"), Err(HttpSigError::Parse(_))));
}

#[test]
fn derives_the_query_and_refuses_request_only_components() {
    let request = HttpRequest {
        method: "GET".to_owned(),
        authority: "example.com".to_owned(),
        path: "/".to_owned(),
        query: None,
        headers: vec![],
    };
    assert_eq!(request.component_value(&Component::Query).unwrap(), "?");
    assert!(matches!(
        request.component_value(&Component::Status),
        Err(HttpSigError::UnsupportedComponent(id)) if id == "\"@status\""
    ));
    assert!(matches!(
        request.component_value(&Component::header("missing")),
        Err(HttpSigError::MissingComponent(name)) if name == "missing"
    ));
}

#[test]
fn derives_response_components_from_the_exchange() {
    let request = rfc_request();
    let response = HttpResponse {
        status: 200,
        headers: vec![("Content-Type".to_owned(), "application/json".to_owned())],
    };
    let exchange = HttpExchange {
        response: &response,
        request: &request,
    };
    assert_eq!(exchange.component_value(&Component::Status).unwrap(), "200");
    assert_eq!(
        exchange
            .component_value(&Component::Req(Box::new(Component::Method)))
            .unwrap(),
        "POST"
    );
    assert_eq!(
        exchange
            .component_value(&Component::header("content-type"))
            .unwrap(),
        "application/json"
    );
    assert!(matches!(
        exchange.component_value(&Component::Method),
        Err(HttpSigError::UnsupportedComponent(_))
    ));
}

#[test]
fn content_digest_has_the_rfc_9530_form() {
    // SHA-256 of the empty string.
    assert_eq!(
        content_digest_sha256(b""),
        "sha-256=:47DEQpj8HBSa+/TImW+5JCeuQeRkm5NMpJWZG3hSuFU=:"
    );
}

// --- Signatures ---------------------------------------------------------------

// The canonical RFC 9421 test request (Section 2.5).
fn rfc_request() -> HttpRequest {
    HttpRequest {
        method: "POST".to_owned(),
        authority: "example.com".to_owned(),
        path: "/foo".to_owned(),
        query: Some("param=Value&Pet=dog".to_owned()),
        headers: vec![
            ("Host".to_owned(), "example.com".to_owned()),
            ("Date".to_owned(), "Tue, 20 Apr 2021 02:07:55 GMT".to_owned()),
            ("Content-Type".to_owned(), "application/json".to_owned()),
            (
                "Content-Digest".to_owned(),
                "sha-512=:WZDPaVn/7XgHaAy8pmojAkGWoRx2UFChF41A2svX+TaPm+AbwAgBWnrIiYllu7BNNyealdVLvRwEmTHWXvJwew==:".to_owned(),
            ),
            ("Content-Length".to_owned(), "18".to_owned()),
        ],
    }
}

fn rfc_components() -> Vec<Component> {
    vec![
        Component::Method,
        Component::Authority,
        Component::Path,
        Component::header("content-digest"),
        Component::header("content-length"),
        Component::header("content-type"),
    ]
}

fn key5() -> SigningKey {
    SigningKey::from_ed25519_seed(&[5u8; 32])
}

// Known-answer test: the signature base must match RFC 9421 Section 2.5
// byte-for-byte.
#[test]
fn signature_base_matches_rfc_9421() {
    let params = SignatureParams {
        created: Some(1_618_884_473),
        keyid: Some("test-key-rsa-pss".to_owned()),
        ..SignatureParams::default()
    };
    let base = signature_base(&rfc_request(), &rfc_components(), &params).unwrap();

    let expected = [
        "\"@method\": POST\n",
        "\"@authority\": example.com\n",
        "\"@path\": /foo\n",
        "\"content-digest\": sha-512=:WZDPaVn/7XgHaAy8pmojAkGWoRx2UFChF41A2svX+TaPm+AbwAgBWnrIiYllu7BNNyealdVLvRwEmTHWXvJwew==:\n",
        "\"content-length\": 18\n",
        "\"content-type\": application/json\n",
        "\"@signature-params\": (\"@method\" \"@authority\" \"@path\" \"content-digest\" \"content-length\" \"content-type\");created=1618884473;keyid=\"test-key-rsa-pss\""
    ]
    .concat();
    assert_eq!(base, expected);
}

fn ed25519_params() -> SignatureParams {
    SignatureParams {
        created: Some(1_700_000_000),
        keyid: Some("issuer-key-1".to_owned()),
        alg: Some(ALG.to_owned()),
        ..SignatureParams::default()
    }
}

#[test]
fn signature_round_trips() {
    let key = key5();
    let request = rfc_request();
    let components = rfc_components();
    let signed = sign(&request, &components, &ed25519_params(), "sig1", &key).unwrap();

    let verified = verify(
        &request,
        &signed.signature_input,
        &signed.signature,
        &key.verifying_key(),
        &VerifyConfig::default(),
    )
    .unwrap();
    assert_eq!(verified.label, "sig1");
    assert_eq!(verified.components, components);
    assert_eq!(verified.params.keyid.as_deref(), Some("issuer-key-1"));
}

#[test]
fn rejects_a_tampered_request() {
    let key = key5();
    let mut request = rfc_request();
    let components = rfc_components();
    let signed = sign(&request, &components, &ed25519_params(), "sig1", &key).unwrap();

    // Change a covered header after signing.
    request
        .headers
        .push(("Content-Length".to_owned(), "19".to_owned()));
    request
        .headers
        .retain(|(n, v)| !(n == "Content-Length" && v == "18"));

    let err = verify(
        &request,
        &signed.signature_input,
        &signed.signature,
        &key.verifying_key(),
        &VerifyConfig::default(),
    );
    assert!(matches!(err, Err(HttpSigError::InvalidSignature)));
}

#[test]
fn signature_rejects_the_wrong_key() {
    let key = key5();
    let other = SigningKey::from_ed25519_seed(&[6u8; 32]);
    let request = rfc_request();
    let signed = sign(&request, &rfc_components(), &ed25519_params(), "sig1", &key).unwrap();

    let err = verify(
        &request,
        &signed.signature_input,
        &signed.signature,
        &other.verifying_key(),
        &VerifyConfig::default(),
    );
    assert!(matches!(err, Err(HttpSigError::InvalidSignature)));
}

#[test]
fn rejects_a_missing_covered_header() {
    let key = key5();
    let request = HttpRequest {
        headers: vec![],
        ..rfc_request()
    };
    let err = sign(&request, &rfc_components(), &ed25519_params(), "sig1", &key);
    assert!(matches!(err, Err(HttpSigError::MissingComponent(_))));
}

#[test]
fn enforces_expiry() {
    let key = key5();
    let request = rfc_request();
    let params = SignatureParams {
        created: Some(1_700_000_000),
        expires: Some(1_700_000_300),
        keyid: Some("k".to_owned()),
        alg: Some(ALG.to_owned()),
        ..SignatureParams::default()
    };
    let signed = sign(&request, &rfc_components(), &params, "sig1", &key).unwrap();

    let config = VerifyConfig {
        now: Some(1_700_000_301),
        ..VerifyConfig::default()
    };
    let err = verify(
        &request,
        &signed.signature_input,
        &signed.signature,
        &key.verifying_key(),
        &config,
    );
    assert!(matches!(err, Err(HttpSigError::Expired)));
}

#[test]
fn rejects_a_label_mismatch() {
    let key = key5();
    let request = rfc_request();
    let signed = sign(&request, &rfc_components(), &ed25519_params(), "sig1", &key).unwrap();

    let config = VerifyConfig {
        label: Some("other".to_owned()),
        ..VerifyConfig::default()
    };
    let err = verify(
        &request,
        &signed.signature_input,
        &signed.signature,
        &key.verifying_key(),
        &config,
    );
    assert!(matches!(err, Err(HttpSigError::LabelMismatch)));
}

#[test]
fn signature_is_deterministic() {
    let key = key5();
    let request = rfc_request();
    let components = rfc_components();
    let a = sign(&request, &components, &ed25519_params(), "sig1", &key).unwrap();
    let b = sign(&request, &components, &ed25519_params(), "sig1", &key).unwrap();
    assert_eq!(a.signature_input, b.signature_input);
    assert_eq!(a.signature, b.signature);
}

#[test]
fn rejects_a_missing_required_component() {
    let key = key5();
    let request = rfc_request();
    // Signature covers method and path only.
    let signed = sign(
        &request,
        &[Component::Method, Component::Path],
        &ed25519_params(),
        "sig1",
        &key,
    )
    .unwrap();

    let config = VerifyConfig {
        required_components: vec![Component::header("content-digest")],
        ..VerifyConfig::default()
    };
    let err = verify(
        &request,
        &signed.signature_input,
        &signed.signature,
        &key.verifying_key(),
        &config,
    );
    assert!(matches!(
        err,
        Err(HttpSigError::MissingRequiredComponent(_))
    ));
}

#[test]
fn rejects_a_non_ed25519_alg() {
    let key = key5();
    let request = rfc_request();
    let params = SignatureParams {
        created: Some(1_700_000_000),
        keyid: Some("k".to_owned()),
        alg: Some("rsa-pss".to_owned()),
        ..SignatureParams::default()
    };
    let signed = sign(&request, &rfc_components(), &params, "sig1", &key).unwrap();

    let err = verify(
        &request,
        &signed.signature_input,
        &signed.signature,
        &key.verifying_key(),
        &VerifyConfig::default(),
    );
    assert!(matches!(err, Err(HttpSigError::UnsupportedAlg { .. })));
}

#[test]
fn rejects_crlf_in_a_covered_header() {
    let key = key5();
    let mut request = rfc_request();
    request
        .headers
        .push(("X-Evil".to_owned(), "ok\n\"@path\": /evil".to_owned()));

    let err = sign(
        &request,
        &[Component::Method, Component::header("x-evil")],
        &ed25519_params(),
        "sig1",
        &key,
    );
    assert!(matches!(err, Err(HttpSigError::InvalidComponentValue(_))));
}

#[test]
fn rejects_an_inverted_time_window() {
    let key = key5();
    let request = rfc_request();
    let params = SignatureParams {
        created: Some(1_700_000_300),
        expires: Some(1_700_000_000),
        keyid: Some("k".to_owned()),
        alg: Some(ALG.to_owned()),
        ..SignatureParams::default()
    };
    let signed = sign(&request, &rfc_components(), &params, "sig1", &key).unwrap();

    let err = verify(
        &request,
        &signed.signature_input,
        &signed.signature,
        &key.verifying_key(),
        &VerifyConfig::default(),
    );
    assert!(matches!(err, Err(HttpSigError::InvalidTimeWindow)));
}

#[test]
fn enforces_max_age() {
    let key = key5();
    let request = rfc_request();
    // created is 1_700_000_000.
    let signed = sign(&request, &rfc_components(), &ed25519_params(), "sig1", &key).unwrap();

    let config = VerifyConfig {
        now: Some(1_700_000_400),
        max_age: Some(60),
        ..VerifyConfig::default()
    };
    let err = verify(
        &request,
        &signed.signature_input,
        &signed.signature,
        &key.verifying_key(),
        &config,
    );
    assert!(matches!(err, Err(HttpSigError::TooOld)));
}

#[test]
fn tolerates_unknown_boolean_parameters() {
    let key = key5();
    let request = rfc_request();
    // A params value carrying a boolean parameter `;ext` (no value).
    let params_value = "(\"@method\" \"@path\");created=1700000000;ext";
    let base = format!(
        "\"@method\": {}\n\"@path\": {}\n\"@signature-params\": {params_value}",
        request.method, request.path,
    );
    let signature = STANDARD.encode(key.sign(base.as_bytes()));
    let signature_input = format!("sig1={params_value}");
    let signature = format!("sig1=:{signature}:");

    let verified = verify(
        &request,
        &signature_input,
        &signature,
        &key.verifying_key(),
        &VerifyConfig::default(),
    )
    .unwrap();
    assert_eq!(verified.params.created, Some(1_700_000_000));
}

#[test]
fn content_digest_helper_binds_the_body() {
    let body = br#"{"amount":100}"#;
    let header = content_digest_sha256(body);
    assert!(verify_content_digest(&header, body));
    assert!(!verify_content_digest(&header, b"tampered"));
}

#[test]
fn round_trips_params_with_quoted_delimiters() {
    // A keyid whose value legitimately contains `;`, `)` and `"` (all valid
    // inside an RFC 8941 string) must survive the round trip.
    let key = key5();
    let request = rfc_request();
    let params = SignatureParams {
        created: Some(1_700_000_000),
        keyid: Some("weird;key)with\"quote".to_owned()),
        alg: Some(ALG.to_owned()),
        ..SignatureParams::default()
    };
    let signed = sign(&request, &rfc_components(), &params, "sig1", &key).unwrap();

    let verified = verify(
        &request,
        &signed.signature_input,
        &signed.signature,
        &key.verifying_key(),
        &VerifyConfig::default(),
    )
    .unwrap();
    assert_eq!(
        verified.params.keyid.as_deref(),
        Some("weird;key)with\"quote")
    );
}

#[test]
fn rejects_crlf_in_signature_params() {
    let key = key5();
    let request = rfc_request();
    // A newline smuggled into the parameters (parses, but must be rejected).
    let signature_input = "sig1=(\"@method\")\n;created=1700000000";
    let signature = format!("sig1=:{}:", STANDARD.encode([0u8; 64]));

    let err = verify(
        &request,
        signature_input,
        &signature,
        &key.verifying_key(),
        &VerifyConfig::default(),
    );
    assert!(matches!(err, Err(HttpSigError::Parse(_))));
}

// --- The WIMSE profile --------------------------------------------------------

/// A parameter set that satisfies every rule of the profile.
fn wimse_params() -> SignatureParams {
    SignatureParams {
        created: Some(1_700_000_000),
        expires: Some(1_700_000_300),
        nonce: Some("abcd1111".to_owned()),
        tag: Some(WIMSE_TAG.to_owned()),
        wimse_aud: Some("https://svcb.example.com/gimme-ice-cream".to_owned()),
        ..SignatureParams::default()
    }
}

fn wimse_config() -> VerifyConfig {
    VerifyConfig {
        wimse_profile: true,
        ..VerifyConfig::default()
    }
}

fn sign_with(params: &SignatureParams) -> (SigningKey, HttpRequest, SignedSignature) {
    let key = key5();
    let request = rfc_request();
    let signed = sign(&request, &rfc_components(), params, "wimse", &key).unwrap();
    (key, request, signed)
}

#[test]
fn accepts_a_profile_conforming_signature() {
    let (key, request, signed) = sign_with(&wimse_params());
    let verified = verify(
        &request,
        &signed.signature_input,
        &signed.signature,
        &key.verifying_key(),
        &wimse_config(),
    )
    .unwrap();
    assert_eq!(verified.params.tag.as_deref(), Some(WIMSE_TAG));
}

// `keyid` and `alg` MUST NOT be used: the key travels in the WIT and the
// algorithm is pinned by that WIT's `cnf` JWK.
#[test]
fn profile_rejects_keyid_and_alg() {
    for (label, params) in [
        (
            "keyid",
            SignatureParams {
                keyid: Some("k".to_owned()),
                ..wimse_params()
            },
        ),
        (
            "alg",
            SignatureParams {
                alg: Some(ALG.to_owned()),
                ..wimse_params()
            },
        ),
    ] {
        let (key, request, signed) = sign_with(&params);
        let err = verify(
            &request,
            &signed.signature_input,
            &signed.signature,
            &key.verifying_key(),
            &wimse_config(),
        );
        assert!(
            matches!(err, Err(HttpSigError::ForbiddenParameter(p)) if p == label),
            "expected `{label}` to be rejected, got {err:?}"
        );
    }
}

#[test]
fn profile_requires_the_mandatory_parameters() {
    let cases: [(&str, SignatureParams); 5] = [
        (
            "created",
            SignatureParams {
                created: None,
                ..wimse_params()
            },
        ),
        (
            "expires",
            SignatureParams {
                expires: None,
                ..wimse_params()
            },
        ),
        (
            "nonce",
            SignatureParams {
                nonce: None,
                ..wimse_params()
            },
        ),
        (
            "tag",
            SignatureParams {
                tag: None,
                ..wimse_params()
            },
        ),
        (
            "wimse-aud",
            SignatureParams {
                wimse_aud: None,
                ..wimse_params()
            },
        ),
    ];
    for (name, params) in cases {
        let err = check_request_profile(&params);
        assert!(
            matches!(err, Err(HttpSigError::MissingParameter(p)) if p == name),
            "expected `{name}` to be required, got {err:?}"
        );
    }
}

#[test]
fn profile_rejects_a_foreign_tag() {
    let params = SignatureParams {
        tag: Some("something-else".to_owned()),
        ..wimse_params()
    };
    let (key, request, signed) = sign_with(&params);
    let err = verify(
        &request,
        &signed.signature_input,
        &signed.signature,
        &key.verifying_key(),
        &wimse_config(),
    );
    assert!(matches!(err, Err(HttpSigError::WrongTag { .. })));
}

// A signature is only bound to this service if its `wimse-aud` is checked;
// one minted for a peer must not verify here.
#[test]
fn rejects_a_signature_minted_for_another_audience() {
    let (key, request, signed) = sign_with(&wimse_params());
    let config = VerifyConfig {
        expected_audience: Some("https://svcc.example.com/other".to_owned()),
        ..wimse_config()
    };
    let err = verify(
        &request,
        &signed.signature_input,
        &signed.signature,
        &key.verifying_key(),
        &config,
    );
    assert!(matches!(err, Err(HttpSigError::AudienceMismatch)));
}

#[test]
fn accepts_the_matching_audience() {
    let (key, request, signed) = sign_with(&wimse_params());
    let config = VerifyConfig {
        expected_audience: Some("https://svcb.example.com/gimme-ice-cream".to_owned()),
        ..wimse_config()
    };
    assert!(verify(
        &request,
        &signed.signature_input,
        &signed.signature,
        &key.verifying_key(),
        &config,
    )
    .is_ok());
}

// RFC 8941: a Boolean `true` parameter is written bare, with no value.
#[test]
fn serializes_sign_response_as_a_bare_boolean() {
    let params = SignatureParams {
        wimse_sign_response: Some(true),
        ..wimse_params()
    };
    let (key, request, signed) = sign_with(&params);
    assert!(signed.signature_input.ends_with(";wimse-sign-response"));

    let verified = verify(
        &request,
        &signed.signature_input,
        &signed.signature,
        &key.verifying_key(),
        &wimse_config(),
    )
    .unwrap();
    assert_eq!(verified.params.wimse_sign_response, Some(true));
}

#[test]
fn round_trips_an_explicit_false_sign_response() {
    let params = SignatureParams {
        wimse_sign_response: Some(false),
        ..wimse_params()
    };
    let (key, request, signed) = sign_with(&params);
    assert!(signed.signature_input.ends_with(";wimse-sign-response=?0"));

    let verified = verify(
        &request,
        &signed.signature_input,
        &signed.signature,
        &key.verifying_key(),
        &wimse_config(),
    )
    .unwrap();
    assert_eq!(verified.params.wimse_sign_response, Some(false));
}

#[test]
fn round_trips_the_response_nonce_binding() {
    let params = SignatureParams {
        wimse_req_nonce: Some("abcd1111".to_owned()),
        ..wimse_params()
    };
    let (key, request, signed) = sign_with(&params);
    let verified = verify(
        &request,
        &signed.signature_input,
        &signed.signature,
        &key.verifying_key(),
        &wimse_config(),
    )
    .unwrap();
    assert_eq!(verified.params.wimse_req_nonce.as_deref(), Some("abcd1111"));
}

// The profile is opt-in: a plain RFC 9421 signature must still verify with
// the default config, which is what the known-answer test above relies on.
#[test]
fn profile_is_off_by_default() {
    let (key, request, signed) = sign_with(&ed25519_params());
    assert!(verify(
        &request,
        &signed.signature_input,
        &signed.signature,
        &key.verifying_key(),
        &VerifyConfig::default(),
    )
    .is_ok());
}

#[test]
fn rejects_max_age_without_now() {
    let key = key5();
    let request = rfc_request();
    let signed = sign(&request, &rfc_components(), &ed25519_params(), "sig1", &key).unwrap();

    // `max_age` set but `now` unset must fail closed, not silently skip.
    let config = VerifyConfig {
        max_age: Some(60),
        ..VerifyConfig::default()
    };
    let err = verify(
        &request,
        &signed.signature_input,
        &signed.signature,
        &key.verifying_key(),
        &config,
    );
    assert!(matches!(err, Err(HttpSigError::TooOld)));
}

// --- Responses, created-in-the-future, ES256 ---------------------------------

#[test]
fn signs_and_verifies_a_response_bound_to_its_request() {
    let key = SigningKey::from_p256_scalar(&[9u8; 32]).unwrap();
    let request = rfc_request();
    let response = HttpResponse {
        status: 200,
        headers: vec![("Content-Type".to_owned(), "application/json".to_owned())],
    };
    let exchange = HttpExchange {
        response: &response,
        request: &request,
    };
    let components = vec![
        Component::Status,
        Component::header("content-type"),
        Component::Req(Box::new(Component::Method)),
        Component::Req(Box::new(Component::RequestTarget)),
    ];
    let params = SignatureParams {
        created: Some(1_700_000_000),
        expires: Some(1_700_000_300),
        nonce: Some("resp-nonce".to_owned()),
        tag: Some(WIMSE_TAG.to_owned()),
        wimse_req_nonce: Some("abcd1111".to_owned()),
        ..SignatureParams::default()
    };
    assert!(check_response_profile(&params).is_ok());
    let signed = sign(&exchange, &components, &params, "wimse", &key).unwrap();
    let config = VerifyConfig {
        now: Some(1_700_000_010),
        wimse_response_profile: true,
        expected_req_nonce: Some("abcd1111".to_owned()),
        required_components: components.clone(),
        ..VerifyConfig::default()
    };
    assert!(verify(
        &exchange,
        &signed.signature_input,
        &signed.signature,
        &key.verifying_key(),
        &config
    )
    .is_ok());

    // The same response, lifted onto a different request, does not verify.
    let rerouted = HttpRequest {
        path: "/admin".to_owned(),
        ..rfc_request()
    };
    let lifted = HttpExchange {
        response: &response,
        request: &rerouted,
    };
    assert!(matches!(
        verify(
            &lifted,
            &signed.signature_input,
            &signed.signature,
            &key.verifying_key(),
            &config
        ),
        Err(HttpSigError::InvalidSignature)
    ));

    // Nor does it answer a request that carried another nonce.
    let other_nonce = VerifyConfig {
        expected_req_nonce: Some("some-other-nonce".to_owned()),
        ..config.clone()
    };
    assert!(matches!(
        verify(
            &exchange,
            &signed.signature_input,
            &signed.signature,
            &key.verifying_key(),
            &other_nonce
        ),
        Err(HttpSigError::RequestNonceMismatch)
    ));
}

#[test]
fn response_profile_forbids_the_audience_and_needs_the_request_nonce() {
    let base = SignatureParams {
        created: Some(1),
        expires: Some(2),
        nonce: Some("n".to_owned()),
        tag: Some(WIMSE_TAG.to_owned()),
        wimse_req_nonce: Some("r".to_owned()),
        ..SignatureParams::default()
    };
    assert!(matches!(
        check_response_profile(&SignatureParams {
            wimse_aud: Some("a".to_owned()),
            ..base.clone()
        }),
        Err(HttpSigError::ForbiddenParameter("wimse-aud"))
    ));
    assert!(matches!(
        check_response_profile(&SignatureParams {
            wimse_req_nonce: None,
            ..base.clone()
        }),
        Err(HttpSigError::MissingParameter("wimse-req-nonce"))
    ));
}

#[test]
fn rejects_a_signature_created_in_the_future() {
    let (key, request, signed) = sign_with(&wimse_params());
    let config = VerifyConfig {
        now: Some(1_699_999_000),
        leeway: 60,
        ..wimse_config()
    };
    assert!(matches!(
        verify(
            &request,
            &signed.signature_input,
            &signed.signature,
            &key.verifying_key(),
            &config
        ),
        Err(HttpSigError::CreatedInFuture)
    ));
}

#[test]
fn rejects_malformed_fields() {
    let key = key5();
    let request = rfc_request();
    let signed = sign(&request, &rfc_components(), &ed25519_params(), "sig1", &key).unwrap();
    let vk = key.verifying_key();
    let config = VerifyConfig::default();
    // No `=` at all.
    assert!(matches!(
        verify(&request, "sig1", &signed.signature, &vk, &config),
        Err(HttpSigError::Parse(_))
    ));
    // A label that differs between the two fields.
    let renamed = signed.signature.replacen("sig1", "sig2", 1);
    assert!(matches!(
        verify(&request, &signed.signature_input, &renamed, &vk, &config),
        Err(HttpSigError::LabelMismatch)
    ));
    // Base64 that decodes to the wrong length.
    assert!(matches!(
        verify(&request, &signed.signature_input, "sig1=:AAAA:", &vk, &config),
        Err(HttpSigError::MalformedSignature)
    ));
    // A bad integer.
    assert!(matches!(
        verify(&request, "sig1=(\"@method\");created=12x", &signed.signature, &vk, &config),
        Err(HttpSigError::Parse(_))
    ));
}

#[test]
fn httpsig_errors_read_as_messages() {
    assert_eq!(HttpSigError::InvalidSignature.message(), "signature verification failed");
    assert_eq!(
        HttpSigError::MissingComponent("content-digest".to_owned()).message(),
        "covered component `content-digest` is not present in the message"
    );
    assert_eq!(
        HttpSigError::ForbiddenParameter("keyid").message(),
        "the WIMSE profile forbids the `keyid` parameter"
    );
    assert_eq!(
        HttpSigError::WrongTag { found: "x".to_owned() }.message(),
        "unexpected tag `x`, expected `wimse-workload-to-workload`"
    );
}

#[test]
fn a_middlebox_may_add_headers_but_not_change_covered_components() {
    let (key, request, signed) = sign_with(&wimse_params());
    let verify_against = |r: &HttpRequest| {
        verify(r, &signed.signature_input, &signed.signature, &key.verifying_key(), &wimse_config())
    };

    // An intermediary annotates the request: nothing it covers changed.
    let mut forwarded = request.clone();
    forwarded.headers.push(("X-Forwarded-By".to_owned(), "middlebox.example".to_owned()));
    assert!(verify_against(&forwarded).is_ok());

    // It reroutes the request: a covered component changed.
    let mut rerouted = request.clone();
    rerouted.path = "/admin".to_owned();
    assert!(matches!(verify_against(&rerouted), Err(HttpSigError::InvalidSignature)));
}

#[test]
fn content_digest_is_fifty_four_characters_and_rejects_other_values() {
    for body in [&b""[..], b"x", br#"{"amount":100}"#] {
        let digest = content_digest_sha256(body);
        assert_eq!(digest.len(), 54);
        assert!(verify_content_digest(&digest, body));
    }
    let body = br#"{"amount":100}"#;
    assert!(!verify_content_digest("sha-256=:invalid:", body));
    assert!(!verify_content_digest(&content_digest_sha256(body), b"tampered"));
}

#[test]
fn quoted_identifiers_round_trip_for_header_names_in_any_case() {
    for c in [
        Component::Header("Content-Type".to_owned()),
        Component::Req(Box::new(Component::Header("X-Custom".to_owned()))),
        Component::Method,
    ] {
        let back = Component::from_quoted_id(&c.quoted_id()).unwrap();
        assert_eq!(back, c);
    }
    assert_eq!(
        Component::from_quoted_id("\"Content-Type\"").unwrap(),
        Component::Header("content-type".to_owned())
    );
}

#[test]
fn parse_errors_carry_their_reason() {
    assert_eq!(
        Component::from_quoted_id("method"),
        Err(HttpSigError::Parse("not a quoted component identifier".to_owned()))
    );
}
