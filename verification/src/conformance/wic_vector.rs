//! Generating the Workload Identity Certificate vector: the certificates are
//! built by the caller (they need a certificate generator); which of them
//! each negative case presents, at what time, and the reason it must be
//! refused for, are decided here.

use vstd::prelude::*;
use vstd::utf8::encode_utf8;

use crate::conformance::{ErrorCode, Header, MtlsNegative, MtlsVector, FORMAT};
use crate::crypto::{b64url_encode, base64url_encoded};
use crate::jose::{opt_view, spec_private_jwk_of, PrivateJwk, SigningKey};
use crate::text::owned;

verus! {

broadcast use vstd::string::group_string_axioms;

/// The draft revision the WIC vector follows.
pub const MTLS_SPEC: &'static str = "draft-ietf-wimse-mutual-tls-02";

/// A negative WIC case, by value: id, description, the reason, the
/// certificate and CA certificate it presents instead (Base64url DER), and
/// the time it verifies at instead.
pub open spec fn mtls_negative_fields(c: MtlsNegative) -> (
    Seq<char>,
    Seq<char>,
    ErrorCode,
    Option<Seq<char>>,
    Option<Seq<char>>,
    Option<u64>,
) {
    (c.id@, c.description@, c.expect, opt_view(c.wic_der_b64u), opt_view(c.ca_certificate_der_b64u), c.verify_now)
}

/// The negative WIC cases: verified against another CA, one second after the
/// certificate's window, one second before it, with the CA certificate
/// (validly signed, but carrying no identifier) as the WIC, and with bytes
/// that are not a certificate.
pub open spec fn mtls_negatives_spec(
    ca_der: Seq<u8>,
    other_ca_der: Seq<u8>,
    not_before: u64,
    not_after: u64,
) -> Seq<(Seq<char>, Seq<char>, ErrorCode, Option<Seq<char>>, Option<Seq<char>>, Option<u64>)> {
    seq![
        ("wrong-ca"@, "verified against a CA that did not sign the certificate"@, ErrorCode::InvalidSignature, None, Some(base64url_encoded(other_ca_der)), None),
        ("expired"@, "verified one second after the certificate's notAfter"@, ErrorCode::CertificateNotValid, None, None, Some((not_after + 1) as u64)),
        ("not-yet-valid"@, "verified one second before the certificate's notBefore"@, ErrorCode::CertificateNotValid, None, None, Some((not_before - 1) as u64)),
        ("no-uri-san"@, "a validly signed certificate that carries no workload identifier"@, ErrorCode::MissingIdentifier, Some(base64url_encoded(ca_der)), None, None),
        ("not-a-certificate"@, "the presented bytes are not DER X.509 at all"@, ErrorCode::CertificateParseError, Some(base64url_encoded(encode_utf8("not a certificate"@))), None, None),
    ]
}

fn negative(
    id: &str,
    description: &str,
    expect: ErrorCode,
    wic: Option<String>,
    ca: Option<String>,
    verify_now: Option<u64>,
) -> (r: MtlsNegative)
    ensures
        mtls_negative_fields(r) == (id@, description@, expect, opt_view(wic), opt_view(ca), verify_now),
{
    MtlsNegative {
        id: owned(id),
        description: owned(description),
        expect,
        wic_der_b64u: wic,
        ca_certificate_der_b64u: ca,
        verify_now,
    }
}

/// The WIC vector: `ca_der` is the CA certificate for `ca_key` valid from
/// `ca_not_before` to `ca_not_after`, `wic_der` the WIC it issued binding
/// `identifier` to `workload_key`'s public half from `not_before` to
/// `not_after`, and `other_ca_der` a second CA's certificate. The positive
/// case verifies 100 seconds into the WIC's window.
pub fn mtls_vector(
    ca_key: &SigningKey,
    ca_not_before: u64,
    ca_not_after: u64,
    workload_key: &SigningKey,
    identifier: &str,
    not_before: u64,
    not_after: u64,
    ca_der: &[u8],
    wic_der: &[u8],
    other_ca_der: &[u8],
) -> (r: MtlsVector)
    requires
        0 < not_before <= u64::MAX - 100,
        not_after < u64::MAX,
    ensures
        r.header.format@ == FORMAT@,
        r.header.suite@ == "mtls"@,
        r.header.id@ == "wic-basic"@,
        r.header.spec@ == MTLS_SPEC@,
        r.header.description@
            == "Workload Identity Certificate issuance over a workload-supplied public key, plus the inputs a verifier must reject"@,
        r.ca_signing_key@ == spec_private_jwk_of(ca_key@),
        r.ca_not_before == ca_not_before,
        r.ca_not_after == ca_not_after,
        r.workload_signing_key@ == spec_private_jwk_of(workload_key@),
        r.identifier@ == identifier@,
        r.not_before == not_before,
        r.not_after == not_after,
        r.ca_certificate_der_b64u@ == base64url_encoded(ca_der@),
        r.wic_der_b64u@ == base64url_encoded(wic_der@),
        r.verify_now == not_before + 100,
        r.negative@.map_values(|c: MtlsNegative| mtls_negative_fields(c))
            == mtls_negatives_spec(ca_der@, other_ca_der@, not_before, not_after),
{
    let not_a_certificate: &str = "not a certificate";
    let cases: Vec<MtlsNegative> = vec![
        negative(
            "wrong-ca",
            "verified against a CA that did not sign the certificate",
            ErrorCode::InvalidSignature,
            None,
            Some(b64url_encode(other_ca_der)),
            None,
        ),
        negative(
            "expired",
            "verified one second after the certificate's notAfter",
            ErrorCode::CertificateNotValid,
            None,
            None,
            Some(not_after + 1),
        ),
        negative(
            "not-yet-valid",
            "verified one second before the certificate's notBefore",
            ErrorCode::CertificateNotValid,
            None,
            None,
            Some(not_before - 1),
        ),
        negative(
            "no-uri-san",
            "a validly signed certificate that carries no workload identifier",
            ErrorCode::MissingIdentifier,
            Some(b64url_encode(ca_der)),
            None,
            None,
        ),
        negative(
            "not-a-certificate",
            "the presented bytes are not DER X.509 at all",
            ErrorCode::CertificateParseError,
            Some(b64url_encode(not_a_certificate.as_bytes())),
            None,
            None,
        ),
    ];
    assert(cases@.map_values(|c: MtlsNegative| mtls_negative_fields(c)) =~= mtls_negatives_spec(
        ca_der@,
        other_ca_der@,
        not_before,
        not_after,
    ));
    MtlsVector {
        header: Header {
            format: owned(FORMAT),
            suite: owned("mtls"),
            id: owned("wic-basic"),
            spec: owned(MTLS_SPEC),
            description: owned(
                "Workload Identity Certificate issuance over a workload-supplied public key, plus the inputs a verifier must reject",
            ),
        },
        ca_signing_key: PrivateJwk::from_signing_key(ca_key),
        ca_not_before,
        ca_not_after,
        workload_signing_key: PrivateJwk::from_signing_key(workload_key),
        identifier: owned(identifier),
        not_before,
        not_after,
        ca_certificate_der_b64u: b64url_encode(ca_der),
        wic_der_b64u: b64url_encode(wic_der),
        verify_now: not_before + 100,
        negative: cases,
    }
}

} // verus!
