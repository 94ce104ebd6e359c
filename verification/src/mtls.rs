//! The WIMSE mutual TLS binding (`draft-ietf-wimse-mutual-tls`): a Workload
//! Identity Certificate (WIC) is an X.509 certificate that carries the
//! workload identifier in a URI subjectAltName, signed by a workload CA.
//!
//! This module holds what the binding decides: the DER forms of ECDSA
//! signatures, Ed25519 PKCS#8 keys and public-key infos, and the checks a peer
//! makes of a presented WIC against its CA. Reading X.509 is `x509-parser`'s
//! work; each reading is named below and tied to the DER it was given.
//!
//! The trust model is a single issuer: [`verify`] checks that the WIC is signed
//! by the directly provided CA, that both are within their validity windows,
//! and that the WIC carries exactly one URI SAN. It builds no chain and does
//! not enforce `basicConstraints`, `keyUsage` or name constraints.

use vstd::prelude::*;

use x509_parser::certificate::X509Certificate;
use x509_parser::extensions::GeneralName;
use x509_parser::prelude::FromDer;
use x509_parser::time::ASN1Time;

use crate::crypto::{ed25519_point_valid, p256_decoded_point};
use crate::identifier::{parse_error_message, spec_parse, ParseError, WorkloadIdentifier};
use crate::jose::{verifies, Algorithm, VerifyingKey, VerifyingKeyView};
use crate::text::{owned, push_str};

verus! {

broadcast use vstd::slice::group_slice_axioms;

// ---------------------------------------------------------------------------
// Errors.
// ---------------------------------------------------------------------------

/// Why a certificate could not be issued or verified, as a value.
pub enum MtlsFailure {
    Generate(Seq<char>),
    Parse,
    UnsupportedAlgorithm,
    InvalidKey,
    InvalidSignature,
    NotValid,
    MissingIdentifier,
    MultipleIdentifiers,
    Identifier(ParseError),
    Time,
}

/// An error returned while issuing or verifying a Workload Identity
/// Certificate.
#[derive(Debug, Clone, PartialEq, Eq)]
pub enum MtlsError {
    /// Certificate generation failed; carries the generator's message.
    Generate(String),
    /// The certificate could not be parsed as DER X.509.
    Parse,
    /// The certificate or key uses an algorithm other than the CA key's.
    UnsupportedAlgorithm,
    /// A key could not be decoded.
    InvalidKey,
    /// The certificate signature did not verify against the CA.
    InvalidSignature,
    /// The certificate is not valid at the given time.
    NotValid,
    /// The certificate carries no URI SAN workload identifier.
    MissingIdentifier,
    /// The certificate carries more than one URI SAN.
    MultipleIdentifiers,
    /// The URI SAN was not a valid workload identifier.
    Identifier(ParseError),
    /// A Unix timestamp could not be represented.
    Time,
}

impl View for MtlsError {
    type V = MtlsFailure;

    open spec fn view(&self) -> MtlsFailure {
        match self {
            MtlsError::Generate(m) => MtlsFailure::Generate(m@),
            MtlsError::Parse => MtlsFailure::Parse,
            MtlsError::UnsupportedAlgorithm => MtlsFailure::UnsupportedAlgorithm,
            MtlsError::InvalidKey => MtlsFailure::InvalidKey,
            MtlsError::InvalidSignature => MtlsFailure::InvalidSignature,
            MtlsError::NotValid => MtlsFailure::NotValid,
            MtlsError::MissingIdentifier => MtlsFailure::MissingIdentifier,
            MtlsError::MultipleIdentifiers => MtlsFailure::MultipleIdentifiers,
            MtlsError::Identifier(e) => MtlsFailure::Identifier(*e),
            MtlsError::Time => MtlsFailure::Time,
        }
    }
}

/// The message a [`MtlsError`] is reported with.
pub open spec fn mtls_message(e: MtlsError) -> Seq<char> {
    match e {
        MtlsError::Generate(s) => "certificate generation failed: "@ + s@,
        MtlsError::Parse => "could not parse the certificate"@,
        MtlsError::UnsupportedAlgorithm => "unexpected signature algorithm, expected Ed25519 or ECDSA P-256"@,
        MtlsError::InvalidKey => "invalid key"@,
        MtlsError::InvalidSignature => "certificate signature verification failed"@,
        MtlsError::NotValid => "certificate is not valid at the given time"@,
        MtlsError::MissingIdentifier => "certificate has no URI SAN workload identifier"@,
        MtlsError::MultipleIdentifiers => "certificate has more than one URI SAN"@,
        MtlsError::Identifier(e) => "invalid workload identifier: "@ + parse_error_message(e),
        MtlsError::Time => "invalid time"@,
    }
}

impl MtlsError {
    /// The message this error is reported with.
    pub fn message(&self) -> (r: String)
        ensures
            r@ == mtls_message(*self),
    {
        match self {
            MtlsError::Generate(s) => {
                let mut m: String = owned("certificate generation failed: ");
                push_str(&mut m, s.as_str());
                m
            },
            MtlsError::Parse => owned("could not parse the certificate"),
            MtlsError::UnsupportedAlgorithm => owned("unexpected signature algorithm, expected Ed25519 or ECDSA P-256"),
            MtlsError::InvalidKey => owned("invalid key"),
            MtlsError::InvalidSignature => owned("certificate signature verification failed"),
            MtlsError::NotValid => owned("certificate is not valid at the given time"),
            MtlsError::MissingIdentifier => owned("certificate has no URI SAN workload identifier"),
            MtlsError::MultipleIdentifiers => owned("certificate has more than one URI SAN"),
            MtlsError::Identifier(e) => {
                let mut m: String = owned("invalid workload identifier: ");
                push_str(&mut m, e.message().as_str());
                m
            },
            MtlsError::Time => owned("invalid time"),
        }
    }
}

// ---------------------------------------------------------------------------
// ECDSA signatures: JOSE's fixed-width `r || s` and X.509's DER SEQUENCE.
// ---------------------------------------------------------------------------

/// Where the minimal form of a big-endian unsigned integer starts: at the first
/// non-zero octet, or at the last octet when all before it are zero.
pub open spec fn lead_len(v: Seq<u8>, i: int) -> int
    decreases v.len() - i,
{
    if i >= v.len() - 1 || v[i] != 0 {
        i
    } else {
        lead_len(v, i + 1)
    }
}

/// The minimal octets of a big-endian unsigned integer (at least one).
pub open spec fn minimal(v: Seq<u8>) -> Seq<u8> {
    v.subrange(lead_len(v, 0), v.len() as int)
}

/// A DER INTEGER holding the unsigned value `v`: the minimal octets, with a
/// zero octet in front when the top bit is set, so the value does not read as
/// negative.
pub open spec fn der_integer(v: Seq<u8>) -> Seq<u8> {
    let m = minimal(v);
    if m[0] < 0x80 {
        seq![0x02u8, m.len() as u8] + m
    } else {
        seq![0x02u8, (m.len() + 1) as u8, 0x00u8] + m
    }
}

/// The DER `SEQUENCE { r INTEGER, s INTEGER }` of a fixed-width signature.
pub open spec fn der_signature(raw: Seq<u8>) -> Seq<u8> {
    let body = der_integer(raw.subrange(0, 32)) + der_integer(raw.subrange(32, 64));
    seq![0x30u8, body.len() as u8] + body
}

/// Reads one DER INTEGER of at most 32 value octets from the front of `input`:
/// its value without a sign octet, and what follows it. A leading zero is
/// accepted only as the encoding of zero itself or in front of a set top bit.
pub open spec fn read_integer(input: Seq<u8>) -> Option<(Seq<u8>, Seq<u8>)> {
    if input.len() < 2 || input[0] != 0x02 {
        None
    } else {
        let len = input[1] as int;
        let rest = input.subrange(2, input.len() as int);
        if rest.len() < len {
            None
        } else {
            let value = rest.subrange(0, len);
            let after = rest.subrange(len, rest.len() as int);
            let stripped = if value.len() == 1 && value[0] == 0 {
                Some(value)
            } else if value.len() >= 2 && value[0] == 0 && value[1] >= 0x80 {
                Some(value.subrange(1, value.len() as int))
            } else if value.len() >= 1 && value[0] == 0 {
                None
            } else {
                Some(value)
            };
            match stripped {
                None => None,
                Some(v) => if v.len() > 32 || v.len() == 0 {
                    None
                } else {
                    Some((v, after))
                },
            }
        }
    }
}

/// A value of at most 32 octets, left-padded with zeros to 32.
pub open spec fn pad32(v: Seq<u8>) -> Seq<u8> {
    Seq::new((32 - v.len()) as nat, |i: int| 0u8) + v
}

/// The fixed-width signature a DER ECDSA signature holds, if it is one.
pub open spec fn signature_from_der(der: Seq<u8>) -> Option<Seq<u8>> {
    if der.len() < 2 || der[0] != 0x30 {
        None
    } else if der.len() - 2 != der[1] as int {
        None
    } else {
        match read_integer(der.subrange(2, der.len() as int)) {
            None => None,
            Some((r, rest)) => match read_integer(rest) {
                None => None,
                Some((s, tail)) => if tail.len() != 0 {
                    None
                } else {
                    Some(pad32(r) + pad32(s))
                },
            },
        }
    }
}

proof fn lemma_lead_len(v: Seq<u8>, i: int)
    requires
        0 <= i <= v.len() - 1,
        forall|j: int| 0 <= j < i ==> v[j] == 0,
    ensures
        i <= lead_len(v, i) <= v.len() - 1,
        lead_len(v, i) == lead_len(v, 0),
        forall|j: int| 0 <= j < lead_len(v, i) ==> v[j] == 0,
        lead_len(v, i) < v.len() - 1 ==> v[lead_len(v, i)] != 0,
    decreases v.len() - i,
{
    if i == 0 {
    } else {
        lemma_lead_len_zero(v, i);
    }
    if i >= v.len() - 1 || v[i] != 0 {
    } else {
        lemma_lead_len(v, i + 1);
    }
}

proof fn lemma_lead_len_zero(v: Seq<u8>, i: int)
    requires
        0 <= i <= v.len() - 1,
        forall|j: int| 0 <= j < i ==> v[j] == 0,
    ensures
        lead_len(v, 0) == lead_len(v, i),
    decreases i,
{
    if i > 0 {
        lemma_lead_len_zero(v, i - 1);
        assert(v[i - 1] == 0);
        assert(i - 1 < v.len() - 1);
    }
}

/// The minimal form of a 32-octet value pads back to it.
proof fn lemma_minimal_pads_back(v: Seq<u8>)
    requires
        v.len() == 32,
    ensures
        1 <= minimal(v).len() <= 32,
        pad32(minimal(v)) == v,
        minimal(v).len() >= 2 ==> minimal(v)[0] != 0,
{
    lemma_lead_len(v, 0);
    let k = lead_len(v, 0);
    let m = minimal(v);
    assert(pad32(m) =~= v) by {
        assert forall|j: int| 0 <= j < 32 implies pad32(m)[j] == v[j] by {
            if j < k {
            } else {
                assert(pad32(m)[j] == m[j - k]);
            }
        }
    }
}

/// Reading back a DER INTEGER written from a 32-octet value yields its minimal
/// form, and leaves what followed untouched.
proof fn lemma_read_der_integer(v: Seq<u8>, tail: Seq<u8>)
    requires
        v.len() == 32,
    ensures
        read_integer(der_integer(v) + tail) == Some((minimal(v), tail)),
        der_integer(v).len() <= 35,
{
    lemma_minimal_pads_back(v);
    let m = minimal(v);
    let input = der_integer(v) + tail;
    if m[0] < 0x80 {
        assert(input[0] == 0x02);
        assert(input[1] == m.len() as u8);
        assert(input.subrange(2, input.len() as int).subrange(0, m.len() as int) =~= m);
        assert(input.subrange(2, input.len() as int).subrange(
            m.len() as int,
            input.len() - 2,
        ) =~= tail);
    } else {
        assert(input[0] == 0x02);
        assert(input[1] == (m.len() + 1) as u8);
        let value = input.subrange(2, input.len() as int).subrange(0, m.len() + 1 as int);
        assert(value =~= seq![0x00u8] + m);
        assert(value.subrange(1, value.len() as int) =~= m);
        assert(input.subrange(2, input.len() as int).subrange(
            m.len() + 1 as int,
            input.len() - 2,
        ) =~= tail);
    }
}

/// Decoding the DER form of a fixed-width ECDSA signature gives back the
/// signature: the two encodings carry the same `r` and `s`.
pub proof fn lemma_signature_der_round_trip(raw: Seq<u8>)
    requires
        raw.len() == 64,
    ensures
        signature_from_der(der_signature(raw)) == Some(raw),
{
    let r = raw.subrange(0, 32);
    let s = raw.subrange(32, 64);
    let body = der_integer(r) + der_integer(s);
    lemma_read_der_integer(r, der_integer(s));
    lemma_read_der_integer(s, Seq::<u8>::empty());
    lemma_minimal_pads_back(r);
    lemma_minimal_pads_back(s);
    let der = der_signature(raw);
    assert(der.subrange(2, der.len() as int) =~= body);
    assert(der_integer(s) + Seq::<u8>::empty() =~= der_integer(s));
    assert(pad32(minimal(r)) + pad32(minimal(s)) =~= raw);
}

/// Appends the DER INTEGER of a 32-octet unsigned value.
fn push_der_integer(out: &mut Vec<u8>, value: &[u8])
    requires
        value@.len() == 32,
    ensures
        final(out)@ == old(out)@ + der_integer(value@),
{
    let mut start: usize = 0;
    while start < 31 && value[start] == 0
        invariant
            value@.len() == 32,
            start <= 31,
            lead_len(value@, start as int) == lead_len(value@, 0),
        decreases 31 - start,
    {
        start = start + 1;
    }
    proof {
        lemma_lead_len(value@, 0);
    }
    let ghost before = out@;
    let len: usize = 32 - start;
    out.push(0x02);
    if value[start] < 0x80 {
        out.push(len as u8);
    } else {
        out.push((len + 1) as u8);
        out.push(0x00);
    }
    let ghost head = out@;
    let mut i: usize = start;
    while i < 32
        invariant
            value@.len() == 32,
            start <= i <= 32,
            out@ == head + value@.subrange(start as int, i as int),
        decreases 32 - i,
    {
        out.push(value[i]);
        i = i + 1;
        assert(out@ =~= head + value@.subrange(start as int, i as int));
    }
    assert(out@ =~= before + der_integer(value@));
}

/// Re-encodes a fixed-width ECDSA signature as the DER X.509 carries.
///
/// JOSE writes `r` and `s` as two fixed-width integers; X.509 writes a
/// SEQUENCE of two DER INTEGERs, which are signed and minimally encoded, and so
/// of varying length.
pub fn ecdsa_signature_to_der(raw: &[u8; 64]) -> (der: Vec<u8>)
    ensures
        der@ == der_signature(raw@),
{
    let mut body: Vec<u8> = Vec::new();
    let r: &[u8] = slice_part(raw.as_slice(), 0, 32);
    let s: &[u8] = slice_part(raw.as_slice(), 32, 64);
    push_der_integer(&mut body, r);
    push_der_integer(&mut body, s);
    proof {
        lemma_read_der_integer(r@, Seq::<u8>::empty());
        lemma_read_der_integer(s@, Seq::<u8>::empty());
        assert(body@ =~= der_integer(raw@.subrange(0, 32)) + der_integer(raw@.subrange(32, 64)));
    }
    // At most 2 + 33 + 2 + 33 = 70 octets, so the length is one octet.
    let mut der: Vec<u8> = Vec::new();
    der.push(0x30);
    der.push(body.len() as u8);
    let ghost head = der@;
    let mut i: usize = 0;
    while i < body.len()
        invariant
            i <= body@.len(),
            der@ == head + body@.subrange(0, i as int),
        decreases body@.len() - i,
    {
        der.push(body[i]);
        i = i + 1;
        assert(der@ =~= head + body@.subrange(0, i as int));
    }
    assert(der@ =~= der_signature(raw@));
    der
}

fn slice_part(s: &[u8], from: usize, to: usize) -> (r: &[u8])
    requires
        from <= to <= s@.len(),
    ensures
        r@ == s@.subrange(from as int, to as int),
{
    vstd::slice::slice_subrange(s, from, to)
}

/// Reads one DER INTEGER of `der` starting at `pos`: where its value (without
/// a sign octet) starts and ends, and where what follows it starts.
fn read_der_integer(der: &[u8], pos: usize) -> (r: Option<(usize, usize, usize)>)
    requires
        pos <= der@.len(),
    ensures
        match r {
            None => read_integer(der@.subrange(pos as int, der@.len() as int)) is None,
            Some((a, b, next)) => a <= b <= next <= der@.len() && read_integer(
                der@.subrange(pos as int, der@.len() as int),
            ) == Some(
                (
                    der@.subrange(a as int, b as int),
                    der@.subrange(next as int, der@.len() as int),
                ),
            ),
        },
{
    let ghost input = der@.subrange(pos as int, der@.len() as int);
    if der.len() - pos < 2 || der[pos] != 0x02 {
        return None;
    }
    let len: usize = der[pos + 1] as usize;
    let start: usize = pos + 2;
    if der.len() - start < len {
        return None;
    }
    let end: usize = start + len;
    proof {
        let rest = input.subrange(2, input.len() as int);
        assert(rest =~= der@.subrange(start as int, der@.len() as int));
        assert(rest.subrange(0, len as int) =~= der@.subrange(start as int, end as int));
        assert(rest.subrange(len as int, rest.len() as int) =~= der@.subrange(
            end as int,
            der@.len() as int,
        ));
    }
    let (a, b): (usize, usize) = if len == 1 && der[start] == 0 {
        (start, end)
    } else if len >= 2 && der[start] == 0 && der[start + 1] >= 0x80 {
        proof {
            let value = der@.subrange(start as int, end as int);
            assert(value.subrange(1, value.len() as int) =~= der@.subrange(
                start + 1,
                end as int,
            ));
        }
        (start + 1, end)
    } else if len >= 1 && der[start] == 0 {
        return None;
    } else {
        (start, end)
    };
    if b - a > 32 || b == a {
        return None;
    }
    Some((a, b, end))
}

/// Recovers the fixed-width form of an ECDSA signature from the DER a
/// certificate carries.
pub fn ecdsa_signature_from_der(der: &[u8]) -> (r: Result<[u8; 64], MtlsError>)
    ensures
        match r {
            Ok(raw) => signature_from_der(der@) == Some(raw@),
            Err(e) => signature_from_der(der@) is None && e@ == MtlsFailure::InvalidSignature,
        },
{
    if der.len() < 2 || der[0] != 0x30 {
        return Err(MtlsError::InvalidSignature);
    }
    if der.len() - 2 != der[1] as usize {
        return Err(MtlsError::InvalidSignature);
    }
    let (ra, rb, next): (usize, usize, usize) = match read_der_integer(der, 2) {
        Some(t) => t,
        None => return Err(MtlsError::InvalidSignature),
    };
    let (sa, sb, end): (usize, usize, usize) = match read_der_integer(der, next) {
        Some(t) => t,
        None => return Err(MtlsError::InvalidSignature),
    };
    if end != der.len() {
        return Err(MtlsError::InvalidSignature);
    }
    let ghost rv = der@.subrange(ra as int, rb as int);
    let ghost sv = der@.subrange(sa as int, sb as int);
    let mut raw: [u8; 64] = [0u8; 64];
    let r_start: usize = 32 - (rb - ra);
    let mut i: usize = 0;
    while i < rb - ra
        invariant
            ra <= rb <= der@.len(),
            rb - ra <= 32,
            r_start == 32 - (rb - ra),
            i <= rb - ra,
            forall|j: int| 0 <= j < r_start ==> raw@[j] == 0,
            forall|j: int| r_start <= j < r_start + i ==> #[trigger] raw@[j] == der@[ra + j - r_start],
            forall|j: int| r_start + i <= j < 64 ==> raw@[j] == 0,
        decreases rb - ra - i,
    {
        raw[r_start + i] = der[ra + i];
        i = i + 1;
    }
    let s_start: usize = 64 - (sb - sa);
    let mut k: usize = 0;
    while k < sb - sa
        invariant
            sa <= sb <= der@.len(),
            sb - sa <= 32,
            s_start == 64 - (sb - sa),
            ra <= rb <= der@.len(),
            rb - ra <= 32,
            r_start == 32 - (rb - ra),
            k <= sb - sa,
            forall|j: int| 0 <= j < r_start ==> raw@[j] == 0,
            forall|j: int| r_start <= j < 32 ==> #[trigger] raw@[j] == der@[ra + j - r_start],
            forall|j: int| 32 <= j < s_start ==> raw@[j] == 0,
            forall|j: int| s_start <= j < s_start + k ==> #[trigger] raw@[j] == der@[sa + j - s_start],
            forall|j: int| s_start + k <= j < 64 ==> raw@[j] == 0,
        decreases sb - sa - k,
    {
        raw[s_start + k] = der[sa + k];
        k = k + 1;
    }
    proof {
        assert(der@.subrange(end as int, der@.len() as int).len() == 0);
        assert(raw@ =~= pad32(rv) + pad32(sv)) by {
            assert forall|j: int| 0 <= j < 64 implies raw@[j] == (pad32(rv) + pad32(sv))[j] by {
                if j < 32 {
                } else {
                }
            }
        }
    }
    Ok(raw)
}

// ---------------------------------------------------------------------------
// Keys in DER: Ed25519 PKCS#8 and SubjectPublicKeyInfo.
// ---------------------------------------------------------------------------

/// What follows the version INTEGER in an Ed25519 PKCS#8 key, in either
/// version: the `id-Ed25519` AlgorithmIdentifier (1.3.101.112) and an OCTET
/// STRING wrapping a 32-byte OCTET STRING.
pub open spec fn pkcs8_ed25519_inner() -> Seq<u8> {
    seq![0x30u8, 0x05, 0x06, 0x03, 0x2b, 0x65, 0x70, 0x04, 0x22, 0x04, 0x20]
}

/// The seed of a PKCS#8 Ed25519 private key. v1 (RFC 5208) and v2 (RFC 5958)
/// differ in the version INTEGER and in whether the public key is appended,
/// but both put the same header at the same offset with the seed after it.
pub open spec fn pkcs8_seed(der: Seq<u8>) -> Result<Seq<u8>, MtlsFailure> {
    if der.len() < 5 || der[0] != 0x30 || der[2] != 0x02 || der[3] != 0x01 || (der[4] != 0x00
        && der[4] != 0x01) {
        Err(MtlsFailure::InvalidKey)
    } else if der.len() < 16 || der.subrange(5, 16) != pkcs8_ed25519_inner() {
        Err(MtlsFailure::UnsupportedAlgorithm)
    } else if der.len() < 48 {
        Err(MtlsFailure::InvalidKey)
    } else {
        Ok(der.subrange(16, 48))
    }
}

fn pkcs8_ed25519_inner_octets() -> (r: [u8; 11])
    ensures
        r@ == pkcs8_ed25519_inner(),
{
    let r: [u8; 11] = [0x30, 0x05, 0x06, 0x03, 0x2b, 0x65, 0x70, 0x04, 0x22, 0x04, 0x20];
    assert(r@ =~= pkcs8_ed25519_inner());
    r
}

/// Whether `der` holds `expected` at `at`.
fn holds_at(der: &[u8], at: usize, expected: &[u8]) -> (r: bool)
    requires
        at + expected@.len() <= der@.len(),
    ensures
        r == (der@.subrange(at as int, at + expected@.len()) == expected@),
{
    let n: usize = der.len();
    let mut i: usize = 0;
    while i < expected.len()
        invariant
            at + expected@.len() <= der@.len(),
            n == der@.len(),
            i <= expected@.len(),
            forall|j: int| 0 <= j < i ==> der@[at + j] == expected@[j],
        decreases expected@.len() - i,
    {
        if der[at + i] != expected[i] {
            assert(der@.subrange(at as int, at + expected@.len())[i as int] != expected@[i as int]);
            return false;
        }
        i = i + 1;
    }
    assert(der@.subrange(at as int, at + expected@.len()) =~= expected@);
    true
}

/// Reads the seed out of a PKCS#8 Ed25519 private key.
pub fn ed25519_seed_from_pkcs8(der: &[u8]) -> (r: Result<[u8; 32], MtlsError>)
    ensures
        match r {
            Ok(seed) => pkcs8_seed(der@) == Ok::<Seq<u8>, MtlsFailure>(seed@),
            Err(e) => pkcs8_seed(der@) == Err::<Seq<u8>, MtlsFailure>(e@),
        },
{
    if der.len() < 5 || der[0] != 0x30 || der[2] != 0x02 || der[3] != 0x01 || (der[4] != 0x00
        && der[4] != 0x01) {
        return Err(MtlsError::InvalidKey);
    }
    let inner: [u8; 11] = pkcs8_ed25519_inner_octets();
    if der.len() < 16 || !holds_at(der, 5, inner.as_slice()) {
        return Err(MtlsError::UnsupportedAlgorithm);
    }
    if der.len() < 48 {
        return Err(MtlsError::InvalidKey);
    }
    let mut seed: [u8; 32] = [0u8; 32];
    let mut i: usize = 0;
    while i < 32
        invariant
            der@.len() >= 48,
            i <= 32,
            forall|j: int| 0 <= j < i ==> seed@[j] == der@[16 + j],
        decreases 32 - i,
    {
        seed[i] = der[16 + i];
        i = i + 1;
    }
    assert(seed@ =~= der@.subrange(16, 48));
    Ok(seed)
}

/// The DER prefix of a `SubjectPublicKeyInfo`: for Ed25519 (RFC 8410) a
/// SEQUENCE wrapping `id-Ed25519` and a 33-byte BIT STRING; for P-256
/// (RFC 5480) one wrapping `id-ecPublicKey` with the named curve `prime256v1`
/// and a 66-byte BIT STRING. The raw public key follows it.
pub open spec fn spki_prefix(alg: Algorithm) -> Seq<u8> {
    match alg {
        Algorithm::EdDsa => seq![0x30u8, 0x2a, 0x30, 0x05, 0x06, 0x03, 0x2b, 0x65, 0x70, 0x03, 0x21, 0x00],
        Algorithm::Es256 => seq![
            0x30u8, 0x59, 0x30, 0x13, 0x06, 0x07, 0x2a, 0x86, 0x48, 0xce, 0x3d, 0x02, 0x01,
            0x06, 0x08, 0x2a, 0x86, 0x48, 0xce, 0x3d, 0x03, 0x01, 0x07, 0x03, 0x42, 0x00,
        ],
    }
}

fn push_slice(out: &mut Vec<u8>, bytes: &[u8])
    ensures
        final(out)@ == old(out)@ + bytes@,
{
    let ghost before = out@;
    let mut i: usize = 0;
    while i < bytes.len()
        invariant
            i <= bytes@.len(),
            out@ == before + bytes@.subrange(0, i as int),
        decreases bytes@.len() - i,
    {
        out.push(bytes[i]);
        i = i + 1;
        assert(out@ =~= before + bytes@.subrange(0, i as int));
    }
    assert(bytes@.subrange(0, bytes@.len() as int) =~= bytes@);
}

/// The DER `SubjectPublicKeyInfo` of a public key, the form a certificate
/// binds.
pub fn subject_public_key_info(key: &VerifyingKey) -> (der: Vec<u8>)
    ensures
        der@ == spki_prefix(key@.alg) + key@.public,
{
    let mut der: Vec<u8> = Vec::new();
    match key.algorithm() {
        Algorithm::EdDsa => {
            let p: [u8; 12] = [0x30, 0x2a, 0x30, 0x05, 0x06, 0x03, 0x2b, 0x65, 0x70, 0x03, 0x21, 0x00];
            assert(p@ =~= spki_prefix(Algorithm::EdDsa));
            push_slice(&mut der, p.as_slice());
        },
        Algorithm::Es256 => {
            let p: [u8; 26] = [
                0x30, 0x59, 0x30, 0x13, 0x06, 0x07, 0x2a, 0x86, 0x48, 0xce, 0x3d, 0x02, 0x01,
                0x06, 0x08, 0x2a, 0x86, 0x48, 0xce, 0x3d, 0x03, 0x01, 0x07, 0x03, 0x42, 0x00,
            ];
            assert(p@ =~= spki_prefix(Algorithm::Es256));
            push_slice(&mut der, p.as_slice());
        },
    }
    let raw: Vec<u8> = key.to_raw_bytes();
    push_slice(&mut der, raw.as_slice());
    der
}

// ---------------------------------------------------------------------------
// What a certificate says, as plain values.
// ---------------------------------------------------------------------------

/// A certificate's `subjectPublicKeyInfo`.
pub struct PublicKeyField {
    /// The content octets of the key's algorithm OID.
    pub algorithm: Vec<u8>,
    /// The algorithm parameters read as an OID (the named curve of an EC key),
    /// when they are one.
    pub curve: Option<Vec<u8>>,
    /// The unused bits of the key's BIT STRING.
    pub unused_bits: u8,
    /// The octets of the key's BIT STRING.
    pub key: Vec<u8>,
}

pub struct PublicKeyFieldView {
    pub algorithm: Seq<u8>,
    pub curve: Option<Seq<u8>>,
    pub unused_bits: u8,
    pub key: Seq<u8>,
}

pub open spec fn bytes_opt_view(o: Option<Vec<u8>>) -> Option<Seq<u8>> {
    match o {
        Some(v) => Some(v@),
        None => None,
    }
}

impl View for PublicKeyField {
    type V = PublicKeyFieldView;

    open spec fn view(&self) -> PublicKeyFieldView {
        PublicKeyFieldView {
            algorithm: self.algorithm@,
            curve: bytes_opt_view(self.curve),
            unused_bits: self.unused_bits,
            key: self.key@,
        }
    }
}

/// A certificate's signature and what it signs.
pub struct SignatureField {
    /// The content octets of the outer `signatureAlgorithm` OID.
    pub algorithm: Vec<u8>,
    /// The content octets of the `tbsCertificate.signature` OID.
    pub tbs_algorithm: Vec<u8>,
    /// The unused bits of the signature's BIT STRING.
    pub unused_bits: u8,
    /// The octets of the signature's BIT STRING.
    pub value: Vec<u8>,
    /// The DER `tbsCertificate` the signature is over.
    pub tbs: Vec<u8>,
}

pub struct SignatureFieldView {
    pub algorithm: Seq<u8>,
    pub tbs_algorithm: Seq<u8>,
    pub unused_bits: u8,
    pub value: Seq<u8>,
    pub tbs: Seq<u8>,
}

impl View for SignatureField {
    type V = SignatureFieldView;

    open spec fn view(&self) -> SignatureFieldView {
        SignatureFieldView {
            algorithm: self.algorithm@,
            tbs_algorithm: self.tbs_algorithm@,
            unused_bits: self.unused_bits,
            value: self.value@,
            tbs: self.tbs@,
        }
    }
}

/// One subjectAltName entry: a URI, or a name of another type.
pub enum AltName {
    Uri(String),
    Other,
}

pub enum AltNameView {
    Uri(Seq<char>),
    Other,
}

impl View for AltName {
    type V = AltNameView;

    open spec fn view(&self) -> AltNameView {
        match self {
            AltName::Uri(u) => AltNameView::Uri(u@),
            AltName::Other => AltNameView::Other,
        }
    }
}

/// A certificate's subjectAltName extension.
pub enum AltNames {
    /// The extension is duplicated or does not parse.
    Unreadable,
    /// The certificate has no such extension.
    Absent,
    /// The extension's names, in order.
    Present(Vec<AltName>),
}

pub enum AltNamesView {
    Unreadable,
    Absent,
    Present(Seq<AltNameView>),
}

impl View for AltNames {
    type V = AltNamesView;

    open spec fn view(&self) -> AltNamesView {
        match self {
            AltNames::Unreadable => AltNamesView::Unreadable,
            AltNames::Absent => AltNamesView::Absent,
            AltNames::Present(v) => AltNamesView::Present(v@.map_values(|n: AltName| n@)),
        }
    }
}

/// What a WIC check reads of a certificate.
pub struct Certificate {
    pub public_key: PublicKeyField,
    pub signature: SignatureField,
    /// The start of the validity window, in Unix nanoseconds.
    pub not_before: i128,
    /// The end of the validity window, in Unix nanoseconds.
    pub not_after: i128,
    pub alt_names: AltNames,
}

pub struct CertificateView {
    pub public_key: PublicKeyFieldView,
    pub signature: SignatureFieldView,
    pub not_before: int,
    pub not_after: int,
    pub alt_names: AltNamesView,
}

impl View for Certificate {
    type V = CertificateView;

    open spec fn view(&self) -> CertificateView {
        CertificateView {
            public_key: self.public_key@,
            signature: self.signature@,
            not_before: self.not_before as int,
            not_after: self.not_after as int,
            alt_names: self.alt_names@,
        }
    }
}

// ---------------------------------------------------------------------------
// Reading X.509 (`x509-parser`).
// ---------------------------------------------------------------------------

/// How many bytes follow the certificate `X509Certificate::from_der` reads
/// from the front of `der`; `None` when it reads none.
pub uninterp spec fn x509_trailing(der: Seq<u8>) -> Option<usize>;

/// The `subjectPublicKeyInfo` of the certificate read from `der`.
pub uninterp spec fn x509_public_key(der: Seq<u8>) -> Option<PublicKeyFieldView>;

/// The signature fields of the certificate read from `der`.
pub uninterp spec fn x509_signature(der: Seq<u8>) -> Option<SignatureFieldView>;

/// The validity window of the certificate read from `der`, as the Unix
/// nanoseconds of its two ends (by which `ASN1Time` is ordered).
pub uninterp spec fn x509_validity(der: Seq<u8>) -> Option<(int, int)>;

/// The subjectAltName extension of the certificate read from `der`.
pub uninterp spec fn x509_alt_names(der: Seq<u8>) -> Option<AltNamesView>;

/// `X509Certificate::from_der`: the length of what follows the certificate.
#[verifier::external_body]
fn read_trailing(der: &[u8]) -> (r: Option<usize>)
    ensures
        r == x509_trailing(der@),
{
    match X509Certificate::from_der(der) {
        Ok((rest, _)) => Some(rest.len()),
        Err(_) => None,
    }
}

/// `X509Certificate::public_key` of the certificate `from_der` reads.
#[verifier::external_body]
fn read_public_key(der: &[u8]) -> (r: Option<PublicKeyField>)
    ensures
        match r {
            Some(k) => x509_public_key(der@) == Some(k@),
            None => x509_public_key(der@) is None,
        },
{
    let (_, c) = X509Certificate::from_der(der).ok()?;
    let k = c.public_key();
    Some(PublicKeyField {
        algorithm: k.algorithm.algorithm.as_bytes().to_vec(),
        curve: match &k.algorithm.parameters {
            Some(p) => p.as_oid().ok().map(|o| o.as_bytes().to_vec()),
            None => None,
        },
        unused_bits: k.subject_public_key.unused_bits,
        key: k.subject_public_key.data.to_vec(),
    })
}

/// The `signature_algorithm`, `tbs_certificate.signature`, `signature_value`
/// and raw `tbs_certificate` of the certificate `from_der` reads.
#[verifier::external_body]
fn read_signature(der: &[u8]) -> (r: Option<SignatureField>)
    ensures
        match r {
            Some(f) => x509_signature(der@) == Some(f@),
            None => x509_signature(der@) is None,
        },
{
    let (_, c) = X509Certificate::from_der(der).ok()?;
    Some(SignatureField {
        algorithm: c.signature_algorithm.algorithm.as_bytes().to_vec(),
        tbs_algorithm: c.tbs_certificate.signature.algorithm.as_bytes().to_vec(),
        unused_bits: c.signature_value.unused_bits,
        value: c.signature_value.data.to_vec(),
        tbs: c.tbs_certificate.as_ref().to_vec(),
    })
}

/// `X509Certificate::validity` of the certificate `from_der` reads.
#[verifier::external_body]
fn read_validity(der: &[u8]) -> (r: Option<(i128, i128)>)
    ensures
        match r {
            Some((a, b)) => x509_validity(der@) == Some((a as int, b as int)),
            None => x509_validity(der@) is None,
        },
{
    let (_, c) = X509Certificate::from_der(der).ok()?;
    let v = c.validity();
    Some((v.not_before.to_datetime().unix_timestamp_nanos(), v.not_after.to_datetime().unix_timestamp_nanos()))
}

/// `X509Certificate::subject_alternative_name` of the certificate `from_der`
/// reads, each name kept in order as a URI or as another type.
#[verifier::external_body]
fn read_alt_names(der: &[u8]) -> (r: Option<AltNames>)
    ensures
        match r {
            Some(a) => x509_alt_names(der@) == Some(a@),
            None => x509_alt_names(der@) is None,
        },
{
    let (_, c) = X509Certificate::from_der(der).ok()?;
    Some(match c.subject_alternative_name() {
        Err(_) => AltNames::Unreadable,
        Ok(None) => AltNames::Absent,
        Ok(Some(ext)) => AltNames::Present(ext.value.general_names.iter().map(|n| match n {
            GeneralName::URI(u) => AltName::Uri(u.to_string()),
            _ => AltName::Other,
        }).collect()),
    })
}

/// The instant `ASN1Time::from_timestamp` makes of a Unix time in seconds, in
/// Unix nanoseconds; `None` when it refuses the time.
pub uninterp spec fn asn1_time_nanos(secs: i64) -> Option<int>;

/// `ASN1Time::from_timestamp`, as Unix nanoseconds. When it succeeds, the
/// instant is the given second exactly; it succeeds at least on every time up
/// to the end of year 9999, the range of `time` without its `large-dates`
/// feature. Which wider range it accepts depends on the features `time` was
/// built with, and is left unsaid.
#[verifier::external_body]
fn asn1_time(secs: i64) -> (r: Option<i128>)
    ensures
        match r {
            Some(n) => asn1_time_nanos(secs) == Some(n as int),
            None => asn1_time_nanos(secs) is None,
        },
        r matches Some(n) ==> n == secs * 1_000_000_000,
        0 <= secs <= 253402300799 ==> r is Some,
{
    match ASN1Time::from_timestamp(secs) {
        Ok(t) => Some(t.to_datetime().unix_timestamp_nanos()),
        Err(_) => None,
    }
}

/// The certificate `der` holds, when `x509-parser` reads one that fills it.
pub open spec fn certificate_of(der: Seq<u8>) -> Option<CertificateView> {
    match (
        x509_trailing(der),
        x509_public_key(der),
        x509_signature(der),
        x509_validity(der),
        x509_alt_names(der),
    ) {
        (Some(t), Some(k), Some(s), Some(v), Some(a)) => if t == 0 {
            Some(
                CertificateView {
                    public_key: k,
                    signature: s,
                    not_before: v.0,
                    not_after: v.1,
                    alt_names: a,
                },
            )
        } else {
            None
        },
        _ => None,
    }
}

/// Reads the fields a WIC check needs from a DER certificate.
pub fn read_certificate(der: &[u8]) -> (r: Result<Certificate, MtlsError>)
    ensures
        match r {
            Ok(c) => certificate_of(der@) == Some(c@),
            Err(e) => certificate_of(der@) is None && e@ == MtlsFailure::Parse,
        },
{
    let trailing = read_trailing(der);
    let public_key = read_public_key(der);
    let signature = read_signature(der);
    let validity = read_validity(der);
    let alt_names = read_alt_names(der);
    match (trailing, public_key, signature, validity, alt_names) {
        (Some(t), Some(public_key), Some(signature), Some((not_before, not_after)), Some(alt_names)) => {
            if t != 0 {
                return Err(MtlsError::Parse);
            }
            Ok(Certificate { public_key, signature, not_before, not_after, alt_names })
        },
        _ => Err(MtlsError::Parse),
    }
}

// ---------------------------------------------------------------------------
// Verifying a WIC.
// ---------------------------------------------------------------------------

/// `id-Ed25519`, 1.3.101.112: the key and the signature algorithm.
pub open spec fn oid_ed25519() -> Seq<u8> {
    seq![0x2bu8, 0x65, 0x70]
}

/// `id-ecPublicKey`, 1.2.840.10045.2.1.
pub open spec fn oid_ec_public_key() -> Seq<u8> {
    seq![0x2au8, 0x86, 0x48, 0xce, 0x3d, 0x02, 0x01]
}

/// `ecdsa-with-SHA256`, 1.2.840.10045.4.3.2.
pub open spec fn oid_ecdsa_sha256() -> Seq<u8> {
    seq![0x2au8, 0x86, 0x48, 0xce, 0x3d, 0x04, 0x03, 0x02]
}

/// `prime256v1`, 1.2.840.10045.3.1.7, the only curve `ES256` names.
pub open spec fn oid_p256() -> Seq<u8> {
    seq![0x2au8, 0x86, 0x48, 0xce, 0x3d, 0x03, 0x01, 0x07]
}

/// The verifying key raw public-key bytes make for an algorithm, if they are
/// one.
pub open spec fn raw_key(alg: Algorithm, bytes: Seq<u8>) -> Option<VerifyingKeyView> {
    match alg {
        Algorithm::EdDsa => if bytes.len() == 32 && ed25519_point_valid(bytes) {
            Some(VerifyingKeyView { alg, public: bytes })
        } else {
            None
        },
        Algorithm::Es256 => match p256_decoded_point(bytes) {
            Some(p) => Some(VerifyingKeyView { alg, public: p }),
            None => None,
        },
    }
}

/// The URIs among subjectAltNames, in order.
pub open spec fn uri_names(names: Seq<AltNameView>) -> Seq<Seq<char>>
    decreases names.len(),
{
    if names.len() == 0 {
        Seq::empty()
    } else {
        let init = uri_names(names.drop_last());
        match names.last() {
            AltNameView::Uri(u) => init.push(u),
            AltNameView::Other => init,
        }
    }
}

/// The workload identifier a certificate's subjectAltName carries: exactly
/// one URI SAN, which must be a valid identifier. Names of other types are
/// permitted and ignored, as SPIFFE X.509-SVIDs allow.
pub open spec fn san_identifier(alt: AltNamesView) -> Result<Seq<char>, MtlsFailure> {
    match alt {
        AltNamesView::Unreadable => Err(MtlsFailure::Parse),
        AltNamesView::Absent => Err(MtlsFailure::MissingIdentifier),
        AltNamesView::Present(names) => {
            let uris = uri_names(names);
            if uris.len() == 0 {
                Err(MtlsFailure::MissingIdentifier)
            } else if uris.len() > 1 {
                Err(MtlsFailure::MultipleIdentifiers)
            } else {
                match spec_parse(uris[0]) {
                    Ok(_) => Ok(uris[0]),
                    Err(e) => Err(MtlsFailure::Identifier(e)),
                }
            }
        },
    }
}

/// Whether an instant (Unix nanoseconds) lies in a certificate's window.
pub open spec fn valid_at(c: CertificateView, t: int) -> bool {
    c.not_before <= t <= c.not_after
}

/// The identifier a WIC proves against its CA at instant `at`, or why it
/// proves none. `at` is `None` when the time could not be represented.
///
/// The CA's key decides the algorithm: both signature algorithm fields of the
/// WIC must name the one that key produces, so a certificate cannot name one
/// algorithm and be checked under another.
pub open spec fn wic_identifier(leaf: CertificateView, ca: CertificateView, at: Option<int>) -> Result<
    Seq<char>,
    MtlsFailure,
> {
    let key = ca.public_key;
    let alg = if key.algorithm == oid_ed25519() {
        Some(Algorithm::EdDsa)
    } else if key.algorithm == oid_ec_public_key() {
        Some(Algorithm::Es256)
    } else {
        None
    };
    match alg {
        None => Err(MtlsFailure::UnsupportedAlgorithm),
        Some(alg) => {
            let expected = if alg == Algorithm::Es256 {
                oid_ecdsa_sha256()
            } else {
                oid_ed25519()
            };
            if leaf.signature.algorithm != expected || leaf.signature.tbs_algorithm != expected {
                Err(MtlsFailure::UnsupportedAlgorithm)
            } else if alg == Algorithm::Es256 && key.curve != Some(oid_p256()) {
                Err(MtlsFailure::UnsupportedAlgorithm)
            } else if key.unused_bits != 0 {
                Err(MtlsFailure::InvalidKey)
            } else {
                match raw_key(alg, key.key) {
                    None => Err(MtlsFailure::InvalidKey),
                    Some(ca_key) => if leaf.signature.unused_bits != 0 {
                        Err(MtlsFailure::InvalidSignature)
                    } else {
                        let sig = if alg == Algorithm::Es256 {
                            signature_from_der(leaf.signature.value)
                        } else {
                            Some(leaf.signature.value)
                        };
                        match sig {
                            None => Err(MtlsFailure::InvalidSignature),
                            Some(sig) => if !verifies(ca_key, leaf.signature.tbs, sig) {
                                Err(MtlsFailure::InvalidSignature)
                            } else {
                                match at {
                                    None => Err(MtlsFailure::Time),
                                    Some(t) => if !(valid_at(ca, t) && valid_at(leaf, t)) {
                                        Err(MtlsFailure::NotValid)
                                    } else {
                                        san_identifier(leaf.alt_names)
                                    },
                                }
                            },
                        }
                    },
                }
            }
        },
    }
}

/// An identifier result, by value: the accepted URI, or why.
pub open spec fn outcome(r: Result<WorkloadIdentifier, MtlsError>) -> Result<Seq<char>, MtlsFailure> {
    match r {
        Ok(id) => Ok(id@.uri),
        Err(e) => Err(e@),
    }
}

fn bytes_eq(a: &[u8], b: &[u8]) -> (r: bool)
    ensures
        r == (a@ == b@),
{
    if a.len() != b.len() {
        return false;
    }
    assert(a@.subrange(0, b@.len() as int) =~= a@);
    holds_at(a, 0, b)
}

fn oid_ed25519_octets() -> (r: [u8; 3])
    ensures
        r@ == oid_ed25519(),
{
    let r: [u8; 3] = [0x2b, 0x65, 0x70];
    assert(r@ =~= oid_ed25519());
    r
}

fn oid_ec_public_key_octets() -> (r: [u8; 7])
    ensures
        r@ == oid_ec_public_key(),
{
    let r: [u8; 7] = [0x2a, 0x86, 0x48, 0xce, 0x3d, 0x02, 0x01];
    assert(r@ =~= oid_ec_public_key());
    r
}

fn oid_ecdsa_sha256_octets() -> (r: [u8; 8])
    ensures
        r@ == oid_ecdsa_sha256(),
{
    let r: [u8; 8] = [0x2a, 0x86, 0x48, 0xce, 0x3d, 0x04, 0x03, 0x02];
    assert(r@ =~= oid_ecdsa_sha256());
    r
}

fn oid_p256_octets() -> (r: [u8; 8])
    ensures
        r@ == oid_p256(),
{
    let r: [u8; 8] = [0x2a, 0x86, 0x48, 0xce, 0x3d, 0x03, 0x01, 0x07];
    assert(r@ =~= oid_p256());
    r
}

proof fn lemma_uri_names_step(names: Seq<AltNameView>, i: int)
    requires
        0 <= i < names.len(),
    ensures
        uri_names(names.take(i + 1)) == match names[i] {
            AltNameView::Uri(u) => uri_names(names.take(i)).push(u),
            AltNameView::Other => uri_names(names.take(i)),
        },
{
    assert(names.take(i + 1).drop_last() =~= names.take(i));
}

/// The identifier a WIC's subjectAltName carries.
pub fn san_workload_identifier(alt: &AltNames) -> (r: Result<WorkloadIdentifier, MtlsError>)
    ensures
        outcome(r) == san_identifier(alt@),
{
    let names: &Vec<AltName> = match alt {
        AltNames::Unreadable => return Err(MtlsError::Parse),
        AltNames::Absent => return Err(MtlsError::MissingIdentifier),
        AltNames::Present(names) => names,
    };
    let ghost view = names@.map_values(|n: AltName| n@);
    let mut first: usize = 0;
    let mut count: usize = 0;
    let mut i: usize = 0;
    while i < names.len()
        invariant
            view == names@.map_values(|n: AltName| n@),
            i <= names@.len(),
            count == uri_names(view.take(i as int)).len(),
            count <= i,
            count > 0 ==> first < i && view[first as int] is Uri && uri_names(
                view.take(i as int),
            )[0] == view[first as int]->Uri_0,
        decreases names@.len() - i,
    {
        proof {
            lemma_uri_names_step(view, i as int);
        }
        match &names[i] {
            AltName::Uri(_) => {
                if count == 0 {
                    first = i;
                }
                count = count + 1;
            },
            AltName::Other => {},
        }
        i = i + 1;
    }
    assert(view.take(names@.len() as int) =~= view);
    if count == 0 {
        return Err(MtlsError::MissingIdentifier);
    }
    if count > 1 {
        return Err(MtlsError::MultipleIdentifiers);
    }
    match &names[first] {
        AltName::Uri(uri) => match WorkloadIdentifier::parse(uri.as_str()) {
            Ok(id) => Ok(id),
            Err(e) => Err(MtlsError::Identifier(e)),
        },
        AltName::Other => {
            assert(false);
            Err(MtlsError::MissingIdentifier)
        },
    }
}

/// Verifies a WIC against its CA at instant `at` (Unix nanoseconds; `None`
/// when the time could not be represented) and returns the workload
/// identifier it carries.
pub fn verify_certificate(leaf: &Certificate, ca: &Certificate, at: Option<i128>) -> (r: Result<
    WorkloadIdentifier,
    MtlsError,
>)
    ensures
        outcome(r) == wic_identifier(
            leaf@,
            ca@,
            match at {
                Some(t) => Some(t as int),
                None => None,
            },
        ),
{
    let key: &PublicKeyField = &ca.public_key;
    let ed: [u8; 3] = oid_ed25519_octets();
    let ec: [u8; 7] = oid_ec_public_key_octets();
    let algorithm: Algorithm = if bytes_eq(key.algorithm.as_slice(), ed.as_slice()) {
        Algorithm::EdDsa
    } else if bytes_eq(key.algorithm.as_slice(), ec.as_slice()) {
        Algorithm::Es256
    } else {
        return Err(MtlsError::UnsupportedAlgorithm);
    };
    let ecdsa: [u8; 8] = oid_ecdsa_sha256_octets();
    let expected: &[u8] = match algorithm {
        Algorithm::Es256 => ecdsa.as_slice(),
        Algorithm::EdDsa => ed.as_slice(),
    };
    if !bytes_eq(leaf.signature.algorithm.as_slice(), expected) || !bytes_eq(
        leaf.signature.tbs_algorithm.as_slice(),
        expected,
    ) {
        return Err(MtlsError::UnsupportedAlgorithm);
    }
    if algorithm == Algorithm::Es256 {
        let p256: [u8; 8] = oid_p256_octets();
        let named: bool = match &key.curve {
            Some(c) => bytes_eq(c.as_slice(), p256.as_slice()),
            None => false,
        };
        if !named {
            return Err(MtlsError::UnsupportedAlgorithm);
        }
    }
    if key.unused_bits != 0 {
        return Err(MtlsError::InvalidKey);
    }
    let ca_key: VerifyingKey = match VerifyingKey::from_raw_bytes(algorithm, key.key.as_slice()) {
        Ok(k) => k,
        Err(_) => return Err(MtlsError::InvalidKey),
    };
    if leaf.signature.unused_bits != 0 {
        return Err(MtlsError::InvalidSignature);
    }
    let signature: Vec<u8> = match algorithm {
        Algorithm::Es256 => {
            let raw: [u8; 64] = match ecdsa_signature_from_der(leaf.signature.value.as_slice()) {
                Ok(raw) => raw,
                Err(e) => return Err(e),
            };
            vstd::slice::slice_to_vec(raw.as_slice())
        },
        Algorithm::EdDsa => vstd::slice::slice_to_vec(leaf.signature.value.as_slice()),
    };
    if ca_key.verify(leaf.signature.tbs.as_slice(), signature.as_slice()).is_err() {
        return Err(MtlsError::InvalidSignature);
    }
    let t: i128 = match at {
        Some(t) => t,
        None => return Err(MtlsError::Time),
    };
    if !(ca.not_before <= t && t <= ca.not_after && leaf.not_before <= t && t <= leaf.not_after) {
        return Err(MtlsError::NotValid);
    }
    san_workload_identifier(&leaf.alt_names)
}

/// The instant a Unix time in seconds names, in nanoseconds, as `x509-parser`
/// represents it; `None` when it cannot.
pub open spec fn instant_of(now: u64) -> Option<int> {
    if now > i64::MAX {
        None
    } else {
        asn1_time_nanos(now as i64)
    }
}

fn instant(now: u64) -> (r: Option<i128>)
    ensures
        match r {
            Some(n) => instant_of(now) == Some(n as int),
            None => instant_of(now) is None,
        },
        r matches Some(n) ==> n == now * 1_000_000_000,
        now <= 253402300799 ==> r is Some,
{
    if now > i64::MAX as u64 {
        return None;
    }
    asn1_time(now as i64)
}

/// What verifying the WIC `wic` against the CA certificate `ca` at time `now`
/// (Unix seconds) gives.
pub open spec fn wic_outcome(wic: Seq<u8>, ca: Seq<u8>, now: u64) -> Result<Seq<char>, MtlsFailure> {
    match (certificate_of(wic), certificate_of(ca)) {
        (Some(leaf), Some(ca)) => wic_identifier(leaf, ca, instant_of(now)),
        _ => Err(MtlsFailure::Parse),
    }
}

/// Verifies a WIC against a CA certificate at time `now` (Unix seconds) and
/// returns the workload identifier it carries.
///
/// Checks that the WIC's signature algorithm is the one the CA's key makes,
/// the CA's signature over the `tbsCertificate`, that both the CA and the WIC
/// are within their validity windows, and that the WIC carries exactly one
/// URI SAN. A time too far out to represent is a [`MtlsError::Time`]; every
/// time up to the end of year 9999 is representable.
pub fn verify(wic_der: &[u8], ca_der: &[u8], now: u64) -> (r: Result<WorkloadIdentifier, MtlsError>)
    ensures
        outcome(r) == wic_outcome(wic_der@, ca_der@, now),
        now <= 253402300799 ==> outcome(r) == match (certificate_of(wic_der@), certificate_of(ca_der@)) {
            (Some(leaf), Some(ca)) => wic_identifier(leaf, ca, Some(now * 1_000_000_000)),
            _ => Err(MtlsFailure::Parse),
        },
{
    let leaf: Certificate = match read_certificate(wic_der) {
        Ok(c) => c,
        Err(e) => return Err(e),
    };
    let ca: Certificate = match read_certificate(ca_der) {
        Ok(c) => c,
        Err(e) => return Err(e),
    };
    let at: Option<i128> = instant(now);
    verify_certificate(&leaf, &ca, at)
}

/// The workload identifier a WIC carries, read without verifying it.
pub fn workload_identifier(wic_der: &[u8]) -> (r: Result<WorkloadIdentifier, MtlsError>)
    ensures
        outcome(r) == match (x509_trailing(wic_der@), x509_alt_names(wic_der@)) {
            (Some(t), Some(alt)) => if t == 0 {
                san_identifier(alt)
            } else {
                Err(MtlsFailure::Parse)
            },
            _ => Err(MtlsFailure::Parse),
        },
{
    let trailing: usize = match read_trailing(wic_der) {
        Some(t) => t,
        None => return Err(MtlsError::Parse),
    };
    let alt: AltNames = match read_alt_names(wic_der) {
        Some(a) => a,
        None => return Err(MtlsError::Parse),
    };
    if trailing != 0 {
        return Err(MtlsError::Parse);
    }
    san_workload_identifier(&alt)
}

/// A WIC proves an identifier only at an instant inside both validity
/// windows, the CA's and its own, and the identifier is then the WIC's one
/// URI SAN, a valid workload identifier. In particular a WIC checked against
/// a CA certificate that has expired or is not yet valid proves nothing.
pub proof fn lemma_wic_accepted_within_both_windows(
    leaf: CertificateView,
    ca: CertificateView,
    at: Option<int>,
)
    ensures
        wic_identifier(leaf, ca, at) matches Ok(id) ==> {
            &&& at matches Some(t)
            &&& ca.not_before <= t && t <= ca.not_after
            &&& leaf.not_before <= t && t <= leaf.not_after
            &&& leaf.alt_names matches AltNamesView::Present(names)
            &&& uri_names(names) == seq![id]
            &&& spec_parse(id) is Ok
        },
        forall|t: int|
            !(ca.not_before <= t && t <= ca.not_after) ==> !(#[trigger] wic_identifier(leaf, ca, Some(t)) is Ok),
        forall|t: int|
            !(leaf.not_before <= t && t <= leaf.not_after) ==> !(#[trigger] wic_identifier(leaf, ca, Some(t)) is Ok),
{
    if let Ok(id) = wic_identifier(leaf, ca, at) {
        if let AltNamesView::Present(names) = leaf.alt_names {
            let uris = uri_names(names);
            assert(uris.len() == 1);
            assert(uris =~= seq![id]);
        }
    }
}

/// Verifying a WIC succeeds only when both certificates parse and the
/// verification instant lies in both validity windows.
pub proof fn lemma_verified_wic_within_both_windows(wic: Seq<u8>, ca: Seq<u8>, now: u64)
    ensures
        wic_outcome(wic, ca, now) is Ok ==> {
            &&& certificate_of(wic) matches Some(l)
            &&& certificate_of(ca) matches Some(c)
            &&& instant_of(now) matches Some(t)
            &&& c.not_before <= t && t <= c.not_after
            &&& l.not_before <= t && t <= l.not_after
        },
{
    if let (Some(l), Some(c)) = (certificate_of(wic), certificate_of(ca)) {
        lemma_wic_accepted_within_both_windows(l, c, instant_of(now));
    }
}

/// A WIC proves an identifier only if it is signed by the CA: the CA's
/// public key is an Ed25519 or P-256 key, and a signature read from the WIC
/// (as it stands, or from its DER form) verifies under that key over the
/// WIC's `tbsCertificate`, with both signature algorithm fields the same.
pub proof fn lemma_wic_accepted_only_if_signed_by_ca(
    leaf: CertificateView,
    ca: CertificateView,
    at: Option<int>,
)
    ensures
        wic_identifier(leaf, ca, at) is Ok ==> {
            &&& ca.public_key.unused_bits == 0
            &&& leaf.signature.unused_bits == 0
            &&& leaf.signature.algorithm == leaf.signature.tbs_algorithm
            &&& exists|alg: Algorithm, k: VerifyingKeyView, sig: Seq<u8>|
                #[trigger] raw_key(alg, ca.public_key.key) == Some(k) && (sig == leaf.signature.value
                    || signature_from_der(leaf.signature.value) == Some(sig))
                    && #[trigger] verifies(k, leaf.signature.tbs, sig)
        },
{
    if wic_identifier(leaf, ca, at) is Ok {
        let key = ca.public_key;
        let alg = if key.algorithm == oid_ed25519() {
            Algorithm::EdDsa
        } else {
            Algorithm::Es256
        };
        let k = raw_key(alg, key.key)->Some_0;
        let sig = if alg == Algorithm::Es256 {
            signature_from_der(leaf.signature.value)->Some_0
        } else {
            leaf.signature.value
        };
        assert(raw_key(alg, ca.public_key.key) == Some(k));
        assert(verifies(k, leaf.signature.tbs, sig));
    }
}

} // verus!
