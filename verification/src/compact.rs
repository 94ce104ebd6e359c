//! Compact JWS framing (RFC 7515 Section 7.1) shared by the WIMSE token
//! formats: `BASE64URL(header) . BASE64URL(claims) . BASE64URL(signature)`.
//!
//! Reading and writing the JSON inside the first two segments is the
//! caller's; this module owns the segments, the signing input and the
//! signature.

use vstd::prelude::*;
use vstd::utf8::encode_utf8;

use crate::crypto::{b64url_decode, b64url_encode, base64url_decoded, base64url_encoded};
use crate::jose::{
    SigningKey, SigningKeyView, VerifyingKey, VerifyingKeyView, public_of, signature_of,
    verifies,
};
use crate::text::{chars_of, find_char, find_from, owned, push_char, push_str, string_from_range};

verus! {

broadcast use vstd::string::group_string_axioms, vstd::slice::group_slice_axioms;

/// The maximum accepted size, in bytes, of a compact serialization.
pub const MAX_TOKEN_LEN: usize = 8192;

/// The three segments of a compact serialization, still encoded.
#[derive(Debug, Clone)]
pub struct CompactParts {
    /// The Base64url-encoded JOSE header.
    pub header: String,
    /// The Base64url-encoded claim set.
    pub claims: String,
    /// The Base64url-encoded signature.
    pub signature: String,
}

/// The members of a decoded JOSE header that verification reads.
#[derive(Debug, Clone)]
pub struct HeaderFields {
    /// The `typ` member.
    pub typ: String,
    /// The `alg` member.
    pub alg: String,
    /// The `kid` member, if present.
    pub kid: Option<String>,
    /// Whether a `crit` member is present.
    pub has_crit: bool,
}

/// Why a compact serialization was refused before any signature work.
pub enum FrameFailure {
    TooLong,
    Malformed,
}

/// The three `.`-separated segments of `s`, if it has exactly three.
pub open spec fn split3(s: Seq<char>) -> Option<(Seq<char>, Seq<char>, Seq<char>)> {
    let a = find_from(s, '.', 0);
    let b = find_from(s, '.', a + 1);
    if a < s.len() && b < s.len() && find_from(s, '.', b + 1) == s.len() {
        Some((s.subrange(0, a), s.subrange(a + 1, b), s.subrange(b + 1, s.len() as int)))
    } else {
        None
    }
}

/// What [`split_compact`] makes of a token: too long (in bytes), not three
/// segments, or the segments.
pub open spec fn frame_spec(token: Seq<char>) -> Result<(Seq<char>, Seq<char>, Seq<char>), FrameFailure> {
    if encode_utf8(token).len() > MAX_TOKEN_LEN {
        Err(FrameFailure::TooLong)
    } else {
        match split3(token) {
            Some(parts) => Ok(parts),
            None => Err(FrameFailure::Malformed),
        }
    }
}

pub open spec fn parts_view(p: CompactParts) -> (Seq<char>, Seq<char>, Seq<char>) {
    (p.header@, p.claims@, p.signature@)
}

/// Bounds the input, then splits it into exactly three segments.
pub fn split_compact(token: &str) -> (r: Result<CompactParts, FrameFailure>)
    ensures
        match r {
            Ok(p) => frame_spec(token@) == Ok::<_, FrameFailure>(parts_view(p)),
            Err(e) => frame_spec(token@) == Err::<(Seq<char>, Seq<char>, Seq<char>), _>(e),
        },
{
    if token.as_bytes().len() > MAX_TOKEN_LEN {
        return Err(FrameFailure::TooLong);
    }
    let v: Vec<char> = chars_of(token);
    let a: usize = find_char(&v, '.', 0);
    if a >= v.len() {
        return Err(FrameFailure::Malformed);
    }
    let b: usize = find_char(&v, '.', a + 1);
    if b >= v.len() {
        return Err(FrameFailure::Malformed);
    }
    let c: usize = find_char(&v, '.', b + 1);
    if c < v.len() {
        return Err(FrameFailure::Malformed);
    }
    Ok(
        CompactParts {
            header: string_from_range(&v, 0, a),
            claims: string_from_range(&v, a + 1, b),
            signature: string_from_range(&v, b + 1, v.len()),
        },
    )
}

/// The JWS signing input: `header.claims`.
pub open spec fn signing_input_spec(header: Seq<char>, claims: Seq<char>) -> Seq<char> {
    header + seq!['.'] + claims
}

pub fn signing_input(header: &str, claims: &str) -> (r: String)
    ensures
        r@ == signing_input_spec(header@, claims@),
{
    let mut s: String = owned(header);
    push_char(&mut s, '.');
    push_str(&mut s, claims);
    s
}

/// The compact serialization of a header and claim set (as JSON bytes)
/// signed with `key`.
pub open spec fn compact_spec(header_json: Seq<u8>, claims_json: Seq<u8>, key: SigningKeyView) -> Seq<char> {
    let input = signing_input_spec(base64url_encoded(header_json), base64url_encoded(claims_json));
    input + seq!['.'] + base64url_encoded(signature_of(key, encode_utf8(input)))
}

/// Encodes and signs: deterministic, since both algorithms sign
/// deterministically.
pub fn sign_compact(header_json: &[u8], claims_json: &[u8], key: &SigningKey) -> (r: String)
    ensures
        r@ == compact_spec(header_json@, claims_json@, key@),
        split3(r@) == Some(
            (
                base64url_encoded(header_json@),
                base64url_encoded(claims_json@),
                base64url_encoded(
                    signature_of(
                        key@,
                        encode_utf8(
                            signing_input_spec(
                                base64url_encoded(header_json@),
                                base64url_encoded(claims_json@),
                            ),
                        ),
                    ),
                ),
            ),
        ),
        crate::wpt::signature_check(
            base64url_encoded(header_json@),
            base64url_encoded(claims_json@),
            base64url_encoded(
                signature_of(
                    key@,
                    encode_utf8(
                        signing_input_spec(
                            base64url_encoded(header_json@),
                            base64url_encoded(claims_json@),
                        ),
                    ),
                ),
            ),
            public_of(key@),
        ) is Ok,
        crate::wit::signature_check(
            base64url_encoded(header_json@),
            base64url_encoded(claims_json@),
            base64url_encoded(
                signature_of(
                    key@,
                    encode_utf8(
                        signing_input_spec(
                            base64url_encoded(header_json@),
                            base64url_encoded(claims_json@),
                        ),
                    ),
                ),
            ),
            public_of(key@),
        ) is Ok,
        verifies(
            public_of(key@),
            encode_utf8(
                signing_input_spec(base64url_encoded(header_json@), base64url_encoded(claims_json@)),
            ),
            signature_of(
                key@,
                encode_utf8(
                    signing_input_spec(
                        base64url_encoded(header_json@),
                        base64url_encoded(claims_json@),
                    ),
                ),
            ),
        ),
{
    let h: String = b64url_encode(header_json);
    let c: String = b64url_encode(claims_json);
    let input: String = signing_input(h.as_str(), c.as_str());
    let sig: Vec<u8> = key.sign(input.as_str().as_bytes());
    let s64: String = b64url_encode(sig.as_slice());
    let mut out: String = owned(input.as_str());
    push_char(&mut out, '.');
    push_str(&mut out, s64.as_str());
    proof {
        lemma_split3(h@, c@, s64@);
    }
    out
}

/// Three segments without `.` split back into themselves.
pub proof fn lemma_split3(a: Seq<char>, b: Seq<char>, c: Seq<char>)
    requires
        !a.contains('.'),
        !b.contains('.'),
        !c.contains('.'),
    ensures
        split3(a + seq!['.'] + b + seq!['.'] + c) == Some((a, b, c)),
{
    let s = a + seq!['.'] + b + seq!['.'] + c;
    let i = a.len() as int;
    let j = i + 1 + b.len();
    assert forall|k: int| 0 <= k < i implies s[k] != '.' by {
        assert(s[k] == a[k]);
    }
    crate::text::lemma_find_from_unique(s, '.', 0, i);
    assert forall|k: int| i + 1 <= k < j implies s[k] != '.' by {
        assert(s[k] == b[k - i - 1]);
    }
    crate::text::lemma_find_from_unique(s, '.', i + 1, j);
    assert forall|k: int| j + 1 <= k < s.len() implies s[k] != '.' by {
        assert(s[k] == c[k - j - 1]);
    }
    crate::text::lemma_find_from_unique(s, '.', j + 1, s.len() as int);
    assert(s.subrange(0, i) =~= a);
    assert(s.subrange(i + 1, j) =~= b);
    assert(s.subrange(j + 1, s.len() as int) =~= c);
}

/// Whether a signature segment decodes to a signature of the right length
/// that verifies over `header.claims` under `key`.
pub open spec fn signature_ok(
    header: Seq<char>,
    claims: Seq<char>,
    signature: Seq<char>,
    key: VerifyingKeyView,
) -> bool {
    match base64url_decoded(signature) {
        Some(sig) => verifies(key, encode_utf8(signing_input_spec(header, claims)), sig),
        None => false,
    }
}

/// Decodes a signature segment: `None` if it is not Base64url.
pub fn decode_segment(segment: &str) -> (r: Option<Vec<u8>>)
    ensures
        match r {
            Some(v) => base64url_decoded(segment@) == Some(v@),
            None => base64url_decoded(segment@) is None,
        },
{
    b64url_decode(segment)
}

/// Verifies decoded signature bytes over `header.claims`.
pub fn verify_segments(header: &str, claims: &str, sig: &[u8], key: &VerifyingKey) -> (r: bool)
    ensures
        r == verifies(key@, encode_utf8(signing_input_spec(header@, claims@)), sig@),
{
    let input: String = signing_input(header, claims);
    key.verify(input.as_str().as_bytes(), sig).is_ok()
}

// ---------------------------------------------------------------------------
// Altered tokens, for the negative cases of the conformance vectors.
// ---------------------------------------------------------------------------

/// The compact serialization of an encoded claims segment under a header (as
/// JSON bytes), signed with `key`.
pub open spec fn resigned_spec(header_json: Seq<u8>, claims: Seq<char>, key: SigningKeyView) -> Seq<char> {
    let input = signing_input_spec(base64url_encoded(header_json), claims);
    input + seq!['.'] + base64url_encoded(signature_of(key, encode_utf8(input)))
}

/// Re-signs a token's claims segment, unchanged, under another JOSE header:
/// validly signed, wrong in whatever way the header is. `None` when the token
/// is not a compact serialization [`split_compact`] accepts.
pub fn resign_compact(token: &str, header_json: &[u8], key: &SigningKey) -> (r: Option<String>)
    ensures
        match frame_spec(token@) {
            Ok((h, c, s)) => r matches Some(t) && t@ == resigned_spec(header_json@, c, key@),
            Err(_) => r is None,
        },
{
    let parts: CompactParts = match split_compact(token) {
        Ok(p) => p,
        Err(_) => return None,
    };
    let h: String = b64url_encode(header_json);
    let input: String = signing_input(h.as_str(), parts.claims.as_str());
    let sig: Vec<u8> = key.sign(input.as_str().as_bytes());
    let s64: String = b64url_encode(sig.as_slice());
    let mut out: String = owned(input.as_str());
    push_char(&mut out, '.');
    push_str(&mut out, s64.as_str());
    assert(out@ =~= resigned_spec(header_json@, parts.claims@, key@));
    Some(out)
}

/// Whether `from` occurs in `b` at `i`.
pub open spec fn occurs_at(b: Seq<u8>, from: Seq<u8>, i: int) -> bool {
    0 <= i && i + from.len() <= b.len() && b.subrange(i, i + from.len()) == from
}

/// `b` from `i` on, scanned left to right with every occurrence of `from`
/// (not empty) replaced by `to`; occurrences do not overlap.
pub open spec fn replace_from(b: Seq<u8>, from: Seq<u8>, to: Seq<u8>, i: int) -> Seq<u8>
    decreases b.len() - i,
{
    if i < 0 || i >= b.len() {
        Seq::empty()
    } else if from.len() > 0 && occurs_at(b, from, i) {
        to + replace_from(b, from, to, i + from.len())
    } else {
        seq![b[i]] + replace_from(b, from, to, i + 1)
    }
}

/// How many occurrences the scan of [`replace_from`] replaces.
pub open spec fn replaced_count(b: Seq<u8>, from: Seq<u8>, i: int) -> nat
    decreases b.len() - i,
{
    if i < 0 || i >= b.len() {
        0
    } else if from.len() > 0 && occurs_at(b, from, i) {
        1 + replaced_count(b, from, i + from.len())
    } else {
        replaced_count(b, from, i + 1)
    }
}

/// A token whose decoded claims had `from` replaced by `to` (of the same
/// length, so the claims keep their shape), the header and the signature left
/// alone; or `None` when the token does not frame, its claims segment does
/// not decode, `from` is empty or of another length than `to`, or does not
/// occur in the claims.
pub open spec fn tampered_spec(token: Seq<char>, from: Seq<u8>, to: Seq<u8>) -> Option<Seq<char>> {
    match frame_spec(token) {
        Err(_) => None,
        Ok((h, c, s)) => match base64url_decoded(c) {
            None => None,
            Some(claims) => if from.len() == 0 || from.len() != to.len() || replaced_count(
                claims,
                from,
                0,
            ) == 0 {
                None
            } else {
                Some(h + seq!['.'] + base64url_encoded(replace_from(claims, from, to, 0)) + seq!['.'] + s)
            },
        },
    }
}

fn occurs_at_exec(b: &Vec<u8>, from: &[u8], i: usize) -> (r: bool)
    requires
        i <= b@.len(),
    ensures
        r == occurs_at(b@, from@, i as int),
{
    if from.len() > b.len() - i {
        return false;
    }
    let mut k: usize = 0;
    while k < from.len()
        invariant
            i + from@.len() <= b@.len(),
            b@.len() == b.len(),
            k <= from@.len(),
            forall|j: int| 0 <= j < k ==> b@[i + j] == from@[j],
        decreases from@.len() - k,
    {
        if b[i + k] != from[k] {
            assert(b@.subrange(i as int, i + from@.len())[k as int] != from@[k as int]);
            return false;
        }
        k = k + 1;
    }
    assert(b@.subrange(i as int, i + from@.len()) =~= from@);
    true
}

proof fn lemma_replace_step(b: Seq<u8>, from: Seq<u8>, to: Seq<u8>, i: int)
    requires
        0 <= i < b.len(),
    ensures
        replace_from(b, from, to, i) == if from.len() > 0 && occurs_at(b, from, i) {
            to + replace_from(b, from, to, i + from.len())
        } else {
            seq![b[i]] + replace_from(b, from, to, i + 1)
        },
{
}

/// Replaces, left to right, every occurrence of `from` (not empty) in `b` by
/// `to`, and counts the replacements.
fn replace_bytes(b: &Vec<u8>, from: &[u8], to: &[u8]) -> (r: (Vec<u8>, usize))
    requires
        from@.len() > 0,
    ensures
        r.0@ == replace_from(b@, from@, to@, 0),
        r.1 == replaced_count(b@, from@, 0),
{
    let mut out: Vec<u8> = Vec::new();
    let mut count: usize = 0;
    let mut i: usize = 0;
    while i < b.len()
        invariant
            from@.len() > 0,
            i <= b@.len(),
            out@ + replace_from(b@, from@, to@, i as int) == replace_from(b@, from@, to@, 0),
            count + replaced_count(b@, from@, i as int) == replaced_count(b@, from@, 0),
            count <= i,
        decreases b@.len() - i,
    {
        proof {
            lemma_replace_step(b@, from@, to@, i as int);
        }
        if occurs_at_exec(b, from, i) {
            let ghost before = out@;
            let mut k: usize = 0;
            while k < to.len()
                invariant
                    k <= to@.len(),
                    out@ == before + to@.subrange(0, k as int),
                decreases to@.len() - k,
            {
                out.push(to[k]);
                assert(to@.subrange(0, k + 1) =~= to@.subrange(0, k as int).push(to@[k as int]));
                k = k + 1;
            }
            assert(to@.subrange(0, to@.len() as int) =~= to@);
            assert(before + (to@ + replace_from(b@, from@, to@, i + from@.len())) =~= out@
                + replace_from(b@, from@, to@, i + from@.len()));
            count = count + 1;
            i = i + from.len();
        } else {
            let ghost before = out@;
            out.push(b[i]);
            assert(before + (seq![b@[i as int]] + replace_from(b@, from@, to@, i + 1)) =~= out@
                + replace_from(b@, from@, to@, i + 1));
            i = i + 1;
        }
    }
    assert(out@ =~= out@ + Seq::<u8>::empty());
    (out, count)
}

/// Rewrites `from` to `to` in a token's decoded claims, leaving the header and
/// the signature alone: a token whose payload was altered after signing.
pub fn tamper_claims(token: &str, from: &str, to: &str) -> (r: Option<String>)
    ensures
        opt_chars(r) == tampered_spec(token@, encode_utf8(from@), encode_utf8(to@)),
{
    let parts: CompactParts = match split_compact(token) {
        Ok(p) => p,
        Err(_) => return None,
    };
    let claims: Vec<u8> = match decode_segment(parts.claims.as_str()) {
        Some(c) => c,
        None => return None,
    };
    let f: &[u8] = from.as_bytes();
    let t: &[u8] = to.as_bytes();
    if f.len() == 0 || f.len() != t.len() {
        return None;
    }
    let (replaced, count) = replace_bytes(&claims, f, t);
    if count == 0 {
        return None;
    }
    let encoded: String = b64url_encode(replaced.as_slice());
    let mut out: String = owned(parts.header.as_str());
    push_char(&mut out, '.');
    push_str(&mut out, encoded.as_str());
    push_char(&mut out, '.');
    push_str(&mut out, parts.signature.as_str());
    assert(out@ =~= parts.header@ + seq!['.'] + encoded@ + seq!['.'] + parts.signature@);
    Some(out)
}

pub open spec fn opt_chars(o: Option<String>) -> Option<Seq<char>> {
    match o {
        Some(s) => Some(s@),
        None => None,
    }
}

} // verus!
