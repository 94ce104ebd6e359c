//! The keys, signatures and JSON Web Keys the WIMSE credential formats share.
//!
//! Two algorithms are supported: `EdDSA` over Ed25519, and `ES256` (ECDSA
//! P-256 with SHA-256), which `draft-ietf-wimse-workload-creds` requires of
//! general-purpose implementations. Both sign deterministically — Ed25519 by
//! construction, ES256 through its RFC 6979 nonce — so signing the same input
//! twice gives the same bytes.
//!
//! A key is held as the plain bytes that define it; the outside crates do the
//! curve arithmetic on those bytes (see [`crate::crypto`]).

use vstd::prelude::*;
use vstd::slice::{slice_subrange, slice_to_vec};

use crate::crypto::{
    b64url_decode, b64url_encode, base64url_decoded, base64url_encoded, ed25519_point_ok,
    ed25519_point_valid, ed25519_public, ed25519_public_key, ed25519_sign, ed25519_signature,
    ed25519_verifies, ed25519_verify, p256_decode, p256_decoded_point, p256_public,
    p256_public_key, p256_scalar_ok, p256_scalar_valid, p256_sign, p256_signature,
    p256_verifies, p256_verify,
};
use crate::text::{eq_ignore_case, owned, push_str, str_eq, str_eq_ignore_case};

verus! {

broadcast use vstd::string::group_string_axioms, vstd::slice::group_slice_axioms;

/// The length of a JOSE signature for either supported algorithm: an Ed25519
/// signature, or an ES256 `R || S`.
pub const SIGNATURE_LEN: usize = 64;

// ---------------------------------------------------------------------------
// Algorithms.
// ---------------------------------------------------------------------------

/// A JOSE signature algorithm this crate can produce and verify.
#[derive(Debug, Clone, Copy, PartialEq, Eq, Hash, Structural)]
pub enum Algorithm {
    /// `EdDSA` over Ed25519 (RFC 8037).
    EdDsa,
    /// `ES256`: ECDSA using P-256 and SHA-256 (RFC 7518 Section 3.4).
    Es256,
}

/// The JOSE `alg` value of an algorithm.
pub open spec fn alg_name(a: Algorithm) -> Seq<char> {
    match a {
        Algorithm::EdDsa => seq!['E', 'd', 'D', 'S', 'A'],
        Algorithm::Es256 => seq!['E', 'S', '2', '5', '6'],
    }
}

/// JOSE `alg` values a proof of possession may never use: `none`, the
/// symmetric JWS algorithms, and the JWE key-management algorithms
/// (Section 5.1 of `draft-ietf-wimse-workload-creds`).
pub open spec fn forbidden_algs() -> Seq<Seq<char>> {
    seq![
        "none"@,
        "HS256"@,
        "HS384"@,
        "HS512"@,
        "RSA1_5"@,
        "RSA-OAEP"@,
        "RSA-OAEP-256"@,
        "RSA-OAEP-384"@,
        "RSA-OAEP-512"@,
        "A128KW"@,
        "A192KW"@,
        "A256KW"@,
        "dir"@,
        "ECDH-ES"@,
        "ECDH-ES+A128KW"@,
        "ECDH-ES+A192KW"@,
        "ECDH-ES+A256KW"@,
        "A128GCMKW"@,
        "A192GCMKW"@,
        "A256GCMKW"@,
        "PBES2-HS256+A128KW"@,
        "PBES2-HS384+A192KW"@,
        "PBES2-HS512+A256KW"@,
    ]
}

/// Whether `alg` names a forbidden algorithm, ignoring ASCII case.
pub open spec fn is_forbidden(alg: Seq<char>) -> bool {
    exists|i: int| 0 <= i < forbidden_algs().len() && eq_ignore_case(#[trigger] forbidden_algs()[i], alg)
}

fn forbidden_alg_list() -> (r: Vec<&'static str>)
    ensures
        r@.len() == forbidden_algs().len(),
        forall|i: int| 0 <= i < r@.len() ==> (#[trigger] r@[i])@ == forbidden_algs()[i],
{
    let v: Vec<&'static str> = vec![
        "none",
        "HS256",
        "HS384",
        "HS512",
        "RSA1_5",
        "RSA-OAEP",
        "RSA-OAEP-256",
        "RSA-OAEP-384",
        "RSA-OAEP-512",
        "A128KW",
        "A192KW",
        "A256KW",
        "dir",
        "ECDH-ES",
        "ECDH-ES+A128KW",
        "ECDH-ES+A192KW",
        "ECDH-ES+A256KW",
        "A128GCMKW",
        "A192GCMKW",
        "A256GCMKW",
        "PBES2-HS256+A128KW",
        "PBES2-HS384+A192KW",
        "PBES2-HS512+A256KW",
    ];
    v
}

/// Whether `alg` is one of the algorithms a proof of possession may never use.
pub fn is_forbidden_alg(alg: &str) -> (r: bool)
    ensures
        r == is_forbidden(alg@),
{
    let list: Vec<&'static str> = forbidden_alg_list();
    let mut i: usize = 0;
    while i < list.len()
        invariant
            i <= list@.len() == forbidden_algs().len(),
            forall|j: int| 0 <= j < list@.len() ==> (#[trigger] list@[j])@ == forbidden_algs()[j],
            forall|j: int| 0 <= j < i ==> !eq_ignore_case(#[trigger] forbidden_algs()[j], alg@),
        decreases list@.len() - i,
    {
        if str_eq_ignore_case(list[i], alg) {
            assert(eq_ignore_case(forbidden_algs()[i as int], alg@));
            return true;
        }
        i = i + 1;
    }
    false
}

/// Why a key, an algorithm or a signature was refused, as a value.
pub enum JoseFailure {
    MissingAlg,
    ForbiddenAlg(Seq<char>),
    UnsupportedAlg(Seq<char>),
    InvalidKey,
    InvalidSignature,
    InvalidEncoding,
}

/// An error from parsing a key, an algorithm, or a signature.
#[derive(Debug, Clone, PartialEq, Eq)]
pub enum JoseError {
    /// The `alg` member was absent where the draft requires it.
    MissingAlg,
    /// The algorithm is one a proof of possession may never use.
    ForbiddenAlg {
        /// The `alg` value that was found.
        found: String,
    },
    /// The algorithm is legal but this crate cannot produce or verify it.
    UnsupportedAlg {
        /// The `alg` value that was found.
        found: String,
    },
    /// The key type or curve does not match the algorithm, or the encoded key
    /// is not a valid point or scalar.
    InvalidKey,
    /// The signature did not verify, or was not the expected length.
    InvalidSignature,
    /// A Base64url component could not be decoded.
    InvalidEncoding,
}

impl View for JoseError {
    type V = JoseFailure;

    open spec fn view(&self) -> JoseFailure {
        match self {
            JoseError::MissingAlg => JoseFailure::MissingAlg,
            JoseError::ForbiddenAlg { found } => JoseFailure::ForbiddenAlg(found@),
            JoseError::UnsupportedAlg { found } => JoseFailure::UnsupportedAlg(found@),
            JoseError::InvalidKey => JoseFailure::InvalidKey,
            JoseError::InvalidSignature => JoseFailure::InvalidSignature,
            JoseError::InvalidEncoding => JoseFailure::InvalidEncoding,
        }
    }
}

/// The message a key or signature failure is reported with.
pub open spec fn failure_message(f: JoseFailure) -> Seq<char> {
    match f {
        JoseFailure::MissingAlg => "the key is missing the required `alg` member"@,
        JoseFailure::ForbiddenAlg(found) => "the algorithm `"@ + found + "` is forbidden for a proof of possession"@,
        JoseFailure::UnsupportedAlg(found) => "unsupported algorithm `"@ + found + "`, expected `EdDSA` or `ES256`"@,
        JoseFailure::InvalidKey => "invalid key"@,
        JoseFailure::InvalidSignature => "signature verification failed"@,
        JoseFailure::InvalidEncoding => "invalid base64url"@,
    }
}

/// The message a [`JoseError`] is reported with.
pub open spec fn jose_message(e: JoseError) -> Seq<char> {
    failure_message(e@)
}

impl JoseError {
    /// The message this error is reported with.
    pub fn message(&self) -> (r: String)
        ensures
            r@ == jose_message(*self),
    {
        match self {
            JoseError::MissingAlg => owned("the key is missing the required `alg` member"),
            JoseError::ForbiddenAlg { found } => {
                let mut m: String = owned("the algorithm `");
                push_str(&mut m, found.as_str());
                push_str(&mut m, "` is forbidden for a proof of possession");
                m
            },
            JoseError::UnsupportedAlg { found } => {
                let mut m: String = owned("unsupported algorithm `");
                push_str(&mut m, found.as_str());
                push_str(&mut m, "`, expected `EdDSA` or `ES256`");
                m
            },
            JoseError::InvalidKey => owned("invalid key"),
            JoseError::InvalidSignature => owned("signature verification failed"),
            JoseError::InvalidEncoding => owned("invalid base64url"),
        }
    }
}

/// What [`Algorithm::parse`] makes of an `alg` value.
pub open spec fn spec_parse_alg(alg: Seq<char>) -> Result<Algorithm, JoseFailure> {
    if alg == alg_name(Algorithm::EdDsa) {
        Ok(Algorithm::EdDsa)
    } else if alg == alg_name(Algorithm::Es256) {
        Ok(Algorithm::Es256)
    } else if is_forbidden(alg) {
        Err(JoseFailure::ForbiddenAlg(alg))
    } else {
        Err(JoseFailure::UnsupportedAlg(alg))
    }
}

impl Algorithm {
    /// The JOSE `alg` value.
    pub fn as_str(self) -> (r: &'static str)
        ensures
            r@ == alg_name(self),
    {
        match self {
            Algorithm::EdDsa => {
                proof {
                    reveal_strlit("EdDSA");
                }
                "EdDSA"
            },
            Algorithm::Es256 => {
                proof {
                    reveal_strlit("ES256");
                }
                "ES256"
            },
        }
    }

    /// Parses a JOSE `alg` value: `EdDSA` or `ES256`, exactly. A forbidden
    /// algorithm is reported as such rather than as merely unsupported.
    pub fn parse(alg: &str) -> (r: Result<Algorithm, JoseError>)
        ensures
            match r {
                Ok(a) => spec_parse_alg(alg@) == Ok::<Algorithm, JoseFailure>(a),
                Err(e) => spec_parse_alg(alg@) == Err::<Algorithm, JoseFailure>(e@),
            },
    {
        if str_eq(alg, Algorithm::EdDsa.as_str()) {
            Ok(Algorithm::EdDsa)
        } else if str_eq(alg, Algorithm::Es256.as_str()) {
            Ok(Algorithm::Es256)
        } else if is_forbidden_alg(alg) {
            Err(JoseError::ForbiddenAlg { found: owned(alg) })
        } else {
            Err(JoseError::UnsupportedAlg { found: owned(alg) })
        }
    }
}

// ---------------------------------------------------------------------------
// Keys.
// ---------------------------------------------------------------------------

/// The content of a signing key: its algorithm and its 32-byte seed or scalar.
pub struct SigningKeyView {
    pub alg: Algorithm,
    pub secret: Seq<u8>,
}

/// The content of a verifying key: its algorithm and its raw public bytes (the
/// 32-byte Ed25519 point, or the 65-byte uncompressed SEC1 P-256 point).
pub struct VerifyingKeyView {
    pub alg: Algorithm,
    pub public: Seq<u8>,
}

/// The public half of a signing key.
pub open spec fn public_of(k: SigningKeyView) -> VerifyingKeyView {
    VerifyingKeyView {
        alg: k.alg,
        public: match k.alg {
            Algorithm::EdDsa => ed25519_public_key(k.secret),
            Algorithm::Es256 => p256_public_key(k.secret),
        },
    }
}

/// The signature a signing key makes over `msg`.
pub open spec fn signature_of(k: SigningKeyView, msg: Seq<u8>) -> Seq<u8> {
    match k.alg {
        Algorithm::EdDsa => ed25519_signature(k.secret, msg),
        Algorithm::Es256 => p256_signature(k.secret, msg),
    }
}

/// Whether `sig` verifies over `msg` under a verifying key.
pub open spec fn verifies(k: VerifyingKeyView, msg: Seq<u8>, sig: Seq<u8>) -> bool {
    sig.len() == SIGNATURE_LEN && match k.alg {
        Algorithm::EdDsa => ed25519_verifies(k.public, msg, sig),
        Algorithm::Es256 => p256_verifies(k.public, msg, sig),
    }
}

/// Whether a signing key's bytes are a key of its algorithm.
pub open spec fn signing_key_valid(k: SigningKeyView) -> bool {
    k.secret.len() == 32 && (k.alg == Algorithm::Es256 ==> p256_scalar_valid(k.secret))
}

/// Whether a verifying key's bytes are a canonical point of its algorithm.
pub open spec fn verifying_key_valid(k: VerifyingKeyView) -> bool {
    match k.alg {
        Algorithm::EdDsa => k.public.len() == 32 && ed25519_point_valid(k.public),
        Algorithm::Es256 => k.public.len() == 65 && k.public[0] == 4 && p256_decoded_point(
            k.public,
        ) == Some(k.public),
    }
}

/// A private key that can sign.
pub struct SigningKey {
    alg: Algorithm,
    secret: [u8; 32],
}

impl View for SigningKey {
    type V = SigningKeyView;

    closed spec fn view(&self) -> SigningKeyView {
        SigningKeyView { alg: self.alg, secret: self.secret@ }
    }
}

/// A public key that can verify.
#[derive(Debug, PartialEq, Eq)]
pub struct VerifyingKey {
    alg: Algorithm,
    public: Vec<u8>,
}

impl View for VerifyingKey {
    type V = VerifyingKeyView;

    closed spec fn view(&self) -> VerifyingKeyView {
        VerifyingKeyView { alg: self.alg, public: self.public@ }
    }
}

fn array_to_vec(a: &[u8]) -> (v: Vec<u8>)
    ensures
        v@ == a@,
{
    slice_to_vec(a)
}

fn seed_array(bytes: &[u8]) -> (a: [u8; 32])
    requires
        bytes@.len() == 32,
    ensures
        a@ == bytes@,
{
    let mut a: [u8; 32] = [0u8; 32];
    let mut i: usize = 0;
    while i < 32
        invariant
            bytes@.len() == 32,
            i <= 32,
            forall|j: int| 0 <= j < i ==> a@[j] == bytes@[j],
        decreases 32 - i,
    {
        a[i] = bytes[i];
        i = i + 1;
    }
    assert(a@ =~= bytes@);
    a
}

impl SigningKey {
    #[verifier::type_invariant]
    spec fn inv(self) -> bool {
        signing_key_valid(self@)
    }

    /// Builds an Ed25519 signing key from its 32-byte seed.
    pub fn from_ed25519_seed(seed: &[u8; 32]) -> (r: SigningKey)
        ensures
            r@ == (SigningKeyView { alg: Algorithm::EdDsa, secret: seed@ }),
    {
        SigningKey { alg: Algorithm::EdDsa, secret: *seed }
    }

    /// Builds a P-256 signing key from its 32-byte scalar, which must be
    /// non-zero and below the group order.
    pub fn from_p256_scalar(scalar: &[u8; 32]) -> (r: Result<SigningKey, JoseError>)
        ensures
            r is Ok <==> p256_scalar_valid(scalar@),
            r matches Ok(k) ==> k@ == (SigningKeyView { alg: Algorithm::Es256, secret: scalar@ }),
            r matches Err(e) ==> e@ == JoseFailure::InvalidKey,
    {
        if p256_scalar_ok(scalar) {
            Ok(SigningKey { alg: Algorithm::Es256, secret: *scalar })
        } else {
            Err(JoseError::InvalidKey)
        }
    }

    /// The algorithm this key signs with.
    pub fn algorithm(&self) -> (r: Algorithm)
        ensures
            r == self@.alg,
    {
        self.alg
    }

    /// The matching public key.
    pub fn verifying_key(&self) -> (r: VerifyingKey)
        ensures
            r@ == public_of(self@),
    {
        proof {
            use_type_invariant(self);
        }
        match self.alg {
            Algorithm::EdDsa => {
                let public: [u8; 32] = ed25519_public(&self.secret);
                VerifyingKey { alg: Algorithm::EdDsa, public: array_to_vec(&public) }
            },
            Algorithm::Es256 => {
                let public: [u8; 65] = p256_public(&self.secret);
                VerifyingKey { alg: Algorithm::Es256, public: array_to_vec(&public) }
            },
        }
    }

    /// The private scalar or seed, as the 32 bytes it is stored from.
    pub fn to_bytes(&self) -> (r: [u8; 32])
        ensures
            r@ == self@.secret,
    {
        self.secret
    }

    /// Signs `message`, producing [`SIGNATURE_LEN`] bytes. Deterministic: the
    /// same key and message always give the same bytes, and the signature
    /// verifies under [`SigningKey::verifying_key`].
    pub fn sign(&self, message: &[u8]) -> (r: Vec<u8>)
        ensures
            r@ == signature_of(self@, message@),
            r@.len() == SIGNATURE_LEN,
            verifies(public_of(self@), message@, r@),
    {
        proof {
            use_type_invariant(self);
        }
        match self.alg {
            Algorithm::EdDsa => {
                let sig: [u8; 64] = ed25519_sign(&self.secret, message);
                array_to_vec(&sig)
            },
            Algorithm::Es256 => {
                let sig: [u8; 64] = p256_sign(&self.secret, message);
                array_to_vec(&sig)
            },
        }
    }
}

impl Clone for SigningKey {
    fn clone(&self) -> (r: Self)
        ensures
            r@ == self@,
    {
        proof {
            use_type_invariant(self);
        }
        SigningKey { alg: self.alg, secret: self.secret }
    }
}

/// The key that raw public key bytes give for `alg`, if any: 32 bytes that
/// are an Ed25519 point as they are, or a SEC1 P-256 point held uncompressed.
pub open spec fn raw_bytes_key(alg: Algorithm, bytes: Seq<u8>) -> Option<VerifyingKeyView> {
    match alg {
        Algorithm::EdDsa => if bytes.len() == 32 && ed25519_point_valid(bytes) {
            Some(VerifyingKeyView { alg, public: bytes })
        } else {
            None
        },
        Algorithm::Es256 => match p256_decoded_point(bytes) {
            Some(p) => Some(VerifyingKeyView { alg, public: p }),
            None => None,
        },
    }
}

/// Every verifying key comes back unchanged from its own raw bytes: what
/// [`VerifyingKey::to_raw_bytes`] gives, [`VerifyingKey::from_raw_bytes`]
/// accepts under the key's algorithm as the same key.
pub proof fn lemma_raw_bytes_round_trip(k: VerifyingKeyView)
    requires
        verifying_key_valid(k),
    ensures
        raw_bytes_key(k.alg, k.public) == Some(k),
{
}

impl VerifyingKey {
    #[verifier::type_invariant]
    spec fn inv(self) -> bool {
        verifying_key_valid(self@)
    }

    /// The algorithm this key verifies.
    pub fn algorithm(&self) -> (r: Algorithm)
        ensures
            r == self@.alg,
    {
        self.alg
    }

    /// The raw public key bytes: the 32-byte Ed25519 point, or the 65-byte
    /// uncompressed SEC1 encoding of a P-256 point.
    pub fn to_raw_bytes(&self) -> (r: Vec<u8>)
        ensures
            r@ == self@.public,
            self@.alg == Algorithm::EdDsa ==> r@.len() == 32,
            self@.alg == Algorithm::Es256 ==> r@.len() == 65,
            verifying_key_valid(self@),
    {
        proof {
            use_type_invariant(self);
        }
        array_to_vec(self.public.as_slice())
    }

    /// Parses raw public key bytes for `algorithm`: 32 bytes that decompress
    /// to an Ed25519 point, or any SEC1 encoding of a P-256 point (held
    /// uncompressed).
    pub fn from_raw_bytes(algorithm: Algorithm, bytes: &[u8]) -> (r: Result<VerifyingKey, JoseError>)
        ensures
            algorithm == Algorithm::EdDsa ==> (r is Ok <==> (bytes@.len() == 32
                && ed25519_point_valid(bytes@))),
            algorithm == Algorithm::EdDsa ==> (r matches Ok(k) ==> k@ == (VerifyingKeyView {
                alg: algorithm,
                public: bytes@,
            })),
            algorithm == Algorithm::Es256 ==> (r is Ok <==> p256_decoded_point(bytes@) is Some),
            algorithm == Algorithm::Es256 ==> (r matches Ok(k) ==> Some(k@.public)
                == p256_decoded_point(bytes@) && k@.alg == algorithm),
            r matches Err(e) ==> e@ == JoseFailure::InvalidKey,
            match r {
                Ok(k) => raw_bytes_key(algorithm, bytes@) == Some(k@),
                Err(_) => raw_bytes_key(algorithm, bytes@) is None,
            },
    {
        match algorithm {
            Algorithm::EdDsa => {
                if bytes.len() != 32 {
                    return Err(JoseError::InvalidKey);
                }
                let a: [u8; 32] = seed_array(bytes);
                if ed25519_point_ok(&a) {
                    Ok(VerifyingKey { alg: Algorithm::EdDsa, public: slice_to_vec(bytes) })
                } else {
                    Err(JoseError::InvalidKey)
                }
            },
            Algorithm::Es256 => {
                match p256_decode(bytes) {
                    Some(point) => Ok(
                        VerifyingKey { alg: Algorithm::Es256, public: array_to_vec(&point) },
                    ),
                    None => Err(JoseError::InvalidKey),
                }
            },
        }
    }

    /// Verifies `signature` over `message`.
    pub fn verify(&self, message: &[u8], signature: &[u8]) -> (r: Result<(), JoseError>)
        ensures
            r is Ok <==> verifies(self@, message@, signature@),
            r matches Err(e) ==> e@ == JoseFailure::InvalidSignature,
    {
        proof {
            use_type_invariant(self);
        }
        if signature.len() != SIGNATURE_LEN {
            return Err(JoseError::InvalidSignature);
        }
        let mut sig: [u8; 64] = [0u8; 64];
        let mut i: usize = 0;
        while i < 64
            invariant
                signature@.len() == 64,
                i <= 64,
                forall|j: int| 0 <= j < i ==> sig@[j] == signature@[j],
            decreases 64 - i,
        {
            sig[i] = signature[i];
            i = i + 1;
        }
        assert(sig@ =~= signature@);
        let ok: bool = match self.alg {
            Algorithm::EdDsa => {
                let public: [u8; 32] = seed_array(self.public.as_slice());
                ed25519_verify(&public, message, &sig)
            },
            Algorithm::Es256 => p256_verify(self.public.as_slice(), message, &sig),
        };
        if ok {
            Ok(())
        } else {
            Err(JoseError::InvalidSignature)
        }
    }

    /// Compares two keys by algorithm and public bytes.
    pub fn same_key(&self, other: &VerifyingKey) -> (r: bool)
        ensures
            r == (self@ == other@),
    {
        if self.alg != other.alg || self.public.len() != other.public.len() {
            return false;
        }
        let mut i: usize = 0;
        while i < self.public.len()
            invariant
                self.public@.len() == other.public@.len(),
                i <= self.public@.len(),
                forall|j: int| 0 <= j < i ==> self.public@[j] == other.public@[j],
            decreases self.public@.len() - i,
        {
            if self.public[i] != other.public[i] {
                return false;
            }
            i = i + 1;
        }
        assert(self.public@ =~= other.public@);
        true
    }
}

impl Clone for VerifyingKey {
    fn clone(&self) -> (r: Self)
        ensures
            r@ == self@,
    {
        proof {
            use_type_invariant(self);
        }
        VerifyingKey { alg: self.alg, public: array_to_vec(self.public.as_slice()) }
    }
}

// ---------------------------------------------------------------------------
// JSON Web Keys.
// ---------------------------------------------------------------------------

pub open spec fn kty_okp() -> Seq<char> {
    seq!['O', 'K', 'P']
}

pub open spec fn kty_ec() -> Seq<char> {
    seq!['E', 'C']
}

pub open spec fn crv_ed25519() -> Seq<char> {
    seq!['E', 'd', '2', '5', '5', '1', '9']
}

pub open spec fn crv_p256() -> Seq<char> {
    seq!['P', '-', '2', '5', '6']
}

pub(crate) fn literal_okp() -> (r: &'static str)
    ensures
        r@ == kty_okp(),
{
    proof {
        reveal_strlit("OKP");
    }
    "OKP"
}

pub(crate) fn literal_ec() -> (r: &'static str)
    ensures
        r@ == kty_ec(),
{
    proof {
        reveal_strlit("EC");
    }
    "EC"
}

pub(crate) fn literal_ed25519() -> (r: &'static str)
    ensures
        r@ == crv_ed25519(),
{
    proof {
        reveal_strlit("Ed25519");
    }
    "Ed25519"
}

pub(crate) fn literal_p256() -> (r: &'static str)
    ensures
        r@ == crv_p256(),
{
    proof {
        reveal_strlit("P-256");
    }
    "P-256"
}

/// A public JSON Web Key, in the two shapes WIMSE uses: `OKP`/`Ed25519` with
/// an `x` (RFC 8037), or `EC`/`P-256` with `x` and `y` (RFC 7518 Section 6.2).
///
/// The `alg` member is required and binds the proof of possession to that
/// algorithm; it is an `Option` so that a key omitting it fails with
/// [`JoseError::MissingAlg`].
#[derive(Debug, PartialEq, Eq)]
pub struct Jwk {
    /// The algorithm a proof of possession must be produced with.
    pub alg: Option<String>,
    /// Key type: `OKP` for Ed25519, `EC` for P-256.
    pub kty: String,
    /// Curve: `Ed25519` or `P-256`.
    pub crv: String,
    /// The Base64url-encoded public key, or the x coordinate for `EC`.
    pub x: String,
    /// The Base64url-encoded y coordinate. Present for `EC` only.
    pub y: Option<String>,
}

/// The content of a [`Jwk`].
pub struct JwkView {
    pub alg: Option<Seq<char>>,
    pub kty: Seq<char>,
    pub crv: Seq<char>,
    pub x: Seq<char>,
    pub y: Option<Seq<char>>,
}

pub open spec fn opt_view(o: Option<String>) -> Option<Seq<char>> {
    match o {
        Some(s) => Some(s@),
        None => None,
    }
}

impl View for Jwk {
    type V = JwkView;

    open spec fn view(&self) -> JwkView {
        JwkView {
            alg: opt_view(self.alg),
            kty: self.kty@,
            crv: self.crv@,
            x: self.x@,
            y: opt_view(self.y),
        }
    }
}

fn clone_opt(o: &Option<String>) -> (r: Option<String>)
    ensures
        opt_view(r) == opt_view(*o),
{
    match o {
        Some(s) => Some(s.clone()),
        None => None,
    }
}

impl Clone for Jwk {
    fn clone(&self) -> (r: Self)
        ensures
            r@ == self@,
    {
        Jwk {
            alg: clone_opt(&self.alg),
            kty: self.kty.clone(),
            crv: self.crv.clone(),
            x: self.x.clone(),
            y: clone_opt(&self.y),
        }
    }
}

/// A Base64url coordinate decoded: exactly 32 bytes, or why not.
pub open spec fn spec_coordinate(text: Seq<char>) -> Result<Seq<u8>, JoseFailure> {
    match base64url_decoded(text) {
        None => Err(JoseFailure::InvalidEncoding),
        Some(b) => if b.len() == 32 {
            Ok(b)
        } else {
            Err(JoseFailure::InvalidKey)
        },
    }
}

/// What [`Jwk::validated_alg`] makes of a JWK.
pub open spec fn spec_jwk_alg(j: JwkView) -> Result<Algorithm, JoseFailure> {
    match j.alg {
        None => Err(JoseFailure::MissingAlg),
        Some(a) => spec_parse_alg(a),
    }
}

/// What [`Jwk::to_verifying_key`] makes of a JWK. The algorithm is decided by
/// `alg`, and `kty` and `crv` must agree with it.
pub open spec fn spec_jwk_key(j: JwkView) -> Result<VerifyingKeyView, JoseFailure> {
    match spec_jwk_alg(j) {
        Err(f) => Err(f),
        Ok(Algorithm::EdDsa) => if j.kty != kty_okp() || j.crv != crv_ed25519() || j.y is Some {
            Err(JoseFailure::InvalidKey)
        } else {
            match spec_coordinate(j.x) {
                Err(f) => Err(f),
                Ok(x) => if ed25519_point_valid(x) {
                    Ok(VerifyingKeyView { alg: Algorithm::EdDsa, public: x })
                } else {
                    Err(JoseFailure::InvalidKey)
                },
            }
        },
        Ok(Algorithm::Es256) => if j.kty != kty_ec() || j.crv != crv_p256() {
            Err(JoseFailure::InvalidKey)
        } else {
            match spec_coordinate(j.x) {
                Err(f) => Err(f),
                Ok(x) => match j.y {
                    None => Err(JoseFailure::InvalidKey),
                    Some(yt) => match spec_coordinate(yt) {
                        Err(f) => Err(f),
                        Ok(y) => match p256_decoded_point(seq![4u8] + x + y) {
                            Some(p) => Ok(VerifyingKeyView { alg: Algorithm::Es256, public: p }),
                            None => Err(JoseFailure::InvalidKey),
                        },
                    },
                },
            }
        },
    }
}

/// The JWK [`Jwk::from_verifying_key`] builds for a key.
pub open spec fn spec_jwk_of(k: VerifyingKeyView) -> JwkView {
    match k.alg {
        Algorithm::EdDsa => JwkView {
            alg: Some(alg_name(Algorithm::EdDsa)),
            kty: kty_okp(),
            crv: crv_ed25519(),
            x: base64url_encoded(k.public),
            y: None,
        },
        Algorithm::Es256 => JwkView {
            alg: Some(alg_name(Algorithm::Es256)),
            kty: kty_ec(),
            crv: crv_p256(),
            x: base64url_encoded(k.public.subrange(1, 33)),
            y: Some(base64url_encoded(k.public.subrange(33, 65))),
        },
    }
}

fn coordinate(value: &str) -> (r: Result<Vec<u8>, JoseError>)
    ensures
        match r {
            Ok(b) => spec_coordinate(value@) == Ok::<Seq<u8>, JoseFailure>(b@),
            Err(e) => spec_coordinate(value@) == Err::<Seq<u8>, JoseFailure>(e@),
        },
{
    match b64url_decode(value) {
        None => Err(JoseError::InvalidEncoding),
        Some(b) => if b.len() == 32 {
            Ok(b)
        } else {
            Err(JoseError::InvalidKey)
        },
    }
}

impl Jwk {
    /// Builds a JWK from a public key, with `alg` set to match it.
    pub fn from_verifying_key(key: &VerifyingKey) -> (r: Jwk)
        ensures
            r@ == spec_jwk_of(key@),
            spec_jwk_key(r@) == Ok::<VerifyingKeyView, JoseFailure>(key@),
    {
        proof {
            use_type_invariant(key);
        }
        let r: Jwk = match key.alg {
            Algorithm::EdDsa => Jwk {
                alg: Some(owned(Algorithm::EdDsa.as_str())),
                kty: owned(literal_okp()),
                crv: owned(literal_ed25519()),
                x: b64url_encode(key.public.as_slice()),
                y: None,
            },
            Algorithm::Es256 => {
                let public: &[u8] = key.public.as_slice();
                Jwk {
                    alg: Some(owned(Algorithm::Es256.as_str())),
                    kty: owned(literal_ec()),
                    crv: owned(literal_p256()),
                    x: b64url_encode(slice_subrange(public, 1, 33)),
                    y: Some(b64url_encode(slice_subrange(public, 33, 65))),
                }
            },
        };
        proof {
            lemma_jwk_round_trip(key@);
        }
        r
    }

    /// Checks the `alg` member and returns the algorithm it names.
    pub fn validated_alg(&self) -> (r: Result<Algorithm, JoseError>)
        ensures
            match r {
                Ok(a) => spec_jwk_alg(self@) == Ok::<Algorithm, JoseFailure>(a),
                Err(e) => spec_jwk_alg(self@) == Err::<Algorithm, JoseFailure>(e@),
            },
    {
        match &self.alg {
            None => Err(JoseError::MissingAlg),
            Some(a) => Algorithm::parse(a.as_str()),
        }
    }

    /// Decodes this JWK into a public key.
    pub fn to_verifying_key(&self) -> (r: Result<VerifyingKey, JoseError>)
        ensures
            match r {
                Ok(k) => spec_jwk_key(self@) == Ok::<VerifyingKeyView, JoseFailure>(k@),
                Err(e) => spec_jwk_key(self@) == Err::<VerifyingKeyView, JoseFailure>(e@),
            },
    {
        let alg: Algorithm = match self.validated_alg() {
            Ok(a) => a,
            Err(e) => {
                return Err(e);
            },
        };
        match alg {
            Algorithm::EdDsa => {
                if !str_eq(self.kty.as_str(), literal_okp()) || !str_eq(
                    self.crv.as_str(),
                    literal_ed25519(),
                ) || self.y.is_some() {
                    return Err(JoseError::InvalidKey);
                }
                let x: Vec<u8> = match coordinate(self.x.as_str()) {
                    Ok(x) => x,
                    Err(e) => {
                        return Err(e);
                    },
                };
                VerifyingKey::from_raw_bytes(Algorithm::EdDsa, x.as_slice())
            },
            Algorithm::Es256 => {
                if !str_eq(self.kty.as_str(), literal_ec()) || !str_eq(
                    self.crv.as_str(),
                    literal_p256(),
                ) {
                    return Err(JoseError::InvalidKey);
                }
                let x: Vec<u8> = match coordinate(self.x.as_str()) {
                    Ok(x) => x,
                    Err(e) => {
                        return Err(e);
                    },
                };
                let y_text: &String = match &self.y {
                    Some(y) => y,
                    None => {
                        return Err(JoseError::InvalidKey);
                    },
                };
                let y: Vec<u8> = match coordinate(y_text.as_str()) {
                    Ok(y) => y,
                    Err(e) => {
                        return Err(e);
                    },
                };
                let mut sec1: Vec<u8> = Vec::new();
                sec1.push(4u8);
                let mut i: usize = 0;
                while i < 32
                    invariant
                        x@.len() == 32,
                        i <= 32,
                        sec1@ == seq![4u8] + x@.take(i as int),
                    decreases 32 - i,
                {
                    sec1.push(x[i]);
                    i = i + 1;
                    assert(x@.take(i as int) =~= x@.take(i - 1).push(x@[i - 1]));
                }
                let mut j: usize = 0;
                while j < 32
                    invariant
                        x@.len() == 32,
                        y@.len() == 32,
                        j <= 32,
                        sec1@ == seq![4u8] + x@ + y@.take(j as int),
                    decreases 32 - j,
                {
                    sec1.push(y[j]);
                    j = j + 1;
                    assert(y@.take(j as int) =~= y@.take(j - 1).push(y@[j - 1]));
                }
                assert(x@.take(32) =~= x@);
                assert(y@.take(32) =~= y@);
                VerifyingKey::from_raw_bytes(Algorithm::Es256, sec1.as_slice())
            },
        }
    }
}

/// The JWK built from a verifying key decodes back to that key, given that
/// Base64url decoding undoes its encoding.
proof fn lemma_jwk_round_trip(k: VerifyingKeyView)
    requires
        verifying_key_valid(k),
        k.alg == Algorithm::EdDsa ==> base64url_decoded(base64url_encoded(k.public)) == Some(
            k.public,
        ),
        k.alg == Algorithm::Es256 ==> base64url_decoded(base64url_encoded(k.public.subrange(1, 33)))
            == Some(k.public.subrange(1, 33)),
        k.alg == Algorithm::Es256 ==> base64url_decoded(
            base64url_encoded(k.public.subrange(33, 65)),
        ) == Some(k.public.subrange(33, 65)),
    ensures
        spec_jwk_key(spec_jwk_of(k)) == Ok::<VerifyingKeyView, JoseFailure>(k),
{
    let j = spec_jwk_of(k);
    assert(alg_name(Algorithm::EdDsa) != alg_name(Algorithm::Es256)) by {
        assert(alg_name(Algorithm::EdDsa)[1] != alg_name(Algorithm::Es256)[1]);
    }
    if k.alg == Algorithm::Es256 {
        assert(seq![4u8] + k.public.subrange(1, 33) + k.public.subrange(33, 65) =~= k.public);
    }
}


// ---------------------------------------------------------------------------
// Private JWKs.
// ---------------------------------------------------------------------------

/// A private JSON Web Key: the public members of a [`Jwk`] plus `d`, the
/// Base64url-encoded 32-byte Ed25519 seed or P-256 scalar.
#[derive(Debug, PartialEq, Eq)]
pub struct PrivateJwk {
    /// The algorithm the key is for.
    pub alg: Option<String>,
    /// Key type: `OKP` for Ed25519, `EC` for P-256.
    pub kty: String,
    /// Curve: `Ed25519` or `P-256`.
    pub crv: String,
    /// The Base64url-encoded public key, or the x coordinate for `EC`.
    pub x: String,
    /// The Base64url-encoded y coordinate. Present for `EC` only.
    pub y: Option<String>,
    /// The Base64url-encoded private seed or scalar.
    pub d: String,
}

/// The content of a [`PrivateJwk`]: its public members and `d`.
pub struct PrivateJwkView {
    pub public: JwkView,
    pub d: Seq<char>,
}

impl View for PrivateJwk {
    type V = PrivateJwkView;

    open spec fn view(&self) -> PrivateJwkView {
        PrivateJwkView {
            public: JwkView {
                alg: opt_view(self.alg),
                kty: self.kty@,
                crv: self.crv@,
                x: self.x@,
                y: opt_view(self.y),
            },
            d: self.d@,
        }
    }
}

/// What [`PrivateJwk::to_signing_key`] makes of a private JWK: the public
/// members must decode to a key, `d` to 32 bytes that are a key of that
/// algorithm, and the public half of that key must be the one the public
/// members hold — otherwise the file would sign with one key while
/// advertising another.
pub open spec fn spec_private_key(j: PrivateJwkView) -> Result<SigningKeyView, JoseFailure> {
    match spec_jwk_key(j.public) {
        Err(f) => Err(f),
        Ok(pk) => match spec_coordinate(j.d) {
            Err(f) => Err(f),
            Ok(d) => {
                let k = SigningKeyView { alg: pk.alg, secret: d };
                if !signing_key_valid(k) || public_of(k) != pk {
                    Err(JoseFailure::InvalidKey)
                } else {
                    Ok(k)
                }
            },
        },
    }
}

/// The private JWK [`PrivateJwk::from_signing_key`] builds for a key.
pub open spec fn spec_private_jwk_of(k: SigningKeyView) -> PrivateJwkView {
    PrivateJwkView { public: spec_jwk_of(public_of(k)), d: base64url_encoded(k.secret) }
}

impl PrivateJwk {
    /// Builds a private JWK from a signing key, with `alg` set to match it.
    pub fn from_signing_key(key: &SigningKey) -> (r: PrivateJwk)
        ensures
            r@ == spec_private_jwk_of(key@),
            spec_private_key(r@) == Ok::<SigningKeyView, JoseFailure>(key@),
    {
        proof {
            use_type_invariant(key);
        }
        let public: Jwk = Jwk::from_verifying_key(&key.verifying_key());
        let secret: [u8; 32] = key.to_bytes();
        let d: String = b64url_encode(&secret);
        PrivateJwk { alg: public.alg, kty: public.kty, crv: public.crv, x: public.x, y: public.y, d }
    }

    /// The public members, as a [`Jwk`].
    pub fn public(&self) -> (r: Jwk)
        ensures
            r@ == self@.public,
    {
        Jwk {
            alg: clone_opt(&self.alg),
            kty: self.kty.clone(),
            crv: self.crv.clone(),
            x: self.x.clone(),
            y: clone_opt(&self.y),
        }
    }

    /// Decodes this JWK into a signing key, checking that `d` belongs to the
    /// public key the JWK advertises.
    pub fn to_signing_key(&self) -> (r: Result<SigningKey, JoseError>)
        ensures
            match r {
                Ok(k) => spec_private_key(self@) == Ok::<SigningKeyView, JoseFailure>(k@),
                Err(e) => spec_private_key(self@) == Err::<SigningKeyView, JoseFailure>(e@),
            },
    {
        let public: VerifyingKey = match self.public().to_verifying_key() {
            Ok(k) => k,
            Err(e) => return Err(e),
        };
        let d: Vec<u8> = match coordinate(self.d.as_str()) {
            Ok(d) => d,
            Err(e) => return Err(e),
        };
        let secret: [u8; 32] = seed_array(d.as_slice());
        let key: SigningKey = match public.algorithm() {
            Algorithm::EdDsa => SigningKey::from_ed25519_seed(&secret),
            Algorithm::Es256 => match SigningKey::from_p256_scalar(&secret) {
                Ok(k) => k,
                Err(e) => return Err(e),
            },
        };
        if !key.verifying_key().same_key(&public) {
            return Err(JoseError::InvalidKey);
        }
        Ok(key)
    }
}

} // verus!
