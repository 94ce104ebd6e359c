//! An experimental WIMSE credential issuer: a workload presents its own
//! identifier and proof-of-possession public key, and the issuer answers with
//! a WIT binding the two, signed by its key.
//!
//! This module decides what a request is granted; the HTTP service around it
//! only carries requests in and tokens out. The issuer performs no workload
//! attestation or authentication: it grants any `sub` any caller asks for, and
//! is for experimentation only.

use vstd::prelude::*;

use crate::identifier::{parse_error_message, spec_parse, WorkloadIdentifier};
use crate::jose::{spec_jwk_key, spec_jwk_of, Jwk, JwkView, SigningKey, public_of};
use crate::text::{decimal, owned, push_decimal, push_str, trim, trim_str};
use crate::wit::{Confirmation, WitClaims, WitClaimsView};

verus! {

broadcast use vstd::string::group_string_axioms;

/// The issued WIT.
pub struct IssueResponse {
    /// The compact WIT.
    pub wit: String,
}

/// A request to issue a WIT for a workload.
pub struct IssueRequest {
    /// The workload identifier to place in `sub`.
    pub sub: String,
    /// The workload's proof-of-possession public key, placed in `cnf`.
    pub cnf_jwk: Jwk,
    /// An optional lifetime in seconds; the issuer default is used if omitted.
    pub ttl: Option<u64>,
}

/// Why a request was refused, as a value.
pub enum IssueFailure {
    BadRequest(Seq<char>),
    Internal(Seq<char>),
}

/// An error returned by the issuer: a refused request, or a failure of the
/// issuer itself.
#[derive(Debug, Clone, PartialEq, Eq)]
pub enum IssueError {
    /// The request was malformed (400).
    BadRequest(String),
    /// The issuer failed to produce a token (500).
    Internal(String),
}

impl View for IssueError {
    type V = IssueFailure;

    open spec fn view(&self) -> IssueFailure {
        match self {
            IssueError::BadRequest(m) => IssueFailure::BadRequest(m@),
            IssueError::Internal(m) => IssueFailure::Internal(m@),
        }
    }
}

/// The issuer's configuration and signing key.
pub struct Issuer {
    signing_key: SigningKey,
    iss: String,
    kid: Option<String>,
    default_ttl: u64,
}

pub open spec fn opt_chars(o: Option<String>) -> Option<Seq<char>> {
    match o {
        Some(s) => Some(s@),
        None => None,
    }
}

/// What the issuer grants a request at time `iat`: the subject (trimmed), the
/// expiry, or the message of a refusal. `default_ttl` is both the lifetime of
/// a request that names none and the longest a request may ask for.
pub open spec fn grant(
    sub: Seq<char>,
    cnf: JwkView,
    ttl: Option<u64>,
    default_ttl: u64,
    iat: u64,
) -> Result<(Seq<char>, int), Seq<char>> {
    let t = match ttl {
        Some(t) => t,
        None => default_ttl,
    };
    match spec_parse(trim(sub)) {
        Err(e) => Err("invalid sub: "@ + parse_error_message(e)),
        Ok(_) => if spec_jwk_key(cnf) is Err {
            Err("invalid cnf_jwk"@)
        } else if t == 0 {
            Err("ttl must be greater than 0"@)
        } else if t > default_ttl {
            Err(
                "requested ttl "@ + decimal(t as nat) + "s exceeds the maximum of "@ + decimal(
                    default_ttl as nat,
                ) + "s"@,
            )
        } else if iat + t > u64::MAX {
            Err("ttl overflows the expiry time"@)
        } else {
            Ok((trim(sub), iat + t))
        },
    }
}

impl Issuer {
    /// The issuer's signing key.
    pub closed spec fn key(&self) -> SigningKey {
        self.signing_key
    }

    /// The `iss` it claims.
    pub closed spec fn iss(&self) -> Seq<char> {
        self.iss@
    }

    /// The JOSE `kid` it stamps.
    pub closed spec fn kid_spec(&self) -> Option<Seq<char>> {
        opt_chars(self.kid)
    }

    /// The default, and longest, lifetime it grants.
    pub closed spec fn default_ttl(&self) -> u64 {
        self.default_ttl
    }

    /// Creates an issuer that signs WITs with `signing_key`, claiming `iss`,
    /// stamping the JOSE `kid`, and defaulting to a `default_ttl`-second
    /// lifetime. A `default_ttl` of 0 would refuse every request that does not
    /// set a TTL, so it is not accepted.
    pub fn new(signing_key: SigningKey, iss: String, kid: Option<String>, default_ttl: u64) -> (r:
        Issuer)
        requires
            default_ttl > 0,
        ensures
            r.key()@ == signing_key@,
            r.iss() == iss@,
            r.kid_spec() == opt_chars(kid),
            r.default_ttl() == default_ttl,
    {
        Issuer { signing_key, iss, kid, default_ttl }
    }

    /// The issuer's signing key, with which the service signs what it grants.
    pub fn signing_key(&self) -> (r: &SigningKey)
        ensures
            r@ == self.key()@,
    {
        &self.signing_key
    }

    /// The `kid` the issuer stamps on its tokens.
    pub fn kid(&self) -> (r: Option<&str>)
        ensures
            match r {
                Some(k) => self.kid_spec() == Some(k@),
                None => self.kid_spec() is None,
            },
    {
        match &self.kid {
            Some(k) => Some(k.as_str()),
            None => None,
        }
    }

    /// The issuer's public key as a JWK.
    pub fn public_jwk(&self) -> (r: Jwk)
        ensures
            r@ == spec_jwk_of(public_of(self.key()@)),
    {
        Jwk::from_verifying_key(&self.signing_key.verifying_key())
    }

    /// The claims of the WIT answering `request` at time `iat`, with token id
    /// `jti`; or the refusal, with its message.
    pub fn claims_for(&self, request: &IssueRequest, iat: u64, jti: String) -> (r: Result<
        WitClaims,
        IssueError,
    >)
        ensures
            match grant(request.sub@, request.cnf_jwk@, request.ttl, self.default_ttl(), iat) {
                Ok((sub, exp)) => r matches Ok(c) && c@ == (WitClaimsView {
                    iss: Some(self.iss()),
                    sub: c@.sub,
                    iat: Some(iat),
                    exp: exp as u64,
                    jti: Some(jti@),
                    cnf: request.cnf_jwk@,
                }) && c@.sub.uri == sub,
                Err(m) => r matches Err(e) && e@ == IssueFailure::BadRequest(m),
            },
    {
        let sub: WorkloadIdentifier = match WorkloadIdentifier::parse(trim_str(request.sub.as_str()).as_str()) {
            Ok(id) => id,
            Err(e) => {
                let mut m: String = owned("invalid sub: ");
                push_str(&mut m, e.message().as_str());
                return Err(IssueError::BadRequest(m));
            },
        };
        // A confirmation key must be a usable verifying key.
        if request.cnf_jwk.to_verifying_key().is_err() {
            return Err(IssueError::BadRequest(owned("invalid cnf_jwk")));
        }
        let ttl: u64 = match request.ttl {
            Some(t) => t,
            None => self.default_ttl,
        };
        if ttl == 0 {
            return Err(IssueError::BadRequest(owned("ttl must be greater than 0")));
        }
        if ttl > self.default_ttl {
            let mut m: String = owned("requested ttl ");
            push_decimal(&mut m, ttl);
            push_str(&mut m, "s exceeds the maximum of ");
            push_decimal(&mut m, self.default_ttl);
            push_str(&mut m, "s");
            return Err(IssueError::BadRequest(m));
        }
        let exp: u64 = match iat.checked_add(ttl) {
            Some(e) => e,
            None => return Err(IssueError::BadRequest(owned("ttl overflows the expiry time"))),
        };
        Ok(
            WitClaims {
                iss: Some(self.iss.clone()),
                sub,
                iat: Some(iat),
                exp,
                jti: Some(jti),
                cnf: Confirmation { jwk: request.cnf_jwk.clone() },
            },
        )
    }

    /// The claims of the WIT answering `request` at time `iat`, with a fresh
    /// random token id. A request that is refused is refused before any
    /// random bytes are drawn; a failure of the random source is the issuer's
    /// own (internal) error.
    pub fn claims_with_fresh_id(&self, request: &IssueRequest, iat: u64) -> (r: Result<
        WitClaims,
        IssueError,
    >)
        ensures
            match grant(request.sub@, request.cnf_jwk@, request.ttl, self.default_ttl(), iat) {
                Err(m) => r matches Err(e) && e@ == IssueFailure::BadRequest(m),
                Ok((sub, exp)) => match r {
                    Ok(c) => c@ == (WitClaimsView {
                        iss: Some(self.iss()),
                        sub: c@.sub,
                        iat: Some(iat),
                        exp: exp as u64,
                        jti: c@.jti,
                        cnf: request.cnf_jwk@,
                    }) && c@.sub.uri == sub && exists|b: Seq<u8>|
                        b.len() == 16 && c@.jti == Some(#[trigger] hex(b)),
                    Err(e) => e@ is Internal,
                },
            },
    {
        let mut claims: WitClaims = match self.claims_for(request, iat, owned("")) {
            Ok(c) => c,
            Err(e) => return Err(e),
        };
        match random_id() {
            Ok(id) => {
                claims.jti = Some(id);
                Ok(claims)
            },
            Err(e) => Err(IssueError::Internal(e)),
        }
    }
}

// ---------------------------------------------------------------------------
// Token ids.
// ---------------------------------------------------------------------------

/// The lowercase hexadecimal digit of a nibble.
pub open spec fn hex_digit(n: int) -> char {
    if n < 10 {
        (('0' as int) + n) as char
    } else {
        (('a' as int) + n - 10) as char
    }
}

/// Bytes as lowercase hexadecimal, two digits each.
pub open spec fn hex(bytes: Seq<u8>) -> Seq<char>
    decreases bytes.len(),
{
    if bytes.len() == 0 {
        Seq::empty()
    } else {
        hex(bytes.drop_last()) + seq![
            hex_digit(bytes.last() as int / 16),
            hex_digit(bytes.last() as int % 16),
        ]
    }
}

fn hex_char(n: u8) -> (c: char)
    requires
        n < 16,
    ensures
        c == hex_digit(n as int),
{
    if n < 10 {
        (('0' as u8) + n) as char
    } else {
        (('a' as u8) + n - 10) as char
    }
}

/// Bytes as lowercase hexadecimal, the form of a token id.
pub fn hex_id(bytes: &[u8]) -> (r: String)
    ensures
        r@ == hex(bytes@),
{
    let mut s: String = String::new();
    let mut i: usize = 0;
    while i < bytes.len()
        invariant
            i <= bytes@.len(),
            s@ == hex(bytes@.subrange(0, i as int)),
        decreases bytes@.len() - i,
    {
        let b: u8 = bytes[i];
        crate::text::push_char(&mut s, hex_char(b / 16));
        crate::text::push_char(&mut s, hex_char(b % 16));
        proof {
            assert(bytes@.subrange(0, i + 1 as int).drop_last() =~= bytes@.subrange(0, i as int));
        }
        i = i + 1;
    }
    assert(bytes@.subrange(0, bytes@.len() as int) =~= bytes@);
    s
}

/// 16 bytes from the operating system's random source (`getrandom`), or the
/// source's error message. Nothing is stated of which bytes come back.
#[verifier::external_body]
fn random_bytes() -> (r: Result<[u8; 16], String>) {
    let mut bytes = [0u8; 16];
    match getrandom::getrandom(&mut bytes) {
        Ok(()) => Ok(bytes),
        Err(e) => Err(format!("getrandom: {e}")),
    }
}

/// A random 128-bit token id, as 32 lowercase hexadecimal digits.
pub fn random_id() -> (r: Result<String, String>)
    ensures
        r matches Ok(id) ==> exists|b: Seq<u8>| b.len() == 16 && id@ == hex(b),
{
    match random_bytes() {
        Ok(bytes) => Ok(hex_id(bytes.as_slice())),
        Err(e) => Err(e),
    }
}

} // verus!
