//! Key files as the command line stores them: a JWK, `OKP`/`Ed25519` or
//! `EC`/`P-256`, plus `d` for a private key. The shape and its validation are
//! the JOSE module's, so a key file and a key inside a credential cannot
//! disagree about what a JWK means.

use vstd::prelude::*;

use crate::jose::{
    Algorithm, JoseError, JoseFailure, Jwk, JwkView, PrivateJwk, PrivateJwkView, SigningKey,
    SigningKeyView, VerifyingKey, VerifyingKeyView, alg_name, crv_ed25519, crv_p256, kty_ec,
    kty_okp, literal_ec, literal_ed25519, literal_okp, literal_p256, opt_view, spec_jwk_key, spec_private_jwk_of, spec_private_key,
};
use crate::text::{owned, str_eq, trim, trim_str};

verus! {

broadcast use vstd::string::group_string_axioms;

/// A JSON Web Key as stored on disk, private half included when present.
#[derive(Debug, Clone, PartialEq, Eq)]
pub struct JwkKey {
    /// The algorithm this key is for.
    pub alg: Option<String>,
    /// Key type: `OKP` for Ed25519, `EC` for P-256.
    pub kty: String,
    /// Curve: `Ed25519` or `P-256`.
    pub crv: String,
    /// The Base64url-encoded public key, or the x coordinate for `EC`.
    pub x: String,
    /// The Base64url-encoded y coordinate. Present for `EC` only.
    pub y: Option<String>,
    /// The Base64url-encoded 32-byte private seed or scalar, for private keys.
    pub d: Option<String>,
}

/// A key file, by value.
pub struct JwkKeyView {
    pub alg: Option<Seq<char>>,
    pub kty: Seq<char>,
    pub crv: Seq<char>,
    pub x: Seq<char>,
    pub y: Option<Seq<char>>,
    pub d: Option<Seq<char>>,
}

impl View for JwkKey {
    type V = JwkKeyView;

    open spec fn view(&self) -> JwkKeyView {
        JwkKeyView {
            alg: opt_view(self.alg),
            kty: self.kty@,
            crv: self.crv@,
            x: self.x@,
            y: opt_view(self.y),
            d: opt_view(self.d),
        }
    }
}

/// Why a key file was refused, as a value.
pub enum KeyFailure {
    UnsupportedKey(Seq<char>, Seq<char>),
    MissingPrivate,
    InvalidPrivate(JoseFailure),
    InvalidPublic(JoseFailure),
}

/// A key file that cannot be used.
#[derive(Debug, Clone, PartialEq, Eq)]
pub enum KeyError {
    /// No `alg`, and a key type and curve that name no supported algorithm.
    UnsupportedKey {
        /// The key type found.
        kty: String,
        /// The curve found.
        crv: String,
    },
    /// A signing key was asked of a file without `d`.
    MissingPrivate,
    /// The private key did not decode, or does not match the public members.
    InvalidPrivate(JoseError),
    /// The public key did not decode.
    InvalidPublic(JoseError),
}

impl View for KeyError {
    type V = KeyFailure;

    open spec fn view(&self) -> KeyFailure {
        match self {
            KeyError::UnsupportedKey { kty, crv } => KeyFailure::UnsupportedKey(kty@, crv@),
            KeyError::MissingPrivate => KeyFailure::MissingPrivate,
            KeyError::InvalidPrivate(e) => KeyFailure::InvalidPrivate(e@),
            KeyError::InvalidPublic(e) => KeyFailure::InvalidPublic(e@),
        }
    }
}

/// The public JWK of a key file, with `alg` filled in from the key type when
/// the file omits it — older key files predate the member.
pub open spec fn public_jwk_spec(k: JwkKeyView) -> Result<JwkView, KeyFailure> {
    let alg = match k.alg {
        Some(a) => Ok(a),
        None => if k.kty == kty_okp() && k.crv == crv_ed25519() {
            Ok(alg_name(Algorithm::EdDsa))
        } else if k.kty == kty_ec() && k.crv == crv_p256() {
            Ok(alg_name(Algorithm::Es256))
        } else {
            Err(KeyFailure::UnsupportedKey(k.kty, k.crv))
        },
    };
    match alg {
        Err(e) => Err(e),
        Ok(a) => Ok(JwkView { alg: Some(a), kty: k.kty, crv: k.crv, x: k.x, y: k.y }),
    }
}

/// What [`JwkKey::signing_key`] decides.
pub open spec fn signing_key_spec(k: JwkKeyView) -> Result<SigningKeyView, KeyFailure> {
    match public_jwk_spec(k) {
        Err(e) => Err(e),
        Ok(p) => match k.d {
            None => Err(KeyFailure::MissingPrivate),
            Some(d) => match spec_private_key(PrivateJwkView { public: p, d: trim(d) }) {
                Ok(sk) => Ok(sk),
                Err(f) => Err(KeyFailure::InvalidPrivate(f)),
            },
        },
    }
}

/// What [`JwkKey::verifying_key`] decides.
pub open spec fn verifying_key_spec(k: JwkKeyView) -> Result<VerifyingKeyView, KeyFailure> {
    match public_jwk_spec(k) {
        Err(e) => Err(e),
        Ok(p) => match spec_jwk_key(p) {
            Ok(vk) => Ok(vk),
            Err(f) => Err(KeyFailure::InvalidPublic(f)),
        },
    }
}

fn clone_opt(o: &Option<String>) -> (r: Option<String>)
    ensures
        opt_view(r) == opt_view(*o),
{
    match o {
        Some(s) => Some(s.clone()),
        None => None,
    }
}

impl JwkKey {
    /// Builds a private key file from a signing key.
    pub fn from_signing_key(key: &SigningKey) -> (r: JwkKey)
        ensures
            r@.d == Some(spec_private_jwk_of(key@).d),
            r@.alg == spec_private_jwk_of(key@).public.alg,
            r@.kty == spec_private_jwk_of(key@).public.kty,
            r@.crv == spec_private_jwk_of(key@).public.crv,
            r@.x == spec_private_jwk_of(key@).public.x,
            r@.y == spec_private_jwk_of(key@).public.y,
    {
        let jwk: PrivateJwk = PrivateJwk::from_signing_key(key);
        JwkKey { alg: jwk.alg, kty: jwk.kty, crv: jwk.crv, x: jwk.x, y: jwk.y, d: Some(jwk.d) }
    }

    /// A copy of this key with the private component removed.
    pub fn to_public(&self) -> (r: JwkKey)
        ensures
            r@ == (JwkKeyView { d: None, ..self@ }),
    {
        JwkKey {
            d: None,
            alg: clone_opt(&self.alg),
            kty: self.kty.clone(),
            crv: self.crv.clone(),
            x: self.x.clone(),
            y: clone_opt(&self.y),
        }
    }

    fn public_jwk(&self) -> (r: Result<Jwk, KeyError>)
        ensures
            match r {
                Ok(j) => public_jwk_spec(self@) == Ok::<JwkView, KeyFailure>(j@),
                Err(e) => public_jwk_spec(self@) == Err::<JwkView, KeyFailure>(e@),
            },
    {
        let alg: String = match &self.alg {
            Some(a) => a.clone(),
            None => {
                if str_eq(self.kty.as_str(), literal_okp()) && str_eq(
                    self.crv.as_str(),
                    literal_ed25519(),
                ) {
                    owned(Algorithm::EdDsa.as_str())
                } else if str_eq(self.kty.as_str(), literal_ec()) && str_eq(
                    self.crv.as_str(),
                    literal_p256(),
                ) {
                    owned(Algorithm::Es256.as_str())
                } else {
                    return Err(
                        KeyError::UnsupportedKey { kty: self.kty.clone(), crv: self.crv.clone() },
                    );
                }
            },
        };
        Ok(
            Jwk {
                alg: Some(alg),
                kty: self.kty.clone(),
                crv: self.crv.clone(),
                x: self.x.clone(),
                y: clone_opt(&self.y),
            },
        )
    }

    /// The signing key. Errors if this is a public-only key, or if the stored
    /// public half does not match `d` — a mismatch would mean signing with one
    /// key while advertising another.
    pub fn signing_key(&self) -> (r: Result<SigningKey, KeyError>)
        ensures
            match r {
                Ok(k) => signing_key_spec(self@) == Ok::<SigningKeyView, KeyFailure>(k@),
                Err(e) => signing_key_spec(self@) == Err::<SigningKeyView, KeyFailure>(e@),
            },
    {
        let public: Jwk = match self.public_jwk() {
            Ok(p) => p,
            Err(e) => return Err(e),
        };
        let d: &String = match &self.d {
            Some(d) => d,
            None => return Err(KeyError::MissingPrivate),
        };
        let private: PrivateJwk = PrivateJwk {
            alg: public.alg,
            kty: public.kty,
            crv: public.crv,
            x: public.x,
            y: public.y,
            d: trim_str(d.as_str()),
        };
        match private.to_signing_key() {
            Ok(k) => Ok(k),
            Err(e) => Err(KeyError::InvalidPrivate(e)),
        }
    }

    /// The verifying (public) key.
    pub fn verifying_key(&self) -> (r: Result<VerifyingKey, KeyError>)
        ensures
            match r {
                Ok(k) => verifying_key_spec(self@) == Ok::<VerifyingKeyView, KeyFailure>(k@),
                Err(e) => verifying_key_spec(self@) == Err::<VerifyingKeyView, KeyFailure>(e@),
            },
    {
        let public: Jwk = match self.public_jwk() {
            Ok(p) => p,
            Err(e) => return Err(e),
        };
        match public.to_verifying_key() {
            Ok(k) => Ok(k),
            Err(e) => Err(KeyError::InvalidPublic(e)),
        }
    }
}

} // verus!
