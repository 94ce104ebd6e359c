use wimsey::jose::{JoseError, SigningKey};
use wimsey::keyfile::{JwkKey, KeyError};

#[test]
fn a_key_file_round_trips_its_signing_key() {
    for key in [
        SigningKey::from_ed25519_seed(&[5u8; 32]),
        SigningKey::from_p256_scalar(&[6u8; 32]).unwrap(),
    ] {
        let file = JwkKey::from_signing_key(&key);
        assert!(file.d.is_some());
        let back = file.signing_key().unwrap();
        assert_eq!(back.to_bytes(), key.to_bytes());
        assert_eq!(file.verifying_key().unwrap(), key.verifying_key());
    }
}

#[test]
fn a_public_key_file_has_no_private_half() {
    let file = JwkKey::from_signing_key(&SigningKey::from_ed25519_seed(&[5u8; 32]));
    let public = file.to_public();
    assert_eq!(public.d, None);
    assert_eq!(public.x, file.x);
    assert!(matches!(public.signing_key(), Err(KeyError::MissingPrivate)));
    assert!(public.verifying_key().is_ok());
}

#[test]
fn fills_in_a_missing_alg_from_the_key_type() {
    let mut file = JwkKey::from_signing_key(&SigningKey::from_ed25519_seed(&[5u8; 32]));
    file.alg = None;
    assert!(file.signing_key().is_ok());
    file.kty = "RSA".to_owned();
    assert_eq!(
        file.verifying_key(),
        Err(KeyError::UnsupportedKey { kty: "RSA".to_owned(), crv: "Ed25519".to_owned() })
    );
}

#[test]
fn refuses_a_private_half_that_does_not_match() {
    let mut file = JwkKey::from_signing_key(&SigningKey::from_ed25519_seed(&[5u8; 32]));
    let other = JwkKey::from_signing_key(&SigningKey::from_ed25519_seed(&[6u8; 32]));
    file.d = other.d;
    assert!(matches!(file.signing_key(), Err(KeyError::InvalidPrivate(_))));
    file.x = "!!".to_owned();
    assert!(matches!(file.verifying_key(), Err(KeyError::InvalidPublic(JoseError::InvalidEncoding))));
}
