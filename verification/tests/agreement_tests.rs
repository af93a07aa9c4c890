use crypto_native::agreement::{generate_x25519_keypair, x25519_ecdh};
use crypto_native::error::CryptoError;

fn unhex(s: &str) -> Vec<u8> {
    let b = s.as_bytes();
    let mut out = Vec::new();
    let mut i = 0;
    while i < b.len() {
        let hi = (b[i] as char).to_digit(16).unwrap() as u8;
        let lo = (b[i + 1] as char).to_digit(16).unwrap() as u8;
        out.push(hi * 16 + lo);
        i += 2;
    }
    out
}

const ALICE_SECRET: &str = "77076d0a7318a57d3c16c17251b26645df4c2f87ebc0992ab177fba51db92c2a";
const ALICE_PUBLIC: &str = "8520f0098930a754748b7ddcb43ef75a0dbf3a0d26381af4eba4a98eaa9b4e6a";
const BOB_SECRET: &str = "5dab087e624a8a4b79e17f8b83800ee66f3bb1292618b6fd1c2f8b27ff88e0eb";
const BOB_PUBLIC: &str = "de9edb7d7b7dc1b4d35b61c2ece435373f8343c85b78674dadfc7e146f882b4f";
const SHARED: &str = "4a5d9d5ba4ce2de1728e3bf480350f25e07e21c947d19e3376f09b3c1e161742";

#[test]
fn ecdh_known_vector() {
    let shared = x25519_ecdh(&unhex(ALICE_SECRET), &unhex(BOB_PUBLIC)).unwrap();
    assert_eq!(shared, unhex(SHARED));
    let shared = x25519_ecdh(&unhex(BOB_SECRET), &unhex(ALICE_PUBLIC)).unwrap();
    assert_eq!(shared, unhex(SHARED));
}

#[test]
fn ecdh_shared_secret_symmetry() {
    let alice = generate_x25519_keypair().unwrap();
    let bob = generate_x25519_keypair().unwrap();
    let ab = x25519_ecdh(&alice.secret_key, &bob.public_key).unwrap();
    let ba = x25519_ecdh(&bob.secret_key, &alice.public_key).unwrap();
    assert_eq!(ab, ba);
    assert_eq!(ab.len(), 32);
}

#[test]
fn generated_x25519_keypair_has_fixed_sizes() {
    let kp = generate_x25519_keypair().unwrap();
    assert_eq!(kp.secret_key.len(), 32);
    assert_eq!(kp.public_key.len(), 32);
    assert_ne!(kp.secret_key, kp.public_key);
}

#[test]
fn ecdh_rejects_short_secret() {
    let r = x25519_ecdh(&unhex(ALICE_SECRET)[..31], &unhex(BOB_PUBLIC));
    assert_eq!(r.unwrap_err(), CryptoError::InvalidInputLength);
}

#[test]
fn ecdh_rejects_long_public() {
    let mut public = unhex(BOB_PUBLIC);
    public.push(0);
    let r = x25519_ecdh(&unhex(ALICE_SECRET), &public);
    assert_eq!(r.unwrap_err(), CryptoError::InvalidInputLength);
}

#[test]
fn ecdh_rejects_empty_inputs() {
    let r = x25519_ecdh(&[], &[]);
    assert_eq!(r.unwrap_err(), CryptoError::InvalidInputLength);
}
