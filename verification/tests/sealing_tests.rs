use crypto_native::sealing::{aes_encrypt, aes_decrypt};
use crypto_native::error::CryptoError;

fn unhex(s: &str) -> Vec<u8> {
    let b = s.as_bytes();
    let mut out = Vec::new();
    let mut i = 0;
    while i < b.len() {
        let hi = (b[i] as char).to_digit(16).unwrap() as u8;
        let lo = (b[i + 1] as char).to_digit(16).unwrap() as u8;
        out.push(hi * 16 + lo);
        i += 2;
    }
    out
}

fn key() -> Vec<u8> {
    (0u8..32).collect()
}

fn nonce() -> Vec<u8> {
    (100u8..112).collect()
}

const PLAINTEXT: &[u8] = b"hello world";
const AAD: &[u8] = b"header";
const CIPHERTEXT: &str = "207eb20a16c921f14c0e3b4e1a2e180445f7f4b9df51188a725515";
const CIPHERTEXT_EMPTY: &str = "609bd50f6ad76df665f048ba8c5fd706";

#[test]
fn encrypt_known_vector() {
    let ct = aes_encrypt(&key(), &nonce(), PLAINTEXT, AAD).unwrap();
    assert_eq!(ct, unhex(CIPHERTEXT));
    assert_eq!(ct.len(), PLAINTEXT.len() + 16);
}

#[test]
fn encrypt_empty_plaintext_is_just_the_tag() {
    let ct = aes_encrypt(&key(), &nonce(), b"", b"").unwrap();
    assert_eq!(ct, unhex(CIPHERTEXT_EMPTY));
    assert_eq!(ct.len(), 16);
    assert_eq!(aes_decrypt(&key(), &nonce(), &ct, b"").unwrap(), b"");
}

#[test]
fn decrypt_round_trip() {
    let ct = aes_encrypt(&key(), &nonce(), PLAINTEXT, AAD).unwrap();
    let pt = aes_decrypt(&key(), &nonce(), &ct, AAD).unwrap();
    assert_eq!(pt, PLAINTEXT);
}

#[test]
fn every_ciphertext_bit_is_tamper_evident() {
    let ct = aes_encrypt(&key(), &nonce(), PLAINTEXT, AAD).unwrap();
    for i in 0..ct.len() {
        for bit in 0..8 {
            let mut bad = ct.clone();
            bad[i] ^= 1 << bit;
            assert_eq!(
                aes_decrypt(&key(), &nonce(), &bad, AAD).unwrap_err(),
                CryptoError::AuthenticationFailed,
            );
        }
    }
}

#[test]
fn tampered_key_nonce_or_aad_fails_authentication() {
    let ct = aes_encrypt(&key(), &nonce(), PLAINTEXT, AAD).unwrap();
    for i in 0..32 {
        let mut k = key();
        k[i] ^= 1;
        assert_eq!(
            aes_decrypt(&k, &nonce(), &ct, AAD).unwrap_err(),
            CryptoError::AuthenticationFailed,
        );
    }
    for i in 0..12 {
        let mut n = nonce();
        n[i] ^= 1;
        assert_eq!(
            aes_decrypt(&key(), &n, &ct, AAD).unwrap_err(),
            CryptoError::AuthenticationFailed,
        );
    }
    for i in 0..AAD.len() {
        let mut aad = AAD.to_vec();
        aad[i] ^= 1;
        assert_eq!(
            aes_decrypt(&key(), &nonce(), &ct, &aad).unwrap_err(),
            CryptoError::AuthenticationFailed,
        );
    }
}

#[test]
fn aad_is_bound_into_the_tag() {
    let ct = aes_encrypt(&key(), &nonce(), PLAINTEXT, AAD).unwrap();
    assert_eq!(
        aes_decrypt(&key(), &nonce(), &ct, b"other").unwrap_err(),
        CryptoError::AuthenticationFailed,
    );
    assert_eq!(
        aes_decrypt(&key(), &nonce(), &ct, b"").unwrap_err(),
        CryptoError::AuthenticationFailed,
    );
}

#[test]
fn decrypt_rejects_truncated_ciphertext() {
    let r = aes_decrypt(&key(), &nonce(), &unhex(CIPHERTEXT)[..15], AAD);
    assert_eq!(r.unwrap_err(), CryptoError::AuthenticationFailed);
    let r = aes_decrypt(&key(), &nonce(), b"", AAD);
    assert_eq!(r.unwrap_err(), CryptoError::AuthenticationFailed);
}

#[test]
fn wrong_key_or_nonce_length_is_refused() {
    assert_eq!(
        aes_encrypt(&key()[..31], &nonce(), PLAINTEXT, AAD).unwrap_err(),
        CryptoError::InvalidInputLength,
    );
    assert_eq!(
        aes_encrypt(&key(), &nonce()[..11], PLAINTEXT, AAD).unwrap_err(),
        CryptoError::InvalidInputLength,
    );
    assert_eq!(
        aes_decrypt(&key()[..31], &nonce(), &unhex(CIPHERTEXT), AAD).unwrap_err(),
        CryptoError::InvalidInputLength,
    );
    assert_eq!(
        aes_decrypt(&key(), &nonce()[..11], &unhex(CIPHERTEXT), AAD).unwrap_err(),
        CryptoError::InvalidInputLength,
    );
}
