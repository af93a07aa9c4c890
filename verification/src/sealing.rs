//! AES-256-GCM authenticated encryption and decryption.
//!
//! The associated data is authenticated but not encrypted, and is bound into
//! the tag on both the encrypt and the decrypt path. Nonce uniqueness per key
//! is a caller obligation this module cannot enforce: reusing a nonce under
//! the same key catastrophically breaks confidentiality and authenticity.
//! Decryption is all-or-nothing: on a tag mismatch no plaintext byte leaves.

use vstd::prelude::*;
use aes_gcm::{Aes256Gcm, Key, KeyInit, Nonce};
use aes_gcm::aead::{Aead, Payload};
use crate::error::CryptoError;

verus! {

/// The authentication tag appended to every ciphertext.
pub const GCM_TAG_LEN: usize = 16;

/// The construction's ceiling on the plaintext and on the associated data,
/// in bytes.
pub const GCM_LEN_MAX: u64 = 1u64 << 36;

/// The ciphertext (plaintext length plus 16-byte tag) that AES-256-GCM
/// produces for a 32-byte key, a 12-byte nonce, a plaintext and associated
/// data.
pub uninterp spec fn aes_gcm_seal(key: Seq<u8>, nonce: Seq<u8>, plaintext: Seq<u8>, aad: Seq<u8>) -> Seq<u8>;

/// What AES-256-GCM decryption returns for a 32-byte key, a 12-byte nonce, a
/// ciphertext and associated data: the recovered plaintext, or nothing when
/// the tag does not authenticate.
pub uninterp spec fn aes_gcm_open(key: Seq<u8>, nonce: Seq<u8>, ciphertext: Seq<u8>, aad: Seq<u8>) -> Option<Seq<u8>>;

/// Relies on aes_gcm::Aes256Gcm through the aead::Aead trait: encryption is a
/// function of key, nonce, plaintext and associated data alone; it succeeds
/// exactly when the plaintext and the associated data are each at most 2^36
/// bytes, and then returns the plaintext's length plus the 16-byte tag.
#[verifier::external_body]
fn seal(key: &[u8], nonce: &[u8], plaintext: &[u8], aad: &[u8]) -> (r: Option<Vec<u8>>)
    requires
        key@.len() == 32,
        nonce@.len() == 12,
    ensures
        (r is Some) == (plaintext@.len() <= GCM_LEN_MAX && aad@.len() <= GCM_LEN_MAX),
        r matches Some(ct) ==> ct@ == aes_gcm_seal(key@, nonce@, plaintext@, aad@)
            && ct@.len() == plaintext@.len() + GCM_TAG_LEN,
{
    let cipher = Aes256Gcm::new(Key::<Aes256Gcm>::from_slice(key));
    let payload = Payload { msg: plaintext, aad };
    match cipher.encrypt(Nonce::from_slice(nonce), payload) {
        Ok(ct) => Some(ct),
        Err(_) => None,
    }
}

/// Relies on aes_gcm::Aes256Gcm through the aead::Aead trait: acceptance and
/// the recovered plaintext are a function of key, nonce, ciphertext and
/// associated data alone; a ciphertext shorter than the tag is refused; on
/// success the plaintext is the ciphertext minus the 16-byte tag. The crate
/// documents the round trip, which the last clause states: a ciphertext that
/// was sealed under the same key, nonce and associated data opens to exactly
/// the plaintext that was sealed.
#[verifier::external_body]
fn open(key: &[u8], nonce: &[u8], ciphertext: &[u8], aad: &[u8]) -> (r: Option<Vec<u8>>)
    requires
        key@.len() == 32,
        nonce@.len() == 12,
    ensures
        (r is Some) == (aes_gcm_open(key@, nonce@, ciphertext@, aad@) is Some),
        r matches Some(pt) ==> Some(pt@) == aes_gcm_open(key@, nonce@, ciphertext@, aad@)
            && pt@.len() + GCM_TAG_LEN == ciphertext@.len(),
        r is Some ==> ciphertext@.len() >= GCM_TAG_LEN,
        (forall|pt: Seq<u8>|
            pt.len() <= GCM_LEN_MAX && aad@.len() <= GCM_LEN_MAX
                && ciphertext@ == aes_gcm_seal(key@, nonce@, pt, aad@)
                ==> r is Some && r->Some_0@ == pt),
{
    let cipher = Aes256Gcm::new(Key::<Aes256Gcm>::from_slice(key));
    let payload = Payload { msg: ciphertext, aad };
    match cipher.decrypt(Nonce::from_slice(nonce), payload) {
        Ok(pt) => Some(pt),
        Err(_) => None,
    }
}

/// AES-256-GCM encryption. The key must be exactly 32 bytes and the nonce
/// exactly 12; anything else is refused before the cipher runs. The result is
/// the ciphertext with the 16-byte authentication tag appended, over which
/// the associated data is also authenticated.
pub fn aes_encrypt(key: &[u8], nonce: &[u8], plaintext: &[u8], aad: &[u8]) -> (r: Result<
    Vec<u8>,
    CryptoError,
>)
    ensures
        r is Ok <==> key@.len() == 32 && nonce@.len() == 12 && plaintext@.len() <= GCM_LEN_MAX
            && aad@.len() <= GCM_LEN_MAX,
        r matches Ok(ct) ==> ct@ == aes_gcm_seal(key@, nonce@, plaintext@, aad@)
            && ct@.len() == plaintext@.len() + GCM_TAG_LEN,
        key@.len() != 32 || nonce@.len() != 12
            ==> (r matches Err(e) && e == CryptoError::InvalidInputLength),
        key@.len() == 32 && nonce@.len() == 12
            && !(plaintext@.len() <= GCM_LEN_MAX && aad@.len() <= GCM_LEN_MAX)
            ==> (r matches Err(e) && e == CryptoError::EncryptionFailed),
{
    if key.len() != 32 || nonce.len() != 12 {
        return Err(CryptoError::InvalidInputLength);
    }
    match seal(key, nonce, plaintext, aad) {
        Some(ct) => Ok(ct),
        None => Err(CryptoError::EncryptionFailed),
    }
}

/// AES-256-GCM decryption. The key must be exactly 32 bytes and the nonce
/// exactly 12. The trailing tag is verified against key, nonce and associated
/// data before any plaintext is returned; a mismatch or a malformed
/// ciphertext yields an authentication error and no partial plaintext. The
/// last clause is the round trip: a ciphertext sealed under the same key,
/// nonce and associated data decrypts to the original plaintext.
pub fn aes_decrypt(key: &[u8], nonce: &[u8], ciphertext: &[u8], aad: &[u8]) -> (r: Result<
    Vec<u8>,
    CryptoError,
>)
    ensures
        r is Ok <==> key@.len() == 32 && nonce@.len() == 12
            && aes_gcm_open(key@, nonce@, ciphertext@, aad@) is Some,
        r matches Ok(pt) ==> Some(pt@) == aes_gcm_open(key@, nonce@, ciphertext@, aad@)
            && pt@.len() + GCM_TAG_LEN == ciphertext@.len(),
        key@.len() != 32 || nonce@.len() != 12
            ==> (r matches Err(e) && e == CryptoError::InvalidInputLength),
        key@.len() == 32 && nonce@.len() == 12
            && aes_gcm_open(key@, nonce@, ciphertext@, aad@) is None
            ==> (r matches Err(e) && e == CryptoError::AuthenticationFailed),
        (forall|pt: Seq<u8>|
            key@.len() == 32 && nonce@.len() == 12 && pt.len() <= GCM_LEN_MAX
                && aad@.len() <= GCM_LEN_MAX
                && ciphertext@ == aes_gcm_seal(key@, nonce@, pt, aad@)
                ==> (r matches Ok(p) && p@ == pt)),
{
    if key.len() != 32 || nonce.len() != 12 {
        return Err(CryptoError::InvalidInputLength);
    }
    match open(key, nonce, ciphertext, aad) {
        Some(pt) => Ok(pt),
        None => Err(CryptoError::AuthenticationFailed),
    }
}

} // verus!
