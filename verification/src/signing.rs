//! Ed25519 key-pair generation, signing and verification.
//!
//! A key pair travels as its standard 64-byte encoding: the 32-byte seed
//! followed by the 32-byte public key derived from it. Verification keeps the
//! distinction the callers need for trust decisions: a malformed encoding is
//! an error, while a well-formed signature that does not verify is `false`.

use vstd::prelude::*;
use ed25519_dalek::{Keypair, PublicKey, SecretKey, Signature, Signer, Verifier};
use crate::entropy::random_bytes;
use crate::error::CryptoError;

verus! {

/// The 32-byte Ed25519 public key derived from a 32-byte seed.
pub uninterp spec fn ed25519_derived_public(seed: Seq<u8>) -> Seq<u8>;

/// Whether a 64-byte key-pair encoding is structurally acceptable: its public
/// half decodes to a curve point.
pub uninterp spec fn ed25519_keypair_accepted(keypair: Seq<u8>) -> bool;

/// Whether a 32-byte public-key encoding decodes to a curve point.
pub uninterp spec fn ed25519_pubkey_accepted(public_key: Seq<u8>) -> bool;

/// Whether a 64-byte signature encoding is structurally acceptable: the top
/// three bits of its trailing scalar byte are clear.
pub uninterp spec fn ed25519_sig_accepted(signature: Seq<u8>) -> bool;

/// The deterministic 64-byte Ed25519 signature of a message under a 64-byte
/// key-pair encoding.
pub uninterp spec fn ed25519_signature_of(keypair: Seq<u8>, message: Seq<u8>) -> Seq<u8>;

/// Whether a well-formed signature verifies for a message under a well-formed
/// public key.
pub uninterp spec fn ed25519_verifies(public_key: Seq<u8>, message: Seq<u8>, signature: Seq<u8>) -> bool;

/// A 64-byte key-pair encoding whose public half really is the one derived
/// from its seed half, as the generator produces it. Signatures made with
/// such an encoding verify under its public half; an encoding that pairs a
/// seed with a foreign public key does not give that guarantee.
pub open spec fn ed25519_keypair_genuine(keypair: Seq<u8>) -> bool {
    &&& keypair.len() == 64
    &&& keypair.subrange(32, 64) == ed25519_derived_public(keypair.subrange(0, 32))
}

/// A public key and a signature as the library itself produces them: the
/// public half of a genuine, accepted key-pair encoding, and the signature of
/// `message` under that encoding. Each conjunct is established by the
/// `ensures` of the generator and of the signer.
pub open spec fn ed25519_signed_pair(
    keypair: Seq<u8>,
    public_key: Seq<u8>,
    message: Seq<u8>,
    signature: Seq<u8>,
) -> bool {
    &&& ed25519_keypair_genuine(keypair)
    &&& ed25519_keypair_accepted(keypair)
    &&& public_key == keypair.subrange(32, 64)
    &&& ed25519_pubkey_accepted(public_key)
    &&& signature == ed25519_signature_of(keypair, message)
    &&& signature.len() == 64
    &&& ed25519_sig_accepted(signature)
}

/// A freshly generated Ed25519 key pair: the 64-byte encoding (seed followed
/// by public key) and the 32-byte public key on its own.
pub struct Ed25519Keypair {
    pub secret_key: Vec<u8>,
    pub public_key: Vec<u8>,
}

impl Ed25519Keypair {
    /// The encoding is genuine and accepted, and the standalone public key is
    /// exactly its public half.
    pub open spec fn wf(&self) -> bool {
        &&& self.secret_key@.len() == 64
        &&& self.public_key@.len() == 32
        &&& ed25519_keypair_genuine(self.secret_key@)
        &&& ed25519_keypair_accepted(self.secret_key@)
        &&& self.public_key@ == self.secret_key@.subrange(32, 64)
        &&& ed25519_pubkey_accepted(self.public_key@)
    }
}

/// Relies on ed25519_dalek::SecretKey::from_bytes (any 32 bytes are a seed),
/// PublicKey::from(&SecretKey) (the public key is a function of the seed
/// alone) and Keypair::to_bytes (the encoding is seed followed by public
/// key). Keypair::from_bytes accepts the encoding and PublicKey::from_bytes
/// accepts its public half, since that half was compressed from a real curve
/// point.
#[verifier::external_body]
fn keypair_from_seed(seed: &[u8]) -> (r: (Vec<u8>, Vec<u8>))
    requires
        seed@.len() == 32,
    ensures
        r.0@.len() == 64,
        r.0@.subrange(0, 32) == seed@,
        r.0@.subrange(32, 64) == r.1@,
        r.1@ == ed25519_derived_public(seed@),
        r.1@.len() == 32,
        ed25519_keypair_accepted(r.0@),
        ed25519_pubkey_accepted(r.1@),
{
    let secret = SecretKey::from_bytes(seed).unwrap();
    let public = PublicKey::from(&secret);
    let keypair = Keypair { secret, public };
    (keypair.to_bytes().to_vec(), public.to_bytes().to_vec())
}

/// Relies on ed25519_dalek::Keypair::from_bytes and Keypair::sign: from_bytes
/// succeeds on a 64-byte encoding exactly when its public half decodes (named
/// ed25519_keypair_accepted); sign is the deterministic RFC 8032 signature, a
/// function of the encoding and the message alone, and its 64 bytes end in a
/// reduced scalar, so Signature::from_bytes accepts them.
#[verifier::external_body]
fn sign_with_keypair(keypair: &[u8], message: &[u8]) -> (r: Option<Vec<u8>>)
    requires
        keypair@.len() == 64,
    ensures
        (r is Some) == ed25519_keypair_accepted(keypair@),
        r matches Some(sig) ==> sig@ == ed25519_signature_of(keypair@, message@)
            && sig@.len() == 64 && ed25519_sig_accepted(sig@),
{
    match Keypair::from_bytes(keypair) {
        Ok(kp) => Some(kp.sign(message).to_bytes().to_vec()),
        Err(_) => None,
    }
}

/// Relies on ed25519_dalek::PublicKey::from_bytes: on 32 bytes it succeeds
/// exactly when they decompress to a curve point, a function of the bytes
/// alone.
#[verifier::external_body]
fn public_key_accepted(public_key: &[u8]) -> (r: bool)
    requires
        public_key@.len() == 32,
    ensures
        r == ed25519_pubkey_accepted(public_key@),
{
    PublicKey::from_bytes(public_key).is_ok()
}

/// Relies on ed25519::Signature::from_bytes (re-exported by ed25519_dalek):
/// on 64 bytes it succeeds exactly when the top three bits of the last byte
/// are clear, a function of the bytes alone.
#[verifier::external_body]
fn signature_accepted(signature: &[u8]) -> (r: bool)
    requires
        signature@.len() == 64,
    ensures
        r == ed25519_sig_accepted(signature@),
{
    Signature::from_bytes(signature).is_ok()
}

/// Relies on ed25519_dalek::PublicKey::verify: acceptance is a function of
/// the public key, message and signature bytes alone. The crate's
/// documentation shows that a signature made by Keypair::sign verifies under
/// that keypair's own public key; the last clause states this for encodings
/// whose public half is derived from their seed half.
#[verifier::external_body]
fn verify_checked(public_key: &[u8], message: &[u8], signature: &[u8]) -> (r: bool)
    requires
        public_key@.len() == 32,
        ed25519_pubkey_accepted(public_key@),
        signature@.len() == 64,
        ed25519_sig_accepted(signature@),
    ensures
        r == ed25519_verifies(public_key@, message@, signature@),
        (forall|kp: Seq<u8>| ed25519_signed_pair(kp, public_key@, message@, signature@) ==> r),
{
    let pk = PublicKey::from_bytes(public_key).unwrap();
    let sig = Signature::from_bytes(signature).unwrap();
    pk.verify(message, &sig).is_ok()
}

/// Generate an Ed25519 key pair from the secure random source. Fails only
/// when entropy cannot be read.
pub fn generate_ed25519_keypair() -> (r: Result<Ed25519Keypair, CryptoError>)
    ensures
        r matches Ok(kp) ==> kp.wf(),
        r matches Err(e) ==> e == CryptoError::EntropyUnavailable,
{
    match random_bytes(32) {
        Some(seed) => {
            let (secret_key, public_key) = keypair_from_seed(seed.as_slice());
            Ok(Ed25519Keypair { secret_key, public_key })
        },
        None => Err(CryptoError::EntropyUnavailable),
    }
}

/// Sign a message with a 64-byte key-pair encoding. The signature is
/// deterministic: the same encoding and message always give the same 64
/// bytes. A wrong length is refused before the encoding is examined; an
/// encoding whose public half does not decode is refused as a key error.
pub fn ed25519_sign(keypair: &[u8], message: &[u8]) -> (r: Result<Vec<u8>, CryptoError>)
    ensures
        r is Ok <==> keypair@.len() == 64 && ed25519_keypair_accepted(keypair@),
        r matches Ok(sig) ==> sig@ == ed25519_signature_of(keypair@, message@)
            && sig@.len() == 64 && ed25519_sig_accepted(sig@),
        keypair@.len() != 64 ==> (r matches Err(e) && e == CryptoError::InvalidInputLength),
        keypair@.len() == 64 && !ed25519_keypair_accepted(keypair@)
            ==> (r matches Err(e) && e == CryptoError::InvalidKeyEncoding),
{
    if keypair.len() != 64 {
        return Err(CryptoError::InvalidInputLength);
    }
    match sign_with_keypair(keypair, message) {
        Some(sig) => Ok(sig),
        None => Err(CryptoError::InvalidKeyEncoding),
    }
}

/// Verify a signature over a message. Malformed inputs are errors (wrong
/// length, undecodable key, undecodable signature, in that order of
/// precedence), while a well-formed signature that simply does not verify is
/// `Ok(false)`. The last clause is the signature round trip: a public key and
/// signature produced by this library's generator and signer always verify.
pub fn ed25519_verify(public_key: &[u8], message: &[u8], signature: &[u8]) -> (r: Result<
    bool,
    CryptoError,
>)
    ensures
        r is Ok <==> public_key@.len() == 32 && signature@.len() == 64
            && ed25519_pubkey_accepted(public_key@) && ed25519_sig_accepted(signature@),
        r matches Ok(v) ==> v == ed25519_verifies(public_key@, message@, signature@),
        public_key@.len() != 32 || signature@.len() != 64
            ==> (r matches Err(e) && e == CryptoError::InvalidInputLength),
        public_key@.len() == 32 && signature@.len() == 64
            && !ed25519_pubkey_accepted(public_key@)
            ==> (r matches Err(e) && e == CryptoError::InvalidKeyEncoding),
        public_key@.len() == 32 && signature@.len() == 64
            && ed25519_pubkey_accepted(public_key@) && !ed25519_sig_accepted(signature@)
            ==> (r matches Err(e) && e == CryptoError::InvalidSignatureEncoding),
        (forall|kp: Seq<u8>| ed25519_signed_pair(kp, public_key@, message@, signature@)
            ==> (r matches Ok(v) && v == true)),
{
    if public_key.len() != 32 || signature.len() != 64 {
        return Err(CryptoError::InvalidInputLength);
    }
    if !public_key_accepted(public_key) {
        return Err(CryptoError::InvalidKeyEncoding);
    }
    if !signature_accepted(signature) {
        return Err(CryptoError::InvalidSignatureEncoding);
    }
    Ok(verify_checked(public_key, message, signature))
}

} // verus!
