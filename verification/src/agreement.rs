//! X25519 key-pair generation and Diffie-Hellman key agreement.
//!
//! The shared secret is the raw x-coordinate of the scalar multiplication and
//! is not yet suitable as a symmetric key: callers must pass it through a key
//! derivation step first. No validation that the peer's public key is a
//! non-small-order point is performed; that trust boundary is the caller's.

use vstd::prelude::*;
use x25519_dalek::{PublicKey, StaticSecret};
use crate::entropy::random_bytes;
use crate::error::CryptoError;

verus! {

/// The 32-byte X25519 public key derived from 32 secret bytes.
pub uninterp spec fn x25519_public_of(secret: Seq<u8>) -> Seq<u8>;

/// The 32-byte shared secret of an X25519 exchange between a 32-byte secret
/// scalar and a 32-byte peer public point.
pub uninterp spec fn x25519_shared(secret: Seq<u8>, peer_public: Seq<u8>) -> Seq<u8>;

/// A freshly generated X25519 key pair: 32 secret bytes and the 32-byte
/// public key derived from them.
pub struct X25519Keypair {
    pub secret_key: Vec<u8>,
    pub public_key: Vec<u8>,
}

impl X25519Keypair {
    /// The public key is exactly the one derived from the secret key, and
    /// both have their fixed sizes.
    pub open spec fn wf(&self) -> bool {
        &&& self.secret_key@.len() == 32
        &&& self.public_key@.len() == 32
        &&& self.public_key@ == x25519_public_of(self.secret_key@)
    }
}

/// Relies on x25519_dalek::PublicKey::from(&StaticSecret): the public key is
/// the basepoint multiplied by the clamped secret scalar, a function of the
/// 32 secret bytes alone, encoded in 32 bytes.
#[verifier::external_body]
fn derive_public(secret: &[u8]) -> (r: Vec<u8>)
    requires
        secret@.len() == 32,
    ensures
        r@ == x25519_public_of(secret@),
        r@.len() == 32,
{
    let mut bytes = [0u8; 32];
    bytes.copy_from_slice(secret);
    let sk = StaticSecret::from(bytes);
    PublicKey::from(&sk).as_bytes().to_vec()
}

/// Relies on x25519_dalek::StaticSecret::diffie_hellman: the shared secret is
/// the peer's point multiplied by the clamped secret scalar, a 32-byte value
/// that is a function of the two 32-byte inputs alone. The crate's
/// documentation shows that both parties of an exchange compute the same
/// bytes, which the last clause states: against a peer public key that was
/// derived from some secret, the result equals what that peer computes
/// against our derived public key.
#[verifier::external_body]
fn shared_point(secret: &[u8], peer_public: &[u8]) -> (r: Vec<u8>)
    requires
        secret@.len() == 32,
        peer_public@.len() == 32,
    ensures
        r@.len() == 32,
        r@ == x25519_shared(secret@, peer_public@),
        (forall|other: Seq<u8>| other.len() == 32 && peer_public@ == x25519_public_of(other)
            ==> r@ == x25519_shared(other, x25519_public_of(secret@))),
{
    let mut secret_bytes = [0u8; 32];
    secret_bytes.copy_from_slice(secret);
    let mut public_bytes = [0u8; 32];
    public_bytes.copy_from_slice(peer_public);
    let sk = StaticSecret::from(secret_bytes);
    let pk = PublicKey::from(public_bytes);
    sk.diffie_hellman(&pk).as_bytes().to_vec()
}

/// Generate an X25519 key pair from the secure random source. Fails only when
/// entropy cannot be read.
pub fn generate_x25519_keypair() -> (r: Result<X25519Keypair, CryptoError>)
    ensures
        r matches Ok(kp) ==> kp.wf(),
        r matches Err(e) ==> e == CryptoError::EntropyUnavailable,
{
    match random_bytes(32) {
        Some(secret_key) => {
            let public_key = derive_public(secret_key.as_slice());
            Ok(X25519Keypair { secret_key, public_key })
        },
        None => Err(CryptoError::EntropyUnavailable),
    }
}

/// X25519 Diffie-Hellman key agreement. Both inputs must be exactly 32 bytes;
/// anything else is refused before the curve operation runs. The last clause
/// is the shared-secret symmetry: when the peer's public key was derived from
/// some secret, both parties compute the same 32 bytes.
pub fn x25519_ecdh(secret: &[u8], peer_public: &[u8]) -> (r: Result<Vec<u8>, CryptoError>)
    ensures
        r is Ok <==> secret@.len() == 32 && peer_public@.len() == 32,
        r matches Ok(s) ==> s@ == x25519_shared(secret@, peer_public@) && s@.len() == 32,
        r matches Err(e) ==> e == CryptoError::InvalidInputLength,
        (forall|other: Seq<u8>|
            secret@.len() == 32 && peer_public@.len() == 32 && other.len() == 32
                && peer_public@ == x25519_public_of(other)
                ==> (r matches Ok(s) && s@ == x25519_shared(other, x25519_public_of(secret@)))),
{
    if secret.len() != 32 || peer_public.len() != 32 {
        return Err(CryptoError::InvalidInputLength);
    }
    Ok(shared_point(secret, peer_public))
}

} // verus!
