//! The secure random source behind key-pair generation.

use vstd::prelude::*;
use ring::rand::{SecureRandom, SystemRandom};

verus! {

/// Relies on ring::rand::SystemRandom::fill: on success the buffer is filled
/// from the operating system's secure random source, and nothing can be said
/// of the bytes themselves; it reports failure when that source cannot be
/// read, which callers surface as an entropy error.
#[verifier::external_body]
pub(crate) fn random_bytes(n: usize) -> (r: Option<Vec<u8>>)
    ensures
        r matches Some(b) ==> b@.len() == n,
{
    let mut buf = vec![0u8; n];
    match SystemRandom::new().fill(&mut buf) {
        Ok(()) => Some(buf),
        Err(_) => None,
    }
}

} // verus!
