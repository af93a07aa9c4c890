//! Key derivation: HKDF-SHA-256 expansion and PBKDF2-HMAC-SHA-256 password
//! stretching. Both are deterministic: no randomness enters either.

use vstd::prelude::*;
use hkdf::Hkdf;
use ring::pbkdf2;
use sha2::Sha256;
use std::num::NonZeroU32;
use crate::error::CryptoError;

verus! {

/// The HKDF ceiling for a 256-bit hash: 255 blocks of 32 bytes.
pub const HKDF_MAX_OUTPUT_LEN: usize = 255 * 32;

/// Byte lengths at and beyond which the underlying digest's 64-bit length
/// counter could no longer be trusted; far beyond any allocatable buffer.
pub const DIGEST_INPUT_CEILING: u64 = 1u64 << 60;

/// The ceiling on PBKDF2 output: 2^32 - 1 blocks of 32 bytes.
pub const PBKDF2_MAX_OUTPUT_LEN: u64 = 0x1f_ffff_ffe0;

/// The output of HKDF-SHA-256 extract-then-expand for a salt, input key
/// material, context info and output length.
pub uninterp spec fn hkdf_sha256(salt: Seq<u8>, ikm: Seq<u8>, info: Seq<u8>, out_len: nat) -> Seq<u8>;

/// The output of PBKDF2 with HMAC-SHA-256 for a password, salt, iteration
/// count and output length.
pub uninterp spec fn pbkdf2_hmac_sha256(password: Seq<u8>, salt: Seq<u8>, iterations: nat, out_len: nat) -> Seq<u8>;

/// Relies on hkdf::Hkdf<sha2::Sha256>: extract-then-expand is a function of
/// salt, input key material, info and output length alone; expand fills the
/// whole buffer and fails only when more than 255 hash blocks are requested,
/// which the caller rules out.
#[verifier::external_body]
fn hkdf_extract_expand(salt: &[u8], ikm: &[u8], info: &[u8], out_len: usize) -> (r: Vec<u8>)
    requires
        out_len <= HKDF_MAX_OUTPUT_LEN,
    ensures
        r@ == hkdf_sha256(salt@, ikm@, info@, out_len as nat),
        r@.len() == out_len,
{
    let hk = Hkdf::<Sha256>::new(Some(salt), ikm);
    let mut okm = vec![0u8; out_len];
    hk.expand(info, &mut okm).unwrap();
    okm
}

/// Relies on ring::pbkdf2::derive with PBKDF2_HMAC_SHA256: the derived key is
/// a function of password, salt, iteration count and output length alone, and
/// fills the whole buffer. The callee aborts on a zero iteration count, on
/// more output blocks than a 32-bit counter can index, and on inputs past the
/// digest's length ceiling; the preconditions rule those out.
#[verifier::external_body]
fn pbkdf2_stretch(password: &[u8], salt: &[u8], iterations: u32, out_len: usize) -> (r: Vec<u8>)
    requires
        iterations >= 1,
        out_len <= PBKDF2_MAX_OUTPUT_LEN,
        password@.len() < DIGEST_INPUT_CEILING,
        salt@.len() < DIGEST_INPUT_CEILING,
    ensures
        r@ == pbkdf2_hmac_sha256(password@, salt@, iterations as nat, out_len as nat),
        r@.len() == out_len,
{
    let mut out = vec![0u8; out_len];
    let count = NonZeroU32::new(iterations).unwrap();
    pbkdf2::derive(pbkdf2::PBKDF2_HMAC_SHA256, count, salt, password, &mut out);
    out
}

/// HKDF-SHA-256: extract with the salt, then expand under the context info to
/// the requested length. Deterministic in all four inputs. Requests past the
/// 8160-byte ceiling are refused; the ceiling itself succeeds.
pub fn hkdf_expand(salt: &[u8], ikm: &[u8], info: &[u8], output_length: usize) -> (r: Result<
    Vec<u8>,
    CryptoError,
>)
    ensures
        r is Ok <==> output_length <= HKDF_MAX_OUTPUT_LEN,
        r matches Ok(okm) ==> okm@ == hkdf_sha256(salt@, ikm@, info@, output_length as nat)
            && okm@.len() == output_length,
        r matches Err(e) ==> e == CryptoError::DerivationLengthExceeded,
{
    if output_length > HKDF_MAX_OUTPUT_LEN {
        return Err(CryptoError::DerivationLengthExceeded);
    }
    Ok(hkdf_extract_expand(salt, ikm, info, output_length))
}

/// PBKDF2 with HMAC-SHA-256. Deterministic in all four inputs; the iteration
/// count trades latency for brute-force resistance and must be at least one —
/// zero is a recoverable error, never an abort.
pub fn pbkdf2_derive(password: &[u8], salt: &[u8], iterations: u32, output_length: usize) -> (r:
    Result<Vec<u8>, CryptoError>)
    requires
        output_length <= PBKDF2_MAX_OUTPUT_LEN,
        password@.len() < DIGEST_INPUT_CEILING,
        salt@.len() < DIGEST_INPUT_CEILING,
    ensures
        r is Ok <==> iterations >= 1,
        r matches Ok(dk) ==> dk@ == pbkdf2_hmac_sha256(
            password@,
            salt@,
            iterations as nat,
            output_length as nat,
        ) && dk@.len() == output_length,
        r matches Err(e) ==> e == CryptoError::InvalidIterationCount,
{
    if iterations == 0 {
        return Err(CryptoError::InvalidIterationCount);
    }
    Ok(pbkdf2_stretch(password, salt, iterations, output_length))
}

/// Identical salt, input key material, info and output length always derive
/// identical output: HKDF is a function of those four inputs alone.
pub proof fn lemma_hkdf_deterministic(
    salt: Seq<u8>,
    ikm: Seq<u8>,
    info: Seq<u8>,
    out_len: nat,
    first: Seq<u8>,
    second: Seq<u8>,
)
    requires
        first == hkdf_sha256(salt, ikm, info, out_len),
        second == hkdf_sha256(salt, ikm, info, out_len),
    ensures
        first == second,
{
}

/// Identical password, salt, iteration count and output length always derive
/// identical output: PBKDF2 is a function of those four inputs alone.
pub proof fn lemma_pbkdf2_deterministic(
    password: Seq<u8>,
    salt: Seq<u8>,
    iterations: nat,
    out_len: nat,
    first: Seq<u8>,
    second: Seq<u8>,
)
    requires
        first == pbkdf2_hmac_sha256(password, salt, iterations, out_len),
        second == pbkdf2_hmac_sha256(password, salt, iterations, out_len),
    ensures
        first == second,
{
}

} // verus!
