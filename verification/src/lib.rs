//! Cryptographic primitives over plain byte buffers: X25519 key agreement,
//! Ed25519 signatures, AES-256-GCM authenticated encryption, HKDF expansion
//! and PBKDF2 key stretching. Every operation validates its fixed-size inputs
//! exactly and reports failures through a typed error, never a panic.

pub mod agreement;
pub mod derivation;
pub mod entropy;
pub mod error;
pub mod sealing;
pub mod signing;
