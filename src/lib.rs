//! Codec for OpenSSH public keys in the authorized-key wire format.

pub mod error;
pub mod wire;
pub mod keytype;
pub mod outside;
pub mod pubkey;
pub mod fingerprint;
pub mod laws;
