//! A verifiable random function oracle: requests for randomness are
//! recorded against a seed, and fulfilled only by a BLS12-381 proof that
//! verifies against the registered oracle public key.

pub mod encoding;
pub mod crypto;
pub mod vrf;
pub mod contract;
pub mod laws;
pub mod sequences;

