//! Post-quantum key encapsulation (ML-KEM-768) and signatures (ML-DSA-65)
//! behind a size-validated keying interface.
//!
//! Every byte buffer that crosses this interface is checked for its exact
//! length before any cryptographic work starts, every failure is returned as
//! a [`error::CryptoError`], and nothing here panics.

pub mod error;
pub mod entropy;
pub mod hash;
pub mod kem_primitive;
pub mod kem;
pub mod dsa_primitive;
pub mod dsa;
pub mod info;
pub mod benchmark;
