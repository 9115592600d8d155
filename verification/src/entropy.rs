//! Fresh seeds from the operating system's secure random source.
//!
//! Every operation that needs randomness draws its own 32 bytes here and
//! expands them with ChaCha20; nothing is cached or reused between calls, and
//! a failure of the source is returned, never papered over.

use vstd::prelude::*;
use crate::error::CryptoError;

verus! {

/// Number of bytes in a seed.
pub const SEED_LEN: usize = 32;

/// The error type of the `getrandom` crate, carried through opaquely.
#[verifier::external_type_specification]
#[verifier::external_body]
pub struct ExGetrandomError(getrandom::Error);

/// Calls `getrandom::getrandom` on a fresh 32-byte buffer and hands back the
/// buffer, or the source's error.
///
/// Nothing is claimed of the bytes: they differ from call to call.
#[verifier::external_body]
fn os_random_seed() -> (outcome: Result<[u8; 32], getrandom::Error>) {
    let mut seed = [0u8; 32];
    match getrandom::getrandom(&mut seed) {
        Ok(()) => Ok(seed),
        Err(e) => Err(e),
    }
}

/// What a draw from the random source means to this library: the seed, or
/// `CryptoError::Entropy` whatever the source's own error was.
pub fn seed_from_outcome(outcome: Result<[u8; 32], getrandom::Error>) -> (r: Result<
    [u8; 32],
    CryptoError,
>)
    ensures
        outcome matches Ok(seed) ==> r == Ok::<[u8; 32], CryptoError>(seed),
        outcome is Err ==> r == Err::<[u8; 32], CryptoError>(CryptoError::Entropy),
{
    match outcome {
        Ok(seed) => Ok(seed),
        Err(_) => Err(CryptoError::Entropy),
    }
}

/// Draws 32 fresh bytes from the secure random source.
///
/// The only error is `CryptoError::Entropy`; there is no retry and no
/// fallback to another source.
pub fn draw_seed() -> (r: Result<[u8; 32], CryptoError>)
    ensures
        r matches Err(e) ==> e == CryptoError::Entropy,
{
    seed_from_outcome(os_random_seed())
}

} // verus!
