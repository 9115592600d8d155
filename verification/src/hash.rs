//! Seed whitening: a caller's seed is hashed with SHA3-256 before it reaches
//! a generator, so the raw value is never used as key material directly.

use vstd::prelude::*;
use sha3::Digest;
use sha3::Sha3_256;
use crate::entropy::SEED_LEN;
use crate::error::CryptoError;

verus! {

/// The SHA3-256 digest of `data`, as the `sha3` crate computes it.
pub uninterp spec fn sha3_256(data: Seq<u8>) -> Seq<u8>;

/// Feeds `data` to a fresh `sha3::Sha3_256` hasher (`new`, `update`,
/// `finalize`) and returns the 32-byte digest.
///
/// The digest is a function of the bytes alone; the contract gives it the
/// name `sha3_256` and claims nothing else of it.
#[verifier::external_body]
fn sha3_256_digest(data: &[u8]) -> (digest: [u8; 32])
    ensures
        digest@ == sha3_256(data@),
{
    let mut hasher = Sha3_256::new();
    hasher.update(data);
    hasher.finalize().into()
}

/// What `whiten_seed` returns on `seed`.
pub open spec fn spec_whiten_seed(seed: Seq<u8>) -> Result<Seq<u8>, CryptoError> {
    if seed.len() == SEED_LEN {
        Ok(sha3_256(seed))
    } else {
        Err(CryptoError::InvalidSeedLength { expected: SEED_LEN, got: seed.len() as usize })
    }
}

/// Turns a caller's seed into the seed of the generator.
///
/// A seed that is not exactly 32 bytes long is refused before anything is
/// hashed; otherwise the result is the SHA3-256 digest of the seed.
pub fn whiten_seed(seed: &[u8]) -> (r: Result<[u8; 32], CryptoError>)
    ensures
        match r {
            Ok(derived) => spec_whiten_seed(seed@) == Ok::<Seq<u8>, CryptoError>(derived@),
            Err(e) => spec_whiten_seed(seed@) == Err::<Seq<u8>, CryptoError>(e),
        },
{
    if seed.len() != SEED_LEN {
        return Err(CryptoError::InvalidSeedLength { expected: SEED_LEN, got: seed.len() });
    }
    Ok(sha3_256_digest(seed))
}

} // verus!
