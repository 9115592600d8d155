//! Workloads for timing: the same operation repeated a number of times, each
//! round with randomness of its own. The clock is the caller's business.

use vstd::prelude::*;
use crate::entropy::draw_seed;
use crate::entropy::SEED_LEN;
use crate::error::CryptoError;
use crate::kem::spec_generate;
use crate::kem::spec_validate_public_key;
use crate::kem::KemKeyPairBytes;
use crate::kem::VollyEncapsulation;
use crate::kem::VollyKEM;
use crate::kem_primitive::kem_encaps_with_seed;

verus! {

/// Generates `iterations` fresh key pairs, one after the other, and drops
/// them. Stops at the first failure and returns it; otherwise every round
/// made a key pair, and the number of rounds, `iterations`, is returned.
pub fn benchmark_keygen(iterations: u32) -> (r: Result<u32, CryptoError>)
    ensures
        r matches Ok(rounds) ==> rounds == iterations && exists|seeds: Seq<Seq<u8>>|
            #[trigger] keygen_rounds_succeeded(seeds, iterations),
        r matches Err(e) ==> iterations > 0 && (e == CryptoError::Entropy || e
            == CryptoError::KeyGeneration),
{
    let mut rounds: u32 = 0;
    let ghost mut seeds: Seq<Seq<u8>> = Seq::empty();
    while rounds < iterations
        invariant
            rounds <= iterations,
            keygen_rounds_succeeded(seeds, rounds),
        decreases iterations - rounds,
    {
        match VollyKEM::new() {
            Ok(pair) => {
                proof {
                    let drawn = choose|s: Seq<u8>|
                        s.len() == SEED_LEN && #[trigger] spec_generate(s) == Ok::<
                            KemKeyPairBytes,
                            CryptoError,
                        >(pair@);
                    seeds = seeds.push(drawn);
                }
            },
            Err(e) => {
                return Err(e);
            },
        }
        rounds += 1;
    }
    Ok(rounds)
}

/// The record of a run of key generations that all succeeded: `seeds` holds
/// one 32-byte generator seed for each of the `rounds` rounds, in the order
/// in which they were drawn, and each of them gives a key pair.
pub open spec fn keygen_rounds_succeeded(seeds: Seq<Seq<u8>>, rounds: u32) -> bool {
    &&& seeds.len() == rounds
    &&& forall|i: int|
        0 <= i < seeds.len() ==> (#[trigger] seeds[i]).len() == SEED_LEN && spec_generate(
            seeds[i],
        ) is Ok
}

/// Validates `public_key` once, then encapsulates to it `iterations` times,
/// each time with fresh randomness, and drops the results.
///
/// A key that fails validation is refused with exactly that error, whatever
/// `iterations` is. Otherwise the first failure of a round is returned, or
/// the number of rounds, which is `iterations`.
pub fn benchmark_encap(iterations: u32, public_key: &[u8]) -> (r: Result<u32, CryptoError>)
    ensures
        spec_validate_public_key(public_key@) matches Err(e) ==> r == Err::<u32, CryptoError>(e),
        spec_validate_public_key(public_key@) is Ok ==> {
            &&& r matches Ok(rounds) ==> rounds == iterations
            &&& r matches Err(e) ==> iterations > 0 && (e == CryptoError::Entropy || e
                == CryptoError::Encapsulation)
        },
{
    match VollyKEM::validate_public_key(public_key) {
        Ok(_) => {},
        Err(e) => {
            return Err(e);
        },
    }
    let mut rounds: u32 = 0;
    while rounds < iterations
        invariant
            rounds <= iterations,
            spec_validate_public_key(public_key@) is Ok,
        decreases iterations - rounds,
    {
        let seed = match draw_seed() {
            Ok(seed) => seed,
            Err(e) => {
                return Err(e);
            },
        };
        match VollyEncapsulation::from_outcome(kem_encaps_with_seed(public_key, &seed)) {
            Ok(_) => {},
            Err(e) => {
                return Err(e);
            },
        }
        rounds += 1;
    }
    Ok(rounds)
}

} // verus!
