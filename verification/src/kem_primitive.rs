//! The ML-KEM-768 primitive of the `fips203` crate, as this library sees it.
//!
//! Nothing in this file is proved. Each function below hands plain bytes to
//! one operation of `fips203`, and its contract gives the outcome a name: a
//! function of the bytes handed in, of which only the lengths are known. The
//! lattice arithmetic itself is out of this library's hands.
//!
//! Where a call needs randomness it is given a ChaCha20 generator seeded with
//! 32 bytes, so that the outcome depends on those bytes and nothing else.

use vstd::prelude::*;
use fips203::ml_kem_768;
use fips203::traits::Decaps;
use fips203::traits::Encaps;
use fips203::traits::KeyGen;
use fips203::traits::SerDes;
use rand::SeedableRng;
use rand_chacha::ChaCha20Rng;

verus! {

/// Length in bytes of an encapsulation (public) key.
pub const EK_LEN: usize = 1184;

/// Length in bytes of a decapsulation (secret) key.
pub const DK_LEN: usize = 2400;

/// Length in bytes of a ciphertext.
pub const CT_LEN: usize = 1088;

/// Length in bytes of a shared secret.
pub const SSK_LEN: usize = 32;

/// The key pair (encapsulation key, decapsulation key) that key generation
/// derives from a generator seeded with `seed`, or `None` where it fails.
pub uninterp spec fn kem_keygen(seed: Seq<u8>) -> Option<(Seq<u8>, Seq<u8>)>;

/// Whether the primitive accepts `public_key` as an encapsulation key.
pub uninterp spec fn kem_public_key_decodes(public_key: Seq<u8>) -> bool;

/// Whether the primitive accepts `secret_key` as a decapsulation key.
pub uninterp spec fn kem_secret_key_decodes(secret_key: Seq<u8>) -> bool;

/// The pair (shared secret, ciphertext) that encapsulation to `public_key`
/// derives from a generator seeded with `seed`, or `None` where it fails.
pub uninterp spec fn kem_encaps(public_key: Seq<u8>, seed: Seq<u8>) -> Option<(Seq<u8>, Seq<u8>)>;

/// The shared secret that `secret_key` recovers from `ciphertext`, or `None`
/// where the primitive fails.
pub uninterp spec fn kem_decaps(secret_key: Seq<u8>, ciphertext: Seq<u8>) -> Option<Seq<u8>>;

/// Calls `ml_kem_768::KG::try_keygen_with_rng` with a `ChaCha20Rng` made from
/// `seed`, and serialises both keys with `into_bytes`.
///
/// Claimed: the outcome is `kem_keygen(seed)`, and the keys have the lengths
/// of the byte arrays that `into_bytes` returns.
#[verifier::external_body]
pub(crate) fn kem_keygen_with_seed(seed: &[u8; 32]) -> (outcome: Result<
    (Vec<u8>, Vec<u8>),
    &'static str,
>)
    ensures
        match outcome {
            Ok((ek, dk)) => kem_keygen(seed@) == Some((ek@, dk@)) && ek@.len() == EK_LEN
                && dk@.len() == DK_LEN,
            Err(_) => kem_keygen(seed@) is None,
        },
{
    let mut rng = ChaCha20Rng::from_seed(*seed);
    match ml_kem_768::KG::try_keygen_with_rng(&mut rng) {
        Ok((ek, dk)) => Ok((ek.into_bytes().to_vec(), dk.into_bytes().to_vec())),
        Err(e) => Err(e),
    }
}

/// Calls `ml_kem_768::EncapsKey::try_from_bytes` and drops the decoded key.
///
/// Claimed: it succeeds exactly where `kem_public_key_decodes` holds.
#[verifier::external_body]
pub(crate) fn kem_check_public_key(public_key: &[u8]) -> (outcome: Result<(), &'static str>)
    requires
        public_key@.len() == EK_LEN,
    ensures
        outcome is Ok <==> kem_public_key_decodes(public_key@),
{
    let mut bytes = [0u8; EK_LEN];
    bytes.copy_from_slice(public_key);
    match ml_kem_768::EncapsKey::try_from_bytes(bytes) {
        Ok(_) => Ok(()),
        Err(e) => Err(e),
    }
}

/// Calls `ml_kem_768::DecapsKey::try_from_bytes` and drops the decoded key.
///
/// Claimed: it succeeds exactly where `kem_secret_key_decodes` holds.
#[verifier::external_body]
pub(crate) fn kem_check_secret_key(secret_key: &[u8]) -> (outcome: Result<(), &'static str>)
    requires
        secret_key@.len() == DK_LEN,
    ensures
        outcome is Ok <==> kem_secret_key_decodes(secret_key@),
{
    let mut bytes = [0u8; DK_LEN];
    bytes.copy_from_slice(secret_key);
    match ml_kem_768::DecapsKey::try_from_bytes(bytes) {
        Ok(_) => Ok(()),
        Err(e) => Err(e),
    }
}

/// Calls `ml_kem_768::CipherText::try_from_bytes` and drops the result.
///
/// Claimed: it succeeds. For a ciphertext the decoder only wraps the bytes;
/// there is nothing it could refuse.
#[verifier::external_body]
pub(crate) fn kem_check_ciphertext(ciphertext: &[u8]) -> (outcome: Result<(), &'static str>)
    requires
        ciphertext@.len() == CT_LEN,
    ensures
        outcome is Ok,
{
    let mut bytes = [0u8; CT_LEN];
    bytes.copy_from_slice(ciphertext);
    match ml_kem_768::CipherText::try_from_bytes(bytes) {
        Ok(_) => Ok(()),
        Err(e) => Err(e),
    }
}

/// Decodes `public_key` and calls `try_encaps_with_rng` on it with a
/// `ChaCha20Rng` made from `seed`; serialises both results with `into_bytes`.
///
/// Claimed: the outcome, as (shared secret, ciphertext), is
/// `kem_encaps(public_key, seed)`, with the lengths of the byte arrays that
/// `into_bytes` returns.
#[verifier::external_body]
pub(crate) fn kem_encaps_with_seed(public_key: &[u8], seed: &[u8; 32]) -> (outcome: Result<
    (Vec<u8>, Vec<u8>),
    &'static str,
>)
    requires
        public_key@.len() == EK_LEN,
        kem_public_key_decodes(public_key@),
    ensures
        match outcome {
            Ok((ssk, ct)) => kem_encaps(public_key@, seed@) == Some((ssk@, ct@)) && ssk@.len()
                == SSK_LEN && ct@.len() == CT_LEN,
            Err(_) => kem_encaps(public_key@, seed@) is None,
        },
{
    let mut bytes = [0u8; EK_LEN];
    bytes.copy_from_slice(public_key);
    let mut rng = ChaCha20Rng::from_seed(*seed);
    let ek = ml_kem_768::EncapsKey::try_from_bytes(bytes)?;
    let (ssk, ct) = ek.try_encaps_with_rng(&mut rng)?;
    Ok((ssk.into_bytes().to_vec(), ct.into_bytes().to_vec()))
}

/// Decodes `secret_key` and `ciphertext` and calls `try_decaps`; serialises
/// the shared secret with `into_bytes`.
///
/// Claimed: the outcome is `kem_decaps(secret_key, ciphertext)`, and a shared
/// secret has the length of the byte array that `into_bytes` returns.
#[verifier::external_body]
pub(crate) fn kem_decaps_with_key(secret_key: &[u8], ciphertext: &[u8]) -> (outcome: Result<
    Vec<u8>,
    &'static str,
>)
    requires
        secret_key@.len() == DK_LEN,
        ciphertext@.len() == CT_LEN,
        kem_secret_key_decodes(secret_key@),
    ensures
        match outcome {
            Ok(ssk) => kem_decaps(secret_key@, ciphertext@) == Some(ssk@) && ssk@.len() == SSK_LEN,
            Err(_) => kem_decaps(secret_key@, ciphertext@) is None,
        },
{
    let mut dk_bytes = [0u8; DK_LEN];
    dk_bytes.copy_from_slice(secret_key);
    let mut ct_bytes = [0u8; CT_LEN];
    ct_bytes.copy_from_slice(ciphertext);
    let dk = ml_kem_768::DecapsKey::try_from_bytes(dk_bytes)?;
    let ct = ml_kem_768::CipherText::try_from_bytes(ct_bytes)?;
    Ok(dk.try_decaps(&ct)?.into_bytes().to_vec())
}

} // verus!
