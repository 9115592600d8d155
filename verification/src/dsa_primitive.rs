//! The ML-DSA-65 primitive of the `fips204` crate, as this library sees it.
//!
//! Nothing in this file is proved. Each function below hands plain bytes to
//! one operation of `fips204`, and its contract gives the outcome a name: a
//! function of the bytes handed in, of which only the lengths are known.
//!
//! Signing and verification always use the empty context string. Where a call
//! needs randomness it is given a ChaCha20 generator seeded with 32 bytes, so
//! that the outcome depends on those bytes and nothing else.

use vstd::prelude::*;
use fips204::ml_dsa_65;
use fips204::traits::KeyGen;
use fips204::traits::SerDes;
use fips204::traits::Signer;
use fips204::traits::Verifier;
use rand::SeedableRng;
use rand_chacha::ChaCha20Rng;

verus! {

/// Length in bytes of a public (verification) key.
pub const PK_LEN: usize = 1952;

/// Length in bytes of a secret (signing) key.
pub const SK_LEN: usize = 4032;

/// Length in bytes of a signature.
pub const SIG_LEN: usize = 3309;

/// The key pair (public key, secret key) that key generation derives from a
/// generator seeded with `seed`, or `None` where it fails.
pub uninterp spec fn dsa_keygen(seed: Seq<u8>) -> Option<(Seq<u8>, Seq<u8>)>;

/// Whether the primitive accepts `public_key` as a verification key.
pub uninterp spec fn dsa_public_key_decodes(public_key: Seq<u8>) -> bool;

/// Whether the primitive accepts `secret_key` as a signing key.
pub uninterp spec fn dsa_secret_key_decodes(secret_key: Seq<u8>) -> bool;

/// The signature of `message` under `secret_key`, with the empty context and
/// a generator seeded with `seed`, or `None` where signing fails.
pub uninterp spec fn dsa_sign(secret_key: Seq<u8>, seed: Seq<u8>, message: Seq<u8>) -> Option<
    Seq<u8>,
>;

/// Whether the primitive accepts `signature` for `message` under
/// `public_key`, with the empty context.
pub uninterp spec fn dsa_verify(public_key: Seq<u8>, message: Seq<u8>, signature: Seq<u8>) -> bool;

/// Calls `ml_dsa_65::KG::try_keygen_with_rng` with a `ChaCha20Rng` made from
/// `seed`, and serialises both keys with `into_bytes`.
///
/// Claimed: the outcome is `dsa_keygen(seed)`, and the keys have the lengths
/// of the byte arrays that `into_bytes` returns.
#[verifier::external_body]
pub(crate) fn dsa_keygen_with_seed(seed: &[u8; 32]) -> (outcome: Result<
    (Vec<u8>, Vec<u8>),
    &'static str,
>)
    ensures
        match outcome {
            Ok((pk, sk)) => dsa_keygen(seed@) == Some((pk@, sk@)) && pk@.len() == PK_LEN
                && sk@.len() == SK_LEN,
            Err(_) => dsa_keygen(seed@) is None,
        },
{
    let mut rng = ChaCha20Rng::from_seed(*seed);
    match ml_dsa_65::KG::try_keygen_with_rng(&mut rng) {
        Ok((pk, sk)) => Ok((pk.into_bytes().to_vec(), sk.into_bytes().to_vec())),
        Err(e) => Err(e),
    }
}

/// Calls `ml_dsa_65::PublicKey::try_from_bytes` and drops the decoded key.
///
/// Claimed: it succeeds exactly where `dsa_public_key_decodes` holds.
#[verifier::external_body]
pub(crate) fn dsa_check_public_key(public_key: &[u8]) -> (outcome: Result<(), &'static str>)
    requires
        public_key@.len() == PK_LEN,
    ensures
        outcome is Ok <==> dsa_public_key_decodes(public_key@),
{
    let mut bytes = [0u8; PK_LEN];
    bytes.copy_from_slice(public_key);
    match ml_dsa_65::PublicKey::try_from_bytes(bytes) {
        Ok(_) => Ok(()),
        Err(e) => Err(e),
    }
}

/// Calls `ml_dsa_65::PrivateKey::try_from_bytes` and drops the decoded key.
///
/// Claimed: it succeeds exactly where `dsa_secret_key_decodes` holds.
#[verifier::external_body]
pub(crate) fn dsa_check_secret_key(secret_key: &[u8]) -> (outcome: Result<(), &'static str>)
    requires
        secret_key@.len() == SK_LEN,
    ensures
        outcome is Ok <==> dsa_secret_key_decodes(secret_key@),
{
    let mut bytes = [0u8; SK_LEN];
    bytes.copy_from_slice(secret_key);
    match ml_dsa_65::PrivateKey::try_from_bytes(bytes) {
        Ok(_) => Ok(()),
        Err(e) => Err(e),
    }
}

/// Decodes `secret_key` and calls `try_sign_with_rng` on it with a
/// `ChaCha20Rng` made from `seed`, the message and the empty context.
///
/// Claimed: the outcome is `dsa_sign(secret_key, seed, message)`, and a
/// signature has the length of the byte array that the call returns.
#[verifier::external_body]
pub(crate) fn dsa_sign_with_seed(secret_key: &[u8], seed: &[u8; 32], message: &[u8]) -> (outcome:
    Result<Vec<u8>, &'static str>)
    requires
        secret_key@.len() == SK_LEN,
        dsa_secret_key_decodes(secret_key@),
    ensures
        match outcome {
            Ok(sig) => dsa_sign(secret_key@, seed@, message@) == Some(sig@) && sig@.len()
                == SIG_LEN,
            Err(_) => dsa_sign(secret_key@, seed@, message@) is None,
        },
{
    let mut bytes = [0u8; SK_LEN];
    bytes.copy_from_slice(secret_key);
    let mut rng = ChaCha20Rng::from_seed(*seed);
    let sk = ml_dsa_65::PrivateKey::try_from_bytes(bytes)?;
    Ok(sk.try_sign_with_rng(&mut rng, message, b"")?.to_vec())
}

/// Decodes `public_key` and calls `verify` on it with the message, the
/// signature and the empty context.
///
/// Claimed: the answer is `dsa_verify(public_key, message, signature)`.
#[verifier::external_body]
pub(crate) fn dsa_verify_with_key(public_key: &[u8], message: &[u8], signature: &[u8]) -> (valid:
    bool)
    requires
        public_key@.len() == PK_LEN,
        signature@.len() == SIG_LEN,
        dsa_public_key_decodes(public_key@),
    ensures
        valid == dsa_verify(public_key@, message@, signature@),
{
    let mut pk_bytes = [0u8; PK_LEN];
    pk_bytes.copy_from_slice(public_key);
    let mut sig_bytes = [0u8; SIG_LEN];
    sig_bytes.copy_from_slice(signature);
    match ml_dsa_65::PublicKey::try_from_bytes(pk_bytes) {
        Ok(pk) => pk.verify(message, &sig_bytes, b""),
        Err(_) => false,
    }
}

} // verus!
