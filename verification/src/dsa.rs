//! Digital signatures with ML-DSA-65: key pairs, signing with a secret key,
//! and verification against any claimed public key.
//!
//! Signing and verification both use the empty context string.

use vstd::prelude::*;
use crate::dsa_primitive::dsa_check_public_key;
use crate::dsa_primitive::dsa_check_secret_key;
use crate::dsa_primitive::dsa_keygen;
use crate::dsa_primitive::dsa_keygen_with_seed;
use crate::dsa_primitive::dsa_public_key_decodes;
use crate::dsa_primitive::dsa_secret_key_decodes;
use crate::dsa_primitive::dsa_sign;
use crate::dsa_primitive::dsa_sign_with_seed;
use crate::dsa_primitive::dsa_verify;
use crate::dsa_primitive::dsa_verify_with_key;
use crate::dsa_primitive::PK_LEN;
use crate::dsa_primitive::SIG_LEN;
use crate::dsa_primitive::SK_LEN;
use crate::entropy::draw_seed;
use crate::entropy::SEED_LEN;
use crate::error::result_view;
use crate::error::CryptoError;
use crate::hash::spec_whiten_seed;
use crate::hash::whiten_seed;

verus! {

/// An ML-DSA-65 key pair. Both halves always have their exact lengths.
pub struct VollyDSA {
    public_key: Vec<u8>,
    secret_key: Vec<u8>,
}

/// What a signing key pair holds, as two byte sequences.
pub struct DsaKeyPairBytes {
    pub public_key: Seq<u8>,
    pub secret_key: Seq<u8>,
}

impl View for VollyDSA {
    type V = DsaKeyPairBytes;

    closed spec fn view(&self) -> DsaKeyPairBytes {
        DsaKeyPairBytes { public_key: self.public_key@, secret_key: self.secret_key@ }
    }
}

/// The fixed sizes of ML-DSA-65, in bytes.
#[derive(Clone, Copy, Debug, PartialEq, Eq, Structural)]
pub struct DsaKeySizes {
    pub public_key: u32,
    pub secret_key: u32,
    pub signature: u32,
}

/// The key pair that a key-generation outcome stands for: the two keys where
/// the primitive delivered them in full, `KeyGeneration` otherwise.
pub open spec fn spec_keypair_from_outcome(outcome: Option<(Seq<u8>, Seq<u8>)>) -> Result<
    DsaKeyPairBytes,
    CryptoError,
> {
    match outcome {
        Some((pk, sk)) => if pk.len() == PK_LEN && sk.len() == SK_LEN {
            Ok(DsaKeyPairBytes { public_key: pk, secret_key: sk })
        } else {
            Err(CryptoError::KeyGeneration)
        },
        None => Err(CryptoError::KeyGeneration),
    }
}

/// The key pair generated from the generator seed `rng_seed`.
pub open spec fn spec_generate(rng_seed: Seq<u8>) -> Result<DsaKeyPairBytes, CryptoError> {
    spec_keypair_from_outcome(dsa_keygen(rng_seed))
}

/// The key pair derived from a caller's seed: the seed is checked and
/// whitened, and the digest seeds the generator.
pub open spec fn spec_from_seed(seed: Seq<u8>) -> Result<DsaKeyPairBytes, CryptoError> {
    match spec_whiten_seed(seed) {
        Ok(derived) => spec_generate(derived),
        Err(e) => Err(e),
    }
}

/// Whether `secret_key` may sign: its length is checked first, and only a key
/// of the right length is handed to the primitive's decoder.
pub open spec fn spec_validate_secret_key(secret_key: Seq<u8>) -> Result<(), CryptoError> {
    if secret_key.len() != SK_LEN {
        Err(CryptoError::InvalidSecretKeyLength { expected: SK_LEN, got: secret_key.len() as usize })
    } else if !dsa_secret_key_decodes(secret_key) {
        Err(CryptoError::InvalidSecretKeyEncoding)
    } else {
        Ok(())
    }
}

/// The signature that an outcome of the primitive stands for: the signature
/// where it has its full length, `Signing` otherwise.
pub open spec fn spec_signature_from_outcome(outcome: Option<Seq<u8>>) -> Result<
    Seq<u8>,
    CryptoError,
> {
    match outcome {
        Some(sig) => if sig.len() == SIG_LEN {
            Ok(sig)
        } else {
            Err(CryptoError::Signing)
        },
        None => Err(CryptoError::Signing),
    }
}

/// The signature of `message` under `secret_key` with the generator seed
/// `rng_seed`.
pub open spec fn spec_sign(secret_key: Seq<u8>, rng_seed: Seq<u8>, message: Seq<u8>) -> Result<
    Seq<u8>,
    CryptoError,
> {
    match spec_validate_secret_key(secret_key) {
        Ok(_) => spec_signature_from_outcome(dsa_sign(secret_key, rng_seed, message)),
        Err(e) => Err(e),
    }
}

/// Whether a verification can be attempted, checked in this order: the public
/// key's length, the public key's encoding, the signature's length.
pub open spec fn spec_validate_verification(public_key: Seq<u8>, signature: Seq<u8>) -> Result<
    (),
    CryptoError,
> {
    if public_key.len() != PK_LEN {
        Err(CryptoError::InvalidPublicKeyLength { expected: PK_LEN, got: public_key.len() as usize })
    } else if !dsa_public_key_decodes(public_key) {
        Err(CryptoError::InvalidPublicKeyEncoding)
    } else if signature.len() != SIG_LEN {
        Err(CryptoError::InvalidSignatureLength { expected: SIG_LEN, got: signature.len() as usize })
    } else {
        Ok(())
    }
}

/// The answer of a verification: an error for malformed input only; for
/// well-formed input the primitive's verdict, `true` or `false`.
pub open spec fn spec_verify(public_key: Seq<u8>, message: Seq<u8>, signature: Seq<u8>) -> Result<
    bool,
    CryptoError,
> {
    match spec_validate_verification(public_key, signature) {
        Ok(_) => Ok(dsa_verify(public_key, message, signature)),
        Err(e) => Err(e),
    }
}

/// Turns the outcome of the primitive's signing into a signature.
///
/// A signature of any other length than the parameter set's is refused as a
/// failed signing, like the primitive's own failure.
pub fn signature_from_outcome(outcome: Result<Vec<u8>, &'static str>) -> (r: Result<
    Vec<u8>,
    CryptoError,
>)
    ensures
        result_view(r) == spec_signature_from_outcome(
            match outcome {
                Ok(sig) => Some(sig@),
                Err(_) => None,
            },
        ),
{
    match outcome {
        Ok(sig) => {
            if sig.len() == SIG_LEN {
                Ok(sig)
            } else {
                Err(CryptoError::Signing)
            }
        },
        Err(_) => Err(CryptoError::Signing),
    }
}

impl VollyDSA {
    #[verifier::type_invariant]
    spec fn well_formed(self) -> bool {
        self.public_key@.len() == PK_LEN && self.secret_key@.len() == SK_LEN
    }

    /// Turns the outcome of the primitive's key generation into a key pair.
    ///
    /// Keys of any other length than the parameter set's are refused as a
    /// failed generation, like the primitive's own failure.
    pub fn from_keygen_outcome(outcome: Result<(Vec<u8>, Vec<u8>), &'static str>) -> (r: Result<
        VollyDSA,
        CryptoError,
    >)
        ensures
            result_view(r) == spec_keypair_from_outcome(
                match outcome {
                    Ok((pk, sk)) => Some((pk@, sk@)),
                    Err(_) => None,
                },
            ),
    {
        match outcome {
            Ok((pk, sk)) => {
                if pk.len() == PK_LEN && sk.len() == SK_LEN {
                    Ok(VollyDSA { public_key: pk, secret_key: sk })
                } else {
                    Err(CryptoError::KeyGeneration)
                }
            },
            Err(_) => Err(CryptoError::KeyGeneration),
        }
    }

    /// Generates the key pair that belongs to a generator seed.
    ///
    /// The same seed always gives the same key pair.
    pub fn generate_from_seed(rng_seed: &[u8; 32]) -> (r: Result<VollyDSA, CryptoError>)
        ensures
            result_view(r) == spec_generate(rng_seed@),
    {
        VollyDSA::from_keygen_outcome(dsa_keygen_with_seed(rng_seed))
    }

    /// Generates a fresh key pair from 32 bytes of the secure random source.
    ///
    /// Fails with `Entropy` where the source fails; there is no retry.
    /// Otherwise the result is what `generate_from_seed` gives for the bytes
    /// that were drawn.
    pub fn new() -> (r: Result<VollyDSA, CryptoError>)
        ensures
            r matches Ok(k) ==> exists|s: Seq<u8>|
                s.len() == SEED_LEN && #[trigger] spec_generate(s) == Ok::<
                    DsaKeyPairBytes,
                    CryptoError,
                >(k@),
            r matches Err(e) ==> e == CryptoError::Entropy || e == CryptoError::KeyGeneration,
    {
        match draw_seed() {
            Ok(seed) => {
                let r = VollyDSA::generate_from_seed(&seed);
                assert(seed@.len() == SEED_LEN && result_view(r) == spec_generate(seed@));
                r
            },
            Err(e) => Err(e),
        }
    }

    /// Derives a key pair from a caller's 32-byte seed.
    ///
    /// The seed is hashed with SHA3-256 and the digest seeds the generator,
    /// so the same seed always gives the same key pair. A seed of any other
    /// length is refused with `InvalidSeedLength`.
    pub fn from_seed(seed: &[u8]) -> (r: Result<VollyDSA, CryptoError>)
        ensures
            result_view(r) == spec_from_seed(seed@),
    {
        match whiten_seed(seed) {
            Ok(derived) => VollyDSA::generate_from_seed(&derived),
            Err(e) => Err(e),
        }
    }

    /// The public key: a read-only view of the held bytes.
    pub fn public_key(&self) -> (bytes: &[u8])
        ensures
            bytes@ == self@.public_key,
            bytes@.len() == PK_LEN,
    {
        proof {
            use_type_invariant(self);
        }
        self.public_key.as_slice()
    }

    /// The secret key: a read-only view of the held bytes.
    pub fn secret_key(&self) -> (bytes: &[u8])
        ensures
            bytes@ == self@.secret_key,
            bytes@.len() == SK_LEN,
    {
        proof {
            use_type_invariant(self);
        }
        self.secret_key.as_slice()
    }

    /// Checks a signing key: first its length, then, only if the length is
    /// right, whether the primitive can decode it.
    pub fn validate_secret_key(secret_key: &[u8]) -> (r: Result<(), CryptoError>)
        ensures
            r == spec_validate_secret_key(secret_key@),
    {
        if secret_key.len() != SK_LEN {
            return Err(
                CryptoError::InvalidSecretKeyLength { expected: SK_LEN, got: secret_key.len() },
            );
        }
        match dsa_check_secret_key(secret_key) {
            Ok(_) => Ok(()),
            Err(_) => Err(CryptoError::InvalidSecretKeyEncoding),
        }
    }

    /// Signs `message` with the randomness that the generator seed `rng_seed`
    /// stands for. The message may have any length, also none.
    ///
    /// The same key, seed and message always give the same signature.
    pub fn sign_with_seed(secret_key: &[u8], rng_seed: &[u8; 32], message: &[u8]) -> (r: Result<
        Vec<u8>,
        CryptoError,
    >)
        ensures
            result_view(r) == spec_sign(secret_key@, rng_seed@, message@),
    {
        match VollyDSA::validate_secret_key(secret_key) {
            Ok(_) => signature_from_outcome(dsa_sign_with_seed(secret_key, rng_seed, message)),
            Err(e) => Err(e),
        }
    }

    /// Signs `message` with a secret key given as bytes, without a key pair
    /// at hand.
    ///
    /// The key is validated before any randomness is drawn; a key that fails
    /// is refused with exactly the error of `validate_secret_key`. For a valid
    /// key, 32 fresh bytes are drawn and the result is what `sign_with_seed`
    /// gives for them; the call fails with `Entropy` where the source fails.
    pub fn sign_with_key(secret_key: &[u8], message: &[u8]) -> (r: Result<Vec<u8>, CryptoError>)
        ensures
            spec_validate_secret_key(secret_key@) matches Err(e) ==> result_view(r) == Err::<
                Seq<u8>,
                CryptoError,
            >(e),
            spec_validate_secret_key(secret_key@) is Ok ==> {
                &&& r matches Ok(sig) ==> exists|s: Seq<u8>|
                    s.len() == SEED_LEN && #[trigger] spec_sign(secret_key@, s, message@) == Ok::<
                        Seq<u8>,
                        CryptoError,
                    >(sig@)
                &&& r matches Err(e) ==> e == CryptoError::Entropy || e == CryptoError::Signing
            },
    {
        match VollyDSA::validate_secret_key(secret_key) {
            Ok(_) => {},
            Err(e) => {
                return Err(e);
            },
        }
        match draw_seed() {
            Ok(seed) => {
                let r = signature_from_outcome(dsa_sign_with_seed(secret_key, &seed, message));
                assert(seed@.len() == SEED_LEN && result_view(r) == spec_sign(
                    secret_key@,
                    seed@,
                    message@,
                ));
                r
            },
            Err(e) => Err(e),
        }
    }

    /// Signs `message` with the held secret key.
    ///
    /// As `sign_with_key` on the held key; its length is right by
    /// construction, so no length error can come out.
    pub fn sign(&self, message: &[u8]) -> (r: Result<Vec<u8>, CryptoError>)
        ensures
            self@.secret_key.len() == SK_LEN,
            spec_validate_secret_key(self@.secret_key) matches Err(e) ==> result_view(r) == Err::<
                Seq<u8>,
                CryptoError,
            >(e),
            spec_validate_secret_key(self@.secret_key) is Ok ==> {
                &&& r matches Ok(sig) ==> exists|s: Seq<u8>|
                    s.len() == SEED_LEN && #[trigger] spec_sign(self@.secret_key, s, message@)
                        == Ok::<Seq<u8>, CryptoError>(sig@)
                &&& r matches Err(e) ==> e == CryptoError::Entropy || e == CryptoError::Signing
            },
    {
        proof {
            use_type_invariant(self);
        }
        VollyDSA::sign_with_key(self.secret_key.as_slice(), message)
    }

    /// Checks the inputs of a verification in this order: the public key's
    /// length, the public key's encoding, the signature's length.
    pub fn validate_verification(public_key: &[u8], signature: &[u8]) -> (r: Result<
        (),
        CryptoError,
    >)
        ensures
            r == spec_validate_verification(public_key@, signature@),
    {
        if public_key.len() != PK_LEN {
            return Err(
                CryptoError::InvalidPublicKeyLength { expected: PK_LEN, got: public_key.len() },
            );
        }
        match dsa_check_public_key(public_key) {
            Ok(_) => {},
            Err(_) => {
                return Err(CryptoError::InvalidPublicKeyEncoding);
            },
        }
        if signature.len() != SIG_LEN {
            return Err(
                CryptoError::InvalidSignatureLength { expected: SIG_LEN, got: signature.len() },
            );
        }
        Ok(())
    }

    /// Verifies `signature` for `message` against a claimed public key.
    ///
    /// An error is returned for malformed input only. A well-formed signature
    /// that does not belong to the message and key is answered with
    /// `Ok(false)`, never with an error.
    pub fn verify_with_key(public_key: &[u8], message: &[u8], signature: &[u8]) -> (r: Result<
        bool,
        CryptoError,
    >)
        ensures
            r == spec_verify(public_key@, message@, signature@),
    {
        match VollyDSA::validate_verification(public_key, signature) {
            Ok(_) => Ok(dsa_verify_with_key(public_key, message, signature)),
            Err(e) => Err(e),
        }
    }

    /// The fixed sizes of the parameter set, for a caller's own checks.
    pub fn key_sizes() -> (sizes: DsaKeySizes)
        ensures
            sizes.public_key == PK_LEN,
            sizes.secret_key == SK_LEN,
            sizes.signature == SIG_LEN,
    {
        DsaKeySizes { public_key: 1952, secret_key: 4032, signature: 3309 }
    }
}

impl DsaKeyPairBytes {
    /// Both halves have the lengths of the parameter set.
    pub open spec fn well_formed(self) -> bool {
        self.public_key.len() == PK_LEN && self.secret_key.len() == SK_LEN
    }
}

/// Deriving a key pair from a seed is deterministic: any two results that
/// `from_seed` can return for one seed are the same, key for key or error
/// for error.
pub proof fn lemma_from_seed_deterministic(
    seed: Seq<u8>,
    first: Result<VollyDSA, CryptoError>,
    second: Result<VollyDSA, CryptoError>,
)
    requires
        result_view(first) == spec_from_seed(seed),
        result_view(second) == spec_from_seed(seed),
    ensures
        result_view(first) == result_view(second),
        match (first, second) {
            (Ok(a), Ok(b)) => a@.public_key == b@.public_key && a@.secret_key == b@.secret_key,
            (Err(e1), Err(e2)) => e1 == e2,
            _ => false,
        },
{
}

/// What `from_seed` can return: a seed of the wrong length is refused with
/// `InvalidSeedLength` before anything is hashed; a 32-byte seed gives the
/// key pair generated from its SHA3-256 digest, and can fail only where the
/// primitive's key generation fails.
pub proof fn lemma_from_seed_outcomes(seed: Seq<u8>)
    requires
        seed.len() <= usize::MAX,
    ensures
        seed.len() != SEED_LEN ==> spec_from_seed(seed) == Err::<DsaKeyPairBytes, CryptoError>(
            CryptoError::InvalidSeedLength { expected: SEED_LEN, got: seed.len() as usize },
        ),
        seed.len() == SEED_LEN ==> spec_from_seed(seed) == spec_generate(
            crate::hash::sha3_256(seed),
        ),
        seed.len() == SEED_LEN ==> (spec_from_seed(seed) matches Err(e) ==> e
            == CryptoError::KeyGeneration),
{
}

/// Every key pair that a constructor returns has halves of the exact
/// lengths.
pub proof fn lemma_constructed_keypairs_well_formed(rng_seed: Seq<u8>, seed: Seq<u8>)
    ensures
        spec_generate(rng_seed) matches Ok(kp) ==> kp.well_formed(),
        spec_from_seed(seed) matches Ok(kp) ==> kp.well_formed(),
{
}

/// Verification answers well-formed input and refuses only malformed input.
///
/// Whether `verify_with_key` returns an error depends on the public key and
/// on the signature's length alone, never on the message or on what the
/// signature holds. With a decodable public key and a signature of the right
/// length the answer is `Ok`, `true` or `false` as the primitive decides:
/// a wrong signature is `Ok(false)`, not an error.
pub proof fn lemma_verify_errs_only_on_malformed_input(
    public_key: Seq<u8>,
    message: Seq<u8>,
    signature: Seq<u8>,
    other_message: Seq<u8>,
    other_signature: Seq<u8>,
)
    ensures
        spec_verify(public_key, message, signature) is Ok <==> public_key.len() == PK_LEN
            && dsa_public_key_decodes(public_key) && signature.len() == SIG_LEN,
        spec_verify(public_key, message, signature) matches Err(e) ==> e.spec_is_invalid_input()
            || e == CryptoError::InvalidPublicKeyEncoding,
        other_signature.len() == signature.len() ==> (spec_verify(
            public_key,
            message,
            signature,
        ) is Ok <==> spec_verify(public_key, other_message, other_signature) is Ok),
        other_signature.len() == signature.len() ==> (spec_verify(
            public_key,
            message,
            signature,
        ) matches Err(e) ==> spec_verify(public_key, other_message, other_signature) == Err::<
            bool,
            CryptoError,
        >(e)),
{
}

/// What signing returns always fits a verification: a signature has its
/// exact length, so verifying it, for any message and against any decodable
/// public key, is answered with `true` or `false` and never refused.
///
/// That the answer is `true` for the matching public key is the primitive's
/// promise, not this library's: it is not stated here.
pub proof fn lemma_signature_fits_verification(
    secret_key: Seq<u8>,
    rng_seed: Seq<u8>,
    message: Seq<u8>,
    signature: Seq<u8>,
    public_key: Seq<u8>,
    claimed_message: Seq<u8>,
)
    requires
        spec_sign(secret_key, rng_seed, message) == Ok::<Seq<u8>, CryptoError>(signature),
        public_key.len() == PK_LEN,
        dsa_public_key_decodes(public_key),
    ensures
        signature.len() == SIG_LEN,
        spec_verify(public_key, claimed_message, signature) == Ok::<bool, CryptoError>(
            dsa_verify(public_key, claimed_message, signature),
        ),
{
}

/// Every error of signing with a seed given falls in its class: a wrong
/// length is invalid input, an undecodable key is an invalid encoding, and
/// nothing else but the primitive's own failure remains.
pub proof fn lemma_sign_error_classes(secret_key: Seq<u8>, rng_seed: Seq<u8>, message: Seq<u8>)
    ensures
        spec_sign(secret_key, rng_seed, message) matches Err(e) ==> {
            &&& e.spec_is_invalid_input() <==> secret_key.len() != SK_LEN
            &&& e.spec_is_invalid_encoding() <==> secret_key.len() == SK_LEN
                && !dsa_secret_key_decodes(secret_key)
            &&& e.spec_is_primitive_failure() <==> spec_validate_secret_key(secret_key) is Ok
        },
{
}

/// The primitive is correct for this pair of keys: whatever signature it
/// makes with the secret key, for any message and seed, it accepts under the
/// public key for that message.
///
/// This is a statement about the primitive. The library never checks it; the
/// law below says what follows where it holds.
pub open spec fn keys_match(public_key: Seq<u8>, secret_key: Seq<u8>) -> bool {
    forall|rng_seed: Seq<u8>, message: Seq<u8>|
        match #[trigger] dsa_sign(secret_key, rng_seed, message) {
            Some(sig) => dsa_verify(public_key, message, sig),
            None => true,
        }
}

/// Round trip: for a decodable public key of the right length and a secret
/// key for which the primitive is correct, verifying a message against the
/// signature that signing made for it answers `Ok(true)`.
///
/// The library adds no failure of its own between the two calls: every check
/// that verification makes is met by what signing returned, and both use the
/// same message bytes and the same empty context.
pub proof fn lemma_verify_accepts_signed_message(
    public_key: Seq<u8>,
    secret_key: Seq<u8>,
    rng_seed: Seq<u8>,
    message: Seq<u8>,
    signature: Seq<u8>,
)
    requires
        public_key.len() == PK_LEN,
        dsa_public_key_decodes(public_key),
        keys_match(public_key, secret_key),
        spec_sign(secret_key, rng_seed, message) == Ok::<Seq<u8>, CryptoError>(signature),
    ensures
        spec_verify(public_key, message, signature) == Ok::<bool, CryptoError>(true),
{
    assert(dsa_sign(secret_key, rng_seed, message) is Some);
}

/// The key pair of a seed depends on the seed's SHA3-256 digest alone: two
/// 32-byte seeds with the same digest give the same result. Two seeds can
/// give different key pairs only where their digests differ.
pub proof fn lemma_from_seed_depends_on_digest_only(first: Seq<u8>, second: Seq<u8>)
    requires
        first.len() == SEED_LEN,
        second.len() == SEED_LEN,
        crate::hash::sha3_256(first) == crate::hash::sha3_256(second),
    ensures
        spec_from_seed(first) == spec_from_seed(second),
{
}

} // verus!
