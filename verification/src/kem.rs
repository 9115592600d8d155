//! Key encapsulation with ML-KEM-768: key pairs, encapsulation to a peer's
//! public key, and decapsulation with a secret key.

use vstd::prelude::*;
use vstd::slice::slice_to_vec;
use crate::entropy::draw_seed;
use crate::entropy::SEED_LEN;
use crate::error::result_view;
use crate::error::CryptoError;
use crate::hash::spec_whiten_seed;
use crate::hash::whiten_seed;
use crate::kem_primitive::kem_check_ciphertext;
use crate::kem_primitive::kem_check_public_key;
use crate::kem_primitive::kem_check_secret_key;
use crate::kem_primitive::kem_decaps;
use crate::kem_primitive::kem_decaps_with_key;
use crate::kem_primitive::kem_encaps;
use crate::kem_primitive::kem_encaps_with_seed;
use crate::kem_primitive::kem_keygen;
use crate::kem_primitive::kem_keygen_with_seed;
use crate::kem_primitive::kem_public_key_decodes;
use crate::kem_primitive::kem_secret_key_decodes;
use crate::kem_primitive::CT_LEN;
use crate::kem_primitive::DK_LEN;
use crate::kem_primitive::EK_LEN;
use crate::kem_primitive::SSK_LEN;

verus! {

/// An ML-KEM-768 key pair. Both halves always have their exact lengths.
pub struct VollyKEM {
    public_key: Vec<u8>,
    secret_key: Vec<u8>,
}

/// What a key pair holds, as two byte sequences.
pub struct KemKeyPairBytes {
    pub public_key: Seq<u8>,
    pub secret_key: Seq<u8>,
}

impl View for VollyKEM {
    type V = KemKeyPairBytes;

    closed spec fn view(&self) -> KemKeyPairBytes {
        KemKeyPairBytes { public_key: self.public_key@, secret_key: self.secret_key@ }
    }
}

/// The result of one encapsulation: a ciphertext for the peer and the shared
/// secret that goes with it. The two are made together and have their exact
/// lengths.
pub struct VollyEncapsulation {
    ciphertext: Vec<u8>,
    shared_secret: Vec<u8>,
}

/// What an encapsulation holds, as two byte sequences.
pub struct EncapsulationBytes {
    pub ciphertext: Seq<u8>,
    pub shared_secret: Seq<u8>,
}

impl View for VollyEncapsulation {
    type V = EncapsulationBytes;

    closed spec fn view(&self) -> EncapsulationBytes {
        EncapsulationBytes { ciphertext: self.ciphertext@, shared_secret: self.shared_secret@ }
    }
}

/// The fixed sizes of ML-KEM-768, in bytes.
#[derive(Clone, Copy, Debug, PartialEq, Eq, Structural)]
pub struct KemKeySizes {
    pub public_key: u32,
    pub secret_key: u32,
    pub ciphertext: u32,
    pub shared_secret: u32,
}

/// The key pair that a key-generation outcome stands for: the two keys where
/// the primitive delivered them in full, `KeyGeneration` otherwise.
pub open spec fn spec_keypair_from_outcome(outcome: Option<(Seq<u8>, Seq<u8>)>) -> Result<
    KemKeyPairBytes,
    CryptoError,
> {
    match outcome {
        Some((ek, dk)) => if ek.len() == EK_LEN && dk.len() == DK_LEN {
            Ok(KemKeyPairBytes { public_key: ek, secret_key: dk })
        } else {
            Err(CryptoError::KeyGeneration)
        },
        None => Err(CryptoError::KeyGeneration),
    }
}

/// The key pair generated from the generator seed `rng_seed`.
pub open spec fn spec_generate(rng_seed: Seq<u8>) -> Result<KemKeyPairBytes, CryptoError> {
    spec_keypair_from_outcome(kem_keygen(rng_seed))
}

/// The key pair derived from a caller's seed: the seed is checked and
/// whitened, and the digest seeds the generator.
pub open spec fn spec_from_seed(seed: Seq<u8>) -> Result<KemKeyPairBytes, CryptoError> {
    match spec_whiten_seed(seed) {
        Ok(derived) => spec_generate(derived),
        Err(e) => Err(e),
    }
}

/// The key pair made of two given halves: the public key's length is checked
/// first, then the secret key's. Nothing else is checked.
pub open spec fn spec_from_keys(public_key: Seq<u8>, secret_key: Seq<u8>) -> Result<
    KemKeyPairBytes,
    CryptoError,
> {
    if public_key.len() != EK_LEN {
        Err(CryptoError::InvalidPublicKeyLength { expected: EK_LEN, got: public_key.len() as usize })
    } else if secret_key.len() != DK_LEN {
        Err(CryptoError::InvalidSecretKeyLength { expected: DK_LEN, got: secret_key.len() as usize })
    } else {
        Ok(KemKeyPairBytes { public_key, secret_key })
    }
}

impl VollyKEM {
    #[verifier::type_invariant]
    spec fn well_formed(self) -> bool {
        self.public_key@.len() == EK_LEN && self.secret_key@.len() == DK_LEN
    }

    /// Turns the outcome of the primitive's key generation into a key pair.
    ///
    /// Keys of any other length than the parameter set's are refused as a
    /// failed generation, like the primitive's own failure.
    pub fn from_keygen_outcome(outcome: Result<(Vec<u8>, Vec<u8>), &'static str>) -> (r: Result<
        VollyKEM,
        CryptoError,
    >)
        ensures
            result_view(r) == spec_keypair_from_outcome(
                match outcome {
                    Ok((ek, dk)) => Some((ek@, dk@)),
                    Err(_) => None,
                },
            ),
    {
        match outcome {
            Ok((ek, dk)) => {
                if ek.len() == EK_LEN && dk.len() == DK_LEN {
                    Ok(VollyKEM { public_key: ek, secret_key: dk })
                } else {
                    Err(CryptoError::KeyGeneration)
                }
            },
            Err(_) => Err(CryptoError::KeyGeneration),
        }
    }

    /// Generates the key pair that belongs to a generator seed.
    ///
    /// The same seed always gives the same key pair.
    pub fn generate_from_seed(rng_seed: &[u8; 32]) -> (r: Result<VollyKEM, CryptoError>)
        ensures
            result_view(r) == spec_generate(rng_seed@),
    {
        VollyKEM::from_keygen_outcome(kem_keygen_with_seed(rng_seed))
    }

    /// Generates a fresh key pair from 32 bytes of the secure random source.
    ///
    /// Fails with `Entropy` where the source fails; there is no retry.
    /// Otherwise the result is what `generate_from_seed` gives for the bytes
    /// that were drawn.
    pub fn new() -> (r: Result<VollyKEM, CryptoError>)
        ensures
            r matches Ok(k) ==> exists|s: Seq<u8>|
                s.len() == SEED_LEN && #[trigger] spec_generate(s) == Ok::<
                    KemKeyPairBytes,
                    CryptoError,
                >(k@),
            r matches Err(e) ==> e == CryptoError::Entropy || e == CryptoError::KeyGeneration,
    {
        match draw_seed() {
            Ok(seed) => {
                let r = VollyKEM::generate_from_seed(&seed);
                assert(seed@.len() == SEED_LEN && result_view(r) == spec_generate(seed@));
                r
            },
            Err(e) => Err(e),
        }
    }

    /// Derives a key pair from a caller's 32-byte seed.
    ///
    /// The seed is hashed with SHA3-256 and the digest seeds the generator,
    /// so the same seed always gives the same key pair. A seed of any other
    /// length is refused with `InvalidSeedLength`.
    pub fn from_seed(seed: &[u8]) -> (r: Result<VollyKEM, CryptoError>)
        ensures
            result_view(r) == spec_from_seed(seed@),
    {
        match whiten_seed(seed) {
            Ok(derived) => VollyKEM::generate_from_seed(&derived),
            Err(e) => Err(e),
        }
    }

    /// Makes a key pair of two existing halves.
    ///
    /// Both lengths are checked, the public key's first. Whether the two
    /// halves belong together is not checked: that is the caller's business.
    pub fn from_keys(public_key: &[u8], secret_key: &[u8]) -> (r: Result<VollyKEM, CryptoError>)
        ensures
            result_view(r) == spec_from_keys(public_key@, secret_key@),
    {
        if public_key.len() != EK_LEN {
            return Err(
                CryptoError::InvalidPublicKeyLength { expected: EK_LEN, got: public_key.len() },
            );
        }
        if secret_key.len() != DK_LEN {
            return Err(
                CryptoError::InvalidSecretKeyLength { expected: DK_LEN, got: secret_key.len() },
            );
        }
        Ok(VollyKEM { public_key: slice_to_vec(public_key), secret_key: slice_to_vec(secret_key) })
    }

    /// The public key: a read-only view of the held bytes.
    pub fn public_key(&self) -> (bytes: &[u8])
        ensures
            bytes@ == self@.public_key,
            bytes@.len() == EK_LEN,
    {
        proof {
            use_type_invariant(self);
        }
        self.public_key.as_slice()
    }

    /// The secret key: a read-only view of the held bytes.
    pub fn secret_key(&self) -> (bytes: &[u8])
        ensures
            bytes@ == self@.secret_key,
            bytes@.len() == DK_LEN,
    {
        proof {
            use_type_invariant(self);
        }
        self.secret_key.as_slice()
    }

    /// The fixed sizes of the parameter set, for a caller's own checks.
    pub fn key_sizes() -> (sizes: KemKeySizes)
        ensures
            sizes.public_key == EK_LEN,
            sizes.secret_key == DK_LEN,
            sizes.ciphertext == CT_LEN,
            sizes.shared_secret == SSK_LEN,
    {
        KemKeySizes { public_key: 1184, secret_key: 2400, ciphertext: 1088, shared_secret: 32 }
    }
}

/// Whether `public_key` may be encapsulated to: its length is checked first,
/// and only a key of the right length is handed to the primitive's decoder.
pub open spec fn spec_validate_public_key(public_key: Seq<u8>) -> Result<(), CryptoError> {
    if public_key.len() != EK_LEN {
        Err(CryptoError::InvalidPublicKeyLength { expected: EK_LEN, got: public_key.len() as usize })
    } else if !kem_public_key_decodes(public_key) {
        Err(CryptoError::InvalidPublicKeyEncoding)
    } else {
        Ok(())
    }
}

/// The encapsulation that an outcome of the primitive, (shared secret,
/// ciphertext), stands for: both where the primitive delivered them in
/// full, `Encapsulation` otherwise.
pub open spec fn spec_encapsulation_from_outcome(outcome: Option<(Seq<u8>, Seq<u8>)>) -> Result<
    EncapsulationBytes,
    CryptoError,
> {
    match outcome {
        Some((ssk, ct)) => if ssk.len() == SSK_LEN && ct.len() == CT_LEN {
            Ok(EncapsulationBytes { ciphertext: ct, shared_secret: ssk })
        } else {
            Err(CryptoError::Encapsulation)
        },
        None => Err(CryptoError::Encapsulation),
    }
}

/// The encapsulation to `public_key` with the generator seed `rng_seed`.
pub open spec fn spec_encapsulate(public_key: Seq<u8>, rng_seed: Seq<u8>) -> Result<
    EncapsulationBytes,
    CryptoError,
> {
    match spec_validate_public_key(public_key) {
        Ok(_) => spec_encapsulation_from_outcome(kem_encaps(public_key, rng_seed)),
        Err(e) => Err(e),
    }
}

/// Whether `secret_key` may decapsulate `ciphertext`: the ciphertext's length
/// is checked first, then the secret key's length, then its encoding.
pub open spec fn spec_validate_decapsulation(secret_key: Seq<u8>, ciphertext: Seq<u8>) -> Result<
    (),
    CryptoError,
> {
    if ciphertext.len() != CT_LEN {
        Err(
            CryptoError::InvalidCiphertextLength { expected: CT_LEN, got: ciphertext.len() as usize },
        )
    } else if secret_key.len() != DK_LEN {
        Err(CryptoError::InvalidSecretKeyLength { expected: DK_LEN, got: secret_key.len() as usize })
    } else if !kem_secret_key_decodes(secret_key) {
        Err(CryptoError::InvalidSecretKeyEncoding)
    } else {
        Ok(())
    }
}

/// The shared secret that an outcome of the primitive stands for: the secret
/// where it has its full length, `Decapsulation` otherwise.
pub open spec fn spec_shared_secret_from_outcome(outcome: Option<Seq<u8>>) -> Result<
    Seq<u8>,
    CryptoError,
> {
    match outcome {
        Some(ssk) => if ssk.len() == SSK_LEN {
            Ok(ssk)
        } else {
            Err(CryptoError::Decapsulation)
        },
        None => Err(CryptoError::Decapsulation),
    }
}

/// The shared secret that `secret_key` recovers from `ciphertext`.
pub open spec fn spec_decapsulate(secret_key: Seq<u8>, ciphertext: Seq<u8>) -> Result<
    Seq<u8>,
    CryptoError,
> {
    match spec_validate_decapsulation(secret_key, ciphertext) {
        Ok(_) => spec_shared_secret_from_outcome(kem_decaps(secret_key, ciphertext)),
        Err(e) => Err(e),
    }
}

impl VollyEncapsulation {
    #[verifier::type_invariant]
    spec fn well_formed(self) -> bool {
        self.ciphertext@.len() == CT_LEN && self.shared_secret@.len() == SSK_LEN
    }

    /// Turns the outcome of the primitive's encapsulation, (shared secret,
    /// ciphertext), into an encapsulation.
    ///
    /// Values of any other length than the parameter set's are refused as a
    /// failed encapsulation, like the primitive's own failure: no partial
    /// secret leaves this function.
    pub fn from_outcome(outcome: Result<(Vec<u8>, Vec<u8>), &'static str>) -> (r: Result<
        VollyEncapsulation,
        CryptoError,
    >)
        ensures
            result_view(r) == spec_encapsulation_from_outcome(
                match outcome {
                    Ok((ssk, ct)) => Some((ssk@, ct@)),
                    Err(_) => None,
                },
            ),
    {
        match outcome {
            Ok((ssk, ct)) => {
                if ssk.len() == SSK_LEN && ct.len() == CT_LEN {
                    Ok(VollyEncapsulation { ciphertext: ct, shared_secret: ssk })
                } else {
                    Err(CryptoError::Encapsulation)
                }
            },
            Err(_) => Err(CryptoError::Encapsulation),
        }
    }

    /// The ciphertext, to be sent to the holder of the secret key.
    pub fn ciphertext(&self) -> (bytes: &[u8])
        ensures
            bytes@ == self@.ciphertext,
            bytes@.len() == CT_LEN,
    {
        proof {
            use_type_invariant(self);
        }
        self.ciphertext.as_slice()
    }

    /// The shared secret, to be kept.
    pub fn shared_secret(&self) -> (bytes: &[u8])
        ensures
            bytes@ == self@.shared_secret,
            bytes@.len() == SSK_LEN,
    {
        proof {
            use_type_invariant(self);
        }
        self.shared_secret.as_slice()
    }
}

/// Turns the outcome of the primitive's decapsulation into a shared secret.
///
/// A secret of any other length than 32 bytes is refused as a failed
/// decapsulation, like the primitive's own failure.
pub fn shared_secret_from_outcome(outcome: Result<Vec<u8>, &'static str>) -> (r: Result<
    Vec<u8>,
    CryptoError,
>)
    ensures
        result_view(r) == spec_shared_secret_from_outcome(
            match outcome {
                Ok(ssk) => Some(ssk@),
                Err(_) => None,
            },
        ),
{
    match outcome {
        Ok(ssk) => {
            if ssk.len() == SSK_LEN {
                Ok(ssk)
            } else {
                Err(CryptoError::Decapsulation)
            }
        },
        Err(_) => Err(CryptoError::Decapsulation),
    }
}

impl VollyKEM {
    /// Checks a peer's public key: first its length, then, only if the length
    /// is right, whether the primitive can decode it.
    pub fn validate_public_key(public_key: &[u8]) -> (r: Result<(), CryptoError>)
        ensures
            r == spec_validate_public_key(public_key@),
    {
        if public_key.len() != EK_LEN {
            return Err(
                CryptoError::InvalidPublicKeyLength { expected: EK_LEN, got: public_key.len() },
            );
        }
        match kem_check_public_key(public_key) {
            Ok(_) => Ok(()),
            Err(_) => Err(CryptoError::InvalidPublicKeyEncoding),
        }
    }

    /// Encapsulates to `public_key` with the randomness that the generator
    /// seed `rng_seed` stands for.
    ///
    /// The same key and seed always give the same ciphertext and secret: a
    /// seed must never be used for two encapsulations.
    pub fn encapsulate_with_seed(public_key: &[u8], rng_seed: &[u8; 32]) -> (r: Result<
        VollyEncapsulation,
        CryptoError,
    >)
        ensures
            result_view(r) == spec_encapsulate(public_key@, rng_seed@),
    {
        match VollyKEM::validate_public_key(public_key) {
            Ok(_) => VollyEncapsulation::from_outcome(kem_encaps_with_seed(public_key, rng_seed)),
            Err(e) => Err(e),
        }
    }

    /// Encapsulates a fresh shared secret to a peer's public key.
    ///
    /// The key is validated before any randomness is drawn; a key that fails
    /// is refused with exactly the error of `validate_public_key`. For a valid
    /// key, 32 fresh bytes are drawn and the result is what
    /// `encapsulate_with_seed` gives for them; the call fails with `Entropy`
    /// where the source fails. The key pair that `self` holds plays no part.
    pub fn encapsulate(&self, public_key: &[u8]) -> (r: Result<VollyEncapsulation, CryptoError>)
        ensures
            spec_validate_public_key(public_key@) matches Err(e) ==> result_view(r) == Err::<
                EncapsulationBytes,
                CryptoError,
            >(e),
            spec_validate_public_key(public_key@) is Ok ==> {
                &&& r matches Ok(enc) ==> exists|s: Seq<u8>|
                    s.len() == SEED_LEN && #[trigger] spec_encapsulate(public_key@, s) == Ok::<
                        EncapsulationBytes,
                        CryptoError,
                    >(enc@)
                &&& r matches Err(e) ==> e == CryptoError::Entropy || e
                    == CryptoError::Encapsulation
            },
    {
        match VollyKEM::validate_public_key(public_key) {
            Ok(_) => {},
            Err(e) => {
                return Err(e);
            },
        }
        match draw_seed() {
            Ok(seed) => {
                let r = VollyEncapsulation::from_outcome(kem_encaps_with_seed(public_key, &seed));
                assert(seed@.len() == SEED_LEN && result_view(r) == spec_encapsulate(
                    public_key@,
                    seed@,
                ));
                r
            },
            Err(e) => Err(e),
        }
    }

    /// Checks the inputs of a decapsulation in this order: the ciphertext's
    /// length, the secret key's length, the secret key's encoding.
    pub fn validate_decapsulation(secret_key: &[u8], ciphertext: &[u8]) -> (r: Result<
        (),
        CryptoError,
    >)
        ensures
            r == spec_validate_decapsulation(secret_key@, ciphertext@),
    {
        if ciphertext.len() != CT_LEN {
            return Err(
                CryptoError::InvalidCiphertextLength { expected: CT_LEN, got: ciphertext.len() },
            );
        }
        match kem_check_ciphertext(ciphertext) {
            Ok(_) => {},
            Err(_) => {
                return Err(CryptoError::InvalidCiphertextEncoding);
            },
        }
        if secret_key.len() != DK_LEN {
            return Err(
                CryptoError::InvalidSecretKeyLength { expected: DK_LEN, got: secret_key.len() },
            );
        }
        match kem_check_secret_key(secret_key) {
            Ok(_) => Ok(()),
            Err(_) => Err(CryptoError::InvalidSecretKeyEncoding),
        }
    }

    /// Recovers the shared secret of `ciphertext` with a secret key given as
    /// bytes, without a key pair at hand.
    ///
    /// A ciphertext that was not made for this key still yields a secret (the
    /// primitive rejects implicitly); it is simply not the sender's.
    pub fn decapsulate_with_key(secret_key: &[u8], ciphertext: &[u8]) -> (r: Result<
        Vec<u8>,
        CryptoError,
    >)
        ensures
            result_view(r) == spec_decapsulate(secret_key@, ciphertext@),
    {
        match VollyKEM::validate_decapsulation(secret_key, ciphertext) {
            Ok(_) => shared_secret_from_outcome(kem_decaps_with_key(secret_key, ciphertext)),
            Err(e) => Err(e),
        }
    }

    /// Recovers the shared secret of `ciphertext` with the held secret key.
    pub fn decapsulate(&self, ciphertext: &[u8]) -> (r: Result<Vec<u8>, CryptoError>)
        ensures
            result_view(r) == spec_decapsulate(self@.secret_key, ciphertext@),
    {
        VollyKEM::decapsulate_with_key(self.secret_key.as_slice(), ciphertext)
    }
}

impl KemKeyPairBytes {
    /// Both halves have the lengths of the parameter set.
    pub open spec fn well_formed(self) -> bool {
        self.public_key.len() == EK_LEN && self.secret_key.len() == DK_LEN
    }
}

impl EncapsulationBytes {
    /// Ciphertext and shared secret have the lengths of the parameter set.
    pub open spec fn well_formed(self) -> bool {
        self.ciphertext.len() == CT_LEN && self.shared_secret.len() == SSK_LEN
    }
}

/// Deriving a key pair from a seed is deterministic: any two results that
/// `from_seed` can return for one seed are the same, key for key or error
/// for error.
pub proof fn lemma_from_seed_deterministic(
    seed: Seq<u8>,
    first: Result<VollyKEM, CryptoError>,
    second: Result<VollyKEM, CryptoError>,
)
    requires
        result_view(first) == spec_from_seed(seed),
        result_view(second) == spec_from_seed(seed),
    ensures
        result_view(first) == result_view(second),
        match (first, second) {
            (Ok(a), Ok(b)) => a@.public_key == b@.public_key && a@.secret_key == b@.secret_key,
            (Err(e1), Err(e2)) => e1 == e2,
            _ => false,
        },
{
}

/// What `from_seed` can return: a seed of the wrong length is refused with
/// `InvalidSeedLength` before anything is hashed; a 32-byte seed gives the
/// key pair generated from its SHA3-256 digest, and can fail only where the
/// primitive's key generation fails.
pub proof fn lemma_from_seed_outcomes(seed: Seq<u8>)
    requires
        seed.len() <= usize::MAX,
    ensures
        seed.len() != SEED_LEN ==> spec_from_seed(seed) == Err::<KemKeyPairBytes, CryptoError>(
            CryptoError::InvalidSeedLength { expected: SEED_LEN, got: seed.len() as usize },
        ),
        seed.len() == SEED_LEN ==> spec_from_seed(seed) == spec_generate(
            crate::hash::sha3_256(seed),
        ),
        seed.len() == SEED_LEN ==> (spec_from_seed(seed) matches Err(e) ==> e
            == CryptoError::KeyGeneration),
{
}

/// Every key pair that a constructor returns has halves of the exact
/// lengths, and `from_keys` keeps the bytes it was given.
pub proof fn lemma_constructed_keypairs_well_formed(
    rng_seed: Seq<u8>,
    seed: Seq<u8>,
    public_key: Seq<u8>,
    secret_key: Seq<u8>,
)
    ensures
        spec_generate(rng_seed) matches Ok(kp) ==> kp.well_formed(),
        spec_from_seed(seed) matches Ok(kp) ==> kp.well_formed(),
        spec_from_keys(public_key, secret_key) matches Ok(kp) ==> kp.well_formed() && kp.public_key
            == public_key && kp.secret_key == secret_key,
        spec_from_keys(public_key, secret_key) is Ok <==> public_key.len() == EK_LEN
            && secret_key.len() == DK_LEN,
{
}

/// A public key of the wrong length is refused for its length alone: the
/// error does not depend on the key's contents, on the seed, or on what the
/// primitive's decoder would say, and it is an invalid-input error.
pub proof fn lemma_wrong_length_public_key_refused(public_key: Seq<u8>, rng_seed: Seq<u8>)
    requires
        public_key.len() != EK_LEN,
        public_key.len() <= usize::MAX,
    ensures
        spec_validate_public_key(public_key) == Err::<(), CryptoError>(
            CryptoError::InvalidPublicKeyLength {
                expected: EK_LEN,
                got: public_key.len() as usize,
            },
        ),
        spec_encapsulate(public_key, rng_seed) == Err::<EncapsulationBytes, CryptoError>(
            CryptoError::InvalidPublicKeyLength {
                expected: EK_LEN,
                got: public_key.len() as usize,
            },
        ),
        spec_encapsulate(public_key, rng_seed) matches Err(e) && e.spec_is_invalid_input(),
{
}

/// Every error of encapsulation and decapsulation with a seed given falls in
/// its class: wrong lengths are invalid input, undecodable keys are invalid
/// encodings, and nothing else but the primitive's own failure remains.
pub proof fn lemma_kem_error_classes(
    public_key: Seq<u8>,
    rng_seed: Seq<u8>,
    secret_key: Seq<u8>,
    ciphertext: Seq<u8>,
)
    ensures
        spec_encapsulate(public_key, rng_seed) matches Err(e) ==> {
            &&& e.spec_is_invalid_input() <==> public_key.len() != EK_LEN
            &&& e.spec_is_invalid_encoding() <==> public_key.len() == EK_LEN
                && !kem_public_key_decodes(public_key)
            &&& e.spec_is_primitive_failure() <==> spec_validate_public_key(public_key) is Ok
        },
        spec_decapsulate(secret_key, ciphertext) matches Err(e) ==> {
            &&& e.spec_is_invalid_input() <==> ciphertext.len() != CT_LEN || secret_key.len()
                != DK_LEN
            &&& e.spec_is_invalid_encoding() <==> ciphertext.len() == CT_LEN && secret_key.len()
                == DK_LEN && !kem_secret_key_decodes(secret_key)
            &&& e.spec_is_primitive_failure() <==> spec_validate_decapsulation(
                secret_key,
                ciphertext,
            ) is Ok
        },
{
}

/// What an encapsulation returns always fits a decapsulation: its ciphertext
/// and shared secret have their exact lengths, so decapsulating the
/// ciphertext with a well-formed key pair's secret key is never refused for
/// a length, and a secret that comes back has the shared secret's length.
///
/// That the two secrets are equal is the primitive's promise, not this
/// library's: it is not stated here.
pub proof fn lemma_encapsulation_fits_decapsulation(
    public_key: Seq<u8>,
    rng_seed: Seq<u8>,
    enc: EncapsulationBytes,
    kp: KemKeyPairBytes,
)
    requires
        spec_encapsulate(public_key, rng_seed) == Ok::<EncapsulationBytes, CryptoError>(enc),
        kp.well_formed(),
    ensures
        enc.well_formed(),
        match spec_decapsulate(kp.secret_key, enc.ciphertext) {
            Ok(secret) => secret.len() == enc.shared_secret.len(),
            Err(e) => e == CryptoError::InvalidSecretKeyEncoding || e
                == CryptoError::Decapsulation,
        },
{
}

/// The primitive is correct for this pair of keys: whatever it encapsulates
/// to the public key, with any seed, it decapsulates with the secret key to
/// the same shared secret.
///
/// This is a statement about the primitive. The library never checks it,
/// also not in `from_keys`; the law below says what follows where it holds.
pub open spec fn keys_match(public_key: Seq<u8>, secret_key: Seq<u8>) -> bool {
    forall|rng_seed: Seq<u8>|
        match #[trigger] kem_encaps(public_key, rng_seed) {
            Some((ssk, ct)) => kem_decaps(secret_key, ct) == Some(ssk),
            None => true,
        }
}

/// Round trip: for a well-formed key pair with a decodable secret key, for
/// which the primitive is correct, decapsulating the ciphertext of an
/// encapsulation gives exactly the shared secret of that encapsulation.
///
/// The library adds no failure of its own between the two calls: every check
/// that decapsulation makes is met by what encapsulation returned.
pub proof fn lemma_decapsulate_recovers_encapsulated_secret(
    kp: KemKeyPairBytes,
    rng_seed: Seq<u8>,
    enc: EncapsulationBytes,
)
    requires
        kp.well_formed(),
        kem_secret_key_decodes(kp.secret_key),
        keys_match(kp.public_key, kp.secret_key),
        spec_encapsulate(kp.public_key, rng_seed) == Ok::<EncapsulationBytes, CryptoError>(enc),
    ensures
        spec_decapsulate(kp.secret_key, enc.ciphertext) == Ok::<Seq<u8>, CryptoError>(
            enc.shared_secret,
        ),
        enc.shared_secret.len() == SSK_LEN,
{
    assert(kem_encaps(kp.public_key, rng_seed) is Some);
}

/// The key pair of a seed depends on the seed's SHA3-256 digest alone: two
/// 32-byte seeds with the same digest give the same result. Two seeds can
/// give different key pairs only where their digests differ.
pub proof fn lemma_from_seed_depends_on_digest_only(first: Seq<u8>, second: Seq<u8>)
    requires
        first.len() == SEED_LEN,
        second.len() == SEED_LEN,
        crate::hash::sha3_256(first) == crate::hash::sha3_256(second),
    ensures
        spec_from_seed(first) == spec_from_seed(second),
{
}

} // verus!
