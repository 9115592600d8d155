//! The one error type shared by the key-encapsulation and signature modules.

use vstd::prelude::*;

verus! {

/// Why an operation was refused or failed.
///
/// Wrong sizes are reported with the size that was expected and the size that
/// arrived, so that a caller can tell "wrong size" from "right size, malformed
/// contents" (the `...Encoding` variants) and from a failure inside the
/// primitive itself (`KeyGeneration`, `Encapsulation`, `Decapsulation`,
/// `Signing`).
#[derive(Clone, Copy, Debug, PartialEq, Eq, Structural)]
pub enum CryptoError {
    /// The secure random source was unavailable or failed.
    Entropy,
    /// A seed was not exactly 32 bytes long.
    InvalidSeedLength { expected: usize, got: usize },
    /// A public key did not have the length of the parameter set.
    InvalidPublicKeyLength { expected: usize, got: usize },
    /// A secret key did not have the length of the parameter set.
    InvalidSecretKeyLength { expected: usize, got: usize },
    /// A ciphertext did not have the length of the parameter set.
    InvalidCiphertextLength { expected: usize, got: usize },
    /// A signature did not have the length of the parameter set.
    InvalidSignatureLength { expected: usize, got: usize },
    /// A public key of the right length that the primitive refused to decode.
    InvalidPublicKeyEncoding,
    /// A secret key of the right length that the primitive refused to decode.
    InvalidSecretKeyEncoding,
    /// A ciphertext of the right length that the primitive refused to decode.
    InvalidCiphertextEncoding,
    /// The primitive failed to generate a key pair.
    KeyGeneration,
    /// The primitive failed to encapsulate.
    Encapsulation,
    /// The primitive failed to decapsulate.
    Decapsulation,
    /// The primitive failed to sign.
    Signing,
}

impl CryptoError {
    /// True of the errors that report a caller-supplied value of the wrong
    /// length: these are raised before any cryptographic work is attempted.
    pub open spec fn spec_is_invalid_input(self) -> bool {
        self is InvalidSeedLength || self is InvalidPublicKeyLength
            || self is InvalidSecretKeyLength || self is InvalidCiphertextLength
            || self is InvalidSignatureLength
    }

    /// True of the errors that report a value of the right length that the
    /// primitive could not decode.
    pub open spec fn spec_is_invalid_encoding(self) -> bool {
        self is InvalidPublicKeyEncoding || self is InvalidSecretKeyEncoding
            || self is InvalidCiphertextEncoding
    }

    /// True of the errors that come from inside the primitive.
    pub open spec fn spec_is_primitive_failure(self) -> bool {
        self is KeyGeneration || self is Encapsulation || self is Decapsulation || self is Signing
    }

    #[verifier::when_used_as_spec(spec_is_invalid_input)]
    pub fn is_invalid_input(self) -> (b: bool)
        ensures
            b == self.spec_is_invalid_input(),
    {
        match self {
            CryptoError::InvalidSeedLength { .. } => true,
            CryptoError::InvalidPublicKeyLength { .. } => true,
            CryptoError::InvalidSecretKeyLength { .. } => true,
            CryptoError::InvalidCiphertextLength { .. } => true,
            CryptoError::InvalidSignatureLength { .. } => true,
            _ => false,
        }
    }

    #[verifier::when_used_as_spec(spec_is_invalid_encoding)]
    pub fn is_invalid_encoding(self) -> (b: bool)
        ensures
            b == self.spec_is_invalid_encoding(),
    {
        match self {
            CryptoError::InvalidPublicKeyEncoding => true,
            CryptoError::InvalidSecretKeyEncoding => true,
            CryptoError::InvalidCiphertextEncoding => true,
            _ => false,
        }
    }

    #[verifier::when_used_as_spec(spec_is_primitive_failure)]
    pub fn is_primitive_failure(self) -> (b: bool)
        ensures
            b == self.spec_is_primitive_failure(),
    {
        match self {
            CryptoError::KeyGeneration => true,
            CryptoError::Encapsulation => true,
            CryptoError::Decapsulation => true,
            CryptoError::Signing => true,
            _ => false,
        }
    }
}

/// Every error belongs to exactly one of the four classes: entropy, wrong
/// length, malformed encoding, primitive failure.
pub proof fn lemma_error_classes_partition(e: CryptoError)
    ensures
        (e is Entropy) || e.spec_is_invalid_input() || e.spec_is_invalid_encoding()
            || e.spec_is_primitive_failure(),
        !(e is Entropy && e.spec_is_invalid_input()),
        !(e is Entropy && e.spec_is_invalid_encoding()),
        !(e is Entropy && e.spec_is_primitive_failure()),
        !(e.spec_is_invalid_input() && e.spec_is_invalid_encoding()),
        !(e.spec_is_invalid_input() && e.spec_is_primitive_failure()),
        !(e.spec_is_invalid_encoding() && e.spec_is_primitive_failure()),
{
}

/// A result with its success value replaced by that value's view, so that a
/// contract can state the whole result in one equation.
pub open spec fn result_view<T: View>(r: Result<T, CryptoError>) -> Result<T::V, CryptoError> {
    match r {
        Ok(value) => Ok(value@),
        Err(e) => Err(e),
    }
}

} // verus!
