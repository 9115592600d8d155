use volly_crypto::benchmark::benchmark_encap;
use volly_crypto::benchmark::benchmark_keygen;
use volly_crypto::entropy::draw_seed;
use volly_crypto::entropy::seed_from_outcome;
use volly_crypto::entropy::SEED_LEN;
use volly_crypto::error::CryptoError;
use volly_crypto::hash::whiten_seed;
use volly_crypto::info::get_algorithm_info;
use volly_crypto::info::get_dsa_algorithm_info;
use volly_crypto::info::get_version;
use volly_crypto::kem::VollyKEM;

#[test]
fn whiten_seed_of_zeros_is_its_sha3_256_digest() {
    let digest = whiten_seed(&[0u8; 32]);
    assert_eq!(
        digest,
        Ok([
            158, 98, 145, 151, 12, 180, 77, 217, 64, 8, 199, 155, 202, 249, 216, 111, 24, 180, 180,
            155, 165, 178, 160, 71, 129, 219, 113, 153, 237, 59, 158, 78,
        ])
    );
}

#[test]
fn whiten_seed_of_a_counting_seed_is_its_sha3_256_digest() {
    let seed: Vec<u8> = (0u8..32).collect();
    assert_eq!(
        whiten_seed(&seed),
        Ok([
            5, 10, 72, 115, 59, 213, 194, 117, 107, 169, 92, 88, 40, 204, 131, 238, 22, 250, 188,
            211, 192, 134, 136, 91, 119, 68, 248, 74, 15, 158, 13, 148,
        ])
    );
}

#[test]
fn whiten_seed_refuses_wrong_lengths() {
    assert_eq!(whiten_seed(&[]), Err(CryptoError::InvalidSeedLength { expected: 32, got: 0 }));
    assert_eq!(
        whiten_seed(&[1u8; 31]),
        Err(CryptoError::InvalidSeedLength { expected: 32, got: 31 })
    );
    assert_eq!(
        whiten_seed(&[1u8; 33]),
        Err(CryptoError::InvalidSeedLength { expected: 32, got: 33 })
    );
}

#[test]
fn seed_from_outcome_keeps_the_seed() {
    assert_eq!(SEED_LEN, 32);
    assert_eq!(seed_from_outcome(Ok([7u8; 32])), Ok([7u8; 32]));
}

#[test]
fn seed_from_outcome_reports_entropy_failure() {
    assert_eq!(seed_from_outcome(Err(getrandom::Error::UNSUPPORTED)), Err(CryptoError::Entropy));
    assert_eq!(seed_from_outcome(Err(getrandom::Error::UNEXPECTED)), Err(CryptoError::Entropy));
}

#[test]
fn draw_seed_gives_fresh_bytes_each_time() {
    let a = draw_seed().ok().expect("first draw");
    let b = draw_seed().ok().expect("second draw");
    assert_ne!(a, b);
    assert_ne!(a, [0u8; 32]);
}

#[test]
fn error_classes() {
    let lengths = [
        CryptoError::InvalidSeedLength { expected: 32, got: 1 },
        CryptoError::InvalidPublicKeyLength { expected: 1184, got: 1 },
        CryptoError::InvalidSecretKeyLength { expected: 2400, got: 1 },
        CryptoError::InvalidCiphertextLength { expected: 1088, got: 1 },
        CryptoError::InvalidSignatureLength { expected: 3309, got: 1 },
    ];
    for e in lengths {
        assert!(e.is_invalid_input());
        assert!(!e.is_invalid_encoding());
        assert!(!e.is_primitive_failure());
    }
    let encodings = [
        CryptoError::InvalidPublicKeyEncoding,
        CryptoError::InvalidSecretKeyEncoding,
        CryptoError::InvalidCiphertextEncoding,
    ];
    for e in encodings {
        assert!(!e.is_invalid_input());
        assert!(e.is_invalid_encoding());
        assert!(!e.is_primitive_failure());
    }
    let failures = [
        CryptoError::KeyGeneration,
        CryptoError::Encapsulation,
        CryptoError::Decapsulation,
        CryptoError::Signing,
    ];
    for e in failures {
        assert!(!e.is_invalid_input());
        assert!(!e.is_invalid_encoding());
        assert!(e.is_primitive_failure());
    }
    assert!(!CryptoError::Entropy.is_invalid_input());
    assert!(!CryptoError::Entropy.is_invalid_encoding());
    assert!(!CryptoError::Entropy.is_primitive_failure());
}

#[test]
fn kem_algorithm_info() {
    let info = get_algorithm_info();
    assert_eq!(info.algorithm, "ML-KEM-768");
    assert_eq!(info.standard, "FIPS 203");
    assert_eq!(info.security_level, "Level 3 (192-bit post-quantum)");
    assert_eq!(info.public_key_size, 1184);
    assert_eq!(info.secret_key_size, 2400);
    assert_eq!(info.ciphertext_size, 1088);
    assert_eq!(info.shared_secret_size, 32);
}

#[test]
fn dsa_algorithm_info() {
    let info = get_dsa_algorithm_info();
    assert_eq!(info.algorithm, "ML-DSA-65");
    assert_eq!(info.standard, "FIPS 204");
    assert_eq!(info.security_level, "Level 3 (192-bit post-quantum)");
    assert_eq!(info.public_key_size, 1952);
    assert_eq!(info.secret_key_size, 4032);
    assert_eq!(info.signature_size, 3309);
}

#[test]
fn version_is_the_package_version() {
    assert_eq!(get_version(), "0.1.0");
}

#[test]
fn benchmark_keygen_counts_its_rounds() {
    assert_eq!(benchmark_keygen(0), Ok(0));
    assert_eq!(benchmark_keygen(3), Ok(3));
}

#[test]
fn benchmark_encap_counts_its_rounds() {
    let kem = VollyKEM::from_seed(&[1u8; 32]).ok().expect("key");
    assert_eq!(benchmark_encap(0, kem.public_key()), Ok(0));
    assert_eq!(benchmark_encap(4, kem.public_key()), Ok(4));
}

#[test]
fn benchmark_encap_validates_the_key_first() {
    assert_eq!(
        benchmark_encap(0, &[0u8; 10]),
        Err(CryptoError::InvalidPublicKeyLength { expected: 1184, got: 10 })
    );
    assert_eq!(
        benchmark_encap(5, &[0u8; 10]),
        Err(CryptoError::InvalidPublicKeyLength { expected: 1184, got: 10 })
    );
    assert_eq!(benchmark_encap(0, &[0xFFu8; 1184]), Err(CryptoError::InvalidPublicKeyEncoding));
}
