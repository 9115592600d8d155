use fips203::ml_kem_768;
use fips203::traits::Decaps;
use fips203::traits::Encaps;
use fips203::traits::KeyGen;
use fips203::traits::SerDes;
use rand::SeedableRng;
use rand_chacha::ChaCha20Rng;
use volly_crypto::error::CryptoError;
use volly_crypto::hash::whiten_seed;
use volly_crypto::kem::shared_secret_from_outcome;
use volly_crypto::kem::VollyEncapsulation;
use volly_crypto::kem::VollyKEM;
use volly_crypto::kem_primitive::CT_LEN;
use volly_crypto::kem_primitive::DK_LEN;
use volly_crypto::kem_primitive::EK_LEN;
use volly_crypto::kem_primitive::SSK_LEN;

fn keypair(fill: u8) -> VollyKEM {
    match VollyKEM::from_seed(&[fill; 32]) {
        Ok(k) => k,
        Err(e) => panic!("from_seed failed: {:?}", e),
    }
}

#[test]
fn kem_sizes_are_those_of_the_primitive() {
    assert_eq!(EK_LEN, ml_kem_768::EK_LEN);
    assert_eq!(DK_LEN, ml_kem_768::DK_LEN);
    assert_eq!(CT_LEN, ml_kem_768::CT_LEN);
    assert_eq!(SSK_LEN, fips203::SSK_LEN);
    let sizes = VollyKEM::key_sizes();
    assert_eq!(sizes.public_key, 1184);
    assert_eq!(sizes.secret_key, 2400);
    assert_eq!(sizes.ciphertext, 1088);
    assert_eq!(sizes.shared_secret, 32);
}

#[test]
fn kem_zero_seed_round_trip() {
    let kem = keypair(0x00);
    let enc = match kem.encapsulate(kem.public_key()) {
        Ok(enc) => enc,
        Err(e) => panic!("encapsulate failed: {:?}", e),
    };
    let secret = match kem.decapsulate(enc.ciphertext()) {
        Ok(s) => s,
        Err(e) => panic!("decapsulate failed: {:?}", e),
    };
    assert_eq!(secret.len(), 32);
    assert_eq!(enc.shared_secret().len(), 32);
    assert_eq!(secret.as_slice(), enc.shared_secret());
}

#[test]
fn kem_round_trip_for_several_keys() {
    for fill in [1u8, 7, 42, 200, 255] {
        let kem = keypair(fill);
        for round in 0u8..3 {
            let enc = VollyKEM::encapsulate_with_seed(kem.public_key(), &[round; 32]);
            let enc = match enc {
                Ok(enc) => enc,
                Err(e) => panic!("encapsulate_with_seed failed: {:?}", e),
            };
            let by_instance = kem.decapsulate(enc.ciphertext());
            let by_key = VollyKEM::decapsulate_with_key(kem.secret_key(), enc.ciphertext());
            assert_eq!(by_instance.as_deref().ok(), Some(enc.shared_secret()));
            assert_eq!(by_key.as_deref().ok(), Some(enc.shared_secret()));
        }
    }
}

#[test]
fn kem_fresh_keys_round_trip() {
    let kem = match VollyKEM::new() {
        Ok(k) => k,
        Err(e) => panic!("new failed: {:?}", e),
    };
    assert_eq!(kem.public_key().len(), 1184);
    assert_eq!(kem.secret_key().len(), 2400);
    let enc = match kem.encapsulate(kem.public_key()) {
        Ok(enc) => enc,
        Err(e) => panic!("encapsulate failed: {:?}", e),
    };
    assert_eq!(enc.ciphertext().len(), 1088);
    let secret = kem.decapsulate(enc.ciphertext());
    assert_eq!(secret.as_deref().ok(), Some(enc.shared_secret()));
}

#[test]
fn kem_two_fresh_keys_differ() {
    let a = VollyKEM::new().ok().expect("first key");
    let b = VollyKEM::new().ok().expect("second key");
    assert_ne!(a.public_key(), b.public_key());
    assert_ne!(a.secret_key(), b.secret_key());
}

#[test]
fn kem_two_encapsulations_differ() {
    let kem = keypair(3);
    let a = kem.encapsulate(kem.public_key()).ok().expect("first");
    let b = kem.encapsulate(kem.public_key()).ok().expect("second");
    assert_ne!(a.ciphertext(), b.ciphertext());
    assert_ne!(a.shared_secret(), b.shared_secret());
}

#[test]
fn kem_from_seed_is_deterministic() {
    let seed: Vec<u8> = (0u8..32).collect();
    let a = VollyKEM::from_seed(&seed).ok().expect("first");
    let b = VollyKEM::from_seed(&seed).ok().expect("second");
    assert_eq!(a.public_key(), b.public_key());
    assert_eq!(a.secret_key(), b.secret_key());
}

#[test]
fn kem_different_seeds_give_different_keys() {
    let a = keypair(0);
    let mut seed = [0u8; 32];
    seed[31] = 1;
    let b = VollyKEM::from_seed(&seed).ok().expect("second");
    assert_ne!(a.public_key(), b.public_key());
    assert_ne!(a.secret_key(), b.secret_key());
}

#[test]
fn kem_from_seed_hashes_the_seed_first() {
    let seed = [0u8; 32];
    let derived = whiten_seed(&seed).ok().expect("digest");
    let mut rng = ChaCha20Rng::from_seed(derived);
    let (ek, dk) = ml_kem_768::KG::try_keygen_with_rng(&mut rng).expect("keygen");
    let kem = keypair(0);
    assert_eq!(kem.public_key(), &ek.into_bytes()[..]);
    assert_eq!(kem.secret_key(), &dk.into_bytes()[..]);

    let mut raw = ChaCha20Rng::from_seed(seed);
    let (raw_ek, _) = ml_kem_768::KG::try_keygen_with_rng(&mut raw).expect("keygen");
    assert_ne!(kem.public_key(), &raw_ek.into_bytes()[..]);
}

#[test]
fn kem_generate_from_seed_uses_the_seed_as_given() {
    let seed = [9u8; 32];
    let mut rng = ChaCha20Rng::from_seed(seed);
    let (ek, dk) = ml_kem_768::KG::try_keygen_with_rng(&mut rng).expect("keygen");
    let kem = VollyKEM::generate_from_seed(&seed).ok().expect("generate");
    assert_eq!(kem.public_key(), &ek.into_bytes()[..]);
    assert_eq!(kem.secret_key(), &dk.into_bytes()[..]);
}

#[test]
fn kem_from_seed_refuses_wrong_lengths() {
    for len in [0usize, 1, 31, 33, 64] {
        let seed = vec![0u8; len];
        assert_eq!(
            VollyKEM::from_seed(&seed).err(),
            Some(CryptoError::InvalidSeedLength { expected: 32, got: len })
        );
    }
}

#[test]
fn kem_encapsulate_refuses_short_public_key() {
    let kem = keypair(5);
    let short = &kem.public_key()[..EK_LEN - 1];
    let r = kem.encapsulate(short);
    assert_eq!(r.err(), Some(CryptoError::InvalidPublicKeyLength { expected: 1184, got: 1183 }));
    let r = VollyKEM::encapsulate_with_seed(short, &[0u8; 32]);
    assert_eq!(r.err(), Some(CryptoError::InvalidPublicKeyLength { expected: 1184, got: 1183 }));
    let e = CryptoError::InvalidPublicKeyLength { expected: 1184, got: 1183 };
    assert!(e.is_invalid_input());
}

#[test]
fn kem_encapsulate_refuses_other_wrong_lengths() {
    let kem = keypair(5);
    for len in [0usize, 32, 1185, 2400] {
        let key = vec![0u8; len];
        assert_eq!(
            kem.encapsulate(&key).err(),
            Some(CryptoError::InvalidPublicKeyLength { expected: 1184, got: len })
        );
        assert_eq!(
            VollyKEM::validate_public_key(&key),
            Err(CryptoError::InvalidPublicKeyLength { expected: 1184, got: len })
        );
    }
}

#[test]
fn kem_encapsulate_refuses_malformed_public_key() {
    let kem = keypair(5);
    let mut key = kem.public_key().to_vec();
    key[0] = 0xFF;
    key[1] = 0xFF;
    assert_eq!(VollyKEM::validate_public_key(&key), Err(CryptoError::InvalidPublicKeyEncoding));
    assert_eq!(kem.encapsulate(&key).err(), Some(CryptoError::InvalidPublicKeyEncoding));
    assert_eq!(
        VollyKEM::encapsulate_with_seed(&key, &[1u8; 32]).err(),
        Some(CryptoError::InvalidPublicKeyEncoding)
    );
    assert!(ml_kem_768::EncapsKey::try_from_bytes(key.try_into().expect("length")).is_err());
}

#[test]
fn kem_validate_public_key_accepts_generated_key() {
    let kem = keypair(11);
    assert_eq!(VollyKEM::validate_public_key(kem.public_key()), Ok(()));
}

#[test]
fn kem_encapsulate_with_seed_matches_the_primitive() {
    let kem = keypair(13);
    let seed = [77u8; 32];
    let enc = VollyKEM::encapsulate_with_seed(kem.public_key(), &seed).ok().expect("encaps");
    let again = VollyKEM::encapsulate_with_seed(kem.public_key(), &seed).ok().expect("encaps");
    assert_eq!(enc.ciphertext(), again.ciphertext());
    assert_eq!(enc.shared_secret(), again.shared_secret());

    let ek = ml_kem_768::EncapsKey::try_from_bytes(kem.public_key().try_into().expect("length"))
        .expect("decode");
    let mut rng = ChaCha20Rng::from_seed(seed);
    let (ssk, ct) = ek.try_encaps_with_rng(&mut rng).expect("encaps");
    assert_eq!(enc.ciphertext(), &ct.into_bytes()[..]);
    assert_eq!(enc.shared_secret(), &ssk.into_bytes()[..]);
    assert_ne!(enc.shared_secret(), &seed[..]);
}

#[test]
fn kem_decapsulate_matches_the_primitive() {
    let kem = keypair(17);
    let ciphertext = vec![0x5Au8; CT_LEN];
    let ours = VollyKEM::decapsulate_with_key(kem.secret_key(), &ciphertext).ok().expect("decaps");
    let dk = ml_kem_768::DecapsKey::try_from_bytes(kem.secret_key().try_into().expect("length"))
        .expect("decode");
    let ct = ml_kem_768::CipherText::try_from_bytes(ciphertext.clone().try_into().expect("length"))
        .expect("decode");
    let theirs = dk.try_decaps(&ct).expect("decaps").into_bytes();
    assert_eq!(ours.as_slice(), &theirs[..]);
    assert_eq!(ours.len(), 32);
}

#[test]
fn kem_decapsulate_with_foreign_key_gives_another_secret() {
    let alice = keypair(1);
    let mallory = keypair(2);
    let enc = alice.encapsulate(alice.public_key()).ok().expect("encaps");
    let wrong = mallory.decapsulate(enc.ciphertext()).ok().expect("implicit rejection");
    assert_eq!(wrong.len(), 32);
    assert_ne!(wrong.as_slice(), enc.shared_secret());
}

#[test]
fn kem_decapsulate_refuses_wrong_ciphertext_length() {
    let kem = keypair(19);
    for len in [0usize, 1087, 1089] {
        let ct = vec![0u8; len];
        assert_eq!(
            kem.decapsulate(&ct).err(),
            Some(CryptoError::InvalidCiphertextLength { expected: 1088, got: len })
        );
        assert_eq!(
            VollyKEM::decapsulate_with_key(kem.secret_key(), &ct).err(),
            Some(CryptoError::InvalidCiphertextLength { expected: 1088, got: len })
        );
    }
}

#[test]
fn kem_decapsulate_checks_ciphertext_before_key() {
    let r = VollyKEM::decapsulate_with_key(&[0u8; 3], &[0u8; 5]);
    assert_eq!(r.err(), Some(CryptoError::InvalidCiphertextLength { expected: 1088, got: 5 }));
}

#[test]
fn kem_decapsulate_refuses_wrong_secret_key_length() {
    let ct = vec![0u8; CT_LEN];
    for len in [0usize, 2399, 2401] {
        let sk = vec![0u8; len];
        assert_eq!(
            VollyKEM::decapsulate_with_key(&sk, &ct).err(),
            Some(CryptoError::InvalidSecretKeyLength { expected: 2400, got: len })
        );
    }
}

#[test]
fn kem_decapsulate_refuses_malformed_secret_key() {
    let kem = keypair(23);
    let ct = vec![0u8; CT_LEN];
    let mut sk = kem.secret_key().to_vec();
    sk[2336] ^= 0x01;
    assert_eq!(
        VollyKEM::decapsulate_with_key(&sk, &ct).err(),
        Some(CryptoError::InvalidSecretKeyEncoding)
    );
    assert_eq!(
        VollyKEM::validate_decapsulation(&sk, &ct),
        Err(CryptoError::InvalidSecretKeyEncoding)
    );
}

#[test]
fn kem_decapsulate_reports_primitive_failure() {
    let kem = keypair(29);
    let ct = vec![0u8; CT_LEN];
    let mut sk = kem.secret_key().to_vec();
    sk[0] = 0xFF;
    sk[1] = 0xFF;
    assert_eq!(VollyKEM::validate_decapsulation(&sk, &ct), Ok(()));
    assert_eq!(VollyKEM::decapsulate_with_key(&sk, &ct).err(), Some(CryptoError::Decapsulation));
}

#[test]
fn kem_from_keys_keeps_both_halves() {
    let kem = keypair(31);
    let copy = VollyKEM::from_keys(kem.public_key(), kem.secret_key()).ok().expect("from_keys");
    assert_eq!(copy.public_key(), kem.public_key());
    assert_eq!(copy.secret_key(), kem.secret_key());
}

#[test]
fn kem_from_keys_does_not_check_pairing() {
    let a = keypair(1);
    let b = keypair(2);
    let mixed = VollyKEM::from_keys(a.public_key(), b.secret_key()).ok().expect("from_keys");
    assert_eq!(mixed.public_key(), a.public_key());
    assert_eq!(mixed.secret_key(), b.secret_key());
}

#[test]
fn kem_from_keys_refuses_wrong_lengths() {
    let pk = vec![0u8; EK_LEN];
    let sk = vec![0u8; DK_LEN];
    assert_eq!(
        VollyKEM::from_keys(&pk[..100], &sk).err(),
        Some(CryptoError::InvalidPublicKeyLength { expected: 1184, got: 100 })
    );
    assert_eq!(
        VollyKEM::from_keys(&pk, &sk[..100]).err(),
        Some(CryptoError::InvalidSecretKeyLength { expected: 2400, got: 100 })
    );
    assert_eq!(
        VollyKEM::from_keys(&pk[..1], &sk[..1]).err(),
        Some(CryptoError::InvalidPublicKeyLength { expected: 1184, got: 1 })
    );
}

#[test]
fn kem_accessors_are_idempotent() {
    let kem = keypair(37);
    let first = kem.public_key().to_vec();
    let second = kem.public_key().to_vec();
    assert_eq!(first, second);
    let first = kem.secret_key().to_vec();
    let _ = kem.encapsulate(kem.public_key());
    let second = kem.secret_key().to_vec();
    assert_eq!(first, second);
    let enc = kem.encapsulate(kem.public_key()).ok().expect("encaps");
    assert_eq!(enc.ciphertext().to_vec(), enc.ciphertext().to_vec());
    assert_eq!(enc.shared_secret().to_vec(), enc.shared_secret().to_vec());
}

#[test]
fn kem_keygen_outcome_failure_is_key_generation() {
    assert_eq!(VollyKEM::from_keygen_outcome(Err("failed")).err(), Some(CryptoError::KeyGeneration));
    let short = Ok((vec![0u8; 10], vec![0u8; DK_LEN]));
    assert_eq!(VollyKEM::from_keygen_outcome(short).err(), Some(CryptoError::KeyGeneration));
    let short = Ok((vec![0u8; EK_LEN], vec![0u8; 10]));
    assert_eq!(VollyKEM::from_keygen_outcome(short).err(), Some(CryptoError::KeyGeneration));
    let full = VollyKEM::from_keygen_outcome(Ok((vec![1u8; EK_LEN], vec![2u8; DK_LEN])));
    let full = full.ok().expect("full lengths");
    assert_eq!(full.public_key(), &vec![1u8; EK_LEN][..]);
    assert_eq!(full.secret_key(), &vec![2u8; DK_LEN][..]);
}

#[test]
fn kem_encapsulation_outcome_failure_is_encapsulation() {
    assert_eq!(
        VollyEncapsulation::from_outcome(Err("failed")).err(),
        Some(CryptoError::Encapsulation)
    );
    let short = Ok((vec![0u8; 31], vec![0u8; CT_LEN]));
    assert_eq!(VollyEncapsulation::from_outcome(short).err(), Some(CryptoError::Encapsulation));
    let short = Ok((vec![0u8; 32], vec![0u8; CT_LEN + 1]));
    assert_eq!(VollyEncapsulation::from_outcome(short).err(), Some(CryptoError::Encapsulation));
    let full = VollyEncapsulation::from_outcome(Ok((vec![3u8; 32], vec![4u8; CT_LEN])));
    let full = full.ok().expect("full lengths");
    assert_eq!(full.shared_secret(), &[3u8; 32][..]);
    assert_eq!(full.ciphertext(), &vec![4u8; CT_LEN][..]);
}

#[test]
fn kem_shared_secret_outcome_failure_is_decapsulation() {
    assert_eq!(shared_secret_from_outcome(Err("failed")), Err(CryptoError::Decapsulation));
    assert_eq!(shared_secret_from_outcome(Ok(vec![0u8; 31])), Err(CryptoError::Decapsulation));
    assert_eq!(shared_secret_from_outcome(Ok(vec![6u8; 32])), Ok(vec![6u8; 32]));
}
