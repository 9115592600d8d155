//! Descriptors of the two algorithms: names, standards and sizes.

use vstd::prelude::*;
use crate::dsa_primitive::PK_LEN;
use crate::dsa_primitive::SIG_LEN;
use crate::dsa_primitive::SK_LEN;
use crate::kem_primitive::CT_LEN;
use crate::kem_primitive::DK_LEN;
use crate::kem_primitive::EK_LEN;
use crate::kem_primitive::SSK_LEN;

verus! {

/// The version of this library.
pub const VERSION: &'static str = "0.1.0";

/// What the key-encapsulation algorithm is and how large its values are.
#[derive(Clone, Copy, Debug)]
pub struct KemAlgorithmInfo {
    pub algorithm: &'static str,
    pub standard: &'static str,
    pub security_level: &'static str,
    pub public_key_size: u32,
    pub secret_key_size: u32,
    pub ciphertext_size: u32,
    pub shared_secret_size: u32,
}

/// What the signature algorithm is and how large its values are.
#[derive(Clone, Copy, Debug)]
pub struct DsaAlgorithmInfo {
    pub algorithm: &'static str,
    pub standard: &'static str,
    pub security_level: &'static str,
    pub public_key_size: u32,
    pub secret_key_size: u32,
    pub signature_size: u32,
}

/// The version of this library, as text.
pub fn get_version() -> (version: String)
    ensures
        version@ == VERSION@,
{
    VERSION.to_owned()
}

/// The descriptor of ML-KEM-768.
pub fn get_algorithm_info() -> (info: KemAlgorithmInfo)
    ensures
        info.algorithm@ == "ML-KEM-768"@,
        info.standard@ == "FIPS 203"@,
        info.security_level@ == "Level 3 (192-bit post-quantum)"@,
        info.public_key_size == EK_LEN,
        info.secret_key_size == DK_LEN,
        info.ciphertext_size == CT_LEN,
        info.shared_secret_size == SSK_LEN,
{
    KemAlgorithmInfo {
        algorithm: "ML-KEM-768",
        standard: "FIPS 203",
        security_level: "Level 3 (192-bit post-quantum)",
        public_key_size: 1184,
        secret_key_size: 2400,
        ciphertext_size: 1088,
        shared_secret_size: 32,
    }
}

/// The descriptor of ML-DSA-65.
pub fn get_dsa_algorithm_info() -> (info: DsaAlgorithmInfo)
    ensures
        info.algorithm@ == "ML-DSA-65"@,
        info.standard@ == "FIPS 204"@,
        info.security_level@ == "Level 3 (192-bit post-quantum)"@,
        info.public_key_size == PK_LEN,
        info.secret_key_size == SK_LEN,
        info.signature_size == SIG_LEN,
{
    DsaAlgorithmInfo {
        algorithm: "ML-DSA-65",
        standard: "FIPS 204",
        security_level: "Level 3 (192-bit post-quantum)",
        public_key_size: 1952,
        secret_key_size: 4032,
        signature_size: 3309,
    }
}

} // verus!
