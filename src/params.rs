//! Parameter sets of the fixtures, recorded independently of the types of the
//! library under test so that a manifest can be read by any of its versions.

use vstd::prelude::*;

verus! {

/// Which secret key encrypts: the large one or the small one.
#[derive(Clone, Copy, Debug, PartialEq, Eq, Structural)]
pub enum EncryptionKeyChoice {
    Big,
    Small,
}

/// The key choice a parameter set names by `text`, if any.
pub open spec fn spec_key_choice(text: Seq<char>) -> Option<EncryptionKeyChoice> {
    if text == "big"@ {
        Some(EncryptionKeyChoice::Big)
    } else if text == "small"@ {
        Some(EncryptionKeyChoice::Small)
    } else {
        None
    }
}

/// Reads a key choice: `big` or `small`; any other text is refused.
pub fn parse_key_choice(text: &str) -> (r: Option<EncryptionKeyChoice>)
    ensures
        r == spec_key_choice(text@),
{
    let t = String::from_str(text);
    if t == String::from_str("big") {
        Some(EncryptionKeyChoice::Big)
    } else if t == String::from_str("small") {
        Some(EncryptionKeyChoice::Small)
    } else {
        None
    }
}

/// A cryptographic parameter set. Floating-point values are kept as the bits
/// of their IEEE-754 double encoding (what `f64::to_bits` gives).
#[derive(Clone, Debug, PartialEq, Eq)]
pub struct TestParameterSet {
    pub lwe_dimension: usize,
    pub glwe_dimension: usize,
    pub polynomial_size: usize,
    pub lwe_noise_gaussian_stddev_bits: u64,
    pub glwe_noise_gaussian_stddev_bits: u64,
    pub pbs_base_log: usize,
    pub pbs_level: usize,
    pub ks_base_log: usize,
    pub ks_level: usize,
    pub message_modulus: usize,
    pub ciphertext_modulus: u128,
    pub carry_modulus: usize,
    pub max_noise_level: usize,
    pub log2_p_fail_bits: u64,
    pub encryption_key_choice: String,
}

/// Bits of the double 6.36835566258815e-06.
pub const VALID_LWE_NOISE_STDDEV_BITS: u64 = 0x3eda_b5f8_4673_faa8;

/// Bits of the double 3.1529322391500584e-16.
pub const VALID_GLWE_NOISE_STDDEV_BITS: u64 = 0x3cb6_b822_2723_f06b;

/// Bits of the double -40.05.
pub const VALID_LOG2_P_FAIL_BITS: u64 = 0xc044_0666_6666_6666;

/// Bits of the largest finite double.
pub const F64_MAX_BITS: u64 = 0x7fef_ffff_ffff_ffff;

/// The native 64-bit ciphertext modulus, 2^64.
pub const NATIVE_CIPHERTEXT_MODULUS: u128 = 0x1_0000_0000_0000_0000;

impl TestParameterSet {
    /// The key choice this set names, if it names a known one.
    pub fn key_choice(&self) -> (r: Option<EncryptionKeyChoice>)
        ensures
            r == spec_key_choice(self.encryption_key_choice@),
    {
        parse_key_choice(self.encryption_key_choice.as_str())
    }
}

/// Whether `p` is the parameter set with which the fixtures' keys are generated.
pub open spec fn is_valid_test_params(p: TestParameterSet) -> bool {
    &&& p.lwe_dimension == 761
    &&& p.glwe_dimension == 1
    &&& p.polynomial_size == 2048
    &&& p.lwe_noise_gaussian_stddev_bits == VALID_LWE_NOISE_STDDEV_BITS
    &&& p.glwe_noise_gaussian_stddev_bits == VALID_GLWE_NOISE_STDDEV_BITS
    &&& p.pbs_base_log == 23
    &&& p.pbs_level == 1
    &&& p.ks_base_log == 3
    &&& p.ks_level == 5
    &&& p.message_modulus == 4
    &&& p.carry_modulus == 4
    &&& p.max_noise_level == 5
    &&& p.log2_p_fail_bits == VALID_LOG2_P_FAIL_BITS
    &&& p.ciphertext_modulus == NATIVE_CIPHERTEXT_MODULUS
    &&& p.encryption_key_choice@ == "big"@
}

/// A parameter set with which keys can be generated.
pub fn valid_test_params() -> (r: TestParameterSet)
    ensures
        is_valid_test_params(r),
        spec_key_choice(r.encryption_key_choice@) == Some(EncryptionKeyChoice::Big),
{
    TestParameterSet {
        lwe_dimension: 761,
        glwe_dimension: 1,
        polynomial_size: 2048,
        lwe_noise_gaussian_stddev_bits: VALID_LWE_NOISE_STDDEV_BITS,
        glwe_noise_gaussian_stddev_bits: VALID_GLWE_NOISE_STDDEV_BITS,
        pbs_base_log: 23,
        pbs_level: 1,
        ks_base_log: 3,
        ks_level: 5,
        message_modulus: 4,
        carry_modulus: 4,
        max_noise_level: 5,
        log2_p_fail_bits: VALID_LOG2_P_FAIL_BITS,
        ciphertext_modulus: NATIVE_CIPHERTEXT_MODULUS,
        encryption_key_choice: String::from_str("big"),
    }
}

/// A parameter set at the limits of every field, with which nothing can be
/// generated.
pub fn invalid_test_params() -> (r: TestParameterSet)
    ensures
        r.lwe_dimension == usize::MAX,
        r.glwe_dimension == usize::MAX,
        r.polynomial_size == usize::MAX,
        r.lwe_noise_gaussian_stddev_bits == F64_MAX_BITS,
        r.glwe_noise_gaussian_stddev_bits == F64_MAX_BITS,
        r.pbs_base_log == usize::MAX,
        r.pbs_level == usize::MAX,
        r.ks_base_log == usize::MAX,
        r.ks_level == usize::MAX,
        r.message_modulus == usize::MAX,
        r.carry_modulus == usize::MAX,
        r.max_noise_level == usize::MAX,
        r.log2_p_fail_bits == F64_MAX_BITS,
        r.ciphertext_modulus == u128::MAX,
        r.encryption_key_choice@ == "big"@,
{
    TestParameterSet {
        lwe_dimension: usize::MAX,
        glwe_dimension: usize::MAX,
        polynomial_size: usize::MAX,
        lwe_noise_gaussian_stddev_bits: F64_MAX_BITS,
        glwe_noise_gaussian_stddev_bits: F64_MAX_BITS,
        pbs_base_log: usize::MAX,
        pbs_level: usize::MAX,
        ks_base_log: usize::MAX,
        ks_level: usize::MAX,
        message_modulus: usize::MAX,
        carry_modulus: usize::MAX,
        max_noise_level: usize::MAX,
        log2_p_fail_bits: F64_MAX_BITS,
        ciphertext_modulus: u128::MAX,
        encryption_key_choice: String::from_str("big"),
    }
}

} // verus!
