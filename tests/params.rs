use tfhe_backward_compat_data::params::{
    invalid_test_params, parse_key_choice, valid_test_params, EncryptionKeyChoice,
};

#[test]
fn key_choice_parsing() {
    assert_eq!(parse_key_choice("big"), Some(EncryptionKeyChoice::Big));
    assert_eq!(parse_key_choice("small"), Some(EncryptionKeyChoice::Small));
    assert_eq!(parse_key_choice("Big"), None);
    assert_eq!(parse_key_choice(""), None);
    assert_eq!(parse_key_choice("medium"), None);
}

#[test]
fn valid_params_values() {
    let p = valid_test_params();
    assert_eq!(p.lwe_dimension, 761);
    assert_eq!(p.glwe_dimension, 1);
    assert_eq!(p.polynomial_size, 2048);
    assert_eq!(f64::from_bits(p.lwe_noise_gaussian_stddev_bits), 6.36835566258815e-06);
    assert_eq!(f64::from_bits(p.glwe_noise_gaussian_stddev_bits), 3.1529322391500584e-16);
    assert_eq!(p.pbs_base_log, 23);
    assert_eq!(p.pbs_level, 1);
    assert_eq!(p.ks_base_log, 3);
    assert_eq!(p.ks_level, 5);
    assert_eq!(p.message_modulus, 4);
    assert_eq!(p.carry_modulus, 4);
    assert_eq!(p.max_noise_level, 5);
    assert_eq!(f64::from_bits(p.log2_p_fail_bits), -40.05);
    assert_eq!(p.ciphertext_modulus, (u64::MAX as u128) + 1);
    assert_eq!(p.encryption_key_choice, "big");
    assert_eq!(p.key_choice(), Some(EncryptionKeyChoice::Big));
}

#[test]
fn invalid_params_values() {
    let p = invalid_test_params();
    assert_eq!(p.lwe_dimension, usize::MAX);
    assert_eq!(p.polynomial_size, usize::MAX);
    assert_eq!(f64::from_bits(p.lwe_noise_gaussian_stddev_bits), f64::MAX);
    assert_eq!(f64::from_bits(p.log2_p_fail_bits), f64::MAX);
    assert_eq!(p.ciphertext_modulus, u128::MAX);
    assert_eq!(p.key_choice(), Some(EncryptionKeyChoice::Big));
}
