use tfhe_backward_compat_data::format::DataFormat;
use tfhe_backward_compat_data::manifest::TestMetadata;
use tfhe_backward_compat_data::metadata::{DataKind, TestType};
use tfhe_backward_compat_data::params::valid_test_params;
use tfhe_backward_compat_data::versions::{V0_6, V0_7};

#[test]
fn version_numbers() {
    assert_eq!(V0_6::VERSION_NUMBER, "0.6");
    assert_eq!(V0_7::VERSION_NUMBER, "0.7");
}

#[test]
fn v0_6_shortint_fixtures() {
    let ck = V0_6::shortint_client_key_test();
    assert_eq!(ck.test_filename, "client_key");
    assert_eq!(ck.parameters, valid_test_params());
    let ct1 = V0_6::shortint_ct1_test();
    assert_eq!((ct1.test_filename.as_str(), ct1.key_filename.as_str(), ct1.clear_value), ("ct1", "client_key.cbor", 0));
    let ct2 = V0_6::shortint_ct2_test();
    assert_eq!((ct2.test_filename.as_str(), ct2.key_filename.as_str(), ct2.clear_value), ("ct2", "client_key.cbor", 3));
    let list = V0_6::shortint_tests();
    let names: Vec<String> = list.iter().map(|m| m.name()).collect();
    assert_eq!(names, vec!["ShortintClientKey", "ShortintCiphertext", "ShortintCiphertext"]);
    assert_eq!(list[1], TestMetadata::ShortintCiphertext(ct1));
}

#[test]
fn v0_6_hl_fixtures() {
    let list = V0_6::hl_tests();
    let files: Vec<String> = list.iter().map(|m| m.test_filename()).collect();
    assert_eq!(
        files,
        vec![
            "client_key",
            "server_key",
            "public_key",
            "compressed_public_key",
            "compact_public_key",
            "compressed_compact_public_key",
            "compressed_server_key",
            "ct1",
            "ct2",
            "ct_compressed_seeded",
            "ct_compressed_modswitched",
            "ct_compact",
        ]
    );
    assert_eq!(list[0].name(), "HlClientKey");
    assert_eq!(list[6].name(), "HlServerKey");
    assert_eq!(list[11].name(), "HlCiphertext");
    let pk = V0_6::hl_public_key_test();
    assert_eq!(pk.client_key_filename, "client_key_for_pubkey");
    assert!(!pk.compressed && !pk.compact);
    let cpk = V0_6::hl_compressed_compact_public_key_test();
    assert!(cpk.compressed && cpk.compact);
    assert_eq!(cpk.client_key_filename, "client_key");
    let sk = V0_6::hl_compressed_server_key_test();
    assert!(sk.compressed);
    assert!(!V0_6::hl_server_key_test().compressed);
    assert_eq!(V0_6::hl_ct1_test().clear_value, 0);
    assert_eq!(V0_6::hl_ct2_test().clear_value, 255);
    let compact = V0_6::hl_compact_ct_test();
    assert!(compact.compact && !compact.compressed);
    let seeded = V0_6::hl_compressed_seeded_ct_test();
    assert!(seeded.compressed && !seeded.compact);
    assert_eq!(seeded.clear_value, 255);
    assert_eq!(V0_6::hl_compressed_ct_modswitched_test().key_filename, "client_key.cbor");
    assert_eq!(V0_6::hl_client_key_test().parameters, valid_test_params());
    assert_eq!(V0_6::hl_compressed_public_key_test().test_filename, "compressed_public_key");
    assert!(V0_6::hl_compact_public_key_test().compact);
}

#[test]
fn v0_7_fixtures() {
    assert!(V0_7::shortint_tests().is_empty());
    let list = V0_7::hl_tests();
    assert_eq!(list.len(), 2);
    let packed = V0_7::hl_packed_compact_list_test();
    assert_eq!(packed.test_filename, "hl_packed_heterogeneous_list");
    assert_eq!(packed.key_filename, "client_key.cbor");
    assert_eq!(packed.clear_values, vec![17u8 as u64, -12i8 as u64, false as u64, true as u64]);
    assert_eq!(
        packed.data_kinds,
        vec![DataKind::Unsigned, DataKind::Signed, DataKind::Bool, DataKind::Bool]
    );
    assert!(packed.packed);
    let plain = V0_7::hl_compact_list_test();
    assert_eq!(plain.test_filename, "hl_heterogeneous_list");
    assert!(!plain.packed);
    assert_eq!(plain.clear_values, packed.clear_values);
    assert_eq!(list[0], TestMetadata::HlHeterogeneousCiphertextList(packed));
    assert_eq!(list[1].name(), "HlHeterogeneousCiphertextList");
}

#[test]
fn ciphertexts_name_the_cbor_file_of_the_client_key() {
    let shortint = V0_6::shortint_tests();
    let key_file = DataFormat::Cbor.file_name(&shortint[0].test_filename());
    assert_eq!(key_file, "client_key.cbor");
    for m in &shortint[1..] {
        match m {
            TestMetadata::ShortintCiphertext(t) => {
                assert_eq!(t.key_filename, key_file);
                assert!((t.clear_value as usize) < valid_test_params().message_modulus);
            }
            other => panic!("unexpected entry {:?}", other),
        }
    }
    let hl = V0_6::hl_tests();
    let clear: Vec<u64> = hl[7..]
        .iter()
        .map(|m| match m {
            TestMetadata::HlCiphertext(t) => {
                assert_eq!(t.key_filename, key_file);
                t.clear_value
            }
            other => panic!("unexpected entry {:?}", other),
        })
        .collect();
    assert_eq!(clear, vec![0, 255, 255, 255, 255]);
}

#[test]
fn v0_7_lists_differ_only_in_name_and_packing() {
    let list = V0_7::hl_tests();
    match (&list[0], &list[1]) {
        (
            TestMetadata::HlHeterogeneousCiphertextList(a),
            TestMetadata::HlHeterogeneousCiphertextList(b),
        ) => {
            assert!(a.packed && !b.packed);
            assert_ne!(a.test_filename, b.test_filename);
            assert_eq!(a.key_filename, b.key_filename);
            assert_eq!(a.clear_values, b.clear_values);
            assert_eq!(a.data_kinds, b.data_kinds);
            assert_eq!(a.clear_values.len(), 4);
        }
        other => panic!("unexpected entries {:?}", other),
    }
}
