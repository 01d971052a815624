use tfhe_backward_compat_data::format::DataFormat;
use tfhe_backward_compat_data::manifest::{TestMetadata, Testcase};
use tfhe_backward_compat_data::metadata::{
    DataKind, HlBoolCiphertextListTest, HlBoolCiphertextTest, HlCiphertextListTest,
    HlCiphertextTest, HlHeterogeneousCiphertextListTest, HlPublicKeyTest, HlServerKeyTest,
    HlSignedCiphertextListTest, HlSignedCiphertextTest, ShortintCiphertextTest,
    ShortintClientKeyTest, TestType, HL_MODULE_NAME, SHORTINT_MODULE_NAME,
};
use tfhe_backward_compat_data::params::valid_test_params;

fn shortint_ct() -> ShortintCiphertextTest {
    ShortintCiphertextTest {
        test_filename: "ct2".to_string(),
        key_filename: "client_key.cbor".to_string(),
        clear_value: 3,
    }
}

#[test]
fn module_names() {
    assert_eq!(SHORTINT_MODULE_NAME, "shortint");
    assert_eq!(HL_MODULE_NAME, "high_level_api");
}

#[test]
fn shortint_types_describe_themselves() {
    let ck = ShortintClientKeyTest { test_filename: "client_key".to_string(), parameters: valid_test_params() };
    assert_eq!(ck.module(), "shortint");
    assert_eq!(ck.target_type(), "ClientKey");
    assert_eq!(ck.test_filename(), "client_key");
    let ct = shortint_ct();
    assert_eq!(ct.module(), "shortint");
    assert_eq!(ct.target_type(), "Ciphertext");
    assert_eq!(ct.test_filename(), "ct2");
}

#[test]
fn hl_types_describe_themselves() {
    let sk = HlServerKeyTest {
        test_filename: "server_key".to_string(),
        client_key_filename: "client_key".to_string(),
        compressed: false,
    };
    assert_eq!((sk.module(), sk.target_type(), sk.test_filename()), ("high_level_api".to_string(), "ServerKey".to_string(), "server_key".to_string()));
    let pk = HlPublicKeyTest {
        test_filename: "public_key".to_string(),
        client_key_filename: "client_key_for_pubkey".to_string(),
        compressed: false,
        compact: true,
    };
    assert_eq!(pk.target_type(), "PublicKey");
    assert_eq!(pk.test_filename(), "public_key");
    let ct = HlCiphertextTest {
        test_filename: "ct1".to_string(),
        key_filename: "client_key.cbor".to_string(),
        compressed: false,
        compact: false,
        clear_value: 0,
    };
    assert_eq!(ct.target_type(), "FheUint");
    assert_eq!(ct.module(), "high_level_api");
    let sct = HlSignedCiphertextTest {
        test_filename: "sct".to_string(),
        key_filename: "client_key.cbor".to_string(),
        compressed: true,
        compact: false,
        clear_value: -3,
    };
    assert_eq!(sct.target_type(), "FheInt");
    assert_eq!(sct.test_filename(), "sct");
    let bct = HlBoolCiphertextTest {
        test_filename: "bct".to_string(),
        key_filename: "client_key.cbor".to_string(),
        compressed: false,
        compact: true,
        clear_value: true,
    };
    assert_eq!(bct.target_type(), "FheBool");
    let l = HlCiphertextListTest { test_filename: "l".to_string(), key_filename: "k".to_string(), clear_values: vec![1, 2] };
    assert_eq!(l.target_type(), "FheUintList");
    let sl = HlSignedCiphertextListTest { test_filename: "sl".to_string(), key_filename: "k".to_string(), clear_values: vec![-1, 2] };
    assert_eq!(sl.target_type(), "FheIntList");
    let bl = HlBoolCiphertextListTest { test_filename: "bl".to_string(), key_filename: "k".to_string(), clear_values: vec![true] };
    assert_eq!(bl.target_type(), "FheBoolList");
    assert_eq!(bl.module(), "high_level_api");
    let hl = HlHeterogeneousCiphertextListTest {
        test_filename: "hl".to_string(),
        key_filename: "k".to_string(),
        clear_values: vec![1],
        data_kinds: vec![DataKind::Bool],
        packed: true,
    };
    assert_eq!(hl.target_type(), "CompactCiphertextList");
    assert_eq!(hl.test_filename(), "hl");
}

#[test]
fn success_and_failure_reports() {
    let ct = shortint_ct();
    let s = ct.success(DataFormat::Bincode);
    assert_eq!(s.module, "shortint");
    assert_eq!(s.target_type, "Ciphertext");
    assert_eq!(s.test_filename, "ct2");
    assert_eq!(s.format, DataFormat::Bincode);
    let f = ct.failure("bad magic".to_string(), DataFormat::Cbor);
    assert_eq!(f.module, "shortint");
    assert_eq!(f.target_type, "Ciphertext");
    assert_eq!(f.test_filename, "ct2");
    assert_eq!(f.source_error, "bad magic");
    assert_eq!(f.format, DataFormat::Cbor);
}

#[test]
fn metadata_delegates_to_its_fixture() {
    let m = TestMetadata::ShortintCiphertext(shortint_ct());
    assert_eq!(m.name(), "ShortintCiphertext");
    assert_eq!(m.module(), "shortint");
    assert_eq!(m.target_type(), "Ciphertext");
    assert_eq!(m.test_filename(), "ct2");
    let k = TestMetadata::HlClientKey(tfhe_backward_compat_data::metadata::HlClientKeyTest {
        test_filename: "client_key".to_string(),
        parameters: valid_test_params(),
    });
    assert_eq!(k.name(), "HlClientKey");
    assert_eq!(k.module(), "high_level_api");
    assert_eq!(k.target_type(), "ClientKey");
}

#[test]
fn skipped_entry_report() {
    let t = Testcase {
        tfhe_version_min: "0.6".to_string(),
        tfhe_module: "shortint".to_string(),
        metadata: TestMetadata::ShortintCiphertext(shortint_ct()),
    };
    let s = t.skip();
    assert_eq!(s.module, "shortint");
    assert_eq!(s.test_name, "ShortintCiphertext");
}
