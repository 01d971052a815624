use tfhe_backward_compat_data::manifest::{
    module_testcases, select_module, version_testcases, TestMetadata, Testcase,
};
use tfhe_backward_compat_data::metadata::{TestType, HL_MODULE_NAME, SHORTINT_MODULE_NAME};
use tfhe_backward_compat_data::versions::{V0_6, V0_7};

fn filenames(tests: &[Testcase]) -> Vec<String> {
    tests.iter().map(|t| t.metadata.test_filename()).collect()
}

#[test]
fn module_testcases_tags_every_entry() {
    let r = module_testcases("0.6", "shortint", V0_6::shortint_tests());
    assert_eq!(r.len(), 3);
    for t in &r {
        assert_eq!(t.tfhe_version_min, "0.6");
        assert_eq!(t.tfhe_module, "shortint");
    }
    assert_eq!(r[0].metadata, V0_6::shortint_tests()[0]);
    assert_eq!(filenames(&r), vec!["client_key", "ct1", "ct2"]);
}

#[test]
fn module_testcases_of_nothing() {
    assert!(module_testcases("0.7", "shortint", Vec::new()).is_empty());
}

#[test]
fn version_testcases_puts_shortint_first() {
    let r = version_testcases(V0_6::VERSION_NUMBER, V0_6::shortint_tests(), V0_6::hl_tests());
    assert_eq!(r.len(), 15);
    for (i, t) in r.iter().enumerate() {
        assert_eq!(t.tfhe_version_min, "0.6");
        let expected = if i < 3 { SHORTINT_MODULE_NAME } else { HL_MODULE_NAME };
        assert_eq!(t.tfhe_module, expected);
    }
    assert_eq!(r[3].metadata, V0_6::hl_tests()[0]);
    assert_eq!(r[14].metadata, V0_6::hl_tests()[11]);
}

#[test]
fn select_module_keeps_order_and_drops_others() {
    let mut all = version_testcases(V0_6::VERSION_NUMBER, V0_6::shortint_tests(), V0_6::hl_tests());
    all.extend(version_testcases(V0_7::VERSION_NUMBER, V0_7::shortint_tests(), V0_7::hl_tests()));
    assert_eq!(all.len(), 17);

    let shortint = select_module(all.clone(), SHORTINT_MODULE_NAME);
    assert_eq!(filenames(&shortint), vec!["client_key", "ct1", "ct2"]);
    assert!(shortint.iter().all(|t| t.tfhe_version_min == "0.6"));

    let hl = select_module(all.clone(), HL_MODULE_NAME);
    assert_eq!(hl.len(), 14);
    assert_eq!(hl[0].metadata.test_filename(), "client_key");
    assert_eq!(hl[12].metadata.test_filename(), "hl_packed_heterogeneous_list");
    assert_eq!(hl[12].tfhe_version_min, "0.7");
    assert_eq!(hl[13].metadata.test_filename(), "hl_heterogeneous_list");

    assert!(select_module(all, "boolean").is_empty());
    assert!(select_module(Vec::new(), HL_MODULE_NAME).is_empty());
}
