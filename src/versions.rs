//! The fixtures that each supported library version produces, in the order
//! in which they are replayed.

use vstd::prelude::*;

use crate::format::DataFormat;
use crate::manifest::TestMetadata;
use crate::metadata::{
    DataKind, HlCiphertextTest, HlClientKeyTest, HlHeterogeneousCiphertextListTest,
    HlPublicKeyTest, HlServerKeyTest, ShortintCiphertextTest, ShortintClientKeyTest,
};
use crate::params::{is_valid_test_params, valid_test_params};

verus! {

/// The key file that the ciphertext fixtures name, `client_key.cbor`, is the
/// cbor file of the client key fixture `client_key`.
pub proof fn lemma_client_key_file()
    ensures
        "client_key.cbor"@ == DataFormat::Cbor.spec_file_name("client_key"@),
{
    reveal_strlit("client_key.cbor");
    reveal_strlit("client_key");
    reveal_strlit("cbor");
    assert("client_key.cbor"@ =~= DataFormat::Cbor.spec_file_name("client_key"@));
}

/// Version 0.6 of the library under test.
pub struct V0_6;

impl V0_6 {
    /// Version number under which the fixtures are filed.
    pub const VERSION_NUMBER: &'static str = "0.6";

    /// Whether `t` describes this fixture: the shortint client key.
    pub open spec fn is_shortint_client_key_test(t: ShortintClientKeyTest) -> bool {
        &&& t.test_filename@ == "client_key"@
        &&& is_valid_test_params(t.parameters)
    }

    /// The shortint client key.
    pub fn shortint_client_key_test() -> (r: ShortintClientKeyTest)
        ensures
            Self::is_shortint_client_key_test(r),
    {
        ShortintClientKeyTest {
            test_filename: String::from_str("client_key"),
            parameters: valid_test_params(),
        }
    }

    /// Whether `t` describes this fixture: a shortint ciphertext of 0.
    pub open spec fn is_shortint_ct1_test(t: ShortintCiphertextTest) -> bool {
        &&& t.test_filename@ == "ct1"@
        &&& t.key_filename@ == "client_key.cbor"@
        &&& t.clear_value == 0
    }

    /// A shortint ciphertext of 0.
    pub fn shortint_ct1_test() -> (r: ShortintCiphertextTest)
        ensures
            Self::is_shortint_ct1_test(r),
    {
        ShortintCiphertextTest {
            test_filename: String::from_str("ct1"),
            key_filename: String::from_str("client_key.cbor"),
            clear_value: 0,
        }
    }

    /// Whether `t` describes this fixture: a shortint ciphertext of 3.
    pub open spec fn is_shortint_ct2_test(t: ShortintCiphertextTest) -> bool {
        &&& t.test_filename@ == "ct2"@
        &&& t.key_filename@ == "client_key.cbor"@
        &&& t.clear_value == 3
    }

    /// A shortint ciphertext of 3.
    pub fn shortint_ct2_test() -> (r: ShortintCiphertextTest)
        ensures
            Self::is_shortint_ct2_test(r),
    {
        ShortintCiphertextTest {
            test_filename: String::from_str("ct2"),
            key_filename: String::from_str("client_key.cbor"),
            clear_value: 3,
        }
    }

    /// Whether `t` describes this fixture: the high-level client key.
    pub open spec fn is_hl_client_key_test(t: HlClientKeyTest) -> bool {
        &&& t.test_filename@ == "client_key"@
        &&& is_valid_test_params(t.parameters)
    }

    /// The high-level client key.
    pub fn hl_client_key_test() -> (r: HlClientKeyTest)
        ensures
            Self::is_hl_client_key_test(r),
    {
        HlClientKeyTest {
            test_filename: String::from_str("client_key"),
            parameters: valid_test_params(),
        }
    }

    /// Whether `t` describes this fixture: the server key of the high-level client key.
    pub open spec fn is_hl_server_key_test(t: HlServerKeyTest) -> bool {
        &&& t.test_filename@ == "server_key"@
        &&& t.client_key_filename@ == "client_key"@
        &&& t.compressed == false
    }

    /// The server key of the high-level client key.
    pub fn hl_server_key_test() -> (r: HlServerKeyTest)
        ensures
            Self::is_hl_server_key_test(r),
    {
        HlServerKeyTest {
            test_filename: String::from_str("server_key"),
            client_key_filename: String::from_str("client_key"),
            compressed: false,
        }
    }

    /// Whether `t` describes this fixture: the compressed server key of the high-level client key.
    pub open spec fn is_hl_compressed_server_key_test(t: HlServerKeyTest) -> bool {
        &&& t.test_filename@ == "compressed_server_key"@
        &&& t.client_key_filename@ == "client_key"@
        &&& t.compressed == true
    }

    /// The compressed server key of the high-level client key.
    pub fn hl_compressed_server_key_test() -> (r: HlServerKeyTest)
        ensures
            Self::is_hl_compressed_server_key_test(r),
    {
        HlServerKeyTest {
            test_filename: String::from_str("compressed_server_key"),
            client_key_filename: String::from_str("client_key"),
            compressed: true,
        }
    }

    /// Whether `t` describes this fixture: a public key, made from a client key of its own whose parameters keep it small.
    pub open spec fn is_hl_public_key_test(t: HlPublicKeyTest) -> bool {
        &&& t.test_filename@ == "public_key"@
        &&& t.client_key_filename@ == "client_key_for_pubkey"@
        &&& t.compressed == false
        &&& t.compact == false
    }

    /// A public key, made from a client key of its own whose parameters keep it small.
    pub fn hl_public_key_test() -> (r: HlPublicKeyTest)
        ensures
            Self::is_hl_public_key_test(r),
    {
        HlPublicKeyTest {
            test_filename: String::from_str("public_key"),
            client_key_filename: String::from_str("client_key_for_pubkey"),
            compressed: false,
            compact: false,
        }
    }

    /// Whether `t` describes this fixture: the compressed public key of the high-level client key.
    pub open spec fn is_hl_compressed_public_key_test(t: HlPublicKeyTest) -> bool {
        &&& t.test_filename@ == "compressed_public_key"@
        &&& t.client_key_filename@ == "client_key"@
        &&& t.compressed == true
        &&& t.compact == false
    }

    /// The compressed public key of the high-level client key.
    pub fn hl_compressed_public_key_test() -> (r: HlPublicKeyTest)
        ensures
            Self::is_hl_compressed_public_key_test(r),
    {
        HlPublicKeyTest {
            test_filename: String::from_str("compressed_public_key"),
            client_key_filename: String::from_str("client_key"),
            compressed: true,
            compact: false,
        }
    }

    /// Whether `t` describes this fixture: the compact public key of the high-level client key.
    pub open spec fn is_hl_compact_public_key_test(t: HlPublicKeyTest) -> bool {
        &&& t.test_filename@ == "compact_public_key"@
        &&& t.client_key_filename@ == "client_key"@
        &&& t.compressed == false
        &&& t.compact == true
    }

    /// The compact public key of the high-level client key.
    pub fn hl_compact_public_key_test() -> (r: HlPublicKeyTest)
        ensures
            Self::is_hl_compact_public_key_test(r),
    {
        HlPublicKeyTest {
            test_filename: String::from_str("compact_public_key"),
            client_key_filename: String::from_str("client_key"),
            compressed: false,
            compact: true,
        }
    }

    /// Whether `t` describes this fixture: the compressed compact public key of the high-level client key.
    pub open spec fn is_hl_compressed_compact_public_key_test(t: HlPublicKeyTest) -> bool {
        &&& t.test_filename@ == "compressed_compact_public_key"@
        &&& t.client_key_filename@ == "client_key"@
        &&& t.compressed == true
        &&& t.compact == true
    }

    /// The compressed compact public key of the high-level client key.
    pub fn hl_compressed_compact_public_key_test() -> (r: HlPublicKeyTest)
        ensures
            Self::is_hl_compressed_compact_public_key_test(r),
    {
        HlPublicKeyTest {
            test_filename: String::from_str("compressed_compact_public_key"),
            client_key_filename: String::from_str("client_key"),
            compressed: true,
            compact: true,
        }
    }

    /// Whether `t` describes this fixture: an 8-bit ciphertext of 0.
    pub open spec fn is_hl_ct1_test(t: HlCiphertextTest) -> bool {
        &&& t.test_filename@ == "ct1"@
        &&& t.key_filename@ == "client_key.cbor"@
        &&& t.compressed == false
        &&& t.compact == false
        &&& t.clear_value == 0
    }

    /// An 8-bit ciphertext of 0.
    pub fn hl_ct1_test() -> (r: HlCiphertextTest)
        ensures
            Self::is_hl_ct1_test(r),
    {
        HlCiphertextTest {
            test_filename: String::from_str("ct1"),
            key_filename: String::from_str("client_key.cbor"),
            compressed: false,
            compact: false,
            clear_value: 0,
        }
    }

    /// Whether `t` describes this fixture: an 8-bit ciphertext of 255.
    pub open spec fn is_hl_ct2_test(t: HlCiphertextTest) -> bool {
        &&& t.test_filename@ == "ct2"@
        &&& t.key_filename@ == "client_key.cbor"@
        &&& t.compressed == false
        &&& t.compact == false
        &&& t.clear_value == 255
    }

    /// An 8-bit ciphertext of 255.
    pub fn hl_ct2_test() -> (r: HlCiphertextTest)
        ensures
            Self::is_hl_ct2_test(r),
    {
        HlCiphertextTest {
            test_filename: String::from_str("ct2"),
            key_filename: String::from_str("client_key.cbor"),
            compressed: false,
            compact: false,
            clear_value: 255,
        }
    }

    /// Whether `t` describes this fixture: a compact 8-bit ciphertext of 255, encrypted under the compact public key.
    pub open spec fn is_hl_compact_ct_test(t: HlCiphertextTest) -> bool {
        &&& t.test_filename@ == "ct_compact"@
        &&& t.key_filename@ == "client_key.cbor"@
        &&& t.compressed == false
        &&& t.compact == true
        &&& t.clear_value == 255
    }

    /// A compact 8-bit ciphertext of 255, encrypted under the compact public key.
    pub fn hl_compact_ct_test() -> (r: HlCiphertextTest)
        ensures
            Self::is_hl_compact_ct_test(r),
    {
        HlCiphertextTest {
            test_filename: String::from_str("ct_compact"),
            key_filename: String::from_str("client_key.cbor"),
            compressed: false,
            compact: true,
            clear_value: 255,
        }
    }

    /// Whether `t` describes this fixture: a compressed 8-bit ciphertext of 255, compressed with a seed.
    pub open spec fn is_hl_compressed_seeded_ct_test(t: HlCiphertextTest) -> bool {
        &&& t.test_filename@ == "ct_compressed_seeded"@
        &&& t.key_filename@ == "client_key.cbor"@
        &&& t.compressed == true
        &&& t.compact == false
        &&& t.clear_value == 255
    }

    /// A compressed 8-bit ciphertext of 255, compressed with a seed.
    pub fn hl_compressed_seeded_ct_test() -> (r: HlCiphertextTest)
        ensures
            Self::is_hl_compressed_seeded_ct_test(r),
    {
        HlCiphertextTest {
            test_filename: String::from_str("ct_compressed_seeded"),
            key_filename: String::from_str("client_key.cbor"),
            compressed: true,
            compact: false,
            clear_value: 255,
        }
    }

    /// Whether `t` describes this fixture: a compressed 8-bit ciphertext of 255, compressed by switching its modulus.
    pub open spec fn is_hl_compressed_ct_modswitched_test(t: HlCiphertextTest) -> bool {
        &&& t.test_filename@ == "ct_compressed_modswitched"@
        &&& t.key_filename@ == "client_key.cbor"@
        &&& t.compressed == true
        &&& t.compact == false
        &&& t.clear_value == 255
    }

    /// A compressed 8-bit ciphertext of 255, compressed by switching its modulus.
    pub fn hl_compressed_ct_modswitched_test() -> (r: HlCiphertextTest)
        ensures
            Self::is_hl_compressed_ct_modswitched_test(r),
    {
        HlCiphertextTest {
            test_filename: String::from_str("ct_compressed_modswitched"),
            key_filename: String::from_str("client_key.cbor"),
            compressed: true,
            compact: false,
            clear_value: 255,
        }
    }

    /// Descriptions of the shortint fixtures.
    pub fn shortint_tests() -> (r: Vec<TestMetadata>)
        ensures
            r@.len() == 3,
            r@[0] is ShortintClientKey && Self::is_shortint_client_key_test(r@[0]->ShortintClientKey_0),
            r@[1] is ShortintCiphertext && Self::is_shortint_ct1_test(r@[1]->ShortintCiphertext_0),
            r@[2] is ShortintCiphertext && Self::is_shortint_ct2_test(r@[2]->ShortintCiphertext_0),
            // each ciphertext names the cbor file of the client key, and its
            // cleartext is a message the parameters can hold
            r@[1]->ShortintCiphertext_0.key_filename@ == DataFormat::Cbor.spec_file_name(
                r@[0]->ShortintClientKey_0.test_filename@,
            ),
            r@[1]->ShortintCiphertext_0.clear_value < r@[0]->ShortintClientKey_0.parameters.message_modulus,
            r@[2]->ShortintCiphertext_0.key_filename@ == DataFormat::Cbor.spec_file_name(
                r@[0]->ShortintClientKey_0.test_filename@,
            ),
            r@[2]->ShortintCiphertext_0.clear_value < r@[0]->ShortintClientKey_0.parameters.message_modulus,
    {
        let mut r: Vec<TestMetadata> = Vec::new();
        r.push(TestMetadata::ShortintClientKey(Self::shortint_client_key_test()));
        r.push(TestMetadata::ShortintCiphertext(Self::shortint_ct1_test()));
        r.push(TestMetadata::ShortintCiphertext(Self::shortint_ct2_test()));
        proof {
            lemma_client_key_file();
        }
        r
    }

    /// Descriptions of the high-level fixtures.
    pub fn hl_tests() -> (r: Vec<TestMetadata>)
        ensures
            r@.len() == 12,
            r@[0] is HlClientKey && Self::is_hl_client_key_test(r@[0]->HlClientKey_0),
            r@[1] is HlServerKey && Self::is_hl_server_key_test(r@[1]->HlServerKey_0),
            r@[2] is HlPublicKey && Self::is_hl_public_key_test(r@[2]->HlPublicKey_0),
            r@[3] is HlPublicKey && Self::is_hl_compressed_public_key_test(r@[3]->HlPublicKey_0),
            r@[4] is HlPublicKey && Self::is_hl_compact_public_key_test(r@[4]->HlPublicKey_0),
            r@[5] is HlPublicKey && Self::is_hl_compressed_compact_public_key_test(r@[5]->HlPublicKey_0),
            r@[6] is HlServerKey && Self::is_hl_compressed_server_key_test(r@[6]->HlServerKey_0),
            r@[7] is HlCiphertext && Self::is_hl_ct1_test(r@[7]->HlCiphertext_0),
            r@[8] is HlCiphertext && Self::is_hl_ct2_test(r@[8]->HlCiphertext_0),
            r@[9] is HlCiphertext && Self::is_hl_compressed_seeded_ct_test(r@[9]->HlCiphertext_0),
            r@[10] is HlCiphertext && Self::is_hl_compressed_ct_modswitched_test(r@[10]->HlCiphertext_0),
            r@[11] is HlCiphertext && Self::is_hl_compact_ct_test(r@[11]->HlCiphertext_0),
            // each ciphertext names the cbor file of the client key and holds an 8-bit value
            r@[7]->HlCiphertext_0.key_filename@ == DataFormat::Cbor.spec_file_name(
                r@[0]->HlClientKey_0.test_filename@,
            ),
            r@[7]->HlCiphertext_0.clear_value <= u8::MAX,
            r@[8]->HlCiphertext_0.key_filename@ == DataFormat::Cbor.spec_file_name(
                r@[0]->HlClientKey_0.test_filename@,
            ),
            r@[8]->HlCiphertext_0.clear_value <= u8::MAX,
            r@[9]->HlCiphertext_0.key_filename@ == DataFormat::Cbor.spec_file_name(
                r@[0]->HlClientKey_0.test_filename@,
            ),
            r@[9]->HlCiphertext_0.clear_value <= u8::MAX,
            r@[10]->HlCiphertext_0.key_filename@ == DataFormat::Cbor.spec_file_name(
                r@[0]->HlClientKey_0.test_filename@,
            ),
            r@[10]->HlCiphertext_0.clear_value <= u8::MAX,
            r@[11]->HlCiphertext_0.key_filename@ == DataFormat::Cbor.spec_file_name(
                r@[0]->HlClientKey_0.test_filename@,
            ),
            r@[11]->HlCiphertext_0.clear_value <= u8::MAX,
            // the server keys and all public keys but the first come from the client key
            r@[1]->HlServerKey_0.client_key_filename@ == r@[0]->HlClientKey_0.test_filename@,
            r@[6]->HlServerKey_0.client_key_filename@ == r@[0]->HlClientKey_0.test_filename@,
            r@[3]->HlPublicKey_0.client_key_filename@ == r@[0]->HlClientKey_0.test_filename@,
            r@[4]->HlPublicKey_0.client_key_filename@ == r@[0]->HlClientKey_0.test_filename@,
            r@[5]->HlPublicKey_0.client_key_filename@ == r@[0]->HlClientKey_0.test_filename@,
    {
        let mut r: Vec<TestMetadata> = Vec::new();
        r.push(TestMetadata::HlClientKey(Self::hl_client_key_test()));
        r.push(TestMetadata::HlServerKey(Self::hl_server_key_test()));
        r.push(TestMetadata::HlPublicKey(Self::hl_public_key_test()));
        r.push(TestMetadata::HlPublicKey(Self::hl_compressed_public_key_test()));
        r.push(TestMetadata::HlPublicKey(Self::hl_compact_public_key_test()));
        r.push(TestMetadata::HlPublicKey(Self::hl_compressed_compact_public_key_test()));
        r.push(TestMetadata::HlServerKey(Self::hl_compressed_server_key_test()));
        r.push(TestMetadata::HlCiphertext(Self::hl_ct1_test()));
        r.push(TestMetadata::HlCiphertext(Self::hl_ct2_test()));
        r.push(TestMetadata::HlCiphertext(Self::hl_compressed_seeded_ct_test()));
        r.push(TestMetadata::HlCiphertext(Self::hl_compressed_ct_modswitched_test()));
        r.push(TestMetadata::HlCiphertext(Self::hl_compact_ct_test()));
        proof {
            lemma_client_key_file();
        }
        r
    }
}
/// Version 0.7 of the library under test.
pub struct V0_7;

/// Cleartexts of the heterogeneous lists: 17 as unsigned, -12 as signed (its
/// two's complement), then false and true.
pub open spec fn heterogeneous_clear_values() -> Seq<u64> {
    seq![17u64, 0xffff_ffff_ffff_fff4u64, 0u64, 1u64]
}

/// Kinds of the items of the heterogeneous lists.
pub open spec fn heterogeneous_data_kinds() -> Seq<DataKind> {
    seq![DataKind::Unsigned, DataKind::Signed, DataKind::Bool, DataKind::Bool]
}

impl V0_7 {
    /// Version number under which the fixtures are filed.
    pub const VERSION_NUMBER: &'static str = "0.7";

    fn heterogeneous_list_items() -> (r: (Vec<u64>, Vec<DataKind>))
        ensures
            r.0@ == heterogeneous_clear_values(),
            r.1@ == heterogeneous_data_kinds(),
    {
        let mut values: Vec<u64> = Vec::new();
        values.push(17);
        values.push(0xffff_ffff_ffff_fff4);
        values.push(0);
        values.push(1);
        let mut kinds: Vec<DataKind> = Vec::new();
        kinds.push(DataKind::Unsigned);
        kinds.push(DataKind::Signed);
        kinds.push(DataKind::Bool);
        kinds.push(DataKind::Bool);
        assert(values@ =~= heterogeneous_clear_values());
        assert(kinds@ =~= heterogeneous_data_kinds());
        (values, kinds)
    }

    /// Whether `t` describes this fixture: a packed compact list of mixed
    /// ciphertexts.
    pub open spec fn is_hl_packed_compact_list_test(t: HlHeterogeneousCiphertextListTest) -> bool {
        &&& t.test_filename@ == "hl_packed_heterogeneous_list"@
        &&& t.key_filename@ == "client_key.cbor"@
        &&& t.clear_values@ == heterogeneous_clear_values()
        &&& t.data_kinds@ == heterogeneous_data_kinds()
        &&& t.packed
    }

    /// A packed compact list of mixed ciphertexts.
    pub fn hl_packed_compact_list_test() -> (r: HlHeterogeneousCiphertextListTest)
        ensures
            Self::is_hl_packed_compact_list_test(r),
    {
        let (clear_values, data_kinds) = Self::heterogeneous_list_items();
        HlHeterogeneousCiphertextListTest {
            test_filename: String::from_str("hl_packed_heterogeneous_list"),
            key_filename: String::from_str("client_key.cbor"),
            clear_values,
            data_kinds,
            packed: true,
        }
    }

    /// Whether `t` describes this fixture: a compact list of mixed
    /// ciphertexts, not packed.
    pub open spec fn is_hl_compact_list_test(t: HlHeterogeneousCiphertextListTest) -> bool {
        &&& t.test_filename@ == "hl_heterogeneous_list"@
        &&& t.key_filename@ == "client_key.cbor"@
        &&& t.clear_values@ == heterogeneous_clear_values()
        &&& t.data_kinds@ == heterogeneous_data_kinds()
        &&& !t.packed
    }

    /// A compact list of mixed ciphertexts, not packed.
    pub fn hl_compact_list_test() -> (r: HlHeterogeneousCiphertextListTest)
        ensures
            Self::is_hl_compact_list_test(r),
    {
        let (clear_values, data_kinds) = Self::heterogeneous_list_items();
        HlHeterogeneousCiphertextListTest {
            test_filename: String::from_str("hl_heterogeneous_list"),
            key_filename: String::from_str("client_key.cbor"),
            clear_values,
            data_kinds,
            packed: false,
        }
    }

    /// Descriptions of the shortint fixtures: this version makes none.
    pub fn shortint_tests() -> (r: Vec<TestMetadata>)
        ensures
            r@.len() == 0,
    {
        Vec::new()
    }

    /// Descriptions of the high-level fixtures: the packed list, then the
    /// one that is not packed.
    pub fn hl_tests() -> (r: Vec<TestMetadata>)
        ensures
            r@.len() == 2,
            r@[0] is HlHeterogeneousCiphertextList && Self::is_hl_packed_compact_list_test(
                r@[0]->HlHeterogeneousCiphertextList_0,
            ),
            r@[1] is HlHeterogeneousCiphertextList && Self::is_hl_compact_list_test(
                r@[1]->HlHeterogeneousCiphertextList_0,
            ),
    {
        let mut r: Vec<TestMetadata> = Vec::new();
        r.push(TestMetadata::HlHeterogeneousCiphertextList(Self::hl_packed_compact_list_test()));
        r.push(TestMetadata::HlHeterogeneousCiphertextList(Self::hl_compact_list_test()));
        r
    }
}

} // verus!
