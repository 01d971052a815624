//! Descriptions of fixtures: what each one holds and what it must decrypt to.

use vstd::prelude::*;

use crate::format::DataFormat;
use crate::outcome::{TestFailure, TestSuccess};
use crate::params::TestParameterSet;

verus! {

/// Name of the module of the library under test that works on small integers.
pub const SHORTINT_MODULE_NAME: &'static str = "shortint";

/// Name of the high-level module of the library under test.
pub const HL_MODULE_NAME: &'static str = "high_level_api";

/// Kind of an item of a heterogeneous ciphertext list.
#[derive(Clone, Copy, Debug, PartialEq, Eq, Structural)]
pub enum DataKind {
    Unsigned,
    Signed,
    Bool,
}

/// A type of the library under test that a fixture holds.
pub trait TestType {
    /// Module of the library under test where the type lives.
    spec fn spec_module(&self) -> Seq<char>;

    /// Name of the type.
    spec fn spec_target_type(&self) -> Seq<char>;

    /// Name of the fixture file, without directory or extension.
    spec fn spec_test_filename(&self) -> Seq<char>;

    fn module(&self) -> (r: String)
        ensures
            r@ == self.spec_module(),
    ;

    fn target_type(&self) -> (r: String)
        ensures
            r@ == self.spec_target_type(),
    ;

    fn test_filename(&self) -> (r: String)
        ensures
            r@ == self.spec_test_filename(),
    ;

    /// Report of a fixture of this type that was read back in `format` and checked.
    fn success(&self, format: DataFormat) -> (r: TestSuccess)
        ensures
            r.module@ == self.spec_module(),
            r.target_type@ == self.spec_target_type(),
            r.test_filename@ == self.spec_test_filename(),
            r.format == format,
    {
        TestSuccess {
            module: self.module(),
            target_type: self.target_type(),
            test_filename: self.test_filename(),
            format,
        }
    }

    /// Report of a fixture of this type that failed in `format` with the
    /// message `source_error`.
    fn failure(&self, source_error: String, format: DataFormat) -> (r: TestFailure)
        ensures
            r.module@ == self.spec_module(),
            r.target_type@ == self.spec_target_type(),
            r.test_filename@ == self.spec_test_filename(),
            r.source_error == source_error,
            r.format == format,
    {
        TestFailure {
            module: self.module(),
            target_type: self.target_type(),
            test_filename: self.test_filename(),
            source_error,
            format,
        }
    }
}

/// A client key of the shortint module, generated with `parameters`.
#[derive(Clone, Debug, PartialEq, Eq)]
pub struct ShortintClientKeyTest {
    pub test_filename: String,
    pub parameters: TestParameterSet,
}

impl TestType for ShortintClientKeyTest {
    open spec fn spec_module(&self) -> Seq<char> {
        SHORTINT_MODULE_NAME@
    }

    open spec fn spec_target_type(&self) -> Seq<char> {
        "ClientKey"@
    }

    open spec fn spec_test_filename(&self) -> Seq<char> {
        self.test_filename@
    }

    fn module(&self) -> (r: String) {
        String::from_str(SHORTINT_MODULE_NAME)
    }

    fn target_type(&self) -> (r: String) {
        String::from_str("ClientKey")
    }

    fn test_filename(&self) -> (r: String) {
        self.test_filename.clone()
    }
}

/// A ciphertext of the shortint module that decrypts to `clear_value` under the key stored in `key_filename`.
#[derive(Clone, Debug, PartialEq, Eq)]
pub struct ShortintCiphertextTest {
    pub test_filename: String,
    pub key_filename: String,
    pub clear_value: u64,
}

impl TestType for ShortintCiphertextTest {
    open spec fn spec_module(&self) -> Seq<char> {
        SHORTINT_MODULE_NAME@
    }

    open spec fn spec_target_type(&self) -> Seq<char> {
        "Ciphertext"@
    }

    open spec fn spec_test_filename(&self) -> Seq<char> {
        self.test_filename@
    }

    fn module(&self) -> (r: String) {
        String::from_str(SHORTINT_MODULE_NAME)
    }

    fn target_type(&self) -> (r: String) {
        String::from_str("Ciphertext")
    }

    fn test_filename(&self) -> (r: String) {
        self.test_filename.clone()
    }
}

/// A client key of the high-level module, generated with `parameters`.
#[derive(Clone, Debug, PartialEq, Eq)]
pub struct HlClientKeyTest {
    pub test_filename: String,
    pub parameters: TestParameterSet,
}

impl TestType for HlClientKeyTest {
    open spec fn spec_module(&self) -> Seq<char> {
        HL_MODULE_NAME@
    }

    open spec fn spec_target_type(&self) -> Seq<char> {
        "ClientKey"@
    }

    open spec fn spec_test_filename(&self) -> Seq<char> {
        self.test_filename@
    }

    fn module(&self) -> (r: String) {
        String::from_str(HL_MODULE_NAME)
    }

    fn target_type(&self) -> (r: String) {
        String::from_str("ClientKey")
    }

    fn test_filename(&self) -> (r: String) {
        self.test_filename.clone()
    }
}

/// A server key of the high-level module, derived from the client key of fixture `client_key_filename`.
#[derive(Clone, Debug, PartialEq, Eq)]
pub struct HlServerKeyTest {
    pub test_filename: String,
    pub client_key_filename: String,
    pub compressed: bool,
}

impl TestType for HlServerKeyTest {
    open spec fn spec_module(&self) -> Seq<char> {
        HL_MODULE_NAME@
    }

    open spec fn spec_target_type(&self) -> Seq<char> {
        "ServerKey"@
    }

    open spec fn spec_test_filename(&self) -> Seq<char> {
        self.test_filename@
    }

    fn module(&self) -> (r: String) {
        String::from_str(HL_MODULE_NAME)
    }

    fn target_type(&self) -> (r: String) {
        String::from_str("ServerKey")
    }

    fn test_filename(&self) -> (r: String) {
        self.test_filename.clone()
    }
}

/// A public key of the high-level module, derived from the client key of fixture `client_key_filename`.
#[derive(Clone, Debug, PartialEq, Eq)]
pub struct HlPublicKeyTest {
    pub test_filename: String,
    pub client_key_filename: String,
    pub compressed: bool,
    pub compact: bool,
}

impl TestType for HlPublicKeyTest {
    open spec fn spec_module(&self) -> Seq<char> {
        HL_MODULE_NAME@
    }

    open spec fn spec_target_type(&self) -> Seq<char> {
        "PublicKey"@
    }

    open spec fn spec_test_filename(&self) -> Seq<char> {
        self.test_filename@
    }

    fn module(&self) -> (r: String) {
        String::from_str(HL_MODULE_NAME)
    }

    fn target_type(&self) -> (r: String) {
        String::from_str("PublicKey")
    }

    fn test_filename(&self) -> (r: String) {
        self.test_filename.clone()
    }
}

/// An unsigned ciphertext of the high-level module that decrypts to `clear_value`.
#[derive(Clone, Debug, PartialEq, Eq)]
pub struct HlCiphertextTest {
    pub test_filename: String,
    pub key_filename: String,
    pub compressed: bool,
    pub compact: bool,
    pub clear_value: u64,
}

impl TestType for HlCiphertextTest {
    open spec fn spec_module(&self) -> Seq<char> {
        HL_MODULE_NAME@
    }

    open spec fn spec_target_type(&self) -> Seq<char> {
        "FheUint"@
    }

    open spec fn spec_test_filename(&self) -> Seq<char> {
        self.test_filename@
    }

    fn module(&self) -> (r: String) {
        String::from_str(HL_MODULE_NAME)
    }

    fn target_type(&self) -> (r: String) {
        String::from_str("FheUint")
    }

    fn test_filename(&self) -> (r: String) {
        self.test_filename.clone()
    }
}

/// A signed ciphertext of the high-level module that decrypts to `clear_value`.
#[derive(Clone, Debug, PartialEq, Eq)]
pub struct HlSignedCiphertextTest {
    pub test_filename: String,
    pub key_filename: String,
    pub compressed: bool,
    pub compact: bool,
    pub clear_value: i64,
}

impl TestType for HlSignedCiphertextTest {
    open spec fn spec_module(&self) -> Seq<char> {
        HL_MODULE_NAME@
    }

    open spec fn spec_target_type(&self) -> Seq<char> {
        "FheInt"@
    }

    open spec fn spec_test_filename(&self) -> Seq<char> {
        self.test_filename@
    }

    fn module(&self) -> (r: String) {
        String::from_str(HL_MODULE_NAME)
    }

    fn target_type(&self) -> (r: String) {
        String::from_str("FheInt")
    }

    fn test_filename(&self) -> (r: String) {
        self.test_filename.clone()
    }
}

/// A boolean ciphertext of the high-level module that decrypts to `clear_value`.
#[derive(Clone, Debug, PartialEq, Eq)]
pub struct HlBoolCiphertextTest {
    pub test_filename: String,
    pub key_filename: String,
    pub compressed: bool,
    pub compact: bool,
    pub clear_value: bool,
}

impl TestType for HlBoolCiphertextTest {
    open spec fn spec_module(&self) -> Seq<char> {
        HL_MODULE_NAME@
    }

    open spec fn spec_target_type(&self) -> Seq<char> {
        "FheBool"@
    }

    open spec fn spec_test_filename(&self) -> Seq<char> {
        self.test_filename@
    }

    fn module(&self) -> (r: String) {
        String::from_str(HL_MODULE_NAME)
    }

    fn target_type(&self) -> (r: String) {
        String::from_str("FheBool")
    }

    fn test_filename(&self) -> (r: String) {
        self.test_filename.clone()
    }
}

/// A list of unsigned ciphertexts that decrypt to `clear_values`, in order.
#[derive(Clone, Debug, PartialEq, Eq)]
pub struct HlCiphertextListTest {
    pub test_filename: String,
    pub key_filename: String,
    pub clear_values: Vec<u64>,
}

impl TestType for HlCiphertextListTest {
    open spec fn spec_module(&self) -> Seq<char> {
        HL_MODULE_NAME@
    }

    open spec fn spec_target_type(&self) -> Seq<char> {
        "FheUintList"@
    }

    open spec fn spec_test_filename(&self) -> Seq<char> {
        self.test_filename@
    }

    fn module(&self) -> (r: String) {
        String::from_str(HL_MODULE_NAME)
    }

    fn target_type(&self) -> (r: String) {
        String::from_str("FheUintList")
    }

    fn test_filename(&self) -> (r: String) {
        self.test_filename.clone()
    }
}

/// A list of signed ciphertexts that decrypt to `clear_values`, in order.
#[derive(Clone, Debug, PartialEq, Eq)]
pub struct HlSignedCiphertextListTest {
    pub test_filename: String,
    pub key_filename: String,
    pub clear_values: Vec<i64>,
}

impl TestType for HlSignedCiphertextListTest {
    open spec fn spec_module(&self) -> Seq<char> {
        HL_MODULE_NAME@
    }

    open spec fn spec_target_type(&self) -> Seq<char> {
        "FheIntList"@
    }

    open spec fn spec_test_filename(&self) -> Seq<char> {
        self.test_filename@
    }

    fn module(&self) -> (r: String) {
        String::from_str(HL_MODULE_NAME)
    }

    fn target_type(&self) -> (r: String) {
        String::from_str("FheIntList")
    }

    fn test_filename(&self) -> (r: String) {
        self.test_filename.clone()
    }
}

/// A list of boolean ciphertexts that decrypt to `clear_values`, in order.
#[derive(Clone, Debug, PartialEq, Eq)]
pub struct HlBoolCiphertextListTest {
    pub test_filename: String,
    pub key_filename: String,
    pub clear_values: Vec<bool>,
}

impl TestType for HlBoolCiphertextListTest {
    open spec fn spec_module(&self) -> Seq<char> {
        HL_MODULE_NAME@
    }

    open spec fn spec_target_type(&self) -> Seq<char> {
        "FheBoolList"@
    }

    open spec fn spec_test_filename(&self) -> Seq<char> {
        self.test_filename@
    }

    fn module(&self) -> (r: String) {
        String::from_str(HL_MODULE_NAME)
    }

    fn target_type(&self) -> (r: String) {
        String::from_str("FheBoolList")
    }

    fn test_filename(&self) -> (r: String) {
        self.test_filename.clone()
    }
}

/// A compact list of ciphertexts of mixed kinds: item `i` is of kind `data_kinds[i]` and decrypts to `clear_values[i]`, read as a value of that kind.
#[derive(Clone, Debug, PartialEq, Eq)]
pub struct HlHeterogeneousCiphertextListTest {
    pub test_filename: String,
    pub key_filename: String,
    pub clear_values: Vec<u64>,
    pub data_kinds: Vec<DataKind>,
    pub packed: bool,
}

impl TestType for HlHeterogeneousCiphertextListTest {
    open spec fn spec_module(&self) -> Seq<char> {
        HL_MODULE_NAME@
    }

    open spec fn spec_target_type(&self) -> Seq<char> {
        "CompactCiphertextList"@
    }

    open spec fn spec_test_filename(&self) -> Seq<char> {
        self.test_filename@
    }

    fn module(&self) -> (r: String) {
        String::from_str(HL_MODULE_NAME)
    }

    fn target_type(&self) -> (r: String) {
        String::from_str("CompactCiphertextList")
    }

    fn test_filename(&self) -> (r: String) {
        self.test_filename.clone()
    }
}

} // verus!
