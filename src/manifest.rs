//! The manifest: every fixture of a generation run, with the module it belongs
//! to and the oldest library version that can read it.

use vstd::prelude::*;

use crate::metadata::{
    HlBoolCiphertextListTest, HlBoolCiphertextTest, HlCiphertextListTest, HlCiphertextTest,
    HlClientKeyTest, HlHeterogeneousCiphertextListTest, HlPublicKeyTest, HlServerKeyTest,
    HlSignedCiphertextListTest, HlSignedCiphertextTest, ShortintCiphertextTest,
    ShortintClientKeyTest, TestType, HL_MODULE_NAME, SHORTINT_MODULE_NAME,
};
use crate::outcome::TestSkipped;

verus! {

/// Description of one fixture, by the type it holds.
#[derive(Clone, Debug, PartialEq, Eq)]
pub enum TestMetadata {
    ShortintCiphertext(ShortintCiphertextTest),
    ShortintClientKey(ShortintClientKeyTest),
    HlCiphertext(HlCiphertextTest),
    HlSignedCiphertext(HlSignedCiphertextTest),
    HlBoolCiphertext(HlBoolCiphertextTest),
    HlCiphertextList(HlCiphertextListTest),
    HlSignedCiphertextList(HlSignedCiphertextListTest),
    HlBoolCiphertextList(HlBoolCiphertextListTest),
    HlClientKey(HlClientKeyTest),
    HlServerKey(HlServerKeyTest),
    HlPublicKey(HlPublicKeyTest),
    HlHeterogeneousCiphertextList(HlHeterogeneousCiphertextListTest),
}

impl TestMetadata {
    /// Name of the variant, as reports show it.
    pub open spec fn spec_name(self) -> Seq<char> {
        match self {
            TestMetadata::ShortintCiphertext(_) => "ShortintCiphertext"@,
            TestMetadata::ShortintClientKey(_) => "ShortintClientKey"@,
            TestMetadata::HlCiphertext(_) => "HlCiphertext"@,
            TestMetadata::HlSignedCiphertext(_) => "HlSignedCiphertext"@,
            TestMetadata::HlBoolCiphertext(_) => "HlBoolCiphertext"@,
            TestMetadata::HlCiphertextList(_) => "HlCiphertextList"@,
            TestMetadata::HlSignedCiphertextList(_) => "HlSignedCiphertextList"@,
            TestMetadata::HlBoolCiphertextList(_) => "HlBoolCiphertextList"@,
            TestMetadata::HlClientKey(_) => "HlClientKey"@,
            TestMetadata::HlServerKey(_) => "HlServerKey"@,
            TestMetadata::HlPublicKey(_) => "HlPublicKey"@,
            TestMetadata::HlHeterogeneousCiphertextList(_) => "HlHeterogeneousCiphertextList"@,
        }
    }

    /// Name of the variant, as reports show it.
    pub fn name(&self) -> (r: String)
        ensures
            r@ == self.spec_name(),
    {
        match self {
            TestMetadata::ShortintCiphertext(_) => String::from_str("ShortintCiphertext"),
            TestMetadata::ShortintClientKey(_) => String::from_str("ShortintClientKey"),
            TestMetadata::HlCiphertext(_) => String::from_str("HlCiphertext"),
            TestMetadata::HlSignedCiphertext(_) => String::from_str("HlSignedCiphertext"),
            TestMetadata::HlBoolCiphertext(_) => String::from_str("HlBoolCiphertext"),
            TestMetadata::HlCiphertextList(_) => String::from_str("HlCiphertextList"),
            TestMetadata::HlSignedCiphertextList(_) => String::from_str("HlSignedCiphertextList"),
            TestMetadata::HlBoolCiphertextList(_) => String::from_str("HlBoolCiphertextList"),
            TestMetadata::HlClientKey(_) => String::from_str("HlClientKey"),
            TestMetadata::HlServerKey(_) => String::from_str("HlServerKey"),
            TestMetadata::HlPublicKey(_) => String::from_str("HlPublicKey"),
            TestMetadata::HlHeterogeneousCiphertextList(_) => String::from_str(
                "HlHeterogeneousCiphertextList",
            ),
        }
    }
}

/// Each entry describes its fixture through the type it holds.
impl TestType for TestMetadata {
    open spec fn spec_module(&self) -> Seq<char> {
        match self {
            TestMetadata::ShortintCiphertext(t) => t.spec_module(),
            TestMetadata::ShortintClientKey(t) => t.spec_module(),
            TestMetadata::HlCiphertext(t) => t.spec_module(),
            TestMetadata::HlSignedCiphertext(t) => t.spec_module(),
            TestMetadata::HlBoolCiphertext(t) => t.spec_module(),
            TestMetadata::HlCiphertextList(t) => t.spec_module(),
            TestMetadata::HlSignedCiphertextList(t) => t.spec_module(),
            TestMetadata::HlBoolCiphertextList(t) => t.spec_module(),
            TestMetadata::HlClientKey(t) => t.spec_module(),
            TestMetadata::HlServerKey(t) => t.spec_module(),
            TestMetadata::HlPublicKey(t) => t.spec_module(),
            TestMetadata::HlHeterogeneousCiphertextList(t) => t.spec_module(),
        }
    }

    open spec fn spec_target_type(&self) -> Seq<char> {
        match self {
            TestMetadata::ShortintCiphertext(t) => t.spec_target_type(),
            TestMetadata::ShortintClientKey(t) => t.spec_target_type(),
            TestMetadata::HlCiphertext(t) => t.spec_target_type(),
            TestMetadata::HlSignedCiphertext(t) => t.spec_target_type(),
            TestMetadata::HlBoolCiphertext(t) => t.spec_target_type(),
            TestMetadata::HlCiphertextList(t) => t.spec_target_type(),
            TestMetadata::HlSignedCiphertextList(t) => t.spec_target_type(),
            TestMetadata::HlBoolCiphertextList(t) => t.spec_target_type(),
            TestMetadata::HlClientKey(t) => t.spec_target_type(),
            TestMetadata::HlServerKey(t) => t.spec_target_type(),
            TestMetadata::HlPublicKey(t) => t.spec_target_type(),
            TestMetadata::HlHeterogeneousCiphertextList(t) => t.spec_target_type(),
        }
    }

    open spec fn spec_test_filename(&self) -> Seq<char> {
        match self {
            TestMetadata::ShortintCiphertext(t) => t.spec_test_filename(),
            TestMetadata::ShortintClientKey(t) => t.spec_test_filename(),
            TestMetadata::HlCiphertext(t) => t.spec_test_filename(),
            TestMetadata::HlSignedCiphertext(t) => t.spec_test_filename(),
            TestMetadata::HlBoolCiphertext(t) => t.spec_test_filename(),
            TestMetadata::HlCiphertextList(t) => t.spec_test_filename(),
            TestMetadata::HlSignedCiphertextList(t) => t.spec_test_filename(),
            TestMetadata::HlBoolCiphertextList(t) => t.spec_test_filename(),
            TestMetadata::HlClientKey(t) => t.spec_test_filename(),
            TestMetadata::HlServerKey(t) => t.spec_test_filename(),
            TestMetadata::HlPublicKey(t) => t.spec_test_filename(),
            TestMetadata::HlHeterogeneousCiphertextList(t) => t.spec_test_filename(),
        }
    }

    fn module(&self) -> (r: String) {
        match self {
            TestMetadata::ShortintCiphertext(t) => t.module(),
            TestMetadata::ShortintClientKey(t) => t.module(),
            TestMetadata::HlCiphertext(t) => t.module(),
            TestMetadata::HlSignedCiphertext(t) => t.module(),
            TestMetadata::HlBoolCiphertext(t) => t.module(),
            TestMetadata::HlCiphertextList(t) => t.module(),
            TestMetadata::HlSignedCiphertextList(t) => t.module(),
            TestMetadata::HlBoolCiphertextList(t) => t.module(),
            TestMetadata::HlClientKey(t) => t.module(),
            TestMetadata::HlServerKey(t) => t.module(),
            TestMetadata::HlPublicKey(t) => t.module(),
            TestMetadata::HlHeterogeneousCiphertextList(t) => t.module(),
        }
    }

    fn target_type(&self) -> (r: String) {
        match self {
            TestMetadata::ShortintCiphertext(t) => t.target_type(),
            TestMetadata::ShortintClientKey(t) => t.target_type(),
            TestMetadata::HlCiphertext(t) => t.target_type(),
            TestMetadata::HlSignedCiphertext(t) => t.target_type(),
            TestMetadata::HlBoolCiphertext(t) => t.target_type(),
            TestMetadata::HlCiphertextList(t) => t.target_type(),
            TestMetadata::HlSignedCiphertextList(t) => t.target_type(),
            TestMetadata::HlBoolCiphertextList(t) => t.target_type(),
            TestMetadata::HlClientKey(t) => t.target_type(),
            TestMetadata::HlServerKey(t) => t.target_type(),
            TestMetadata::HlPublicKey(t) => t.target_type(),
            TestMetadata::HlHeterogeneousCiphertextList(t) => t.target_type(),
        }
    }

    fn test_filename(&self) -> (r: String) {
        match self {
            TestMetadata::ShortintCiphertext(t) => t.test_filename(),
            TestMetadata::ShortintClientKey(t) => t.test_filename(),
            TestMetadata::HlCiphertext(t) => t.test_filename(),
            TestMetadata::HlSignedCiphertext(t) => t.test_filename(),
            TestMetadata::HlBoolCiphertext(t) => t.test_filename(),
            TestMetadata::HlCiphertextList(t) => t.test_filename(),
            TestMetadata::HlSignedCiphertextList(t) => t.test_filename(),
            TestMetadata::HlBoolCiphertextList(t) => t.test_filename(),
            TestMetadata::HlClientKey(t) => t.test_filename(),
            TestMetadata::HlServerKey(t) => t.test_filename(),
            TestMetadata::HlPublicKey(t) => t.test_filename(),
            TestMetadata::HlHeterogeneousCiphertextList(t) => t.test_filename(),
        }
    }
}

/// One entry of the manifest.
#[derive(Clone, Debug, PartialEq, Eq)]
pub struct Testcase {
    /// Oldest library version that can read the fixture (a partial version
    /// such as `0.6` is allowed).
    pub tfhe_version_min: String,
    /// Module of the library under test that the fixture belongs to.
    pub tfhe_module: String,
    pub metadata: TestMetadata,
}

impl Testcase {
    /// Report of this entry when it is not replayed.
    pub fn skip(&self) -> (r: TestSkipped)
        ensures
            r.module@ == self.tfhe_module@,
            r.test_name@ == self.metadata.spec_name(),
    {
        TestSkipped { module: self.tfhe_module.clone(), test_name: self.metadata.name() }
    }
}

/// Whether entry `t` carries `metadata`, made by version `version` in `module`.
pub open spec fn is_entry(t: Testcase, version: Seq<char>, module: Seq<char>, metadata: TestMetadata) -> bool {
    &&& t.tfhe_version_min@ == version
    &&& t.tfhe_module@ == module
    &&& t.metadata == metadata
}

/// Manifest entries for the fixtures `tests` that version `version` made in
/// `module`, in the order of `tests`.
pub fn module_testcases(version: &str, module: &str, tests: Vec<TestMetadata>) -> (r: Vec<Testcase>)
    ensures
        r@.len() == tests@.len(),
        forall|i: int| 0 <= i < r@.len() ==> is_entry(#[trigger] r@[i], version@, module@, tests@[i]),
{
    let ghost all = tests@;
    let mut r: Vec<Testcase> = Vec::new();
    for m in it: tests.into_iter()
        invariant
            it.seq() == all,
            r@.len() == it.index(),
            forall|i: int| 0 <= i < r@.len() ==> is_entry(#[trigger] r@[i], version@, module@, all[i]),
    {
        r.push(Testcase {
            tfhe_version_min: String::from_str(version),
            tfhe_module: String::from_str(module),
            metadata: m,
        });
    }
    r
}

/// The manifest of one library version: the entries of its shortint fixtures
/// followed by those of its high-level fixtures, each group in its own order.
pub fn version_testcases(
    version: &str,
    shortint_tests: Vec<TestMetadata>,
    hl_tests: Vec<TestMetadata>,
) -> (r: Vec<Testcase>)
    requires
        shortint_tests@.len() + hl_tests@.len() <= usize::MAX,
    ensures
        r@.len() == shortint_tests@.len() + hl_tests@.len(),
        forall|i: int|
            0 <= i < shortint_tests@.len() ==> is_entry(
                #[trigger] r@[i],
                version@,
                SHORTINT_MODULE_NAME@,
                shortint_tests@[i],
            ),
        forall|i: int|
            shortint_tests@.len() <= i < r@.len() ==> is_entry(
                #[trigger] r@[i],
                version@,
                HL_MODULE_NAME@,
                hl_tests@[i - shortint_tests@.len()],
            ),
{
    let ghost n = shortint_tests@.len();
    let mut r = module_testcases(version, SHORTINT_MODULE_NAME, shortint_tests);
    let mut hl = module_testcases(version, HL_MODULE_NAME, hl_tests);
    let ghost hl_entries = hl@;
    r.append(&mut hl);
    proof {
        assert forall|i: int| n <= i < r@.len() implies is_entry(
            #[trigger] r@[i],
            version@,
            HL_MODULE_NAME@,
            hl_tests@[i - n],
        ) by {
            assert(r@[i] == hl_entries[i - n]);
        }
    }
    r
}

/// Whether entry `t` belongs to `module`.
pub open spec fn in_module(module: Seq<char>) -> spec_fn(Testcase) -> bool {
    |t: Testcase| t.tfhe_module@ == module
}

/// The entries of `tests` that belong to `module`, in their order.
pub fn select_module(tests: Vec<Testcase>, module: &str) -> (r: Vec<Testcase>)
    ensures
        r@ == tests@.filter(in_module(module@)),
{
    let ghost all = tests@;
    let wanted = String::from_str(module);
    let mut r: Vec<Testcase> = Vec::new();
    for t in it: tests.into_iter()
        invariant
            it.seq() == all,
            wanted@ == module@,
            r@ == all.take(it.index() as int).filter(in_module(module@)),
    {
        proof {
            reveal(Seq::filter);
            assert(all.take(it.index() + 1).drop_last() =~= all.take(it.index() as int));
        }
        if t.tfhe_module == wanted {
            r.push(t);
        }
    }
    proof {
        assert(all.take(all.len() as int) =~= all);
    }
    r
}

/// Selecting one module from the manifest of a version gives back the entries
/// of that module's fixtures, in their order: the shortint manifest holds the
/// shortint fixtures and the high-level manifest the high-level ones.
pub proof fn lemma_select_module_of_version(
    version: Seq<char>,
    entries: Seq<Testcase>,
    shortint_tests: Seq<TestMetadata>,
    hl_tests: Seq<TestMetadata>,
)
    requires
        entries.len() == shortint_tests.len() + hl_tests.len(),
        forall|i: int|
            0 <= i < shortint_tests.len() ==> is_entry(
                #[trigger] entries[i],
                version,
                SHORTINT_MODULE_NAME@,
                shortint_tests[i],
            ),
        forall|i: int|
            shortint_tests.len() <= i < entries.len() ==> is_entry(
                #[trigger] entries[i],
                version,
                HL_MODULE_NAME@,
                hl_tests[i - shortint_tests.len()],
            ),
    ensures
        entries.filter(in_module(SHORTINT_MODULE_NAME@)) == entries.take(
            shortint_tests.len() as int,
        ),
        entries.filter(in_module(HL_MODULE_NAME@)) == entries.skip(shortint_tests.len() as int),
{
    let n = shortint_tests.len() as int;
    reveal_strlit("shortint");
    reveal_strlit("high_level_api");
    assert(SHORTINT_MODULE_NAME@ != HL_MODULE_NAME@) by {
        assert(SHORTINT_MODULE_NAME@[0] != HL_MODULE_NAME@[0]);
    }
    lemma_filter_prefix(entries, SHORTINT_MODULE_NAME@, n);
    lemma_filter_suffix(entries, HL_MODULE_NAME@, n);
}

/// Filtering keeps a prefix whose entries all belong to `module` and drops a
/// suffix whose entries all belong elsewhere.
proof fn lemma_filter_prefix(entries: Seq<Testcase>, module: Seq<char>, n: int)
    requires
        0 <= n <= entries.len(),
        forall|i: int| 0 <= i < n ==> (#[trigger] entries[i]).tfhe_module@ == module,
        forall|i: int| n <= i < entries.len() ==> (#[trigger] entries[i]).tfhe_module@ != module,
    ensures
        entries.filter(in_module(module)) == entries.take(n),
    decreases entries.len(),
{
    reveal(Seq::filter);
    if entries.len() == 0 {
        assert(entries.take(n) =~= entries);
    } else if entries.len() == n {
        lemma_filter_prefix(entries.drop_last(), module, n - 1);
        assert(entries.drop_last().take(n - 1) =~= entries.drop_last());
        assert(entries.take(n) =~= entries);
        assert(entries.drop_last().push(entries.last()) =~= entries);
    } else {
        lemma_filter_prefix(entries.drop_last(), module, n);
        assert(entries.drop_last().take(n) =~= entries.take(n));
    }
}

/// Filtering drops a prefix whose entries all belong elsewhere and keeps a
/// suffix whose entries all belong to `module`.
proof fn lemma_filter_suffix(entries: Seq<Testcase>, module: Seq<char>, n: int)
    requires
        0 <= n <= entries.len(),
        forall|i: int| 0 <= i < n ==> (#[trigger] entries[i]).tfhe_module@ != module,
        forall|i: int| n <= i < entries.len() ==> (#[trigger] entries[i]).tfhe_module@ == module,
    ensures
        entries.filter(in_module(module)) == entries.skip(n),
    decreases entries.len(),
{
    reveal(Seq::filter);
    if entries.len() == n {
        lemma_filter_nothing(entries, module);
        assert(entries.skip(n) =~= Seq::<Testcase>::empty());
    } else {
        lemma_filter_suffix(entries.drop_last(), module, n);
        assert(entries.drop_last().skip(n).push(entries.last()) =~= entries.skip(n));
    }
}

/// Filtering drops everything when no entry belongs to `module`.
proof fn lemma_filter_nothing(entries: Seq<Testcase>, module: Seq<char>)
    requires
        forall|i: int| 0 <= i < entries.len() ==> (#[trigger] entries[i]).tfhe_module@ != module,
    ensures
        entries.filter(in_module(module)) == Seq::<Testcase>::empty(),
    decreases entries.len(),
{
    reveal(Seq::filter);
    if entries.len() > 0 {
        lemma_filter_nothing(entries.drop_last(), module);
    }
}

} // verus!
