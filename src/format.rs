//! The two binary encodings in which every fixture is stored.

use vstd::prelude::*;

use crate::paths::{path_push, push_component};

verus! {

/// Encoding of a fixture file.
#[derive(Clone, Copy, Debug, PartialEq, Eq, Structural)]
pub enum DataFormat {
    Cbor,
    Bincode,
}

impl DataFormat {
    /// Name of the encoding as shown in reports.
    pub open spec fn spec_name(self) -> Seq<char> {
        match self {
            DataFormat::Cbor => "Cbor"@,
            DataFormat::Bincode => "Bincode"@,
        }
    }

    /// Extension of the files stored in this encoding.
    pub open spec fn spec_extension(self) -> Seq<char> {
        match self {
            DataFormat::Cbor => "cbor"@,
            DataFormat::Bincode => "bcode"@,
        }
    }

    /// Name of the file that holds fixture `test_filename` in this encoding.
    pub open spec fn spec_file_name(self, test_filename: Seq<char>) -> Seq<char> {
        test_filename + seq!['.'] + self.spec_extension()
    }

    /// Name of the encoding as shown in reports.
    pub fn name(&self) -> (r: String)
        ensures
            r@ == self.spec_name(),
    {
        match self {
            DataFormat::Cbor => String::from_str("Cbor"),
            DataFormat::Bincode => String::from_str("Bincode"),
        }
    }

    /// Extension of the files stored in this encoding.
    pub fn extension(&self) -> (r: &'static str)
        ensures
            r@ == self.spec_extension(),
    {
        match self {
            DataFormat::Cbor => "cbor",
            DataFormat::Bincode => "bcode",
        }
    }

    /// Name of the file that holds fixture `test_filename` in this encoding,
    /// for example `ct1.cbor` or `ct1.bcode`.
    pub fn file_name(self, test_filename: &str) -> (r: String)
        ensures
            r@ == self.spec_file_name(test_filename@),
    {
        proof {
            reveal_strlit(".");
            assert("."@ =~= seq!['.']);
        }
        let mut r = String::from_str(test_filename);
        r.append(".");
        r.append(self.extension());
        r
    }

    /// Path of the file that holds fixture `test_filename` of directory `dir`
    /// in this encoding.
    pub fn file_path(self, dir: &str, test_filename: &str) -> (r: String)
        ensures
            r@ == path_push(dir@, self.spec_file_name(test_filename@)),
    {
        let name = self.file_name(test_filename);
        push_component(dir, name.as_str())
    }
}

} // verus!
