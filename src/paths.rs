//! Fixture locations. A path is a string whose components are separated by `/`.

use vstd::prelude::*;

verus! {

/// Directory, under a project root, that holds every fixture.
pub const DATA_DIR: &'static str = "data";

/// The path obtained by appending `component` to `base`: an absolute component
/// replaces the base; otherwise one separator is put between them, unless the
/// base is empty or already ends with one.
pub open spec fn path_push(base: Seq<char>, component: Seq<char>) -> Seq<char> {
    if component.len() > 0 && component[0] == '/' {
        component
    } else if base.len() == 0 || base.last() == '/' {
        base + component
    } else {
        base + seq!['/'] + component
    }
}

/// `s` with every occurrence of `from` replaced by `to`.
pub open spec fn replace_char(s: Seq<char>, from: char, to: Seq<char>) -> Seq<char>
    decreases s.len(),
{
    if s.len() == 0 {
        Seq::empty()
    } else {
        replace_char(s.drop_last(), from, to) + if s.last() == from {
            to
        } else {
            seq![s.last()]
        }
    }
}

/// Name of the directory that holds the fixtures of one library version:
/// the version number with its dots turned into underscores (`0.6` gives `0_6`).
pub open spec fn version_dir_name(version: Seq<char>) -> Seq<char> {
    replace_char(version, '.', seq!['_'])
}

/// `s` with every occurrence of `from` replaced by `to`.
fn replace_all(s: &str, from: char, to: &str) -> (r: String)
    ensures
        r@ == replace_char(s@, from, to@),
{
    let n = s.unicode_len();
    let mut r = String::new();
    let mut i: usize = 0;
    while i < n
        invariant
            n == s@.len(),
            i <= n,
            r@ == replace_char(s@.subrange(0, i as int), from, to@),
        decreases n - i,
    {
        let c = s.get_char(i);
        if c == from {
            r.append(to);
        } else {
            r.append(s.substring_char(i, i + 1));
        }
        proof {
            let next = s@.subrange(0, i + 1);
            assert(next.drop_last() =~= s@.subrange(0, i as int));
            assert(s@.subrange(i as int, i + 1) =~= seq![c]);
        }
        i = i + 1;
    }
    assert(s@.subrange(0, n as int) =~= s@);
    r
}

/// Appends one component to a path (see `path_push`).
pub fn push_component(base: &str, component: &str) -> (r: String)
    ensures
        r@ == path_push(base@, component@),
{
    let clen = component.unicode_len();
    if clen > 0 && component.get_char(0) == '/' {
        return String::from_str(component);
    }
    let blen = base.unicode_len();
    let mut r = String::from_str(base);
    if blen > 0 && base.get_char(blen - 1) != '/' {
        proof {
            reveal_strlit("/");
        }
        r.append("/");
    }
    r.append(component);
    r
}

/// Directory of the fixtures of `version` under `data_dir`.
pub fn dir_for_version(data_dir: &str, version: &str) -> (r: String)
    ensures
        r@ == path_push(data_dir@, version_dir_name(version@)),
{
    proof {
        reveal_strlit("_");
        assert("_"@ =~= seq!['_']);
    }
    let name = replace_all(version, '.', "_");
    push_component(data_dir, name.as_str())
}

/// Directory of all fixtures under the project root `root`.
pub fn data_dir(root: &str) -> (r: String)
    ensures
        r@ == path_push(root@, DATA_DIR@),
{
    push_component(root, DATA_DIR)
}

/// Directory of the fixtures of library version `version` under the project
/// root `root`.
pub fn version_data_dir(root: &str, version: &str) -> (r: String)
    ensures
        r@ == path_push(path_push(root@, DATA_DIR@), version_dir_name(version@)),
{
    let base = data_dir(root);
    dir_for_version(base.as_str(), version)
}

} // verus!
