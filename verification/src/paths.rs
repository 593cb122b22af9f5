//! Filesystem paths, held as text.
use vstd::prelude::*;
use vstd::string::StringExecFns;

use crate::text::chars_of;

verus! {

/// `base` with the relative component `name` appended, as `Path::join` does
/// it: a `'/'` goes between them unless `base` is empty or already ends in one.
pub open spec fn path_join(base: Seq<char>, name: Seq<char>) -> Seq<char> {
    if base.len() == 0 || base.last() == '/' {
        base + name
    } else {
        base + seq!['/'] + name
    }
}

/// `base` joined with the relative component `name`.
pub fn join_path(base: &str, name: &str) -> (r: String)
    requires
        name@.len() > 0,
        name@[0] != '/',
    ensures
        r@ == path_join(base@, name@),
{
    let cs = chars_of(base);
    let mut out = String::from_str(base);
    if cs.len() > 0 && cs[cs.len() - 1] != '/' {
        let sep = "/";
        proof {
            reveal_strlit("/");
        }
        out.append(sep);
    }
    out.append(name);
    out
}

/// What `Path::parent` gives for `path`: the path without its final
/// component, none for a root or an empty path.
pub uninterp spec fn path_parent(path: Seq<char>) -> Option<Seq<char>>;

/// Calls `Path::parent` on `path`. The contract names the result
/// (`path_parent`); how std splits a path into components is not written out.
#[verifier::external_body]
pub(crate) fn parent_path(path: &str) -> (r: Option<String>)
    ensures
        r.deep_view() == path_parent(path@),
{
    match std::path::Path::new(path).parent() {
        Some(p) => Some(p.to_string_lossy().into_owned()),
        None => None,
    }
}

/// Whether `Path` equality holds between `a` and `b`: std compares paths
/// component by component, so that `"/mnt/stor/"` and `"/mnt/stor"` are the
/// same path.
pub uninterp spec fn same_path(a: Seq<char>, b: Seq<char>) -> bool;

/// Calls `PartialEq::eq` on `Path`s. The contract names the result
/// (`same_path`) and states that a path equals itself (`Path` is `Eq`); how
/// std splits paths into components is not written out.
#[verifier::external_body]
pub(crate) fn paths_equal(a: &str, b: &str) -> (r: bool)
    ensures
        r == same_path(a@, b@),
        a@ == b@ ==> r,
{
    std::path::Path::new(a) == std::path::Path::new(b)
}

} // verus!
