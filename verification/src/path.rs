//! Paths as strings, with the few `std::path` operations the app needs.
use vstd::prelude::*;

verus! {

/// What `Path::file_stem` gives for a path: the file name without its extension.
pub uninterp spec fn path_file_stem(path: Seq<char>) -> Option<Seq<char>>;

/// What `Path::parent` gives for a path.
pub uninterp spec fn path_parent(path: Seq<char>) -> Option<Seq<char>>;

/// What `Path::join` gives for a base and a relative path.
pub uninterp spec fn path_join(base: Seq<char>, rel: Seq<char>) -> Seq<char>;

/// Calls `std::path::Path::file_stem`; the contract claims that its result is a function
/// of the path alone.
#[verifier::external_body]
pub(crate) fn file_stem(path: &str) -> (r: Option<String>)
    ensures
        r matches Some(s) ==> path_file_stem(path@) == Some(s@),
        r is None ==> path_file_stem(path@) is None,
{
    std::path::Path::new(path).file_stem().map(|s| s.to_string_lossy().into_owned())
}

/// Calls `std::path::Path::parent`; the contract claims that its result is a function
/// of the path alone.
#[verifier::external_body]
pub(crate) fn parent(path: &str) -> (r: Option<String>)
    ensures
        r matches Some(s) ==> path_parent(path@) == Some(s@),
        r is None ==> path_parent(path@) is None,
{
    std::path::Path::new(path).parent().map(|p| p.to_string_lossy().into_owned())
}

/// Calls `std::path::Path::join`; the contract claims that its result is a function of
/// the two paths alone, and what the documentation of `PathBuf::push` shows: a relative
/// path is appended to a base that does not end in a separator after one `/`.
#[verifier::external_body]
pub(crate) fn join(base: &str, rel: &str) -> (r: String)
    ensures
        r@ == path_join(base@, rel@),
        base@.len() > 0 && base@.last() != '/' && rel@.len() > 0 && rel@[0] != '/' ==> r@
            == base@ + "/"@ + rel@,
{
    std::path::Path::new(base).join(rel).to_string_lossy().into_owned()
}

/// What `Path::extension` gives for a path.
pub uninterp spec fn path_extension(path: Seq<char>) -> Option<Seq<char>>;

/// Calls `std::path::Path::extension`; the contract claims that its result is a function
/// of the path alone.
#[verifier::external_body]
pub(crate) fn extension(path: &str) -> (r: Option<String>)
    ensures
        r matches Some(s) ==> path_extension(path@) == Some(s@),
        r is None ==> path_extension(path@) is None,
{
    std::path::Path::new(path).extension().map(|e| e.to_string_lossy().into_owned())
}

/// Whether `a` comes before `b` in the order of `std::path::Path`, which compares paths
/// component by component.
pub uninterp spec fn path_precedes(a: Seq<char>, b: Seq<char>) -> bool;

/// Whether `a` and `b` are the same path to `std::path::Path`, component by component.
pub uninterp spec fn path_equals(a: Seq<char>, b: Seq<char>) -> bool;

/// `order` lists each position of `paths` once, in the order of the paths, and positions
/// whose paths are the same path in increasing order.
pub open spec fn path_ordering(paths: Seq<Seq<char>>, order: Seq<usize>) -> bool {
    &&& order.len() == paths.len()
    &&& forall|k: int| 0 <= k < order.len() ==> #[trigger] order[k] < paths.len()
    &&& forall|a: int, b: int| 0 <= a < b < order.len() ==> order[a] != order[b]
    &&& forall|a: int, b: int|
        0 <= a < b < order.len() ==> !path_precedes(
            paths[order[b] as int],
            paths[order[a] as int],
        ) && (path_equals(paths[order[b] as int], paths[order[a] as int]) ==> order[a] < order[b])
}

/// Sorts the pairs of each path, as a `std::path::PathBuf`, and its position with the
/// slice's `sort`, and gives the positions in that order. The contract claims what `sort`
/// documents: the pairs come out as a reordering in ascending order, which for pairs is
/// the path's order and then the position's.
#[verifier::external_body]
pub(crate) fn path_order(paths: &Vec<String>) -> (r: Vec<usize>)
    ensures
        r@.len() == paths@.len(),
        forall|k: int| 0 <= k < r@.len() ==> #[trigger] r@[k] < paths@.len(),
        forall|a: int, b: int| 0 <= a < b < r@.len() ==> r@[a] != r@[b],
        forall|a: int, b: int|
            0 <= a < b < r@.len() ==> !path_precedes(
                paths@[r@[b] as int]@,
                paths@[r@[a] as int]@,
            ) && (path_equals(paths@[r@[b] as int]@, paths@[r@[a] as int]@) ==> r@[a] < r@[b]),
{
    let mut keyed: Vec<(std::path::PathBuf, usize)> = paths.iter().enumerate().map(
        |(i, p)| (std::path::PathBuf::from(p), i),
    ).collect();
    keyed.sort();
    keyed.into_iter().map(|(_, i)| i).collect()
}

} // verus!
