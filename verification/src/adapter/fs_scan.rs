use crate::domain::job::JobScope;
use crate::path::{extension, join, path_extension, path_join, path_order, path_ordering};
use crate::text::{eq_str, from_chars, lower, lower_chars, to_chars};
use vstd::prelude::*;

verus! {

/// The launchd directories to look in, each with the scope of the jobs found there.
#[derive(Debug)]
pub struct FileScanner {
    targets: Vec<(String, JobScope)>,
}

/// A plist file that a scan found: its path, its scope, and whether the file and its
/// directory are writable, so that it may be deleted.
#[derive(Debug)]
pub struct ScannedFile {
    pub path: String,
    pub scope: JobScope,
    pub delete_permitted: bool,
}

impl FileScanner {
    pub fn with_targets(targets: Vec<(String, JobScope)>) -> (r: Self)
        ensures
            r.targets() == targets@,
    {
        FileScanner { targets }
    }

    pub closed spec fn targets(&self) -> Seq<(String, JobScope)> {
        self.targets@
    }

    /// The directories and their scopes, in the order they are scanned.
    pub fn target_list(&self) -> (r: &Vec<(String, JobScope)>)
        ensures
            r@ == self.targets(),
    {
        &self.targets
    }
}

/// The directories scanned by default: the user's agents under the home directory where
/// it is known, the global agents and the system daemons.
pub open spec fn default_targets(home: Option<String>) -> Seq<(Seq<char>, JobScope)> {
    let global = seq![
        ("/Library/LaunchAgents"@, JobScope::GlobalAgent),
        ("/Library/LaunchDaemons"@, JobScope::SystemDaemon),
    ];
    match home {
        Some(h) => seq![(path_join(h@, "Library/LaunchAgents"@), JobScope::UserAgent)] + global,
        None => global,
    }
}

/// The directories and scopes as plain values.
pub open spec fn target_views(v: Seq<(String, JobScope)>) -> Seq<(Seq<char>, JobScope)> {
    v.map_values(|t: (String, JobScope)| (t.0@, t.1))
}

impl FileScanner {
    /// The scanner of the default directories, given the home directory if it is known.
    pub fn for_home(home: Option<String>) -> (r: Self)
        ensures
            target_views(r.targets()) == default_targets(home),
    {
        let mut targets: Vec<(String, JobScope)> = Vec::new();
        match &home {
            Some(h) => {
                targets.push((join(h.as_str(), "Library/LaunchAgents"), JobScope::UserAgent));
            },
            None => {},
        }
        targets.push((from_chars(to_chars("/Library/LaunchAgents").as_slice()), JobScope::GlobalAgent));
        targets.push(
            (from_chars(to_chars("/Library/LaunchDaemons").as_slice()), JobScope::SystemDaemon),
        );
        assert(target_views(targets@) =~= default_targets(home));
        FileScanner { targets }
    }
}

/// Whether a file is a plist by its extension, in any case.
pub open spec fn is_plist_file(path: Seq<char>) -> bool {
    path_extension(path) matches Some(e) && lower(e) == "plist"@
}

pub fn is_plist_path(path: &str) -> (r: bool)
    ensures
        r == is_plist_file(path@),
{
    match extension(path) {
        Some(e) => eq_str(&lower_chars(&to_chars(e.as_str())), "plist"),
        None => false,
    }
}

/// The paths of found entries, in order.
pub open spec fn found_paths(found: Seq<(String, JobScope)>) -> Seq<Seq<char>> {
    found.map_values(|t: (String, JobScope)| t.0@)
}

/// The paths found with their scopes, ordered by path as `std::path::Path` orders paths;
/// entries whose paths are the same path keep the order in which they were found.
pub fn order_by_path(found: &Vec<(String, JobScope)>) -> (r: Vec<(String, JobScope)>)
    ensures
        r@.len() == found@.len(),
        exists|order: Seq<usize>|
            #[trigger] path_ordering(found_paths(found@), order)
                && forall|k: int|
                0 <= k < r@.len() ==> r@[k].0@ == found@[order[k] as int].0@ && r@[k].1 == found@[order[k] as int].1,
{
    let mut paths: Vec<String> = Vec::new();
    let mut i: usize = 0;
    while i < found.len()
        invariant
            i <= found.len(),
            paths@.len() == i,
            forall|k: int| 0 <= k < i ==> #[trigger] paths@[k]@ == found@[k].0@,
        decreases found.len() - i,
    {
        paths.push(found[i].0.clone());
        i = i + 1;
    }
    let order = path_order(&paths);
    let ghost views = found_paths(found@);
    assert(paths@.map_values(|p: String| p@) =~= views);
    assert forall|a: int, b: int| 0 <= a < b < order@.len() implies !crate::path::path_precedes(
        views[order@[b] as int],
        views[order@[a] as int],
    ) && (crate::path::path_equals(views[order@[b] as int], views[order@[a] as int]) ==> order@[a]
        < order@[b]) by {
        assert(order@[a] < paths@.len() && order@[b] < paths@.len());
        assert(views[order@[b] as int] == paths@[order@[b] as int]@);
        assert(views[order@[a] as int] == paths@[order@[a] as int]@);
    }
    let mut r: Vec<(String, JobScope)> = Vec::new();
    let mut k: usize = 0;
    while k < order.len()
        invariant
            k <= order.len(),
            path_ordering(views, order@),
            views.len() == found@.len(),
            r@.len() == k,
            forall|m: int|
                0 <= m < k ==> (#[trigger] r@[m]).0@ == found@[order@[m] as int].0@ && r@[m].1
                    == found@[order@[m] as int].1,
        decreases order.len() - k,
    {
        let j = order[k];
        assert(order@[k as int] < views.len());
        r.push((found[j].0.clone(), found[j].1));
        k = k + 1;
    }
    assert(path_ordering(views, order@));
    r
}

} // verus!
