//! Paths, argument parsing and bookkeeping of the QuickLaunch helper.
use crate::adapter::quicklaunch::{QuickLaunchAction, QuickLaunchItem};
use crate::path::{join, parent, path_join, path_parent};
use crate::text::{
    from_chars, lower, lower_chars, split_chars, split_on, str_views, strings_of, to_chars, trim,
    trim_chars, trimmed_nonempty, trimmed_nonempty_chars, views, chars_eq, compare_chars, seq_lt,
    lemma_seq_lt_irreflexive, lemma_seq_lt_total, lemma_seq_lt_transitive,
};
use vstd::prelude::*;

verus! {

/// A setting that is given and not blank.
pub open spec fn given(value: Option<String>) -> bool {
    value matches Some(v) && trim(v@).len() > 0
}

/// Where the helper keeps the synced items: the explicit path if given, else under the
/// home directory, else in the working directory.
pub open spec fn state_path_for(explicit: Option<String>, home: Option<String>) -> Seq<char> {
    if given(explicit) {
        explicit->0@
    } else {
        match home {
            Some(h) => path_join(h@, ".config/launchpad/quicklaunch-helper-state.json"@),
            None => ".launchpad-quicklaunch-helper-state.json"@,
        }
    }
}

/// Where the helper queues actions: the explicit path if given, else beside the state file
/// (in the working directory when the state path has no parent).
pub open spec fn actions_path_for(explicit: Option<String>, state_path: Seq<char>) -> Seq<char> {
    if given(explicit) {
        explicit->0@
    } else {
        let dir = match path_parent(state_path) {
            Some(p) => p,
            None => "."@,
        };
        path_join(dir, "quicklaunch-helper-actions.json"@)
    }
}

fn is_given(value: &Option<String>) -> (r: bool)
    ensures
        r == given(*value),
{
    match value {
        Some(v) => trim_chars(&to_chars(v.as_str())).len() > 0,
        None => false,
    }
}

/// A program named by a setting, where the setting is given and not blank; it is kept as
/// written.
pub fn program_setting(value: Option<String>) -> (r: Option<String>)
    ensures
        given(value) ==> r == value,
        !given(value) ==> r is None,
{
    if is_given(&value) {
        value
    } else {
        None
    }
}

pub fn resolve_state_path(explicit: Option<String>, home: Option<String>) -> (r: String)
    ensures
        r@ == state_path_for(explicit, home),
{
    if is_given(&explicit) {
        return match explicit {
            Some(v) => v,
            None => String::new(),
        };
    }
    match home {
        Some(h) => join(h.as_str(), ".config/launchpad/quicklaunch-helper-state.json"),
        None => from_chars(to_chars(".launchpad-quicklaunch-helper-state.json").as_slice()),
    }
}

pub fn resolve_actions_path(explicit: Option<String>, state_path: &str) -> (r: String)
    ensures
        r@ == actions_path_for(explicit, state_path@),
{
    if is_given(&explicit) {
        return match explicit {
            Some(v) => v,
            None => String::new(),
        };
    }
    let dir = match parent(state_path) {
        Some(p) => p,
        None => from_chars(to_chars(".").as_slice()),
    };
    join(dir.as_str(), "quicklaunch-helper-actions.json")
}

/// The job ids of a comma-separated list: each piece trimmed, blank pieces left out.
pub open spec fn job_ids_of_csv(value: Seq<char>) -> Seq<Seq<char>> {
    trimmed_nonempty(split_on(value, ','))
}

pub fn parse_job_ids_csv(value: &str) -> (r: Vec<String>)
    ensures
        str_views(r@) == job_ids_of_csv(value@),
{
    let parts = split_chars(&to_chars(value), ',');
    let ids = trimmed_nonempty_chars(&parts);
    strings_of(&ids)
}

/// The action that `--enqueue-action` queues: the name trimmed and in lower case, with
/// the listed job ids; an error where the name is blank or no id is listed.
pub open spec fn enqueued_action(action: Seq<char>, job_ids_csv: Seq<char>) -> Result<
    (Seq<char>, Seq<Seq<char>>),
    Seq<char>,
> {
    if lower(trim(action)).len() == 0 {
        Err("action is required"@)
    } else if job_ids_of_csv(job_ids_csv).len() == 0 {
        Err("at least one job id is required"@)
    } else {
        Ok((lower(trim(action)), job_ids_of_csv(job_ids_csv)))
    }
}

/// The action to queue for a name and a comma-separated list of job ids.
pub fn action_to_enqueue(action: &str, job_ids_csv: &str) -> (r: Result<QuickLaunchAction, String>)
    ensures
        r matches Ok(a) ==> enqueued_action(action@, job_ids_csv@) == Ok::<
            (Seq<char>, Seq<Seq<char>>),
            Seq<char>,
        >((a.action@, str_views(a.job_ids@))),
        r matches Err(m) ==> enqueued_action(action@, job_ids_csv@) == Err::<
            (Seq<char>, Seq<Seq<char>>),
            Seq<char>,
        >(m@),
{
    let normalized = lower_chars(&trim_chars(&to_chars(action)));
    if normalized.len() == 0 {
        return Err(from_chars(to_chars("action is required").as_slice()));
    }
    let job_ids = parse_job_ids_csv(job_ids_csv);
    if job_ids.len() == 0 {
        return Err(from_chars(to_chars("at least one job id is required").as_slice()));
    }
    Ok(QuickLaunchAction { action: from_chars(normalized.as_slice()), job_ids })
}

/// How many of the items are in `group`.
pub open spec fn group_count(items: Seq<QuickLaunchItem>, group: Seq<char>) -> nat
    decreases items.len(),
{
    if items.len() == 0 {
        0
    } else {
        group_count(items.drop_last(), group) + (if items.last().group@ == group {
            1nat
        } else {
            0nat
        })
    }
}

/// Group names in ascending order, none twice.
pub open spec fn groups_ascending(v: Seq<(Seq<char>, nat)>) -> bool {
    forall|a: int, b: int| 0 <= a < b < v.len() ==> seq_lt(#[trigger] v[a].0, #[trigger] v[b].0)
}

/// `v` counts the groups of `items`: each group that occurs once, in ascending order,
/// with the number of items in it.
pub open spec fn counts_groups(items: Seq<QuickLaunchItem>, v: Seq<(Seq<char>, nat)>) -> bool {
    &&& groups_ascending(v)
    &&& forall|k: int|
        0 <= k < v.len() ==> #[trigger] v[k].1 == group_count(items, v[k].0) && v[k].1 > 0
    &&& forall|g: Seq<char>|
        #[trigger] group_count(items, g) > 0 ==> exists|k: int| 0 <= k < v.len() && v[k].0 == g
}

proof fn lemma_group_count_le(items: Seq<QuickLaunchItem>, g: Seq<char>)
    ensures
        group_count(items, g) <= items.len(),
    decreases items.len(),
{
    if items.len() > 0 {
        lemma_group_count_le(items.drop_last(), g);
    }
}

proof fn lemma_group_count_step(items: Seq<QuickLaunchItem>, i: int, g: Seq<char>)
    requires
        0 <= i < items.len(),
    ensures
        group_count(items.subrange(0, i + 1), g) == group_count(items.subrange(0, i), g) + (if items[i].group@ == g {
            1nat
        } else {
            0nat
        }),
{
    assert(items.subrange(0, i + 1).drop_last() =~= items.subrange(0, i));
}

proof fn lemma_ascending_distinct(v: Seq<(Seq<char>, nat)>, a: int, b: int)
    requires
        groups_ascending(v),
        0 <= a < v.len(),
        0 <= b < v.len(),
        a != b,
    ensures
        v[a].0 != v[b].0,
{
    if a < b {
        assert(seq_lt(v[a].0, v[b].0));
    } else {
        assert(seq_lt(v[b].0, v[a].0));
    }
    lemma_seq_lt_irreflexive(v[a].0);
}

proof fn lemma_count_found(
    items: Seq<QuickLaunchItem>,
    i: int,
    v: Seq<(Seq<char>, nat)>,
    j: int,
)
    requires
        0 <= i < items.len(),
        counts_groups(items.subrange(0, i), v),
        0 <= j < v.len(),
        v[j].0 == items[i].group@,
    ensures
        counts_groups(items.subrange(0, i + 1), v.update(j, (v[j].0, v[j].1 + 1))),
{
    let p = items.subrange(0, i);
    let q = items.subrange(0, i + 1);
    let g = items[i].group@;
    let w = v.update(j, (v[j].0, v[j].1 + 1));
    assert forall|a: int, b: int| 0 <= a < b < w.len() implies seq_lt(
        #[trigger] w[a].0,
        #[trigger] w[b].0,
    ) by {
        assert(seq_lt(v[a].0, v[b].0));
    }
    assert forall|k: int| 0 <= k < w.len() implies #[trigger] w[k].1 == group_count(q, w[k].0)
        && w[k].1 > 0 by {
        lemma_group_count_step(items, i, w[k].0);
        if k != j {
            lemma_ascending_distinct(v, k, j);
        }
    }
    assert forall|x: Seq<char>| #[trigger] group_count(q, x) > 0 implies exists|k: int|
        0 <= k < w.len() && w[k].0 == x by {
        lemma_group_count_step(items, i, x);
        if x == g {
            assert(w[j].0 == x);
        } else {
            assert(group_count(p, x) > 0);
            let k = choose|k: int| 0 <= k < v.len() && v[k].0 == x;
            assert(w[k].0 == x);
        }
    }
}

proof fn lemma_count_inserted(
    items: Seq<QuickLaunchItem>,
    i: int,
    v: Seq<(Seq<char>, nat)>,
    j: int,
)
    requires
        0 <= i < items.len(),
        counts_groups(items.subrange(0, i), v),
        0 <= j <= v.len(),
        forall|t: int| 0 <= t < j ==> seq_lt(#[trigger] v[t].0, items[i].group@),
        j < v.len() ==> seq_lt(items[i].group@, v[j].0),
    ensures
        counts_groups(items.subrange(0, i + 1), v.insert(j, (items[i].group@, 1nat))),
{
    let p = items.subrange(0, i);
    let q = items.subrange(0, i + 1);
    let g = items[i].group@;
    let w = v.insert(j, (g, 1nat));
    assert forall|t: int| 0 <= t < v.len() implies #[trigger] v[t].0 != g by {
        lemma_seq_lt_irreflexive(g);
        if t < j {
            assert(seq_lt(v[t].0, g));
        } else if t > j {
            assert(seq_lt(v[j].0, v[t].0));
            lemma_seq_lt_transitive(g, v[j].0, v[t].0);
        }
    }
    assert(group_count(p, g) == 0) by {
        if group_count(p, g) > 0 {
            let k = choose|k: int| 0 <= k < v.len() && v[k].0 == g;
            assert(v[k].0 != g);
        }
    }
    assert forall|a: int, b: int| 0 <= a < b < w.len() implies seq_lt(
        #[trigger] w[a].0,
        #[trigger] w[b].0,
    ) by {
        if b < j {
            assert(seq_lt(v[a].0, v[b].0));
        } else if b == j {
            assert(seq_lt(v[a].0, g));
        } else if a < j {
            assert(seq_lt(v[a].0, g));
            if b - 1 == j {
                assert(seq_lt(g, v[j].0));
            } else {
                assert(seq_lt(v[j].0, v[b - 1].0));
                lemma_seq_lt_transitive(g, v[j].0, v[b - 1].0);
            }
            lemma_seq_lt_transitive(v[a].0, g, v[b - 1].0);
        } else if a == j {
            if b - 1 == j {
                assert(seq_lt(g, v[j].0));
            } else {
                assert(seq_lt(v[j].0, v[b - 1].0));
                lemma_seq_lt_transitive(g, v[j].0, v[b - 1].0);
            }
        } else {
            assert(seq_lt(v[a - 1].0, v[b - 1].0));
        }
    }
    assert forall|k: int| 0 <= k < w.len() implies #[trigger] w[k].1 == group_count(q, w[k].0)
        && w[k].1 > 0 by {
        lemma_group_count_step(items, i, w[k].0);
        if k < j {
            assert(w[k] == v[k]);
        } else if k > j {
            assert(w[k] == v[k - 1]);
        }
    }
    assert forall|x: Seq<char>| #[trigger] group_count(q, x) > 0 implies exists|k: int|
        0 <= k < w.len() && w[k].0 == x by {
        lemma_group_count_step(items, i, x);
        if x == g {
            assert(w[j].0 == x);
        } else {
            assert(group_count(p, x) > 0);
            let k = choose|k: int| 0 <= k < v.len() && v[k].0 == x;
            if k < j {
                assert(w[k].0 == x);
            } else {
                assert(w[k + 1].0 == x);
            }
        }
    }
}

/// The number of items in each group, one entry per group that occurs.
pub struct GroupCounts {
    entries: Vec<(String, usize)>,
}

impl GroupCounts {
    /// The groups and their counts, in ascending order of group.
    pub closed spec fn view_entries(&self) -> Seq<(Seq<char>, nat)> {
        entry_views(self.entries@)
    }

    pub fn len(&self) -> (r: usize)
        ensures
            r == self.view_entries().len(),
    {
        self.entries.len()
    }

    /// The group and count at `index`.
    pub fn entry(&self, index: usize) -> (r: (String, usize))
        requires
            index < self.view_entries().len(),
        ensures
            (r.0@, r.1 as nat) == self.view_entries()[index as int],
    {
        let e = &self.entries[index];
        (from_chars(to_chars(e.0.as_str()).as_slice()), e.1)
    }

    /// The count of `group`; none where no item is in it.
    pub fn get(&self, group: &str) -> (r: Option<usize>)
        ensures
            r matches Some(n) ==> exists|k: int|
                0 <= k < self.view_entries().len() && self.view_entries()[k] == (group@, n as nat),
            r is None ==> forall|k: int|
                0 <= k < self.view_entries().len() ==> (#[trigger] self.view_entries()[k]).0
                    != group@,
    {
        let g = to_chars(group);
        let mut i: usize = 0;
        while i < self.entries.len()
            invariant
                i <= self.entries.len(),
                g@ == group@,
                forall|k: int| 0 <= k < i ==> (#[trigger] self.view_entries()[k]).0 != group@,
            decreases self.entries.len() - i,
        {
            if chars_eq(&to_chars(self.entries[i].0.as_str()), &g) {
                assert(self.view_entries()[i as int] == (group@, self.entries[i as int].1 as nat));
                return Some(self.entries[i].1);
            }
            i = i + 1;
        }
        None
    }
}

pub open spec fn entry_views(v: Seq<(String, usize)>) -> Seq<(Seq<char>, nat)> {
    v.map_values(|e: (String, usize)| (e.0@, e.1 as nat))
}

/// Where group `g` stands or belongs among the ascending entries, and whether it is there.
fn group_slot(entries: &Vec<(String, usize)>, g: &Vec<char>) -> (r: (usize, bool))
    ensures
        r.0 <= entries.len(),
        forall|t: int| 0 <= t < r.0 ==> seq_lt(#[trigger] entry_views(entries@)[t].0, g@),
        r.1 ==> r.0 < entries.len() && entry_views(entries@)[r.0 as int].0 == g@,
        !r.1 ==> (r.0 < entries.len() ==> seq_lt(g@, entry_views(entries@)[r.0 as int].0)),
{
    let ghost v = entry_views(entries@);
    let mut j: usize = 0;
    while j < entries.len()
        invariant
            j <= entries.len(),
            v == entry_views(entries@),
            forall|t: int| 0 <= t < j ==> seq_lt(#[trigger] v[t].0, g@),
        decreases entries.len() - j,
    {
        assert(v[j as int].0 == entries@[j as int].0@);
        let c = compare_chars(&to_chars(entries[j].0.as_str()), g);
        if c == 0 {
            return (j, true);
        }
        if c > 0 {
            return (j, false);
        }
        j = j + 1;
    }
    (j, false)
}

/// Counts the items of each group.
pub fn summarize_groups(items: &[QuickLaunchItem]) -> (r: GroupCounts)
    ensures
        counts_groups(items@, r.view_entries()),
{
    let mut entries: Vec<(String, usize)> = Vec::new();
    let mut i: usize = 0;
    assert(counts_groups(items@.subrange(0, 0), entry_views(entries@)));
    while i < items.len()
        invariant
            i <= items.len(),
            counts_groups(items@.subrange(0, i as int), entry_views(entries@)),
        decreases items.len() - i,
    {
        let g = to_chars(items[i].group.as_str());
        let ghost v = entry_views(entries@);
        let (j, found) = group_slot(&entries, &g);
        proof {
            lemma_group_count_le(items@.subrange(0, i as int), g@);
        }
        if found {
            assert(v[j as int].0 == g@);
            let n = entries[j].1;
            assert(n == group_count(items@.subrange(0, i as int), g@));
            let name = from_chars(g.as_slice());
            entries.set(j, (name, n + 1));
            proof {
                lemma_count_found(items@, i as int, v, j as int);
                assert(entry_views(entries@) =~= v.update(j as int, (v[j as int].0, v[j as int].1 + 1)));
            }
        } else {
            let name = from_chars(g.as_slice());
            entries.insert(j, (name, 1));
            proof {
                lemma_count_inserted(items@, i as int, v, j as int);
                assert(entry_views(entries@) =~= v.insert(j as int, (g@, 1nat)));
            }
        }
        i = i + 1;
    }
    assert(items@.subrange(0, items.len() as int) =~= items@);
    GroupCounts { entries }
}

} // verus!
