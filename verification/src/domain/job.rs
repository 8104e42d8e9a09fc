use crate::domain::status::{status_name, JobStatus};
use crate::text::{
    append_str, compare_chars, decimal, decimal_chars, from_chars, lemma_seq_lt_asymmetric,
    lemma_seq_lt_total, lemma_seq_lt_transitive, seq_lt, to_chars,
};
use vstd::prelude::*;

verus! {

/// Where a job's plist lives, which decides what the app may do with it.
#[derive(Debug, Clone, Copy, PartialEq, Eq, Structural)]
pub enum JobScope {
    UserAgent,
    GlobalAgent,
    SystemDaemon,
}

/// The launchctl service target of a job: `gui/<uid>/<label>` for agents,
/// `system/<label>` for daemons.
pub open spec fn target_for(scope: JobScope, uid: nat, label: Seq<char>) -> Seq<char> {
    match scope {
        JobScope::SystemDaemon => "system/"@ + label,
        _ => "gui/"@ + decimal(uid) + "/"@ + label,
    }
}

/// The launchctl domain that `bootout` takes for a job of this scope.
pub open spec fn bootout_domain_for(scope: JobScope, uid: nat) -> Seq<char> {
    match scope {
        JobScope::SystemDaemon => "system"@,
        _ => "gui/"@ + decimal(uid),
    }
}

/// The name the app gives a scope.
pub open spec fn scope_name(scope: JobScope) -> Seq<char> {
    match scope {
        JobScope::UserAgent => "user-agent"@,
        JobScope::GlobalAgent => "global-agent"@,
        JobScope::SystemDaemon => "system-daemon"@,
    }
}

/// Copies an optional string.
pub fn clone_opt_string(s: &Option<String>) -> (r: Option<String>)
    ensures
        r == *s,
{
    match s {
        Some(x) => Some(x.clone()),
        None => None,
    }
}

impl JobScope {
    pub fn target_for_label(&self, uid: u32, label: &str) -> (r: String)
        ensures
            r@ == target_for(*self, uid as nat, label@),
    {
        let mut v: Vec<char> = Vec::new();
        match self {
            JobScope::SystemDaemon => {
                append_str(&mut v, "system/");
            },
            _ => {
                append_str(&mut v, "gui/");
                let d = decimal_chars(uid as u64);
                let mut i: usize = 0;
                let ghost base = v@;
                while i < d.len()
                    invariant
                        i <= d.len(),
                        v@ == base + d@.subrange(0, i as int),
                    decreases d.len() - i,
                {
                    v.push(d[i]);
                    assert(d@.subrange(0, i + 1) == d@.subrange(0, i as int).push(d@[i as int]));
                    i = i + 1;
                }
                assert(d@.subrange(0, d.len() as int) == d@);
                append_str(&mut v, "/");
            },
        }
        append_str(&mut v, label);
        from_chars(v.as_slice())
    }

    pub fn bootout_domain(&self, uid: u32) -> (r: String)
        ensures
            r@ == bootout_domain_for(*self, uid as nat),
    {
        match self {
            JobScope::SystemDaemon => from_chars(to_chars("system").as_slice()),
            _ => {
                let mut v = to_chars("gui/");
                let d = decimal_chars(uid as u64);
                crate::text::append_chars(&mut v, &d);
                from_chars(v.as_slice())
            },
        }
    }

    pub fn as_str(&self) -> (r: &'static str)
        ensures
            r@ == scope_name(*self),
    {
        match self {
            JobScope::UserAgent => "user-agent",
            JobScope::GlobalAgent => "global-agent",
            JobScope::SystemDaemon => "system-daemon",
        }
    }
}

/// The launchd keys of a job's plist that the filters look at; `None` where the key is absent.
#[derive(Debug, Clone, Copy, PartialEq, Eq, Structural)]
pub struct JobMetadata {
    pub run_at_load: Option<bool>,
    pub keep_alive: Option<bool>,
    pub disabled: Option<bool>,
}

impl Default for JobMetadata {
    fn default() -> (r: Self)
        ensures
            r.run_at_load is None && r.keep_alive is None && r.disabled is None,
    {
        JobMetadata { run_at_load: None, keep_alive: None, disabled: None }
    }
}

/// What the app may do with a job, with the reason where it may not.
#[derive(Debug, Clone, PartialEq, Eq)]
pub struct JobCapabilities {
    pub can_trigger: bool,
    pub can_delete: bool,
    pub trigger_reason: Option<String>,
    pub delete_reason: Option<String>,
}

impl JobCapabilities {
    pub fn duplicate(&self) -> (r: Self)
        ensures
            r == *self,
    {
        JobCapabilities {
            can_trigger: self.can_trigger,
            can_delete: self.can_delete,
            trigger_reason: clone_opt_string(&self.trigger_reason),
            delete_reason: clone_opt_string(&self.delete_reason),
        }
    }
}

/// One launchd job as the app lists it.
#[derive(Debug, Clone, PartialEq, Eq)]
pub struct JobSummary {
    pub id: String,
    pub label: String,
    pub path: String,
    pub scope: JobScope,
    pub status: JobStatus,
    pub is_starred: bool,
    pub metadata: JobMetadata,
    pub capabilities: JobCapabilities,
    pub error: Option<String>,
}

/// The line the job list shows for a job.
pub open spec fn list_line_of(job: JobSummary) -> Seq<char> {
    (if job.is_starred {
        "★ "@
    } else {
        Seq::<char>::empty()
    }) + job.label@ + "  |  "@ + scope_name(job.scope) + "  |  "@ + status_name(job.status)
}

impl JobSummary {
    pub fn duplicate(&self) -> (r: Self)
        ensures
            r == *self,
    {
        JobSummary {
            id: self.id.clone(),
            label: self.label.clone(),
            path: self.path.clone(),
            scope: self.scope,
            status: self.status,
            is_starred: self.is_starred,
            metadata: self.metadata,
            capabilities: self.capabilities.duplicate(),
            error: clone_opt_string(&self.error),
        }
    }

    pub fn status_text(&self) -> (r: &'static str)
        ensures
            r@ == status_name(self.status),
    {
        self.status.as_str()
    }

    pub fn list_line(&self) -> (r: String)
        ensures
            r@ == list_line_of(*self),
    {
        let mut v: Vec<char> = Vec::new();
        if self.is_starred {
            append_str(&mut v, "★ ");
        }
        append_str(&mut v, self.label.as_str());
        append_str(&mut v, "  |  ");
        append_str(&mut v, self.scope.as_str());
        append_str(&mut v, "  |  ");
        append_str(&mut v, self.status_text());
        proof {
            if !self.is_starred {
                assert(Seq::<char>::empty() + self.label@ == self.label@);
            }
        }
        from_chars(v.as_slice())
    }
}

/// The reason given when a system daemon is asked to change.
pub open spec fn daemon_read_only_reason() -> Seq<char> {
    "System daemons are read-only in this app"@
}

/// The reason given when the plist cannot be deleted for want of permissions.
pub open spec fn delete_permission_reason() -> Seq<char> {
    "Insufficient filesystem permissions for deleting this plist"@
}

/// The capabilities of a job of `scope` whose plist file and directory are writable
/// exactly when `delete_permitted`: system daemons are read-only; other jobs can be
/// triggered, and deleted where the filesystem permits it.
pub fn compute_capabilities(scope: &JobScope, delete_permitted: bool) -> (r: JobCapabilities)
    ensures
        *scope == JobScope::SystemDaemon ==> {
            &&& !r.can_trigger
            &&& !r.can_delete
            &&& r.trigger_reason matches Some(t) && t@ == daemon_read_only_reason()
            &&& r.delete_reason matches Some(d) && d@ == daemon_read_only_reason()
        },
        *scope != JobScope::SystemDaemon ==> {
            &&& r.can_trigger
            &&& r.can_delete == delete_permitted
            &&& r.trigger_reason is None
            &&& (delete_permitted ==> r.delete_reason is None)
            &&& (!delete_permitted ==> (r.delete_reason matches Some(d) && d@
                == delete_permission_reason()))
        },
{
    if *scope == JobScope::SystemDaemon {
        return JobCapabilities {
            can_trigger: false,
            can_delete: false,
            trigger_reason: Some(from_chars(to_chars("System daemons are read-only in this app").as_slice())),
            delete_reason: Some(from_chars(to_chars("System daemons are read-only in this app").as_slice())),
        };
    }
    JobCapabilities {
        can_trigger: true,
        can_delete: delete_permitted,
        trigger_reason: None,
        delete_reason: if delete_permitted {
            None
        } else {
            Some(
                from_chars(
                    to_chars("Insufficient filesystem permissions for deleting this plist").as_slice(),
                ),
            )
        },
    }
}


/// Whether job `a` goes before job `b` in the list: by label, and with `starred_first`
/// every starred job before every other.
pub open spec fn job_before(a: JobSummary, b: JobSummary, starred_first: bool) -> bool {
    if starred_first && a.is_starred != b.is_starred {
        a.is_starred
    } else {
        seq_lt(a.label@, b.label@)
    }
}

/// No job is listed after one that should follow it.
pub open spec fn jobs_sorted(s: Seq<JobSummary>, starred_first: bool) -> bool {
    forall|i: int, j: int|
        0 <= i < j < s.len() ==> !job_before(#[trigger] s[j], #[trigger] s[i], starred_first)
}

proof fn lemma_job_before_asymmetric(a: JobSummary, b: JobSummary, sf: bool)
    ensures
        !(job_before(a, b, sf) && job_before(b, a, sf)),
{
    lemma_seq_lt_asymmetric(a.label@, b.label@);
}

proof fn lemma_job_before_transitive(a: JobSummary, b: JobSummary, c: JobSummary, sf: bool)
    requires
        job_before(a, b, sf),
        job_before(b, c, sf),
    ensures
        job_before(a, c, sf),
{
    if !(sf && (a.is_starred != b.is_starred || b.is_starred != c.is_starred)) {
        lemma_seq_lt_transitive(a.label@, b.label@, c.label@);
    }
}

fn goes_before(a: &JobSummary, b: &JobSummary, starred_first: bool) -> (r: bool)
    ensures
        r == job_before(*a, *b, starred_first),
{
    if starred_first && a.is_starred != b.is_starred {
        a.is_starred
    } else {
        let x = to_chars(a.label.as_str());
        let y = to_chars(b.label.as_str());
        compare_chars(&x, &y) < 0
    }
}

/// Neither job goes before the other: they share the label, and with `starred_first`
/// the star too.
pub open spec fn same_place(a: JobSummary, b: JobSummary, starred_first: bool) -> bool {
    !job_before(a, b, starred_first) && !job_before(b, a, starred_first)
}

/// `r` holds the jobs at positions `from` of `jobs`, each position once, and jobs that
/// share a place keep the order they had.
pub open spec fn stably_taken(
    r: Seq<JobSummary>,
    jobs: Seq<JobSummary>,
    from: Seq<int>,
    starred_first: bool,
) -> bool {
    &&& from.len() == r.len()
    &&& forall|k: int| 0 <= k < r.len() ==> 0 <= #[trigger] from[k] < jobs.len() && r[k] == jobs[from[k]]
    &&& forall|a: int, b: int| 0 <= a < b < r.len() ==> #[trigger] from[a] != #[trigger] from[b]
    &&& forall|a: int, b: int|
        0 <= a < b < r.len() && same_place(#[trigger] r[a], #[trigger] r[b], starred_first)
            ==> from[a] < from[b]
}

proof fn lemma_same_place_before(x: JobSummary, y: JobSummary, z: JobSummary, sf: bool)
    requires
        same_place(x, y, sf),
        job_before(x, z, sf),
    ensures
        job_before(y, z, sf),
{
    lemma_seq_lt_total(x.label@, y.label@);
}

/// Sorts jobs by label, with `starred_first` the starred ones first; the result holds
/// the same jobs, and jobs that share a place keep their order.
pub fn sort_jobs(jobs: &Vec<JobSummary>, starred_first: bool) -> (r: Vec<JobSummary>)
    ensures
        r@.to_multiset() == jobs@.to_multiset(),
        jobs_sorted(r@, starred_first),
        exists|from: Seq<int>| #[trigger] stably_taken(r@, jobs@, from, starred_first),
{
    broadcast use vstd::seq_lib::to_multiset_insert;

    let mut r: Vec<JobSummary> = Vec::new();
    let mut i: usize = 0;
    let ghost mut from: Seq<int> = Seq::empty();
    assert(jobs@.subrange(0, 0) =~= r@);
    while i < jobs.len()
        invariant
            i <= jobs.len(),
            r@.to_multiset() == jobs@.subrange(0, i as int).to_multiset(),
            jobs_sorted(r@, starred_first),
            stably_taken(r@, jobs@, from, starred_first),
            forall|k: int| 0 <= k < from.len() ==> #[trigger] from[k] < i,
        decreases jobs.len() - i,
    {
        let x = jobs[i].duplicate();
        let mut p: usize = 0;
        while p < r.len() && !goes_before(&x, &r[p], starred_first)
            invariant
                p <= r.len(),
                forall|j: int| 0 <= j < p ==> !job_before(x, #[trigger] r@[j], starred_first),
            decreases r.len() - p,
        {
            p = p + 1;
        }
        let ghost old_r = r@;
        let ghost old_from = from;
        r.insert(p, x);
        proof {
            from = old_from.insert(p as int, i as int);
            assert(r@ == old_r.insert(p as int, x));
            assert(x == jobs@[i as int]);
            assert forall|k: int| 0 <= k < r@.len() implies 0 <= #[trigger] from[k] < jobs@.len()
                && r@[k] == jobs@[from[k]] && from[k] < i + 1 by {
                if k < p {
                    assert(from[k] == old_from[k] && r@[k] == old_r[k]);
                } else if k > p {
                    assert(from[k] == old_from[k - 1] && r@[k] == old_r[k - 1]);
                }
            }
            assert forall|a: int, b: int| 0 <= a < b < r@.len() implies #[trigger] from[a]
                != #[trigger] from[b] by {
                if a != p && b != p {
                    let a0 = if a < p { a } else { a - 1 };
                    let b0 = if b < p { b } else { b - 1 };
                    assert(from[a] == old_from[a0] && from[b] == old_from[b0]);
                } else if a == p {
                    assert(from[b] == old_from[b - 1]);
                } else {
                    assert(from[a] == old_from[a]);
                }
            }
            assert forall|a: int, b: int|
                0 <= a < b < r@.len() && same_place(#[trigger] r@[a], #[trigger] r@[b], starred_first)
                implies from[a] < from[b] by {
                if a != p && b != p {
                    let a0 = if a < p { a } else { a - 1 };
                    let b0 = if b < p { b } else { b - 1 };
                    assert(from[a] == old_from[a0] && from[b] == old_from[b0]);
                    assert(r@[a] == old_r[a0] && r@[b] == old_r[b0]);
                } else if b == p {
                    assert(from[a] == old_from[a]);
                } else {
                    assert(r@[b] == old_r[b - 1]);
                    assert(p < old_r.len());
                    assert(job_before(x, old_r[p as int], starred_first));
                    lemma_same_place_before(x, old_r[b - 1], old_r[p as int], starred_first);
                    assert(false);
                }
            }
            assert(stably_taken(r@, jobs@, from, starred_first));
        }
        proof {
            assert(r@ == old_r.insert(p as int, x));
            assert(jobs@.subrange(0, i + 1) =~= jobs@.subrange(0, i as int).push(jobs@[i as int]));
            vstd::seq_lib::to_multiset_build(jobs@.subrange(0, i as int), jobs@[i as int]);
            vstd::seq_lib::to_multiset_insert(old_r, p as int, x);
            assert(x == jobs@[i as int]);
            assert forall|a: int, b: int| 0 <= a < b < r@.len() implies !job_before(
                #[trigger] r@[b],
                #[trigger] r@[a],
                starred_first,
            ) by {
                if a < p && b < p {
                    assert(r@[a] == old_r[a] && r@[b] == old_r[b]);
                } else if a < p && b == p {
                    assert(r@[a] == old_r[a]);
                } else if a < p {
                    assert(r@[a] == old_r[a] && r@[b] == old_r[b - 1]);
                } else if a == p {
                    assert(r@[b] == old_r[b - 1]);
                    lemma_job_before_asymmetric(old_r[p as int], x, starred_first);
                    if b - 1 > p && job_before(old_r[b - 1], x, starred_first) {
                        lemma_job_before_transitive(old_r[b - 1], x, old_r[p as int], starred_first);
                    }
                } else {
                    assert(r@[a] == old_r[a - 1] && r@[b] == old_r[b - 1]);
                }
            }
        }
        i = i + 1;
    }
    assert(jobs@.subrange(0, jobs.len() as int) == jobs@);
    assert(stably_taken(r@, jobs@, from, starred_first));
    r
}


/// A job's service target is its scope's domain, a slash and its label: `gui/<uid>` for
/// both kinds of agent (user and global), `system` for a system daemon.
pub proof fn lemma_target_in_scope_domain(scope: JobScope, uid: nat, label: Seq<char>)
    ensures
        target_for(scope, uid, label) == bootout_domain_for(scope, uid) + "/"@ + label,
        scope != JobScope::SystemDaemon ==> bootout_domain_for(scope, uid) == "gui/"@ + decimal(uid)
            && target_for(scope, uid, label) == "gui/"@ + decimal(uid) + "/"@ + label,
        scope == JobScope::SystemDaemon ==> bootout_domain_for(scope, uid) == "system"@
            && target_for(scope, uid, label) == "system/"@ + label,
{
    reveal_strlit("system");
    reveal_strlit("system/");
    reveal_strlit("/");
    assert("system/"@ =~= "system"@ + "/"@);
    assert(("system"@ + "/"@) + label =~= "system"@ + ("/"@ + label));
    assert(("gui/"@ + decimal(uid)) + "/"@ + label =~= "gui/"@ + decimal(uid) + "/"@ + label);
}

} // verus!
