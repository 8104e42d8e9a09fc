//! Which jobs the list shows, and the texts that describe the active filters.
use crate::domain::filter::{filter_matches, badge_tokens_of, tri_badge, AdvancedFilter};
use crate::domain::job::{JobScope, JobSummary};
use crate::domain::status::{status_name, JobStatus};
use crate::text::{
    append_str, contains, contains_chars, eq_str, from_chars, join, lower, lower_chars,
    str_views, to_chars, trim, trim_chars,
};
use vstd::prelude::*;

verus! {

/// The scope a list can be narrowed to.
#[derive(Debug, Clone, Copy, PartialEq, Eq, Structural)]
pub enum ScopeFilter {
    UserAgent,
    GlobalAgent,
    SystemDaemon,
}

pub open spec fn scope_filter_label(f: ScopeFilter) -> Seq<char> {
    match f {
        ScopeFilter::UserAgent => "user-agent"@,
        ScopeFilter::GlobalAgent => "global-agent"@,
        ScopeFilter::SystemDaemon => "system-daemon"@,
    }
}

/// The scope filter that a control's value names; none for any other value.
pub open spec fn scope_filter_of(value: Seq<char>) -> Option<ScopeFilter> {
    if value == "user-agent"@ {
        Some(ScopeFilter::UserAgent)
    } else if value == "global-agent"@ {
        Some(ScopeFilter::GlobalAgent)
    } else if value == "system-daemon"@ {
        Some(ScopeFilter::SystemDaemon)
    } else {
        None
    }
}

pub open spec fn scope_filter_matches(f: ScopeFilter, scope: JobScope) -> bool {
    match f {
        ScopeFilter::UserAgent => scope == JobScope::UserAgent,
        ScopeFilter::GlobalAgent => scope == JobScope::GlobalAgent,
        ScopeFilter::SystemDaemon => scope == JobScope::SystemDaemon,
    }
}

impl ScopeFilter {
    pub fn from_ui_value(value: &str) -> (r: Option<Self>)
        ensures
            r == scope_filter_of(value@),
    {
        let v = to_chars(value);
        if eq_str(&v, "user-agent") {
            Some(ScopeFilter::UserAgent)
        } else if eq_str(&v, "global-agent") {
            Some(ScopeFilter::GlobalAgent)
        } else if eq_str(&v, "system-daemon") {
            Some(ScopeFilter::SystemDaemon)
        } else {
            None
        }
    }

    pub fn label(self) -> (r: &'static str)
        ensures
            r@ == scope_filter_label(self),
    {
        match self {
            ScopeFilter::UserAgent => "user-agent",
            ScopeFilter::GlobalAgent => "global-agent",
            ScopeFilter::SystemDaemon => "system-daemon",
        }
    }

    pub fn matches(self, scope: &JobScope) -> (r: bool)
        ensures
            r == scope_filter_matches(self, *scope),
    {
        match self {
            ScopeFilter::UserAgent => *scope == JobScope::UserAgent,
            ScopeFilter::GlobalAgent => *scope == JobScope::GlobalAgent,
            ScopeFilter::SystemDaemon => *scope == JobScope::SystemDaemon,
        }
    }
}

/// Whether the list shows a job: it is starred where only starred jobs are shown, its
/// scope and flags pass the filters, and a non-blank query occurs, in any case, in its
/// label or its path.
pub open spec fn job_shown(
    job: JobSummary,
    search_query: Seq<char>,
    scope_filter: Option<ScopeFilter>,
    advanced: AdvancedFilter,
    starred_only: bool,
) -> bool {
    let q = lower(trim(search_query));
    &&& !starred_only || job.is_starred
    &&& (scope_filter matches Some(f) ==> scope_filter_matches(f, job.scope))
    &&& filter_matches(advanced, job)
    &&& (q.len() > 0 ==> contains(lower(job.label@), q) || contains(lower(job.path@), q))
}

pub fn job_matches_filters(
    job: &JobSummary,
    search_query: &str,
    scope_filter: Option<ScopeFilter>,
    advanced_filter: &AdvancedFilter,
    starred_only: bool,
) -> (r: bool)
    ensures
        r == job_shown(*job, search_query@, scope_filter, *advanced_filter, starred_only),
{
    let scope_matches = match scope_filter {
        Some(f) => f.matches(&job.scope),
        None => true,
    };
    if starred_only && !job.is_starred {
        return false;
    }
    let q = lower_chars(&trim_chars(&to_chars(search_query)));
    if q.len() == 0 {
        return scope_matches && advanced_filter.matches(job);
    }
    let label_matches = contains_chars(&lower_chars(&to_chars(job.label.as_str())), &q);
    let path_matches = contains_chars(&lower_chars(&to_chars(job.path.as_str())), &q);
    scope_matches && advanced_filter.matches(job) && (label_matches || path_matches)
}

/// The positions of the jobs the list shows, in order.
pub open spec fn shown_indices(
    jobs: Seq<JobSummary>,
    search_query: Seq<char>,
    scope_filter: Option<ScopeFilter>,
    advanced: AdvancedFilter,
    starred_only: bool,
) -> Seq<usize>
    decreases jobs.len(),
{
    if jobs.len() == 0 {
        Seq::empty()
    } else {
        let rest = shown_indices(
            jobs.drop_last(),
            search_query,
            scope_filter,
            advanced,
            starred_only,
        );
        if job_shown(jobs.last(), search_query, scope_filter, advanced, starred_only) {
            rest.push((jobs.len() - 1) as usize)
        } else {
            rest
        }
    }
}

/// Every shown position is a job's position, in increasing order.
pub proof fn lemma_shown_indices_in_range(
    jobs: Seq<JobSummary>,
    q: Seq<char>,
    s: Option<ScopeFilter>,
    a: AdvancedFilter,
    st: bool,
)
    requires
        jobs.len() <= usize::MAX,
    ensures
        forall|k: int|
            0 <= k < shown_indices(jobs, q, s, a, st).len() ==> shown_indices(
                jobs,
                q,
                s,
                a,
                st,
            )[k] < jobs.len() && job_shown(
                jobs[shown_indices(jobs, q, s, a, st)[k] as int],
                q,
                s,
                a,
                st,
            ),
        forall|x: int, y: int|
            0 <= x < y < shown_indices(jobs, q, s, a, st).len() ==> #[trigger] shown_indices(
                jobs,
                q,
                s,
                a,
                st,
            )[x] < #[trigger] shown_indices(jobs, q, s, a, st)[y],
    decreases jobs.len(),
{
    if jobs.len() > 0 {
        let init = jobs.drop_last();
        lemma_shown_indices_in_range(init, q, s, a, st);
        let rest = shown_indices(init, q, s, a, st);
        let full = shown_indices(jobs, q, s, a, st);
        let last_shown = job_shown(jobs.last(), q, s, a, st);
        assert(full == (if last_shown {
            rest.push((jobs.len() - 1) as usize)
        } else {
            rest
        }));
        assert forall|k: int| 0 <= k < full.len() implies full[k] < jobs.len() && job_shown(
            jobs[full[k] as int],
            q,
            s,
            a,
            st,
        ) by {
            if k < rest.len() {
                assert(full[k] == rest[k]);
                assert(rest[k] < init.len() && job_shown(init[rest[k] as int], q, s, a, st));
                assert(jobs[rest[k] as int] == init[rest[k] as int]);
            } else {
                assert(last_shown);
                assert(full[k] == jobs.len() - 1);
                assert(jobs[jobs.len() - 1] == jobs.last());
            }
        }
        assert forall|x: int, y: int| 0 <= x < y < full.len() implies #[trigger] full[x]
            < #[trigger] full[y] by {
            if y < rest.len() {
                assert(full[x] == rest[x] && full[y] == rest[y]);
                assert(rest[x] < rest[y]);
            } else {
                assert(full[x] == rest[x]);
                assert(rest[x] < init.len());
            }
        }
    }
}

pub fn visible_job_indices(
    jobs: &Vec<JobSummary>,
    search_query: &str,
    scope_filter: Option<ScopeFilter>,
    advanced_filter: &AdvancedFilter,
    starred_only: bool,
) -> (r: Vec<usize>)
    ensures
        r@ == shown_indices(jobs@, search_query@, scope_filter, *advanced_filter, starred_only),
{
    let mut r: Vec<usize> = Vec::new();
    let mut i: usize = 0;
    while i < jobs.len()
        invariant
            i <= jobs.len(),
            r@ == shown_indices(
                jobs@.take(i as int),
                search_query@,
                scope_filter,
                *advanced_filter,
                starred_only,
            ),
        decreases jobs.len() - i,
    {
        assert(jobs@.take(i + 1).drop_last() =~= jobs@.take(i as int));
        assert(jobs@.take(i + 1).last() == jobs@[i as int]);
        if job_matches_filters(&jobs[i], search_query, scope_filter, advanced_filter, starred_only) {
            r.push(i);
        }
        i = i + 1;
    }
    assert(jobs@.take(jobs.len() as int) =~= jobs@);
    r
}

/// The status filter that a control's value names; none (any status) for other values.
pub open spec fn status_filter_of(value: Seq<char>) -> Option<JobStatus> {
    if value == "running"@ {
        Some(JobStatus::Running)
    } else if value == "loaded"@ {
        Some(JobStatus::Loaded)
    } else if value == "disabled"@ {
        Some(JobStatus::Disabled)
    } else if value == "unknown"@ {
        Some(JobStatus::Unknown)
    } else {
        None
    }
}

pub fn status_filter_from_value(value: &str) -> (r: Option<JobStatus>)
    ensures
        r == status_filter_of(value@),
{
    let v = to_chars(value);
    if eq_str(&v, "running") {
        Some(JobStatus::Running)
    } else if eq_str(&v, "loaded") {
        Some(JobStatus::Loaded)
    } else if eq_str(&v, "disabled") {
        Some(JobStatus::Disabled)
    } else if eq_str(&v, "unknown") {
        Some(JobStatus::Unknown)
    } else {
        None
    }
}

/// The summary of the active filters: the scope (or all scopes), the quoted query, the
/// starred mark and the advanced filter's tokens, joined by ` + `.
pub open spec fn filter_badge_text(
    scope_filter: Option<ScopeFilter>,
    search_query: Seq<char>,
    starred_only: bool,
    advanced: AdvancedFilter,
) -> Seq<char> {
    let scope = match scope_filter {
        Some(f) => scope_filter_label(f),
        None => "all scopes"@,
    };
    let a = seq![scope];
    let b = if search_query.len() > 0 {
        a.push("'"@ + search_query + "'"@)
    } else {
        a
    };
    let c = if starred_only {
        b.push("starred"@)
    } else {
        b
    };
    join(c + badge_tokens_of(advanced), " + "@)
}

fn push_string(v: &mut Vec<String>, s: String)
    ensures
        str_views(final(v)@) == str_views(old(v)@).push(s@),
{
    let ghost before = v@;
    v.push(s);
    proof {
        crate::text::lemma_str_views_push(before, s);
    }
}

pub fn filter_badge(
    scope_filter: Option<ScopeFilter>,
    search_query: &str,
    starred_only: bool,
    advanced: &AdvancedFilter,
) -> (r: String)
    ensures
        r@ == filter_badge_text(scope_filter, search_query@, starred_only, *advanced),
{
    let mut tokens: Vec<String> = Vec::new();
    assert(str_views(tokens@) =~= Seq::<Seq<char>>::empty());
    let scope = match scope_filter {
        Some(f) => f.label(),
        None => "all scopes",
    };
    push_string(&mut tokens, from_chars(to_chars(scope).as_slice()));
    if to_chars(search_query).len() > 0 {
        let mut q: Vec<char> = Vec::new();
        append_str(&mut q, "'");
        append_str(&mut q, search_query);
        append_str(&mut q, "'");
        push_string(&mut tokens, from_chars(q.as_slice()));
    }
    if starred_only {
        push_string(&mut tokens, from_chars(to_chars("starred").as_slice()));
    }
    let extra = advanced.badge_tokens();
    let ghost head = str_views(tokens@);
    let mut i: usize = 0;
    while i < extra.len()
        invariant
            i <= extra.len(),
            str_views(tokens@) == head + str_views(extra@).take(i as int),
        decreases extra.len() - i,
    {
        let t = from_chars(to_chars(extra[i].as_str()).as_slice());
        push_string(&mut tokens, t);
        assert(str_views(extra@).take(i + 1) =~= str_views(extra@).take(i as int).push(
            extra@[i as int]@,
        ));
        assert(head + str_views(extra@).take(i + 1) =~= (head + str_views(extra@).take(
            i as int,
        )).push(extra@[i as int]@));
        i = i + 1;
    }
    assert(str_views(extra@).take(extra.len() as int) =~= str_views(extra@));
    crate::text::join_strings(&tokens, " + ")
}

/// The captions of the advanced filter's controls.
pub open spec fn advanced_control_texts(f: AdvancedFilter) -> (
    Seq<char>,
    Seq<char>,
    Seq<char>,
    Seq<char>,
    Seq<char>,
) {
    (
        match f.status {
            Some(s) => "Status:"@ + status_name(s),
            None => "Status:any"@,
        },
        "Disabled:"@ + tri_badge(f.disabled),
        "RunAtLoad:"@ + tri_badge(f.run_at_load),
        "KeepAlive:"@ + tri_badge(f.keep_alive),
        "HasError:"@ + tri_badge(f.has_error),
    )
}

fn caption(prefix: &str, value: &str) -> (r: String)
    ensures
        r@ == prefix@ + value@,
{
    let mut v: Vec<char> = Vec::new();
    append_str(&mut v, prefix);
    append_str(&mut v, value);
    from_chars(v.as_slice())
}

pub fn advanced_filter_texts(f: &AdvancedFilter) -> (r: (String, String, String, String, String))
    ensures
        (r.0@, r.1@, r.2@, r.3@, r.4@) == advanced_control_texts(*f),
{
    let status = match f.status {
        Some(s) => caption("Status:", s.as_str()),
        None => from_chars(to_chars("Status:any").as_slice()),
    };
    (
        status,
        caption("Disabled:", f.disabled.as_badge()),
        caption("RunAtLoad:", f.run_at_load.as_badge()),
        caption("KeepAlive:", f.keep_alive.as_badge()),
        caption("HasError:", f.has_error.as_badge()),
    )
}

} // verus!
