//! Publishing jobs to the QuickLaunch menubar companion.
use crate::adapter::quicklaunch::{QuickLaunchAction, QuickLaunchItem, QuickLaunchProvider};
use crate::domain::job::{scope_name, JobScope, JobSummary};
use crate::domain::status::status_name;
use crate::error::{AppError, AppResult};
use crate::text::{append_str, from_chars, lower, lower_chars, to_chars, eq_str};
use std::sync::Arc;
use vstd::prelude::*;

verus! {

/// How the companion groups its items.
#[derive(Debug, Clone, Copy, PartialEq, Eq, Structural)]
pub enum QuickLaunchGroupBy {
    Scope,
    Status,
    StarredScope,
}

/// Which jobs are published, how many at most, and how they are grouped.
#[derive(Debug, Clone, Copy)]
pub struct QuickLaunchConfig {
    pub enabled: bool,
    pub starred_only: bool,
    pub max_items: usize,
    pub group_by: QuickLaunchGroupBy,
}

impl Default for QuickLaunchConfig {
    fn default() -> (r: Self)
        ensures
            !r.enabled && r.starred_only && r.max_items == 12 && r.group_by
                == QuickLaunchGroupBy::Scope,
    {
        QuickLaunchConfig {
            enabled: false,
            starred_only: true,
            max_items: 12,
            group_by: QuickLaunchGroupBy::Scope,
        }
    }
}

/// The grouping that a setting names, in any case: `status`, `starred-scope`, else by scope.
pub open spec fn group_by_of_value(value: Seq<char>) -> QuickLaunchGroupBy {
    if lower(value) == "status"@ {
        QuickLaunchGroupBy::Status
    } else if lower(value) == "starred-scope"@ {
        QuickLaunchGroupBy::StarredScope
    } else {
        QuickLaunchGroupBy::Scope
    }
}

/// The group of a job: its scope, its status, or whether it is starred with its scope.
pub open spec fn group_text(group_by: QuickLaunchGroupBy, job: JobSummary) -> Seq<char> {
    match group_by {
        QuickLaunchGroupBy::Scope => scope_name(job.scope),
        QuickLaunchGroupBy::Status => status_name(job.status),
        QuickLaunchGroupBy::StarredScope => (if job.is_starred {
            "starred"@
        } else {
            "plain"@
        }) + ":"@ + scope_name(job.scope),
    }
}

impl QuickLaunchGroupBy {
    pub fn from_env_value(value: &str) -> (r: Self)
        ensures
            r == group_by_of_value(value@),
    {
        let v = lower_chars(&to_chars(value));
        if eq_str(&v, "status") {
            QuickLaunchGroupBy::Status
        } else if eq_str(&v, "starred-scope") {
            QuickLaunchGroupBy::StarredScope
        } else {
            QuickLaunchGroupBy::Scope
        }
    }

    pub fn group_for_job(self, job: &JobSummary) -> (r: String)
        ensures
            r@ == group_text(self, *job),
    {
        match self {
            QuickLaunchGroupBy::Scope => from_chars(to_chars(job.scope.as_str()).as_slice()),
            QuickLaunchGroupBy::Status => from_chars(to_chars(job.status_text()).as_slice()),
            QuickLaunchGroupBy::StarredScope => {
                let mut v: Vec<char> = Vec::new();
                if job.is_starred {
                    append_str(&mut v, "starred");
                } else {
                    append_str(&mut v, "plain");
                }
                append_str(&mut v, ":");
                append_str(&mut v, job.scope.as_str());
                from_chars(v.as_slice())
            },
        }
    }
}

/// The jobs that may be published: all of them, or the starred ones, in order.
pub open spec fn eligible_jobs(jobs: Seq<JobSummary>, starred_only: bool) -> Seq<JobSummary>
    decreases jobs.len(),
{
    if jobs.len() == 0 {
        Seq::empty()
    } else {
        let rest = eligible_jobs(jobs.drop_last(), starred_only);
        if !starred_only || jobs.last().is_starred {
            rest.push(jobs.last())
        } else {
            rest
        }
    }
}

/// The jobs that are published: the first `max_items` of the eligible ones.
pub open spec fn published_jobs(jobs: Seq<JobSummary>, config: QuickLaunchConfig) -> Seq<
    JobSummary,
> {
    let e = eligible_jobs(jobs, config.starred_only);
    if e.len() <= config.max_items {
        e
    } else {
        e.take(config.max_items as int)
    }
}

/// The item that shows `job`: its id, `[scope] label` as title, its status, its group.
pub open spec fn item_shows(
    item: QuickLaunchItem,
    job: JobSummary,
    group_by: QuickLaunchGroupBy,
    now: u64,
) -> bool {
    &&& item.id@ == job.id@
    &&& item.title@ == "["@ + scope_name(job.scope) + "] "@ + job.label@
    &&& item.status@ == status_name(job.status)
    &&& item.group@ == group_text(group_by, job)
    &&& item.is_starred == job.is_starred
    &&& item.updated_at_unix_secs == now
}

/// Every published job is eligible: starred where only starred jobs are published.
pub proof fn lemma_eligible_only_starred(jobs: Seq<JobSummary>, starred_only: bool, k: int)
    requires
        0 <= k < eligible_jobs(jobs, starred_only).len(),
    ensures
        starred_only ==> eligible_jobs(jobs, starred_only)[k].is_starred,
        eligible_jobs(jobs, starred_only).len() <= jobs.len(),
    decreases jobs.len(),
{
    let rest = eligible_jobs(jobs.drop_last(), starred_only);
    if k < rest.len() {
        lemma_eligible_only_starred(jobs.drop_last(), starred_only, k);
    } else if rest.len() > 0 {
        lemma_eligible_only_starred(jobs.drop_last(), starred_only, 0);
    }
}

/// Calls `std::time::SystemTime::now` for the seconds since the Unix epoch (0 if the clock
/// is before it). Nothing is claimed of the result: it rests on the machine's clock.
#[verifier::external_body]
fn now_unix_secs() -> u64 {
    std::time::SystemTime::now().duration_since(std::time::UNIX_EPOCH).map(|d| d.as_secs()).unwrap_or(
        0,
    )
}

fn item_for(job: &JobSummary, group_by: QuickLaunchGroupBy, now: u64) -> (r: QuickLaunchItem)
    ensures
        item_shows(r, *job, group_by, now),
{
    let mut title: Vec<char> = Vec::new();
    append_str(&mut title, "[");
    append_str(&mut title, job.scope.as_str());
    append_str(&mut title, "] ");
    append_str(&mut title, job.label.as_str());
    QuickLaunchItem {
        id: from_chars(to_chars(job.id.as_str()).as_slice()),
        title: from_chars(title.as_slice()),
        status: from_chars(to_chars(job.status_text()).as_slice()),
        group: group_by.group_for_job(job),
        is_starred: job.is_starred,
        updated_at_unix_secs: now,
    }
}

/// The items show the published jobs, one each, in order, stamped with `now`.
pub open spec fn publishes(
    items: Seq<QuickLaunchItem>,
    jobs: Seq<JobSummary>,
    config: QuickLaunchConfig,
    now: u64,
) -> bool {
    &&& items.len() == published_jobs(jobs, config).len()
    &&& forall|k: int|
        0 <= k < items.len() ==> item_shows(
            #[trigger] items[k],
            published_jobs(jobs, config)[k],
            config.group_by,
            now,
        )
}

/// Publishes jobs to the QuickLaunch companion according to its configuration.
pub struct QuickLaunchService<P: QuickLaunchProvider> {
    provider: Arc<P>,
    config: QuickLaunchConfig,
}

impl<P: QuickLaunchProvider> QuickLaunchService<P> {
    pub fn new(provider: Arc<P>, config: QuickLaunchConfig) -> (r: Self)
        ensures
            r.config() == config,
    {
        QuickLaunchService { provider, config }
    }

    pub closed spec fn config(&self) -> QuickLaunchConfig {
        self.config
    }

    /// The items that show `jobs`, stamped with `now`: one per published job, in order.
    pub fn items_for_jobs(&self, jobs: &[JobSummary], now: u64) -> (r: Vec<QuickLaunchItem>)
        ensures
            r@.len() == published_jobs(jobs@, self.config()).len(),
            r@.len() <= self.config().max_items,
            forall|k: int|
                0 <= k < r@.len() ==> item_shows(
                    #[trigger] r@[k],
                    published_jobs(jobs@, self.config())[k],
                    self.config().group_by,
                    now,
                ),
            self.config().starred_only ==> forall|k: int|
                0 <= k < r@.len() ==> (#[trigger] r@[k]).is_starred,
    {
        let max = self.config.max_items;
        let starred_only = self.config.starred_only;
        let group_by = self.config.group_by;
        let mut items: Vec<QuickLaunchItem> = Vec::new();
        let mut i: usize = 0;
        while i < jobs.len()
            invariant
                i <= jobs.len(),
                max == self.config().max_items,
                starred_only == self.config().starred_only,
                group_by == self.config().group_by,
                items@.len() == (if eligible_jobs(jobs@.subrange(0, i as int), starred_only).len()
                    <= max {
                    eligible_jobs(jobs@.subrange(0, i as int), starred_only).len()
                } else {
                    max as nat
                }),
                forall|k: int|
                    0 <= k < items@.len() ==> item_shows(
                        #[trigger] items@[k],
                        eligible_jobs(jobs@.subrange(0, i as int), starred_only)[k],
                        group_by,
                        now,
                    ),
            decreases jobs.len() - i,
        {
            let ghost pre = jobs@.subrange(0, i as int);
            assert(jobs@.subrange(0, i + 1).drop_last() =~= pre);
            assert(jobs@.subrange(0, i + 1).last() == jobs@[i as int]);
            if !starred_only || jobs[i].is_starred {
                if items.len() < max {
                    let item = item_for(&jobs[i], group_by, now);
                    items.push(item);
                }
            }
            i = i + 1;
        }
        assert(jobs@.subrange(0, jobs.len() as int) =~= jobs@);
        proof {
            let e = eligible_jobs(jobs@, starred_only);
            assert forall|k: int| 0 <= k < items@.len() && starred_only implies (
            #[trigger] items@[k]).is_starred by {
                lemma_eligible_only_starred(jobs@, starred_only, k);
            }
        }
        items
    }

    /// What publishing `jobs` gives: nothing asked of the provider while QuickLaunch is
    /// off; otherwise the published items handed to the provider, stamped with some time,
    /// and the count of them, or the provider's refusal.
    pub open spec fn synced(service: Self, jobs: Seq<JobSummary>, r: AppResult<usize>) -> bool {
        &&& (!service.config().enabled ==> (r matches Ok(n) && n == 0))
        &&& (service.config().enabled ==> (r matches Ok(n) ==> n == published_jobs(
                jobs,
                service.config(),
            ).len()))
        &&& (r matches Ok(n) ==> n <= service.config().max_items)
        &&& (service.config().enabled ==> exists|now: u64, items: &[QuickLaunchItem], res: AppResult<()>|
                #![trigger call_ensures(P::sync_items, (&*service.provider(), items), res), publishes(items@, jobs, service.config(), now)]
                call_ensures(P::sync_items, (&*service.provider(), items), res)
                    && publishes(items@, jobs, service.config(), now) && match res {
                    Ok(_) => r == Ok::<usize, AppError>(items@.len() as usize),
                    Err(e) => r == Err::<usize, AppError>(e),
                })
    }

    /// Publishes the jobs when QuickLaunch is enabled and returns how many were published;
    /// when it is disabled nothing is published. A provider's refusal is handed back.
    pub fn sync_jobs(&self, jobs: &[JobSummary]) -> (r: AppResult<usize>)
        ensures
            Self::synced(*self, jobs@, r),
    {
        if !self.config.enabled {
            return Ok(0);
        }
        let now = now_unix_secs();
        let items = self.items_for_jobs(jobs, now);
        let shown = items.as_slice();
        let res = self.provider.sync_items(shown);
        assert(call_ensures(P::sync_items, (&*self.provider(), shown), res));
        assert(publishes(shown@, jobs@, self.config(), now));
        match res {
            Ok(_) => {
                let n = shown.len();
                assert(n == shown@.len());
                Ok(n)
            },
            Err(e) => Err(e),
        }
    }

    /// The actions queued by the companion since the last call.
    pub fn drain_actions(&self) -> (r: AppResult<Vec<QuickLaunchAction>>)
        ensures
            call_ensures(P::drain_actions, (&*self.provider(),), r),
    {
        self.provider.drain_actions()
    }

    /// Where the items are published.
    pub closed spec fn provider(&self) -> Arc<P> {
        self.provider
    }
}

} // verus!
