use crate::adapter::fs_scan::ScannedFile;
use crate::adapter::launchctl::{
    entry_is_running, list_rows, parse_list_output, row_running, LaunchctlClient, ListEntry,
    ListEntryView,
};
use crate::adapter::plist_reader::{PlistReader, PlistSummary};
use crate::domain::job::{
    compute_capabilities, jobs_sorted, sort_jobs, JobCapabilities, JobMetadata, JobScope,
    JobSummary,
};
use crate::domain::job_detail::JobRuntimeDetails;
use crate::domain::status::JobStatus;
use crate::error::{AppError, AppResult};
use crate::path::{file_stem, path_file_stem};
use crate::text::{
    eq_str, from_chars, lines, lines_chars, slice_chars, starts_with, starts_with_str, to_chars,
    trim, trim_chars, views,
};
use std::sync::Arc;
use vstd::prelude::*;

verus! {

/// The label a job gets when its plist names none: the file name without extension.
pub open spec fn fallback_label_of(path: Seq<char>) -> Seq<char> {
    match path_file_stem(path) {
        Some(s) => s,
        None => "unknown-label"@,
    }
}

pub fn fallback_label(path: &str) -> (r: String)
    ensures
        r@ == fallback_label_of(path@),
{
    match file_stem(path) {
        Some(s) => s,
        None => from_chars(to_chars("unknown-label").as_slice()),
    }
}

/// The first `launchctl list` row for a label.
pub open spec fn row_for(rows: Seq<ListEntryView>, label: Seq<char>) -> Option<ListEntryView>
    decreases rows.len(),
{
    if rows.len() == 0 {
        None
    } else if rows[0].label == label {
        Some(rows[0])
    } else {
        row_for(rows.drop_first(), label)
    }
}

/// The status of a job from its `launchctl list` row and its plist's `Disabled` key:
/// running where the row shows a pid, disabled where the plist says so, loaded where
/// launchctl lists it, unknown otherwise.
pub open spec fn listed_status(row: Option<ListEntryView>, disabled: Option<bool>) -> JobStatus {
    match row {
        Some(r) if row_running(r) => JobStatus::Running,
        _ => if disabled == Some(true) {
            JobStatus::Disabled
        } else if row is Some {
            JobStatus::Loaded
        } else {
            JobStatus::Unknown
        },
    }
}

pub open spec fn list_views(v: Seq<ListEntry>) -> Seq<ListEntryView> {
    v.map_values(|e: ListEntry| e@)
}

fn find_row<'a>(rows: &'a Vec<ListEntry>, label: &str) -> (r: Option<&'a ListEntry>)
    ensures
        r matches Some(e) ==> row_for(list_views(rows@), label@) == Some(e@),
        r is None ==> row_for(list_views(rows@), label@) is None,
{
    let ghost all = list_views(rows@);
    let mut i: usize = 0;
    assert(all.subrange(0, all.len() as int) == all);
    while i < rows.len()
        invariant
            i <= rows.len(),
            all == list_views(rows@),
            row_for(all, label@) == row_for(all.subrange(i as int, all.len() as int), label@),
        decreases rows.len() - i,
    {
        let ghost rest = all.subrange(i as int, all.len() as int);
        assert(rest.drop_first() == all.subrange(i + 1, all.len() as int));
        assert(rest[0] == rows@[i as int]@);
        let l = to_chars(rows[i].label.as_str());
        if eq_str(&l, label) {
            return Some(&rows[i]);
        }
        i = i + 1;
    }
    None
}

pub fn status_from_list(rows: &Vec<ListEntry>, label: &str, disabled: Option<bool>) -> (r:
    JobStatus)
    ensures
        r == listed_status(row_for(list_views(rows@), label@), disabled),
{
    match find_row(rows, label) {
        Some(e) => if entry_is_running(e) {
            JobStatus::Running
        } else if disabled == Some(true) {
            JobStatus::Disabled
        } else {
            JobStatus::Loaded
        },
        None => if disabled == Some(true) {
            JobStatus::Disabled
        } else {
            JobStatus::Unknown
        },
    }
}

/// The list entry for a scanned plist, given what reading its summary gave and the
/// rows of `launchctl list`: where the plist could not be read, the error message, the
/// fallback label and unknown status; else its label (or the fallback), its flags, and
/// the status the list gives.
pub open spec fn job_matches_scan(
    job: JobSummary,
    file: ScannedFile,
    summary: AppResult<PlistSummary>,
    rows: Seq<ListEntryView>,
) -> bool {
    &&& job.id@ == file.path@
    &&& job.path@ == file.path@
    &&& job.scope == file.scope
    &&& !job.is_starred
    &&& job.capabilities.can_trigger == (file.scope != JobScope::SystemDaemon)
    &&& job.capabilities.can_delete == (file.scope != JobScope::SystemDaemon
        && file.delete_permitted)
    &&& match summary {
        Err(e) => {
            &&& job.label@ == fallback_label_of(file.path@)
            &&& job.status == JobStatus::Unknown
            &&& job.metadata == JobMetadata { run_at_load: None, keep_alive: None, disabled: None }
            &&& job.error matches Some(m) && m@ == crate::error::error_message(e)
        },
        Ok(s) => {
            &&& job.label@ == (match s.label {
                Some(l) => l@,
                None => fallback_label_of(file.path@),
            })
            &&& job.metadata == JobMetadata {
                run_at_load: s.run_at_load,
                keep_alive: s.keep_alive,
                disabled: s.disabled,
            }
            &&& job.status == listed_status(row_for(rows, job.label@), s.disabled)
            &&& job.error is None
        },
    }
}

pub fn job_from_scan(
    file: &ScannedFile,
    summary: AppResult<PlistSummary>,
    rows: &Vec<ListEntry>,
) -> (r: JobSummary)
    ensures
        job_matches_scan(r, *file, summary, list_views(rows@)),
{
    let ghost s0 = summary;
    let capabilities = compute_capabilities(&file.scope, file.delete_permitted);
    match summary {
        Err(e) => {
            let message = e.message();
            JobSummary {
                id: file.path.clone(),
                label: fallback_label(file.path.as_str()),
                path: file.path.clone(),
                scope: file.scope,
                status: JobStatus::Unknown,
                is_starred: false,
                metadata: JobMetadata { run_at_load: None, keep_alive: None, disabled: None },
                capabilities,
                error: Some(message),
            }
        },
        Ok(s) => {
            let label = match s.label {
                Some(l) => l,
                None => fallback_label(file.path.as_str()),
            };
            let status = status_from_list(rows, label.as_str(), s.disabled);
            JobSummary {
                id: file.path.clone(),
                label,
                path: file.path.clone(),
                scope: file.scope,
                status,
                is_starred: false,
                metadata: JobMetadata {
                    run_at_load: s.run_at_load,
                    keep_alive: s.keep_alive,
                    disabled: s.disabled,
                },
                capabilities,
                error: None,
            }
        },
    }
}

/// The value of the first line that, trimmed, starts with `prefix`: what follows the
/// prefix, trimmed.
pub open spec fn first_field(ls: Seq<Seq<char>>, prefix: Seq<char>) -> Option<Seq<char>>
    decreases ls.len(),
{
    if ls.len() == 0 {
        None
    } else {
        let t = trim(ls[0]);
        if starts_with(t, prefix) {
            Some(trim(t.subrange(prefix.len() as int, t.len() as int)))
        } else {
            first_field(ls.drop_first(), prefix)
        }
    }
}

fn find_field(ls: &Vec<Vec<char>>, prefix: &str) -> (r: Option<String>)
    ensures
        r matches Some(s) ==> first_field(views(ls@), prefix@) == Some(s@),
        r is None ==> first_field(views(ls@), prefix@) is None,
{
    let ghost all = views(ls@);
    let p = to_chars(prefix);
    let mut i: usize = 0;
    assert(all.subrange(0, all.len() as int) == all);
    while i < ls.len()
        invariant
            i <= ls.len(),
            all == views(ls@),
            p@ == prefix@,
            first_field(all, prefix@) == first_field(all.subrange(i as int, all.len() as int), prefix@),
        decreases ls.len() - i,
    {
        let ghost rest = all.subrange(i as int, all.len() as int);
        assert(rest.drop_first() == all.subrange(i + 1, all.len() as int));
        assert(rest[0] == ls@[i as int]@);
        let t = trim_chars(&ls[i]);
        if crate::text::starts_with_chars(&t, &p) {
            let v = slice_chars(&t, p.len(), t.len());
            let tv = trim_chars(&v);
            return Some(from_chars(tv.as_slice()));
        }
        i = i + 1;
    }
    None
}

/// What `launchctl print` output tells of a job: the `pid`, `last exit code` and
/// `last run` fields, each at its first occurrence.
pub open spec fn runtime_fields(output: Seq<char>) -> (
    Option<Seq<char>>,
    Option<Seq<char>>,
    Option<Seq<char>>,
) {
    let ls = lines(output);
    (
        first_field(ls, "pid = "@),
        first_field(ls, "last exit code = "@),
        first_field(ls, "last run = "@),
    )
}

pub open spec fn opt_view(o: Option<String>) -> Option<Seq<char>> {
    match o {
        Some(s) => Some(s@),
        None => None,
    }
}

pub fn parse_runtime_details(output: &str) -> (r: JobRuntimeDetails)
    ensures
        (opt_view(r.pid), opt_view(r.last_exit_status), opt_view(r.last_run)) == runtime_fields(
            output@,
        ),
        r.raw_hint is None,
{
    let ls = lines_chars(&to_chars(output));
    let pid = find_field(&ls, "pid = ");
    let last_exit_status = find_field(&ls, "last exit code = ");
    let last_run = find_field(&ls, "last run = ");
    JobRuntimeDetails { pid, last_exit_status, last_run, raw_hint: None }
}

/// The rows that a `launchctl list` outcome gives: those of its output, or none where it
/// failed.
pub open spec fn rows_of_listing(listed: AppResult<String>) -> Seq<ListEntryView> {
    match listed {
        Ok(output) => list_rows(lines(output@)),
        Err(_) => Seq::empty(),
    }
}

/// Details read from some `launchctl print` output: its `pid`, `last exit code` and
/// `last run` fields, and no hint.
pub open spec fn details_from_print(d: JobRuntimeDetails) -> bool {
    &&& d.raw_hint is None
    &&& exists|output: Seq<char>|
        (opt_view(d.pid), opt_view(d.last_exit_status), opt_view(d.last_run)) == #[trigger] runtime_fields(
            output,
        )
}

/// The outcome of asking the client to print `target`: the details its output gives,
/// or its error.
pub open spec fn printed_details<L: LaunchctlClient>(
    client: &L,
    target: Seq<char>,
    r: AppResult<JobRuntimeDetails>,
) -> bool {
    exists|t: &str, printed: AppResult<String>|
        t@ == target && #[trigger] call_ensures(L::print, (client, t), printed) && match printed {
            Ok(output) => r matches Ok(d) && d.raw_hint is None && (
            opt_view(d.pid),
            opt_view(d.last_exit_status),
            opt_view(d.last_run),
            ) == runtime_fields(output@),
            Err(e) => r == Err::<JobRuntimeDetails, AppError>(e),
        }
}

/// `summary` is what the reader can return for the plist at `path`.
pub open spec fn summary_read<R: PlistReader>(
    reader: &R,
    path: Seq<char>,
    summary: AppResult<PlistSummary>,
) -> bool {
    exists|p: &str| p@ == path && #[trigger] call_ensures(R::read_summary, (reader, p), summary)
}

/// Lists jobs: reads each plist's summary and takes every status from one
/// `launchctl list`.
pub struct JobService<R: PlistReader, L: LaunchctlClient> {
    plist_reader: Arc<R>,
    launchctl: Arc<L>,
    uid: u32,
}

impl<R: PlistReader, L: LaunchctlClient> JobService<R, L> {
    pub fn new(plist_reader: Arc<R>, launchctl: Arc<L>, uid: u32) -> (r: Self)
        ensures
            r.uid() == uid,
    {
        JobService { plist_reader, launchctl, uid }
    }

    pub closed spec fn uid(&self) -> u32 {
        self.uid
    }

    /// The reader of plist summaries.
    pub closed spec fn plist_reader(&self) -> Arc<R> {
        self.plist_reader
    }

    /// The client that statuses and details are asked of.
    pub closed spec fn launchctl(&self) -> Arc<L> {
        self.launchctl
    }

    /// The jobs listed for the scanned files: one per file, sorted by label, each made by
    /// `job_from_scan` from what the reader gave for its plist and the rows of one
    /// `launchctl list` call.
    pub open spec fn jobs_listed(service: Self, files: Seq<ScannedFile>, jobs: Seq<JobSummary>) -> bool {
        jobs.len() == files.len() && jobs_sorted(jobs, false)
                && exists|
                listed: AppResult<String>,
                made: Seq<JobSummary>,
                summaries: Seq<AppResult<PlistSummary>>,
            |
                #![trigger rows_of_listing(listed), made.to_multiset(), summaries.len()]
                call_ensures(L::list, (&*service.launchctl(),), listed) && made.len() == files.len()
                    && summaries.len() == files.len() && jobs.to_multiset() == made.to_multiset()
                    && forall|i: int|
                    0 <= i < made.len() ==> job_matches_scan(
                        #[trigger] made[i],
                        files[i],
                        summaries[i],
                        rows_of_listing(listed),
                    ) && summary_read(&*service.plist_reader(), files[i].path@, summaries[i])
    }

    /// The jobs of the scanned plists, sorted by label. Each job is made from its file,
    /// the summary its plist gives and the rows of a single `launchctl list` call (none
    /// where that call fails), as `job_from_scan` states.
    pub fn list_jobs(&self, files: &Vec<ScannedFile>) -> (r: AppResult<Vec<JobSummary>>)
        ensures
            r matches Ok(jobs) && Self::jobs_listed(*self, files@, jobs@),
    {
        let listed = self.launchctl.list();
        assert(call_ensures(L::list, (&*self.launchctl(),), listed));
        let rows = match &listed {
            Ok(output) => parse_list_output(output.as_str()),
            Err(_) => Vec::new(),
        };
        assert(list_views(rows@) =~= rows_of_listing(listed));
        let mut jobs: Vec<JobSummary> = Vec::new();
        let ghost mut summaries: Seq<AppResult<PlistSummary>> = Seq::empty();
        let mut i: usize = 0;
        while i < files.len()
            invariant
                i <= files.len(),
                jobs.len() == i,
                summaries.len() == i,
                list_views(rows@) == rows_of_listing(listed),
                forall|k: int|
                    0 <= k < i ==> job_matches_scan(
                        #[trigger] jobs@[k],
                        files@[k],
                        summaries[k],
                        rows_of_listing(listed),
                    ) && summary_read(&*self.plist_reader(), files@[k].path@, summaries[k]),
            decreases files.len() - i,
        {
            let p = files[i].path.as_str();
            let summary = self.plist_reader.read_summary(p);
            assert(call_ensures(R::read_summary, (&*self.plist_reader(), p), summary));
            assert(summary_read(&*self.plist_reader(), files@[i as int].path@, summary));
            proof {
                summaries = summaries.push(summary);
            }
            let job = job_from_scan(&files[i], summary, &rows);
            jobs.push(job);
            i = i + 1;
        }
        let sorted = sort_jobs(&jobs, false);
        proof {
            vstd::seq_lib::to_multiset_len(jobs@);
            vstd::seq_lib::to_multiset_len(sorted@);
        }
        assert(summaries.len() == files@.len() && sorted@.to_multiset() == jobs@.to_multiset()
            && rows_of_listing(listed) == rows_of_listing(listed));
        assert(call_ensures(L::list, (&*self.launchctl(),), listed) && jobs@.len() == files@.len()
            && summaries.len() == files@.len() && sorted@.to_multiset() == jobs@.to_multiset()
            && forall|i: int|
            0 <= i < jobs@.len() ==> job_matches_scan(
                #[trigger] jobs@[i],
                files@[i],
                summaries[i],
                rows_of_listing(listed),
            ) && summary_read(&*self.plist_reader(), files@[i].path@, summaries[i]));
        assert(Self::jobs_listed(*self, files@, sorted@));
        Ok(sorted)
    }

    /// The runtime details of a job, from `launchctl print` on its service target.
    pub fn fetch_job_details(&self, job: &JobSummary) -> (r: AppResult<JobRuntimeDetails>)
        ensures
            printed_details(
                &*self.launchctl(),
                crate::domain::job::target_for(job.scope, self.uid() as nat, job.label@),
                r,
            ),
    {
        let target = job.scope.target_for_label(self.uid, job.label.as_str());
        let t = target.as_str();
        let printed = self.launchctl.print(t);
        match printed {
            Ok(output) => {
                let d = parse_runtime_details(output.as_str());
                assert(call_ensures(L::print, (&*self.launchctl, t), Ok::<String, AppError>(output)));
                Ok(d)
            },
            Err(e) => {
                assert(call_ensures(L::print, (&*self.launchctl, t), Err::<String, AppError>(e)));
                Err(e)
            },
        }
    }
}

} // verus!
