use crate::adapter::fs_ops::FsOps;
use crate::adapter::launchctl::{bootout_ignorable_text, is_bootout_ignorable_error, LaunchctlClient};
use crate::domain::job::JobSummary;
use crate::error::{validation, AppError, AppResult};
use crate::text::{contains, lower};
use std::sync::Arc;
use vstd::prelude::*;

verus! {

/// Whether the outcome of `bootout` lets the deletion go on: it succeeded, or it failed
/// because the service was not loaded.
pub open spec fn bootout_permits_removal(outcome: AppResult<()>) -> bool {
    match outcome {
        Ok(_) => true,
        Err(AppError::CommandFailed { stderr, .. }) => bootout_ignorable_text(stderr@),
        Err(_) => false,
    }
}

pub fn bootout_allows_removal(outcome: &AppResult<()>) -> (r: bool)
    ensures
        r == bootout_permits_removal(*outcome),
{
    match outcome {
        Ok(_) => true,
        Err(AppError::CommandFailed { stderr, .. }) => is_bootout_ignorable_error(stderr.as_str()),
        Err(_) => false,
    }
}

/// The reason a deletion is refused when the job cannot be deleted.
pub open spec fn delete_refusal(job: JobSummary) -> Seq<char> {
    match job.capabilities.delete_reason {
        Some(r) => r@,
        None => "Delete is disabled for this job"@,
    }
}

/// The client booted the job at `path` out of `domain` with the outcome `booted`; where
/// that lets the deletion go on, the result is the file's removal, else it is `booted`.
pub open spec fn deleted_after_bootout<L: LaunchctlClient, F: FsOps>(
    launchctl: &L,
    fs_ops: &F,
    domain: &str,
    path: &str,
    booted: AppResult<()>,
    r: AppResult<()>,
) -> bool {
    &&& call_ensures(L::bootout, (launchctl, domain, path), booted)
    &&& if bootout_permits_removal(booted) {
        call_ensures(F::remove_file, (fs_ops, path), r)
    } else {
        r == booted
    }
}

/// What deleting `job` through `service` gives: refused, with nothing run, where the job
/// cannot be deleted; otherwise the outcome of booting it out of its scope's domain and then
/// removing its plist.
pub open spec fn deleted<L: LaunchctlClient, F: FsOps>(
    service: DeleteService<L, F>,
    job: JobSummary,
    r: AppResult<()>,
) -> bool {
    &&& (!job.capabilities.can_delete ==> (r matches Err(AppError::Validation(m)) && m@
        == delete_refusal(job)))
    &&& (job.capabilities.can_delete ==> exists|d: &str, p: &str, booted: AppResult<()>|
        d@ == crate::domain::job::bootout_domain_for(job.scope, service.uid() as nat) && p@
            == job.path@ && #[trigger] deleted_after_bootout(
            &*service.launchctl(),
            &*service.fs_ops(),
            d,
            p,
            booted,
            r,
        ))
}

/// Deletes jobs: boots the job out of launchd, then removes its plist.
pub struct DeleteService<L: LaunchctlClient, F: FsOps> {
    launchctl: Arc<L>,
    fs_ops: Arc<F>,
    uid: u32,
}

impl<L: LaunchctlClient, F: FsOps> DeleteService<L, F> {
    pub fn new(launchctl: Arc<L>, fs_ops: Arc<F>, uid: u32) -> (r: Self)
        ensures
            r.uid() == uid,
    {
        DeleteService { launchctl, fs_ops, uid }
    }

    pub closed spec fn uid(&self) -> u32 {
        self.uid
    }

    /// Refused, with nothing run, where the job cannot be deleted. Otherwise the job is
    /// booted out of its domain; where that fails for another reason than the service not
    /// being loaded, its error is returned and the file stays; else the file is removed
    /// and the removal's result returned.
    pub fn delete(&self, job: &JobSummary) -> (r: AppResult<()>)
        ensures
            !job.capabilities.can_delete ==> (r matches Err(AppError::Validation(m)) && m@
                == delete_refusal(*job)),
            job.capabilities.can_delete ==> exists|d: &str, p: &str, booted: AppResult<()>|
                d@ == crate::domain::job::bootout_domain_for(job.scope, self.uid() as nat) && p@
                    == job.path@ && #[trigger] deleted_after_bootout(
                    &*self.launchctl(),
                    &*self.fs_ops(),
                    d,
                    p,
                    booted,
                    r,
                ),
            deleted(*self, *job, r),
    {
        if !job.capabilities.can_delete {
            return match &job.capabilities.delete_reason {
                Some(reason) => Err(AppError::Validation(reason.clone())),
                None => Err(validation("Delete is disabled for this job")),
            };
        }
        let domain = job.scope.bootout_domain(self.uid);
        let d = domain.as_str();
        let p = job.path.as_str();
        let outcome = self.launchctl.bootout(d, p);
        assert(call_ensures(L::bootout, (&*self.launchctl(), d, p), outcome));
        if !bootout_allows_removal(&outcome) {
            assert(deleted_after_bootout(&*self.launchctl(), &*self.fs_ops(), d, p, outcome, outcome));
            return outcome;
        }
        let r = self.fs_ops.remove_file(p);
        assert(call_ensures(F::remove_file, (&*self.fs_ops(), p), r));
        assert(deleted_after_bootout(&*self.launchctl(), &*self.fs_ops(), d, p, outcome, r));
        r
    }

    /// The client that boots jobs out.
    pub closed spec fn launchctl(&self) -> Arc<L> {
        self.launchctl
    }

    /// What removes plist files.
    pub closed spec fn fs_ops(&self) -> Arc<F> {
        self.fs_ops
    }
}


/// When the bootout fails because the job is not loaded (its message, in any case, says the
/// service could not be found, was not found, has no such process or is not loaded), the
/// deletion goes on: its result is the plist's removal. A bootout that fails otherwise is
/// the result, and the file is left.
pub proof fn lemma_delete_after_not_loaded_bootout<L: LaunchctlClient, F: FsOps>(
    launchctl: &L,
    fs_ops: &F,
    domain: &str,
    path: &str,
    command: String,
    stderr: String,
    r: AppResult<()>,
)
    requires
        deleted_after_bootout(
            launchctl,
            fs_ops,
            domain,
            path,
            Err(AppError::CommandFailed { command, stderr }),
            r,
        ),
    ensures
        contains(lower(stderr@), "could not find service"@) || contains(
            lower(stderr@),
            "service not found"@,
        ) || contains(lower(stderr@), "no such process"@) || contains(
            lower(stderr@),
            "not loaded"@,
        ) ==> call_ensures(F::remove_file, (fs_ops, path), r),
        !(contains(lower(stderr@), "could not find service"@) || contains(
            lower(stderr@),
            "service not found"@,
        ) || contains(lower(stderr@), "no such process"@) || contains(
            lower(stderr@),
            "not loaded"@,
        )) ==> r == Err::<(), AppError>(AppError::CommandFailed { command, stderr }),
{
    crate::adapter::launchctl::lemma_not_loaded_bootout_ignorable(stderr@);
}

} // verus!
