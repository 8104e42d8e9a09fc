use crate::text::{contains, contains_str, lower, lower_chars, to_chars, trim, trim_chars};
use vstd::prelude::*;

verus! {

/// The state of a launchd job as the app shows it.
#[derive(Debug, Clone, Copy, PartialEq, Eq, Structural)]
pub enum JobStatus {
    Running,
    Loaded,
    Disabled,
    Unknown,
}

/// The status that `launchctl print` output reports, read case-insensitively.
pub open spec fn status_of_output(output: Seq<char>) -> JobStatus {
    let n = lower(output);
    if contains(n, "state = running"@) || contains(n, "running = 1"@) || contains(
        n,
        "active count = 1"@,
    ) {
        JobStatus::Running
    } else if contains(n, "disabled = true"@) || contains(n, "is disabled"@) || contains(
        n,
        "disabled services"@,
    ) {
        JobStatus::Disabled
    } else if trim(n).len() == 0 {
        JobStatus::Unknown
    } else {
        JobStatus::Loaded
    }
}

/// The name the app gives a status.
pub open spec fn status_name(status: JobStatus) -> Seq<char> {
    match status {
        JobStatus::Running => "running"@,
        JobStatus::Loaded => "loaded"@,
        JobStatus::Disabled => "disabled"@,
        JobStatus::Unknown => "unknown"@,
    }
}

impl JobStatus {
    pub fn from_launchctl_output(output: &str) -> (r: Self)
        ensures
            r == status_of_output(output@),
    {
        let raw = to_chars(output);
        let n = lower_chars(&raw);
        if contains_str(&n, "state = running") || contains_str(&n, "running = 1") || contains_str(
            &n,
            "active count = 1",
        ) {
            return JobStatus::Running;
        }
        if contains_str(&n, "disabled = true") || contains_str(&n, "is disabled") || contains_str(
            &n,
            "disabled services",
        ) {
            return JobStatus::Disabled;
        }
        let t = trim_chars(&n);
        if t.len() == 0 {
            JobStatus::Unknown
        } else {
            JobStatus::Loaded
        }
    }

    pub fn as_str(self) -> (r: &'static str)
        ensures
            r@ == status_name(self),
    {
        match self {
            JobStatus::Running => "running",
            JobStatus::Loaded => "loaded",
            JobStatus::Disabled => "disabled",
            JobStatus::Unknown => "unknown",
        }
    }
}


/// What `launchctl print` output says of a job, read case-insensitively: any running marker
/// makes it running; else any disabled marker (`disabled = true`, `is disabled`,
/// `disabled services`) makes it disabled; else blank output is unknown and any other
/// output means loaded.
pub proof fn lemma_status_markers(output: Seq<char>)
    ensures
        ({
            let n = lower(output);
            let running = contains(n, "state = running"@) || contains(n, "running = 1"@)
                || contains(n, "active count = 1"@);
            let disabled = contains(n, "disabled = true"@) || contains(n, "is disabled"@)
                || contains(n, "disabled services"@);
            &&& running ==> status_of_output(output) == JobStatus::Running
            &&& !running && disabled ==> status_of_output(output) == JobStatus::Disabled
            &&& !running && !disabled && trim(n).len() == 0 ==> status_of_output(output)
                == JobStatus::Unknown
            &&& !running && !disabled && trim(n).len() > 0 ==> status_of_output(output)
                == JobStatus::Loaded
        }),
{
}

} // verus!
