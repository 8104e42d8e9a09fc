use vstd::prelude::*;

verus! {

/// What `launchctl print` tells of a running job, each part where it was found.
#[derive(Debug, Clone, PartialEq, Eq)]
pub struct JobRuntimeDetails {
    pub pid: Option<String>,
    pub last_exit_status: Option<String>,
    pub last_run: Option<String>,
    pub raw_hint: Option<String>,
}

impl Default for JobRuntimeDetails {
    fn default() -> (r: Self)
        ensures
            r.pid is None && r.last_exit_status is None && r.last_run is None && r.raw_hint is None,
    {
        JobRuntimeDetails { pid: None, last_exit_status: None, last_run: None, raw_hint: None }
    }
}

impl JobRuntimeDetails {
    pub fn is_empty(&self) -> (r: bool)
        ensures
            r == (self.pid is None && self.last_exit_status is None && self.last_run is None
                && self.raw_hint is None),
    {
        self.pid.is_none() && self.last_exit_status.is_none() && self.last_run.is_none()
            && self.raw_hint.is_none()
    }
}

} // verus!
