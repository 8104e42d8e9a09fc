//! Reading a job's logs through a log client.
use crate::adapter::log_stream::LogStreamClient;
use crate::error::AppResult;
use std::sync::Arc;
use vstd::prelude::*;

verus! {

/// Hands log requests for a job to a log client.
pub struct LogService<C: LogStreamClient> {
    client: Arc<C>,
}

impl<C: LogStreamClient> LogService<C> {
    pub fn new(client: Arc<C>) -> (r: Self)
        ensures
            r.client() == client,
    {
        LogService { client }
    }

    pub closed spec fn client(&self) -> Arc<C> {
        self.client
    }

    /// The last `minutes` of the label's logs, at most `max_lines` lines, as the client
    /// gives them.
    pub fn recent_logs(&self, label: &str, minutes: u32, max_lines: usize) -> (r: AppResult<String>)
        ensures
            call_ensures(C::recent_logs_for_label, (&*self.client(), label, minutes, max_lines), r),
    {
        self.client.recent_logs_for_label(label, minutes, max_lines)
    }

    /// `seconds` of the label's live logs, at most `max_lines` lines, as the client gives
    /// them.
    pub fn live_logs(&self, label: &str, seconds: u32, max_lines: usize) -> (r: AppResult<String>)
        ensures
            call_ensures(C::live_logs_for_label, (&*self.client(), label, seconds, max_lines), r),
    {
        self.client.live_logs_for_label(label, seconds, max_lines)
    }
}

} // verus!
