//! The selection of the job list and the two-step confirmation of a delete.
use vstd::prelude::*;

verus! {

/// Which job is selected, and which one a delete was requested for.
#[derive(Debug, Clone, Copy, PartialEq, Eq, Structural)]
pub struct UiState {
    pub selected_index: Option<usize>,
    pub pending_delete_index: Option<usize>,
}

impl Default for UiState {
    fn default() -> (r: Self)
        ensures
            r.selected_index is None && r.pending_delete_index is None,
    {
        UiState { selected_index: None, pending_delete_index: None }
    }
}

impl UiState {
    pub fn clear_selection(&mut self)
        ensures
            final(self).selected_index is None,
            final(self).pending_delete_index is None,
    {
        self.selected_index = None;
        self.pending_delete_index = None;
    }

    /// Selects a job; a delete requested before is forgotten.
    pub fn select(&mut self, index: usize)
        ensures
            final(self).selected_index == Some(index),
            final(self).pending_delete_index is None,
    {
        self.selected_index = Some(index);
        self.pending_delete_index = None;
    }

    pub fn reset_pending_delete(&mut self)
        ensures
            final(self).selected_index == old(self).selected_index,
            final(self).pending_delete_index is None,
    {
        self.pending_delete_index = None;
    }

    /// Asks to delete the job at `index`: the first request only arms the delete; a second
    /// request for the same job confirms it (returns `true`) and disarms it.
    pub fn request_delete_confirmation(&mut self, index: usize) -> (r: bool)
        ensures
            (*final(self), r) == after_delete_request(*old(self), index),
    {
        if self.pending_delete_index == Some(index) {
            self.pending_delete_index = None;
            true
        } else {
            self.pending_delete_index = Some(index);
            false
        }
    }

    /// Arms a delete of the job at `index`, to be confirmed.
    pub fn begin_delete_confirmation(&mut self, index: usize)
        ensures
            final(self).selected_index == old(self).selected_index,
            final(self).pending_delete_index == Some(index),
    {
        self.pending_delete_index = Some(index);
    }

    /// Disarms a requested delete.
    pub fn cancel_delete_confirmation(&mut self)
        ensures
            final(self).selected_index == old(self).selected_index,
            final(self).pending_delete_index is None,
    {
        self.pending_delete_index = None;
    }

    /// The job whose delete was requested, if any; the request is used up.
    pub fn take_confirmed_delete(&mut self) -> (r: Option<usize>)
        ensures
            r == old(self).pending_delete_index,
            final(self).selected_index == old(self).selected_index,
            final(self).pending_delete_index is None,
    {
        let r = self.pending_delete_index;
        self.pending_delete_index = None;
        r
    }
}

/// The state after a delete request for `index`, and whether it confirmed a delete.
pub open spec fn after_delete_request(s: UiState, index: usize) -> (UiState, bool) {
    if s.pending_delete_index == Some(index) {
        (UiState { pending_delete_index: None, ..s }, true)
    } else {
        (UiState { pending_delete_index: Some(index), ..s }, false)
    }
}

/// A delete is confirmed only by a second request for the same job: from any state, two
/// requests in a row for one job confirm exactly once, and a single request from a state
/// without that pending delete never confirms.
pub proof fn lemma_delete_needs_two_requests(s: UiState, index: usize)
    ensures
        s.pending_delete_index != Some(index) ==> !after_delete_request(s, index).1,
        s.pending_delete_index != Some(index) ==> after_delete_request(
            after_delete_request(s, index).0,
            index,
        ).1,
        after_delete_request(s, index).1 ==> !after_delete_request(
            after_delete_request(s, index).0,
            index,
        ).1,
{
}

} // verus!
