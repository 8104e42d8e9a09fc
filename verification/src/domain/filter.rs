use crate::domain::job::JobSummary;
use crate::domain::status::{status_name, JobStatus};
use crate::text::{append_str, from_chars, str_views};
use vstd::prelude::*;

verus! {

/// A filter on an optional flag: any value, set, or unset.
#[derive(Debug, Clone, Copy, PartialEq, Eq, Structural)]
pub enum TriStateFilter {
    Any,
    Yes,
    No,
}

impl Default for TriStateFilter {
    fn default() -> (r: Self)
        ensures
            r == TriStateFilter::Any,
    {
        TriStateFilter::Any
    }
}

/// The next setting when the filter's button is pressed: any, yes, no, any again.
pub open spec fn next_tri(f: TriStateFilter) -> TriStateFilter {
    match f {
        TriStateFilter::Any => TriStateFilter::Yes,
        TriStateFilter::Yes => TriStateFilter::No,
        TriStateFilter::No => TriStateFilter::Any,
    }
}

/// Whether a flag value passes the filter: `Yes` and `No` want the flag present
/// and set, or present and unset.
pub open spec fn tri_matches(f: TriStateFilter, value: Option<bool>) -> bool {
    match f {
        TriStateFilter::Any => true,
        TriStateFilter::Yes => value == Some(true),
        TriStateFilter::No => value == Some(false),
    }
}

pub open spec fn tri_badge(f: TriStateFilter) -> Seq<char> {
    match f {
        TriStateFilter::Any => "any"@,
        TriStateFilter::Yes => "yes"@,
        TriStateFilter::No => "no"@,
    }
}

impl TriStateFilter {
    pub fn cycle(self) -> (r: Self)
        ensures
            r == next_tri(self),
    {
        match self {
            TriStateFilter::Any => TriStateFilter::Yes,
            TriStateFilter::Yes => TriStateFilter::No,
            TriStateFilter::No => TriStateFilter::Any,
        }
    }

    pub fn matches_bool(self, value: Option<bool>) -> (r: bool)
        ensures
            r == tri_matches(self, value),
    {
        match self {
            TriStateFilter::Any => true,
            TriStateFilter::Yes => value == Some(true),
            TriStateFilter::No => value == Some(false),
        }
    }

    pub fn as_badge(self) -> (r: &'static str)
        ensures
            r@ == tri_badge(self),
    {
        match self {
            TriStateFilter::Any => "any",
            TriStateFilter::Yes => "yes",
            TriStateFilter::No => "no",
        }
    }
}

/// Pressing a tri-state filter's button three times brings it back to where it was.
pub proof fn lemma_cycle_period_three(f: TriStateFilter)
    ensures
        next_tri(next_tri(next_tri(f))) == f,
        next_tri(f) != f,
{
}

/// The filters on a job's status and plist flags.
#[derive(Debug, Clone, Copy, PartialEq, Eq, Structural)]
pub struct AdvancedFilter {
    pub status: Option<JobStatus>,
    pub disabled: TriStateFilter,
    pub run_at_load: TriStateFilter,
    pub keep_alive: TriStateFilter,
    pub has_error: TriStateFilter,
}

/// The filter that lets every job through.
pub open spec fn open_filter() -> AdvancedFilter {
    AdvancedFilter {
        status: None,
        disabled: TriStateFilter::Any,
        run_at_load: TriStateFilter::Any,
        keep_alive: TriStateFilter::Any,
        has_error: TriStateFilter::Any,
    }
}

impl Default for AdvancedFilter {
    fn default() -> (r: Self)
        ensures
            r == open_filter(),
    {
        AdvancedFilter {
            status: None,
            disabled: TriStateFilter::Any,
            run_at_load: TriStateFilter::Any,
            keep_alive: TriStateFilter::Any,
            has_error: TriStateFilter::Any,
        }
    }
}

/// Whether a job passes every part of the filter.
pub open spec fn filter_matches(f: AdvancedFilter, job: JobSummary) -> bool {
    &&& (f.status matches Some(s) ==> job.status == s)
    &&& tri_matches(f.disabled, job.metadata.disabled)
    &&& tri_matches(f.run_at_load, job.metadata.run_at_load)
    &&& tri_matches(f.keep_alive, job.metadata.keep_alive)
    &&& tri_matches(f.has_error, Some(job.error is Some))
}

/// The badge tokens of the active parts of a filter, in a fixed order.
pub open spec fn badge_tokens_of(f: AdvancedFilter) -> Seq<Seq<char>> {
    let a = match f.status {
        Some(s) => seq!["status:"@ + status_name(s)],
        None => Seq::empty(),
    };
    let b = if f.disabled != TriStateFilter::Any {
        a.push("disabled:"@ + tri_badge(f.disabled))
    } else {
        a
    };
    let c = if f.run_at_load != TriStateFilter::Any {
        b.push("run_at_load:"@ + tri_badge(f.run_at_load))
    } else {
        b
    };
    let d = if f.keep_alive != TriStateFilter::Any {
        c.push("keep_alive:"@ + tri_badge(f.keep_alive))
    } else {
        c
    };
    if f.has_error != TriStateFilter::Any {
        d.push("has_error:"@ + tri_badge(f.has_error))
    } else {
        d
    }
}

fn labelled(prefix: &str, value: &str) -> (r: String)
    ensures
        r@ == prefix@ + value@,
{
    let mut v: Vec<char> = Vec::new();
    append_str(&mut v, prefix);
    append_str(&mut v, value);
    from_chars(v.as_slice())
}

fn push_token(tokens: &mut Vec<String>, prefix: &str, value: &str)
    ensures
        str_views(final(tokens)@) == str_views(old(tokens)@).push(prefix@ + value@),
{
    let t = labelled(prefix, value);
    tokens.push(t);
    assert(str_views(tokens@) =~= str_views(old(tokens)@).push(prefix@ + value@));
}

impl AdvancedFilter {
    pub fn clear(&mut self)
        ensures
            *final(self) == open_filter(),
    {
        *self = AdvancedFilter::default();
    }

    pub fn matches(&self, job: &JobSummary) -> (r: bool)
        ensures
            r == filter_matches(*self, *job),
    {
        let status_matches = match self.status {
            Some(s) => job.status == s,
            None => true,
        };
        let disabled_matches = self.disabled.matches_bool(job.metadata.disabled);
        let run_at_load_matches = self.run_at_load.matches_bool(job.metadata.run_at_load);
        let keep_alive_matches = self.keep_alive.matches_bool(job.metadata.keep_alive);
        let has_error_matches = self.has_error.matches_bool(Some(job.error.is_some()));
        status_matches && disabled_matches && run_at_load_matches && keep_alive_matches
            && has_error_matches
    }

    pub fn badge_tokens(&self) -> (r: Vec<String>)
        ensures
            str_views(r@) == badge_tokens_of(*self),
    {
        let mut tokens: Vec<String> = Vec::new();
        if let Some(status) = self.status {
            push_token(&mut tokens, "status:", status.as_str());
        }
        assert(str_views(tokens@) =~= match self.status {
            Some(s) => seq!["status:"@ + status_name(s)],
            None => Seq::<Seq<char>>::empty(),
        });
        if self.disabled != TriStateFilter::Any {
            push_token(&mut tokens, "disabled:", self.disabled.as_badge());
        }
        if self.run_at_load != TriStateFilter::Any {
            push_token(&mut tokens, "run_at_load:", self.run_at_load.as_badge());
        }
        if self.keep_alive != TriStateFilter::Any {
            push_token(&mut tokens, "keep_alive:", self.keep_alive.as_badge());
        }
        if self.has_error != TriStateFilter::Any {
            push_token(&mut tokens, "has_error:", self.has_error.as_badge());
        }
        tokens
    }
}

/// The cleared filter lets every job through and shows no badge.
pub proof fn lemma_open_filter_matches_all(job: JobSummary)
    ensures
        filter_matches(open_filter(), job),
        badge_tokens_of(open_filter()).len() == 0,
{
}

} // verus!
