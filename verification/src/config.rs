//! The app's settings, read from `LAUNCHPAD_*` values.
use crate::text::{eq_str, lower, lower_chars, parse_usize, parse_usize_chars, to_chars, from_chars};
use vstd::prelude::*;

verus! {

/// The settings of the desktop app.
#[derive(Debug, Clone)]
pub struct AppConfig {
    pub ai_default_provider: String,
    pub quicklaunch_enabled: bool,
    pub quicklaunch_starred_only: bool,
    pub quicklaunch_max_items: usize,
}

/// A switch setting: on for `1`, `true`, `yes`, `on` in any case, off for anything else,
/// and `default` where it is not set.
pub open spec fn flag_of(value: Option<String>, default: bool) -> bool {
    match value {
        Some(v) => {
            let n = lower(v@);
            n == "1"@ || n == "true"@ || n == "yes"@ || n == "on"@
        },
        None => default,
    }
}

pub fn env_flag(value: Option<String>, default: bool) -> (r: bool)
    ensures
        r == flag_of(value, default),
{
    match value {
        Some(v) => {
            let n = lower_chars(&to_chars(v.as_str()));
            eq_str(&n, "1") || eq_str(&n, "true") || eq_str(&n, "yes") || eq_str(&n, "on")
        },
        None => default,
    }
}

/// The most items QuickLaunch shows: a positive number if given, else 12.
pub open spec fn max_items_of(value: Option<String>) -> usize {
    match value {
        Some(v) => match parse_usize(v@) {
            Some(n) => if n > 0 {
                n
            } else {
                12
            },
            None => 12,
        },
        None => 12,
    }
}

impl AppConfig {
    /// The settings that the given values make, each absent one at its default: the
    /// `heuristic-local` assistant, QuickLaunch off, starred jobs only, at most 12 items.
    pub fn from_values(
        ai_provider: Option<String>,
        quicklaunch_enable: Option<String>,
        quicklaunch_starred_only: Option<String>,
        quicklaunch_max_items: Option<String>,
    ) -> (r: Self)
        ensures
            r.ai_default_provider@ == match ai_provider {
                Some(p) => p@,
                None => "heuristic-local"@,
            },
            r.quicklaunch_enabled == flag_of(quicklaunch_enable, false),
            r.quicklaunch_starred_only == flag_of(quicklaunch_starred_only, true),
            r.quicklaunch_max_items == max_items_of(quicklaunch_max_items),
    {
        let max_items: usize = match &quicklaunch_max_items {
            Some(v) => match parse_usize_chars(&to_chars(v.as_str())) {
                Some(n) => if n > 0 {
                    n
                } else {
                    12
                },
                None => 12,
            },
            None => 12,
        };
        AppConfig {
            ai_default_provider: match ai_provider {
                Some(p) => p,
                None => from_chars(to_chars("heuristic-local").as_slice()),
            },
            quicklaunch_enabled: env_flag(quicklaunch_enable, false),
            quicklaunch_starred_only: env_flag(quicklaunch_starred_only, true),
            quicklaunch_max_items: max_items,
        }
    }
}

} // verus!
