use crate::adapter::plist_value::{as_boolean, dict_get, get_string, keep_alive_flag, PlistValue};
use crate::error::AppResult;
use vstd::prelude::*;

verus! {

/// The keys of a job's plist that the job list shows.
#[derive(Debug, Clone, PartialEq, Eq)]
pub struct PlistSummary {
    pub label: Option<String>,
    pub run_at_load: Option<bool>,
    pub keep_alive: Option<bool>,
    pub disabled: Option<bool>,
}

impl Default for PlistSummary {
    fn default() -> (r: Self)
        ensures
            r.label is None && r.run_at_load is None && r.keep_alive is None && r.disabled is None,
    {
        PlistSummary { label: None, run_at_load: None, keep_alive: None, disabled: None }
    }
}

/// Reads the summary of the plist at a path. Implementations read the file or stand in for it.
pub trait PlistReader {
    fn read_summary(&self, path: &str) -> AppResult<PlistSummary>;
}

/// The boolean stored under `key`.
pub open spec fn get_bool(d: Seq<(String, PlistValue)>, key: Seq<char>) -> Option<bool> {
    match dict_get(d, key) {
        Some(v) => as_boolean(v),
        None => None,
    }
}

/// What the summary of a plist value holds: for a top-level dictionary, the `Label`
/// string, the `RunAtLoad` and `Disabled` booleans and the `KeepAlive` flag (a
/// dictionary of conditions counts as set); nothing for any other value.
pub open spec fn summary_matches(s: PlistSummary, v: PlistValue) -> bool {
    match v {
        PlistValue::Dictionary(d) => {
            &&& (match s.label {
                Some(l) => get_string(d@, "Label"@) == Some(l@),
                None => get_string(d@, "Label"@) is None,
            })
            &&& s.run_at_load == get_bool(d@, "RunAtLoad"@)
            &&& s.disabled == get_bool(d@, "Disabled"@)
            &&& s.keep_alive == keep_alive_flag(dict_get(d@, "KeepAlive"@))
        },
        _ => s.label is None && s.run_at_load is None && s.keep_alive is None && s.disabled is None,
    }
}

fn lookup<'a>(d: &'a Vec<(String, PlistValue)>, key: &str) -> (r: Option<&'a PlistValue>)
    ensures
        r matches Some(x) ==> dict_get(d@, key@) == Some(*x),
        r is None ==> dict_get(d@, key@) is None,
{
    let mut i: usize = 0;
    assert(d@.subrange(0, d.len() as int) == d@);
    while i < d.len()
        invariant
            i <= d.len(),
            dict_get(d@, key@) == dict_get(d@.subrange(i as int, d.len() as int), key@),
        decreases d.len() - i,
    {
        let k = crate::text::to_chars(d[i].0.as_str());
        let ghost rest = d@.subrange(i as int, d.len() as int);
        assert(rest.drop_first() == d@.subrange(i + 1, d.len() as int));
        assert(rest[0] == d@[i as int]);
        if crate::text::eq_str(&k, key) {
            return Some(&d[i].1);
        }
        i = i + 1;
    }
    None
}

/// The summary of a parsed plist.
pub fn summary_from_value(value: &PlistValue) -> (r: PlistSummary)
    ensures
        summary_matches(r, *value),
{
    let d = match value {
        PlistValue::Dictionary(d) => d,
        _ => {
            return PlistSummary::default();
        },
    };
    let label = match lookup(d, "Label") {
        Some(PlistValue::String(s)) => Some(s.clone()),
        _ => None,
    };
    let run_at_load = match lookup(d, "RunAtLoad") {
        Some(PlistValue::Boolean(b)) => Some(*b),
        _ => None,
    };
    let disabled = match lookup(d, "Disabled") {
        Some(PlistValue::Boolean(b)) => Some(*b),
        _ => None,
    };
    let keep_alive = match lookup(d, "KeepAlive") {
        Some(PlistValue::Boolean(b)) => Some(*b),
        Some(PlistValue::Dictionary(_)) => Some(true),
        _ => None,
    };
    PlistSummary { label, run_at_load, keep_alive, disabled }
}

} // verus!
