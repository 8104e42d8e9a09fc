//! What the QuickLaunch menubar shows: item titles and the status summary badge.
use crate::adapter::quicklaunch::QuickLaunchItem;
use crate::text::{
    append_chars, append_str, decimal, decimal_chars, eq_str, from_chars, parse_usize,
    parse_usize_chars, to_chars,
};
use vstd::prelude::*;

verus! {

/// The most items the menu lists: a positive number if one is given, else 8.
pub open spec fn menu_limit_of(value: Option<String>) -> usize {
    match value {
        Some(v) => match parse_usize(v@) {
            Some(n) => if n > 0 {
                n
            } else {
                8
            },
            None => 8,
        },
        None => 8,
    }
}

pub fn menu_items_limit(value: Option<String>) -> (r: usize)
    ensures
        r == menu_limit_of(value),
{
    match &value {
        Some(v) => match parse_usize_chars(&to_chars(v.as_str())) {
            Some(n) => if n > 0 {
                n
            } else {
                8
            },
            None => 8,
        },
        None => 8,
    }
}

/// A title cut to `limit` characters, with an ellipsis where it was cut.
pub open spec fn shortened(value: Seq<char>, limit: nat) -> Seq<char> {
    if value.len() <= limit {
        value
    } else {
        value.take(limit as int) + "…"@
    }
}

pub fn shorten_title(value: &str, limit: usize) -> (r: String)
    ensures
        r@ == shortened(value@, limit as nat),
{
    let v = to_chars(value);
    if v.len() <= limit {
        return from_chars(v.as_slice());
    }
    let mut out: Vec<char> = Vec::new();
    let mut i: usize = 0;
    while i < limit
        invariant
            i <= limit < v.len(),
            out@ == v@.take(i as int),
        decreases limit - i,
    {
        out.push(v[i]);
        assert(v@.take(i + 1) =~= v@.take(i as int).push(v@[i as int]));
        i = i + 1;
    }
    append_str(&mut out, "…");
    from_chars(out.as_slice())
}

/// How many items are running, loaded, disabled, and in any other status.
pub open spec fn status_tally(items: Seq<QuickLaunchItem>) -> (nat, nat, nat, nat)
    decreases items.len(),
{
    if items.len() == 0 {
        (0, 0, 0, 0)
    } else {
        let t = status_tally(items.drop_last());
        let s = items.last().status@;
        if s == "running"@ {
            (t.0 + 1, t.1, t.2, t.3)
        } else if s == "loaded"@ {
            (t.0, t.1 + 1, t.2, t.3)
        } else if s == "disabled"@ {
            (t.0, t.1, t.2 + 1, t.3)
        } else {
            (t.0, t.1, t.2, t.3 + 1)
        }
    }
}

/// The badge and the detail line that summarise the items: green while any is running,
/// yellow while any is disabled, blue otherwise, with the counts.
pub open spec fn badge_and_detail(items: Seq<QuickLaunchItem>) -> (Seq<char>, Seq<char>) {
    if items.len() == 0 {
        ("⚪ no tracked items"@, "no tracked items"@)
    } else {
        let t = status_tally(items);
        let mark = if t.0 > 0 {
            "🟢"@
        } else if t.2 > 0 {
            "🟡"@
        } else {
            "🔵"@
        };
        (
            mark + " R"@ + decimal(t.0) + " L"@ + decimal(t.1) + " D"@ + decimal(t.2),
            "items="@ + decimal(items.len()) + " running="@ + decimal(t.0) + " loaded="@
                + decimal(t.1) + " disabled="@ + decimal(t.2) + " unknown="@ + decimal(t.3),
        )
    }
}

proof fn lemma_tally_bound(items: Seq<QuickLaunchItem>)
    ensures
        status_tally(items).0 + status_tally(items).1 + status_tally(items).2 + status_tally(
            items,
        ).3 == items.len(),
    decreases items.len(),
{
    if items.len() > 0 {
        lemma_tally_bound(items.drop_last());
    }
}

/// The summary badge and detail line for the synced items.
pub fn status_badge(items: &[QuickLaunchItem]) -> (r: (String, String))
    ensures
        (r.0@, r.1@) == badge_and_detail(items@),
{
    if items.len() == 0 {
        return (
            from_chars(to_chars("⚪ no tracked items").as_slice()),
            from_chars(to_chars("no tracked items").as_slice()),
        );
    }
    let mut running: u64 = 0;
    let mut loaded: u64 = 0;
    let mut disabled: u64 = 0;
    let mut unknown: u64 = 0;
    let mut i: usize = 0;
    while i < items.len()
        invariant
            i <= items.len() <= usize::MAX,
            (running as nat, loaded as nat, disabled as nat, unknown as nat) == status_tally(
                items@.subrange(0, i as int),
            ),
        decreases items.len() - i,
    {
        proof {
            lemma_tally_bound(items@.subrange(0, i as int));
        }
        assert(items@.subrange(0, i + 1).drop_last() =~= items@.subrange(0, i as int));
        let s = to_chars(items[i].status.as_str());
        if eq_str(&s, "running") {
            running = running + 1;
        } else if eq_str(&s, "loaded") {
            loaded = loaded + 1;
        } else if eq_str(&s, "disabled") {
            disabled = disabled + 1;
        } else {
            unknown = unknown + 1;
        }
        i = i + 1;
    }
    assert(items@.subrange(0, items.len() as int) =~= items@);
    let mut badge: Vec<char> = Vec::new();
    if running > 0 {
        append_str(&mut badge, "🟢");
    } else if disabled > 0 {
        append_str(&mut badge, "🟡");
    } else {
        append_str(&mut badge, "🔵");
    }
    append_str(&mut badge, " R");
    append_chars(&mut badge, &decimal_chars(running));
    append_str(&mut badge, " L");
    append_chars(&mut badge, &decimal_chars(loaded));
    append_str(&mut badge, " D");
    append_chars(&mut badge, &decimal_chars(disabled));
    let mut detail: Vec<char> = Vec::new();
    append_str(&mut detail, "items=");
    append_chars(&mut detail, &decimal_chars(items.len() as u64));
    append_str(&mut detail, " running=");
    append_chars(&mut detail, &decimal_chars(running));
    append_str(&mut detail, " loaded=");
    append_chars(&mut detail, &decimal_chars(loaded));
    append_str(&mut detail, " disabled=");
    append_chars(&mut detail, &decimal_chars(disabled));
    append_str(&mut detail, " unknown=");
    append_chars(&mut detail, &decimal_chars(unknown));
    (from_chars(badge.as_slice()), from_chars(detail.as_slice()))
}

} // verus!
