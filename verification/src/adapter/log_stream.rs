//! Reading a job's logs with the `log` tool: the arguments it is given and how its output
//! is cut down.
use crate::error::AppResult;
use crate::text::{
    append_chars, append_str, decimal, decimal_chars, from_chars, join, lines, lines_chars,
    str_views, strings_of, to_chars, trim, trim_chars, views,
};
use vstd::prelude::*;

verus! {

/// Fetches a job's logs, from the recent past or live for a few seconds.
pub trait LogStreamClient {
    fn recent_logs_for_label(&self, label: &str, minutes: u32, max_lines: usize) -> AppResult<
        String,
    >;

    fn live_logs_for_label(&self, label: &str, seconds: u32, max_lines: usize) -> AppResult<
        String,
    >;
}

/// The label with each double quote escaped by a backslash.
pub open spec fn escape_quotes(s: Seq<char>) -> Seq<char>
    decreases s.len(),
{
    if s.len() == 0 {
        Seq::empty()
    } else {
        escape_quotes(s.drop_last()) + (if s.last() == '"' {
            seq!['\\', '"']
        } else {
            seq![s.last()]
        })
    }
}

/// The `log` predicate that selects a label's entries, by message or by process.
pub open spec fn predicate_for(label: Seq<char>) -> Seq<char> {
    "eventMessage CONTAINS[c] \""@ + escape_quotes(label) + "\" OR process CONTAINS[c] \""@
        + escape_quotes(label) + "\""@
}

fn escape_quotes_chars(s: &Vec<char>) -> (r: Vec<char>)
    ensures
        r@ == escape_quotes(s@),
{
    let mut r: Vec<char> = Vec::new();
    let mut i: usize = 0;
    while i < s.len()
        invariant
            i <= s.len(),
            r@ == escape_quotes(s@.take(i as int)),
        decreases s.len() - i,
    {
        assert(s@.take(i + 1).drop_last() =~= s@.take(i as int));
        if s[i] == '"' {
            r.push('\\');
            r.push('"');
        } else {
            r.push(s[i]);
        }
        assert(r@ =~= escape_quotes(s@.take(i + 1)));
        i = i + 1;
    }
    assert(s@.take(s.len() as int) =~= s@);
    r
}

pub fn log_predicate(label: &str) -> (r: String)
    ensures
        r@ == predicate_for(label@),
{
    let esc = escape_quotes_chars(&to_chars(label));
    let mut v: Vec<char> = Vec::new();
    append_str(&mut v, "eventMessage CONTAINS[c] \"");
    append_chars(&mut v, &esc);
    append_str(&mut v, "\" OR process CONTAINS[c] \"");
    append_chars(&mut v, &esc);
    append_str(&mut v, "\"");
    from_chars(v.as_slice())
}

fn string_of(s: &str) -> (r: String)
    ensures
        r@ == s@,
{
    from_chars(to_chars(s).as_slice())
}

/// The arguments of `log show` for the last `minutes` of a label's entries.
pub open spec fn recent_log_args_for(label: Seq<char>, minutes: u32) -> Seq<Seq<char>> {
    seq![
        "show"@,
        "--style"@,
        "compact"@,
        "--last"@,
        decimal(minutes as nat) + "m"@,
        "--predicate"@,
        predicate_for(label),
    ]
}

/// The arguments of `log stream` for `seconds` of a label's entries.
pub open spec fn live_log_args_for(label: Seq<char>, seconds: u32) -> Seq<Seq<char>> {
    seq![
        "stream"@,
        "--style"@,
        "compact"@,
        "--timeout"@,
        decimal(seconds as nat),
        "--predicate"@,
        predicate_for(label),
    ]
}

pub fn recent_log_args(label: &str, minutes: u32) -> (r: Vec<String>)
    ensures
        str_views(r@) == recent_log_args_for(label@, minutes),
{
    let mut last: Vec<char> = decimal_chars(minutes as u64);
    append_str(&mut last, "m");
    let mut r: Vec<String> = Vec::new();
    r.push(string_of("show"));
    r.push(string_of("--style"));
    r.push(string_of("compact"));
    r.push(string_of("--last"));
    r.push(from_chars(last.as_slice()));
    r.push(string_of("--predicate"));
    r.push(log_predicate(label));
    assert(str_views(r@) =~= recent_log_args_for(label@, minutes));
    r
}

pub fn live_log_args(label: &str, seconds: u32) -> (r: Vec<String>)
    ensures
        str_views(r@) == live_log_args_for(label@, seconds),
{
    let mut r: Vec<String> = Vec::new();
    r.push(string_of("stream"));
    r.push(string_of("--style"));
    r.push(string_of("compact"));
    r.push(string_of("--timeout"));
    r.push(from_chars(decimal_chars(seconds as u64).as_slice()));
    r.push(string_of("--predicate"));
    r.push(log_predicate(label));
    assert(str_views(r@) =~= live_log_args_for(label@, seconds));
    r
}

/// The lines that are not blank, as they are.
pub open spec fn nonblank_lines(ls: Seq<Seq<char>>) -> Seq<Seq<char>>
    decreases ls.len(),
{
    if ls.len() == 0 {
        Seq::empty()
    } else if trim(ls.last()).len() > 0 {
        nonblank_lines(ls.drop_last()).push(ls.last())
    } else {
        nonblank_lines(ls.drop_last())
    }
}

/// The last `max_lines` of the lines, or all of them where there are fewer.
pub open spec fn last_lines(ls: Seq<Seq<char>>, max_lines: nat) -> Seq<Seq<char>> {
    if ls.len() > max_lines {
        ls.skip(ls.len() - max_lines)
    } else {
        ls
    }
}

/// What the log viewer shows of the tool's output: its last `max_lines` non-blank lines.
pub open spec fn log_tail_of(text: Seq<char>, max_lines: nat) -> Seq<char> {
    join(last_lines(nonblank_lines(lines(text)), max_lines), "\n"@)
}

/// The last `max_lines` non-blank lines of the tool's output, joined by line breaks.
pub fn log_tail(text: &str, max_lines: usize) -> (r: String)
    ensures
        r@ == log_tail_of(text@, max_lines as nat),
{
    let all = lines_chars(&to_chars(text));
    let mut kept: Vec<Vec<char>> = Vec::new();
    let mut i: usize = 0;
    while i < all.len()
        invariant
            i <= all.len(),
            views(all@) == lines(text@),
            views(kept@) == nonblank_lines(views(all@).take(i as int)),
        decreases all.len() - i,
    {
        assert(views(all@).take(i + 1).drop_last() =~= views(all@).take(i as int));
        if trim_chars(&all[i]).len() > 0 {
            let ghost before = kept@;
            kept.push(all[i].clone());
            assert(views(kept@) =~= views(before).push(all@[i as int]@));
        }
        i = i + 1;
    }
    assert(views(all@).take(all.len() as int) =~= views(all@));
    let start: usize = if kept.len() > max_lines {
        kept.len() - max_lines
    } else {
        0
    };
    let mut tail: Vec<Vec<char>> = Vec::new();
    let mut j: usize = start;
    while j < kept.len()
        invariant
            start <= j <= kept.len(),
            views(tail@) == views(kept@).subrange(start as int, j as int),
        decreases kept.len() - j,
    {
        let ghost before = tail@;
        let x = kept[j].clone();
        assert(x@ =~= kept@[j as int]@);
        tail.push(x);
        proof {
            crate::text::lemma_views_push(before, x);
        }
        assert(views(tail@) =~= views(kept@).subrange(start as int, j + 1));
        j = j + 1;
    }
    assert(views(kept@).subrange(start as int, kept.len() as int) =~= last_lines(
        views(kept@),
        max_lines as nat,
    ));
    let strs = strings_of(&tail);
    crate::text::join_strings(&strs, "\n")
}

} // verus!
