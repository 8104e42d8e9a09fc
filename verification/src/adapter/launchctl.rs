use crate::domain::status::{status_of_output, JobStatus};
use crate::error::{validation, AppError, AppResult};
use crate::text::{
    contains, contains_str, lines, lines_chars, lower, lower_chars, parse_u64, parse_u64_chars,
    split_chars, split_on, from_chars, to_chars, trim, trim_chars, views,
};
use vstd::prelude::*;

verus! {

/// The launchctl commands the app issues. Implementations run the real tool or stand in
/// for it; what they return is up to them.
pub trait LaunchctlClient {
    /// The output of `launchctl list`.
    fn list(&self) -> (r: AppResult<String>)
        default_ensures
            r matches Err(AppError::Validation(m)) && m@ == "launchctl list is not available from this client"@,
    {
        Err(validation("launchctl list is not available from this client"))
    }

    /// The output of `launchctl print <target>`.
    fn print(&self, target: &str) -> AppResult<String>;

    fn start(&self, target: &str) -> AppResult<()>;

    fn stop(&self, target: &str) -> AppResult<()>;

    fn kickstart(&self, target: &str) -> AppResult<()>;

    fn enable(&self, target: &str) -> (r: AppResult<()>)
        default_ensures
            r matches Err(AppError::Validation(m)) && m@ == "launchctl enable is not available from this client"@,
    {
        Err(validation("launchctl enable is not available from this client"))
    }

    fn disable(&self, target: &str) -> (r: AppResult<()>)
        default_ensures
            r matches Err(AppError::Validation(m)) && m@ == "launchctl disable is not available from this client"@,
    {
        Err(validation("launchctl disable is not available from this client"))
    }

    fn bootstrap(&self, domain: &str, path: &str) -> (r: AppResult<()>)
        default_ensures
            r matches Err(AppError::Validation(m)) && m@ == "launchctl bootstrap is not available from this client"@,
    {
        Err(validation("launchctl bootstrap is not available from this client"))
    }

    fn bootout(&self, domain: &str, path: &str) -> AppResult<()>;
}

pub fn status_from_print_output(output: &str) -> (r: JobStatus)
    ensures
        r == status_of_output(output@),
{
    JobStatus::from_launchctl_output(output)
}

/// Whether launchctl's error text says that the service is not loaded.
pub open spec fn not_loaded_text(message: Seq<char>) -> bool {
    let n = lower(message);
    contains(n, "could not find service"@) || contains(n, "service not found"@) || contains(
        n,
        "no such process"@,
    )
}

/// Whether a failed `bootout` may be ignored before the plist is deleted.
pub open spec fn bootout_ignorable_text(message: Seq<char>) -> bool {
    not_loaded_text(message) || contains(lower(message), "not loaded"@)
}

pub fn is_not_loaded_error(message: &str) -> (r: bool)
    ensures
        r == not_loaded_text(message@),
{
    let n = lower_chars(&to_chars(message));
    contains_str(&n, "could not find service") || contains_str(&n, "service not found")
        || contains_str(&n, "no such process")
}

pub fn is_bootout_ignorable_error(message: &str) -> (r: bool)
    ensures
        r == bootout_ignorable_text(message@),
{
    let n = lower_chars(&to_chars(message));
    contains_str(&n, "could not find service") || contains_str(&n, "service not found")
        || contains_str(&n, "no such process") || contains_str(&n, "not loaded")
}

/// One row of `launchctl list`: the pid column (`-` when not running), the last
/// exit status and the label, each trimmed.
#[derive(Debug)]
pub struct ListEntry {
    pub pid: String,
    pub status: String,
    pub label: String,
}

pub struct ListEntryView {
    pub pid: Seq<char>,
    pub status: Seq<char>,
    pub label: Seq<char>,
}

impl View for ListEntry {
    type V = ListEntryView;

    open spec fn view(&self) -> ListEntryView {
        ListEntryView { pid: self.pid@, status: self.status@, label: self.label@ }
    }
}

/// The row that a line of `launchctl list` describes: at least three tab-separated
/// columns, a non-empty label, and not the `PID` header.
pub open spec fn list_row(line: Seq<char>) -> Option<ListEntryView> {
    let cols = split_on(line, '\t');
    if cols.len() >= 3 && trim(cols[2]).len() > 0 && trim(cols[0]) != "PID"@ {
        Some(ListEntryView { pid: trim(cols[0]), status: trim(cols[1]), label: trim(cols[2]) })
    } else {
        None
    }
}

/// The rows of a `launchctl list` output, in order.
pub open spec fn list_rows(ls: Seq<Seq<char>>) -> Seq<ListEntryView>
    decreases ls.len(),
{
    if ls.len() == 0 {
        Seq::empty()
    } else {
        let rest = list_rows(ls.drop_last());
        match list_row(ls.last()) {
            Some(e) => rest.push(e),
            None => rest,
        }
    }
}

pub open spec fn entry_views(v: Seq<ListEntry>) -> Seq<ListEntryView> {
    v.map_values(|e: ListEntry| e@)
}

fn parse_list_line(line: &Vec<char>) -> (r: Option<ListEntry>)
    ensures
        r matches Some(e) ==> list_row(line@) == Some(e@),
        r is None ==> list_row(line@) is None,
{
    let cols = split_chars(line, '\t');
    if cols.len() < 3 {
        return None;
    }
    let pid = trim_chars(&cols[0]);
    let status = trim_chars(&cols[1]);
    let label = trim_chars(&cols[2]);
    assert(views(cols@)[0] == cols@[0]@ && views(cols@)[1] == cols@[1]@ && views(cols@)[2]
        == cols@[2]@);
    if label.len() == 0 || crate::text::eq_str(&pid, "PID") {
        return None;
    }
    Some(
        ListEntry {
            pid: from_chars(pid.as_slice()),
            status: from_chars(status.as_slice()),
            label: from_chars(label.as_slice()),
        },
    )
}

/// The rows of a `launchctl list` output.
pub fn parse_list_output(output: &str) -> (r: Vec<ListEntry>)
    ensures
        entry_views(r@) == list_rows(lines(output@)),
{
    let ls = lines_chars(&to_chars(output));
    let ghost lv = views(ls@);
    let mut r: Vec<ListEntry> = Vec::new();
    let mut i: usize = 0;
    while i < ls.len()
        invariant
            i <= ls.len(),
            lv == views(ls@),
            entry_views(r@) == list_rows(lv.subrange(0, i as int)),
        decreases ls.len() - i,
    {
        assert(lv.subrange(0, i + 1).drop_last() == lv.subrange(0, i as int));
        assert(lv[i as int] == ls@[i as int]@);
        match parse_list_line(&ls[i]) {
            Some(e) => {
                let ghost old_r = r@;
                r.push(e);
                assert(entry_views(r@) =~= entry_views(old_r).push(e@));
            },
            None => {},
        }
        i = i + 1;
    }
    assert(lv.subrange(0, ls.len() as int) == lv);
    r
}

/// Whether a `launchctl list` row shows a running process: its pid column is a number.
pub open spec fn row_running(e: ListEntryView) -> bool {
    parse_u64(e.pid) is Some
}

pub fn entry_is_running(e: &ListEntry) -> (r: bool)
    ensures
        r == row_running(e@),
{
    parse_u64_chars(&to_chars(e.pid.as_str())).is_some()
}

/// The error of a failed `launchctl` run: the command line, and what the tool wrote to
/// stderr (or, where that is blank, to stdout), trimmed.
pub fn command_failure(args: &Vec<String>, stderr: &str, stdout: &str) -> (r: AppError)
    ensures
        r matches AppError::CommandFailed { command, stderr: e } && command@ == "launchctl "@
            + crate::text::join(crate::text::str_views(args@), " "@) && e@ == (if crate::text::trim(
            stderr@,
        ).len() == 0 {
            crate::text::trim(stdout@)
        } else {
            crate::text::trim(stderr@)
        }),
{
    let joined = crate::text::join_strings(args, " ");
    let mut c: Vec<char> = Vec::new();
    crate::text::append_str(&mut c, "launchctl ");
    crate::text::append_str(&mut c, joined.as_str());
    let e = crate::text::trim_chars(&crate::text::to_chars(stderr));
    let detail = if e.len() == 0 {
        crate::text::trim_chars(&crate::text::to_chars(stdout))
    } else {
        e
    };
    AppError::CommandFailed {
        command: crate::text::from_chars(c.as_slice()),
        stderr: crate::text::from_chars(detail.as_slice()),
    }
}


/// A failed `bootout` whose message (in any case) says the service could not be found, was
/// not found, has no such process or is not loaded lets the deletion go on; any other
/// failure stops it.
pub proof fn lemma_not_loaded_bootout_ignorable(message: Seq<char>)
    ensures
        bootout_ignorable_text(message) <==> (contains(lower(message), "could not find service"@)
            || contains(lower(message), "service not found"@) || contains(
            lower(message),
            "no such process"@,
        ) || contains(lower(message), "not loaded"@)),
{
}

} // verus!
