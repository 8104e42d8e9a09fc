//! What the detail pane and the command palette show and understand.
use crate::domain::action::{action_name, TriggerAction};
use crate::domain::job::{scope_name, JobScope, JobSummary};
use crate::domain::job_detail::JobRuntimeDetails;
use crate::domain::status::status_name;
use crate::text::{
    append_str, eq_str, from_chars, join, lower, lower_chars, str_views, strip_prefix,
    strip_prefix_chars, to_chars, trim, trim_chars,
};
use vstd::prelude::*;

verus! {

pub open spec fn yes_no(value: bool) -> Seq<char> {
    if value {
        "yes"@
    } else {
        "no"@
    }
}

pub fn bool_to_badge(value: bool) -> (r: &'static str)
    ensures
        r@ == yes_no(value),
{
    if value {
        "yes"
    } else {
        "no"
    }
}

/// A flag as the details show it: yes, no, or N/A where the plist does not set it.
pub open spec fn flag_badge(value: Option<bool>) -> Seq<char> {
    match value {
        Some(b) => yes_no(b),
        None => "N/A"@,
    }
}

/// An optional text, or N/A.
pub open spec fn text_or_na(value: Option<String>) -> Seq<char> {
    match value {
        Some(s) => s@,
        None => "N/A"@,
    }
}

fn flag_badge_text(value: Option<bool>) -> (r: &'static str)
    ensures
        r@ == flag_badge(value),
{
    match value {
        Some(b) => bool_to_badge(b),
        None => "N/A",
    }
}

fn text_or_na_of(value: &Option<String>) -> (r: String)
    ensures
        r@ == text_or_na(*value),
{
    match value {
        Some(s) => from_chars(to_chars(s.as_str()).as_slice()),
        None => from_chars(to_chars("N/A").as_slice()),
    }
}

/// The lines of the copied job details.
pub open spec fn job_detail_lines(job: JobSummary, details: JobRuntimeDetails) -> Seq<Seq<char>> {
    let base = seq![
        "LaunchPad Job Details"@,
        "----------------------"@,
        "Label: "@ + job.label@,
        "Scope: "@ + scope_name(job.scope),
        "Status: "@ + status_name(job.status),
        "Path: "@ + job.path@,
        "Starred: "@ + yes_no(job.is_starred),
        "RunAtLoad: "@ + flag_badge(job.metadata.run_at_load),
        "KeepAlive: "@ + flag_badge(job.metadata.keep_alive),
        "Disabled key: "@ + flag_badge(job.metadata.disabled),
        "PID: "@ + text_or_na(details.pid),
        "Last Exit Status: "@ + text_or_na(details.last_exit_status),
        "Last Run: "@ + text_or_na(details.last_run),
    ];
    let with_error = match job.error {
        Some(e) => base.push("Warning: "@ + e@),
        None => base,
    };
    match details.raw_hint {
        Some(h) => with_error.push("Runtime Hint: "@ + h@),
        None => with_error,
    }
}

fn push_line(lines: &mut Vec<String>, prefix: &str, value: &str)
    ensures
        str_views(final(lines)@) == str_views(old(lines)@).push(prefix@ + value@),
{
    let mut v: Vec<char> = Vec::new();
    append_str(&mut v, prefix);
    append_str(&mut v, value);
    let ghost before = lines@;
    let x = from_chars(v.as_slice());
    lines.push(x);
    proof {
        crate::text::lemma_str_views_push(before, x);
    }
}

/// The details of a job as they are copied: one `Name: value` line each.
pub fn formatted_job_details(job: &JobSummary, details: &JobRuntimeDetails) -> (r: String)
    ensures
        r@ == join(job_detail_lines(*job, *details), "\n"@),
{
    let mut lines: Vec<String> = Vec::new();
    assert(str_views(lines@) =~= Seq::<Seq<char>>::empty());
    push_line(&mut lines, "LaunchPad Job Details", "");
    push_line(&mut lines, "----------------------", "");
    push_line(&mut lines, "Label: ", job.label.as_str());
    push_line(&mut lines, "Scope: ", job.scope.as_str());
    push_line(&mut lines, "Status: ", job.status_text());
    push_line(&mut lines, "Path: ", job.path.as_str());
    push_line(&mut lines, "Starred: ", bool_to_badge(job.is_starred));
    push_line(&mut lines, "RunAtLoad: ", flag_badge_text(job.metadata.run_at_load));
    push_line(&mut lines, "KeepAlive: ", flag_badge_text(job.metadata.keep_alive));
    push_line(&mut lines, "Disabled key: ", flag_badge_text(job.metadata.disabled));
    push_line(&mut lines, "PID: ", text_or_na_of(&details.pid).as_str());
    push_line(&mut lines, "Last Exit Status: ", text_or_na_of(&details.last_exit_status).as_str());
    push_line(&mut lines, "Last Run: ", text_or_na_of(&details.last_run).as_str());
    proof {
        reveal_strlit("");
        assert("LaunchPad Job Details"@ + ""@ =~= "LaunchPad Job Details"@);
        assert("----------------------"@ + ""@ =~= "----------------------"@);
    }
    match &job.error {
        Some(e) => push_line(&mut lines, "Warning: ", e.as_str()),
        None => {},
    }
    match &details.raw_hint {
        Some(h) => push_line(&mut lines, "Runtime Hint: ", h.as_str()),
        None => {},
    }
    assert(str_views(lines@) =~= job_detail_lines(*job, *details));
    crate::text::join_strings(&lines, "\n")
}

/// What the detail pane shows of the selected job.
#[derive(Debug)]
pub struct SelectionDetails {
    pub selected_row: i64,
    pub label: String,
    pub scope: String,
    pub status: String,
    pub path: String,
    pub error: String,
    pub run_at_load: String,
    pub keep_alive: String,
    pub disabled_key: String,
    pub is_starred: bool,
    pub pid: String,
    pub last_exit: String,
    pub last_run: String,
    pub runtime_hint: String,
    pub can_trigger: bool,
    pub can_delete: bool,
}

/// An empty detail pane: no row selected, nothing shown, nothing allowed.
pub open spec fn details_cleared(d: SelectionDetails) -> bool {
    &&& d.selected_row == -1
    &&& d.label@.len() == 0 && d.scope@.len() == 0 && d.status@.len() == 0 && d.path@.len() == 0
    &&& d.error@.len() == 0 && d.run_at_load@.len() == 0 && d.keep_alive@.len() == 0
    &&& d.disabled_key@.len() == 0 && d.pid@.len() == 0 && d.last_exit@.len() == 0
    &&& d.last_run@.len() == 0 && d.runtime_hint@.len() == 0
    &&& !d.is_starred && !d.can_trigger && !d.can_delete
}

/// The detail pane with nothing selected.
pub fn clear_details() -> (r: SelectionDetails)
    ensures
        details_cleared(r),
{
    SelectionDetails {
        selected_row: -1,
        label: String::new(),
        scope: String::new(),
        status: String::new(),
        path: String::new(),
        error: String::new(),
        run_at_load: String::new(),
        keep_alive: String::new(),
        disabled_key: String::new(),
        is_starred: false,
        pid: String::new(),
        last_exit: String::new(),
        last_run: String::new(),
        runtime_hint: String::new(),
        can_trigger: false,
        can_delete: false,
    }
}

/// The detail pane for a job shown at `row` of the list (-1 where it is not shown).
pub open spec fn details_show(d: SelectionDetails, job: JobSummary, details: JobRuntimeDetails, row: int) -> bool {
    &&& d.selected_row == row
    &&& d.label@ == job.label@
    &&& d.scope@ == scope_name(job.scope)
    &&& d.status@ == status_name(job.status)
    &&& d.path@ == job.path@
    &&& d.error@ == match job.error {
        Some(e) => "Warning: "@ + e@,
        None => Seq::empty(),
    }
    &&& d.run_at_load@ == flag_badge(job.metadata.run_at_load)
    &&& d.keep_alive@ == flag_badge(job.metadata.keep_alive)
    &&& d.disabled_key@ == flag_badge(job.metadata.disabled)
    &&& d.is_starred == job.is_starred
    &&& d.pid@ == text_or_na(details.pid)
    &&& d.last_exit@ == text_or_na(details.last_exit_status)
    &&& d.last_run@ == text_or_na(details.last_run)
    &&& d.runtime_hint@ == match details.raw_hint {
        Some(h) => h@,
        None => Seq::empty(),
    }
    &&& d.can_trigger == job.capabilities.can_trigger
    &&& d.can_delete == job.capabilities.can_delete
}

fn copy(s: &str) -> (r: String)
    ensures
        r@ == s@,
{
    from_chars(to_chars(s).as_slice())
}

/// The detail pane for a job.
pub fn selection_details(job: &JobSummary, details: &JobRuntimeDetails, row: i64) -> (r:
    SelectionDetails)
    ensures
        details_show(r, *job, *details, row as int),
{
    let error = match &job.error {
        Some(e) => {
            let mut v: Vec<char> = Vec::new();
            append_str(&mut v, "Warning: ");
            append_str(&mut v, e.as_str());
            from_chars(v.as_slice())
        },
        None => String::new(),
    };
    SelectionDetails {
        selected_row: row,
        label: copy(job.label.as_str()),
        scope: copy(job.scope.as_str()),
        status: copy(job.status_text()),
        path: copy(job.path.as_str()),
        error,
        run_at_load: copy(flag_badge_text(job.metadata.run_at_load)),
        keep_alive: copy(flag_badge_text(job.metadata.keep_alive)),
        disabled_key: copy(flag_badge_text(job.metadata.disabled)),
        is_starred: job.is_starred,
        pid: text_or_na_of(&details.pid),
        last_exit: text_or_na_of(&details.last_exit_status),
        last_run: text_or_na_of(&details.last_run),
        runtime_hint: match &details.raw_hint {
            Some(h) => copy(h.as_str()),
            None => String::new(),
        },
        can_trigger: job.capabilities.can_trigger,
        can_delete: job.capabilities.can_delete,
    }
}

/// A command of the command palette.
#[derive(Debug)]
pub enum PaletteCommand {
    Empty,
    ProviderUsage,
    SwitchProvider(String),
    ListProviders,
    Refresh,
    Trigger(TriggerAction),
    TriggerStarred(TriggerAction),
    Save,
    SaveLoad,
    SaveLoadEnable,
    RunAiActions,
    Logs,
    LogsLive,
    LogsHistory,
    ToggleStar,
    NewJob(JobScope),
    Unknown(String),
}

/// A palette command as plain values.
pub enum PaletteView {
    Empty,
    ProviderUsage,
    SwitchProvider(Seq<char>),
    ListProviders,
    Refresh,
    Trigger(TriggerAction),
    TriggerStarred(TriggerAction),
    Save,
    SaveLoad,
    SaveLoadEnable,
    RunAiActions,
    Logs,
    LogsLive,
    LogsHistory,
    ToggleStar,
    NewJob(JobScope),
    Unknown(Seq<char>),
}

impl View for PaletteCommand {
    type V = PaletteView;

    open spec fn view(&self) -> PaletteView {
        match self {
            PaletteCommand::Empty => PaletteView::Empty,
            PaletteCommand::ProviderUsage => PaletteView::ProviderUsage,
            PaletteCommand::SwitchProvider(n) => PaletteView::SwitchProvider(n@),
            PaletteCommand::ListProviders => PaletteView::ListProviders,
            PaletteCommand::Refresh => PaletteView::Refresh,
            PaletteCommand::Trigger(a) => PaletteView::Trigger(*a),
            PaletteCommand::TriggerStarred(a) => PaletteView::TriggerStarred(*a),
            PaletteCommand::Save => PaletteView::Save,
            PaletteCommand::SaveLoad => PaletteView::SaveLoad,
            PaletteCommand::SaveLoadEnable => PaletteView::SaveLoadEnable,
            PaletteCommand::RunAiActions => PaletteView::RunAiActions,
            PaletteCommand::Logs => PaletteView::Logs,
            PaletteCommand::LogsLive => PaletteView::LogsLive,
            PaletteCommand::LogsHistory => PaletteView::LogsHistory,
            PaletteCommand::ToggleStar => PaletteView::ToggleStar,
            PaletteCommand::NewJob(s) => PaletteView::NewJob(*s),
            PaletteCommand::Unknown(t) => PaletteView::Unknown(t@),
        }
    }
}

/// The action a palette word names alone (`restart` for kickstart).
pub open spec fn palette_single(n: Seq<char>) -> Option<TriggerAction> {
    if n == "start"@ {
        Some(TriggerAction::Start)
    } else if n == "stop"@ {
        Some(TriggerAction::Stop)
    } else if n == "kickstart"@ || n == "restart"@ {
        Some(TriggerAction::Kickstart)
    } else if n == "enable"@ {
        Some(TriggerAction::Enable)
    } else if n == "disable"@ {
        Some(TriggerAction::Disable)
    } else if n == "load"@ {
        Some(TriggerAction::Load)
    } else if n == "unload"@ {
        Some(TriggerAction::Unload)
    } else {
        None
    }
}

/// The action that `<action> starred` names (`restart` for kickstart).
pub open spec fn palette_starred(n: Seq<char>) -> Option<TriggerAction> {
    if n == "start starred"@ {
        Some(TriggerAction::Start)
    } else if n == "stop starred"@ {
        Some(TriggerAction::Stop)
    } else if n == "enable starred"@ {
        Some(TriggerAction::Enable)
    } else if n == "disable starred"@ {
        Some(TriggerAction::Disable)
    } else if n == "load starred"@ {
        Some(TriggerAction::Load)
    } else if n == "unload starred"@ {
        Some(TriggerAction::Unload)
    } else if n == "restart starred"@ || n == "kickstart starred"@ {
        Some(TriggerAction::Kickstart)
    } else {
        None
    }
}

/// The command a palette entry names, read trimmed and in lower case.
pub open spec fn palette_command_of(query: Seq<char>) -> PaletteView {
    let n = lower(trim(query));
    if n.len() == 0 {
        PaletteView::Empty
    } else if strip_prefix(n, "provider "@) is Some {
        let name = trim(strip_prefix(n, "provider "@)->0);
        if name.len() == 0 {
            PaletteView::ProviderUsage
        } else {
            PaletteView::SwitchProvider(name)
        }
    } else if n == "providers"@ {
        PaletteView::ListProviders
    } else if n == "refresh"@ {
        PaletteView::Refresh
    } else if palette_single(n) is Some {
        PaletteView::Trigger(palette_single(n)->0)
    } else if palette_starred(n) is Some {
        PaletteView::TriggerStarred(palette_starred(n)->0)
    } else if n == "save"@ {
        PaletteView::Save
    } else if n == "save load"@ {
        PaletteView::SaveLoad
    } else if n == "save load enable"@ {
        PaletteView::SaveLoadEnable
    } else if n == "ai actions"@ || n == "run ai actions"@ {
        PaletteView::RunAiActions
    } else if n == "logs"@ {
        PaletteView::Logs
    } else if n == "logs live"@ {
        PaletteView::LogsLive
    } else if n == "logs history"@ {
        PaletteView::LogsHistory
    } else if n == "star"@ || n == "unstar"@ {
        PaletteView::ToggleStar
    } else if n == "new user"@ || n == "new user job"@ {
        PaletteView::NewJob(JobScope::UserAgent)
    } else if n == "new global"@ || n == "new global job"@ {
        PaletteView::NewJob(JobScope::GlobalAgent)
    } else {
        PaletteView::Unknown(n)
    }
}

fn palette_single_exec(n: &Vec<char>) -> (r: Option<TriggerAction>)
    ensures
        r == palette_single(n@),
{
    if eq_str(n, "start") {
        Some(TriggerAction::Start)
    } else if eq_str(n, "stop") {
        Some(TriggerAction::Stop)
    } else if eq_str(n, "kickstart") || eq_str(n, "restart") {
        Some(TriggerAction::Kickstart)
    } else if eq_str(n, "enable") {
        Some(TriggerAction::Enable)
    } else if eq_str(n, "disable") {
        Some(TriggerAction::Disable)
    } else if eq_str(n, "load") {
        Some(TriggerAction::Load)
    } else if eq_str(n, "unload") {
        Some(TriggerAction::Unload)
    } else {
        None
    }
}

fn palette_starred_exec(n: &Vec<char>) -> (r: Option<TriggerAction>)
    ensures
        r == palette_starred(n@),
{
    if eq_str(n, "start starred") {
        Some(TriggerAction::Start)
    } else if eq_str(n, "stop starred") {
        Some(TriggerAction::Stop)
    } else if eq_str(n, "enable starred") {
        Some(TriggerAction::Enable)
    } else if eq_str(n, "disable starred") {
        Some(TriggerAction::Disable)
    } else if eq_str(n, "load starred") {
        Some(TriggerAction::Load)
    } else if eq_str(n, "unload starred") {
        Some(TriggerAction::Unload)
    } else if eq_str(n, "restart starred") || eq_str(n, "kickstart starred") {
        Some(TriggerAction::Kickstart)
    } else {
        None
    }
}

/// The command that a palette entry names.
pub fn parse_palette_command(query: &str) -> (r: PaletteCommand)
    ensures
        r@ == palette_command_of(query@),
{
    let n = lower_chars(&trim_chars(&to_chars(query)));
    if n.len() == 0 {
        return PaletteCommand::Empty;
    }
    match strip_prefix_chars(&n, &to_chars("provider ")) {
        Some(rest) => {
            let name = trim_chars(&rest);
            if name.len() == 0 {
                return PaletteCommand::ProviderUsage;
            }
            return PaletteCommand::SwitchProvider(from_chars(name.as_slice()));
        },
        None => {},
    }
    if eq_str(&n, "providers") {
        return PaletteCommand::ListProviders;
    }
    if eq_str(&n, "refresh") {
        return PaletteCommand::Refresh;
    }
    match palette_single_exec(&n) {
        Some(a) => {
            return PaletteCommand::Trigger(a);
        },
        None => {},
    }
    match palette_starred_exec(&n) {
        Some(a) => {
            return PaletteCommand::TriggerStarred(a);
        },
        None => {},
    }
    if eq_str(&n, "save") {
        PaletteCommand::Save
    } else if eq_str(&n, "save load") {
        PaletteCommand::SaveLoad
    } else if eq_str(&n, "save load enable") {
        PaletteCommand::SaveLoadEnable
    } else if eq_str(&n, "ai actions") || eq_str(&n, "run ai actions") {
        PaletteCommand::RunAiActions
    } else if eq_str(&n, "logs") {
        PaletteCommand::Logs
    } else if eq_str(&n, "logs live") {
        PaletteCommand::LogsLive
    } else if eq_str(&n, "logs history") {
        PaletteCommand::LogsHistory
    } else if eq_str(&n, "star") || eq_str(&n, "unstar") {
        PaletteCommand::ToggleStar
    } else if eq_str(&n, "new user") || eq_str(&n, "new user job") {
        PaletteCommand::NewJob(JobScope::UserAgent)
    } else if eq_str(&n, "new global") || eq_str(&n, "new global job") {
        PaletteCommand::NewJob(JobScope::GlobalAgent)
    } else {
        PaletteCommand::Unknown(from_chars(n.as_slice()))
    }
}

} // verus!
