//! The plist editor's text fields: filling them from a document, reading a document back
//! from them, key templates, prompt-driven patches and line diffs.
use crate::adapter::plist_doc::PlistDocumentStore;
use crate::domain::job::JobScope;
use crate::domain::plist_document::{opt_view, DocView, StandardPlistDocument};
use crate::error::{error_message, AppError};
use crate::service::plist_service::{env_pairs_of, env_pairs_text, PlistService};
use crate::string_map::{assoc_get, assoc_insert, StringMap};
use crate::text::{
    append_chars, append_str, contains, contains_chars, contains_str, decimal, decimal_chars,
    eq_str, from_chars, join, lines, lines_chars, lower, lower_chars, parse_u64, parse_u64_chars,
    str_views, to_chars, trim, trim_chars, trim_nondigits, trim_nondigits_chars, views, words,
    words_chars,
};
use vstd::prelude::*;

verus! {

/// What the editor is editing: a listed job's plist, or a new plist of a scope.
#[derive(Debug, Clone, Copy, PartialEq, Eq, Structural)]
pub enum EditorTarget {
    Existing { index: usize },
    New { scope: JobScope },
}

/// The editor's fields, as the user sees and types them.
#[derive(Debug)]
pub struct EditorState {
    pub label: String,
    pub program: String,
    pub program_arguments: String,
    pub run_at_load: bool,
    pub keep_alive: bool,
    pub start_interval: String,
    pub working_directory: String,
    pub environment_variables: String,
    pub expert_entries: String,
    pub xml_preview: String,
    pub diagnostics_text: String,
    pub ai_prompt: String,
    pub ai_response: String,
    pub ai_diff_preview: String,
    pub log_live_mode: bool,
    pub log_window_minutes: String,
    pub log_stream_seconds: String,
    pub log_max_lines: String,
}

/// An editor with every field empty and every switch off.
pub open spec fn blank_editor(e: EditorState) -> bool {
    &&& e.label@.len() == 0 && e.program@.len() == 0 && e.program_arguments@.len() == 0
    &&& !e.run_at_load && !e.keep_alive && !e.log_live_mode
    &&& e.start_interval@.len() == 0 && e.working_directory@.len() == 0
    &&& e.environment_variables@.len() == 0 && e.expert_entries@.len() == 0
    &&& e.xml_preview@.len() == 0 && e.diagnostics_text@.len() == 0
    &&& e.ai_prompt@.len() == 0 && e.ai_response@.len() == 0 && e.ai_diff_preview@.len() == 0
    &&& e.log_window_minutes@.len() == 0 && e.log_stream_seconds@.len() == 0
    &&& e.log_max_lines@.len() == 0
}

impl Default for EditorState {
    fn default() -> (r: Self)
        ensures
            blank_editor(r),
    {
        EditorState {
            label: String::new(),
            program: String::new(),
            program_arguments: String::new(),
            run_at_load: false,
            keep_alive: false,
            start_interval: String::new(),
            working_directory: String::new(),
            environment_variables: String::new(),
            expert_entries: String::new(),
            xml_preview: String::new(),
            diagnostics_text: String::new(),
            ai_prompt: String::new(),
            ai_response: String::new(),
            ai_diff_preview: String::new(),
            log_live_mode: false,
            log_window_minutes: String::new(),
            log_stream_seconds: String::new(),
            log_max_lines: String::new(),
        }
    }
}

fn string_of(s: &str) -> (r: String)
    ensures
        r@ == s@,
{
    from_chars(to_chars(s).as_slice())
}

/// The editor's document fields show the document: arguments joined by spaces, the
/// interval in decimal, absent values empty, variables and extra keys as `KEY=VALUE` lists.
pub open spec fn editor_shows(e: EditorState, d: DocView) -> bool {
    &&& e.label@ == d.label
    &&& e.program@ == d.program
    &&& e.program_arguments@ == join(d.program_arguments, " "@)
    &&& e.run_at_load == d.run_at_load
    &&& e.keep_alive == d.keep_alive
    &&& e.start_interval@ == match d.start_interval {
        Some(n) => decimal(n as nat),
        None => Seq::empty(),
    }
    &&& e.working_directory@ == match d.working_directory {
        Some(w) => w,
        None => Seq::empty(),
    }
    &&& e.environment_variables@ == env_pairs_text(d.environment_variables)
    &&& e.expert_entries@ == env_pairs_text(d.extra_string_keys)
}

impl EditorState {
    /// The editor filled from a document, with empty previews and the log settings at 10
    /// minutes, 5 seconds and 120 lines.
    pub fn from_document<D: PlistDocumentStore>(
        document: &StandardPlistDocument,
        plist_service: &PlistService<D>,
    ) -> (r: Self)
        ensures
            editor_shows(r, document@),
            r.xml_preview@.len() == 0 && r.diagnostics_text@.len() == 0,
            r.ai_prompt@.len() == 0 && r.ai_response@.len() == 0 && r.ai_diff_preview@.len() == 0,
            !r.log_live_mode,
            r.log_window_minutes@ == "10"@ && r.log_stream_seconds@ == "5"@ && r.log_max_lines@
                == "120"@,
    {
        EditorState {
            label: string_of(document.label.as_str()),
            program: string_of(document.program.as_str()),
            program_arguments: document.to_program_arguments_line(),
            run_at_load: document.run_at_load,
            keep_alive: document.keep_alive,
            start_interval: match document.start_interval {
                Some(n) => from_chars(decimal_chars(n).as_slice()),
                None => String::new(),
            },
            working_directory: match &document.working_directory {
                Some(w) => string_of(w.as_str()),
                None => String::new(),
            },
            environment_variables: plist_service.format_env_pairs(&document.environment_variables),
            expert_entries: plist_service.format_extra_pairs(&document.extra_string_keys),
            xml_preview: String::new(),
            diagnostics_text: String::new(),
            ai_prompt: String::new(),
            ai_response: String::new(),
            ai_diff_preview: String::new(),
            log_live_mode: false,
            log_window_minutes: string_of("10"),
            log_stream_seconds: string_of("5"),
            log_max_lines: string_of("120"),
        }
    }

    /// The draft of a new job: a placeholder label and program, run at load.
    pub fn new_job_draft() -> (r: Self)
        ensures
            r.label@ == "com.example.new-job"@,
            r.program@ == "/usr/bin/true"@,
            r.run_at_load,
            !r.keep_alive,
            r.program_arguments@.len() == 0 && r.start_interval@.len() == 0
                && r.working_directory@.len() == 0 && r.environment_variables@.len() == 0
                && r.expert_entries@.len() == 0,
    {
        let mut e = EditorState::default();
        e.label = string_of("com.example.new-job");
        e.program = string_of("/usr/bin/true");
        e.run_at_load = true;
        e.keep_alive = false;
        e
    }
}

/// The document the editor's fields describe, or why they do not describe one.
pub open spec fn document_of_editor(e: EditorState) -> Result<DocView, Seq<char>> {
    let si = trim(e.start_interval@);
    let interval: Result<Option<u64>, Seq<char>> = if si.len() == 0 {
        Ok(None)
    } else {
        match parse_u64(si) {
            Some(n) => Ok(Some(n)),
            None => Err("StartInterval must be a non-negative integer"@),
        }
    };
    match interval {
        Err(m) => Err(m),
        Ok(iv) => match env_pairs_of(e.environment_variables@) {
            Err(m) => Err(m),
            Ok(env) => match env_pairs_of(e.expert_entries@) {
                Err(m) => Err(m),
                Ok(extra) => Ok(
                    DocView {
                        label: trim(e.label@),
                        program: trim(e.program@),
                        program_arguments: words(e.program_arguments@),
                        run_at_load: e.run_at_load,
                        keep_alive: e.keep_alive,
                        start_interval: iv,
                        working_directory: if trim(e.working_directory@).len() > 0 {
                            Some(trim(e.working_directory@))
                        } else {
                            None
                        },
                        environment_variables: env,
                        extra_string_keys: extra,
                    },
                ),
            },
        },
    }
}

/// The document that the editor's fields describe.
pub fn editor_document_from_state<D: PlistDocumentStore>(
    state: &EditorState,
    plist_service: &PlistService<D>,
) -> (r: Result<StandardPlistDocument, String>)
    ensures
        r matches Ok(d) ==> document_of_editor(*state) == Ok::<DocView, Seq<char>>(d@)
            && d.environment_variables.well_formed() && d.extra_string_keys.well_formed(),
        r matches Err(m) ==> document_of_editor(*state) == Err::<DocView, Seq<char>>(m@),
{
    let si = trim_chars(&to_chars(state.start_interval.as_str()));
    let start_interval = if si.len() == 0 {
        None
    } else {
        match parse_u64_chars(&si) {
            Some(n) => Some(n),
            None => {
                return Err(string_of("StartInterval must be a non-negative integer"));
            },
        }
    };
    let environment_variables = match plist_service.parse_env_pairs(
        state.environment_variables.as_str(),
    ) {
        Ok(m) => m,
        Err(e) => {
            return Err(e.message());
        },
    };
    let extra_string_keys = match plist_service.parse_extra_pairs(state.expert_entries.as_str()) {
        Ok(m) => m,
        Err(e) => {
            return Err(e.message());
        },
    };
    let wd = trim_chars(&to_chars(state.working_directory.as_str()));
    let args = plist_service.parse_program_arguments(state.program_arguments.as_str());
    let d = StandardPlistDocument {
        label: from_chars(trim_chars(&to_chars(state.label.as_str())).as_slice()),
        program: from_chars(trim_chars(&to_chars(state.program.as_str())).as_slice()),
        program_arguments: args,
        run_at_load: state.run_at_load,
        keep_alive: state.keep_alive,
        start_interval,
        working_directory: if wd.len() > 0 {
            Some(from_chars(wd.as_slice()))
        } else {
            None
        },
        environment_variables,
        extra_string_keys,
    };
    assert(d@ == document_of_editor(*state)->Ok_0);
    Ok(d)
}

/// The first whitespace-separated token that, stripped of non-digits at both ends, is a
/// `u64`.
pub open spec fn first_number_in(tokens: Seq<Seq<char>>) -> Option<u64>
    decreases tokens.len(),
{
    if tokens.len() == 0 {
        None
    } else {
        match parse_u64(trim_nondigits(tokens[0])) {
            Some(n) => Some(n),
            None => first_number_in(tokens.drop_first()),
        }
    }
}

pub fn first_u64_in_text(text: &str) -> (r: Option<u64>)
    ensures
        r == first_number_in(words(text@)),
{
    let ws = words_chars(&to_chars(text));
    let mut i: usize = 0;
    assert(views(ws@).skip(0) =~= views(ws@));
    while i < ws.len()
        invariant
            i <= ws.len(),
            first_number_in(views(ws@)) == first_number_in(views(ws@).skip(i as int)),
            views(ws@) == words(text@),
        decreases ws.len() - i,
    {
        let ghost rest = views(ws@).skip(i as int);
        assert(rest[0] == ws@[i as int]@);
        assert(rest.drop_first() =~= views(ws@).skip(i + 1));
        match parse_u64_chars(&trim_nondigits_chars(&ws[i])) {
            Some(n) => {
                return Some(n);
            },
            None => {},
        }
        i = i + 1;
    }
    None
}

/// A line of one side of a diff, or an empty line past its end.
pub open spec fn line_or_empty(ls: Seq<Seq<char>>, i: int) -> Seq<char> {
    if i < ls.len() {
        ls[i]
    } else {
        Seq::empty()
    }
}

/// The diff lines for the first `n` line positions: for each position whose lines differ,
/// the old line with `- ` and the new line with `+ `, each where it is not empty.
pub open spec fn diff_lines(a: Seq<Seq<char>>, b: Seq<Seq<char>>, n: nat) -> Seq<Seq<char>>
    decreases n,
{
    if n == 0 {
        Seq::empty()
    } else {
        let rest = diff_lines(a, b, (n - 1) as nat);
        let l = line_or_empty(a, n - 1);
        let r = line_or_empty(b, n - 1);
        if l != r {
            let x = if l.len() > 0 {
                rest.push("- "@ + l)
            } else {
                rest
            };
            if r.len() > 0 {
                x.push("+ "@ + r)
            } else {
                x
            }
        } else {
            rest
        }
    }
}

/// The line diff of two texts, or `No line changes.` where no line differs.
pub open spec fn line_diff_text(before: Seq<char>, after: Seq<char>) -> Seq<char> {
    let a = lines(before);
    let b = lines(after);
    let n = if a.len() >= b.len() {
        a.len()
    } else {
        b.len()
    };
    let d = diff_lines(a, b, n);
    if d.len() == 0 {
        "No line changes."@
    } else {
        join(d, "\n"@)
    }
}

fn prefixed(prefix: &str, line: &Vec<char>) -> (r: String)
    ensures
        r@ == prefix@ + line@,
{
    let mut v: Vec<char> = Vec::new();
    append_str(&mut v, prefix);
    append_chars(&mut v, line);
    from_chars(v.as_slice())
}

pub fn build_line_diff(before: &str, after: &str) -> (r: String)
    ensures
        r@ == line_diff_text(before@, after@),
{
    let a = lines_chars(&to_chars(before));
    let b = lines_chars(&to_chars(after));
    let n = if a.len() >= b.len() {
        a.len()
    } else {
        b.len()
    };
    let mut out: Vec<String> = Vec::new();
    let mut i: usize = 0;
    assert(str_views(out@) =~= Seq::<Seq<char>>::empty());
    while i < n
        invariant
            i <= n,
            n == a.len() || n == b.len(),
            a.len() <= n && b.len() <= n,
            views(a@) == lines(before@),
            views(b@) == lines(after@),
            str_views(out@) == diff_lines(views(a@), views(b@), i as nat),
        decreases n - i,
    {
        let empty: Vec<char> = Vec::new();
        let left = if i < a.len() {
            a[i].clone()
        } else {
            empty.clone()
        };
        let right = if i < b.len() {
            b[i].clone()
        } else {
            empty
        };
        assert(left@ =~= line_or_empty(views(a@), i as int));
        assert(right@ =~= line_or_empty(views(b@), i as int));
        if !crate::text::chars_eq(&left, &right) {
            if left.len() > 0 {
                let ghost before_out = out@;
                let x = prefixed("- ", &left);
                out.push(x);
                proof {
                    crate::text::lemma_str_views_push(before_out, x);
                }
            }
            if right.len() > 0 {
                let ghost before_out = out@;
                let x = prefixed("+ ", &right);
                out.push(x);
                proof {
                    crate::text::lemma_str_views_push(before_out, x);
                }
            }
        }
        i = i + 1;
    }
    if out.len() == 0 {
        string_of("No line changes.")
    } else {
        crate::text::join_strings(&out, "\n")
    }
}

/// Comparing a text with itself finds no changed line.
pub proof fn lemma_line_diff_of_same_text(text: Seq<char>)
    ensures
        line_diff_text(text, text) == "No line changes."@,
{
    let a = lines(text);
    assert forall|n: nat| n <= a.len() implies diff_lines(a, a, n).len() == 0 by {
        lemma_diff_same(a, n);
    }
}

proof fn lemma_diff_same(a: Seq<Seq<char>>, n: nat)
    ensures
        diff_lines(a, a, n).len() == 0,
    decreases n,
{
    if n > 0 {
        lemma_diff_same(a, (n - 1) as nat);
    }
}

/// The expert entries after adding a template for `key`: the entries that the text
/// holds (none if it does not parse) with `key` set to `<value>` unless already present.
pub open spec fn expert_with_template(expert: Seq<char>, key: Seq<char>) -> Seq<char> {
    let m = match env_pairs_of(expert) {
        Ok(m) => m,
        Err(_) => Seq::empty(),
    };
    if assoc_get(m, key) is Some {
        env_pairs_text(m)
    } else {
        env_pairs_text(assoc_insert(m, key, "<value>"@))
    }
}

/// What filling in the template for `key` does to the editor's fields.
pub open spec fn template_added(o: EditorState, key: Seq<char>, n: EditorState) -> bool {
    &&& (key == "Label"@ ==> n.label@ == (if trim(o.label@).len() == 0 {
            "com.example.new-job"@
        } else {
            o.label@
        }))
    &&& (key == "Program"@ ==> n.program@ == (if trim(o.program@).len() == 0 {
            "/usr/bin/true"@
        } else {
            o.program@
        }))
    &&& (key == "ProgramArguments"@ ==> n.program_arguments@ == (if trim(
            o.program_arguments@,
        ).len() == 0 {
            if o.program@.len() == 0 {
                "/usr/bin/true"@
            } else {
                o.program@
            }
        } else {
            o.program_arguments@
        }))
    &&& (key == "RunAtLoad"@ ==> n.run_at_load)
    &&& (key == "KeepAlive"@ ==> n.keep_alive)
    &&& (key == "StartInterval"@ ==> n.start_interval@ == (if trim(
            o.start_interval@,
        ).len() == 0 {
            "60"@
        } else {
            o.start_interval@
        }))
    &&& (key == "WorkingDirectory"@ ==> n.working_directory@ == (if trim(
            o.working_directory@,
        ).len() == 0 {
            "/tmp"@
        } else {
            o.working_directory@
        }))
    &&& (key == "EnvironmentVariables"@ ==> n.environment_variables@ == (if trim(
            o.environment_variables@,
        ).len() == 0 {
            "PATH=/usr/bin:/bin:/usr/sbin:/sbin"@
        } else {
            o.environment_variables@
        }))
    &&& (!is_field_key(key) ==> n.expert_entries@ == expert_with_template(
            o.expert_entries@,
            key,
        ))
}

/// Fills in a template for a launchd key: standard keys fill their field where it is
/// blank (or switch their flag on); other keys are added to the expert entries.
pub fn add_key_template<D: PlistDocumentStore>(
    state: &mut EditorState,
    key: &str,
    plist_service: &PlistService<D>,
)
    ensures
        template_added(*old(state), key@, *final(state)),
{
    proof {
        reveal_strlit("Label");
        reveal_strlit("Program");
        reveal_strlit("ProgramArguments");
        reveal_strlit("RunAtLoad");
        reveal_strlit("KeepAlive");
        reveal_strlit("StartInterval");
        reveal_strlit("WorkingDirectory");
        reveal_strlit("EnvironmentVariables");
    }
    let k = to_chars(key);
    assert("Label"@.len() == 5 && "Program"@.len() == 7 && "ProgramArguments"@.len() == 16
        && "RunAtLoad"@.len() == 9 && "KeepAlive"@.len() == 9 && "StartInterval"@.len() == 13
        && "WorkingDirectory"@.len() == 16 && "EnvironmentVariables"@.len() == 20);
    assert("RunAtLoad"@[0] == 'R' && "KeepAlive"@[0] == 'K');
    assert("ProgramArguments"@[0] == 'P' && "WorkingDirectory"@[0] == 'W');
    if eq_str(&k, "Label") {
        if trim_chars(&to_chars(state.label.as_str())).len() == 0 {
            state.label = string_of("com.example.new-job");
        }
    } else if eq_str(&k, "Program") {
        if trim_chars(&to_chars(state.program.as_str())).len() == 0 {
            state.program = string_of("/usr/bin/true");
        }
    } else if eq_str(&k, "ProgramArguments") {
        if trim_chars(&to_chars(state.program_arguments.as_str())).len() == 0 {
            state.program_arguments = if to_chars(state.program.as_str()).len() == 0 {
                string_of("/usr/bin/true")
            } else {
                string_of(state.program.as_str())
            };
        }
    } else if eq_str(&k, "RunAtLoad") {
        state.run_at_load = true;
    } else if eq_str(&k, "KeepAlive") {
        state.keep_alive = true;
    } else if eq_str(&k, "StartInterval") {
        if trim_chars(&to_chars(state.start_interval.as_str())).len() == 0 {
            state.start_interval = string_of("60");
        }
    } else if eq_str(&k, "WorkingDirectory") {
        if trim_chars(&to_chars(state.working_directory.as_str())).len() == 0 {
            state.working_directory = string_of("/tmp");
        }
    } else if eq_str(&k, "EnvironmentVariables") {
        if trim_chars(&to_chars(state.environment_variables.as_str())).len() == 0 {
            state.environment_variables = string_of("PATH=/usr/bin:/bin:/usr/sbin:/sbin");
        }
    } else {
        let mut expert_map = match plist_service.parse_extra_pairs(state.expert_entries.as_str()) {
            Ok(m) => m,
            Err(_) => StringMap::new(),
        };
        if !expert_map.contains_key(key) {
            expert_map.insert(string_of(key), string_of("<value>"));
        }
        state.expert_entries = plist_service.format_extra_pairs(&expert_map);
    }
}

/// Whether a key has a field of its own in the editor.
pub open spec fn is_field_key(key: Seq<char>) -> bool {
    ||| key == "Label"@
    ||| key == "Program"@
    ||| key == "ProgramArguments"@
    ||| key == "RunAtLoad"@
    ||| key == "KeepAlive"@
    ||| key == "StartInterval"@
    ||| key == "WorkingDirectory"@
    ||| key == "EnvironmentVariables"@
}

/// The document that a prompt asks for, or none where it asks for no change: run at
/// load, keep alive (or not), an interval named by the first number, and log paths.
pub open spec fn patched_by_prompt(prompt: Seq<char>, d: DocView) -> Option<DocView> {
    let n = lower(prompt);
    let want_run = (contains(n, "run at load"@) || contains(n, "开机"@)) && !d.run_at_load;
    let d1 = if want_run {
        DocView { run_at_load: true, ..d }
    } else {
        d
    };
    let want_keep = (contains(n, "keep alive"@) || contains(n, "常驻"@)) && !d1.keep_alive;
    let d2 = if want_keep {
        DocView { keep_alive: true, ..d1 }
    } else {
        d1
    };
    let want_off = contains(n, "disable keep alive"@) || contains(n, "keepalive off"@) || (
    contains(n, "关闭常驻"@) && d2.keep_alive);
    let d3 = if want_off {
        DocView { keep_alive: false, ..d2 }
    } else {
        d2
    };
    let interval = if contains(n, "interval"@) || contains(n, "定时"@) {
        first_number_in(words(n))
    } else {
        None
    };
    let want_interval = interval matches Some(iv) && d3.start_interval != Some(iv);
    let d4 = if want_interval {
        DocView { start_interval: interval, ..d3 }
    } else {
        d3
    };
    let want_logs = contains(n, "log"@) || contains(n, "日志"@);
    let want_out = want_logs && assoc_get(d4.extra_string_keys, "StandardOutPath"@) is None;
    let d5 = if want_out {
        DocView {
            extra_string_keys: assoc_insert(
                d4.extra_string_keys,
                "StandardOutPath"@,
                "/tmp/launchpad.out.log"@,
            ),
            ..d4
        }
    } else {
        d4
    };
    let want_err = want_logs && assoc_get(d5.extra_string_keys, "StandardErrorPath"@) is None;
    let d6 = if want_err {
        DocView {
            extra_string_keys: assoc_insert(
                d5.extra_string_keys,
                "StandardErrorPath"@,
                "/tmp/launchpad.err.log"@,
            ),
            ..d5
        }
    } else {
        d5
    };
    if want_run || want_keep || want_off || want_interval || want_out || want_err {
        Some(d6)
    } else {
        None
    }
}

/// The document that the prompt asks for, where it asks for a change.
pub fn ai_patch_candidate_from_prompt(prompt: &str, current_document: &StandardPlistDocument) -> (r:
    Option<StandardPlistDocument>)
    ensures
        r matches Some(d) ==> patched_by_prompt(prompt@, current_document@) == Some(d@),
        r is None ==> patched_by_prompt(prompt@, current_document@) is None,
{
    let n = lower_chars(&to_chars(prompt));
    let mut candidate = current_document.duplicate();
    let mut changed = false;
    if (contains_str(&n, "run at load") || contains_str(&n, "开机")) && !candidate.run_at_load {
        candidate.run_at_load = true;
        changed = true;
    }
    if (contains_str(&n, "keep alive") || contains_str(&n, "常驻")) && !candidate.keep_alive {
        candidate.keep_alive = true;
        changed = true;
    }
    if contains_str(&n, "disable keep alive") || contains_str(&n, "keepalive off") || (
    contains_str(&n, "关闭常驻") && candidate.keep_alive) {
        candidate.keep_alive = false;
        changed = true;
    }
    if contains_str(&n, "interval") || contains_str(&n, "定时") {
        let text = from_chars(n.as_slice());
        match first_u64_in_text(text.as_str()) {
            Some(interval) => {
                if candidate.start_interval != Some(interval) {
                    candidate.start_interval = Some(interval);
                    changed = true;
                }
            },
            None => {},
        }
    }
    if contains_str(&n, "log") || contains_str(&n, "日志") {
        if !candidate.extra_string_keys.contains_key("StandardOutPath") {
            candidate.extra_string_keys.insert(
                string_of("StandardOutPath"),
                string_of("/tmp/launchpad.out.log"),
            );
            changed = true;
        }
        if !candidate.extra_string_keys.contains_key("StandardErrorPath") {
            candidate.extra_string_keys.insert(
                string_of("StandardErrorPath"),
                string_of("/tmp/launchpad.err.log"),
            );
            changed = true;
        }
    }
    if changed {
        Some(candidate)
    } else {
        None
    }
}

} // verus!
