use crate::domain::diagnostic::{DiagnosticIssue, DiagnosticSeverity, IssueView};
use crate::domain::plist_document::{DocView, StandardPlistDocument};
use crate::string_map::{assoc_get, assoc_keys};
use crate::text::{
    chars_eq, contains, contains_str, ends_with, ends_with_str, from_chars, starts_with,
    starts_with_str, to_chars, trim, trim_chars, upper, upper_chars,
};
use vstd::prelude::*;

verus! {

pub open spec fn iv(
    severity: DiagnosticSeverity,
    key: Seq<char>,
    message: Seq<char>,
    suggestion: Seq<char>,
) -> IssueView {
    IssueView { severity, key, message, suggestion }
}

/// One finding where `cond` holds, none otherwise.
pub open spec fn when(cond: bool, issue: IssueView) -> Seq<IssueView> {
    if cond {
        seq![issue]
    } else {
        Seq::empty()
    }
}

pub open spec fn label_issues(label: Seq<char>) -> Seq<IssueView> {
    if trim(label).len() == 0 {
        seq![
            iv(
                DiagnosticSeverity::Error,
                "Label"@,
                "缺少 Label，launchd 无法识别任务标识"@,
                "填写唯一 Label（例如 com.example.worker）"@,
            ),
        ]
    } else {
        when(
            contains(label, " "@),
            iv(
                DiagnosticSeverity::Error,
                "Label"@,
                "Label 不能包含空格"@,
                "使用点号或连字符分隔，例如 com.example.worker"@,
            ),
        ) + when(
            !starts_with(label, "com."@),
            iv(
                DiagnosticSeverity::Info,
                "Label"@,
                "Label 建议使用反向域名前缀"@,
                "将 Label 改为 com.<team>.<service> 风格"@,
            ),
        )
    }
}

pub open spec fn program_issues(program: Seq<char>) -> Seq<IssueView> {
    if trim(program).len() == 0 {
        seq![
            iv(
                DiagnosticSeverity::Error,
                "Program"@,
                "缺少 Program 可执行路径"@,
                "填写可执行文件绝对路径"@,
            ),
        ]
    } else if !starts_with(program, "/"@) {
        seq![
            iv(
                DiagnosticSeverity::Warning,
                "Program"@,
                "Program 不是绝对路径"@,
                "改为绝对路径，例如 /usr/local/bin/task"@,
            ),
        ]
    } else {
        when(
            ends_with(program, ".app"@),
            iv(
                DiagnosticSeverity::Warning,
                "Program"@,
                "Program 指向 .app 包，通常不可直接执行"@,
                "指向 app 内具体可执行文件"@,
            ),
        )
    }
}

pub open spec fn argument_issues(args: Seq<Seq<char>>, program: Seq<char>) -> Seq<IssueView> {
    if args.len() == 0 {
        seq![
            iv(
                DiagnosticSeverity::Info,
                "ProgramArguments"@,
                "未配置 ProgramArguments"@,
                "按需添加参数，第一项通常为程序路径"@,
            ),
        ]
    } else {
        when(
            args[0] != program,
            iv(
                DiagnosticSeverity::Warning,
                "ProgramArguments"@,
                "ProgramArguments 首项与 Program 不一致"@,
                "若无需特殊处理，建议首项与 Program 保持一致"@,
            ),
        )
    }
}

pub open spec fn schedule_issues(d: DocView) -> Seq<IssueView> {
    when(
        d.start_interval == Some(0u64),
        iv(
            DiagnosticSeverity::Error,
            "StartInterval"@,
            "StartInterval 不能为 0"@,
            "设置为大于 0 的秒数，或删除该字段"@,
        ),
    ) + when(
        d.start_interval is Some && d.keep_alive,
        iv(
            DiagnosticSeverity::Warning,
            "KeepAlive/StartInterval"@,
            "KeepAlive 与 StartInterval 同时开启可能产生意外重启行为"@,
            "二者通常二选一，按任务语义保留一个"@,
        ),
    ) + when(
        !d.run_at_load && !d.keep_alive && d.start_interval is None,
        iv(
            DiagnosticSeverity::Warning,
            "RunAtLoad/KeepAlive/StartInterval"@,
            "当前配置可能不会被自动触发"@,
            "开启 RunAtLoad，或配置 KeepAlive/StartInterval"@,
        ),
    )
}

pub open spec fn working_directory_issues(wd: Option<Seq<char>>) -> Seq<IssueView> {
    when(
        wd matches Some(w) && w.len() > 0 && !starts_with(w, "/"@),
        iv(
            DiagnosticSeverity::Warning,
            "WorkingDirectory"@,
            "WorkingDirectory 不是绝对路径"@,
            "改为绝对路径（例如 /Users/you/project）"@,
        ),
    )
}

/// The findings on one environment variable name.
pub open spec fn env_key_issues(key: Seq<char>) -> Seq<IssueView> {
    when(
        trim(key).len() == 0,
        iv(
            DiagnosticSeverity::Error,
            "EnvironmentVariables"@,
            "存在空的环境变量键"@,
            "删除空键并使用 KEY=VALUE 形式"@,
        ),
    ) + when(
        contains(key, " "@),
        iv(
            DiagnosticSeverity::Warning,
            "EnvironmentVariables"@,
            "环境变量键包含空格"@,
            "改为不含空格的键名（例如 APP_ENV）"@,
        ),
    ) + when(
        key != upper(key),
        iv(
            DiagnosticSeverity::Info,
            "EnvironmentVariables"@,
            "环境变量键建议统一大写"@,
            "将键名改为大写以提高可读性"@,
        ),
    )
}

/// The findings on each environment variable name, in key order.
pub open spec fn env_keys_issues(keys: Seq<Seq<char>>) -> Seq<IssueView>
    decreases keys.len(),
{
    if keys.len() == 0 {
        Seq::empty()
    } else {
        env_keys_issues(keys.drop_last()) + env_key_issues(keys.last())
    }
}

pub open spec fn environment_issues(env: Seq<(Seq<char>, Seq<char>)>) -> Seq<IssueView> {
    when(
        env.len() == 0,
        iv(
            DiagnosticSeverity::Info,
            "EnvironmentVariables"@,
            "未配置环境变量"@,
            "如任务依赖 PATH/TZ/代理等可在此补充"@,
        ),
    ) + env_keys_issues(assoc_keys(env)) + when(
        assoc_get(env, "PATH"@) is None,
        iv(
            DiagnosticSeverity::Info,
            "EnvironmentVariables"@,
            "未显式设置 PATH"@,
            "若依赖系统命令，建议显式设置 PATH"@,
        ),
    )
}

/// Every finding on a document, in the order the analysis reports them.
pub open spec fn analysis_of(d: DocView) -> Seq<IssueView> {
    label_issues(d.label) + program_issues(d.program) + argument_issues(
        d.program_arguments,
        d.program,
    ) + schedule_issues(d) + working_directory_issues(d.working_directory) + environment_issues(
        d.environment_variables,
    )
}

/// The findings held by a vector, as plain values.
pub open spec fn issue_views(v: Seq<DiagnosticIssue>) -> Seq<IssueView> {
    v.map_values(|i: DiagnosticIssue| i@)
}

fn issue(severity: DiagnosticSeverity, key: &str, message: &str, suggestion: &str) -> (r:
    DiagnosticIssue)
    ensures
        r@ == iv(severity, key@, message@, suggestion@),
{
    DiagnosticIssue {
        severity,
        key: from_chars(to_chars(key).as_slice()),
        message: from_chars(to_chars(message).as_slice()),
        suggestion: from_chars(to_chars(suggestion).as_slice()),
    }
}

fn add_issue(
    issues: &mut Vec<DiagnosticIssue>,
    severity: DiagnosticSeverity,
    key: &str,
    message: &str,
    suggestion: &str,
)
    ensures
        issue_views(final(issues)@) == issue_views(old(issues)@).push(
            iv(severity, key@, message@, suggestion@),
        ),
{
    let i = issue(severity, key, message, suggestion);
    issues.push(i);
    assert(issue_views(issues@) =~= issue_views(old(issues)@).push(
        iv(severity, key@, message@, suggestion@),
    ));
}

fn check_label(issues: &mut Vec<DiagnosticIssue>, document: &StandardPlistDocument)
    ensures
        issue_views(final(issues)@) == issue_views(old(issues)@) + label_issues(document@.label),
{
    let label = to_chars(document.label.as_str());
    if trim_chars(&label).len() == 0 {
        add_issue(
            issues,
            DiagnosticSeverity::Error,
            "Label",
            "缺少 Label，launchd 无法识别任务标识",
            "填写唯一 Label（例如 com.example.worker）",
        );
    } else {
        if contains_str(&label, " ") {
            add_issue(
                issues,
                DiagnosticSeverity::Error,
                "Label",
                "Label 不能包含空格",
                "使用点号或连字符分隔，例如 com.example.worker",
            );
        }
        if !starts_with_str(&label, "com.") {
            add_issue(
                issues,
                DiagnosticSeverity::Info,
                "Label",
                "Label 建议使用反向域名前缀",
                "将 Label 改为 com.<team>.<service> 风格",
            );
        }
    }
    assert(issue_views(issues@) =~= issue_views(old(issues)@) + label_issues(document@.label));
}

fn check_program(issues: &mut Vec<DiagnosticIssue>, document: &StandardPlistDocument)
    ensures
        issue_views(final(issues)@) == issue_views(old(issues)@) + program_issues(
            document@.program,
        ) + argument_issues(document@.program_arguments, document@.program),
{
    let program = to_chars(document.program.as_str());
    if trim_chars(&program).len() == 0 {
        add_issue(
            issues,
            DiagnosticSeverity::Error,
            "Program",
            "缺少 Program 可执行路径",
            "填写可执行文件绝对路径",
        );
    } else if !starts_with_str(&program, "/") {
        add_issue(
            issues,
            DiagnosticSeverity::Warning,
            "Program",
            "Program 不是绝对路径",
            "改为绝对路径，例如 /usr/local/bin/task",
        );
    } else if ends_with_str(&program, ".app") {
        add_issue(
            issues,
            DiagnosticSeverity::Warning,
            "Program",
            "Program 指向 .app 包，通常不可直接执行",
            "指向 app 内具体可执行文件",
        );
    }
    let ghost mid = issue_views(issues@);
    assert(mid =~= issue_views(old(issues)@) + program_issues(document@.program));
    if document.program_arguments.len() == 0 {
        add_issue(
            issues,
            DiagnosticSeverity::Info,
            "ProgramArguments",
            "未配置 ProgramArguments",
            "按需添加参数，第一项通常为程序路径",
        );
    } else {
        let first = to_chars(document.program_arguments[0].as_str());
        assert(document@.program_arguments[0] == document.program_arguments@[0]@);
        if !chars_eq(&first, &program) {
            add_issue(
                issues,
                DiagnosticSeverity::Warning,
                "ProgramArguments",
                "ProgramArguments 首项与 Program 不一致",
                "若无需特殊处理，建议首项与 Program 保持一致",
            );
        }
    }
    assert(issue_views(issues@) =~= mid + argument_issues(
        document@.program_arguments,
        document@.program,
    ));
}

fn check_schedule(issues: &mut Vec<DiagnosticIssue>, document: &StandardPlistDocument)
    ensures
        issue_views(final(issues)@) == issue_views(old(issues)@) + schedule_issues(document@)
            + working_directory_issues(document@.working_directory),
{
    if document.start_interval == Some(0u64) {
        add_issue(
            issues,
            DiagnosticSeverity::Error,
            "StartInterval",
            "StartInterval 不能为 0",
            "设置为大于 0 的秒数，或删除该字段",
        );
    }
    if document.start_interval.is_some() && document.keep_alive {
        add_issue(
            issues,
            DiagnosticSeverity::Warning,
            "KeepAlive/StartInterval",
            "KeepAlive 与 StartInterval 同时开启可能产生意外重启行为",
            "二者通常二选一，按任务语义保留一个",
        );
    }
    if !document.run_at_load && !document.keep_alive && document.start_interval.is_none() {
        add_issue(
            issues,
            DiagnosticSeverity::Warning,
            "RunAtLoad/KeepAlive/StartInterval",
            "当前配置可能不会被自动触发",
            "开启 RunAtLoad，或配置 KeepAlive/StartInterval",
        );
    }
    let ghost mid = issue_views(issues@);
    assert(mid =~= issue_views(old(issues)@) + schedule_issues(document@));
    if let Some(wd) = &document.working_directory {
        let w = to_chars(wd.as_str());
        if w.len() > 0 && !starts_with_str(&w, "/") {
            add_issue(
                issues,
                DiagnosticSeverity::Warning,
                "WorkingDirectory",
                "WorkingDirectory 不是绝对路径",
                "改为绝对路径（例如 /Users/you/project）",
            );
        }
    }
    assert(issue_views(issues@) =~= mid + working_directory_issues(document@.working_directory));
}

fn check_env_key(issues: &mut Vec<DiagnosticIssue>, key_string: &String)
    ensures
        issue_views(final(issues)@) == issue_views(old(issues)@) + env_key_issues(key_string@),
{
    let key = to_chars(key_string.as_str());
    if trim_chars(&key).len() == 0 {
        add_issue(
            issues,
            DiagnosticSeverity::Error,
            "EnvironmentVariables",
            "存在空的环境变量键",
            "删除空键并使用 KEY=VALUE 形式",
        );
    }
    if contains_str(&key, " ") {
        add_issue(
            issues,
            DiagnosticSeverity::Warning,
            "EnvironmentVariables",
            "环境变量键包含空格",
            "改为不含空格的键名（例如 APP_ENV）",
        );
    }
    let up = upper_chars(&key);
    if !chars_eq(&key, &up) {
        add_issue(
            issues,
            DiagnosticSeverity::Info,
            "EnvironmentVariables",
            "环境变量键建议统一大写",
            "将键名改为大写以提高可读性",
        );
    }
    assert(issue_views(issues@) =~= issue_views(old(issues)@) + env_key_issues(key_string@));
}

fn check_environment(issues: &mut Vec<DiagnosticIssue>, document: &StandardPlistDocument)
    ensures
        issue_views(final(issues)@) == issue_views(old(issues)@) + environment_issues(
            document@.environment_variables,
        ),
{
    if document.environment_variables.is_empty() {
        add_issue(
            issues,
            DiagnosticSeverity::Info,
            "EnvironmentVariables",
            "未配置环境变量",
            "如任务依赖 PATH/TZ/代理等可在此补充",
        );
    }
    let keys = document.environment_variables.keys();
    let ghost kv = crate::text::str_views(keys@);
    let ghost base = issue_views(issues@);
    let mut i: usize = 0;
    while i < keys.len()
        invariant
            i <= keys.len(),
            kv == crate::text::str_views(keys@),
            issue_views(issues@) == base + env_keys_issues(kv.subrange(0, i as int)),
        decreases keys.len() - i,
    {
        let ghost before = issue_views(issues@);
        check_env_key(issues, &keys[i]);
        assert(kv[i as int] == keys@[i as int]@);
        assert(kv.subrange(0, i + 1).drop_last() == kv.subrange(0, i as int));
        assert(issue_views(issues@) =~= base + env_keys_issues(kv.subrange(0, i + 1)));
        i = i + 1;
    }
    assert(kv.subrange(0, keys.len() as int) == kv);
    let ghost mid = issue_views(issues@);
    if !document.environment_variables.contains_key("PATH") {
        add_issue(
            issues,
            DiagnosticSeverity::Info,
            "EnvironmentVariables",
            "未显式设置 PATH",
            "若依赖系统命令，建议显式设置 PATH",
        );
    }
    assert(issue_views(issues@) =~= issue_views(old(issues)@) + environment_issues(
        document@.environment_variables,
    ));
}

/// Checks a plist document for common launchd mistakes.
#[derive(Debug, Default)]
pub struct DiagnosticService;

impl DiagnosticService {
    pub fn analyze(&self, document: &StandardPlistDocument) -> (r: Vec<DiagnosticIssue>)
        ensures
            issue_views(r@) == analysis_of(document@),
    {
        let mut issues: Vec<DiagnosticIssue> = Vec::new();
        assert(issue_views(issues@) =~= Seq::<IssueView>::empty());
        check_label(&mut issues, document);
        check_program(&mut issues, document);
        check_schedule(&mut issues, document);
        check_environment(&mut issues, document);
        assert(issue_views(issues@) =~= analysis_of(document@));
        issues
    }
}


/// Whether some finding carries the key.
pub open spec fn reports_key(issues: Seq<IssueView>, key: Seq<char>) -> bool {
    exists|k: int| 0 <= k < issues.len() && (#[trigger] issues[k]).key == key
}

proof fn lemma_reports_key_concat(a: Seq<IssueView>, b: Seq<IssueView>, key: Seq<char>)
    ensures
        reports_key(a + b, key) <==> reports_key(a, key) || reports_key(b, key),
{
    if reports_key(a + b, key) {
        let k = choose|k: int| 0 <= k < (a + b).len() && (#[trigger] (a + b)[k]).key == key;
        if k < a.len() {
            assert(a[k] == (a + b)[k]);
        } else {
            assert(b[k - a.len()] == (a + b)[k]);
        }
    }
    if reports_key(a, key) {
        let k = choose|k: int| 0 <= k < a.len() && (#[trigger] a[k]).key == key;
        assert((a + b)[k] == a[k]);
    }
    if reports_key(b, key) {
        let k = choose|k: int| 0 <= k < b.len() && (#[trigger] b[k]).key == key;
        assert((a + b)[k + a.len()] == b[k]);
    }
}

proof fn lemma_reports_key_when(c: bool, i: IssueView, key: Seq<char>)
    ensures
        reports_key(when(c, i), key) <==> c && i.key == key,
{
    if c {
        assert(when(c, i)[0] == i);
    }
}

proof fn lemma_env_keys_report(keys: Seq<Seq<char>>, key: Seq<char>)
    requires
        key != "EnvironmentVariables"@,
    ensures
        !reports_key(env_keys_issues(keys), key),
    decreases keys.len(),
{
    if keys.len() > 0 {
        let k = keys.last();
        lemma_env_keys_report(keys.drop_last(), key);
        let e = "EnvironmentVariables"@;
        lemma_reports_key_when(trim(k).len() == 0, iv(DiagnosticSeverity::Error, e, "存在空的环境变量键"@, "删除空键并使用 KEY=VALUE 形式"@), key);
        lemma_reports_key_when(contains(k, " "@), iv(DiagnosticSeverity::Warning, e, "环境变量键包含空格"@, "改为不含空格的键名（例如 APP_ENV）"@), key);
        lemma_reports_key_when(k != upper(k), iv(DiagnosticSeverity::Info, e, "环境变量键建议统一大写"@, "将键名改为大写以提高可读性"@), key);
        let w1 = when(trim(k).len() == 0, iv(DiagnosticSeverity::Error, e, "存在空的环境变量键"@, "删除空键并使用 KEY=VALUE 形式"@));
        let w2 = when(contains(k, " "@), iv(DiagnosticSeverity::Warning, e, "环境变量键包含空格"@, "改为不含空格的键名（例如 APP_ENV）"@));
        let w3 = when(k != upper(k), iv(DiagnosticSeverity::Info, e, "环境变量键建议统一大写"@, "将键名改为大写以提高可读性"@));
        lemma_reports_key_concat(w1, w2, key);
        lemma_reports_key_concat(w1 + w2, w3, key);
        lemma_reports_key_concat(env_keys_issues(keys.drop_last()), env_key_issues(k), key);
    }
}

/// The warning that a job may never be started (key `RunAtLoad/KeepAlive/StartInterval`)
/// is reported exactly when RunAtLoad and KeepAlive are both off and no StartInterval is
/// set: a job kept alive, run at load or started on an interval never gets it.
pub proof fn lemma_untriggered_warning_exact(d: DocView)
    ensures
        reports_key(analysis_of(d), "RunAtLoad/KeepAlive/StartInterval"@) <==> (!d.run_at_load
            && !d.keep_alive && d.start_interval is None),
{
    let key = "RunAtLoad/KeepAlive/StartInterval"@;
    reveal_strlit("RunAtLoad/KeepAlive/StartInterval");
    reveal_strlit("Label");
    reveal_strlit("Program");
    reveal_strlit("ProgramArguments");
    reveal_strlit("StartInterval");
    reveal_strlit("KeepAlive/StartInterval");
    reveal_strlit("WorkingDirectory");
    reveal_strlit("EnvironmentVariables");
    assert(key != "Label"@) by {
        assert(key[0] != "Label"@[0]);
    }
    assert(key != "Program"@) by {
        assert(key[0] != "Program"@[0]);
    }
    assert(key != "ProgramArguments"@);
    assert(key != "StartInterval"@);
    assert(key != "KeepAlive/StartInterval"@);
    assert(key != "WorkingDirectory"@);
    assert(key != "EnvironmentVariables"@) by {
        assert(key[0] != "EnvironmentVariables"@[0]);
    }
    // label findings
    let l = d.label;
    let lw1 = when(contains(l, " "@), iv(DiagnosticSeverity::Error, "Label"@, "Label 不能包含空格"@, "使用点号或连字符分隔，例如 com.example.worker"@));
    let lw2 = when(!starts_with(l, "com."@), iv(DiagnosticSeverity::Info, "Label"@, "Label 建议使用反向域名前缀"@, "将 Label 改为 com.<team>.<service> 风格"@));
    lemma_reports_key_when(contains(l, " "@), iv(DiagnosticSeverity::Error, "Label"@, "Label 不能包含空格"@, "使用点号或连字符分隔，例如 com.example.worker"@), key);
    lemma_reports_key_when(!starts_with(l, "com."@), iv(DiagnosticSeverity::Info, "Label"@, "Label 建议使用反向域名前缀"@, "将 Label 改为 com.<team>.<service> 风格"@), key);
    lemma_reports_key_concat(lw1, lw2, key);
    assert(!reports_key(label_issues(l), key)) by {
        if trim(l).len() == 0 {
            lemma_reports_key_when(true, label_issues(l)[0], key);
            assert(label_issues(l) =~= when(true, label_issues(l)[0]));
        }
    }
    // program findings
    let p = d.program;
    assert(!reports_key(program_issues(p), key)) by {
        if trim(p).len() == 0 || !starts_with(p, "/"@) {
            lemma_reports_key_when(true, program_issues(p)[0], key);
            assert(program_issues(p) =~= when(true, program_issues(p)[0]));
        } else {
            lemma_reports_key_when(ends_with(p, ".app"@), iv(DiagnosticSeverity::Warning, "Program"@, "Program 指向 .app 包，通常不可直接执行"@, "指向 app 内具体可执行文件"@), key);
        }
    }
    let a = d.program_arguments;
    assert(!reports_key(argument_issues(a, p), key)) by {
        if a.len() == 0 {
            lemma_reports_key_when(true, argument_issues(a, p)[0], key);
            assert(argument_issues(a, p) =~= when(true, argument_issues(a, p)[0]));
        } else {
            lemma_reports_key_when(a[0] != p, iv(DiagnosticSeverity::Warning, "ProgramArguments"@, "ProgramArguments 首项与 Program 不一致"@, "若无需特殊处理，建议首项与 Program 保持一致"@), key);
        }
    }
    // schedule findings
    let s1 = when(d.start_interval == Some(0u64), iv(DiagnosticSeverity::Error, "StartInterval"@, "StartInterval 不能为 0"@, "设置为大于 0 的秒数，或删除该字段"@));
    let s2 = when(d.start_interval is Some && d.keep_alive, iv(DiagnosticSeverity::Warning, "KeepAlive/StartInterval"@, "KeepAlive 与 StartInterval 同时开启可能产生意外重启行为"@, "二者通常二选一，按任务语义保留一个"@));
    let s3 = when(!d.run_at_load && !d.keep_alive && d.start_interval is None, iv(DiagnosticSeverity::Warning, key, "当前配置可能不会被自动触发"@, "开启 RunAtLoad，或配置 KeepAlive/StartInterval"@));
    lemma_reports_key_when(d.start_interval == Some(0u64), iv(DiagnosticSeverity::Error, "StartInterval"@, "StartInterval 不能为 0"@, "设置为大于 0 的秒数，或删除该字段"@), key);
    lemma_reports_key_when(d.start_interval is Some && d.keep_alive, iv(DiagnosticSeverity::Warning, "KeepAlive/StartInterval"@, "KeepAlive 与 StartInterval 同时开启可能产生意外重启行为"@, "二者通常二选一，按任务语义保留一个"@), key);
    lemma_reports_key_when(!d.run_at_load && !d.keep_alive && d.start_interval is None, iv(DiagnosticSeverity::Warning, key, "当前配置可能不会被自动触发"@, "开启 RunAtLoad，或配置 KeepAlive/StartInterval"@), key);
    lemma_reports_key_concat(s1, s2, key);
    lemma_reports_key_concat(s1 + s2, s3, key);
    assert(schedule_issues(d) == s1 + s2 + s3);
    // working directory
    lemma_reports_key_when(d.working_directory matches Some(w) && w.len() > 0 && !starts_with(w, "/"@), iv(DiagnosticSeverity::Warning, "WorkingDirectory"@, "WorkingDirectory 不是绝对路径"@, "改为绝对路径（例如 /Users/you/project）"@), key);
    // environment
    let env = d.environment_variables;
    let e = "EnvironmentVariables"@;
    let e1 = when(env.len() == 0, iv(DiagnosticSeverity::Info, e, "未配置环境变量"@, "如任务依赖 PATH/TZ/代理等可在此补充"@));
    let e3 = when(assoc_get(env, "PATH"@) is None, iv(DiagnosticSeverity::Info, e, "未显式设置 PATH"@, "若依赖系统命令，建议显式设置 PATH"@));
    lemma_reports_key_when(env.len() == 0, iv(DiagnosticSeverity::Info, e, "未配置环境变量"@, "如任务依赖 PATH/TZ/代理等可在此补充"@), key);
    lemma_reports_key_when(assoc_get(env, "PATH"@) is None, iv(DiagnosticSeverity::Info, e, "未显式设置 PATH"@, "若依赖系统命令，建议显式设置 PATH"@), key);
    lemma_env_keys_report(assoc_keys(env), key);
    lemma_reports_key_concat(e1, env_keys_issues(assoc_keys(env)), key);
    lemma_reports_key_concat(e1 + env_keys_issues(assoc_keys(env)), e3, key);
    // the whole analysis
    let li = label_issues(d.label);
    let pi = program_issues(d.program);
    let ai = argument_issues(d.program_arguments, d.program);
    let si = schedule_issues(d);
    let wi = working_directory_issues(d.working_directory);
    let ei = environment_issues(d.environment_variables);
    lemma_reports_key_concat(li, pi, key);
    lemma_reports_key_concat(li + pi, ai, key);
    lemma_reports_key_concat(li + pi + ai, si, key);
    lemma_reports_key_concat(li + pi + ai + si, wi, key);
    lemma_reports_key_concat(li + pi + ai + si + wi, ei, key);
}

} // verus!
