use crate::string_map::StringMap;
use crate::text::{
    contains, contains_chars, eq_str, from_chars, join, join_strings, lower, lower_chars, str_eq,
    str_views, to_chars, trim, trim_chars,
};
use vstd::prelude::*;

verus! {

/// How the plist editor shows a document.
#[derive(Debug, Clone, Copy, PartialEq, Eq, Structural)]
pub enum EditorMode {
    Standard,
    Expert,
    Xml,
}

/// A launchd key with a note on what it does.
#[derive(Debug, Clone, Copy)]
pub struct LaunchdKeyDef {
    pub key: &'static str,
    pub note: &'static str,
}

/// The key and note of each definition.
pub open spec fn def_views(v: Seq<LaunchdKeyDef>) -> Seq<(Seq<char>, Seq<char>)> {
    v.map_values(|d: LaunchdKeyDef| (d.key@, d.note@))
}

/// The launchd keys the key panel offers, in the order it lists them.
pub open spec fn key_defs() -> Seq<(Seq<char>, Seq<char>)> {
    seq![
        ("Label"@, "任务唯一标识，通常使用反向域名"@),
        ("Program"@, "可执行文件绝对路径"@),
        ("ProgramArguments"@, "程序参数数组（第一个通常是可执行文件）"@),
        ("RunAtLoad"@, "加载后立即运行"@),
        ("KeepAlive"@, "保持常驻或按策略重启"@),
        ("StartInterval"@, "按秒间隔执行"@),
        ("StartCalendarInterval"@, "按日历时间执行"@),
        ("WorkingDirectory"@, "工作目录"@),
        ("EnvironmentVariables"@, "环境变量字典"@),
        ("StandardInPath"@, "stdin 重定向路径"@),
        ("StandardOutPath"@, "stdout 重定向路径"@),
        ("StandardErrorPath"@, "stderr 重定向路径"@),
        ("UserName"@, "以指定用户运行（daemon 常用）"@),
        ("GroupName"@, "以指定组运行"@),
        ("RootDirectory"@, "chroot 根目录"@),
        ("Umask"@, "文件创建掩码"@),
        ("ProcessType"@, "进程类型（Background/Adaptive 等）"@),
        ("AbandonProcessGroup"@, "退出时不清理进程组"@),
        ("ThrottleInterval"@, "重启节流时间"@),
        ("TimeOut"@, "超时时间"@),
        ("ExitTimeOut"@, "退出等待超时"@),
        ("WatchPaths"@, "监控路径变化触发"@),
        ("QueueDirectories"@, "目录有内容时触发"@),
        ("PathState"@, "路径状态触发条件"@),
        ("MachServices"@, "Mach 服务注册"@),
        ("Sockets"@, "socket 激活配置"@),
        ("inetdCompatibility"@, "兼容 inetd 行为"@),
        ("LaunchOnlyOnce"@, "仅运行一次"@),
        ("LegacyTimers"@, "兼容旧定时器行为"@),
        ("LowPriorityIO"@, "低优先级 IO"@),
        ("Nice"@, "调度优先级"@),
        ("SoftResourceLimits"@, "软资源限制"@),
        ("HardResourceLimits"@, "硬资源限制"@),
        ("SessionCreate"@, "为任务创建会话"@),
        ("AssociatedBundleIdentifiers"@, "关联 app bundle 标识"@),
        ("Disabled"@, "默认禁用标志"@)
    ]
}

/// The launchd keys the key panel offers.
pub fn standard_key_defs() -> (r: Vec<LaunchdKeyDef>)
    ensures
        def_views(r@) == key_defs(),
{
    let r = vec![
        LaunchdKeyDef { key: "Label", note: "任务唯一标识，通常使用反向域名" },
        LaunchdKeyDef { key: "Program", note: "可执行文件绝对路径" },
        LaunchdKeyDef { key: "ProgramArguments", note: "程序参数数组（第一个通常是可执行文件）" },
        LaunchdKeyDef { key: "RunAtLoad", note: "加载后立即运行" },
        LaunchdKeyDef { key: "KeepAlive", note: "保持常驻或按策略重启" },
        LaunchdKeyDef { key: "StartInterval", note: "按秒间隔执行" },
        LaunchdKeyDef { key: "StartCalendarInterval", note: "按日历时间执行" },
        LaunchdKeyDef { key: "WorkingDirectory", note: "工作目录" },
        LaunchdKeyDef { key: "EnvironmentVariables", note: "环境变量字典" },
        LaunchdKeyDef { key: "StandardInPath", note: "stdin 重定向路径" },
        LaunchdKeyDef { key: "StandardOutPath", note: "stdout 重定向路径" },
        LaunchdKeyDef { key: "StandardErrorPath", note: "stderr 重定向路径" },
        LaunchdKeyDef { key: "UserName", note: "以指定用户运行（daemon 常用）" },
        LaunchdKeyDef { key: "GroupName", note: "以指定组运行" },
        LaunchdKeyDef { key: "RootDirectory", note: "chroot 根目录" },
        LaunchdKeyDef { key: "Umask", note: "文件创建掩码" },
        LaunchdKeyDef { key: "ProcessType", note: "进程类型（Background/Adaptive 等）" },
        LaunchdKeyDef { key: "AbandonProcessGroup", note: "退出时不清理进程组" },
        LaunchdKeyDef { key: "ThrottleInterval", note: "重启节流时间" },
        LaunchdKeyDef { key: "TimeOut", note: "超时时间" },
        LaunchdKeyDef { key: "ExitTimeOut", note: "退出等待超时" },
        LaunchdKeyDef { key: "WatchPaths", note: "监控路径变化触发" },
        LaunchdKeyDef { key: "QueueDirectories", note: "目录有内容时触发" },
        LaunchdKeyDef { key: "PathState", note: "路径状态触发条件" },
        LaunchdKeyDef { key: "MachServices", note: "Mach 服务注册" },
        LaunchdKeyDef { key: "Sockets", note: "socket 激活配置" },
        LaunchdKeyDef { key: "inetdCompatibility", note: "兼容 inetd 行为" },
        LaunchdKeyDef { key: "LaunchOnlyOnce", note: "仅运行一次" },
        LaunchdKeyDef { key: "LegacyTimers", note: "兼容旧定时器行为" },
        LaunchdKeyDef { key: "LowPriorityIO", note: "低优先级 IO" },
        LaunchdKeyDef { key: "Nice", note: "调度优先级" },
        LaunchdKeyDef { key: "SoftResourceLimits", note: "软资源限制" },
        LaunchdKeyDef { key: "HardResourceLimits", note: "硬资源限制" },
        LaunchdKeyDef { key: "SessionCreate", note: "为任务创建会话" },
        LaunchdKeyDef { key: "AssociatedBundleIdentifiers", note: "关联 app bundle 标识" },
        LaunchdKeyDef { key: "Disabled", note: "默认禁用标志" }
    ];
    assert(def_views(r@) =~= key_defs());
    r
}

/// Whether a definition's key or note holds the (lower-case) search text.
pub open spec fn def_matches(d: (Seq<char>, Seq<char>), needle: Seq<char>) -> bool {
    contains(lower(d.0), needle) || contains(lower(d.1), needle)
}

/// The definitions that match the search text, in their order.
pub open spec fn defs_matching(defs: Seq<(Seq<char>, Seq<char>)>, needle: Seq<char>) -> Seq<
    (Seq<char>, Seq<char>),
>
    decreases defs.len(),
{
    if defs.len() == 0 {
        Seq::empty()
    } else {
        let rest = defs_matching(defs.drop_last(), needle);
        if def_matches(defs.last(), needle) {
            rest.push(defs.last())
        } else {
            rest
        }
    }
}

/// What the key panel lists for a search: every key for blank text, else the keys whose
/// name or note holds the trimmed text, without regard to ASCII case.
pub open spec fn key_search(keyword: Seq<char>) -> Seq<(Seq<char>, Seq<char>)> {
    let needle = lower(trim(keyword));
    if needle.len() == 0 {
        key_defs()
    } else {
        defs_matching(key_defs(), needle)
    }
}

pub fn search_key_defs(keyword: &str) -> (r: Vec<LaunchdKeyDef>)
    ensures
        def_views(r@) == key_search(keyword@),
{
    let raw = to_chars(keyword);
    let t = trim_chars(&raw);
    let needle = lower_chars(&t);
    let all = standard_key_defs();
    if needle.len() == 0 {
        return all;
    }
    let mut r: Vec<LaunchdKeyDef> = Vec::new();
    let mut i: usize = 0;
    while i < all.len()
        invariant
            i <= all.len(),
            def_views(all@) == key_defs(),
            def_views(r@) == defs_matching(def_views(all@).subrange(0, i as int), needle@),
        decreases all.len() - i,
    {
        let d = all[i];
        let k = to_chars(d.key);
        let n = to_chars(d.note);
        let kl = lower_chars(&k);
        let nl = lower_chars(&n);
        assert(def_views(all@).subrange(0, i + 1).drop_last() == def_views(all@).subrange(0, i as int));
        assert(def_views(all@)[i as int] == (d.key@, d.note@));
        if contains_chars(&kl, &needle) || contains_chars(&nl, &needle) {
            let ghost old_r = r@;
            r.push(d);
            assert(def_views(r@) =~= def_views(old_r).push((d.key@, d.note@)));
        }
        i = i + 1;
    }
    assert(def_views(all@).subrange(0, all.len() as int) == def_views(all@));
    r
}

/// The keys that the standard editor fields manage.
pub open spec fn is_managed_key(key: Seq<char>) -> bool {
    key == "Label"@
    || key == "Program"@
    || key == "ProgramArguments"@
    || key == "RunAtLoad"@
    || key == "KeepAlive"@
    || key == "StartInterval"@
    || key == "WorkingDirectory"@
    || key == "EnvironmentVariables"@
}

pub fn is_standard_managed_key(key: &str) -> (r: bool)
    ensures
        r == is_managed_key(key@),
{
    let k = to_chars(key);
    eq_str(&k, "Label") || eq_str(&k, "Program") || eq_str(&k, "ProgramArguments") || eq_str(&k, "RunAtLoad") || eq_str(&k, "KeepAlive") || eq_str(&k, "StartInterval") || eq_str(&k, "WorkingDirectory") || eq_str(&k, "EnvironmentVariables")
}

/// The fields of a launchd plist that the standard editor handles.
#[derive(Debug, Clone, PartialEq, Eq)]
pub struct StandardPlistDocument {
    pub label: String,
    pub program: String,
    pub program_arguments: Vec<String>,
    pub run_at_load: bool,
    pub keep_alive: bool,
    pub start_interval: Option<u64>,
    pub working_directory: Option<String>,
    pub environment_variables: StringMap,
    pub extra_string_keys: StringMap,
}

/// A document as plain values.
pub struct DocView {
    pub label: Seq<char>,
    pub program: Seq<char>,
    pub program_arguments: Seq<Seq<char>>,
    pub run_at_load: bool,
    pub keep_alive: bool,
    pub start_interval: Option<u64>,
    pub working_directory: Option<Seq<char>>,
    pub environment_variables: Seq<(Seq<char>, Seq<char>)>,
    pub extra_string_keys: Seq<(Seq<char>, Seq<char>)>,
}

pub open spec fn opt_view(o: Option<String>) -> Option<Seq<char>> {
    match o {
        Some(s) => Some(s@),
        None => None,
    }
}

impl View for StandardPlistDocument {
    type V = DocView;

    open spec fn view(&self) -> DocView {
        DocView {
            label: self.label@,
            program: self.program@,
            program_arguments: str_views(self.program_arguments@),
            run_at_load: self.run_at_load,
            keep_alive: self.keep_alive,
            start_interval: self.start_interval,
            working_directory: opt_view(self.working_directory),
            environment_variables: self.environment_variables@,
            extra_string_keys: self.extra_string_keys@,
        }
    }
}

/// The empty document.
pub open spec fn empty_doc() -> DocView {
    DocView {
        label: Seq::empty(),
        program: Seq::empty(),
        program_arguments: Seq::empty(),
        run_at_load: false,
        keep_alive: false,
        start_interval: None,
        working_directory: None,
        environment_variables: Seq::empty(),
        extra_string_keys: Seq::empty(),
    }
}

impl Default for StandardPlistDocument {
    fn default() -> (r: Self)
        ensures
            r@ == empty_doc(),
            r.environment_variables.well_formed(),
            r.extra_string_keys.well_formed(),
    {
        let args: Vec<String> = Vec::new();
        assert(str_views(args@) =~= Seq::<Seq<char>>::empty());
        StandardPlistDocument {
            label: String::new(),
            program: String::new(),
            program_arguments: args,
            run_at_load: false,
            keep_alive: false,
            start_interval: None,
            working_directory: None,
            environment_variables: StringMap::new(),
            extra_string_keys: StringMap::new(),
        }
    }
}

impl StandardPlistDocument {
    /// The program arguments joined by single spaces.
    pub fn to_program_arguments_line(&self) -> (r: String)
        ensures
            r@ == join(str_views(self.program_arguments@), " "@),
    {
        join_strings(&self.program_arguments, " ")
    }
}

fn copy_string(s: &String) -> (r: String)
    ensures
        r@ == s@,
{
    from_chars(to_chars(s.as_str()).as_slice())
}

fn strings_equal(a: &Vec<String>, b: &Vec<String>) -> (r: bool)
    ensures
        r == (str_views(a@) == str_views(b@)),
{
    if a.len() != b.len() {
        assert(str_views(a@).len() != str_views(b@).len());
        return false;
    }
    let mut i: usize = 0;
    while i < a.len()
        invariant
            i <= a.len() == b.len(),
            forall|j: int| 0 <= j < i ==> a@[j]@ == b@[j]@,
        decreases a.len() - i,
    {
        if !str_eq(a[i].as_str(), b[i].as_str()) {
            assert(str_views(a@)[i as int] != str_views(b@)[i as int]);
            return false;
        }
        i = i + 1;
    }
    assert(str_views(a@) =~= str_views(b@));
    true
}

fn maps_equal(a: &StringMap, b: &StringMap) -> (r: bool)
    ensures
        r == (a@ == b@),
{
    if a.len() != b.len() {
        return false;
    }
    let mut i: usize = 0;
    while i < a.len()
        invariant
            i <= a@.len() == b@.len(),
            forall|j: int| 0 <= j < i ==> a@[j] == b@[j],
        decreases a@.len() - i,
    {
        if !str_eq(a.key_at(i).as_str(), b.key_at(i).as_str()) || !str_eq(
            a.value_at(i).as_str(),
            b.value_at(i).as_str(),
        ) {
            return false;
        }
        i = i + 1;
    }
    assert(a@ =~= b@);
    true
}

impl StandardPlistDocument {
    /// A copy of the document.
    pub fn duplicate(&self) -> (r: Self)
        ensures
            r@ == self@,
    {
        let mut args: Vec<String> = Vec::new();
        let mut i: usize = 0;
        while i < self.program_arguments.len()
            invariant
                i <= self.program_arguments.len(),
                str_views(args@) == str_views(self.program_arguments@).take(i as int),
            decreases self.program_arguments.len() - i,
        {
            let ghost before = args@;
            let x = copy_string(&self.program_arguments[i]);
            args.push(x);
            proof {
                crate::text::lemma_str_views_push(before, x);
            }
            assert(str_views(self.program_arguments@).take(i + 1) =~= str_views(
                self.program_arguments@,
            ).take(i as int).push(x@));
            i = i + 1;
        }
        assert(str_views(self.program_arguments@).take(self.program_arguments.len() as int)
            =~= str_views(self.program_arguments@));
        StandardPlistDocument {
            label: copy_string(&self.label),
            program: copy_string(&self.program),
            program_arguments: args,
            run_at_load: self.run_at_load,
            keep_alive: self.keep_alive,
            start_interval: self.start_interval,
            working_directory: match &self.working_directory {
                Some(w) => Some(copy_string(w)),
                None => None,
            },
            environment_variables: self.environment_variables.duplicate(),
            extra_string_keys: self.extra_string_keys.duplicate(),
        }
    }

    /// Whether two documents say the same.
    pub fn same_as(&self, other: &StandardPlistDocument) -> (r: bool)
        ensures
            r == (self@ == other@),
    {
        let wd = match (&self.working_directory, &other.working_directory) {
            (Some(a), Some(b)) => str_eq(a.as_str(), b.as_str()),
            (None, None) => true,
            _ => false,
        };
        let r = str_eq(self.label.as_str(), other.label.as_str()) && str_eq(
            self.program.as_str(),
            other.program.as_str(),
        ) && strings_equal(&self.program_arguments, &other.program_arguments)
            && self.run_at_load == other.run_at_load && self.keep_alive == other.keep_alive
            && self.start_interval == other.start_interval && wd && maps_equal(
            &self.environment_variables,
            &other.environment_variables,
        ) && maps_equal(&self.extra_string_keys, &other.extra_string_keys);
        proof {
            if !wd {
                assert(opt_view(self.working_directory) != opt_view(other.working_directory));
            }
        }
        r
    }
}

} // verus!
