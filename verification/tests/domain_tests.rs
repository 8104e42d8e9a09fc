use launchpad::controller::filters::{job_matches_filters, ScopeFilter};
use launchpad::domain::action::TriggerAction;
use launchpad::domain::filter::{AdvancedFilter, TriStateFilter};
use launchpad::domain::job::{sort_jobs, JobCapabilities, JobMetadata, JobScope, JobSummary};
use launchpad::domain::plist_document::search_key_defs;
use launchpad::domain::status::JobStatus;

fn job_fixture(label: &str, path: &str) -> JobSummary {
    JobSummary {
        id: label.to_string(),
        label: label.to_string(),
        path: path.to_string(),
        scope: JobScope::UserAgent,
        status: JobStatus::Loaded,
        is_starred: false,
        metadata: JobMetadata::default(),
        capabilities: JobCapabilities {
            can_trigger: true,
            can_delete: true,
            trigger_reason: None,
            delete_reason: None,
        },
        error: None,
    }
}

fn with_scope(mut job: JobSummary, scope: JobScope) -> JobSummary {
    job.scope = scope;
    job
}

#[test]
fn restart_alias_maps_to_kickstart() {
    assert_eq!(
        TriggerAction::from_ui_value("restart"),
        Some(TriggerAction::Kickstart)
    );
}

#[test]
fn tri_state_cycles_in_order() {
    assert_eq!(TriStateFilter::Any.cycle(), TriStateFilter::Yes);
    assert_eq!(TriStateFilter::Yes.cycle(), TriStateFilter::No);
    assert_eq!(TriStateFilter::No.cycle(), TriStateFilter::Any);
}

#[test]
fn advanced_filter_matches_composite_conditions() {
    let filter = AdvancedFilter {
        status: Some(JobStatus::Loaded),
        disabled: TriStateFilter::No,
        run_at_load: TriStateFilter::Yes,
        keep_alive: TriStateFilter::Any,
        has_error: TriStateFilter::No,
    };
    let mut job = job_fixture("label", "/tmp/demo.plist");
    job.id = "id".to_string();
    job.metadata = JobMetadata {
        run_at_load: Some(true),
        keep_alive: Some(false),
        disabled: Some(false),
    };
    assert!(filter.matches(&job));
}

#[test]
fn key_defs_support_search() {
    let defs = search_key_defs("interval");
    assert!(!defs.is_empty());
    assert!(defs.iter().any(|item| item.key == "StartInterval"));
}

#[test]
fn filter_matches_by_scope() {
    let job = job_fixture(
        "com.demo.user",
        "/Users/test/Library/LaunchAgents/com.demo.user.plist",
    );
    assert!(job_matches_filters(
        &job,
        "",
        Some(ScopeFilter::UserAgent),
        &AdvancedFilter::default(),
        false
    ));
    assert!(!job_matches_filters(
        &job,
        "",
        Some(ScopeFilter::SystemDaemon),
        &AdvancedFilter::default(),
        false
    ));
}

#[test]
fn filter_matches_by_label_and_path_query() {
    let job = job_fixture(
        "com.demo.searchable",
        "/Users/test/Library/LaunchAgents/com.demo.searchable.plist",
    );
    assert!(job_matches_filters(&job, "searchable", None, &AdvancedFilter::default(), false));
    assert!(job_matches_filters(&job, "launchagents", None, &AdvancedFilter::default(), false));
    assert!(!job_matches_filters(&job, "missing-token", None, &AdvancedFilter::default(), false));
}

#[test]
fn filter_combines_scope_and_search_query() {
    let job = with_scope(
        job_fixture("com.demo.scope", "/Library/LaunchDaemons/com.demo.scope.plist"),
        JobScope::SystemDaemon,
    );
    assert!(job_matches_filters(
        &job,
        "demo.scope",
        Some(ScopeFilter::SystemDaemon),
        &AdvancedFilter::default(),
        false
    ));
    assert!(!job_matches_filters(
        &job,
        "demo.scope",
        Some(ScopeFilter::UserAgent),
        &AdvancedFilter::default(),
        false
    ));
}

#[test]
fn filter_respects_starred_only_toggle() {
    let mut job = job_fixture(
        "com.demo.star",
        "/Users/test/Library/LaunchAgents/com.demo.star.plist",
    );
    job.is_starred = true;
    assert!(job_matches_filters(&job, "", None, &AdvancedFilter::default(), true));
    job.is_starred = false;
    assert!(!job_matches_filters(&job, "", None, &AdvancedFilter::default(), true));
}

#[test]
fn filter_matches_advanced_flags() {
    let mut job = job_fixture(
        "com.demo.meta",
        "/Users/test/Library/LaunchAgents/com.demo.meta.plist",
    );
    job.metadata.run_at_load = Some(true);
    job.metadata.keep_alive = Some(false);
    job.metadata.disabled = Some(false);

    let filter = AdvancedFilter {
        run_at_load: TriStateFilter::Yes,
        keep_alive: TriStateFilter::No,
        disabled: TriStateFilter::No,
        ..AdvancedFilter::default()
    };
    assert!(job_matches_filters(&job, "", None, &filter, false));

    let strict_filter = AdvancedFilter {
        disabled: TriStateFilter::Yes,
        ..filter
    };
    assert!(!job_matches_filters(&job, "", None, &strict_filter, false));
}

#[test]
fn tri_state_returns_after_three_cycles() {
    for start in [TriStateFilter::Any, TriStateFilter::Yes, TriStateFilter::No] {
        assert_eq!(start.cycle().cycle().cycle(), start);
    }
}

#[test]
fn cleared_filter_lets_every_job_through() {
    let mut filter = AdvancedFilter {
        status: Some(JobStatus::Running),
        disabled: TriStateFilter::Yes,
        run_at_load: TriStateFilter::No,
        keep_alive: TriStateFilter::Yes,
        has_error: TriStateFilter::Yes,
    };
    let job = job_fixture("com.demo.any", "/tmp/any.plist");
    assert!(!filter.matches(&job));
    filter.clear();
    assert!(filter.matches(&job));
    assert!(filter.badge_tokens().is_empty());
}

#[test]
fn action_names_read_back_as_the_same_action() {
    for action in [
        TriggerAction::Start,
        TriggerAction::Stop,
        TriggerAction::Kickstart,
        TriggerAction::Enable,
        TriggerAction::Disable,
        TriggerAction::Load,
        TriggerAction::Unload,
    ] {
        assert_eq!(TriggerAction::from_ui_value(action.as_str()), Some(action));
    }
    assert_eq!(TriggerAction::from_ui_value("reboot"), None);
}

#[test]
fn scope_filter_values_and_labels() {
    assert_eq!(ScopeFilter::from_ui_value("global-agent"), Some(ScopeFilter::GlobalAgent));
    assert_eq!(ScopeFilter::from_ui_value("all"), None);
    assert_eq!(ScopeFilter::SystemDaemon.label(), "system-daemon");
}

#[test]
fn status_is_read_from_launchctl_output() {
    assert_eq!(JobStatus::from_launchctl_output("state = running\npid = 12"), JobStatus::Running);
    assert_eq!(JobStatus::Disabled.as_str(), "disabled");
}

#[test]
fn job_list_line_marks_starred_jobs() {
    let mut job = job_fixture("com.demo.line", "/tmp/line.plist");
    assert_eq!(job.list_line(), "com.demo.line  |  user-agent  |  loaded");
    job.is_starred = true;
    assert_eq!(job.list_line(), "★ com.demo.line  |  user-agent  |  loaded");
}

#[test]
fn system_daemons_are_read_only() {
    let caps = launchpad::domain::job::compute_capabilities(&JobScope::SystemDaemon, true);
    assert!(!caps.can_trigger);
    assert!(!caps.can_delete);
    let caps = launchpad::domain::job::compute_capabilities(&JobScope::UserAgent, true);
    assert!(caps.can_trigger);
    assert!(caps.can_delete);
}

#[test]
fn sorting_keeps_jobs_of_one_label_in_their_order() {
    let jobs = vec![
        job_fixture("b", "/1"),
        job_fixture("a", "/2"),
        job_fixture("b", "/3"),
        job_fixture("b", "/0"),
    ];
    let sorted = sort_jobs(&jobs, true);
    let paths: Vec<&str> = sorted.iter().map(|j| j.path.as_str()).collect();
    assert_eq!(paths, vec!["/2", "/1", "/3", "/0"]);
}
