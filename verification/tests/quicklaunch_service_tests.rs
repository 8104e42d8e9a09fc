use std::sync::{Arc, Mutex};

use launchpad::adapter::quicklaunch::{
    NoopQuickLaunchProvider, QuickLaunchAction, QuickLaunchItem, QuickLaunchProvider,
};
use launchpad::domain::job::{JobCapabilities, JobMetadata, JobScope, JobSummary};
use launchpad::domain::status::JobStatus;
use launchpad::error::{AppError, AppResult};
use launchpad::service::quicklaunch_service::{
    QuickLaunchConfig, QuickLaunchGroupBy, QuickLaunchService,
};

#[derive(Debug, Default)]
struct MockQuickLaunchProvider {
    synced: Mutex<Vec<QuickLaunchItem>>,
    queued_actions: Mutex<Vec<QuickLaunchAction>>,
}

impl QuickLaunchProvider for MockQuickLaunchProvider {
    fn sync_items(&self, items: &[QuickLaunchItem]) -> AppResult<()> {
        *self.synced.lock().expect("lock") = items.to_vec();
        Ok(())
    }

    fn drain_actions(&self) -> AppResult<Vec<QuickLaunchAction>> {
        let mut queued = self.queued_actions.lock().expect("lock");
        let drained = queued.clone();
        queued.clear();
        Ok(drained)
    }
}

fn job_fixture(label: &str, scope: JobScope, status: JobStatus, is_starred: bool) -> JobSummary {
    JobSummary {
        id: format!("id-{label}"),
        label: label.to_string(),
        path: format!("/tmp/{label}.plist"),
        scope,
        status,
        is_starred,
        metadata: JobMetadata::default(),
        capabilities: JobCapabilities {
            can_trigger: true,
            can_delete: true,
            trigger_reason: None,
            delete_reason: None,
        },
        error: None,
    }
}

#[test]
fn sync_jobs_respects_starred_only_and_max_items() {
    let provider = Arc::new(MockQuickLaunchProvider::default());
    let service = QuickLaunchService::new(
        provider.clone(),
        QuickLaunchConfig {
            enabled: true,
            starred_only: true,
            max_items: 1,
            group_by: QuickLaunchGroupBy::Scope,
        },
    );

    let jobs = vec![
        job_fixture("alpha", JobScope::UserAgent, JobStatus::Loaded, true),
        job_fixture("beta", JobScope::GlobalAgent, JobStatus::Running, true),
        job_fixture("gamma", JobScope::UserAgent, JobStatus::Loaded, false),
    ];

    let count = service.sync_jobs(&jobs).expect("sync");
    assert_eq!(count, 1);

    let synced = provider.synced.lock().expect("lock").clone();
    assert_eq!(synced.len(), 1);
    assert!(synced[0].is_starred);
    assert!(synced[0].title.contains("alpha"));
}

#[test]
fn sync_jobs_group_mode_status_uses_status_group_text() {
    let provider = Arc::new(MockQuickLaunchProvider::default());
    let service = QuickLaunchService::new(
        provider.clone(),
        QuickLaunchConfig {
            enabled: true,
            starred_only: false,
            max_items: 5,
            group_by: QuickLaunchGroupBy::Status,
        },
    );
    let jobs = vec![job_fixture(
        "status-job",
        JobScope::GlobalAgent,
        JobStatus::Running,
        false,
    )];

    service.sync_jobs(&jobs).expect("sync");
    let synced = provider.synced.lock().expect("lock").clone();
    assert_eq!(synced[0].group, "running");
}

#[test]
fn drain_actions_returns_queued_actions_and_clears_provider_state() {
    let provider = Arc::new(MockQuickLaunchProvider::default());
    *provider.queued_actions.lock().expect("lock") = vec![QuickLaunchAction {
        action: "start".to_string(),
        job_ids: vec!["id-alpha".to_string()],
    }];
    let service = QuickLaunchService::new(
        provider.clone(),
        QuickLaunchConfig {
            enabled: true,
            starred_only: false,
            max_items: 5,
            group_by: QuickLaunchGroupBy::Scope,
        },
    );

    let first = service.drain_actions().expect("drain");
    assert_eq!(first.len(), 1);
    let second = service.drain_actions().expect("drain");
    assert!(second.is_empty());
}

#[test]
fn sync_jobs_filters_starred_and_limits_count() {
    let provider = Arc::new(MockQuickLaunchProvider::default());
    let service = QuickLaunchService::new(
        provider.clone(),
        QuickLaunchConfig {
            enabled: true,
            starred_only: true,
            max_items: 1,
            group_by: QuickLaunchGroupBy::Scope,
        },
    );
    let jobs = vec![
        job_fixture("a", JobScope::UserAgent, JobStatus::Loaded, true),
        job_fixture("b", JobScope::UserAgent, JobStatus::Loaded, true),
        job_fixture("c", JobScope::UserAgent, JobStatus::Loaded, false),
    ];
    let synced = service.sync_jobs(&jobs).expect("sync");
    assert_eq!(synced, 1);

    let synced_items = provider.synced.lock().expect("lock").clone();
    assert_eq!(synced_items.len(), 1);
    assert!(synced_items[0].title.contains("a"));
    assert_eq!(synced_items[0].group, "user-agent");
    assert!(synced_items[0].is_starred);
}

#[test]
fn group_mode_can_use_status() {
    let provider = Arc::new(MockQuickLaunchProvider::default());
    let service = QuickLaunchService::new(
        provider.clone(),
        QuickLaunchConfig {
            enabled: true,
            starred_only: false,
            max_items: 2,
            group_by: QuickLaunchGroupBy::Status,
        },
    );
    let mut jobs = vec![job_fixture("a", JobScope::UserAgent, JobStatus::Loaded, false)];
    jobs[0].status = JobStatus::Running;
    let _ = service.sync_jobs(&jobs).expect("sync");

    let synced_items = provider.synced.lock().expect("lock").clone();
    assert_eq!(synced_items[0].group, "running");
}

#[test]
fn noop_provider_returns_explicit_error() {
    let provider = NoopQuickLaunchProvider;
    let err = provider
        .sync_items(&[])
        .expect_err("should fail on noop provider");
    assert!(err
        .message()
        .contains("QuickLaunch menubar integration is not available"));
}

#[test]
fn disabled_quicklaunch_publishes_nothing() {
    let provider = Arc::new(MockQuickLaunchProvider::default());
    let service = QuickLaunchService::new(provider.clone(), QuickLaunchConfig::default());
    let jobs = vec![job_fixture("a", JobScope::UserAgent, JobStatus::Loaded, true)];
    assert_eq!(service.sync_jobs(&jobs).expect("sync"), 0);
    assert!(provider.synced.lock().expect("lock").is_empty());
}

#[test]
fn items_show_scope_title_and_starred_scope_groups() {
    let provider = Arc::new(MockQuickLaunchProvider::default());
    let service = QuickLaunchService::new(
        provider.clone(),
        QuickLaunchConfig {
            enabled: true,
            starred_only: false,
            max_items: 12,
            group_by: QuickLaunchGroupBy::StarredScope,
        },
    );
    let jobs = vec![
        job_fixture("one", JobScope::GlobalAgent, JobStatus::Loaded, true),
        job_fixture("two", JobScope::UserAgent, JobStatus::Unknown, false),
    ];
    let items = service.items_for_jobs(&jobs, 77);
    assert_eq!(items[0].title, "[global-agent] one");
    assert_eq!(items[0].group, "starred:global-agent");
    assert_eq!(items[1].group, "plain:user-agent");
    assert_eq!(items[1].updated_at_unix_secs, 77);
    assert_eq!(items[1].id, "id-two");
}

#[test]
fn group_setting_values() {
    assert_eq!(QuickLaunchGroupBy::from_env_value("STATUS"), QuickLaunchGroupBy::Status);
    assert_eq!(
        QuickLaunchGroupBy::from_env_value("starred-scope"),
        QuickLaunchGroupBy::StarredScope
    );
    assert_eq!(QuickLaunchGroupBy::from_env_value("other"), QuickLaunchGroupBy::Scope);
}

#[test]
fn noop_error_is_a_refusal() {
    match NoopQuickLaunchProvider.sync_items(&[]) {
        Err(AppError::Validation(m)) => {
            assert_eq!(m, "QuickLaunch menubar integration is not available on this build.")
        }
        other => panic!("unexpected: {other:?}"),
    }
}
