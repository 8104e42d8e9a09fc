use std::sync::{Arc, Mutex};

use launchpad::adapter::launchctl::LaunchctlClient;
use launchpad::domain::action::TriggerAction;
use launchpad::domain::job::{JobCapabilities, JobMetadata, JobScope, JobSummary};
use launchpad::domain::status::JobStatus;
use launchpad::error::{AppError, AppResult};
use launchpad::service::action_service::ActionService;

#[derive(Debug, Default)]
struct MockLaunchctl {
    calls: Mutex<Vec<String>>,
}

impl MockLaunchctl {
    fn take_calls(&self) -> Vec<String> {
        self.calls.lock().expect("lock calls").clone()
    }

    fn record(&self, call: String) {
        self.calls.lock().expect("lock calls").push(call);
    }
}

impl LaunchctlClient for MockLaunchctl {
    fn print(&self, _target: &str) -> AppResult<String> {
        Ok(String::new())
    }

    fn start(&self, target: &str) -> AppResult<()> {
        self.record(format!("start:{target}"));
        Ok(())
    }

    fn stop(&self, target: &str) -> AppResult<()> {
        self.record(format!("stop:{target}"));
        Ok(())
    }

    fn kickstart(&self, target: &str) -> AppResult<()> {
        self.record(format!("kickstart:{target}"));
        Ok(())
    }

    fn enable(&self, target: &str) -> AppResult<()> {
        self.record(format!("enable:{target}"));
        Ok(())
    }

    fn bootstrap(&self, domain: &str, path: &str) -> AppResult<()> {
        self.record(format!("bootstrap:{domain}:{path}"));
        Ok(())
    }

    fn bootout(&self, domain: &str, path: &str) -> AppResult<()> {
        self.record(format!("bootout:{domain}:{path}"));
        Ok(())
    }
}

fn job_fixture(can_trigger: bool) -> JobSummary {
    JobSummary {
        id: "job-id".to_string(),
        label: "com.demo.agent".to_string(),
        path: "/tmp/com.demo.agent.plist".to_string(),
        scope: JobScope::UserAgent,
        status: JobStatus::Loaded,
        is_starred: false,
        metadata: JobMetadata::default(),
        capabilities: JobCapabilities {
            can_trigger,
            can_delete: true,
            trigger_reason: None,
            delete_reason: None,
        },
        error: None,
    }
}

#[test]
fn execute_start_uses_scoped_target() {
    let launchctl = Arc::new(MockLaunchctl::default());
    let service = ActionService::new(launchctl.clone(), 501);
    let job = job_fixture(true);

    service
        .execute(&job, TriggerAction::Start)
        .expect("start should succeed");

    let calls = launchctl.take_calls();
    assert_eq!(calls, vec!["start:gui/501/com.demo.agent".to_string()]);
}

#[test]
fn execute_stop_and_kickstart_are_forwarded() {
    let launchctl = Arc::new(MockLaunchctl::default());
    let service = ActionService::new(launchctl.clone(), 501);
    let job = job_fixture(true);

    service
        .execute(&job, TriggerAction::Stop)
        .expect("stop should succeed");
    service
        .execute(&job, TriggerAction::Kickstart)
        .expect("kickstart should succeed");

    let calls = launchctl.take_calls();
    assert_eq!(
        calls,
        vec![
            "stop:gui/501/com.demo.agent".to_string(),
            "kickstart:gui/501/com.demo.agent".to_string()
        ]
    );
}

#[test]
fn execute_rejects_when_trigger_disabled() {
    let launchctl = Arc::new(MockLaunchctl::default());
    let service = ActionService::new(launchctl.clone(), 501);
    let mut job = job_fixture(false);
    job.capabilities.trigger_reason = Some("no permission".to_string());

    let error = service
        .execute(&job, TriggerAction::Start)
        .expect_err("disabled trigger should fail");

    match error {
        AppError::Validation(message) => assert_eq!(message, "no permission"),
        other => panic!("unexpected error: {other:?}"),
    }

    assert!(launchctl.take_calls().is_empty());
}

#[test]
fn load_and_unload_use_the_plist_path() {
    let launchctl = Arc::new(MockLaunchctl::default());
    let service = ActionService::new(launchctl.clone(), 501);
    let job = job_fixture(true);
    service.execute(&job, TriggerAction::Load).expect("load");
    service.execute(&job, TriggerAction::Unload).expect("unload");
    service.execute(&job, TriggerAction::Enable).expect("enable");
    assert_eq!(
        launchctl.take_calls(),
        vec![
            "bootstrap:gui/501:/tmp/com.demo.agent.plist".to_string(),
            "bootout:gui/501:/tmp/com.demo.agent.plist".to_string(),
            "enable:gui/501/com.demo.agent".to_string(),
        ]
    );
}

#[test]
fn refused_without_a_reason_uses_the_default_message() {
    let launchctl = Arc::new(MockLaunchctl::default());
    let service = ActionService::new(launchctl.clone(), 501);
    let job = job_fixture(false);
    match service.execute(&job, TriggerAction::Stop) {
        Err(AppError::Validation(message)) => {
            assert_eq!(message, "Trigger is disabled for this job")
        }
        other => panic!("unexpected: {other:?}"),
    }
}
