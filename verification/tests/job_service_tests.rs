use std::sync::{Arc, Mutex};

use launchpad::adapter::fs_scan::ScannedFile;
use launchpad::adapter::launchctl::LaunchctlClient;
use launchpad::adapter::plist_reader::{PlistReader, PlistSummary};
use launchpad::domain::job::{JobCapabilities, JobMetadata, JobScope, JobSummary};
use launchpad::domain::job_detail::JobRuntimeDetails;
use launchpad::domain::status::JobStatus;
use launchpad::error::{AppError, AppResult};
use launchpad::service::job_service::JobService;

#[derive(Debug)]
struct MockPlistReader {
    label: Option<String>,
    run_at_load: Option<bool>,
    keep_alive: Option<bool>,
    disabled: Option<bool>,
    fail: bool,
}

impl PlistReader for MockPlistReader {
    fn read_summary(&self, _path: &str) -> AppResult<PlistSummary> {
        if self.fail {
            return Err(AppError::Validation("plist parse failure".to_string()));
        }
        Ok(PlistSummary {
            label: self.label.clone(),
            run_at_load: self.run_at_load,
            keep_alive: self.keep_alive,
            disabled: self.disabled,
        })
    }
}

#[derive(Debug)]
struct MockLaunchctl {
    list_output: String,
    list_error: Option<String>,
    print_output: String,
    print_error: Option<String>,
    calls: Mutex<Vec<String>>,
}

impl LaunchctlClient for MockLaunchctl {
    fn list(&self) -> AppResult<String> {
        self.calls.lock().expect("lock calls").push("list".to_string());
        if let Some(stderr) = &self.list_error {
            return Err(AppError::CommandFailed {
                command: "launchctl list".to_string(),
                stderr: stderr.clone(),
            });
        }
        Ok(self.list_output.clone())
    }

    fn print(&self, _target: &str) -> AppResult<String> {
        self.calls.lock().expect("lock calls").push("print".to_string());
        if let Some(stderr) = &self.print_error {
            return Err(AppError::CommandFailed {
                command: "launchctl print ...".to_string(),
                stderr: stderr.clone(),
            });
        }
        Ok(self.print_output.clone())
    }

    fn start(&self, _target: &str) -> AppResult<()> {
        Ok(())
    }

    fn stop(&self, _target: &str) -> AppResult<()> {
        Ok(())
    }

    fn kickstart(&self, _target: &str) -> AppResult<()> {
        Ok(())
    }

    fn enable(&self, _target: &str) -> AppResult<()> {
        Ok(())
    }

    fn disable(&self, _target: &str) -> AppResult<()> {
        Ok(())
    }

    fn bootstrap(&self, _domain: &str, _path: &str) -> AppResult<()> {
        Ok(())
    }

    fn bootout(&self, _domain: &str, _path: &str) -> AppResult<()> {
        Ok(())
    }
}

const DIR: &str = "/Users/test/Library/LaunchAgents";

fn scanned(filename: &str) -> ScannedFile {
    ScannedFile {
        path: format!("{DIR}/{filename}"),
        scope: JobScope::UserAgent,
        delete_permitted: true,
    }
}

fn reader(label: Option<&str>, fail: bool) -> Arc<MockPlistReader> {
    Arc::new(MockPlistReader {
        label: label.map(str::to_string),
        run_at_load: None,
        keep_alive: None,
        disabled: None,
        fail,
    })
}

fn launchctl(list_output: &str, list_error: Option<&str>, print_output: &str) -> Arc<MockLaunchctl> {
    Arc::new(MockLaunchctl {
        list_output: list_output.to_string(),
        list_error: list_error.map(str::to_string),
        print_output: print_output.to_string(),
        print_error: None,
        calls: Mutex::new(Vec::new()),
    })
}

fn job_fixture(label: &str, path: String) -> JobSummary {
    JobSummary {
        id: label.to_string(),
        label: label.to_string(),
        path,
        scope: JobScope::UserAgent,
        status: JobStatus::Unknown,
        is_starred: false,
        metadata: JobMetadata::default(),
        capabilities: JobCapabilities {
            can_trigger: true,
            can_delete: true,
            trigger_reason: None,
            delete_reason: None,
        },
        error: None,
    }
}

#[test]
fn list_jobs_maps_running_and_loaded_status_from_launchctl_list() {
    let files = vec![scanned("com.demo.idle.plist"), scanned("com.demo.running.plist")];
    let plist_path = files[1].path.clone();
    let service = JobService::new(
        reader(None, false),
        launchctl(
            "PID\tStatus\tLabel\n321\t0\tcom.demo.running\n-\t0\tcom.demo.idle\n",
            None,
            "",
        ),
        501,
    );
    let jobs = service.list_jobs(&files).expect("list jobs");

    let running = jobs
        .iter()
        .find(|job| job.label == "com.demo.running")
        .expect("running job");
    assert_eq!(running.path, plist_path);
    assert_eq!(running.status, JobStatus::Running);

    let idle = jobs
        .iter()
        .find(|job| job.label == "com.demo.idle")
        .expect("idle job");
    assert_eq!(idle.status, JobStatus::Loaded);
}

#[test]
fn list_jobs_uses_filename_when_label_missing() {
    let files = vec![scanned("com.demo.fallback.plist")];
    let service = JobService::new(
        reader(None, false),
        launchctl("PID\tStatus\tLabel\n-\t0\tcom.demo.fallback\n", None, ""),
        501,
    );
    let jobs = service.list_jobs(&files).expect("list jobs");

    assert_eq!(jobs[0].label, "com.demo.fallback");
    assert_eq!(jobs[0].status, JobStatus::Loaded);
}

#[test]
fn list_jobs_gracefully_handles_plist_parse_failure() {
    let files = vec![scanned("com.demo.broken.plist")];
    let service = JobService::new(reader(None, true), launchctl("", None, ""), 501);
    let jobs = service.list_jobs(&files).expect("list jobs");

    assert_eq!(jobs[0].status, JobStatus::Unknown);
    assert!(jobs[0].error.is_some());
}

#[test]
fn list_jobs_maps_not_loaded_to_unknown_without_failing() {
    let files = vec![scanned("com.demo.offline.plist")];
    let service = JobService::new(
        reader(Some("com.demo.offline"), false),
        launchctl("", Some("could not query list"), ""),
        501,
    );
    let jobs = service.list_jobs(&files).expect("list jobs");

    assert_eq!(jobs[0].status, JobStatus::Unknown);
    assert!(jobs[0].error.is_none());
}

#[test]
fn list_jobs_does_not_call_print_per_job() {
    let files = vec![scanned("com.demo.a.plist"), scanned("com.demo.b.plist")];
    let client = launchctl("PID\tStatus\tLabel\n-\t0\tcom.demo.a\n-\t0\tcom.demo.b\n", None, "");
    let service = JobService::new(reader(None, false), client.clone(), 501);
    let _ = service.list_jobs(&files).expect("list jobs");

    let calls = client.calls.lock().expect("lock calls").clone();
    assert_eq!(calls, vec!["list".to_string()]);
}

#[test]
fn fetch_job_details_uses_launchctl_print() {
    let client = launchctl(
        "",
        None,
        "pid = 902\nlast exit code = 0\nlast run = 2026-03-18 18:33:20 +0000\n",
    );
    let service = JobService::new(reader(Some("com.demo.detail"), false), client.clone(), 501);

    let details = service
        .fetch_job_details(&job_fixture(
            "com.demo.detail",
            format!("{DIR}/com.demo.detail.plist"),
        ))
        .expect("fetch details");
    assert_eq!(
        details,
        JobRuntimeDetails {
            pid: Some("902".to_string()),
            last_exit_status: Some("0".to_string()),
            last_run: Some("2026-03-18 18:33:20 +0000".to_string()),
            raw_hint: None,
        }
    );

    let calls = client.calls.lock().expect("lock calls").clone();
    assert_eq!(calls, vec!["print".to_string()]);
}

#[test]
fn list_jobs_sets_disabled_status_from_plist_metadata() {
    let files = vec![scanned("com.demo.disabled.plist")];
    let plist_reader = Arc::new(MockPlistReader {
        label: Some("com.demo.disabled".to_string()),
        run_at_load: Some(true),
        keep_alive: Some(false),
        disabled: Some(true),
        fail: false,
    });
    let service = JobService::new(
        plist_reader,
        launchctl("PID\tStatus\tLabel\n-\t0\tcom.demo.disabled\n", None, ""),
        501,
    );
    let jobs = service.list_jobs(&files).expect("list jobs");
    let job = jobs.first().expect("job");

    assert_eq!(job.status, JobStatus::Disabled);
    assert_eq!(job.metadata.run_at_load, Some(true));
    assert_eq!(job.metadata.keep_alive, Some(false));
    assert_eq!(job.metadata.disabled, Some(true));
}

#[test]
fn listed_jobs_come_sorted_by_label() {
    let files = vec![scanned("zeta.plist"), scanned("alpha.plist"), scanned("mid.plist")];
    let service = JobService::new(reader(None, false), launchctl("", None, ""), 501);
    let jobs = service.list_jobs(&files).expect("list jobs");
    let labels: Vec<&str> = jobs.iter().map(|job| job.label.as_str()).collect();
    assert_eq!(labels, vec!["alpha", "mid", "zeta"]);
}
