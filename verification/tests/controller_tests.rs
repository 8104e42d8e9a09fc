use std::sync::{Arc, Mutex};

use launchpad::adapter::ai::provider::{AiEditRequest, AiEditResponse, AiProvider};
use launchpad::adapter::fs_ops::FsOps;
use launchpad::adapter::fs_scan::ScannedFile;
use launchpad::adapter::launchctl::LaunchctlClient;
use launchpad::adapter::log_stream::LogStreamClient;
use launchpad::adapter::plist_doc::PlistDocumentStore;
use launchpad::adapter::plist_reader::{PlistReader, PlistSummary};
use launchpad::adapter::quicklaunch::{QuickLaunchAction, QuickLaunchItem, QuickLaunchProvider};
use launchpad::adapter::star_store::StarStore;
use launchpad::config::AppConfig;
use launchpad::controller::editor::EditorState;
use launchpad::controller::state::{AppController, EditorField};
use launchpad::domain::action::TriggerAction;
use launchpad::domain::plist_document::StandardPlistDocument;
use launchpad::controller::state::logs_view;
use launchpad::error::{AppError, AppResult};
use launchpad::service::quicklaunch_service::QuickLaunchGroupBy;

#[derive(Default)]
struct Launchctl {
    calls: Mutex<Vec<String>>,
    failing: Mutex<bool>,
}

impl Launchctl {
    fn outcome(&self, call: String) -> AppResult<()> {
        self.calls.lock().unwrap().push(call.clone());
        if *self.failing.lock().unwrap() {
            return Err(AppError::CommandFailed { command: call, stderr: "denied".to_string() });
        }
        Ok(())
    }
}

impl LaunchctlClient for Launchctl {
    fn list(&self) -> AppResult<String> {
        Ok("PID\tStatus\tLabel\n42\t0\tcom.demo.b\n".to_string())
    }
    fn print(&self, _target: &str) -> AppResult<String> {
        Ok("pid = 42\n".to_string())
    }
    fn start(&self, target: &str) -> AppResult<()> {
        self.outcome(format!("start:{target}"))
    }
    fn stop(&self, target: &str) -> AppResult<()> {
        self.outcome(format!("stop:{target}"))
    }
    fn kickstart(&self, target: &str) -> AppResult<()> {
        self.calls.lock().unwrap().push(format!("kickstart:{target}"));
        Ok(())
    }
    fn bootstrap(&self, domain: &str, path: &str) -> AppResult<()> {
        self.calls.lock().unwrap().push(format!("bootstrap:{domain}:{path}"));
        Ok(())
    }
    fn bootout(&self, domain: &str, path: &str) -> AppResult<()> {
        self.outcome(format!("bootout:{domain}:{path}"))
    }
}

struct Reader;

impl PlistReader for Reader {
    fn read_summary(&self, path: &str) -> AppResult<PlistSummary> {
        let label = path.rsplit('/').next().unwrap().trim_end_matches(".plist").to_string();
        Ok(PlistSummary {
            label: Some(label),
            run_at_load: Some(true),
            keep_alive: None,
            disabled: None,
        })
    }
}

#[derive(Default)]
struct Fs {
    removed: Mutex<Vec<String>>,
}

impl FsOps for Fs {
    fn remove_file(&self, path: &str) -> AppResult<()> {
        self.removed.lock().unwrap().push(path.to_string());
        Ok(())
    }
}

#[derive(Default)]
struct Stars {
    stars: Mutex<Vec<String>>,
}

impl StarStore for Stars {
    fn load_stars(&self) -> AppResult<Vec<String>> {
        Ok(self.stars.lock().unwrap().clone())
    }
    fn save_stars(&self, stars: &Vec<String>) -> AppResult<()> {
        *self.stars.lock().unwrap() = stars.clone();
        Ok(())
    }
}

#[derive(Default)]
struct Quick {
    synced: Mutex<Vec<QuickLaunchItem>>,
    queued: Mutex<Vec<QuickLaunchAction>>,
}

impl QuickLaunchProvider for Quick {
    fn sync_items(&self, items: &[QuickLaunchItem]) -> AppResult<()> {
        *self.synced.lock().unwrap() = items.to_vec();
        Ok(())
    }
    fn drain_actions(&self) -> AppResult<Vec<QuickLaunchAction>> {
        let mut q = self.queued.lock().unwrap();
        let out = q.clone();
        q.clear();
        Ok(out)
    }
}

#[derive(Default)]
struct Docs {
    saved: Mutex<Vec<String>>,
}

impl PlistDocumentStore for Docs {
    fn load_standard_document(&self, path: &str) -> AppResult<StandardPlistDocument> {
        let label = path.rsplit('/').next().unwrap().trim_end_matches(".plist").to_string();
        Ok(StandardPlistDocument {
            label,
            program: "/usr/bin/true".to_string(),
            ..StandardPlistDocument::default()
        })
    }
    fn save_standard_document(&self, path: &str, _document: &StandardPlistDocument) -> AppResult<()> {
        self.saved.lock().unwrap().push(path.to_string());
        Ok(())
    }
    fn to_xml(&self, document: &StandardPlistDocument) -> AppResult<String> {
        Ok(format!("<label>{}</label>\n<run>{}</run>", document.label, document.run_at_load))
    }
}

struct Logs;

impl LogStreamClient for Logs {
    fn recent_logs_for_label(&self, label: &str, minutes: u32, max_lines: usize) -> AppResult<String> {
        Ok(format!("{label} {minutes} {max_lines}"))
    }
    fn live_logs_for_label(&self, _label: &str, _seconds: u32, _max_lines: usize) -> AppResult<String> {
        Ok("   ".to_string())
    }
}

struct Assistant;

impl AiProvider for Assistant {
    fn provider_name(&self) -> &'static str {
        "mock"
    }
    fn suggest_edit(&self, request: &AiEditRequest) -> AppResult<AiEditResponse> {
        Ok(AiEditResponse {
            provider: "mock".to_string(),
            summary: format!("about {}", request.user_prompt),
            suggested_patch_notes: vec!["note".to_string()],
            suggested_actions: vec!["start".to_string(), "bogus".to_string()],
        })
    }
}

type Controller = AppController<Launchctl, Reader, Fs, Stars, Quick, Docs, Logs, Assistant>;

struct Harness {
    controller: Controller,
    launchctl: Arc<Launchctl>,
    fs: Arc<Fs>,
    quick: Arc<Quick>,
    docs: Arc<Docs>,
}

fn harness(quicklaunch_enabled: bool) -> Harness {
    let launchctl = Arc::new(Launchctl::default());
    let fs = Arc::new(Fs::default());
    let quick = Arc::new(Quick::default());
    let docs = Arc::new(Docs::default());
    let config = AppConfig {
        ai_default_provider: "mock".to_string(),
        quicklaunch_enabled,
        quicklaunch_starred_only: false,
        quicklaunch_max_items: 12,
    };
    let controller = AppController::new(
        launchctl.clone(),
        Arc::new(Reader),
        fs.clone(),
        Arc::new(Stars::default()),
        quick.clone(),
        docs.clone(),
        Arc::new(Logs),
        Arc::new(Assistant),
        501,
        Some("/Users/demo".to_string()),
        &config,
        QuickLaunchGroupBy::Scope,
    );
    Harness { controller, launchctl, fs, quick, docs }
}

fn scan(names: &[&str]) -> AppResult<Vec<ScannedFile>> {
    Ok(names
        .iter()
        .map(|name| ScannedFile {
            path: format!("/Users/demo/Library/LaunchAgents/{name}.plist"),
            scope: launchpad::domain::job::JobScope::UserAgent,
            delete_permitted: true,
        })
        .collect())
}

#[test]
fn refresh_lists_sorted_jobs_and_selects_the_first() {
    let mut h = harness(false);
    h.controller.refresh(&scan(&["com.demo.c", "com.demo.a", "com.demo.b"]));
    assert_eq!(h.controller.status_message, "Loaded 3 jobs (3 visible).");
    let lines = h.controller.job_lines();
    assert_eq!(lines[0], "com.demo.a  |  user-agent  |  unknown");
    assert_eq!(lines[1], "com.demo.b  |  user-agent  |  running");
    assert_eq!(h.controller.ui_state.selected_index, Some(0));
    let view = h.controller.selection_view();
    assert_eq!(view.label, "com.demo.a");
    assert_eq!(view.run_at_load, "yes");
    assert_eq!(view.keep_alive, "N/A");
    assert_eq!(view.pid, "42");
    assert_eq!(h.controller.editor_state.label, "com.demo.a");
}

#[test]
fn refresh_reports_empty_and_failed_scans() {
    let mut h = harness(false);
    h.controller.refresh(&scan(&[]));
    assert_eq!(h.controller.status_message, "No launchd jobs found in configured directories.");
    h.controller.refresh(&Err(AppError::Io("denied".to_string())));
    assert_eq!(h.controller.status_message, "Failed to refresh jobs: I/O error: denied");
    assert!(h.controller.jobs.is_empty());
}

#[test]
fn search_and_scope_filters_narrow_the_list() {
    let mut h = harness(false);
    h.controller.refresh(&scan(&["com.demo.a", "com.demo.b"]));
    h.controller.query_changed("  DEMO.B ");
    assert_eq!(h.controller.status_message, "Applied search filter 'DEMO.B' (1 visible).");
    assert_eq!(h.controller.ui_state.selected_index, Some(1));
    h.controller.scope_filter_requested("system-daemon");
    assert_eq!(
        h.controller.status_message,
        "Applied scope filter 'system-daemon' (0 visible)."
    );
    assert_eq!(h.controller.ui_state.selected_index, None);
    assert_eq!(h.controller.filter_badge_text(), "system-daemon + 'DEMO.B'");
    h.controller.clear_filters();
    assert_eq!(h.controller.visible_indices, vec![0, 1]);
    assert_eq!(h.controller.filter_badge_text(), "all scopes");
}

#[test]
fn trigger_sends_the_action_and_refreshes() {
    let mut h = harness(false);
    h.controller.trigger(TriggerAction::Start, &scan(&["com.demo.a"]));
    assert_eq!(h.controller.status_message, "Select a job first.");
    h.controller.refresh(&scan(&["com.demo.a"]));
    h.controller.trigger(TriggerAction::Start, &scan(&["com.demo.a"]));
    assert_eq!(
        h.launchctl.calls.lock().unwrap().clone(),
        vec!["start:gui/501/com.demo.a".to_string()]
    );
    assert!(h.controller.status_message.starts_with("Loaded 1 jobs"));
}

#[test]
fn delete_needs_a_request_then_a_confirmation() {
    let mut h = harness(false);
    let files = scan(&["com.demo.a"]);
    h.controller.refresh(&files);
    h.controller.confirm_delete(&files);
    assert_eq!(h.controller.status_message, "No pending delete request.");
    assert!(h.fs.removed.lock().unwrap().is_empty());
    h.controller.request_delete();
    assert_eq!(
        h.controller.status_message,
        "Delete requested. Review the warning and confirm deletion."
    );
    h.controller.cancel_delete();
    h.controller.confirm_delete(&files);
    assert_eq!(h.controller.status_message, "No pending delete request.");
    h.controller.request_delete();
    h.controller.confirm_delete(&scan(&[]));
    assert_eq!(
        h.fs.removed.lock().unwrap().clone(),
        vec!["/Users/demo/Library/LaunchAgents/com.demo.a.plist".to_string()]
    );
}

#[test]
fn starring_moves_a_job_first_and_starred_filter_keeps_it() {
    let mut h = harness(false);
    h.controller.refresh(&scan(&["com.demo.a", "com.demo.b"]));
    h.controller.select(1);
    assert_eq!(h.controller.status_message, "Selected com.demo.b");
    h.controller.toggle_star();
    assert_eq!(h.controller.status_message, "com.demo.b is now starred.");
    assert_eq!(h.controller.jobs[0].label, "com.demo.b");
    assert!(h.controller.jobs[0].is_starred);
    h.controller.set_starred_only(true);
    assert_eq!(h.controller.visible_indices, vec![0]);
    assert_eq!(h.controller.status_message, "Showing starred jobs only.");
    let text = h.controller.selected_details_text().expect("details");
    assert!(text.starts_with("LaunchPad Job Details\n----------------------\nLabel: com.demo.b"));
    assert!(text.contains("Starred: yes"));
}

#[test]
fn palette_commands_run_and_unknown_ones_are_reported() {
    let mut h = harness(false);
    let files = scan(&["com.demo.a"]);
    h.controller.command_query_changed("   ");
    h.controller.run_command_palette(&files);
    assert_eq!(h.controller.status_message, "Type a command first.");
    h.controller.command_query_changed("provider ");
    h.controller.run_command_palette(&files);
    assert!(h.controller.status_message.starts_with("Unknown command 'provider'."));
    h.controller.command_query_changed("provider mock");
    h.controller.run_command_palette(&files);
    assert_eq!(h.controller.status_message, "Switched AI provider to mock.");
    h.controller.command_query_changed("provider other");
    h.controller.run_command_palette(&files);
    assert_eq!(h.controller.status_message, "Unknown provider 'other'. Available: mock");
    h.controller.command_query_changed("Providers");
    h.controller.run_command_palette(&files);
    assert_eq!(h.controller.status_message, "Available AI providers: mock");
    h.controller.command_query_changed("fly away");
    h.controller.run_command_palette(&files);
    assert_eq!(
        h.controller.status_message,
        "Unknown command 'fly away'. Try: refresh/start/stop/restart/enable/load/new user/save/ai actions/logs/logs live/start starred"
    );
    h.controller.command_query_changed("REFRESH");
    h.controller.run_command_palette(&files);
    assert_eq!(h.controller.status_message, "Loaded 1 jobs (1 visible).");
    h.controller.command_query_changed("restart");
    h.controller.run_command_palette(&files);
    assert_eq!(
        h.launchctl.calls.lock().unwrap().clone(),
        vec!["kickstart:gui/501/com.demo.a".to_string()]
    );
}

#[test]
fn starred_batch_reports_counts() {
    let mut h = harness(false);
    let files = scan(&["com.demo.a", "com.demo.b"]);
    h.controller.refresh(&files);
    h.controller.trigger_starred_batch(TriggerAction::Stop, &files);
    assert_eq!(h.controller.status_message, "No triggerable starred jobs found.");
    h.controller.toggle_star();
    h.controller.trigger_starred_batch(TriggerAction::Stop, &files);
    assert_eq!(h.controller.status_message, "Batch stop finished: 1 success, 0 failed.");
}

#[test]
fn new_job_draft_is_saved_under_the_home_directory_and_loaded() {
    let mut h = harness(false);
    let files = scan(&[]);
    h.controller.start_new_job_editor(launchpad::domain::job::JobScope::UserAgent);
    assert_eq!(h.controller.status_message, "Preparing new user-agent plist draft.");
    assert_eq!(h.controller.editor_target_text(), "Creating new user-agent plist");
    h.controller.editor_field_changed(EditorField::Label, "  com.demo.fresh ");
    h.controller.save_editor_and_load(&files);
    assert_eq!(h.controller.status_message, "Saved plist changes. Load: success.");
    assert_eq!(
        h.docs.saved.lock().unwrap().clone(),
        vec!["/Users/demo/Library/LaunchAgents/com.demo.fresh.plist".to_string()]
    );
    assert_eq!(
        h.launchctl.calls.lock().unwrap().clone(),
        vec!["bootstrap:gui/501:/Users/demo/Library/LaunchAgents/com.demo.fresh.plist".to_string()]
    );
}

#[test]
fn editor_validation_errors_stop_the_save() {
    let mut h = harness(false);
    h.controller.start_new_job_editor(launchpad::domain::job::JobScope::UserAgent);
    h.controller.editor_field_changed(EditorField::StartInterval, "soon");
    h.controller.save_editor(&scan(&[]));
    assert_eq!(
        h.controller.status_message,
        "Editor validation failed: StartInterval must be a non-negative integer"
    );
    let mut h = harness(false);
    h.controller.save_editor(&scan(&[]));
    assert_eq!(h.controller.status_message, "Select a job or create a new draft first.");
}

#[test]
fn ai_patch_is_previewed_then_confirmed() {
    let mut h = harness(false);
    let files = scan(&["com.demo.a"]);
    h.controller.refresh(&files);
    h.controller.confirm_apply_ai_patch();
    assert_eq!(h.controller.status_message, "No pending AI patch confirmation.");
    h.controller.ai_prompt_changed("please run at load and keep alive");
    h.controller.editor_state.run_at_load = false;
    h.controller.run_ai_assistant();
    assert_eq!(h.controller.status_message, "AI suggestions updated.");
    assert!(h.controller.editor_state.ai_response.starts_with("Provider: mock\nSummary: about please"));
    assert!(h.controller.editor_state.ai_response.contains("\nSuggested Actions:\n* start\n* bogus"));
    assert_eq!(h.controller.pending_ai_actions, vec![TriggerAction::Start]);
    assert!(h.controller.pending_ai_patch_document.is_some());
    assert!(h.controller.editor_state.ai_diff_preview.contains("+ <run>true</run>"));
    h.controller.request_apply_ai_patch();
    assert_eq!(h.controller.status_message, "AI patch ready. Click confirm to apply to editor.");
    h.controller.confirm_apply_ai_patch();
    assert_eq!(
        h.controller.status_message,
        "AI patch applied to editor. Review and click Save when ready."
    );
    assert!(h.controller.editor_state.run_at_load);
    assert!(h.controller.editor_state.keep_alive);
    h.controller.run_ai_suggested_actions(&files);
    assert_eq!(h.controller.status_message, "AI actions finished: 1 success, 0 failed.");
}

#[test]
fn logs_use_the_settings_or_their_defaults() {
    let mut h = harness(false);
    h.controller.refresh(&scan(&["com.demo.a"]));
    h.controller.load_recent_logs();
    assert_eq!(h.controller.recent_logs_text, "com.demo.a 10 120");
    assert_eq!(h.controller.status_message, "Loaded logs (history=10m, max_lines=120).");
    h.controller.toggle_log_live_mode();
    h.controller.load_recent_logs();
    assert_eq!(h.controller.recent_logs_text, "No live logs captured.");
    assert_eq!(h.controller.status_message, "Loaded logs (live=5s, max_lines=120).");
}

#[test]
fn quicklaunch_sync_and_queued_actions_are_reported() {
    let mut h = harness(true);
    *h.quick.queued.lock().unwrap() = vec![
        QuickLaunchAction {
            action: "start".to_string(),
            job_ids: vec![
                "/Users/demo/Library/LaunchAgents/com.demo.a.plist".to_string(),
                "missing".to_string(),
            ],
        },
        QuickLaunchAction {
            action: "explode".to_string(),
            job_ids: vec![],
        },
    ];
    h.controller.refresh(&scan(&["com.demo.a"]));
    assert_eq!(
        h.controller.status_message,
        "Loaded 1 jobs (1 visible). QuickLaunch synced 1 items. QuickLaunch actions: 1 success, 0 failed, 2 skipped."
    );
    assert_eq!(h.quick.synced.lock().unwrap().len(), 1);
}

#[test]
fn key_templates_fill_blank_fields() {
    let mut h = harness(false);
    h.controller.key_panel_query_changed("workingdirectory");
    assert_eq!(h.controller.key_panel_lines(), vec!["WorkingDirectory — 工作目录".to_string()]);
    h.controller.add_key_from_panel(0);
    assert_eq!(h.controller.status_message, "Added key template 'WorkingDirectory'.");
    assert_eq!(h.controller.editor_state.working_directory, "/tmp");
    h.controller.key_panel_query_changed("umask");
    h.controller.add_key_from_panel(0);
    assert_eq!(h.controller.editor_state.expert_entries, "Umask=<value>");
    let blank = EditorState::default();
    assert!(blank.label.is_empty());
}

#[test]
fn log_view_reports_each_outcome() {
    let ok: AppResult<String> = Ok("a\nb".to_string());
    let (shown, status) = logs_view(&ok, false, 5, 10, 120);
    assert_eq!(shown, "a\nb");
    assert_eq!(status, "Loaded logs (history=10m, max_lines=120).");
    let blank: AppResult<String> = Ok("  \n".to_string());
    let (shown, status) = logs_view(&blank, true, 7, 10, 50);
    assert_eq!(shown, "No live logs captured.");
    assert_eq!(status, "Loaded logs (live=7s, max_lines=50).");
    let (shown, _) = logs_view(&blank, false, 7, 10, 50);
    assert_eq!(shown, "No recent logs found.");
    let failed: AppResult<String> = Err(AppError::Validation("no log tool".to_string()));
    let (shown, status) = logs_view(&failed, false, 5, 10, 120);
    assert_eq!(shown, "Failed to load logs: no log tool");
    assert_eq!(status, "Log load failed: no log tool");
}

#[test]
fn a_failed_trigger_is_reported_and_the_list_kept() {
    let mut h = harness(false);
    let files = scan(&["com.demo.a"]);
    h.controller.refresh(&files);
    *h.launchctl.failing.lock().unwrap() = true;
    h.controller.trigger(TriggerAction::Start, &scan(&[]));
    assert_eq!(
        h.controller.status_message,
        "start failed: command `start:gui/501/com.demo.a` failed: denied"
    );
    assert_eq!(h.controller.jobs.len(), 1);
}

#[test]
fn a_failed_delete_keeps_the_file() {
    let mut h = harness(false);
    let files = scan(&["com.demo.a"]);
    h.controller.refresh(&files);
    *h.launchctl.failing.lock().unwrap() = true;
    h.controller.request_delete();
    h.controller.confirm_delete(&scan(&[]));
    assert_eq!(
        h.controller.status_message,
        "Delete failed: command `bootout:gui/501:/Users/demo/Library/LaunchAgents/com.demo.a.plist` failed: denied"
    );
    assert!(h.fs.removed.lock().unwrap().is_empty());
    assert_eq!(h.controller.jobs.len(), 1);
    assert_eq!(h.controller.ui_state.pending_delete_index, None);
}

#[test]
fn a_successful_delete_lists_the_jobs_again() {
    let mut h = harness(false);
    h.controller.refresh(&scan(&["com.demo.a", "com.demo.b"]));
    h.controller.request_delete();
    h.controller.confirm_delete(&scan(&["com.demo.b"]));
    assert_eq!(h.controller.status_message, "Loaded 1 jobs (1 visible).");
    assert_eq!(h.controller.jobs[0].label, "com.demo.b");
}

#[test]
fn starred_batch_names_the_first_failure() {
    let mut h = harness(false);
    let files = scan(&["com.demo.a", "com.demo.b"]);
    h.controller.refresh(&files);
    h.controller.toggle_star();
    h.controller.select(1);
    h.controller.toggle_star();
    *h.launchctl.failing.lock().unwrap() = true;
    h.controller.trigger_starred_batch(TriggerAction::Stop, &files);
    assert_eq!(
        h.controller.status_message,
        "Batch stop finished: 0 success, 2 failed. First error: com.demo.a: command `stop:gui/501/com.demo.a` failed: denied"
    );
    assert_eq!(
        h.launchctl.calls.lock().unwrap().clone(),
        vec!["stop:gui/501/com.demo.a".to_string(), "stop:gui/501/com.demo.b".to_string()]
    );
}

#[test]
fn copied_details_carry_the_runtime_details() {
    let mut h = harness(false);
    h.controller.refresh(&scan(&["com.demo.b"]));
    let text = h.controller.selected_details_text().expect("details");
    assert!(text.contains("PID: 42"));
    assert_eq!(h.controller.runtime_details.len(), 1);
}

#[test]
fn failed_ai_actions_are_counted() {
    let mut h = harness(false);
    let files = scan(&["com.demo.a"]);
    h.controller.refresh(&files);
    h.controller.pending_ai_actions = vec![TriggerAction::Start, TriggerAction::Stop];
    *h.launchctl.failing.lock().unwrap() = true;
    h.controller.run_ai_suggested_actions(&files);
    assert_eq!(h.controller.status_message, "AI actions finished: 0 success, 2 failed.");
    assert!(h.controller.pending_ai_actions.is_empty());
}

#[test]
fn failed_queued_actions_are_counted_as_failed() {
    let mut h = harness(true);
    *h.quick.queued.lock().unwrap() = vec![QuickLaunchAction {
        action: "stop".to_string(),
        job_ids: vec!["/Users/demo/Library/LaunchAgents/com.demo.a.plist".to_string()],
    }];
    *h.launchctl.failing.lock().unwrap() = true;
    h.controller.refresh(&scan(&["com.demo.a"]));
    assert!(h
        .controller
        .status_message
        .ends_with(" QuickLaunch actions: 0 success, 1 failed, 0 skipped."));
    assert_eq!(
        h.launchctl.calls.lock().unwrap().clone(),
        vec!["stop:gui/501/com.demo.a".to_string()]
    );
}
