use std::sync::Arc;

use launchpad::adapter::plist_doc::PlistDocumentStore;
use launchpad::controller::editor::{
    add_key_template, ai_patch_candidate_from_prompt, build_line_diff,
    editor_document_from_state, first_u64_in_text, EditorState,
};
use launchpad::controller::views::{
    bool_to_badge, clear_details, formatted_job_details, parse_palette_command, PaletteCommand,
};
use launchpad::domain::action::TriggerAction;
use launchpad::domain::job::{JobCapabilities, JobMetadata, JobScope, JobSummary};
use launchpad::domain::job_detail::JobRuntimeDetails;
use launchpad::domain::plist_document::StandardPlistDocument;
use launchpad::domain::status::JobStatus;
use launchpad::error::AppResult;
use launchpad::service::plist_service::PlistService;
use launchpad::string_map::StringMap;

struct NoStore;

impl PlistDocumentStore for NoStore {
    fn load_standard_document(&self, _path: &str) -> AppResult<StandardPlistDocument> {
        Ok(StandardPlistDocument::default())
    }
    fn save_standard_document(&self, _path: &str, _document: &StandardPlistDocument) -> AppResult<()> {
        Ok(())
    }
    fn to_xml(&self, _document: &StandardPlistDocument) -> AppResult<String> {
        Ok(String::new())
    }
}

fn service() -> PlistService<NoStore> {
    PlistService::with_home_dir(Arc::new(NoStore), None)
}

#[test]
fn line_diff_lists_changed_lines() {
    assert_eq!(build_line_diff("a\nb\nc", "a\nx\nc\nd"), "- b\n+ x\n+ d");
    assert_eq!(build_line_diff("same\ntext", "same\ntext"), "No line changes.");
    assert_eq!(build_line_diff("", ""), "No line changes.");
}

#[test]
fn first_number_is_taken_from_the_text() {
    assert_eq!(first_u64_in_text("run every 300s please"), Some(300));
    assert_eq!(first_u64_in_text("interval=(45) then 9"), Some(45));
    assert_eq!(first_u64_in_text("no digits here"), None);
    assert_eq!(first_u64_in_text("1a2 77"), Some(77));
}

#[test]
fn editor_fields_round_trip_through_a_document() {
    let doc = StandardPlistDocument {
        label: "com.demo.x".to_string(),
        program: "/bin/sh".to_string(),
        program_arguments: vec!["/bin/sh".to_string(), "-c".to_string()],
        run_at_load: true,
        keep_alive: false,
        start_interval: Some(60),
        working_directory: Some("/tmp".to_string()),
        environment_variables: StringMap::from_pairs(vec![("A".to_string(), "1".to_string())]),
        extra_string_keys: StringMap::from_pairs(vec![("UserName".to_string(), "me".to_string())]),
    };
    let s = service();
    let state = EditorState::from_document(&doc, &s);
    assert_eq!(state.program_arguments, "/bin/sh -c");
    assert_eq!(state.start_interval, "60");
    assert_eq!(state.environment_variables, "A=1");
    assert_eq!(state.expert_entries, "UserName=me");
    assert_eq!(state.log_window_minutes, "10");
    let back = editor_document_from_state(&state, &s).expect("document");
    assert_eq!(back, doc);
}

#[test]
fn prompts_patch_documents() {
    let doc = StandardPlistDocument {
        label: "com.demo.x".to_string(),
        program: "/bin/sh".to_string(),
        ..StandardPlistDocument::default()
    };
    let patched = ai_patch_candidate_from_prompt("Run At Load every interval 120 with LOG", &doc)
        .expect("patch");
    assert!(patched.run_at_load);
    assert_eq!(patched.start_interval, Some(120));
    assert_eq!(
        patched.extra_string_keys.get("StandardOutPath").as_deref(),
        Some("/tmp/launchpad.out.log")
    );
    assert!(ai_patch_candidate_from_prompt("nothing to do", &doc).is_none());
    let mut alive = doc.clone();
    alive.keep_alive = true;
    let off = ai_patch_candidate_from_prompt("disable keep alive", &alive).expect("patch");
    assert!(!off.keep_alive);
}

#[test]
fn palette_entries_name_commands() {
    assert!(matches!(parse_palette_command("  Kickstart "), PaletteCommand::Trigger(TriggerAction::Kickstart)));
    assert!(matches!(
        parse_palette_command("restart starred"),
        PaletteCommand::TriggerStarred(TriggerAction::Kickstart)
    ));
    assert!(matches!(parse_palette_command("new global job"), PaletteCommand::NewJob(JobScope::GlobalAgent)));
    match parse_palette_command("provider  OpenAI ") {
        PaletteCommand::SwitchProvider(name) => assert_eq!(name, "openai"),
        other => panic!("unexpected: {other:?}"),
    }
    match parse_palette_command("Do Things") {
        PaletteCommand::Unknown(text) => assert_eq!(text, "do things"),
        other => panic!("unexpected: {other:?}"),
    }
}

#[test]
fn job_details_text_lists_every_field() {
    let job = JobSummary {
        id: "id".to_string(),
        label: "com.demo.x".to_string(),
        path: "/tmp/x.plist".to_string(),
        scope: JobScope::GlobalAgent,
        status: JobStatus::Running,
        is_starred: false,
        metadata: JobMetadata { run_at_load: Some(false), keep_alive: None, disabled: Some(true) },
        capabilities: JobCapabilities {
            can_trigger: true,
            can_delete: false,
            trigger_reason: None,
            delete_reason: None,
        },
        error: Some("bad plist".to_string()),
    };
    let details = JobRuntimeDetails {
        pid: Some("7".to_string()),
        last_exit_status: None,
        last_run: None,
        raw_hint: Some("hint".to_string()),
    };
    assert_eq!(
        formatted_job_details(&job, &details),
        "LaunchPad Job Details\n----------------------\nLabel: com.demo.x\nScope: global-agent\nStatus: running\nPath: /tmp/x.plist\nStarred: no\nRunAtLoad: no\nKeepAlive: N/A\nDisabled key: yes\nPID: 7\nLast Exit Status: N/A\nLast Run: N/A\nWarning: bad plist\nRuntime Hint: hint"
    );
    assert_eq!(bool_to_badge(true), "yes");
    let cleared = clear_details();
    assert_eq!(cleared.selected_row, -1);
    assert!(!cleared.can_delete);
}

#[test]
fn key_template_keeps_filled_fields() {
    let s = service();
    let mut state = EditorState::default();
    state.program = "/bin/echo".to_string();
    add_key_template(&mut state, "ProgramArguments", &s);
    assert_eq!(state.program_arguments, "/bin/echo");
    add_key_template(&mut state, "Label", &s);
    assert_eq!(state.label, "com.example.new-job");
    state.label = "mine".to_string();
    add_key_template(&mut state, "Label", &s);
    assert_eq!(state.label, "mine");
    state.expert_entries = "Nice=5".to_string();
    add_key_template(&mut state, "Nice", &s);
    assert_eq!(state.expert_entries, "Nice=5");
    add_key_template(&mut state, "Umask", &s);
    assert_eq!(state.expert_entries, "Nice=5, Umask=<value>");
}
