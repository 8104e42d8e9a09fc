use std::sync::Arc;

use launchpad::adapter::ai::provider::{AiEditRequest, AiEditResponse, AiProvider};
use launchpad::adapter::log_stream::{live_log_args, log_predicate, log_tail, recent_log_args, LogStreamClient};
use launchpad::config::AppConfig;
use launchpad::domain::diagnostic::DiagnosticSeverity;
use launchpad::domain::plist_document::StandardPlistDocument;
use launchpad::error::AppResult;
use launchpad::service::ai_service::{AiService, HeuristicAiProvider};
use launchpad::service::diagnostic_service::DiagnosticService;
use launchpad::service::log_service::LogService;
use launchpad::string_map::StringMap;
use launchpad::ui_state::UiState;

#[derive(Debug)]
struct MockLogClient;

impl LogStreamClient for MockLogClient {
    fn recent_logs_for_label(&self, label: &str, _minutes: u32, _max_lines: usize) -> AppResult<String> {
        Ok(format!("{label}: line-1\n{label}: line-2"))
    }

    fn live_logs_for_label(&self, label: &str, _seconds: u32, _max_lines: usize) -> AppResult<String> {
        Ok(format!("{label}: live-1\n{label}: live-2"))
    }
}

#[derive(Debug)]
struct MockProvider;

impl AiProvider for MockProvider {
    fn provider_name(&self) -> &'static str {
        "mock"
    }

    fn suggest_edit(&self, request: &AiEditRequest) -> AppResult<AiEditResponse> {
        Ok(AiEditResponse {
            provider: self.provider_name().to_string(),
            summary: format!("echo:{}", request.user_prompt),
            suggested_patch_notes: vec!["note-a".to_string()],
            suggested_actions: vec![],
        })
    }
}

#[test]
fn recent_logs_returns_client_output() {
    let service = LogService::new(Arc::new(MockLogClient));
    let logs = service
        .recent_logs("com.demo.service", 5, 200)
        .expect("logs");
    assert!(logs.contains("line-1"));
    assert!(logs.contains("com.demo.service"));
}

#[test]
fn live_logs_returns_client_output() {
    let service = LogService::new(Arc::new(MockLogClient));
    let logs = service.live_logs("com.demo.service", 5, 200).expect("logs");
    assert!(logs.contains("live-1"));
}

#[test]
fn ai_service_delegates_to_provider() {
    let service = AiService::with_provider(Arc::new(MockProvider));
    let response = service
        .suggest_edit("enable run at load", "<plist/>")
        .expect("ai response");
    assert_eq!(response.provider, "mock");
    assert!(response.summary.contains("enable run at load"));
    let stream = service
        .suggest_edit_with_stream("x", "<plist/>")
        .expect("stream");
    assert_eq!(stream.chunks, vec!["echo:x".to_string(), "note-a".to_string()]);
}

#[test]
fn analysis_reports_multiple_findings() {
    let service = DiagnosticService;
    let document = StandardPlistDocument {
        label: "bad label".to_string(),
        program: "relative/path".to_string(),
        program_arguments: vec![],
        run_at_load: false,
        keep_alive: false,
        start_interval: Some(0),
        working_directory: Some("tmp".to_string()),
        environment_variables: StringMap::from_pairs(vec![("my key".to_string(), "1".to_string())]),
        extra_string_keys: StringMap::new(),
    };

    let issues = service.analyze(&document);
    assert!(issues.len() >= 8);
    assert!(issues
        .iter()
        .any(|issue| issue.severity == DiagnosticSeverity::Error));
    assert!(issues.iter().any(|issue| issue.key == "WorkingDirectory"));
}

#[test]
fn heuristic_assistant_answers_from_keywords() {
    let provider = HeuristicAiProvider;
    let request = AiEditRequest {
        user_prompt: "Please KEEP ALIVE and add logs".to_string(),
        xml_snapshot: String::new(),
    };
    let response = provider.suggest_edit(&request).expect("answer");
    assert_eq!(response.provider, "heuristic-local");
    assert_eq!(response.summary, "基于当前配置与提示词的建议（heuristic-local）");
    assert_eq!(
        response.suggested_patch_notes,
        vec![
            "建议启用 KeepAlive=true 并检查退出循环风险。".to_string(),
            "建议配置 StandardOutPath / StandardErrorPath 便于后续日志排查。".to_string(),
        ]
    );
    let request = AiEditRequest {
        user_prompt: "hello".to_string(),
        xml_snapshot: String::new(),
    };
    let response = provider.suggest_edit(&request).expect("answer");
    assert_eq!(
        response.suggested_patch_notes,
        vec!["可先描述目标：何时运行、是否常驻、依赖哪些环境变量。".to_string()]
    );
}

#[test]
fn log_tool_arguments_and_output() {
    assert_eq!(
        log_predicate("com.\"demo\""),
        "eventMessage CONTAINS[c] \"com.\\\"demo\\\"\" OR process CONTAINS[c] \"com.\\\"demo\\\"\""
    );
    let args = recent_log_args("x", 15);
    assert_eq!(&args[..5], &["show", "--style", "compact", "--last", "15m"]);
    let args = live_log_args("x", 7);
    assert_eq!(&args[..5], &["stream", "--style", "compact", "--timeout", "7"]);
    assert_eq!(log_tail("a\n\n  \nb\nc\n", 2), "b\nc");
    assert_eq!(log_tail("a\nb", 10), "a\nb");
}

#[test]
fn config_values_and_flags() {
    let config = AppConfig::from_values(None, Some("YES".to_string()), Some("0".to_string()), Some("0".to_string()));
    assert_eq!(config.ai_default_provider, "heuristic-local");
    assert!(config.quicklaunch_enabled);
    assert!(!config.quicklaunch_starred_only);
    assert_eq!(config.quicklaunch_max_items, 12);
    let config = AppConfig::from_values(Some("openai".to_string()), None, None, Some("30".to_string()));
    assert_eq!(config.ai_default_provider, "openai");
    assert!(!config.quicklaunch_enabled);
    assert!(config.quicklaunch_starred_only);
    assert_eq!(config.quicklaunch_max_items, 30);
}

#[test]
fn delete_needs_a_second_request_for_the_same_job() {
    let mut state = UiState::default();
    state.select(3);
    assert!(!state.request_delete_confirmation(3));
    assert_eq!(state.pending_delete_index, Some(3));
    assert!(state.request_delete_confirmation(3));
    assert_eq!(state.pending_delete_index, None);
    assert!(!state.request_delete_confirmation(3));
    assert!(!state.request_delete_confirmation(4));
    state.select(1);
    assert_eq!(state.pending_delete_index, None);
    state.begin_delete_confirmation(1);
    assert_eq!(state.take_confirmed_delete(), Some(1));
    assert_eq!(state.take_confirmed_delete(), None);
}
