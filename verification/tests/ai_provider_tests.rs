use launchpad::adapter::ai::anthropic::AnthropicProvider;
use launchpad::adapter::ai::claude_agent_sidecar::ClaudeAgentSidecarProvider;
use launchpad::adapter::ai::google::GoogleProvider;
use launchpad::adapter::ai::openai_compat::{
    default_endpoint, default_model, extract_openai_stream_chunks, setting_keys,
    OpenAiCompatibleProvider,
};
use launchpad::adapter::ai::provider::{
    extract_suggested_actions, summarize_and_extract_notes, truncate_for_error, AiEditRequest,
    AiEditResponse, AiStreamResponse,
};
use launchpad::error::AppError;

#[test]
fn stream_chunks_contains_summary_and_notes() {
    let response = AiEditResponse {
        provider: "mock".to_string(),
        summary: "summary".to_string(),
        suggested_patch_notes: vec!["note-a".to_string(), "note-b".to_string()],
        suggested_actions: vec!["enable".to_string()],
    };
    let chunks = response.stream_chunks();
    assert_eq!(chunks, vec!["summary", "note-a", "note-b", "action:enable"]);
}

#[test]
fn extract_suggested_actions_reads_action_lines() {
    let text = "- ACTION: load\n* Action: enable\n- action: restart";
    let actions = extract_suggested_actions(text);
    assert_eq!(
        actions,
        vec![
            "load".to_string(),
            "enable".to_string(),
            "restart".to_string()
        ]
    );
}

#[test]
fn extract_openai_stream_chunks_collects_delta_content() {
    let payload = r#"
data: {"choices":[{"delta":{"content":"Hello"}}]}
data: {"choices":[{"delta":{"content":" world"}}]}
data: [DONE]
"#;
    let chunks = extract_openai_stream_chunks(payload);
    assert_eq!(chunks, vec!["Hello".to_string(), " world".to_string()]);
}

#[test]
fn extract_openai_stream_chunks_ignores_invalid_lines() {
    let payload = r#"
event: ping
data: {"choices":[{"delta":{"role":"assistant"}}]}
data: invalid-json
data: [DONE]
"#;
    let chunks = extract_openai_stream_chunks(payload);
    assert!(chunks.is_empty());
}

#[test]
fn blank_summary_is_left_out_of_the_chunks() {
    let response = AiEditResponse {
        provider: "mock".to_string(),
        summary: "   ".to_string(),
        suggested_patch_notes: vec![],
        suggested_actions: vec!["load".to_string()],
    };
    let stream = AiStreamResponse::from_response(response);
    assert_eq!(stream.chunks, vec!["action:load".to_string()]);
    assert_eq!(stream.response.summary, "   ");
}

#[test]
fn summary_and_notes_drop_bullets_and_blank_lines() {
    let (summary, notes) = summarize_and_extract_notes("\n- Enable RunAtLoad\n\n* Set PATH\n  plain note  \n");
    assert_eq!(summary, "Enable RunAtLoad");
    assert_eq!(notes, vec!["Enable RunAtLoad", "Set PATH", "plain note"]);
    let (summary, notes) = summarize_and_extract_notes("  \n ");
    assert_eq!(summary, "No summary returned.");
    assert!(notes.is_empty());
}

#[test]
fn action_lines_without_a_name_are_skipped() {
    let actions = extract_suggested_actions("ACTION:   \nAction: START\nnot an action");
    assert_eq!(actions, vec!["start".to_string()]);
}

#[test]
fn error_bodies_are_trimmed_and_cut() {
    assert_eq!(truncate_for_error("  short body \n"), "short body");
    let long = "x".repeat(300);
    let cut = truncate_for_error(&long);
    assert_eq!(cut, format!("{}...", "x".repeat(240)));
    let exact = "y".repeat(240);
    assert_eq!(truncate_for_error(&exact), exact);
}

#[test]
fn openai_defaults_and_setting_names() {
    assert_eq!(default_endpoint("ollama"), "http://127.0.0.1:11434/v1/chat/completions");
    assert_eq!(default_endpoint("anything"), "https://api.openai.com/v1/chat/completions");
    assert_eq!(default_model("xai"), "grok-2-latest");
    let (base, model, key) = setting_keys("lm-studio");
    assert_eq!(base, "LAUNCHPAD_LM_STUDIO_BASE_URL");
    assert_eq!(model, "LAUNCHPAD_LM_STUDIO_MODEL");
    assert_eq!(key, "LAUNCHPAD_LM_STUDIO_API_KEY");
}

#[test]
fn openai_provider_reads_settings_and_replies() {
    let provider = OpenAiCompatibleProvider::with_settings(
        "openrouter",
        None,
        Some("custom-model".to_string()),
        Some("  secret  ".to_string()),
    );
    assert_eq!(provider.endpoint, "https://openrouter.ai/api/v1/chat/completions");
    assert_eq!(provider.model, "custom-model");
    assert_eq!(provider.api_key.as_deref(), Some("secret"));
    let blank = OpenAiCompatibleProvider::with_settings("openai", None, None, Some("  ".to_string()));
    assert!(blank.api_key.is_none());

    let request = AiEditRequest {
        user_prompt: "enable logs".to_string(),
        xml_snapshot: "<plist/>".to_string(),
    };
    assert_eq!(
        provider.prompt(&request),
        "You are a launchd plist assistant. Return concise actionable bullets only.\nUser request:\nenable logs\n\nCurrent plist XML:\n<plist/>"
    );

    let body = r#"{"choices":[{"message":{"content":"- Add log paths\n- ACTION: load"}}]}"#;
    let response = provider.reply_to_response(200, body).expect("reply");
    assert_eq!(response.provider, "openrouter");
    assert_eq!(response.summary, "Add log paths");
    assert_eq!(response.suggested_actions, vec!["load".to_string()]);

    match provider.reply_to_response(500, "  boom  ") {
        Err(AppError::Validation(m)) => assert_eq!(m, "openrouter request failed with status 500: boom"),
        other => panic!("unexpected: {other:?}"),
    }
    match provider.reply_to_response(200, "not json") {
        Err(AppError::Json(_)) => {}
        other => panic!("unexpected: {other:?}"),
    }
    match provider.reply_to_response(200, r#"{"choices":[]}"#) {
        Err(AppError::Validation(m)) => {
            assert_eq!(m, "openrouter response did not contain choices[0].message.content")
        }
        other => panic!("unexpected: {other:?}"),
    }
}

#[test]
fn openai_stream_reply_falls_back_without_chunks() {
    let provider = OpenAiCompatibleProvider::with_settings("openai", None, None, None);
    assert!(provider.stream_reply_to_response(404, "data: x").is_none());
    assert!(provider.stream_reply_to_response(200, "data: [DONE]").is_none());
    let body = "data: {\"choices\":[{\"delta\":{\"content\":\"Keep\"}}]}\ndata: {\"choices\":[{\"delta\":{\"content\":\" alive\"}}]}\n";
    let stream = provider.stream_reply_to_response(200, body).expect("stream");
    assert_eq!(stream.chunks, vec!["Keep".to_string(), " alive".to_string()]);
    assert_eq!(stream.response.summary, "Keep alive");
}

#[test]
fn anthropic_provider_needs_a_key_and_reads_text_blocks() {
    let provider = AnthropicProvider::with_settings(None, None, None);
    match provider.require_api_key() {
        Err(AppError::Validation(m)) => {
            assert_eq!(m, "Anthropic API key missing. Set LAUNCHPAD_ANTHROPIC_API_KEY.")
        }
        other => panic!("unexpected: {other:?}"),
    }
    assert_eq!(provider.endpoint_url(), "https://api.anthropic.com/v1/messages");
    let body = r#"{"content":[{"type":"text","text":"- First"},{"type":"text","text":"ACTION: enable"}]}"#;
    let response = provider.reply_to_response(200, body).expect("reply");
    assert_eq!(response.provider, "anthropic");
    assert_eq!(response.summary, "First");
    assert_eq!(response.suggested_actions, vec!["enable".to_string()]);
    match provider.reply_to_response(200, r#"{"content":[]}"#) {
        Err(AppError::Validation(m)) => assert_eq!(m, "Anthropic response missing content text."),
        other => panic!("unexpected: {other:?}"),
    }
}

#[test]
fn google_provider_builds_its_url_and_reads_candidates() {
    let provider = GoogleProvider::with_settings(None, None, Some("k1".to_string()));
    assert_eq!(
        provider.request_url().expect("url"),
        "https://generativelanguage.googleapis.com/v1beta/models/gemini-1.5-flash:generateContent?key=k1"
    );
    let body = r#"{"candidates":[{"content":{"parts":[{"text":"Use StartInterval"}]}}]}"#;
    let response = provider.reply_to_response(200, body).expect("reply");
    assert_eq!(response.summary, "Use StartInterval");
    match provider.reply_to_response(401, "denied") {
        Err(AppError::Validation(m)) => assert_eq!(m, "Google request failed with status 401: denied"),
        other => panic!("unexpected: {other:?}"),
    }
}

#[test]
fn sidecar_output_becomes_the_summary() {
    let provider = ClaudeAgentSidecarProvider::with_executable("/opt/sidecar".to_string());
    let response = provider.output_to_response(true, "  done  ", "").expect("ok");
    assert_eq!(response.summary, "done");
    assert_eq!(response.provider, "agent-sidecar");
    assert_eq!(provider.provider_name(), "agent-sidecar");
    let response = provider.output_to_response(true, "   ", "").expect("ok");
    assert_eq!(response.summary, "Sidecar returned empty response.");
    match provider.output_to_response(false, "", " crashed ") {
        Err(AppError::CommandFailed { command, stderr }) => {
            assert_eq!(command, "/opt/sidecar --mode launchd-edit");
            assert_eq!(stderr, "crashed");
        }
        other => panic!("unexpected: {other:?}"),
    }
}
