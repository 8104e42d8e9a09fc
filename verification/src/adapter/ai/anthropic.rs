//! The Anthropic messages service: its settings, prompt and the reading of its replies.
use crate::adapter::ai::json::{field_of, get_field, joined_texts, joined_texts_of, json_document, json_document_error, parse_json};
use crate::adapter::ai::openai_compat::{api_key_from_setting, api_key_setting};
use crate::adapter::ai::provider::{
    cuttable_at, request_failure, request_failure_message, response_from_content,
    response_shows, status_ok, AiEditRequest, AiEditResponse,
};
use crate::error::{validation, AppError, AppResult};
use crate::text::{append_str, from_chars, to_chars, trim};
use vstd::prelude::*;

verus! {

/// The Anthropic messages service, with where and how it is reached.
#[derive(Debug, Clone)]
pub struct AnthropicProvider {
    endpoint: String,
    model: Option<String>,
    api_key: Option<String>,
}

/// The prompt that carries the request and the current plist.
pub open spec fn anthropic_prompt_text(request: AiEditRequest) -> Seq<char> {
    "User request:\n"@ + request.user_prompt@ + "\n\nCurrent plist XML:\n"@
        + request.xml_snapshot@
}

/// The text of a reply: the `text` of its content blocks, one per line.
pub open spec fn anthropic_content(v: crate::adapter::ai::json::JsonValue) -> Option<Seq<char>> {
    joined_texts(field_of(v, "content"@))
}

impl AnthropicProvider {
    /// The service configured by the given settings; the endpoint falls back to its default.
    pub fn with_settings(endpoint: Option<String>, model: Option<String>, api_key: Option<String>) -> (r:
        Self)
        ensures
            r.endpoint()@ == match endpoint {
                Some(e) => e@,
                None => "https://api.anthropic.com/v1/messages"@,
            },
            r.model() == model,
            match r.api_key() {
                Some(k) => api_key_setting(api_key) == Some(k@),
                None => api_key_setting(api_key) is None,
            },
    {
        AnthropicProvider {
            endpoint: match endpoint {
                Some(e) => e,
                None => from_chars(to_chars("https://api.anthropic.com/v1/messages").as_slice()),
            },
            model,
            api_key: api_key_from_setting(api_key),
        }
    }

    pub closed spec fn endpoint(&self) -> String {
        self.endpoint
    }

    pub closed spec fn model(&self) -> Option<String> {
        self.model
    }

    pub closed spec fn api_key(&self) -> Option<String> {
        self.api_key
    }

    pub fn endpoint_url(&self) -> (r: &str)
        ensures
            r@ == self.endpoint()@,
    {
        self.endpoint.as_str()
    }

    /// The model to ask; a service without one is refused before any request.
    pub fn require_model(&self) -> (r: AppResult<String>)
        ensures
            self.model() matches Some(m) ==> r matches Ok(x) && x@ == m@,
            self.model() is None ==> (r matches Err(AppError::Validation(e)) && e@
                == "Anthropic model missing. Set LAUNCHPAD_ANTHROPIC_MODEL."@),
    {
        match &self.model {
            Some(m) => Ok(from_chars(to_chars(m.as_str()).as_slice())),
            None => Err(validation("Anthropic model missing. Set LAUNCHPAD_ANTHROPIC_MODEL.")),
        }
    }

    pub fn provider_name(&self) -> (r: &'static str)
        ensures
            r@ == "anthropic"@,
    {
        "anthropic"
    }

    /// The API key; a service without one is refused before any request.
    pub fn require_api_key(&self) -> (r: AppResult<String>)
        ensures
            self.api_key() matches Some(k) ==> r matches Ok(x) && x@ == k@,
            self.api_key() is None ==> (r matches Err(AppError::Validation(m)) && m@
                == "Anthropic API key missing. Set LAUNCHPAD_ANTHROPIC_API_KEY."@),
    {
        match &self.api_key {
            Some(k) => Ok(from_chars(to_chars(k.as_str()).as_slice())),
            None => Err(validation("Anthropic API key missing. Set LAUNCHPAD_ANTHROPIC_API_KEY.")),
        }
    }

    /// The prompt sent to the service.
    pub fn prompt(&self, request: &AiEditRequest) -> (r: String)
        ensures
            r@ == anthropic_prompt_text(*request),
    {
        let mut v: Vec<char> = Vec::new();
        append_str(&mut v, "User request:\n");
        append_str(&mut v, request.user_prompt.as_str());
        append_str(&mut v, "\n\nCurrent plist XML:\n");
        append_str(&mut v, request.xml_snapshot.as_str());
        from_chars(v.as_slice())
    }

    /// The response that a reply gives: a failing status, a body that is not JSON, and a
    /// reply without text are refused.
    pub fn reply_to_response(&self, status: u16, body: &str) -> (r: AppResult<AiEditResponse>)
        requires
            !status_ok(status) ==> cuttable_at(trim(body@), 240),
        ensures
            !status_ok(status) ==> (r matches Err(AppError::Validation(m)) && m@
                == request_failure_message("Anthropic"@, status, body@)),
            status_ok(status) ==> match json_document(body@) {
                None => r matches Err(AppError::Json(m)) && m@ == json_document_error(body@),
                Some(v) => match anthropic_content(v) {
                    Some(c) => r matches Ok(resp) && response_shows(resp, "anthropic"@, c),
                    None => r matches Err(AppError::Validation(m)) && m@
                        == "Anthropic response missing content text."@,
                },
            },
    {
        if !(200 <= status && status < 300) {
            return Err(request_failure("Anthropic", status, body));
        }
        let json = match parse_json(body) {
            Ok(v) => v,
            Err(m) => {
                return Err(AppError::Json(m));
            },
        };
        match joined_texts_of(get_field(&json, "content")) {
            Some(content) => Ok(response_from_content(self.provider_name(), content.as_str())),
            None => Err(validation("Anthropic response missing content text.")),
        }
    }
}

} // verus!
