//! The Google generative language service: its settings, request URL and prompt, and the
//! reading of its replies.
use crate::adapter::ai::json::{
    field_of, first_element, first_of, get_field, get_of, get_opt, joined_texts, joined_texts_of,
    json_document, json_document_error, parse_json, JsonValue,
};
use crate::adapter::ai::openai_compat::{api_key_from_setting, api_key_setting};
use crate::adapter::ai::provider::{
    cuttable_at, request_failure, request_failure_message, response_from_content,
    response_shows, status_ok, AiEditRequest, AiEditResponse,
};
use crate::error::{validation, AppError, AppResult};
use crate::text::{append_str, from_chars, to_chars, trim};
use vstd::prelude::*;

verus! {

/// The Google generative language service, with where and how it is reached.
#[derive(Debug, Clone)]
pub struct GoogleProvider {
    endpoint_base: String,
    model: String,
    api_key: Option<String>,
}

/// The prompt that carries the request and the current plist.
pub open spec fn google_prompt_text(request: AiEditRequest) -> Seq<char> {
    "You are a launchd plist assistant. Return concise bullet suggestions only.\nUser request:\n"@
        + request.user_prompt@ + "\n\nCurrent plist XML:\n"@ + request.xml_snapshot@
}

/// The text of a reply: the `text` of the first candidate's parts, one per line.
pub open spec fn google_content(v: JsonValue) -> Option<Seq<char>> {
    joined_texts(get_of(get_of(first_of(field_of(v, "candidates"@)), "content"@), "parts"@))
}

impl GoogleProvider {
    /// The service configured by the given settings, each falling back to its default.
    pub fn with_settings(
        endpoint_base: Option<String>,
        model: Option<String>,
        api_key: Option<String>,
    ) -> (r: Self)
        ensures
            r.endpoint_base()@ == match endpoint_base {
                Some(e) => e@,
                None => "https://generativelanguage.googleapis.com/v1beta"@,
            },
            r.model()@ == match model {
                Some(m) => m@,
                None => "gemini-1.5-flash"@,
            },
            match r.api_key() {
                Some(k) => api_key_setting(api_key) == Some(k@),
                None => api_key_setting(api_key) is None,
            },
    {
        GoogleProvider {
            endpoint_base: match endpoint_base {
                Some(e) => e,
                None => from_chars(
                    to_chars("https://generativelanguage.googleapis.com/v1beta").as_slice(),
                ),
            },
            model: match model {
                Some(m) => m,
                None => from_chars(to_chars("gemini-1.5-flash").as_slice()),
            },
            api_key: api_key_from_setting(api_key),
        }
    }

    pub closed spec fn endpoint_base(&self) -> String {
        self.endpoint_base
    }

    pub closed spec fn model(&self) -> String {
        self.model
    }

    pub closed spec fn api_key(&self) -> Option<String> {
        self.api_key
    }

    pub fn provider_name(&self) -> (r: &'static str)
        ensures
            r@ == "google"@,
    {
        "google"
    }

    /// The URL of a request made with the API key; a service without a key is refused.
    pub fn request_url(&self) -> (r: AppResult<String>)
        ensures
            self.api_key() matches Some(k) ==> r matches Ok(u) && u@ == self.endpoint_base()@
                + "/models/"@ + self.model()@ + ":generateContent?key="@ + k@,
            self.api_key() is None ==> (r matches Err(AppError::Validation(m)) && m@
                == "Google API key missing. Set LAUNCHPAD_GOOGLE_API_KEY."@),
    {
        match &self.api_key {
            Some(k) => {
                let mut v: Vec<char> = Vec::new();
                append_str(&mut v, self.endpoint_base.as_str());
                append_str(&mut v, "/models/");
                append_str(&mut v, self.model.as_str());
                append_str(&mut v, ":generateContent?key=");
                append_str(&mut v, k.as_str());
                Ok(from_chars(v.as_slice()))
            },
            None => Err(validation("Google API key missing. Set LAUNCHPAD_GOOGLE_API_KEY.")),
        }
    }

    /// The prompt sent to the service.
    pub fn prompt(&self, request: &AiEditRequest) -> (r: String)
        ensures
            r@ == google_prompt_text(*request),
    {
        let mut v: Vec<char> = Vec::new();
        append_str(
            &mut v,
            "You are a launchd plist assistant. Return concise bullet suggestions only.\nUser request:\n",
        );
        append_str(&mut v, request.user_prompt.as_str());
        append_str(&mut v, "\n\nCurrent plist XML:\n");
        append_str(&mut v, request.xml_snapshot.as_str());
        from_chars(v.as_slice())
    }

    /// The response that a reply gives: a failing status, a body that is not JSON, and a
    /// reply without candidate text are refused.
    pub fn reply_to_response(&self, status: u16, body: &str) -> (r: AppResult<AiEditResponse>)
        requires
            !status_ok(status) ==> cuttable_at(trim(body@), 240),
        ensures
            !status_ok(status) ==> (r matches Err(AppError::Validation(m)) && m@
                == request_failure_message("Google"@, status, body@)),
            status_ok(status) ==> match json_document(body@) {
                None => r matches Err(AppError::Json(m)) && m@ == json_document_error(body@),
                Some(v) => match google_content(v) {
                    Some(c) => r matches Ok(resp) && response_shows(resp, "google"@, c),
                    None => r matches Err(AppError::Validation(m)) && m@
                        == "Google response missing candidate text."@,
                },
            },
    {
        if !(200 <= status && status < 300) {
            return Err(request_failure("Google", status, body));
        }
        let json = match parse_json(body) {
            Ok(v) => v,
            Err(m) => {
                return Err(AppError::Json(m));
            },
        };
        let candidates = get_field(&json, "candidates");
        let first = first_element(candidates);
        let content = get_opt(first, "content");
        let parts = get_opt(content, "parts");
        match joined_texts_of(parts) {
            Some(text) => Ok(response_from_content(self.provider_name(), text.as_str())),
            None => Err(validation("Google response missing candidate text.")),
        }
    }
}

} // verus!
