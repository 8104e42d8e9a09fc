//! OpenAI-compatible chat services (OpenAI, OpenRouter, LM Studio, Ollama, xAI): their
//! settings, the prompt they are sent, and the reading of their replies.
use crate::adapter::ai::json::{
    as_str_value, field_of, first_element, first_of, get_field, get_of, get_opt, json_document,
    json_document_error, parse_json, str_of, JsonValue,
};
use crate::adapter::ai::provider::{
    cuttable_at, request_failure, request_failure_message, response_from_content,
    response_shows, status_ok, AiEditRequest, AiEditResponse, AiStreamResponse,
    stream_chunks_of,
};
use crate::error::{AppError, AppResult};
use crate::text::{
    append_str, eq_str, from_chars, join, lines, lines_chars, str_views, strip_prefix,
    strip_prefix_chars, to_chars, trim, trim_chars, upper, upper_chars, views,
};
use vstd::prelude::*;

verus! {

/// An OpenAI-compatible chat service, by name, with where and how it is reached.
#[derive(Debug, Clone)]
pub struct OpenAiCompatibleProvider {
    pub provider_name: &'static str,
    pub endpoint: String,
    pub model: String,
    pub api_key: Option<String>,
}

/// The chat endpoint a service uses when none is configured.
pub open spec fn default_endpoint_for(provider_name: Seq<char>) -> Seq<char> {
    if provider_name == "openrouter"@ {
        "https://openrouter.ai/api/v1/chat/completions"@
    } else if provider_name == "lm-studio"@ {
        "http://127.0.0.1:1234/v1/chat/completions"@
    } else if provider_name == "ollama"@ {
        "http://127.0.0.1:11434/v1/chat/completions"@
    } else if provider_name == "xai"@ {
        "https://api.x.ai/v1/chat/completions"@
    } else {
        "https://api.openai.com/v1/chat/completions"@
    }
}

/// The model a service uses when none is configured.
pub open spec fn default_model_for(provider_name: Seq<char>) -> Seq<char> {
    if provider_name == "openrouter"@ {
        "openai/gpt-4o-mini"@
    } else if provider_name == "lm-studio"@ {
        "local-model"@
    } else if provider_name == "ollama"@ {
        "llama3.1"@
    } else if provider_name == "xai"@ {
        "grok-2-latest"@
    } else {
        "gpt-4o-mini"@
    }
}

fn string_of(s: &str) -> (r: String)
    ensures
        r@ == s@,
{
    from_chars(to_chars(s).as_slice())
}

pub fn default_endpoint(provider_name: &str) -> (r: String)
    ensures
        r@ == default_endpoint_for(provider_name@),
{
    let n = to_chars(provider_name);
    if eq_str(&n, "openrouter") {
        string_of("https://openrouter.ai/api/v1/chat/completions")
    } else if eq_str(&n, "lm-studio") {
        string_of("http://127.0.0.1:1234/v1/chat/completions")
    } else if eq_str(&n, "ollama") {
        string_of("http://127.0.0.1:11434/v1/chat/completions")
    } else if eq_str(&n, "xai") {
        string_of("https://api.x.ai/v1/chat/completions")
    } else {
        string_of("https://api.openai.com/v1/chat/completions")
    }
}

pub fn default_model(provider_name: &str) -> (r: String)
    ensures
        r@ == default_model_for(provider_name@),
{
    let n = to_chars(provider_name);
    if eq_str(&n, "openrouter") {
        string_of("openai/gpt-4o-mini")
    } else if eq_str(&n, "lm-studio") {
        string_of("local-model")
    } else if eq_str(&n, "ollama") {
        string_of("llama3.1")
    } else if eq_str(&n, "xai") {
        string_of("grok-2-latest")
    } else {
        string_of("gpt-4o-mini")
    }
}

/// The service's name as it appears in setting names: `-` as `_`, in upper case.
pub open spec fn setting_prefix(provider_name: Seq<char>) -> Seq<char> {
    upper(provider_name.map_values(|c: char| if c == '-' { '_' } else { c }))
}

/// The names of the settings for a service's endpoint, model and API key.
pub open spec fn setting_names(provider_name: Seq<char>) -> (Seq<char>, Seq<char>, Seq<char>) {
    let p = setting_prefix(provider_name);
    (
        "LAUNCHPAD_"@ + p + "_BASE_URL"@,
        "LAUNCHPAD_"@ + p + "_MODEL"@,
        "LAUNCHPAD_"@ + p + "_API_KEY"@,
    )
}

/// The names of the settings that configure a service.
pub fn setting_keys(provider_name: &str) -> (r: (String, String, String))
    ensures
        (r.0@, r.1@, r.2@) == setting_names(provider_name@),
{
    let n = to_chars(provider_name);
    let mut dashed: Vec<char> = Vec::new();
    let mut i: usize = 0;
    while i < n.len()
        invariant
            i <= n.len(),
            dashed@ == n@.take(i as int).map_values(|c: char| if c == '-' { '_' } else { c }),
        decreases n.len() - i,
    {
        dashed.push(if n[i] == '-' { '_' } else { n[i] });
        assert(n@.take(i + 1).map_values(|c: char| if c == '-' { '_' } else { c }) =~= n@.take(
            i as int,
        ).map_values(|c: char| if c == '-' { '_' } else { c }).push(
            if n@[i as int] == '-' { '_' } else { n@[i as int] },
        ));
        i = i + 1;
    }
    assert(n@.take(n.len() as int) =~= n@);
    let p = upper_chars(&dashed);
    let mut a: Vec<char> = Vec::new();
    append_str(&mut a, "LAUNCHPAD_");
    crate::text::append_chars(&mut a, &p);
    let mut b = a.clone();
    let mut c = a.clone();
    assert(b@ =~= a@ && c@ =~= a@);
    append_str(&mut a, "_BASE_URL");
    append_str(&mut b, "_MODEL");
    append_str(&mut c, "_API_KEY");
    (from_chars(a.as_slice()), from_chars(b.as_slice()), from_chars(c.as_slice()))
}

/// A configured API key: trimmed, and none where it is blank.
pub open spec fn api_key_setting(value: Option<String>) -> Option<Seq<char>> {
    match value {
        Some(v) => if trim(v@).len() > 0 {
            Some(trim(v@))
        } else {
            None
        },
        None => None,
    }
}

/// A configured API key, trimmed; none where it is absent or blank.
pub fn api_key_from_setting(value: Option<String>) -> (r: Option<String>)
    ensures
        r matches Some(k) ==> api_key_setting(value) == Some(k@),
        r is None ==> api_key_setting(value) is None,
{
    match value {
        Some(v) => {
            let t = trim_chars(&to_chars(v.as_str()));
            if t.len() > 0 {
                Some(from_chars(t.as_slice()))
            } else {
                None
            }
        },
        None => None,
    }
}

/// The text of a reply's first choice, `choices[0].message.content`.
pub open spec fn openai_content(v: JsonValue) -> Option<Seq<char>> {
    str_of(get_of(get_of(first_of(field_of(v, "choices"@)), "message"@), "content"@))
}

/// The text of a streamed event's first choice, `choices[0].delta.content`.
pub open spec fn openai_delta(v: JsonValue) -> Option<Seq<char>> {
    str_of(get_of(get_of(first_of(field_of(v, "choices"@)), "delta"@), "content"@))
}

/// The chunk that one line of a streamed reply carries: a `data: ` event other than
/// `[DONE]` whose JSON holds a delta text.
pub open spec fn stream_chunk_of_line(line: Seq<char>) -> Option<Seq<char>> {
    match strip_prefix(trim(line), "data: "@) {
        Some(payload) => if payload != "[DONE]"@ && trim(payload).len() > 0 {
            match json_document(payload) {
                Some(v) => openai_delta(v),
                None => None,
            }
        } else {
            None
        },
        None => None,
    }
}

/// The chunks of a streamed reply, line by line.
pub open spec fn stream_chunks_of_lines(ls: Seq<Seq<char>>) -> Seq<Seq<char>>
    decreases ls.len(),
{
    if ls.len() == 0 {
        Seq::empty()
    } else {
        let rest = stream_chunks_of_lines(ls.drop_last());
        match stream_chunk_of_line(ls.last()) {
            Some(c) => rest.push(c),
            None => rest,
        }
    }
}

fn openai_text(v: &JsonValue, field: &str) -> (r: Option<String>)
    ensures
        field@ == "message"@ ==> (r matches Some(s) ==> openai_content(*v) == Some(s@)) && (
        r is None ==> openai_content(*v) is None),
        field@ == "delta"@ ==> (r matches Some(s) ==> openai_delta(*v) == Some(s@)) && (r is None
            ==> openai_delta(*v) is None),
{
    let choices = get_field(v, "choices");
    let first = first_element(choices);
    let inner = get_opt(first, field);
    let content = get_opt(inner, "content");
    as_str_value(content)
}

fn stream_chunk_of_line_chars(line: &Vec<char>) -> (r: Option<String>)
    ensures
        r matches Some(c) ==> stream_chunk_of_line(line@) == Some(c@),
        r is None ==> stream_chunk_of_line(line@) is None,
{
    let t = trim_chars(line);
    match strip_prefix_chars(&t, &to_chars("data: ")) {
        Some(payload) => {
            if !eq_str(&payload, "[DONE]") && trim_chars(&payload).len() > 0 {
                let text = from_chars(payload.as_slice());
                match parse_json(text.as_str()) {
                    Ok(v) => openai_text(&v, "delta"),
                    Err(_) => None,
                }
            } else {
                None
            }
        },
        None => None,
    }
}

/// The text chunks of a streamed reply, in order.
pub fn extract_openai_stream_chunks(raw: &str) -> (r: Vec<String>)
    ensures
        str_views(r@) == stream_chunks_of_lines(lines(raw@)),
{
    let ls = lines_chars(&to_chars(raw));
    let mut out: Vec<String> = Vec::new();
    let mut i: usize = 0;
    while i < ls.len()
        invariant
            i <= ls.len(),
            views(ls@) == lines(raw@),
            str_views(out@) == stream_chunks_of_lines(views(ls@).take(i as int)),
        decreases ls.len() - i,
    {
        assert(views(ls@).take(i + 1).drop_last() =~= views(ls@).take(i as int));
        match stream_chunk_of_line_chars(&ls[i]) {
            Some(c) => {
                let ghost before = out@;
                out.push(c);
                proof {
                    crate::text::lemma_str_views_push(before, c);
                }
            },
            None => {},
        }
        i = i + 1;
    }
    assert(views(ls@).take(ls.len() as int) =~= views(ls@));
    out
}

/// The user prompt that carries the request and the current plist.
pub open spec fn openai_prompt_text(request: AiEditRequest) -> Seq<char> {
    "You are a launchd plist assistant. Return concise actionable bullets only.\nUser request:\n"@
        + request.user_prompt@ + "\n\nCurrent plist XML:\n"@ + request.xml_snapshot@
}

/// The message of a reply without choices.
pub open spec fn missing_choice_message(provider_name: Seq<char>) -> Seq<char> {
    provider_name + " response did not contain choices[0].message.content"@
}

impl OpenAiCompatibleProvider {
    /// A service configured by the given settings, each falling back to its default.
    pub fn with_settings(
        provider_name: &'static str,
        endpoint: Option<String>,
        model: Option<String>,
        api_key: Option<String>,
    ) -> (r: Self)
        ensures
            r.provider_name@ == provider_name@,
            r.endpoint@ == match endpoint {
                Some(e) => e@,
                None => default_endpoint_for(provider_name@),
            },
            r.model@ == match model {
                Some(m) => m@,
                None => default_model_for(provider_name@),
            },
            match r.api_key {
                Some(k) => api_key_setting(api_key) == Some(k@),
                None => api_key_setting(api_key) is None,
            },
    {
        let endpoint = match endpoint {
            Some(e) => e,
            None => default_endpoint(provider_name),
        };
        let model = match model {
            Some(m) => m,
            None => default_model(provider_name),
        };
        OpenAiCompatibleProvider {
            provider_name,
            endpoint,
            model,
            api_key: api_key_from_setting(api_key),
        }
    }

    pub fn provider_name(&self) -> (r: &'static str)
        ensures
            r == self.provider_name,
    {
        self.provider_name
    }

    /// The user prompt sent to the service.
    pub fn prompt(&self, request: &AiEditRequest) -> (r: String)
        ensures
            r@ == openai_prompt_text(*request),
    {
        let mut v: Vec<char> = Vec::new();
        append_str(
            &mut v,
            "You are a launchd plist assistant. Return concise actionable bullets only.\nUser request:\n",
        );
        append_str(&mut v, request.user_prompt.as_str());
        append_str(&mut v, "\n\nCurrent plist XML:\n");
        append_str(&mut v, request.xml_snapshot.as_str());
        from_chars(v.as_slice())
    }

    /// The response that a reply gives: a failing status, a body that is not JSON, and a
    /// reply without a first choice's text are refused.
    pub fn reply_to_response(&self, status: u16, body: &str) -> (r: AppResult<AiEditResponse>)
        requires
            !status_ok(status) ==> cuttable_at(trim(body@), 240),
        ensures
            !status_ok(status) ==> (r matches Err(AppError::Validation(m)) && m@
                == request_failure_message(self.provider_name@, status, body@)),
            status_ok(status) ==> match json_document(body@) {
                None => r matches Err(AppError::Json(m)) && m@ == json_document_error(body@),
                Some(v) => match openai_content(v) {
                    Some(c) => r matches Ok(resp) && response_shows(resp, self.provider_name@, c),
                    None => r matches Err(AppError::Validation(m)) && m@ == missing_choice_message(
                        self.provider_name@,
                    ),
                },
            },
    {
        if !(200 <= status && status < 300) {
            return Err(request_failure(self.provider_name, status, body));
        }
        let json = match parse_json(body) {
            Ok(v) => v,
            Err(m) => {
                return Err(AppError::Json(m));
            },
        };
        match openai_text(&json, "message") {
            Some(content) => Ok(response_from_content(self.provider_name, content.as_str())),
            None => {
                let mut m: Vec<char> = Vec::new();
                append_str(&mut m, self.provider_name);
                append_str(&mut m, " response did not contain choices[0].message.content");
                Err(AppError::Validation(from_chars(m.as_slice())))
            },
        }
    }

    /// The streamed response that a streamed reply gives; none where the service failed or
    /// streamed no text, in which case the plain request is made instead.
    pub fn stream_reply_to_response(&self, status: u16, body: &str) -> (r: Option<
        AiStreamResponse,
    >)
        ensures
            !status_ok(status) ==> r is None,
            status_ok(status) ==> {
                let chunks = stream_chunks_of_lines(lines(body@));
                if chunks.len() == 0 {
                    r is None
                } else {
                    r matches Some(s) && str_views(s.chunks@) == chunks && response_shows(
                        s.response,
                        self.provider_name@,
                        join(chunks, Seq::empty()),
                    )
                }
            },
    {
        if !(200 <= status && status < 300) {
            return None;
        }
        let chunks = extract_openai_stream_chunks(body);
        if chunks.len() == 0 {
            return None;
        }
        let content = crate::text::join_strings(&chunks, "");
        proof {
            reveal_strlit("");
            assert(""@ =~= Seq::<char>::empty());
        }
        let response = response_from_content(self.provider_name, content.as_str());
        Some(AiStreamResponse { response, chunks })
    }
}

} // verus!
