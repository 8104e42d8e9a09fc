//! The response model shared by the AI providers, and the parsing of their free text.
use crate::error::{AppError, AppResult};
use crate::text::{
    append_chars, append_str, decimal, decimal_chars, from_chars, lemma_str_views_push,
    slice_chars, lines, lines_chars, lower, lower_chars, str_views,
    strip_prefix, strip_prefix_chars, to_chars, trim, trim_chars, trim_start_matches,
    trim_start_matches_chars, trimmed_nonempty, trimmed_nonempty_chars, views,
};
use vstd::prelude::*;

verus! {

/// What the user asks an assistant, with the plist it is about.
#[derive(Debug, Clone)]
pub struct AiEditRequest {
    pub user_prompt: String,
    pub xml_snapshot: String,
}

/// What an assistant answers: a summary, suggestions, and launchctl actions it proposes.
#[derive(Debug, Clone)]
pub struct AiEditResponse {
    pub provider: String,
    pub summary: String,
    pub suggested_patch_notes: Vec<String>,
    pub suggested_actions: Vec<String>,
}

/// The chunks that show a response piece by piece: the summary unless it is blank, each
/// note, then each action prefixed with `action:`.
pub open spec fn stream_chunks_of(
    summary: Seq<char>,
    notes: Seq<Seq<char>>,
    actions: Seq<Seq<char>>,
) -> Seq<Seq<char>> {
    (if trim(summary).len() > 0 {
        seq![summary]
    } else {
        Seq::<Seq<char>>::empty()
    }) + notes + actions.map_values(|a: Seq<char>| "action:"@ + a)
}

impl AiEditResponse {
    /// The chunks of this response, for a streamed display.
    pub fn stream_chunks(&self) -> (r: Vec<String>)
        ensures
            str_views(r@) == stream_chunks_of(
                self.summary@,
                str_views(self.suggested_patch_notes@),
                str_views(self.suggested_actions@),
            ),
    {
        let mut chunks: Vec<String> = Vec::new();
        let s = to_chars(self.summary.as_str());
        if trim_chars(&s).len() > 0 {
            chunks.push(self.summary.clone());
        }
        let ghost head = str_views(chunks@);
        let mut i: usize = 0;
        while i < self.suggested_patch_notes.len()
            invariant
                i <= self.suggested_patch_notes.len(),
                str_views(chunks@) == head + str_views(self.suggested_patch_notes@).subrange(
                    0,
                    i as int,
                ),
            decreases self.suggested_patch_notes.len() - i,
        {
            let note = from_chars(to_chars(self.suggested_patch_notes[i].as_str()).as_slice());
            let ghost before = chunks@;
            chunks.push(note);
            proof {
                lemma_str_views_push(before, note);
            }
            assert(str_views(chunks@) =~= head + str_views(self.suggested_patch_notes@).subrange(
                0,
                i + 1,
            ));
            i = i + 1;
        }
        assert(str_views(self.suggested_patch_notes@).subrange(
            0,
            self.suggested_patch_notes.len() as int,
        ) =~= str_views(self.suggested_patch_notes@));
        let ghost mid = str_views(chunks@);
        let ghost acts = str_views(self.suggested_actions@).map_values(
            |a: Seq<char>| "action:"@ + a,
        );
        let mut j: usize = 0;
        while j < self.suggested_actions.len()
            invariant
                j <= self.suggested_actions.len(),
                acts == str_views(self.suggested_actions@).map_values(
                    |a: Seq<char>| "action:"@ + a,
                ),
                str_views(chunks@) == mid + acts.subrange(0, j as int),
            decreases self.suggested_actions.len() - j,
        {
            let mut line: Vec<char> = Vec::new();
            append_str(&mut line, "action:");
            append_str(&mut line, self.suggested_actions[j].as_str());
            let item = from_chars(line.as_slice());
            let ghost before = chunks@;
            chunks.push(item);
            proof {
                lemma_str_views_push(before, item);
            }
            assert(str_views(chunks@) =~= mid + acts.subrange(0, j + 1));
            j = j + 1;
        }
        assert(acts.subrange(0, self.suggested_actions.len() as int) =~= acts);
        chunks
    }
}

/// A response together with the chunks that were shown while it arrived.
#[derive(Debug, Clone)]
pub struct AiStreamResponse {
    pub response: AiEditResponse,
    pub chunks: Vec<String>,
}

impl AiStreamResponse {
    /// A response that did not arrive in chunks, shown as its own chunks.
    pub fn from_response(response: AiEditResponse) -> (r: Self)
        ensures
            r.response == response,
            str_views(r.chunks@) == stream_chunks_of(
                response.summary@,
                str_views(response.suggested_patch_notes@),
                str_views(response.suggested_actions@),
            ),
    {
        let chunks = response.stream_chunks();
        AiStreamResponse { response, chunks }
    }
}

/// An assistant that suggests plist edits.
pub trait AiProvider {
    fn provider_name(&self) -> &'static str;

    fn suggest_edit(&self, request: &AiEditRequest) -> AppResult<AiEditResponse>;

    /// The answer to the request, shown as its own chunks.
    fn suggest_edit_with_stream(&self, request: &AiEditRequest) -> (r: AppResult<AiStreamResponse>)
        default_ensures
            r matches Ok(s) ==> str_views(s.chunks@) == stream_chunks_of(
                s.response.summary@,
                str_views(s.response.suggested_patch_notes@),
                str_views(s.response.suggested_actions@),
            ) && call_ensures(Self::suggest_edit, (self, request), Ok::<AiEditResponse, AppError>(s.response)),
            r matches Err(e) ==> call_ensures(Self::suggest_edit, (self, request), Err::<AiEditResponse, AppError>(e)),
    {
        let response = self.suggest_edit(request)?;
        Ok(AiStreamResponse::from_response(response))
    }
}

/// A line without its leading `- ` and `* ` bullet marks.
pub open spec fn unbulleted(line: Seq<char>) -> Seq<char> {
    trim_start_matches(trim_start_matches(line, "- "@), "* "@)
}

/// The unbulleted lines that are not empty, in order.
pub open spec fn bullet_notes(ls: Seq<Seq<char>>) -> Seq<Seq<char>>
    decreases ls.len(),
{
    if ls.len() == 0 {
        Seq::empty()
    } else {
        let rest = bullet_notes(ls.drop_last());
        let n = unbulleted(ls.last());
        if n.len() > 0 {
            rest.push(n)
        } else {
            rest
        }
    }
}

/// The summary and notes of a free-text answer: its first non-blank line is the summary,
/// and every non-blank line is a note, each without its bullet marks.
pub open spec fn summary_and_notes(raw: Seq<char>) -> (Seq<char>, Seq<Seq<char>>) {
    let ls = trimmed_nonempty(lines(raw));
    if ls.len() == 0 {
        ("No summary returned."@, Seq::empty())
    } else {
        (unbulleted(ls[0]), bullet_notes(ls))
    }
}

fn unbulleted_chars(line: &Vec<char>) -> (r: Vec<char>)
    ensures
        r@ == unbulleted(line@),
{
    let dash = to_chars("- ");
    let star = to_chars("* ");
    let a = trim_start_matches_chars(line, &dash);
    trim_start_matches_chars(&a, &star)
}

/// Splits a free-text answer into its summary and its notes.
pub fn summarize_and_extract_notes(raw_text: &str) -> (r: (String, Vec<String>))
    ensures
        (r.0@, str_views(r.1@)) == summary_and_notes(raw_text@),
{
    let raw = to_chars(raw_text);
    let all = lines_chars(&raw);
    let ls = trimmed_nonempty_chars(&all);
    if ls.len() == 0 {
        let empty: Vec<String> = Vec::new();
        assert(str_views(empty@) =~= Seq::<Seq<char>>::empty());
        return (from_chars(to_chars("No summary returned.").as_slice()), empty);
    }
    let summary = from_chars(unbulleted_chars(&ls[0]).as_slice());
    let mut notes: Vec<String> = Vec::new();
    let mut i: usize = 0;
    while i < ls.len()
        invariant
            i <= ls.len(),
            str_views(notes@) == bullet_notes(views(ls@).subrange(0, i as int)),
        decreases ls.len() - i,
    {
        let n = unbulleted_chars(&ls[i]);
        let ghost pre = views(ls@).subrange(0, i as int);
        assert(views(ls@).subrange(0, i + 1).drop_last() =~= pre);
        if n.len() > 0 {
            let ghost old_notes = notes@;
            notes.push(from_chars(n.as_slice()));
            assert(str_views(notes@) =~= str_views(old_notes).push(n@));
        }
        i = i + 1;
    }
    assert(views(ls@).subrange(0, ls.len() as int) =~= views(ls@));
    (summary, notes)
}

/// The action a line proposes: after its bullet marks, `ACTION:`, `Action:` or `action:`
/// and a name, which comes out trimmed and in lower case; none for an empty name.
pub open spec fn action_of_line(line: Seq<char>) -> Option<Seq<char>> {
    let n = trim(unbulleted(trim(line)));
    let rest = if strip_prefix(n, "ACTION:"@) is Some {
        strip_prefix(n, "ACTION:"@)
    } else if strip_prefix(n, "Action:"@) is Some {
        strip_prefix(n, "Action:"@)
    } else {
        strip_prefix(n, "action:"@)
    };
    match rest {
        Some(r) => {
            let a = lower(trim(r));
            if a.len() > 0 {
                Some(a)
            } else {
                None
            }
        },
        None => None,
    }
}

/// The actions that the lines propose, in order.
pub open spec fn actions_of_lines(ls: Seq<Seq<char>>) -> Seq<Seq<char>>
    decreases ls.len(),
{
    if ls.len() == 0 {
        Seq::empty()
    } else {
        let rest = actions_of_lines(ls.drop_last());
        match action_of_line(ls.last()) {
            Some(a) => rest.push(a),
            None => rest,
        }
    }
}

fn action_of_line_chars(line: &Vec<char>) -> (r: Option<Vec<char>>)
    ensures
        r matches Some(a) ==> action_of_line(line@) == Some(a@),
        r is None ==> action_of_line(line@) is None,
{
    let t = trim_chars(line);
    let u = unbulleted_chars(&t);
    let n = trim_chars(&u);
    let upper_tag = to_chars("ACTION:");
    let title_tag = to_chars("Action:");
    let lower_tag = to_chars("action:");
    let rest = match strip_prefix_chars(&n, &upper_tag) {
        Some(r) => Some(r),
        None => match strip_prefix_chars(&n, &title_tag) {
            Some(r) => Some(r),
            None => strip_prefix_chars(&n, &lower_tag),
        },
    };
    match rest {
        Some(r) => {
            let a = lower_chars(&trim_chars(&r));
            if a.len() > 0 {
                Some(a)
            } else {
                None
            }
        },
        None => None,
    }
}

/// The launchctl actions that a free-text answer proposes, one per `ACTION:` line.
pub fn extract_suggested_actions(raw_text: &str) -> (r: Vec<String>)
    ensures
        str_views(r@) == actions_of_lines(lines(raw_text@)),
{
    let raw = to_chars(raw_text);
    let ls = lines_chars(&raw);
    let mut out: Vec<String> = Vec::new();
    let mut i: usize = 0;
    while i < ls.len()
        invariant
            i <= ls.len(),
            views(ls@) == lines(raw_text@),
            str_views(out@) == actions_of_lines(views(ls@).subrange(0, i as int)),
        decreases ls.len() - i,
    {
        let ghost pre = views(ls@).subrange(0, i as int);
        assert(views(ls@).subrange(0, i + 1).drop_last() =~= pre);
        match action_of_line_chars(&ls[i]) {
            Some(a) => {
                let ghost old_out = out@;
                out.push(from_chars(a.as_slice()));
                assert(str_views(out@) =~= str_views(old_out).push(a@));
            },
            None => {},
        }
        i = i + 1;
    }
    assert(views(ls@).subrange(0, ls.len() as int) =~= views(ls@));
    out
}

/// The number of bytes a character takes in UTF-8.
pub open spec fn utf8_width(c: char) -> nat {
    let u = c as u32;
    if u < 0x80 {
        1
    } else if u < 0x800 {
        2
    } else if u < 0x10000 {
        3
    } else {
        4
    }
}

/// The number of bytes a text takes in UTF-8.
pub open spec fn utf8_len(s: Seq<char>) -> nat
    decreases s.len(),
{
    if s.len() == 0 {
        0
    } else {
        utf8_len(s.drop_last()) + utf8_width(s.last())
    }
}

/// Whether a text can be cut after `n` bytes: it is no longer, or a character ends there.
pub open spec fn cuttable_at(s: Seq<char>, n: nat) -> bool {
    utf8_len(s) <= n || exists|k: int| 0 <= k <= s.len() && utf8_len(#[trigger] s.take(k)) == n
}

/// A reply body as an error message shows it: trimmed, and cut after 240 bytes with `...`.
pub open spec fn error_excerpt(body: Seq<char>) -> Seq<char> {
    let t = trim(body);
    if utf8_len(t) <= 240 {
        t
    } else {
        t.take(choose|k: int| 0 <= k <= t.len() && utf8_len(#[trigger] t.take(k)) == 240)
            + "..."@
    }
}

proof fn lemma_utf8_len_strict(s: Seq<char>, a: int, b: int)
    requires
        0 <= a < b <= s.len(),
    ensures
        utf8_len(s.take(a)) < utf8_len(s.take(b)),
    decreases b,
{
    assert(s.take(b).drop_last() =~= s.take(b - 1));
    if a < b - 1 {
        lemma_utf8_len_strict(s, a, b - 1);
    }
}

fn utf8_width_exec(c: char) -> (r: usize)
    ensures
        r == utf8_width(c),
{
    let u = c as u32;
    if u < 0x80 {
        1
    } else if u < 0x800 {
        2
    } else if u < 0x10000 {
        3
    } else {
        4
    }
}

/// The body of a failed reply as an error message shows it.
pub fn truncate_for_error(body: &str) -> (r: String)
    requires
        cuttable_at(trim(body@), 240),
    ensures
        r@ == error_excerpt(body@),
{
    let t = trim_chars(&to_chars(body));
    let ghost ts = t@;
    let mut bytes: usize = 0;
    let mut i: usize = 0;
    while i < t.len() && bytes < 240
        invariant
            i <= t.len(),
            ts == t@,
            bytes == utf8_len(t@.take(i as int)),
            bytes <= 240,
            utf8_len(t@) > 240 ==> exists|k: int|
                i <= k <= t@.len() && utf8_len(#[trigger] t@.take(k)) == 240,
            cuttable_at(t@, 240),
        decreases t.len() - i,
    {
        assert(t@.take(i + 1).drop_last() =~= t@.take(i as int));
        proof {
            if utf8_len(t@) > 240 {
                let k = choose|k: int| i <= k <= t@.len() && utf8_len(#[trigger] t@.take(k)) == 240;
                if k == i {
                    assert(false);
                }
                if i + 1 < k {
                    lemma_utf8_len_strict(t@, i + 1, k);
                }
            } else {
                assert(t@.take(t@.len() as int) =~= t@);
                if i + 1 < t@.len() {
                    lemma_utf8_len_strict(t@, i + 1, t@.len() as int);
                }
            }
        }
        bytes = bytes + utf8_width_exec(t[i]);
        i = i + 1;
    }
    if i == t.len() {
        assert(t@.take(i as int) =~= t@);
        return from_chars(t.as_slice());
    }
    proof {
        lemma_utf8_len_strict(t@, i as int, t@.len() as int);
        assert(t@.take(t@.len() as int) =~= t@);
        let k = choose|k: int| 0 <= k <= t@.len() && utf8_len(#[trigger] t@.take(k)) == 240;
        if k < i {
            lemma_utf8_len_strict(t@, k, i as int);
        } else if k > i {
            lemma_utf8_len_strict(t@, i as int, k);
        }
        if i < t@.len() {
            lemma_utf8_len_strict(t@, i as int, t@.len() as int);
            assert(t@.take(t@.len() as int) =~= t@);
        }
    }
    let mut out = slice_chars(&t, 0, i);
    assert(out@ =~= t@.take(i as int));
    append_str(&mut out, "...");
    from_chars(out.as_slice())
}

/// The response that an answer's text gives: its summary, notes and actions.
pub open spec fn response_shows(r: AiEditResponse, provider: Seq<char>, content: Seq<char>) -> bool {
    &&& r.provider@ == provider
    &&& (r.summary@, str_views(r.suggested_patch_notes@)) == summary_and_notes(content)
    &&& str_views(r.suggested_actions@) == actions_of_lines(lines(content))
}

/// The response made of an answer's text.
pub fn response_from_content(provider: &str, content: &str) -> (r: AiEditResponse)
    ensures
        response_shows(r, provider@, content@),
{
    let (summary, suggested_patch_notes) = summarize_and_extract_notes(content);
    let suggested_actions = extract_suggested_actions(content);
    AiEditResponse {
        provider: from_chars(to_chars(provider).as_slice()),
        summary,
        suggested_patch_notes,
        suggested_actions,
    }
}

/// Whether an HTTP status is a success.
pub open spec fn status_ok(status: u16) -> bool {
    200 <= status < 300
}

/// The refusal of a reply with a failing status.
pub open spec fn request_failure_message(who: Seq<char>, status: u16, body: Seq<char>) -> Seq<
    char,
> {
    who + " request failed with status "@ + decimal(status as nat) + ": "@ + error_excerpt(body)
}

/// The refusal of a reply with a failing status.
pub fn request_failure(who: &str, status: u16, body: &str) -> (r: AppError)
    requires
        cuttable_at(trim(body@), 240),
    ensures
        r matches AppError::Validation(m) && m@ == request_failure_message(who@, status, body@),
{
    let mut v: Vec<char> = Vec::new();
    append_str(&mut v, who);
    append_str(&mut v, " request failed with status ");
    append_chars(&mut v, &decimal_chars(status as u64));
    append_str(&mut v, ": ");
    append_str(&mut v, truncate_for_error(body).as_str());
    AppError::Validation(from_chars(v.as_slice()))
}

} // verus!
