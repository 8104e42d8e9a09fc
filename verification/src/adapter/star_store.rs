use crate::error::{AppError, AppResult};
use crate::path::{join, path_join};
use crate::text::{from_chars, str_views, to_chars, trim, trim_chars};
use vstd::prelude::*;

verus! {

/// Keeps the labels of starred jobs. Implementations persist them or stand in for it.
pub trait StarStore {
    fn load_stars(&self) -> AppResult<Vec<String>>;

    fn save_stars(&self, stars: &Vec<String>) -> AppResult<()>;
}

/// The strings of a JSON array of strings, as `serde_json::from_str::<Vec<String>>`
/// reads it; `None` where the text is not such an array.
pub uninterp spec fn json_string_array(text: Seq<char>) -> Option<Seq<Seq<char>>>;

/// The message `serde_json` gives for text that is not a JSON array of strings.
pub uninterp spec fn json_string_array_error(text: Seq<char>) -> Seq<char>;

/// The pretty-printed JSON array of the given strings, as
/// `serde_json::to_string_pretty` writes it.
pub uninterp spec fn json_pretty_string_array(items: Seq<Seq<char>>) -> Seq<char>;

/// Calls `serde_json::from_str::<Vec<String>>`; the contract claims that the outcome is a
/// function of the text alone.
#[verifier::external_body]
fn parse_json_strings(text: &str) -> (r: Result<Vec<String>, String>)
    ensures
        r matches Ok(v) ==> json_string_array(text@) == Some(str_views(v@)),
        r matches Err(m) ==> json_string_array(text@) is None && m@ == json_string_array_error(
            text@,
        ),
{
    serde_json::from_str::<Vec<String>>(text).map_err(|e| e.to_string())
}

/// Calls `serde_json::to_string_pretty` on a vector of strings; the contract claims that
/// the text is a function of the strings alone, that it opens with the array's `[`, and
/// that `serde_json::from_str` reads it back as the same strings. Writing strings cannot
/// fail.
#[verifier::external_body]
fn write_json_strings(items: &Vec<String>) -> (r: String)
    ensures
        r@ == json_pretty_string_array(str_views(items@)),
        r@.len() > 0 && r@[0] == '[',
        json_string_array(r@) == Some(str_views(items@)),
{
    serde_json::to_string_pretty(items).unwrap_or_default()
}

/// The stars that a stored payload holds: none for blank text, else the strings of a
/// JSON array of strings, else a JSON error.
pub open spec fn stars_of_payload(text: Seq<char>) -> Result<Seq<Seq<char>>, Seq<char>> {
    if trim(text).len() == 0 {
        Ok(Seq::empty())
    } else {
        match json_string_array(text) {
            Some(v) => Ok(v),
            None => Err("JSON error: "@ + json_string_array_error(text)),
        }
    }
}

/// A text that opens with a non-blank character keeps it when trimmed.
proof fn lemma_trim_keeps_leading(s: Seq<char>)
    requires
        s.len() > 0,
        !crate::text::is_ws(s[0]),
    ensures
        trim(s).len() > 0,
{
    assert(crate::text::trim_start(s) == s);
    lemma_trim_end_keeps_leading(s);
}

proof fn lemma_trim_end_keeps_leading(s: Seq<char>)
    requires
        s.len() > 0,
        !crate::text::is_ws(s[0]),
    ensures
        crate::text::trim_end(s).len() > 0,
    decreases s.len(),
{
    if s.len() > 1 && crate::text::is_ws(s.last()) {
        lemma_trim_end_keeps_leading(s.drop_last());
    }
}

/// Stores the starred labels as a JSON array in a file at `path`.
#[derive(Debug)]
pub struct JsonStarStore {
    path: String,
}

impl JsonStarStore {
    pub fn with_path(path: String) -> (r: Self)
        ensures
            r.path_view() == path@,
    {
        JsonStarStore { path }
    }

    /// The store under the home directory where it is known, else in the working
    /// directory.
    pub fn for_home(home: Option<String>) -> (r: Self)
        ensures
            r.path_view() == match home {
                Some(h) => path_join(h@, ".config/launchpad/stars.json"@),
                None => ".launchpad-stars.json"@,
            },
    {
        let path = match &home {
            Some(h) => join(h.as_str(), ".config/launchpad/stars.json"),
            None => from_chars(to_chars(".launchpad-stars.json").as_slice()),
        };
        JsonStarStore { path }
    }

    pub closed spec fn path_view(&self) -> Seq<char> {
        self.path@
    }

    pub fn path(&self) -> (r: &str)
        ensures
            r@ == self.path_view(),
    {
        self.path.as_str()
    }

    /// The labels a stored payload holds.
    pub fn decode_payload(text: &str) -> (r: AppResult<Vec<String>>)
        ensures
            r matches Ok(v) ==> stars_of_payload(text@) == Ok::<Seq<Seq<char>>, Seq<char>>(
                str_views(v@),
            ),
            r matches Err(e) ==> (e matches AppError::Json(m) && stars_of_payload(text@) == Err::<
                Seq<Seq<char>>,
                Seq<char>,
            >(crate::error::error_message(e))),
    {
        let t = trim_chars(&to_chars(text));
        if t.len() == 0 {
            let v: Vec<String> = Vec::new();
            assert(str_views(v@) =~= Seq::<Seq<char>>::empty());
            return Ok(v);
        }
        match parse_json_strings(text) {
            Ok(v) => Ok(v),
            Err(m) => Err(AppError::Json(m)),
        }
    }

    /// The payload that stores the given labels; it reads back as the same labels.
    pub fn encode_payload(stars: &Vec<String>) -> (r: String)
        ensures
            r@ == json_pretty_string_array(str_views(stars@)),
            stars_of_payload(r@) == Ok::<Seq<Seq<char>>, Seq<char>>(str_views(stars@)),
    {
        let r = write_json_strings(stars);
        proof {
            lemma_trim_keeps_leading(r@);
        }
        r
    }
}

} // verus!
