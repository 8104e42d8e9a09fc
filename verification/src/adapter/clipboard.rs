//! Copying text to the system clipboard.
use crate::error::{AppError, AppResult};
use crate::text::{from_chars, to_chars, trim, trim_chars};
use vstd::prelude::*;

verus! {

/// Puts text on the clipboard.
pub trait ClipboardClient {
    fn set_text(&self, text: &str) -> AppResult<()>;
}

/// The error of a failed `pbcopy`: what it wrote to stderr, trimmed, or a plain message
/// where it wrote nothing.
pub fn clipboard_failure(stderr: &str) -> (r: AppError)
    ensures
        r matches AppError::CommandFailed { command, stderr: e } && command@ == "pbcopy"@ && e@
            == (if trim(stderr@).len() == 0 {
            "pbcopy failed"@
        } else {
            trim(stderr@)
        }),
{
    let t = trim_chars(&to_chars(stderr));
    AppError::CommandFailed {
        command: from_chars(to_chars("pbcopy").as_slice()),
        stderr: if t.len() == 0 {
            from_chars(to_chars("pbcopy failed").as_slice())
        } else {
            from_chars(t.as_slice())
        },
    }
}

} // verus!
