//! The error type of the library.
use crate::text::{append_str, from_chars, to_chars};
use vstd::prelude::*;

verus! {

/// What can go wrong in the app's flows.
#[derive(Debug)]
pub enum AppError {
    /// A filesystem or process error, with its message.
    Io(String),
    /// A plist that could not be read or written, with the parser's message.
    Plist(String),
    /// A JSON payload that could not be read or written, with the parser's message.
    Json(String),
    /// A command that exited unsuccessfully, with what it wrote to stderr.
    CommandFailed { command: String, stderr: String },
    /// A request that the app refuses, with the reason.
    Validation(String),
}

pub type AppResult<T> = Result<T, AppError>;

/// The message that describes an error.
pub open spec fn error_message(e: AppError) -> Seq<char> {
    match e {
        AppError::Io(m) => "I/O error: "@ + m@,
        AppError::Plist(m) => "plist parse error: "@ + m@,
        AppError::Json(m) => "JSON error: "@ + m@,
        AppError::CommandFailed { command, stderr } => "command `"@ + command@ + "` failed: "@
            + stderr@,
        AppError::Validation(m) => m@,
    }
}

/// A refusal with the given reason.
pub fn validation(reason: &str) -> (r: AppError)
    ensures
        r matches AppError::Validation(m) && m@ == reason@,
{
    AppError::Validation(from_chars(to_chars(reason).as_slice()))
}

impl AppError {
    pub fn message(&self) -> (r: String)
        ensures
            r@ == error_message(*self),
    {
        let mut v: Vec<char> = Vec::new();
        match self {
            AppError::Io(m) => {
                append_str(&mut v, "I/O error: ");
                append_str(&mut v, m.as_str());
            },
            AppError::Plist(m) => {
                append_str(&mut v, "plist parse error: ");
                append_str(&mut v, m.as_str());
            },
            AppError::Json(m) => {
                append_str(&mut v, "JSON error: ");
                append_str(&mut v, m.as_str());
            },
            AppError::CommandFailed { command, stderr } => {
                append_str(&mut v, "command `");
                append_str(&mut v, command.as_str());
                append_str(&mut v, "` failed: ");
                append_str(&mut v, stderr.as_str());
            },
            AppError::Validation(m) => {
                append_str(&mut v, m.as_str());
            },
        }
        from_chars(v.as_slice())
    }
}

} // verus!
