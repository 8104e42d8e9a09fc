use crate::text::{append_str, from_chars};
use vstd::prelude::*;

verus! {

/// How serious a finding of the plist analysis is.
#[derive(Debug, Clone, Copy, PartialEq, Eq, Structural)]
pub enum DiagnosticSeverity {
    Error,
    Warning,
    Info,
}

pub open spec fn severity_name(s: DiagnosticSeverity) -> Seq<char> {
    match s {
        DiagnosticSeverity::Error => "error"@,
        DiagnosticSeverity::Warning => "warning"@,
        DiagnosticSeverity::Info => "info"@,
    }
}

impl DiagnosticSeverity {
    pub fn as_str(self) -> (r: &'static str)
        ensures
            r@ == severity_name(self),
    {
        match self {
            DiagnosticSeverity::Error => "error",
            DiagnosticSeverity::Warning => "warning",
            DiagnosticSeverity::Info => "info",
        }
    }
}

/// One finding of the plist analysis.
#[derive(Debug)]
pub struct DiagnosticIssue {
    pub severity: DiagnosticSeverity,
    pub key: String,
    pub message: String,
    pub suggestion: String,
}

/// A finding as plain values: severity, key, message and suggestion.
pub struct IssueView {
    pub severity: DiagnosticSeverity,
    pub key: Seq<char>,
    pub message: Seq<char>,
    pub suggestion: Seq<char>,
}

impl View for DiagnosticIssue {
    type V = IssueView;

    open spec fn view(&self) -> IssueView {
        IssueView {
            severity: self.severity,
            key: self.key@,
            message: self.message@,
            suggestion: self.suggestion@,
        }
    }
}

/// The line that shows a finding.
pub open spec fn issue_line(i: IssueView) -> Seq<char> {
    "["@ + severity_name(i.severity) + "] "@ + i.key + ": "@ + i.message + " (建议: "@
        + i.suggestion + ")"@
}

impl DiagnosticIssue {
    pub fn to_line(&self) -> (r: String)
        ensures
            r@ == issue_line(self@),
    {
        let mut v: Vec<char> = Vec::new();
        append_str(&mut v, "[");
        append_str(&mut v, self.severity.as_str());
        append_str(&mut v, "] ");
        append_str(&mut v, self.key.as_str());
        append_str(&mut v, ": ");
        append_str(&mut v, self.message.as_str());
        append_str(&mut v, " (建议: ");
        append_str(&mut v, self.suggestion.as_str());
        append_str(&mut v, ")");
        from_chars(v.as_slice())
    }
}

} // verus!
