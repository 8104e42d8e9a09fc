//! A local sidecar program that answers plist edit requests.
use crate::adapter::ai::provider::{AiEditResponse};
use crate::error::{AppError, AppResult};
use crate::text::{append_str, from_chars, str_views, to_chars, trim, trim_chars};
use vstd::prelude::*;

verus! {

/// A sidecar program, run with the request's prompt and fed the plist on its input.
#[derive(Debug, Clone)]
pub struct ClaudeAgentSidecarProvider {
    executable: String,
}

impl ClaudeAgentSidecarProvider {
    pub fn with_executable(executable: String) -> (r: Self)
        ensures
            r.executable()@ == executable@,
    {
        ClaudeAgentSidecarProvider { executable }
    }

    pub closed spec fn executable(&self) -> String {
        self.executable
    }

    pub fn executable_path(&self) -> (r: &str)
        ensures
            r@ == self.executable()@,
    {
        self.executable.as_str()
    }

    pub fn provider_name(&self) -> (r: &'static str)
        ensures
            r@ == "agent-sidecar"@,
    {
        "agent-sidecar"
    }

    /// The response that the sidecar's run gives: a failed run is refused with what it
    /// wrote to stderr; otherwise its trimmed output is the summary.
    pub fn output_to_response(&self, success: bool, stdout: &str, stderr: &str) -> (r: AppResult<
        AiEditResponse,
    >)
        ensures
            !success ==> (r matches Err(AppError::CommandFailed { command, stderr: e }) && command@
                == self.executable()@ + " --mode launchd-edit"@ && e@ == trim(stderr@)),
            success ==> (r matches Ok(resp) && resp.provider@ == "agent-sidecar"@
                && resp.summary@ == (if trim(stdout@).len() == 0 {
                "Sidecar returned empty response."@
            } else {
                trim(stdout@)
            }) && resp.suggested_patch_notes@.len() == 0 && resp.suggested_actions@.len() == 0),
    {
        if !success {
            let mut c: Vec<char> = Vec::new();
            append_str(&mut c, self.executable.as_str());
            append_str(&mut c, " --mode launchd-edit");
            return Err(
                AppError::CommandFailed {
                    command: from_chars(c.as_slice()),
                    stderr: from_chars(trim_chars(&to_chars(stderr)).as_slice()),
                },
            );
        }
        let out = trim_chars(&to_chars(stdout));
        let summary = if out.len() == 0 {
            from_chars(to_chars("Sidecar returned empty response.").as_slice())
        } else {
            from_chars(out.as_slice())
        };
        Ok(
            AiEditResponse {
                provider: from_chars(to_chars(self.provider_name()).as_slice()),
                summary,
                suggested_patch_notes: Vec::new(),
                suggested_actions: Vec::new(),
            },
        )
    }
}

} // verus!
