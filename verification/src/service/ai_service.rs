//! Asking an assistant for plist edits, and the assistant that works without a network.
use crate::adapter::ai::provider::{
    stream_chunks_of, AiEditRequest, AiEditResponse, AiProvider, AiStreamResponse,
};
use crate::error::AppResult;
use crate::text::{append_str, contains, contains_str, from_chars, lower, lower_chars, str_views, to_chars};
use std::sync::Arc;
use vstd::prelude::*;

verus! {

/// Hands the user's request to an assistant.
pub struct AiService<P: AiProvider> {
    provider: Arc<P>,
}

/// A request that asks about `prompt`, with `xml` as the plist.
pub open spec fn asks(request: AiEditRequest, prompt: Seq<char>, xml: Seq<char>) -> bool {
    request.user_prompt@ == prompt && request.xml_snapshot@ == xml
}

impl<P: AiProvider> AiService<P> {
    pub fn with_provider(provider: Arc<P>) -> (r: Self)
        ensures
            r.provider() == provider,
    {
        AiService { provider }
    }

    pub closed spec fn provider(&self) -> Arc<P> {
        self.provider
    }

    /// The name of the assistant in use.
    pub fn active_provider_name(&self) -> (r: &'static str)
        ensures
            call_ensures(P::provider_name, (&*self.provider(),), r),
    {
        self.provider.provider_name()
    }

    /// Asks the assistant about the prompt, with the plist's XML as context.
    pub fn suggest_edit(&self, prompt: &str, xml_snapshot: &str) -> (r: AppResult<AiEditResponse>)
        ensures
            exists|request: AiEditRequest|
                asks(request, prompt@, xml_snapshot@) && call_ensures(
                    P::suggest_edit,
                    (&*self.provider(), &request),
                    r,
                ),
    {
        let request = AiEditRequest {
            user_prompt: from_chars(to_chars(prompt).as_slice()),
            xml_snapshot: from_chars(to_chars(xml_snapshot).as_slice()),
        };
        let r = self.provider.suggest_edit(&request);
        assert(asks(request, prompt@, xml_snapshot@));
        r
    }

    /// Asks the assistant and collects its answer as it streams in.
    pub fn suggest_edit_with_stream(&self, prompt: &str, xml_snapshot: &str) -> (r: AppResult<
        AiStreamResponse,
    >)
        ensures
            exists|request: AiEditRequest|
                asks(request, prompt@, xml_snapshot@) && call_ensures(
                    P::suggest_edit_with_stream,
                    (&*self.provider(), &request),
                    r,
                ),
    {
        let request = AiEditRequest {
            user_prompt: from_chars(to_chars(prompt).as_slice()),
            xml_snapshot: from_chars(to_chars(xml_snapshot).as_slice()),
        };
        let r = self.provider.suggest_edit_with_stream(&request);
        assert(asks(request, prompt@, xml_snapshot@));
        r
    }
}

/// The suggestion for each topic the prompt mentions, in English or Chinese keywords.
pub open spec fn heuristic_suggestions(prompt: Seq<char>) -> Seq<Seq<char>> {
    let p = lower(prompt);
    let s = (if contains(p, "run at load"@) || contains(p, "开机"@) {
        seq!["建议启用 RunAtLoad=true。"@]
    } else {
        Seq::empty()
    }) + (if contains(p, "keep alive"@) || contains(p, "常驻"@) {
        seq!["建议启用 KeepAlive=true 并检查退出循环风险。"@]
    } else {
        Seq::empty()
    }) + (if contains(p, "interval"@) || contains(p, "定时"@) {
        seq!["建议设置 StartInterval（秒）并禁用冲突的 KeepAlive。"@]
    } else {
        Seq::empty()
    }) + (if contains(p, "log"@) || contains(p, "日志"@) {
        seq!["建议配置 StandardOutPath / StandardErrorPath 便于后续日志排查。"@]
    } else {
        Seq::empty()
    }) + (if contains(p, "env"@) || contains(p, "环境变量"@) {
        seq!["建议在 EnvironmentVariables 中补充 PATH 等关键变量。"@]
    } else {
        Seq::empty()
    });
    if s.len() == 0 {
        seq!["可先描述目标：何时运行、是否常驻、依赖哪些环境变量。"@]
    } else {
        s
    }
}

/// An assistant that needs no network: it answers from keywords in the prompt.
#[derive(Debug, Default)]
pub struct HeuristicAiProvider;

fn push_str(v: &mut Vec<String>, s: &str)
    ensures
        str_views(final(v)@) == str_views(old(v)@).push(s@),
{
    let ghost before = v@;
    let x = from_chars(to_chars(s).as_slice());
    v.push(x);
    proof {
        crate::text::lemma_str_views_push(before, x);
    }
}

impl AiProvider for HeuristicAiProvider {
    fn provider_name(&self) -> (r: &'static str)
        ensures
            r@ == "heuristic-local"@,
    {
        "heuristic-local"
    }

    fn suggest_edit(&self, request: &AiEditRequest) -> (r: AppResult<AiEditResponse>)
        ensures
            r matches Ok(resp) && resp.provider@ == "heuristic-local"@ && resp.summary@
                == "基于当前配置与提示词的建议（heuristic-local）"@ && str_views(
                resp.suggested_patch_notes@,
            ) == heuristic_suggestions(request.user_prompt@) && resp.suggested_actions@.len()
                == 0,
    {
        let p = lower_chars(&to_chars(request.user_prompt.as_str()));
        let mut s: Vec<String> = Vec::new();
        let ghost e = Seq::<Seq<char>>::empty();
        assert(str_views(s@) =~= e);
        if contains_str(&p, "run at load") || contains_str(&p, "开机") {
            push_str(&mut s, "建议启用 RunAtLoad=true。");
        }
        if contains_str(&p, "keep alive") || contains_str(&p, "常驻") {
            push_str(&mut s, "建议启用 KeepAlive=true 并检查退出循环风险。");
        }
        if contains_str(&p, "interval") || contains_str(&p, "定时") {
            push_str(&mut s, "建议设置 StartInterval（秒）并禁用冲突的 KeepAlive。");
        }
        if contains_str(&p, "log") || contains_str(&p, "日志") {
            push_str(&mut s, "建议配置 StandardOutPath / StandardErrorPath 便于后续日志排查。");
        }
        if contains_str(&p, "env") || contains_str(&p, "环境变量") {
            push_str(&mut s, "建议在 EnvironmentVariables 中补充 PATH 等关键变量。");
        }
        if s.len() == 0 {
            push_str(&mut s, "可先描述目标：何时运行、是否常驻、依赖哪些环境变量。");
        }
        let mut summary: Vec<char> = Vec::new();
        append_str(&mut summary, "基于当前配置与提示词的建议（");
        append_str(&mut summary, self.provider_name());
        append_str(&mut summary, "）");
        proof {
            reveal_strlit("基于当前配置与提示词的建议（");
            reveal_strlit("heuristic-local");
            reveal_strlit("）");
            reveal_strlit("基于当前配置与提示词的建议（heuristic-local）");
        }
        assert(summary@ =~= "基于当前配置与提示词的建议（heuristic-local）"@);
        Ok(AiEditResponse {
            provider: from_chars(to_chars(self.provider_name()).as_slice()),
            summary: from_chars(summary.as_slice()),
            suggested_patch_notes: s,
            suggested_actions: Vec::new(),
        })
    }
}

} // verus!
