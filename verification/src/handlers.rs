//! The decisions behind `/v1/models` and `/v1/chat/completions`: the model
//! list, request validation and dispatch, and the non-streamed answer that
//! gathers every session event into one response.

use vstd::prelude::*;
use crate::config::Config;
use crate::error::{is_no_response_id, no_response_id, AppError};
use crate::prompt::{build_prompt, prompt_of};
use crate::session::{
    build_session_config, is_response_id, json_text_of, make_id, now_ts, stage_failure_message,
    opt_text, stage_label, tool_arguments_text, SessionEvent, SessionSpec, SessionStage,
};
use crate::streaming::{
    finish_text, is_session_for, is_stream_plan, stream_plan, FinishReason, StreamPlan,
};
use crate::text::{trim, trimmed};
use crate::types::{
    ChatCompletionRequest, ChatCompletionResponse, ChatMessage, Choice, FunctionCall,
    MessageContent, ModelInfo, ModelList, ModelObject, ToolCall, Usage,
};

verus! {

/// Whether `o` is the model-list entry for the reported model `m`, stamped
/// `created`: its id and details are those of `m`, and it is owned by
/// `github-copilot`.
pub open spec fn is_model_entry(o: ModelObject, m: ModelInfo, created: i64) -> bool {
    &&& o.id == m.id
    &&& o.object@ == "model"@
    &&& o.created == created
    &&& o.owned_by@ == "github-copilot"@
    &&& o.display_name == m.display_name
    &&& o.capabilities == m.capabilities
    &&& o.billing_multiplier == m.billing_multiplier
    &&& o.policy_state == m.policy_state
    &&& o.supported_reasoning_efforts == m.supported_reasoning_efforts
    &&& o.default_reasoning_effort == m.default_reasoning_effort
}

/// The answer to `GET /v1/models`: one entry per model that the Copilot
/// account reports, in order, with its details, all stamped with the same
/// time.
pub fn list_models(models: Vec<ModelInfo>) -> (list: ModelList)
    ensures
        list.object@ == "list"@,
        list.data@.len() == models@.len(),
        forall|i: int|
            0 <= i < models@.len() ==> is_model_entry(
                #[trigger] list.data@[i],
                models@[i],
                list.data@[0].created,
            ),
{
    let created = now_ts();
    let mut rest = models;
    let ghost all = rest@;
    let mut data: Vec<ModelObject> = Vec::new();
    while rest.len() > 0
        invariant
            data@.len() + rest@.len() == all.len(),
            rest@ == all.skip(data@.len() as int),
            forall|i: int| 0 <= i < data@.len() ==> is_model_entry(#[trigger] data@[i], all[i], created),
        decreases rest@.len(),
    {
        let ghost k: int = data@.len() as int;
        let m = rest.remove(0);
        assert(m == all[k]);
        assert(rest@ =~= all.skip(k + 1));
        data.push(
            ModelObject {
                id: m.id,
                object: "model",
                created,
                owned_by: String::from_str("github-copilot"),
                display_name: m.display_name,
                capabilities: m.capabilities,
                billing_multiplier: m.billing_multiplier,
                policy_state: m.policy_state,
                supported_reasoning_efforts: m.supported_reasoning_efforts,
                default_reasoning_effort: m.default_reasoning_effort,
            },
        );
    }
    ModelList { object: "list", data }
}

/// The model a request is answered with: its own, or the configured default
/// when it names none (blank).
pub open spec fn effective_model(req: ChatCompletionRequest, config: Config) -> Seq<char> {
    if trimmed(req.model@).len() == 0 {
        config.default_model@
    } else {
        req.model@
    }
}

/// The state of a non-streamed answer between session events.
pub struct BlockingChat {
    pub id: String,
    pub model: String,
    pub created: i64,
    /// The answer gathered so far.
    pub content: String,
    /// The tool calls made so far, in order.
    pub tool_calls: Vec<ToolCall>,
    pub usage: Usage,
    pub finish_reason: FinishReason,
}

/// What to do after a session event of a non-streamed answer.
pub enum BlockingStep {
    /// Wait for the next event.
    Continue,
    /// The answer is complete.
    Finish,
    /// The request fails with this error.
    Fail(AppError),
}

/// The id, name and JSON arguments of a tool call.
pub open spec fn call_view(t: ToolCall) -> (Seq<char>, Seq<char>, Seq<char>) {
    (t.id@, t.function.name@, t.function.arguments@)
}

/// What a non-streamed answer has gathered: its text, its tool calls, its
/// token counts and its finish reason.
pub struct BlockingView {
    pub content: Seq<char>,
    pub calls: Seq<(Seq<char>, Seq<char>, Seq<char>)>,
    pub prompt_tokens: u32,
    pub completion_tokens: u32,
    pub finish_reason: FinishReason,
}

/// What `c` has gathered.
pub open spec fn blocking_view(c: BlockingChat) -> BlockingView {
    BlockingView {
        content: c.content@,
        calls: c.tool_calls@.map_values(|t: ToolCall| call_view(t)),
        prompt_tokens: c.usage.prompt_tokens,
        completion_tokens: c.usage.completion_tokens,
        finish_reason: c.finish_reason,
    }
}

/// What a non-streamed answer has gathered after `event`: deltas are
/// appended, a whole message is taken only when nothing was gathered, a tool
/// call is recorded and makes the finish reason `tool_calls`, usage is added
/// up; other events change nothing.
pub open spec fn blocking_step(v: BlockingView, event: SessionEvent) -> BlockingView {
    match event {
        SessionEvent::MessageDelta(t) => BlockingView { content: v.content + t@, ..v },
        SessionEvent::Message(t) => BlockingView {
            content: if v.content.len() == 0 {
                t@
            } else {
                v.content
            },
            ..v
        },
        SessionEvent::ToolStart { tool_call_id, tool_name, arguments } => BlockingView {
            calls: v.calls.push((tool_call_id@, tool_name@, json_text_of(arguments))),
            finish_reason: FinishReason::ToolCalls,
            ..v
        },
        SessionEvent::Usage { input_tokens, output_tokens } => BlockingView {
            prompt_tokens: (v.prompt_tokens + input_tokens) as u32,
            completion_tokens: (v.completion_tokens + output_tokens) as u32,
            ..v
        },
        SessionEvent::Idle | SessionEvent::Closed | SessionEvent::Error(_) | SessionEvent::Other => v,
    }
}

impl BlockingChat {
    /// The finish reason is `tool_calls` exactly when a tool call was made.
    pub open spec fn wf(&self) -> bool {
        self.finish_reason == FinishReason::ToolCalls <==> self.tool_calls@.len() > 0
    }

    /// A new answer for the response `id` of `model`, created at `created`.
    pub fn new(id: String, model: String, created: i64) -> (c: BlockingChat)
        ensures
            c.wf(),
            c.id@ == id@,
            c.model@ == model@,
            c.created == created,
            c.content@.len() == 0,
            c.tool_calls@.len() == 0,
            c.usage == Usage::zero_spec(),
            c.finish_reason == FinishReason::Stop,
    {
        BlockingChat {
            id,
            model,
            created,
            content: String::new(),
            tool_calls: Vec::new(),
            usage: Usage::zero(),
            finish_reason: FinishReason::Stop,
        }
    }

    /// Handles one session event.
    ///
    /// Deltas are appended to the answer; a whole message is taken only when
    /// no delta came; a tool call is recorded and makes the finish reason
    /// `tool_calls`; usage is added up; `Idle` or a closed channel completes
    /// the answer; a session error fails the request with its message.
    pub fn on_event(&mut self, event: SessionEvent) -> (step: BlockingStep)
        requires
            old(self).wf(),
            event matches SessionEvent::Usage { input_tokens, output_tokens } ==> {
                &&& old(self).usage.prompt_tokens + input_tokens <= u32::MAX
                &&& old(self).usage.completion_tokens + output_tokens <= u32::MAX
            },
        ensures
            final(self).wf(),
            final(self).id@ == old(self).id@,
            final(self).model@ == old(self).model@,
            final(self).created == old(self).created,
            blocking_view(*final(self)) == blocking_step(blocking_view(*old(self)), event),
            match event {
                SessionEvent::MessageDelta(text) => {
                    &&& step is Continue
                    &&& final(self).content@ == old(self).content@ + text@
                    &&& final(self).tool_calls == old(self).tool_calls
                    &&& final(self).usage == old(self).usage
                    &&& final(self).finish_reason == old(self).finish_reason
                },
                SessionEvent::Message(text) => {
                    &&& step is Continue
                    &&& final(self).content@ == if old(self).content@.len() == 0 {
                        text@
                    } else {
                        old(self).content@
                    }
                    &&& final(self).tool_calls == old(self).tool_calls
                    &&& final(self).usage == old(self).usage
                    &&& final(self).finish_reason == old(self).finish_reason
                },
                SessionEvent::ToolStart { tool_call_id, tool_name, arguments } => {
                    let calls = final(self).tool_calls@;
                    &&& step is Continue
                    &&& calls.len() == old(self).tool_calls@.len() + 1
                    &&& calls.drop_last() == old(self).tool_calls@
                    &&& calls.last().id@ == tool_call_id@
                    &&& calls.last().call_type@ == "function"@
                    &&& calls.last().function.name@ == tool_name@
                    &&& calls.last().function.arguments@ == json_text_of(arguments)
                    &&& final(self).finish_reason == FinishReason::ToolCalls
                    &&& final(self).content@ == old(self).content@
                    &&& final(self).usage == old(self).usage
                },
                SessionEvent::Usage { input_tokens, output_tokens } => {
                    &&& step is Continue
                    &&& final(self).usage.prompt_tokens == old(self).usage.prompt_tokens
                        + input_tokens
                    &&& final(self).usage.completion_tokens == old(self).usage.completion_tokens
                        + output_tokens
                    &&& final(self).content@ == old(self).content@
                    &&& final(self).tool_calls == old(self).tool_calls
                    &&& final(self).finish_reason == old(self).finish_reason
                },
                SessionEvent::Idle | SessionEvent::Closed => {
                    &&& step is Finish
                    &&& *final(self) == *old(self)
                },
                SessionEvent::Error(message) => {
                    &&& step matches BlockingStep::Fail(e) && e matches AppError::Upstream(m)
                        && m@ == message@
                    &&& *final(self) == *old(self)
                },
                SessionEvent::Other => {
                    &&& step is Continue
                    &&& *final(self) == *old(self)
                },
            },
    {
        match event {
            SessionEvent::MessageDelta(text) => {
                self.content.append(text.as_str());
                BlockingStep::Continue
            },
            SessionEvent::Message(text) => {
                if self.content.as_str().is_empty() {
                    self.content = text;
                }
                BlockingStep::Continue
            },
            SessionEvent::ToolStart { tool_call_id, tool_name, arguments } => {
                self.finish_reason = FinishReason::ToolCalls;
                let args = tool_arguments_text(&arguments);
                self.tool_calls.push(
                    ToolCall {
                        id: tool_call_id,
                        call_type: String::from_str("function"),
                        function: FunctionCall { name: tool_name, arguments: args },
                    },
                );
                assert(self.tool_calls@.drop_last() =~= old(self).tool_calls@);
                assert(self.tool_calls@.map_values(|t: ToolCall| call_view(t)) =~= old(
                    self,
                ).tool_calls@.map_values(|t: ToolCall| call_view(t)).push(
                    call_view(self.tool_calls@.last()),
                ));
                BlockingStep::Continue
            },
            SessionEvent::Usage { input_tokens, output_tokens } => {
                self.usage.prompt_tokens = self.usage.prompt_tokens + input_tokens;
                self.usage.completion_tokens = self.usage.completion_tokens + output_tokens;
                BlockingStep::Continue
            },
            SessionEvent::Idle | SessionEvent::Closed => BlockingStep::Finish,
            SessionEvent::Error(message) => BlockingStep::Fail(AppError::Upstream(message)),
            SessionEvent::Other => BlockingStep::Continue,
        }
    }

    /// The complete response: one assistant message (no content when the
    /// answer is empty, no tool calls when none were made), the finish
    /// reason, and the usage with its total.
    pub fn finish(self) -> (r: ChatCompletionResponse)
        requires
            self.usage.prompt_tokens + self.usage.completion_tokens <= u32::MAX,
        ensures
            r.id@ == self.id@,
            r.object@ == "chat.completion"@,
            r.created == self.created,
            r.model@ == self.model@,
            r.choices@.len() == 1,
            r.choices@[0].index == 0,
            opt_text(Some(r.choices@[0].finish_reason)) == Some(finish_text(self.finish_reason)),
            r.choices@[0].message.role@ == "assistant"@,
            r.choices@[0].message.name is None,
            r.choices@[0].message.tool_call_id is None,
            if self.content@.len() == 0 {
                r.choices@[0].message.content is Null
            } else {
                r.choices@[0].message.content matches MessageContent::Text(t) && t@ == self.content@
            },
            if self.tool_calls@.len() == 0 {
                r.choices@[0].message.tool_calls is None
            } else {
                r.choices@[0].message.tool_calls == Some(self.tool_calls)
            },
            r.usage == Some(
                Usage {
                    prompt_tokens: self.usage.prompt_tokens,
                    completion_tokens: self.usage.completion_tokens,
                    total_tokens: (self.usage.prompt_tokens + self.usage.completion_tokens) as u32,
                },
            ),
    {
        let usage = Usage {
            prompt_tokens: self.usage.prompt_tokens,
            completion_tokens: self.usage.completion_tokens,
            total_tokens: self.usage.prompt_tokens + self.usage.completion_tokens,
        };
        let finish_reason = self.finish_reason.text();
        let content = if self.content.as_str().is_empty() {
            MessageContent::Null
        } else {
            MessageContent::Text(self.content)
        };
        let tool_calls = if self.tool_calls.len() == 0 {
            None
        } else {
            Some(self.tool_calls)
        };
        let message = ChatMessage {
            role: String::from_str("assistant"),
            content,
            name: None,
            tool_calls,
            tool_call_id: None,
        };
        let mut choices: Vec<Choice> = Vec::new();
        choices.push(Choice { index: 0, message, finish_reason });
        ChatCompletionResponse {
            id: self.id,
            object: "chat.completion",
            created: self.created,
            model: self.model,
            choices,
            usage: Some(usage),
        }
    }
}

/// The error that fails a request when a call to Copilot failed (listing the
/// models, creating the session, sending the prompt): `STAGE: DETAIL` from
/// upstream.
pub fn upstream_failure(stage: SessionStage, detail: &str) -> (e: AppError)
    ensures
        e matches AppError::Upstream(m) && m@ == stage_label(stage) + ": "@ + detail@,
{
    AppError::Upstream(stage_failure_message(stage, detail))
}

/// Everything a non-streamed answer starts from.
pub struct BlockingPlan {
    pub chat: BlockingChat,
    pub prompt: String,
    pub session: SessionSpec,
}

/// Whether `p` is the non-streamed answer to `req` with model `model`.
pub open spec fn is_blocking_plan(p: BlockingPlan, req: ChatCompletionRequest, model: Seq<char>) -> bool {
    &&& p.chat.wf()
    &&& p.chat.model@ == model
    &&& p.chat.content@.len() == 0
    &&& p.chat.tool_calls@.len() == 0
    &&& p.chat.usage == Usage::zero_spec()
    &&& p.chat.finish_reason == FinishReason::Stop
    &&& p.prompt@ == prompt_of(req.messages@)
    &&& is_session_for(p.session, req, model, false)
}

/// The non-streamed answer to `req` with the response id `id`, stamped
/// `created`: the prompt built from the messages, and a non-streaming session
/// with the client's tools and the request's model.
pub fn blocking_plan(req: &ChatCompletionRequest, id: String, created: i64) -> (p: BlockingPlan)
    ensures
        is_blocking_plan(p, *req, req.model@),
        p.chat.id@ == id@,
        p.chat.created == created,
{
    let prompt = build_prompt(req.messages.as_slice());
    let session = build_session_config(req, false);
    let chat = BlockingChat::new(id, req.model.clone(), created);
    BlockingPlan { chat, prompt, session }
}

/// Prepares the non-streamed answer to `req` with a fresh response id and the
/// current time. It fails only when no response id can be drawn.
pub fn chat_blocking(req: &ChatCompletionRequest) -> (r: Result<BlockingPlan, AppError>)
    ensures
        r matches Ok(plan) ==> is_blocking_plan(plan, *req, req.model@) && is_response_id(
            plan.chat.id@,
        ),
        r matches Err(e) ==> is_no_response_id(e),
{
    let id = match make_id() {
        Some(id) => id,
        None => {
            return Err(no_response_id());
        },
    };
    let created = now_ts();
    Ok(blocking_plan(req, id, created))
}

/// How a chat request is answered.
pub enum ChatDispatch {
    /// As server-sent events.
    Stream(StreamPlan),
    /// As one JSON response.
    Blocking(BlockingPlan),
}

/// Whether `d` answers `req` with `model`, as a stream exactly when `req`
/// asks for one.
pub open spec fn is_dispatch_for(d: ChatDispatch, req: ChatCompletionRequest, model: Seq<char>) -> bool {
    match d {
        ChatDispatch::Stream(p) => req.stream && is_stream_plan(p, req, model),
        ChatDispatch::Blocking(p) => !req.stream && is_blocking_plan(p, req, model),
    }
}

/// The model that `d` answers with, and the model its session is opened with.
pub open spec fn dispatch_models(d: ChatDispatch) -> (Seq<char>, Option<Seq<char>>) {
    match d {
        ChatDispatch::Stream(p) => (p.stream.model@, opt_text(p.session.model)),
        ChatDispatch::Blocking(p) => (p.chat.model@, opt_text(p.session.model)),
    }
}

/// A request that names a model is answered with that model; a blank one is
/// answered with the configured default, streamed or not.
pub proof fn lemma_effective_model(req: ChatCompletionRequest, config: Config)
    ensures
        trimmed(req.model@).len() > 0 ==> effective_model(req, config) == req.model@,
        trimmed(req.model@).len() == 0 ==> effective_model(req, config) == config.default_model@,
{
}

/// The id and timestamp of the answer that `d` prepares.
pub open spec fn dispatch_id(d: ChatDispatch) -> (Seq<char>, i64) {
    match d {
        ChatDispatch::Stream(p) => (p.stream.id@, p.stream.created),
        ChatDispatch::Blocking(p) => (p.chat.id@, p.chat.created),
    }
}

/// Validates a chat request and prepares its answer with the response id `id`
/// (`None` when none could be drawn), stamped `created`: a request without
/// messages is refused, a blank model is replaced by the configured default,
/// and the answer is streamed exactly when the request asks for it.
pub fn dispatch_chat(config: &Config, req: ChatCompletionRequest, id: Option<String>, created: i64) -> (r:
    Result<ChatDispatch, AppError>)
    ensures
        req.messages@.len() == 0 ==> (r matches Err(e) && e matches AppError::BadRequest(m) && m@
            == "messages must not be empty"@),
        req.messages@.len() > 0 && id is None ==> (r matches Err(e) && is_no_response_id(e)),
        req.messages@.len() > 0 && id is Some ==> (r matches Ok(d) && is_dispatch_for(
            d,
            req,
            effective_model(req, *config),
        ) && dispatch_id(d) == (id->Some_0@, created)),
        r matches Ok(d) ==> (d is Stream <==> req.stream),
        r matches Ok(d) ==> (trimmed(req.model@).len() > 0 ==> dispatch_models(d) == (
            req.model@,
            Some(req.model@),
        )),
        r matches Ok(d) ==> (trimmed(req.model@).len() == 0 ==> dispatch_models(d) == (
            config.default_model@,
            Some(config.default_model@),
        )),
{
    let mut req = req;
    if req.messages.len() == 0 {
        return Err(AppError::BadRequest(String::from_str("messages must not be empty")));
    }
    let id = match id {
        Some(i) => i,
        None => {
            return Err(no_response_id());
        },
    };
    let blank = trim(req.model.as_str()).is_empty();
    if blank {
        req.model = config.default_model.clone();
    }
    if req.stream {
        Ok(ChatDispatch::Stream(stream_plan(&req, id, created)))
    } else {
        Ok(ChatDispatch::Blocking(blocking_plan(&req, id, created)))
    }
}

/// Validates a chat request and prepares its answer with a fresh response id
/// and the current time (see [`dispatch_chat`]); a request with messages fails
/// only when no response id can be drawn.
pub fn chat_completions(config: &Config, req: ChatCompletionRequest) -> (r: Result<
    ChatDispatch,
    AppError,
>)
    ensures
        req.messages@.len() == 0 ==> (r matches Err(e) && e matches AppError::BadRequest(m) && m@
            == "messages must not be empty"@),
        req.messages@.len() > 0 ==> (r matches Err(e) ==> is_no_response_id(e)),
        r matches Ok(d) ==> is_dispatch_for(d, req, effective_model(req, *config))
            && is_response_id(dispatch_id(d).0),
        r matches Ok(d) ==> (d is Stream <==> req.stream),
        r matches Ok(d) ==> (trimmed(req.model@).len() > 0 ==> dispatch_models(d) == (
            req.model@,
            Some(req.model@),
        )),
        r matches Ok(d) ==> (trimmed(req.model@).len() == 0 ==> dispatch_models(d) == (
            config.default_model@,
            Some(config.default_model@),
        )),
{
    if req.messages.len() == 0 {
        return Err(AppError::BadRequest(String::from_str("messages must not be empty")));
    }
    let id = make_id();
    let created = now_ts();
    dispatch_chat(config, req, id, created)
}

} // verus!
