//! The streamed answer (server-sent events): which chunks each session event
//! becomes, in the order of the OpenAI streaming protocol.
//!
//! A stream opens with a chunk that names the `assistant` role, carries one
//! chunk per answer delta and per tool call (tool calls numbered from 0), and
//! ends, when the session goes idle, with a chunk that gives the finish reason,
//! an optional usage chunk, and `[DONE]`; a session error ends it with an error
//! object and `[DONE]`.

use vstd::prelude::*;
use crate::error::{is_no_response_id, no_response_id, AppError};
use crate::prompt::{build_prompt, prompt_of};
use crate::session::{
    build_session_config, declared_tools, make_id, now_ts, opt_text, stage_failure_message,
    stage_label, tool_arguments_text, json_text_of, is_response_id, tool_matches, SessionEvent, SessionSpec, SessionStage,
};
use crate::types::{
    ChatCompletionChunk, ChatCompletionRequest, ChunkChoice, Delta, FunctionCallDelta,
    ToolCallDelta, Usage,
};

verus! {

/// Why the model stopped.
#[derive(Clone, Copy, Debug, PartialEq, Eq, Structural)]
pub enum FinishReason {
    /// It finished its answer.
    Stop,
    /// It called tools.
    ToolCalls,
}

/// The protocol name of a finish reason.
pub open spec fn finish_text(r: FinishReason) -> Seq<char> {
    match r {
        FinishReason::Stop => "stop"@,
        FinishReason::ToolCalls => "tool_calls"@,
    }
}

impl FinishReason {
    /// `stop` or `tool_calls`.
    pub fn text(&self) -> (s: String)
        ensures
            s@ == finish_text(*self),
    {
        match self {
            FinishReason::Stop => String::from_str("stop"),
            FinishReason::ToolCalls => String::from_str("tool_calls"),
        }
    }
}

/// The `error` member of a stream's error object.
pub struct ErrorDetail {
    pub message: String,
    /// Always `upstream_error`.
    pub error_type: &'static str,
}

/// The object that ends a stream when the session fails.
pub struct StreamError {
    pub created: i64,
    pub error: ErrorDetail,
    pub id: String,
    pub model: String,
    pub object: &'static str,
}

/// One server-sent event of a streamed answer.
pub enum SseItem {
    /// A chunk of the answer.
    Chunk(ChatCompletionChunk),
    /// The session failed.
    Error(StreamError),
    /// The `[DONE]` marker; nothing follows it.
    Done,
}

/// The state of a streamed answer between session events.
pub struct ChatStream {
    pub id: String,
    pub model: String,
    pub created: i64,
    /// Whether the client asked for a usage chunk.
    pub include_usage: bool,
    pub finish_reason: FinishReason,
    pub usage: Usage,
    /// Number of tool calls streamed so far (the index of the next one).
    pub tool_index: u32,
    /// Whether `[DONE]` has been sent.
    pub finished: bool,
}

/// Whether `c` carries the id, model and timestamp of stream `s`.
pub open spec fn chunk_of(c: ChatCompletionChunk, s: ChatStream) -> bool {
    &&& c.id@ == s.id@
    &&& c.model@ == s.model@
    &&& c.created == s.created
    &&& c.object@ == "chat.completion.chunk"@
}

/// Whether `c` has a single choice with index 0 and no usage.
pub open spec fn single_choice(c: ChatCompletionChunk) -> bool {
    &&& c.choices@.len() == 1
    &&& c.choices@[0].index == 0
    &&& c.usage is None
}

/// The chunk that opens a stream: role `assistant`, nothing else.
pub open spec fn is_role_chunk(c: ChatCompletionChunk, s: ChatStream) -> bool {
    let ch = c.choices@[0];
    &&& chunk_of(c, s)
    &&& single_choice(c)
    &&& opt_text(ch.delta.role) == Some("assistant"@)
    &&& ch.delta.content is None
    &&& ch.delta.tool_calls is None
    &&& ch.finish_reason is None
}

/// A chunk that carries a piece `text` of the answer.
pub open spec fn is_content_chunk(c: ChatCompletionChunk, s: ChatStream, text: Seq<char>) -> bool {
    let ch = c.choices@[0];
    &&& chunk_of(c, s)
    &&& single_choice(c)
    &&& ch.delta.role is None
    &&& opt_text(ch.delta.content) == Some(text)
    &&& ch.delta.tool_calls is None
    &&& ch.finish_reason is None
}

/// A chunk that carries tool call number `index`.
pub open spec fn is_tool_chunk(
    c: ChatCompletionChunk,
    s: ChatStream,
    index: u32,
    id: Seq<char>,
    name: Seq<char>,
    arguments: Seq<char>,
) -> bool {
    let ch = c.choices@[0];
    let calls = ch.delta.tool_calls->Some_0@;
    let call = calls[0];
    &&& chunk_of(c, s)
    &&& single_choice(c)
    &&& ch.delta.role is None
    &&& ch.delta.content is None
    &&& ch.finish_reason is None
    &&& ch.delta.tool_calls is Some
    &&& calls.len() == 1
    &&& call.index == index
    &&& opt_text(call.id) == Some(id)
    &&& opt_text(call.call_type) == Some("function"@)
    &&& call.function is Some
    &&& opt_text(call.function->Some_0.name) == Some(name)
    &&& opt_text(call.function->Some_0.arguments) == Some(arguments)
}

/// The chunk that gives the finish reason.
pub open spec fn is_finish_chunk(c: ChatCompletionChunk, s: ChatStream, r: FinishReason) -> bool {
    let ch = c.choices@[0];
    &&& chunk_of(c, s)
    &&& single_choice(c)
    &&& ch.delta.role is None
    &&& ch.delta.content is None
    &&& ch.delta.tool_calls is None
    &&& opt_text(ch.finish_reason) == Some(finish_text(r))
}

/// The chunk that reports the usage `u`: no choices.
pub open spec fn is_usage_chunk(c: ChatCompletionChunk, s: ChatStream, u: Usage) -> bool {
    &&& chunk_of(c, s)
    &&& c.choices@.len() == 0
    &&& c.usage == Some(u)
}

/// The error object of stream `s` with the given message.
pub open spec fn is_stream_error(e: StreamError, s: ChatStream, message: Seq<char>) -> bool {
    &&& e.id@ == s.id@
    &&& e.model@ == s.model@
    &&& e.created == s.created
    &&& e.object@ == "chat.completion.chunk"@
    &&& e.error.message@ == message
    &&& e.error.error_type@ == "upstream_error"@
}

/// The items that end a stream whose session failed with `message`.
pub open spec fn is_stream_failure(items: Seq<SseItem>, s: ChatStream, message: Seq<char>) -> bool {
    &&& items.len() == 2
    &&& items[0] matches SseItem::Error(e) && is_stream_error(e, s, message)
    &&& items[1] is Done
}

/// What one sent item says, apart from the id, model and time that every
/// item of a stream carries.
pub enum ItemView {
    /// A piece of the answer.
    Content(Seq<char>),
    /// A tool call with its index, id, name and JSON arguments.
    Tool { index: u32, id: Seq<char>, name: Seq<char>, arguments: Seq<char> },
    /// The finish reason.
    Finish(FinishReason),
    /// The token usage.
    UsageReport(Usage),
    /// The error object with its message.
    Failure(Seq<char>),
    /// `[DONE]`.
    Done,
}

/// Whether `item`, sent on stream `s`, is what `v` says.
pub open spec fn item_is(item: SseItem, s: ChatStream, v: ItemView) -> bool {
    match v {
        ItemView::Content(t) => item matches SseItem::Chunk(c) && is_content_chunk(c, s, t),
        ItemView::Tool { index, id, name, arguments } => item matches SseItem::Chunk(c)
            && is_tool_chunk(c, s, index, id, name, arguments),
        ItemView::Finish(r) => item matches SseItem::Chunk(c) && is_finish_chunk(c, s, r),
        ItemView::UsageReport(u) => item matches SseItem::Chunk(c) && is_usage_chunk(c, s, u),
        ItemView::Failure(m) => item matches SseItem::Error(e) && is_stream_error(e, s, m),
        ItemView::Done => item is Done,
    }
}

/// Whether `items`, sent on stream `s`, are what `views` say, one for one.
pub open spec fn items_are(items: Seq<SseItem>, s: ChatStream, views: Seq<ItemView>) -> bool {
    &&& items.len() == views.len()
    &&& forall|i: int| 0 <= i < items.len() ==> item_is(#[trigger] items[i], s, views[i])
}

/// What stream `s` sends for `event`: a content chunk per delta, a tool chunk
/// with the next index per tool call, nothing for usage and ignored events;
/// when the session goes idle or the channel closes, the finish chunk, the
/// usage chunk if the client asked for it, and `[DONE]`; on a session error,
/// the error object and `[DONE]`.
pub open spec fn stream_emit(s: ChatStream, event: SessionEvent) -> Seq<ItemView> {
    match event {
        SessionEvent::MessageDelta(t) => seq![ItemView::Content(t@)],
        SessionEvent::ToolStart { tool_call_id, tool_name, arguments } => seq![
            ItemView::Tool {
                index: s.tool_index,
                id: tool_call_id@,
                name: tool_name@,
                arguments: json_text_of(arguments),
            },
        ],
        SessionEvent::Idle | SessionEvent::Closed => seq![ItemView::Finish(s.finish_reason)] + (
        if s.include_usage {
            seq![ItemView::UsageReport(s.usage)]
        } else {
            Seq::empty()
        }) + seq![ItemView::Done],
        SessionEvent::Error(m) => seq![ItemView::Failure(m@), ItemView::Done],
        SessionEvent::Usage { .. } | SessionEvent::Message(_) | SessionEvent::Other => Seq::empty(),
    }
}

/// The state of stream `s` after `event`: a tool call advances the index and
/// makes the finish reason `tool_calls`; usage is added up; an ending event
/// finishes the stream.
pub open spec fn stream_step(s: ChatStream, event: SessionEvent) -> ChatStream {
    match event {
        SessionEvent::ToolStart { .. } => ChatStream {
            tool_index: (s.tool_index + 1) as u32,
            finish_reason: FinishReason::ToolCalls,
            ..s
        },
        SessionEvent::Usage { input_tokens, output_tokens } => {
            let p = (s.usage.prompt_tokens + input_tokens) as u32;
            let c = (s.usage.completion_tokens + output_tokens) as u32;
            ChatStream {
                usage: Usage { prompt_tokens: p, completion_tokens: c, total_tokens: (p + c) as u32 },
                ..s
            }
        },
        SessionEvent::Idle | SessionEvent::Closed | SessionEvent::Error(_) => ChatStream {
            finished: true,
            ..s
        },
        SessionEvent::MessageDelta(_) | SessionEvent::Message(_) | SessionEvent::Other => s,
    }
}

impl ChatStream {
    /// The stream's bookkeeping agrees with itself: the finish reason is
    /// `tool_calls` exactly when a tool call was streamed, and the total of
    /// the usage is the sum of its parts.
    pub open spec fn wf(&self) -> bool {
        &&& (self.finish_reason == FinishReason::ToolCalls <==> self.tool_index > 0)
        &&& self.usage.total_tokens == self.usage.prompt_tokens + self.usage.completion_tokens
    }

    /// Whether `self` and `other` describe the same response.
    pub open spec fn same_response(&self, other: ChatStream) -> bool {
        &&& self.id@ == other.id@
        &&& self.model@ == other.model@
        &&& self.created == other.created
        &&& self.include_usage == other.include_usage
    }

    /// A new stream for the response `id` of `model`, created at `created`,
    /// and the chunk that opens it.
    pub fn start(id: String, model: String, created: i64, include_usage: bool) -> (r: (
        ChatStream,
        ChatCompletionChunk,
    ))
        ensures
            r.0.wf(),
            r.0.id@ == id@,
            r.0.model@ == model@,
            r.0.created == created,
            r.0.include_usage == include_usage,
            r.0.finish_reason == FinishReason::Stop,
            r.0.usage == Usage::zero_spec(),
            r.0.tool_index == 0,
            !r.0.finished,
            is_role_chunk(r.1, r.0),
    {
        let s = ChatStream {
            id,
            model,
            created,
            include_usage,
            finish_reason: FinishReason::Stop,
            usage: Usage::zero(),
            tool_index: 0,
            finished: false,
        };
        let chunk = s.chunk(
            Delta { role: Some(String::from_str("assistant")), content: None, tool_calls: None },
            None,
        );
        (s, chunk)
    }

    /// A chunk of this stream with one choice.
    fn chunk(&self, delta: Delta, finish_reason: Option<String>) -> (c: ChatCompletionChunk)
        ensures
            chunk_of(c, *self),
            single_choice(c),
            c.choices@[0].delta == delta,
            c.choices@[0].finish_reason == finish_reason,
    {
        let mut choices: Vec<ChunkChoice> = Vec::new();
        choices.push(ChunkChoice { index: 0, delta, finish_reason });
        ChatCompletionChunk {
            id: self.id.clone(),
            object: "chat.completion.chunk",
            created: self.created,
            model: self.model.clone(),
            choices,
            usage: None,
        }
    }

    /// The error object of this stream with `message`.
    fn error_item(&self, message: String) -> (e: StreamError)
        ensures
            is_stream_error(e, *self, message@),
    {
        StreamError {
            created: self.created,
            error: ErrorDetail { message, error_type: "upstream_error" },
            id: self.id.clone(),
            model: self.model.clone(),
            object: "chat.completion.chunk",
        }
    }

    /// Ends the stream when the session could not be created or the prompt
    /// not sent: the error object `STAGE: DETAIL`, then `[DONE]`.
    pub fn fail(&mut self, stage: SessionStage, detail: &str) -> (items: Vec<SseItem>)
        requires
            !old(self).finished,
        ensures
            is_stream_failure(items@, *old(self), stage_label(stage) + ": "@ + detail@),
            final(self).finished,
            final(self).same_response(*old(self)),
            final(self).finish_reason == old(self).finish_reason,
            final(self).usage == old(self).usage,
            final(self).tool_index == old(self).tool_index,
    {
        let message = stage_failure_message(stage, detail);
        let mut items: Vec<SseItem> = Vec::new();
        items.push(SseItem::Error(self.error_item(message)));
        items.push(SseItem::Done);
        self.finished = true;
        items
    }

    /// Handles one session event and returns the items to send for it.
    ///
    /// A delta becomes a content chunk; a tool call becomes a tool chunk with
    /// the next index and makes the finish reason `tool_calls`; usage is added
    /// up; `Idle` or a closed channel ends the stream normally and a session
    /// error ends it with an error object; other events send nothing.
    pub fn on_event(&mut self, event: SessionEvent) -> (items: Vec<SseItem>)
        requires
            old(self).wf(),
            !old(self).finished,
            event matches SessionEvent::ToolStart { .. } ==> old(self).tool_index < u32::MAX,
            event matches SessionEvent::Usage { input_tokens, output_tokens } ==> old(
                self,
            ).usage.prompt_tokens + input_tokens + old(self).usage.completion_tokens
                + output_tokens <= u32::MAX,
        ensures
            final(self).wf(),
            final(self).same_response(*old(self)),
            items_are(items@, *old(self), stream_emit(*old(self), event)),
            *final(self) == stream_step(*old(self), event),
    {
        let mut items: Vec<SseItem> = Vec::new();
        match event {
            SessionEvent::MessageDelta(text) => {
                let c = self.chunk(Delta { role: None, content: Some(text), tool_calls: None }, None);
                items.push(SseItem::Chunk(c));
            },
            SessionEvent::ToolStart { tool_call_id, tool_name, arguments } => {
                self.finish_reason = FinishReason::ToolCalls;
                let args = tool_arguments_text(&arguments);
                let mut calls: Vec<ToolCallDelta> = Vec::new();
                calls.push(
                    ToolCallDelta {
                        index: self.tool_index,
                        id: Some(tool_call_id),
                        call_type: Some(String::from_str("function")),
                        function: Some(
                            FunctionCallDelta { name: Some(tool_name), arguments: Some(args) },
                        ),
                    },
                );
                let c = self.chunk(Delta { role: None, content: None, tool_calls: Some(calls) }, None);
                items.push(SseItem::Chunk(c));
                self.tool_index = self.tool_index + 1;
            },
            SessionEvent::Usage { input_tokens, output_tokens } => {
                self.usage.prompt_tokens = self.usage.prompt_tokens + input_tokens;
                self.usage.completion_tokens = self.usage.completion_tokens + output_tokens;
                self.usage.total_tokens = self.usage.prompt_tokens + self.usage.completion_tokens;
            },
            SessionEvent::Idle | SessionEvent::Closed => {
                let reason = self.finish_reason.text();
                let c = self.chunk(
                    Delta { role: None, content: None, tool_calls: None },
                    Some(reason),
                );
                items.push(SseItem::Chunk(c));
                if self.include_usage {
                    let u = ChatCompletionChunk {
                        id: self.id.clone(),
                        object: "chat.completion.chunk",
                        created: self.created,
                        model: self.model.clone(),
                        choices: Vec::new(),
                        usage: Some(self.usage),
                    };
                    items.push(SseItem::Chunk(u));
                }
                items.push(SseItem::Done);
                self.finished = true;
            },
            SessionEvent::Error(message) => {
                items.push(SseItem::Error(self.error_item(message)));
                items.push(SseItem::Done);
                self.finished = true;
            },
            SessionEvent::Message(_) | SessionEvent::Other => {},
        }
        items
    }
}

/// Everything a streamed answer starts from: its state, the opening chunk,
/// the prompt to send and the session to open.
pub struct StreamPlan {
    pub stream: ChatStream,
    pub first: ChatCompletionChunk,
    pub prompt: String,
    pub session: SessionSpec,
}

/// Whether the client asked for a usage chunk.
pub open spec fn wants_usage(req: ChatCompletionRequest) -> bool {
    match req.stream_options {
        Some(o) => o.include_usage,
        None => false,
    }
}

/// Whether `p` is the streamed answer to `req`, answered with model `model`,
/// before any session event.
pub open spec fn is_stream_plan(p: StreamPlan, req: ChatCompletionRequest, model: Seq<char>) -> bool {
    &&& p.stream.wf()
    &&& !p.stream.finished
    &&& p.stream.tool_index == 0
    &&& p.stream.finish_reason == FinishReason::Stop
    &&& p.stream.usage == Usage::zero_spec()
    &&& p.stream.model@ == model
    &&& p.stream.include_usage == wants_usage(req)
    &&& is_role_chunk(p.first, p.stream)
    &&& p.prompt@ == prompt_of(req.messages@)
    &&& is_session_for(p.session, req, model, true)
}

/// Whether `s` opens a session for `req` with model `model`.
pub open spec fn is_session_for(
    s: SessionSpec,
    req: ChatCompletionRequest,
    model: Seq<char>,
    streaming: bool,
) -> bool {
    &&& s.streaming == streaming
    &&& opt_text(s.model) == Some(model)
    &&& s.tools@.len() == declared_tools(req).len()
    &&& forall|i: int|
        0 <= i < s.tools@.len() ==> tool_matches(#[trigger] s.tools@[i], declared_tools(req)[i])
}

/// The streamed answer to `req` with the response id `id`, stamped `created`:
/// the opening chunk, the prompt built from the messages, and a streaming
/// session with the client's tools and the request's model.
pub fn stream_plan(req: &ChatCompletionRequest, id: String, created: i64) -> (p: StreamPlan)
    ensures
        is_stream_plan(p, *req, req.model@),
        p.stream.id@ == id@,
        p.stream.created == created,
{
    let model = req.model.clone();
    let include_usage = match &req.stream_options {
        Some(o) => o.include_usage,
        None => false,
    };
    let prompt = build_prompt(req.messages.as_slice());
    let session = build_session_config(req, true);
    let (stream, first) = ChatStream::start(id, model, created, include_usage);
    StreamPlan { stream, first, prompt, session }
}

/// Prepares the streamed answer to `req` with a fresh response id and the
/// current time. It fails only when no response id can be drawn.
pub fn stream_chat(req: &ChatCompletionRequest) -> (r: Result<StreamPlan, AppError>)
    ensures
        r matches Ok(plan) ==> is_stream_plan(plan, *req, req.model@) && is_response_id(
            plan.stream.id@,
        ),
        r matches Err(e) ==> is_no_response_id(e),
{
    let id = match make_id() {
        Some(id) => id,
        None => {
            return Err(no_response_id());
        },
    };
    let created = now_ts();
    Ok(stream_plan(req, id, created))
}

} // verus!
