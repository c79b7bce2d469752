use copilot_api_server::config::Config;
use copilot_api_server::error::AppError;
use copilot_api_server::handlers::{
    blocking_plan, chat_blocking, chat_completions, dispatch_chat, list_models, upstream_failure,
    BlockingStep, ChatDispatch,
};
use copilot_api_server::session::{
    arguments_or_empty_object, build_session_config, make_id, now_ts, response_id, stage_failure_message,
    timestamp_from_epoch_seconds, tool_arguments_text, SessionEvent, SessionStage,
};
use copilot_api_server::streaming::{stream_chat, stream_plan, FinishReason, SseItem};
use copilot_api_server::types::{
    ChatCompletionRequest, ChatMessage, FunctionDefinition, MessageContent, ModelCapabilities,
    ModelInfo, StreamOptions, ToolDefinition,
};

fn user(text: &str) -> ChatMessage {
    ChatMessage {
        role: "user".to_string(),
        content: MessageContent::Text(text.to_string()),
        name: None,
        tool_calls: None,
        tool_call_id: None,
    }
}

fn request(model: &str, stream: bool, messages: Vec<ChatMessage>) -> ChatCompletionRequest {
    ChatCompletionRequest {
        model: model.to_string(),
        messages,
        stream,
        stream_options: None,
        tools: None,
        tool_choice: None,
        max_tokens: None,
        n: None,
        user: None,
    }
}

fn json(text: &str) -> serde_json::Value {
    serde_json::from_str(text).unwrap()
}

fn model(id: &str) -> ModelInfo {
    ModelInfo {
        id: id.to_string(),
        display_name: None,
        capabilities: None,
        billing_multiplier: None,
        policy_state: None,
        supported_reasoning_efforts: None,
        default_reasoning_effort: None,
    }
}

#[test]
fn model_list_reports_the_account_models_in_order() {
    let mut rich = model("gpt-5");
    rich.display_name = Some("GPT-5".to_string());
    rich.capabilities = Some(ModelCapabilities {
        vision: Some(true),
        reasoning_effort: Some(false),
        max_context_window_tokens: Some(128000),
    });
    rich.billing_multiplier = Some(json("1.5"));
    rich.policy_state = Some("enabled".to_string());
    rich.supported_reasoning_efforts = Some(vec!["low".to_string(), "high".to_string()]);
    rich.default_reasoning_effort = Some("low".to_string());
    let l = list_models(vec![model("auto"), rich, model("o1-mini")]);
    assert_eq!(l.object, "list");
    let ids: Vec<&str> = l.data.iter().map(|m| m.id.as_str()).collect();
    assert_eq!(ids, vec!["auto", "gpt-5", "o1-mini"]);
    for m in &l.data {
        assert_eq!(m.object, "model");
        assert_eq!(m.owned_by, "github-copilot");
        assert_eq!(m.created, l.data[0].created);
    }
    let r = &l.data[1];
    assert_eq!(r.display_name.as_deref(), Some("GPT-5"));
    let c = r.capabilities.unwrap();
    assert_eq!((c.vision, c.reasoning_effort, c.max_context_window_tokens), (Some(true), Some(false), Some(128000)));
    assert_eq!(r.billing_multiplier, Some(json("1.5")));
    assert_eq!(r.policy_state.as_deref(), Some("enabled"));
    assert_eq!(r.supported_reasoning_efforts, Some(vec!["low".to_string(), "high".to_string()]));
    assert_eq!(r.default_reasoning_effort.as_deref(), Some("low"));
    assert!(l.data[0].display_name.is_none() && l.data[0].capabilities.is_none());
}

#[test]
fn model_list_of_no_models_is_empty() {
    let l = list_models(vec![]);
    assert_eq!(l.object, "list");
    assert!(l.data.is_empty());
}

#[test]
fn response_ids_are_chatcmpl_and_a_v4_uuid() {
    let id = make_id().unwrap();
    assert_eq!(id.len(), 45);
    assert!(id.starts_with("chatcmpl-"));
    let u: Vec<char> = id["chatcmpl-".len()..].chars().collect();
    for (i, c) in u.iter().enumerate() {
        if i == 8 || i == 13 || i == 18 || i == 23 {
            assert_eq!(*c, '-');
        } else {
            assert!(c.is_ascii_hexdigit() && !c.is_ascii_uppercase());
        }
    }
    assert_eq!(u[14], '4');
    assert!(matches!(u[19], '8' | '9' | 'a' | 'b'));
    assert_ne!(make_id().unwrap(), id);
}

#[test]
fn timestamps() {
    assert!(now_ts() > 1_600_000_000);
    assert_eq!(timestamp_from_epoch_seconds(Some(1_700_000_000)), 1_700_000_000);
    assert_eq!(timestamp_from_epoch_seconds(None), 0);
    assert_eq!(timestamp_from_epoch_seconds(Some(u64::MAX)), -1);
}

#[test]
fn tool_arguments_are_written_as_json() {
    assert_eq!(tool_arguments_text(&json(r#"{"a": [1, 2], "b": "x"}"#)), r#"{"a":[1,2],"b":"x"}"#);
    assert_eq!(tool_arguments_text(&serde_json::Value::Null), "null");
    assert_eq!(arguments_or_empty_object(None), "{}");
    assert_eq!(arguments_or_empty_object(Some("[]".to_string())), "[]");
}

#[test]
fn stage_failures_are_labelled() {
    assert_eq!(stage_failure_message(SessionStage::CreateSession, "boom"), "create_session: boom");
    assert_eq!(stage_failure_message(SessionStage::Send, "x"), "send: x");
    assert_eq!(stage_failure_message(SessionStage::ListModels, "down"), "list_models: down");
    match upstream_failure(SessionStage::Send, "closed") {
        AppError::Upstream(m) => assert_eq!(m, "send: closed"),
        _ => panic!("wrong error"),
    }
}

#[test]
fn session_config_keeps_only_client_tools() {
    let mut req = request("gpt-4o", false, vec![user("hi")]);
    req.tools = Some(vec![
        ToolDefinition {
            tool_type: "function".to_string(),
            function: FunctionDefinition {
                name: "lookup".to_string(),
                description: Some("find".to_string()),
                parameters: Some(json(r#"{"type":"object"}"#)),
            },
        },
        ToolDefinition {
            tool_type: "function".to_string(),
            function: FunctionDefinition { name: "noop".to_string(), description: None, parameters: None },
        },
    ]);
    let s = build_session_config(&req, true);
    assert!(s.streaming);
    assert_eq!(s.model.as_deref(), Some("gpt-4o"));
    assert_eq!(s.tools.len(), 2);
    assert_eq!(s.tools[0].name, "lookup");
    assert_eq!(s.tools[0].description.as_deref(), Some("find"));
    assert_eq!(s.tools[0].parameters, Some(json(r#"{"type":"object"}"#)));
    assert_eq!(s.tools[1].name, "noop");
    assert!(s.tools[1].description.is_none() && s.tools[1].parameters.is_none());
    let empty = build_session_config(&request("m", false, vec![]), false);
    assert!(empty.tools.is_empty() && !empty.streaming);
}

#[test]
fn empty_messages_are_a_bad_request() {
    let c = Config::default();
    match chat_completions(&c, request("gpt-4o", false, vec![])) {
        Err(AppError::BadRequest(m)) => assert_eq!(m, "messages must not be empty"),
        _ => panic!("expected a bad request"),
    }
}

#[test]
fn blank_model_takes_the_default() {
    let mut c = Config::default();
    c.default_model = "gpt-4o".to_string();
    match chat_completions(&c, request("  ", false, vec![user("hi")])) {
        Ok(ChatDispatch::Blocking(p)) => {
            assert_eq!(p.chat.model, "gpt-4o");
            assert_eq!(p.session.model.as_deref(), Some("gpt-4o"));
            assert!(!p.session.streaming);
            assert_eq!(p.prompt, "hi");
            assert!(p.chat.id.starts_with("chatcmpl-"));
        }
        _ => panic!("expected a blocking answer"),
    }
    match chat_completions(&c, request("o1-mini", true, vec![user("hi")])) {
        Ok(ChatDispatch::Stream(p)) => {
            assert_eq!(p.stream.model, "o1-mini");
            assert!(p.session.streaming);
            assert!(!p.stream.include_usage);
            assert!(p.stream.id.starts_with("chatcmpl-"));
        }
        _ => panic!("expected a streamed answer"),
    }
}

#[test]
fn blocking_answer_gathers_deltas_tools_and_usage() {
    let plan = chat_blocking(&request("gpt-4o", false, vec![user("hi")])).ok().unwrap();
    assert!(plan.chat.id.starts_with("chatcmpl-"));
    let mut chat = plan.chat;
    assert!(matches!(chat.on_event(SessionEvent::MessageDelta("Hel".to_string())), BlockingStep::Continue));
    assert!(matches!(chat.on_event(SessionEvent::MessageDelta("lo".to_string())), BlockingStep::Continue));
    assert!(matches!(chat.on_event(SessionEvent::Message("ignored".to_string())), BlockingStep::Continue));
    assert!(matches!(
        chat.on_event(SessionEvent::ToolStart {
            tool_call_id: "c1".to_string(),
            tool_name: "lookup".to_string(),
            arguments: json(r#"{"q": 1}"#),
        }),
        BlockingStep::Continue
    ));
    chat.on_event(SessionEvent::Usage { input_tokens: 10, output_tokens: 3 });
    chat.on_event(SessionEvent::Usage { input_tokens: 1, output_tokens: 2 });
    chat.on_event(SessionEvent::Other);
    assert!(matches!(chat.on_event(SessionEvent::Idle), BlockingStep::Finish));
    let id = chat.id.clone();
    let r = chat.finish();
    assert_eq!(r.id, id);
    assert_eq!(r.object, "chat.completion");
    assert_eq!(r.model, "gpt-4o");
    assert_eq!(r.choices.len(), 1);
    assert_eq!(r.choices[0].finish_reason, "tool_calls");
    let m = &r.choices[0].message;
    assert_eq!(m.role, "assistant");
    assert!(matches!(&m.content, MessageContent::Text(t) if t == "Hello"));
    let calls = m.tool_calls.as_ref().unwrap();
    assert_eq!(calls.len(), 1);
    assert_eq!(calls[0].id, "c1");
    assert_eq!(calls[0].call_type, "function");
    assert_eq!(calls[0].function.name, "lookup");
    assert_eq!(calls[0].function.arguments, r#"{"q":1}"#);
    let u = r.usage.unwrap();
    assert_eq!((u.prompt_tokens, u.completion_tokens, u.total_tokens), (11, 5, 16));
}

#[test]
fn blocking_answer_takes_the_whole_message_without_deltas() {
    let mut chat = chat_blocking(&request("m", false, vec![user("hi")])).ok().unwrap().chat;
    chat.on_event(SessionEvent::Message("full".to_string()));
    chat.on_event(SessionEvent::Message("again".to_string()));
    assert!(matches!(chat.on_event(SessionEvent::Closed), BlockingStep::Finish));
    let r = chat.finish();
    assert_eq!(r.choices[0].finish_reason, "stop");
    assert!(matches!(&r.choices[0].message.content, MessageContent::Text(t) if t == "full"));
    assert!(r.choices[0].message.tool_calls.is_none());
    let u = r.usage.unwrap();
    assert_eq!((u.prompt_tokens, u.completion_tokens, u.total_tokens), (0, 0, 0));
}

#[test]
fn blocking_answer_without_text_has_null_content() {
    let chat = chat_blocking(&request("m", false, vec![user("hi")])).ok().unwrap().chat;
    let r = chat.finish();
    assert!(matches!(r.choices[0].message.content, MessageContent::Null));
}

#[test]
fn blocking_session_error_fails_upstream() {
    let mut chat = chat_blocking(&request("m", false, vec![user("hi")])).ok().unwrap().chat;
    match chat.on_event(SessionEvent::Error("quota".to_string())) {
        BlockingStep::Fail(AppError::Upstream(m)) => assert_eq!(m, "quota"),
        _ => panic!("expected an upstream failure"),
    }
}

fn chunk(item: &SseItem) -> &copilot_api_server::types::ChatCompletionChunk {
    match item {
        SseItem::Chunk(c) => c,
        _ => panic!("expected a chunk"),
    }
}

#[test]
fn stream_follows_the_openai_chunk_order() {
    let mut req = request("gpt-4o", true, vec![user("hi")]);
    req.stream_options = Some(StreamOptions { include_usage: true });
    let plan = stream_chat(&req).ok().unwrap();
    assert_eq!(plan.prompt, "hi");
    let first = &plan.first;
    assert_eq!(first.object, "chat.completion.chunk");
    assert_eq!(first.choices[0].delta.role.as_deref(), Some("assistant"));
    assert!(first.choices[0].finish_reason.is_none());
    let mut s = plan.stream;
    let id = s.id.clone();

    let items = s.on_event(SessionEvent::MessageDelta("Hi".to_string()));
    assert_eq!(items.len(), 1);
    let c = chunk(&items[0]);
    assert_eq!(c.id, id);
    assert_eq!(c.choices[0].delta.content.as_deref(), Some("Hi"));

    for (k, name) in ["a", "b"].iter().enumerate() {
        let items = s.on_event(SessionEvent::ToolStart {
            tool_call_id: format!("c{}", k),
            tool_name: name.to_string(),
            arguments: json("{}"),
        });
        let c = chunk(&items[0]);
        let call = &c.choices[0].delta.tool_calls.as_ref().unwrap()[0];
        assert_eq!(call.index, k as u32);
        assert_eq!(call.id.as_deref(), Some(format!("c{}", k).as_str()));
        assert_eq!(call.call_type.as_deref(), Some("function"));
        let f = call.function.as_ref().unwrap();
        assert_eq!(f.name.as_deref(), Some(*name));
        assert_eq!(f.arguments.as_deref(), Some("{}"));
    }
    assert_eq!(s.finish_reason, FinishReason::ToolCalls);

    assert!(s.on_event(SessionEvent::Usage { input_tokens: 7, output_tokens: 2 }).is_empty());
    assert!(s.on_event(SessionEvent::Usage { input_tokens: 1, output_tokens: 1 }).is_empty());
    assert!(s.on_event(SessionEvent::Message("x".to_string())).is_empty());

    let end = s.on_event(SessionEvent::Idle);
    assert_eq!(end.len(), 3);
    assert_eq!(chunk(&end[0]).choices[0].finish_reason.as_deref(), Some("tool_calls"));
    let u = chunk(&end[1]);
    assert!(u.choices.is_empty());
    let usage = u.usage.unwrap();
    assert_eq!((usage.prompt_tokens, usage.completion_tokens, usage.total_tokens), (8, 3, 11));
    assert!(matches!(end[2], SseItem::Done));
    assert!(s.finished);
}

#[test]
fn stream_without_usage_request_has_no_usage_chunk() {
    let plan = stream_chat(&request("m", true, vec![user("hi")])).ok().unwrap();
    let mut s = plan.stream;
    s.on_event(SessionEvent::Usage { input_tokens: 1, output_tokens: 1 });
    let end = s.on_event(SessionEvent::Closed);
    assert_eq!(end.len(), 2);
    assert_eq!(chunk(&end[0]).choices[0].finish_reason.as_deref(), Some("stop"));
    assert!(matches!(end[1], SseItem::Done));
}

#[test]
fn stream_asking_usage_without_any_reported_sends_zero_usage() {
    let mut req = request("m", true, vec![user("hi")]);
    req.stream_options = Some(StreamOptions { include_usage: true });
    let mut s = stream_chat(&req).ok().unwrap().stream;
    let end = s.on_event(SessionEvent::Idle);
    assert_eq!(end.len(), 3);
    let u = chunk(&end[1]);
    assert!(u.choices.is_empty());
    let usage = u.usage.unwrap();
    assert_eq!((usage.prompt_tokens, usage.completion_tokens, usage.total_tokens), (0, 0, 0));
    assert!(matches!(end[2], SseItem::Done));
}

#[test]
fn stream_session_error_ends_with_error_and_done() {
    let mut s = stream_chat(&request("m", true, vec![user("hi")])).ok().unwrap().stream;
    let items = s.on_event(SessionEvent::Error("rate limited".to_string()));
    assert_eq!(items.len(), 2);
    match &items[0] {
        SseItem::Error(e) => {
            assert_eq!(e.error.message, "rate limited");
            assert_eq!(e.error.error_type, "upstream_error");
            assert_eq!(e.model, "m");
            assert_eq!(e.object, "chat.completion.chunk");
        }
        _ => panic!("expected an error"),
    }
    assert!(matches!(items[1], SseItem::Done));
    assert!(s.finished);
}

#[test]
fn stream_that_cannot_open_a_session_reports_the_stage() {
    let mut s = stream_chat(&request("m", true, vec![user("hi")])).ok().unwrap().stream;
    let items = s.fail(SessionStage::CreateSession, "no cli");
    match &items[0] {
        SseItem::Error(e) => assert_eq!(e.error.message, "create_session: no cli"),
        _ => panic!("expected an error"),
    }
    assert!(matches!(items[1], SseItem::Done));
}

#[test]
fn response_ids_are_built_from_the_random_bytes() {
    assert_eq!(response_id([0u8; 16]), "chatcmpl-00000000-0000-4000-8000-000000000000");
    let bytes: [u8; 16] = [0, 1, 2, 3, 4, 5, 6, 7, 8, 9, 10, 11, 12, 13, 14, 15];
    assert_eq!(response_id(bytes), "chatcmpl-00010203-0405-4607-8809-0a0b0c0d0e0f");
    assert_eq!(response_id([0xff; 16]), "chatcmpl-ffffffff-ffff-4fff-bfff-ffffffffffff");
}

#[test]
fn plans_carry_the_given_id_and_time() {
    let req = request("gpt-4o", true, vec![user("hi")]);
    let p = stream_plan(&req, "chatcmpl-x".to_string(), 1234);
    assert_eq!(p.stream.id, "chatcmpl-x");
    assert_eq!(p.stream.created, 1234);
    assert_eq!(p.first.id, "chatcmpl-x");
    assert_eq!(p.first.created, 1234);
    assert_eq!(p.prompt, "hi");
    let b = blocking_plan(&req, "chatcmpl-y".to_string(), 99);
    assert_eq!(b.chat.id, "chatcmpl-y");
    assert_eq!(b.chat.created, 99);
    assert!(!b.session.streaming);
}

#[test]
fn dispatch_follows_the_request() {
    let mut c = Config::default();
    c.default_model = "gpt-4o".to_string();
    match dispatch_chat(&c, request("", true, vec![user("hi")]), Some("chatcmpl-z".to_string()), 7) {
        Ok(ChatDispatch::Stream(p)) => {
            assert_eq!(p.stream.id, "chatcmpl-z");
            assert_eq!(p.stream.created, 7);
            assert_eq!(p.stream.model, "gpt-4o");
        }
        _ => panic!("expected a streamed answer"),
    }
    match dispatch_chat(&c, request("m", false, vec![user("hi")]), None, 7) {
        Err(AppError::Internal(m)) => {
            assert_eq!(m, "could not retrieve random bytes for the response id")
        }
        _ => panic!("expected an internal error"),
    }
    match dispatch_chat(&c, request("m", false, vec![]), None, 7) {
        Err(AppError::BadRequest(m)) => assert_eq!(m, "messages must not be empty"),
        _ => panic!("expected a bad request"),
    }
}
