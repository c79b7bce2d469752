use copilot_api_server::prompt::{build_prompt, extract_text};
use copilot_api_server::types::{
    ChatMessage, ContentPart, FunctionCall, ImageUrl, MessageContent, ToolCall,
};

fn msg(role: &str, text: &str) -> ChatMessage {
    ChatMessage {
        role: role.to_string(),
        content: MessageContent::Text(text.to_string()),
        name: None,
        tool_calls: None,
        tool_call_id: None,
    }
}

#[test]
fn empty_conversation_gives_empty_prompt() {
    assert_eq!(build_prompt(&[]), "");
}

#[test]
fn lone_user_message_is_the_prompt() {
    assert_eq!(build_prompt(&[msg("user", "hello")]), "hello");
}

#[test]
fn system_then_user() {
    let p = build_prompt(&[msg("system", "be brief"), msg("user", "hi")]);
    assert_eq!(p, "<previous_system>\nbe brief\n</previous_system>\n\n---\n\nhi");
}

#[test]
fn last_user_is_untagged_and_earlier_users_are_history() {
    let p = build_prompt(&[
        msg("user", "first"),
        msg("assistant", "answer"),
        msg("user", "second"),
    ]);
    assert_eq!(
        p,
        "<previous_user>\nfirst\n</previous_user>\n\n\
         <previous_assistant>\nanswer\n</previous_assistant>\n\n---\n\nsecond"
    );
}

#[test]
fn messages_after_the_last_user_stay_in_history_order() {
    let p = build_prompt(&[msg("user", "q"), msg("assistant", "a")]);
    assert_eq!(p, "<previous_assistant>\na\n</previous_assistant>\n\n---\n\nq");
}

#[test]
fn assistant_tool_calls_and_tool_results() {
    let mut a = msg("assistant", "");
    a.content = MessageContent::Null;
    a.tool_calls = Some(vec![ToolCall {
        id: "call_1".to_string(),
        call_type: "function".to_string(),
        function: FunctionCall { name: "lookup".to_string(), arguments: "{\"q\":1}".to_string() },
    }]);
    let mut t = msg("tool", "42");
    t.tool_call_id = Some("call_1".to_string());
    let p = build_prompt(&[msg("user", "ask"), a, t, msg("user", "thanks")]);
    assert_eq!(
        p,
        "<previous_user>\nask\n</previous_user>\n\n\
         <previous_assistant>\n<tool_call id=\"call_1\" name=\"lookup\">{\"q\":1}</tool_call>\n</previous_assistant>\n\n\
         <tool_result tool_call_id=\"call_1\">\n42\n</tool_result>\n\n---\n\nthanks"
    );
}

#[test]
fn tool_result_without_id_and_empty_assistant() {
    let mut a = msg("assistant", "");
    a.content = MessageContent::Null;
    let p = build_prompt(&[a, msg("tool", "out"), msg("user", "go")]);
    assert_eq!(
        p,
        "<previous_assistant>\n</previous_assistant>\n\n\
         <tool_result tool_call_id=\"\">\nout\n</tool_result>\n\n---\n\ngo"
    );
}

#[test]
fn unknown_roles_keep_their_name_and_empty_texts_are_dropped() {
    let p = build_prompt(&[
        msg("developer", "rules"),
        msg("system", ""),
        msg("critic", ""),
        msg("user", "go"),
    ]);
    assert_eq!(p, "<previous_developer>\nrules\n</previous_developer>\n\n---\n\ngo");
}

#[test]
fn user_without_history_has_no_separator() {
    let p = build_prompt(&[msg("system", ""), msg("user", "only")]);
    assert_eq!(p, "only");
}

#[test]
fn without_user_the_history_is_the_prompt() {
    let p = build_prompt(&[msg("system", "s"), msg("assistant", "a")]);
    assert_eq!(
        p,
        "<previous_system>\ns\n</previous_system>\n\n<previous_assistant>\na\n</previous_assistant>\n\n"
    );
}

#[test]
fn without_user_or_history_the_last_text_is_the_prompt() {
    assert_eq!(build_prompt(&[msg("system", "")]), "");
    assert_eq!(build_prompt(&[msg("critic", "")]), "");
}

#[test]
fn multi_part_content_degrades_images_to_hints() {
    let content = MessageContent::Parts(vec![
        ContentPart::Text { text: "look".to_string() },
        ContentPart::ImageUrl {
            image_url: ImageUrl { url: "http://x/y.png".to_string(), detail: None },
        },
        ContentPart::Other,
        ContentPart::Text { text: "end".to_string() },
    ]);
    assert_eq!(extract_text(&content), "look\n[image: http://x/y.png]\n\nend");
    let mut m = msg("user", "");
    m.content = content;
    assert_eq!(build_prompt(&[m]), "look\n[image: http://x/y.png]\n\nend");
    assert_eq!(extract_text(&MessageContent::Null), "");
    assert_eq!(extract_text(&MessageContent::Parts(vec![])), "");
    assert_eq!(extract_text(&MessageContent::Text("t".to_string())), "t");
}

#[test]
fn traceless_messages_leave_the_prompt_unchanged() {
    let base = vec![msg("system", "s"), msg("user", "q"), msg("assistant", "a")];
    let before = build_prompt(&base);
    for pos in 0..=base.len() {
        for x in [msg("system", ""), msg("critic", "")] {
            let mut with = vec![msg("system", "s"), msg("user", "q"), msg("assistant", "a")];
            with.insert(pos, x);
            assert_eq!(build_prompt(&with), before);
        }
    }
    assert_eq!(build_prompt(&[msg("system", "")]), build_prompt(&[]));
}
