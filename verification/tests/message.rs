use agent::{Message, ToolCall, UserMessageContent};

#[test]
fn user_text_is_a_user_message_of_text() {
    let m = Message::user_text("hello".to_string());
    assert_eq!(
        m,
        Message::User { content: UserMessageContent::Text { content: "hello".to_string() } }
    );
    assert_eq!(
        Message::user(UserMessageContent::text("hi".to_string())),
        Message::User { content: UserMessageContent::Text { content: "hi".to_string() } }
    );
}

#[test]
fn system_and_tool_messages_hold_their_text() {
    assert_eq!(
        Message::system("be brief".to_string()),
        Message::System { content: "be brief".to_string() }
    );
    assert_eq!(
        Message::tool("call-1".to_string(), "done".to_string()),
        Message::Tool { tool_call_id: "call-1".to_string(), content: "done".to_string() }
    );
}

#[test]
fn assistant_message_has_content_only() {
    assert_eq!(
        Message::assistant("answer".to_string()),
        Message::Assistant { content: Some("answer".to_string()), reasoning: None, tool_calls: None }
    );
    let call = ToolCall::new("id".to_string(), "f".to_string());
    assert_eq!(call.arguments, "");
    let m = Message::assistant_with_details(None, Some("why".to_string()), Some(vec![call.clone()]));
    assert_eq!(
        m,
        Message::Assistant { content: None, reasoning: Some("why".to_string()), tool_calls: Some(vec![call]) }
    );
}

#[test]
fn cloned_message_equals_original() {
    let m = Message::assistant_with_details(
        Some("c".to_string()),
        Some("r".to_string()),
        Some(vec![ToolCall { id: "1".to_string(), name: "n".to_string(), arguments: "{}".to_string() }]),
    );
    assert_eq!(m.clone(), m);
}
