use planbot::chat::{chat_conversation, chat_envelope, show, Envelope};
use planbot::gateway::GatewayError;
use planbot::message::{Message, Role, ToolCall};

#[test]
fn the_chat_sends_roles_and_contents_only() {
    let call = ToolCall { name: "search_web".to_string(), arguments: "{}".to_string() };
    let conversation = vec![
        Message::text(Role::User, "hi".to_string()),
        Message::tool_request(call),
        Message::tool_result("search_web".to_string(), "r".to_string()),
    ];
    assert_eq!(
        chat_conversation(&conversation),
        vec![
            Message::text(Role::User, "hi".to_string()),
            Message { role: Role::Assistant, content: None, name: None, tool_call: None },
            Message::text(Role::Function, "r".to_string()),
        ]
    );
    assert_eq!(chat_conversation(&vec![]), vec![]);
}

#[test]
fn envelopes() {
    assert_eq!(chat_envelope(Ok("hello".to_string())), Envelope::Content("hello".to_string()));
    assert_eq!(
        chat_envelope(Err(GatewayError::Provider("502 Bad Gateway".to_string()))),
        Envelope::Error("Error calling DeepSeek API: DeepSeek API error: 502 Bad Gateway".to_string())
    );
    assert_eq!(
        chat_envelope(Err(GatewayError::Transport("timed out".to_string()))),
        Envelope::Error("Error calling DeepSeek API: timed out".to_string())
    );
}

#[test]
fn envelopes_are_shown() {
    assert_eq!(show(&Envelope::Content("hello".to_string())), "hello");
    assert_eq!(show(&Envelope::Error("no".to_string())), "Error: no");
}
