use agent::util::TuiState;
use agent::{AgentOutputPart, AngentOutput, Message, ToolCall};

#[test]
fn headings_mark_turns_between_reasoning_and_answer() {
    let mut t = TuiState::new();
    assert_eq!(t.render(&AgentOutputPart::Content("a".to_string())), "a");
    assert_eq!(t.render(&AgentOutputPart::Reasoning("r".to_string())), "\n -> reasoning 🤔\nr");
    assert_eq!(t.render(&AgentOutputPart::Reasoning("s".to_string())), "s");
    assert_eq!(t.render(&AgentOutputPart::Content("b".to_string())), "\n -> answer 🤓\nb");
    let call = ToolCall { id: "1".to_string(), name: "shell".to_string(), arguments: String::new() };
    assert_eq!(t.render(&AgentOutputPart::Tool(vec![call])), "\ntool call -> shell\n");
    assert!(!t.is_reasoning);
}

#[test]
fn last_assistant_message_needs_content_and_reasoning() {
    let out = AngentOutput { contents: vec![Message::assistant("a".to_string())] };
    assert_eq!(out.get_last_assistant_message(), None);
    assert!(out.assistant_content().is_err());
    let out = AngentOutput {
        contents: vec![Message::assistant_with_details(Some("c".to_string()), Some("r".to_string()), None)],
    };
    assert_eq!(out.get_last_assistant_message(), Some(("c".to_string(), "r".to_string())));
    assert_eq!(out.assistant_content().unwrap(), "c");
    assert_eq!(AngentOutput { contents: vec![] }.get_last_assistant_message(), None);
}
