use agent::provider::run::{ChoiceDelta, FinishReason, NextStep, ProviderRun, ToolCallChunk};
use agent::{AgentOutputPart, Client, Error, Message, NoopToolExecutor, OpenAI, RequestBuilder, Tool, ToolCall, ToolOutput};

fn text(reasoning: Option<&str>, content: Option<&str>, finish: Option<FinishReason>) -> Vec<ChoiceDelta> {
    vec![ChoiceDelta {
        reasoning: reasoning.map(str::to_string),
        content: content.map(str::to_string),
        tool_calls: None,
        finish_reason: finish,
    }]
}

fn chunk(id: Option<&str>, name: Option<&str>, arguments: Option<&str>) -> ToolCallChunk {
    ToolCallChunk { id: id.map(str::to_string), name: name.map(str::to_string), arguments: arguments.map(str::to_string) }
}

fn tools(chunks: Vec<ToolCallChunk>, finish: Option<FinishReason>) -> Vec<ChoiceDelta> {
    vec![ChoiceDelta { reasoning: None, content: None, tool_calls: Some(chunks), finish_reason: finish }]
}

fn run() -> ProviderRun {
    let req = RequestBuilder::default().messages(vec![Message::user_text("hi".to_string())]).build().unwrap();
    ProviderRun::new(req, vec![])
}

#[test]
fn streamed_text_is_the_answer() {
    let mut r = run();
    let a = r.on_chunk(text(Some("let me "), None, None));
    assert_eq!(a.parts, vec![AgentOutputPart::Reasoning("let me ".to_string())]);
    assert!(matches!(a.next, Ok(NextStep::Continue)));
    let b = r.on_chunk(text(Some("think"), Some("Hel"), None));
    assert_eq!(
        b.parts,
        vec![AgentOutputPart::Reasoning("think".to_string()), AgentOutputPart::Content("Hel".to_string())]
    );
    let c = r.on_chunk(text(None, Some("lo"), Some(FinishReason::Stop)));
    assert_eq!(c.parts, vec![AgentOutputPart::Content("lo".to_string())]);
    match c.next {
        Ok(NextStep::Finished(out)) => {
            assert_eq!(out.contents.len(), 1);
            assert_eq!(out.get_last_assistant_message(), Some(("Hello".to_string(), "let me think".to_string())));
        },
        other => panic!("unexpected {other:?}"),
    }
}

#[test]
fn other_finish_reasons_continue() {
    let mut r = run();
    let a = r.on_chunk(text(None, Some("x"), Some(FinishReason::Length)));
    assert!(matches!(a.next, Ok(NextStep::Continue)));
    let out = r.on_end();
    assert!(out.contents.is_empty());
}

#[test]
fn empty_choices_fail() {
    let mut r = run();
    let a = r.on_chunk(vec![]);
    assert!(a.parts.is_empty());
    assert!(matches!(a.next, Err(Error::EmptyChoices)));
}

#[test]
fn tool_calls_round_trip() {
    let mut r = run();
    let a = r.on_chunk(tools(vec![chunk(Some("c1"), Some("get_weather"), Some("ignored"))], None));
    assert!(matches!(a.next, Ok(NextStep::Continue)));
    let b = r.on_chunk(tools(vec![chunk(None, None, Some("{\"location\":"))], None));
    assert!(matches!(b.next, Ok(NextStep::Continue)));
    let c = r.on_chunk(tools(vec![chunk(None, None, Some("\"Paris\"}"))], Some(FinishReason::ToolCalls)));
    let expected = ToolCall {
        id: "c1".to_string(),
        name: "get_weather".to_string(),
        arguments: "{\"location\":\"Paris\"}".to_string(),
    };
    assert_eq!(c.parts, vec![AgentOutputPart::Tool(vec![expected.clone()])]);
    match c.next {
        Ok(NextStep::CallTools(calls)) => assert_eq!(calls, vec![expected.clone()]),
        other => panic!("unexpected {other:?}"),
    }
    r.on_tool_results(vec![ToolOutput::new("c1".to_string(), "sunny".to_string())]);
    assert_eq!(
        r.conversation(),
        vec![
            Message::user_text("hi".to_string()),
            Message::Assistant { content: None, reasoning: None, tool_calls: Some(vec![expected]) },
            Message::tool("c1".to_string(), "sunny".to_string()),
        ]
    );
    let d = r.on_chunk(text(None, Some("It is sunny."), Some(FinishReason::Stop)));
    match d.next {
        Ok(NextStep::Finished(out)) => {
            assert_eq!(out.contents.len(), 3);
            assert_eq!(out.get_last_assistant_message(), Some(("It is sunny.".to_string(), String::new())));
        },
        other => panic!("unexpected {other:?}"),
    }
}

#[test]
fn tool_call_without_id_or_name_fails() {
    let mut r = run();
    let a = r.on_chunk(tools(vec![chunk(Some("c1"), Some("f"), None), chunk(None, Some("g"), None)], None));
    assert!(matches!(a.next, Err(Error::MissingToolCallField { index: 1, field: "id" })));
    let mut r = run();
    let b = r.on_chunk(tools(vec![chunk(Some("c1"), None, None)], None));
    assert!(matches!(b.next, Err(Error::MissingToolCallField { index: 0, field: "function.name" })));
}

#[test]
fn arguments_for_an_unopened_call_fail() {
    let mut r = run();
    r.on_chunk(tools(vec![chunk(Some("c1"), Some("f"), None)], None));
    let a = r.on_chunk(tools(vec![chunk(None, None, Some("{")), chunk(None, None, None), chunk(None, None, Some("x"))], None));
    assert!(matches!(a.next, Err(Error::ToolCallDeltaOutOfBounds { index: 2 })));
}

#[test]
fn text_is_streamed_before_a_tool_error() {
    let mut r = run();
    let mut choice = tools(vec![chunk(None, None, None)], None);
    choice[0].content = Some("so".to_string());
    let a = r.on_chunk(choice);
    assert_eq!(a.parts, vec![AgentOutputPart::Content("so".to_string())]);
    assert!(matches!(a.next, Err(Error::MissingToolCallField { index: 0, field: "id" })));
}

#[test]
fn request_and_executor_tools_are_offered() {
    let t1 = Tool::new("a".to_string(), None, None, None);
    let t2 = Tool::new("b".to_string(), None, None, None);
    let req = RequestBuilder::default().tools(vec![t1.clone()]).build().unwrap();
    let r = ProviderRun::new(req, vec![t2.clone()]);
    assert_eq!(r.tools(), &vec![t1, t2]);
    assert!(r.request().messages().is_empty());
}

#[test]
fn client_with_tx_opens_a_channel() {
    let (client, mut rx) = Client::new().with_tx();
    let tx = client.inner().output_part_tx().clone().expect("a sender");
    tx.try_send(AgentOutputPart::Content("x".to_string())).unwrap();
    assert_eq!(rx.try_recv().unwrap(), AgentOutputPart::Content("x".to_string()));
    assert!(Client::new().inner().output_part_tx().is_none());
    assert!(OpenAI::new().inner().output_part_tx().is_none());
}

#[test]
fn client_with_tool_executor_keeps_the_sink() {
    let (client, _rx) = Client::new().with_tx();
    let client = client.with_tool_executor(7u32);
    assert_eq!(*client.inner().tool_executor(), 7u32);
    assert!(client.inner().output_part_tx().is_some());
    let _: &NoopToolExecutor = Client::default().inner().tool_executor();
}
