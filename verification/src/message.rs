//! The messages of a conversation with a model.

use vstd::prelude::*;

verus! {

/// The view of an optional text.
pub open spec fn opt_text(s: Option<String>) -> Option<Seq<char>> {
    match s {
        Some(t) => Some(t@),
        None => None,
    }
}

/// Clones an optional text.
pub fn clone_opt_string(s: &Option<String>) -> (r: Option<String>)
    ensures
        r == *s,
{
    match s {
        Some(t) => Some(t.clone()),
        None => None,
    }
}

/// What a user says.
#[derive(Debug, PartialEq)]
pub enum UserMessageContent {
    Text { content: String },
}

impl View for UserMessageContent {
    type V = Seq<char>;

    open spec fn view(&self) -> Seq<char> {
        match self {
            UserMessageContent::Text { content } => content@,
        }
    }
}

impl UserMessageContent {
    /// A user message made of text.
    pub fn text(content: String) -> (r: Self)
        ensures
            r == (UserMessageContent::Text { content }),
    {
        UserMessageContent::Text { content }
    }
}

impl Clone for UserMessageContent {
    fn clone(&self) -> (r: Self)
        ensures
            r == *self,
    {
        match self {
            UserMessageContent::Text { content } => UserMessageContent::Text { content: content.clone() },
        }
    }
}

/// A call of a tool that the model asks for.
#[derive(Debug, PartialEq)]
pub struct ToolCall {
    pub id: String,
    pub name: String,
    pub arguments: String,
}

/// A tool call as a value.
pub struct ToolCallView {
    pub id: Seq<char>,
    pub name: Seq<char>,
    pub arguments: Seq<char>,
}

impl View for ToolCall {
    type V = ToolCallView;

    open spec fn view(&self) -> ToolCallView {
        ToolCallView { id: self.id@, name: self.name@, arguments: self.arguments@ }
    }
}

/// The views of a sequence of tool calls.
pub open spec fn calls_view(s: Seq<ToolCall>) -> Seq<ToolCallView> {
    s.map_values(|c: ToolCall| c@)
}

impl ToolCall {
    /// A call with the given id and tool name, and no arguments yet.
    pub fn new(id: String, name: String) -> (r: Self)
        ensures
            r@ == (ToolCallView { id: id@, name: name@, arguments: Seq::empty() }),
    {
        ToolCall { id, name, arguments: String::new() }
    }
}

impl Clone for ToolCall {
    fn clone(&self) -> (r: Self)
        ensures
            r == *self,
    {
        ToolCall { id: self.id.clone(), name: self.name.clone(), arguments: self.arguments.clone() }
    }
}

/// Clones a vector of tool calls.
pub fn clone_tool_calls(calls: &Vec<ToolCall>) -> (r: Vec<ToolCall>)
    ensures
        r@ == calls@,
{
    let mut out: Vec<ToolCall> = Vec::new();
    let mut i: usize = 0;
    while i < calls.len()
        invariant
            i <= calls.len(),
            out@ == calls@.subrange(0, i as int),
        decreases calls.len() - i,
    {
        out.push(calls[i].clone());
        i = i + 1;
        assert(out@ =~= calls@.subrange(0, i as int));
    }
    assert(calls@.subrange(0, calls@.len() as int) =~= calls@);
    out
}

/// One message of a conversation.
#[derive(Debug, PartialEq)]
pub enum Message {
    User { content: UserMessageContent },
    System { content: String },
    Assistant { content: Option<String>, reasoning: Option<String>, tool_calls: Option<Vec<ToolCall>> },
    Tool { tool_call_id: String, content: String },
}

/// A message as a value.
pub enum MessageView {
    User { text: Seq<char> },
    System { content: Seq<char> },
    Assistant {
        content: Option<Seq<char>>,
        reasoning: Option<Seq<char>>,
        tool_calls: Option<Seq<ToolCallView>>,
    },
    Tool { tool_call_id: Seq<char>, content: Seq<char> },
}

impl View for Message {
    type V = MessageView;

    open spec fn view(&self) -> MessageView {
        match self {
            Message::User { content } => MessageView::User { text: content@ },
            Message::System { content } => MessageView::System { content: content@ },
            Message::Assistant { content, reasoning, tool_calls } => MessageView::Assistant {
                content: opt_text(*content),
                reasoning: opt_text(*reasoning),
                tool_calls: match tool_calls {
                    Some(calls) => Some(calls_view(calls@)),
                    None => None,
                },
            },
            Message::Tool { tool_call_id, content } => MessageView::Tool {
                tool_call_id: tool_call_id@,
                content: content@,
            },
        }
    }
}

/// The views of a sequence of messages.
pub open spec fn messages_view(s: Seq<Message>) -> Seq<MessageView> {
    s.map_values(|m: Message| m@)
}

impl Clone for Message {
    fn clone(&self) -> (r: Self)
        ensures
            r@ == self@,
    {
        match self {
            Message::User { content } => Message::User { content: content.clone() },
            Message::System { content } => Message::System { content: content.clone() },
            Message::Assistant { content, reasoning, tool_calls } => Message::Assistant {
                content: clone_opt_string(content),
                reasoning: clone_opt_string(reasoning),
                tool_calls: match tool_calls {
                    Some(calls) => Some(clone_tool_calls(calls)),
                    None => None,
                },
            },
            Message::Tool { tool_call_id, content } => Message::Tool {
                tool_call_id: tool_call_id.clone(),
                content: content.clone(),
            },
        }
    }
}

/// Clones a vector of messages.
pub fn clone_messages(messages: &Vec<Message>) -> (r: Vec<Message>)
    ensures
        messages_view(r@) == messages_view(messages@),
{
    let mut out: Vec<Message> = Vec::new();
    let mut i: usize = 0;
    while i < messages.len()
        invariant
            i <= messages.len(),
            out@.len() == i,
            forall|j: int| #![trigger out@[j]] 0 <= j < i ==> out@[j]@ == messages@[j]@,
        decreases messages.len() - i,
    {
        let m = messages[i].clone();
        out.push(m);
        i = i + 1;
    }
    assert(messages_view(out@) =~= messages_view(messages@));
    out
}

impl Message {
    /// A user message.
    pub fn user(content: UserMessageContent) -> (r: Self)
        ensures
            r == (Message::User { content }),
    {
        Message::User { content }
    }

    /// A user message made of text.
    pub fn user_text(content: String) -> (r: Self)
        ensures
            r@ == (MessageView::User { text: content@ }),
    {
        Self::user(UserMessageContent::text(content))
    }

    /// A system message.
    pub fn system(content: String) -> (r: Self)
        ensures
            r@ == (MessageView::System { content: content@ }),
    {
        Message::System { content }
    }

    /// An assistant message with content only: no reasoning, no tool calls.
    pub fn assistant(content: String) -> (r: Self)
        ensures
            r@ == (MessageView::Assistant { content: Some(content@), reasoning: None, tool_calls: None }),
    {
        Message::Assistant { content: Some(content), reasoning: None, tool_calls: None }
    }

    /// An assistant message with each part given.
    pub fn assistant_with_details(
        content: Option<String>,
        reasoning: Option<String>,
        tool_calls: Option<Vec<ToolCall>>,
    ) -> (r: Self)
        ensures
            r == (Message::Assistant { content, reasoning, tool_calls }),
    {
        Message::Assistant { content, reasoning, tool_calls }
    }

    /// The answer of a tool to the call with the given id.
    pub fn tool(tool_call_id: String, content: String) -> (r: Self)
        ensures
            r@ == (MessageView::Tool { tool_call_id: tool_call_id@, content: content@ }),
    {
        Message::Tool { tool_call_id, content }
    }
}

} // verus!
