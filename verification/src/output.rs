//! What an agent hands back: the parts it streams while it runs, and its output.

use vstd::prelude::*;
use crate::error::Error;
use crate::message::{Message, MessageView, ToolCall, ToolCallView, calls_view, messages_view};

verus! {

/// A piece of the model's answer, streamed as soon as it arrives.
#[derive(Debug, PartialEq)]
pub enum AgentOutputPart {
    Content(String),
    Reasoning(String),
    Tool(Vec<ToolCall>),
}

/// A streamed piece as a value.
pub enum AgentOutputPartView {
    Content(Seq<char>),
    Reasoning(Seq<char>),
    Tool(Seq<ToolCallView>),
}

impl View for AgentOutputPart {
    type V = AgentOutputPartView;

    open spec fn view(&self) -> AgentOutputPartView {
        match self {
            AgentOutputPart::Content(c) => AgentOutputPartView::Content(c@),
            AgentOutputPart::Reasoning(r) => AgentOutputPartView::Reasoning(r@),
            AgentOutputPart::Tool(calls) => AgentOutputPartView::Tool(calls_view(calls@)),
        }
    }
}

/// The views of a sequence of streamed pieces.
pub open spec fn parts_view(s: Seq<AgentOutputPart>) -> Seq<AgentOutputPartView> {
    s.map_values(|p: AgentOutputPart| p@)
}

/// The messages that an agent produced.
#[derive(Debug, PartialEq)]
pub struct AngentOutput {
    pub contents: Vec<Message>,
}

/// The content and reasoning of the last message, where it is an assistant message
/// that has both.
pub open spec fn last_assistant_message(contents: Seq<MessageView>) -> Option<(Seq<char>, Seq<char>)> {
    if contents.len() > 0 {
        match contents.last() {
            MessageView::Assistant { content: Some(c), reasoning: Some(r), .. } => Some((c, r)),
            _ => None,
        }
    } else {
        None
    }
}

impl AngentOutput {
    /// The messages as values.
    pub open spec fn messages(&self) -> Seq<MessageView> {
        messages_view(self.contents@)
    }

    /// `(content, reasoning)` of the last message, where it is an assistant message
    /// that has both.
    pub fn get_last_assistant_message(&self) -> (r: Option<(String, String)>)
        ensures
            match r {
                Some((c, reasoning)) => last_assistant_message(self.messages()) == Some((c@, reasoning@)),
                None => last_assistant_message(self.messages()) is None,
            },
    {
        let n = self.contents.len();
        if n == 0 {
            return None;
        }
        match &self.contents[n - 1] {
            Message::Assistant { content: Some(c), reasoning: Some(r), tool_calls: _ } => Some(
                (c.clone(), r.clone()),
            ),
            _ => None,
        }
    }
}

impl AngentOutput {
    /// The content of the last message, where it is an assistant message with content
    /// and reasoning; otherwise the error that the assistant gave no content.
    pub fn assistant_content(&self) -> (r: Result<String, Error>)
        ensures
            match r {
                Ok(c) => last_assistant_message(self.messages()) matches Some((t, _)) && t == c@,
                Err(e) => last_assistant_message(self.messages()) is None && e is MissingAssistantContent,
            },
    {
        match self.get_last_assistant_message() {
            Some((c, _)) => Ok(c),
            None => Err(Error::MissingAssistantContent),
        }
    }
}

} // verus!
