//! Tools that a model may call, and the request sent to a model.

use vstd::prelude::*;
use crate::error::Error;
use crate::json::{Json, JsonView};
use crate::message::{Message, MessageView, UserMessageContent, clone_messages, messages_view, opt_text};

verus! {

/// A tool that the model may call.
#[derive(Debug, PartialEq)]
pub enum Tool {
    Function {
        name: String,
        description: Option<String>,
        parameters: Option<Json>,
        strict: Option<bool>,
    },
}

/// A tool as a value.
pub enum ToolView {
    Function {
        name: Seq<char>,
        description: Option<Seq<char>>,
        parameters: Option<JsonView>,
        strict: Option<bool>,
    },
}

/// The view of an optional JSON value.
pub open spec fn opt_json_view(j: Option<Json>) -> Option<JsonView> {
    match j {
        Some(v) => Some(v@),
        None => None,
    }
}

/// Clones an optional JSON value.
pub fn clone_opt_json(j: &Option<Json>) -> (r: Option<Json>)
    ensures
        opt_json_view(r) == opt_json_view(*j),
{
    match j {
        Some(v) => Some(v.clone()),
        None => None,
    }
}

impl View for Tool {
    type V = ToolView;

    open spec fn view(&self) -> ToolView {
        match self {
            Tool::Function { name, description, parameters, strict } => ToolView::Function {
                name: name@,
                description: opt_text(*description),
                parameters: opt_json_view(*parameters),
                strict: *strict,
            },
        }
    }
}

impl ToolView {
    pub open spec fn name(self) -> Seq<char> {
        match self {
            ToolView::Function { name, .. } => name,
        }
    }
}

/// The views of a sequence of tools.
pub open spec fn tools_view(s: Seq<Tool>) -> Seq<ToolView> {
    s.map_values(|t: Tool| t@)
}

impl Clone for Tool {
    fn clone(&self) -> (r: Self)
        ensures
            r@ == self@,
    {
        match self {
            Tool::Function { name, description, parameters, strict } => Tool::Function {
                name: name.clone(),
                description: crate::message::clone_opt_string(description),
                parameters: clone_opt_json(parameters),
                strict: *strict,
            },
        }
    }
}

impl Tool {
    /// A function tool.
    pub fn new(
        name: String,
        description: Option<String>,
        parameters: Option<Json>,
        strict: Option<bool>,
    ) -> (r: Self)
        ensures
            r == (Tool::Function { name, description, parameters, strict }),
    {
        Tool::Function { name, description, parameters, strict }
    }

    /// The name of the tool.
    pub fn name(&self) -> (r: &str)
        ensures
            r@ == self@.name(),
    {
        match self {
            Tool::Function { name, .. } => name.as_str(),
        }
    }
}

/// Clones a vector of tools.
pub fn clone_tools(tools: &Vec<Tool>) -> (r: Vec<Tool>)
    ensures
        tools_view(r@) == tools_view(tools@),
{
    let mut out: Vec<Tool> = Vec::new();
    let mut i: usize = 0;
    while i < tools.len()
        invariant
            i <= tools.len(),
            out@.len() == i,
            forall|j: int| #![trigger out@[j]] 0 <= j < i ==> out@[j]@ == tools@[j]@,
        decreases tools.len() - i,
    {
        let t = tools[i].clone();
        out.push(t);
        i = i + 1;
    }
    assert(tools_view(out@) =~= tools_view(tools@));
    out
}

/// The model that a request names unless it is told another.
pub open spec fn default_model() -> Seq<char> {
    "deepseek-v4-flash"@
}

/// A request to a model: the conversation so far, the tools it may call, extra
/// members of the request body, and the model's name.
#[derive(Debug)]
pub struct Request {
    tools: Vec<Tool>,
    messages: Vec<Message>,
    extra: Option<Json>,
    modle: String,
}

/// A request as a value.
pub struct RequestView {
    pub tools: Seq<ToolView>,
    pub messages: Seq<MessageView>,
    pub extra: Option<JsonView>,
    pub model: Seq<char>,
}

impl View for Request {
    type V = RequestView;

    closed spec fn view(&self) -> RequestView {
        RequestView {
            tools: tools_view(self.tools@),
            messages: messages_view(self.messages@),
            extra: opt_json_view(self.extra),
            model: self.modle@,
        }
    }
}

impl Clone for Request {
    fn clone(&self) -> (r: Self)
        ensures
            r@ == self@,
    {
        Request {
            tools: clone_tools(&self.tools),
            messages: clone_messages(&self.messages),
            extra: clone_opt_json(&self.extra),
            modle: self.modle.clone(),
        }
    }
}

impl Request {
    /// The last message of the conversation.
    pub fn get_last_message(&self) -> (r: Option<Message>)
        ensures
            match r {
                Some(m) => self@.messages.len() > 0 && m@ == self@.messages.last(),
                None => self@.messages.len() == 0,
            },
    {
        let n = self.messages.len();
        if n == 0 {
            None
        } else {
            Some(self.messages[n - 1].clone())
        }
    }

    /// What the user said last, where the conversation ends with a user message.
    pub fn get_last_user_message(&self) -> (r: Result<UserMessageContent, Error>)
        ensures
            match r {
                Ok(content) => self@.messages.len() > 0 && self@.messages.last() == (MessageView::User { text: content@ }),
                Err(e) => e is MissingUserContent && !(self@.messages.len() > 0 && self@.messages.last() is User),
            },
    {
        match self.get_last_message() {
            Some(Message::User { content }) => Ok(content),
            _ => Err(Error::MissingUserContent),
        }
    }

    /// The messages of the conversation, to be changed in place.
    pub fn messages_mut(&mut self) -> (r: &mut Vec<Message>)
        ensures
            messages_view(r@) == old(self)@.messages,
            final(self)@ == (RequestView { messages: messages_view(final(r)@), ..old(self)@ }),
    {
        &mut self.messages
    }

    /// The messages of the conversation.
    pub fn messages(&self) -> (r: &Vec<Message>)
        ensures
            messages_view(r@) == self@.messages,
    {
        &self.messages
    }

    /// The tools that the model may call.
    pub fn tools(&self) -> (r: &Vec<Tool>)
        ensures
            tools_view(r@) == self@.tools,
    {
        &self.tools
    }

    /// The extra members of the request body.
    pub fn extra(&self) -> (r: &Option<Json>)
        ensures
            opt_json_view(*r) == self@.extra,
    {
        &self.extra
    }

    /// The extra members of the request body, to be changed in place.
    pub fn extra_mut(&mut self) -> (r: &mut Option<Json>)
        ensures
            opt_json_view(*r) == old(self)@.extra,
            final(self)@ == (RequestView { extra: opt_json_view(*final(r)), ..old(self)@ }),
    {
        &mut self.extra
    }

    /// The name of the model.
    pub fn model(&self) -> (r: &String)
        ensures
            r@ == self@.model,
    {
        &self.modle
    }
}

/// The error of a request builder. The builder gives every field a default, so it
/// never fails; the type stays for callers that handle it.
#[derive(Debug)]
pub enum RequestBuilderError {
    UninitializedField(&'static str),
    ValidationError(String),
}

/// Builds a [`Request`]: fields that are not set get their defaults (no tools, no
/// messages, no extra body, the model `deepseek-v4-flash`).
#[derive(Debug)]
pub struct RequestBuilder {
    tools: Vec<Tool>,
    messages: Vec<Message>,
    extra: Option<Json>,
    modle: Option<String>,
}

/// A request builder as a value.
pub struct RequestBuilderView {
    pub tools: Seq<ToolView>,
    pub messages: Seq<MessageView>,
    pub extra: Option<JsonView>,
    pub model: Option<Seq<char>>,
}

impl View for RequestBuilder {
    type V = RequestBuilderView;

    closed spec fn view(&self) -> RequestBuilderView {
        RequestBuilderView {
            tools: tools_view(self.tools@),
            messages: messages_view(self.messages@),
            extra: opt_json_view(self.extra),
            model: match self.modle {
                Some(m) => Some(m@),
                None => None,
            },
        }
    }
}

impl Default for RequestBuilder {
    fn default() -> (r: Self)
        ensures
            r@ == (RequestBuilderView { tools: Seq::empty(), messages: Seq::empty(), extra: None, model: None }),
    {
        let r = RequestBuilder { tools: Vec::new(), messages: Vec::new(), extra: None, modle: None };
        assert(r@.tools =~= Seq::empty());
        assert(r@.messages =~= Seq::empty());
        r
    }
}

impl RequestBuilder {
    /// The tools that the model may call.
    pub fn tools(self, tools: Vec<Tool>) -> (r: Self)
        ensures
            r@ == (RequestBuilderView { tools: tools_view(tools@), ..self@ }),
    {
        RequestBuilder { tools, ..self }
    }

    /// The messages of the conversation.
    pub fn messages(self, messages: Vec<Message>) -> (r: Self)
        ensures
            r@ == (RequestBuilderView { messages: messages_view(messages@), ..self@ }),
    {
        RequestBuilder { messages, ..self }
    }

    /// Extra members of the request body.
    pub fn extra(self, extra: Json) -> (r: Self)
        ensures
            r@ == (RequestBuilderView { extra: Some(extra@), ..self@ }),
    {
        RequestBuilder { extra: Some(extra), ..self }
    }

    /// The name of the model.
    pub fn modle(self, modle: String) -> (r: Self)
        ensures
            r@ == (RequestBuilderView { model: Some(modle@), ..self@ }),
    {
        RequestBuilder { modle: Some(modle), ..self }
    }

    /// The request, with defaults for what was not set.
    pub fn build(self) -> (r: Result<Request, RequestBuilderError>)
        ensures
            r matches Ok(req) && req@ == (RequestView {
                tools: self@.tools,
                messages: self@.messages,
                extra: self@.extra,
                model: match self@.model {
                    Some(m) => m,
                    None => default_model(),
                },
            }),
    {
        let modle = match self.modle {
            Some(m) => m,
            None => String::from_str("deepseek-v4-flash"),
        };
        proof {
            reveal_strlit("deepseek-v4-flash");
        }
        Ok(Request { tools: self.tools, messages: self.messages, extra: self.extra, modle })
    }
}

} // verus!
