//! A small framework for LLM agents: messages, requests, tools and tool calls, the
//! decisions of a streaming chat provider, agents that wrap a provider, and
//! multi-step workflows.
//!
//! The waiting (on the model, on the user, on a command) happens at the edge of a
//! program; what is sent, what is decided and what is answered is here.

pub mod agent;
pub mod error;
pub mod json;
pub mod message;
pub mod output;
mod outside;
pub mod provider;
pub mod request;
pub mod step;
pub mod text;
pub mod tool;
pub mod util;

pub use error::{Error, Result};
pub use json::{Json, JsonNumber};
pub use message::{Message, ToolCall, UserMessageContent};
pub use output::{AgentOutputPart, AngentOutput};
pub use provider::{Client, OpenAI};
pub use request::{Request, RequestBuilder, RequestBuilderError, Tool};
pub use tool::{NoopToolExecutor, ToolFn, ToolOutput, ToolRegistry};
