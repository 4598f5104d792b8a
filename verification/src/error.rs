//! The errors that the library reports.

use serde_json::Error as JsonSyntaxError;
use vstd::prelude::*;

verus! {

/// Everything that can go wrong while an agent runs.
#[derive(Debug)]
pub enum Error {
    /// The OpenAI client failed.
    OpenAI(async_openai::error::OpenAIError),
    /// Nobody listens any more to the streamed output parts.
    OutputClosed,
    /// Writing the agent's output failed.
    OutputWrite { source: std::io::Error },
    /// A streamed chunk held no choice.
    EmptyChoices,
    /// The first chunk of a tool call lacked a field (`id` or `function.name`).
    MissingToolCallField { index: usize, field: &'static str },
    /// A later chunk spoke of a tool call that the first chunk did not open.
    ToolCallDeltaOutOfBounds { index: usize },
    /// No registered tool has this name.
    ToolNotFound { name: String },
    /// A tool ran and failed.
    ToolFailed { name: String, message: String },
    /// The arguments of a tool call are not valid JSON.
    InvalidToolArguments { name: String, source: JsonSyntaxError },
    /// The assistant's answer held no content.
    MissingAssistantContent,
    /// The request does not end with a user message.
    MissingUserContent,
    /// The request holds no message at all.
    MissingMessage,
    /// The assistant's answer is not the JSON expected.
    InvalidAssistantResponse { source: JsonSyntaxError },
    /// A request could not be built.
    RequestBuild { message: String },
    /// The request's extra body is not a JSON object.
    InvalidRequest,
}

/// The result type of the library.
pub type Result<T> = std::result::Result<T, Error>;

} // verus!
