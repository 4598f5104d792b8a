//! The outside types that the library carries through its logic.

use serde_json::Error as JsonSyntaxError;
use vstd::prelude::*;

verus! {

/// The error that the OpenAI client reports for a failed API call or stream.
#[verifier::external_type_specification]
#[verifier::external_body]
pub struct ExOpenAIError(async_openai::error::OpenAIError);

/// The error that serde_json reports for text that is not the JSON expected.
#[verifier::external_type_specification]
#[verifier::external_body]
pub struct ExJsonError(JsonSyntaxError);

/// The error of a failed read or write on a stream of bytes.
#[verifier::external_type_specification]
#[verifier::external_body]
pub struct ExIoError(std::io::Error);

} // verus!
