//! The `get_weather` tool, a sample: whatever the place, the weather is fine.

use vstd::prelude::*;
use crate::json::{JsonView, one_parameter_schema, one_parameter_schema_view, string_property, string_property_view};
use crate::message::ToolCall;
use crate::request::{Tool, ToolView};
use crate::tool::ToolOutput;

verus! {

/// The parameters of `get_weather`: a required `location`.
pub open spec fn weather_parameters() -> JsonView {
    one_parameter_schema_view("location"@, string_property_view("The city and state, e.g. San Francisco, CA"@))
}

/// The definition of the `get_weather` tool.
pub fn weather_definition() -> (r: Tool)
    ensures
        r@ == (ToolView::Function {
            name: "get_weather"@,
            description: Some("get the weather info "@),
            parameters: Some(weather_parameters()),
            strict: None,
        }),
{
    Tool::new(
        String::from_str("get_weather"),
        Some(String::from_str("get the weather info ")),
        Some(one_parameter_schema("location", string_property("The city and state, e.g. San Francisco, CA"))),
        None,
    )
}

/// What the sample weather service reports.
pub open spec fn weather_report() -> Seq<char> {
    "天气超级棒！ 温度12°C 湿度30%"@
}

/// The answer to a call of `get_weather`.
pub fn weather_output(call: ToolCall) -> (r: ToolOutput)
    ensures
        r.tool_call_id == call.id,
        r.content@ == weather_report(),
{
    ToolOutput::new(call.id, String::from_str("天气超级棒！ 温度12°C 湿度30%"))
}

} // verus!
