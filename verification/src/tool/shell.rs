//! The `shell` tool: the model has a shell command run and gets back its exit
//! status and output. Running the command happens at the edge of the program; what
//! is run and what is answered is decided here.

use vstd::prelude::*;
use serde_json::Error as JsonSyntaxError;
use crate::error::Error;
use crate::json::{Json, is_first_key, lemma_first_key_unique, JsonNumber, JsonView, one_parameter_schema, one_parameter_schema_view, string_property, string_property_view};
use crate::message::ToolCall;
use crate::request::{Tool, ToolView};
use crate::text::{from_utf8_lossy, utf8_lossy};

verus! {

/// What the `shell` tool says it does.
pub open spec fn shell_description() -> Seq<char> {
    "Execute a shell command and return stdout, stderr, and exit status."@
}

/// The parameters of `shell`: a required `command`.
pub open spec fn shell_parameters() -> JsonView {
    one_parameter_schema_view("command"@, string_property_view("The shell command to execute."@))
}

/// The definition of the `shell` tool.
pub fn shell_definition() -> (r: Tool)
    ensures
        r@ == (ToolView::Function {
            name: "shell"@,
            description: Some(shell_description()),
            parameters: Some(shell_parameters()),
            strict: None,
        }),
{
    Tool::new(
        String::from_str("shell"),
        Some(String::from_str("Execute a shell command and return stdout, stderr, and exit status.")),
        Some(one_parameter_schema("command", string_property("The shell command to execute."))),
        None,
    )
}

/// The command that a call of `shell` runs: the arguments must be JSON with a string
/// `command`.
pub fn shell_command(call: &ToolCall, arguments: Result<Json, JsonSyntaxError>) -> (r: Result<String, Error>)
    ensures
        match arguments {
            Err(source) => r matches Err(e) && (e matches Error::InvalidToolArguments { name, source: s }
                && name@ == call.name@ && s == source),
            Ok(args) => match args@.get("command"@) {
                Some(JsonView::Str(c)) => r matches Ok(command) && command@ == c,
                _ => r matches Err(e) && (e matches Error::ToolFailed { name, message } && name@ == call.name@
                    && message@ == "missing string argument `command`"@),
            },
        },
{
    let args = match arguments {
        Ok(a) => a,
        Err(source) => {
            return Err(Error::InvalidToolArguments { name: call.name.clone(), source });
        },
    };
    proof {
        reveal_strlit("command");
    }
    match args.get(&String::from_str("command")) {
        Some(j) => match j.as_str() {
            Some(c) => Ok(c.clone()),
            None => Err(Error::ToolFailed {
                name: call.name.clone(),
                message: String::from_str("missing string argument `command`"),
            }),
        },
        None => Err(Error::ToolFailed {
            name: call.name.clone(),
            message: String::from_str("missing string argument `command`"),
        }),
    }
}

/// The JSON number of an exit status.
pub open spec fn status_number(code: i32) -> JsonNumber {
    if code < 0 {
        JsonNumber::NegInt(code as i64)
    } else {
        JsonNumber::PosInt(code as u64)
    }
}

/// What the tool answers the model: whether the command succeeded, its exit code (or
/// null where a signal ended it), and its output and error output decoded as UTF-8.
pub open spec fn shell_result_view(success: bool, status: Option<i32>, stdout: Seq<u8>, stderr: Seq<u8>) -> JsonView {
    JsonView::Object(
        seq![
            ("success"@, JsonView::Bool(success)),
            ("status"@, match status {
                Some(code) => JsonView::Number(status_number(code)),
                None => JsonView::Null,
            }),
            ("stdout"@, JsonView::Str(utf8_lossy(stdout))),
            ("stderr"@, JsonView::Str(utf8_lossy(stderr))),
        ],
    )
}

/// The answer reports each fact under its own name: `success` is exactly the given
/// success flag, whatever the command wrote; `status` is the exit code as a JSON number
/// (or null where there is none); `stdout` and `stderr` are the two outputs decoded.
pub proof fn lemma_shell_result_members(success: bool, status: Option<i32>, stdout: Seq<u8>, stderr: Seq<u8>)
    ensures
        ({
            let v = shell_result_view(success, status, stdout, stderr);
            &&& v.get("success"@) == Some(JsonView::Bool(success))
            &&& v.get("status"@) == Some(match status {
                Some(code) => JsonView::Number(if code < 0 {
                    JsonNumber::NegInt(code as i64)
                } else {
                    JsonNumber::PosInt(code as u64)
                }),
                None => JsonView::Null,
            })
            &&& v.get("stdout"@) == Some(JsonView::Str(utf8_lossy(stdout)))
            &&& v.get("stderr"@) == Some(JsonView::Str(utf8_lossy(stderr)))
        }),
{
    reveal_strlit("success");
    reveal_strlit("status");
    reveal_strlit("stdout");
    reveal_strlit("stderr");
    let v = shell_result_view(success, status, stdout, stderr);
    let m = v->Object_0;
    assert("success"@[1] != "status"@[1]);
    assert("success"@[1] != "stdout"@[1]);
    assert("success"@[1] != "stderr"@[1]);
    assert("status"@[2] != "stdout"@[2]);
    assert("status"@[2] != "stderr"@[2]);
    assert("stdout"@[3] != "stderr"@[3]);
    assert(is_first_key(m, "success"@, 0));
    assert(is_first_key(m, "status"@, 1));
    assert(is_first_key(m, "stdout"@, 2));
    assert(is_first_key(m, "stderr"@, 3));
    assert forall|i: int| is_first_key(m, "success"@, i) implies i == 0 by {
        lemma_first_key_unique(m, "success"@, i, 0);
    }
    assert forall|i: int| is_first_key(m, "status"@, i) implies i == 1 by {
        lemma_first_key_unique(m, "status"@, i, 1);
    }
    assert forall|i: int| is_first_key(m, "stdout"@, i) implies i == 2 by {
        lemma_first_key_unique(m, "stdout"@, i, 2);
    }
    assert forall|i: int| is_first_key(m, "stderr"@, i) implies i == 3 by {
        lemma_first_key_unique(m, "stderr"@, i, 3);
    }
}

/// What the tool answers the model, as JSON.
pub fn shell_result(success: bool, status: Option<i32>, stdout: &[u8], stderr: &[u8]) -> (r: Json)
    ensures
        r@ == shell_result_view(success, status, stdout@, stderr@),
        r@.get("success"@) == Some(JsonView::Bool(success)),
        r@.get("status"@) == Some(match status {
            Some(code) => JsonView::Number(if code < 0 {
                JsonNumber::NegInt(code as i64)
            } else {
                JsonNumber::PosInt(code as u64)
            }),
            None => JsonView::Null,
        }),
        r@.get("stdout"@) == Some(JsonView::Str(utf8_lossy(stdout@))),
        r@.get("stderr"@) == Some(JsonView::Str(utf8_lossy(stderr@))),
{
    let code = match status {
        Some(c) => if c < 0 {
            Json::Number(JsonNumber::NegInt(c as i64))
        } else {
            Json::Number(JsonNumber::PosInt(c as u64))
        },
        None => Json::Null,
    };
    let out = Json::Str(from_utf8_lossy(stdout));
    let err = Json::Str(from_utf8_lossy(stderr));
    let r = Json::object_of(vec![
        Json::member_of("success", Json::Bool(success)),
        Json::member_of("status", code),
        Json::member_of("stdout", out),
        Json::member_of("stderr", err),
    ]);
    assert(r@->Object_0 =~= shell_result_view(success, status, stdout@, stderr@)->Object_0);
    proof {
        lemma_shell_result_members(success, status, stdout@, stderr@);
    }
    r
}

} // verus!
