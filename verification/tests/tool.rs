use agent::tool::ask_user::{ask_user_answer, ask_user_definition, ask_user_question, AskUserQuestion};
use agent::tool::shell::{shell_command, shell_definition, shell_result};
use agent::tool::weather::{weather_definition, weather_output};
use agent::tool::{RegisteredTool, ToolProvider};
use agent::text::{decimal_text, from_utf8_lossy, parse_usize, trim};
use agent::{Error, Json, JsonNumber, NoopToolExecutor, Tool, ToolCall, ToolFn, ToolOutput, ToolRegistry};

fn obj(members: Vec<(&str, Json)>) -> Json {
    Json::Object(members.into_iter().map(|(k, v)| (k.to_string(), v)).collect())
}

fn s(t: &str) -> Json {
    Json::Str(t.to_string())
}

fn call(name: &str) -> ToolCall {
    ToolCall { id: "id-1".to_string(), name: name.to_string(), arguments: String::new() }
}

fn bad_json() -> serde_json::Error {
    serde_json::from_str::<serde_json::Value>("{").unwrap_err()
}

#[test]
fn tool_output_and_noop() {
    let o = ToolOutput::new("c".to_string(), "x".to_string());
    assert_eq!(o, ToolOutput { tool_call_id: "c".to_string(), content: "x".to_string() });
    let n = NoopToolExecutor.output(call("any"));
    assert_eq!(n, ToolOutput { tool_call_id: "id-1".to_string(), content: String::new() });
    assert!(ToolProvider::tools(&NoopToolExecutor).is_empty());
    let f = ToolFn::new(3u8);
    assert_eq!(*f.get(), 3u8);
}

#[test]
fn registry_finds_the_tool_by_name() {
    let mut reg: ToolRegistry<u32> = ToolRegistry::new();
    assert!(reg.is_empty());
    reg.insert(RegisteredTool::new(Tool::new("a".to_string(), None, None, None), 1));
    reg.insert_executor(Tool::new("b".to_string(), Some("B".to_string()), None, None), 2);
    assert_eq!(*reg.find("a").unwrap().executor(), 1);
    assert_eq!(*reg.find("b").unwrap().executor(), 2);
    assert_eq!(reg.tool("b"), Some(&Tool::new("b".to_string(), Some("B".to_string()), None, None)));
    assert_eq!(reg.tool("c"), None);
    match reg.find("c") {
        Err(Error::ToolNotFound { name }) => assert_eq!(name, "c"),
        other => panic!("unexpected {:?}", other.map(|t| *t.executor())),
    }
    let names: Vec<String> = reg.tools().iter().map(|t| t.name().to_string()).collect();
    assert_eq!(names, vec!["a".to_string(), "b".to_string()]);
}

#[test]
fn registering_a_name_again_replaces_the_tool() {
    let mut reg: ToolRegistry<u32> = ToolRegistry::new();
    reg.insert_executor(Tool::new("a".to_string(), None, None, None), 1);
    reg.insert_executor(Tool::new("b".to_string(), None, None, None), 2);
    reg.insert_executor(Tool::new("a".to_string(), Some("new".to_string()), None, None), 3);
    assert_eq!(reg.tools().len(), 2);
    assert_eq!(*reg.find("a").unwrap().executor(), 3);
    assert_eq!(reg.find("a").unwrap().tool(), &Tool::new("a".to_string(), Some("new".to_string()), None, None));
    assert_eq!(ToolProvider::tools(&reg).len(), 2);
}

#[test]
fn definitions_of_the_builtin_tools() {
    let ask = ask_user_definition();
    assert_eq!(ask.name(), "ask_user");
    let Tool::Function { parameters, description, strict, .. } = ask;
    let p = parameters.expect("a schema");
    assert_eq!(strict, None);
    assert!(description.unwrap().starts_with("Ask the user a question"));
    assert_eq!(p.get(&"required".to_string()), Some(&Json::Array(vec![s("question")])));
    let props = p.get(&"properties".to_string()).unwrap();
    assert_eq!(
        props.get(&"question".to_string()),
        Some(&obj(vec![("type", s("string")), ("description", s("The question to ask the user."))]))
    );
    let shell = shell_definition();
    assert_eq!(shell.name(), "shell");
    let weather = weather_definition();
    let Tool::Function { name, parameters, .. } = weather;
    let wp = parameters.expect("a schema");
    assert_eq!(name, "get_weather");
    assert_eq!(wp.get(&"required".to_string()), Some(&Json::Array(vec![s("location")])));
}

#[test]
fn weather_is_always_fine() {
    let o = weather_output(call("get_weather"));
    assert_eq!(o.tool_call_id, "id-1");
    assert_eq!(o.content, "天气超级棒！ 温度12°C 湿度30%");
}

#[test]
fn ask_user_reads_question_and_options() {
    let args = obj(vec![
        ("question", s("Which colour?")),
        ("options", Json::Array(vec![s("red"), Json::Null, s("blue")])),
    ]);
    let q = ask_user_question(&call("ask_user"), Ok(args)).unwrap();
    assert_eq!(q.question, "Which colour?");
    assert_eq!(q.options, vec!["red".to_string(), "blue".to_string()]);
    assert_eq!(q.prompt_text(), "\nWhich colour?\n  1. red\n  2. blue\n> ");
    let no_options = ask_user_question(&call("ask_user"), Ok(obj(vec![("question", s("Why?"))]))).unwrap();
    assert!(no_options.options.is_empty());
    assert_eq!(no_options.prompt_text(), "\nWhy?\n> ");
}

#[test]
fn ask_user_refuses_bad_arguments() {
    match ask_user_question(&call("ask_user"), Err(bad_json())) {
        Err(Error::InvalidToolArguments { name, .. }) => assert_eq!(name, "ask_user"),
        other => panic!("unexpected {other:?}"),
    }
    match ask_user_question(&call("ask_user"), Ok(obj(vec![("question", Json::Bool(true))]))) {
        Err(Error::ToolFailed { name, message }) => {
            assert_eq!(name, "ask_user");
            assert_eq!(message, "missing string argument `question`");
        },
        other => panic!("unexpected {other:?}"),
    }
}

#[test]
fn ask_user_answer_by_number_or_text() {
    let options = vec!["red".to_string(), "blue".to_string()];
    let a = ask_user_answer("  2 \n", &options);
    assert_eq!((a.raw_answer.as_str(), a.answer.as_str(), a.selected_index), ("2", "blue", Some(1)));
    let b = ask_user_answer("+1", &options);
    assert_eq!((b.answer.as_str(), b.selected_index), ("red", Some(0)));
    let c = ask_user_answer("3", &options);
    assert_eq!((c.answer.as_str(), c.selected_index), ("3", None));
    let d = ask_user_answer("0", &options);
    assert_eq!((d.answer.as_str(), d.selected_index), ("0", None));
    let e = ask_user_answer("green\r\n", &options);
    assert_eq!((e.raw_answer.as_str(), e.answer.as_str(), e.selected_index), ("green", "green", None));
}

#[test]
fn ask_user_result_json() {
    let q = AskUserQuestion { question: "Q".to_string(), options: vec!["x".to_string()] };
    let a = ask_user_answer("1", &q.options);
    assert_eq!(
        a.result(&q.question),
        obj(vec![
            ("question", s("Q")),
            ("answer", s("x")),
            ("raw_answer", s("1")),
            ("selected_index", Json::Number(JsonNumber::PosInt(0))),
        ])
    );
    let b = ask_user_answer("free", &q.options);
    assert_eq!(b.result(&q.question).get(&"selected_index".to_string()), Some(&Json::Null));
}

#[test]
fn shell_reads_the_command() {
    assert_eq!(shell_command(&call("shell"), Ok(obj(vec![("command", s("ls -l"))]))).unwrap(), "ls -l");
    assert!(matches!(
        shell_command(&call("shell"), Ok(obj(vec![]))),
        Err(Error::ToolFailed { .. })
    ));
    assert!(matches!(shell_command(&call("shell"), Err(bad_json())), Err(Error::InvalidToolArguments { .. })));
}

#[test]
fn shell_result_json() {
    let r = shell_result(false, Some(-1), b"out", &[0xff, b'e']);
    assert_eq!(
        r,
        obj(vec![
            ("success", Json::Bool(false)),
            ("status", Json::Number(JsonNumber::NegInt(-1))),
            ("stdout", s("out")),
            ("stderr", s("\u{fffd}e")),
        ])
    );
    let ok = shell_result(true, None, b"", b"");
    assert_eq!(ok.get(&"status".to_string()), Some(&Json::Null));
    let zero = shell_result(true, Some(0), b"", b"");
    assert_eq!(zero.get(&"status".to_string()), Some(&Json::Number(JsonNumber::PosInt(0))));
}

#[test]
fn text_helpers() {
    assert_eq!(decimal_text(0), "0");
    assert_eq!(decimal_text(7), "7");
    assert_eq!(decimal_text(1234567890), "1234567890");
    assert_eq!(trim(" \t a b \u{3000}"), "a b");
    assert_eq!(parse_usize("42"), Some(42));
    assert_eq!(parse_usize("+42"), Some(42));
    assert_eq!(parse_usize("+"), None);
    assert_eq!(parse_usize("-1"), None);
    assert_eq!(parse_usize(""), None);
    assert_eq!(parse_usize("4 2"), None);
    assert_eq!(parse_usize("99999999999999999999999"), None);
    assert_eq!(from_utf8_lossy("héllo".as_bytes()), "héllo");
    assert_eq!(from_utf8_lossy(&[b'a', 0x80]), "a\u{fffd}");
}
