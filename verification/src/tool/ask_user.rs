//! The `ask_user` tool: the model asks the user a question, optionally with preset
//! answers, and gets the answer back. Reading and writing the terminal happens at
//! the edge of the program; what is asked and what is answered is decided here.

use vstd::prelude::*;
use serde_json::Error as JsonSyntaxError;
use crate::error::Error;
use crate::json::{Json, is_first_key, lemma_first_key_unique, JsonNumber, JsonView, string_property, string_property_view};
use crate::message::ToolCall;
use crate::request::{Tool, ToolView};
use crate::text::{decimal, decimal_text, parse_usize, parsed_usize, trim, trimmed};

verus! {

/// What the `ask_user` tool says it does.
pub open spec fn ask_user_description() -> Seq<char> {
    "Ask the user a question in the terminal and wait for their answer. Optional preset answers can be provided."@
}

/// The schema of the `options` parameter.
pub open spec fn options_property() -> JsonView {
    JsonView::Object(
        seq![
            ("type"@, JsonView::Str("array"@)),
            ("description"@, JsonView::Str("Optional preset answers. The user can type a number or enter a custom answer."@)),
            ("items"@, JsonView::Object(seq![("type"@, JsonView::Str("string"@))])),
        ],
    )
}

/// The parameters of `ask_user`: a required `question` and optional `options`.
pub open spec fn ask_user_parameters() -> JsonView {
    JsonView::Object(
        seq![
            ("type"@, JsonView::Str("object"@)),
            ("properties"@, JsonView::Object(
                seq![
                    ("question"@, string_property_view("The question to ask the user."@)),
                    ("options"@, options_property()),
                ],
            )),
            ("required"@, JsonView::Array(seq![JsonView::Str("question"@)])),
        ],
    )
}

/// The definition of the `ask_user` tool.
pub fn ask_user_definition() -> (r: Tool)
    ensures
        r@ == (ToolView::Function {
            name: "ask_user"@,
            description: Some(ask_user_description()),
            parameters: Some(ask_user_parameters()),
            strict: None,
        }),
{
    let items = Json::object_of(vec![Json::member_of("type", Json::text_of("string"))]);
    assert(items@->Object_0 =~= seq![("type"@, JsonView::Str("string"@))]);
    let options = Json::object_of(vec![
        Json::member_of("type", Json::text_of("array")),
        Json::member_of(
            "description",
            Json::text_of("Optional preset answers. The user can type a number or enter a custom answer."),
        ),
        Json::member_of("items", items),
    ]);
    assert(options@->Object_0 =~= options_property()->Object_0);
    let properties = Json::object_of(vec![
        Json::member_of("question", string_property("The question to ask the user.")),
        Json::member_of("options", options),
    ]);
    let required = Json::array_of(vec![Json::text_of("question")]);
    assert(required@->Array_0 =~= seq![JsonView::Str("question"@)]);
    let parameters = Json::object_of(vec![
        Json::member_of("type", Json::text_of("object")),
        Json::member_of("properties", properties),
        Json::member_of("required", required),
    ]);
    assert(properties@->Object_0 =~= ask_user_parameters()->Object_0[1].1->Object_0);
    assert(parameters@->Object_0 =~= ask_user_parameters()->Object_0);
    Tool::new(
        String::from_str("ask_user"),
        Some(String::from_str("Ask the user a question in the terminal and wait for their answer. Optional preset answers can be provided.")),
        Some(parameters),
        None,
    )
}

/// The texts among the items, in order; other items are skipped.
pub open spec fn string_items(items: Seq<JsonView>) -> Seq<Seq<char>>
    decreases items.len(),
{
    if items.len() == 0 {
        Seq::empty()
    } else {
        string_items(items.drop_last()) + match items.last() {
            JsonView::Str(s) => seq![s],
            _ => Seq::empty(),
        }
    }
}

/// The preset answers among the arguments: the texts of the `options` array, or none.
pub open spec fn options_of(args: JsonView) -> Seq<Seq<char>> {
    match args.get("options"@) {
        Some(JsonView::Array(items)) => string_items(items),
        _ => Seq::empty(),
    }
}

/// The preset answers are the texts of the string items, in order; every other item is
/// skipped.
pub proof fn lemma_string_items_keep_the_texts(items: Seq<JsonView>)
    ensures
        string_items(items) == items.filter_map(|j: JsonView| j.as_str()),
    decreases items.len(),
{
    if items.len() > 0 {
        lemma_string_items_keep_the_texts(items.drop_last());
        match items.last() {
            JsonView::Str(t) => {},
            _ => {
                assert(string_items(items.drop_last()) + Seq::<Seq<char>>::empty() =~= string_items(items.drop_last()));
            },
        }
    }
}

/// The texts of a sequence of strings.
pub open spec fn texts(s: Seq<String>) -> Seq<Seq<char>> {
    s.map_values(|t: String| t@)
}

/// A question for the user, with the preset answers to choose from.
#[derive(Debug)]
pub struct AskUserQuestion {
    pub question: String,
    pub options: Vec<String>,
}

/// The texts among the items.
fn string_items_of(items: &Vec<Json>) -> (r: Vec<String>)
    ensures
        texts(r@) == string_items(crate::json::items_view(items@)),
{
    let ghost iv = crate::json::items_view(items@);
    let mut out: Vec<String> = Vec::new();
    let mut i: usize = 0;
    while i < items.len()
        invariant
            i <= items.len(),
            iv == crate::json::items_view(items@),
            texts(out@) == string_items(iv.take(i as int)),
        decreases items.len() - i,
    {
        let ghost before = out@;
        match items[i].as_str() {
            Some(s) => {
                out.push(s.clone());
            },
            None => {},
        }
        proof {
            assert(iv.take(i + 1).drop_last() =~= iv.take(i as int));
            assert(iv.take(i + 1).last() == items@[i as int]@);
            assert(texts(out@) =~= texts(before) + match items@[i as int]@ {
                JsonView::Str(s) => seq![s],
                _ => Seq::<Seq<char>>::empty(),
            });
        }
        i = i + 1;
    }
    assert(iv.take(items.len() as int) =~= iv);
    out
}

/// The question that a call of `ask_user` asks: the arguments must be JSON with a
/// string `question`; the texts of an `options` array, if any, are the preset answers.
pub fn ask_user_question(call: &ToolCall, arguments: Result<Json, JsonSyntaxError>) -> (r: Result<AskUserQuestion, Error>)
    ensures
        match arguments {
            Err(source) => r matches Err(e) && (e matches Error::InvalidToolArguments { name, source: s }
                && name@ == call.name@ && s == source),
            Ok(args) => match args@.get("question"@) {
                Some(JsonView::Str(q)) => r matches Ok(a) && a.question@ == q && texts(a.options@) == options_of(
                    args@,
                ),
                _ => r matches Err(e) && (e matches Error::ToolFailed { name, message } && name@ == call.name@
                    && message@ == "missing string argument `question`"@),
            },
        },
{
    let args = match arguments {
        Ok(a) => a,
        Err(source) => {
            return Err(Error::InvalidToolArguments { name: call.name.clone(), source });
        },
    };
    proof {
        reveal_strlit("question");
        reveal_strlit("options");
    }
    let question = match args.get(&String::from_str("question")) {
        Some(j) => match j.as_str() {
            Some(q) => q.clone(),
            None => {
                return Err(Error::ToolFailed {
                    name: call.name.clone(),
                    message: String::from_str("missing string argument `question`"),
                });
            },
        },
        None => {
            return Err(Error::ToolFailed {
                name: call.name.clone(),
                message: String::from_str("missing string argument `question`"),
            });
        },
    };
    let options = match args.get(&String::from_str("options")) {
        Some(j) => match j.as_array() {
            Some(items) => string_items_of(items),
            None => Vec::new(),
        },
        None => Vec::new(),
    };
    assert(texts(options@) =~= options_of(args@));
    Ok(AskUserQuestion { question, options })
}

/// The lines that offer the preset answers, numbered from one.
pub open spec fn option_lines(options: Seq<Seq<char>>) -> Seq<char>
    decreases options.len(),
{
    if options.len() == 0 {
        Seq::empty()
    } else {
        option_lines(options.drop_last()) + "  "@ + decimal(options.len() as nat) + ". "@ + options.last() + "\n"@
    }
}

/// What the user sees: the question on a line of its own, the numbered preset
/// answers, and a prompt.
pub open spec fn ask_user_prompt(question: Seq<char>, options: Seq<Seq<char>>) -> Seq<char> {
    "\n"@ + question + "\n"@ + option_lines(options) + "> "@
}

/// The preset answers are listed in order, each on a line of its own with its number,
/// counting from one: the lines for `options` are, for each position `k`, two spaces,
/// the number `k + 1`, a dot and a space, answer `k`, and a line break. The user sees
/// the question on a line of its own, then these lines, then the prompt `> `.
pub proof fn lemma_options_numbered_in_order(question: Seq<char>, options: Seq<Seq<char>>)
    ensures
        ask_user_prompt(question, options) == "\n"@ + question + "\n"@ + Seq::new(
            options.len(),
            |k: int| "  "@ + decimal((k + 1) as nat) + ". "@ + options[k] + "\n"@,
        ).flatten() + "> "@,
        option_lines(options) == Seq::new(
            options.len(),
            |k: int| "  "@ + decimal((k + 1) as nat) + ". "@ + options[k] + "\n"@,
        ).flatten(),
    decreases options.len(),
{
    let lines = Seq::new(options.len(), |k: int| "  "@ + decimal((k + 1) as nat) + ". "@ + options[k] + "\n"@);
    if options.len() == 0 {
        assert(lines =~= Seq::<Seq<char>>::empty());
    } else {
        let rest = options.drop_last();
        lemma_options_numbered_in_order(question, rest);
        let rest_lines = Seq::new(rest.len(), |k: int| "  "@ + decimal((k + 1) as nat) + ". "@ + rest[k] + "\n"@);
        assert(lines =~= rest_lines.push("  "@ + decimal(options.len() as nat) + ". "@ + options.last() + "\n"@));
        rest_lines.lemma_flatten_push("  "@ + decimal(options.len() as nat) + ". "@ + options.last() + "\n"@);
        assert(option_lines(options) =~= option_lines(rest) + ("  "@ + decimal(options.len() as nat) + ". "@ + options.last() + "\n"@));
    }
}

/// The number shown beside a preset answer picks it: where the user types the
/// number `k + 1` of answer `k`, that answer is selected.
pub proof fn lemma_shown_number_selects(k: nat, n_options: nat)
    requires
        k < n_options,
        n_options <= usize::MAX,
    ensures
        selected_index(trimmed(decimal(k + 1)), n_options) == Some(k as usize),
{
    crate::text::lemma_decimal_reads_back(k + 1);
    let d = decimal(k + 1);
    assert(!crate::text::is_white_space(d[0]));
    assert(!crate::text::is_white_space(d.last()));
    assert(trimmed(d) == d);
}

/// A preset answer is selected exactly where the line typed, without its surrounding
/// white space, is a number from one to the number of preset answers; the answer
/// counted from zero is then one less than that number.
pub proof fn lemma_selection_is_by_number(raw_answer: Seq<char>, n_options: nat, i: usize)
    ensures
        selected_index(raw_answer, n_options) == Some(i) <==> (i < n_options && (parsed_usize(raw_answer) matches Some(
            k,
        ) && k == i + 1)),
        parsed_usize(raw_answer) is None || parsed_usize(raw_answer) == Some(0usize)
            || parsed_usize(raw_answer)->0 > n_options ==> selected_index(raw_answer, n_options) is None,
{
}

impl AskUserQuestion {
    /// What the user sees.
    pub fn prompt_text(&self) -> (r: String)
        ensures
            r@ == ask_user_prompt(self.question@, texts(self.options@)),
            r@ == "\n"@ + self.question@ + "\n"@ + Seq::new(
                self.options@.len() as nat,
                |k: int| "  "@ + decimal((k + 1) as nat) + ". "@ + self.options@[k]@ + "\n"@,
            ).flatten() + "> "@,
    {
        let ghost ov = texts(self.options@);
        let mut out = String::from_str("\n");
        out.append(self.question.as_str());
        out.append("\n");
        let ghost head = out@;
        let mut i: usize = 0;
        while i < self.options.len()
            invariant
                i <= self.options.len(),
                ov == texts(self.options@),
                out@ == head + option_lines(ov.take(i as int)),
            decreases self.options.len() - i,
        {
            out.append("  ");
            out.append(decimal_text(i + 1).as_str());
            out.append(". ");
            out.append(self.options[i].as_str());
            out.append("\n");
            proof {
                let next = ov.take(i + 1);
                assert(next.drop_last() =~= ov.take(i as int));
                assert(next.last() == self.options@[i as int]@);
                assert(out@ =~= head + option_lines(next));
            }
            i = i + 1;
        }
        assert(ov.take(self.options.len() as int) =~= ov);
        out.append("> ");
        proof {
            lemma_options_numbered_in_order(self.question@, ov);
            assert(Seq::new(
                self.options@.len() as nat,
                |k: int| "  "@ + decimal((k + 1) as nat) + ". "@ + self.options@[k]@ + "\n"@,
            ) =~= Seq::new(ov.len(), |k: int| "  "@ + decimal((k + 1) as nat) + ". "@ + ov[k] + "\n"@));
        }
        out
    }
}

/// The preset answer that the user chose by number: a number from one to the number
/// of preset answers picks that answer (counted from zero here).
pub open spec fn selected_index(raw_answer: Seq<char>, n_options: nat) -> Option<usize> {
    match parsed_usize(raw_answer) {
        Some(k) => if 1 <= k && k - 1 < n_options {
            Some((k - 1) as usize)
        } else {
            None
        },
        None => None,
    }
}

/// What the user answered.
#[derive(Debug)]
pub struct AskUserAnswer {
    /// The line typed, without surrounding white space.
    pub raw_answer: String,
    /// The chosen preset answer, or else what was typed.
    pub answer: String,
    /// The position of the chosen preset answer, if one was chosen.
    pub selected_index: Option<usize>,
}

/// Reads the user's answer from the line typed.
pub fn ask_user_answer(line: &str, options: &Vec<String>) -> (r: AskUserAnswer)
    ensures
        r.raw_answer@ == trimmed(line@),
        r.selected_index == selected_index(trimmed(line@), options@.len()),
        r.answer@ == match r.selected_index {
            Some(i) => options@[i as int]@,
            None => trimmed(line@),
        },
{
    let raw = trim(line);
    let selected = match parse_usize(raw) {
        Some(k) => if k >= 1 && k - 1 < options.len() {
            Some(k - 1)
        } else {
            None
        },
        None => None,
    };
    let answer = match selected {
        Some(i) => options[i].clone(),
        None => raw.to_owned(),
    };
    AskUserAnswer { raw_answer: raw.to_owned(), answer, selected_index: selected }
}

/// What the tool answers the model: the question, the answer, the line typed, and the
/// position of the chosen preset answer (or null).
pub open spec fn ask_user_result(question: Seq<char>, answer: AskUserAnswer) -> JsonView {
    JsonView::Object(
        seq![
            ("question"@, JsonView::Str(question)),
            ("answer"@, JsonView::Str(answer.answer@)),
            ("raw_answer"@, JsonView::Str(answer.raw_answer@)),
            ("selected_index"@, match answer.selected_index {
                Some(i) => JsonView::Number(JsonNumber::PosInt(i as u64)),
                None => JsonView::Null,
            }),
        ],
    )
}

/// The answer reports each fact under its own name: `question` is the question,
/// `answer` the chosen preset answer or what was typed, `raw_answer` the line typed,
/// and `selected_index` the position of the chosen answer, or null.
pub proof fn lemma_ask_user_result_members(question: Seq<char>, answer: AskUserAnswer)
    ensures
        ({
            let v = ask_user_result(question, answer);
            &&& v.get("question"@) == Some(JsonView::Str(question))
            &&& v.get("answer"@) == Some(JsonView::Str(answer.answer@))
            &&& v.get("raw_answer"@) == Some(JsonView::Str(answer.raw_answer@))
            &&& v.get("selected_index"@) == Some(match answer.selected_index {
                Some(i) => JsonView::Number(JsonNumber::PosInt(i as u64)),
                None => JsonView::Null,
            })
        }),
{
    reveal_strlit("question");
    reveal_strlit("answer");
    reveal_strlit("raw_answer");
    reveal_strlit("selected_index");
    let m = ask_user_result(question, answer)->Object_0;
    assert("question"@[0] != "answer"@[0]);
    assert("question"@[0] != "raw_answer"@[0]);
    assert("question"@[0] != "selected_index"@[0]);
    assert("answer"@[0] != "raw_answer"@[0]);
    assert("answer"@[0] != "selected_index"@[0]);
    assert("raw_answer"@[0] != "selected_index"@[0]);
    assert(is_first_key(m, "question"@, 0));
    assert(is_first_key(m, "answer"@, 1));
    assert(is_first_key(m, "raw_answer"@, 2));
    assert(is_first_key(m, "selected_index"@, 3));
    assert forall|i: int| is_first_key(m, "question"@, i) implies i == 0 by {
        lemma_first_key_unique(m, "question"@, i, 0);
    }
    assert forall|i: int| is_first_key(m, "answer"@, i) implies i == 1 by {
        lemma_first_key_unique(m, "answer"@, i, 1);
    }
    assert forall|i: int| is_first_key(m, "raw_answer"@, i) implies i == 2 by {
        lemma_first_key_unique(m, "raw_answer"@, i, 2);
    }
    assert forall|i: int| is_first_key(m, "selected_index"@, i) implies i == 3 by {
        lemma_first_key_unique(m, "selected_index"@, i, 3);
    }
}

impl AskUserAnswer {
    /// What the tool answers the model, as JSON.
    pub fn result(&self, question: &String) -> (r: Json)
        ensures
            r@ == ask_user_result(question@, *self),
            r@.get("question"@) == Some(JsonView::Str(question@)),
            r@.get("answer"@) == Some(JsonView::Str(self.answer@)),
            r@.get("raw_answer"@) == Some(JsonView::Str(self.raw_answer@)),
            r@.get("selected_index"@) == Some(match self.selected_index {
                Some(i) => JsonView::Number(JsonNumber::PosInt(i as u64)),
                None => JsonView::Null,
            }),
    {
        let index = match self.selected_index {
            Some(i) => Json::Number(JsonNumber::PosInt(i as u64)),
            None => Json::Null,
        };
        let r = Json::object_of(vec![
            Json::member_of("question", Json::text_of(question.as_str())),
            Json::member_of("answer", Json::text_of(self.answer.as_str())),
            Json::member_of("raw_answer", Json::text_of(self.raw_answer.as_str())),
            Json::member_of("selected_index", index),
        ]);
        assert(r@->Object_0 =~= ask_user_result(question@, *self)->Object_0);
        proof {
            lemma_ask_user_result_members(question@, *self);
        }
        r
    }
}

} // verus!
