//! Agents that classify what the user says: the request for the classifying model,
//! and what the classification leads to.

use vstd::prelude::*;
use crate::error::Error;
use crate::json::{Json, JsonView, json_object_format, json_object_response_format, lemma_member_after_set, lemma_member_after_set_other, with_member};
use crate::message::{Message, MessageView, messages_view};
use crate::output::AngentOutput;
use crate::request::{Request, RequestBuilder, RequestView, default_model};

verus! {

/// What a branch of a classifying agent hands back, made into the agent's result.
pub trait MatchAgentBranchResult {
    fn into_match_agent_result(self) -> Result<AngentOutput, Error>;
}

impl MatchAgentBranchResult for () {
    /// A branch that hands back nothing gives an empty output.
    fn into_match_agent_result(self) -> (r: Result<AngentOutput, Error>)
        ensures
            r matches Ok(out) && out.contents@.len() == 0,
    {
        Ok(AngentOutput { contents: Vec::new() })
    }
}

impl MatchAgentBranchResult for AngentOutput {
    /// A branch that hands back an output gives it.
    fn into_match_agent_result(self) -> (r: Result<AngentOutput, Error>)
        ensures
            r == Ok::<AngentOutput, Error>(self),
    {
        Ok(self)
    }
}

impl MatchAgentBranchResult for Result<AngentOutput, Error> {
    /// A branch that hands back a result gives it.
    fn into_match_agent_result(self) -> (r: Result<AngentOutput, Error>)
        ensures
            r == self,
    {
        self
    }
}

/// The two classes of [`MacherAgent`].
#[derive(Debug, Clone, Copy, PartialEq, Eq, Structural)]
pub enum GoodOrBad {
    Good,
    Bad,
}

/// What a classifying model answers: the class, and the user's input as it was.
#[derive(Debug)]
pub struct MatcherOutput<R> {
    pub raw_input: String,
    pub kind: R,
}

/// The instruction of [`MacherAgent`]'s model, before the classes are named.
pub open spec fn matcher_prompt() -> Seq<char> {
    "你是一个分类器，你会根据用户的输入来判断用户是在做什么并按照一下格式的json形式输出：\n                {\n                    \"type\":\"a type\",\n                    \"raw_input\":\"用户的原始输入\"\n                }\n                type 可能是:\n                "@
}

/// The instruction of an agent made with `match_agent!`, before the classes are named.
pub open spec fn match_agent_prompt() -> Seq<char> {
    "你是一个分类器，你会根据用户的输入来判断用户是在做什么并按照以下格式的 json 形式输出：\n                {\n                    \"type\":\"a type\",\n                    \"raw_input\":\"用户的原始输入\"\n                }\n                type 可能是:\n                "@
}

/// The extra body after a request is made to ask for a JSON object: none becomes
/// `{"response_format": {"type": "json_object"}}`; an object gets that member set; any
/// other value is refused.
pub open spec fn json_format_extra(extra: Option<JsonView>) -> Option<Option<JsonView>> {
    match extra {
        None => Some(Some(json_object_response_format())),
        Some(JsonView::Object(members)) => Some(
            Some(JsonView::Object(with_member(members, "response_format"@, json_object_format()))),
        ),
        Some(_) => None,
    }
}

/// Makes `req` ask the model for a JSON object, where its extra body allows it.
pub fn assert_json_format(req: &mut Request) -> (r: Result<(), Error>)
    ensures
        match json_format_extra(old(req)@.extra) {
            Some(extra) => r is Ok && final(req)@ == (RequestView { extra, ..old(req)@ }),
            None => (r matches Err(e) && e is InvalidRequest) && final(req)@ == old(req)@,
        },
{
    proof {
        reveal_strlit("response_format");
    }
    let extra = req.extra_mut();
    match extra {
        Some(body) => {
            let is_object = body.insert(String::from_str("response_format"), Json::json_object_format());
            if is_object {
                Ok(())
            } else {
                Err(Error::InvalidRequest)
            }
        },
        None => {
            *extra = Some(Json::json_object_response_format());
            Ok(())
        },
    }
}

/// The instruction followed by a space and the description of the classes.
fn instruction_with(prompt: &str, json_des: &String) -> (r: String)
    ensures
        r@ == prompt@ + " "@ + json_des@,
{
    let mut s = prompt.to_owned();
    s.append(" ");
    s.append(json_des.as_str());
    s
}

/// The request for a classifying model: the instruction, then what the user said last.
fn classification_request(prompt: String, req: &Request) -> (r: Result<Request, Error>)
    ensures
        match r {
            Ok(c) => req@.messages.len() > 0 && (req@.messages.last() matches MessageView::User { text }
                && c@ == (RequestView {
                tools: Seq::empty(),
                messages: seq![MessageView::System { content: prompt@ }, MessageView::User { text }],
                extra: None,
                model: default_model(),
            })),
            Err(e) => !(req@.messages.len() > 0 && req@.messages.last() is User) && e is MissingUserContent,
        },
{
    let content = req.get_last_user_message()?;
    let mut messages: Vec<Message> = Vec::new();
    let ghost p = prompt@;
    messages.push(Message::system(prompt));
    messages.push(Message::user(content));
    let ghost text = req@.messages.last()->User_text;
    assert(messages_view(messages@) =~= seq![MessageView::System { content: p }, MessageView::User { text }]);
    let b = RequestBuilder::default().messages(messages);
    assert(b@.tools =~= Seq::empty());
    Ok(b.build().unwrap())
}

/// Classifies the user's input as good or bad with a model.
pub struct MacherAgent<C> {
    inner: C,
    json_des: String,
}

impl<C> MacherAgent<C> {
    /// The provider that classifies.
    pub closed spec fn classifier(&self) -> C {
        self.inner
    }

    /// The description of the classes that the model is given.
    pub closed spec fn description(&self) -> Seq<char> {
        self.json_des@
    }

    /// An agent that classifies with `c`, describing the classes as `json_des`.
    pub fn new(c: C, json_des: String) -> (r: Self)
        ensures
            r.classifier() == c,
            r.description() == json_des@,
    {
        MacherAgent { inner: c, json_des }
    }

    /// The provider that classifies, to be used in place.
    pub fn inner_mut(&mut self) -> (r: &mut C)
        ensures
            *r == old(self).classifier(),
            final(self).classifier() == *final(r),
            final(self).description() == old(self).description(),
    {
        &mut self.inner
    }

    /// The request for the classifying model. `req` must allow a JSON answer (its extra
    /// body is none or an object) and end with a user message; the request holds the
    /// instruction with the description of the classes, then that user message.
    pub fn classify_request(&self, req: Request) -> (r: Result<Request, Error>)
        ensures
            match r {
                Ok(c) => json_format_extra(req@.extra) is Some && req@.messages.len() > 0 && (
                req@.messages.last() matches MessageView::User { text } && c@ == (RequestView {
                    tools: Seq::empty(),
                    messages: seq![
                        MessageView::System { content: matcher_prompt() + " "@ + self.description() },
                        MessageView::User { text },
                    ],
                    extra: None,
                    model: default_model(),
                })),
                Err(e) => (json_format_extra(req@.extra) is None && e is InvalidRequest) || (json_format_extra(
                    req@.extra,
                ) is Some && !(req@.messages.len() > 0 && req@.messages.last() is User) && e is MissingUserContent),
            },
    {
        let mut req = req;
        assert_json_format(&mut req)?;
        let prompt = instruction_with("你是一个分类器，你会根据用户的输入来判断用户是在做什么并按照一下格式的json形式输出：\n                {\n                    \"type\":\"a type\",\n                    \"raw_input\":\"用户的原始输入\"\n                }\n                type 可能是:\n                ", &self.json_des);
        classification_request(prompt, &req)
    }

    /// What the classification leads to: an unreadable answer is an error that says
    /// why; either class gives an empty output.
    pub fn classification_result(&self, parsed: Result<MatcherOutput<GoodOrBad>, String>) -> (r: Result<AngentOutput, Error>)
        ensures
            match parsed {
                Ok(_) => r matches Ok(out) && out.contents@.len() == 0,
                Err(m) => r matches Err(e) && (e matches Error::RequestBuild { message } && message == m),
            },
    {
        match parsed {
            Ok(output) => match output.kind {
                GoodOrBad::Bad => Ok(AngentOutput { contents: Vec::new() }),
                GoodOrBad::Good => Ok(AngentOutput { contents: Vec::new() }),
            },
            Err(message) => Err(Error::RequestBuild { message }),
        }
    }
}

/// The request for the model of an agent made with `match_agent!`: the instruction
/// with the description of the classes, then what the user said last, asking for a
/// JSON object.
pub fn match_agent_request(json_des: &String, req: &Request) -> (r: Result<Request, Error>)
    ensures
        match r {
            Ok(c) => req@.messages.len() > 0 && (req@.messages.last() matches MessageView::User { text }
                && c@ == (RequestView {
                tools: Seq::empty(),
                messages: seq![
                    MessageView::System { content: match_agent_prompt() + " "@ + json_des@ },
                    MessageView::User { text },
                ],
                extra: Some(json_object_response_format()),
                model: default_model(),
            })),
            Err(e) => !(req@.messages.len() > 0 && req@.messages.last() is User) && e is MissingUserContent,
        },
{
    let prompt = instruction_with("你是一个分类器，你会根据用户的输入来判断用户是在做什么并按照以下格式的 json 形式输出：\n                {\n                    \"type\":\"a type\",\n                    \"raw_input\":\"用户的原始输入\"\n                }\n                type 可能是:\n                ", json_des);
    let mut c = classification_request(prompt, req)?;
    *c.extra_mut() = Some(Json::json_object_response_format());
    Ok(c)
}

/// The names of the classes joined by `" or "`.
pub open spec fn joined_with_or(names: Seq<Seq<char>>) -> Seq<char>
    decreases names.len(),
{
    if names.len() == 0 {
        Seq::empty()
    } else if names.len() == 1 {
        names[0]
    } else {
        joined_with_or(names.drop_last()) + " or "@ + names.last()
    }
}

/// The names of the classes are all given, in order, separated by `" or "`: the first
/// name, then for each later name `" or "` and that name.
pub proof fn lemma_names_joined_in_order(names: Seq<Seq<char>>)
    requires
        names.len() > 0,
    ensures
        joined_with_or(names) == names[0] + Seq::new((names.len() - 1) as nat, |k: int| " or "@ + names[k + 1]).flatten(),
    decreases names.len(),
{
    let rest = Seq::new((names.len() - 1) as nat, |k: int| " or "@ + names[k + 1]);
    if names.len() == 1 {
        assert(rest =~= Seq::<Seq<char>>::empty());
        assert(names[0] + Seq::<char>::empty() =~= names[0]);
    } else {
        let front = names.drop_last();
        lemma_names_joined_in_order(front);
        let front_rest = Seq::new((front.len() - 1) as nat, |k: int| " or "@ + front[k + 1]);
        assert(rest =~= front_rest.push(" or "@ + names.last()));
        front_rest.lemma_flatten_push(" or "@ + names.last());
        assert(joined_with_or(names) =~= names[0] + rest.flatten());
    }
}

/// The description of the classes of a `match_agent!` agent: their names joined by
/// `" or "`.
pub fn default_description(names: &Vec<&str>) -> (r: String)
    ensures
        r@ == joined_with_or(names@.map_values(|n: &str| n@)),
{
    let ghost views = names@.map_values(|n: &str| n@);
    let mut out = String::new();
    let mut i: usize = 0;
    while i < names.len()
        invariant
            i <= names.len(),
            views == names@.map_values(|n: &str| n@),
            out@ == joined_with_or(views.take(i as int)),
        decreases names.len() - i,
    {
        if i > 0 {
            out.append(" or ");
        }
        out.append(names[i]);
        proof {
            let next = views.take(i + 1);
            assert(next.drop_last() =~= views.take(i as int));
            if i == 0 {
                assert(out@ =~= next[0]);
            }
        }
        i = i + 1;
    }
    assert(views.take(names.len() as int) =~= views);
    out
}

/// A request made to ask for a JSON object does ask for one: wherever
/// [`assert_json_format`] succeeds, the extra body's `response_format` member is
/// `{"type": "json_object"}`, and every other member of the extra body reads as before.
pub proof fn lemma_json_format_is_set(extra: Option<JsonView>)
    requires
        json_format_extra(extra) is Some,
    ensures
        json_format_extra(extra) matches Some(Some(body)) && body.get("response_format"@) == Some(
            json_object_format(),
        ),
        forall|key: Seq<char>|
            #![trigger extra->0.get(key)]
            key != "response_format"@ && extra is Some ==> json_format_extra(extra)->0->0.get(key) == extra->0.get(key),
{
    assert forall|key: Seq<char>|
        #![trigger extra->0.get(key)]
        key != "response_format"@ && extra is Some implies json_format_extra(extra)->0->0.get(key) == extra->0.get(
            key,
        ) by {
        if let Some(JsonView::Object(members)) = extra {
            lemma_member_after_set_other(members, "response_format"@, json_object_format(), key);
        }
    }
    match extra {
        None => {
            let body = json_object_response_format();
            assert(crate::json::is_first_key(body->Object_0, "response_format"@, 0));
            let k = choose|k: int| crate::json::is_first_key(body->Object_0, "response_format"@, k);
            crate::json::lemma_first_key_unique(body->Object_0, "response_format"@, 0, k);
        },
        Some(JsonView::Object(members)) => {
            lemma_member_after_set(members, "response_format"@, json_object_format());
        },
        Some(_) => {},
    }
}

} // verus!
