use agent::agent::info_colloctor::{InfoCollectAgent, WithInfoCollectAgent};
use agent::agent::matcher::{
    default_description, match_agent_request, GoodOrBad, MacherAgent, MatchAgentBranchResult, MatcherOutput,
};
use agent::agent::planner::{PlanAgent, WithPlanner};
use agent::{AngentOutput, Error, Json, JsonNumber, Message, RequestBuilder};

fn answer(content: &str) -> AngentOutput {
    AngentOutput {
        contents: vec![Message::Assistant {
            content: Some(content.to_string()),
            reasoning: Some(String::new()),
            tool_calls: None,
        }],
    }
}

#[test]
fn info_collector_asks_about_the_last_message() {
    let agent = InfoCollectAgent::new(());
    let req = RequestBuilder::default()
        .messages(vec![Message::system("s".to_string()), Message::user_text("trip?".to_string())])
        .build()
        .unwrap();
    let c = agent.collect_request(&req).unwrap();
    assert_eq!(c.messages().len(), 2);
    match &c.messages()[0] {
        Message::System { content } => assert!(content.starts_with("你是一个信息收集者")),
        other => panic!("unexpected {other:?}"),
    }
    assert_eq!(c.messages()[1], Message::user_text("trip?".to_string()));
    let empty = RequestBuilder::default().build().unwrap();
    assert!(matches!(agent.collect_request(&empty), Err(Error::MissingMessage)));
    let custom = ().with_info_collect_agent().with_prompt("collect".to_string());
    assert_eq!(custom.collect_request(&req).unwrap().messages()[0], Message::system("collect".to_string()));
}

#[test]
fn info_collector_rewrites_the_question() {
    let agent = InfoCollectAgent::new(());
    let req = RequestBuilder::default()
        .messages(vec![Message::system("s".to_string()), Message::user_text("trip?".to_string())])
        .build()
        .unwrap();
    let next = agent.apply_collected(req, answer("trip to Rome, 3 days")).unwrap();
    assert_eq!(
        next.messages(),
        &vec![Message::system("s".to_string()), Message::user_text("trip to Rome, 3 days".to_string())]
    );
    let req = RequestBuilder::default().messages(vec![Message::assistant("a".to_string())]).build().unwrap();
    let same = agent.apply_collected(req, answer("x")).unwrap();
    assert_eq!(same.messages(), &vec![Message::assistant("a".to_string())]);
    let req = RequestBuilder::default().build().unwrap();
    assert!(matches!(
        agent.apply_collected(req, AngentOutput { contents: vec![] }),
        Err(Error::MissingAssistantContent)
    ));
}

#[test]
fn planner_plans_then_replaces_the_request() {
    let agent = PlanAgent::new(());
    let req = RequestBuilder::default()
        .messages(vec![Message::system("s".to_string()), Message::user_text("blog".to_string())])
        .build()
        .unwrap();
    let p = agent.plan_request(&req).unwrap();
    assert_eq!(p.messages().len(), 2);
    assert!(matches!(&p.messages()[0], Message::Assistant { content: Some(c), .. } if c.starts_with("你是一个计划小能手")));
    assert_eq!(p.messages()[1], Message::user_text("blog".to_string()));
    let next = ().with_planner().apply_plan(req, "1. write".to_string());
    assert_eq!(
        next.messages(),
        &vec![Message::system("s".to_string()), Message::user_text("1. write".to_string())]
    );
    let bad = RequestBuilder::default().messages(vec![Message::system("s".to_string())]).build().unwrap();
    assert!(matches!(agent.plan_request(&bad), Err(Error::MissingUserContent)));
}

#[test]
fn matcher_builds_the_classifying_request() {
    let agent = MacherAgent::new((), "Good or Bad".to_string());
    let req = RequestBuilder::default().messages(vec![Message::user_text("59 points".to_string())]).build().unwrap();
    let c = agent.classify_request(req).unwrap();
    assert!(c.extra().is_none());
    match &c.messages()[0] {
        Message::System { content } => assert!(content.ends_with("type 可能是:\n                 Good or Bad")),
        other => panic!("unexpected {other:?}"),
    }
    assert_eq!(c.messages()[1], Message::user_text("59 points".to_string()));
}

#[test]
fn matcher_refuses_what_it_cannot_classify() {
    let agent = MacherAgent::new((), "Good or Bad".to_string());
    let req = RequestBuilder::default()
        .messages(vec![Message::user_text("x".to_string())])
        .extra(Json::Number(JsonNumber::PosInt(1)))
        .build()
        .unwrap();
    assert!(matches!(agent.classify_request(req), Err(Error::InvalidRequest)));
    let req = RequestBuilder::default().messages(vec![Message::assistant("x".to_string())]).build().unwrap();
    assert!(matches!(agent.classify_request(req), Err(Error::MissingUserContent)));
}

#[test]
fn matcher_results() {
    let agent = MacherAgent::new((), "Good or Bad".to_string());
    let good = MatcherOutput { raw_input: "x".to_string(), kind: GoodOrBad::Good };
    assert!(agent.classification_result(Ok(good)).unwrap().contents.is_empty());
    match agent.classification_result(Err("bad json".to_string())) {
        Err(Error::RequestBuild { message }) => assert_eq!(message, "bad json"),
        other => panic!("unexpected {other:?}"),
    }
}

#[test]
fn match_agent_request_asks_for_json() {
    let req = RequestBuilder::default().messages(vec![Message::user_text("book".to_string())]).build().unwrap();
    let c = match_agent_request(&"Ticket or Schedule".to_string(), &req).unwrap();
    assert_eq!(c.extra(), &Some(Json::json_object_response_format()));
    match &c.messages()[0] {
        Message::System { content } => assert!(content.ends_with(" Ticket or Schedule")),
        other => panic!("unexpected {other:?}"),
    }
    assert_eq!(default_description(&vec!["Ticket", "Schedule"]), "Ticket or Schedule");
    assert_eq!(default_description(&vec!["Yes"]), "Yes");
}

#[test]
fn branch_results() {
    assert!(().into_match_agent_result().unwrap().contents.is_empty());
    assert_eq!(answer("a").into_match_agent_result().unwrap().contents.len(), 1);
    let r: agent::Result<AngentOutput> = Err(Error::MissingMessage);
    assert!(matches!(r.into_match_agent_result(), Err(Error::MissingMessage)));
}
