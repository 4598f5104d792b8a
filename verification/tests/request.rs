use agent::{Error, Json, Message, RequestBuilder, Tool, UserMessageContent};

#[test]
fn builder_defaults() {
    let req = RequestBuilder::default().build().unwrap();
    assert!(req.messages().is_empty());
    assert!(req.tools().is_empty());
    assert!(req.extra().is_none());
    assert_eq!(req.model(), "deepseek-v4-flash");
}

#[test]
fn builder_sets_every_field() {
    let tool = Tool::new("t".to_string(), None, None, Some(true));
    let req = RequestBuilder::default()
        .modle("other-model".to_string())
        .messages(vec![Message::system("s".to_string())])
        .extra(Json::json_object_response_format())
        .tools(vec![tool.clone()])
        .build()
        .unwrap();
    assert_eq!(req.model(), "other-model");
    assert_eq!(req.messages(), &vec![Message::system("s".to_string())]);
    assert_eq!(req.extra(), &Some(Json::json_object_response_format()));
    assert_eq!(req.tools(), &vec![tool]);
    assert_eq!(req.tools()[0].name(), "t");
}

#[test]
fn last_message_and_last_user_message() {
    let req = RequestBuilder::default()
        .messages(vec![Message::system("s".to_string()), Message::user_text("q".to_string())])
        .build()
        .unwrap();
    assert_eq!(req.get_last_message(), Some(Message::user_text("q".to_string())));
    match req.get_last_user_message() {
        Ok(UserMessageContent::Text { content }) => assert_eq!(content, "q"),
        Err(e) => panic!("unexpected {e:?}"),
    }
}

#[test]
fn missing_user_content_when_last_is_not_user() {
    let req = RequestBuilder::default()
        .messages(vec![Message::user_text("q".to_string()), Message::assistant("a".to_string())])
        .build()
        .unwrap();
    assert!(matches!(req.get_last_user_message(), Err(Error::MissingUserContent)));
    let empty = RequestBuilder::default().build().unwrap();
    assert_eq!(empty.get_last_message(), None);
    assert!(matches!(empty.get_last_user_message(), Err(Error::MissingUserContent)));
}

#[test]
fn pushed_message_is_read_back_last() {
    let mut req = RequestBuilder::default().build().unwrap();
    req.messages_mut().push(Message::user_text("later".to_string()));
    assert_eq!(req.get_last_message(), Some(Message::user_text("later".to_string())));
}

#[test]
fn cloned_request_keeps_everything() {
    let req = RequestBuilder::default()
        .messages(vec![Message::user_text("q".to_string())])
        .extra(Json::json_object_format())
        .build()
        .unwrap();
    let copy = req.clone();
    assert_eq!(copy.messages(), req.messages());
    assert_eq!(copy.extra(), req.extra());
    assert_eq!(copy.model(), req.model());
}
