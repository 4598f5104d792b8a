use agent::agent::matcher::assert_json_format;
use agent::{Error, Json, JsonNumber, RequestBuilder};

fn obj(members: Vec<(&str, Json)>) -> Json {
    Json::Object(members.into_iter().map(|(k, v)| (k.to_string(), v)).collect())
}

#[test]
fn response_format_values() {
    assert_eq!(Json::json_object_format(), obj(vec![("type", Json::Str("json_object".to_string()))]));
    assert_eq!(
        Json::json_object_response_format(),
        obj(vec![("response_format", obj(vec![("type", Json::Str("json_object".to_string()))]))])
    );
}

#[test]
fn get_finds_first_member_of_object() {
    let j = obj(vec![("a", Json::Bool(true)), ("b", Json::Null), ("a", Json::Bool(false))]);
    assert_eq!(j.get(&"a".to_string()), Some(&Json::Bool(true)));
    assert_eq!(j.get(&"b".to_string()), Some(&Json::Null));
    assert_eq!(j.get(&"c".to_string()), None);
    assert_eq!(Json::Str("x".to_string()).get(&"a".to_string()), None);
}

#[test]
fn insert_sets_or_adds_a_member() {
    let mut j = obj(vec![("a", Json::Bool(true))]);
    assert!(j.insert("b".to_string(), Json::Null));
    assert!(j.insert("a".to_string(), Json::Number(JsonNumber::PosInt(3))));
    assert_eq!(j, obj(vec![("a", Json::Number(JsonNumber::PosInt(3))), ("b", Json::Null)]));
    assert_eq!(j.get(&"a".to_string()), Some(&Json::Number(JsonNumber::PosInt(3))));
    let mut s = Json::Str("x".to_string());
    assert!(!s.insert("a".to_string(), Json::Null));
    assert_eq!(s, Json::Str("x".to_string()));
}

#[test]
fn clone_keeps_nested_values() {
    let j = obj(vec![(
        "list",
        Json::Array(vec![Json::Number(JsonNumber::NegInt(-2)), Json::Number(JsonNumber::Float("1.5".to_string()))]),
    )]);
    assert_eq!(j.clone(), j);
}

#[test]
fn json_format_is_added_to_a_request_without_extra() {
    let mut req = RequestBuilder::default().build().unwrap();
    assert!(assert_json_format(&mut req).is_ok());
    assert_eq!(req.extra(), &Some(Json::json_object_response_format()));
}

#[test]
fn json_format_is_set_in_an_object_extra() {
    let extra = obj(vec![("temperature", Json::Number(JsonNumber::PosInt(0))), ("response_format", Json::Null)]);
    let mut req = RequestBuilder::default().extra(extra).build().unwrap();
    assert!(assert_json_format(&mut req).is_ok());
    assert_eq!(
        req.extra(),
        &Some(obj(vec![
            ("temperature", Json::Number(JsonNumber::PosInt(0))),
            ("response_format", Json::json_object_format()),
        ]))
    );
}

#[test]
fn json_format_is_refused_for_a_non_object_extra() {
    let mut req = RequestBuilder::default().extra(Json::Bool(true)).build().unwrap();
    assert!(matches!(assert_json_format(&mut req), Err(Error::InvalidRequest)));
    assert_eq!(req.extra(), &Some(Json::Bool(true)));
}
