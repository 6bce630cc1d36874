use cars_api::create::{assign_id, create_json};
use cars_api::response::ApiError;

fn parse(text: &str) -> serde_json::Value {
    serde_json::from_str(text).unwrap()
}

#[test]
fn assign_id_adds_the_member_to_an_object() {
    let mut doc = parse("{\"brand\":\"Tesla\",\"model\":\"Model 3\",\"year\":2023}");
    assign_id(&mut doc, 42);
    assert_eq!(doc, parse("{\"brand\":\"Tesla\",\"model\":\"Model 3\",\"year\":2023,\"id\":\"42\"}"));
    assert_eq!(doc.as_object().unwrap().len(), 4);
}

#[test]
fn assign_id_writes_a_string_not_a_number() {
    let mut doc = parse("{}");
    assign_id(&mut doc, 7);
    assert!(doc["id"].is_string());
    assert_eq!(doc["id"].as_str(), Some("7"));
    assert_ne!(doc, parse("{\"id\":7}"));
}

#[test]
fn assign_id_replaces_an_earlier_identifier() {
    let mut doc = parse("{\"id\":{\"old\":true},\"brand\":\"Fiat\"}");
    assign_id(&mut doc, 0);
    assert_eq!(doc, parse("{\"id\":\"0\",\"brand\":\"Fiat\"}"));
    assign_id(&mut doc, 200);
    assert_eq!(doc, parse("{\"id\":\"200\",\"brand\":\"Fiat\"}"));
}

#[test]
fn assign_id_makes_an_object_of_null() {
    let mut doc = serde_json::Value::Null;
    assign_id(&mut doc, 255);
    assert_eq!(doc, parse("{\"id\":\"255\"}"));
}

#[test]
fn create_json_prints_the_object_with_its_identifier() {
    assert_eq!(
        create_json(b"{\"brand\":\"Tesla\",\"model\":\"Model 3\",\"year\":2023}", 42),
        Some(Ok("{\"brand\":\"Tesla\",\"id\":\"42\",\"model\":\"Model 3\",\"year\":2023}".to_string()))
    );
    assert_eq!(create_json(b"{}", 0), Some(Ok("{\"id\":\"0\"}".to_string())));
    assert_eq!(create_json(b"null", 9), Some(Ok("{\"id\":\"9\"}".to_string())));
}

#[test]
fn create_json_reports_a_body_that_is_not_json_as_a_decoding_error() {
    assert_eq!(create_json(b"", 1), Some(Err(ApiError::Decode)));
    assert_eq!(create_json(b"brand=Tesla", 1), Some(Err(ApiError::Decode)));
    assert_eq!(create_json(b"{\"brand\":\"Tesla\"", 1), Some(Err(ApiError::Decode)));
    assert_eq!(create_json(b"{} {}", 1), Some(Err(ApiError::Decode)));
    assert_eq!(create_json(b"\xc3\x28", 1), Some(Err(ApiError::Decode)));
}

#[test]
fn create_json_gives_nothing_for_json_that_takes_no_members() {
    assert_eq!(create_json(b"[]", 1), None);
    assert_eq!(create_json(b"[{}]", 1), None);
    assert_eq!(create_json(b"0", 1), None);
    assert_eq!(create_json(b"-1.5e3", 1), None);
    assert_eq!(create_json(b"true", 1), None);
    assert_eq!(create_json(b"\"{}\"", 1), None);
}

#[test]
fn create_json_is_the_same_for_the_same_body_and_identifier() {
    let body = b"{\"b\":[1,{\"c\":null}],\"a\":\"x\"}";
    assert_eq!(create_json(body, 5), create_json(body, 5));
    assert_ne!(create_json(body, 5), create_json(body, 6));
    assert_eq!(create_json(body, 5), Some(Ok("{\"a\":\"x\",\"b\":[1,{\"c\":null}],\"id\":\"5\"}".to_string())));
}
