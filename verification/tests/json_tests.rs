use planbot::json::{parse, Json};

fn text(s: &str) -> Json {
    Json::Text(s.to_string())
}

#[test]
fn parses_scalars() {
    assert!(matches!(parse(b"null"), Ok(Json::Null)));
    assert!(matches!(parse(b"true"), Ok(Json::Bool(true))));
    assert!(matches!(parse(b" false "), Ok(Json::Bool(false))));
    match parse(b"\"a\\nb\"") {
        Ok(Json::Text(s)) => assert_eq!(s, "a\nb"),
        _ => panic!("expected a string"),
    }
}

#[test]
fn parses_numbers_as_their_text() {
    match parse(b"42") {
        Ok(Json::Number(n)) => assert_eq!(n, "42"),
        _ => panic!("expected a number"),
    }
    match parse(b"-7") {
        Ok(Json::Number(n)) => assert_eq!(n, "-7"),
        _ => panic!("expected a number"),
    }
    match parse(b"1.5") {
        Ok(Json::Number(n)) => assert_eq!(n, "1.5"),
        _ => panic!("expected a number"),
    }
}

#[test]
fn parses_nested_documents() {
    let doc = parse(br#"{"choices":[{"delta":{"content":"Hi"}},{"n":1}],"id":"x"}"#)
        .ok()
        .expect("a document");
    assert!(doc.is_object());
    let choices = doc.get("choices").expect("choices");
    let items = choices.as_array().expect("an array");
    assert_eq!(items.len(), 2);
    let content = items[0]
        .get("delta")
        .and_then(|d| d.get("content"))
        .and_then(|c| c.as_text());
    assert_eq!(content, Some("Hi"));
    assert_eq!(doc.get("id").and_then(|v| v.as_text()), Some("x"));
    assert!(doc.get("missing").is_none());
    assert!(items[1].get("n").expect("n").as_text().is_none());
}

#[test]
fn rejects_what_is_no_document() {
    assert!(parse(b"").is_err());
    assert!(parse(b"{").is_err());
    assert!(parse(b"{\"a\":1} trailing").is_err());
    assert!(parse(b"not json").is_err());
    assert!(parse(&[b'"', 0xff, b'"']).is_err());
    let message = parse(b"{").err().expect("an error");
    assert!(!message.is_empty());
}

#[test]
fn lookup_takes_the_first_member_of_a_name() {
    let object = Json::Object(vec![
        ("a".to_string(), text("first")),
        ("b".to_string(), Json::Null),
        ("a".to_string(), text("second")),
    ]);
    assert_eq!(object.get("a").and_then(|v| v.as_text()), Some("first"));
    assert!(matches!(object.get("b"), Some(Json::Null)));
    assert!(object.get("c").is_none());
}

#[test]
fn accessors_tell_the_kinds_apart() {
    assert!(text("x").get("x").is_none());
    assert!(Json::Array(vec![]).get("x").is_none());
    assert!(Json::Null.as_text().is_none());
    assert!(Json::Number("1".to_string()).as_text().is_none());
    assert!(text("x").as_array().is_none());
    assert_eq!(Json::Array(vec![Json::Null]).as_array().map(|v| v.len()), Some(1));
    assert!(!Json::Array(vec![]).is_object());
    assert!(Json::Object(vec![]).is_object());
}

#[test]
fn a_repeated_key_keeps_the_last_value() {
    let doc = parse(br#"{"k":"one","k":"two"}"#).ok().expect("a document");
    assert_eq!(doc.get("k").and_then(|v| v.as_text()), Some("two"));
}
