use ai_lib::json::{same_text, Json, Member};

fn jd_member(key: &str, value: Json) -> Member {
    Member { key: key.to_string(), value }
}

#[test]
fn parse_keeps_members_in_written_order() {
    let doc = Json::parse("{\"b\":1,\"a\":[true,null,\"x\"]}").unwrap();
    let expected = Json::Object(vec![
        jd_member("b", Json::Number("1".to_string())),
        jd_member(
            "a",
            Json::Array(vec![Json::Bool(true), Json::Null, Json::Text("x".to_string())]),
        ),
    ]);
    assert_eq!(doc, expected);
}

#[test]
fn parse_keeps_number_text() {
    let doc = Json::parse("[0, -2, 1.5, 18446744073709551615]").unwrap();
    let expected = Json::Array(vec![
        Json::Number("0".to_string()),
        Json::Number("-2".to_string()),
        Json::Number("1.5".to_string()),
        Json::Number("18446744073709551615".to_string()),
    ]);
    assert_eq!(doc, expected);
}

#[test]
fn parse_reads_nested_objects() {
    let doc = Json::parse("{\"outer\":{\"inner\":{\"leaf\":false}}}").unwrap();
    let expected = Json::Object(vec![jd_member(
        "outer",
        Json::Object(vec![jd_member(
            "inner",
            Json::Object(vec![jd_member("leaf", Json::Bool(false))]),
        )]),
    )]);
    assert_eq!(doc, expected);
}

#[test]
fn parse_refuses_truncated_text_with_the_readers_message() {
    let err = Json::parse("{").unwrap_err();
    assert_eq!(err, "EOF while parsing an object at line 1 column 1");
}

#[test]
fn parse_refuses_text_that_is_not_json() {
    let err = Json::parse("hello").unwrap_err();
    assert_eq!(err, "expected value at line 1 column 1");
}

#[test]
fn parse_refuses_empty_text() {
    assert!(Json::parse("").is_err());
}

#[test]
fn quote_escapes_quotes_and_control_characters() {
    assert_eq!(Json::quote("plain"), "\"plain\"");
    assert_eq!(Json::quote("a\"b"), "\"a\\\"b\"");
    assert_eq!(Json::quote("line\nbreak\\"), "\"line\\nbreak\\\\\"");
    assert_eq!(Json::quote(""), "\"\"");
}

#[test]
fn get_gives_the_first_member_with_the_key() {
    let doc = Json::Object(vec![
        jd_member("a", Json::Number("1".to_string())),
        jd_member("b", Json::Number("2".to_string())),
        jd_member("a", Json::Number("3".to_string())),
    ]);
    assert_eq!(doc.get("a"), Some(&Json::Number("1".to_string())));
    assert_eq!(doc.get("b"), Some(&Json::Number("2".to_string())));
    assert_eq!(doc.get("c"), None);
}

#[test]
fn get_gives_nothing_for_documents_that_are_no_objects() {
    assert_eq!(Json::Null.get("a"), None);
    assert_eq!(Json::Array(vec![Json::Null]).get("a"), None);
    assert_eq!(Json::Text("a".to_string()).get("a"), None);
}

#[test]
fn clone_is_a_deep_copy() {
    let doc = Json::parse("{\"a\":[1,{\"b\":[\"x\",null]}],\"c\":true}").unwrap();
    let copy = doc.clone();
    assert_eq!(copy, doc);
}

#[test]
fn text_makes_a_text_document() {
    assert_eq!(Json::text("auto"), Json::Text("auto".to_string()));
}

#[test]
fn same_text_compares_whole_texts() {
    assert!(same_text("enum", "enum"));
    assert!(!same_text("enum", "enums"));
    assert!(!same_text("Enum", "enum"));
    assert!(same_text("", ""));
}
