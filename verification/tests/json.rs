use mpvsock::json::{push_json_string, DataError, FromJson, Json, Number, SyntaxError, ToJson};

fn text(value: &Json) -> String {
    let mut out = Vec::new();
    value.write(&mut out);
    String::from_utf8(out).unwrap()
}

#[test]
fn parse_reads_scalars() {
    assert_eq!(Json::parse(b"null"), Ok(Json::Null));
    assert_eq!(Json::parse(b"true"), Ok(Json::Bool(true)));
    assert_eq!(Json::parse(b" false "), Ok(Json::Bool(false)));
    assert_eq!(Json::parse(b"12"), Ok(Json::Number("12".to_string())));
    assert_eq!(Json::parse(b"-3"), Ok(Json::Number("-3".to_string())));
    assert_eq!(Json::parse(b"55.5"), Ok(Json::Number("55.5".to_string())));
    assert_eq!(Json::parse(b"\"a\\nb\""), Ok(Json::Text("a\nb".to_string())));
}

#[test]
fn parse_keeps_nested_values_as_text() {
    assert_eq!(
        Json::parse(b"[1, \"two\", [3], {\"four\": 4}]"),
        Ok(Json::Array(vec![
            "1".to_string(),
            "\"two\"".to_string(),
            "[3]".to_string(),
            "{\"four\":4}".to_string(),
        ]))
    );
    assert_eq!(
        Json::parse(b"{\"a\": [1, 2], \"b\": \"x\"}"),
        Ok(Json::Object(vec![
            ("a".to_string(), "[1,2]".to_string()),
            ("b".to_string(), "\"x\"".to_string()),
        ]))
    );
}

#[test]
fn parse_refuses_what_is_no_json() {
    assert_eq!(Json::parse(b""), Err(SyntaxError));
    assert_eq!(Json::parse(b"{"), Err(SyntaxError));
    assert_eq!(Json::parse(b"quit"), Err(SyntaxError));
    assert_eq!(Json::parse(b"1 2"), Err(SyntaxError));
    assert_eq!(Json::parse_str("{\"a\":}"), Err(SyntaxError));
}

#[test]
fn member_finds_the_first_with_that_key() {
    let object = Json::Object(vec![
        ("a".to_string(), "1".to_string()),
        ("b".to_string(), "2".to_string()),
        ("a".to_string(), "3".to_string()),
    ]);
    assert_eq!(object.member("a"), Some(&"1".to_string()));
    assert_eq!(object.member("b"), Some(&"2".to_string()));
    assert_eq!(object.member("c"), None);
    assert_eq!(Json::Null.member("a"), None);
    assert_eq!(Json::Array(vec!["1".to_string()]).member("a"), None);
}

#[test]
fn member_value_reads_the_member() {
    let object = Json::parse(b"{\"id\": 7, \"name\": \"volume\", \"data\": {\"x\": null}}").unwrap();
    assert_eq!(object.member_value("id"), Some(Json::Number("7".to_string())));
    assert_eq!(object.member_value("name"), Some(Json::Text("volume".to_string())));
    assert_eq!(
        object.member_value("data"),
        Some(Json::Object(vec![("x".to_string(), "null".to_string())]))
    );
    assert_eq!(object.member_value("none"), None);
    let broken = Json::Object(vec![("a".to_string(), "{".to_string())]);
    assert_eq!(broken.member_value("a"), None);
}

#[test]
fn numbers_as_integers() {
    assert_eq!(Json::Number("12".to_string()).as_i64(), Some(12));
    assert_eq!(Json::Number("-12".to_string()).as_i64(), Some(-12));
    assert_eq!(Json::Number("1.5".to_string()).as_i64(), None);
    assert_eq!(Json::Text("12".to_string()).as_i64(), None);
    assert_eq!(Json::Number("4294967295".to_string()).as_u32(), Some(u32::MAX));
    assert_eq!(Json::Number("4294967296".to_string()).as_u32(), None);
    assert_eq!(Json::Number("-1".to_string()).as_u32(), None);
    assert_eq!(Json::parse(b"18446744073709551615").unwrap().as_i64(), None);
    assert_eq!(Json::parse(b"1e3").unwrap().as_i64(), None);
    assert_eq!(Json::parse(b"100.0").unwrap().as_i64(), None);
}

#[test]
fn is_null_tells_null() {
    assert!(Json::Null.is_null());
    assert!(!Json::Bool(false).is_null());
}

#[test]
fn write_gives_compact_json() {
    assert_eq!(text(&Json::Null), "null");
    assert_eq!(text(&Json::Bool(true)), "true");
    assert_eq!(text(&Json::Bool(false)), "false");
    assert_eq!(text(&Json::Number("-0.5".to_string())), "-0.5");
    assert_eq!(text(&Json::Text("a\"b\\c\n".to_string())), "\"a\\\"b\\\\c\\n\"");
    assert_eq!(text(&Json::Array(vec![])), "[]");
    assert_eq!(text(&Json::Array(vec!["1".to_string()])), "[1]");
    assert_eq!(text(&Json::Array(vec!["1".to_string(), "[2]".to_string()])), "[1,[2]]");
    assert_eq!(text(&Json::Object(vec![])), "{}");
    assert_eq!(
        text(&Json::Object(vec![
            ("a b".to_string(), "1".to_string()),
            ("c".to_string(), "\"d\"".to_string()),
        ])),
        "{\"a b\":1,\"c\":\"d\"}"
    );
}

#[test]
fn written_json_reads_back() {
    for document in ["null", "true", "12", "\"a\\tb\"", "[1,\"x\",{\"k\":[]}]", "{\"a\":{\"b\":1},\"c\":\"d\"}"] {
        let value = Json::parse_str(document).unwrap();
        assert_eq!(text(&value), document);
    }
}

#[test]
fn push_json_string_quotes_and_escapes() {
    let mut out = b"x=".to_vec();
    push_json_string(&mut out, "say \"hi\"");
    assert_eq!(out, b"x=\"say \\\"hi\\\"\"");
    let mut out = Vec::new();
    push_json_string(&mut out, "");
    assert_eq!(out, b"\"\"");
}

#[test]
fn payloads_are_read_as_values() {
    assert_eq!(bool::from_json(Some(Json::Bool(true))), Ok(true));
    assert_eq!(bool::from_json(Some(Json::Null)), Err(DataError::Missing));
    assert_eq!(bool::from_json(None), Err(DataError::Missing));
    assert_eq!(bool::from_json(Some(Json::Number("1".to_string()))), Err(DataError::Mismatch));
    assert_eq!(String::from_json(Some(Json::Text("x".to_string()))), Ok("x".to_string()));
    assert_eq!(String::from_json(Some(Json::Bool(true))), Err(DataError::Mismatch));
    assert_eq!(String::from_json(None), Err(DataError::Missing));
    assert_eq!(
        Number::from_json(Some(Json::Number("55.5".to_string()))),
        Ok(Number { text: "55.5".to_string() })
    );
    assert_eq!(Number::from_json(Some(Json::Text("55.5".to_string()))), Err(DataError::Mismatch));
    assert_eq!(Json::from_json(Some(Json::Null)), Ok(Json::Null));
    assert_eq!(Json::from_json(None), Err(DataError::Missing));
}

#[test]
fn values_are_written_as_json() {
    let mut out = Vec::new();
    true.write_json(&mut out);
    out.push(b',');
    false.write_json(&mut out);
    out.push(b',');
    "a\"b".to_string().write_json(&mut out);
    out.push(b',');
    Number { text: "1.25".to_string() }.write_json(&mut out);
    out.push(b',');
    Json::Array(vec!["1".to_string()]).write_json(&mut out);
    assert_eq!(out, b"true,false,\"a\\\"b\",1.25,[1]");
}

#[test]
fn string_literal_escapes() {
    let quoted = |text: &str| {
        let mut out = Vec::new();
        push_json_string(&mut out, text);
        String::from_utf8(out).unwrap()
    };
    assert_eq!(quoted("auto"), "\"auto\"");
    assert_eq!(quoted("\""), "\"\\\"\"");
    assert_eq!(quoted("\\"), "\"\\\\\"");
    assert_eq!(quoted("\u{8}\t\n\u{c}\r"), "\"\\b\\t\\n\\f\\r\"");
    assert_eq!(quoted("\u{0}\u{1}\u{b}\u{e}\u{1f}"), "\"\\u0000\\u0001\\u000b\\u000e\\u001f\"");
    assert_eq!(quoted(" !#[]/\u{7f}"), "\" !#[]/\u{7f}\"");
    assert_eq!(quoted("fil\u{e9} \u{1f3b5}"), "\"fil\u{e9} \u{1f3b5}\"");
}

#[test]
fn nested_texts_of_a_document_are_documents() {
    let document = b"{\"a\": [1, {\"b\": \"c\\n\"}, 2.50, null], \"d\": \"e\", \"f\": 1e300}";
    let object = Json::parse(document).unwrap();
    for key in ["a", "d", "f"] {
        assert!(object.member(key).is_some());
        assert!(object.member_value(key).is_some());
    }
    match object.member_value("a") {
        Some(Json::Array(items)) => {
            assert_eq!(items.len(), 4);
            for item in items {
                assert!(Json::parse_str(&item).is_ok());
            }
        }
        other => panic!("Expected an array but found {:?}", other),
    }
}
