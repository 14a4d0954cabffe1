use jsonkdl::error::ConversionError;
use jsonkdl::json::{Json, JsonObject};
use jsonkdl::source::parse_json;

#[test]
fn a_text_is_read_into_a_tree() {
    let tree = parse_json(
        r#" {"n": null, "t": true, "f": false, "i": -12, "x": 1.50, "s": "a\nb", "a": [1, [2], {}], "o": {"k": "v"}} "#,
    )
    .unwrap();

    let mut inner = JsonObject::new();
    inner.insert("k".to_string(), Json::String("v".to_string()));
    let mut expected = JsonObject::new();
    expected.insert("n".to_string(), Json::Null);
    expected.insert("t".to_string(), Json::Bool(true));
    expected.insert("f".to_string(), Json::Bool(false));
    expected.insert("i".to_string(), Json::Number("-12".to_string()));
    expected.insert("x".to_string(), Json::Number("1.50".to_string()));
    expected.insert("s".to_string(), Json::String("a\nb".to_string()));
    expected.insert(
        "a".to_string(),
        Json::Array(vec![
            Json::Number("1".to_string()),
            Json::Array(vec![Json::Number("2".to_string())]),
            Json::Object(JsonObject::new()),
        ]),
    );
    expected.insert("o".to_string(), Json::Object(inner));
    assert_eq!(tree, Json::Object(expected));
}

#[test]
fn scalars_at_the_root_are_read() {
    assert_eq!(parse_json("null").unwrap(), Json::Null);
    assert_eq!(parse_json("true").unwrap(), Json::Bool(true));
    assert_eq!(parse_json("\"\"").unwrap(), Json::String(String::new()));
    assert_eq!(parse_json("[]").unwrap(), Json::Array(vec![]));
    assert_eq!(parse_json("1E400").unwrap(), Json::Number("1E400".to_string()));
}

#[test]
fn members_are_read_in_the_order_of_the_text() {
    let tree = parse_json(r#"{"b": 1, "a": 2, "c": 3, "a": 4}"#).unwrap();
    let Json::Object(object) = tree else { panic!() };
    let members: Vec<(&str, &Json)> =
        object.members().iter().map(|member| (member.0.as_str(), &member.1)).collect();
    assert_eq!(
        members,
        vec![
            ("b", &Json::Number("1".to_string())),
            ("a", &Json::Number("4".to_string())),
            ("c", &Json::Number("3".to_string())),
        ]
    );
}

#[test]
fn a_text_that_is_not_json_is_refused() {
    for text in ["", "[1,", "{\"a\" 1}", "[01]", "nul", "[1] 2", "{'a': 1}"] {
        match parse_json(text) {
            Err(ConversionError::JsonParse(_)) => {}
            other => panic!("expected a parse error for {text:?}, got {other:?}"),
        }
    }
}

#[test]
fn a_parse_error_is_described() {
    let error = parse_json("[1,").unwrap_err();
    let described = error.describe();
    assert!(described.starts_with("json parsing error: "), "{described}");
    assert!(described.len() > "json parsing error: ".len());
    let ConversionError::JsonParse(inner) = error else { panic!() };
    assert_eq!(described, format!("json parsing error: {inner}"));

    let error = jsonkdl::convert_file_content("[1,", jsonkdl::KdlVersion::V2).unwrap_err();
    assert_eq!(error.describe(), described);
}

#[test]
fn a_structural_error_is_described() {
    let error = ConversionError::InvalidStructure("node must be an object".to_string());
    assert_eq!(error.describe(), "invalid json structure: node must be an object");
    let error = ConversionError::invalid(jsonkdl::error::Violation::MissingName);
    assert_eq!(error.describe(), "invalid json structure: node must have a name");
}

#[test]
fn a_parsed_value_is_copied_as_it_is() {
    let text = r#"{"a": [1, "x", {"b": null}], "c": -2.5e-3, "d": true}"#;
    let value: serde_json::Value = serde_json::from_str(text).unwrap();
    assert_eq!(jsonkdl::source::read_value(&value), parse_json(text).unwrap());
    assert_eq!(
        jsonkdl::source::read_value(&serde_json::Value::Null),
        Json::Null
    );
    let Json::Object(object) = jsonkdl::source::read_value(&value) else { panic!() };
    assert_eq!(object.get("c"), Some(&Json::Number("-2.5e-3".to_string())));
    assert_eq!(object.len(), 3);
}
