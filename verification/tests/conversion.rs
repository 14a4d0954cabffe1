use jsonkdl::convert::{
    convert_annotation, convert_document, convert_entry, convert_json, convert_node, convert_type,
    preserve_literal,
};
use jsonkdl::document::{Document, Entry, Node, Scalar};
use jsonkdl::error::{ConversionError, Violation};
use jsonkdl::json::Json;
use jsonkdl::source::parse_json;
use jsonkdl::{convert_file_content, KdlVersion};

fn json(text: &str) -> Json {
    parse_json(text).unwrap_or_else(|err| panic!("not JSON: {}", err.describe()))
}

fn argument(value: Scalar) -> Entry {
    Entry { value, name: None, ty: None }
}

fn property(name: &str, value: Scalar) -> Entry {
    Entry { value, name: Some(name.to_string()), ty: None }
}

fn number(literal: &str) -> Scalar {
    Scalar::Number(literal.to_string())
}

fn text(value: &str) -> Scalar {
    Scalar::String(value.to_string())
}

fn node(name: &str) -> Node {
    Node {
        name: name.to_string(),
        arguments: vec![],
        properties: vec![],
        children: None,
        ty: None,
    }
}

fn violation_of<T: std::fmt::Debug>(result: Result<T, ConversionError>) -> String {
    match result {
        Err(ConversionError::InvalidStructure(message)) => message,
        other => panic!("expected a structural error, got {other:?}"),
    }
}

#[test]
fn end_to_end_example() {
    let input = r#"[{"name": "point", "arguments": [1, 2.5], "properties": {"label": "origin"}}]"#;

    let document = convert_document(&json(input)).unwrap();
    let expected = Document {
        nodes: vec![Node {
            name: "point".to_string(),
            arguments: vec![argument(number("1")), argument(number("2.5"))],
            properties: vec![property("label", text("origin"))],
            children: None,
            ty: None,
        }],
    };
    assert_eq!(document, expected);

    assert_eq!(
        convert_file_content(input, KdlVersion::V2).unwrap(),
        "point 1 2.5 label=origin\n"
    );
    assert_eq!(
        convert_file_content(input, KdlVersion::V1).unwrap(),
        "point 1 2.5 label=\"origin\"\n"
    );
}

#[test]
fn arguments_keep_their_order() {
    let input = json(r#"{"name": "n", "arguments": [3, "two", true, null, 1e5, {"value": "w"}]}"#);
    let converted = convert_node(&input).unwrap();
    assert_eq!(
        converted.arguments,
        vec![
            argument(number("3")),
            argument(text("two")),
            argument(Scalar::Bool(true)),
            argument(Scalar::Null),
            argument(number("1e5")),
            argument(text("w")),
        ]
    );
    assert!(converted.properties.is_empty());

    let each = ["3", "\"two\"", "true", "null", "1e5", "{\"value\": \"w\"}"];
    for (i, item) in each.iter().enumerate() {
        assert_eq!(convert_entry(&json(item)).unwrap(), converted.arguments[i]);
    }
}

#[test]
fn missing_arguments_and_properties_give_none() {
    let converted = convert_node(&json(r#"{"name": "alone"}"#)).unwrap();
    assert_eq!(converted, node("alone"));
    let converted = convert_node(&json(r#"{"name": "n", "arguments": [], "properties": {}}"#));
    assert_eq!(converted.unwrap(), node("n"));
}

#[test]
fn each_property_key_names_one_entry() {
    let input = json(r#"{"name": "n", "properties": {"k": "v"}}"#);
    let converted = convert_node(&input).unwrap();
    assert_eq!(converted.properties, vec![property("k", text("v"))]);
    assert!(converted.arguments.is_empty());

    let input = json(r#"{"name": "n", "properties": {"z": 1, "a": {"value": 2, "type": "u8"}, "m": null}}"#);
    let converted = convert_node(&input).unwrap();
    assert_eq!(
        converted.properties,
        vec![
            property("z", number("1")),
            Entry { value: number("2"), name: Some("a".to_string()), ty: Some("u8".to_string()) },
            property("m", Scalar::Null),
        ]
    );
}

#[test]
fn a_repeated_key_keeps_its_last_value() {
    let input = json(r#"{"name": "n", "properties": {"k": 1, "other": 2, "k": 3}}"#);
    let converted = convert_node(&input).unwrap();
    assert_eq!(
        converted.properties,
        vec![property("k", number("3")), property("other", number("2"))]
    );

    let input = json(r#"{"name": "first", "name": "second"}"#);
    assert_eq!(convert_node(&input).unwrap(), node("second"));

    let text = convert_file_content(
        r#"[{"name": "n", "properties": {"k": 1, "other": 2, "k": 3}}]"#,
        KdlVersion::V2,
    );
    assert_eq!(text.unwrap(), "n k=3 other=2\n");
}

#[test]
fn children_are_converted_as_a_document() {
    let children = r#"[{"name": "a", "arguments": [1]}, {"name": "b", "children": [{"name": "c"}]}]"#;
    let parent = format!(r#"{{"name": "parent", "children": {children}}}"#);

    let converted = convert_node(&json(&parent)).unwrap();
    let alone = convert_document(&json(children)).unwrap();
    assert_eq!(alone.nodes.len(), 2);
    assert_eq!(converted.children, Some(alone));
}

#[test]
fn no_children_differs_from_empty_children() {
    let without = convert_node(&json(r#"{"name": "n"}"#)).unwrap();
    let with_none = convert_node(&json(r#"{"name": "n", "children": []}"#)).unwrap();
    assert_eq!(without.children, None);
    assert_eq!(with_none.children, Some(Document { nodes: vec![] }));
    assert_ne!(without, with_none);

    assert_eq!(
        convert_file_content(r#"[{"name": "n"}]"#, KdlVersion::V2).unwrap(),
        "n\n"
    );
    assert_eq!(
        convert_file_content(r#"[{"name": "n", "children": []}]"#, KdlVersion::V2).unwrap(),
        "n {\n}\n"
    );
    assert_eq!(
        convert_file_content(
            r#"[{"name": "parent", "children": [{"name": "child", "children": [{"name": "leaf"}]}]}]"#,
            KdlVersion::V2
        )
        .unwrap(),
        "parent {\n    child {\n        leaf\n    }\n}\n"
    );
}

#[test]
fn type_annotations() {
    assert_eq!(convert_type(&json(r#""foo""#)).unwrap(), Some("foo".to_string()));
    assert_eq!(convert_type(&json("null")).unwrap(), None);
    for other in ["1", "true", "[]", "{}", "[\"foo\"]"] {
        assert_eq!(
            violation_of(convert_type(&json(other))),
            "type must be a string or null"
        );
    }

    assert_eq!(
        convert_annotation(&json(r#"{"type": "foo"}"#)).unwrap(),
        Some("foo".to_string())
    );
    assert_eq!(convert_annotation(&json(r#"{"type": null}"#)).unwrap(), None);
    assert_eq!(convert_annotation(&json(r#"{"other": 1}"#)).unwrap(), None);
    assert_eq!(convert_annotation(&json(r#""foo""#)).unwrap(), None);

    let annotated = convert_node(&json(r#"{"name": "n", "type": "foo"}"#)).unwrap();
    assert_eq!(annotated.ty, Some("foo".to_string()));
    let null = convert_node(&json(r#"{"name": "n", "type": null}"#)).unwrap();
    assert_eq!(null.ty, None);
    let absent = convert_node(&json(r#"{"name": "n"}"#)).unwrap();
    assert_eq!(absent.ty, None);
    assert_eq!(
        violation_of(convert_node(&json(r#"{"name": "n", "type": 7}"#))),
        "type must be a string or null"
    );

    let annotated = convert_entry(&json(r#"{"value": 1, "type": "foo"}"#)).unwrap();
    assert_eq!(annotated, Entry { value: number("1"), name: None, ty: Some("foo".to_string()) });
    let null = convert_entry(&json(r#"{"value": 1, "type": null}"#)).unwrap();
    assert_eq!(null, argument(number("1")));
    let absent = convert_entry(&json(r#"{"value": 1}"#)).unwrap();
    assert_eq!(absent, argument(number("1")));
    assert_eq!(
        violation_of(convert_entry(&json(r#"{"value": 1, "type": [1]}"#))),
        "type must be a string or null"
    );

    let printed = convert_file_content(
        r#"[{"name": "n", "type": "t", "arguments": [{"value": 1, "type": "u8"}],
            "properties": {"p": {"value": "s", "type": "txt"}}}]"#,
        KdlVersion::V2,
    );
    assert_eq!(printed.unwrap(), "(t)n (u8)1 p=(txt)s\n");
}

#[test]
fn root_must_be_an_array() {
    for root in [
        r#"{"name": "x"}"#,
        r#"{"name": 7, "type": 7}"#,
        "null",
        "1",
        "\"text\"",
        "true",
    ] {
        assert_eq!(
            violation_of(convert_document(&json(root))),
            "document root must be an array"
        );
        match convert_file_content(root, KdlVersion::V2) {
            Err(ConversionError::InvalidStructure(message)) => {
                assert_eq!(message, "document root must be an array")
            }
            other => panic!("expected a structural error, got {other:?}"),
        }
    }
    assert_eq!(convert_document(&json("[]")).unwrap(), Document { nodes: vec![] });
}

#[test]
fn each_rule_has_its_error() {
    let cases = [
        (r#"{}"#, Violation::RootNotArray),
        (r#"[1]"#, Violation::NodeNotObject),
        (r#"[[]]"#, Violation::NodeNotObject),
        (r#"[{}]"#, Violation::MissingName),
        (r#"[{"name": 1}]"#, Violation::NameNotString),
        (r#"[{"name": null}]"#, Violation::NameNotString),
        (r#"[{"name": "n", "arguments": {}}]"#, Violation::ArgumentsNotArray),
        (r#"[{"name": "n", "arguments": 1}]"#, Violation::ArgumentsNotArray),
        (r#"[{"name": "n", "properties": []}]"#, Violation::PropertiesNotObject),
        (r#"[{"name": "n", "arguments": [[1]]}]"#, Violation::UnsupportedValue),
        (r#"[{"name": "n", "arguments": [{"type": "t"}]}]"#, Violation::UnsupportedValue),
        (r#"[{"name": "n", "arguments": [{"value": {}}]}]"#, Violation::UnsupportedValue),
        (r#"[{"name": "n", "properties": {"k": []}}]"#, Violation::UnsupportedValue),
        (r#"[{"name": "n", "type": 1}]"#, Violation::TypeNotStringOrNull),
        (r#"[{"name": "n", "children": {}}]"#, Violation::RootNotArray),
        (r#"[{"name": "n", "children": [1]}]"#, Violation::NodeNotObject),
    ];
    for (input, violation) in cases {
        let message = violation_of(convert_document(&json(input)));
        assert_eq!(message, violation.message(), "for {input}");
        let message = violation_of(convert_json(&json(input), KdlVersion::V1));
        assert_eq!(message, violation.message(), "for {input}");
    }
}

#[test]
fn the_first_broken_rule_is_reported() {
    let cases = [
        (r#"[{"name": 1, "arguments": 1, "type": 1}]"#, "name must be a string"),
        (r#"[{"arguments": 1}]"#, "node must have a name"),
        (r#"[{"name": "n", "arguments": 1, "properties": 1}]"#, "arguments must be an array"),
        (
            r#"[{"name": "n", "arguments": [[]], "properties": 1}]"#,
            "unsupported value type for conversion",
        ),
        (r#"[{"name": "n", "properties": 1, "children": 1}]"#, "properties must be an object"),
        (r#"[{"name": "n", "children": 1, "type": 1}]"#, "document root must be an array"),
        (
            r#"[{"name": "n", "arguments": [{"value": [], "type": 1}]}]"#,
            "unsupported value type for conversion",
        ),
        (
            r#"[{"name": "n", "arguments": [{"value": 1, "type": 1}, []]}]"#,
            "type must be a string or null",
        ),
        (r#"[{"name": "ok"}, 1, {"name": 2}]"#, "node must be an object"),
        (r#"[{"name": "ok"}, {"name": 2}, 1]"#, "name must be a string"),
    ];
    for (input, message) in cases {
        assert_eq!(violation_of(convert_document(&json(input))), message, "for {input}");
    }
}

#[test]
fn a_value_object_holds_the_scalar() {
    assert_eq!(convert_entry(&json(r#"{"value": null}"#)).unwrap(), argument(Scalar::Null));
    assert_eq!(
        convert_entry(&json(r#"{"value": false, "extra": [1]}"#)).unwrap(),
        argument(Scalar::Bool(false))
    );
    assert_eq!(
        violation_of(convert_entry(&json(r#"{"type": "t"}"#))),
        "unsupported value type for conversion"
    );
    assert_eq!(
        violation_of(convert_entry(&json(r#"{"value": {"value": 1}}"#))),
        "unsupported value type for conversion"
    );
}

#[test]
fn a_literal_is_kept_as_it_stands() {
    for literal in ["0", "1E5", "1e+5", "0.10", "-12.50e-3", "123456789012345678901234567890"] {
        assert_eq!(preserve_literal(literal), number(literal));
        assert_eq!(convert_entry(&json(literal)).unwrap(), argument(number(literal)));
        let wrapped = format!("{{\"value\": {literal}}}");
        assert_eq!(convert_entry(&json(&wrapped)).unwrap(), argument(number(literal)));
        let document = format!("[{{\"name\": \"n\", \"arguments\": [{literal}]}}]");
        for version in [KdlVersion::V1, KdlVersion::V2] {
            assert_eq!(
                convert_file_content(&document, version).unwrap(),
                format!("n {literal}\n")
            );
        }
    }
    assert_eq!(
        convert_entry(&Json::Number("not checked".to_string())).unwrap(),
        argument(number("not checked"))
    );
}

#[test]
fn an_empty_name_is_a_name() {
    assert_eq!(convert_node(&json(r#"{"name": ""}"#)).unwrap(), node(""));
    assert_eq!(
        convert_file_content(r#"[{"name": ""}]"#, KdlVersion::V2).unwrap(),
        "\"\"\n"
    );
}

#[test]
fn scalars_are_printed_for_each_version() {
    let input = r#"[{"name": "n", "arguments": [null, true, false, "plain", "two words", "7"],
                    "properties": {"a": null, "b": true, "c": "x y"}}]"#;
    assert_eq!(
        convert_file_content(input, KdlVersion::V2).unwrap(),
        "n #null #true #false plain \"two words\" \"7\" a=#null b=#true c=\"x y\"\n"
    );
    assert_eq!(
        convert_file_content(input, KdlVersion::V1).unwrap(),
        "n null true false \"plain\" \"two words\" \"7\" a=null b=true c=\"x y\"\n"
    );
}

#[test]
fn several_nodes_follow_each_other() {
    let input = r#"[{"name": "a", "arguments": [1]}, {"name": "b"}, {"name": "c", "children": []}]"#;
    assert_eq!(
        convert_file_content(input, KdlVersion::V2).unwrap(),
        "a 1\nb\nc {\n}\n"
    );
    assert_eq!(convert_file_content("[]", KdlVersion::V2).unwrap(), "");
}

#[test]
fn the_default_version_is_v2() {
    assert_eq!(KdlVersion::default(), KdlVersion::V2);
}
