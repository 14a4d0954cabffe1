use jsonkdl::document::{Document, Entry, Node, Scalar};
use jsonkdl::render::{literal_entry, lower_document, lower_entry, lower_node, render};
use jsonkdl::KdlVersion;
use kdl::{KdlDocument, KdlEntryFormat, KdlIdentifier, KdlNodeFormat, KdlValue};

fn entry(value: Scalar, name: Option<&str>, ty: Option<&str>) -> Entry {
    Entry { value, name: name.map(str::to_string), ty: ty.map(str::to_string) }
}

fn sample() -> Document {
    Document {
        nodes: vec![
            Node {
                name: "first".to_string(),
                arguments: vec![
                    entry(Scalar::Number("1.0e1".to_string()), None, Some("f64")),
                    entry(Scalar::String("s".to_string()), None, None),
                ],
                properties: vec![
                    entry(Scalar::Bool(true), Some("flag"), None),
                    entry(Scalar::Null, Some("nothing"), Some("t")),
                ],
                children: Some(Document {
                    nodes: vec![Node {
                        name: "inner".to_string(),
                        arguments: vec![],
                        properties: vec![],
                        children: Some(Document { nodes: vec![] }),
                        ty: None,
                    }],
                }),
                ty: Some("kind".to_string()),
            },
            Node {
                name: "second".to_string(),
                arguments: vec![],
                properties: vec![],
                children: None,
                ty: None,
            },
        ],
    }
}

#[test]
fn a_literal_entry_prints_its_text() {
    let lowered = literal_entry("12345678901234567890123");
    assert_eq!(lowered.value(), &KdlValue::Integer(0));
    assert_eq!(lowered.name(), None);
    assert_eq!(lowered.ty(), None);
    assert_eq!(
        lowered.format(),
        Some(&KdlEntryFormat {
            value_repr: "12345678901234567890123".to_string(),
            leading: " ".to_string(),
            autoformat_keep: true,
            ..Default::default()
        })
    );
    assert_eq!(lowered.to_string(), " 12345678901234567890123");
}

#[test]
fn an_entry_is_rebuilt_with_name_and_annotation() {
    let lowered = lower_entry(&entry(Scalar::String("v".to_string()), Some("k"), Some("t")));
    assert_eq!(lowered.value(), &KdlValue::String("v".to_string()));
    assert_eq!(lowered.name(), Some(&KdlIdentifier::from("k")));
    assert_eq!(lowered.ty(), Some(&KdlIdentifier::from("t")));
    assert_eq!(lowered.format(), None);

    let lowered = lower_entry(&entry(Scalar::Null, None, None));
    assert_eq!(lowered.value(), &KdlValue::Null);
    assert_eq!(lowered.name(), None);
    assert_eq!(lowered.ty(), None);
    assert_eq!(lowered.format(), None);

    let lowered = lower_entry(&entry(Scalar::Bool(false), None, None));
    assert_eq!(lowered.value(), &KdlValue::Bool(false));

    let lowered = lower_entry(&entry(Scalar::Number("7".to_string()), Some("n"), Some("u8")));
    assert_eq!(lowered.name(), Some(&KdlIdentifier::from("n")));
    assert_eq!(lowered.ty(), Some(&KdlIdentifier::from("u8")));
    assert_eq!(lowered.format().unwrap().value_repr, "7");
    assert!(lowered.format().unwrap().autoformat_keep);
}

#[test]
fn a_node_is_rebuilt_with_arguments_before_properties() {
    let document = sample();
    let lowered = lower_node(&document.nodes[0]);
    assert_eq!(lowered.name(), &KdlIdentifier::from("first"));
    assert_eq!(lowered.ty(), Some(&KdlIdentifier::from("kind")));
    assert_eq!(
        lowered.format(),
        Some(&KdlNodeFormat { trailing: "\n".to_string(), ..Default::default() })
    );
    let names: Vec<Option<&str>> =
        lowered.entries().iter().map(|e| e.name().map(|name| name.value())).collect();
    assert_eq!(names, vec![None, None, Some("flag"), Some("nothing")]);
    assert_eq!(lowered.entries()[0].ty(), Some(&KdlIdentifier::from("f64")));
    assert_eq!(lowered.entries()[0].format().unwrap().value_repr, "1.0e1");
    assert_eq!(lowered.entries()[1].value(), &KdlValue::String("s".to_string()));
    assert_eq!(lowered.entries()[2].value(), &KdlValue::Bool(true));
    assert_eq!(lowered.entries()[3].value(), &KdlValue::Null);
    assert_eq!(lowered.entries()[3].ty(), Some(&KdlIdentifier::from("t")));

    let children = lowered.children().unwrap();
    assert_eq!(children.format(), None);
    assert_eq!(children.nodes().len(), 1);
    assert_eq!(children.nodes()[0].name().value(), "inner");
    assert_eq!(children.nodes()[0].children().unwrap().nodes().len(), 0);

    let lowered = lower_node(&document.nodes[1]);
    assert_eq!(lowered.name().value(), "second");
    assert_eq!(lowered.ty(), None);
    assert!(lowered.entries().is_empty());
    assert!(lowered.children().is_none());
}

#[test]
fn a_document_is_rebuilt_node_by_node() {
    let lowered = lower_document(&sample());
    assert_eq!(lowered.format(), None);
    let names: Vec<&str> = lowered.nodes().iter().map(|node| node.name().value()).collect();
    assert_eq!(names, vec!["first", "second"]);
    assert_eq!(lower_document(&Document { nodes: vec![] }), KdlDocument::new());
}

#[test]
fn a_document_is_printed_in_each_version() {
    let document = sample();
    assert_eq!(
        render(&document, KdlVersion::V2),
        "(kind)first (f64)1.0e1 s flag=#true nothing=(t)#null {\n    inner {\n    }\n}\nsecond\n"
    );
    assert_eq!(
        render(&document, KdlVersion::V1),
        "(kind)first (f64)1.0e1 \"s\" flag=true nothing=(t)null {\n    inner {\n    }\n}\nsecond\n"
    );
}

#[test]
fn formatting_comes_before_the_version() {
    let document = sample();
    let mut expected = lower_document(&document);
    expected.autoformat();
    expected.ensure_v1();
    assert_eq!(render(&document, KdlVersion::V1), expected.to_string());

    let mut expected = lower_document(&document);
    expected.autoformat();
    expected.ensure_v2();
    assert_eq!(render(&document, KdlVersion::V2), expected.to_string());

    let mut swapped = lower_document(&document);
    swapped.ensure_v1();
    swapped.autoformat();
    assert_ne!(render(&document, KdlVersion::V1), swapped.to_string());
}

#[test]
fn the_printed_text_is_read_back() {
    let document = sample();
    let read = KdlDocument::parse_v2(&render(&document, KdlVersion::V2)).unwrap();
    assert_eq!(read.nodes().len(), 2);
    assert_eq!(read.nodes()[0].entries().len(), 4);
    assert_eq!(read.nodes()[0].entries()[0].format().unwrap().value_repr, "1.0e1");
    let read = KdlDocument::parse_v1(&render(&document, KdlVersion::V1)).unwrap();
    assert_eq!(read.nodes().len(), 2);
    assert_eq!(read.nodes()[0].entries()[0].format().unwrap().value_repr, "1.0e1");
    assert_eq!(read.nodes()[0].get("flag"), Some(&KdlValue::Bool(true)));
}

#[test]
fn a_parsed_value_becomes_a_kdl_document() {
    let value: serde_json::Value = serde_json::from_str(
        r#"[{"name": "n", "arguments": [1.50, null], "properties": {"k": "v"}, "children": []}]"#,
    )
    .unwrap();
    let mut document = jsonkdl::convert::convert_value(&value).unwrap();
    assert_eq!(document.nodes().len(), 1);
    let node = &document.nodes()[0];
    assert_eq!(node.name().value(), "n");
    assert_eq!(node.entries().len(), 3);
    assert_eq!(node.entries()[0].format().unwrap().value_repr, "1.50");
    assert_eq!(node.entries()[1].value(), &KdlValue::Null);
    assert_eq!(node.get("k"), Some(&KdlValue::String("v".to_string())));
    assert_eq!(node.children().unwrap().nodes().len(), 0);
    document.autoformat();
    document.ensure_v2();
    assert_eq!(document.to_string(), "n 1.50 #null k=v {\n}\n");

    let value: serde_json::Value = serde_json::from_str(r#"[{"name": 1}]"#).unwrap();
    match jsonkdl::convert::convert_value(&value) {
        Err(jsonkdl::ConversionError::InvalidStructure(message)) => {
            assert_eq!(message, "name must be a string")
        }
        other => panic!("expected a structural error, got {other:?}"),
    }
}
