use ghactions_core::decode::{input_from_document, output_from_document};
use ghactions_core::document::{find, Found};
use ghactions_core::encode::{input_to_document, output_to_document};
use ghactions_core::yaml::parse_document;
use ghactions_core::{
    ActionBranding, ActionInput, ActionOutput, ActionRuns, ActionYML, Document, Field, ParamMap,
    StructureError,
};

fn text(s: &str) -> Document {
    Document::Text(s.to_string())
}

fn pair(key: &str, value: Document) -> (Document, Document) {
    (text(key), value)
}

fn minimal() -> Vec<(Document, Document)> {
    vec![
        pair("inputs", Document::Table(vec![])),
        pair("outputs", Document::Table(vec![])),
        pair("runs", Document::Table(vec![pair("using", text("docker"))])),
    ]
}

#[test]
fn parse_scalars() {
    assert_eq!(parse_document(b"hello"), Ok(text("hello")));
    assert_eq!(parse_document(b"'12'"), Ok(text("12")));
    assert_eq!(parse_document(b"true"), Ok(Document::Bool(true)));
    assert_eq!(parse_document(b"False"), Ok(Document::Bool(false)));
    assert_eq!(parse_document(b"~"), Ok(Document::Null));
    assert_eq!(parse_document(b""), Ok(Document::Null));
    assert_eq!(parse_document(b"12"), Ok(Document::Number(serde_yaml::Number::from(12u64))));
    assert_eq!(parse_document(b"-3"), Ok(Document::Number(serde_yaml::Number::from(-3i64))));
}

#[test]
fn parse_collections() {
    assert_eq!(
        parse_document(b"- a\n- [b, true]\n- {}\n"),
        Ok(Document::List(vec![
            text("a"),
            Document::List(vec![text("b"), Document::Bool(true)]),
            Document::Table(vec![]),
        ]))
    );
    assert_eq!(
        parse_document(b"z: 1\na:\n  k: v\n2: ~\n"),
        Ok(Document::Table(vec![
            (text("z"), Document::Number(serde_yaml::Number::from(1u64))),
            (text("a"), Document::Table(vec![pair("k", text("v"))])),
            (Document::Number(serde_yaml::Number::from(2u64)), Document::Null),
        ]))
    );
}

#[test]
fn parse_tagged() {
    let parsed = parse_document(b"!thing 5").unwrap();
    let expected = serde_yaml::value::TaggedValue {
        tag: serde_yaml::value::Tag::new("thing"),
        value: serde_yaml::Value::Number(serde_yaml::Number::from(5u64)),
    };
    assert_eq!(parsed, Document::Tagged(expected));
}

#[test]
fn parse_failure_has_a_message() {
    let message = parse_document(b"a: [1, 2").unwrap_err();
    assert!(!message.is_empty());
    assert!(parse_document(b"k: 1\nk: 2\n").is_err());
}

#[test]
fn find_in_a_table() {
    let doc = Document::Table(vec![
        pair("a", text("one")),
        (Document::Bool(true), text("x")),
        pair("b", Document::Null),
        pair("a", text("two")),
    ]);
    assert!(matches!(find(&doc, "a"), Found::Repeated));
    assert!(matches!(find(&doc, "b"), Found::Once(Document::Null)));
    assert!(matches!(find(&doc, "true"), Found::Absent));
    assert!(matches!(find(&doc, "c"), Found::Absent));
    assert!(matches!(find(&Document::Null, "a"), Found::Absent));
    match find(&doc, "b") {
        Found::Once(found) => assert_eq!(found, &Document::Null),
        _ => panic!("b occurs once"),
    }
}

#[test]
fn descriptor_from_a_minimal_document() {
    let action = ActionYML::from_document(&Document::Table(minimal())).unwrap();
    assert_eq!(
        action,
        ActionYML {
            path: None,
            name: None,
            description: None,
            author: None,
            branding: None,
            inputs: ParamMap::new(),
            outputs: ParamMap::new(),
            runs: ActionRuns { using: "docker".to_string(), image: None, args: None },
        }
    );
}

#[test]
fn duplicate_keys_in_a_document() {
    let mut entries = minimal();
    entries.push(pair("runs", Document::Null));
    assert_eq!(
        ActionYML::from_document(&Document::Table(entries)),
        Err(StructureError::Duplicate(Field::Runs))
    );
    let mut entries = minimal();
    entries.insert(0, pair("name", text("a")));
    entries.push(pair("name", text("a")));
    assert_eq!(
        ActionYML::from_document(&Document::Table(entries)),
        Err(StructureError::Duplicate(Field::Name))
    );
    let mut entries = minimal();
    entries.push(pair("branding", Document::Null));
    entries.push(pair("branding", Document::Null));
    assert_eq!(
        ActionYML::from_document(&Document::Table(entries)),
        Err(StructureError::Duplicate(Field::Branding))
    );
    let mut entries = minimal();
    entries[0] = pair(
        "inputs",
        Document::Table(vec![
            pair("a", Document::Null),
            pair("b", Document::Null),
            pair("a", Document::Table(vec![])),
        ]),
    );
    assert_eq!(
        ActionYML::from_document(&Document::Table(entries)),
        Err(StructureError::Duplicate(Field::Inputs))
    );
    let mut entries = minimal();
    entries[1] = pair("outputs", Document::Table(vec![pair("o", Document::Null), pair("o", Document::Null)]));
    assert_eq!(
        ActionYML::from_document(&Document::Table(entries)),
        Err(StructureError::Duplicate(Field::Outputs))
    );
    let mut entries = minimal();
    entries.push(pair("other", Document::Null));
    entries.push(pair("other", Document::Null));
    assert!(ActionYML::from_document(&Document::Table(entries)).is_ok());
    let doubled = Document::Table(vec![pair("required", Document::Bool(true)), pair("required", Document::Bool(true))]);
    assert_eq!(input_from_document(&doubled), Err(StructureError::Duplicate(Field::InputRequired)));
}

#[test]
fn document_of_a_descriptor() {
    let mut inputs = ParamMap::new();
    inputs.insert(
        "who".to_string(),
        ActionInput {
            kind: "string".to_string(),
            description: Some("Who to greet".to_string()),
            required: Some(true),
            default: Some("world".to_string()),
            deprecation_message: None,
        },
    );
    let mut outputs = ParamMap::new();
    outputs.insert("time".to_string(), ActionOutput { description: None });
    let action = ActionYML {
        path: Some("x/action.yml".to_string()),
        name: Some("hello".to_string()),
        description: None,
        author: None,
        branding: Some(ActionBranding { color: "green".to_string(), icon: "sun".to_string() }),
        inputs,
        outputs,
        runs: ActionRuns {
            using: "docker".to_string(),
            image: None,
            args: Some(vec!["a".to_string()]),
        },
    };
    let doc = action.to_document();
    assert_eq!(
        doc,
        Document::Table(vec![
            pair("name", text("hello")),
            pair(
                "branding",
                Document::Table(vec![pair("color", text("green")), pair("icon", text("sun"))])
            ),
            pair(
                "inputs",
                Document::Table(vec![pair(
                    "who",
                    Document::Table(vec![
                        pair("description", text("Who to greet")),
                        pair("required", Document::Bool(true)),
                        pair("default", text("world")),
                    ])
                )])
            ),
            pair("outputs", Document::Table(vec![pair("time", Document::Table(vec![]))])),
            pair(
                "runs",
                Document::Table(vec![
                    pair("using", text("docker")),
                    pair("args", Document::List(vec![text("a")])),
                ])
            ),
        ])
    );
    let back = ActionYML::from_document(&doc).unwrap();
    assert_eq!(back.path, None);
    assert_eq!(back.inputs.get("who").unwrap().kind, "");
    assert_eq!(back.name, action.name);
    assert_eq!(back.branding, action.branding);
    assert_eq!(back.outputs, action.outputs);
    assert_eq!(back.runs, action.runs);
    assert_eq!(back.to_document(), doc);
}

#[test]
fn input_and_output_nodes() {
    let input = ActionInput {
        kind: "k".to_string(),
        description: None,
        required: None,
        default: None,
        deprecation_message: Some("old".to_string()),
    };
    let doc = input_to_document(&input);
    assert_eq!(doc, Document::Table(vec![pair("deprecationMessage", text("old"))]));
    assert_eq!(
        input_from_document(&doc),
        Ok(ActionInput { kind: String::new(), ..input })
    );
    assert_eq!(input_from_document(&Document::Null), Ok(ActionInput::default()));
    assert_eq!(
        input_from_document(&Document::Bool(true)),
        Err(StructureError::Invalid(Field::Input))
    );
    let output = ActionOutput { description: Some("d".to_string()) };
    let doc = output_to_document(&output);
    assert_eq!(doc, Document::Table(vec![pair("description", text("d"))]));
    assert_eq!(output_from_document(&doc), Ok(output));
    assert_eq!(output_from_document(&Document::Null), Ok(ActionOutput::default()));
    assert_eq!(
        output_from_document(&Document::List(vec![])),
        Err(StructureError::Invalid(Field::Output))
    );
}
