use ghactions_core::{
    ActionBranding, ActionInput, ActionOutput, ActionRuns, ActionYML, ActionsError, Field,
    LoadError, ParamMap, StructureError, PACKAGE_NAME,
};

fn sample() -> ActionYML {
    let mut inputs = ParamMap::new();
    inputs.insert(
        "token".to_string(),
        ActionInput {
            kind: "string".to_string(),
            description: Some("Access token".to_string()),
            required: Some(true),
            default: None,
            deprecation_message: None,
        },
    );
    inputs.insert(
        "mode".to_string(),
        ActionInput {
            kind: String::new(),
            description: None,
            required: Some(false),
            default: Some("fast".to_string()),
            deprecation_message: Some("use speed".to_string()),
        },
    );
    let mut outputs = ParamMap::new();
    outputs.insert(
        "report".to_string(),
        ActionOutput { description: Some("Where the report is".to_string()) },
    );
    ActionYML {
        path: Some("out/action.yml".to_string()),
        name: Some("sample".to_string()),
        description: Some("A sample action".to_string()),
        author: Some("someone".to_string()),
        branding: Some(ActionBranding { color: "red".to_string(), icon: "check".to_string() }),
        inputs,
        outputs,
        runs: ActionRuns {
            using: "docker".to_string(),
            image: Some("./Dockerfile".to_string()),
            args: Some(vec!["--mode".to_string(), "fast".to_string()]),
        },
    }
}

#[test]
fn default_descriptor() {
    let action = ActionYML::default();
    assert_eq!(action.path, None);
    assert_eq!(action.name, Some("ghactions-core".to_string()));
    assert_eq!(PACKAGE_NAME, "ghactions-core");
    assert_eq!(action.description, None);
    assert_eq!(action.author, None);
    assert_eq!(action.branding, None);
    assert!(action.inputs.is_empty());
    assert!(action.outputs.is_empty());
    assert_eq!(action.runs.using, "docker");
    assert_eq!(action.runs.image, Some("./Dockerfile".to_string()));
    assert_eq!(action.runs.args, None);
}

#[test]
fn default_runs() {
    let runs = ActionRuns::default();
    assert_eq!(
        runs,
        ActionRuns {
            using: "docker".to_string(),
            image: Some("./Dockerfile".to_string()),
            args: None,
        }
    );
}

#[test]
fn default_input_and_output() {
    assert_eq!(
        ActionInput::default(),
        ActionInput {
            kind: String::new(),
            description: None,
            required: None,
            default: None,
            deprecation_message: None,
        }
    );
    assert_eq!(ActionOutput::default(), ActionOutput { description: None });
}

#[test]
fn write_without_location_is_not_implemented() {
    let action = ActionYML::default();
    assert_eq!(action.write(), Err(ActionsError::NotImplemented));
}

#[test]
fn write_gives_the_location_and_the_text() {
    let mut action = ActionYML::default();
    action.path = Some("some/dir/action.yml".to_string());
    let (path, text) = action.write().unwrap();
    assert_eq!(path, "some/dir/action.yml");
    assert_eq!(
        text,
        "name: ghactions-core\ninputs: {}\noutputs: {}\nruns:\n  using: docker\n  image: ./Dockerfile\n"
    );
    assert_eq!(action.path, Some("some/dir/action.yml".to_string()));
}

#[test]
fn write_the_sample() {
    let (path, text) = sample().write().unwrap();
    assert_eq!(path, "out/action.yml");
    assert_eq!(
        text,
        "name: sample\n\
         description: A sample action\n\
         author: someone\n\
         branding:\n  color: red\n  icon: check\n\
         inputs:\n  token:\n    description: Access token\n    required: true\n  \
         mode:\n    required: false\n    default: fast\n    deprecationMessage: use speed\n\
         outputs:\n  report:\n    description: Where the report is\n\
         runs:\n  using: docker\n  image: ./Dockerfile\n  args:\n  - --mode\n  - fast\n"
    );
}

#[test]
fn round_trip() {
    let action = sample();
    let (path, text) = action.write().unwrap();
    let loaded = ActionYML::load_action(path, text.as_bytes()).unwrap();
    let mut expected = sample();
    let mut inputs = ParamMap::new();
    inputs.insert(
        "token".to_string(),
        ActionInput {
            kind: String::new(),
            description: Some("Access token".to_string()),
            required: Some(true),
            default: None,
            deprecation_message: None,
        },
    );
    inputs.insert(
        "mode".to_string(),
        ActionInput {
            kind: String::new(),
            description: None,
            required: Some(false),
            default: Some("fast".to_string()),
            deprecation_message: Some("use speed".to_string()),
        },
    );
    expected.inputs = inputs;
    assert_eq!(loaded, expected);
    assert_eq!(loaded.path, action.path);
    assert_eq!(loaded.inputs.get("token").unwrap().kind, "");
}

#[test]
fn round_trip_of_awkward_strings() {
    let mut action = ActionYML::default();
    action.path = Some("action.yml".to_string());
    action.name = Some("true".to_string());
    action.description = Some("".to_string());
    action.author = Some("line one\nline two: with colon # and hash".to_string());
    action.runs.args = Some(vec!["12".to_string(), "~".to_string(), "null".to_string()]);
    action.inputs.insert(
        "1".to_string(),
        ActionInput { default: Some("0x10".to_string()), ..ActionInput::default() },
    );
    let (path, text) = action.write().unwrap();
    let loaded = ActionYML::load_action(path, text.as_bytes()).unwrap();
    assert_eq!(loaded, action);
}

#[test]
fn absent_author_is_omitted() {
    let mut action = sample();
    action.author = None;
    let (_, text) = action.write().unwrap();
    assert!(!text.contains("author"));
    assert!(text.contains("name: sample\ndescription: A sample action\nbranding:"));
}

#[test]
fn absent_fields_are_omitted() {
    let mut action = ActionYML::default();
    action.path = Some("action.yml".to_string());
    action.name = None;
    action.runs.image = None;
    let (_, text) = action.write().unwrap();
    assert_eq!(text, "inputs: {}\noutputs: {}\nruns:\n  using: docker\n");
}

#[test]
fn kind_and_location_are_not_written() {
    let mut action = ActionYML::default();
    action.path = Some("secret/place.yml".to_string());
    action.inputs.insert(
        "x".to_string(),
        ActionInput { kind: "number".to_string(), ..ActionInput::default() },
    );
    let (_, text) = action.write().unwrap();
    assert!(!text.contains("secret"));
    assert!(!text.contains("number"));
    assert!(!text.contains("kind"));
    assert!(!text.contains("type"));
    assert_eq!(
        text,
        "name: ghactions-core\ninputs:\n  x: {}\noutputs: {}\nruns:\n  using: docker\n  image: ./Dockerfile\n"
    );
}

#[test]
fn branding_needs_both_color_and_icon() {
    let text = "branding: { color: \"red\" }\ninputs: {}\noutputs: {}\nruns:\n  using: docker\n";
    assert_eq!(
        ActionYML::load_action("action.yml".to_string(), text.as_bytes()),
        Err(LoadError::Structure(StructureError::Missing(Field::BrandingIcon)))
    );
    let text = "branding: { icon: \"x\" }\ninputs: {}\noutputs: {}\nruns:\n  using: docker\n";
    assert_eq!(
        ActionYML::load_action("action.yml".to_string(), text.as_bytes()),
        Err(LoadError::Structure(StructureError::Missing(Field::BrandingColor)))
    );
}

#[test]
fn input_with_only_required() {
    let text = "inputs:\n  flag:\n    required: true\noutputs: {}\nruns:\n  using: node\n";
    let action = ActionYML::load_action("a/b.yml".to_string(), text.as_bytes()).unwrap();
    assert_eq!(action.path, Some("a/b.yml".to_string()));
    assert_eq!(action.name, None);
    assert_eq!(action.inputs.len(), 1);
    assert_eq!(
        action.inputs.get("flag"),
        Some(&ActionInput {
            kind: String::new(),
            description: None,
            required: Some(true),
            default: None,
            deprecation_message: None,
        })
    );
    assert_eq!(action.runs, ActionRuns { using: "node".to_string(), image: None, args: None });
    let (_, written) = action.write().unwrap();
    assert_eq!(
        written,
        "inputs:\n  flag:\n    required: true\noutputs: {}\nruns:\n  using: node\n"
    );
}

#[test]
fn load_sets_the_location_from_the_argument() {
    let text = "path: elsewhere\ninputs: {}\noutputs: {}\nruns: {using: docker}\n";
    let action = ActionYML::load_action("here.yml".to_string(), text.as_bytes()).unwrap();
    assert_eq!(action.path, Some("here.yml".to_string()));
}

#[test]
fn load_a_full_document() {
    let text = "\
name: Full
description: Everything at once
author: me
branding:
  color: blue
  icon: star
unknown: [1, 2, 3]
inputs:
  first:
    description: The first
    required: false
    default: one
    deprecationMessage: gone soon
    type: ignored
  second:
outputs:
  result:
    description: The result
  bare: {}
runs:
  using: docker
  image: docker://alpine
  args:
    - a
    - 'b c'
";
    let action = ActionYML::load_action("action.yml".to_string(), text.as_bytes()).unwrap();
    assert_eq!(action.name, Some("Full".to_string()));
    assert_eq!(action.description, Some("Everything at once".to_string()));
    assert_eq!(action.author, Some("me".to_string()));
    assert_eq!(
        action.branding,
        Some(ActionBranding { color: "blue".to_string(), icon: "star".to_string() })
    );
    assert_eq!(action.inputs.len(), 2);
    assert_eq!(
        action.inputs.get_index(0),
        Some((
            &"first".to_string(),
            &ActionInput {
                kind: String::new(),
                description: Some("The first".to_string()),
                required: Some(false),
                default: Some("one".to_string()),
                deprecation_message: Some("gone soon".to_string()),
            }
        ))
    );
    assert_eq!(action.inputs.get_index(1), Some((&"second".to_string(), &ActionInput::default())));
    assert_eq!(action.inputs.get_index(2), None);
    assert_eq!(action.outputs.len(), 2);
    assert_eq!(
        action.outputs.get("result"),
        Some(&ActionOutput { description: Some("The result".to_string()) })
    );
    assert_eq!(action.outputs.get("bare"), Some(&ActionOutput { description: None }));
    assert_eq!(
        action.runs,
        ActionRuns {
            using: "docker".to_string(),
            image: Some("docker://alpine".to_string()),
            args: Some(vec!["a".to_string(), "b c".to_string()]),
        }
    );
}

#[test]
fn null_stands_for_an_absent_value() {
    let text = "name: ~\nauthor:\nbranding: null\ninputs:\noutputs: ~\nruns:\n  using: x\n  image: ~\n  args:\n";
    let action = ActionYML::load_action("a.yml".to_string(), text.as_bytes()).unwrap();
    assert_eq!(action.name, None);
    assert_eq!(action.author, None);
    assert_eq!(action.branding, None);
    assert!(action.inputs.is_empty());
    assert!(action.outputs.is_empty());
    assert_eq!(action.runs, ActionRuns { using: "x".to_string(), image: None, args: None });
}

fn load(text: &str) -> Result<ActionYML, LoadError> {
    ActionYML::load_action("action.yml".to_string(), text.as_bytes())
}

fn structure(text: &str) -> StructureError {
    match load(text) {
        Err(LoadError::Structure(reason)) => reason,
        other => panic!("expected a structure error, got {:?}", other),
    }
}

#[test]
fn missing_fields() {
    assert_eq!(structure("outputs: {}\nruns: {using: a}\n"), StructureError::Missing(Field::Inputs));
    assert_eq!(structure("inputs: {}\nruns: {using: a}\n"), StructureError::Missing(Field::Outputs));
    assert_eq!(structure("inputs: {}\noutputs: {}\n"), StructureError::Missing(Field::Runs));
    assert_eq!(
        structure("inputs: {}\noutputs: {}\nruns: {image: x}\n"),
        StructureError::Missing(Field::RunsUsing)
    );
    assert_eq!(
        structure("inputs: {}\noutputs: {}\nruns:\n"),
        StructureError::Missing(Field::RunsUsing)
    );
    assert_eq!(structure(""), StructureError::Missing(Field::Inputs));
}

#[test]
fn wrong_types() {
    assert_eq!(structure("- a\n- b\n"), StructureError::Invalid(Field::Root));
    assert_eq!(structure("just text"), StructureError::Invalid(Field::Root));
    assert_eq!(
        structure("name: [a]\ninputs: {}\noutputs: {}\nruns: {using: a}\n"),
        StructureError::Invalid(Field::Name)
    );
    assert_eq!(
        structure("name: 12\ninputs: {}\noutputs: {}\nruns: {using: a}\n"),
        StructureError::Invalid(Field::Name)
    );
    assert_eq!(
        structure("description: true\ninputs: {}\noutputs: {}\nruns: {using: a}\n"),
        StructureError::Invalid(Field::Description)
    );
    assert_eq!(
        structure("author: {a: b}\ninputs: {}\noutputs: {}\nruns: {using: a}\n"),
        StructureError::Invalid(Field::Author)
    );
    assert_eq!(
        structure("branding: red\ninputs: {}\noutputs: {}\nruns: {using: a}\n"),
        StructureError::Invalid(Field::Branding)
    );
    assert_eq!(
        structure("branding: {color: 1, icon: x}\ninputs: {}\noutputs: {}\nruns: {using: a}\n"),
        StructureError::Invalid(Field::BrandingColor)
    );
    assert_eq!(
        structure("branding: {color: c, icon: [x]}\ninputs: {}\noutputs: {}\nruns: {using: a}\n"),
        StructureError::Invalid(Field::BrandingIcon)
    );
    assert_eq!(
        structure("inputs: [a]\noutputs: {}\nruns: {using: a}\n"),
        StructureError::Invalid(Field::Inputs)
    );
    assert_eq!(
        structure("inputs: {1: {}}\noutputs: {}\nruns: {using: a}\n"),
        StructureError::Invalid(Field::Inputs)
    );
    assert_eq!(
        structure("inputs: {a: text}\noutputs: {}\nruns: {using: a}\n"),
        StructureError::Invalid(Field::Input)
    );
    assert_eq!(
        structure("inputs: {a: {description: []}}\noutputs: {}\nruns: {using: a}\n"),
        StructureError::Invalid(Field::InputDescription)
    );
    assert_eq!(
        structure("inputs: {a: {required: \"true\"}}\noutputs: {}\nruns: {using: a}\n"),
        StructureError::Invalid(Field::InputRequired)
    );
    assert_eq!(
        structure("inputs: {a: {default: 3}}\noutputs: {}\nruns: {using: a}\n"),
        StructureError::Invalid(Field::InputDefault)
    );
    assert_eq!(
        structure("inputs: {a: {deprecationMessage: false}}\noutputs: {}\nruns: {using: a}\n"),
        StructureError::Invalid(Field::InputDeprecationMessage)
    );
    assert_eq!(
        structure("inputs: {}\noutputs: 7\nruns: {using: a}\n"),
        StructureError::Invalid(Field::Outputs)
    );
    assert_eq!(
        structure("inputs: {}\noutputs: {o: [1]}\nruns: {using: a}\n"),
        StructureError::Invalid(Field::Output)
    );
    assert_eq!(
        structure("inputs: {}\noutputs: {o: {description: 1.5}}\nruns: {using: a}\n"),
        StructureError::Invalid(Field::OutputDescription)
    );
    assert_eq!(
        structure("inputs: {}\noutputs: {}\nruns: docker\n"),
        StructureError::Invalid(Field::Runs)
    );
    assert_eq!(
        structure("inputs: {}\noutputs: {}\nruns: {using: ~}\n"),
        StructureError::Invalid(Field::RunsUsing)
    );
    assert_eq!(
        structure("inputs: {}\noutputs: {}\nruns: {using: a, image: [x]}\n"),
        StructureError::Invalid(Field::RunsImage)
    );
    assert_eq!(
        structure("inputs: {}\noutputs: {}\nruns: {using: a, args: x}\n"),
        StructureError::Invalid(Field::RunsArgs)
    );
    assert_eq!(
        structure("inputs: {}\noutputs: {}\nruns: {using: a, args: [x, 1]}\n"),
        StructureError::Invalid(Field::RunsArgs)
    );
    assert_eq!(
        structure("inputs: {}\noutputs: {}\nruns: {using: a, args: [x, !tag y]}\n"),
        StructureError::Invalid(Field::RunsArgs)
    );
}

#[test]
fn the_first_fault_decides() {
    assert_eq!(
        structure("name: [a]\ndescription: [b]\n"),
        StructureError::Invalid(Field::Name)
    );
    assert_eq!(
        structure("runs: 1\noutputs: 2\ninputs: {a: {required: 3, description: 4}}\n"),
        StructureError::Invalid(Field::InputDescription)
    );
    assert_eq!(
        structure("inputs: {a: {}, b: 1, 2: {}}\n"),
        StructureError::Invalid(Field::Input)
    );
}

#[test]
fn syntax_errors() {
    assert!(matches!(load("name: [unclosed\n"), Err(LoadError::Syntax(_))));
    assert!(matches!(load("a: b: c: d\n  e\n - f"), Err(LoadError::Syntax(_))));
    assert!(matches!(load("name: x\nname: y\n"), Err(LoadError::Syntax(_))));
    match load("name: *nowhere\n") {
        Err(LoadError::Syntax(message)) => assert!(!message.is_empty()),
        other => panic!("expected a syntax error, got {:?}", other),
    }
    assert!(matches!(
        ActionYML::load_action("a.yml".to_string(), &[0xff, 0xfe, 0x00]),
        Err(LoadError::Syntax(_))
    ));
}

#[test]
fn unknown_keys_are_passed_over() {
    let text = "extra: 1\ninputs: {}\n2: two\noutputs: {}\n[a, b]: c\nruns: {using: a, more: [1]}\n";
    let action = load(text).unwrap();
    assert_eq!(action.runs.using, "a");
    assert_eq!(action.name, None);
}
