use image_job::document::{Document, Member};
use image_job::error::GenerationError;
use image_job::json::{document_of, parse_document};
use image_job::request::{build, build_with_seed};
use image_job::template::{prompt_path, seed_path, GenerationTemplate};

const GRAPH: &str = r#"{
  "16": {
    "class_type": "CLIPTextEncode",
    "inputs": { "clip": ["4", 1], "text": "a placeholder" }
  },
  "3": {
    "class_type": "KSampler",
    "inputs": { "cfg": 4.5, "denoise": 1, "model": ["4", 0], "seed": 42, "steps": 28 }
  },
  "4": {
    "class_type": "CheckpointLoaderSimple",
    "inputs": { "ckpt_name": "sd3_medium.safetensors" }
  }
}"#;

const GRAPH_WITHOUT_PROMPT: &str = r#"{
  "16": { "class_type": "CLIPTextEncode", "inputs": { "clip": ["4", 1] } },
  "3": { "class_type": "KSampler", "inputs": { "seed": 42 } }
}"#;

const GRAPH_WITHOUT_SEED: &str = r#"{
  "16": { "class_type": "CLIPTextEncode", "inputs": { "text": "" } },
  "3": { "class_type": "KSampler", "inputs": { "steps": 28 } }
}"#;

fn text(value: &str) -> Document {
    Document::Text(value.to_string())
}

fn number(literal: &str) -> Document {
    Document::Number(literal.to_string())
}

fn object(members: Vec<(&str, Document)>) -> Document {
    Document::Object(
        members.into_iter().map(|(name, value)| Member { name: name.to_string(), value }).collect(),
    )
}

fn path(names: &[&str]) -> Vec<String> {
    names.iter().map(|name| name.to_string()).collect()
}

fn graph_with(prompt: &str, seed: &str) -> Document {
    object(vec![
        (
            "16",
            object(vec![
                ("class_type", text("CLIPTextEncode")),
                (
                    "inputs",
                    object(vec![
                        ("clip", Document::Array(vec![text("4"), number("1")])),
                        ("text", text(prompt)),
                    ]),
                ),
            ]),
        ),
        (
            "3",
            object(vec![
                ("class_type", text("KSampler")),
                (
                    "inputs",
                    object(vec![
                        ("cfg", number("4.5")),
                        ("denoise", number("1")),
                        ("model", Document::Array(vec![text("4"), number("0")])),
                        ("seed", number(seed)),
                        ("steps", number("28")),
                    ]),
                ),
            ]),
        ),
        (
            "4",
            object(vec![
                ("class_type", text("CheckpointLoaderSimple")),
                ("inputs", object(vec![("ckpt_name", text("sd3_medium.safetensors"))])),
            ]),
        ),
    ])
}

#[test]
fn parse_document_reads_every_kind_of_value() {
    let parsed = parse_document(r#"{"a": null, "b": [true, false, -3, 2.5, "x"], "c": {}}"#);
    let expected = object(vec![
        ("a", Document::Null),
        (
            "b",
            Document::Array(vec![
                Document::Bool(true),
                Document::Bool(false),
                number("-3"),
                number("2.5"),
                text("x"),
            ]),
        ),
        ("c", object(vec![])),
    ]);
    assert_eq!(parsed, Some(expected));
}

#[test]
fn parse_document_reads_scalars_at_the_root() {
    assert_eq!(parse_document("17"), Some(number("17")));
    assert_eq!(parse_document("\"seventeen\""), Some(text("seventeen")));
    assert_eq!(parse_document(" null "), Some(Document::Null));
}

#[test]
fn parse_document_rejects_what_is_not_json() {
    assert_eq!(parse_document(""), None);
    assert_eq!(parse_document("{"), None);
    assert_eq!(parse_document("{\"a\": }"), None);
    assert_eq!(parse_document("[1, 2,]"), None);
    assert_eq!(parse_document("{} trailing"), None);
}

#[test]
fn load_holds_what_the_text_says() {
    let template = GenerationTemplate::load(GRAPH).unwrap();
    assert_eq!(*template.graph(), graph_with("a placeholder", "42"));
    assert!(template.complete());
}

#[test]
fn load_gives_the_same_template_every_time() {
    assert_eq!(GenerationTemplate::load(GRAPH), GenerationTemplate::load(GRAPH));
}

#[test]
fn load_fails_on_text_that_is_not_json() {
    assert_eq!(GenerationTemplate::load("not a graph"), Err(GenerationError::MalformedTemplate));
}

#[test]
fn build_with_seed_overwrites_the_two_fields_and_nothing_else() {
    let template = GenerationTemplate::load(GRAPH).unwrap();
    let request = build_with_seed(&template, "a red fox", 1234567890123).unwrap();
    assert_eq!(*request.graph(), graph_with("a red fox", "1234567890123"));
    assert_eq!(request.prompt(), "a red fox");
    assert_eq!(request.seed(), "1234567890123");
    assert_eq!(*template.graph(), graph_with("a placeholder", "42"));
}

#[test]
fn build_with_seed_takes_every_seed() {
    let template = GenerationTemplate::load(GRAPH).unwrap();
    assert_eq!(build_with_seed(&template, "x", 0).unwrap().seed(), "0");
    assert_eq!(
        build_with_seed(&template, "x", u64::MAX).unwrap().seed(),
        "18446744073709551615"
    );
}

#[test]
fn build_sets_the_prompt_and_draws_a_seed() {
    let template = GenerationTemplate::load(GRAPH).unwrap();
    let request = build(&template, "sunset over mountains").unwrap();
    assert_eq!(request.prompt(), "sunset over mountains");
    let seed: u64 = request.seed().parse().unwrap();
    assert_eq!(*request.graph(), graph_with("sunset over mountains", &seed.to_string()));
}

#[test]
fn build_draws_a_fresh_seed_for_every_request() {
    let template = GenerationTemplate::load(GRAPH).unwrap();
    let first = build(&template, "x").unwrap();
    let second = build(&template, "x").unwrap();
    let third = build(&template, "x").unwrap();
    assert!(first.seed() != second.seed() || second.seed() != third.seed());
}

#[test]
fn build_fails_on_a_template_without_the_prompt_field() {
    let template = GenerationTemplate::load(GRAPH_WITHOUT_PROMPT).unwrap();
    assert!(!template.complete());
    assert_eq!(build(&template, "a red fox"), Err(GenerationError::MalformedTemplate));
    assert_eq!(build_with_seed(&template, "a red fox", 1), Err(GenerationError::MalformedTemplate));
}

#[test]
fn build_fails_on_a_template_without_the_seed_field() {
    let template = GenerationTemplate::load(GRAPH_WITHOUT_SEED).unwrap();
    assert_eq!(build(&template, "a red fox"), Err(GenerationError::MalformedTemplate));
}

#[test]
fn build_fails_on_a_template_that_is_no_graph() {
    let template = GenerationTemplate::new(Document::Array(vec![]));
    assert_eq!(build(&template, "a red fox"), Err(GenerationError::MalformedTemplate));
    let template = GenerationTemplate::new(object(vec![("16", text("inputs"))]));
    assert_eq!(build(&template, "a red fox"), Err(GenerationError::MalformedTemplate));
}

#[test]
fn the_two_addresses_name_the_prompt_and_the_seed() {
    assert_eq!(prompt_path(), path(&["16", "inputs", "text"]));
    assert_eq!(seed_path(), path(&["3", "inputs", "seed"]));
}

#[test]
fn lookup_follows_member_names() {
    let graph = graph_with("p", "7");
    assert_eq!(graph.lookup(&path(&[])), Some(&graph));
    assert_eq!(graph.lookup(&path(&["16", "inputs", "text"])), Some(&text("p")));
    assert_eq!(graph.lookup(&path(&["3", "class_type"])), Some(&text("KSampler")));
    assert_eq!(graph.lookup(&path(&["3", "inputs", "nothing"])), None);
    assert_eq!(graph.lookup(&path(&["3", "class_type", "deeper"])), None);
    assert_eq!(graph.member("4").and_then(|node| node.member("class_type")), Some(&text("CheckpointLoaderSimple")));
    assert_eq!(graph.member("5"), None);
    assert_eq!(text("x").member("x"), None);
}

#[test]
fn replaced_changes_one_value_in_a_copy() {
    let graph = graph_with("p", "7");
    let changed = graph.replaced(&path(&["3", "inputs", "steps"]), number("30"));
    assert_eq!(changed.lookup(&path(&["3", "inputs", "steps"])), Some(&number("30")));
    assert_eq!(changed.lookup(&path(&["3", "inputs", "seed"])), Some(&number("7")));
    assert_eq!(changed.lookup(&path(&["16"])), graph.lookup(&path(&["16"])));
    assert_eq!(graph.lookup(&path(&["3", "inputs", "steps"])), Some(&number("28")));
}

#[test]
fn replaced_changes_nothing_where_the_path_does_not_resolve() {
    let graph = graph_with("p", "7");
    assert_eq!(graph.replaced(&path(&["3", "outputs", "seed"]), number("1")), graph);
    assert_eq!(graph.replaced(&path(&["99"]), Document::Null), graph);
    assert_eq!(graph.replaced(&path(&[]), Document::Null), Document::Null);
}

#[test]
fn deep_copy_equals_the_document() {
    let graph = graph_with("p", "7");
    assert_eq!(graph.deep_copy(), graph);
}

#[test]
fn document_of_copies_a_value_level_by_level() {
    let mut inputs = serde_json::Map::new();
    inputs.insert("seed".to_string(), serde_json::Value::from(7u64));
    inputs.insert("text".to_string(), serde_json::Value::from("p"));
    let value = serde_json::Value::Array(vec![
        serde_json::Value::Null,
        serde_json::Value::Bool(true),
        serde_json::Value::from(-12i64),
        serde_json::Value::Object(inputs),
    ]);
    let expected = Document::Array(vec![
        Document::Null,
        Document::Bool(true),
        number("-12"),
        object(vec![("seed", number("7")), ("text", text("p"))]),
    ]);
    assert_eq!(document_of(&value), expected);
}
