use std::collections::HashMap;

use toml_config::{enhance_error_message, load_from_toml, ConfigError, Node};

/// A target schema that expects a string where the documents under test
/// carry a table, so typed deserialization fails at `functions.my_func`.
type StringLeaves = HashMap<String, HashMap<String, String>>;

#[test]
fn test_variant_suggestion() {
    let toml = r#"
            [functions.my_func.variants]
            prod = { type = "aws" }
            staging = {}
        "#;

    let err = load_from_toml::<StringLeaves>(toml).unwrap_err();
    assert!(err.message().contains("variants"));
    assert!(err.message().contains("prod"));
    assert!(err.message().contains("staging"));
}

#[test]
fn test_inline_table() {
    let toml = r#"
            [functions.my_func]
            variants = { prod = { type = "aws" }, staging = {} }
        "#;

    let err = load_from_toml::<StringLeaves>(toml).unwrap_err();
    assert!(err.message().contains("prod"));
}

#[test]
fn test_commented_variants() {
    let toml = r#"
            [functions.my_func.variants]
            # prod = { type = "aws" }
            staging = {}
        "#;

    let err = load_from_toml::<StringLeaves>(toml).unwrap_err();
    assert!(!err.message().contains("prod"));
    assert!(err.message().contains("staging"));
}

#[test]
fn syntax_error_takes_precedence() {
    let toml = "this is [ not = valid toml";

    let err = load_from_toml::<StringLeaves>(toml).unwrap_err();
    assert!(matches!(err, ConfigError::TomlParse(_)));
    assert!(err.message().starts_with("Invalid TOML syntax: "));

    // The same input gives a syntax error whatever the target schema.
    let err = load_from_toml::<HashMap<String, String>>(toml).unwrap_err();
    assert!(matches!(err, ConfigError::TomlParse(_)));
    assert!(err.message().starts_with("Invalid TOML syntax: "));
}

#[test]
fn well_formed_input_loads() {
    let toml = "greeting = \"hello\"\nfarewell = \"bye\"\n";

    let loaded = load_from_toml::<HashMap<String, String>>(toml).unwrap();
    assert_eq!(loaded.get("greeting").map(String::as_str), Some("hello"));
    assert_eq!(loaded.get("farewell").map(String::as_str), Some("bye"));
}

#[test]
fn schema_mismatch_is_deserialization_error() {
    let toml = "[functions.my_func.variants]\nprod = { type = \"aws\" }\n";

    let err = load_from_toml::<StringLeaves>(toml).unwrap_err();
    assert!(matches!(err, ConfigError::Deserialization(_)));
}

fn sample_doc() -> Node {
    // top.variants = { prod (table), staging (empty table), note (scalar) }
    Node::Table(vec![(
        "top".to_string(),
        Node::Table(vec![(
            "variants".to_string(),
            Node::Table(vec![
                (
                    "prod".to_string(),
                    Node::Table(vec![("type".to_string(), Node::Leaf)]),
                ),
                ("staging".to_string(), Node::Table(vec![])),
                ("note".to_string(), Node::Leaf),
            ]),
        )]),
    )])
}

#[test]
fn enhancement_appends_exact_suggestion_block() {
    let doc = sample_doc();
    let enhanced = enhance_error_message(&doc, "top", "boom").unwrap();
    assert_eq!(
        enhanced,
        "boom\n\nHelp: The error occurred in a table that contains these variants:\
         \n  - prod\n  - staging"
    );
}

#[test]
fn enhancement_starts_with_original_message() {
    let doc = sample_doc();
    let original = "invalid type: map, expected a string";
    let enhanced = enhance_error_message(&doc, "top", original).unwrap();
    assert!(enhanced.starts_with(original));
}

#[test]
fn empty_inline_table_is_suggested_scalar_is_not() {
    let doc = sample_doc();
    let enhanced = enhance_error_message(&doc, "top", "boom").unwrap();
    assert!(enhanced.contains("staging"));
    assert!(!enhanced.contains("note"));
}

#[test]
fn suggestions_keep_document_order() {
    let doc = Node::Table(vec![(
        "top".to_string(),
        Node::Table(vec![(
            "variants".to_string(),
            Node::Table(vec![
                ("zeta".to_string(), Node::Table(vec![])),
                ("alpha".to_string(), Node::Table(vec![])),
                ("mid".to_string(), Node::Table(vec![])),
            ]),
        )]),
    )]);
    let enhanced = enhance_error_message(&doc, "top", "x").unwrap();
    let zeta = enhanced.find("zeta").unwrap();
    let alpha = enhanced.find("alpha").unwrap();
    let mid = enhanced.find("mid").unwrap();
    assert!(zeta < alpha && alpha < mid);
}

#[test]
fn absent_path_yields_no_enhancement() {
    let doc = sample_doc();
    assert!(enhance_error_message(&doc, "missing", "boom").is_none());
    assert!(enhance_error_message(&doc, "top.deeper", "boom").is_none());
}

#[test]
fn non_table_intermediate_yields_no_enhancement() {
    let doc = Node::Table(vec![("leafy".to_string(), Node::Leaf)]);
    assert!(enhance_error_message(&doc, "leafy.inner", "boom").is_none());
}

#[test]
fn missing_variants_table_yields_no_enhancement() {
    let doc = Node::Table(vec![(
        "top".to_string(),
        Node::Table(vec![("other".to_string(), Node::Leaf)]),
    )]);
    assert!(enhance_error_message(&doc, "top", "boom").is_none());
}

#[test]
fn empty_variants_table_yields_no_enhancement() {
    let doc = Node::Table(vec![(
        "top".to_string(),
        Node::Table(vec![("variants".to_string(), Node::Table(vec![]))]),
    )]);
    assert!(enhance_error_message(&doc, "top", "boom").is_none());
}

#[test]
fn all_scalar_variants_yield_no_enhancement() {
    let doc = Node::Table(vec![(
        "top".to_string(),
        Node::Table(vec![(
            "variants".to_string(),
            Node::Table(vec![
                ("a".to_string(), Node::Leaf),
                ("b".to_string(), Node::Leaf),
            ]),
        )]),
    )]);
    assert!(enhance_error_message(&doc, "top", "boom").is_none());
}

#[test]
fn scalar_variants_key_yields_no_enhancement() {
    let doc = Node::Table(vec![(
        "top".to_string(),
        Node::Table(vec![("variants".to_string(), Node::Leaf)]),
    )]);
    assert!(enhance_error_message(&doc, "top", "boom").is_none());
}

#[test]
fn absent_variants_leaves_message_unchanged() {
    let toml = "[functions.my_func]\nother = 1\n";

    let err = load_from_toml::<StringLeaves>(toml).unwrap_err();
    assert!(matches!(err, ConfigError::Deserialization(_)));
    assert!(!err.message().contains("Help:"));
}

#[test]
fn loader_reports_suggestions_from_real_document() {
    // End to end: the structural parse feeds the enhancer, so the suggestion
    // block reflects the parsed document, not the input text verbatim.
    let toml = "[functions.my_func.variants]\nprod = { type = \"aws\" }\nstaging = {}\nbanner = \"x\"\n";

    let err = load_from_toml::<StringLeaves>(toml).unwrap_err();
    let msg = err.message();
    assert!(msg.contains("Help: The error occurred in a table that contains these variants:"));
    assert!(msg.contains("\n  - prod"));
    assert!(msg.contains("\n  - staging"));
    assert!(!msg.contains("\n  - banner"));
}
