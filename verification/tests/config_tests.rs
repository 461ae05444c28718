use search_config::{field, tokenizer, ConfigDocument, ConfigValue};

fn doc(entries: Vec<(&str, ConfigValue)>) -> ConfigDocument {
    let mut d = ConfigDocument::empty();
    for (key, value) in entries {
        d = d.insert(key.to_string(), value);
    }
    d
}

#[test]
fn test_single_field() {
    let expected = doc(vec![(
        "field1",
        ConfigValue::Doc(doc(vec![
            ("indexed", ConfigValue::Bool(true)),
            ("stored", ConfigValue::Bool(false)),
            ("fast", ConfigValue::Bool(true)),
            ("fieldnorms", ConfigValue::Bool(false)),
            ("record", ConfigValue::Str("position".to_string())),
            ("expand_dots", ConfigValue::Bool(true)),
            (
                "tokenizer",
                ConfigValue::Doc(doc(vec![
                    ("type", ConfigValue::Str("ngram".to_string())),
                    ("min_gram", ConfigValue::Int(4)),
                    ("max_gram", ConfigValue::Int(4)),
                    ("prefix_only", ConfigValue::Bool(false)),
                ])),
            ),
            ("normalizer", ConfigValue::Str("lowercase".to_string())),
        ])),
    )]);

    let actual = field(
        "field1",
        Some(true),
        Some(false),
        Some(true),
        Some(false),
        Some("position".to_string()),
        Some(true),
        Some(tokenizer("ngram", Some(4), Some(4), Some(false), None, None)),
        Some("lowercase".to_string()),
    );

    assert_eq!(expected, actual);
}

#[test]
fn test_tokenizer_no_optionals() {
    let actual = tokenizer("simple", None, None, None, None, None);
    let expected = doc(vec![("type", ConfigValue::Str("simple".to_string()))]);
    assert_eq!(expected, actual);
}

#[test]
fn test_field_no_optionals() {
    let actual = field("f", None, None, None, None, None, None, None, None);
    let expected = doc(vec![("f", ConfigValue::Doc(ConfigDocument::empty()))]);
    assert_eq!(expected, actual);
}

#[test]
fn test_composition_example() {
    let actual = field(
        "body",
        Some(true),
        Some(false),
        None,
        None,
        None,
        None,
        Some(tokenizer("ngram", Some(3), Some(3), None, None, None)),
        None,
    );
    let expected = doc(vec![(
        "body",
        ConfigValue::Doc(doc(vec![
            ("indexed", ConfigValue::Bool(true)),
            ("stored", ConfigValue::Bool(false)),
            (
                "tokenizer",
                ConfigValue::Doc(doc(vec![
                    ("type", ConfigValue::Str("ngram".to_string())),
                    ("min_gram", ConfigValue::Int(3)),
                    ("max_gram", ConfigValue::Int(3)),
                ])),
            ),
        ])),
    )]);
    assert_eq!(expected, actual);
}

#[test]
fn test_tokenizer_deterministic() {
    let a = tokenizer(
        "ngram",
        Some(2),
        Some(5),
        Some(true),
        None,
        Some(r"\w+".to_string()),
    );
    let b = tokenizer(
        "ngram",
        Some(2),
        Some(5),
        Some(true),
        None,
        Some(r"\w+".to_string()),
    );
    assert_eq!(a, b);
}

#[test]
fn test_field_deterministic() {
    let a = field(
        "title",
        Some(true),
        None,
        None,
        Some(false),
        Some("freq".to_string()),
        None,
        None,
        Some("raw".to_string()),
    );
    let b = field(
        "title",
        Some(true),
        None,
        None,
        Some(false),
        Some("freq".to_string()),
        None,
        None,
        Some("raw".to_string()),
    );
    assert_eq!(a, b);
}

#[test]
fn test_single_attribute_leaves_others_absent() {
    let actual = field("f", None, None, Some(true), None, None, None, None, None);
    assert_eq!(actual.len(), 1);
    assert_eq!(actual.key_at(0).as_str(), "f");
    let body = match actual.value_at(0) {
        ConfigValue::Doc(body) => body,
        other => panic!("expected a nested document, found {:?}", other),
    };
    assert_eq!(body.len(), 1);
    assert_eq!(body.key_at(0).as_str(), "fast");
    assert_eq!(body.value_at(0), &ConfigValue::Bool(true));
}

#[test]
fn test_tokenizer_values_unmodified() {
    let actual = tokenizer(
        "regex",
        None,
        None,
        None,
        Some("English".to_string()),
        Some(r"[a-z]+[0-9]*".to_string()),
    );
    let expected = doc(vec![
        ("type", ConfigValue::Str("regex".to_string())),
        ("language", ConfigValue::Str("English".to_string())),
        ("pattern", ConfigValue::Str(r"[a-z]+[0-9]*".to_string())),
    ]);
    assert_eq!(expected, actual);
}

#[test]
fn test_empty_document() {
    let d = ConfigDocument::empty();
    assert_eq!(d.len(), 0);
}

#[test]
fn test_insert_shadows_earlier_entry_by_order() {
    let d = ConfigDocument::empty()
        .insert("k".to_string(), ConfigValue::Bool(false))
        .insert("k".to_string(), ConfigValue::Bool(true));
    assert_eq!(d.len(), 2);
    assert_eq!(d.value_at(1), &ConfigValue::Bool(true));
}
