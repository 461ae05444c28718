//! The two configuration builders: `tokenizer` describes one tokenizer,
//! `field` describes how one field is indexed and may embed a tokenizer
//! document. Each optional argument contributes exactly one entry to the
//! produced document when it is supplied, and nothing when it is absent.

use vstd::prelude::*;

use crate::document::{ConfigDocument, ConfigValue, SpecValue};

verus! {

/// Lifts an optional machine integer to an optional mathematical integer.
pub open spec fn spec_opt_int(o: Option<i32>) -> Option<int> {
    match o {
        Some(v) => Some(v as int),
        None => None,
    }
}

/// Lifts an optional string to an optional character sequence.
pub open spec fn spec_opt_str(o: Option<String>) -> Option<Seq<char>> {
    match o {
        Some(s) => Some(s@),
        None => None,
    }
}

/// Lifts an optional document to the optional map it denotes.
pub open spec fn spec_opt_doc(o: Option<ConfigDocument>) -> Option<Map<Seq<char>, SpecValue>> {
    match o {
        Some(d) => Some(d@),
        None => None,
    }
}

/// The document described by a `tokenizer` call: the entry `type = name`,
/// plus one entry per supplied optional tuning parameter.
pub open spec fn tokenizer_spec(
    name: Seq<char>,
    min_gram: Option<int>,
    max_gram: Option<int>,
    prefix_only: Option<bool>,
    language: Option<Seq<char>>,
    pattern: Option<Seq<char>>,
) -> Map<Seq<char>, SpecValue> {
    let m = Map::empty().insert("type"@, SpecValue::Str(name));
    let m = if min_gram is Some { m.insert("min_gram"@, SpecValue::Int(min_gram->0)) } else { m };
    let m = if max_gram is Some { m.insert("max_gram"@, SpecValue::Int(max_gram->0)) } else { m };
    let m = if prefix_only is Some { m.insert("prefix_only"@, SpecValue::Bool(prefix_only->0)) } else { m };
    let m = if language is Some { m.insert("language"@, SpecValue::Str(language->0)) } else { m };
    let m = if pattern is Some { m.insert("pattern"@, SpecValue::Str(pattern->0)) } else { m };
    m
}

/// The field body described by a `field` call: one entry per supplied
/// optional attribute, and nothing else.
pub open spec fn field_body_spec(
    indexed: Option<bool>,
    stored: Option<bool>,
    fast: Option<bool>,
    fieldnorms: Option<bool>,
    record: Option<Seq<char>>,
    expand_dots: Option<bool>,
    tokenizer: Option<Map<Seq<char>, SpecValue>>,
    normalizer: Option<Seq<char>>,
) -> Map<Seq<char>, SpecValue> {
    let m = Map::<Seq<char>, SpecValue>::empty();
    let m = if indexed is Some { m.insert("indexed"@, SpecValue::Bool(indexed->0)) } else { m };
    let m = if stored is Some { m.insert("stored"@, SpecValue::Bool(stored->0)) } else { m };
    let m = if fast is Some { m.insert("fast"@, SpecValue::Bool(fast->0)) } else { m };
    let m = if fieldnorms is Some { m.insert("fieldnorms"@, SpecValue::Bool(fieldnorms->0)) } else { m };
    let m = if record is Some { m.insert("record"@, SpecValue::Str(record->0)) } else { m };
    let m = if expand_dots is Some { m.insert("expand_dots"@, SpecValue::Bool(expand_dots->0)) } else { m };
    let m = if tokenizer is Some { m.insert("tokenizer"@, SpecValue::Doc(tokenizer->0)) } else { m };
    let m = if normalizer is Some { m.insert("normalizer"@, SpecValue::Str(normalizer->0)) } else { m };
    m
}

/// The document described by a `field` call: a single outer entry wrapping
/// the field body under the field's name.
pub open spec fn field_spec(
    name: Seq<char>,
    indexed: Option<bool>,
    stored: Option<bool>,
    fast: Option<bool>,
    fieldnorms: Option<bool>,
    record: Option<Seq<char>>,
    expand_dots: Option<bool>,
    tokenizer: Option<Map<Seq<char>, SpecValue>>,
    normalizer: Option<Seq<char>>,
) -> Map<Seq<char>, SpecValue> {
    Map::empty().insert(
        name,
        SpecValue::Doc(
            field_body_spec(
                indexed,
                stored,
                fast,
                fieldnorms,
                record,
                expand_dots,
                tokenizer,
                normalizer,
            ),
        ),
    )
}

/// Builds the configuration document for one tokenizer: `type = name`
/// always, plus one entry per supplied optional tuning parameter, its value
/// unmodified.
pub fn tokenizer(
    name: &str,
    min_gram: Option<i32>,
    max_gram: Option<i32>,
    prefix_only: Option<bool>,
    language: Option<String>,
    pattern: Option<String>,
) -> (r: ConfigDocument)
    ensures
        r@ == tokenizer_spec(
            name@,
            spec_opt_int(min_gram),
            spec_opt_int(max_gram),
            prefix_only,
            spec_opt_str(language),
            spec_opt_str(pattern),
        ),
{
    let doc = ConfigDocument::empty();
    let mut doc = doc.insert("type".to_string(), ConfigValue::Str(name.to_string()));
    if let Some(v) = min_gram {
        doc = doc.insert("min_gram".to_string(), ConfigValue::Int(v as i64));
    }
    if let Some(v) = max_gram {
        doc = doc.insert("max_gram".to_string(), ConfigValue::Int(v as i64));
    }
    if let Some(v) = prefix_only {
        doc = doc.insert("prefix_only".to_string(), ConfigValue::Bool(v));
    }
    if let Some(v) = language {
        doc = doc.insert("language".to_string(), ConfigValue::Str(v));
    }
    if let Some(v) = pattern {
        doc = doc.insert("pattern".to_string(), ConfigValue::Str(v));
    }
    doc
}

/// Builds the configuration document for one field: the outer document has
/// the single key `name`, and its body holds one entry per supplied optional
/// attribute, its value unmodified; a supplied tokenizer document is
/// embedded verbatim.
pub fn field(
    name: &str,
    indexed: Option<bool>,
    stored: Option<bool>,
    fast: Option<bool>,
    fieldnorms: Option<bool>,
    record: Option<String>,
    expand_dots: Option<bool>,
    tokenizer: Option<ConfigDocument>,
    normalizer: Option<String>,
) -> (r: ConfigDocument)
    ensures
        r@ == field_spec(
            name@,
            indexed,
            stored,
            fast,
            fieldnorms,
            spec_opt_str(record),
            expand_dots,
            spec_opt_doc(tokenizer),
            spec_opt_str(normalizer),
        ),
{
    let mut body = ConfigDocument::empty();
    if let Some(v) = indexed {
        body = body.insert("indexed".to_string(), ConfigValue::Bool(v));
    }
    if let Some(v) = stored {
        body = body.insert("stored".to_string(), ConfigValue::Bool(v));
    }
    if let Some(v) = fast {
        body = body.insert("fast".to_string(), ConfigValue::Bool(v));
    }
    if let Some(v) = fieldnorms {
        body = body.insert("fieldnorms".to_string(), ConfigValue::Bool(v));
    }
    if let Some(v) = record {
        body = body.insert("record".to_string(), ConfigValue::Str(v));
    }
    if let Some(v) = expand_dots {
        body = body.insert("expand_dots".to_string(), ConfigValue::Bool(v));
    }
    if let Some(v) = tokenizer {
        body = body.insert("tokenizer".to_string(), ConfigValue::Doc(v));
    }
    if let Some(v) = normalizer {
        body = body.insert("normalizer".to_string(), ConfigValue::Str(v));
    }
    let outer = ConfigDocument::empty();
    outer.insert(name.to_string(), ConfigValue::Doc(body))
}

} // verus!
