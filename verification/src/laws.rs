//! The laws the builders obey, stated over the specification maps that the
//! builders' contracts pin down: which keys a document holds (presence
//! fidelity), the wrapping of a field body under the field's name, verbatim
//! nesting of a tokenizer document, the all-absent cases, determinism, and
//! the independence of the optional attributes from one another.

use vstd::prelude::*;

use crate::builders::{field_body_spec, field_spec, tokenizer_spec};
use crate::document::SpecValue;

verus! {

/// Presence fidelity for `tokenizer`: the document always holds
/// `type = name`; each optional tuning parameter appears as a key if and
/// only if it was supplied, with its value unmodified; and no other key
/// appears.
pub proof fn lemma_tokenizer_presence(
    name: Seq<char>,
    min_gram: Option<int>,
    max_gram: Option<int>,
    prefix_only: Option<bool>,
    language: Option<Seq<char>>,
    pattern: Option<Seq<char>>,
)
    ensures
        ({
            let m = tokenizer_spec(name, min_gram, max_gram, prefix_only, language, pattern);
            &&& m.contains_key("type"@)
            &&& m["type"@] == SpecValue::Str(name)
            &&& (m.contains_key("min_gram"@) <==> min_gram is Some)
            &&& (min_gram is Some ==> m["min_gram"@] == SpecValue::Int(min_gram->0))
            &&& (m.contains_key("max_gram"@) <==> max_gram is Some)
            &&& (max_gram is Some ==> m["max_gram"@] == SpecValue::Int(max_gram->0))
            &&& (m.contains_key("prefix_only"@) <==> prefix_only is Some)
            &&& (prefix_only is Some ==> m["prefix_only"@] == SpecValue::Bool(prefix_only->0))
            &&& (m.contains_key("language"@) <==> language is Some)
            &&& (language is Some ==> m["language"@] == SpecValue::Str(language->0))
            &&& (m.contains_key("pattern"@) <==> pattern is Some)
            &&& (pattern is Some ==> m["pattern"@] == SpecValue::Str(pattern->0))
            &&& forall|k: Seq<char>|
                m.contains_key(k) ==> k == "type"@ || k == "min_gram"@ || k == "max_gram"@
                    || k == "prefix_only"@ || k == "language"@ || k == "pattern"@
        }),
{
    lemma_tokenizer_keys_distinct();
}

/// The keys a tokenizer document can hold are pairwise distinct.
proof fn lemma_tokenizer_keys_distinct()
    ensures
        "type"@ != "min_gram"@,
        "type"@ != "max_gram"@,
        "type"@ != "prefix_only"@,
        "type"@ != "language"@,
        "type"@ != "pattern"@,
        "min_gram"@ != "max_gram"@,
        "min_gram"@ != "prefix_only"@,
        "min_gram"@ != "language"@,
        "min_gram"@ != "pattern"@,
        "max_gram"@ != "prefix_only"@,
        "max_gram"@ != "language"@,
        "max_gram"@ != "pattern"@,
        "prefix_only"@ != "language"@,
        "prefix_only"@ != "pattern"@,
        "language"@ != "pattern"@,
{
    reveal_strlit("type");
    reveal_strlit("min_gram");
    reveal_strlit("max_gram");
    reveal_strlit("prefix_only");
    reveal_strlit("language");
    reveal_strlit("pattern");
    assert("type"@.len() == 4);
    assert("min_gram"@.len() == 8);
    assert("max_gram"@.len() == 8);
    assert("prefix_only"@.len() == 11);
    assert("language"@.len() == 8);
    assert("pattern"@.len() == 7);
    assert("min_gram"@[1] == 'i' && "max_gram"@[1] == 'a');
    assert("min_gram"@[0] == 'm' && "language"@[0] == 'l');
    assert("max_gram"@[0] == 'm' && "language"@[0] == 'l');
}

/// Presence fidelity and structural wrapping for `field`: the outer
/// document's only key is the field's name, under which the field body
/// stands; each optional attribute appears in the body if and only if it
/// was supplied, with its value unmodified — a supplied tokenizer document
/// verbatim — and no other key appears in the body.
pub proof fn lemma_field_presence(
    name: Seq<char>,
    indexed: Option<bool>,
    stored: Option<bool>,
    fast: Option<bool>,
    fieldnorms: Option<bool>,
    record: Option<Seq<char>>,
    expand_dots: Option<bool>,
    tokenizer: Option<Map<Seq<char>, SpecValue>>,
    normalizer: Option<Seq<char>>,
)
    ensures
        ({
            let m = field_spec(
                name, indexed, stored, fast, fieldnorms, record, expand_dots, tokenizer,
                normalizer,
            );
            let b = field_body_spec(
                indexed, stored, fast, fieldnorms, record, expand_dots, tokenizer, normalizer,
            );
            &&& m.dom() == Set::<Seq<char>>::empty().insert(name)
            &&& m[name] == SpecValue::Doc(b)
            &&& (b.contains_key("indexed"@) <==> indexed is Some)
            &&& (indexed is Some ==> b["indexed"@] == SpecValue::Bool(indexed->0))
            &&& (b.contains_key("stored"@) <==> stored is Some)
            &&& (stored is Some ==> b["stored"@] == SpecValue::Bool(stored->0))
            &&& (b.contains_key("fast"@) <==> fast is Some)
            &&& (fast is Some ==> b["fast"@] == SpecValue::Bool(fast->0))
            &&& (b.contains_key("fieldnorms"@) <==> fieldnorms is Some)
            &&& (fieldnorms is Some ==> b["fieldnorms"@] == SpecValue::Bool(fieldnorms->0))
            &&& (b.contains_key("record"@) <==> record is Some)
            &&& (record is Some ==> b["record"@] == SpecValue::Str(record->0))
            &&& (b.contains_key("expand_dots"@) <==> expand_dots is Some)
            &&& (expand_dots is Some ==> b["expand_dots"@] == SpecValue::Bool(expand_dots->0))
            &&& (b.contains_key("tokenizer"@) <==> tokenizer is Some)
            &&& (tokenizer is Some ==> b["tokenizer"@] == SpecValue::Doc(tokenizer->0))
            &&& (b.contains_key("normalizer"@) <==> normalizer is Some)
            &&& (normalizer is Some ==> b["normalizer"@] == SpecValue::Str(normalizer->0))
            &&& forall|k: Seq<char>|
                b.contains_key(k) ==> k == "indexed"@ || k == "stored"@ || k == "fast"@
                    || k == "fieldnorms"@ || k == "record"@ || k == "expand_dots"@
                    || k == "tokenizer"@ || k == "normalizer"@
        }),
{
    lemma_field_keys_distinct();
    let m = field_spec(
        name, indexed, stored, fast, fieldnorms, record, expand_dots, tokenizer, normalizer,
    );
    assert(m.dom() =~= Set::<Seq<char>>::empty().insert(name));
}

/// The keys a field body can hold are pairwise distinct.
proof fn lemma_field_keys_distinct()
    ensures
        "indexed"@ != "stored"@,
        "indexed"@ != "fast"@,
        "indexed"@ != "fieldnorms"@,
        "indexed"@ != "record"@,
        "indexed"@ != "expand_dots"@,
        "indexed"@ != "tokenizer"@,
        "indexed"@ != "normalizer"@,
        "stored"@ != "fast"@,
        "stored"@ != "fieldnorms"@,
        "stored"@ != "record"@,
        "stored"@ != "expand_dots"@,
        "stored"@ != "tokenizer"@,
        "stored"@ != "normalizer"@,
        "fast"@ != "fieldnorms"@,
        "fast"@ != "record"@,
        "fast"@ != "expand_dots"@,
        "fast"@ != "tokenizer"@,
        "fast"@ != "normalizer"@,
        "fieldnorms"@ != "record"@,
        "fieldnorms"@ != "expand_dots"@,
        "fieldnorms"@ != "tokenizer"@,
        "fieldnorms"@ != "normalizer"@,
        "record"@ != "expand_dots"@,
        "record"@ != "tokenizer"@,
        "record"@ != "normalizer"@,
        "expand_dots"@ != "tokenizer"@,
        "expand_dots"@ != "normalizer"@,
        "tokenizer"@ != "normalizer"@,
{
    reveal_strlit("indexed");
    reveal_strlit("stored");
    reveal_strlit("fast");
    reveal_strlit("fieldnorms");
    reveal_strlit("record");
    reveal_strlit("expand_dots");
    reveal_strlit("tokenizer");
    reveal_strlit("normalizer");
    assert("indexed"@.len() == 7);
    assert("stored"@.len() == 6);
    assert("fast"@.len() == 4);
    assert("fieldnorms"@.len() == 10);
    assert("record"@.len() == 6);
    assert("expand_dots"@.len() == 11);
    assert("tokenizer"@.len() == 9);
    assert("normalizer"@.len() == 10);
    assert("stored"@[0] == 's' && "record"@[0] == 'r');
    assert("fieldnorms"@[0] == 'f' && "normalizer"@[0] == 'n');
}

/// The all-absent case for `tokenizer`: with every optional parameter
/// absent, the document holds the single entry `type = name`.
pub proof fn lemma_tokenizer_defaults(name: Seq<char>)
    ensures
        tokenizer_spec(name, None, None, None, None, None) == Map::<Seq<char>, SpecValue>::empty()
            .insert("type"@, SpecValue::Str(name)),
{
}

/// The all-absent case for `field`: with every optional attribute absent,
/// the document wraps an empty body under the field's name.
pub proof fn lemma_field_defaults(name: Seq<char>)
    ensures
        field_spec(name, None, None, None, None, None, None, None, None)
            == Map::<Seq<char>, SpecValue>::empty().insert(
            name,
            SpecValue::Doc(Map::<Seq<char>, SpecValue>::empty()),
        ),
{
}

/// Determinism of `tokenizer`: equal arguments describe equal documents.
pub proof fn lemma_tokenizer_deterministic(
    name_a: Seq<char>,
    min_gram_a: Option<int>,
    max_gram_a: Option<int>,
    prefix_only_a: Option<bool>,
    language_a: Option<Seq<char>>,
    pattern_a: Option<Seq<char>>,
    name_b: Seq<char>,
    min_gram_b: Option<int>,
    max_gram_b: Option<int>,
    prefix_only_b: Option<bool>,
    language_b: Option<Seq<char>>,
    pattern_b: Option<Seq<char>>,
)
    requires
        name_a == name_b,
        min_gram_a == min_gram_b,
        max_gram_a == max_gram_b,
        prefix_only_a == prefix_only_b,
        language_a == language_b,
        pattern_a == pattern_b,
    ensures
        tokenizer_spec(name_a, min_gram_a, max_gram_a, prefix_only_a, language_a, pattern_a)
            == tokenizer_spec(
            name_b,
            min_gram_b,
            max_gram_b,
            prefix_only_b,
            language_b,
            pattern_b,
        ),
{
}

/// Determinism of `field`: equal arguments describe equal documents.
pub proof fn lemma_field_deterministic(
    name_a: Seq<char>,
    indexed_a: Option<bool>,
    stored_a: Option<bool>,
    fast_a: Option<bool>,
    fieldnorms_a: Option<bool>,
    record_a: Option<Seq<char>>,
    expand_dots_a: Option<bool>,
    tokenizer_a: Option<Map<Seq<char>, SpecValue>>,
    normalizer_a: Option<Seq<char>>,
    name_b: Seq<char>,
    indexed_b: Option<bool>,
    stored_b: Option<bool>,
    fast_b: Option<bool>,
    fieldnorms_b: Option<bool>,
    record_b: Option<Seq<char>>,
    expand_dots_b: Option<bool>,
    tokenizer_b: Option<Map<Seq<char>, SpecValue>>,
    normalizer_b: Option<Seq<char>>,
)
    requires
        name_a == name_b,
        indexed_a == indexed_b,
        stored_a == stored_b,
        fast_a == fast_b,
        fieldnorms_a == fieldnorms_b,
        record_a == record_b,
        expand_dots_a == expand_dots_b,
        tokenizer_a == tokenizer_b,
        normalizer_a == normalizer_b,
    ensures
        field_spec(
            name_a, indexed_a, stored_a, fast_a, fieldnorms_a, record_a, expand_dots_a,
            tokenizer_a, normalizer_a,
        ) == field_spec(
            name_b, indexed_b, stored_b, fast_b, fieldnorms_b, record_b, expand_dots_b,
            tokenizer_b, normalizer_b,
        ),
{
}

/// Independence for `tokenizer`: across two calls, each entry of the
/// document depends only on its own parameter — whatever the other
/// parameters are, an attribute supplied equally in both calls is present
/// equally and with the same value in both documents.
pub proof fn lemma_tokenizer_independent(
    name_a: Seq<char>,
    min_gram_a: Option<int>,
    max_gram_a: Option<int>,
    prefix_only_a: Option<bool>,
    language_a: Option<Seq<char>>,
    pattern_a: Option<Seq<char>>,
    name_b: Seq<char>,
    min_gram_b: Option<int>,
    max_gram_b: Option<int>,
    prefix_only_b: Option<bool>,
    language_b: Option<Seq<char>>,
    pattern_b: Option<Seq<char>>,
)
    ensures
        ({
            let ma = tokenizer_spec(
                name_a, min_gram_a, max_gram_a, prefix_only_a, language_a, pattern_a,
            );
            let mb = tokenizer_spec(
                name_b, min_gram_b, max_gram_b, prefix_only_b, language_b, pattern_b,
            );
            &&& (name_a == name_b ==> ma["type"@] == mb["type"@])
            &&& (min_gram_a == min_gram_b ==> (ma.contains_key("min_gram"@)
                <==> mb.contains_key("min_gram"@)))
            &&& (min_gram_a == min_gram_b && ma.contains_key("min_gram"@)
                ==> ma["min_gram"@] == mb["min_gram"@])
            &&& (max_gram_a == max_gram_b ==> (ma.contains_key("max_gram"@)
                <==> mb.contains_key("max_gram"@)))
            &&& (max_gram_a == max_gram_b && ma.contains_key("max_gram"@)
                ==> ma["max_gram"@] == mb["max_gram"@])
            &&& (prefix_only_a == prefix_only_b ==> (ma.contains_key("prefix_only"@)
                <==> mb.contains_key("prefix_only"@)))
            &&& (prefix_only_a == prefix_only_b && ma.contains_key("prefix_only"@)
                ==> ma["prefix_only"@] == mb["prefix_only"@])
            &&& (language_a == language_b ==> (ma.contains_key("language"@)
                <==> mb.contains_key("language"@)))
            &&& (language_a == language_b && ma.contains_key("language"@)
                ==> ma["language"@] == mb["language"@])
            &&& (pattern_a == pattern_b ==> (ma.contains_key("pattern"@)
                <==> mb.contains_key("pattern"@)))
            &&& (pattern_a == pattern_b && ma.contains_key("pattern"@)
                ==> ma["pattern"@] == mb["pattern"@])
        }),
{
    lemma_tokenizer_presence(name_a, min_gram_a, max_gram_a, prefix_only_a, language_a, pattern_a);
    lemma_tokenizer_presence(name_b, min_gram_b, max_gram_b, prefix_only_b, language_b, pattern_b);
}

/// Independence for `field`: across two calls, each entry of the field body
/// depends only on its own attribute — whatever the other attributes are,
/// an attribute supplied equally in both calls is present equally and with
/// the same value in both bodies.
pub proof fn lemma_field_independent(
    name_a: Seq<char>,
    indexed_a: Option<bool>,
    stored_a: Option<bool>,
    fast_a: Option<bool>,
    fieldnorms_a: Option<bool>,
    record_a: Option<Seq<char>>,
    expand_dots_a: Option<bool>,
    tokenizer_a: Option<Map<Seq<char>, SpecValue>>,
    normalizer_a: Option<Seq<char>>,
    name_b: Seq<char>,
    indexed_b: Option<bool>,
    stored_b: Option<bool>,
    fast_b: Option<bool>,
    fieldnorms_b: Option<bool>,
    record_b: Option<Seq<char>>,
    expand_dots_b: Option<bool>,
    tokenizer_b: Option<Map<Seq<char>, SpecValue>>,
    normalizer_b: Option<Seq<char>>,
)
    ensures
        ({
            let ba = field_body_spec(
                indexed_a, stored_a, fast_a, fieldnorms_a, record_a, expand_dots_a, tokenizer_a,
                normalizer_a,
            );
            let bb = field_body_spec(
                indexed_b, stored_b, fast_b, fieldnorms_b, record_b, expand_dots_b, tokenizer_b,
                normalizer_b,
            );
            &&& (indexed_a == indexed_b ==> (ba.contains_key("indexed"@)
                <==> bb.contains_key("indexed"@)))
            &&& (indexed_a == indexed_b && ba.contains_key("indexed"@)
                ==> ba["indexed"@] == bb["indexed"@])
            &&& (stored_a == stored_b ==> (ba.contains_key("stored"@)
                <==> bb.contains_key("stored"@)))
            &&& (stored_a == stored_b && ba.contains_key("stored"@)
                ==> ba["stored"@] == bb["stored"@])
            &&& (fast_a == fast_b ==> (ba.contains_key("fast"@) <==> bb.contains_key("fast"@)))
            &&& (fast_a == fast_b && ba.contains_key("fast"@) ==> ba["fast"@] == bb["fast"@])
            &&& (fieldnorms_a == fieldnorms_b ==> (ba.contains_key("fieldnorms"@)
                <==> bb.contains_key("fieldnorms"@)))
            &&& (fieldnorms_a == fieldnorms_b && ba.contains_key("fieldnorms"@)
                ==> ba["fieldnorms"@] == bb["fieldnorms"@])
            &&& (record_a == record_b ==> (ba.contains_key("record"@)
                <==> bb.contains_key("record"@)))
            &&& (record_a == record_b && ba.contains_key("record"@)
                ==> ba["record"@] == bb["record"@])
            &&& (expand_dots_a == expand_dots_b ==> (ba.contains_key("expand_dots"@)
                <==> bb.contains_key("expand_dots"@)))
            &&& (expand_dots_a == expand_dots_b && ba.contains_key("expand_dots"@)
                ==> ba["expand_dots"@] == bb["expand_dots"@])
            &&& (tokenizer_a == tokenizer_b ==> (ba.contains_key("tokenizer"@)
                <==> bb.contains_key("tokenizer"@)))
            &&& (tokenizer_a == tokenizer_b && ba.contains_key("tokenizer"@)
                ==> ba["tokenizer"@] == bb["tokenizer"@])
            &&& (normalizer_a == normalizer_b ==> (ba.contains_key("normalizer"@)
                <==> bb.contains_key("normalizer"@)))
            &&& (normalizer_a == normalizer_b && ba.contains_key("normalizer"@)
                ==> ba["normalizer"@] == bb["normalizer"@])
        }),
{
    lemma_field_presence(
        name_a, indexed_a, stored_a, fast_a, fieldnorms_a, record_a, expand_dots_a, tokenizer_a,
        normalizer_a,
    );
    lemma_field_presence(
        name_b, indexed_b, stored_b, fast_b, fieldnorms_b, record_b, expand_dots_b, tokenizer_b,
        normalizer_b,
    );
}

} // verus!
