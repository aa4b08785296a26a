//! The decision chain of a schema, run directly on a document.
use vstd::prelude::*;
use crate::declaration::is_word;
use crate::document::{DecodeError, DecodeFault, Document, field, find_field};
use crate::schema::{SchemaDescription, SchemaView, VariantDescriptor, VariantView};

verus! {

/// A decoded record: a typed variant by its index among the typed variants, or the
/// fallback holding the raw content.
#[derive(Debug)]
pub enum Decoded<T> {
    Typed(usize, T),
    Fallback(Document),
}

/// Whether `k` is the first typed variant whose match name is `tag`.
pub open spec fn is_first_match(vs: Seq<VariantView>, tag: Seq<char>, k: int) -> bool {
    &&& 0 <= k < vs.len()
    &&& vs[k].match_name == tag
    &&& forall|j: int| 0 <= j < k ==> (#[trigger] vs[j]).match_name != tag
}

/// The first typed variant whose match name is `tag`.
pub open spec fn first_match(vs: Seq<VariantView>, tag: Seq<char>) -> Option<int> {
    if exists|k: int| is_first_match(vs, tag, k) {
        Some(choose|k: int| is_first_match(vs, tag, k))
    } else {
        None
    }
}

/// Where a record goes: rejected, to a typed variant's decoder with the content, or
/// to the fallback with the content.
pub ghost enum Route {
    Reject(DecodeFault),
    Typed(int, Document),
    Fallback(Document),
}

/// The route of a record under a schema.
pub open spec fn route(s: SchemaView, record: Document) -> Route {
    match record {
        Document::Object(entries) => match field(entries@, s.tag_field) {
            None => Route::Reject(DecodeFault::MissingField(s.tag_field)),
            Some(Document::Text(tag)) => match field(entries@, s.content_field) {
                None => Route::Reject(DecodeFault::MissingField(s.content_field)),
                Some(content) => match first_match(s.typed_variants, tag@) {
                    Some(k) => Route::Typed(k, content),
                    None => Route::Fallback(content),
                },
            },
            Some(_) => Route::Reject(DecodeFault::TagNotString(s.tag_field)),
        },
        _ => Route::Reject(DecodeFault::NotAnObject),
    }
}

/// The result for a typed variant, given what its payload decoder returned.
pub open spec fn typed_outcome<T>(k: int, payload: Result<T, DecodeError>) -> Result<Decoded<T>, DecodeError> {
    match payload {
        Ok(v) => Ok(Decoded::Typed(k as usize, v)),
        Err(e) => Err(e),
    }
}

/// The index of the first typed variant whose match name is `tag`.
pub fn find_variant(variants: &Vec<VariantDescriptor>, tag: &str) -> (r: Option<usize>)
    ensures
        match r {
            Some(k) => first_match(variants@.map_values(|v: VariantDescriptor| v@), tag@) == Some(k as int),
            None => first_match(variants@.map_values(|v: VariantDescriptor| v@), tag@) is None,
        },
{
    let ghost views = variants@.map_values(|v: VariantDescriptor| v@);
    let mut i: usize = 0;
    while i < variants.len()
        invariant
            views == variants@.map_values(|v: VariantDescriptor| v@),
            i <= variants.len(),
            forall|j: int| 0 <= j < i ==> (#[trigger] views[j]).match_name != tag@,
        decreases variants.len() - i,
    {
        if is_word(&variants[i].match_name, tag) {
            proof {
                assert(is_first_match(views, tag@, i as int));
                let k = choose|k: int| is_first_match(views, tag@, k);
                assert(is_first_match(views, tag@, k));
                if k < i {
                    assert(views[k].match_name != tag@);
                } else if i < k {
                    assert(views[i as int].match_name != tag@);
                }
            }
            return Some(i);
        }
        i = i + 1;
    }
    None
}

/// Decodes a record by the schema's decision chain. The tag selects the first typed
/// variant whose match name equals it, and that variant's payload is handed to
/// `decode_payload`, whose error, if any, is the record's error. Only a tag that
/// selects no typed variant gives the fallback, with the raw content.
pub fn decode_record<T, F>(schema: &SchemaDescription, record: Document, decode_payload: F) -> (r: Result<Decoded<T>, DecodeError>)
    where
        F: Fn(&VariantDescriptor, Document) -> Result<T, DecodeError>,
    requires
        forall|v: &VariantDescriptor, c: Document| #[trigger] decode_payload.requires((v, c)),
    ensures
        match route(schema@, record) {
            Route::Reject(fault) => r matches Err(e) && e@ == fault,
            Route::Typed(k, content) => exists|p: Result<T, DecodeError>|
                #[trigger] decode_payload.ensures((&schema.typed_variants@[k], content), p)
                && r == typed_outcome(k, p),
            Route::Fallback(content) => r == Ok::<Decoded<T>, DecodeError>(Decoded::Fallback(content)),
        },
        (r matches Ok(Decoded::Fallback(_))) <==> route(schema@, record) is Fallback,
        route(schema@, record) matches Route::Typed(k, content) ==> match r {
            Ok(Decoded::Typed(j, v)) => j == k && decode_payload.ensures(
                (&schema.typed_variants@[k], content),
                Ok::<T, DecodeError>(v),
            ),
            Ok(Decoded::Fallback(_)) => false,
            Err(e) => decode_payload.ensures((&schema.typed_variants@[k], content), Err::<T, DecodeError>(e)),
        },
{
    let mut entries = match record {
        Document::Object(entries) => entries,
        _ => {
            return Err(DecodeError::NotAnObject);
        },
    };
    let tag_at = match find_field(&entries, schema.tag_field.as_str()) {
        Some(i) => i,
        None => {
            return Err(DecodeError::MissingField(schema.tag_field.clone()));
        },
    };
    let tag = match &entries[tag_at].1 {
        Document::Text(t) => t.clone(),
        _ => {
            return Err(DecodeError::TagNotString(schema.tag_field.clone()));
        },
    };
    let content_at = match find_field(&entries, schema.content_field.as_str()) {
        Some(i) => i,
        None => {
            return Err(DecodeError::MissingField(schema.content_field.clone()));
        },
    };
    let selected = find_variant(&schema.typed_variants, tag.as_str());
    let (_, content) = entries.remove(content_at);
    match selected {
        Some(k) => {
            let payload = decode_payload(&schema.typed_variants[k], content);
            match payload {
                Ok(v) => Ok(Decoded::Typed(k, v)),
                Err(e) => Err(e),
            }
        },
        None => {
            Ok(Decoded::Fallback(content))
        },
    }
}

/// A record whose tag names no typed variant goes to the fallback, which holds its
/// content unchanged.
pub proof fn lemma_unknown_tag_falls_back(s: SchemaView, record: Document, tag: Seq<char>, content: Document)
    requires
        record is Object,
        field(record->Object_0@, s.tag_field) matches Some(Document::Text(t)) && t@ == tag,
        field(record->Object_0@, s.content_field) == Some(content),
        forall|k: int| 0 <= k < s.typed_variants.len() ==> (#[trigger] s.typed_variants[k]).match_name != tag,
    ensures
        route(s, record) == Route::Fallback(content),
{
    assert(!exists|k: int| is_first_match(s.typed_variants, tag, k));
}

/// A record whose tag names a typed variant goes to that variant's decoder (the first
/// one of that name) with its content, and never to the fallback: the record's result
/// is then the decoder's, its error included.
pub proof fn lemma_known_tag_is_typed(s: SchemaView, record: Document, tag: Seq<char>, content: Document, k: int)
    requires
        record is Object,
        field(record->Object_0@, s.tag_field) matches Some(Document::Text(t)) && t@ == tag,
        field(record->Object_0@, s.content_field) == Some(content),
        0 <= k < s.typed_variants.len(),
        s.typed_variants[k].match_name == tag,
    ensures
        route(s, record) matches Route::Typed(j, c) && c == content && 0 <= j <= k
            && s.typed_variants[j].match_name == tag,
{
    lemma_first_match_exists(s.typed_variants, tag, k);
}

/// Some variant of a name makes a first one of that name.
proof fn lemma_first_match_exists(vs: Seq<VariantView>, tag: Seq<char>, k: int)
    requires
        0 <= k < vs.len(),
        vs[k].match_name == tag,
    ensures
        first_match(vs, tag) matches Some(j) && is_first_match(vs, tag, j) && j <= k,
    decreases k,
{
    if forall|j: int| 0 <= j < k ==> (#[trigger] vs[j]).match_name != tag {
        assert(is_first_match(vs, tag, k));
        let j = choose|j: int| is_first_match(vs, tag, j);
        if k < j {
            assert(vs[k].match_name != tag);
        }
    } else {
        let j = choose|j: int| 0 <= j < k && (#[trigger] vs[j]).match_name == tag;
        lemma_first_match_exists(vs, tag, j);
    }
}

/// An object without the tag field, with a tag that is not a string, or without the
/// content field is rejected with an error that names that field.
pub proof fn lemma_required_fields(s: SchemaView, record: Document)
    requires
        record is Object,
    ensures
        field(record->Object_0@, s.tag_field) is None ==> route(s, record) == Route::Reject(
            DecodeFault::MissingField(s.tag_field),
        ),
        field(record->Object_0@, s.tag_field) matches Some(v) && !(v is Text) ==> route(s, record)
            == Route::Reject(DecodeFault::TagNotString(s.tag_field)),
        field(record->Object_0@, s.tag_field) matches Some(v) && v is Text && field(
            record->Object_0@,
            s.content_field,
        ) is None ==> route(s, record) == Route::Reject(DecodeFault::MissingField(s.content_field)),
{
}

} // verus!
