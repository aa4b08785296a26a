use serde_sated::declaration::{Attribute, DeclData, DeriveDecl, MetaItem, TypeRef, VariantDecl};
use serde_sated::dispatch::{decode_record, Decoded};
use serde_sated::document::{DecodeError, Document};
use serde_sated::schema::{extract_schema, SchemaDescription, VariantDescriptor};

#[derive(Debug, PartialEq)]
enum Payload {
    Number(u64),
    Text(String),
    Complex { a: u64, b: u64 },
}

fn serde_attr(items: Vec<(&str, Option<&str>)>) -> Attribute {
    Attribute {
        path: "serde".to_string(),
        items: items
            .into_iter()
            .map(|(p, v)| MetaItem { path: p.to_string(), value: v.map(|s| s.to_string()) })
            .collect(),
    }
}

fn variant(name: &str, ty: &[&str], attrs: Vec<Attribute>) -> VariantDecl {
    VariantDecl {
        ident: name.to_string(),
        attrs,
        fields: vec![TypeRef::Path(ty.iter().map(|s| s.to_string()).collect())],
    }
}

fn enum_decl(name: &str, variants: Vec<VariantDecl>) -> DeriveDecl {
    DeriveDecl {
        ident: name.to_string(),
        attrs: vec![serde_attr(vec![("tag", Some("resourceType")), ("content", Some("resource"))])],
        data: DeclData::Enum(variants),
    }
}

fn untagged() -> Vec<Attribute> {
    vec![serde_attr(vec![("untagged", None)])]
}

fn resource_schema() -> SchemaDescription {
    let decl = enum_decl(
        "ResourceStruct",
        vec![
            variant("Number", &["u64"], vec![]),
            variant("String", &["String"], vec![]),
            variant("Complex", &["Complex"], vec![]),
            variant("Unknown", &["serde_json", "Value"], untagged()),
        ],
    );
    extract_schema(&decl).unwrap()
}

fn text(s: &str) -> Document {
    Document::Text(s.to_string())
}

fn num(n: u64) -> Document {
    Document::Number(n.to_string())
}

fn object(entries: Vec<(&str, Document)>) -> Document {
    Document::Object(entries.into_iter().map(|(k, v)| (k.to_string(), v)).collect())
}

fn field_of<'a>(entries: &'a [(String, Document)], key: &str) -> Option<&'a Document> {
    entries.iter().find(|(k, _)| k == key).map(|(_, v)| v)
}

fn as_u64(d: &Document, what: &str) -> Result<u64, DecodeError> {
    match d {
        Document::Number(n) => n
            .parse::<u64>()
            .map_err(|_| DecodeError::Custom(format!("invalid value for {what}"))),
        _ => Err(DecodeError::Custom(format!("invalid type for {what}, expected u64"))),
    }
}

fn always_returns_five(_content: Document) -> Result<u64, DecodeError> {
    Ok(5)
}

fn decode_payload(v: &VariantDescriptor, content: Document) -> Result<Payload, DecodeError> {
    if v.decode_with.as_deref() == Some("always_returns_five") {
        return always_returns_five(content).map(Payload::Number);
    }
    match v.payload_type.as_str() {
        "u64" | "u32" => as_u64(&content, "u64").map(Payload::Number),
        "String" => match content {
            Document::Text(s) => Ok(Payload::Text(s)),
            _ => Err(DecodeError::Custom("invalid type, expected a string".to_string())),
        },
        "Complex" => match &content {
            Document::Object(entries) => {
                let a = field_of(entries, "a")
                    .ok_or(DecodeError::Custom("missing field `a`".to_string()))?;
                let b = field_of(entries, "b")
                    .ok_or(DecodeError::Custom("missing field `b`".to_string()))?;
                Ok(Payload::Complex { a: as_u64(a, "a")?, b: as_u64(b, "b")? })
            }
            _ => Err(DecodeError::Custom("invalid type, expected struct Complex".to_string())),
        },
        other => Err(DecodeError::Custom(format!("no decoder for {other}"))),
    }
}

fn decode(schema: &SchemaDescription, record: Document) -> Result<Decoded<Payload>, DecodeError> {
    decode_record(schema, record, decode_payload)
}

fn typed_name(schema: &SchemaDescription, d: &Decoded<Payload>) -> String {
    match d {
        Decoded::Typed(k, _) => schema.typed_variants[*k].ident.clone(),
        Decoded::Fallback(_) => schema.fallback.ident.clone(),
    }
}

#[test]
fn test_deserialize_json() {
    let missing_field_b_in_complex_variant = object(vec![
        ("resourceType", text("Complex")),
        ("resource", object(vec![("a", num(2000))])),
    ]);
    let result = decode(&resource_schema(), missing_field_b_in_complex_variant);
    println!("Resource: {:#?}", result);
    assert!(result.is_err());
}

#[test]
fn test_unsuccessful_deserialization_returns_an_error_instead_of_implicitly_switching_to_untagged_variant(
) {
    let missing_field_b_in_complex_variant = object(vec![
        ("resourceType", text("Complex")),
        ("resource", object(vec![("a", num(2000))])),
    ]);
    let result = decode(&resource_schema(), missing_field_b_in_complex_variant);
    let error = result.unwrap_err();
    assert!(error.message().contains("missing field"));
    assert!(error.message().contains("`b`"));
}

#[test]
fn test_successful_deserialization() {
    let schema = resource_schema();

    let variant_string = object(vec![("resourceType", text("String")), ("resource", text("text"))]);
    let result = decode(&schema, variant_string).unwrap();
    assert!(matches!(&result, Decoded::Typed(_, Payload::Text(s)) if s == "text"));
    assert_eq!(typed_name(&schema, &result), "String");

    let variant_number = object(vec![
        ("unrelated", num(1234)),
        ("resourceType", text("Number")),
        ("resource", num(2000)),
    ]);
    let result = decode(&schema, variant_number).unwrap();
    assert!(matches!(result, Decoded::Typed(0, Payload::Number(2000))));

    let variant_complex = object(vec![
        ("resourceType", text("Complex")),
        ("resource", object(vec![("a", num(2000)), ("b", num(3000))])),
    ]);
    let result = decode(&schema, variant_complex).unwrap();
    assert!(matches!(result, Decoded::Typed(2, Payload::Complex { a: 2000, b: 3000 })));

    let variant_unknown_but_matching_enum = object(vec![
        ("unrelated", num(1234)),
        ("resourceType", text("Unknown")),
        ("resource", object(vec![("c", num(4000))])),
    ]);
    let result = decode(&schema, variant_unknown_but_matching_enum).unwrap();
    assert!(matches!(result, Decoded::Fallback(_)));

    let variant_unknown_matched_by_untagged_type = object(vec![
        ("unrelated", num(1234)),
        ("resourceType", text("NEWRANDOMTYPE")),
        ("resource", object(vec![("d", num(5000))])),
    ]);
    let result = decode(&schema, variant_unknown_matched_by_untagged_type).unwrap();
    assert!(matches!(result, Decoded::Fallback(_)));
    assert_eq!(
        format!("{:?}", result),
        format!("{:?}", Decoded::<Payload>::Fallback(object(vec![("d", num(5000))])))
    );
}

#[test]
fn test_rename() {
    let decl = enum_decl(
        "ResourceStructWithRename",
        vec![
            variant("String", &["String"], vec![serde_attr(vec![("rename", Some("string"))])]),
            variant("Unknown", &["serde_json", "Value"], untagged()),
        ],
    );
    let schema = extract_schema(&decl).unwrap();
    let variant_string = object(vec![("resourceType", text("string")), ("resource", text("text"))]);
    let result = decode(&schema, variant_string).unwrap();
    assert!(matches!(result, Decoded::Typed(0, Payload::Text(_))));
    assert_eq!(typed_name(&schema, &result), "String");
}

#[test]
fn test_deserialize_with() {
    let decl = enum_decl(
        "ResourceStructWithDeserializeWith",
        vec![
            variant(
                "Number",
                &["u32"],
                vec![serde_attr(vec![("deserialize_with", Some("always_returns_five"))])],
            ),
            variant("Unknown", &["serde_json", "Value"], untagged()),
        ],
    );
    let schema = extract_schema(&decl).unwrap();
    let variant_string = object(vec![("resourceType", text("Number")), ("resource", num(1))]);
    let result = decode(&schema, variant_string).unwrap();
    assert!(matches!(result, Decoded::Typed(0, Payload::Number(5))));
}

#[test]
fn string_variant_decodes_text() {
    let schema = resource_schema();
    let record = object(vec![("resourceType", text("String")), ("resource", text("text"))]);
    match decode(&schema, record) {
        Ok(Decoded::Typed(1, Payload::Text(s))) => assert_eq!(s, "text"),
        other => panic!("unexpected {:?}", other),
    }
}

#[test]
fn known_tag_with_wrong_payload_type_is_an_error() {
    let schema = resource_schema();
    let record = object(vec![("resourceType", text("Number")), ("resource", text("not a number"))]);
    let err = decode(&schema, record).unwrap_err();
    assert_eq!(err, DecodeError::Custom("invalid type for u64, expected u64".to_string()));
}

#[test]
fn missing_tag_field_is_named() {
    let schema = resource_schema();
    let record = object(vec![("resource", num(1))]);
    let err = decode(&schema, record).unwrap_err();
    assert_eq!(err, DecodeError::MissingField("resourceType".to_string()));
    assert_eq!(err.message(), "missing field `resourceType`");
}

#[test]
fn missing_content_field_is_named() {
    let schema = resource_schema();
    let record = object(vec![("resourceType", text("NEWRANDOMTYPE"))]);
    let err = decode(&schema, record).unwrap_err();
    assert_eq!(err, DecodeError::MissingField("resource".to_string()));
    assert_eq!(err.message(), "missing field `resource`");
}

#[test]
fn non_string_tag_is_named() {
    let schema = resource_schema();
    let record = object(vec![("resourceType", num(3)), ("resource", num(1))]);
    let err = decode(&schema, record).unwrap_err();
    assert_eq!(err, DecodeError::TagNotString("resourceType".to_string()));
    assert_eq!(err.message(), "`resourceType` is not of type `string`");
}

#[test]
fn non_object_record_is_rejected() {
    let schema = resource_schema();
    let err = decode(&schema, Document::Array(vec![num(1)])).unwrap_err();
    assert_eq!(err, DecodeError::NotAnObject);
    assert_eq!(err.message(), "invalid type: expected an object");
    assert!(decode(&schema, Document::Null).is_err());
}

#[test]
fn fallback_keeps_any_content_unchanged() {
    let schema = resource_schema();
    let content = Document::Array(vec![Document::Bool(true), Document::Null, text("x")]);
    let expected = format!("{:?}", content);
    let record = object(vec![("resourceType", text("Other")), ("resource", content)]);
    match decode(&schema, record) {
        Ok(Decoded::Fallback(c)) => assert_eq!(format!("{:?}", c), expected),
        other => panic!("unexpected {:?}", other),
    }
}

#[test]
fn first_of_duplicate_keys_is_read() {
    let schema = resource_schema();
    let record = object(vec![
        ("resourceType", text("Number")),
        ("resourceType", text("String")),
        ("resource", num(7)),
    ]);
    assert!(matches!(decode(&schema, record), Ok(Decoded::Typed(0, Payload::Number(7)))));
}

#[test]
fn custom_error_message_is_kept() {
    let err = DecodeError::Custom("missing field `b`".to_string());
    assert_eq!(err.message(), "missing field `b`");
}
