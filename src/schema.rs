//! Extraction and validation of an adjacently tagged schema.
use vstd::prelude::*;
use crate::declaration::{Attribute, DeclData, DeriveDecl, MetaItem, TypeRef, VariantDecl, joined_path, path_to_ident, is_word};

verus! {

/// One variant of a schema, as the decoder needs it.
#[derive(Clone, Debug, PartialEq, Eq)]
pub struct VariantDescriptor {
    /// The identifier the variant is constructed with.
    pub ident: String,
    /// The tag value that selects the variant: its `rename`, else its identifier.
    pub match_name: String,
    /// The path of the payload type.
    pub payload_type: String,
    /// A function that decodes the payload in place of the payload type's own decoder.
    pub decode_with: Option<String>,
}

/// The validated description of an adjacently tagged enum with one fallback variant.
#[derive(Clone, Debug, PartialEq, Eq)]
pub struct SchemaDescription {
    /// The identifier of the enum.
    pub enum_name: String,
    /// The field that carries the tag.
    pub tag_field: String,
    /// The field that carries the payload.
    pub content_field: String,
    /// The typed variants, in declaration order.
    pub typed_variants: Vec<VariantDescriptor>,
    /// The variant that captures the raw content when no typed variant matches.
    pub fallback: VariantDescriptor,
}

/// A variant descriptor, with its text as sequences of characters.
pub ghost struct VariantView {
    pub ident: Seq<char>,
    pub match_name: Seq<char>,
    pub payload_type: Seq<char>,
    pub decode_with: Option<Seq<char>>,
}

/// A schema description, with its text as sequences of characters.
pub ghost struct SchemaView {
    pub enum_name: Seq<char>,
    pub tag_field: Seq<char>,
    pub content_field: Seq<char>,
    pub typed_variants: Seq<VariantView>,
    pub fallback: VariantView,
}

/// The characters of an optional string.
pub open spec fn opt_view(o: Option<String>) -> Option<Seq<char>> {
    match o {
        Some(s) => Some(s@),
        None => None,
    }
}

impl View for VariantDescriptor {
    type V = VariantView;

    open spec fn view(&self) -> VariantView {
        VariantView {
            ident: self.ident@,
            match_name: self.match_name@,
            payload_type: self.payload_type@,
            decode_with: opt_view(self.decode_with),
        }
    }
}

impl View for SchemaDescription {
    type V = SchemaView;

    open spec fn view(&self) -> SchemaView {
        SchemaView {
            enum_name: self.enum_name@,
            tag_field: self.tag_field@,
            content_field: self.content_field@,
            typed_variants: self.typed_variants@.map_values(|v: VariantDescriptor| v@),
            fallback: self.fallback@,
        }
    }
}

/// Why a declaration cannot be given a decoder.
#[derive(Clone, Debug, PartialEq, Eq)]
pub enum SchemaError {
    /// `tag = ".."` or `content = ".."` is missing from the type's `serde` attributes.
    MissingTagOrContent,
    /// The declaration is a struct.
    StructNotSupported,
    /// The declaration is a union.
    UnionNotSupported,
    /// The enum has no variants.
    NoVariants,
    /// The named variant has no field of a path type.
    UnresolvedPayload(String),
    /// No variant is marked `#[serde(untagged)]`.
    NoFallback,
    /// More than one variant is marked `#[serde(untagged)]`.
    MultipleFallbacks,
}

/// The build failure message of a schema error.
pub open spec fn schema_message_text(e: SchemaFault) -> Seq<char> {
    match e {
        SchemaFault::MissingTagOrContent => "Tag and content attributes must be set, ex. #[serde(tag = \"resourceType\", content = \"resource\")]"@,
        SchemaFault::StructNotSupported => "Unsupported type `struct`, must be `enum`"@,
        SchemaFault::UnionNotSupported => "Unsupported type `union`, must be `enum`"@,
        SchemaFault::NoVariants => "Enum variants are empty"@,
        SchemaFault::UnresolvedPayload(v) => "Unable to resolve inner type of "@ + v,
        SchemaFault::NoFallback => "No untagged variant specified, use serde::Deserialize instead"@,
        SchemaFault::MultipleFallbacks => "More than one untagged variant specified"@,
    }
}

impl SchemaError {
    /// The build failure message of the error.
    pub fn message(&self) -> (r: String)
        ensures
            r@ == schema_message_text(self@),
    {
        match self {
            SchemaError::MissingTagOrContent => "Tag and content attributes must be set, ex. #[serde(tag = \"resourceType\", content = \"resource\")]".to_owned(),
            SchemaError::StructNotSupported => "Unsupported type `struct`, must be `enum`".to_owned(),
            SchemaError::UnionNotSupported => "Unsupported type `union`, must be `enum`".to_owned(),
            SchemaError::NoVariants => "Enum variants are empty".to_owned(),
            SchemaError::UnresolvedPayload(v) => {
                let mut out = "Unable to resolve inner type of ".to_owned();
                out.append(v.as_str());
                out
            },
            SchemaError::NoFallback => "No untagged variant specified, use serde::Deserialize instead".to_owned(),
            SchemaError::MultipleFallbacks => "More than one untagged variant specified".to_owned(),
        }
    }
}

/// The value of the last `key = ".."` among the items.
pub open spec fn items_value(items: Seq<MetaItem>, key: Seq<char>) -> Option<Seq<char>>
    decreases items.len(),
{
    if items.len() == 0 {
        None
    } else if items.last().path@ == key && items.last().value is Some {
        opt_view(items.last().value)
    } else {
        items_value(items.drop_last(), key)
    }
}

/// Whether an attribute is a `serde` attribute.
pub open spec fn is_serde(a: Attribute) -> bool {
    a.path@ == "serde"@
}

/// The value of the last `key = ".."` over all `serde` attributes.
pub open spec fn serde_value(attrs: Seq<Attribute>, key: Seq<char>) -> Option<Seq<char>>
    decreases attrs.len(),
{
    if attrs.len() == 0 {
        None
    } else if is_serde(attrs.last()) && items_value(attrs.last().items@, key) is Some {
        items_value(attrs.last().items@, key)
    } else {
        serde_value(attrs.drop_last(), key)
    }
}

/// Whether some `serde` attribute holds the item `flag`.
pub open spec fn has_serde_flag(attrs: Seq<Attribute>, flag: Seq<char>) -> bool {
    exists|i: int, j: int|
        0 <= i < attrs.len() && is_serde(#[trigger] attrs[i]) && 0 <= j < attrs[i].items@.len()
            && (#[trigger] attrs[i].items@[j]).path@ == flag
}

proof fn lemma_take_step<T>(s: Seq<T>, i: int)
    requires
        0 <= i < s.len(),
    ensures
        s.take(i + 1).drop_last() == s.take(i),
        s.take(i + 1).last() == s[i],
        s.take(i + 1).len() == i + 1,
{
    assert(s.take(i + 1).drop_last() =~= s.take(i));
}

/// The value of the last `key = ".."` item of one attribute's list.
fn find_item_value(items: &Vec<MetaItem>, key: &str) -> (r: Option<String>)
    ensures
        opt_view(r) == items_value(items@, key@),
{
    let mut found: Option<String> = None;
    let mut i: usize = 0;
    while i < items.len()
        invariant
            i <= items.len(),
            opt_view(found) == items_value(items@.take(i as int), key@),
        decreases items.len() - i,
    {
        proof { lemma_take_step(items@, i as int); }
        let item = &items[i];
        if is_word(&item.path, key) {
            match &item.value {
                Some(v) => { found = Some(v.clone()); },
                None => {},
            }
        }
        i = i + 1;
    }
    proof { assert(items@.take(items.len() as int) =~= items@); }
    found
}

/// The value of the last `key = ".."` over all `serde` attributes.
pub fn serde_attribute_value(attrs: &Vec<Attribute>, key: &str) -> (r: Option<String>)
    ensures
        opt_view(r) == serde_value(attrs@, key@),
{
    let mut found: Option<String> = None;
    let mut i: usize = 0;
    while i < attrs.len()
        invariant
            i <= attrs.len(),
            opt_view(found) == serde_value(attrs@.take(i as int), key@),
        decreases attrs.len() - i,
    {
        proof { lemma_take_step(attrs@, i as int); }
        let attr = &attrs[i];
        if is_word(&attr.path, "serde") {
            let v = find_item_value(&attr.items, key);
            if v.is_some() {
                found = v;
            }
        }
        i = i + 1;
    }
    proof { assert(attrs@.take(attrs.len() as int) =~= attrs@); }
    found
}

/// Whether a variant is marked as the fallback with `#[serde(untagged)]`.
pub fn has_serde_untagged_attribute(attrs: &Vec<Attribute>) -> (r: bool)
    ensures
        r == has_serde_flag(attrs@, "untagged"@),
{
    let mut i: usize = 0;
    while i < attrs.len()
        invariant
            i <= attrs.len(),
            forall|a: int, b: int|
                0 <= a < i && is_serde(#[trigger] attrs@[a]) && 0 <= b < attrs@[a].items@.len()
                    ==> (#[trigger] attrs@[a].items@[b]).path@ != "untagged"@,
        decreases attrs.len() - i,
    {
        let attr = &attrs[i];
        if is_word(&attr.path, "serde") {
            let mut j: usize = 0;
            while j < attr.items.len()
                invariant
                    i < attrs.len(),
                    attr == &attrs@[i as int],
                    is_serde(*attr),
                    j <= attr.items.len(),
                    forall|b: int| 0 <= b < j ==> (#[trigger] attr.items@[b]).path@ != "untagged"@,
                decreases attr.items.len() - j,
            {
                if is_word(&attr.items[j].path, "untagged") {
                    return true;
                }
                j = j + 1;
            }
        }
        i = i + 1;
    }
    false
}

/// A schema error, with the variant name as a sequence of characters.
pub ghost enum SchemaFault {
    MissingTagOrContent,
    StructNotSupported,
    UnionNotSupported,
    NoVariants,
    UnresolvedPayload(Seq<char>),
    NoFallback,
    MultipleFallbacks,
}

impl View for SchemaError {
    type V = SchemaFault;

    open spec fn view(&self) -> SchemaFault {
        match self {
            SchemaError::MissingTagOrContent => SchemaFault::MissingTagOrContent,
            SchemaError::StructNotSupported => SchemaFault::StructNotSupported,
            SchemaError::UnionNotSupported => SchemaFault::UnionNotSupported,
            SchemaError::NoVariants => SchemaFault::NoVariants,
            SchemaError::UnresolvedPayload(n) => SchemaFault::UnresolvedPayload(n@),
            SchemaError::NoFallback => SchemaFault::NoFallback,
            SchemaError::MultipleFallbacks => SchemaFault::MultipleFallbacks,
        }
    }
}

/// The payload type of a variant: the path of its last field of a path type.
pub open spec fn payload_of(fields: Seq<TypeRef>) -> Option<Seq<char>>
    decreases fields.len(),
{
    if fields.len() == 0 {
        None
    } else {
        match fields.last() {
            TypeRef::Path(segments) => Some(joined_path(segments@)),
            TypeRef::Other => payload_of(fields.drop_last()),
        }
    }
}

/// Whether a variant is marked `#[serde(untagged)]`.
pub open spec fn is_fallback(v: VariantDecl) -> bool {
    has_serde_flag(v.attrs@, "untagged"@)
}

/// The descriptor of a variant whose payload type resolves.
pub open spec fn variant_view(v: VariantDecl) -> VariantView {
    VariantView {
        ident: v.ident@,
        match_name: match serde_value(v.attrs@, "rename"@) {
            Some(n) => n,
            None => v.ident@,
        },
        payload_type: match payload_of(v.fields@) {
            Some(t) => t,
            None => Seq::empty(),
        },
        decode_with: serde_value(v.attrs@, "deserialize_with"@),
    }
}

/// The index of the first variant whose payload type does not resolve.
pub open spec fn first_unresolved(vs: Seq<VariantDecl>) -> Option<int>
    decreases vs.len(),
{
    if vs.len() == 0 {
        None
    } else {
        match first_unresolved(vs.drop_last()) {
            Some(k) => Some(k),
            None => if payload_of(vs.last().fields@) is None {
                Some(vs.len() - 1)
            } else {
                None
            },
        }
    }
}

/// How many variants are marked as the fallback.
pub open spec fn fallback_count(vs: Seq<VariantDecl>) -> nat
    decreases vs.len(),
{
    if vs.len() == 0 {
        0
    } else {
        fallback_count(vs.drop_last()) + if is_fallback(vs.last()) { 1nat } else { 0nat }
    }
}

/// The descriptors of the variants that are not the fallback, in order.
pub open spec fn typed_views(vs: Seq<VariantDecl>) -> Seq<VariantView>
    decreases vs.len(),
{
    if vs.len() == 0 {
        Seq::empty()
    } else if is_fallback(vs.last()) {
        typed_views(vs.drop_last())
    } else {
        typed_views(vs.drop_last()).push(variant_view(vs.last()))
    }
}

/// The descriptor of the last variant marked as the fallback.
pub open spec fn fallback_view(vs: Seq<VariantDecl>) -> Option<VariantView>
    decreases vs.len(),
{
    if vs.len() == 0 {
        None
    } else if is_fallback(vs.last()) {
        Some(variant_view(vs.last()))
    } else {
        fallback_view(vs.drop_last())
    }
}

/// What the analysis of a declaration yields: its schema, or the first rule it breaks.
pub open spec fn analysis(d: DeriveDecl) -> Result<SchemaView, SchemaFault> {
    let tag = serde_value(d.attrs@, "tag"@);
    let content = serde_value(d.attrs@, "content"@);
    if tag is None || content is None {
        Err(SchemaFault::MissingTagOrContent)
    } else {
        match d.data {
            DeclData::Struct => Err(SchemaFault::StructNotSupported),
            DeclData::Union => Err(SchemaFault::UnionNotSupported),
            DeclData::Enum(vs) => if vs@.len() == 0 {
                Err(SchemaFault::NoVariants)
            } else if first_unresolved(vs@) is Some {
                Err(SchemaFault::UnresolvedPayload(vs@[first_unresolved(vs@)->0].ident@))
            } else if fallback_count(vs@) == 0 {
                Err(SchemaFault::NoFallback)
            } else if fallback_count(vs@) > 1 {
                Err(SchemaFault::MultipleFallbacks)
            } else {
                Ok(
                    SchemaView {
                        enum_name: d.ident@,
                        tag_field: tag->0,
                        content_field: content->0,
                        typed_variants: typed_views(vs@),
                        fallback: fallback_view(vs@)->0,
                    },
                )
            },
        }
    }
}

/// The tag and content field names declared by `#[serde(tag = "..", content = "..")]`.
pub fn get_tag_and_content_attributes(attrs: &Vec<Attribute>) -> (r: Result<(String, String), SchemaError>)
    ensures
        match r {
            Ok((tag, content)) => serde_value(attrs@, "tag"@) == Some(tag@)
                && serde_value(attrs@, "content"@) == Some(content@),
            Err(e) => e is MissingTagOrContent && (serde_value(attrs@, "tag"@) is None
                || serde_value(attrs@, "content"@) is None),
        },
{
    let tag = serde_attribute_value(attrs, "tag");
    let content = serde_attribute_value(attrs, "content");
    match (tag, content) {
        (Some(t), Some(c)) => Ok((t, c)),
        _ => Err(SchemaError::MissingTagOrContent),
    }
}

/// The payload type of a variant: the path of its last field of a path type.
pub fn resolve_payload_type(fields: &Vec<TypeRef>) -> (r: Option<String>)
    ensures
        opt_view(r) == payload_of(fields@),
{
    let mut i: usize = fields.len();
    proof {
        assert(fields@.take(fields.len() as int) =~= fields@);
    }
    while i > 0
        invariant
            i <= fields.len(),
            payload_of(fields@) == payload_of(fields@.take(i as int)),
        decreases i,
    {
        proof { lemma_take_step(fields@, i - 1); }
        match &fields[i - 1] {
            TypeRef::Path(segments) => {
                return Some(path_to_ident(segments));
            },
            TypeRef::Other => {},
        }
        i = i - 1;
    }
    None
}

/// The descriptor of one variant, or the error naming it when its payload type does not resolve.
pub fn extract_variant(v: &VariantDecl) -> (r: Result<VariantDescriptor, SchemaError>)
    ensures
        match r {
            Ok(d) => payload_of(v.fields@) is Some && d@ == variant_view(*v),
            Err(e) => payload_of(v.fields@) is None && e@ == SchemaFault::UnresolvedPayload(v.ident@),
        },
{
    match resolve_payload_type(&v.fields) {
        None => Err(SchemaError::UnresolvedPayload(v.ident.clone())),
        Some(payload_type) => {
            let match_name = match serde_attribute_value(&v.attrs, "rename") {
                Some(n) => n,
                None => v.ident.clone(),
            };
            let decode_with = serde_attribute_value(&v.attrs, "deserialize_with");
            Ok(VariantDescriptor { ident: v.ident.clone(), match_name, payload_type, decode_with })
        },
    }
}

/// The schema of a declaration, or the first rule it breaks:
/// tag and content declared, an enum, some variant, every payload type
/// resolved, and exactly one fallback variant.
pub fn extract_schema(decl: &DeriveDecl) -> (r: Result<SchemaDescription, SchemaError>)
    ensures
        match r {
            Ok(s) => analysis(*decl) == Ok::<SchemaView, SchemaFault>(s@),
            Err(e) => analysis(*decl) == Err::<SchemaView, SchemaFault>(e@),
        },
{
    let (tag_field, content_field) = match get_tag_and_content_attributes(&decl.attrs) {
        Ok(tc) => tc,
        Err(e) => {
            return Err(e);
        },
    };
    let vs = match &decl.data {
        DeclData::Struct => {
            return Err(SchemaError::StructNotSupported);
        },
        DeclData::Union => {
            return Err(SchemaError::UnionNotSupported);
        },
        DeclData::Enum(vs) => vs,
    };
    if vs.len() == 0 {
        return Err(SchemaError::NoVariants);
    }
    let mut typed_variants: Vec<VariantDescriptor> = Vec::new();
    let mut fallback: Option<VariantDescriptor> = None;
    let mut fallbacks: usize = 0;
    let mut i: usize = 0;
    while i < vs.len()
        invariant
            decl.data == DeclData::Enum(*vs),
            serde_value(decl.attrs@, "tag"@) == Some(tag_field@),
            serde_value(decl.attrs@, "content"@) == Some(content_field@),
            vs.len() > 0,
            i <= vs.len(),
            fallbacks == fallback_count(vs@.take(i as int)),
            fallbacks <= i,
            (fallbacks == 0) == (fallback is None),
            first_unresolved(vs@.take(i as int)) is None,
            typed_variants@.map_values(|v: VariantDescriptor| v@) == typed_views(vs@.take(i as int)),
            match fallback {
                Some(f) => fallback_view(vs@.take(i as int)) == Some(f@),
                None => fallback_view(vs@.take(i as int)) is None,
            },
        decreases vs.len() - i,
    {
        proof { lemma_take_step(vs@, i as int); }
        let v = &vs[i];
        let d = match extract_variant(v) {
            Ok(d) => d,
            Err(e) => {
                proof {
                    lemma_first_unresolved_prefix(vs@, i as int + 1, vs@.len() as int);
                    assert(vs@.take(vs@.len() as int) =~= vs@);
                }
                return Err(e);
            },
        };
        if has_serde_untagged_attribute(&v.attrs) {
            fallback = Some(d);
            fallbacks = fallbacks + 1;
        } else {
            let ghost before = typed_variants@;
            typed_variants.push(d);
            proof {
                assert(typed_variants@.map_values(|v: VariantDescriptor| v@)
                    =~= before.map_values(|v: VariantDescriptor| v@).push(d@));
            }
        }
        i = i + 1;
    }
    proof {
        assert(vs@.take(vs.len() as int) =~= vs@);
    }
    match fallback {
        None => Err(SchemaError::NoFallback),
        Some(_) if fallbacks > 1 => Err(SchemaError::MultipleFallbacks),
        Some(f) => Ok(
            SchemaDescription {
                enum_name: decl.ident.clone(),
                tag_field,
                content_field,
                typed_variants,
                fallback: f,
            },
        ),
    }
}

/// Once a prefix ends in the first unresolved variant, every longer prefix names that variant.
proof fn lemma_first_unresolved_prefix(vs: Seq<VariantDecl>, n: int, m: int)
    requires
        0 < n <= m <= vs.len(),
        first_unresolved(vs.take(n - 1)) is None,
        payload_of(vs[n - 1].fields@) is None,
    ensures
        first_unresolved(vs.take(m)) == Some(n - 1),
    decreases m,
{
    lemma_take_step(vs, m - 1);
    if m > n {
        lemma_first_unresolved_prefix(vs, n, m - 1);
    }
}

/// A declaration yields no schema when it lacks the tag or the content declaration,
/// when it is an enum without variants, or when it marks no variant or more than one
/// variant as the fallback; a schema it does yield has the declared field names.
pub proof fn lemma_schema_rules(d: DeriveDecl)
    ensures
        serde_value(d.attrs@, "tag"@) is None || serde_value(d.attrs@, "content"@) is None
            ==> analysis(d) == Err::<SchemaView, SchemaFault>(SchemaFault::MissingTagOrContent),
        d.data matches DeclData::Enum(vs) && vs@.len() == 0 ==> analysis(d) is Err,
        d.data matches DeclData::Enum(vs) && fallback_count(vs@) != 1 ==> analysis(d) is Err,
        analysis(d) matches Ok(s) ==> d.data is Enum && serde_value(d.attrs@, "tag"@) == Some(s.tag_field)
            && serde_value(d.attrs@, "content"@) == Some(s.content_field),
{
}

} // verus!
