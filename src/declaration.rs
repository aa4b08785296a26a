//! A plain model of an enum declaration, as a derive sees it.
use vstd::prelude::*;

verus! {

/// One item inside an attribute's parentheses: `untagged`, or `tag = "kind"`.
#[derive(Clone, Debug, PartialEq, Eq)]
pub struct MetaItem {
    /// The item's path, segments joined with `::` (`tag`, `deserialize_with`).
    pub path: String,
    /// The string literal after `=`, if the item has one.
    pub value: Option<String>,
}

/// An outer attribute such as `#[serde(tag = "kind", content = "data")]`.
#[derive(Clone, Debug, PartialEq, Eq)]
pub struct Attribute {
    /// The attribute's path, segments joined with `::` (`serde`, `doc`).
    pub path: String,
    /// The items inside the parentheses, in order.
    pub items: Vec<MetaItem>,
}

/// The type of one field of a variant.
#[derive(Clone, Debug, PartialEq, Eq)]
pub enum TypeRef {
    /// A path type, by its segment names (`serde_json::Value` is `["serde_json", "Value"]`).
    Path(Vec<String>),
    /// Any other type (a reference, a tuple, an array, ...).
    Other,
}

/// One variant of the enum.
#[derive(Clone, Debug, PartialEq, Eq)]
pub struct VariantDecl {
    /// The variant's identifier.
    pub ident: String,
    /// The variant's own attributes.
    pub attrs: Vec<Attribute>,
    /// The types of its fields, in order.
    pub fields: Vec<TypeRef>,
}

/// What kind of item the declaration is.
#[derive(Clone, Debug, PartialEq, Eq)]
pub enum DeclData {
    Struct,
    Union,
    Enum(Vec<VariantDecl>),
}

/// A type declaration together with its attributes.
#[derive(Clone, Debug, PartialEq, Eq)]
pub struct DeriveDecl {
    /// The type's identifier.
    pub ident: String,
    /// The attributes on the type itself.
    pub attrs: Vec<Attribute>,
    /// Its body.
    pub data: DeclData,
}

/// A path written out with `::` between its segments.
pub open spec fn joined_path(segments: Seq<String>) -> Seq<char>
    decreases segments.len(),
{
    if segments.len() == 0 {
        Seq::empty()
    } else if segments.len() == 1 {
        segments[0]@
    } else {
        joined_path(segments.drop_last()) + "::"@ + segments.last()@
    }
}

/// The identifier text of a path: its segment names joined with `::`.
pub fn path_to_ident(segments: &Vec<String>) -> (r: String)
    ensures
        r@ == joined_path(segments@),
{
    let mut out = String::new();
    let mut i: usize = 0;
    while i < segments.len()
        invariant
            i <= segments.len(),
            out@ == joined_path(segments@.take(i as int)),
        decreases segments.len() - i,
    {
        proof {
            let next = segments@.take(i as int + 1);
            assert(next.drop_last() =~= segments@.take(i as int));
            assert(next.last() == segments@[i as int]);
        }
        if i > 0 {
            out.append("::");
        }
        out.append(segments[i].as_str());
        i = i + 1;
    }
    proof {
        assert(segments@.take(segments.len() as int) =~= segments@);
    }
    out
}

/// Whether a string spells exactly the given word.
pub fn is_word(s: &String, word: &str) -> (r: bool)
    ensures
        r == (s@ == word@),
{
    let w = word.to_owned();
    *s == w
}

} // verus!
