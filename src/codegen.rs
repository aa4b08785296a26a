//! The text of the `Deserialize` impl for a schema.
use vstd::prelude::*;
use crate::declaration::DeriveDecl;
use crate::schema::{SchemaDescription, SchemaError, SchemaFault, SchemaView, VariantDescriptor, VariantView, analysis, extract_schema};

verus! {

/// The expression that decodes a variant's payload from a `Deserializer`:
/// its `deserialize_with` function, else its payload type's own `deserialize`.
pub open spec fn decoder_text(v: VariantView) -> Seq<char> {
    match v.decode_with {
        Some(f) => f,
        None => "<"@ + v.payload_type + " as serde::Deserialize>::deserialize"@,
    }
}

/// The arm that selects a typed variant when the tag equals its match name.
pub open spec fn if_branch_text(enum_name: Seq<char>, v: VariantView) -> Seq<char> {
    "\n        if resource_type == \""@ + v.match_name + "\" {\n            let resource = "@
        + decoder_text(v) + "(resource.to_owned())\n                .map_err(|e| serde::de::Error::custom(e))?;\n            Ok("@
        + enum_name + "::"@ + v.ident + "(resource))\n        }\n"@
}

/// The block that builds the fallback variant from the raw content.
pub open spec fn fallback_block_text(enum_name: Seq<char>, v: VariantView) -> Seq<char> {
    "{\n            Ok("@ + enum_name + "::"@ + v.ident + "(resource.to_owned()))\n        }\n    "@
}

/// The `else` that ends the chain of typed arms.
pub open spec fn else_branch_text(enum_name: Seq<char>, v: VariantView) -> Seq<char> {
    "       else "@ + fallback_block_text(enum_name, v)
}

/// The typed arms, joined by `else `.
pub open spec fn if_chain_text(enum_name: Seq<char>, vs: Seq<VariantView>) -> Seq<char>
    decreases vs.len(),
{
    if vs.len() == 0 {
        Seq::empty()
    } else if vs.len() == 1 {
        if_branch_text(enum_name, vs[0])
    } else {
        if_chain_text(enum_name, vs.drop_last()) + "else "@ + if_branch_text(enum_name, vs.last())
    }
}

/// The whole decision chain: the typed arms in order, then the fallback.
pub open spec fn if_else_tree_text(enum_name: Seq<char>, vs: Seq<VariantView>, fallback: VariantView) -> Seq<char> {
    if vs.len() == 0 {
        fallback_block_text(enum_name, fallback)
    } else {
        if_chain_text(enum_name, vs) + " "@ + else_branch_text(enum_name, fallback)
    }
}

/// The typed arm of one variant.
pub fn generate_if_branch(enum_name: &str, variant: &VariantDescriptor) -> (r: String)
    ensures
        r@ == if_branch_text(enum_name@, variant@),
{
    let mut out = String::new();
    out.append("\n        if resource_type == \"");
    out.append(variant.match_name.as_str());
    out.append("\" {\n            let resource = ");
    match &variant.decode_with {
        Some(f) => {
            out.append(f.as_str());
        },
        None => {
            out.append("<");
            out.append(variant.payload_type.as_str());
            out.append(" as serde::Deserialize>::deserialize");
        },
    }
    out.append("(resource.to_owned())\n                .map_err(|e| serde::de::Error::custom(e))?;\n            Ok(");
    out.append(enum_name);
    out.append("::");
    out.append(variant.ident.as_str());
    out.append("(resource))\n        }\n");
    assert(out@ =~= if_branch_text(enum_name@, variant@));
    out
}

/// The block that builds the fallback variant from the raw content.
fn generate_fallback_block(enum_name: &str, variant: &VariantDescriptor) -> (r: String)
    ensures
        r@ == fallback_block_text(enum_name@, variant@),
{
    let mut out = String::new();
    out.append("{\n            Ok(");
    out.append(enum_name);
    out.append("::");
    out.append(variant.ident.as_str());
    out.append("(resource.to_owned()))\n        }\n    ");
    out
}

/// The `else` arm that builds the fallback variant.
pub fn generate_else_branch(enum_name: &str, variant: &VariantDescriptor) -> (r: String)
    ensures
        r@ == else_branch_text(enum_name@, variant@),
{
    let block = generate_fallback_block(enum_name, variant);
    let mut out = String::new();
    out.append("       else ");
    out.append(block.as_str());
    out
}

/// The decision chain: each typed variant in order, then the fallback.
pub fn generate_if_else_tree(
    enum_name: &str,
    variants: &Vec<VariantDescriptor>,
    untagged_variant: &VariantDescriptor,
) -> (r: String)
    ensures
        r@ == if_else_tree_text(enum_name@, variants@.map_values(|v: VariantDescriptor| v@), untagged_variant@),
{
    let ghost views = variants@.map_values(|v: VariantDescriptor| v@);
    if variants.len() == 0 {
        return generate_fallback_block(enum_name, untagged_variant);
    }
    let mut out = String::new();
    let mut i: usize = 0;
    while i < variants.len()
        invariant
            views == variants@.map_values(|v: VariantDescriptor| v@),
            i <= variants.len(),
            out@ == if_chain_text(enum_name@, views.take(i as int)),
        decreases variants.len() - i,
    {
        proof {
            let next = views.take(i as int + 1);
            assert(next.drop_last() =~= views.take(i as int));
            assert(next.last() == variants@[i as int]@);
        }
        if i > 0 {
            out.append("else ");
        }
        let branch = generate_if_branch(enum_name, &variants[i]);
        out.append(branch.as_str());
        i = i + 1;
    }
    proof {
        assert(views.take(variants.len() as int) =~= views);
    }
    let tail = generate_else_branch(enum_name, untagged_variant);
    out.append(" ");
    out.append(tail.as_str());
    out
}

/// The whole `Deserialize` impl of a schema.
pub open spec fn impl_text(s: SchemaView) -> Seq<char> {
    "\nimpl<'de> serde::Deserialize<'de> for "@ + s.enum_name
        + " {\n    fn deserialize<D>(deserializer: D) -> Result<Self, D::Error>\n    where\n        D: serde::Deserializer<'de>,\n    {\n        let value = <serde_json::Value as serde::Deserialize>::deserialize(deserializer)?;\n        if !value.is_object() {\n            return Err(<D::Error as serde::de::Error>::custom(\"invalid type: expected an object\"));\n        }\n\n        let resource_type = value\n            .get(\""@
        + s.tag_field + "\")\n            .ok_or(serde::de::Error::custom(\"missing field `"@
        + s.tag_field + "`\"))?\n            .as_str()\n            .ok_or(serde::de::Error::custom(\"`"@
        + s.tag_field + "` is not of type `string`\"))?;\n\n        let resource = value\n            .get(\""@
        + s.content_field + "\")\n            .ok_or(serde::de::Error::custom(\"missing field `"@
        + s.content_field + "`\"))?;\n\n        "@
        + if_else_tree_text(s.enum_name, s.typed_variants, s.fallback) + "\n    }\n}\n"@
}

/// The `Deserialize` impl of a validated schema.
pub fn generate_impl(schema: &SchemaDescription) -> (r: String)
    ensures
        r@ == impl_text(schema@),
{
    let name = schema.enum_name.as_str();
    let tag = schema.tag_field.as_str();
    let content = schema.content_field.as_str();
    let tree = generate_if_else_tree(name, &schema.typed_variants, &schema.fallback);
    let mut out = String::new();
    out.append("\nimpl<'de> serde::Deserialize<'de> for ");
    out.append(name);
    out.append(" {\n    fn deserialize<D>(deserializer: D) -> Result<Self, D::Error>\n    where\n        D: serde::Deserializer<'de>,\n    {\n        let value = <serde_json::Value as serde::Deserialize>::deserialize(deserializer)?;\n        if !value.is_object() {\n            return Err(<D::Error as serde::de::Error>::custom(\"invalid type: expected an object\"));\n        }\n\n        let resource_type = value\n            .get(\"");
    out.append(tag);
    out.append("\")\n            .ok_or(serde::de::Error::custom(\"missing field `");
    out.append(tag);
    out.append("`\"))?\n            .as_str()\n            .ok_or(serde::de::Error::custom(\"`");
    out.append(tag);
    out.append("` is not of type `string`\"))?;\n\n        let resource = value\n            .get(\"");
    out.append(content);
    out.append("\")\n            .ok_or(serde::de::Error::custom(\"missing field `");
    out.append(content);
    out.append("`\"))?;\n\n        ");
    out.append(tree.as_str());
    out.append("\n    }\n}\n");
    out
}

/// The `Deserialize` impl for a declaration, or the first schema rule it breaks.
pub fn derive_enum(item: &DeriveDecl) -> (r: Result<String, SchemaError>)
    ensures
        match r {
            Ok(text) => analysis(*item) is Ok && text@ == impl_text(analysis(*item)->Ok_0),
            Err(e) => analysis(*item) == Err::<SchemaView, SchemaFault>(e@),
        },
{
    match extract_schema(item) {
        Ok(schema) => Ok(generate_impl(&schema)),
        Err(e) => Err(e),
    }
}

} // verus!
