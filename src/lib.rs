//! Build-time analysis of adjacently tagged enums that carry one untagged
//! fallback variant, and synthesis of a decoder that falls back to the raw
//! content only when the tag names no typed variant.
//!
//! - [`declaration`]: a plain description of an enum declaration and its
//!   `#[serde(...)]` attributes;
//! - [`schema`]: extraction and validation of the tag/content field names and
//!   the typed and fallback variants;
//! - [`codegen`]: the text of the `Deserialize` impl for such a schema;
//! - [`document`]: a generic document tree and the errors of decoding one;
//! - [`dispatch`]: the same decision chain run directly on a document.

pub mod declaration;
pub mod schema;
pub mod codegen;
pub mod document;
pub mod dispatch;
