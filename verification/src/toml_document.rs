//! Reading TOML documents with the `toml` crate.

use vstd::prelude::*;

verus! {

/// A TOML value as the `toml` crate holds it; its contents stay opaque here.
#[verifier::external_type_specification]
#[verifier::external_body]
pub struct ExTomlValue(toml::Value);

/// The value that `toml::from_str` reads from the text, or none where it
/// reports an error.
pub uninterp spec fn toml_document_value(text: Seq<char>) -> Option<toml::Value>;

/// The longest text handed to the TOML reader. The reader recurses once per
/// nested array or inline table with no bound of its own, so only short texts
/// are sure not to exhaust the stack.
pub const MAX_TOML_TEXT: usize = 256;

/// Calls `toml::from_str::<toml::Value>` and keeps the value, dropping the
/// error. Trusted: the result is fixed by the text alone, the same on every
/// call; what it holds is left to the name `toml_document_value`.
#[verifier::external_body]
pub(crate) fn parse_toml(text: &str) -> (res: Option<toml::Value>)
    requires
        text@.len() <= MAX_TOML_TEXT,
    ensures
        res == toml_document_value(text@),
{
    toml::from_str(text).ok()
}

} // verus!
