//! Reading the settings back as a TOML document.
//!
//! Parsing is the `toml` crate's work. The document it returns is handed on
//! as it is; nothing here looks inside.

use vstd::prelude::*;

verus! {

/// `toml::Value`, a parsed TOML value; here always a whole document. It is
/// carried through unopened.
#[verifier::external_type_specification]
#[verifier::external_body]
pub struct ExValue(toml::Value);

/// `toml::de::Error`, the parser's account of why a text is no TOML
/// document. It is carried through unopened.
#[verifier::external_type_specification]
#[verifier::external_body]
pub struct ExParseError(toml::de::Error);

/// What the `toml` crate's parser makes of `text`: the document, or its
/// error for a text that is no TOML document.
pub uninterp spec fn toml_parsed(text: Seq<char>) -> Result<toml::Value, toml::de::Error>;

/// Calls `toml::Value`'s `FromStr::from_str`, which parses `text` as a whole
/// TOML document. The call returns for every text, with the document or with
/// the parser's error: nesting deeper than the parser's own limit is an
/// error too, not followed. The parse reads the text and nothing else, so
/// the same text always gives the same document or the same error. What a
/// document holds is not spelled out here: the result only has a name.
#[verifier::external_body]
pub(crate) fn parse_toml(text: &str) -> (parsed: Result<toml::Value, toml::de::Error>)
    ensures
        parsed == toml_parsed(text@),
{
    text.parse::<toml::Value>()
}

} // verus!
