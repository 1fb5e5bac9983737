use vstd::prelude::*;
use crate::nesting::{toml_nesting_ok, toml_nesting_within_bound};
use crate::text::VersionError;

verus! {

/// What parsing `text` as a JSON document and reading the string under the
/// top-level `key` gives: `None` where the text is not JSON, `Some(None)`
/// where no string stands under that key, `Some(Some(v))` for the string `v`.
pub uninterp spec fn json_top_string(text: Seq<char>, key: Seq<char>) -> Option<Option<Seq<char>>>;

/// What parsing `text` as a TOML document and reading the string under `key`
/// in element `index` of the array under `list` gives: `None` where the text
/// is not TOML, `Some(None)` where no string stands at that path,
/// `Some(Some(v))` for the string `v`.
pub uninterp spec fn toml_item_string(
    text: Seq<char>,
    list: Seq<char>,
    index: nat,
    key: Seq<char>,
) -> Option<Option<Seq<char>>>;

#[verifier::external_type_specification]
#[verifier::external_body]
pub struct ExJsonError(serde_json::Error);

#[verifier::external_type_specification]
#[verifier::external_body]
pub struct ExTomlError(toml::de::Error);

/// The field that holds a mod's version in every metadata format.
pub const VERSION_FIELD: &'static str = "version";

/// The array of mod descriptions in a `mods.toml` document.
pub const MODS_LIST: &'static str = "mods";

pub open spec fn opt_chars(o: Option<String>) -> Option<Seq<char>> {
    match o {
        Some(s) => Some(s@),
        None => None,
    }
}

pub open spec fn result_chars(r: Result<String, VersionError>) -> Result<Seq<char>, VersionError> {
    match r {
        Ok(s) => Ok(s@),
        Err(e) => Err(e),
    }
}

/// How a looked-up field turns into an extraction result: a document that
/// does not parse is malformed, one without the string lacks the field.
pub open spec fn field_outcome(f: Option<Option<Seq<char>>>) -> Result<Seq<char>, VersionError> {
    match f {
        None => Err(VersionError::MalformedDocument),
        Some(None) => Err(VersionError::MissingField),
        Some(Some(v)) => Ok(v),
    }
}

/// The version that a `fabric.mod.json` or `quilt.mod.json` text declares.
pub open spec fn json_version(text: Seq<char>) -> Result<Seq<char>, VersionError> {
    field_outcome(json_top_string(text, VERSION_FIELD@))
}

/// The version that a `mods.toml` text declares for its first mod. A text
/// that nests deeper than the parser can follow is taken as malformed,
/// unparsed.
pub open spec fn toml_version(text: Seq<char>) -> Result<Seq<char>, VersionError> {
    if !toml_nesting_ok(text) {
        Err(VersionError::MalformedDocument)
    } else {
        field_outcome(toml_item_string(text, MODS_LIST@, 0, VERSION_FIELD@))
    }
}

/// Relies on serde_json::from_str into a serde_json::Value, then on
/// Value::get and Value::as_str: the string under a top-level key.
#[verifier::external_body]
fn json_string_field(text: &str, key: &str) -> (r: Result<Option<String>, serde_json::Error>)
    ensures
        match json_top_string(text@, key@) {
            None => r is Err,
            Some(f) => r matches Ok(o) && opt_chars(o) == f,
        },
{
    let doc: serde_json::Value = serde_json::from_str(text)?;
    Ok(doc.get(key).and_then(serde_json::Value::as_str).map(String::from))
}

/// Relies on toml::from_str into a toml::Value, then on Value::get (a key of
/// a table, an element of an array) and Value::as_str. The parser recurses
/// once for each level of nesting (arrays, inline tables, dotted keys, table
/// headers) without a limit of its own, so the text is held to a bound on
/// how deep it nests.
#[verifier::external_body]
fn toml_item_field(
    text: &str,
    list: &str,
    index: usize,
    key: &str,
) -> (r: Result<Option<String>, toml::de::Error>)
    requires
        toml_nesting_ok(text@),
    ensures
        match toml_item_string(text@, list@, index as nat, key@) {
            None => r is Err,
            Some(f) => r matches Ok(o) && opt_chars(o) == f,
        },
{
    let doc: toml::Value = toml::from_str(text)?;
    let item = doc.get(list).and_then(|l| l.get(index));
    Ok(item.and_then(|i| i.get(key)).and_then(toml::Value::as_str).map(String::from))
}

/// Turns the field that a document lookup found into an extraction result.
pub fn field_result<E>(found: Result<Option<String>, E>) -> (r: Result<String, VersionError>)
    ensures
        result_chars(r) == field_outcome(
            match found {
                Ok(o) => Some(opt_chars(o)),
                Err(_) => None,
            },
        ),
{
    match found {
        Err(_) => Err(VersionError::MalformedDocument),
        Ok(None) => Err(VersionError::MissingField),
        Ok(Some(v)) => Ok(v),
    }
}

/// Reads the top-level `version` string of a JSON mod description.
pub fn extract_json_version(text: &str) -> (r: Result<String, VersionError>)
    ensures
        result_chars(r) == json_version(text@),
{
    field_result(json_string_field(text, VERSION_FIELD))
}

/// Reads `mods[0].version` of a TOML mod description, as it stands. A text
/// with a statement that holds more than `MAX_STATEMENT_WEIGHT` brackets and
/// dots outside strings and comments is refused as malformed without being
/// parsed.
pub fn extract_toml_version(text: &str) -> (r: Result<String, VersionError>)
    ensures
        result_chars(r) == toml_version(text@),
        !toml_nesting_ok(text@) ==> r == Err::<String, VersionError>(
            VersionError::MalformedDocument,
        ),
{
    if !toml_nesting_within_bound(text) {
        return Err(VersionError::MalformedDocument);
    }
    field_result(toml_item_field(text, MODS_LIST, 0, VERSION_FIELD))
}

} // verus!
