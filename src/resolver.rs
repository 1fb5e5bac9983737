use vstd::prelude::*;
use crate::archive::Archive;
use crate::manifest::{extract_manifest_version, manifest_version};
use crate::metadata::{
    extract_json_version, extract_toml_version, json_version, opt_chars, result_chars,
    toml_version,
};
use crate::text::{str_eq, VersionError};

verus! {

/// The metadata formats that can declare a version.
#[derive(Debug, Clone, Copy, PartialEq, Eq, Structural)]
pub enum FormatKind {
    /// A JSON object with a top-level `version` string.
    JsonModInfo,
    /// A TOML document with a `version` string in the first element of `mods`.
    TomlModInfo,
    /// A manifest with an `Implementation-Version:` line.
    ManifestText,
}

/// An archive entry that may declare the version, and its format.
#[derive(Debug, Clone, Copy)]
pub struct Candidate {
    pub name: &'static str,
    pub kind: FormatKind,
}

/// The value that a `mods.toml` leaves for the build to fill in, deferring
/// the real version to the manifest.
pub const JAR_VERSION_PLACEHOLDER: &'static str = "${file.jarVersion}";

/// The entries that may declare the version, in the order they are tried.
pub open spec fn candidate_list() -> Seq<(Seq<char>, FormatKind)> {
    seq![
        ("fabric.mod.json"@, FormatKind::JsonModInfo),
        ("quilt.mod.json"@, FormatKind::JsonModInfo),
        ("META-INF/mods.toml"@, FormatKind::TomlModInfo),
        ("META-INF/MANIFEST.MF"@, FormatKind::ManifestText),
    ]
}

/// What the extractor of `kind` reads from an entry's content.
pub open spec fn extracted(kind: FormatKind, content: Seq<char>) -> Result<Seq<char>, VersionError> {
    match kind {
        FormatKind::JsonModInfo => json_version(content),
        FormatKind::TomlModInfo => toml_version(content),
        FormatKind::ManifestText => match manifest_version(content) {
            Some(v) => Ok(v),
            None => Err(VersionError::PatternNotFound),
        },
    }
}

/// The version that an extraction result gives, where it is usable: a
/// non-empty string other than the placeholder, whatever format it came from.
pub open spec fn accepted(e: Result<Seq<char>, VersionError>) -> Option<Seq<char>> {
    match e {
        Ok(v) => if v.len() > 0 && v != JAR_VERSION_PLACEHOLDER@ {
            Some(v)
        } else {
            None
        },
        Err(_) => None,
    }
}

/// The version that the entry `name` of format `kind` gives, if present and
/// usable.
pub open spec fn candidate_version(
    entries: Map<Seq<char>, Seq<char>>,
    name: Seq<char>,
    kind: FormatKind,
) -> Option<Seq<char>> {
    if entries.contains_key(name) {
        accepted(extracted(kind, entries[name]))
    } else {
        None
    }
}

/// The first usable version among `cands`, tried in order.
pub open spec fn resolve_over(
    entries: Map<Seq<char>, Seq<char>>,
    cands: Seq<(Seq<char>, FormatKind)>,
) -> Option<Seq<char>>
    decreases cands.len(),
{
    if cands.len() == 0 {
        None
    } else {
        match candidate_version(entries, cands[0].0, cands[0].1) {
            Some(v) => Some(v),
            None => resolve_over(entries, cands.drop_first()),
        }
    }
}

/// The version that an archive with these entries declares, if any.
pub open spec fn resolution(entries: Map<Seq<char>, Seq<char>>) -> Option<Seq<char>> {
    resolve_over(entries, candidate_list())
}

/// The entries that may declare the version, in the order they are tried.
pub fn candidates() -> (r: Vec<Candidate>)
    ensures
        r@.len() == candidate_list().len(),
        forall|i: int|
            0 <= i < r@.len() ==> (#[trigger] r@[i]).name@ == candidate_list()[i].0 && r@[i].kind
                == candidate_list()[i].1,
{
    vec![
        Candidate { name: "fabric.mod.json", kind: FormatKind::JsonModInfo },
        Candidate { name: "quilt.mod.json", kind: FormatKind::JsonModInfo },
        Candidate { name: "META-INF/mods.toml", kind: FormatKind::TomlModInfo },
        Candidate { name: "META-INF/MANIFEST.MF", kind: FormatKind::ManifestText },
    ]
}

/// Reads a version from an entry's content with the extractor of `kind`.
pub fn extract(kind: FormatKind, content: &str) -> (r: Result<String, VersionError>)
    ensures
        result_chars(r) == extracted(kind, content@),
{
    match kind {
        FormatKind::JsonModInfo => extract_json_version(content),
        FormatKind::TomlModInfo => extract_toml_version(content),
        FormatKind::ManifestText => extract_manifest_version(content),
    }
}

/// Keeps an extracted version where it is usable: non-empty, and not the
/// placeholder that a build left unfilled.
pub fn accept_version(e: Result<String, VersionError>) -> (r: Option<String>)
    ensures
        opt_chars(r) == accepted(result_chars(e)),
{
    match e {
        Ok(v) => {
            if v.as_str().is_empty() {
                None
            } else if str_eq(v.as_str(), JAR_VERSION_PLACEHOLDER) {
                None
            } else {
                Some(v)
            }
        },
        Err(_) => None,
    }
}

/// Finds the version that an archive declares: the first candidate entry,
/// in order, that is present and gives a usable version.
pub fn resolve(archive: &Archive) -> (r: Result<String, VersionError>)
    ensures
        match resolution(archive@) {
            Some(v) => r matches Ok(s) && s@ == v,
            None => r == Err::<String, VersionError>(VersionError::ResolutionExhausted),
        },
{
    let cands = candidates();
    let mut i: usize = 0;
    assert(candidate_list().skip(0) =~= candidate_list());
    while i < cands.len()
        invariant
            cands@.len() == candidate_list().len(),
            forall|j: int|
                0 <= j < cands@.len() ==> (#[trigger] cands@[j]).name@ == candidate_list()[j].0
                    && cands@[j].kind == candidate_list()[j].1,
            i <= cands@.len(),
            resolution(archive@) == resolve_over(archive@, candidate_list().skip(i as int)),
        decreases cands.len() - i,
    {
        let c = cands[i];
        let ghost rest = candidate_list().skip(i as int);
        assert(rest[0] == candidate_list()[i as int]);
        assert(rest.drop_first() =~= candidate_list().skip(i + 1));
        let found = match archive.entry(c.name) {
            Some(content) => accept_version(extract(c.kind, content.as_str())),
            None => None,
        };
        if let Some(v) = found {
            return Ok(v);
        }
        i = i + 1;
    }
    assert(candidate_list().skip(i as int).len() == 0);
    Err(VersionError::ResolutionExhausted)
}

} // verus!
