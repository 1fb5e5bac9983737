use vstd::prelude::*;
use crate::archive::Archive;
use crate::manifest::manifest_version;
use crate::metadata::{json_version, toml_version};
use crate::resolver::{
    candidate_list, resolution, resolve_over, FormatKind, JAR_VERSION_PLACEHOLDER,
};
use crate::text::VersionError;

verus! {

proof fn lemma_unfold_candidates(entries: Map<Seq<char>, Seq<char>>)
    ensures
        candidate_list()[0] == ("fabric.mod.json"@, FormatKind::JsonModInfo),
        candidate_list().drop_first()[0] == ("quilt.mod.json"@, FormatKind::JsonModInfo),
        candidate_list().drop_first().drop_first()[0] == (
            "META-INF/mods.toml"@,
            FormatKind::TomlModInfo,
        ),
        candidate_list().drop_first().drop_first().drop_first()[0] == (
            "META-INF/MANIFEST.MF"@,
            FormatKind::ManifestText,
        ),
        candidate_list().drop_first().drop_first().drop_first().drop_first().len() == 0,
        resolve_over(entries, candidate_list().drop_first().drop_first().drop_first().drop_first())
            == None::<Seq<char>>,
{
    let s = candidate_list();
    assert(s.drop_first()[0] == s[1]);
    assert(s.drop_first().drop_first()[0] == s[2]);
    assert(s.drop_first().drop_first().drop_first()[0] == s[3]);
}

/// A `fabric.mod.json` that declares a non-empty version other than the
/// placeholder decides the result, whatever the other entries hold.
pub proof fn fabric_version_wins(archive: Archive, v: Seq<char>)
    requires
        archive@.contains_key("fabric.mod.json"@),
        json_version(archive@["fabric.mod.json"@]) == Ok::<Seq<char>, VersionError>(v),
        v.len() > 0,
        v != JAR_VERSION_PLACEHOLDER@,
    ensures
        resolution(archive@) == Some(v),
{
    lemma_unfold_candidates(archive@);
    reveal_with_fuel(resolve_over, 5);
}

/// Without `fabric.mod.json` and `quilt.mod.json`, a `mods.toml` whose first
/// mod declares a non-empty version other than the placeholder decides the
/// result. `toml_version` gives a version only for a text within the nesting
/// bound that the parser can follow.
pub proof fn toml_version_wins_without_json(archive: Archive, v: Seq<char>)
    requires
        !archive@.contains_key("fabric.mod.json"@),
        !archive@.contains_key("quilt.mod.json"@),
        archive@.contains_key("META-INF/mods.toml"@),
        toml_version(archive@["META-INF/mods.toml"@]) == Ok::<Seq<char>, VersionError>(v),
        v.len() > 0,
        v != JAR_VERSION_PLACEHOLDER@,
    ensures
        resolution(archive@) == Some(v),
{
    lemma_unfold_candidates(archive@);
    reveal_with_fuel(resolve_over, 5);
}

/// Without `fabric.mod.json` and `quilt.mod.json`, a `mods.toml` that gives
/// the placeholder defers to the version line of the manifest, where that
/// line gives a non-empty version other than the placeholder.
pub proof fn toml_placeholder_defers_to_manifest(archive: Archive, v: Seq<char>)
    requires
        !archive@.contains_key("fabric.mod.json"@),
        !archive@.contains_key("quilt.mod.json"@),
        archive@.contains_key("META-INF/mods.toml"@),
        toml_version(archive@["META-INF/mods.toml"@]) == Ok::<Seq<char>, VersionError>(
            JAR_VERSION_PLACEHOLDER@,
        ),
        archive@.contains_key("META-INF/MANIFEST.MF"@),
        manifest_version(archive@["META-INF/MANIFEST.MF"@]) == Some(v),
        v.len() > 0,
        v != JAR_VERSION_PLACEHOLDER@,
    ensures
        resolution(archive@) == Some(v),
{
    lemma_unfold_candidates(archive@);
    reveal_with_fuel(resolve_over, 5);
}

/// An archive with none of the candidate entries declares no version.
pub proof fn no_candidate_no_version(archive: Archive)
    requires
        !archive@.contains_key("fabric.mod.json"@),
        !archive@.contains_key("quilt.mod.json"@),
        !archive@.contains_key("META-INF/mods.toml"@),
        !archive@.contains_key("META-INF/MANIFEST.MF"@),
    ensures
        resolution(archive@) == None::<Seq<char>>,
{
    lemma_unfold_candidates(archive@);
    reveal_with_fuel(resolve_over, 5);
}

/// A malformed `fabric.mod.json` is passed over: the result is what the
/// other candidates, tried in order, give.
pub proof fn malformed_fabric_falls_through(archive: Archive)
    requires
        archive@.contains_key("fabric.mod.json"@),
        json_version(archive@["fabric.mod.json"@]) == Err::<Seq<char>, VersionError>(
            VersionError::MalformedDocument,
        ),
    ensures
        resolution(archive@) == resolve_over(archive@, candidate_list().drop_first()),
        candidate_list().drop_first() == seq![
            ("quilt.mod.json"@, FormatKind::JsonModInfo),
            ("META-INF/mods.toml"@, FormatKind::TomlModInfo),
            ("META-INF/MANIFEST.MF"@, FormatKind::ManifestText),
        ],
{
    lemma_unfold_candidates(archive@);
    assert(candidate_list().drop_first() =~= seq![
        ("quilt.mod.json"@, FormatKind::JsonModInfo),
        ("META-INF/mods.toml"@, FormatKind::TomlModInfo),
        ("META-INF/MANIFEST.MF"@, FormatKind::ManifestText),
    ]);
}

/// Resolution depends on the archive's entries alone: resolving an archive
/// again, or another with the same entries, gives the same result.
pub proof fn resolution_is_repeatable(a: Archive, b: Archive)
    requires
        a@ == b@,
    ensures
        resolution(a@) == resolution(b@),
{
}

} // verus!
