use jar_version::{
    accept_version, candidates, extract, extract_json_version, extract_manifest_version,
    extract_toml_version, resolve, Archive, FormatKind, VersionError,
};

fn archive_of(entries: &[(&str, &str)]) -> Archive {
    let mut a = Archive::new();
    for (name, content) in entries {
        a.add_entry(name.to_string(), content.to_string());
    }
    a
}

#[test]
fn fabric_json_version_is_returned() {
    let a = archive_of(&[("fabric.mod.json", r#"{"version":"1.0.0"}"#)]);
    assert_eq!(resolve(&a), Ok("1.0.0".to_string()));
}

#[test]
fn toml_placeholder_resolved_from_manifest() {
    let a = archive_of(&[
        ("META-INF/mods.toml", r#"mods = [{version = "${file.jarVersion}"}]"#),
        ("META-INF/MANIFEST.MF", "Implementation-Version: 2.5.0\n"),
    ]);
    assert_eq!(resolve(&a), Ok("2.5.0".to_string()));
}

#[test]
fn empty_archive_is_exhausted() {
    let a = archive_of(&[]);
    assert_eq!(resolve(&a), Err(VersionError::ResolutionExhausted));
}

#[test]
fn toml_placeholder_with_manifest_line() {
    let a = archive_of(&[
        (
            "META-INF/mods.toml",
            "modLoader = \"javafml\"\n[[mods]]\nmodId = \"x\"\nversion = \"${file.jarVersion}\"\n",
        ),
        (
            "META-INF/MANIFEST.MF",
            "Manifest-Version: 1.0\r\nImplementation-Version: 3.2.1\r\nBuilt-By: someone\r\n",
        ),
    ]);
    assert_eq!(resolve(&a), Ok("3.2.1".to_string()));
}

#[test]
fn fabric_wins_over_every_other_entry() {
    let a = archive_of(&[
        ("quilt.mod.json", r#"{"version":"9.9.9"}"#),
        ("META-INF/mods.toml", "[[mods]]\nversion = \"8.8.8\"\n"),
        ("META-INF/MANIFEST.MF", "Implementation-Version: 7.7.7\n"),
        ("fabric.mod.json", r#"{"id":"m","version":"1.2.3"}"#),
    ]);
    assert_eq!(resolve(&a), Ok("1.2.3".to_string()));
}

#[test]
fn quilt_json_used_without_fabric() {
    let a = archive_of(&[
        ("quilt.mod.json", r#"{"version":"0.4.0"}"#),
        ("META-INF/MANIFEST.MF", "Implementation-Version: 7.7.7\n"),
    ]);
    assert_eq!(resolve(&a), Ok("0.4.0".to_string()));
}

#[test]
fn toml_version_used_without_json() {
    let a = archive_of(&[
        ("META-INF/mods.toml", "[[mods]]\nversion = \"4.5.6\"\n[[mods]]\nversion = \"0.0.1\"\n"),
        ("META-INF/MANIFEST.MF", "Implementation-Version: 7.7.7\n"),
    ]);
    assert_eq!(resolve(&a), Ok("4.5.6".to_string()));
}

#[test]
fn unrelated_entries_are_exhausted() {
    let a = archive_of(&[("README.md", "version 1"), ("pack.mcmeta", "{}")]);
    assert_eq!(resolve(&a), Err(VersionError::ResolutionExhausted));
}

#[test]
fn malformed_fabric_falls_through_to_quilt() {
    let a = archive_of(&[
        ("fabric.mod.json", r#"{"version": "1.0.0""#),
        ("quilt.mod.json", r#"{"version":"2.0.0"}"#),
    ]);
    assert_eq!(resolve(&a), Ok("2.0.0".to_string()));
}

#[test]
fn malformed_fabric_falls_through_to_manifest() {
    let a = archive_of(&[
        ("fabric.mod.json", "not json"),
        ("quilt.mod.json", r#"{"id":"q"}"#),
        ("META-INF/mods.toml", "mods = ["),
        ("META-INF/MANIFEST.MF", "Implementation-Version: 5.0\n"),
    ]);
    assert_eq!(resolve(&a), Ok("5.0".to_string()));
}

#[test]
fn malformed_everything_is_exhausted() {
    let a = archive_of(&[
        ("fabric.mod.json", "not json"),
        ("quilt.mod.json", "[1, 2"),
        ("META-INF/mods.toml", "mods = ["),
        ("META-INF/MANIFEST.MF", "Manifest-Version: 1.0\n"),
    ]);
    assert_eq!(resolve(&a), Err(VersionError::ResolutionExhausted));
}

#[test]
fn placeholder_without_manifest_is_exhausted() {
    let a = archive_of(&[("META-INF/mods.toml", "[[mods]]\nversion = \"${file.jarVersion}\"\n")]);
    assert_eq!(resolve(&a), Err(VersionError::ResolutionExhausted));
}

#[test]
fn resolving_twice_gives_the_same_result() {
    let a = archive_of(&[
        ("META-INF/mods.toml", "[[mods]]\nversion = \"${file.jarVersion}\"\n"),
        ("META-INF/MANIFEST.MF", "Implementation-Version: 1.1\n"),
    ]);
    let first = resolve(&a);
    let second = resolve(&a);
    assert_eq!(first, second);
    assert_eq!(first, Ok("1.1".to_string()));
}

#[test]
fn later_entry_replaces_earlier() {
    let a = archive_of(&[
        ("fabric.mod.json", r#"{"version":"1.0.0"}"#),
        ("fabric.mod.json", r#"{"version":"1.0.1"}"#),
    ]);
    assert_eq!(resolve(&a), Ok("1.0.1".to_string()));
}

#[test]
fn empty_json_version_is_not_accepted() {
    let a = archive_of(&[
        ("fabric.mod.json", r#"{"version":""}"#),
        ("quilt.mod.json", r#"{"version":"3.0"}"#),
    ]);
    assert_eq!(resolve(&a), Ok("3.0".to_string()));
}

#[test]
fn json_extractor_errors() {
    assert_eq!(extract_json_version("{"), Err(VersionError::MalformedDocument));
    assert_eq!(extract_json_version(r#"{"id":"x"}"#), Err(VersionError::MissingField));
    assert_eq!(extract_json_version(r#"{"version":3}"#), Err(VersionError::MissingField));
    assert_eq!(extract_json_version(r#"["version"]"#), Err(VersionError::MissingField));
    assert_eq!(extract_json_version(r#"{"version":" 1.0 "}"#), Ok(" 1.0 ".to_string()));
}

#[test]
fn toml_extractor_errors() {
    assert_eq!(extract_toml_version("mods = ["), Err(VersionError::MalformedDocument));
    assert_eq!(extract_toml_version("version = \"1\""), Err(VersionError::MissingField));
    assert_eq!(extract_toml_version("mods = []"), Err(VersionError::MissingField));
    assert_eq!(extract_toml_version("[[mods]]\nmodId = \"m\""), Err(VersionError::MissingField));
    assert_eq!(
        extract_toml_version("[[mods]]\nversion = \"${file.jarVersion}\""),
        Ok("${file.jarVersion}".to_string())
    );
}

#[test]
fn manifest_extractor() {
    assert_eq!(
        extract_manifest_version("Implementation-Version:   6.1-beta \t\r\nX: y\n"),
        Ok("6.1-beta".to_string())
    );
    assert_eq!(
        extract_manifest_version("A: b\nImplementation-Version: 1\nImplementation-Version: 2\n"),
        Ok("1".to_string())
    );
    assert_eq!(extract_manifest_version("Implementation-Version:"), Ok(String::new()));
    assert_eq!(
        extract_manifest_version("X-Implementation-Version: 1\n"),
        Err(VersionError::PatternNotFound)
    );
    assert_eq!(extract_manifest_version(""), Err(VersionError::PatternNotFound));
    assert_eq!(
        extract_manifest_version("Implementation-Title: t\n"),
        Err(VersionError::PatternNotFound)
    );
}

#[test]
fn extract_dispatches_on_kind() {
    assert_eq!(extract(FormatKind::JsonModInfo, r#"{"version":"a"}"#), Ok("a".to_string()));
    assert_eq!(extract(FormatKind::TomlModInfo, "mods = [{version = \"b\"}]"), Ok("b".to_string()));
    assert_eq!(extract(FormatKind::ManifestText, "Implementation-Version: c"), Ok("c".to_string()));
    assert_eq!(extract(FormatKind::ManifestText, r#"{"version":"a"}"#), Err(VersionError::PatternNotFound));
}

#[test]
fn accept_version_rules() {
    let ph = "${file.jarVersion}".to_string();
    assert_eq!(accept_version(Ok(ph.clone())), None);
    assert_eq!(accept_version(Ok(String::new())), None);
    assert_eq!(accept_version(Ok("2".to_string())), Some("2".to_string()));
    assert_eq!(accept_version(Ok("${file.jarVersion} ".to_string())), Some("${file.jarVersion} ".to_string()));
    assert_eq!(accept_version(Err(VersionError::MissingField)), None);
}

#[test]
fn placeholder_is_never_returned() {
    let a = archive_of(&[("META-INF/MANIFEST.MF", "Implementation-Version: ${file.jarVersion}\n")]);
    assert_eq!(resolve(&a), Err(VersionError::ResolutionExhausted));
    let b = archive_of(&[
        ("fabric.mod.json", r#"{"version":"${file.jarVersion}"}"#),
        ("META-INF/MANIFEST.MF", "Implementation-Version: 4.0\n"),
    ]);
    assert_eq!(resolve(&b), Ok("4.0".to_string()));
}

#[test]
fn manifest_value_trimmed_of_unicode_white_space() {
    assert_eq!(extract_manifest_version("Implementation-Version: 1\u{c}"), Ok("1".to_string()));
    assert_eq!(
        extract_manifest_version("Implementation-Version:\u{a0}\u{3000}2.0\u{2009}\u{85}\n"),
        Ok("2.0".to_string())
    );
    assert_eq!(extract_manifest_version("Implementation-Version: a b\u{b}"), Ok("a b".to_string()));
}

#[test]
fn deeply_nested_toml_is_malformed() {
    let deep = format!("mods = {}", "[".repeat(100_000));
    assert_eq!(extract_toml_version(&deep), Err(VersionError::MalformedDocument));
    let a = archive_of(&[
        ("META-INF/mods.toml", &deep),
        ("META-INF/MANIFEST.MF", "Implementation-Version: 1.5\n"),
    ]);
    assert_eq!(resolve(&a), Ok("1.5".to_string()));
}

#[test]
fn toml_nested_within_bound_is_parsed() {
    let nested = format!("x = {}1{}\n[[mods]]\nversion = \"9\"\n", "[".repeat(63), "]".repeat(63));
    assert_eq!(extract_toml_version(&nested), Ok("9".to_string()));
    let over = format!("x = {}1{}\n[[mods]]\nversion = \"9\"\n", "[".repeat(65), "]".repeat(65));
    assert_eq!(extract_toml_version(&over), Err(VersionError::MalformedDocument));
}

#[test]
fn many_flat_toml_statements_are_parsed() {
    let mut text = String::from("[[mods]]\nversion = \"2.1\"\n");
    for i in 0..300 {
        text.push_str(&format!("[[dependencies.m{}]]\nversionRange = \"[47,)\" # [x.y\nxs{} = [1, [2], {{a = 3}}]\n", i, i));
    }
    assert_eq!(extract_toml_version(&text), Ok("2.1".to_string()));
}

#[test]
fn brackets_and_dots_in_strings_do_not_count() {
    let inner = "[{.".repeat(200);
    let text = format!(
        "a = \"{0}\\\"{0}\"\nb = '{0}'\nc = \"\"\"\n{0}\"\"{0}\n\"\"\"\nd = '\'\'\n{0}\n\'\'\'\n# {0}\nmods = [{{version = \"3\"}}]\n",
        inner
    );
    assert_eq!(extract_toml_version(&text), Ok("3".to_string()));
}

#[test]
fn deep_dotted_keys_and_headers_are_malformed() {
    let key = vec!["a"; 100_000].join(".");
    let dotted = format!("{} = 1\n[[mods]]\nversion = \"1\"\n", key);
    assert_eq!(extract_toml_version(&dotted), Err(VersionError::MalformedDocument));
    let header = format!("[[mods]]\nversion = \"1\"\n[{}]\n", key);
    assert_eq!(extract_toml_version(&header), Err(VersionError::MalformedDocument));
    let inline = format!("mods = [{{version = \"1\"}}]\nx = {}", "{a = ".repeat(100_000));
    assert_eq!(extract_toml_version(&inline), Err(VersionError::MalformedDocument));
}

#[test]
fn dotted_key_within_bound_is_parsed() {
    let key = vec!["a"; 60].join(".");
    let text = format!("[{}]\n{} = 1\n[[mods]]\nversion = \"1\"\n", key, key);
    assert_eq!(extract_toml_version(&text), Ok("1".to_string()));
}

#[test]
fn candidate_order() {
    let names: Vec<&str> = candidates().iter().map(|c| c.name).collect();
    assert_eq!(
        names,
        vec!["fabric.mod.json", "quilt.mod.json", "META-INF/mods.toml", "META-INF/MANIFEST.MF"]
    );
    assert_eq!(candidates()[2].kind, FormatKind::TomlModInfo);
}

#[test]
fn archive_entry_lookup() {
    let a = archive_of(&[("a", "1"), ("b", "2"), ("a", "3")]);
    assert_eq!(a.entry("a"), Some(&"3".to_string()));
    assert_eq!(a.entry("b"), Some(&"2".to_string()));
    assert_eq!(a.entry("c"), None);
}
