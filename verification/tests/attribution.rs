use thankyoulist::manifest::{dependencies_from_manifest, Dependency};
use thankyoulist::registry::{metadata_from_body, RegistryMetadata};
use thankyoulist::report::{build_attribution_list, DependencyRecord};
use thankyoulist::render::render_attribution_list;
use thankyoulist::{attribution_output, manifest_file_path, registry_url, select_manifest, ManifestKind};

fn dep(name: &str, version: &str) -> Dependency {
    Dependency { name: name.to_string(), version: version.to_string() }
}

fn meta(description: &str, url: &str, license: &str) -> RegistryMetadata {
    RegistryMetadata {
        description: description.to_string(),
        url: url.to_string(),
        license: license.to_string(),
    }
}

#[test]
fn select_prefers_json_manifest() {
    assert_eq!(select_manifest(true, true), Some(ManifestKind::Json));
    assert_eq!(select_manifest(true, false), Some(ManifestKind::Json));
    assert_eq!(select_manifest(false, true), Some(ManifestKind::Toml));
    assert_eq!(select_manifest(false, false), None);
}

#[test]
fn manifest_paths_join_directory_and_file() {
    assert_eq!(manifest_file_path(".", ManifestKind::Json), "./package.json");
    assert_eq!(manifest_file_path("/tmp/proj", ManifestKind::Toml), "/tmp/proj/Cargo.toml");
}

#[test]
fn registry_urls_append_the_name() {
    assert_eq!(
        registry_url(ManifestKind::Json, "left-pad"),
        "https://registry.npmjs.org/left-pad"
    );
    assert_eq!(
        registry_url(ManifestKind::Toml, "serde"),
        "https://crates.io/api/v1/crates/serde"
    );
}

#[test]
fn json_manifest_single_dependency() {
    let text = r#"{"dependencies": {"left-pad": "1.0.0"}}"#;
    let deps = dependencies_from_manifest(ManifestKind::Json, text).unwrap();
    assert_eq!(deps, vec![dep("left-pad", "1.0.0")]);
}

#[test]
fn json_manifest_non_string_value_gets_empty_version() {
    let text = r#"{"dependencies": {"odd": {"version": "1"}, "plain": "2.0"}}"#;
    let deps = dependencies_from_manifest(ManifestKind::Json, text).unwrap();
    assert_eq!(deps, vec![dep("odd", ""), dep("plain", "2.0")]);
}

#[test]
fn json_manifest_without_dependencies_is_empty() {
    let deps = dependencies_from_manifest(ManifestKind::Json, r#"{"name": "x"}"#).unwrap();
    assert!(deps.is_empty());
    let deps = dependencies_from_manifest(ManifestKind::Json, r#"{"dependencies": 3}"#).unwrap();
    assert!(deps.is_empty());
}

#[test]
fn json_manifest_invalid_text_is_an_error() {
    assert!(dependencies_from_manifest(ManifestKind::Json, "{not json").is_err());
}

#[test]
fn toml_manifest_keeps_plain_string_entries_only() {
    let text = "[dependencies]\nalpha = \"1.0\"\nbeta = { version = \"2.0\" }\ngamma = \"3.1\"\n";
    let deps = dependencies_from_manifest(ManifestKind::Toml, text).unwrap();
    assert_eq!(deps, vec![dep("alpha", "1.0"), dep("gamma", "3.1")]);
}

#[test]
fn toml_manifest_without_dependencies_is_empty() {
    let deps = dependencies_from_manifest(ManifestKind::Toml, "[package]\nname = \"x\"\n").unwrap();
    assert!(deps.is_empty());
}

#[test]
fn toml_manifest_invalid_text_is_an_error() {
    assert!(dependencies_from_manifest(ManifestKind::Toml, "dependencies = [").is_err());
}

#[test]
fn npm_body_with_all_fields_succeeds() {
    let body = r#"{"description": "pad a string", "homepage": "https://example.com", "license": "MIT"}"#;
    let m = metadata_from_body(ManifestKind::Json, &Some(body.to_string()));
    assert_eq!(m, Some(meta("pad a string", "https://example.com", "MIT")));
}

#[test]
fn npm_body_missing_any_field_fails_the_lookup() {
    let no_license = r#"{"description": "d", "homepage": "h"}"#;
    assert_eq!(metadata_from_body(ManifestKind::Json, &Some(no_license.to_string())), None);
    let non_string = r#"{"description": "d", "homepage": "h", "license": {"type": "MIT"}}"#;
    assert_eq!(metadata_from_body(ManifestKind::Json, &Some(non_string.to_string())), None);
}

#[test]
fn npm_malformed_body_fails_the_lookup() {
    assert_eq!(metadata_from_body(ManifestKind::Json, &Some("not json".to_string())), None);
    assert_eq!(metadata_from_body(ManifestKind::Json, &None), None);
}

#[test]
fn crates_body_renders_license_as_json_text() {
    let body = r#"{"crate": {"description": "serialization", "homepage": "https://serde.rs", "license": "MIT OR Apache-2.0"}}"#;
    let m = metadata_from_body(ManifestKind::Toml, &Some(body.to_string()));
    assert_eq!(
        m,
        Some(meta("serialization", "https://serde.rs", "\"MIT OR Apache-2.0\""))
    );
}

#[test]
fn crates_body_missing_fields_default_to_empty() {
    let body = r#"{"crate": {}}"#;
    let m = metadata_from_body(ManifestKind::Toml, &Some(body.to_string()));
    assert_eq!(m, Some(meta("", "", "")));
    let no_crate = r#"{"other": 1}"#;
    let m = metadata_from_body(ManifestKind::Toml, &Some(no_crate.to_string()));
    assert_eq!(m, Some(meta("", "", "")));
}

#[test]
fn crates_malformed_body_fails_the_lookup() {
    assert_eq!(metadata_from_body(ManifestKind::Toml, &Some("{".to_string())), None);
}

#[test]
fn failed_lookup_is_omitted_and_order_is_kept() {
    let deps = vec![dep("a", "1"), dep("b", "2"), dep("c", "3")];
    let metas = vec![Some(meta("da", "ua", "la")), None, Some(meta("dc", "uc", "lc"))];
    let records = build_attribution_list(&deps, &metas);
    assert_eq!(records.len(), 2);
    assert_eq!(records[0].name, "a");
    assert_eq!(records[0].version, "1");
    assert_eq!(records[0].description.as_deref(), Some("da"));
    assert_eq!(records[1].name, "c");
    assert_eq!(records[1].license.as_deref(), Some("lc"));
    assert!(records.iter().all(|r| r.name != "b"));
}

#[test]
fn all_lookups_succeeding_keep_every_dependency() {
    let deps = vec![dep("a", "1"), dep("b", "2")];
    let metas = vec![Some(meta("da", "ua", "la")), Some(meta("db", "ub", "lb"))];
    let records = build_attribution_list(&deps, &metas);
    assert_eq!(records.len(), 2);
    for (r, d) in records.iter().zip(deps.iter()) {
        assert!(!r.name.is_empty());
        assert_eq!(r.name, d.name);
        assert_eq!(r.version, d.version);
    }
}

#[test]
fn render_empty_list() {
    assert_eq!(render_attribution_list(&Vec::new()), "[]");
}

#[test]
fn render_single_record_pretty_json() {
    let records = vec![DependencyRecord {
        name: "left-pad".to_string(),
        version: "1.0.0".to_string(),
        description: Some("pad a string".to_string()),
        url: Some("https://example.com".to_string()),
        license: Some("MIT".to_string()),
    }];
    let expected = "[\n  {\n    \"name\": \"left-pad\",\n    \"version\": \"1.0.0\",\n    \"description\": \"pad a string\",\n    \"url\": \"https://example.com\",\n    \"license\": \"MIT\"\n  }\n]";
    assert_eq!(render_attribution_list(&records), expected);
}

#[test]
fn render_unset_fields_as_null() {
    let records = vec![DependencyRecord {
        name: "bare".to_string(),
        version: "0.1".to_string(),
        description: None,
        url: None,
        license: None,
    }];
    let expected = "[\n  {\n    \"name\": \"bare\",\n    \"version\": \"0.1\",\n    \"description\": null,\n    \"url\": null,\n    \"license\": null\n  }\n]";
    assert_eq!(render_attribution_list(&records), expected);
}

#[test]
fn render_escapes_string_content() {
    let records = vec![DependencyRecord {
        name: "q\"b\\s".to_string(),
        version: "line\nbreak".to_string(),
        description: Some("tab\there".to_string()),
        url: Some("ctl\u{1}end".to_string()),
        license: Some("cr\rlf\u{c}ff\u{8}bs".to_string()),
    }];
    let expected = "[\n  {\n    \"name\": \"q\\\"b\\\\s\",\n    \"version\": \"line\\nbreak\",\n    \"description\": \"tab\\there\",\n    \"url\": \"ctl\\u0001end\",\n    \"license\": \"cr\\rlf\\fff\\bbs\"\n  }\n]";
    assert_eq!(render_attribution_list(&records), expected);
}

#[test]
fn render_two_records_joined_with_comma() {
    let records = vec![
        DependencyRecord {
            name: "a".to_string(),
            version: "1".to_string(),
            description: Some("d".to_string()),
            url: Some("u".to_string()),
            license: Some("l".to_string()),
        },
        DependencyRecord {
            name: "b".to_string(),
            version: "2".to_string(),
            description: Some("e".to_string()),
            url: Some("v".to_string()),
            license: Some("m".to_string()),
        },
    ];
    let out = render_attribution_list(&records);
    assert!(out.starts_with("[\n  {\n"));
    assert!(out.contains("\n  },\n  {\n"));
    assert!(out.ends_with("\n  }\n]"));
}

#[test]
fn end_to_end_json_manifest_and_npm_body() {
    let manifest = r#"{"dependencies": {"left-pad": "1.0.0"}}"#;
    let deps = dependencies_from_manifest(ManifestKind::Json, manifest).unwrap();
    let body = r#"{"description": "pad a string", "homepage": "https://example.com", "license": "MIT"}"#;
    let bodies = vec![Some(body.to_string())];
    let (records, json) = attribution_output(ManifestKind::Json, &deps, &bodies);
    assert_eq!(records.len(), 1);
    assert_eq!(records[0].name, "left-pad");
    assert_eq!(records[0].version, "1.0.0");
    assert_eq!(records[0].description.as_deref(), Some("pad a string"));
    assert_eq!(records[0].url.as_deref(), Some("https://example.com"));
    assert_eq!(records[0].license.as_deref(), Some("MIT"));
    let expected = "[\n  {\n    \"name\": \"left-pad\",\n    \"version\": \"1.0.0\",\n    \"description\": \"pad a string\",\n    \"url\": \"https://example.com\",\n    \"license\": \"MIT\"\n  }\n]";
    assert_eq!(json, expected);
}

#[test]
fn second_run_output_has_no_leftover_entries() {
    let body = r#"{"description": "d", "homepage": "u", "license": "l"}"#;
    let first_deps = vec![dep("one", "1"), dep("two", "2")];
    let first_bodies = vec![Some(body.to_string()), Some(body.to_string())];
    let (_, first_json) = attribution_output(ManifestKind::Json, &first_deps, &first_bodies);
    assert!(first_json.contains("\"one\""));
    assert!(first_json.contains("\"two\""));

    let second_deps = vec![dep("one", "1")];
    let second_bodies = vec![Some(body.to_string())];
    let (_, second_json) = attribution_output(ManifestKind::Json, &second_deps, &second_bodies);
    assert!(second_json.contains("\"one\""));
    assert!(!second_json.contains("two"));
}
