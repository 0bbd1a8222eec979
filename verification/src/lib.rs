//! Builds an attribution list for a project's declared dependencies.
//!
//! The library locates which manifest kind a project uses, extracts the
//! name/version pairs its manifest declares, interprets the metadata a
//! package registry returns for each name, and renders the collected
//! records as a pretty-printed JSON document.

use vstd::prelude::*;
use vstd::string::*;

pub mod manifest;
pub mod registry;
pub mod render;
pub mod report;

verus! {

use crate::manifest::Dependency;
use crate::report::DependencyRecord;

/// Which of the two supported manifest kinds a project uses.
#[derive(Clone, Copy, PartialEq, Eq, Structural, Debug)]
pub enum ManifestKind {
    /// A JSON manifest (`package.json`), served by the npm registry.
    Json,
    /// A TOML manifest (`Cargo.toml`), served by the crates.io registry.
    Toml,
}

/// Picks the manifest kind for a directory, given which manifest files are
/// present: the JSON manifest wins when both exist, and absence of both
/// means there is nothing to do.
pub fn select_manifest(json_present: bool, toml_present: bool) -> (r: Option<ManifestKind>)
    ensures
        json_present ==> r == Some(ManifestKind::Json),
        !json_present && toml_present ==> r == Some(ManifestKind::Toml),
        !json_present && !toml_present ==> r is None,
{
    if json_present {
        Some(ManifestKind::Json)
    } else if toml_present {
        Some(ManifestKind::Toml)
    } else {
        None
    }
}

/// The path of the manifest file of a given kind under a directory.
pub fn manifest_file_path(directory: &str, kind: ManifestKind) -> (r: String)
    ensures
        kind == ManifestKind::Json ==> r@ == directory@ + "/package.json"@,
        kind == ManifestKind::Toml ==> r@ == directory@ + "/Cargo.toml"@,
{
    let mut s = String::from_str(directory);
    match kind {
        ManifestKind::Json => s.append("/package.json"),
        ManifestKind::Toml => s.append("/Cargo.toml"),
    }
    s
}

/// The registry endpoint queried for one package name: the fixed base path
/// of the manifest kind's registry, with the name appended literally.
pub fn registry_url(kind: ManifestKind, name: &str) -> (r: String)
    ensures
        kind == ManifestKind::Json ==> r@ == "https://registry.npmjs.org/"@ + name@,
        kind == ManifestKind::Toml ==> r@ == "https://crates.io/api/v1/crates/"@ + name@,
{
    let mut s = match kind {
        ManifestKind::Json => String::from_str("https://registry.npmjs.org/"),
        ManifestKind::Toml => String::from_str("https://crates.io/api/v1/crates/"),
    };
    s.append(name);
    s
}

/// Builds the attribution records and their rendered JSON document in one
/// step, given the manifest's dependencies and one response body per
/// dependency in the same order: the document is exactly the rendering of
/// the returned records.
pub fn attribution_output(
    kind: ManifestKind,
    deps: &Vec<Dependency>,
    bodies: &Vec<Option<String>>,
) -> (r: (Vec<DependencyRecord>, String))
    requires
        deps@.len() == bodies@.len(),
    ensures
        r.0.deep_view() == report::spec_build_list(
            deps.deep_view(),
            report::spec_lookup_all(kind, bodies.deep_view()),
        ),
        r.1@ == render::spec_attribution_json(r.0.deep_view()),
{
    let records = report::attribution_records(kind, deps, bodies);
    let json = render::render_attribution_list(&records);
    (records, json)
}

} // verus!
