//! Interpretation of the metadata a package registry returns for one name.
//!
//! The caller performs the HTTP GET itself and hands the response body over
//! as plain text; this module reduces the body, through the ecosystem's JSON
//! parser, to the three metadata fields and applies each registry's policy.
//! The two policies differ, faithfully to the registries' answers: the npm
//! registry's lookup succeeds only when all three fields are present as
//! strings, while the crates.io lookup succeeds whenever the body is
//! well-formed JSON, substituting empty text for whatever is missing.

use vstd::prelude::*;
use crate::ManifestKind;

verus! {

/// The metadata a registry reported for one package.
#[derive(Debug, PartialEq, Eq)]
pub struct RegistryMetadata {
    /// The package's description.
    pub description: String,
    /// The package's homepage URL.
    pub url: String,
    /// The package's license, as the registry rendered it.
    pub license: String,
}

/// The mathematical content of a `RegistryMetadata`.
pub struct MetadataView {
    pub description: Seq<char>,
    pub url: Seq<char>,
    pub license: Seq<char>,
}

impl DeepView for RegistryMetadata {
    type V = MetadataView;

    open spec fn deep_view(&self) -> MetadataView {
        MetadataView { description: self.description@, url: self.url@, license: self.license@ }
    }
}

/// What the JSON parser yields for an npm registry response body: `None`
/// when the body is not well-formed JSON; otherwise the top-level
/// `description`, `homepage` and `license` fields, each present only when it
/// is a string.
pub uninterp spec fn npm_body_fields(body: Seq<char>) -> Option<
    (Option<Seq<char>>, Option<Seq<char>>, Option<Seq<char>>),
>;

/// What the JSON parser yields for a crates.io registry response body:
/// `None` when the body is not well-formed JSON; otherwise the `description`
/// and `homepage` string fields of the nested `crate` object, and its
/// `license` value rendered as compact JSON text, each present only when the
/// field is there (and, for the first two, a string).
pub uninterp spec fn crates_body_fields(body: Seq<char>) -> Option<
    (Option<Seq<char>>, Option<Seq<char>>, Option<Seq<char>>),
>;

/// Relies on serde_json::from_str and serde_json::Value::{get, as_str}: the
/// parse outcome and the three top-level fields depend on the body alone.
#[verifier::external_body]
fn npm_body_fields_exec(body: &str) -> (r: Option<
    (Option<String>, Option<String>, Option<String>),
>)
    ensures
        r.deep_view() == npm_body_fields(body@),
{
    let json: serde_json::Value = serde_json::from_str(body).ok()?;
    Some((
        json.get("description").and_then(|v| v.as_str()).map(|s| s.to_string()),
        json.get("homepage").and_then(|v| v.as_str()).map(|s| s.to_string()),
        json.get("license").and_then(|v| v.as_str()).map(|s| s.to_string()),
    ))
}

/// Relies on serde_json::from_str, serde_json::Value::{get, as_object,
/// as_str} and serde_json::Value's Display (compact JSON rendering, used for
/// the license value): the parse outcome and the extracted fields depend on
/// the body alone.
#[verifier::external_body]
fn crates_body_fields_exec(body: &str) -> (r: Option<
    (Option<String>, Option<String>, Option<String>),
>)
    ensures
        r.deep_view() == crates_body_fields(body@),
{
    let json: serde_json::Value = serde_json::from_str(body).ok()?;
    let c = json.get("crate");
    Some((
        c.and_then(|v| v.get("description")).and_then(|v| v.as_str()).map(|s| s.to_string()),
        c.and_then(|v| v.get("homepage")).and_then(|v| v.as_str()).map(|s| s.to_string()),
        c.and_then(|v| v.as_object()).and_then(|m| m.get("license")).map(|v| v.to_string()),
    ))
}

/// The npm policy over extracted fields: the lookup succeeds only when the
/// body parsed and all three fields are present.
pub open spec fn spec_npm_metadata(
    fields: Option<(Option<Seq<char>>, Option<Seq<char>>, Option<Seq<char>>)>,
) -> Option<MetadataView> {
    match fields {
        Some((Some(d), Some(u), Some(l))) => Some(
            MetadataView { description: d, url: u, license: l },
        ),
        _ => None,
    }
}

/// The crates.io policy over extracted fields: the lookup succeeds whenever
/// the body parsed, with empty text for each absent field.
pub open spec fn spec_crates_metadata(
    fields: Option<(Option<Seq<char>>, Option<Seq<char>>, Option<Seq<char>>)>,
) -> Option<MetadataView> {
    match fields {
        Some((d, u, l)) => Some(
            MetadataView {
                description: crate::manifest::opt_text_or_empty(d),
                url: crate::manifest::opt_text_or_empty(u),
                license: crate::manifest::opt_text_or_empty(l),
            },
        ),
        None => None,
    }
}

/// Applies the npm policy to extracted fields: all three present, or the
/// whole lookup fails.
pub fn npm_metadata_of_fields(fields: Option<(Option<String>, Option<String>, Option<String>)>) -> (r:
    Option<RegistryMetadata>)
    ensures
        r.deep_view() == spec_npm_metadata(fields.deep_view()),
{
    match fields {
        Some((Some(d), Some(u), Some(l))) => Some(
            RegistryMetadata { description: d, url: u, license: l },
        ),
        _ => None,
    }
}

/// Applies the crates.io policy to extracted fields: absent fields become
/// empty text.
pub fn crates_metadata_of_fields(
    fields: Option<(Option<String>, Option<String>, Option<String>)>,
) -> (r: Option<RegistryMetadata>)
    ensures
        r.deep_view() == spec_crates_metadata(fields.deep_view()),
{
    match fields {
        Some((d, u, l)) => Some(
            RegistryMetadata {
                description: or_empty(d),
                url: or_empty(u),
                license: or_empty(l),
            },
        ),
        None => None,
    }
}

/// An optional text, or empty text when absent.
fn or_empty(v: Option<String>) -> (r: String)
    ensures
        r@ == crate::manifest::opt_text_or_empty(v.deep_view()),
{
    match v {
        Some(s) => s,
        None => String::new(),
    }
}

/// The outcome of one registry lookup, given the response body the transport
/// produced (`None` when the request itself failed): the registry's policy
/// applied to the parsed body.
pub open spec fn spec_lookup_metadata(kind: ManifestKind, body: Option<Seq<char>>) -> Option<
    MetadataView,
> {
    match body {
        None => None,
        Some(b) => match kind {
            ManifestKind::Json => spec_npm_metadata(npm_body_fields(b)),
            ManifestKind::Toml => spec_crates_metadata(crates_body_fields(b)),
        },
    }
}

/// Interprets one registry response body under the registry's policy. A
/// `None` body stands for a failed request and yields a failed lookup.
pub fn metadata_from_body(kind: ManifestKind, body: &Option<String>) -> (r: Option<
    RegistryMetadata,
>)
    ensures
        r.deep_view() == spec_lookup_metadata(kind, body.deep_view()),
{
    match body {
        None => None,
        Some(b) => match kind {
            ManifestKind::Json => npm_metadata_of_fields(npm_body_fields_exec(b.as_str())),
            ManifestKind::Toml => crates_metadata_of_fields(crates_body_fields_exec(b.as_str())),
        },
    }
}

} // verus!
