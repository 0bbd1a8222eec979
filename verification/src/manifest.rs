//! Extraction of declared dependencies from a manifest's text.
//!
//! The raw text is handed to the ecosystem's own parser (serde_json for the
//! JSON manifest, toml for the TOML manifest); what comes back is reduced to
//! a plain list of entries, one per key of the top-level `dependencies`
//! mapping, each carrying the value's text when the value is a plain string.
//! The rules that turn those entries into `Dependency` values are verified
//! here: a JSON entry always yields a dependency, falling back to an empty
//! version when its value is not a string, while a TOML entry whose value is
//! not a plain string is skipped.

use vstd::prelude::*;
use crate::ManifestKind;

verus! {

/// One name/version pair declared by a manifest.
#[derive(Debug, PartialEq, Eq)]
pub struct Dependency {
    /// The package's name, as it appears as a key of the manifest's
    /// `dependencies` mapping.
    pub name: String,
    /// The declared version text, exactly as written (never validated).
    pub version: String,
}

/// The mathematical content of a `Dependency`.
pub struct DependencyView {
    pub name: Seq<char>,
    pub version: Seq<char>,
}

impl DeepView for Dependency {
    type V = DependencyView;

    open spec fn deep_view(&self) -> DependencyView {
        DependencyView { name: self.name@, version: self.version@ }
    }
}

/// The text of an optional value, with absence read as empty text.
pub open spec fn opt_text_or_empty(v: Option<Seq<char>>) -> Seq<char> {
    match v {
        Some(s) => s,
        None => Seq::empty(),
    }
}

/// What the JSON parser yields for a manifest text: `None` when the text is
/// not well-formed JSON; otherwise the entries of the top-level
/// `dependencies` object (empty when that field is absent or not an object),
/// each a key paired with its value's text when the value is a string.
pub uninterp spec fn json_manifest_entries(text: Seq<char>) -> Option<
    Seq<(Seq<char>, Option<Seq<char>>)>,
>;

/// What the TOML parser yields for a manifest text, in the same shape as
/// `json_manifest_entries`: `None` when the text is not well-formed TOML;
/// otherwise the entries of the top-level `dependencies` table.
pub uninterp spec fn toml_manifest_entries(text: Seq<char>) -> Option<
    Seq<(Seq<char>, Option<Seq<char>>)>,
>;

/// Relies on serde_json::from_str and serde_json::Value::{get, as_object,
/// as_str}: whether the text parses, and which entries its `dependencies`
/// object holds, depend on the text alone; the entries come in the order of
/// serde_json's map iteration.
#[verifier::external_body]
fn json_entries_exec(text: &str) -> (r: Result<Vec<(String, Option<String>)>, String>)
    ensures
        r is Ok <==> json_manifest_entries(text@) is Some,
        r matches Ok(v) ==> Some(v.deep_view()) == json_manifest_entries(text@),
{
    let doc: serde_json::Value = match serde_json::from_str(text) {
        Ok(d) => d,
        Err(e) => return Err(e.to_string()),
    };
    let mut out: Vec<(String, Option<String>)> = Vec::new();
    if let Some(deps) = doc.get("dependencies").and_then(|d| d.as_object()) {
        for (k, v) in deps {
            out.push((k.clone(), v.as_str().map(|s| s.to_string())));
        }
    }
    Ok(out)
}

/// Relies on str::parse::<toml::Table>, toml::map::Map::get and
/// toml::Value::{as_table, as_str}: whether the text parses, and which
/// entries its `dependencies` table holds, depend on the text alone; the
/// entries come in the order of the toml crate's table iteration.
#[verifier::external_body]
fn toml_entries_exec(text: &str) -> (r: Result<Vec<(String, Option<String>)>, String>)
    ensures
        r is Ok <==> toml_manifest_entries(text@) is Some,
        r matches Ok(v) ==> Some(v.deep_view()) == toml_manifest_entries(text@),
{
    let doc: toml::Table = match text.parse::<toml::Table>() {
        Ok(d) => d,
        Err(e) => return Err(e.to_string()),
    };
    let mut out: Vec<(String, Option<String>)> = Vec::new();
    if let Some(deps) = doc.get("dependencies").and_then(|d| d.as_table()) {
        for (k, v) in deps {
            out.push((k.clone(), v.as_str().map(|s| s.to_string())));
        }
    }
    Ok(out)
}

/// The dependencies a JSON manifest's entries declare: one per entry, in
/// order, with a non-string value read as an empty version.
pub open spec fn spec_json_deps(entries: Seq<(Seq<char>, Option<Seq<char>>)>) -> Seq<
    DependencyView,
> {
    entries.map(
        |i: int, e: (Seq<char>, Option<Seq<char>>)|
            DependencyView { name: e.0, version: opt_text_or_empty(e.1) },
    )
}

/// The dependencies a TOML manifest's entries declare: only the entries
/// whose value is a plain string, in order.
pub open spec fn spec_toml_deps(entries: Seq<(Seq<char>, Option<Seq<char>>)>) -> Seq<
    DependencyView,
>
    decreases entries.len(),
{
    if entries.len() == 0 {
        Seq::empty()
    } else {
        let rest = spec_toml_deps(entries.drop_last());
        match entries.last().1 {
            Some(v) => rest.push(DependencyView { name: entries.last().0, version: v }),
            None => rest,
        }
    }
}

/// Turns raw JSON manifest entries into dependencies: every entry is kept,
/// and a non-string value becomes an empty version.
pub fn json_deps_of_entries(entries: &Vec<(String, Option<String>)>) -> (r: Vec<Dependency>)
    ensures
        r.deep_view() == spec_json_deps(entries.deep_view()),
{
    let mut out: Vec<Dependency> = Vec::new();
    let mut i: usize = 0;
    while i < entries.len()
        invariant
            i <= entries@.len(),
            out@.len() == i as int,
            forall|j: int|
                0 <= j < i as int ==> #[trigger] out.deep_view()[j] == spec_json_deps(
                    entries.deep_view(),
                )[j],
        decreases entries@.len() - i,
    {
        let version = match &entries[i].1 {
            Some(v) => v.clone(),
            None => String::new(),
        };
        let ghost prev = out.deep_view();
        out.push(Dependency { name: entries[i].0.clone(), version });
        i += 1;
        proof {
            let ii = i as int - 1;
            let evs = entries.deep_view();
            assert(out.deep_view()[ii] == DependencyView {
                name: evs[ii].0,
                version: opt_text_or_empty(evs[ii].1),
            });
            assert forall|j: int| 0 <= j < ii implies #[trigger] out.deep_view()[j]
                == spec_json_deps(evs)[j] by {
                assert(out.deep_view()[j] == prev[j]);
            }
        }
    }
    proof {
        assert(out.deep_view() =~= spec_json_deps(entries.deep_view()));
    }
    out
}

/// Turns raw TOML manifest entries into dependencies: an entry whose value
/// is a plain string is kept, any other entry is skipped.
pub fn toml_deps_of_entries(entries: &Vec<(String, Option<String>)>) -> (r: Vec<Dependency>)
    ensures
        r.deep_view() == spec_toml_deps(entries.deep_view()),
{
    let mut out: Vec<Dependency> = Vec::new();
    let mut i: usize = 0;
    while i < entries.len()
        invariant
            i <= entries@.len(),
            out.deep_view() =~= spec_toml_deps(entries.deep_view().take(i as int)),
        decreases entries@.len() - i,
    {
        match &entries[i].1 {
            Some(v) => {
                out.push(Dependency { name: entries[i].0.clone(), version: v.clone() });
            },
            None => {},
        }
        i += 1;
        proof {
            assert(entries.deep_view().take(i as int).drop_last() =~= entries.deep_view().take(
                i as int - 1,
            ));
            assert(out.deep_view() =~= spec_toml_deps(entries.deep_view().take(i as int)));
        }
    }
    proof {
        assert(entries.deep_view().take(entries@.len() as int) =~= entries.deep_view());
    }
    out
}

/// Whether no two manifest entries share a name.
pub open spec fn entry_names_distinct(entries: Seq<(Seq<char>, Option<Seq<char>>)>) -> bool {
    forall|i: int, j: int| 0 <= i < j < entries.len() ==> entries[i].0 != entries[j].0
}

/// The dependency a plain-string entry yields.
pub open spec fn spec_toml_dep_of(e: (Seq<char>, Option<Seq<char>>)) -> DependencyView {
    DependencyView { name: e.0, version: e.1->0 }
}

/// Whether a dependency is the yield of some plain-string entry of the
/// list.
pub open spec fn toml_dep_sourced(
    entries: Seq<(Seq<char>, Option<Seq<char>>)>,
    d: DependencyView,
) -> bool {
    exists|j: int|
        0 <= j < entries.len() && (#[trigger] entries[j]).1 is Some && d == spec_toml_dep_of(
            entries[j],
        )
}

/// Law: every dependency a TOML manifest yields comes from an entry whose
/// value was a plain string, and carries that entry's name and value.
pub proof fn lemma_toml_deps_sound(entries: Seq<(Seq<char>, Option<Seq<char>>)>)
    ensures
        forall|i: int|
            0 <= i < spec_toml_deps(entries).len() ==> toml_dep_sourced(
                entries,
                #[trigger] spec_toml_deps(entries)[i],
            ),
    decreases entries.len(),
{
    if entries.len() == 0 {
    } else {
        let el = entries.drop_last();
        lemma_toml_deps_sound(el);
        let rest = spec_toml_deps(el);
        let full = spec_toml_deps(entries);
        assert forall|i: int| 0 <= i < full.len() implies toml_dep_sourced(entries, full[i]) by {
            if i < rest.len() {
                assert(full[i] == rest[i]);
                assert(toml_dep_sourced(el, rest[i]));
                let j = choose|j: int|
                    0 <= j < el.len() && (#[trigger] el[j]).1 is Some && rest[i]
                        == spec_toml_dep_of(el[j]);
                assert(el[j] == entries[j]);
                assert(entries[j].1 is Some && full[i] == spec_toml_dep_of(entries[j]));
            } else {
                let j = entries.len() - 1;
                assert(entries.last().1 is Some);
                assert(entries[j].1 is Some && full[i] == spec_toml_dep_of(entries[j]));
            }
        }
    }
}

/// Law: an entry whose value is a plain string yields its dependency.
pub proof fn lemma_toml_string_entry_included(
    entries: Seq<(Seq<char>, Option<Seq<char>>)>,
    j: int,
)
    requires
        0 <= j < entries.len(),
        entries[j].1 is Some,
    ensures
        spec_toml_deps(entries).contains(spec_toml_dep_of(entries[j])),
    decreases entries.len(),
{
    let full = spec_toml_deps(entries);
    let rest = spec_toml_deps(entries.drop_last());
    let d = spec_toml_dep_of(entries[j]);
    if j == entries.len() - 1 {
        assert(full == rest.push(d));
        assert(full[full.len() - 1] == d);
    } else {
        lemma_toml_string_entry_included(entries.drop_last(), j);
        assert(entries.drop_last()[j] == entries[j]);
        let i = choose|i: int| 0 <= i < rest.len() && rest[i] == d;
        assert(full[i] == d);
    }
}

/// Law: an entry whose value is not a plain string is excluded. With
/// distinct entry names, no dependency of the result carries its name.
pub proof fn lemma_toml_non_string_entry_excluded(
    entries: Seq<(Seq<char>, Option<Seq<char>>)>,
    k: int,
)
    requires
        0 <= k < entries.len(),
        entries[k].1 is None,
        entry_names_distinct(entries),
    ensures
        forall|i: int|
            0 <= i < spec_toml_deps(entries).len() ==> (#[trigger] spec_toml_deps(
                entries,
            )[i]).name != entries[k].0,
{
    let full = spec_toml_deps(entries);
    lemma_toml_deps_sound(entries);
    assert forall|i: int| 0 <= i < full.len() implies (#[trigger] full[i]).name != entries[k].0 by {
        assert(toml_dep_sourced(entries, full[i]));
        let j = choose|j: int|
            0 <= j < entries.len() && (#[trigger] entries[j]).1 is Some && full[i]
                == spec_toml_dep_of(entries[j]);
        assert(j != k);
        assert(full[i].name == entries[j].0);
    }
}

/// The dependencies a manifest text declares under a given kind, or `None`
/// when the text does not parse.
pub open spec fn spec_manifest_deps(kind: ManifestKind, text: Seq<char>) -> Option<
    Seq<DependencyView>,
> {
    match kind {
        ManifestKind::Json => match json_manifest_entries(text) {
            Some(es) => Some(spec_json_deps(es)),
            None => None,
        },
        ManifestKind::Toml => match toml_manifest_entries(text) {
            Some(es) => Some(spec_toml_deps(es)),
            None => None,
        },
    }
}

/// Extracts the declared dependencies from a manifest's text. A text that
/// fails the ecosystem parser is a fatal error, reported with the parser's
/// message; a manifest without a `dependencies` mapping yields an empty
/// list.
pub fn dependencies_from_manifest(kind: ManifestKind, text: &str) -> (r: Result<
    Vec<Dependency>,
    String,
>)
    ensures
        r is Ok <==> spec_manifest_deps(kind, text@) is Some,
        r matches Ok(v) ==> Some(v.deep_view()) == spec_manifest_deps(kind, text@),
{
    match kind {
        ManifestKind::Json => {
            match json_entries_exec(text) {
                Ok(entries) => Ok(json_deps_of_entries(&entries)),
                Err(e) => Err(e),
            }
        },
        ManifestKind::Toml => {
            match toml_entries_exec(text) {
                Ok(entries) => Ok(toml_deps_of_entries(&entries)),
                Err(e) => Err(e),
            }
        },
    }
}

} // verus!
