//! Aggregation of lookup outcomes into the attribution list.
//!
//! One record is appended per dependency whose registry lookup succeeded,
//! in the order the dependencies were extracted from the manifest; a failed
//! lookup leaves no trace in the list.

use vstd::prelude::*;
use crate::ManifestKind;
use crate::manifest::{Dependency, DependencyView};
use crate::registry::{MetadataView, RegistryMetadata};

verus! {

/// One entry of the attribution list: a dependency together with the
/// metadata its registry reported.
#[derive(Debug, PartialEq, Eq)]
pub struct DependencyRecord {
    /// The package's name, from the manifest.
    pub name: String,
    /// The declared version, from the manifest.
    pub version: String,
    /// The registry's description, when one was reported.
    pub description: Option<String>,
    /// The registry's homepage URL, when one was reported.
    pub url: Option<String>,
    /// The registry's license text, when one was reported.
    pub license: Option<String>,
}

/// The mathematical content of a `DependencyRecord`.
pub struct RecordView {
    pub name: Seq<char>,
    pub version: Seq<char>,
    pub description: Option<Seq<char>>,
    pub url: Option<Seq<char>>,
    pub license: Option<Seq<char>>,
}

impl DeepView for DependencyRecord {
    type V = RecordView;

    open spec fn deep_view(&self) -> RecordView {
        RecordView {
            name: self.name@,
            version: self.version@,
            description: self.description.deep_view(),
            url: self.url.deep_view(),
            license: self.license.deep_view(),
        }
    }
}

/// The record a successful lookup produces for one dependency: name and
/// version from the manifest, the three metadata fields from the registry.
pub open spec fn spec_record_of(d: DependencyView, m: MetadataView) -> RecordView {
    RecordView {
        name: d.name,
        version: d.version,
        description: Some(m.description),
        url: Some(m.url),
        license: Some(m.license),
    }
}

/// The attribution list built from dependencies and their lookup outcomes,
/// pairwise in order: a succeeded lookup appends its record, a failed one
/// appends nothing.
pub open spec fn spec_build_list(
    deps: Seq<DependencyView>,
    metas: Seq<Option<MetadataView>>,
) -> Seq<RecordView>
    decreases deps.len(),
{
    if deps.len() == 0 || metas.len() == 0 {
        Seq::empty()
    } else {
        let rest = spec_build_list(deps.drop_last(), metas.drop_last());
        match metas.last() {
            Some(m) => rest.push(spec_record_of(deps.last(), m)),
            None => rest,
        }
    }
}

/// Collects one record per successful lookup, preserving the order in which
/// the dependencies were iterated.
pub fn build_attribution_list(
    deps: &Vec<Dependency>,
    metas: &Vec<Option<RegistryMetadata>>,
) -> (r: Vec<DependencyRecord>)
    requires
        deps@.len() == metas@.len(),
    ensures
        r.deep_view() == spec_build_list(deps.deep_view(), metas.deep_view()),
{
    let mut out: Vec<DependencyRecord> = Vec::new();
    let mut i: usize = 0;
    while i < deps.len()
        invariant
            deps@.len() == metas@.len(),
            i <= deps@.len(),
            out.deep_view() =~= spec_build_list(
                deps.deep_view().take(i as int),
                metas.deep_view().take(i as int),
            ),
        decreases deps@.len() - i,
    {
        match &metas[i] {
            Some(m) => {
                out.push(
                    DependencyRecord {
                        name: deps[i].name.clone(),
                        version: deps[i].version.clone(),
                        description: Some(m.description.clone()),
                        url: Some(m.url.clone()),
                        license: Some(m.license.clone()),
                    },
                );
            },
            None => {},
        }
        i += 1;
        proof {
            assert(deps.deep_view().take(i as int).drop_last() =~= deps.deep_view().take(
                i as int - 1,
            ));
            assert(metas.deep_view().take(i as int).drop_last() =~= metas.deep_view().take(
                i as int - 1,
            ));
            assert(out.deep_view() =~= spec_build_list(
                deps.deep_view().take(i as int),
                metas.deep_view().take(i as int),
            ));
        }
    }
    proof {
        assert(deps.deep_view().take(deps@.len() as int) =~= deps.deep_view());
        assert(metas.deep_view().take(metas@.len() as int) =~= metas.deep_view());
    }
    out
}

/// The lookup outcomes for a list of response bodies, under one registry's
/// policy.
pub open spec fn spec_lookup_all(kind: ManifestKind, bodies: Seq<Option<Seq<char>>>) -> Seq<
    Option<MetadataView>,
> {
    bodies.map(|i: int, b: Option<Seq<char>>| crate::registry::spec_lookup_metadata(kind, b))
}

/// Interprets every response body under the registry's policy, keeping the
/// order and the pairing with the dependencies that produced the requests.
pub fn interpret_bodies(kind: ManifestKind, bodies: &Vec<Option<String>>) -> (r: Vec<
    Option<RegistryMetadata>,
>)
    ensures
        r@.len() == bodies@.len(),
        r.deep_view() == spec_lookup_all(kind, bodies.deep_view()),
{
    let mut out: Vec<Option<RegistryMetadata>> = Vec::new();
    let mut i: usize = 0;
    while i < bodies.len()
        invariant
            i <= bodies@.len(),
            out@.len() == i as int,
            forall|j: int|
                0 <= j < i as int ==> #[trigger] out.deep_view()[j] == spec_lookup_all(
                    kind,
                    bodies.deep_view(),
                )[j],
        decreases bodies@.len() - i,
    {
        let ghost prev = out.deep_view();
        out.push(crate::registry::metadata_from_body(kind, &bodies[i]));
        i += 1;
        proof {
            let ii = i as int - 1;
            assert(out.deep_view()[ii] == crate::registry::spec_lookup_metadata(
                kind,
                bodies.deep_view()[ii],
            ));
            assert forall|j: int| 0 <= j < ii implies #[trigger] out.deep_view()[j]
                == spec_lookup_all(kind, bodies.deep_view())[j] by {
                assert(out.deep_view()[j] == prev[j]);
            }
        }
    }
    proof {
        assert(out.deep_view() =~= spec_lookup_all(kind, bodies.deep_view()));
    }
    out
}

/// Whether no two dependencies share a name.
pub open spec fn names_distinct(deps: Seq<DependencyView>) -> bool {
    forall|i: int, j: int| 0 <= i < j < deps.len() ==> deps[i].name != deps[j].name
}

/// Law: when every registry lookup succeeds, the attribution list has
/// exactly one record per dependency, in the order the dependencies were
/// iterated, each carrying the manifest's name and version and the
/// registry's metadata.
pub proof fn lemma_all_lookups_kept(deps: Seq<DependencyView>, metas: Seq<Option<MetadataView>>)
    requires
        deps.len() == metas.len(),
        forall|i: int| 0 <= i < metas.len() ==> metas[i] is Some,
    ensures
        spec_build_list(deps, metas).len() == deps.len(),
        forall|i: int|
            0 <= i < deps.len() ==> #[trigger] spec_build_list(deps, metas)[i] == spec_record_of(
                deps[i],
                metas[i]->0,
            ),
    decreases deps.len(),
{
    if deps.len() == 0 {
    } else {
        let dl = deps.drop_last();
        let ml = metas.drop_last();
        lemma_all_lookups_kept(dl, ml);
        let rest = spec_build_list(dl, ml);
        let full = spec_build_list(deps, metas);
        assert(full == rest.push(spec_record_of(deps.last(), metas.last()->0)));
        assert forall|i: int| 0 <= i < deps.len() implies #[trigger] full[i] == spec_record_of(
            deps[i],
            metas[i]->0,
        ) by {
            if i < deps.len() - 1 {
                assert(full[i] == rest[i]);
                assert(dl[i] == deps[i]);
                assert(ml[i] == metas[i]);
            }
        }
    }
}

/// Law: every record of the attribution list is the record of some
/// dependency whose lookup succeeded.
pub proof fn lemma_records_from_successful_lookups(
    deps: Seq<DependencyView>,
    metas: Seq<Option<MetadataView>>,
)
    requires
        deps.len() == metas.len(),
    ensures
        forall|i: int|
            0 <= i < spec_build_list(deps, metas).len() ==> exists|j: int|
                0 <= j < deps.len() && metas[j] is Some && #[trigger] spec_build_list(
                    deps,
                    metas,
                )[i] == spec_record_of(deps[j], metas[j]->0),
    decreases deps.len(),
{
    if deps.len() == 0 {
    } else {
        let dl = deps.drop_last();
        let ml = metas.drop_last();
        lemma_records_from_successful_lookups(dl, ml);
        let rest = spec_build_list(dl, ml);
        let full = spec_build_list(deps, metas);
        assert forall|i: int| 0 <= i < full.len() implies exists|j: int|
            0 <= j < deps.len() && metas[j] is Some && #[trigger] full[i] == spec_record_of(
                deps[j],
                metas[j]->0,
            ) by {
            if i < rest.len() {
                assert(full[i] == rest[i]);
                let j = choose|j: int|
                    0 <= j < dl.len() && ml[j] is Some && rest[i] == spec_record_of(
                        dl[j],
                        ml[j]->0,
                    );
                assert(dl[j] == deps[j]);
                assert(ml[j] == metas[j]);
                assert(0 <= j < deps.len() && metas[j] is Some && full[i] == spec_record_of(
                    deps[j],
                    metas[j]->0,
                ));
            } else {
                let j = deps.len() - 1;
                assert(metas.last() is Some);
                assert(full[i] == spec_record_of(deps[j], metas[j]->0));
            }
        }
    }
}

/// Law: a dependency whose lookup succeeded has its record in the
/// attribution list.
pub proof fn lemma_successful_lookup_in_list(
    deps: Seq<DependencyView>,
    metas: Seq<Option<MetadataView>>,
    j: int,
)
    requires
        deps.len() == metas.len(),
        0 <= j < deps.len(),
        metas[j] is Some,
    ensures
        spec_build_list(deps, metas).contains(spec_record_of(deps[j], metas[j]->0)),
    decreases deps.len(),
{
    let full = spec_build_list(deps, metas);
    let rest = spec_build_list(deps.drop_last(), metas.drop_last());
    if j == deps.len() - 1 {
        assert(full == rest.push(spec_record_of(deps.last(), metas.last()->0)));
        assert(full[full.len() - 1] == spec_record_of(deps[j], metas[j]->0));
    } else {
        lemma_successful_lookup_in_list(deps.drop_last(), metas.drop_last(), j);
        assert(deps.drop_last()[j] == deps[j]);
        assert(metas.drop_last()[j] == metas[j]);
        let r = spec_record_of(deps[j], metas[j]->0);
        let i = choose|i: int| 0 <= i < rest.len() && rest[i] == r;
        assert(full[i] == r);
    }
}

/// Law: a failed lookup is isolated. Its dependency's name is absent from
/// the attribution list (names being distinct), and every other dependency
/// whose lookup succeeded still has its record in the list.
pub proof fn lemma_failed_lookup_isolated(
    deps: Seq<DependencyView>,
    metas: Seq<Option<MetadataView>>,
    k: int,
)
    requires
        deps.len() == metas.len(),
        0 <= k < deps.len(),
        metas[k] is None,
        names_distinct(deps),
    ensures
        forall|i: int|
            0 <= i < spec_build_list(deps, metas).len() ==> (#[trigger] spec_build_list(
                deps,
                metas,
            )[i]).name != deps[k].name,
        forall|j: int|
            0 <= j < deps.len() && j != k && metas[j] is Some ==> spec_build_list(
                deps,
                metas,
            ).contains(spec_record_of(deps[j], #[trigger] metas[j]->0)),
{
    let full = spec_build_list(deps, metas);
    lemma_records_from_successful_lookups(deps, metas);
    assert forall|i: int| 0 <= i < full.len() implies (#[trigger] full[i]).name != deps[k].name by {
        let j = choose|j: int|
            0 <= j < deps.len() && metas[j] is Some && full[i] == spec_record_of(
                deps[j],
                metas[j]->0,
            );
        assert(j != k);
        assert(full[i].name == deps[j].name);
    }
    assert forall|j: int| 0 <= j < deps.len() && j != k && metas[j] is Some implies full.contains(
        spec_record_of(deps[j], #[trigger] metas[j]->0),
    ) by {
        lemma_successful_lookup_in_list(deps, metas, j);
    }
}

/// Builds the full attribution list from the manifest's dependencies and
/// the response bodies their lookups produced, one body per dependency in
/// the same order.
pub fn attribution_records(
    kind: ManifestKind,
    deps: &Vec<Dependency>,
    bodies: &Vec<Option<String>>,
) -> (r: Vec<DependencyRecord>)
    requires
        deps@.len() == bodies@.len(),
    ensures
        r.deep_view() == spec_build_list(
            deps.deep_view(),
            spec_lookup_all(kind, bodies.deep_view()),
        ),
{
    let metas = interpret_bodies(kind, bodies);
    build_attribution_list(deps, &metas)
}

} // verus!
