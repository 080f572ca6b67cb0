//! The configuration an index is held against, and when an index has to be
//! built again.
//!
//! The HNSW parameters of a collection hold for each of its vectors, unless
//! the vector sets parameters of its own: those are merged over the
//! parameters of the collection, field by field. An index mismatches where it
//! was built with parameters that differ from these in a field that shapes
//! the graph.

use vstd::prelude::*;
use crate::config::{CollectionParams, CollectionParamsView};
use crate::names::{named, Named};
use crate::operations::CollectionError;
use crate::segment::SegmentConfig;
use crate::segment_optimizer::OptimizerThresholds;
use crate::types::{HnswConfig, Indexes, VectorDataConfig};

verus! {

/// The HNSW parameters an index is held against, given those of the
/// collection and what came of merging a vector's own parameters over them.
/// Where the vector sets none, or the merge failed, the parameters of the
/// collection stand as they are.
pub open spec fn chosen_hnsw(
    collection_hnsw: HnswConfig,
    merged: Option<Result<HnswConfig, CollectionError>>,
) -> HnswConfig {
    match merged {
        Some(Ok(vector_hnsw)) => vector_hnsw,
        Some(Err(_)) => collection_hnsw,
        None => collection_hnsw,
    }
}

/// What comes of merging the HNSW parameters that the vector `name` sets for
/// itself over those of the collection; nothing where it sets none.
pub open spec fn merged_hnsw(
    params: CollectionParamsView,
    collection_hnsw: HnswConfig,
    name: Seq<char>,
) -> Option<Result<HnswConfig, CollectionError>> {
    match params.vectors.get_params(name) {
        Some(vector_params) => match vector_params.hnsw_config {
            Some(diff) => Some(Ok(diff.merged(collection_hnsw))),
            None => None,
        },
        None => None,
    }
}

/// The HNSW parameters an index over the vector `name` is held against.
pub open spec fn target_hnsw(
    params: CollectionParamsView,
    collection_hnsw: HnswConfig,
    name: Seq<char>,
) -> HnswConfig {
    chosen_hnsw(collection_hnsw, merged_hnsw(params, collection_hnsw, name))
}

/// The index of the vector is an HNSW graph that has to be built again to
/// follow the configuration. A vector without an index never mismatches.
pub open spec fn vector_mismatch(
    params: CollectionParamsView,
    collection_hnsw: HnswConfig,
    vector: (Seq<char>, VectorDataConfig),
) -> bool {
    match vector.1.index {
        Indexes::Plain => false,
        Indexes::Hnsw(effective_hnsw) => effective_hnsw.spec_mismatch_requires_rebuild(
            &target_hnsw(params, collection_hnsw, vector.0),
        ),
    }
}

/// Some vector of the segment mismatches.
pub open spec fn has_mismatch(
    params: CollectionParamsView,
    collection_hnsw: HnswConfig,
    vector_data: Named<VectorDataConfig>,
) -> bool {
    exists|i: int|
        0 <= i < vector_data.len() && vector_mismatch(
            params,
            collection_hnsw,
            #[trigger] vector_data[i],
        )
}

/// The index a rebuild gives the vector `name` of a segment with `points`
/// readable points: an HNSW graph with the parameters the vector is held
/// against, or none where the segment has too few points to be indexed.
pub open spec fn planned_index(
    params: CollectionParamsView,
    collection_hnsw: HnswConfig,
    thresholds: OptimizerThresholds,
    name: Seq<char>,
    points: nat,
) -> Indexes {
    if points > thresholds.indexing_threshold {
        Indexes::Hnsw(target_hnsw(params, collection_hnsw, name))
    } else {
        Indexes::Plain
    }
}

/// What a rebuild of a segment with the vectors `source` and `points`
/// readable points is to hold for each vector: the size and the metric as
/// before, and the planned index.
pub open spec fn planned_vector_data(
    params: CollectionParamsView,
    collection_hnsw: HnswConfig,
    thresholds: OptimizerThresholds,
    source: Named<VectorDataConfig>,
    points: nat,
) -> Named<VectorDataConfig> {
    source.map_values(
        |vector: (Seq<char>, VectorDataConfig)|
            (
                vector.0,
                VectorDataConfig {
                    size: vector.1.size,
                    distance: vector.1.distance,
                    index: planned_index(params, collection_hnsw, thresholds, vector.0, points),
                },
            ),
    )
}

/// A segment that holds what was planned for it has no index that would have
/// to be built again.
pub proof fn lemma_planned_has_no_mismatch(
    params: CollectionParamsView,
    collection_hnsw: HnswConfig,
    thresholds: OptimizerThresholds,
    source: Named<VectorDataConfig>,
    points: nat,
)
    ensures
        !has_mismatch(
            params,
            collection_hnsw,
            planned_vector_data(params, collection_hnsw, thresholds, source, points),
        ),
{
}

/// Chooses the HNSW parameters an index is held against.
pub fn choose_hnsw(
    collection_hnsw: &HnswConfig,
    merged: Option<Result<HnswConfig, CollectionError>>,
) -> (target: HnswConfig)
    ensures
        target == chosen_hnsw(*collection_hnsw, merged),
{
    match merged {
        Some(Ok(vector_hnsw)) => vector_hnsw,
        Some(Err(_)) => *collection_hnsw,
        None => *collection_hnsw,
    }
}

/// The HNSW parameters an index over the vector `vector_name` is held against.
pub fn target_hnsw_config(
    params: &CollectionParams,
    collection_hnsw: &HnswConfig,
    vector_name: &str,
) -> (target: HnswConfig)
    ensures
        target == target_hnsw(params@, *collection_hnsw, vector_name@),
{
    let merged = match params.vectors.get_params(vector_name) {
        Some(vector_params) => match vector_params.hnsw_config {
            Some(diff) => Some(diff.update(collection_hnsw)),
            None => None,
        },
        None => None,
    };
    choose_hnsw(collection_hnsw, merged)
}

/// Whether some index of a segment with the configuration `config` has to be
/// built again.
pub fn config_has_mismatch(
    params: &CollectionParams,
    collection_hnsw: &HnswConfig,
    config: &SegmentConfig,
) -> (mismatch: bool)
    ensures
        mismatch == has_mismatch(params@, *collection_hnsw, config@),
{
    let vectors = &config.vector_data;
    let mut i: usize = 0;
    while i < vectors.len()
        invariant
            i <= vectors.len(),
            config@ == named(vectors@),
            forall|k: int|
                0 <= k < i ==> !vector_mismatch(
                    params@,
                    *collection_hnsw,
                    #[trigger] named(vectors@)[k],
                ),
        decreases vectors.len() - i,
    {
        match vectors[i].1.index {
            Indexes::Plain => {},
            Indexes::Hnsw(effective_hnsw) => {
                let target = target_hnsw_config(params, collection_hnsw, vectors[i].0.as_str());
                if effective_hnsw.mismatch_requires_rebuild(&target) {
                    assert(vector_mismatch(params@, *collection_hnsw, named(vectors@)[i as int]));
                    return true;
                }
            },
        }
        i += 1;
    }
    false
}

} // verus!
