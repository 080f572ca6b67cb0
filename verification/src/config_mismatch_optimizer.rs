//! The optimizer that looks for segments whose indexes no longer follow the
//! configuration of the collection.
//!
//! When the HNSW parameters of a collection change, a segment that was
//! indexed before the change still carries a graph built with the old
//! parameters. This optimizer finds such segments and has the one that weighs
//! most rebuilt, one per round.

use vstd::prelude::*;
use std::collections::HashSet;
use crate::config::{CollectionParams, CollectionParamsView};
use crate::segment::{lemma_weight_order, max_vector_size, SegmentId, SegmentView};
use crate::rebuild::{follows_target, rebuilt};
use crate::segment_holder::{LockedSegmentView, SegmentHolder};
use crate::segment_optimizer::{OptimizerThresholds, SegmentOptimizer};
use crate::target::{config_has_mismatch, has_mismatch};
use crate::telemetry::{OperationDurationStatistics, OperationDurationsAggregator};
use crate::types::{HnswConfig, QuantizationConfig, SegmentType};

verus! {

broadcast use vstd::std_specs::hash::group_hash_axioms;

/// Looks for segments having a mismatch between configured and actual
/// parameters.
pub struct ConfigMismatchOptimizer {
    pub thresholds_config: OptimizerThresholds,
    pub segments_path: String,
    pub collection_temp_dir: String,
    pub collection_params: CollectionParams,
    pub hnsw_config: HnswConfig,
    pub quantization_config: Option<QuantizationConfig>,
    pub telemetry_durations_aggregator: OperationDurationsAggregator,
}

/// The segment known by `a` is to be rebuilt before the one known by `b`: it
/// weighs more, or as much and has the lower identifier.
pub open spec fn outranks(
    segments: Map<SegmentId, LockedSegmentView>,
    a: SegmentId,
    b: SegmentId,
) -> bool {
    let weight_a = segments[a].segment().selection_weight();
    let weight_b = segments[b].segment().selection_weight();
    weight_a > weight_b || (weight_a == weight_b && a <= b)
}

impl ConfigMismatchOptimizer {
    /// An optimizer for the collection with the given configuration, which
    /// has not run yet.
    pub fn new(
        thresholds_config: OptimizerThresholds,
        segments_path: String,
        collection_temp_dir: String,
        collection_params: CollectionParams,
        hnsw_config: HnswConfig,
        quantization_config: Option<QuantizationConfig>,
    ) -> (optimizer: ConfigMismatchOptimizer)
        ensures
            optimizer.thresholds_config == thresholds_config,
            optimizer.segments_path == segments_path,
            optimizer.collection_temp_dir == collection_temp_dir,
            optimizer.collection_params == collection_params,
            optimizer.hnsw_config == hnsw_config,
            optimizer.quantization_config == quantization_config,
            optimizer.telemetry_durations_aggregator == OperationDurationsAggregator::empty(),
    {
        ConfigMismatchOptimizer {
            thresholds_config,
            segments_path,
            collection_temp_dir,
            collection_params,
            hnsw_config,
            quantization_config,
            telemetry_durations_aggregator: OperationDurationsAggregator::new(),
        }
    }

    /// The segment known by `id` is registered, not excluded, not of the
    /// special kind, and one of its indexes has to be built again.
    pub open spec fn is_candidate(
        &self,
        segments: Map<SegmentId, LockedSegmentView>,
        excluded: Set<SegmentId>,
        id: SegmentId,
    ) -> bool {
        &&& segments.contains_key(id)
        &&& !excluded.contains(id)
        &&& segments[id].segment_type() != SegmentType::Special
        &&& has_mismatch(self.collection_params@, self.hnsw_config, segments[id].segment().vector_data)
    }

    /// The segment known by `id` is the candidate to rebuild first.
    pub open spec fn is_worst(
        &self,
        segments: Map<SegmentId, LockedSegmentView>,
        excluded: Set<SegmentId>,
        id: SegmentId,
    ) -> bool {
        &&& self.is_candidate(segments, excluded, id)
        &&& forall|other: SegmentId| #[trigger]
            self.is_candidate(segments, excluded, other) ==> outranks(segments, id, other)
    }

    /// Records that one more run took `duration_micros`.
    pub fn record_operation(&mut self, success: bool, duration_micros: u64)
        ensures
            final(self).telemetry_durations_aggregator == old(
                self,
            ).telemetry_durations_aggregator.after(success, duration_micros),
            final(self).thresholds_config == old(self).thresholds_config,
            final(self).segments_path == old(self).segments_path,
            final(self).collection_temp_dir == old(self).collection_temp_dir,
            final(self).collection_params == old(self).collection_params,
            final(self).hnsw_config == old(self).hnsw_config,
            final(self).quantization_config == old(self).quantization_config,
    {
        self.telemetry_durations_aggregator.add_operation_result(success, duration_micros);
    }

    /// The candidate to rebuild first, if there is one.
    fn worst_segment(&self, segments: &SegmentHolder, excluded_ids: &HashSet<SegmentId>) -> (worst:
        Vec<SegmentId>)
        ensures
            worst@.len() <= 1,
            worst@.len() == 0 <==> forall|id: SegmentId|
                !self.is_candidate(segments@, excluded_ids@, id),
            worst@.len() == 1 ==> self.is_worst(segments@, excluded_ids@, worst@[0]),
    {
        let ids = segments.ids();
        let mut best: Option<SegmentId> = None;
        let mut best_units: u128 = 0;
        let mut i: usize = 0;
        while i < ids.len()
            invariant
                i <= ids.len(),
                forall|id: SegmentId| ids@.contains(id) <==> segments@.contains_key(id),
                best is None ==> forall|k: int|
                    0 <= k < i ==> !self.is_candidate(segments@, excluded_ids@, #[trigger] ids@[k]),
                best matches Some(best_id) ==> {
                    &&& self.is_candidate(segments@, excluded_ids@, best_id)
                    &&& best_units == segments@[best_id].segment().weight_units()
                    &&& forall|k: int|
                        0 <= k < i && self.is_candidate(segments@, excluded_ids@, #[trigger] ids@[k])
                            ==> outranks(segments@, best_id, ids@[k])
                },
            decreases ids.len() - i,
        {
            let id = ids[i];
            assert(ids@.contains(id));
            if !excluded_ids.contains(&id) {
                if let Some(entry) = segments.get(id) {
                    if entry.segment_type() != SegmentType::Special && config_has_mismatch(
                        &self.collection_params,
                        &self.hnsw_config,
                        entry.config(),
                    ) {
                        let units = entry.get().weight_units();
                        let better = match best {
                            None => true,
                            Some(best_id) => units > best_units || (units == best_units && id
                                < best_id),
                        };
                        proof {
                            if let Some(best_id) = best {
                                lemma_weight_order(
                                    segments@[best_id].segment(),
                                    segments@[id].segment(),
                                );
                                if better {
                                    assert forall|k: int|
                                        0 <= k < i && self.is_candidate(
                                            segments@,
                                            excluded_ids@,
                                            #[trigger] ids@[k],
                                        ) implies outranks(segments@, id, ids@[k]) by {
                                        lemma_weight_order(
                                            segments@[ids@[k]].segment(),
                                            segments@[id].segment(),
                                        );
                                        lemma_weight_order(
                                            segments@[ids@[k]].segment(),
                                            segments@[best_id].segment(),
                                        );
                                    }
                                }
                            }
                        }
                        if better {
                            best = Some(id);
                            best_units = units;
                        }
                    }
                }
            }
            i += 1;
        }
        match best {
            None => {
                proof {
                    assert forall|id: SegmentId| !self.is_candidate(
                        segments@,
                        excluded_ids@,
                        id,
                    ) by {
                        if segments@.contains_key(id) {
                            assert(ids@.contains(id));
                            let k = choose|k: int| 0 <= k < ids@.len() && ids@[k] == id;
                            assert(!self.is_candidate(segments@, excluded_ids@, ids@[k]));
                        }
                    }
                }
                Vec::new()
            },
            Some(best_id) => {
                proof {
                    assert forall|other: SegmentId| #[trigger]
                        self.is_candidate(segments@, excluded_ids@, other) implies outranks(
                        segments@,
                        best_id,
                        other,
                    ) by {
                        assert(ids@.contains(other));
                        let k = choose|k: int| 0 <= k < ids@.len() && ids@[k] == other;
                        assert(self.is_candidate(segments@, excluded_ids@, ids@[k]));
                    }
                }
                let mut worst: Vec<SegmentId> = Vec::new();
                worst.push(best_id);
                worst
            },
        }
    }
}

impl SegmentOptimizer for ConfigMismatchOptimizer {
    open spec fn spec_collection_path(&self) -> Seq<char> {
        self.segments_path@
    }

    open spec fn spec_temp_path(&self) -> Seq<char> {
        self.collection_temp_dir@
    }

    open spec fn spec_collection_params(&self) -> CollectionParamsView {
        self.collection_params@
    }

    open spec fn spec_hnsw_config(&self) -> HnswConfig {
        self.hnsw_config
    }

    open spec fn spec_quantization_config(&self) -> Option<QuantizationConfig> {
        self.quantization_config
    }

    open spec fn spec_threshold_config(&self) -> OptimizerThresholds {
        self.thresholds_config
    }

    open spec fn spec_telemetry_counter(&self) -> OperationDurationsAggregator {
        self.telemetry_durations_aggregator
    }

    fn get_telemetry_data(&self) -> (statistics: OperationDurationStatistics) {
        self.telemetry_durations_aggregator.get_statistics()
    }

    fn get_telemetry_counter(&self) -> (counter: &OperationDurationsAggregator) {
        &self.telemetry_durations_aggregator
    }

    fn collection_path(&self) -> (path: &str) {
        self.segments_path.as_str()
    }

    fn temp_path(&self) -> (path: &str) {
        self.collection_temp_dir.as_str()
    }

    fn collection_params(&self) -> (params: CollectionParams) {
        self.collection_params.clone()
    }

    fn hnsw_config(&self) -> (config: &HnswConfig) {
        &self.hnsw_config
    }

    fn quantization_config(&self) -> (config: Option<QuantizationConfig>) {
        self.quantization_config
    }

    fn threshold_config(&self) -> (thresholds: &OptimizerThresholds) {
        &self.thresholds_config
    }

    /// At most one segment: among those that are registered, not excluded,
    /// not of the special kind and mismatched, the one that weighs most, and
    /// of several that weigh the same the one with the lowest identifier.
    fn check_condition(&self, segments: &SegmentHolder, excluded_ids: &HashSet<SegmentId>) -> (candidates:
        Vec<SegmentId>)
        ensures
            candidates@.len() <= 1,
            candidates@.len() == 0 <==> forall|id: SegmentId|
                !self.is_candidate(segments@, excluded_ids@, id),
            candidates@.len() == 1 ==> self.is_worst(segments@, excluded_ids@, candidates@[0]),
            forall|i: int|
                0 <= i < candidates@.len() ==> !segments@[#[trigger] candidates@[i]].segment().all_plain(),
            (forall|id: SegmentId| #[trigger]
                segments@.contains_key(id) ==> !has_mismatch(
                    self.collection_params@,
                    self.hnsw_config,
                    segments@[id].segment().vector_data,
                )) ==> candidates@.len() == 0,
    {
        self.worst_segment(segments, excluded_ids)
    }
}

impl ConfigMismatchOptimizer {
    /// A segment all of whose vectors are without an index is no candidate,
    /// whatever the configuration says.
    pub proof fn lemma_plain_is_never_selected(
        &self,
        segments: Map<SegmentId, LockedSegmentView>,
        excluded: Set<SegmentId>,
        id: SegmentId,
    )
        requires
            segments.contains_key(id),
            segments[id].segment().all_plain(),
        ensures
            !self.is_candidate(segments, excluded, id),
            !self.is_worst(segments, excluded, id),
    {
    }

    /// A segment of the special kind is no candidate, however far its indexes
    /// are from the configuration; and a segment under rebuild counts as
    /// special.
    pub proof fn lemma_special_is_never_selected(
        &self,
        segments: Map<SegmentId, LockedSegmentView>,
        excluded: Set<SegmentId>,
        id: SegmentId,
    )
        requires
            segments.contains_key(id),
            segments[id].segment().segment_type == SegmentType::Special || segments[id] is Proxy,
        ensures
            !self.is_candidate(segments, excluded, id),
            !self.is_worst(segments, excluded, id),
    {
    }

    /// Where no index of any registered segment has to be built again, there
    /// is no candidate.
    pub proof fn lemma_no_mismatch_no_candidate(
        &self,
        segments: Map<SegmentId, LockedSegmentView>,
        excluded: Set<SegmentId>,
    )
        requires
            forall|id: SegmentId| #[trigger]
                segments.contains_key(id) ==> !has_mismatch(
                    self.collection_params@,
                    self.hnsw_config,
                    segments[id].segment().vector_data,
                ),
        ensures
            forall|id: SegmentId| !self.is_candidate(segments, excluded, id),
    {
    }

    /// A candidate that is the only one is the one to rebuild first.
    pub proof fn lemma_only_candidate_is_worst(
        &self,
        segments: Map<SegmentId, LockedSegmentView>,
        excluded: Set<SegmentId>,
        id: SegmentId,
    )
        requires
            self.is_candidate(segments, excluded, id),
            forall|other: SegmentId| #[trigger]
                self.is_candidate(segments, excluded, other) ==> other == id,
        ensures
            self.is_worst(segments, excluded, id),
    {
    }

    /// There is no more than one candidate to rebuild first, and no other
    /// candidate has more readable points times the size of its largest
    /// vector than that one.
    pub proof fn lemma_worst_is_heaviest(
        &self,
        segments: Map<SegmentId, LockedSegmentView>,
        excluded: Set<SegmentId>,
        id: SegmentId,
        other: SegmentId,
    )
        requires
            self.is_worst(segments, excluded, id),
            self.is_candidate(segments, excluded, other),
        ensures
            segments[other].segment().available_point_count * max_vector_size(
                segments[other].segment().vector_data,
            ) <= segments[id].segment().available_point_count * max_vector_size(
                segments[id].segment().vector_data,
            ),
            self.is_worst(segments, excluded, other) ==> other == id,
    {
        lemma_weight_order(segments[other].segment(), segments[id].segment());
        assert(outranks(segments, id, other));
        if self.is_worst(segments, excluded, other) {
            assert(outranks(segments, other, id));
        }
    }

    /// The segments a rebuild put in the registry are no candidates: their
    /// indexes follow the configuration they were built for.
    pub proof fn lemma_rebuilt_is_no_candidate(
        &self,
        segments: Map<SegmentId, LockedSegmentView>,
        ids: Seq<SegmentId>,
        next_id: nat,
        built: Seq<SegmentView>,
        excluded: Set<SegmentId>,
        id: SegmentId,
    )
        requires
            follows_target(self.collection_params@, self.hnsw_config, built),
            next_id <= id < next_id + built.len(),
        ensures
            !self.is_candidate(rebuilt(segments, ids, next_id, built), excluded, id),
    {
        assert(rebuilt(segments, ids, next_id, built)[id].segment() == built[id - next_id]);
    }
}

} // verus!
