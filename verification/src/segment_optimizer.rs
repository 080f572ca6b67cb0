//! The contract between an optimizer of segments and whoever schedules it.

use vstd::prelude::*;
use std::collections::HashSet;
use crate::config::{CollectionParams, CollectionParamsView};
use crate::names::named;
use crate::operations::CollectionError;
use crate::rebuild::{
    are_originals, are_proxies, build_follows_target, built_views, can_optimize,
    lemma_proxied_is_under_rebuild, proxied, put_proxies, put_rebuilt, rebuilt, reported,
    rolled_back, segments_follow_target, under_rebuild, unwrap_proxies,
};
use crate::segment::{Segment, SegmentConfig, SegmentId};
use crate::segment_holder::SegmentHolder;
use crate::target::{planned_vector_data, target_hnsw_config};
use crate::telemetry::{OperationDurationStatistics, OperationDurationsAggregator};
use crate::types::{HnswConfig, Indexes, QuantizationConfig, SegmentType, VectorDataConfig};

verus! {

/// Sizes at which the optimizers change how a segment is stored.
#[derive(Clone, Copy, Debug, PartialEq, Eq, Structural)]
pub struct OptimizerThresholds {
    /// Largest size a segment may grow to.
    pub max_segment_size: usize,
    /// Size above which a segment is stored as a memory-mapped file.
    pub memmap_threshold: usize,
    /// Point count above which an HNSW graph is built for a segment.
    pub indexing_threshold: usize,
}

/// The contract between an optimizer and whoever schedules it.
pub trait SegmentOptimizer {
    /// Directory in which the segments of the collection are stored.
    spec fn spec_collection_path(&self) -> Seq<char>;

    /// Directory in which segments are built before they are put in place.
    spec fn spec_temp_path(&self) -> Seq<char>;

    /// The parameters of the collection in effect.
    spec fn spec_collection_params(&self) -> CollectionParamsView;

    /// The HNSW parameters of the collection in effect.
    spec fn spec_hnsw_config(&self) -> HnswConfig;

    /// The quantization of the collection in effect.
    spec fn spec_quantization_config(&self) -> Option<QuantizationConfig>;

    /// The thresholds in effect.
    spec fn spec_threshold_config(&self) -> OptimizerThresholds;

    /// The counters of the runs of this optimizer.
    spec fn spec_telemetry_counter(&self) -> OperationDurationsAggregator;

    /// Directory in which the segments of the collection are stored.
    fn collection_path(&self) -> (path: &str)
        ensures
            path@ == self.spec_collection_path(),
    ;

    /// Directory in which segments are built before they are put in place.
    fn temp_path(&self) -> (path: &str)
        ensures
            path@ == self.spec_temp_path(),
    ;

    /// A copy of the parameters in effect; later changes do not reach it.
    fn collection_params(&self) -> (params: CollectionParams)
        ensures
            params@ == self.spec_collection_params(),
    ;

    /// The HNSW parameters of the collection in effect.
    fn hnsw_config(&self) -> (config: &HnswConfig)
        ensures
            *config == self.spec_hnsw_config(),
    ;

    /// The quantization of the collection in effect.
    fn quantization_config(&self) -> (config: Option<QuantizationConfig>)
        ensures
            config == self.spec_quantization_config(),
    ;

    /// The thresholds in effect.
    fn threshold_config(&self) -> (thresholds: &OptimizerThresholds)
        ensures
            *thresholds == self.spec_threshold_config(),
    ;

    /// What is reported of the runs of this optimizer so far.
    fn get_telemetry_data(&self) -> (statistics: OperationDurationStatistics)
        ensures
            statistics == self.spec_telemetry_counter().statistics(),
    ;

    /// The counters of the runs of this optimizer.
    fn get_telemetry_counter(&self) -> (counter: &OperationDurationsAggregator)
        ensures
            *counter == self.spec_telemetry_counter(),
    ;

    /// The configuration a rebuild of a segment with the configuration
    /// `source` and `point_count` readable points is to follow.
    fn target_config(&self, source: &SegmentConfig, point_count: usize) -> (target: SegmentConfig)
        ensures
            target@ == planned_vector_data(
                self.spec_collection_params(),
                self.spec_hnsw_config(),
                self.spec_threshold_config(),
                source@,
                point_count as nat,
            ),
    {
        let params = self.collection_params();
        let indexed = point_count > self.threshold_config().indexing_threshold;
        let vectors = &source.vector_data;
        let mut planned: Vec<(String, VectorDataConfig)> = Vec::new();
        let mut i: usize = 0;
        while i < vectors.len()
            invariant
                i <= vectors.len(),
                planned@.len() == i,
                source@ == named(vectors@),
                params@ == self.spec_collection_params(),
                indexed == (point_count > self.spec_threshold_config().indexing_threshold),
                forall|k: int|
                    0 <= k < i ==> #[trigger] named(planned@)[k] == planned_vector_data(
                        self.spec_collection_params(),
                        self.spec_hnsw_config(),
                        self.spec_threshold_config(),
                        source@,
                        point_count as nat,
                    )[k],
            decreases vectors.len() - i,
        {
            let ghost before = planned@;
            let index = if indexed {
                Indexes::Hnsw(target_hnsw_config(&params, self.hnsw_config(), vectors[i].0.as_str()))
            } else {
                Indexes::Plain
            };
            planned.push(
                (
                    vectors[i].0.clone(),
                    VectorDataConfig {
                        size: vectors[i].1.size,
                        distance: vectors[i].1.distance,
                        index,
                    },
                ),
            );
            proof {
                assert forall|k: int| 0 <= k <= i implies #[trigger] named(planned@)[k]
                    == planned_vector_data(
                    self.spec_collection_params(),
                    self.spec_hnsw_config(),
                    self.spec_threshold_config(),
                    source@,
                    point_count as nat,
                )[k] by {
                    if k < i {
                        assert(planned@[k] == before[k]);
                        assert(named(planned@)[k] == named(before)[k]);
                    }
                }
            }
            i += 1;
        }
        let target = SegmentConfig { vector_data: planned };
        assert(target@ =~= planned_vector_data(
            self.spec_collection_params(),
            self.spec_hnsw_config(),
            self.spec_threshold_config(),
            source@,
            point_count as nat,
        ));
        target
    }

    /// The segments this optimizer wants rebuilt now. It changes nothing,
    /// names only segments that are registered, and names none that is
    /// excluded or of the special kind.
    fn check_condition(&self, segments: &SegmentHolder, excluded_ids: &HashSet<SegmentId>) -> (candidates:
        Vec<SegmentId>)
        ensures
            forall|i: int|
                0 <= i < candidates@.len() ==> {
                    &&& segments@.contains_key(#[trigger] candidates@[i])
                    &&& !excluded_ids@.contains(candidates@[i])
                    &&& segments@[candidates@[i]].segment_type() != SegmentType::Special
                },
    ;

    /// Takes the segments that `ids` names for a rebuild: a proxy takes the
    /// place of each, so that what is written from now on is kept apart from
    /// them. Nothing happens where the run was told to stop, or where one of
    /// the segments is gone or already under rebuild.
    fn start_optimization(
        &self,
        segments: &mut SegmentHolder,
        ids: &Vec<SegmentId>,
        stopped: bool,
    ) -> (started: bool)
        requires
            old(segments).wf(),
        ensures
            final(segments).wf(),
            final(segments).spec_next_id() == old(segments).spec_next_id(),
            started == (!stopped && can_optimize(old(segments)@, ids@)),
            started ==> final(segments)@ == proxied(old(segments)@, ids@),
            !started ==> final(segments)@ == old(segments)@,
    {
        if stopped || !are_originals(segments, ids) {
            return false;
        }
        put_proxies(segments, ids);
        true
    }

    /// Ends the rebuild of the segments that `ids` names, given what the
    /// build came to.
    ///
    /// Where the segments `built` follow the configuration, they take the
    /// place of the segments under rebuild, which leave the registry together
    /// with their proxies. In every other case each proxy gives its place
    /// back to the segment it wraps: the run was told to stop or the build
    /// was cancelled (no change, and no error), the build failed (its error),
    /// or it handed back segments that do not follow the configuration (a
    /// service error).
    fn finish_optimization(
        &self,
        segments: &mut SegmentHolder,
        ids: &Vec<SegmentId>,
        stopped: bool,
        built: Result<Vec<Segment>, CollectionError>,
    ) -> (changed: Result<bool, CollectionError>)
        requires
            old(segments).wf(),
            built matches Ok(rebuilt_segments) ==> old(segments).has_free_ids(
                rebuilt_segments@.len(),
            ),
        ensures
            final(segments).wf(),
            reported(
                changed,
                under_rebuild(old(segments)@, ids@),
                stopped,
                build_follows_target(self.spec_collection_params(), self.spec_hnsw_config(), built),
                built,
            ),
            changed == Ok::<bool, CollectionError>(true) ==> {
                &&& final(segments)@ == rebuilt(
                    old(segments)@,
                    ids@,
                    old(segments).spec_next_id(),
                    built_views(built),
                )
                &&& final(segments).spec_next_id() == old(segments).spec_next_id() + built_views(
                    built,
                ).len()
            },
            changed != Ok::<bool, CollectionError>(true) ==> {
                &&& final(segments)@ == rolled_back(old(segments)@, ids@)
                &&& final(segments).spec_next_id() == old(segments).spec_next_id()
            },
    {
        if stopped || !are_proxies(segments, ids) {
            unwrap_proxies(segments, ids);
            return Ok(false);
        }
        match built {
            Ok(rebuilt_segments) => {
                let params = self.collection_params();
                if segments_follow_target(&params, self.hnsw_config(), &rebuilt_segments) {
                    put_rebuilt(segments, ids, rebuilt_segments);
                    Ok(true)
                } else {
                    unwrap_proxies(segments, ids);
                    Err(
                        CollectionError::ServiceError {
                            error: "rebuilt segments do not follow the target configuration".to_owned(),
                        },
                    )
                }
            },
            Err(CollectionError::Cancelled { .. }) => {
                unwrap_proxies(segments, ids);
                Ok(false)
            },
            Err(failure) => {
                unwrap_proxies(segments, ids);
                Err(failure)
            },
        }
    }

    /// Rebuilds the segments that `ids` names, given what the build comes to.
    ///
    /// Nothing changes, and no change is reported, where the run was told to
    /// stop, where one of the segments is gone or already under rebuild, or
    /// where the build was cancelled. Nothing changes either where the build
    /// failed or handed back segments that do not follow the configuration;
    /// the error says which. Otherwise the segments `built` take the place
    /// of the segments that `ids` names.
    fn optimize(
        &self,
        segments: &mut SegmentHolder,
        ids: Vec<SegmentId>,
        stopped: bool,
        built: Result<Vec<Segment>, CollectionError>,
    ) -> (changed: Result<bool, CollectionError>)
        requires
            old(segments).wf(),
            built matches Ok(rebuilt_segments) ==> old(segments).has_free_ids(
                rebuilt_segments@.len(),
            ),
        ensures
            final(segments).wf(),
            reported(
                changed,
                can_optimize(old(segments)@, ids@),
                stopped,
                build_follows_target(self.spec_collection_params(), self.spec_hnsw_config(), built),
                built,
            ),
            changed == Ok::<bool, CollectionError>(true) ==> {
                &&& final(segments)@ == rebuilt(
                    old(segments)@,
                    ids@,
                    old(segments).spec_next_id(),
                    built_views(built),
                )
                &&& final(segments).spec_next_id() == old(segments).spec_next_id() + built_views(
                    built,
                ).len()
            },
            changed != Ok::<bool, CollectionError>(true) ==> {
                &&& final(segments)@ == old(segments)@
                &&& final(segments).spec_next_id() == old(segments).spec_next_id()
            },
    {
        if !self.start_optimization(segments, &ids, stopped) {
            return Ok(false);
        }
        proof {
            lemma_proxied_is_under_rebuild(old(segments)@, ids@);
        }
        let changed = self.finish_optimization(segments, &ids, false, built);
        proof {
            match changed {
                Ok(true) => {
                    assert(segments@ =~= rebuilt(
                        old(segments)@,
                        ids@,
                        old(segments).spec_next_id(),
                        built_views(built),
                    ));
                },
                _ => {
                    assert(segments@ =~= old(segments)@);
                },
            }
        }
        changed
    }
}

} // verus!
