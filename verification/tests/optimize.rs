use collection::config::CollectionParams;
use collection::config_mismatch_optimizer::ConfigMismatchOptimizer;
use collection::operations::{CollectionError, HnswConfigDiff, VectorParams, VectorsConfig};
use collection::segment::{Segment, SegmentConfig};
use collection::segment_holder::{LockedSegment, ProxySegment, SegmentHolder};
use collection::rebuild::{are_originals, are_proxies, segments_follow_target};
use collection::segment_optimizer::{OptimizerThresholds, SegmentOptimizer};
use collection::telemetry::{OperationDurationStatistics, OperationDurationsAggregator};
use collection::types::{Distance, HnswConfig, Indexes, SegmentType, VectorDataConfig};

fn hnsw(m: usize, ef_construct: usize) -> HnswConfig {
    HnswConfig {
        m,
        ef_construct,
        full_scan_threshold: 10,
        max_indexing_threads: 0,
        on_disk: None,
        payload_m: None,
    }
}

fn collection_params() -> CollectionParams {
    CollectionParams {
        vectors: VectorsConfig::Multi(vec![
            (
                "v1".to_string(),
                VectorParams {
                    size: 10,
                    distance: Distance::Dot,
                    hnsw_config: None,
                    quantization_config: None,
                    on_disk: None,
                },
            ),
            (
                "v2".to_string(),
                VectorParams {
                    size: 20,
                    distance: Distance::Dot,
                    hnsw_config: Some(HnswConfigDiff {
                        m: Some(4),
                        ef_construct: None,
                        full_scan_threshold: None,
                        max_indexing_threads: None,
                        on_disk: None,
                        payload_m: None,
                    }),
                    quantization_config: None,
                    on_disk: None,
                },
            ),
        ]),
        shard_number: 1,
        replication_factor: 1,
        write_consistency_factor: 1,
        on_disk_payload: false,
    }
}

fn optimizer() -> ConfigMismatchOptimizer {
    ConfigMismatchOptimizer::new(
        OptimizerThresholds {
            max_segment_size: usize::MAX,
            memmap_threshold: usize::MAX,
            indexing_threshold: 10,
        },
        "segments".to_string(),
        "temp".to_string(),
        collection_params(),
        hnsw(8, 20),
        None,
    )
}

fn segment(points: usize, v1: Indexes, v2: Indexes) -> Segment {
    let indexed = v1 != Indexes::Plain || v2 != Indexes::Plain;
    Segment {
        segment_type: if indexed { SegmentType::Indexed } else { SegmentType::Plain },
        config: SegmentConfig {
            vector_data: vec![
                ("v1".to_string(), VectorDataConfig { size: 10, distance: Distance::Dot, index: v1 }),
                ("v2".to_string(), VectorDataConfig { size: 20, distance: Distance::Dot, index: v2 }),
            ],
        },
        available_point_count: points,
        total_point_count: points,
    }
}

fn stale(points: usize) -> Segment {
    segment(points, Indexes::Hnsw(hnsw(16, 100)), Indexes::Hnsw(hnsw(16, 100)))
}

fn on_target(points: usize) -> Segment {
    segment(points, Indexes::Hnsw(hnsw(8, 20)), Indexes::Hnsw(hnsw(4, 20)))
}

fn snapshot(holder: &SegmentHolder) -> Vec<(usize, LockedSegment)> {
    let mut entries: Vec<(usize, LockedSegment)> =
        holder.ids().into_iter().map(|id| (id, holder.get(id).unwrap().clone())).collect();
    entries.sort_by_key(|(id, _)| *id);
    entries
}

#[test]
fn a_rebuild_puts_the_built_segments_in_the_place_of_the_old() {
    let mut holder = SegmentHolder::new();
    let other = holder.add(stale(5));
    let id = holder.add(stale(1000));
    let untouched = holder.get(other).unwrap().clone();

    let changed = optimizer().optimize(&mut holder, vec![id], false, Ok(vec![on_target(1000)]));

    assert_eq!(changed, Ok(true));
    assert!(holder.get(id).is_none());
    assert_eq!(holder.get(other), Some(&untouched));
    assert_eq!(holder.len(), 2);
    let new_id = holder.ids().into_iter().find(|new_id| *new_id != other).unwrap();
    assert!(new_id > id);
    assert_eq!(holder.get(new_id), Some(&LockedSegment::Original(on_target(1000))));
}

#[test]
fn several_segments_are_rebuilt_into_several() {
    let mut holder = SegmentHolder::new();
    let a = holder.add(stale(10));
    let b = holder.add(stale(20));
    let built = vec![on_target(30), segment(0, Indexes::Plain, Indexes::Plain)];
    let changed = optimizer().optimize(&mut holder, vec![b, a], false, Ok(built));
    assert_eq!(changed, Ok(true));
    assert_eq!(
        snapshot(&holder),
        vec![
            (2, LockedSegment::Original(on_target(30))),
            (3, LockedSegment::Original(segment(0, Indexes::Plain, Indexes::Plain))),
        ]
    );
}

#[test]
fn a_stop_flag_set_beforehand_leaves_the_registry_as_it_was() {
    let mut holder = SegmentHolder::new();
    let id = holder.add(stale(1000));
    let before = snapshot(&holder);

    let changed = optimizer().optimize(&mut holder, vec![id], true, Ok(vec![on_target(1000)]));

    assert_eq!(changed, Ok(false));
    assert_eq!(snapshot(&holder), before);
    assert_eq!(holder.get(id), Some(&LockedSegment::Original(stale(1000))));
    assert!(holder.get(id).unwrap().is_original());
}

#[test]
fn a_cancelled_build_is_no_change_and_no_error() {
    let mut holder = SegmentHolder::new();
    let id = holder.add(stale(1000));
    let before = snapshot(&holder);
    let cancelled = Err(CollectionError::Cancelled { description: "stopped".to_string() });
    assert_eq!(optimizer().optimize(&mut holder, vec![id], false, cancelled), Ok(false));
    assert_eq!(snapshot(&holder), before);
}

#[test]
fn a_failed_build_hands_on_its_error_and_rolls_back() {
    let mut holder = SegmentHolder::new();
    let id = holder.add(stale(1000));
    let before = snapshot(&holder);
    let failure = CollectionError::service_error("disk full".to_string());
    let changed = optimizer().optimize(&mut holder, vec![id], false, Err(failure.clone()));
    assert_eq!(changed, Err(failure));
    assert_eq!(changed, Err(CollectionError::ServiceError { error: "disk full".to_string() }));
    assert_eq!(snapshot(&holder), before);

    let bad_input = CollectionError::bad_input("no such vector".to_string());
    let changed = optimizer().optimize(&mut holder, vec![id], false, Err(bad_input));
    assert_eq!(
        changed,
        Err(CollectionError::BadInput { description: "no such vector".to_string() })
    );
    assert_eq!(snapshot(&holder), before);
}

#[test]
fn a_build_that_misses_the_target_is_refused() {
    let mut holder = SegmentHolder::new();
    let id = holder.add(stale(1000));
    let before = snapshot(&holder);
    let off_target = CollectionError::ServiceError {
        error: "rebuilt segments do not follow the target configuration".to_string(),
    };

    // built with the parameters of the collection where the vector sets its own
    let missed = segment(1000, Indexes::Hnsw(hnsw(8, 20)), Indexes::Hnsw(hnsw(8, 20)));
    let changed = optimizer().optimize(&mut holder, vec![id], false, Ok(vec![missed]));
    assert_eq!(changed, Err(off_target.clone()));
    assert_eq!(snapshot(&holder), before);

    // one of several misses
    let changed =
        optimizer().optimize(&mut holder, vec![id], false, Ok(vec![on_target(1), stale(2)]));
    assert_eq!(changed, Err(off_target.clone()));
    assert_eq!(snapshot(&holder), before);

    // nothing was built at all
    let changed = optimizer().optimize(&mut holder, vec![id], false, Ok(vec![]));
    assert_eq!(changed, Err(off_target));
    assert_eq!(snapshot(&holder), before);
}

#[test]
fn a_segment_that_is_gone_is_no_change() {
    let mut holder = SegmentHolder::new();
    let id = holder.add(stale(1000));
    let before = snapshot(&holder);
    let optimizer = optimizer();
    assert_eq!(optimizer.optimize(&mut holder, vec![id + 1], false, Ok(vec![on_target(1)])), Ok(false));
    assert_eq!(optimizer.optimize(&mut holder, vec![id, id + 1], false, Ok(vec![on_target(1)])), Ok(false));
    assert_eq!(optimizer.optimize(&mut holder, vec![], false, Ok(vec![on_target(1)])), Ok(false));
    assert_eq!(optimizer.optimize(&mut holder, vec![id, id], false, Ok(vec![on_target(1)])), Ok(false));
    assert_eq!(snapshot(&holder), before);
}

#[test]
fn a_segment_under_rebuild_is_not_taken_again() {
    let mut holder = SegmentHolder::new();
    let id = holder.add(stale(1000));
    let optimizer = optimizer();
    assert!(optimizer.start_optimization(&mut holder, &vec![id], false));
    let proxied = snapshot(&holder);
    assert_eq!(
        proxied,
        vec![(id, LockedSegment::Proxy(ProxySegment { wrapped_segment: stale(1000) }))]
    );
    assert!(!optimizer.start_optimization(&mut holder, &vec![id], false));
    assert_eq!(optimizer.optimize(&mut holder, vec![id], false, Ok(vec![on_target(1000)])), Ok(false));
    assert_eq!(snapshot(&holder), proxied);
}

#[test]
fn the_steps_of_a_rebuild_leave_other_segments_alone() {
    let mut holder = SegmentHolder::new();
    let other = holder.add(stale(5));
    let id = holder.add(stale(1000));
    let untouched = holder.get(other).unwrap().clone();
    let optimizer = optimizer();

    assert!(!optimizer.start_optimization(&mut holder, &vec![id], true));
    assert!(holder.get(id).unwrap().is_original());

    assert!(optimizer.start_optimization(&mut holder, &vec![id], false));
    assert_eq!(holder.get(other), Some(&untouched));
    // readers of the segment under rebuild still find its points
    assert_eq!(holder.get(id).unwrap().available_point_count(), 1000);
    assert_eq!(holder.get(id).unwrap().get(), &stale(1000));

    // told to stop while the build ran: the original is back in its place
    let changed =
        optimizer.finish_optimization(&mut holder, &vec![id], true, Ok(vec![on_target(1000)]));
    assert_eq!(changed, Ok(false));
    assert_eq!(holder.get(id), Some(&LockedSegment::Original(stale(1000))));
    assert_eq!(holder.get(other), Some(&untouched));

    // once more, to the end
    assert!(optimizer.start_optimization(&mut holder, &vec![id], false));
    let changed =
        optimizer.finish_optimization(&mut holder, &vec![id], false, Ok(vec![on_target(1000)]));
    assert_eq!(changed, Ok(true));
    assert!(holder.get(id).is_none());
    assert_eq!(holder.get(other), Some(&untouched));
    assert_eq!(holder.len(), 2);
}

#[test]
fn segments_are_originals_or_proxies_as_a_whole() {
    let mut holder = SegmentHolder::new();
    let a = holder.add(stale(1));
    let b = holder.add(stale(2));
    assert!(are_originals(&holder, &vec![a]));
    assert!(are_originals(&holder, &vec![b, a]));
    assert!(!are_originals(&holder, &vec![]));
    assert!(!are_originals(&holder, &vec![a, a]));
    assert!(!are_originals(&holder, &vec![a, b + 1]));
    assert!(!are_proxies(&holder, &vec![a]));
    assert!(holder.proxy_segment(a));
    assert!(are_proxies(&holder, &vec![a]));
    assert!(!are_proxies(&holder, &vec![a, b]));
    assert!(!are_proxies(&holder, &vec![]));
    assert!(!are_proxies(&holder, &vec![a, a]));
    assert!(!are_originals(&holder, &vec![a, b]));
    assert!(are_originals(&holder, &vec![b]));
}

#[test]
fn finishing_what_was_not_started_changes_nothing() {
    let mut holder = SegmentHolder::new();
    let id = holder.add(stale(1000));
    let before = snapshot(&holder);
    let changed =
        optimizer().finish_optimization(&mut holder, &vec![id], false, Ok(vec![on_target(1000)]));
    assert_eq!(changed, Ok(false));
    assert_eq!(snapshot(&holder), before);
}

#[test]
fn a_failure_while_several_are_under_rebuild_restores_each() {
    let mut holder = SegmentHolder::new();
    let a = holder.add(stale(1));
    let b = holder.add(stale(2));
    let before = snapshot(&holder);
    let optimizer = optimizer();
    assert!(optimizer.start_optimization(&mut holder, &vec![a, b], false));
    assert!(!holder.get(a).unwrap().is_original());
    assert!(!holder.get(b).unwrap().is_original());
    let failure = CollectionError::service_error("no space left".to_string());
    let changed = optimizer.finish_optimization(&mut holder, &vec![a, b], false, Err(failure.clone()));
    assert_eq!(changed, Err(failure));
    assert_eq!(snapshot(&holder), before);
}

#[test]
fn the_target_of_a_rebuild_follows_the_configuration() {
    let optimizer = optimizer();
    let source = stale(1000);
    let target = optimizer.target_config(source.config(), source.available_point_count());
    assert_eq!(target, on_target(1000).config);

    // too few points for a graph
    let small = optimizer.target_config(source.config(), 10);
    assert_eq!(small, segment(10, Indexes::Plain, Indexes::Plain).config);
    let just_enough = optimizer.target_config(source.config(), 11);
    assert_eq!(just_enough, on_target(11).config);

    let params = optimizer.collection_params();
    let built = |config: SegmentConfig| Segment {
        segment_type: SegmentType::Indexed,
        config,
        available_point_count: 1000,
        total_point_count: 1000,
    };
    assert!(segments_follow_target(&params, optimizer.hnsw_config(), &vec![built(target), built(small)]));
    assert!(!segments_follow_target(&params, optimizer.hnsw_config(), &vec![stale(1000)]));
    assert!(!segments_follow_target(&params, optimizer.hnsw_config(), &vec![]));
}

#[test]
fn telemetry_counts_the_runs() {
    let mut aggregator = OperationDurationsAggregator::new();
    assert_eq!(
        aggregator.get_statistics(),
        OperationDurationStatistics {
            count: 0,
            fail_count: 0,
            avg_duration_micros: None,
            min_duration_micros: None,
            max_duration_micros: None,
        }
    );
    aggregator.add_operation_result(true, 300);
    aggregator.add_operation_result(false, 5000);
    aggregator.add_operation_result(true, 100);
    aggregator.add_operation_result(true, 201);
    assert_eq!(
        aggregator.get_statistics(),
        OperationDurationStatistics {
            count: 3,
            fail_count: 1,
            avg_duration_micros: Some(200),
            min_duration_micros: Some(100),
            max_duration_micros: Some(300),
        }
    );

    aggregator.add_operation_result(true, u64::MAX);
    let statistics = aggregator.get_statistics();
    assert_eq!(statistics.count, 4);
    assert_eq!(statistics.max_duration_micros, Some(u64::MAX));
    assert_eq!(statistics.avg_duration_micros, Some(u64::MAX / 4));
}

#[test]
fn the_optimizer_records_its_runs() {
    let mut optimizer = optimizer();
    optimizer.record_operation(true, 40);
    optimizer.record_operation(false, 1);
    let statistics = optimizer.get_telemetry_data();
    assert_eq!(statistics.count, 1);
    assert_eq!(statistics.fail_count, 1);
    assert_eq!(statistics.avg_duration_micros, Some(40));
    assert_eq!(optimizer.get_telemetry_counter().get_statistics(), statistics);
    assert_eq!(optimizer.hnsw_config(), &hnsw(8, 20));
}
