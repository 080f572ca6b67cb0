use collection::config::{
    anonymize_name, default_on_disk_payload, default_replication_factor, default_shard_number,
    default_write_consistency_factor, CollectionConfig, CollectionParams, GlobalConfig, WalConfig,
    WalOptions, COLLECTION_CONFIG_FILE,
};
use collection::names::{clone_named, get_by_name, has_distinct_names};
use collection::operations::{CollectionError, VectorParams, VectorsConfig};
use collection::segment_optimizer::OptimizerThresholds;
use collection::types::{
    Distance, HnswConfig, Indexes, QuantizationConfig, ScalarQuantizationConfig, ScalarType,
    VectorDataConfig, DEFAULT_VECTOR_NAME, VECTOR_ELEMENT_SIZE,
};

fn params(size: u64, distance: Distance) -> VectorParams {
    VectorParams { size, distance, hnsw_config: None, quantization_config: None, on_disk: None }
}

fn collection_of(vectors: VectorsConfig) -> CollectionParams {
    CollectionParams {
        vectors,
        shard_number: default_shard_number(),
        replication_factor: default_replication_factor(),
        write_consistency_factor: default_write_consistency_factor(),
        on_disk_payload: default_on_disk_payload(),
    }
}

fn two_vectors() -> VectorsConfig {
    VectorsConfig::Multi(vec![
        ("v1".to_string(), params(10, Distance::Cosine)),
        ("v2".to_string(), params(20, Distance::Euclid)),
    ])
}

#[test]
fn defaults_are_one_shard_one_replica_payload_in_memory() {
    assert_eq!(default_shard_number(), 1);
    assert_eq!(default_replication_factor(), 1);
    assert_eq!(default_write_consistency_factor(), 1);
    assert!(!default_on_disk_payload());
}

#[test]
fn constants_have_their_values() {
    assert_eq!(COLLECTION_CONFIG_FILE, "config.json");
    assert_eq!(DEFAULT_VECTOR_NAME, "");
    assert_eq!(VECTOR_ELEMENT_SIZE, 4);
}

#[test]
fn default_wal_config_is_32_mb_and_nothing_ahead() {
    let config = WalConfig::default();
    assert_eq!(config, WalConfig { wal_capacity_mb: 32, wal_segments_ahead: 0 });
    assert!(config.is_valid());
}

#[test]
fn wal_options_hold_the_capacity_in_bytes() {
    let options = WalOptions::from(&WalConfig::default());
    assert_eq!(options, WalOptions { segment_capacity: 33_554_432, segment_queue_len: 0 });
    let options = WalOptions::from(&WalConfig { wal_capacity_mb: 1, wal_segments_ahead: 3 });
    assert_eq!(options, WalOptions { segment_capacity: 1_048_576, segment_queue_len: 3 });
    let options = WalOptions::from(&WalConfig { wal_capacity_mb: 0, wal_segments_ahead: 0 });
    assert_eq!(options.segment_capacity, 0);
}

#[test]
fn a_wal_capacity_beyond_the_machine_word_is_not_valid() {
    let largest = usize::MAX / (1024 * 1024);
    assert!(WalConfig { wal_capacity_mb: largest, wal_segments_ahead: 0 }.is_valid());
    assert!(!WalConfig { wal_capacity_mb: largest + 1, wal_segments_ahead: 0 }.is_valid());
    assert!(!WalConfig { wal_capacity_mb: usize::MAX, wal_segments_ahead: 0 }.is_valid());
}

#[test]
fn a_named_vector_is_found_by_its_name() {
    let collection = collection_of(two_vectors());
    assert_eq!(collection.get_vector_params("v1"), Ok(params(10, Distance::Cosine)));
    assert_eq!(collection.get_vector_params("v2"), Ok(params(20, Distance::Euclid)));
}

#[test]
fn an_unknown_vector_name_is_bad_input() {
    let collection = collection_of(two_vectors());
    assert_eq!(
        collection.get_vector_params("v3"),
        Err(CollectionError::BadInput {
            description: "vector params for v3 are not specified in config".to_string()
        })
    );
    assert_eq!(
        collection.get_vector_params(DEFAULT_VECTOR_NAME),
        Err(CollectionError::BadInput {
            description: "Default vector params are not specified in config".to_string()
        })
    );
}

#[test]
fn the_single_vector_answers_to_the_default_name_only() {
    let collection = collection_of(VectorsConfig::Single(params(128, Distance::Dot)));
    assert_eq!(collection.get_vector_params(""), Ok(params(128, Distance::Dot)));
    assert_eq!(
        collection.get_vector_params("v1"),
        Err(CollectionError::BadInput {
            description: "vector params for v1 are not specified in config".to_string()
        })
    );
    assert_eq!(collection.vectors.get_params(""), Some(&params(128, Distance::Dot)));
    assert_eq!(collection.vectors.get_params("other"), None);
}

#[test]
fn all_vector_params_of_a_single_vector() {
    let collection = collection_of(VectorsConfig::Single(params(128, Distance::Dot)));
    assert_eq!(
        collection.get_all_vector_params(),
        Ok(vec![(
            "".to_string(),
            VectorDataConfig { size: 128, distance: Distance::Dot, index: Indexes::Plain }
        )])
    );
}

#[test]
fn all_vector_params_of_named_vectors() {
    let collection = collection_of(two_vectors());
    assert_eq!(
        collection.get_all_vector_params(),
        Ok(vec![
            (
                "v1".to_string(),
                VectorDataConfig { size: 10, distance: Distance::Cosine, index: Indexes::Plain }
            ),
            (
                "v2".to_string(),
                VectorDataConfig { size: 20, distance: Distance::Euclid, index: Indexes::Plain }
            ),
        ])
    );
    assert_eq!(collection_of(VectorsConfig::Multi(vec![])).get_all_vector_params(), Ok(vec![]));
}

#[test]
fn validity_of_collection_params() {
    assert!(collection_of(two_vectors()).is_valid());
    assert!(collection_of(VectorsConfig::Single(params(1, Distance::Dot))).is_valid());
    // a vector without elements
    assert!(!collection_of(VectorsConfig::Single(params(0, Distance::Dot))).is_valid());
    // a name configured twice
    let twice = VectorsConfig::Multi(vec![
        ("v1".to_string(), params(10, Distance::Dot)),
        ("v2".to_string(), params(10, Distance::Dot)),
        ("v1".to_string(), params(20, Distance::Dot)),
    ]);
    assert!(!twice.is_valid());
    assert!(!collection_of(twice).is_valid());
    // a factor of zero
    let mut no_shards = collection_of(two_vectors());
    no_shards.shard_number = 0;
    assert!(!no_shards.is_valid());
    let mut no_replicas = collection_of(two_vectors());
    no_replicas.replication_factor = 0;
    assert!(!no_replicas.is_valid());
    let mut no_consistency = collection_of(two_vectors());
    no_consistency.write_consistency_factor = 0;
    assert!(!no_consistency.is_valid());
}

#[test]
fn a_collection_config_is_valid_with_valid_parts() {
    let config = CollectionConfig {
        params: collection_of(two_vectors()),
        hnsw_config: HnswConfig {
            m: 16,
            ef_construct: 100,
            full_scan_threshold: 10,
            max_indexing_threads: 0,
            on_disk: None,
            payload_m: None,
        },
        optimizer_config: OptimizerThresholds {
            max_segment_size: 1,
            memmap_threshold: 2,
            indexing_threshold: 3,
        },
        wal_config: WalConfig::default(),
        quantization_config: Some(QuantizationConfig::Scalar(ScalarQuantizationConfig {
            scalar_type: ScalarType::Int8,
            quantile_bits: Some(0.99f32.to_bits()),
            always_ram: None,
        })),
    };
    assert!(config.is_valid());
    let copy = config.clone();
    assert_eq!(copy, config);
    assert_eq!(copy.quantization_config, config.quantization_config);

    let mut broken = config.clone();
    broken.wal_config.wal_capacity_mb = usize::MAX;
    assert!(!broken.is_valid());
    let mut without = config;
    without.quantization_config = None;
    assert!(without.is_valid());
    assert_eq!(without.clone(), without);
}

#[test]
fn a_copy_of_the_params_equals_the_params() {
    let original = collection_of(two_vectors());
    assert_eq!(original.clone(), original);
    let single = collection_of(VectorsConfig::Single(params(3, Distance::Dot)));
    assert_eq!(single.clone(), single);
}

#[test]
fn anonymizing_hides_the_names_and_keeps_the_rest() {
    let mut original = collection_of(two_vectors());
    original.shard_number = 3;
    original.on_disk_payload = true;
    let anonymized = original.anonymize();
    assert_eq!(anonymized.shard_number, 3);
    assert_eq!(anonymized.replication_factor, 1);
    assert_eq!(anonymized.write_consistency_factor, 1);
    assert!(anonymized.on_disk_payload);
    match anonymized.vectors {
        VectorsConfig::Multi(entries) => {
            assert_eq!(entries.len(), 2);
            assert_eq!(entries[0].0, anonymize_name("v1"));
            assert_eq!(entries[1].0, anonymize_name("v2"));
            assert_ne!(entries[0].0, "v1");
            assert_ne!(entries[1].0, "v2");
            assert_ne!(entries[0].0, entries[1].0);
            assert!(entries[0].0.parse::<u64>().is_ok());
            assert_eq!(entries[0].1, params(10, Distance::Cosine));
            assert_eq!(entries[1].1, params(20, Distance::Euclid));
        }
        VectorsConfig::Single(_) => panic!("named vectors stay named vectors"),
    }
    let single = collection_of(VectorsConfig::Single(params(3, Distance::Dot)));
    assert_eq!(single.anonymize(), single);
}

#[test]
fn a_name_is_anonymized_the_same_way_each_time() {
    assert_eq!(anonymize_name("vector"), anonymize_name("vector"));
    assert_ne!(anonymize_name("vector"), anonymize_name("vectos"));
}

#[test]
fn global_config_holds_the_queue_size() {
    let config = GlobalConfig { update_queue_size: 100 };
    let copy = config;
    assert_eq!(copy.update_queue_size, 100);
    assert_eq!(config.update_queue_size, 100);
}

#[test]
fn the_first_entry_of_a_name_is_found() {
    let entries = vec![("a".to_string(), 1u32), ("b".to_string(), 2), ("a".to_string(), 3)];
    assert_eq!(get_by_name(&entries, "a"), Some(&1));
    assert_eq!(get_by_name(&entries, "b"), Some(&2));
    assert_eq!(get_by_name(&entries, "c"), None);
    assert_eq!(get_by_name(&Vec::<(String, u32)>::new(), "a"), None);
    assert!(!has_distinct_names(&entries));
    assert!(has_distinct_names(&entries[..2].to_vec()));
    assert!(has_distinct_names(&Vec::<(String, u32)>::new()));
    assert_eq!(clone_named(&entries), entries);
}
