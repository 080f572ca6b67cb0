//! The configuration of a collection, as it is persisted.

use vstd::prelude::*;
use std::collections::hash_map::DefaultHasher;
use std::hash::Hasher;
use vstd::std_specs::hash::DefaultHasherAdditionalSpecFns;
use vstd::string::{to_string_from_display_ensures, StringExecFns, StringSliceAdditionalSpecFns};
use vstd::utf8::encode_utf8;
use crate::names::{named, Named};
use crate::operations::{CollectionError, VectorParams, VectorsConfig, VectorsConfigView};
use crate::segment_optimizer::OptimizerThresholds;
use crate::types::{
    HnswConfig, Indexes, QuantizationConfig, VectorDataConfig, DEFAULT_VECTOR_NAME,
};

verus! {

/// Name of the file, in the directory of a collection, that holds its
/// configuration.
pub const COLLECTION_CONFIG_FILE: &'static str = "config.json";

/// Sizing of the write-ahead log.
#[derive(Clone, Copy, Debug, PartialEq, Eq, Structural)]
pub struct WalConfig {
    /// Size of a single WAL segment in MB.
    pub wal_capacity_mb: usize,
    /// Number of WAL segments to create ahead of actually used ones.
    pub wal_segments_ahead: usize,
}

/// What the write-ahead log is opened with.
#[derive(Clone, Copy, Debug, PartialEq, Eq, Structural)]
pub struct WalOptions {
    /// Size of a single WAL segment in bytes.
    pub segment_capacity: usize,
    /// Number of WAL segments to create ahead of actually used ones.
    pub segment_queue_len: usize,
}

impl WalConfig {
    /// The capacity of a WAL segment, in bytes.
    pub open spec fn capacity_bytes(&self) -> nat {
        (self.wal_capacity_mb * 1024 * 1024) as nat
    }

    /// The capacity, in bytes, fits the machine's word.
    pub open spec fn wf(&self) -> bool {
        self.capacity_bytes() <= usize::MAX
    }

    /// Whether the capacity, in bytes, fits the machine's word.
    pub fn is_valid(&self) -> (valid: bool)
        ensures
            valid == self.wf(),
    {
        self.wal_capacity_mb <= usize::MAX / (1024 * 1024)
    }
}

impl Default for WalConfig {
    fn default() -> (config: WalConfig)
        ensures
            config == (WalConfig { wal_capacity_mb: 32, wal_segments_ahead: 0 }),
    {
        WalConfig { wal_capacity_mb: 32, wal_segments_ahead: 0 }
    }
}

impl WalOptions {
    /// The options that open a log of the configured size.
    pub fn from(config: &WalConfig) -> (options: WalOptions)
        requires
            config.wf(),
        ensures
            options.segment_capacity == config.capacity_bytes(),
            options.segment_queue_len == config.wal_segments_ahead,
    {
        WalOptions {
            segment_capacity: config.wal_capacity_mb * 1024 * 1024,
            segment_queue_len: config.wal_segments_ahead,
        }
    }
}

/// Parameters a collection is created with.
#[derive(Debug, PartialEq, Eq)]
pub struct CollectionParams {
    /// Configuration of the vector storage.
    pub vectors: VectorsConfig,
    /// Number of shards the collection has; never zero.
    pub shard_number: u32,
    /// Number of replicas for each shard; never zero.
    pub replication_factor: u32,
    /// How many replicas have to apply an operation before it counts as
    /// successful; never zero.
    pub write_consistency_factor: u32,
    /// If true, the payload of the points is read from disk each time it is
    /// asked for, and not held in memory.
    pub on_disk_payload: bool,
}

/// The parameters of a collection as mathematics sees them.
pub struct CollectionParamsView {
    pub vectors: VectorsConfigView,
    pub shard_number: u32,
    pub replication_factor: u32,
    pub write_consistency_factor: u32,
    pub on_disk_payload: bool,
}

impl View for CollectionParams {
    type V = CollectionParamsView;

    open spec fn view(&self) -> CollectionParamsView {
        CollectionParamsView {
            vectors: self.vectors@,
            shard_number: self.shard_number,
            replication_factor: self.replication_factor,
            write_consistency_factor: self.write_consistency_factor,
            on_disk_payload: self.on_disk_payload,
        }
    }
}

impl Clone for CollectionParams {
    fn clone(&self) -> (copy: CollectionParams)
        ensures
            copy@ == self@,
    {
        CollectionParams {
            vectors: self.vectors.clone(),
            shard_number: self.shard_number,
            replication_factor: self.replication_factor,
            write_consistency_factor: self.write_consistency_factor,
            on_disk_payload: self.on_disk_payload,
        }
    }
}

impl CollectionParamsView {
    /// The vectors are well-formed and the three factors are positive.
    pub open spec fn wf(self) -> bool {
        &&& self.vectors.wf()
        &&& self.shard_number > 0
        &&& self.replication_factor > 0
        &&& self.write_consistency_factor > 0
    }
}

/// Number of shards of a collection that states none.
pub fn default_shard_number() -> (shards: u32)
    ensures
        shards == 1,
{
    1
}

/// Number of replicas of a collection that states none.
pub fn default_replication_factor() -> (replicas: u32)
    ensures
        replicas == 1,
{
    1
}

/// Write-consistency factor of a collection that states none.
pub fn default_write_consistency_factor() -> (replicas: u32)
    ensures
        replicas == 1,
{
    1
}

/// Whether a collection that does not say keeps its payload on disk.
pub fn default_on_disk_payload() -> (on_disk: bool)
    ensures
        !on_disk,
{
    false
}

/// What a segment holds for a vector with the parameters `params` before any
/// index is built.
pub open spec fn base_vector_data(params: VectorParams) -> VectorDataConfig {
    VectorDataConfig { size: params.size as usize, distance: params.distance, index: Indexes::Plain }
}

/// What a new segment holds for each vector of the collection.
pub open spec fn all_base_vector_data(vectors: VectorsConfigView) -> Named<VectorDataConfig> {
    match vectors {
        VectorsConfigView::Single(params) => seq![(DEFAULT_VECTOR_NAME@, base_vector_data(params))],
        VectorsConfigView::Multi(entries) => entries.map_values(
            |entry: (Seq<char>, VectorParams)| (entry.0, base_vector_data(entry.1)),
        ),
    }
}

/// The number that stands for `name` wherever names must not be told: the
/// hash of its bytes.
pub open spec fn name_hash(name: Seq<char>) -> u64 {
    DefaultHasher::spec_finish(seq![encode_utf8(name)])
}

/// `anonymized` stands for `name`: it is the number that stands for `name`,
/// written out.
pub open spec fn is_anonymized(name: Seq<char>, anonymized: String) -> bool {
    to_string_from_display_ensures::<u64>(&name_hash(name), anonymized)
}

/// `anonymized` holds the vectors of `original` with each name replaced by
/// what stands for it; the parameters are as they were.
pub open spec fn are_anonymized(original: VectorsConfig, anonymized: VectorsConfig) -> bool {
    match (original, anonymized) {
        (VectorsConfig::Single(params), VectorsConfig::Single(kept)) => kept == params,
        (VectorsConfig::Multi(entries), VectorsConfig::Multi(hidden)) => {
            &&& hidden@.len() == entries@.len()
            &&& forall|i: int|
                0 <= i < entries@.len() ==> {
                    &&& is_anonymized(entries@[i].0@, (#[trigger] hidden@[i]).0)
                    &&& hidden@[i].1 == entries@[i].1
                }
        },
        _ => false,
    }
}

/// What stands for `name` wherever names must not be told.
pub fn anonymize_name(name: &str) -> (anonymized: String)
    ensures
        is_anonymized(name@, anonymized),
{
    let mut hasher = DefaultHasher::new();
    hasher.write(name.as_bytes());
    assert(hasher@ =~= seq![name.spec_bytes()]);
    hasher.finish().to_string()
}

/// What the caller is told where no vector is configured under `name`.
pub open spec fn missing_vector_description(name: Seq<char>) -> Seq<char> {
    if name == DEFAULT_VECTOR_NAME@ {
        "Default vector params are not specified in config"@
    } else {
        "vector params for "@ + name + " are not specified in config"@
    }
}

impl CollectionParams {
    /// Whether the parameters are well-formed.
    pub fn is_valid(&self) -> (valid: bool)
        ensures
            valid == self@.wf(),
    {
        self.vectors.is_valid() && self.shard_number > 0 && self.replication_factor > 0
            && self.write_consistency_factor > 0
    }

    /// The parameters with the names of the vectors replaced by what stands
    /// for them. Numbers and flags tell nothing of the data and stay.
    pub fn anonymize(&self) -> (anonymized: CollectionParams)
        ensures
            are_anonymized(self.vectors, anonymized.vectors),
            anonymized.shard_number == self.shard_number,
            anonymized.replication_factor == self.replication_factor,
            anonymized.write_consistency_factor == self.write_consistency_factor,
            anonymized.on_disk_payload == self.on_disk_payload,
    {
        let vectors = match &self.vectors {
            VectorsConfig::Single(params) => VectorsConfig::Single(*params),
            VectorsConfig::Multi(entries) => {
                let mut hidden: Vec<(String, VectorParams)> = Vec::new();
                let mut i: usize = 0;
                while i < entries.len()
                    invariant
                        i <= entries.len(),
                        hidden@.len() == i,
                        forall|k: int|
                            0 <= k < i ==> {
                                &&& is_anonymized(entries@[k].0@, (#[trigger] hidden@[k]).0)
                                &&& hidden@[k].1 == entries@[k].1
                            },
                    decreases entries.len() - i,
                {
                    hidden.push((anonymize_name(entries[i].0.as_str()), entries[i].1));
                    i += 1;
                }
                VectorsConfig::Multi(hidden)
            },
        };
        CollectionParams {
            vectors,
            shard_number: self.shard_number,
            replication_factor: self.replication_factor,
            write_consistency_factor: self.write_consistency_factor,
            on_disk_payload: self.on_disk_payload,
        }
    }

    /// The parameters of the vector called `vector_name`.
    pub fn get_vector_params(&self, vector_name: &str) -> (found: Result<
        VectorParams,
        CollectionError,
    >)
        ensures
            match found {
                Ok(params) => self@.vectors.get_params(vector_name@) == Some(params),
                Err(CollectionError::BadInput { description }) => {
                    &&& self@.vectors.get_params(vector_name@) is None
                    &&& description@ == missing_vector_description(vector_name@)
                },
                Err(_) => false,
            },
    {
        match self.vectors.get_params(vector_name) {
            Some(params) => Ok(*params),
            None => {
                proof {
                    reveal_strlit("");
                }
                if vector_name.is_empty() {
                    assert(vector_name@ =~= DEFAULT_VECTOR_NAME@);
                    Err(
                        CollectionError::BadInput {
                            description: "Default vector params are not specified in config".to_owned(),
                        },
                    )
                } else {
                    let mut description = "vector params for ".to_owned();
                    description.append(vector_name);
                    description.append(" are not specified in config");
                    Err(CollectionError::BadInput { description })
                }
            },
        }
    }

    /// What a new segment holds for each vector of the collection: its size
    /// and metric, and no index yet.
    pub fn get_all_vector_params(&self) -> (all: Result<
        Vec<(String, VectorDataConfig)>,
        CollectionError,
    >)
        requires
            self@.vectors.wf(),
        ensures
            all matches Ok(vector_data) && named(vector_data@) == all_base_vector_data(
                self@.vectors,
            ),
    {
        let mut vector_data: Vec<(String, VectorDataConfig)> = Vec::new();
        match &self.vectors {
            VectorsConfig::Single(params) => {
                vector_data.push(
                    (
                        DEFAULT_VECTOR_NAME.to_owned(),
                        VectorDataConfig {
                            size: params.size as usize,
                            distance: params.distance,
                            index: Indexes::Plain,
                        },
                    ),
                );
                assert(named(vector_data@) =~= all_base_vector_data(self@.vectors));
            },
            VectorsConfig::Multi(entries) => {
                let mut i: usize = 0;
                while i < entries.len()
                    invariant
                        i <= entries.len(),
                        vector_data@.len() == i,
                        forall|k: int|
                            0 <= k < i ==> (#[trigger] named(vector_data@)[k]) == (
                                named(entries@)[k].0,
                                base_vector_data(named(entries@)[k].1),
                            ),
                        forall|k: int|
                            0 <= k < entries.len() ==> (#[trigger] named(entries@)[k]).1.wf(),
                    decreases entries.len() - i,
                {
                    let params = &entries[i].1;
                    let ghost before = vector_data@;
                    assert(named(entries@)[i as int].1.wf());
                    vector_data.push(
                        (
                            entries[i].0.clone(),
                            VectorDataConfig {
                                size: params.size as usize,
                                distance: params.distance,
                                index: Indexes::Plain,
                            },
                        ),
                    );
                    proof {
                        assert forall|k: int| 0 <= k <= i implies (#[trigger] named(
                            vector_data@,
                        )[k]) == (named(entries@)[k].0, base_vector_data(named(entries@)[k].1)) by {
                            if k < i {
                                assert(vector_data@[k] == before[k]);
                                assert(named(vector_data@)[k] == named(before)[k]);
                            }
                        }
                    }
                    i += 1;
                }
                assert(named(vector_data@) =~= all_base_vector_data(self@.vectors));
            },
        }
        Ok(vector_data)
    }
}

/// The configuration of a collection: the unit that is written to and read
/// from the configuration file.
#[derive(Debug, PartialEq, Eq)]
pub struct CollectionConfig {
    pub params: CollectionParams,
    pub hnsw_config: HnswConfig,
    pub optimizer_config: OptimizerThresholds,
    pub wal_config: WalConfig,
    /// Quantization of the stored vectors; a file written before there was
    /// quantization holds none.
    pub quantization_config: Option<QuantizationConfig>,
}

/// The configuration of a collection as mathematics sees it.
pub struct CollectionConfigView {
    pub params: CollectionParamsView,
    pub hnsw_config: HnswConfig,
    pub optimizer_config: OptimizerThresholds,
    pub wal_config: WalConfig,
    pub quantization_config: Option<QuantizationConfig>,
}

impl View for CollectionConfig {
    type V = CollectionConfigView;

    open spec fn view(&self) -> CollectionConfigView {
        CollectionConfigView {
            params: self.params@,
            hnsw_config: self.hnsw_config,
            optimizer_config: self.optimizer_config,
            wal_config: self.wal_config,
            quantization_config: self.quantization_config,
        }
    }
}

impl Clone for CollectionConfig {
    fn clone(&self) -> (copy: CollectionConfig)
        ensures
            copy@ == self@,
    {
        CollectionConfig {
            params: self.params.clone(),
            hnsw_config: self.hnsw_config,
            optimizer_config: self.optimizer_config,
            wal_config: self.wal_config,
            quantization_config: self.quantization_config,
        }
    }
}

impl CollectionConfigView {
    /// The parameters are well-formed and the log fits the machine.
    pub open spec fn wf(self) -> bool {
        self.params.wf() && self.wal_config.wf()
    }
}

impl CollectionConfig {
    /// Whether the configuration is well-formed.
    pub fn is_valid(&self) -> (valid: bool)
        ensures
            valid == self@.wf(),
    {
        self.params.is_valid() && self.wal_config.is_valid()
    }
}

/// Settings shared by every collection of a process.
#[derive(Clone, Copy, Debug)]
pub struct GlobalConfig {
    pub update_queue_size: usize,
}

} // verus!
