//! Values exchanged with the users of a collection: errors, the parameters
//! of its vectors and the partial updates of its configuration.

use vstd::prelude::*;
use crate::names::{
    clone_named, get_by_name, has_distinct_names, lookup, named, names_distinct, Named,
};
use crate::types::{Distance, HnswConfig, QuantizationConfig, DEFAULT_VECTOR_NAME};

verus! {

/// Why an operation on a collection failed.
#[derive(Clone, Debug, PartialEq, Eq)]
pub enum CollectionError {
    /// The caller asked for something the collection does not have.
    BadInput { description: String },
    /// The storage or the machine failed.
    ServiceError { error: String },
    /// The operation was told to stop before it had finished.
    Cancelled { description: String },
}

impl CollectionError {
    /// The error of a caller who asked for something the collection does not
    /// have.
    pub fn bad_input(description: String) -> (error: CollectionError)
        ensures
            error == (CollectionError::BadInput { description }),
    {
        CollectionError::BadInput { description }
    }

    /// The error of a storage or a machine that failed.
    pub fn service_error(error: String) -> (failure: CollectionError)
        ensures
            failure == (CollectionError::ServiceError { error }),
    {
        CollectionError::ServiceError { error }
    }
}

/// HNSW parameters a single vector sets for itself. A field left unset is
/// taken from the configuration of the collection.
#[derive(Clone, Copy, Debug, PartialEq, Eq, Structural)]
pub struct HnswConfigDiff {
    pub m: Option<usize>,
    pub ef_construct: Option<usize>,
    pub full_scan_threshold: Option<usize>,
    pub max_indexing_threads: Option<usize>,
    pub on_disk: Option<bool>,
    pub payload_m: Option<usize>,
}

/// The override where it is set, the inherited value otherwise.
pub open spec fn overridden<T>(diff: Option<T>, inherited: T) -> T {
    match diff {
        Some(value) => value,
        None => inherited,
    }
}

/// The override where it is set, the inherited value, set or not, otherwise.
pub open spec fn overridden_optional<T>(diff: Option<T>, inherited: Option<T>) -> Option<T> {
    match diff {
        Some(value) => Some(value),
        None => inherited,
    }
}

impl HnswConfigDiff {
    /// `config` with every field that `self` sets replaced by the value set.
    pub open spec fn merged(&self, config: HnswConfig) -> HnswConfig {
        HnswConfig {
            m: overridden(self.m, config.m),
            ef_construct: overridden(self.ef_construct, config.ef_construct),
            full_scan_threshold: overridden(self.full_scan_threshold, config.full_scan_threshold),
            max_indexing_threads: overridden(self.max_indexing_threads, config.max_indexing_threads),
            on_disk: overridden_optional(self.on_disk, config.on_disk),
            payload_m: overridden_optional(self.payload_m, config.payload_m),
        }
    }

    /// Merges `self` over `config`, field by field. The merge of these fields
    /// cannot fail; whoever holds the result against a configuration still
    /// says what is to happen where a merge did fail.
    pub fn update(&self, config: &HnswConfig) -> (updated: Result<HnswConfig, CollectionError>)
        ensures
            updated == Ok::<HnswConfig, CollectionError>(self.merged(*config)),
    {
        Ok(
            HnswConfig {
                m: match self.m {
                    Some(m) => m,
                    None => config.m,
                },
                ef_construct: match self.ef_construct {
                    Some(ef_construct) => ef_construct,
                    None => config.ef_construct,
                },
                full_scan_threshold: match self.full_scan_threshold {
                    Some(full_scan_threshold) => full_scan_threshold,
                    None => config.full_scan_threshold,
                },
                max_indexing_threads: match self.max_indexing_threads {
                    Some(max_indexing_threads) => max_indexing_threads,
                    None => config.max_indexing_threads,
                },
                on_disk: match self.on_disk {
                    Some(on_disk) => Some(on_disk),
                    None => config.on_disk,
                },
                payload_m: match self.payload_m {
                    Some(payload_m) => Some(payload_m),
                    None => config.payload_m,
                },
            },
        )
    }
}

/// Parameters of one vector of a collection.
#[derive(Clone, Copy, Debug, PartialEq, Eq, Structural)]
pub struct VectorParams {
    /// Number of elements of each vector; never zero.
    pub size: u64,
    /// Metric by which the vectors are compared.
    pub distance: Distance,
    /// HNSW parameters this vector sets for itself.
    pub hnsw_config: Option<HnswConfigDiff>,
    /// Quantization this vector sets for itself.
    pub quantization_config: Option<QuantizationConfig>,
    /// Whether the vectors are kept on disk.
    pub on_disk: Option<bool>,
}

impl VectorParams {
    /// The size is positive and fits the machine's word.
    pub open spec fn wf(&self) -> bool {
        0 < self.size <= usize::MAX
    }

    /// Whether the size is positive and fits the machine's word.
    pub fn is_valid(&self) -> (valid: bool)
        ensures
            valid == self.wf(),
    {
        0 < self.size && self.size <= usize::MAX as u64
    }
}

/// The vectors of a collection: a single unnamed one, or several by name.
#[derive(Debug, PartialEq, Eq)]
pub enum VectorsConfig {
    Single(VectorParams),
    Multi(Vec<(String, VectorParams)>),
}

/// The vectors of a collection as mathematics sees them.
pub enum VectorsConfigView {
    Single(VectorParams),
    Multi(Named<VectorParams>),
}

impl View for VectorsConfig {
    type V = VectorsConfigView;

    open spec fn view(&self) -> VectorsConfigView {
        match self {
            VectorsConfig::Single(params) => VectorsConfigView::Single(*params),
            VectorsConfig::Multi(entries) => VectorsConfigView::Multi(named(entries@)),
        }
    }
}

impl Clone for VectorsConfig {
    fn clone(&self) -> (copy: VectorsConfig)
        ensures
            copy@ == self@,
    {
        match self {
            VectorsConfig::Single(params) => VectorsConfig::Single(*params),
            VectorsConfig::Multi(entries) => VectorsConfig::Multi(clone_named(entries)),
        }
    }
}

/// Every entry holds well-formed parameters.
pub open spec fn all_params_wf(entries: Named<VectorParams>) -> bool {
    forall|i: int| 0 <= i < entries.len() ==> (#[trigger] entries[i]).1.wf()
}

impl VectorsConfigView {
    /// The parameters are well-formed and no name is configured twice.
    pub open spec fn wf(self) -> bool {
        match self {
            VectorsConfigView::Single(params) => params.wf(),
            VectorsConfigView::Multi(entries) => names_distinct(entries) && all_params_wf(entries),
        }
    }

    /// The parameters configured under `name`. The single vector of a
    /// collection answers to the default name only.
    pub open spec fn get_params(self, name: Seq<char>) -> Option<VectorParams> {
        match self {
            VectorsConfigView::Single(params) => if name == DEFAULT_VECTOR_NAME@ {
                Some(params)
            } else {
                None
            },
            VectorsConfigView::Multi(entries) => lookup(entries, name),
        }
    }
}

/// Whether every entry holds well-formed parameters.
pub fn all_params_valid(entries: &Vec<(String, VectorParams)>) -> (valid: bool)
    ensures
        valid == all_params_wf(named(entries@)),
{
    let mut i: usize = 0;
    while i < entries.len()
        invariant
            i <= entries.len(),
            forall|k: int| 0 <= k < i ==> (#[trigger] named(entries@)[k]).1.wf(),
        decreases entries.len() - i,
    {
        if !entries[i].1.is_valid() {
            assert(!named(entries@)[i as int].1.wf());
            return false;
        }
        i += 1;
    }
    true
}

impl VectorsConfig {
    /// Whether the parameters are well-formed and no name is configured
    /// twice.
    pub fn is_valid(&self) -> (valid: bool)
        ensures
            valid == self@.wf(),
    {
        match self {
            VectorsConfig::Single(params) => params.is_valid(),
            VectorsConfig::Multi(entries) => has_distinct_names(entries) && all_params_valid(
                entries,
            ),
        }
    }

    /// Looks up the parameters of the vector called `name`.
    pub fn get_params(&self, name: &str) -> (found: Option<&VectorParams>)
        ensures
            match found {
                Some(params) => self@.get_params(name@) == Some(*params),
                None => self@.get_params(name@) is None,
            },
    {
        match self {
            VectorsConfig::Single(params) => {
                proof {
                    reveal_strlit("");
                }
                if name.is_empty() {
                    assert(name@ =~= DEFAULT_VECTOR_NAME@);
                    Some(params)
                } else {
                    None
                }
            },
            VectorsConfig::Multi(entries) => get_by_name(entries, name),
        }
    }
}

} // verus!
