//! Index parameters and the other plain values a segment reports about itself.

use vstd::prelude::*;

verus! {

/// Number of bytes one vector element occupies.
pub const VECTOR_ELEMENT_SIZE: usize = 4;

/// Name under which the only vector of a single-vector collection is known.
pub const DEFAULT_VECTOR_NAME: &'static str = "";

/// Metric by which two vectors are compared.
#[derive(Clone, Copy, Debug, PartialEq, Eq, Structural)]
pub enum Distance {
    Cosine,
    Euclid,
    Dot,
}

/// Parameters of an HNSW graph.
#[derive(Clone, Copy, Debug, PartialEq, Eq, Structural)]
pub struct HnswConfig {
    /// Number of edges per node in the graph.
    pub m: usize,
    /// Number of neighbours considered while the graph is built.
    pub ef_construct: usize,
    /// Point count below which no graph is built and every query scans.
    pub full_scan_threshold: usize,
    /// Number of threads used to build the graph; `0` lets the engine choose.
    pub max_indexing_threads: usize,
    /// Whether the graph is kept on disk rather than in memory.
    pub on_disk: Option<bool>,
    /// Number of edges per node in the graphs built for payload indexes.
    pub payload_m: Option<usize>,
}

impl HnswConfig {
    /// Whether a graph built with `self` has to be built again to serve `other`.
    ///
    /// Only the fields that shape the graph or move it between memory and
    /// disk count; the thread count is a hint for the build and is ignored.
    pub open spec fn spec_mismatch_requires_rebuild(&self, other: &HnswConfig) -> bool {
        ||| self.m != other.m
        ||| self.ef_construct != other.ef_construct
        ||| self.full_scan_threshold != other.full_scan_threshold
        ||| self.payload_m != other.payload_m
        ||| self.on_disk != other.on_disk
    }

    #[verifier::when_used_as_spec(spec_mismatch_requires_rebuild)]
    pub fn mismatch_requires_rebuild(&self, other: &HnswConfig) -> (mismatch: bool)
        ensures
            mismatch == self.spec_mismatch_requires_rebuild(other),
    {
        self.m != other.m || self.ef_construct != other.ef_construct
            || self.full_scan_threshold != other.full_scan_threshold
            || self.payload_m != other.payload_m || self.on_disk != other.on_disk
    }
}

/// Index built over one vector of a segment.
#[derive(Clone, Copy, Debug, PartialEq, Eq, Structural)]
pub enum Indexes {
    /// No index: every query scans the vectors.
    Plain,
    /// An HNSW graph built with the given parameters.
    Hnsw(HnswConfig),
}

/// What kind of segment this is.
#[derive(Clone, Copy, Debug, PartialEq, Eq, Structural)]
pub enum SegmentType {
    /// Vectors without an index.
    Plain,
    /// Vectors with an index built over them.
    Indexed,
    /// A segment that optimizers must leave alone: it is as optimized as it
    /// will get, or it stands in for a segment that is being rebuilt.
    Special,
}

/// Width of the integers that scalar quantization stores.
#[derive(Clone, Copy, Debug, PartialEq, Eq, Structural)]
pub enum ScalarType {
    Int8,
}

/// Parameters of scalar quantization.
#[derive(Clone, Copy, Debug, PartialEq, Eq, Structural)]
pub struct ScalarQuantizationConfig {
    /// Type of the quantized elements.
    pub scalar_type: ScalarType,
    /// Quantile of the values kept within the quantized range, as the bit
    /// pattern of a 32-bit float.
    pub quantile_bits: Option<u32>,
    /// Whether the quantized vectors stay in memory whatever the storage of
    /// the originals.
    pub always_ram: Option<bool>,
}

/// Lossy compression applied to the stored vectors.
#[derive(Clone, Copy, Debug, PartialEq, Eq, Structural)]
pub enum QuantizationConfig {
    Scalar(ScalarQuantizationConfig),
}

/// What a segment holds for one named vector.
#[derive(Clone, Copy, Debug, PartialEq, Eq, Structural)]
pub struct VectorDataConfig {
    /// Number of elements of each vector.
    pub size: usize,
    /// Metric by which the vectors are compared.
    pub distance: Distance,
    /// Index built over the vectors.
    pub index: Indexes,
}

} // verus!
