//! What the optimizers read of a segment.
//!
//! A segment owns part of the points of a collection. The optimizers never
//! look at the points themselves: they read the kind of the segment, how many
//! points it holds, and which index each of its vectors carries.

use vstd::prelude::*;
use crate::names::{clone_named, has_distinct_names, named, names_distinct, Named};
use crate::types::{Indexes, SegmentType, VectorDataConfig, VECTOR_ELEMENT_SIZE};

verus! {

/// Identifies a segment within one registry.
pub type SegmentId = usize;

/// Configuration a segment was built with: the data of each of its vectors,
/// by name.
#[derive(Debug, PartialEq, Eq)]
pub struct SegmentConfig {
    pub vector_data: Vec<(String, VectorDataConfig)>,
}

/// A storage unit of a collection, as far as the optimizers read it.
#[derive(Debug, PartialEq, Eq)]
pub struct Segment {
    pub segment_type: SegmentType,
    pub config: SegmentConfig,
    /// Number of points that can be read.
    pub available_point_count: usize,
    /// Number of points stored, deleted ones included.
    pub total_point_count: usize,
}

/// A segment as mathematics sees it.
pub struct SegmentView {
    pub segment_type: SegmentType,
    pub vector_data: Named<VectorDataConfig>,
    pub available_point_count: nat,
    pub total_point_count: nat,
}

impl View for SegmentConfig {
    type V = Named<VectorDataConfig>;

    open spec fn view(&self) -> Named<VectorDataConfig> {
        named(self.vector_data@)
    }
}

impl View for Segment {
    type V = SegmentView;

    open spec fn view(&self) -> SegmentView {
        SegmentView {
            segment_type: self.segment_type,
            vector_data: self.config@,
            available_point_count: self.available_point_count as nat,
            total_point_count: self.total_point_count as nat,
        }
    }
}

impl Clone for SegmentConfig {
    fn clone(&self) -> (copy: SegmentConfig)
        ensures
            copy@ == self@,
    {
        SegmentConfig { vector_data: clone_named(&self.vector_data) }
    }
}

impl Clone for Segment {
    fn clone(&self) -> (copy: Segment)
        ensures
            copy@ == self@,
    {
        Segment {
            segment_type: self.segment_type,
            config: self.config.clone(),
            available_point_count: self.available_point_count,
            total_point_count: self.total_point_count,
        }
    }
}

/// The largest number of elements any of the vectors has; zero where there is
/// no vector.
pub open spec fn max_vector_size(vector_data: Named<VectorDataConfig>) -> nat
    decreases vector_data.len(),
{
    if vector_data.len() == 0 {
        0
    } else {
        let before = max_vector_size(vector_data.drop_last());
        let size = vector_data.last().1.size as nat;
        if size > before {
            size
        } else {
            before
        }
    }
}

impl SegmentView {
    /// No vector name occurs twice, and no more points can be read than are
    /// stored.
    pub open spec fn wf(self) -> bool {
        &&& names_distinct(self.vector_data)
        &&& self.available_point_count <= self.total_point_count
    }

    /// Readable points times the size of the largest vector: the number of
    /// vector elements a rebuild has to go through, at most.
    pub open spec fn weight_units(self) -> nat {
        self.available_point_count * max_vector_size(self.vector_data)
    }

    /// Estimate, in bytes, of what a rebuild of the segment has to go through.
    /// It ranks the candidates for a rebuild and decides nothing else.
    pub open spec fn selection_weight(self) -> nat {
        self.weight_units() * VECTOR_ELEMENT_SIZE as nat
    }

    /// Every vector is without an index.
    pub open spec fn all_plain(self) -> bool {
        forall|i: int|
            0 <= i < self.vector_data.len() ==> (#[trigger] self.vector_data[i]).1.index
                is Plain
    }
}

/// Of two segments the one with more weight units has the greater weight.
pub proof fn lemma_weight_order(a: SegmentView, b: SegmentView)
    ensures
        a.weight_units() < b.weight_units() <==> a.selection_weight() < b.selection_weight(),
        a.weight_units() == b.weight_units() <==> a.selection_weight() == b.selection_weight(),
{
}

impl Segment {
    /// What kind of segment this is.
    pub fn segment_type(&self) -> (segment_type: SegmentType)
        ensures
            segment_type == self@.segment_type,
    {
        self.segment_type
    }

    /// The configuration the segment was built with.
    pub fn config(&self) -> (config: &SegmentConfig)
        ensures
            config@ == self@.vector_data,
    {
        &self.config
    }

    /// Number of points that can be read.
    pub fn available_point_count(&self) -> (count: usize)
        ensures
            count == self@.available_point_count,
    {
        self.available_point_count
    }

    /// Number of points stored, deleted ones included.
    pub fn total_point_count(&self) -> (count: usize)
        ensures
            count == self@.total_point_count,
    {
        self.total_point_count
    }

    /// Whether no vector name occurs twice and no more points can be read
    /// than are stored.
    pub fn is_valid(&self) -> (valid: bool)
        ensures
            valid == self@.wf(),
    {
        has_distinct_names(&self.config.vector_data) && self.available_point_count
            <= self.total_point_count
    }

    /// The size of the largest vector of the segment.
    pub fn max_vector_size(&self) -> (size: usize)
        ensures
            size == max_vector_size(self@.vector_data),
    {
        let vectors = &self.config.vector_data;
        let mut size: usize = 0;
        let mut i: usize = 0;
        assert(named(vectors@).take(0) =~= Seq::empty());
        while i < vectors.len()
            invariant
                i <= vectors.len(),
                size == max_vector_size(named(vectors@).take(i as int)),
            decreases vectors.len() - i,
        {
            proof {
                let model = named(vectors@);
                assert(model.take(i as int + 1).drop_last() =~= model.take(i as int));
                assert(model.take(i as int + 1).last() == model[i as int]);
            }
            if vectors[i].1.size > size {
                size = vectors[i].1.size;
            }
            i += 1;
        }
        assert(named(vectors@).take(vectors.len() as int) =~= named(vectors@));
        size
    }

    /// Readable points times the size of the largest vector.
    pub fn weight_units(&self) -> (units: u128)
        ensures
            units == self@.weight_units(),
    {
        let points = self.available_point_count as u128;
        let size = self.max_vector_size() as u128;
        assert(points * size <= u128::MAX) by (nonlinear_arith)
            requires
                points <= 0xffff_ffff_ffff_ffff,
                size <= 0xffff_ffff_ffff_ffff,
        ;
        points * size
    }

    /// Whether `self` weighs more than `other`.
    pub fn outweighs(&self, other: &Segment) -> (heavier: bool)
        ensures
            heavier == (self@.selection_weight() > other@.selection_weight()),
    {
        self.weight_units() > other.weight_units()
    }
}

} // verus!
