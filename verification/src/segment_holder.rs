//! The registry of the segments of a collection.
//!
//! Each segment is known by an identifier that the registry hands out and
//! never hands out again. An entry is either the segment itself or a proxy
//! that stands in for it while a replacement is being built.

use vstd::prelude::*;
use std::collections::HashMap;
use vstd::std_specs::iter::IteratorSpec;
use crate::segment::{Segment, SegmentConfig, SegmentId, SegmentView};
use crate::types::SegmentType;

verus! {

broadcast use vstd::std_specs::hash::group_hash_axioms;

/// Stands in for a segment that is being rebuilt. Reads go through to the
/// wrapped segment; what is written in the meantime is kept apart from it.
#[derive(Debug, PartialEq, Eq)]
pub struct ProxySegment {
    pub wrapped_segment: Segment,
}

/// An entry of the registry. In a running engine every entry is shared
/// between threads behind a lock of its own, which gives the type its name;
/// here an entry holds what is read of the segment.
#[derive(Debug, PartialEq, Eq)]
pub enum LockedSegment {
    /// A segment that is read and written directly.
    Original(Segment),
    /// A segment that is being replaced.
    Proxy(ProxySegment),
}

/// An entry of the registry as mathematics sees it.
pub enum LockedSegmentView {
    Original(SegmentView),
    Proxy(SegmentView),
}

impl LockedSegmentView {
    /// The segment behind the entry.
    pub open spec fn segment(self) -> SegmentView {
        match self {
            LockedSegmentView::Original(segment) => segment,
            LockedSegmentView::Proxy(wrapped) => wrapped,
        }
    }

    /// The kind the entry reports. A proxy reports the special kind, whatever
    /// it wraps: a segment under rebuild is nobody's candidate.
    pub open spec fn segment_type(self) -> SegmentType {
        match self {
            LockedSegmentView::Original(segment) => segment.segment_type,
            LockedSegmentView::Proxy(_) => SegmentType::Special,
        }
    }
}

impl View for LockedSegment {
    type V = LockedSegmentView;

    open spec fn view(&self) -> LockedSegmentView {
        match self {
            LockedSegment::Original(segment) => LockedSegmentView::Original(segment@),
            LockedSegment::Proxy(proxy) => LockedSegmentView::Proxy(proxy.wrapped_segment@),
        }
    }
}

impl Clone for ProxySegment {
    fn clone(&self) -> (copy: ProxySegment)
        ensures
            copy.wrapped_segment@ == self.wrapped_segment@,
    {
        ProxySegment { wrapped_segment: self.wrapped_segment.clone() }
    }
}

impl Clone for LockedSegment {
    fn clone(&self) -> (copy: LockedSegment)
        ensures
            copy@ == self@,
    {
        match self {
            LockedSegment::Original(segment) => LockedSegment::Original(segment.clone()),
            LockedSegment::Proxy(proxy) => LockedSegment::Proxy(proxy.clone()),
        }
    }
}

impl LockedSegment {
    /// The segment behind the entry.
    pub fn get(&self) -> (segment: &Segment)
        ensures
            segment@ == self@.segment(),
    {
        match self {
            LockedSegment::Original(segment) => segment,
            LockedSegment::Proxy(proxy) => &proxy.wrapped_segment,
        }
    }

    /// The kind the entry reports; the special kind for a proxy.
    pub fn segment_type(&self) -> (segment_type: SegmentType)
        ensures
            segment_type == self@.segment_type(),
    {
        match self {
            LockedSegment::Original(segment) => segment.segment_type,
            LockedSegment::Proxy(_) => SegmentType::Special,
        }
    }

    /// The configuration of the segment behind the entry.
    pub fn config(&self) -> (config: &SegmentConfig)
        ensures
            config@ == self@.segment().vector_data,
    {
        self.get().config()
    }

    /// Number of points that can be read of the segment behind the entry.
    pub fn available_point_count(&self) -> (count: usize)
        ensures
            count == self@.segment().available_point_count,
    {
        self.get().available_point_count()
    }

    /// Whether the entry is the segment itself.
    pub fn is_original(&self) -> (original: bool)
        ensures
            original == (self@ is Original),
    {
        match self {
            LockedSegment::Original(_) => true,
            LockedSegment::Proxy(_) => false,
        }
    }
}

/// The entries that leave `entries` when the identifiers `ids` are removed
/// one after another: each entry once, in the order in which `ids` first
/// names it.
pub open spec fn removed_entries(
    entries: Map<SegmentId, LockedSegmentView>,
    ids: Seq<SegmentId>,
) -> Seq<LockedSegmentView>
    decreases ids.len(),
{
    if ids.len() == 0 {
        Seq::empty()
    } else if entries.contains_key(ids[0]) {
        seq![entries[ids[0]]] + removed_entries(entries.remove(ids[0]), ids.drop_first())
    } else {
        removed_entries(entries, ids.drop_first())
    }
}

/// The models of a list of entries.
pub open spec fn entry_views(entries: Seq<LockedSegment>) -> Seq<LockedSegmentView> {
    entries.map_values(|entry: LockedSegment| entry@)
}

/// The registry: the entries by identifier, and the next identifier to hand
/// out. Whoever shares a registry between threads puts it behind a lock that
/// admits many readers or one writer; every function here that changes the
/// registry changes it in one step, so that a reader finds it either before
/// or after the change.
pub struct SegmentHolder {
    segments: HashMap<SegmentId, LockedSegment>,
    next_id: SegmentId,
}

impl View for SegmentHolder {
    type V = Map<SegmentId, LockedSegmentView>;

    closed spec fn view(&self) -> Map<SegmentId, LockedSegmentView> {
        self.segments@.map_values(|entry: LockedSegment| entry@)
    }
}

impl SegmentHolder {
    /// The identifier the next segment added will get.
    pub closed spec fn spec_next_id(&self) -> nat {
        self.next_id as nat
    }

    /// Every identifier in use was handed out before.
    pub open spec fn wf(&self) -> bool {
        &&& self@.dom().finite()
        &&& forall|id: SegmentId| #[trigger] self@.contains_key(id) ==> id < self.spec_next_id()
    }

    /// The registry can hand out `count` more identifiers.
    pub open spec fn has_free_ids(&self, count: nat) -> bool {
        self.spec_next_id() + count <= usize::MAX
    }

    /// An empty registry.
    pub fn new() -> (holder: SegmentHolder)
        ensures
            holder.wf(),
            holder@ == Map::<SegmentId, LockedSegmentView>::empty(),
            holder.spec_next_id() == 0,
    {
        let holder = SegmentHolder { segments: HashMap::new(), next_id: 0 };
        assert(holder@ =~= Map::<SegmentId, LockedSegmentView>::empty());
        holder
    }

    /// Whether every identifier in use was handed out before. Every registry
    /// made and changed through the functions of this module is valid.
    pub fn is_valid(&self) -> (valid: bool)
        ensures
            valid == self.wf(),
    {
        proof {
            assert(self@.dom() =~= self.segments@.dom());
        }
        let ids = self.ids();
        let mut i: usize = 0;
        while i < ids.len()
            invariant
                i <= ids.len(),
                forall|id: SegmentId| ids@.contains(id) <==> self@.contains_key(id),
                forall|k: int| 0 <= k < i ==> ids@[k] < self.spec_next_id(),
            decreases ids.len() - i,
        {
            if ids[i] >= self.next_id {
                assert(ids@.contains(ids@[i as int]));
                return false;
            }
            i += 1;
        }
        proof {
            assert forall|id: SegmentId| #[trigger] self@.contains_key(id) implies id
                < self.spec_next_id() by {
                assert(ids@.contains(id));
            }
        }
        true
    }

    /// How many identifiers the registry can still hand out.
    pub fn free_ids(&self) -> (count: usize)
        ensures
            count == usize::MAX - self.spec_next_id(),
            forall|wanted: nat| self.has_free_ids(wanted) <==> wanted <= count,
    {
        usize::MAX - self.next_id
    }

    /// The number of segments registered.
    pub fn len(&self) -> (len: usize)
        ensures
            len == self@.len(),
    {
        proof {
            self.lemma_view_len();
        }
        self.segments.len()
    }

    /// Whether no segment is registered.
    pub fn is_empty(&self) -> (empty: bool)
        ensures
            empty == (self@.len() == 0),
    {
        self.len() == 0
    }

    proof fn lemma_view_len(&self)
        ensures
            self@.dom() == self.segments@.dom(),
            self@.len() == self.segments@.len(),
    {
        assert(self@.dom() =~= self.segments@.dom());
    }

    /// The entry known by `id`.
    pub fn get(&self, id: SegmentId) -> (entry: Option<&LockedSegment>)
        ensures
            match entry {
                Some(entry) => self@.contains_key(id) && self@[id] == entry@,
                None => !self@.contains_key(id),
            },
    {
        self.segments.get(&id)
    }

    /// The identifiers in use, each once, in no particular order.
    pub fn ids(&self) -> (ids: Vec<SegmentId>)
        ensures
            ids@.no_duplicates(),
            forall|id: SegmentId| ids@.contains(id) <==> self@.contains_key(id),
    {
        let mut ids: Vec<SegmentId> = Vec::new();
        for id in iter: self.segments.keys()
            invariant
                ids@.len() == iter.index(),
                forall|i: int| 0 <= i < ids@.len() ==> ids@[i] == *iter.seq()[i],
        {
            ids.push(*id);
        }
        proof {
            let keys = self.segments.keys().remaining();
            assert(ids@ =~= keys.unref());
            assert(self@.dom() =~= self.segments@.dom());
        }
        ids
    }

    /// Registers `segment` under a new identifier.
    pub fn add(&mut self, segment: Segment) -> (id: SegmentId)
        requires
            old(self).wf(),
            old(self).has_free_ids(1),
        ensures
            final(self).wf(),
            id == old(self).spec_next_id(),
            !old(self)@.contains_key(id),
            final(self).spec_next_id() == old(self).spec_next_id() + 1,
            final(self)@ == old(self)@.insert(id, LockedSegmentView::Original(segment@)),
    {
        let id = self.next_id;
        let ghost before = self.segments@;
        let ghost entry = LockedSegment::Original(segment);
        self.segments.insert(id, LockedSegment::Original(segment));
        self.next_id = id + 1;
        proof {
            assert(self.segments@ == before.insert(id, entry));
            assert(self@ =~= old(self)@.insert(id, entry@));
        }
        id
    }

    /// Puts `segment` behind the entry known by `id`, be it the segment
    /// itself or the proxy that stands in for it. Nothing changes where `id`
    /// is not in use.
    pub fn replace(&mut self, id: SegmentId, segment: Segment) -> (replaced: bool)
        requires
            old(self).wf(),
        ensures
            final(self).wf(),
            final(self).spec_next_id() == old(self).spec_next_id(),
            replaced == old(self)@.contains_key(id),
            replaced ==> final(self)@ == old(self)@.insert(
                id,
                if old(self)@[id] is Original {
                    LockedSegmentView::Original(segment@)
                } else {
                    LockedSegmentView::Proxy(segment@)
                },
            ),
            !replaced ==> final(self)@ == old(self)@,
    {
        let ghost before = self@;
        proof {
            assert(self@.dom() =~= self.segments@.dom());
        }
        match self.segments.remove(&id) {
            Some(LockedSegment::Original(_)) => {
                self.segments.insert(id, LockedSegment::Original(segment));
                proof {
                    assert(self@ =~= before.insert(id, LockedSegmentView::Original(segment@)));
                }
                true
            },
            Some(LockedSegment::Proxy(_)) => {
                self.segments.insert(
                    id,
                    LockedSegment::Proxy(ProxySegment { wrapped_segment: segment }),
                );
                proof {
                    assert(self@ =~= before.insert(id, LockedSegmentView::Proxy(segment@)));
                }
                true
            },
            None => {
                proof {
                    assert(self@ =~= before);
                }
                false
            },
        }
    }

    /// Takes the entries known by `remove_ids` out of the registry and hands
    /// them back. An identifier that is not in use is passed over.
    pub fn remove(&mut self, remove_ids: &Vec<SegmentId>) -> (removed: Vec<LockedSegment>)
        requires
            old(self).wf(),
        ensures
            final(self).wf(),
            final(self).spec_next_id() == old(self).spec_next_id(),
            final(self)@ == old(self)@.remove_keys(remove_ids@.to_set()),
            entry_views(removed@) == removed_entries(old(self)@, remove_ids@),
    {
        let mut removed: Vec<LockedSegment> = Vec::new();
        let mut i: usize = 0;
        proof {
            assert(remove_ids@.take(0).to_set() =~= Set::<SegmentId>::empty());
            assert(self@ =~= old(self)@.remove_keys(remove_ids@.take(0).to_set()));
            assert(remove_ids@.skip(0) =~= remove_ids@);
            assert(entry_views(removed@) =~= Seq::<LockedSegmentView>::empty());
            assert(entry_views(removed@) + removed_entries(self@, remove_ids@.skip(0))
                =~= removed_entries(old(self)@, remove_ids@));
        }
        while i < remove_ids.len()
            invariant
                i <= remove_ids.len(),
                self.wf(),
                self.spec_next_id() == old(self).spec_next_id(),
                self@ == old(self)@.remove_keys(remove_ids@.take(i as int).to_set()),
                entry_views(removed@) + removed_entries(self@, remove_ids@.skip(i as int))
                    == removed_entries(old(self)@, remove_ids@),
            decreases remove_ids.len() - i,
        {
            let id = remove_ids[i];
            let ghost before = self@;
            let ghost collected = entry_views(removed@);
            let ghost rest = remove_ids@.skip(i as int);
            proof {
                assert(rest[0] == id);
                assert(rest.drop_first() =~= remove_ids@.skip(i as int + 1));
                assert(self@.dom() =~= self.segments@.dom());
            }
            match self.segments.remove(&id) {
                Some(entry) => {
                    removed.push(entry);
                    proof {
                        assert(self@ =~= before.remove(id));
                        assert(entry_views(removed@) =~= collected + seq![before[id]]);
                        assert(entry_views(removed@) + removed_entries(
                            self@,
                            remove_ids@.skip(i as int + 1),
                        ) =~= collected + removed_entries(before, rest));
                    }
                },
                None => {
                    proof {
                        assert(self@ =~= before);
                    }
                },
            }
            proof {
                let earlier = remove_ids@.take(i as int);
                let now = remove_ids@.take(i as int + 1);
                assert forall|k: SegmentId| now.contains(k) <==> earlier.contains(k) || k == id by {
                    if now.contains(k) {
                        let j = choose|j: int| 0 <= j < now.len() && now[j] == k;
                        if j < i {
                            assert(earlier[j] == k);
                        }
                    }
                    if earlier.contains(k) {
                        let j = choose|j: int| 0 <= j < earlier.len() && earlier[j] == k;
                        assert(now[j] == k);
                    }
                    if k == id {
                        assert(now[i as int] == k);
                    }
                }
                assert(self@ =~= old(self)@.remove_keys(now.to_set()));
            }
            i += 1;
        }
        proof {
            assert(remove_ids@.take(remove_ids.len() as int) =~= remove_ids@);
            assert(remove_ids@.skip(remove_ids.len() as int) =~= Seq::<SegmentId>::empty());
            assert(entry_views(removed@) + Seq::<LockedSegmentView>::empty() =~= entry_views(
                removed@,
            ));
        }
        removed
    }

    /// Registers `segment` and takes the entries known by `remove_ids` out, in
    /// one step.
    pub fn swap(&mut self, segment: Segment, remove_ids: &Vec<SegmentId>) -> (swapped: (
        SegmentId,
        Vec<LockedSegment>,
    ))
        requires
            old(self).wf(),
            old(self).has_free_ids(1),
        ensures
            final(self).wf(),
            swapped.0 == old(self).spec_next_id(),
            final(self).spec_next_id() == old(self).spec_next_id() + 1,
            final(self)@ == old(self)@.insert(
                swapped.0,
                LockedSegmentView::Original(segment@),
            ).remove_keys(remove_ids@.to_set()),
            entry_views(swapped.1@) == removed_entries(
                old(self)@.insert(swapped.0, LockedSegmentView::Original(segment@)),
                remove_ids@,
            ),
    {
        let new_id = self.add(segment);
        let removed = self.remove(remove_ids);
        (new_id, removed)
    }

    /// Puts a proxy in the place of the segment known by `id`. Nothing
    /// changes where `id` is not in use or a proxy stands there already.
    pub fn proxy_segment(&mut self, id: SegmentId) -> (proxied: bool)
        requires
            old(self).wf(),
        ensures
            final(self).wf(),
            final(self).spec_next_id() == old(self).spec_next_id(),
            proxied == (old(self)@.contains_key(id) && old(self)@[id] is Original),
            proxied ==> final(self)@ == old(self)@.insert(
                id,
                LockedSegmentView::Proxy(old(self)@[id].segment()),
            ),
            !proxied ==> final(self)@ == old(self)@,
    {
        let original = match self.segments.get(&id) {
            Some(entry) => entry.is_original(),
            None => false,
        };
        if !original {
            return false;
        }
        let ghost before = self@;
        match self.segments.remove(&id) {
            Some(LockedSegment::Original(segment)) => {
                self.segments.insert(
                    id,
                    LockedSegment::Proxy(ProxySegment { wrapped_segment: segment }),
                );
                proof {
                    assert(self@ =~= before.insert(
                        id,
                        LockedSegmentView::Proxy(before[id].segment()),
                    ));
                }
                true
            },
            Some(other) => {
                self.segments.insert(id, other);
                proof {
                    assert(self@ =~= before);
                }
                false
            },
            None => false,
        }
    }

    /// Puts the wrapped segment back in the place of the proxy known by `id`.
    /// Nothing changes where `id` is not in use or no proxy stands there.
    pub fn unwrap_proxy(&mut self, id: SegmentId) -> (restored: bool)
        requires
            old(self).wf(),
        ensures
            final(self).wf(),
            final(self).spec_next_id() == old(self).spec_next_id(),
            restored == (old(self)@.contains_key(id) && old(self)@[id] is Proxy),
            restored ==> final(self)@ == old(self)@.insert(
                id,
                LockedSegmentView::Original(old(self)@[id].segment()),
            ),
            !restored ==> final(self)@ == old(self)@,
    {
        let proxied = match self.segments.get(&id) {
            Some(entry) => !entry.is_original(),
            None => false,
        };
        if !proxied {
            return false;
        }
        let ghost before = self@;
        match self.segments.remove(&id) {
            Some(LockedSegment::Proxy(proxy)) => {
                self.segments.insert(id, LockedSegment::Original(proxy.wrapped_segment));
                proof {
                    assert(self@ =~= before.insert(
                        id,
                        LockedSegmentView::Original(before[id].segment()),
                    ));
                }
                true
            },
            Some(other) => {
                self.segments.insert(id, other);
                proof {
                    assert(self@ =~= before);
                }
                false
            },
            None => false,
        }
    }
}

impl Default for SegmentHolder {
    fn default() -> (holder: SegmentHolder)
        ensures
            holder.wf(),
            holder@ == Map::<SegmentId, LockedSegmentView>::empty(),
            holder.spec_next_id() == 0,
    {
        SegmentHolder::new()
    }
}

} // verus!
