//! The steps by which rebuilt segments take the place of the segments they
//! were built from.
//!
//! While a segment is being rebuilt a proxy stands in its place, so that
//! what is written in the meantime is kept apart from it. When the build
//! ends, either the rebuilt segments take the place of the segment and its
//! proxy in one step, or the proxy gives its place back to the segment. No
//! reader of the registry finds anything in between.

use vstd::prelude::*;
use crate::config::{CollectionParams, CollectionParamsView};
use crate::operations::CollectionError;
use crate::segment::{Segment, SegmentId, SegmentView};
use crate::segment_holder::{LockedSegmentView, SegmentHolder};
use crate::target::{config_has_mismatch, has_mismatch};
use crate::types::HnswConfig;

verus! {

/// The models of a list of segments.
pub open spec fn segment_views(segments: Seq<Segment>) -> Seq<SegmentView> {
    segments.map_values(|segment: Segment| segment@)
}

/// `ids` names at least one segment, none twice, and each is registered and
/// stands in the registry itself, with no proxy in its place: the segments
/// can be taken for a rebuild.
pub open spec fn can_optimize(
    segments: Map<SegmentId, LockedSegmentView>,
    ids: Seq<SegmentId>,
) -> bool {
    &&& ids.len() > 0
    &&& ids.no_duplicates()
    &&& forall|i: int|
        0 <= i < ids.len() ==> segments.contains_key(#[trigger] ids[i]) && segments[ids[i]]
            is Original
}

/// `ids` names at least one segment, none twice, and a proxy stands in the
/// place of each: the segments are under rebuild.
pub open spec fn under_rebuild(
    segments: Map<SegmentId, LockedSegmentView>,
    ids: Seq<SegmentId>,
) -> bool {
    &&& ids.len() > 0
    &&& ids.no_duplicates()
    &&& forall|i: int|
        0 <= i < ids.len() ==> segments.contains_key(#[trigger] ids[i]) && segments[ids[i]]
            is Proxy
}

/// The registry after a proxy took the place of each original that `ids`
/// names. No identifier comes or goes.
pub open spec fn proxied(
    segments: Map<SegmentId, LockedSegmentView>,
    ids: Seq<SegmentId>,
) -> Map<SegmentId, LockedSegmentView> {
    Map::new(
        |id: SegmentId| segments.contains_key(id),
        |id: SegmentId|
            if ids.contains(id) && segments[id] is Original {
                LockedSegmentView::Proxy(segments[id].segment())
            } else {
                segments[id]
            },
    )
}

/// The registry after each proxy that `ids` names gave its place back to the
/// segment it wraps. No identifier comes or goes.
pub open spec fn rolled_back(
    segments: Map<SegmentId, LockedSegmentView>,
    ids: Seq<SegmentId>,
) -> Map<SegmentId, LockedSegmentView> {
    Map::new(
        |id: SegmentId| segments.contains_key(id),
        |id: SegmentId|
            if ids.contains(id) && segments[id] is Proxy {
                LockedSegmentView::Original(segments[id].segment())
            } else {
                segments[id]
            },
    )
}

/// The registry after the entries that `ids` names left it and the segments
/// `built` were registered, one after the other, from `next_id` on.
pub open spec fn rebuilt(
    segments: Map<SegmentId, LockedSegmentView>,
    ids: Seq<SegmentId>,
    next_id: nat,
    built: Seq<SegmentView>,
) -> Map<SegmentId, LockedSegmentView> {
    Map::new(
        |id: SegmentId|
            (segments.contains_key(id) && !ids.contains(id)) || next_id <= id < next_id
                + built.len(),
        |id: SegmentId|
            if next_id <= id < next_id + built.len() {
                LockedSegmentView::Original(built[id - next_id])
            } else {
                segments[id]
            },
    )
}

/// There is at least one segment, and no index of any of them has to be
/// built again: the segments are what a rebuild was asked for.
pub open spec fn follows_target(
    params: CollectionParamsView,
    collection_hnsw: HnswConfig,
    built: Seq<SegmentView>,
) -> bool {
    &&& built.len() > 0
    &&& forall|k: int|
        0 <= k < built.len() ==> !has_mismatch(
            params,
            collection_hnsw,
            (#[trigger] built[k]).vector_data,
        )
}

/// The models of the segments a build handed back; none where it failed.
pub open spec fn built_views(built: Result<Vec<Segment>, CollectionError>) -> Seq<SegmentView> {
    match built {
        Ok(segments) => segment_views(segments@),
        Err(_) => Seq::empty(),
    }
}

/// The build succeeded and handed back what it was asked for.
pub open spec fn build_follows_target(
    params: CollectionParamsView,
    collection_hnsw: HnswConfig,
    built: Result<Vec<Segment>, CollectionError>,
) -> bool {
    built is Ok && follows_target(params, collection_hnsw, built_views(built))
}

/// What the caller is told where a rebuild handed back segments that do not
/// follow the configuration they were to be built for.
pub open spec fn off_target_description() -> Seq<char> {
    "rebuilt segments do not follow the target configuration"@
}

/// How the end of a rebuild is reported: no change where the segments were
/// not under rebuild or the run was told to stop; otherwise a change where
/// the build handed back what it was asked for and a service error where it
/// handed back something else, no change where the build was cancelled, and
/// the error of the build where it failed.
pub open spec fn reported(
    changed: Result<bool, CollectionError>,
    ready: bool,
    stopped: bool,
    on_target: bool,
    built: Result<Vec<Segment>, CollectionError>,
) -> bool {
    if !ready || stopped {
        changed == Ok::<bool, CollectionError>(false)
    } else {
        match built {
            Ok(_) => if on_target {
                changed == Ok::<bool, CollectionError>(true)
            } else {
                changed matches Err(CollectionError::ServiceError { error }) && error@
                    == off_target_description()
            },
            Err(CollectionError::Cancelled { .. }) => changed == Ok::<bool, CollectionError>(false),
            Err(failure) => changed == Err::<bool, CollectionError>(failure),
        }
    }
}

/// One more element of a sequence is named by its prefix when the prefix
/// grows by one.
proof fn lemma_take_contains(ids: Seq<SegmentId>, i: int)
    requires
        0 <= i < ids.len(),
    ensures
        forall|id: SegmentId|
            ids.take(i + 1).contains(id) <==> ids.take(i).contains(id) || id == ids[i],
{
    let earlier = ids.take(i);
    let now = ids.take(i + 1);
    assert forall|id: SegmentId| now.contains(id) <==> earlier.contains(id) || id == ids[i] by {
        if now.contains(id) {
            let j = choose|j: int| 0 <= j < now.len() && now[j] == id;
            if j < i {
                assert(earlier[j] == id);
            }
        }
        if earlier.contains(id) {
            let j = choose|j: int| 0 <= j < earlier.len() && earlier[j] == id;
            assert(now[j] == id);
        }
        if id == ids[i] {
            assert(now[i] == id);
        }
    }
}

/// Whether the segments that `ids` names can be taken for a rebuild.
pub fn are_originals(segments: &SegmentHolder, ids: &Vec<SegmentId>) -> (originals: bool)
    ensures
        originals == can_optimize(segments@, ids@),
{
    if ids.len() == 0 {
        return false;
    }
    let mut i: usize = 0;
    while i < ids.len()
        invariant
            i <= ids.len(),
            forall|a: int, b: int| 0 <= a < b < i ==> ids@[a] != ids@[b],
            forall|k: int|
                0 <= k < i ==> segments@.contains_key(#[trigger] ids@[k]) && segments@[ids@[k]]
                    is Original,
        decreases ids.len() - i,
    {
        let original = match segments.get(ids[i]) {
            Some(entry) => entry.is_original(),
            None => false,
        };
        if !original {
            return false;
        }
        let mut j: usize = 0;
        while j < i
            invariant
                j <= i < ids.len(),
                forall|a: int| 0 <= a < j ==> ids@[a] != ids@[i as int],
            decreases i - j,
        {
            if ids[j] == ids[i] {
                return false;
            }
            j += 1;
        }
        i += 1;
    }
    true
}

/// Whether the segments that `ids` names are under rebuild.
pub fn are_proxies(segments: &SegmentHolder, ids: &Vec<SegmentId>) -> (proxies: bool)
    ensures
        proxies == under_rebuild(segments@, ids@),
{
    if ids.len() == 0 {
        return false;
    }
    let mut i: usize = 0;
    while i < ids.len()
        invariant
            i <= ids.len(),
            forall|a: int, b: int| 0 <= a < b < i ==> ids@[a] != ids@[b],
            forall|k: int|
                0 <= k < i ==> segments@.contains_key(#[trigger] ids@[k]) && segments@[ids@[k]]
                    is Proxy,
        decreases ids.len() - i,
    {
        let proxy = match segments.get(ids[i]) {
            Some(entry) => !entry.is_original(),
            None => false,
        };
        if !proxy {
            return false;
        }
        let mut j: usize = 0;
        while j < i
            invariant
                j <= i < ids.len(),
                forall|a: int| 0 <= a < j ==> ids@[a] != ids@[i as int],
            decreases i - j,
        {
            if ids[j] == ids[i] {
                return false;
            }
            j += 1;
        }
        i += 1;
    }
    true
}

/// Puts a proxy in the place of each original that `ids` names.
pub(crate) fn put_proxies(segments: &mut SegmentHolder, ids: &Vec<SegmentId>)
    requires
        old(segments).wf(),
    ensures
        final(segments).wf(),
        final(segments).spec_next_id() == old(segments).spec_next_id(),
        final(segments)@ == proxied(old(segments)@, ids@),
{
    let mut i: usize = 0;
    proof {
        assert(segments@ =~= proxied(old(segments)@, ids@.take(0)));
    }
    while i < ids.len()
        invariant
            i <= ids.len(),
            segments.wf(),
            segments.spec_next_id() == old(segments).spec_next_id(),
            segments@ == proxied(old(segments)@, ids@.take(i as int)),
        decreases ids.len() - i,
    {
        segments.proxy_segment(ids[i]);
        proof {
            lemma_take_contains(ids@, i as int);
            assert(segments@ =~= proxied(old(segments)@, ids@.take(i as int + 1)));
        }
        i += 1;
    }
    proof {
        assert(ids@.take(ids.len() as int) =~= ids@);
    }
}

/// Gives the place of each proxy that `ids` names back to the segment it
/// wraps.
pub(crate) fn unwrap_proxies(segments: &mut SegmentHolder, ids: &Vec<SegmentId>)
    requires
        old(segments).wf(),
    ensures
        final(segments).wf(),
        final(segments).spec_next_id() == old(segments).spec_next_id(),
        final(segments)@ == rolled_back(old(segments)@, ids@),
{
    let mut i: usize = 0;
    proof {
        assert(segments@ =~= rolled_back(old(segments)@, ids@.take(0)));
    }
    while i < ids.len()
        invariant
            i <= ids.len(),
            segments.wf(),
            segments.spec_next_id() == old(segments).spec_next_id(),
            segments@ == rolled_back(old(segments)@, ids@.take(i as int)),
        decreases ids.len() - i,
    {
        segments.unwrap_proxy(ids[i]);
        proof {
            lemma_take_contains(ids@, i as int);
            assert(segments@ =~= rolled_back(old(segments)@, ids@.take(i as int + 1)));
        }
        i += 1;
    }
    proof {
        assert(ids@.take(ids.len() as int) =~= ids@);
    }
}

/// Takes the entries that `ids` names out of the registry and registers the
/// segments `built`.
pub(crate) fn put_rebuilt(segments: &mut SegmentHolder, ids: &Vec<SegmentId>, built: Vec<Segment>)
    requires
        old(segments).wf(),
        old(segments).has_free_ids(built@.len()),
    ensures
        final(segments).wf(),
        final(segments).spec_next_id() == old(segments).spec_next_id() + built@.len(),
        final(segments)@ == rebuilt(
            old(segments)@,
            ids@,
            old(segments).spec_next_id(),
            segment_views(built@),
        ),
{
    let ghost all = segment_views(built@);
    let ghost first_id = segments.spec_next_id();
    let mut built = built;
    segments.remove(ids);
    let mut added: usize = 0;
    proof {
        assert(segments@ =~= rebuilt(old(segments)@, ids@, first_id, all.take(0)));
        assert(segment_views(built@) =~= all.skip(0));
    }
    while built.len() > 0
        invariant
            segments.wf(),
            all.len() == added + built@.len(),
            first_id + all.len() <= usize::MAX,
            segments.spec_next_id() == first_id + added,
            segment_views(built@) == all.skip(added as int),
            segments@ == rebuilt(old(segments)@, ids@, first_id, all.take(added as int)),
        decreases built@.len(),
    {
        let ghost before = built@;
        let segment = built.remove(0);
        proof {
            assert(segment@ == segment_views(before)[0]);
            assert(segment@ == all[added as int]);
            assert forall|j: int| 0 <= j < built@.len() implies segment_views(built@)[j] == all.skip(
                added as int + 1,
            )[j] by {
                assert(built@[j] == before[j + 1]);
                assert(segment_views(before)[j + 1] == all.skip(added as int)[j + 1]);
            }
            assert(segment_views(built@) =~= all.skip(added as int + 1));
        }
        segments.add(segment);
        proof {
            assert(segments@ =~= rebuilt(old(segments)@, ids@, first_id, all.take(added as int + 1)));
        }
        added += 1;
    }
    proof {
        assert(all.take(added as int) =~= all);
    }
}

/// Whether the segments `built` are what a rebuild was asked for.
pub fn segments_follow_target(
    params: &CollectionParams,
    collection_hnsw: &HnswConfig,
    built: &Vec<Segment>,
) -> (follow: bool)
    ensures
        follow == follows_target(params@, *collection_hnsw, segment_views(built@)),
{
    if built.len() == 0 {
        return false;
    }
    let mut k: usize = 0;
    while k < built.len()
        invariant
            k <= built.len(),
            forall|j: int|
                0 <= j < k ==> !has_mismatch(
                    params@,
                    *collection_hnsw,
                    (#[trigger] segment_views(built@)[j]).vector_data,
                ),
        decreases built.len() - k,
    {
        if config_has_mismatch(params, collection_hnsw, built[k].config()) {
            assert(has_mismatch(
                params@,
                *collection_hnsw,
                segment_views(built@)[k as int].vector_data,
            ));
            return false;
        }
        k += 1;
    }
    true
}

/// Once proxies stand in the place of segments that could be taken for a
/// rebuild, the segments are under rebuild.
pub proof fn lemma_proxied_is_under_rebuild(
    segments: Map<SegmentId, LockedSegmentView>,
    ids: Seq<SegmentId>,
)
    requires
        can_optimize(segments, ids),
    ensures
        under_rebuild(proxied(segments, ids), ids),
        rolled_back(proxied(segments, ids), ids) == segments,
{
    assert forall|i: int| 0 <= i < ids.len() implies proxied(segments, ids).contains_key(
        #[trigger] ids[i],
    ) && proxied(segments, ids)[ids[i]] is Proxy by {
        assert(ids.contains(ids[i]));
    }
    assert forall|id: SegmentId| segments.contains_key(id) implies rolled_back(
        proxied(segments, ids),
        ids,
    )[id] == segments[id] by {
        if ids.contains(id) {
            let i = choose|i: int| 0 <= i < ids.len() && ids[i] == id;
            assert(segments[ids[i]] is Original);
        }
    }
    assert(rolled_back(proxied(segments, ids), ids) =~= segments);
}

/// After a rebuild none of the segments that were rebuilt is registered any
/// more, and each segment that took their place stands in the registry
/// itself and has no index that would have to be built again.
pub proof fn lemma_rebuilt_follows_target(
    params: CollectionParamsView,
    collection_hnsw: HnswConfig,
    segments: Map<SegmentId, LockedSegmentView>,
    ids: Seq<SegmentId>,
    next_id: nat,
    built: Seq<SegmentView>,
)
    requires
        forall|id: SegmentId| #[trigger] segments.contains_key(id) ==> id < next_id,
        forall|i: int| 0 <= i < ids.len() ==> segments.contains_key(#[trigger] ids[i]),
        follows_target(params, collection_hnsw, built),
    ensures
        forall|i: int|
            0 <= i < ids.len() ==> !rebuilt(segments, ids, next_id, built).contains_key(
                #[trigger] ids[i],
            ),
        forall|id: SegmentId|
            next_id <= id < next_id + built.len() ==> {
                let entry = #[trigger] rebuilt(segments, ids, next_id, built)[id];
                &&& rebuilt(segments, ids, next_id, built).contains_key(id)
                &&& entry == LockedSegmentView::Original(built[id - next_id])
                &&& !has_mismatch(params, collection_hnsw, entry.segment().vector_data)
            },
        forall|id: SegmentId| #[trigger]
            rebuilt(segments, ids, next_id, built).contains_key(id) ==> segments.contains_key(id)
                || next_id <= id < next_id + built.len(),
{
    assert forall|i: int| 0 <= i < ids.len() implies !rebuilt(
        segments,
        ids,
        next_id,
        built,
    ).contains_key(#[trigger] ids[i]) by {
        assert(ids.contains(ids[i]));
    }
}

/// A rebuild leaves every segment it was not asked to rebuild as it was, at
/// each of its steps: whoever reads such a segment finds the same entry
/// before the rebuild, while it runs, and after it ended either way.
pub proof fn lemma_other_segments_untouched(
    segments: Map<SegmentId, LockedSegmentView>,
    ids: Seq<SegmentId>,
    next_id: nat,
    built: Seq<SegmentView>,
    id: SegmentId,
)
    requires
        segments.contains_key(id),
        !ids.contains(id),
        id < next_id,
    ensures
        proxied(segments, ids).contains_key(id) && proxied(segments, ids)[id] == segments[id],
        rolled_back(segments, ids).contains_key(id) && rolled_back(segments, ids)[id]
            == segments[id],
        rebuilt(segments, ids, next_id, built).contains_key(id) && rebuilt(
            segments,
            ids,
            next_id,
            built,
        )[id] == segments[id],
{
}

/// While a segment is under rebuild, whoever reads it through the registry
/// finds the points and the vectors of the segment itself.
pub proof fn lemma_proxy_shows_segment(
    segments: Map<SegmentId, LockedSegmentView>,
    ids: Seq<SegmentId>,
    id: SegmentId,
)
    requires
        segments.contains_key(id),
    ensures
        proxied(segments, ids)[id].segment() == segments[id].segment(),
        rolled_back(segments, ids)[id].segment() == segments[id].segment(),
{
}

} // verus!
