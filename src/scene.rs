//! Nearest-hit selection over a scene's per-sphere intersection results.
use vstd::prelude::*;

verus! {

/// Whether some sphere reports a hit.
pub open spec fn any_hit(hits: Seq<Option<u64>>) -> bool {
    exists|j: int| 0 <= j < hits.len() && #[trigger] hits[j] is Some
}

/// Sphere `i` is the nearest hit: it reports a hit, no sphere is hit closer,
/// and every later sphere (the scan runs from the last sphere to the first)
/// is strictly farther, so that ties go to the highest index.
pub open spec fn is_nearest(hits: Seq<Option<u64>>, i: int) -> bool {
    &&& 0 <= i < hits.len()
    &&& hits[i] is Some
    &&& forall|j: int| 0 <= j < hits.len() && #[trigger] hits[j] is Some
        ==> hits[i]->0 <= hits[j]->0
    &&& forall|j: int| i < j < hits.len() && #[trigger] hits[j] is Some
        ==> hits[i]->0 < hits[j]->0
}

/// Picks the sphere that a ray hits first.
///
/// `hits[i]` is the magnitude key of the distance at which the ray hits
/// sphere `i`, or `None` where it misses. Returns the index of the nearest
/// hit, or `None` when every sphere is missed (in particular for an empty
/// scene). Of spheres hit at the same distance the one with the highest index
/// wins.
pub fn nearest_hit(hits: &Vec<Option<u64>>) -> (r: Option<usize>)
    ensures
        r is None <==> !any_hit(hits@),
        r matches Some(i) ==> is_nearest(hits@, i as int),
{
    let mut best: Option<usize> = None;
    let mut i: usize = hits.len();
    while i > 0
        invariant
            i <= hits.len(),
            best is None <==> (forall|j: int| i <= j < hits.len() ==> #[trigger] hits@[j] is None),
            best matches Some(b) ==> {
                &&& i <= b < hits.len()
                &&& hits@[b as int] is Some
                &&& forall|j: int| i <= j < hits.len() && #[trigger] hits@[j] is Some
                    ==> hits@[b as int]->0 <= hits@[j]->0
                &&& forall|j: int| b < j < hits.len() && #[trigger] hits@[j] is Some
                    ==> hits@[b as int]->0 < hits@[j]->0
            },
        decreases i,
    {
        i = i - 1;
        if let Some(d) = hits[i] {
            let closer = match best {
                None => true,
                Some(b) => match hits[b] {
                    Some(db) => d < db,
                    None => false,
                },
            };
            if closer {
                best = Some(i);
            }
        }
    }
    proof {
        if best is None {
            assert(!any_hit(hits@));
        }
    }
    best
}

/// When every sphere is missed, and in particular in an empty scene, no hit
/// is reported: the path ends at once and contributes nothing.
pub proof fn lemma_all_missed_no_hit(hits: Seq<Option<u64>>)
    requires
        forall|j: int| 0 <= j < hits.len() ==> #[trigger] hits[j] is None,
    ensures
        !any_hit(hits),
{
}

/// An empty scene reports no hit for any ray.
pub proof fn lemma_empty_scene_no_hit(hits: Seq<Option<u64>>)
    requires
        hits.len() == 0,
    ensures
        !any_hit(hits),
{
}

} // verus!
