use vstd::prelude::*;

verus! {

/// What the scan has kept so far: the index of the primitive that gave the
/// nearest hit, and that hit's distance key.
///
/// A distance key orders as the hit distances do. Hits are only accepted
/// beyond a positive lower bound, and for positive distances the IEEE bit
/// pattern of the distance is such a key.
#[derive(Clone, Copy, Debug, PartialEq, Eq, Structural)]
pub struct Nearest {
    pub index: usize,
    pub key: u32,
}

/// `i` is the hit to keep among `c`: present, no farther than any other
/// present hit, and strictly nearer than every present hit after it (of equal
/// hits the scan keeps the last one, since a hit exactly at the current
/// bound still counts).
pub open spec fn is_nearest(c: Seq<Option<u32>>, i: int) -> bool {
    &&& 0 <= i < c.len()
    &&& c[i] is Some
    &&& forall|j: int| 0 <= j < c.len() && c[j] is Some ==> c[i]->0 <= c[j]->0
    &&& forall|j: int| i < j < c.len() && c[j] is Some ==> c[i]->0 < c[j]->0
}

/// Folds the hit of primitive `index` into what the scan has kept so far:
/// a candidate replaces the kept hit unless it lies farther.
pub fn keep_nearest(best: Option<Nearest>, index: usize, candidate: Option<u32>) -> (r: Option<
    Nearest,
>)
    ensures
        candidate is None ==> r == best,
        candidate is Some && (best is None || candidate->0 <= best->0.key) ==> r == Some(
            Nearest { index, key: candidate->0 },
        ),
        candidate is Some && best is Some && best->0.key < candidate->0 ==> r == best,
{
    match candidate {
        None => best,
        Some(key) => match best {
            Some(b) if b.key < key => best,
            _ => Some(Nearest { index, key }),
        },
    }
}

/// Scans the hits that the primitives of a scene reported for one ray
/// (`None` where a primitive was missed) and returns the nearest, or `None`
/// when every primitive was missed.
pub fn nearest_hit(candidates: &Vec<Option<u32>>) -> (r: Option<Nearest>)
    ensures
        r is None <==> forall|j: int| 0 <= j < candidates@.len() ==> candidates@[j] is None,
        r is Some ==> is_nearest(candidates@, r->0.index as int) && candidates@[r->0.index as int]
            == Some(r->0.key),
{
    let mut best: Option<Nearest> = None;
    let mut k: usize = 0;
    while k < candidates.len()
        invariant
            k <= candidates@.len(),
            best is None <==> forall|j: int| 0 <= j < k ==> candidates@[j] is None,
            best is Some ==> is_nearest(candidates@.take(k as int), best->0.index as int)
                && candidates@[best->0.index as int] == Some(best->0.key),
        decreases candidates@.len() - k,
    {
        best = keep_nearest(best, k, candidates[k]);
        k = k + 1;
    }
    assert(candidates@.take(k as int) =~= candidates@);
    best
}

} // verus!
