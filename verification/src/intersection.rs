use crate::scalar::Scalar;
use vstd::prelude::*;

verus! {

/// One crossing of a ray and a shape: how far along the ray it lies, and the
/// handle of the shape in the scene that owns it.
#[derive(Clone, Copy, Debug)]
pub struct Intersection {
    distance: Scalar,
    shape: usize,
}

impl Intersection {
    /// Whether the crossing lies ahead of the ray's origin: its distance is
    /// numerically at least zero.
    /// How far along the ray the crossing lies.
    pub closed spec fn spec_distance(self) -> Scalar {
        self.distance
    }

    /// The handle of the shape that the ray crosses.
    pub closed spec fn spec_shape(self) -> usize {
        self.shape
    }

    pub open spec fn visible(self) -> bool {
        Scalar::zero().at_most(self.spec_distance())
    }

    pub fn new(distance: Scalar, shape: usize) -> (i: Intersection)
        ensures
            i.spec_distance() == distance,
            i.spec_shape() == shape,
    {
        Intersection { distance, shape }
    }

    pub fn distance(&self) -> (distance: Scalar)
        ensures
            distance == self.spec_distance(),
    {
        self.distance
    }

    pub fn shape(&self) -> (shape: usize)
        ensures
            shape == self.spec_shape(),
    {
        self.shape
    }
}

/// Whether the crossing at index `k` is the hit among `crossings`: it is
/// visible, no visible crossing is nearer, and none before it is as near.
pub open spec fn is_hit(crossings: Seq<Intersection>, k: int) -> bool {
    &&& 0 <= k < crossings.len()
    &&& crossings[k].visible()
    &&& forall|j: int|
        0 <= j < crossings.len() && (#[trigger] crossings[j]).visible() ==> crossings[k].spec_distance().rank()
            <= crossings[j].spec_distance().rank()
    &&& forall|j: int|
        0 <= j < k && (#[trigger] crossings[j]).visible() ==> crossings[k].spec_distance().rank()
            < crossings[j].spec_distance().rank()
}

/// Whether no crossing at all is visible.
pub open spec fn none_visible(crossings: Seq<Intersection>) -> bool {
    forall|j: int| 0 <= j < crossings.len() ==> !(#[trigger] crossings[j]).visible()
}

/// The index of the visible hit: the first of the nearest crossings at a
/// distance of at least zero. None when every crossing lies behind the origin
/// (or has no distance at all).
pub fn hit_index(intersections: &[Intersection]) -> (found: Option<usize>)
    ensures
        found is None <==> none_visible(intersections@),
        found matches Some(k) ==> is_hit(intersections@, k as int),
{
    let zero = Scalar::zero();
    let mut best: Option<usize> = None;
    let mut i: usize = 0;
    while i < intersections.len()
        invariant
            i <= intersections.len(),
            zero == Scalar::zero(),
            best is None <==> none_visible(intersections@.take(i as int)),
            best matches Some(k) ==> k < i && is_hit(intersections@.take(i as int), k as int),
        decreases intersections.len() - i,
    {
        let ghost before = intersections@.take(i as int);
        let ghost after = intersections@.take(i + 1);
        assert(forall|j: int| 0 <= j < i ==> after[j] == before[j]);
        assert(after[i as int] == intersections@[i as int]);
        let candidate = &intersections[i];
        if candidate.distance.ge(&zero) {
            match best {
                None => {
                    best = Some(i);
                },
                Some(k) => {
                    if candidate.distance.lt(&intersections[k].distance) {
                        best = Some(i);
                    }
                },
            }
        }
        i += 1;
    }
    assert(intersections@.take(i as int) =~= intersections@);
    best
}

/// The visible hit among `intersections`, as [`hit_index`] finds it.
pub fn hit(intersections: &[Intersection]) -> (found: Option<&Intersection>)
    ensures
        found is None <==> none_visible(intersections@),
        found matches Some(nearest) ==> exists|k: int|
            is_hit(intersections@, k) && *nearest == intersections@[k],
{
    match hit_index(intersections) {
        None => None,
        Some(k) => Some(&intersections[k]),
    }
}

/// The hit is unique: two indices that both qualify are the same index.
pub proof fn lemma_hit_unique(crossings: Seq<Intersection>, a: int, b: int)
    requires
        is_hit(crossings, a),
        is_hit(crossings, b),
    ensures
        a == b,
{
}

} // verus!
