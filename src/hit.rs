//! Choosing which surface a ray meets first.
//!
//! Ray parameters reach this module as keys: `u32` values whose order is the
//! order of the parameters they stand for. The arithmetic that finds where a
//! ray's line meets a sphere happens outside; what is decided here is which of
//! those meetings counts as the hit, on one sphere and across a whole scene.
use vstd::prelude::*;

verus! {

/// Which of a sphere's two roots was taken.
#[derive(Clone, Copy, PartialEq, Eq, Structural, Debug)]
pub enum Side {
    Near,
    Far,
}

/// The two parameters at which a ray's line meets a sphere, nearer first.
#[derive(Clone, Copy, Debug)]
pub struct Roots {
    near: u32,
    far: u32,
}

/// The hit that a scan over a scene settles on: which member, which of its
/// roots, and at which key.
#[derive(Clone, Copy, PartialEq, Eq, Structural, Debug)]
pub struct Hit {
    pub index: usize,
    pub side: Side,
    pub t: u32,
}

impl Roots {
    #[verifier::type_invariant]
    spec fn ordered(self) -> bool {
        self.near <= self.far
    }

    /// The nearer root.
    pub closed spec fn near_key(self) -> u32 {
        self.near
    }

    /// The farther root.
    pub closed spec fn far_key(self) -> u32 {
        self.far
    }

    /// The pair of roots `a` and `b`, in whichever order they come.
    pub fn new(a: u32, b: u32) -> (r: Roots)
        ensures
            r.near_key() == if a <= b { a } else { b },
            r.far_key() == if a <= b { b } else { a },
    {
        if a <= b {
            Roots { near: a, far: b }
        } else {
            Roots { near: b, far: a }
        }
    }

    pub fn near(&self) -> (t: u32)
        ensures
            t == self.near_key(),
    {
        self.near
    }

    pub fn far(&self) -> (t: u32)
        ensures
            t == self.far_key(),
    {
        self.far
    }

    /// The root on the given side.
    pub fn key(&self, side: Side) -> (t: u32)
        ensures
            t == root_key(*self, side),
    {
        match side {
            Side::Near => self.near,
            Side::Far => self.far,
        }
    }
}

/// `t` lies strictly between `lo` and `hi`.
pub open spec fn inside(t: u32, lo: u32, hi: u32) -> bool {
    lo < t && t < hi
}

pub open spec fn root_key(r: Roots, side: Side) -> u32 {
    match side {
        Side::Near => r.near_key(),
        Side::Far => r.far_key(),
    }
}

/// The root a sphere reports within the open interval `(lo, hi)`: the near
/// one when it lies there, else the far one when it lies there.
pub open spec fn root_in(r: Roots, lo: u32, hi: u32) -> Option<Side> {
    if inside(r.near_key(), lo, hi) {
        Some(Side::Near)
    } else if inside(r.far_key(), lo, hi) {
        Some(Side::Far)
    } else {
        None
    }
}

/// The key at which one member of a scene is hit within `(lo, hi)`, given the
/// roots of its line with the ray (`None`: the line misses it).
pub open spec fn hit_key(c: Option<Roots>, lo: u32, hi: u32) -> Option<u32> {
    match c {
        Some(r) => match root_in(r, lo, hi) {
            Some(side) => Some(root_key(r, side)),
            None => None,
        },
        None => None,
    }
}

/// No hit at key `k` comes before `t`.
pub open spec fn not_before(k: Option<u32>, t: u32) -> bool {
    match k {
        Some(s) => t <= s,
        None => true,
    }
}

/// Any hit at key `k` comes after `t`.
pub open spec fn strictly_after(k: Option<u32>, t: u32) -> bool {
    match k {
        Some(s) => t < s,
        None => true,
    }
}

/// `r` is the nearest hit among the first `n` members of `c` within
/// `(lo, hi)`; among equally near ones, the first in the sequence.
pub open spec fn is_nearest_among(
    c: Seq<Option<Roots>>,
    n: int,
    lo: u32,
    hi: u32,
    r: Option<Hit>,
) -> bool {
    match r {
        None => forall|i: int| 0 <= i < n ==> #[trigger] hit_key(c[i], lo, hi) is None,
        Some(h) => {
            &&& h.index < n
            &&& c[h.index as int] is Some
            &&& root_in(c[h.index as int].unwrap(), lo, hi) == Some(h.side)
            &&& h.t == root_key(c[h.index as int].unwrap(), h.side)
            &&& forall|i: int| 0 <= i < n ==> not_before(#[trigger] hit_key(c[i], lo, hi), h.t)
            &&& forall|i: int|
                0 <= i < h.index ==> strictly_after(#[trigger] hit_key(c[i], lo, hi), h.t)
        },
    }
}

/// `r` is the nearest hit in the whole of `c` within `(lo, hi)`.
pub open spec fn is_nearest(c: Seq<Option<Roots>>, lo: u32, hi: u32, r: Option<Hit>) -> bool {
    is_nearest_among(c, c.len() as int, lo, hi, r)
}

/// The root of one sphere that a ray hits within `(t_min, t_max)`: the near
/// root when it lies strictly inside, else the far root when it does, else none.
pub fn pick_root(roots: &Roots, t_min: u32, t_max: u32) -> (r: Option<Side>)
    ensures
        r == root_in(*roots, t_min, t_max),
{
    if roots.near < t_max && roots.near > t_min {
        Some(Side::Near)
    } else if roots.far < t_max && roots.far > t_min {
        Some(Side::Far)
    } else {
        None
    }
}

/// Scans the members of a scene in order, each searched only for hits nearer
/// than the best so far, and returns the nearest hit within `(t_min, t_max)`.
pub fn nearest_hit(candidates: &Vec<Option<Roots>>, t_min: u32, t_max: u32) -> (r: Option<Hit>)
    ensures
        is_nearest(candidates@, t_min, t_max, r),
{
    let mut best: Option<Hit> = None;
    let mut closest: u32 = t_max;
    let mut i: usize = 0;
    while i < candidates.len()
        invariant
            i <= candidates@.len(),
            is_nearest_among(candidates@, i as int, t_min, t_max, best),
            best is None ==> closest == t_max,
            best is Some ==> closest == best.unwrap().t,
            closest <= t_max,
        decreases candidates@.len() - i,
    {
        let c = &candidates[i];
        match c {
            Some(roots) => {
                proof {
                    use_type_invariant(roots);
                }
                match pick_root(roots, t_min, closest) {
                    Some(side) => {
                        let t = roots.key(side);
                        best = Some(Hit { index: i, side, t });
                        closest = t;
                    },
                    None => {},
                }
            },
            None => {},
        }
        i += 1;
    }
    best
}

/// The nearest hit does not depend on the order in which a scene's members
/// come: over two sequences that hold the same members, each as often, the
/// scan finds a hit in both or in neither, and the hits lie at the same key.
pub proof fn lemma_nearest_ignores_order(
    a: Seq<Option<Roots>>,
    b: Seq<Option<Roots>>,
    lo: u32,
    hi: u32,
    ra: Option<Hit>,
    rb: Option<Hit>,
)
    requires
        a.to_multiset() == b.to_multiset(),
        is_nearest(a, lo, hi, ra),
        is_nearest(b, lo, hi, rb),
    ensures
        ra is Some <==> rb is Some,
        ra is Some ==> ra.unwrap().t == rb.unwrap().t,
{
    a.to_multiset_ensures();
    b.to_multiset_ensures();
    if ra is Some {
        let ha = ra.unwrap();
        let x = a[ha.index as int];
        assert(a.contains(x));
        assert(b.to_multiset().count(x) > 0);
        assert(b.contains(x));
        let j = choose|j: int| 0 <= j < b.len() && b[j] == x;
        assert(hit_key(b[j], lo, hi) == Some(ha.t));
        assert(rb is Some);
        let hb = rb.unwrap();
        assert(hb.t <= ha.t);
    }
    if rb is Some {
        let hb = rb.unwrap();
        let y = b[hb.index as int];
        assert(b.contains(y));
        assert(a.to_multiset().count(y) > 0);
        assert(a.contains(y));
        let k = choose|k: int| 0 <= k < a.len() && a[k] == y;
        assert(hit_key(a[k], lo, hi) == Some(hb.t));
        assert(ra is Some);
        let ha = ra.unwrap();
        assert(ha.t <= hb.t);
    }
}

} // verus!
