//! The scene: an ordered collection of surfaces, searched as one.
use vstd::prelude::*;

use crate::hit::{is_nearest, nearest_hit, Hit, Roots};

verus! {

/// The surfaces of a scene, in the order in which they were added.
pub struct HittableList<T> {
    objects: Vec<T>,
}

impl<T> View for HittableList<T> {
    type V = Seq<T>;

    closed spec fn view(&self) -> Seq<T> {
        self.objects@
    }
}

impl<T> HittableList<T> {
    /// An empty scene.
    pub fn new() -> (r: Self)
        ensures
            r@ == Seq::<T>::empty(),
    {
        HittableList { objects: Vec::new() }
    }

    /// Removes every surface.
    pub fn clear(&mut self)
        ensures
            final(self)@ == Seq::<T>::empty(),
    {
        self.objects.clear();
    }

    /// Adds a surface after the ones already there.
    pub fn add(&mut self, object: T)
        ensures
            final(self)@ == old(self)@.push(object),
    {
        self.objects.push(object);
    }

    pub fn len(&self) -> (n: usize)
        ensures
            n == self@.len(),
    {
        self.objects.len()
    }

    /// The surface at position `i`.
    pub fn get(&self, i: usize) -> (o: &T)
        requires
            i < self@.len(),
        ensures
            *o == self@[i as int],
    {
        &self.objects[i]
    }

    /// The nearest hit of a ray on the scene within `(t_min, t_max)`.
    /// `roots_of` gives, for one surface, where the ray's line meets it (as
    /// keys), or `None` where it does not; it is asked once per surface, in
    /// order, and the members are then scanned as `nearest_hit` does.
    pub fn hit<F: Fn(&T) -> Option<Roots>>(&self, roots_of: F, t_min: u32, t_max: u32) -> (r:
        Option<Hit>)
        requires
            forall|i: int| 0 <= i < self@.len() ==> roots_of.requires((&self@[i],)),
        ensures
            exists|c: Seq<Option<Roots>>|
                {
                    &&& c.len() == self@.len()
                    &&& forall|i: int|
                        0 <= i < c.len() ==> roots_of.ensures((&self@[i],), #[trigger] c[i])
                    &&& is_nearest(c, t_min, t_max, r)
                },
    {
        let mut found: Vec<Option<Roots>> = Vec::new();
        let mut i: usize = 0;
        while i < self.objects.len()
            invariant
                i <= self.objects@.len(),
                found@.len() == i,
                forall|j: int| 0 <= j < self@.len() ==> roots_of.requires((&self@[j],)),
                forall|j: int|
                    0 <= j < i ==> roots_of.ensures((&self@[j],), #[trigger] found@[j]),
            decreases self.objects@.len() - i,
        {
            let object = &self.objects[i];
            assert(roots_of.requires((&self@[i as int],)));
            let roots = roots_of(object);
            found.push(roots);
            i += 1;
        }
        let r = nearest_hit(&found, t_min, t_max);
        assert(found@.len() == self@.len());
        r
    }
}

} // verus!
